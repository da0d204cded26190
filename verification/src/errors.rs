use vstd::prelude::*;

verus! {

/// A byte sequence meant to fill a fixed-size field had the wrong length.
///
/// Carries both the required length and the length that was actually seen, so
/// that a caller can report the mismatch instead of a bare failure.
#[derive(Clone, Copy, Debug, PartialEq, Eq, Structural)]
pub struct InvalidLength {
    pub expected: usize,
    pub found: usize,
}

} // verus!
