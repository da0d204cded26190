use vstd::prelude::*;

verus! {

/// The wire-format message for a BN254 public key, as a wire decoder delivers
/// it: a single byte field whose length is unconstrained at the type level.
///
/// This is the unvalidated counterpart of [`crate::key::PubKey`]; the length
/// check happens only at the conversion between the two.
#[derive(Clone, Debug)]
pub struct WireMessage {
    pub key: Vec<u8>,
}

impl View for WireMessage {
    type V = Seq<u8>;

    open spec fn view(&self) -> Seq<u8> {
        self.key@
    }
}

/// The type identifier of the wire message, as a sequence of characters.
pub open spec fn spec_type_url() -> Seq<char> {
    "/cosmos.crypto.bn254.PubKey"@
}

/// Returns the type identifier under which the wire message is registered.
///
/// External dispatch mechanisms select the decoder for a payload by this exact
/// string, so it must never change.
pub fn type_url() -> (r: &'static str)
    ensures
        r@ == spec_type_url(),
{
    "/cosmos.crypto.bn254.PubKey"
}

} // verus!
