//! A typed wrapper around a fixed-size BN254 public key and its validated
//! conversions.
//!
//! The wire format carries the key as a variable-length byte field; the typed
//! form holds exactly 32 bytes. The conversion boundary is the single point
//! where the length is enforced: decoding fails with [`errors::InvalidLength`]
//! on any other length, and encoding back to the wire form cannot fail. A
//! base64 textual form is provided for human-readable encodings, with the same
//! length check on the way in.

pub mod errors;
pub mod key;
pub mod text;
pub mod wire;
