use vstd::prelude::*;

use crate::errors::InvalidLength;
use crate::key::{PubKey, KEY_LEN};

verus! {

/// The canonical padded base64 encoding of a byte sequence, under the
/// standard alphabet. Left uninterpreted: the codec itself is an external
/// collaborator, and only the round-trip behaviour matters here.
pub uninterp spec fn b64_of(b: Seq<u8>) -> Seq<char>;

/// Some byte sequence has `s` as its canonical base64 encoding.
pub open spec fn is_b64(s: Seq<char>) -> bool {
    exists|b: Seq<u8>| s == b64_of(b)
}

/// Relies on base64's `Engine::encode` with the `STANDARD` engine: the result
/// is the canonical padded encoding of the input bytes, a function of them
/// alone. `encode` panics only when the output length overflows `usize`,
/// which the bound on the input length rules out.
#[verifier::external_body]
fn b64_encode(b: &[u8]) -> (r: String)
    requires
        b@.len() <= usize::MAX / 4,
    ensures
        r@ == b64_of(b@),
{
    base64::Engine::encode(&base64::engine::general_purpose::STANDARD, b)
}

/// Relies on base64's `Engine::decode` with the `STANDARD` engine: it returns
/// exactly the bytes whose canonical encoding the input is, and rejects every
/// other input (the engine demands canonical padding and refuses trailing
/// bits, so only canonical encodings are accepted).
#[verifier::external_body]
fn b64_decode(s: &str) -> (r: Option<Vec<u8>>)
    ensures
        forall|b: Seq<u8>| s@ == b64_of(b) ==> r is Some && r.unwrap()@ == b,
        r is Some ==> s@ == b64_of(r.unwrap()@),
{
    match base64::Engine::decode(&base64::engine::general_purpose::STANDARD, s) {
        Ok(v) => Some(v),
        Err(_) => None,
    }
}

/// Failure of the textual decoding path.
#[derive(Clone, Copy, Debug, PartialEq, Eq, Structural)]
pub enum TextError {
    /// The input is not canonical base64.
    Base64,
    /// The decoded bytes had the wrong count.
    Length(InvalidLength),
}

/// The string `s` is the textual form of the key `k`: the base64 encoding of
/// its bytes.
pub open spec fn text_encodes(k: PubKey, s: Seq<char>) -> bool {
    s == b64_of(k@)
}

/// The result `r` is what decoding the textual form `s` must produce: the
/// decoded bytes when they number [`KEY_LEN`], a length error naming the seen
/// count when they do not, and a base64 error when `s` encodes nothing.
pub open spec fn text_decodes_to(s: Seq<char>, r: Result<PubKey, TextError>) -> bool {
    &&& (r is Ok ==> s == b64_of(r.unwrap()@))
    &&& (forall|b: Seq<u8>| s == b64_of(b) && b.len() == KEY_LEN ==> r is Ok && r.unwrap()@ == b)
    &&& (forall|b: Seq<u8>|
        s == b64_of(b) && b.len() != KEY_LEN ==> r == Err::<PubKey, TextError>(TextError::Length(
            InvalidLength { expected: KEY_LEN, found: b.len() as usize },
        )))
    &&& (!is_b64(s) ==> r == Err::<PubKey, TextError>(TextError::Base64))
}

impl PubKey {
    /// Returns the human-readable form of the key: its bytes in standard
    /// padded base64.
    pub fn to_text(&self) -> (r: String)
        ensures
            text_encodes(*self, r@),
    {
        b64_encode(self.key.as_slice())
    }

    /// Decodes the human-readable form: base64 first, then the same length
    /// check as on the wire path, so the textual layer cannot weaken the
    /// length invariant.
    pub fn from_text(s: &str) -> (r: Result<PubKey, TextError>)
        ensures
            text_decodes_to(s@, r),
    {
        match b64_decode(s) {
            None => Err(TextError::Base64),
            Some(v) => {
                if v.len() == KEY_LEN {
                    Ok(PubKey { key: crate::key::copy_key_bytes(&v) })
                } else {
                    Err(TextError::Length(InvalidLength { expected: KEY_LEN, found: v.len() }))
                }
            },
        }
    }
}

/// Law: textual round-trip. Whatever string is the textual form of a key,
/// decoding that string must return exactly that key; and the textual form is
/// itself valid base64.
pub proof fn lemma_text_round_trip(k: PubKey, s: Seq<char>, r: Result<PubKey, TextError>)
    requires
        text_encodes(k, s),
        text_decodes_to(s, r),
    ensures
        r == Ok::<PubKey, TextError>(k),
        is_b64(s),
{
    assert(k@.len() == KEY_LEN);
    assert(r is Ok && r.unwrap()@ == k@);
    let k2 = r.unwrap();
    assert(k2.key =~= k.key);
}

} // verus!
