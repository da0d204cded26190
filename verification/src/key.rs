use vstd::prelude::*;

use crate::errors::InvalidLength;
use crate::wire::WireMessage;

verus! {

/// Number of bytes in a BN254 public key.
pub const KEY_LEN: usize = 32;

/// A validated BN254 public key: exactly [`KEY_LEN`] bytes, by construction.
///
/// No instance with another length can exist, since the field is a fixed-size
/// array; the length check lives entirely at the conversion from the wire
/// form.
#[derive(Clone, Copy, Debug)]
pub struct PubKey {
    pub key: [u8; 32],
}

impl View for PubKey {
    type V = Seq<u8>;

    open spec fn view(&self) -> Seq<u8> {
        self.key@
    }
}

impl PartialEq for PubKey {
    /// Structural equality over the byte sequence.
    fn eq(&self, other: &PubKey) -> (r: bool) {
        let mut i: usize = 0;
        while i < KEY_LEN
            invariant
                i <= KEY_LEN,
                forall|j: int| 0 <= j < i ==> self.key@[j] == other.key@[j],
            decreases KEY_LEN - i,
        {
            if self.key[i] != other.key[i] {
                return false;
            }
            i += 1;
        }
        proof {
            assert(self.key =~= other.key);
        }
        true
    }
}

impl vstd::std_specs::cmp::PartialEqSpecImpl for PubKey {
    open spec fn obeys_eq_spec() -> bool {
        true
    }

    open spec fn eq_spec(&self, other: &PubKey) -> bool {
        self.key == other.key
    }
}

/// The wire message `w` is the encoding of the key `k`: same bytes.
pub open spec fn encodes(k: PubKey, w: WireMessage) -> bool {
    w@ == k@
}

/// The result `r` is what decoding the wire message `w` must produce:
/// the same bytes on the one valid length, and an error naming both the
/// required and the seen length otherwise.
pub open spec fn decodes_to(w: WireMessage, r: Result<PubKey, InvalidLength>) -> bool {
    &&& (r is Ok <==> w@.len() == KEY_LEN)
    &&& (r is Ok ==> r.unwrap()@ == w@)
    &&& (r is Err ==> r.unwrap_err() == (InvalidLength {
        expected: KEY_LEN,
        found: w@.len() as usize,
    }))
}

/// Copies a vector that holds exactly [`KEY_LEN`] bytes into a fixed array of
/// the same bytes.
pub fn copy_key_bytes(v: &Vec<u8>) -> (r: [u8; 32])
    requires
        v@.len() == KEY_LEN,
    ensures
        r@ == v@,
{
    let mut key = [0u8; 32];
    let mut i: usize = 0;
    while i < KEY_LEN
        invariant
            i <= KEY_LEN,
            v@.len() == KEY_LEN,
            forall|j: int| 0 <= j < i ==> key@[j] == v@[j],
        decreases KEY_LEN - i,
    {
        key[i] = v[i];
        i += 1;
    }
    proof {
        assert(key@ =~= v@);
    }
    key
}

impl PubKey {
    /// Validates a wire message and reinterprets its byte field as a key.
    ///
    /// Succeeds exactly when the field holds [`KEY_LEN`] bytes, taking them
    /// over unmodified; any other length yields an [`InvalidLength`] that
    /// reports the observed length.
    pub fn decode(wire: WireMessage) -> (r: Result<PubKey, InvalidLength>)
        ensures
            decodes_to(wire, r),
    {
        let n = wire.key.len();
        if n == KEY_LEN {
            Ok(PubKey { key: copy_key_bytes(&wire.key) })
        } else {
            Err(InvalidLength { expected: KEY_LEN, found: n })
        }
    }

    /// Converts the key into its wire message, the byte field holding the same
    /// bytes. This direction never fails: a fixed-size array always fits a
    /// variable-length field.
    pub fn encode(self) -> (r: WireMessage)
        ensures
            encodes(self, r),
    {
        let mut key: Vec<u8> = Vec::new();
        let mut i: usize = 0;
        while i < KEY_LEN
            invariant
                i <= KEY_LEN,
                key@.len() == i,
                forall|j: int| 0 <= j < i ==> key@[j] == self@[j],
            decreases KEY_LEN - i,
        {
            key.push(self.key[i]);
            i += 1;
        }
        proof {
            assert(key@ =~= self@);
        }
        WireMessage { key }
    }
}

/// Law: round-trip identity. Whatever `encode` produced from a key, `decode`
/// of it must return exactly that key, with no error possible.
pub proof fn lemma_wire_round_trip(k: PubKey, w: WireMessage, r: Result<PubKey, InvalidLength>)
    requires
        encodes(k, w),
        decodes_to(w, r),
    ensures
        r == Ok::<PubKey, InvalidLength>(k),
{
    assert(w@.len() == KEY_LEN);
    let k2 = r.unwrap();
    assert(k2.key =~= k.key);
}

} // verus!
