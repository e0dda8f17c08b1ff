use crate::hex::{hex_byte, push_hex_byte};
use vstd::prelude::*;
use vstd::std_specs::cmp::PartialEqSpecImpl;
use vstd::std_specs::convert::FromSpecImpl;
use vstd::string::*;

verus! {

/// The xpub/ypub/zpub convention, read as a hint about the address type the
/// owner of a key intends. Nothing here enforces it; callers may ignore it.
#[derive(Eq, PartialEq, Structural, Debug, Clone, Copy)]
pub enum Hint {
    /// Standard BIP32 hint.
    Legacy,
    /// BIP32 + BIP49 hint for witness-via-P2SH.
    Compatibility,
    /// BIP32 + BIP84 hint for native SegWit.
    SegWit,
}

/// Byte-wise comparison of two slices: true exactly when they have the same
/// length and the same byte at every position.
fn same_bytes(a: &[u8], b: &[u8]) -> (r: bool)
    ensures
        r <==> a@ == b@,
{
    if a.len() != b.len() {
        return false;
    }
    let mut i: usize = 0;
    while i < a.len()
        invariant
            a@.len() == b@.len(),
            i <= a@.len(),
            forall|j: int| 0 <= j < i ==> a@[j] == b@[j],
        decreases a@.len() - i,
    {
        if a[i] != b[i] {
            return false;
        }
        i += 1;
    }
    assert(a@ =~= b@);
    true
}

/// A 4-byte key fingerprint: an opaque identifier that links a child key to
/// its parent without carrying the parent's public key.
#[derive(Clone, Copy, Debug)]
pub struct KeyFingerprint(pub [u8; 4]);

impl View for KeyFingerprint {
    type V = Seq<u8>;

    /// The four stored bytes, in order.
    open spec fn view(&self) -> Seq<u8> {
        self.0@
    }
}

impl FromSpecImpl<[u8; 4]> for KeyFingerprint {
    open spec fn obeys_from_spec() -> bool {
        true
    }

    open spec fn from_spec(v: [u8; 4]) -> Self {
        KeyFingerprint(v)
    }
}

impl From<[u8; 4]> for KeyFingerprint {
    /// Wraps the bytes verbatim.
    fn from(v: [u8; 4]) -> (r: Self) {
        Self(v)
    }
}

impl PartialEqSpecImpl for KeyFingerprint {
    open spec fn obeys_eq_spec() -> bool {
        true
    }

    /// Two fingerprints are equal when they hold the same bytes.
    open spec fn eq_spec(&self, other: &Self) -> bool {
        self@ == other@
    }
}

impl PartialEq for KeyFingerprint {
    fn eq(&self, other: &Self) -> (r: bool) {
        same_bytes(self.0.as_slice(), other.0.as_slice())
    }
}

impl Eq for KeyFingerprint {

}

impl KeyFingerprint {
    /// What `eq_slice` decides: the stored bytes are exactly `other`.
    pub open spec fn spec_eq_slice(self, other: Seq<u8>) -> bool {
        self@ == other
    }

    /// Determines whether the slice holds the same bytes as this fingerprint.
    /// A slice of any length other than 4 never matches.
    pub fn eq_slice(self, other: &[u8]) -> (r: bool)
        ensures
            r == self.spec_eq_slice(other@),
            other@.len() != 4 ==> !r,
    {
        same_bytes(self.0.as_slice(), other)
    }

    /// The fingerprint as text: the type's name, then the four bytes as a
    /// bracketed, comma-separated list in lower-case hexadecimal.
    pub open spec fn spec_debug_string(self) -> Seq<char> {
        "KeyFingerprint ["@ + hex_byte(self.0[0]) + ", "@ + hex_byte(self.0[1]) + ", "@ + hex_byte(
            self.0[2],
        ) + ", "@ + hex_byte(self.0[3]) + "]"@
    }

    /// Renders the fingerprint for diagnostics, bytes in hexadecimal, as in
    /// `KeyFingerprint [de, ad, be, ef]`.
    pub fn debug_string(&self) -> (s: String)
        ensures
            s@ == self.spec_debug_string(),
    {
        let mut s = String::from_str("KeyFingerprint [");
        push_hex_byte(&mut s, self.0[0]);
        s.append(", ");
        push_hex_byte(&mut s, self.0[1]);
        s.append(", ");
        push_hex_byte(&mut s, self.0[2]);
        s.append(", ");
        push_hex_byte(&mut s, self.0[3]);
        s.append("]");
        s
    }
}

/// A 32-byte chain code: opaque entropy that key derivation consumes to
/// produce child keys and child chain codes.
#[derive(Clone, Copy, Debug)]
pub struct ChainCode(pub [u8; 32]);

impl View for ChainCode {
    type V = Seq<u8>;

    /// The thirty-two stored bytes, in order.
    open spec fn view(&self) -> Seq<u8> {
        self.0@
    }
}

impl FromSpecImpl<[u8; 32]> for ChainCode {
    open spec fn obeys_from_spec() -> bool {
        true
    }

    open spec fn from_spec(v: [u8; 32]) -> Self {
        ChainCode(v)
    }
}

impl From<[u8; 32]> for ChainCode {
    /// Wraps the bytes verbatim.
    fn from(v: [u8; 32]) -> (r: Self) {
        Self(v)
    }
}

impl PartialEqSpecImpl for ChainCode {
    open spec fn obeys_eq_spec() -> bool {
        true
    }

    /// Two chain codes are equal when they hold the same bytes.
    open spec fn eq_spec(&self, other: &Self) -> bool {
        self@ == other@
    }
}

impl PartialEq for ChainCode {
    fn eq(&self, other: &Self) -> (r: bool) {
        same_bytes(self.0.as_slice(), other.0.as_slice())
    }
}

impl Eq for ChainCode {

}

/// Information associated with an extended key: where it sits in the tree
/// and what it was derived with.
#[derive(Clone, Copy, Debug)]
pub struct XKeyInfo {
    /// The key's depth in the tree; 0 for a master key.
    pub depth: u8,
    /// The fingerprint of the parent key.
    pub parent: KeyFingerprint,
    /// The derivation index of the key. If the most significant bit is set,
    /// the key is hardened.
    pub index: u32,
    /// The chain code used to derive child keys.
    pub chain_code: ChainCode,
    /// The key's preferred output type.
    pub hint: Hint,
}

impl PartialEqSpecImpl for XKeyInfo {
    open spec fn obeys_eq_spec() -> bool {
        true
    }

    /// Two records are equal when all five fields are.
    open spec fn eq_spec(&self, other: &Self) -> bool {
        &&& self.depth == other.depth
        &&& self.parent@ == other.parent@
        &&& self.index == other.index
        &&& self.chain_code@ == other.chain_code@
        &&& self.hint == other.hint
    }
}

impl PartialEq for XKeyInfo {
    fn eq(&self, other: &Self) -> (r: bool) {
        self.depth == other.depth && self.parent == other.parent && self.index == other.index
            && self.chain_code == other.chain_code && self.hint == other.hint
    }
}

} // verus!
