use crate::primitives::{ChainCode, Hint, KeyFingerprint, XKeyInfo};
use vstd::prelude::*;
use vstd::std_specs::cmp::PartialEqSpec;
use vstd::std_specs::convert::FromSpec;

verus! {

/// A fingerprint built from four bytes matches a slice holding those bytes.
pub proof fn lemma_fingerprint_matches_own_bytes(b: [u8; 4])
    ensures
        KeyFingerprint::from_spec(b).spec_eq_slice(b@),
{
}

/// Fingerprints built from different bytes are unequal, and neither matches
/// the other's bytes.
pub proof fn lemma_distinct_bytes_distinct_fingerprints(b1: [u8; 4], b2: [u8; 4])
    requires
        b1 != b2,
    ensures
        !KeyFingerprint::from_spec(b1).eq_spec(&KeyFingerprint::from_spec(b2)),
        KeyFingerprint::from_spec(b1) != KeyFingerprint::from_spec(b2),
        !KeyFingerprint::from_spec(b1).spec_eq_slice(b2@),
        !KeyFingerprint::from_spec(b2).spec_eq_slice(b1@),
{
    if b1@ == b2@ {
        assert(b1 =~= b2);
    }
}

/// A fingerprint never matches a byte sequence whose length is not 4,
/// whatever that sequence holds.
pub proof fn lemma_eq_slice_rejects_other_lengths(fp: KeyFingerprint, other: Seq<u8>)
    requires
        other.len() != 4,
    ensures
        !fp.spec_eq_slice(other),
{
}

/// Equality of fingerprints is equality of the values themselves: the four
/// bytes are all there is to one.
pub proof fn lemma_fingerprint_eq_is_identity(a: KeyFingerprint, b: KeyFingerprint)
    ensures
        a.eq_spec(&b) <==> a == b,
{
    if a@ == b@ {
        assert(a.0 =~= b.0);
    }
}

/// Equality of chain codes is equality of the values themselves.
pub proof fn lemma_chain_code_eq_is_identity(a: ChainCode, b: ChainCode)
    ensures
        a.eq_spec(&b) <==> a == b,
{
    if a@ == b@ {
        assert(a.0 =~= b.0);
    }
}

/// Equality of chain codes is reflexive.
pub proof fn lemma_chain_code_eq_reflexive(a: ChainCode)
    ensures
        a.eq_spec(&a),
{
}

/// Equality of chain codes is symmetric.
pub proof fn lemma_chain_code_eq_symmetric(a: ChainCode, b: ChainCode)
    ensures
        a.eq_spec(&b) <==> b.eq_spec(&a),
{
}

/// Equality of chain codes is transitive.
pub proof fn lemma_chain_code_eq_transitive(a: ChainCode, b: ChainCode, c: ChainCode)
    requires
        a.eq_spec(&b),
        b.eq_spec(&c),
    ensures
        a.eq_spec(&c),
{
}

/// Equality of key records is reflexive.
pub proof fn lemma_xkey_info_eq_reflexive(a: XKeyInfo)
    ensures
        a.eq_spec(&a),
{
}

/// Equality of key records is symmetric.
pub proof fn lemma_xkey_info_eq_symmetric(a: XKeyInfo, b: XKeyInfo)
    ensures
        a.eq_spec(&b) <==> b.eq_spec(&a),
{
}

/// Equality of key records is transitive.
pub proof fn lemma_xkey_info_eq_transitive(a: XKeyInfo, b: XKeyInfo, c: XKeyInfo)
    requires
        a.eq_spec(&b),
        b.eq_spec(&c),
    ensures
        a.eq_spec(&c),
{
}

/// Two key records are equal exactly when depth, parent, index, chain code
/// and hint are pairwise equal, which is exactly when they are the same value.
pub proof fn lemma_xkey_info_eq_is_fieldwise(a: XKeyInfo, b: XKeyInfo)
    ensures
        a.eq_spec(&b) <==> {
            &&& a.depth == b.depth
            &&& a.parent.eq_spec(&b.parent)
            &&& a.index == b.index
            &&& a.chain_code.eq_spec(&b.chain_code)
            &&& a.hint == b.hint
        },
        a.eq_spec(&b) <==> a == b,
{
    lemma_fingerprint_eq_is_identity(a.parent, b.parent);
    lemma_chain_code_eq_is_identity(a.chain_code, b.chain_code);
}

/// Replacing any single field of a key record by a different value gives a
/// record that is not equal to the first.
pub proof fn lemma_xkey_info_one_field_breaks_eq(
    a: XKeyInfo,
    depth: u8,
    parent: KeyFingerprint,
    index: u32,
    chain_code: ChainCode,
    hint: Hint,
)
    ensures
        depth != a.depth ==> !a.eq_spec(&XKeyInfo { depth, ..a }),
        !parent.eq_spec(&a.parent) ==> !a.eq_spec(&XKeyInfo { parent, ..a }),
        index != a.index ==> !a.eq_spec(&XKeyInfo { index, ..a }),
        !chain_code.eq_spec(&a.chain_code) ==> !a.eq_spec(&XKeyInfo { chain_code, ..a }),
        hint != a.hint ==> !a.eq_spec(&XKeyInfo { hint, ..a }),
{
}

/// Every hint is one of the three named values.
pub proof fn lemma_hint_is_one_of_three(h: Hint)
    ensures
        h == Hint::Legacy || h == Hint::Compatibility || h == Hint::SegWit,
{
}

/// No two of the three hints are equal.
pub proof fn lemma_hints_are_distinct()
    ensures
        Hint::Legacy != Hint::Compatibility,
        Hint::Legacy != Hint::SegWit,
        Hint::Compatibility != Hint::SegWit,
{
}

} // verus!
