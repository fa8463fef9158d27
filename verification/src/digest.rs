//! SHA-256, the hash that commitments are built from.

use vstd::prelude::*;

verus! {

/// The SHA-256 digest of `data`.
pub uninterp spec fn sha256(data: Seq<u8>) -> [u8; 32];

/// Two different byte strings with the same SHA-256 digest exist.
///
/// Nothing in this crate decides whether this holds. The binding theorems
/// are stated as "either the claims agree, or there is a collision", so a
/// reader can see that breaking a commitment means breaking SHA-256.
pub open spec fn sha256_collision() -> bool {
    exists|a: Seq<u8>, b: Seq<u8>| a != b && #[trigger] sha256(a) == #[trigger] sha256(b)
}

/// Hashes `data` with `anchor_lang::solana_program::hash::hashv`, handing it
/// the bytes as a single slice. The digest is taken to be the SHA-256 of
/// exactly those bytes; nothing about SHA-256 itself is proved here.
#[verifier::external_body]
pub(crate) fn sha256_of(data: &[u8]) -> (digest: [u8; 32])
    ensures
        digest == sha256(data@),
{
    anchor_lang::solana_program::hash::hashv(&[data]).to_bytes()
}

/// Appends the 32 bytes of `bytes` to `buf`.
pub(crate) fn append_digest(buf: &mut Vec<u8>, bytes: &[u8; 32])
    ensures
        final(buf)@ == old(buf)@ + bytes@,
{
    let mut i: usize = 0;
    while i < 32
        invariant
            i <= 32,
            buf@ == old(buf)@ + bytes@.subrange(0, i as int),
        decreases 32 - i,
    {
        buf.push(bytes[i]);
        i += 1;
    }
    assert(bytes@.subrange(0, 32) == bytes@);
}

/// Whether two 32-byte values, digests or identities, hold the same bytes.
pub fn same_bytes(a: &[u8; 32], b: &[u8; 32]) -> (same: bool)
    ensures
        same == (*a == *b),
{
    let mut i: usize = 0;
    while i < 32
        invariant
            i <= 32,
            forall|j: int| 0 <= j < i ==> a[j] == b[j],
        decreases 32 - i,
    {
        if a[i] != b[i] {
            return false;
        }
        i += 1;
    }
    assert(*a =~= *b);
    true
}

} // verus!
