//! The hash lock: a revealed secret opens a swap when its digest equals the
//! commitment stored at initiation.

use vstd::prelude::*;

verus! {

/// The SHA-256 digest of a byte string, as the host ledger computes it.
pub uninterp spec fn sha256_of(bytes: Seq<u8>) -> Seq<u8>;

/// Relies on `solana_program::hash::hash` and `Hash::to_bytes`: the 32 bytes
/// of the SHA-256 digest of `bytes`, which depend on `bytes` alone.
#[verifier::external_body]
fn sha256(bytes: &[u8]) -> (r: [u8; 32])
    ensures
        r@ == sha256_of(bytes@),
{
    solana_program::hash::hash(bytes).to_bytes()
}

/// Compares two 32-byte strings byte for byte.
pub fn bytes_eq(a: &[u8; 32], b: &[u8; 32]) -> (r: bool)
    ensures
        r == (a@ == b@),
{
    let mut i: usize = 0;
    while i < 32
        invariant
            i <= 32,
            a@.len() == 32,
            b@.len() == 32,
            forall|j: int| 0 <= j < i ==> a@[j] == b@[j],
        decreases 32 - i,
    {
        if a[i] != b[i] {
            assert(a@[i as int] != b@[i as int]);
            return false;
        }
        i = i + 1;
    }
    assert(a@ =~= b@);
    true
}

/// Whether an already computed digest opens the lock `commitment`.
pub fn digest_matches(secret_digest: &[u8; 32], commitment: &[u8; 32]) -> (r: bool)
    ensures
        r == (secret_digest@ == commitment@),
{
    bytes_eq(secret_digest, commitment)
}

/// Whether `secret` opens the lock `commitment`: its digest equals the
/// commitment in every byte.
pub fn verify_secret(secret: &[u8], commitment: &[u8; 32]) -> (r: bool)
    ensures
        r == (sha256_of(secret@) == commitment@),
{
    let d = sha256(secret);
    digest_matches(&d, commitment)
}

/// The digest of `secret`, the value to commit to when a swap is initiated.
pub fn commitment_of(secret: &[u8]) -> (r: [u8; 32])
    ensures
        r@ == sha256_of(secret@),
{
    sha256(secret)
}

} // verus!
