//! Deterministic addresses of swap records: one address for each pair of
//! initiator and commitment under a program, so that a second live swap with
//! the same pair cannot be created.

use vstd::prelude::*;

verus! {

/// The program-derived address and bump seed that the host ledger finds for
/// a list of seeds under a program id, if any bump seed yields one.
pub uninterp spec fn program_address_of(seeds: Seq<Seq<u8>>, program_id: Seq<u8>) -> Option<(Seq<u8>, u8)>;

/// Relies on `solana_program::pubkey::Pubkey::try_find_program_address`,
/// called with the seeds `[namespace, initiator, secret_hash]`: a pure
/// search over bump seeds, whose result depends on the seeds and the
/// program id alone.
#[verifier::external_body]
fn find_program_address(
    namespace: &[u8],
    initiator: &[u8; 32],
    secret_hash: &[u8; 32],
    program_id: &[u8; 32],
) -> (r: Option<([u8; 32], u8)>)
    ensures
        r matches Some(p) ==> program_address_of(seq![namespace@, initiator@, secret_hash@], program_id@) == Some((p.0@, p.1)),
        r is None ==> program_address_of(seq![namespace@, initiator@, secret_hash@], program_id@) is None,
{
    let program_id = solana_program::pubkey::Pubkey::new_from_array(*program_id);
    let seeds: [&[u8]; 3] = [namespace, initiator, secret_hash];
    solana_program::pubkey::Pubkey::try_find_program_address(&seeds, &program_id)
        .map(|(address, bump)| (address.to_bytes(), bump))
}

/// The namespace that every swap record's address is derived under: the
/// bytes of the text "swap_account".
pub open spec fn swap_namespace() -> Seq<u8> {
    seq![115u8, 119u8, 97u8, 112u8, 95u8, 97u8, 99u8, 99u8, 111u8, 117u8, 110u8, 116u8]
}

/// The address of the swap record of `initiator` and `secret_hash` under
/// `program_id`, if the ledger can derive one.
pub open spec fn swap_address_of(program_id: Seq<u8>, initiator: Seq<u8>, secret_hash: Seq<u8>) -> Option<Seq<u8>> {
    match program_address_of(seq![swap_namespace(), initiator, secret_hash], program_id) {
        Some(p) => Some(p.0),
        None => None,
    }
}

/// Derives the address of the swap record of `initiator` and `secret_hash`
/// under `program_id`.
pub fn swap_address(program_id: &[u8; 32], initiator: &[u8; 32], secret_hash: &[u8; 32]) -> (r: Option<[u8; 32]>)
    ensures
        r matches Some(a) ==> swap_address_of(program_id@, initiator@, secret_hash@) == Some(a@),
        r is None ==> swap_address_of(program_id@, initiator@, secret_hash@) is None,
{
    let namespace: [u8; 12] = [115, 119, 97, 112, 95, 97, 99, 99, 111, 117, 110, 116];
    assert(namespace@ =~= swap_namespace());
    match find_program_address(namespace.as_slice(), initiator, secret_hash, program_id) {
        Some(p) => Some(p.0),
        None => None,
    }
}

} // verus!
