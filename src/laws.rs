//! What holds of every run of the swap state machine, proved over the
//! outcomes that the transitions are specified by.

use vstd::prelude::*;
use crate::error::SwapError;
use crate::state::{SwapAccount, SwapMap};
use crate::swap::{
    initiate_outcome, initiated_account, instant_refund_outcome, payout_of, redeem_outcome,
    refund_outcome, Initiate, InstantRefund, Redeem, Refund,
};

verus! {

/// A swap pays out once. When a redemption, a refund or an instant refund
/// of the swap at one address succeeds, the record is deleted, and from then
/// on every call that would close it again, of any of the three kinds, fails
/// with `RecordNotFound`.
pub proof fn lemma_exactly_once_payout(
    book: SwapMap,
    redeem: Redeem,
    secret_digest: Seq<u8>,
    refund: Refund,
    instant: InstantRefund,
)
    requires
        refund.swap_account@ == redeem.swap_account@,
        instant.swap_account@ == redeem.swap_account@,
    ensures
        ({
            let closed = book.remove(redeem.swap_account@);
            (redeem_outcome(book, redeem, secret_digest) is Ok || refund_outcome(book, refund) is Ok
                || instant_refund_outcome(book, instant) is Ok) ==> (
                redeem_outcome(closed, redeem, secret_digest) == Err::<SwapAccount, SwapError>(SwapError::RecordNotFound)
                && refund_outcome(closed, refund) == Err::<SwapAccount, SwapError>(SwapError::RecordNotFound)
                && instant_refund_outcome(closed, instant) == Err::<SwapAccount, SwapError>(SwapError::RecordNotFound)
            )
        }),
{
}

/// A redemption by the swap's redeemer succeeds exactly when the digest of
/// the secret is the commitment; with any other digest it fails with
/// `InvalidSecret`.
pub proof fn lemma_hash_lock(book: SwapMap, redeem: Redeem, secret_digest: Seq<u8>)
    requires
        book.contains_key(redeem.swap_account@),
        book[redeem.swap_account@].redeemer@ == redeem.redeemer@,
    ensures
        (redeem_outcome(book, redeem, secret_digest) is Ok) == (secret_digest == book[redeem.swap_account@].secret_hash@),
        secret_digest != book[redeem.swap_account@].secret_hash@
            ==> redeem_outcome(book, redeem, secret_digest) == Err::<SwapAccount, SwapError>(SwapError::InvalidSecret),
{
}

/// A refund to the swap's initiator fails with `RefundBeforeExpiry` at every
/// slot before the expiry slot, and succeeds at the expiry slot and after.
pub proof fn lemma_time_lock(book: SwapMap, refund: Refund)
    requires
        book.contains_key(refund.swap_account@),
        book[refund.swap_account@].initiator@ == refund.initiator@,
    ensures
        refund.current_slot < book[refund.swap_account@].expiry_slot
            ==> refund_outcome(book, refund) == Err::<SwapAccount, SwapError>(SwapError::RefundBeforeExpiry),
        refund.current_slot >= book[refund.swap_account@].expiry_slot
            ==> refund_outcome(book, refund) == Ok::<SwapAccount, SwapError>(book[refund.swap_account@]),
{
}

/// While a swap is live, no second swap with the same initiator and
/// commitment can be initiated: a second signed initiation fails with
/// `DuplicateSwap`, whatever its amount, expiry and redeemer.
pub proof fn lemma_no_duplicate_swap(
    book: SwapMap,
    program_id: Seq<u8>,
    first: Initiate,
    amount_lamports: u64,
    expires_in_slots: u64,
    redeemer: [u8; 32],
    secret_hash: [u8; 32],
    second: Initiate,
    second_amount_lamports: u64,
    second_secret_hash: [u8; 32],
)
    requires
        initiate_outcome(book, program_id, first, amount_lamports, secret_hash) is Ok,
        second.initiator@ == first.initiator@,
        second_secret_hash@ == secret_hash@,
    ensures
        ({
            let a = initiate_outcome(book, program_id, first, amount_lamports, secret_hash)->Ok_0;
            let live = book.insert(a, initiated_account(first, amount_lamports, expires_in_slots, redeemer, secret_hash));
            &&& initiate_outcome(live, program_id, second, second_amount_lamports, second_secret_hash) is Err
            &&& second.initiator_signed ==> initiate_outcome(live, program_id, second, second_amount_lamports, second_secret_hash)
                == Err::<Seq<u8>, SwapError>(SwapError::DuplicateSwap)
        }),
{
}

/// An instant refund without the redeemer's signature fails, at any slot.
pub proof fn lemma_instant_refund_needs_consent(book: SwapMap, instant: InstantRefund)
    requires
        !instant.redeemer_signed,
    ensures
        instant_refund_outcome(book, instant) is Err,
{
}

/// What a swap pays out when it closes is exactly what was locked when it
/// was initiated: the amount, and the storage deposit that the initiator
/// paid. Whichever of the three transitions closes it, the initiator could
/// pay both.
pub proof fn lemma_custody_conserved(
    book: SwapMap,
    program_id: Seq<u8>,
    initiate: Initiate,
    amount_lamports: u64,
    expires_in_slots: u64,
    redeemer: [u8; 32],
    secret_hash: [u8; 32],
    redeem: Redeem,
    secret_digest: Seq<u8>,
    refund: Refund,
    instant: InstantRefund,
)
    requires
        initiate_outcome(book, program_id, initiate, amount_lamports, secret_hash) is Ok,
        redeem.swap_account@ == initiate_outcome(book, program_id, initiate, amount_lamports, secret_hash)->Ok_0,
        refund.swap_account@ == redeem.swap_account@,
        instant.swap_account@ == redeem.swap_account@,
    ensures
        ({
            let live = book.insert(
                redeem.swap_account@,
                initiated_account(initiate, amount_lamports, expires_in_slots, redeemer, secret_hash),
            );
            &&& amount_lamports + initiate.rent_lamports <= initiate.initiator_lamports
            &&& redeem_outcome(live, redeem, secret_digest) matches Ok(account) ==> {
                &&& payout_of(account.redeemer, account).principal_lamports == amount_lamports
                &&& payout_of(account.redeemer, account).rent_lamports == initiate.rent_lamports
                &&& account.redeemer == redeemer
            }
            &&& refund_outcome(live, refund) matches Ok(account) ==> {
                &&& payout_of(account.initiator, account).principal_lamports == amount_lamports
                &&& payout_of(account.initiator, account).rent_lamports == initiate.rent_lamports
                &&& account.initiator == initiate.initiator
            }
            &&& instant_refund_outcome(live, instant) matches Ok(account) ==> {
                &&& payout_of(account.initiator, account).principal_lamports == amount_lamports
                &&& payout_of(account.initiator, account).rent_lamports == initiate.rent_lamports
                &&& account.initiator == initiate.initiator
            }
        }),
{
}

} // verus!
