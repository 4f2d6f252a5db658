//! The four transitions of a swap: initiate, redeem, refund and instant
//! refund. Each is applied whole or not at all: on an error the store is left
//! as it was.

use vstd::prelude::*;
use crate::addressing::{swap_address, swap_address_of};
use crate::error::SwapError;
use crate::hashlock::{commitment_of, digest_matches, bytes_eq, sha256_of};
use crate::state::{SwapAccount, SwapBook, SwapMap};
use crate::timelock::{expired, expiry_fits, expiry_slot_after, is_expired};

verus! {

/// The call envelope of an initiation, as the host ledger supplies it.
#[derive(Clone, Copy, Debug)]
pub struct Initiate {
    /// The account that locks the funds.
    pub initiator: [u8; 32],
    /// Whether the initiator signed the call.
    pub initiator_signed: bool,
    /// The initiator's balance.
    pub initiator_lamports: u64,
    /// The storage deposit that the ledger asks for a new record.
    pub rent_lamports: u64,
    /// The ledger's slot at the call.
    pub current_slot: u64,
}

/// The call envelope of a redemption.
#[derive(Clone, Copy, Debug)]
pub struct Redeem {
    /// The address of the swap record.
    pub swap_account: [u8; 32],
    /// The account named to receive the funds.
    pub redeemer: [u8; 32],
}

/// The call envelope of a refund after expiry.
#[derive(Clone, Copy, Debug)]
pub struct Refund {
    /// The address of the swap record.
    pub swap_account: [u8; 32],
    /// The account named to receive the funds.
    pub initiator: [u8; 32],
    /// The ledger's slot at the call.
    pub current_slot: u64,
}

/// The call envelope of a refund with the redeemer's consent.
#[derive(Clone, Copy, Debug)]
pub struct InstantRefund {
    /// The address of the swap record.
    pub swap_account: [u8; 32],
    /// The account named to receive the funds.
    pub initiator: [u8; 32],
    /// The account named as the swap's redeemer.
    pub redeemer: [u8; 32],
    /// Whether that redeemer signed the call.
    pub redeemer_signed: bool,
}

/// Where the funds of a closed swap go: the whole balance of the record, the
/// swapped amount and the storage deposit, to one account.
#[derive(Clone, Copy, Debug)]
pub struct Payout {
    pub recipient: [u8; 32],
    pub principal_lamports: u64,
    pub rent_lamports: u64,
}

/// Emitted when a swap is initiated.
#[derive(Clone, Copy, Debug)]
pub struct Initiated {
    pub swap_account: [u8; 32],
    pub swap_amount: u64,
    pub expires_in_slots: u64,
    pub expiry_slot: u64,
    pub initiator: [u8; 32],
    pub redeemer: [u8; 32],
    pub secret_hash: [u8; 32],
}

/// Emitted when a swap is redeemed; it makes the secret public.
#[derive(Clone, Debug)]
pub struct Redeemed {
    pub initiator: [u8; 32],
    pub secret: Vec<u8>,
    pub payout: Payout,
}

/// Emitted when a swap is refunded after expiry.
#[derive(Clone, Copy, Debug)]
pub struct Refunded {
    pub initiator: [u8; 32],
    pub secret_hash: [u8; 32],
    pub payout: Payout,
}

/// Emitted when a swap is refunded with the redeemer's consent.
#[derive(Clone, Copy, Debug)]
pub struct InstantRefunded {
    pub initiator: [u8; 32],
    pub secret_hash: [u8; 32],
    pub payout: Payout,
}

/// The record that an initiation creates.
pub open spec fn initiated_account(
    ctx: Initiate,
    amount_lamports: u64,
    expires_in_slots: u64,
    redeemer: [u8; 32],
    secret_hash: [u8; 32],
) -> SwapAccount {
    SwapAccount {
        initiator: ctx.initiator,
        redeemer,
        secret_hash,
        expiry_slot: (ctx.current_slot + expires_in_slots) as u64,
        amount_lamports,
        rent_lamports: ctx.rent_lamports,
    }
}

/// The address at which an initiation creates its record, or why it is
/// rejected, checked in this order: the initiator's signature, the address,
/// a live swap at it, the initiator's funds.
pub open spec fn initiate_outcome(
    book: SwapMap,
    program_id: Seq<u8>,
    ctx: Initiate,
    amount_lamports: u64,
    secret_hash: [u8; 32],
) -> Result<Seq<u8>, SwapError> {
    if !ctx.initiator_signed {
        Err(SwapError::InvalidInitiator)
    } else {
        match swap_address_of(program_id, ctx.initiator@, secret_hash@) {
            None => Err(SwapError::AddressUnavailable),
            Some(a) => if book.contains_key(a) {
                Err(SwapError::DuplicateSwap)
            } else if ctx.initiator_lamports < amount_lamports + ctx.rent_lamports {
                Err(SwapError::InsufficientFunds)
            } else {
                Ok(a)
            },
        }
    }
}

/// The record that a redemption closes, or why it is rejected: no live swap,
/// a wrong redeemer account, a secret whose digest is not the commitment.
pub open spec fn redeem_outcome(book: SwapMap, ctx: Redeem, secret_digest: Seq<u8>) -> Result<SwapAccount, SwapError> {
    let a = ctx.swap_account@;
    if !book.contains_key(a) {
        Err(SwapError::RecordNotFound)
    } else if book[a].redeemer@ != ctx.redeemer@ {
        Err(SwapError::InvalidRedeemer)
    } else if book[a].secret_hash@ != secret_digest {
        Err(SwapError::InvalidSecret)
    } else {
        Ok(book[a])
    }
}

/// The record that a refund after expiry closes, or why it is rejected: no
/// live swap, a wrong initiator account, a slot before the expiry slot.
pub open spec fn refund_outcome(book: SwapMap, ctx: Refund) -> Result<SwapAccount, SwapError> {
    let a = ctx.swap_account@;
    if !book.contains_key(a) {
        Err(SwapError::RecordNotFound)
    } else if book[a].initiator@ != ctx.initiator@ {
        Err(SwapError::InvalidInitiator)
    } else if !is_expired(book[a].expiry_slot, ctx.current_slot) {
        Err(SwapError::RefundBeforeExpiry)
    } else {
        Ok(book[a])
    }
}

/// The record that an instant refund closes, or why it is rejected: no live
/// swap, a wrong initiator account, a wrong or unsigned redeemer.
pub open spec fn instant_refund_outcome(book: SwapMap, ctx: InstantRefund) -> Result<SwapAccount, SwapError> {
    let a = ctx.swap_account@;
    if !book.contains_key(a) {
        Err(SwapError::RecordNotFound)
    } else if book[a].initiator@ != ctx.initiator@ {
        Err(SwapError::InvalidInitiator)
    } else if book[a].redeemer@ != ctx.redeemer@ || !ctx.redeemer_signed {
        Err(SwapError::InvalidRedeemer)
    } else {
        Ok(book[a])
    }
}

/// The payout of a closed record to `recipient`: its whole balance.
pub open spec fn payout_of(recipient: [u8; 32], account: SwapAccount) -> Payout {
    Payout {
        recipient,
        principal_lamports: account.amount_lamports,
        rent_lamports: account.rent_lamports,
    }
}

fn close_to(recipient: [u8; 32], account: &SwapAccount) -> (r: Payout)
    ensures
        r == payout_of(recipient, *account),
{
    Payout {
        recipient,
        principal_lamports: account.amount_lamports,
        rent_lamports: account.rent_lamports,
    }
}

/// Creates the swap record of `ctx.initiator` and `secret_hash` at its
/// derived address, funded with `amount_lamports` and the storage deposit.
pub fn initiate(
    book: &mut SwapBook,
    ctx: &Initiate,
    amount_lamports: u64,
    expires_in_slots: u64,
    redeemer: [u8; 32],
    secret_hash: [u8; 32],
) -> (r: Result<Initiated, SwapError>)
    requires
        old(book).wf(),
        expiry_fits(ctx.current_slot, expires_in_slots),
    ensures
        final(book).wf(),
        final(book).spec_program_id() == old(book).spec_program_id(),
        match initiate_outcome(old(book)@, old(book).spec_program_id(), *ctx, amount_lamports, secret_hash) {
            Ok(a) => r matches Ok(ev) && ev.swap_account@ == a
                && final(book)@ == old(book)@.insert(a, initiated_account(*ctx, amount_lamports, expires_in_slots, redeemer, secret_hash))
                && ev.swap_amount == amount_lamports && ev.expires_in_slots == expires_in_slots
                && ev.expiry_slot == ctx.current_slot + expires_in_slots
                && ev.initiator == ctx.initiator && ev.redeemer == redeemer && ev.secret_hash == secret_hash,
            Err(e) => r == Err::<Initiated, SwapError>(e) && final(book)@ == old(book)@,
        },
{
    if !ctx.initiator_signed {
        return Err(SwapError::InvalidInitiator);
    }
    let program_id = book.program_id();
    let address = match swap_address(&program_id, &ctx.initiator, &secret_hash) {
        Some(a) => a,
        None => return Err(SwapError::AddressUnavailable),
    };
    if book.contains(&address) {
        return Err(SwapError::DuplicateSwap);
    }
    if amount_lamports > ctx.initiator_lamports || ctx.rent_lamports > ctx.initiator_lamports - amount_lamports {
        return Err(SwapError::InsufficientFunds);
    }
    let expiry_slot = expiry_slot_after(ctx.current_slot, expires_in_slots);
    let account = SwapAccount {
        initiator: ctx.initiator,
        redeemer,
        secret_hash,
        expiry_slot,
        amount_lamports,
        rent_lamports: ctx.rent_lamports,
    };
    book.insert(address, account);
    Ok(Initiated {
        swap_account: address,
        swap_amount: amount_lamports,
        expires_in_slots,
        expiry_slot,
        initiator: ctx.initiator,
        redeemer,
        secret_hash,
    })
}

/// Redeems the swap at `ctx.swap_account` with `secret`, whose digest
/// `secret_digest` the caller has computed: the whole balance goes to the
/// swap's redeemer and the record is deleted.
pub fn redeem_with_digest(
    book: &mut SwapBook,
    ctx: &Redeem,
    secret: &[u8],
    secret_digest: &[u8; 32],
) -> (r: Result<Redeemed, SwapError>)
    requires
        old(book).wf(),
    ensures
        final(book).wf(),
        final(book).spec_program_id() == old(book).spec_program_id(),
        match redeem_outcome(old(book)@, *ctx, secret_digest@) {
            Ok(account) => r matches Ok(ev) && ev.initiator == account.initiator && ev.secret@ == secret@
                && ev.payout == payout_of(account.redeemer, account)
                && final(book)@ == old(book)@.remove(ctx.swap_account@),
            Err(e) => r matches Err(x) && x == e && final(book)@ == old(book)@,
        },
{
    let account = match book.get(&ctx.swap_account) {
        Some(account) => account,
        None => return Err(SwapError::RecordNotFound),
    };
    if !bytes_eq(&account.redeemer, &ctx.redeemer) {
        return Err(SwapError::InvalidRedeemer);
    }
    if !digest_matches(secret_digest, &account.secret_hash) {
        return Err(SwapError::InvalidSecret);
    }
    let account = book.remove(&ctx.swap_account);
    let payout = close_to(account.redeemer, &account);
    Ok(Redeemed { initiator: account.initiator, secret: vstd::slice::slice_to_vec(secret), payout })
}

/// Redeems the swap at `ctx.swap_account` with `secret`: it succeeds when
/// the secret's digest is the swap's commitment, and then the whole balance
/// goes to the swap's redeemer and the record is deleted.
pub fn redeem(book: &mut SwapBook, ctx: &Redeem, secret: &[u8]) -> (r: Result<Redeemed, SwapError>)
    requires
        old(book).wf(),
    ensures
        final(book).wf(),
        final(book).spec_program_id() == old(book).spec_program_id(),
        match redeem_outcome(old(book)@, *ctx, sha256_of(secret@)) {
            Ok(account) => r matches Ok(ev) && ev.initiator == account.initiator && ev.secret@ == secret@
                && ev.payout == payout_of(account.redeemer, account)
                && final(book)@ == old(book)@.remove(ctx.swap_account@),
            Err(e) => r matches Err(x) && x == e && final(book)@ == old(book)@,
        },
{
    let secret_digest = commitment_of(secret);
    redeem_with_digest(book, ctx, secret, &secret_digest)
}

/// Refunds the swap at `ctx.swap_account` once its expiry slot is reached:
/// the whole balance goes back to the initiator and the record is deleted.
pub fn refund(book: &mut SwapBook, ctx: &Refund) -> (r: Result<Refunded, SwapError>)
    requires
        old(book).wf(),
    ensures
        final(book).wf(),
        final(book).spec_program_id() == old(book).spec_program_id(),
        match refund_outcome(old(book)@, *ctx) {
            Ok(account) => r matches Ok(ev) && ev.initiator == account.initiator
                && ev.secret_hash == account.secret_hash
                && ev.payout == payout_of(account.initiator, account)
                && final(book)@ == old(book)@.remove(ctx.swap_account@),
            Err(e) => r matches Err(x) && x == e && final(book)@ == old(book)@,
        },
{
    let account = match book.get(&ctx.swap_account) {
        Some(account) => account,
        None => return Err(SwapError::RecordNotFound),
    };
    if !bytes_eq(&account.initiator, &ctx.initiator) {
        return Err(SwapError::InvalidInitiator);
    }
    if !expired(account.expiry_slot, ctx.current_slot) {
        return Err(SwapError::RefundBeforeExpiry);
    }
    let account = book.remove(&ctx.swap_account);
    let payout = close_to(account.initiator, &account);
    Ok(Refunded { initiator: account.initiator, secret_hash: account.secret_hash, payout })
}

/// Refunds the swap at `ctx.swap_account` at any slot, with the redeemer's
/// signature: the whole balance goes back to the initiator and the record is
/// deleted.
pub fn instant_refund(book: &mut SwapBook, ctx: &InstantRefund) -> (r: Result<InstantRefunded, SwapError>)
    requires
        old(book).wf(),
    ensures
        final(book).wf(),
        final(book).spec_program_id() == old(book).spec_program_id(),
        match instant_refund_outcome(old(book)@, *ctx) {
            Ok(account) => r matches Ok(ev) && ev.initiator == account.initiator
                && ev.secret_hash == account.secret_hash
                && ev.payout == payout_of(account.initiator, account)
                && final(book)@ == old(book)@.remove(ctx.swap_account@),
            Err(e) => r matches Err(x) && x == e && final(book)@ == old(book)@,
        },
{
    let account = match book.get(&ctx.swap_account) {
        Some(account) => account,
        None => return Err(SwapError::RecordNotFound),
    };
    if !bytes_eq(&account.initiator, &ctx.initiator) {
        return Err(SwapError::InvalidInitiator);
    }
    if !bytes_eq(&account.redeemer, &ctx.redeemer) || !ctx.redeemer_signed {
        return Err(SwapError::InvalidRedeemer);
    }
    let account = book.remove(&ctx.swap_account);
    let payout = close_to(account.initiator, &account);
    Ok(InstantRefunded { initiator: account.initiator, secret_hash: account.secret_hash, payout })
}

} // verus!
