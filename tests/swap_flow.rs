use native_swaps::addressing::swap_address;
use native_swaps::error::SwapError;
use native_swaps::hashlock::{bytes_eq, commitment_of, digest_matches, verify_secret};
use native_swaps::state::{SwapAccount, SwapBook};
use native_swaps::swap::{
    initiate, instant_refund, redeem, redeem_with_digest, refund, Initiate, InstantRefund, Redeem,
    Refund,
};
use native_swaps::timelock::{expired, expiry_slot_after};
use solana_program::pubkey::Pubkey;

const PROGRAM: [u8; 32] = [7u8; 32];
const INITIATOR: [u8; 32] = [1u8; 32];
const REDEEMER: [u8; 32] = [2u8; 32];
const STRANGER: [u8; 32] = [3u8; 32];
const RENT: u64 = 1_000_000;

fn envelope(slot: u64) -> Initiate {
    Initiate {
        initiator: INITIATOR,
        initiator_signed: true,
        initiator_lamports: 5_000_000_000,
        rent_lamports: RENT,
        current_slot: slot,
    }
}

fn live_swap(book: &mut SwapBook, secret: &[u8], amount: u64, slot: u64, expires_in: u64) -> [u8; 32] {
    let ev = initiate(book, &envelope(slot), amount, expires_in, REDEEMER, commitment_of(secret)).unwrap();
    ev.swap_account
}

#[test]
fn sha256_of_abc() {
    let expected: [u8; 32] = [
        0xba, 0x78, 0x16, 0xbf, 0x8f, 0x01, 0xcf, 0xea, 0x41, 0x41, 0x40, 0xde, 0x5d, 0xae, 0x22, 0x23,
        0xb0, 0x03, 0x61, 0xa3, 0x96, 0x17, 0x7a, 0x9c, 0xb4, 0x10, 0xff, 0x61, 0xf2, 0x00, 0x15, 0xad,
    ];
    assert_eq!(commitment_of(b"abc"), expected);
    assert!(verify_secret(b"abc", &expected));
    assert!(!verify_secret(b"abd", &expected));
    assert!(!verify_secret(b"abc\0", &expected));
}

#[test]
fn bytes_compare_every_position() {
    let a = [9u8; 32];
    assert!(bytes_eq(&a, &a));
    for i in 0..32 {
        let mut b = a;
        b[i] ^= 1;
        assert!(!bytes_eq(&a, &b));
        assert!(!digest_matches(&a, &b));
    }
}

#[test]
fn time_lock_opens_at_expiry_slot() {
    assert!(!expired(600, 599));
    assert!(expired(600, 600));
    assert!(expired(600, 601));
    assert_eq!(expiry_slot_after(100, 500), 600);
    assert_eq!(expiry_slot_after(u64::MAX - 5, 5), u64::MAX);
}

#[test]
fn address_is_the_program_derived_address() {
    let hash = commitment_of(b"s");
    let derived = swap_address(&PROGRAM, &INITIATOR, &hash).unwrap();
    let (expected, _bump) = Pubkey::find_program_address(
        &[b"swap_account".as_ref(), INITIATOR.as_ref(), hash.as_ref()],
        &Pubkey::new_from_array(PROGRAM),
    );
    assert_eq!(derived, expected.to_bytes());
    assert_eq!(swap_address(&PROGRAM, &INITIATOR, &hash), Some(derived));
    assert_ne!(swap_address(&PROGRAM, &STRANGER, &hash), Some(derived));
    assert_ne!(swap_address(&PROGRAM, &INITIATOR, &commitment_of(b"t")), Some(derived));
    assert_ne!(swap_address(&[8u8; 32], &INITIATOR, &hash), Some(derived));
}

#[test]
fn redeem_pays_redeemer_once() {
    let mut book = SwapBook::new(PROGRAM);
    let ev = initiate(&mut book, &envelope(100), 1_000_000_000, 500, REDEEMER, commitment_of(b"s")).unwrap();
    assert_eq!(ev.expiry_slot, 600);
    assert_eq!(ev.swap_amount, 1_000_000_000);
    assert_eq!(ev.expires_in_slots, 500);
    assert_eq!(ev.initiator, INITIATOR);
    assert_eq!(ev.redeemer, REDEEMER);
    let account: SwapAccount = book.get(&ev.swap_account).unwrap();
    assert_eq!(account.expiry_slot, 600);
    assert_eq!(account.amount_lamports, 1_000_000_000);
    assert_eq!(account.rent_lamports, RENT);

    let ctx = Redeem { swap_account: ev.swap_account, redeemer: REDEEMER };
    let done = redeem(&mut book, &ctx, b"s").unwrap();
    assert_eq!(done.secret, b"s".to_vec());
    assert_eq!(done.initiator, INITIATOR);
    assert_eq!(done.payout.recipient, REDEEMER);
    assert_eq!(done.payout.principal_lamports, 1_000_000_000);
    assert_eq!(done.payout.rent_lamports, RENT);
    assert!(!book.contains(&ev.swap_account));

    assert_eq!(redeem(&mut book, &ctx, b"s").unwrap_err(), SwapError::RecordNotFound);
    let late_refund = Refund { swap_account: ev.swap_account, initiator: INITIATOR, current_slot: 10_000 };
    assert_eq!(refund(&mut book, &late_refund).unwrap_err(), SwapError::RecordNotFound);
    let consent = InstantRefund {
        swap_account: ev.swap_account,
        initiator: INITIATOR,
        redeemer: REDEEMER,
        redeemer_signed: true,
    };
    assert_eq!(instant_refund(&mut book, &consent).unwrap_err(), SwapError::RecordNotFound);
}

#[test]
fn refund_waits_for_expiry() {
    let mut book = SwapBook::new(PROGRAM);
    let address = live_swap(&mut book, b"s", 1_000_000_000, 100, 500);
    let early = Refund { swap_account: address, initiator: INITIATOR, current_slot: 599 };
    assert_eq!(refund(&mut book, &early).unwrap_err(), SwapError::RefundBeforeExpiry);
    assert!(book.contains(&address));
    let on_time = Refund { swap_account: address, initiator: INITIATOR, current_slot: 600 };
    let done = refund(&mut book, &on_time).unwrap();
    assert_eq!(done.payout.recipient, INITIATOR);
    assert_eq!(done.payout.principal_lamports, 1_000_000_000);
    assert_eq!(done.payout.rent_lamports, RENT);
    assert_eq!(done.secret_hash, commitment_of(b"s"));
    assert!(!book.contains(&address));
    assert_eq!(refund(&mut book, &on_time).unwrap_err(), SwapError::RecordNotFound);
}

#[test]
fn wrong_secret_leaves_record() {
    let mut book = SwapBook::new(PROGRAM);
    let address = live_swap(&mut book, b"s", 42, 0, 10);
    let ctx = Redeem { swap_account: address, redeemer: REDEEMER };
    assert_eq!(redeem(&mut book, &ctx, b"r").unwrap_err(), SwapError::InvalidSecret);
    assert_eq!(redeem(&mut book, &ctx, b"s ").unwrap_err(), SwapError::InvalidSecret);
    assert_eq!(redeem(&mut book, &ctx, b"").unwrap_err(), SwapError::InvalidSecret);
    assert!(book.contains(&address));
    assert_eq!(book.get(&address).unwrap().amount_lamports, 42);
    assert!(redeem(&mut book, &ctx, b"s").is_ok());
}

#[test]
fn redeem_with_given_digest() {
    let mut book = SwapBook::new(PROGRAM);
    let hash = [5u8; 32];
    let ev = initiate(&mut book, &envelope(0), 10, 10, REDEEMER, hash).unwrap();
    let ctx = Redeem { swap_account: ev.swap_account, redeemer: REDEEMER };
    let mut other = hash;
    other[31] = 4;
    assert_eq!(redeem_with_digest(&mut book, &ctx, b"x", &other).unwrap_err(), SwapError::InvalidSecret);
    let done = redeem_with_digest(&mut book, &ctx, b"x", &hash).unwrap();
    assert_eq!(done.payout.principal_lamports, 10);
    assert_eq!(done.secret, b"x".to_vec());
}

#[test]
fn redeem_to_wrong_account() {
    let mut book = SwapBook::new(PROGRAM);
    let address = live_swap(&mut book, b"s", 42, 0, 10);
    let ctx = Redeem { swap_account: address, redeemer: STRANGER };
    assert_eq!(redeem(&mut book, &ctx, b"s").unwrap_err(), SwapError::InvalidRedeemer);
    assert!(book.contains(&address));
}

#[test]
fn refund_to_wrong_account() {
    let mut book = SwapBook::new(PROGRAM);
    let address = live_swap(&mut book, b"s", 42, 0, 10);
    let ctx = Refund { swap_account: address, initiator: STRANGER, current_slot: 100 };
    assert_eq!(refund(&mut book, &ctx).unwrap_err(), SwapError::InvalidInitiator);
    assert!(book.contains(&address));
}

#[test]
fn instant_refund_needs_redeemer_signature() {
    let mut book = SwapBook::new(PROGRAM);
    let address = live_swap(&mut book, b"s", 77, 100, 1_000_000);
    let unsigned = InstantRefund {
        swap_account: address,
        initiator: INITIATOR,
        redeemer: REDEEMER,
        redeemer_signed: false,
    };
    assert_eq!(instant_refund(&mut book, &unsigned).unwrap_err(), SwapError::InvalidRedeemer);
    let impostor = InstantRefund { redeemer: STRANGER, redeemer_signed: true, ..unsigned };
    assert_eq!(instant_refund(&mut book, &impostor).unwrap_err(), SwapError::InvalidRedeemer);
    let wrong_initiator = InstantRefund { initiator: STRANGER, redeemer_signed: true, ..unsigned };
    assert_eq!(instant_refund(&mut book, &wrong_initiator).unwrap_err(), SwapError::InvalidInitiator);
    assert!(book.contains(&address));
    let signed = InstantRefund { redeemer_signed: true, ..unsigned };
    let done = instant_refund(&mut book, &signed).unwrap();
    assert_eq!(done.payout.recipient, INITIATOR);
    assert_eq!(done.payout.principal_lamports, 77);
    assert_eq!(done.payout.rent_lamports, RENT);
    assert!(!book.contains(&address));
}

#[test]
fn duplicate_initiation_rejected() {
    let mut book = SwapBook::new(PROGRAM);
    let address = live_swap(&mut book, b"s", 42, 0, 10);
    let again = initiate(&mut book, &envelope(5), 99, 3, STRANGER, commitment_of(b"s"));
    assert_eq!(again.unwrap_err(), SwapError::DuplicateSwap);
    assert_eq!(book.get(&address).unwrap().amount_lamports, 42);
    let other_secret = initiate(&mut book, &envelope(5), 99, 3, REDEEMER, commitment_of(b"t"));
    assert!(other_secret.is_ok());
    let other_initiator = Initiate { initiator: STRANGER, ..envelope(5) };
    assert!(initiate(&mut book, &other_initiator, 1, 1, REDEEMER, commitment_of(b"s")).is_ok());
    let ctx = Redeem { swap_account: address, redeemer: REDEEMER };
    assert!(redeem(&mut book, &ctx, b"s").is_ok());
    assert!(initiate(&mut book, &envelope(20), 7, 3, REDEEMER, commitment_of(b"s")).is_ok());
}

#[test]
fn initiation_checks_signature_and_funds() {
    let mut book = SwapBook::new(PROGRAM);
    let hash = commitment_of(b"s");
    let unsigned = Initiate { initiator_signed: false, ..envelope(0) };
    assert_eq!(initiate(&mut book, &unsigned, 1, 1, REDEEMER, hash).unwrap_err(), SwapError::InvalidInitiator);
    let poor = Initiate { initiator_lamports: 1_000 + RENT - 1, ..envelope(0) };
    assert_eq!(initiate(&mut book, &poor, 1_000, 1, REDEEMER, hash).unwrap_err(), SwapError::InsufficientFunds);
    let very_poor = Initiate { initiator_lamports: 10, ..envelope(0) };
    assert_eq!(initiate(&mut book, &very_poor, u64::MAX, 1, REDEEMER, hash).unwrap_err(), SwapError::InsufficientFunds);
    assert_eq!(book.get(&swap_address(&PROGRAM, &INITIATOR, &hash).unwrap()).map(|a| a.amount_lamports), None);
    let exact = Initiate { initiator_lamports: 1_000 + RENT, ..envelope(0) };
    assert!(initiate(&mut book, &exact, 1_000, 1, REDEEMER, hash).is_ok());
}

#[test]
fn zero_amount_and_longest_expiry() {
    let mut book = SwapBook::new(PROGRAM);
    let ev = initiate(&mut book, &envelope(u64::MAX - 1), 0, 1, REDEEMER, commitment_of(b"z")).unwrap();
    assert_eq!(ev.expiry_slot, u64::MAX);
    let early = Refund { swap_account: ev.swap_account, initiator: INITIATOR, current_slot: u64::MAX - 1 };
    assert_eq!(refund(&mut book, &early).unwrap_err(), SwapError::RefundBeforeExpiry);
    let last = Refund { current_slot: u64::MAX, ..early };
    let done = refund(&mut book, &last).unwrap();
    assert_eq!(done.payout.principal_lamports, 0);
}

#[test]
fn unknown_address_not_found() {
    let mut book = SwapBook::new(PROGRAM);
    assert_eq!(book.program_id(), PROGRAM);
    let ctx = Redeem { swap_account: [0u8; 32], redeemer: REDEEMER };
    assert_eq!(redeem(&mut book, &ctx, b"s").unwrap_err(), SwapError::RecordNotFound);
    assert!(book.get(&[0u8; 32]).is_none());
}

#[test]
fn error_messages() {
    assert_eq!(SwapError::RefundBeforeExpiry.message(), "Attempt to perform a refund before expiry time");
    assert_ne!(SwapError::InvalidSecret.message(), SwapError::InvalidRedeemer.message());
}
