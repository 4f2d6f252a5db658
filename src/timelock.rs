//! The time lock: a plain refund opens once the ledger's slot counter has
//! reached the expiry slot fixed at initiation.

use vstd::prelude::*;

verus! {

/// Whether a swap that expires at `expiry_slot` may be refunded at
/// `current_slot`: refunds open at the expiry slot itself.
pub open spec fn is_expired(expiry_slot: u64, current_slot: u64) -> bool {
    current_slot >= expiry_slot
}

/// Decides the time lock; see [`is_expired`].
pub fn expired(expiry_slot: u64, current_slot: u64) -> (r: bool)
    ensures
        r == is_expired(expiry_slot, current_slot),
{
    current_slot >= expiry_slot
}

/// Whether a swap initiated at `current_slot` can expire `expires_in_slots`
/// later without the slot counter overflowing.
pub open spec fn expiry_fits(current_slot: u64, expires_in_slots: u64) -> bool {
    current_slot + expires_in_slots <= u64::MAX
}

/// The expiry slot of a swap initiated at `current_slot` that expires
/// `expires_in_slots` later.
pub fn expiry_slot_after(current_slot: u64, expires_in_slots: u64) -> (r: u64)
    requires
        expiry_fits(current_slot, expires_in_slots),
    ensures
        r == current_slot + expires_in_slots,
{
    current_slot + expires_in_slots
}

} // verus!
