//! Why a transition was rejected. A rejected transition changes nothing.

use vstd::prelude::*;

verus! {

/// The reasons for which a transition is rejected.
#[derive(Clone, Copy, Debug, PartialEq, Eq, Structural)]
pub enum SwapError {
    /// A live swap already holds the address that initiation derives.
    DuplicateSwap,
    /// The initiator cannot pay the amount and the storage deposit.
    InsufficientFunds,
    /// The revealed secret does not hash to the swap's commitment.
    InvalidSecret,
    /// A plain refund was attempted before the expiry slot.
    RefundBeforeExpiry,
    /// The initiator did not sign, or the account named as initiator is not
    /// the swap's initiator.
    InvalidInitiator,
    /// The redeemer did not sign where it must, or the account named as
    /// redeemer is not the swap's redeemer.
    InvalidRedeemer,
    /// No live swap is held at the address.
    RecordNotFound,
    /// The ledger found no bump seed that yields an address for the swap.
    AddressUnavailable,
}

impl SwapError {
    /// A sentence that describes the error.
    pub fn message(&self) -> (r: &'static str) {
        match self {
            SwapError::DuplicateSwap => "A swap with this initiator and secret hash is already live",
            SwapError::InsufficientFunds => "The initiator cannot pay the swap amount and the storage deposit",
            SwapError::InvalidSecret => "The provided secret does not correspond to the secret hash of this swap",
            SwapError::RefundBeforeExpiry => "Attempt to perform a refund before expiry time",
            SwapError::InvalidInitiator => "The provided initiator is not the initiator of this swap",
            SwapError::InvalidRedeemer => "The provided redeemer is not the redeemer of this swap",
            SwapError::RecordNotFound => "No live swap is held at this address",
            SwapError::AddressUnavailable => "No program address can be derived for this swap",
        }
    }
}

} // verus!
