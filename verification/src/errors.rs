//! The rejection taxonomy of order creation. Every rule violation is detected
//! before any state is handed back for persistence, and surfaces as exactly
//! one of these kinds.

use vstd::prelude::*;

verus! {

/// Why an order-creation attempt was rejected.
#[derive(Clone, Copy, PartialEq, Eq, Structural, Debug)]
pub enum CreateError {
    /// The user already has an active order funded by this source asset.
    AlreadyExists,
    /// Source and target asset descriptors are identical.
    InvalidPair,
    /// The per-purchase amount exceeds the total deposit.
    DepositTooSmall,
    /// The total deposit is not evenly divisible by the per-purchase amount
    /// (a zero per-purchase amount counts as this failure).
    IndivisibleDeposit,
    /// The declared funds were not actually attached or authorized.
    InvalidDeposit,
    /// The user's identifier counter has exhausted its range.
    CounterOverflow,
}

} // verus!
