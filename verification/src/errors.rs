//! Error kinds for the sale engine and the policy evaluator.

use vstd::prelude::*;

verus! {

/// Why a sale operation was refused. Every variant is fatal to the enclosing
/// operation: nothing is committed once one of these comes back.
#[derive(Clone, Copy, Debug, PartialEq, Eq, Structural)]
pub enum SaleError {
    /// At creation: the soft cap exceeds the hard cap.
    InvalidCapRange,
    /// At creation: the hard cap is zero.
    ZeroCap,
    /// At creation: the window does not start before it ends.
    InvalidTimeWindow,
    /// At creation: the window would already be over.
    TimeInPast,
    /// At creation: nothing would be deposited into the vault.
    AmountCannotBeZero,
    /// At purchase: the current time lies outside the sale window.
    SaleNotActive,
    /// At purchase: the cost or the new running total exceeds `u64::MAX`.
    ArithmeticOverflow,
    /// At purchase: the new running total would exceed the hard cap.
    HardCapReached,
    /// At purchase: the vault holds fewer units than were asked for.
    InsufficientInventory,
    /// At purchase: the buyer cannot pay the cost.
    InsufficientFunds,
}

/// Why a transfer was refused, or a policy mutation denied.
#[derive(Clone, Copy, Debug, PartialEq, Eq, Structural)]
pub enum PolicyError {
    /// The holding gate is on and the wallet holds none of the gating asset.
    MissingRequiredHolding,
    /// The trading-window gate is on and the current minute lies outside it.
    TradingClosed,
    /// The bounds gate is on and the amount exceeds the maximum.
    ExceedsMaxTransfer,
    /// The bounds gate is on and the amount falls below the minimum.
    BelowMinTransfer,
    /// The allow-list gate is on and no marker exists for the wallet.
    NotWhitelisted,
    /// The caller of a mutating operation is not the policy's owner.
    Unauthorized,
}

} // verus!
