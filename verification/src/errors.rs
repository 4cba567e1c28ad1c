//! The failures an escrow operation can report.

use vstd::prelude::*;

verus! {

/// Why an operation was rejected. A rejected operation changes nothing.
#[derive(Clone, Copy, Debug, PartialEq, Eq, Structural)]
pub enum EscrowError {
    /// Creation and funding are suspended.
    ContractPaused,
    /// No escrow is registered under the identifier.
    EscrowNotFound,
    /// The caller may not perform the action.
    Unauthorized,
    /// An escrow is already registered under the identifier.
    DuplicateEscrowId,
    /// A milestone amount is zero or negative.
    ZeroAmount,
    /// Depositor and recipient are the same identity.
    SelfDealing,
    /// The milestone is no longer pending.
    MilestoneAlreadyReleased,
    /// The escrow is not active, or another condition of the action is not met.
    EscrowNotActive,
    /// The escrow has no milestone, or more than the limit.
    TooManyMilestones,
    /// The milestone amounts add up to more than an amount can hold.
    InvalidMilestoneAmount,
    /// Funds were already deposited for the escrow.
    EscrowAlreadyFunded,
    /// Nothing is left to refund.
    NoFundsToRefund,
    /// The deadline has not passed yet.
    DeadlineNotReached,
    /// Only an active escrow can be refunded after its deadline.
    InvalidStatusForRefund,
    /// The asset ledger could not move the funds.
    InsufficientFunds,
}

} // verus!
