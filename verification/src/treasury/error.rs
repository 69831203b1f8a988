use vstd::prelude::*;

verus! {

/// Errors reported by the treasury contract.
#[derive(Clone, Copy, Debug, PartialEq, Eq, Structural)]
pub enum TreasuryError {
    /// `initialize` was called on an initialized treasury.
    AlreadyInitialized,
    /// The treasury has no admin yet, or no market is registered.
    NotInitialized,
    /// The caller is not the admin.
    Unauthorized,
    /// A fee or withdrawal amount is zero or negative.
    InvalidAmount,
    /// A withdrawal exceeds the custodied balance of its token.
    InsufficientBalance,
    /// The treasury is paused.
    ContractPaused,
    /// The caller (or the market to remove) is not a registered market.
    CallerNotMarket,
    /// The stored schema version does not match this build.
    UpgradeRequired,
}

} // verus!
