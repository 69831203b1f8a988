use vstd::prelude::*;
use crate::address::Address;

verus! {

/// Represents the possible states of a prediction market.
#[derive(Clone, Copy, Debug, PartialEq, Eq, Structural)]
pub enum MarketStatus {
    Active,
    Resolved,
    Canceled,
}

/// Represents the oracle adapter type used for market resolution.
///
/// This enum determines which oracle adapter (Ed25519, Reflector, or Pyth)
/// will be used to verify the outcome when resolving the market.
#[derive(Clone, Copy, Debug, PartialEq, Eq, Structural)]
pub enum AdapterType {
    Ed25519,
    Reflector,
    Pyth,
}

/// Core structure containing all relevant information for a Market.
#[derive(Clone, Debug)]
pub struct Market {
    pub id: u32,
    pub question: Vec<u8>,
    pub end_time: u64,
    pub oracle_pubkey: [u8; 32],
    pub status: MarketStatus,
    pub result: Option<bool>,
    pub creator: Address,
    pub created_at: u64,
    pub collateral_token: Address,
    /// Current market price in basis points (0–10_000). Updated on every trade.
    pub price_bps: i128,
    /// Address of the resolver who resolved this market (only set when status is Resolved).
    pub resolver: Option<Address>,
    /// Timestamp when the market was resolved (only set when status is Resolved).
    pub resolved_at: Option<u64>,
    /// Oracle adapter type used for resolving this market.
    pub adapter_type: AdapterType,
    /// Number of possible outcomes for this market. Always 2 (YES/NO) for binary
    /// prediction markets. Set once at creation and immutable thereafter.
    pub outcome_count: u32,
    /// Flag indicating whether the market is closed to new deposits.
    /// When true, users cannot deposit new collateral, but can still withdraw and trade.
    pub closed_to_deposits: bool,
}

/// Tracks the position and shares of a specific user in a market.
#[derive(Clone, Copy, Debug, PartialEq, Eq, Structural)]
pub struct Position {
    pub user: Address,
    pub yes_shares: i128,
    pub no_shares: i128,
    /// Collateral required to back current YES/NO shares.
    pub locked_collateral: i128,
    /// Total collateral deposited by user in this market (never decreased except by withdraw).
    pub total_deposited: i128,
    pub market_id: u32,
    pub is_settled: bool,
}

/// A fee-rate change awaiting its timelock delay before it can take effect.
/// Only one change may be pending at a time; proposing a new one overwrites
/// any earlier pending change.
#[derive(Clone, Copy, Debug, PartialEq, Eq, Structural)]
pub struct PendingFeeRateChange {
    pub new_rate_bps: i128,
    /// Ledger timestamp at or after which the change may be applied.
    pub effective_at: u64,
}

impl Position {
    /// Create an empty position for a user in a market.
    /// Used when a position has not been previously recorded in storage.
    pub fn new_empty(market_id: u32, user: Address) -> (p: Position)
        ensures
            p == (Position {
                user,
                yes_shares: 0,
                no_shares: 0,
                locked_collateral: 0,
                total_deposited: 0,
                market_id,
                is_settled: false,
            }),
    {
        Position {
            market_id,
            user,
            yes_shares: 0,
            no_shares: 0,
            locked_collateral: 0,
            total_deposited: 0,
            is_settled: false,
        }
    }
}

} // verus!
