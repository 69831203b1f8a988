use vstd::prelude::*;

verus! {

/// Errors reported by the outcome-token contract.
#[derive(Clone, Copy, Debug, PartialEq, Eq, Structural, PartialOrd, Ord)]
pub enum ContractError {
    AlreadyInitialized,
    NotInitialized,
    Unauthorized,
    InsufficientBalance,
    InvalidAmount,
    Overflow,
    /// A peer-to-peer `transfer` was attempted before the associated market
    /// resolved. Outcome tokens are only transferable once the market they
    /// belong to has settled its outcome.
    MarketNotResolved,
    /// A market-contract rotation was executed or cancelled while none was
    /// pending.
    NoPendingMarketContractChange,
    /// A pending `market_contract` rotation's `effective_at` timelock has
    /// not elapsed yet.
    TimelockNotElapsed,
}

/// The numeric code under which `e` is reported on chain.
pub open spec fn token_error_code(e: ContractError) -> u32 {
    match e {
        ContractError::AlreadyInitialized => 1,
        ContractError::NotInitialized => 2,
        ContractError::Unauthorized => 3,
        ContractError::InsufficientBalance => 4,
        ContractError::InvalidAmount => 5,
        ContractError::Overflow => 6,
        ContractError::MarketNotResolved => 7,
        ContractError::NoPendingMarketContractChange => 8,
        ContractError::TimelockNotElapsed => 9,
    }
}

impl ContractError {
    /// The numeric code under which this error is reported on chain.
    pub fn code(&self) -> (c: u32)
        ensures
            c == token_error_code(*self),
    {
        match self {
            ContractError::AlreadyInitialized => 1,
            ContractError::NotInitialized => 2,
            ContractError::Unauthorized => 3,
            ContractError::InsufficientBalance => 4,
            ContractError::InvalidAmount => 5,
            ContractError::Overflow => 6,
            ContractError::MarketNotResolved => 7,
            ContractError::NoPendingMarketContractChange => 8,
            ContractError::TimelockNotElapsed => 9,
        }
    }

    /// The error reported under an on-chain numeric code, if any.
    pub fn from_code(code: u32) -> (r: Option<ContractError>)
        ensures
            match r {
                Some(e) => token_error_code(e) == code,
                None => forall|e: ContractError| token_error_code(e) != code,
            },
    {
        match code {
            1 => Some(ContractError::AlreadyInitialized),
            2 => Some(ContractError::NotInitialized),
            3 => Some(ContractError::Unauthorized),
            4 => Some(ContractError::InsufficientBalance),
            5 => Some(ContractError::InvalidAmount),
            6 => Some(ContractError::Overflow),
            7 => Some(ContractError::MarketNotResolved),
            8 => Some(ContractError::NoPendingMarketContractChange),
            9 => Some(ContractError::TimelockNotElapsed),
            _ => None,
        }
    }
}

} // verus!
