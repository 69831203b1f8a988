use vstd::prelude::*;

verus! {

/// Errors of the market contract's share, fee and payout arithmetic, and of
/// its trading guards.
#[derive(Clone, Copy, Debug, PartialEq, Eq, Structural)]
pub enum ContractError {
    /// A share or collateral quantity is out of range.
    InvalidQuantity,
    /// A price or fee rate in basis points is out of range.
    InvalidPrice,
    /// An intermediate value does not fit the arithmetic type.
    ArithmeticOverflow,
    /// The market is not `Active` (it was resolved or canceled).
    MarketNotActive,
}

/// The name under which the fee-math regression corpus records `err`;
/// every error outside the arithmetic ones is recorded as `"Other"`.
pub open spec fn spec_error_name(err: ContractError) -> Seq<char> {
    match err {
        ContractError::InvalidQuantity => "InvalidQuantity"@,
        ContractError::InvalidPrice => "InvalidPrice"@,
        ContractError::ArithmeticOverflow => "ArithmeticOverflow"@,
        _ => "Other"@,
    }
}

/// The name under which the fee-math regression corpus records `err`.
pub fn error_name(err: ContractError) -> (name: &'static str)
    ensures
        name@ == spec_error_name(err),
{
    match err {
        ContractError::InvalidQuantity => "InvalidQuantity",
        ContractError::InvalidPrice => "InvalidPrice",
        ContractError::ArithmeticOverflow => "ArithmeticOverflow",
        _ => "Other",
    }
}

} // verus!
