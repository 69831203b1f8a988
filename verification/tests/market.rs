use vatix::address::{Address, AddressKind};
use vatix::market::error::{error_name, ContractError};
use vatix::market::types::Position;
use vatix::outcome_token::ContractError as TokenError;

#[test]
fn error_names_follow_the_corpus() {
    assert_eq!(error_name(ContractError::InvalidQuantity), "InvalidQuantity");
    assert_eq!(error_name(ContractError::InvalidPrice), "InvalidPrice");
    assert_eq!(error_name(ContractError::ArithmeticOverflow), "ArithmeticOverflow");
    assert_eq!(error_name(ContractError::MarketNotActive), "Other");
}

#[test]
fn new_position_is_empty() {
    let user = Address { kind: AddressKind::Account, hi: 1, lo: 2 };
    let p = Position::new_empty(9, user);
    assert_eq!(
        p,
        Position {
            user,
            yes_shares: 0,
            no_shares: 0,
            locked_collateral: 0,
            total_deposited: 0,
            market_id: 9,
            is_settled: false,
        }
    );
}

#[test]
fn outcome_token_errors_are_ordered_by_code() {
    assert!(TokenError::AlreadyInitialized < TokenError::TimelockNotElapsed);
}

#[test]
fn outcome_token_error_codes_round_trip() {
    assert_eq!(TokenError::AlreadyInitialized.code(), 1);
    assert_eq!(TokenError::MarketNotResolved.code(), 7);
    assert_eq!(TokenError::TimelockNotElapsed.code(), 9);
    for code in 0..12u32 {
        match TokenError::from_code(code) {
            Some(e) => assert_eq!(e.code(), code),
            None => assert!(code == 0 || code > 9),
        }
    }
    assert_eq!(TokenError::from_code(8), Some(TokenError::NoPendingMarketContractChange));
}
