use vstd::prelude::*;

verus! {

/// Errors reported by the resolution contract.
#[derive(Clone, Copy, Debug, PartialEq, Eq, Structural, PartialOrd, Ord)]
pub enum ContractError {
    CandidateNotFound,
    CandidateAlreadyExists,
    CandidateAlreadyChallenged,
    CandidateAlreadyFinalized,
    ChallengeWindowOpen,
    ChallengeWindowClosed,
    InvalidChallengeWindow,
    InvalidEvidenceUri,
    /// The provided signature has expired and can no longer be finalized.
    SignatureExpired,
    /// The provided signature expiry timestamp is invalid (e.g. in the past).
    InvalidSignatureExpiry,
    /// The underlying market is already resolved (or canceled) and can no
    /// longer accept a new resolution proposal.
    MarketAlreadyResolved,
    /// `appeal` was called on a candidate that is not currently `Challenged`.
    CandidateNotChallenged,
    /// A candidate has already been re-proposed `MAX_APPEAL_ROUNDS` times.
    AppealLimitExceeded,
    /// `propose`'s `bond_amount` is below `MIN_BOND_AMOUNT`.
    InsufficientBond,
    /// A proposer/challenger does not have enough deposited collateral for
    /// the requested operation.
    InsufficientCollateral,
    /// A collateral amount is invalid (e.g. zero or negative).
    InvalidCollateral,
    Unauthorized,
    NotAdmin,
    AlreadyInitialized,
    /// The operation is blocked by the current emergency mode.
    EmergencyModeActive,
}

/// The numeric code under which each error is reported on chain.
pub open spec fn spec_error_code(e: ContractError) -> u32 {
    match e {
        ContractError::CandidateNotFound => 1,
        ContractError::CandidateAlreadyExists => 2,
        ContractError::CandidateAlreadyChallenged => 3,
        ContractError::CandidateAlreadyFinalized => 4,
        ContractError::ChallengeWindowOpen => 5,
        ContractError::ChallengeWindowClosed => 6,
        ContractError::InvalidChallengeWindow => 7,
        ContractError::InvalidEvidenceUri => 8,
        ContractError::SignatureExpired => 9,
        ContractError::InvalidSignatureExpiry => 10,
        ContractError::MarketAlreadyResolved => 11,
        ContractError::CandidateNotChallenged => 12,
        ContractError::AppealLimitExceeded => 13,
        ContractError::InsufficientBond => 14,
        ContractError::InsufficientCollateral => 15,
        ContractError::InvalidCollateral => 16,
        ContractError::Unauthorized => 40,
        ContractError::NotAdmin => 41,
        ContractError::AlreadyInitialized => 42,
        ContractError::EmergencyModeActive => 50,
    }
}

impl ContractError {
    /// The numeric code under which this error is reported on chain.
    pub fn code(&self) -> (c: u32)
        ensures
            c == spec_error_code(*self),
    {
        match self {
            ContractError::CandidateNotFound => 1,
            ContractError::CandidateAlreadyExists => 2,
            ContractError::CandidateAlreadyChallenged => 3,
            ContractError::CandidateAlreadyFinalized => 4,
            ContractError::ChallengeWindowOpen => 5,
            ContractError::ChallengeWindowClosed => 6,
            ContractError::InvalidChallengeWindow => 7,
            ContractError::InvalidEvidenceUri => 8,
            ContractError::SignatureExpired => 9,
            ContractError::InvalidSignatureExpiry => 10,
            ContractError::MarketAlreadyResolved => 11,
            ContractError::CandidateNotChallenged => 12,
            ContractError::AppealLimitExceeded => 13,
            ContractError::InsufficientBond => 14,
            ContractError::InsufficientCollateral => 15,
            ContractError::InvalidCollateral => 16,
            ContractError::Unauthorized => 40,
            ContractError::NotAdmin => 41,
            ContractError::AlreadyInitialized => 42,
            ContractError::EmergencyModeActive => 50,
        }
    }

    /// The error reported under an on-chain numeric code, if any.
    pub fn from_code(code: u32) -> (r: Option<ContractError>)
        ensures
            match r {
                Some(e) => spec_error_code(e) == code,
                None => forall|e: ContractError| spec_error_code(e) != code,
            },
    {
        match code {
            1 => Some(ContractError::CandidateNotFound),
            2 => Some(ContractError::CandidateAlreadyExists),
            3 => Some(ContractError::CandidateAlreadyChallenged),
            4 => Some(ContractError::CandidateAlreadyFinalized),
            5 => Some(ContractError::ChallengeWindowOpen),
            6 => Some(ContractError::ChallengeWindowClosed),
            7 => Some(ContractError::InvalidChallengeWindow),
            8 => Some(ContractError::InvalidEvidenceUri),
            9 => Some(ContractError::SignatureExpired),
            10 => Some(ContractError::InvalidSignatureExpiry),
            11 => Some(ContractError::MarketAlreadyResolved),
            12 => Some(ContractError::CandidateNotChallenged),
            13 => Some(ContractError::AppealLimitExceeded),
            14 => Some(ContractError::InsufficientBond),
            15 => Some(ContractError::InsufficientCollateral),
            16 => Some(ContractError::InvalidCollateral),
            40 => Some(ContractError::Unauthorized),
            41 => Some(ContractError::NotAdmin),
            42 => Some(ContractError::AlreadyInitialized),
            50 => Some(ContractError::EmergencyModeActive),
            _ => None,
        }
    }
}

} // verus!
