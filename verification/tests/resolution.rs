use vatix::address::{Address, AddressKind};
use vatix::resolution::env::{BondTransfer, Effect, Env, StorageKey};
use vatix::resolution::error::ContractError;
use vatix::resolution::events::{CandidateFinalized, ResolutionEvent, ResolutionRegistered};
use vatix::resolution::storage::get_challengers;
use vatix::resolution::types::{
    CandidateStatus, ChallengeRecord, MarketStatus, ResolutionCandidate,
};
use vatix::resolution::{
    validate_challenge_window, MarketReport, ResolutionContract, SignatureCheck, SignatureVerdict,
    MAX_APPEAL_ROUNDS, MIN_BOND_AMOUNT,
};

const DEFAULT_WINDOW: u64 = 300;
const MIN_WINDOW: u64 = 60;
const MAX_WINDOW: u64 = 14 * 24 * 60 * 60; // 1_209_600
const BOND: i128 = 10_000_000;

fn account(n: u128) -> Address {
    Address { kind: AddressKind::Account, hi: 0, lo: n }
}

fn contract_address(n: u128) -> Address {
    Address { kind: AddressKind::Contract, hi: 0, lo: n }
}

fn setup() -> (Env, Address, Address) {
    let mut env = Env::new(contract_address(100), 0);
    let admin = account(1);
    let factory = contract_address(2);
    let market_contract = contract_address(3);
    ResolutionContract::initialize(&mut env, admin, factory, market_contract, DEFAULT_WINDOW)
        .unwrap();
    (env, admin, market_contract)
}

fn signature() -> [u8; 64] {
    [7u8; 64]
}

fn evidence() -> Vec<u8> {
    b"ipfs://resolution-evidence".to_vec()
}

fn set_time(env: &mut Env, timestamp: u64) {
    env.timestamp = timestamp;
}

/// The market contract's verdict on a signature: it rejects the all-zero
/// signature and accepts every other one.
fn market_verdict(signature: &[u8; 64]) -> Result<(), ContractError> {
    if signature.iter().all(|b| *b == 0) {
        Err(ContractError::Unauthorized)
    } else {
        Ok(())
    }
}

/// The market contract's answer to a signature check.
fn answer(check: SignatureCheck) -> SignatureVerdict {
    SignatureVerdict { check, result: market_verdict(&check.signature) }
}

/// The market contract's status report for the market of a signature check.
fn report(check: &SignatureCheck, status: MarketStatus) -> MarketReport {
    MarketReport { market_contract: check.market_contract, market_id: check.market_id, status }
}

/// Proposes the way the host does: the market contract is asked for the
/// market's status and to verify the signature only once the contract's own
/// checks have passed, and exactly about what those checks returned.
fn propose(
    env: &mut Env,
    proposer: Address,
    market_id: u32,
    outcome: bool,
    signature: [u8; 64],
    signature_expiry: u64,
    evidence_uri: Vec<u8>,
    challenge_window_seconds: u64,
    bond_amount: i128,
) -> Result<u32, ContractError> {
    propose_on(
        env,
        proposer,
        market_id,
        outcome,
        signature,
        signature_expiry,
        evidence_uri,
        challenge_window_seconds,
        bond_amount,
        MarketStatus::Active,
    )
}

fn propose_on(
    env: &mut Env,
    proposer: Address,
    market_id: u32,
    outcome: bool,
    signature: [u8; 64],
    signature_expiry: u64,
    evidence_uri: Vec<u8>,
    challenge_window_seconds: u64,
    bond_amount: i128,
    status: MarketStatus,
) -> Result<u32, ContractError> {
    let check = ResolutionContract::check_propose(
        env,
        market_id,
        outcome,
        signature,
        signature_expiry,
        &evidence_uri,
        challenge_window_seconds,
        bond_amount,
    )?;
    ResolutionContract::propose(
        env,
        proposer,
        market_id,
        outcome,
        signature,
        signature_expiry,
        evidence_uri,
        challenge_window_seconds,
        bond_amount,
        report(&check, status),
        answer(check),
    )
}

fn appeal(
    env: &mut Env,
    proposer: Address,
    candidate_id: u32,
    outcome: bool,
    signature: [u8; 64],
    evidence_uri: Vec<u8>,
    challenge_window_seconds: u64,
) -> Result<(), ContractError> {
    let check = ResolutionContract::check_appeal(
        env,
        candidate_id,
        outcome,
        signature,
        &evidence_uri,
        challenge_window_seconds,
    )?;
    ResolutionContract::appeal(
        env,
        proposer,
        candidate_id,
        outcome,
        signature,
        evidence_uri,
        challenge_window_seconds,
        answer(check),
    )
}

/// The token movements requested so far, in order.
fn transfers(env: &Env) -> Vec<BondTransfer> {
    env.effects
        .iter()
        .filter_map(|e| match e {
            Effect::Transfer(t) => Some(*t),
            _ => None,
        })
        .collect()
}

/// The events published so far, in order.
fn events(env: &Env) -> Vec<ResolutionEvent> {
    env.effects
        .iter()
        .filter_map(|e| match e {
            Effect::Publish(ev) => Some(ev.clone()),
            _ => None,
        })
        .collect()
}

fn candidate(env: &Env, id: u32) -> ResolutionCandidate {
    ResolutionContract::get_candidate(env, id).unwrap()
}

#[test]
fn propose_stores_candidate_with_challenge_deadline() {
    let (mut env, _, _) = setup();
    set_time(&mut env, 1_000);

    let proposer = account(10);
    let expiry = env.timestamp + 600;
    let candidate_id = propose(
        &mut env,
        proposer,
        42,
        true,
        signature(),
        expiry,
        evidence(),
        300,
        10_000_000i128,
    )
    .unwrap();

    assert_eq!(candidate_id, 1);
    let candidate = candidate(&env, candidate_id);
    assert_eq!(candidate.market_id, 42);
    assert_eq!(candidate.outcome, true);
    assert_eq!(candidate.challenge_deadline, 1_300);
    assert_eq!(ResolutionContract::get_candidate_id_for_market(&env, 42), Some(candidate_id));
}

#[test]
fn challenge_marks_candidate_and_blocks_finalize() {
    let (mut env, _, _) = setup();
    set_time(&mut env, 1_000);

    let proposer = account(10);
    let expiry = env.timestamp + 600;
    let candidate_id =
        propose(&mut env, proposer, 1, false, signature(), expiry, evidence(), 300, 10_000_000i128)
            .unwrap();

    let challenger = account(11);
    let challenge_uri = b"ipfs://challenge".to_vec();
    ResolutionContract::challenge(&mut env, challenger, candidate_id, challenge_uri).unwrap();
    set_time(&mut env, 1_400);

    let finalizer = account(12);
    let result = ResolutionContract::finalize(&mut env, finalizer, candidate_id);
    assert_eq!(result, Err(ContractError::CandidateAlreadyChallenged));
}

#[test]
fn finalize_requires_closed_challenge_window() {
    let (mut env, _, _) = setup();
    set_time(&mut env, 1_000);

    let proposer = account(10);
    let expiry = env.timestamp + 600;
    let candidate_id =
        propose(&mut env, proposer, 1, true, signature(), expiry, evidence(), 300, 10_000_000i128)
            .unwrap();

    let finalizer = account(12);
    assert_eq!(
        ResolutionContract::finalize(&mut env, finalizer, candidate_id),
        Err(ContractError::ChallengeWindowOpen)
    );

    set_time(&mut env, 1_301);
    let candidate = ResolutionContract::finalize(&mut env, finalizer, candidate_id).unwrap();
    assert_eq!(candidate.status, CandidateStatus::Finalized);
    assert_eq!(candidate.finalized_at, Some(1_301));
}

#[test]
fn challenge_after_deadline_is_rejected() {
    let (mut env, _, _) = setup();
    set_time(&mut env, 1_000);

    let proposer = account(10);
    let expiry = env.timestamp + 60;
    let candidate_id =
        propose(&mut env, proposer, 1, true, signature(), expiry, evidence(), 60, BOND).unwrap();

    set_time(&mut env, 1_061);
    let challenger = account(11);
    let challenge_uri = b"ipfs://late-challenge".to_vec();
    assert_eq!(
        ResolutionContract::challenge(&mut env, challenger, candidate_id, challenge_uri),
        Err(ContractError::ChallengeWindowClosed)
    );
}

#[test]
fn admin_can_update_factory_registration() {
    let (mut env, admin, _) = setup();

    let new_factory = contract_address(20);
    ResolutionContract::set_factory(&mut env, admin, new_factory).unwrap();
    assert_eq!(ResolutionContract::get_config(&env).factory, new_factory);
}

#[test]
fn finalize_calls_resolve_market_on_market_contract() {
    let (mut env, _, _) = setup();

    set_time(&mut env, 1_000);
    let proposer = account(10);
    let sig = signature();
    // The signature stays valid through the first second after the
    // deadline, when the candidate is finalized.
    let expiry = env.timestamp + 61;
    let candidate_id =
        propose(&mut env, proposer, 5, true, sig, expiry, evidence(), 60, BOND).unwrap();

    set_time(&mut env, 1_061);
    let finalizer = account(12);
    let candidate = ResolutionContract::finalize(&mut env, finalizer, candidate_id).unwrap();

    assert_eq!(candidate.status, CandidateStatus::Finalized);
    assert_eq!(candidate.market_id, 5);
    assert_eq!(candidate.outcome, true);
    assert!(candidate.finalized_at.is_some());
}

#[test]
fn propose_with_valid_signature_succeeds_via_delegation() {
    let (mut env, _, _) = setup();
    set_time(&mut env, 1_000);

    let proposer = account(10);
    let valid_sig = signature();
    let expiry = env.timestamp + 600;
    let candidate_id =
        propose(&mut env, proposer, 1, true, valid_sig, expiry, evidence(), 300, 10_000_000i128)
            .unwrap();

    assert_eq!(candidate_id, 1);
    let candidate = candidate(&env, candidate_id);
    assert_eq!(candidate.market_id, 1);
    assert_eq!(candidate.outcome, true);
}

#[test]
fn propose_with_invalid_signature_fails_via_delegation() {
    let (mut env, _, _) = setup();
    set_time(&mut env, 1_000);

    let proposer = account(10);
    let invalid_sig = [0u8; 64];
    let expiry = env.timestamp + 600;
    let result =
        propose(&mut env, proposer, 1, true, invalid_sig, expiry, evidence(), 300, 10_000_000i128);

    assert!(result.is_err());
}

#[test]
fn initialize_stores_default_challenge_window() {
    let (env, _, _) = setup();
    assert_eq!(ResolutionContract::get_default_challenge_window(&env), DEFAULT_WINDOW);
}

#[test]
fn admin_can_update_default_challenge_window() {
    let (mut env, admin, _) = setup();
    ResolutionContract::set_default_challenge_window(&mut env, admin, 600).unwrap();
    assert_eq!(ResolutionContract::get_default_challenge_window(&env), 600);
}

#[test]
fn set_default_challenge_window_rejects_non_admin() {
    let (mut env, _, _) = setup();
    let rando = account(99);
    assert_eq!(
        ResolutionContract::set_default_challenge_window(&mut env, rando, 600),
        Err(ContractError::NotAdmin)
    );
}

#[test]
fn set_default_challenge_window_rejects_out_of_bounds() {
    let (mut env, admin, _) = setup();
    assert_eq!(
        ResolutionContract::set_default_challenge_window(&mut env, admin, 10),
        Err(ContractError::InvalidChallengeWindow)
    );
    assert_eq!(
        ResolutionContract::set_default_challenge_window(&mut env, admin, 14 * 24 * 60 * 60 + 1),
        Err(ContractError::InvalidChallengeWindow)
    );
}

#[test]
fn propose_accepts_challenge_window_at_min() {
    let (mut env, _, _) = setup();
    set_time(&mut env, 1_000);

    let proposer = account(10);
    let expiry = env.timestamp + MIN_WINDOW + 3600;
    let result =
        propose(&mut env, proposer, 1u32, true, signature(), expiry, evidence(), MIN_WINDOW, BOND);
    assert!(result.is_ok(), "MIN window should be accepted, got: {:?}", result);
}

#[test]
fn propose_accepts_challenge_window_at_max() {
    let (mut env, _, _) = setup();
    set_time(&mut env, 1_000);

    let proposer = account(10);
    let expiry = env.timestamp + MAX_WINDOW + 3600;
    let result =
        propose(&mut env, proposer, 1u32, true, signature(), expiry, evidence(), MAX_WINDOW, BOND);
    assert!(result.is_ok(), "MAX window should be accepted, got: {:?}", result);
}

#[test]
fn propose_rejects_challenge_window_below_min() {
    let (mut env, _, _) = setup();
    set_time(&mut env, 1_000);

    let proposer = account(10);
    let expiry = env.timestamp + 3600;
    let result = propose(
        &mut env,
        proposer,
        1u32,
        true,
        signature(),
        expiry,
        evidence(),
        MIN_WINDOW - 1,
        BOND,
    );
    assert_eq!(result, Err(ContractError::InvalidChallengeWindow));
}

#[test]
fn propose_rejects_challenge_window_above_max() {
    let (mut env, _, _) = setup();
    set_time(&mut env, 1_000);

    let proposer = account(10);
    let expiry = env.timestamp + MAX_WINDOW + 3600;
    let result = propose(
        &mut env,
        proposer,
        1u32,
        true,
        signature(),
        expiry,
        evidence(),
        MAX_WINDOW + 1,
        BOND,
    );
    assert_eq!(result, Err(ContractError::InvalidChallengeWindow));
}

#[test]
fn propose_accepts_signature_expiry_equal_to_proposed_at() {
    let (mut env, _, _) = setup();
    set_time(&mut env, 1_000);

    let proposer = account(10);
    let expiry = env.timestamp;
    let result =
        propose(&mut env, proposer, 1u32, true, signature(), expiry, evidence(), MIN_WINDOW, BOND);
    assert!(result.is_ok(), "expiry == proposed_at should be accepted, got: {:?}", result);
}

#[test]
fn propose_rejects_signature_expiry_before_proposed_at() {
    let (mut env, _, _) = setup();
    set_time(&mut env, 1_000);

    let proposer = account(10);
    let expiry = env.timestamp - 1;
    let result =
        propose(&mut env, proposer, 1u32, true, signature(), expiry, evidence(), MIN_WINDOW, BOND);
    assert_eq!(result, Err(ContractError::InvalidSignatureExpiry));
}

#[test]
fn challenge_accepted_at_exactly_deadline() {
    let (mut env, _, _) = setup();
    set_time(&mut env, 1_000);

    let proposer = account(10);
    let window = 300u64;
    let expiry = env.timestamp + window + 3600;
    let candidate_id =
        propose(&mut env, proposer, 1u32, true, signature(), expiry, evidence(), window, BOND)
            .unwrap();
    set_time(&mut env, 1_300);

    let challenger = account(11);
    let uri = b"ipfs://at-deadline".to_vec();
    let result = ResolutionContract::challenge(&mut env, challenger, candidate_id, uri);
    assert!(result.is_ok(), "challenge at deadline boundary should be accepted (guard is >)");
}

#[test]
fn challenge_rejected_one_second_after_deadline() {
    let (mut env, _, _) = setup();
    set_time(&mut env, 1_000);

    let proposer = account(10);
    let window = 300u64;
    let expiry = env.timestamp + window + 3600;
    let candidate_id =
        propose(&mut env, proposer, 1u32, true, signature(), expiry, evidence(), window, BOND)
            .unwrap();
    set_time(&mut env, 1_301);

    let challenger = account(11);
    let uri = b"ipfs://past-deadline".to_vec();
    assert_eq!(
        ResolutionContract::challenge(&mut env, challenger, candidate_id, uri),
        Err(ContractError::ChallengeWindowClosed)
    );
}

#[test]
fn challenge_accepted_one_second_before_deadline() {
    let (mut env, _, _) = setup();
    set_time(&mut env, 1_000);

    let proposer = account(10);
    let window = 300u64;
    let expiry = env.timestamp + window + 3600;
    let candidate_id =
        propose(&mut env, proposer, 1u32, true, signature(), expiry, evidence(), window, BOND)
            .unwrap();
    set_time(&mut env, 1_299);

    let challenger = account(11);
    let uri = b"ipfs://just-before-deadline".to_vec();
    let result = ResolutionContract::challenge(&mut env, challenger, candidate_id, uri);
    assert!(result.is_ok(), "challenge one second before deadline should be accepted");
}

#[test]
fn finalize_rejected_at_exactly_deadline() {
    let (mut env, _, _) = setup();
    set_time(&mut env, 1_000);

    let proposer = account(10);
    let window = 300u64;
    let expiry = env.timestamp + window + 3600;
    let candidate_id =
        propose(&mut env, proposer, 1u32, true, signature(), expiry, evidence(), window, BOND)
            .unwrap();
    set_time(&mut env, 1_300);

    let finalizer = account(12);
    assert_eq!(
        ResolutionContract::finalize(&mut env, finalizer, candidate_id),
        Err(ContractError::ChallengeWindowOpen)
    );
}

#[test]
fn finalize_accepted_one_second_after_deadline() {
    let (mut env, _, _) = setup();
    set_time(&mut env, 1_000);

    let proposer = account(10);
    let window = 300u64;
    let expiry = env.timestamp + window + 7200;
    let candidate_id =
        propose(&mut env, proposer, 1u32, true, signature(), expiry, evidence(), window, BOND)
            .unwrap();
    set_time(&mut env, 1_301);

    let finalizer = account(12);
    let result = ResolutionContract::finalize(&mut env, finalizer, candidate_id);
    assert!(result.is_ok(), "finalize one second after deadline should succeed, got: {:?}", result);
}

#[test]
fn finalize_accepted_at_exactly_signature_expiry() {
    let (mut env, _, _) = setup();
    set_time(&mut env, 1_000);

    let proposer = account(10);
    let window = 300u64;
    let expiry = 1_301u64;
    let candidate_id =
        propose(&mut env, proposer, 1u32, true, signature(), expiry, evidence(), window, BOND)
            .unwrap();

    set_time(&mut env, expiry);

    let finalizer = account(12);
    let result = ResolutionContract::finalize(&mut env, finalizer, candidate_id);
    assert!(
        result.is_ok(),
        "finalize at exactly signature_expiry should be accepted (guard is >), got: {:?}",
        result
    );
}

#[test]
fn finalize_rejected_one_second_after_signature_expiry() {
    let (mut env, _, _) = setup();
    set_time(&mut env, 1_000);

    let proposer = account(10);
    let window = 300u64;
    let expiry = 1_301u64;
    let candidate_id =
        propose(&mut env, proposer, 1u32, true, signature(), expiry, evidence(), window, BOND)
            .unwrap();

    set_time(&mut env, expiry + 1);

    let finalizer = account(12);
    assert_eq!(
        ResolutionContract::finalize(&mut env, finalizer, candidate_id),
        Err(ContractError::SignatureExpired)
    );
}

// ── Further coverage of the lifecycle ─────────────────────────────────────────

#[test]
fn initialize_twice_is_rejected_and_registers_once() {
    let (mut env, admin, market_contract) = setup();
    assert_eq!(
        ResolutionContract::initialize(&mut env, admin, contract_address(7), market_contract, 600),
        Err(ContractError::AlreadyInitialized)
    );
    assert_eq!(
        events(&env),
        vec![ResolutionEvent::ResolutionRegistered(ResolutionRegistered {
            factory: contract_address(2),
            market_contract,
            registered_at: 0,
        })]
    );
}

#[test]
fn initialize_rejects_out_of_bounds_default_window() {
    let mut env = Env::new(contract_address(100), 0);
    assert_eq!(
        ResolutionContract::initialize(
            &mut env,
            account(1),
            contract_address(2),
            contract_address(3),
            59
        ),
        Err(ContractError::InvalidChallengeWindow)
    );
    assert!(env.storage.config.is_none());
}

#[test]
fn non_admin_cannot_rotate_factory_or_market() {
    let (mut env, _, market_contract) = setup();
    let rando = account(99);
    assert_eq!(
        ResolutionContract::set_factory(&mut env, rando, contract_address(20)),
        Err(ContractError::NotAdmin)
    );
    assert_eq!(
        ResolutionContract::set_market_contract(&mut env, rando, contract_address(21)),
        Err(ContractError::NotAdmin)
    );
    assert_eq!(ResolutionContract::get_config(&env).market_contract, market_contract);
}

#[test]
fn admin_can_update_market_contract_and_bonds_follow_it() {
    let (mut env, admin, _) = setup();
    let new_market = contract_address(21);
    ResolutionContract::set_market_contract(&mut env, admin, new_market).unwrap();
    assert_eq!(ResolutionContract::get_config(&env).market_contract, new_market);

    set_time(&mut env, 1_000);
    let proposer = account(10);
    propose(&mut env, proposer, 8, true, signature(), 5_000, evidence(), 300, BOND).unwrap();
    assert_eq!(transfers(&env).last().unwrap().market_contract, new_market);
}

#[test]
fn propose_locks_bond_and_finalize_refunds_it() {
    let (mut env, _, market_contract) = setup();
    set_time(&mut env, 1_000);
    let proposer = account(10);
    let bond = 25_000_000i128;
    let id = propose(&mut env, proposer, 9, true, signature(), 5_000, evidence(), 300, bond).unwrap();
    assert_eq!(
        transfers(&env),
        vec![BondTransfer {
            market_contract,
            market_id: 9,
            from: proposer,
            to: contract_address(100),
            amount: bond,
        }]
    );

    set_time(&mut env, 1_301);
    ResolutionContract::finalize(&mut env, account(12), id).unwrap();
    assert_eq!(
        transfers(&env)[1],
        BondTransfer {
            market_contract,
            market_id: 9,
            from: contract_address(100),
            to: proposer,
            amount: bond,
        }
    );
    assert_eq!(
        events(&env).last(),
        Some(&ResolutionEvent::CandidateFinalized(CandidateFinalized {
            candidate_id: id,
            market_id: 9,
            outcome: true,
            finalized_at: 1_301,
        }))
    );
}

#[test]
fn propose_rejects_bad_uri_bond_and_duplicate_market() {
    let (mut env, _, _) = setup();
    set_time(&mut env, 1_000);
    let proposer = account(10);
    assert_eq!(
        propose(&mut env, proposer, 1, true, signature(), 5_000, Vec::new(), 300, BOND),
        Err(ContractError::InvalidEvidenceUri)
    );
    assert_eq!(
        propose(&mut env, proposer, 1, true, signature(), 5_000, vec![b'a'; 513], 300, BOND),
        Err(ContractError::InvalidEvidenceUri)
    );
    assert!(propose(&mut env, proposer, 1, true, signature(), 5_000, vec![b'a'; 512], 300, BOND)
        .is_ok());
    assert_eq!(
        propose(&mut env, proposer, 2, true, signature(), 5_000, evidence(), 300, MIN_BOND_AMOUNT - 1),
        Err(ContractError::InsufficientBond)
    );
    assert_eq!(
        propose(&mut env, proposer, 1, false, signature(), 5_000, evidence(), 300, BOND),
        Err(ContractError::CandidateAlreadyExists)
    );
    // Rejected proposals touch neither storage nor the logs.
    assert_eq!(env.storage.candidate_counter, Some(1));
    assert_eq!(transfers(&env).len(), 1);
}

#[test]
fn rejected_signature_leaves_no_candidate() {
    let (mut env, _, _) = setup();
    set_time(&mut env, 1_000);
    let check = ResolutionContract::check_propose(
        &env,
        4,
        true,
        signature(),
        5_000,
        &evidence(),
        300,
        BOND,
    )
    .unwrap();
    let effects_before = env.effects.len();
    let result = ResolutionContract::propose(
        &mut env,
        account(10),
        4,
        true,
        signature(),
        5_000,
        evidence(),
        300,
        BOND,
        report(&check, MarketStatus::Active),
        SignatureVerdict { check, result: Err(ContractError::Unauthorized) },
    );
    assert_eq!(result, Err(ContractError::Unauthorized));
    assert_eq!(ResolutionContract::get_candidate_id_for_market(&env, 4), None);
    assert!(transfers(&env).is_empty());
    assert_eq!(env.effects.len(), effects_before);
}

#[test]
fn candidate_ids_are_sequential() {
    let (mut env, _, _) = setup();
    set_time(&mut env, 1_000);
    let a = propose(&mut env, account(10), 1, true, signature(), 5_000, evidence(), 300, BOND);
    let b = propose(&mut env, account(11), 2, false, signature(), 5_000, evidence(), 300, BOND);
    assert_eq!((a, b), (Ok(1), Ok(2)));
    assert_eq!(ResolutionContract::get_candidate_id_for_market(&env, 2), Some(2));
}

#[test]
fn unknown_candidate_is_reported() {
    let (mut env, _, _) = setup();
    assert_eq!(
        ResolutionContract::challenge(&mut env, account(11), 77, b"ipfs://x".to_vec()),
        Err(ContractError::CandidateNotFound)
    );
    assert_eq!(
        ResolutionContract::finalize(&mut env, account(12), 77),
        Err(ContractError::CandidateNotFound)
    );
    assert_eq!(
        appeal(&mut env, account(10), 77, true, signature(), evidence(), 300),
        Err(ContractError::CandidateNotFound)
    );
    assert!(ResolutionContract::get_candidate(&env, 77).is_none());
}

#[test]
fn challenge_records_challenger_and_rejects_second_challenge() {
    let (mut env, _, _) = setup();
    set_time(&mut env, 1_000);
    let id = propose(&mut env, account(10), 1, true, signature(), 5_000, evidence(), 300, BOND)
        .unwrap();
    let challenger = account(11);
    ResolutionContract::challenge(&mut env, challenger, id, b"ipfs://c1".to_vec()).unwrap();
    let c = candidate(&env, id);
    assert_eq!(c.status, CandidateStatus::Challenged);
    assert_eq!(c.challenged_by, Some(challenger));
    assert_eq!(c.challenge_uri, Some(b"ipfs://c1".to_vec()));
    assert_eq!(
        ResolutionContract::challenge(&mut env, account(13), id, b"ipfs://c2".to_vec()),
        Err(ContractError::CandidateAlreadyChallenged)
    );
    assert_eq!(
        ResolutionContract::challenge(&mut env, account(13), id, Vec::new()),
        Err(ContractError::InvalidEvidenceUri)
    );
}

#[test]
fn appeal_resets_candidate_and_keeps_bond() {
    let (mut env, _, _) = setup();
    set_time(&mut env, 1_000);
    let proposer = account(10);
    let id = propose(&mut env, proposer, 1, true, signature(), 50_000, evidence(), 300, BOND)
        .unwrap();
    assert_eq!(
        appeal(&mut env, proposer, id, false, signature(), evidence(), 300),
        Err(ContractError::CandidateNotChallenged)
    );
    ResolutionContract::challenge(&mut env, account(11), id, b"ipfs://c".to_vec()).unwrap();
    set_time(&mut env, 1_100);
    appeal(&mut env, proposer, id, false, [9u8; 64], b"ipfs://new".to_vec(), 600).unwrap();
    let c = candidate(&env, id);
    assert_eq!(c.status, CandidateStatus::Proposed);
    assert_eq!(c.outcome, false);
    assert_eq!(c.signature, [9u8; 64]);
    assert_eq!(c.evidence_uri, b"ipfs://new".to_vec());
    assert_eq!(c.proposed_at, 1_100);
    assert_eq!(c.challenge_deadline, 1_700);
    assert_eq!(c.challenged_by, None);
    assert_eq!(c.challenge_uri, None);
    assert_eq!(c.appeal_round, 1);
    assert_eq!(c.bond_amount, BOND);
    assert_eq!(c.proposer, proposer);
}

#[test]
fn appeal_rejects_bad_window_and_rejected_signature() {
    let (mut env, _, _) = setup();
    set_time(&mut env, 1_000);
    let id = propose(&mut env, account(10), 1, true, signature(), 50_000, evidence(), 300, BOND)
        .unwrap();
    ResolutionContract::challenge(&mut env, account(11), id, b"ipfs://c".to_vec()).unwrap();
    assert_eq!(
        appeal(&mut env, account(10), id, false, signature(), evidence(), 30),
        Err(ContractError::InvalidChallengeWindow)
    );
    assert_eq!(
        appeal(&mut env, account(10), id, false, [0u8; 64], evidence(), 300),
        Err(ContractError::Unauthorized)
    );
    assert_eq!(candidate(&env, id).status, CandidateStatus::Challenged);
}

#[test]
fn appeals_are_capped() {
    let (mut env, _, _) = setup();
    set_time(&mut env, 1_000);
    let proposer = account(10);
    let id = propose(&mut env, proposer, 1, true, signature(), 50_000, evidence(), 300, BOND)
        .unwrap();
    for round in 1..=MAX_APPEAL_ROUNDS {
        ResolutionContract::challenge(&mut env, account(11), id, b"ipfs://c".to_vec()).unwrap();
        appeal(&mut env, proposer, id, true, signature(), evidence(), 300).unwrap();
        assert_eq!(candidate(&env, id).appeal_round, round);
    }
    ResolutionContract::challenge(&mut env, account(11), id, b"ipfs://c".to_vec()).unwrap();
    assert_eq!(
        appeal(&mut env, proposer, id, true, signature(), evidence(), 300),
        Err(ContractError::AppealLimitExceeded)
    );
}

#[test]
fn finalized_candidate_is_terminal() {
    let (mut env, _, _) = setup();
    set_time(&mut env, 1_000);
    let id = propose(&mut env, account(10), 1, true, signature(), 50_000, evidence(), 300, BOND)
        .unwrap();
    set_time(&mut env, 1_301);
    ResolutionContract::finalize(&mut env, account(12), id).unwrap();
    assert_eq!(
        ResolutionContract::finalize(&mut env, account(12), id),
        Err(ContractError::CandidateAlreadyFinalized)
    );
    assert_eq!(
        ResolutionContract::challenge(&mut env, account(11), id, b"ipfs://c".to_vec()),
        Err(ContractError::CandidateAlreadyFinalized)
    );
    assert_eq!(
        appeal(&mut env, account(10), id, false, signature(), evidence(), 300),
        Err(ContractError::CandidateNotChallenged)
    );
}

#[test]
fn challenge_and_finalize_never_both_open() {
    // At every second around the deadline exactly one of the two is possible.
    for t in [1_299u64, 1_300, 1_301, 1_302] {
        let (mut env, _, _) = setup();
        set_time(&mut env, 1_000);
        let id = propose(&mut env, account(10), 1, true, signature(), 50_000, evidence(), 300, BOND)
            .unwrap();
        set_time(&mut env, t);
        let (mut env2, _, _) = setup();
        set_time(&mut env2, 1_000);
        propose(&mut env2, account(10), 1, true, signature(), 50_000, evidence(), 300, BOND).unwrap();
        set_time(&mut env2, t);
        let challenged =
            ResolutionContract::challenge(&mut env, account(11), id, b"ipfs://c".to_vec()).is_ok();
        let finalized = ResolutionContract::finalize(&mut env2, account(12), id).is_ok();
        assert!(challenged != finalized, "at {} challenged={} finalized={}", t, challenged, finalized);
    }
}

#[test]
fn window_validation_bounds() {
    assert_eq!(validate_challenge_window(60), Ok(()));
    assert_eq!(validate_challenge_window(1_209_600), Ok(()));
    assert_eq!(validate_challenge_window(59), Err(ContractError::InvalidChallengeWindow));
    assert_eq!(validate_challenge_window(1_209_601), Err(ContractError::InvalidChallengeWindow));
}

#[test]
fn error_codes_round_trip() {
    assert_eq!(ContractError::CandidateNotFound.code(), 1);
    assert_eq!(ContractError::InvalidCollateral.code(), 16);
    assert_eq!(ContractError::NotAdmin.code(), 41);
    assert_eq!(ContractError::EmergencyModeActive.code(), 50);
    for code in 0..60u32 {
        if let Some(e) = ContractError::from_code(code) {
            assert_eq!(e.code(), code);
        }
    }
    assert_eq!(ContractError::from_code(17), None);
    assert_eq!(ContractError::from_code(42), Some(ContractError::AlreadyInitialized));
}

#[test]
fn settled_market_accepts_no_proposal() {
    for status in [MarketStatus::Resolved, MarketStatus::Canceled] {
        let (mut env, _, _) = setup();
        set_time(&mut env, 1_000);
        let result =
            propose_on(&mut env, account(10), 4, true, signature(), 5_000, evidence(), 300, BOND, status);
        assert_eq!(result, Err(ContractError::MarketAlreadyResolved));
        assert_eq!(ResolutionContract::get_candidate_id_for_market(&env, 4), None);
        assert!(transfers(&env).is_empty());
    }
    assert_eq!(vatix::resolution::check_market_open(MarketStatus::Active), Ok(()));
}

#[test]
fn propose_asks_market_contract_about_exactly_the_proposal() {
    let (mut env, _, market_contract) = setup();
    set_time(&mut env, 1_000);
    let sig = [5u8; 64];
    let check = ResolutionContract::check_propose(&env, 42, false, sig, 2_000, &evidence(), 300, BOND)
        .unwrap();
    assert_eq!(
        check,
        SignatureCheck { market_contract, market_id: 42, outcome: false, signature: sig }
    );
    // A failing local check means the market contract is never asked.
    assert_eq!(
        ResolutionContract::check_propose(&env, 42, false, sig, 999, &evidence(), 300, BOND),
        Err(ContractError::InvalidSignatureExpiry)
    );
}

#[test]
fn propose_stores_candidate_before_bond_transfer() {
    let (mut env, _, market_contract) = setup();
    set_time(&mut env, 1_000);
    let proposer = account(10);
    let n = env.effects.len();
    let id = propose(&mut env, proposer, 42, true, signature(), 5_000, evidence(), 300, BOND).unwrap();
    let tail = &env.effects[n..];
    assert_eq!(tail.len(), 5);
    assert_eq!(tail[0], Effect::Write(StorageKey::CandidateCounter));
    assert_eq!(tail[1], Effect::Write(StorageKey::Candidate(id)));
    assert_eq!(tail[2], Effect::Write(StorageKey::CandidateByMarket(42)));
    assert!(matches!(&tail[3], Effect::Publish(ResolutionEvent::CandidateProposed(_))));
    assert_eq!(
        tail[4],
        Effect::Transfer(BondTransfer {
            market_contract,
            market_id: 42,
            from: proposer,
            to: contract_address(100),
            amount: BOND,
        })
    );
}

#[test]
fn challenge_records_bonded_challenger_before_bond_transfer() {
    let (mut env, _, market_contract) = setup();
    set_time(&mut env, 1_000);
    let proposer = account(10);
    let bond = 30_000_000i128;
    let id = propose(&mut env, proposer, 3, true, signature(), 50_000, evidence(), 300, bond).unwrap();
    assert!(get_challengers(&env, id).is_empty());

    let challenger = account(11);
    let n = env.effects.len();
    ResolutionContract::challenge(&mut env, challenger, id, b"ipfs://c1".to_vec()).unwrap();
    assert_eq!(get_challengers(&env, id), vec![ChallengeRecord { challenger, bond }]);
    let tail = &env.effects[n..];
    assert_eq!(tail.len(), 5);
    assert_eq!(tail[0], Effect::Write(StorageKey::Candidate(id)));
    assert_eq!(tail[1], Effect::Write(StorageKey::CandidateByMarket(3)));
    assert_eq!(tail[2], Effect::Write(StorageKey::Challengers(id)));
    assert!(matches!(&tail[3], Effect::Publish(ResolutionEvent::CandidateChallenged(_))));
    assert_eq!(
        tail[4],
        Effect::Transfer(BondTransfer {
            market_contract,
            market_id: 3,
            from: challenger,
            to: contract_address(100),
            amount: bond,
        })
    );

    // The list spans the candidate's whole appeal lifecycle.
    appeal(&mut env, proposer, id, true, signature(), evidence(), 300).unwrap();
    let second = account(12);
    ResolutionContract::challenge(&mut env, second, id, b"ipfs://c2".to_vec()).unwrap();
    assert_eq!(
        get_challengers(&env, id),
        vec![ChallengeRecord { challenger, bond }, ChallengeRecord { challenger: second, bond }]
    );

    // A refused challenge records nothing.
    assert_eq!(
        ResolutionContract::challenge(&mut env, account(13), id, b"ipfs://c3".to_vec()),
        Err(ContractError::CandidateAlreadyChallenged)
    );
    assert_eq!(get_challengers(&env, id).len(), 2);
}

#[test]
fn appeal_asks_about_the_candidates_own_market() {
    let (mut env, _, market_contract) = setup();
    set_time(&mut env, 1_000);
    let id = propose(&mut env, account(10), 77, true, signature(), 50_000, evidence(), 300, BOND)
        .unwrap();
    ResolutionContract::challenge(&mut env, account(11), id, b"ipfs://c".to_vec()).unwrap();
    let sig = [3u8; 64];
    let check =
        ResolutionContract::check_appeal(&env, id, false, sig, &evidence(), 300).unwrap();
    assert_eq!(
        check,
        SignatureCheck { market_contract, market_id: 77, outcome: false, signature: sig }
    );
}

#[test]
fn finalize_stores_then_refunds_then_announces() {
    let (mut env, _, market_contract) = setup();
    set_time(&mut env, 1_000);
    let proposer = account(10);
    let id = propose(&mut env, proposer, 6, false, signature(), 50_000, evidence(), 300, BOND).unwrap();
    set_time(&mut env, 1_301);
    let n = env.effects.len();
    let finalized = ResolutionContract::finalize(&mut env, account(12), id).unwrap();
    assert_eq!(finalized.status, CandidateStatus::Finalized);
    let tail = &env.effects[n..];
    assert_eq!(tail.len(), 4);
    assert_eq!(tail[0], Effect::Write(StorageKey::Candidate(id)));
    assert_eq!(tail[1], Effect::Write(StorageKey::CandidateByMarket(6)));
    assert_eq!(
        tail[2],
        Effect::Transfer(BondTransfer {
            market_contract,
            market_id: 6,
            from: contract_address(100),
            to: proposer,
            amount: BOND,
        })
    );
    assert!(matches!(&tail[3], Effect::Publish(ResolutionEvent::CandidateFinalized(_))));
}

#[test]
fn market_index_stays_put_through_the_lifecycle() {
    let (mut env, _, _) = setup();
    set_time(&mut env, 1_000);
    let proposer = account(10);
    let a = propose(&mut env, proposer, 21, true, signature(), 50_000, evidence(), 300, BOND).unwrap();
    let b = propose(&mut env, proposer, 22, false, signature(), 50_000, evidence(), 300, BOND).unwrap();
    let index = env.storage.candidate_by_market.clone();
    ResolutionContract::challenge(&mut env, account(11), a, b"ipfs://c".to_vec()).unwrap();
    assert_eq!(env.storage.candidate_by_market, index);
    appeal(&mut env, proposer, a, false, signature(), evidence(), 300).unwrap();
    assert_eq!(env.storage.candidate_by_market, index);
    set_time(&mut env, 1_301);
    ResolutionContract::finalize(&mut env, account(12), b).unwrap();
    assert_eq!(env.storage.candidate_by_market, index);
    assert_eq!(ResolutionContract::get_candidate_id_for_market(&env, 21), Some(a));
    assert_eq!(ResolutionContract::get_candidate_id_for_market(&env, 22), Some(b));
}
