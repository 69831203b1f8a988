//! The resolution contract: proposals, challenges, appeals and finalization
//! of market outcomes.

pub mod env;
pub mod error;
pub mod events;
pub mod laws;
pub mod storage;
pub mod types;

use vstd::prelude::*;
use crate::address::Address;
use env::{BondTransfer, Effect, Env, Storage, StorageKey};
use error::ContractError;
use events::{
    finalized_event, is_appealed_event, is_challenged_event, is_proposed_event, registered_event,
};
use storage::{logged, next_candidate_id, recorded_challengers, same_ledger};
use types::ChallengeRecord;
use types::{CandidateStatus, CandidateView, MarketStatus, ResolutionCandidate, ResolutionConfig};

verus! {

broadcast use vstd::std_specs::hash::group_hash_axioms;

pub const MIN_CHALLENGE_WINDOW_SECONDS: u64 = 60;

pub const MAX_CHALLENGE_WINDOW_SECONDS: u64 = 14 * 24 * 60 * 60;

pub const MAX_URI_BYTES: u32 = 512;

/// Maximum number of times a candidate may be re-proposed via `appeal`
/// after being challenged, before the dispute must be resolved off-chain
/// (e.g. by admin intervention) rather than through further appeals.
pub const MAX_APPEAL_ROUNDS: u32 = 3;

/// Minimum bond a proposer must post (in the market's collateral token,
/// stroops) when calling `propose`. Locked in this contract and refunded on
/// successful finalize.
pub const MIN_BOND_AMOUNT: i128 = 10_000_000;

/// A challenge window lies within the accepted bounds, both included.
pub open spec fn valid_challenge_window(seconds: u64) -> bool {
    MIN_CHALLENGE_WINDOW_SECONDS <= seconds <= MAX_CHALLENGE_WINDOW_SECONDS
}

/// An evidence or challenge URI is non-empty and at most `MAX_URI_BYTES` long.
pub open spec fn valid_uri(uri: Seq<u8>) -> bool {
    0 < uri.len() <= MAX_URI_BYTES
}

/// The outcome of the checks `propose` makes before it asks the market
/// contract to verify the signature.
pub open spec fn propose_check(
    s: Storage,
    now: u64,
    market_id: u32,
    signature_expiry: u64,
    evidence_uri: Seq<u8>,
    challenge_window_seconds: u64,
    bond_amount: i128,
) -> Result<(), ContractError> {
    if !valid_uri(evidence_uri) {
        Err(ContractError::InvalidEvidenceUri)
    } else if !valid_challenge_window(challenge_window_seconds) {
        Err(ContractError::InvalidChallengeWindow)
    } else if bond_amount < MIN_BOND_AMOUNT {
        Err(ContractError::InsufficientBond)
    } else if signature_expiry < now {
        Err(ContractError::InvalidSignatureExpiry)
    } else if s.candidate_by_market@.contains_key(market_id) {
        Err(ContractError::CandidateAlreadyExists)
    } else {
        Ok(())
    }
}

/// The candidate created by a successful proposal.
pub open spec fn proposed_candidate(
    id: u32,
    market_id: u32,
    outcome: bool,
    signature: [u8; 64],
    signature_expiry: u64,
    proposer: Address,
    evidence_uri: Seq<u8>,
    now: u64,
    challenge_window_seconds: u64,
    bond_amount: i128,
) -> CandidateView {
    CandidateView {
        id,
        market_id,
        outcome,
        signature,
        signature_expiry,
        proposer,
        evidence_uri,
        proposed_at: now,
        challenge_deadline: (now + challenge_window_seconds) as u64,
        status: CandidateStatus::Proposed,
        challenged_by: None,
        challenge_uri: None,
        finalized_at: None,
        appeal_round: 0,
        bond_amount,
    }
}

/// Whether candidate `c` may be challenged at time `now`.
pub open spec fn challenge_check(c: CandidateView, now: u64) -> Result<(), ContractError> {
    if c.status == CandidateStatus::Finalized {
        Err(ContractError::CandidateAlreadyFinalized)
    } else if c.status == CandidateStatus::Challenged {
        Err(ContractError::CandidateAlreadyChallenged)
    } else if now > c.challenge_deadline {
        Err(ContractError::ChallengeWindowClosed)
    } else {
        Ok(())
    }
}

/// Candidate `c` after `challenger` challenged it with `uri`.
pub open spec fn challenged_candidate(c: CandidateView, challenger: Address, uri: Seq<u8>) -> CandidateView {
    CandidateView {
        status: CandidateStatus::Challenged,
        challenged_by: Some(challenger),
        challenge_uri: Some(uri),
        ..c
    }
}

/// The outcome of the checks `appeal` makes before it asks the market
/// contract to verify the new signature.
pub open spec fn appeal_check(
    s: Storage,
    candidate_id: u32,
    evidence_uri: Seq<u8>,
    challenge_window_seconds: u64,
) -> Result<(), ContractError> {
    if !valid_uri(evidence_uri) {
        Err(ContractError::InvalidEvidenceUri)
    } else if !valid_challenge_window(challenge_window_seconds) {
        Err(ContractError::InvalidChallengeWindow)
    } else if !s.candidates@.contains_key(candidate_id) {
        Err(ContractError::CandidateNotFound)
    } else if s.candidates@[candidate_id].status != CandidateStatus::Challenged {
        Err(ContractError::CandidateNotChallenged)
    } else if s.candidates@[candidate_id].appeal_round >= MAX_APPEAL_ROUNDS {
        Err(ContractError::AppealLimitExceeded)
    } else {
        Ok(())
    }
}

/// Candidate `c` re-proposed at `now` with a new outcome, signature,
/// evidence and challenge window.
pub open spec fn appealed_candidate(
    c: CandidateView,
    outcome: bool,
    signature: [u8; 64],
    evidence_uri: Seq<u8>,
    now: u64,
    challenge_window_seconds: u64,
) -> CandidateView {
    CandidateView {
        outcome,
        signature,
        evidence_uri,
        proposed_at: now,
        challenge_deadline: (now + challenge_window_seconds) as u64,
        status: CandidateStatus::Proposed,
        challenged_by: None,
        challenge_uri: None,
        appeal_round: (c.appeal_round + 1) as u32,
        ..c
    }
}

/// Whether candidate `c` may be finalized at time `now`.
pub open spec fn finalize_check(c: CandidateView, now: u64) -> Result<(), ContractError> {
    if c.status == CandidateStatus::Finalized {
        Err(ContractError::CandidateAlreadyFinalized)
    } else if c.status == CandidateStatus::Challenged {
        Err(ContractError::CandidateAlreadyChallenged)
    } else if now <= c.challenge_deadline {
        Err(ContractError::ChallengeWindowOpen)
    } else if now > c.signature_expiry {
        Err(ContractError::SignatureExpired)
    } else {
        Ok(())
    }
}

/// Candidate `c` finalized at `now`.
pub open spec fn finalized_candidate(c: CandidateView, now: u64) -> CandidateView {
    CandidateView { status: CandidateStatus::Finalized, finalized_at: Some(now), ..c }
}

/// `after` holds `before`'s candidates with candidate `id` replaced by one
/// whose value is `c`, re-indexed under its market.
pub open spec fn stores_candidate(before: Storage, after: Storage, id: u32, c: CandidateView) -> bool {
    &&& after.candidates@.dom() == before.candidates@.dom().insert(id)
    &&& after.candidates@[id]@ == c
    &&& forall|k: u32|
        k != id ==> #[trigger] after.candidates@.contains_key(k) ==> after.candidates@[k]
            == before.candidates@[k]
    &&& after.candidate_by_market@ == before.candidate_by_market@.insert(c.market_id, id)
}

/// `after` equals `before` outside the candidates, their market index and
/// the candidate counter.
pub open spec fn storage_same_but_candidates(before: Storage, after: Storage) -> bool {
    after == (Storage {
        candidates: after.candidates,
        candidate_by_market: after.candidate_by_market,
        candidate_counter: after.candidate_counter,
        ..before
    })
}

/// What every candidate created and advanced by this contract satisfies:
/// appeals within the cap, at least the minimum bond, a valid evidence URI,
/// a deadline one valid challenge window after its proposal, a finalization
/// time exactly when finalized, and a challenger and valid challenge URI
/// exactly when challenged.
pub open spec fn candidate_valid(c: CandidateView) -> bool {
    &&& c.appeal_round <= MAX_APPEAL_ROUNDS
    &&& c.bond_amount >= MIN_BOND_AMOUNT
    &&& valid_uri(c.evidence_uri)
    &&& c.proposed_at + MIN_CHALLENGE_WINDOW_SECONDS <= c.challenge_deadline
    &&& c.challenge_deadline <= c.proposed_at + MAX_CHALLENGE_WINDOW_SECONDS
    &&& (c.status == CandidateStatus::Finalized) == (c.finalized_at is Some)
    &&& (c.status == CandidateStatus::Challenged) == (c.challenged_by is Some)
    &&& (c.status == CandidateStatus::Challenged) == (c.challenge_uri is Some)
    &&& (c.challenge_uri matches Some(u) ==> valid_uri(u))
}

/// Every stored candidate satisfies [`candidate_valid`].
pub open spec fn candidates_valid(s: Storage) -> bool {
    forall|k: u32| #[trigger] s.candidates@.contains_key(k) ==> candidate_valid(s.candidates@[k]@)
}

/// The candidate store of `s` is consistent: ids run from 1 up to the
/// counter, every market index entry names a stored candidate of that
/// market, every stored candidate is the one indexed under its market, and
/// every candidate is valid.
pub open spec fn lifecycle_ok(s: Storage) -> bool {
    &&& forall|k: u32| #[trigger]
        s.candidates@.contains_key(k) ==> 1 <= k < next_candidate_id(s)
    &&& forall|m: u32| #[trigger]
        s.candidate_by_market@.contains_key(m) ==> s.candidates@.contains_key(
            s.candidate_by_market@[m],
        ) && s.candidates@[s.candidate_by_market@[m]].market_id == m
    &&& forall|k: u32| #[trigger]
        s.candidates@.contains_key(k) ==> s.candidate_by_market@.contains_key(
            s.candidates@[k].market_id,
        ) && s.candidate_by_market@[s.candidates@[k].market_id] == k
    &&& candidates_valid(s)
}

/// `s` holds no candidate yet, as a fresh deployment.
pub open spec fn no_candidates(s: Storage) -> bool {
    &&& s.candidates@ == Map::<u32, ResolutionCandidate>::empty()
    &&& s.candidate_by_market@ == Map::<u32, u32>::empty()
    &&& s.candidate_counter is None
}

/// `after` is `before` with a new valid candidate `c`, for a market that had
/// none, stored under the next id.
pub open spec fn creates_candidate(before: Storage, after: Storage, c: CandidateView) -> bool {
    &&& c.id == next_candidate_id(before)
    &&& !before.candidate_by_market@.contains_key(c.market_id)
    &&& after.candidate_counter == Some(c.id)
    &&& candidate_valid(c)
    &&& stores_candidate(before, after, c.id, c)
}

/// `after` is `before` with stored candidate `id` replaced by `c`, which
/// keeps its id and market and stays valid if it was.
pub open spec fn updates_candidate(before: Storage, after: Storage, id: u32, c: CandidateView) -> bool {
    &&& before.candidates@.contains_key(id)
    &&& c.id == id
    &&& c.market_id == before.candidates@[id].market_id
    &&& (candidate_valid(before.candidates@[id]@) ==> candidate_valid(c))
    &&& after.candidate_counter == before.candidate_counter
    &&& stores_candidate(before, after, id, c)
}

/// The ways a call of this contract changes the candidate store: not at
/// all, by creating a candidate, or by updating one.
pub open spec fn lifecycle_step(before: Storage, after: Storage) -> bool {
    ||| {
        &&& after.candidates == before.candidates
        &&& after.candidate_by_market == before.candidate_by_market
        &&& after.candidate_counter == before.candidate_counter
    }
    ||| exists|c: CandidateView| #[trigger] creates_candidate(before, after, c)
    ||| exists|id: u32, c: CandidateView| #[trigger] updates_candidate(before, after, id, c)
}

/// A query to the market contract about market `market_id`.
#[derive(Clone, Copy, Debug, PartialEq, Eq)]
pub struct SignatureCheck {
    /// The market contract asked.
    pub market_contract: Address,
    pub market_id: u32,
    pub outcome: bool,
    pub signature: [u8; 64],
}

/// The market contract's status report for a market.
#[derive(Clone, Copy, Debug, PartialEq, Eq)]
pub struct MarketReport {
    pub market_contract: Address,
    pub market_id: u32,
    pub status: MarketStatus,
}

/// The market contract's verdict on a signature check.
#[derive(Clone, Copy, Debug, PartialEq, Eq)]
pub struct SignatureVerdict {
    pub check: SignatureCheck,
    pub result: Result<(), ContractError>,
}

/// The signature check that a proposal of `outcome` for `market_id` asks
/// the registered market contract for.
pub open spec fn propose_request(s: Storage, market_id: u32, outcome: bool, signature: [u8; 64]) -> SignatureCheck {
    SignatureCheck {
        market_contract: s.config.unwrap().market_contract,
        market_id,
        outcome,
        signature,
    }
}

/// The signature check that an appeal of candidate `candidate_id` with
/// `outcome` asks the registered market contract for: the candidate's own
/// market.
pub open spec fn appeal_request(s: Storage, candidate_id: u32, outcome: bool, signature: [u8; 64]) -> SignatureCheck {
    SignatureCheck {
        market_contract: s.config.unwrap().market_contract,
        market_id: s.candidates@[candidate_id].market_id,
        outcome,
        signature,
    }
}

/// `after`'s effect log is `before`'s followed by exactly `k` more effects.
pub open spec fn adds_effects(before: &Env, after: &Env, k: int) -> bool {
    &&& after.effects@.len() == before.effects@.len() + k
    &&& after.effects@.subrange(0, before.effects@.len() as int) == before.effects@
    &&& same_ledger(before, after)
}

/// Rejects a proposal for a market that is no longer `Active` (already
/// resolved, or canceled).
pub fn check_market_open(status: MarketStatus) -> (r: Result<(), ContractError>)
    ensures
        r == (if status == MarketStatus::Active {
            Ok(())
        } else {
            Err(ContractError::MarketAlreadyResolved)
        }),
{
    match status {
        MarketStatus::Active => Ok(()),
        _ => Err(ContractError::MarketAlreadyResolved),
    }
}

/// Rejects a caller that is not the registered admin.
pub fn require_admin(admin: &Address, config: &ResolutionConfig) -> (r: Result<(), ContractError>)
    ensures
        r == (if *admin == config.admin { Ok(()) } else { Err(ContractError::NotAdmin) }),
{
    if *admin != config.admin {
        return Err(ContractError::NotAdmin);
    }
    Ok(())
}

/// Rejects a challenge window outside
/// `MIN_CHALLENGE_WINDOW_SECONDS..=MAX_CHALLENGE_WINDOW_SECONDS`.
pub fn validate_challenge_window(seconds: u64) -> (r: Result<(), ContractError>)
    ensures
        r == (if valid_challenge_window(seconds) {
            Ok(())
        } else {
            Err(ContractError::InvalidChallengeWindow)
        }),
{
    if !(MIN_CHALLENGE_WINDOW_SECONDS <= seconds && seconds <= MAX_CHALLENGE_WINDOW_SECONDS) {
        return Err(ContractError::InvalidChallengeWindow);
    }
    Ok(())
}

/// Rejects an empty URI or one longer than `MAX_URI_BYTES` bytes.
pub fn validate_uri(uri: &Vec<u8>) -> (r: Result<(), ContractError>)
    ensures
        r == (if valid_uri(uri@) { Ok(()) } else { Err(ContractError::InvalidEvidenceUri) }),
{
    let len = uri.len();
    if len == 0 || len > 512 {
        return Err(ContractError::InvalidEvidenceUri);
    }
    Ok(())
}

/// The resolution lifecycle contract.
pub struct ResolutionContract;

impl ResolutionContract {
    /// Register the resolution lifecycle contract with its factory, its
    /// market and its default challenge window.
    ///
    /// The factory can index this contract as the challenge-window companion
    /// for `market_contract`. Final settlement still happens through the
    /// market contract's `resolve_market` function after a candidate finalizes.
    pub fn initialize(
        env: &mut Env,
        admin: Address,
        factory: Address,
        market_contract: Address,
        challenge_window_secs: u64,
    ) -> (r: Result<(), ContractError>)
        ensures
            lifecycle_step(old(env).storage, final(env).storage),
            old(env).storage.config is Some ==> r == Err::<(), ContractError>(
                ContractError::AlreadyInitialized,
            ) && *final(env) == *old(env),
            old(env).storage.config is None && !valid_challenge_window(challenge_window_secs)
                ==> r == Err::<(), ContractError>(ContractError::InvalidChallengeWindow)
                && *final(env) == *old(env),
            old(env).storage.config is None && valid_challenge_window(challenge_window_secs) ==> {
                &&& r is Ok
                &&& final(env).storage == (Storage {
                    config: Some(
                        ResolutionConfig { admin, factory, market_contract, challenge_window_secs },
                    ),
                    ..old(env).storage
                })
                &&& logged(
                    old(env),
                    final(env),
                    seq![
                        Effect::Write(StorageKey::Config),
                        Effect::Publish(registered_event(factory, market_contract, old(env).timestamp)),
                    ],
                )
            },
    {
        if storage::has_config(env) {
            return Err(ContractError::AlreadyInitialized);
        }
        validate_challenge_window(challenge_window_secs)?;
        storage::set_config(
            env,
            &ResolutionConfig { admin, factory, market_contract, challenge_window_secs },
        );
        events::emit_resolution_registered(env, &factory, &market_contract);
        proof {
            assert(final(env).effects@ =~= old(env).effects@ + seq![
                Effect::Write(StorageKey::Config),
                Effect::Publish(registered_event(factory, market_contract, old(env).timestamp)),
            ]);
        }
        Ok(())
    }

    pub fn get_config(env: &Env) -> (c: ResolutionConfig)
        requires
            env.storage.config is Some,
        ensures
            c == env.storage.config.unwrap(),
    {
        storage::get_config(env)
    }

    /// Update the registered factory address.
    pub fn set_factory(env: &mut Env, admin: Address, factory: Address) -> (r: Result<
        (),
        ContractError,
    >)
        requires
            old(env).storage.config is Some,
        ensures
            lifecycle_step(old(env).storage, final(env).storage),
            admin != old(env).storage.config.unwrap().admin ==> r == Err::<(), ContractError>(
                ContractError::NotAdmin,
            ) && *final(env) == *old(env),
            admin == old(env).storage.config.unwrap().admin ==> {
                &&& r is Ok
                &&& final(env).storage == (Storage {
                    config: Some(ResolutionConfig { factory, ..old(env).storage.config.unwrap() }),
                    ..old(env).storage
                })
                &&& logged(
                    old(env),
                    final(env),
                    seq![
                        Effect::Write(StorageKey::Config),
                        Effect::Publish(
                            registered_event(
                                factory,
                                old(env).storage.config.unwrap().market_contract,
                                old(env).timestamp,
                            ),
                        ),
                    ],
                )
            },
    {
        let mut config = storage::get_config(env);
        require_admin(&admin, &config)?;
        config.factory = factory;
        storage::set_config(env, &config);
        events::emit_resolution_registered(env, &factory, &config.market_contract);
        proof {
            assert(final(env).effects@ =~= old(env).effects@ + seq![
                Effect::Write(StorageKey::Config),
                Effect::Publish(registered_event(factory, config.market_contract, old(env).timestamp)),
            ]);
        }
        Ok(())
    }

    /// Update the market contract address that finalized candidates target.
    pub fn set_market_contract(env: &mut Env, admin: Address, market_contract: Address) -> (r:
        Result<(), ContractError>)
        requires
            old(env).storage.config is Some,
        ensures
            lifecycle_step(old(env).storage, final(env).storage),
            admin != old(env).storage.config.unwrap().admin ==> r == Err::<(), ContractError>(
                ContractError::NotAdmin,
            ) && *final(env) == *old(env),
            admin == old(env).storage.config.unwrap().admin ==> {
                &&& r is Ok
                &&& final(env).storage == (Storage {
                    config: Some(
                        ResolutionConfig { market_contract, ..old(env).storage.config.unwrap() },
                    ),
                    ..old(env).storage
                })
                &&& logged(
                    old(env),
                    final(env),
                    seq![
                        Effect::Write(StorageKey::Config),
                        Effect::Publish(
                            registered_event(
                                old(env).storage.config.unwrap().factory,
                                market_contract,
                                old(env).timestamp,
                            ),
                        ),
                    ],
                )
            },
    {
        let mut config = storage::get_config(env);
        require_admin(&admin, &config)?;
        config.market_contract = market_contract;
        storage::set_config(env, &config);
        events::emit_resolution_registered(env, &config.factory, &market_contract);
        proof {
            assert(final(env).effects@ =~= old(env).effects@ + seq![
                Effect::Write(StorageKey::Config),
                Effect::Publish(registered_event(config.factory, market_contract, old(env).timestamp)),
            ]);
        }
        Ok(())
    }

    /// The default challenge window, in seconds.
    pub fn get_default_challenge_window(env: &Env) -> (seconds: u64)
        requires
            env.storage.config is Some,
        ensures
            seconds == env.storage.config.unwrap().challenge_window_secs,
    {
        storage::get_config(env).challenge_window_secs
    }

    /// Update the default challenge window; only the admin may, and only to
    /// a window within the accepted bounds.
    pub fn set_default_challenge_window(env: &mut Env, admin: Address, seconds: u64) -> (r:
        Result<(), ContractError>)
        requires
            old(env).storage.config is Some,
        ensures
            lifecycle_step(old(env).storage, final(env).storage),
            admin != old(env).storage.config.unwrap().admin ==> r == Err::<(), ContractError>(
                ContractError::NotAdmin,
            ) && *final(env) == *old(env),
            admin == old(env).storage.config.unwrap().admin && !valid_challenge_window(seconds)
                ==> r == Err::<(), ContractError>(ContractError::InvalidChallengeWindow)
                && *final(env) == *old(env),
            admin == old(env).storage.config.unwrap().admin && valid_challenge_window(seconds) ==> {
                &&& r is Ok
                &&& final(env).storage == (Storage {
                    config: Some(
                        ResolutionConfig {
                            challenge_window_secs: seconds,
                            ..old(env).storage.config.unwrap()
                        },
                    ),
                    ..old(env).storage
                })
                &&& logged(old(env), final(env), seq![Effect::Write(StorageKey::Config)])
            },
    {
        let mut config = storage::get_config(env);
        require_admin(&admin, &config)?;
        validate_challenge_window(seconds)?;
        config.challenge_window_secs = seconds;
        storage::set_config(env, &config);
        Ok(())
    }

    /// The checks `propose` makes before it consults the market contract: a
    /// valid evidence URI and challenge window, a sufficient bond, an
    /// unexpired signature and no candidate yet for the market. When they
    /// pass, the result is the signature check to put to the registered
    /// market contract, whose market is also the one to ask for its status.
    pub fn check_propose(
        env: &Env,
        market_id: u32,
        outcome: bool,
        signature: [u8; 64],
        signature_expiry: u64,
        evidence_uri: &Vec<u8>,
        challenge_window_seconds: u64,
        bond_amount: i128,
    ) -> (r: Result<SignatureCheck, ContractError>)
        requires
            env.storage.config is Some,
        ensures
            r == match propose_check(
                env.storage,
                env.timestamp,
                market_id,
                signature_expiry,
                evidence_uri@,
                challenge_window_seconds,
                bond_amount,
            ) {
                Err(e) => Err::<SignatureCheck, ContractError>(e),
                Ok(_) => Ok(propose_request(env.storage, market_id, outcome, signature)),
            },
    {
        let config = storage::get_config(env);
        validate_uri(evidence_uri)?;
        validate_challenge_window(challenge_window_seconds)?;
        if bond_amount < MIN_BOND_AMOUNT {
            return Err(ContractError::InsufficientBond);
        }
        if signature_expiry < env.timestamp {
            return Err(ContractError::InvalidSignatureExpiry);
        }
        if storage::get_candidate_id_for_market(env, market_id).is_some() {
            return Err(ContractError::CandidateAlreadyExists);
        }
        Ok(SignatureCheck { market_contract: config.market_contract, market_id, outcome, signature })
    }

    /// Propose a signed resolution candidate for a market.
    ///
    /// Once [`ResolutionContract::check_propose`] has passed, the market
    /// contract reports the market's status (`report`): a market that is no
    /// longer `Active` cannot receive a new proposal. For an open market it
    /// then gives its `verdict` on the signature check that
    /// `check_propose` returned; a rejection is returned unchanged.
    ///
    /// The proposer must post a `bond_amount` (>= `MIN_BOND_AMOUNT`) in the
    /// market's collateral token, transferred from the proposer to this
    /// contract and locked until the candidate (or one of its appeals)
    /// finalizes, at which point it is refunded to the proposer. The
    /// candidate is stored and announced before the bond transfer.
    pub fn propose(
        env: &mut Env,
        proposer: Address,
        market_id: u32,
        outcome: bool,
        signature: [u8; 64],
        signature_expiry: u64,
        evidence_uri: Vec<u8>,
        challenge_window_seconds: u64,
        bond_amount: i128,
        report: MarketReport,
        verdict: SignatureVerdict,
    ) -> (r: Result<u32, ContractError>)
        requires
            old(env).wf(),
            old(env).storage.config is Some,
            propose_check(
                old(env).storage,
                old(env).timestamp,
                market_id,
                signature_expiry,
                evidence_uri@,
                challenge_window_seconds,
                bond_amount,
            ) is Ok ==> {
                &&& report.market_contract == old(env).storage.config.unwrap().market_contract
                &&& report.market_id == market_id
                &&& report.status == MarketStatus::Active ==> verdict.check == propose_request(
                    old(env).storage,
                    market_id,
                    outcome,
                    signature,
                )
                &&& report.status == MarketStatus::Active && verdict.result is Ok
                    ==> next_candidate_id(old(env).storage) <= u32::MAX && old(env).timestamp
                    + challenge_window_seconds <= u64::MAX
            },
        ensures
            final(env).wf(),
            lifecycle_step(old(env).storage, final(env).storage),
            lifecycle_ok(old(env).storage) ==> lifecycle_ok(final(env).storage),
            r is Ok ==> final(env).storage.candidates@.contains_key(r.unwrap()) && ({
                let c = final(env).storage.candidates@[r.unwrap()]@;
                &&& c.id == r.unwrap()
                &&& c.market_id == market_id
                &&& c.outcome == outcome
                &&& c.signature == signature
                &&& c.signature_expiry == signature_expiry
                &&& c.proposer == proposer
                &&& c.evidence_uri == evidence_uri@
                &&& c.proposed_at == old(env).timestamp
                &&& c.challenge_deadline == old(env).timestamp + challenge_window_seconds
                &&& c.status == CandidateStatus::Proposed
                &&& c.appeal_round == 0
                &&& c.bond_amount == bond_amount
            }),
            ({
                let check = propose_check(
                    old(env).storage,
                    old(env).timestamp,
                    market_id,
                    signature_expiry,
                    evidence_uri@,
                    challenge_window_seconds,
                    bond_amount,
                );
                match check {
                    Err(e) => r == Err::<u32, ContractError>(e) && *final(env) == *old(env),
                    Ok(_) => if report.status != MarketStatus::Active {
                        r == Err::<u32, ContractError>(ContractError::MarketAlreadyResolved)
                            && *final(env) == *old(env)
                    } else {
                        match verdict.result {
                            Err(e) => r == Err::<u32, ContractError>(e) && *final(env) == *old(env),
                            Ok(_) => {
                                let id = next_candidate_id(old(env).storage) as u32;
                                let c = proposed_candidate(
                                    id,
                                    market_id,
                                    outcome,
                                    signature,
                                    signature_expiry,
                                    proposer,
                                    evidence_uri@,
                                    old(env).timestamp,
                                    challenge_window_seconds,
                                    bond_amount,
                                );
                                let n = old(env).effects@.len() as int;
                                &&& r == Ok::<u32, ContractError>(id)
                                &&& lifecycle_ok(old(env).storage)
                                    ==> !old(env).storage.candidates@.contains_key(id)
                                &&& final(env).storage.candidate_counter == Some(id)
                                &&& stores_candidate(old(env).storage, final(env).storage, id, c)
                                &&& storage_same_but_candidates(old(env).storage, final(env).storage)
                                &&& adds_effects(old(env), final(env), 5)
                                &&& final(env).effects@[n] == Effect::Write(StorageKey::CandidateCounter)
                                &&& final(env).effects@[n + 1] == Effect::Write(StorageKey::Candidate(id))
                                &&& final(env).effects@[n + 2] == Effect::Write(
                                    StorageKey::CandidateByMarket(market_id),
                                )
                                &&& is_proposed_event(final(env).effects@[n + 3], c)
                                &&& final(env).effects@[n + 4] == Effect::Transfer(
                                    BondTransfer {
                                        market_contract: old(env).storage.config.unwrap().market_contract,
                                        market_id,
                                        from: proposer,
                                        to: old(env).current_contract,
                                        amount: bond_amount,
                                    },
                                )
                            },
                        }
                    },
                }
            }),
    {
        let config = storage::get_config(env);
        Self::check_propose(
            env,
            market_id,
            outcome,
            signature,
            signature_expiry,
            &evidence_uri,
            challenge_window_seconds,
            bond_amount,
        )?;
        check_market_open(report.status)?;
        verdict.result?;

        let ghost e0 = env.effects@;
        let proposed_at = env.timestamp;
        let id = storage::increment_candidate_id(env);
        let ghost em = env.effects@;
        let candidate = ResolutionCandidate {
            id,
            market_id,
            outcome,
            signature,
            signature_expiry,
            proposer,
            evidence_uri,
            proposed_at,
            challenge_deadline: proposed_at + challenge_window_seconds,
            status: CandidateStatus::Proposed,
            challenged_by: None,
            challenge_uri: None,
            finalized_at: None,
            appeal_round: 0,
            bond_amount,
        };
        storage::set_candidate(env, &candidate);
        let ghost e1 = env.effects@;
        events::emit_candidate_proposed(env, &candidate);
        let ghost e2 = env.effects@;
        let current = env.current_contract;
        env.effects.push(
            Effect::Transfer(
                BondTransfer {
                    market_contract: config.market_contract,
                    market_id,
                    from: proposer,
                    to: current,
                    amount: bond_amount,
                },
            ),
        );
        proof {
            let n = e0.len() as int;
            assert(e1 =~= e0 + seq![
                Effect::Write(StorageKey::CandidateCounter),
                Effect::Write(StorageKey::Candidate(id)),
                Effect::Write(StorageKey::CandidateByMarket(market_id)),
            ]);
            assert forall|i: int| 0 <= i < e1.len() implies e2[i] == e1[i] by {
                assert(e2.drop_last()[i] == e1[i]);
            }
            assert(e2[n + 3] == e2.last());
            assert(env.effects@.subrange(0, n) =~= e0);
            let s0 = old(env).storage;
            let s1 = final(env).storage;
            let c = candidate@;
            if lifecycle_ok(s0) {
                assert(!s0.candidates@.contains_key(id));
                assert forall|k: u32| #[trigger] s1.candidates@.contains_key(k) implies 1 <= k
                    < next_candidate_id(s1) by {
                    if k != id {
                        assert(s0.candidates@.contains_key(k));
                    }
                }
                assert forall|m: u32| #[trigger] s1.candidate_by_market@.contains_key(m) implies s1.candidates@.contains_key(
                    s1.candidate_by_market@[m],
                ) && s1.candidates@[s1.candidate_by_market@[m]].market_id == m by {
                    if m != market_id {
                        let k = s0.candidate_by_market@[m];
                        assert(s0.candidates@.contains_key(k));
                        assert(k != id);
                        assert(s1.candidates@.contains_key(k));
                    }
                }
                assert forall|k: u32| #[trigger] s1.candidates@.contains_key(k) implies candidate_valid(
                    s1.candidates@[k]@,
                ) by {
                    if k != id {
                        assert(s0.candidates@.contains_key(k));
                    }
                }
            }
            assert(creates_candidate(s0, s1, c));
        }
        Ok(id)
    }

    /// Challenge a candidate while its challenge window is still open.
    ///
    /// The challenger posts a bond equal to the candidate's bond, in the
    /// market's collateral token: the challenge is recorded with the
    /// candidate's other challengers, then announced, then the bond is
    /// transferred from the challenger to this contract.
    pub fn challenge(
        env: &mut Env,
        challenger: Address,
        candidate_id: u32,
        challenge_uri: Vec<u8>,
    ) -> (r: Result<(), ContractError>)
        requires
            old(env).wf(),
            valid_uri(challenge_uri@) && old(env).storage.candidates@.contains_key(candidate_id)
                && challenge_check(
                old(env).storage.candidates@[candidate_id]@,
                old(env).timestamp,
            ) is Ok ==> old(env).storage.config is Some,
        ensures
            final(env).wf(),
            lifecycle_step(old(env).storage, final(env).storage),
            lifecycle_ok(old(env).storage) ==> lifecycle_ok(final(env).storage),
            r is Ok ==> final(env).storage.candidates@.contains_key(candidate_id) && ({
                let b = old(env).storage.candidates@[candidate_id]@;
                let a = final(env).storage.candidates@[candidate_id]@;
                &&& a.status == CandidateStatus::Challenged
                &&& a.challenged_by == Some(challenger)
                &&& a.challenge_uri == Some(challenge_uri@)
                &&& a.id == b.id && a.market_id == b.market_id
                &&& a.outcome == b.outcome && a.signature == b.signature
                &&& a.signature_expiry == b.signature_expiry && a.proposer == b.proposer
                &&& a.evidence_uri == b.evidence_uri
                &&& a.proposed_at == b.proposed_at && a.challenge_deadline == b.challenge_deadline
                &&& a.finalized_at == b.finalized_at && a.appeal_round == b.appeal_round
                &&& a.bond_amount == b.bond_amount
            }),
            lifecycle_ok(old(env).storage) ==> final(env).storage.candidate_by_market@ == old(
                env,
            ).storage.candidate_by_market@,
            !valid_uri(challenge_uri@) ==> r == Err::<(), ContractError>(
                ContractError::InvalidEvidenceUri,
            ) && *final(env) == *old(env),
            valid_uri(challenge_uri@) && !old(env).storage.candidates@.contains_key(candidate_id)
                ==> r == Err::<(), ContractError>(ContractError::CandidateNotFound) && *final(env)
                == *old(env),
            valid_uri(challenge_uri@) && old(env).storage.candidates@.contains_key(candidate_id)
                ==> ({
                let c = old(env).storage.candidates@[candidate_id]@;
                let n = old(env).effects@.len() as int;
                match challenge_check(c, old(env).timestamp) {
                    Err(e) => r == Err::<(), ContractError>(e) && *final(env) == *old(env),
                    Ok(_) => {
                        &&& r is Ok
                        &&& stores_candidate(
                            old(env).storage,
                            final(env).storage,
                            candidate_id,
                            challenged_candidate(c, challenger, challenge_uri@),
                        )
                        &&& final(env).storage.challengers@.dom()
                            == old(env).storage.challengers@.dom().insert(candidate_id)
                        &&& final(env).storage.challengers@[candidate_id]@ == recorded_challengers(
                            old(env).storage,
                            candidate_id,
                        ).push(ChallengeRecord { challenger, bond: c.bond_amount })
                        &&& forall|k: u32|
                            k != candidate_id ==> #[trigger] final(env).storage.challengers@.contains_key(k)
                                ==> final(env).storage.challengers@[k] == old(env).storage.challengers@[k]
                        &&& final(env).storage == (Storage {
                            candidates: final(env).storage.candidates,
                            candidate_by_market: final(env).storage.candidate_by_market,
                            challengers: final(env).storage.challengers,
                            ..old(env).storage
                        })
                        &&& adds_effects(old(env), final(env), 5)
                        &&& final(env).effects@[n] == Effect::Write(StorageKey::Candidate(candidate_id))
                        &&& final(env).effects@[n + 1] == Effect::Write(
                            StorageKey::CandidateByMarket(c.market_id),
                        )
                        &&& final(env).effects@[n + 2] == Effect::Write(
                            StorageKey::Challengers(candidate_id),
                        )
                        &&& is_challenged_event(
                            final(env).effects@[n + 3],
                            candidate_id,
                            c.market_id,
                            challenger,
                            challenge_uri@,
                            old(env).timestamp,
                        )
                        &&& final(env).effects@[n + 4] == Effect::Transfer(
                            BondTransfer {
                                market_contract: old(env).storage.config.unwrap().market_contract,
                                market_id: c.market_id,
                                from: challenger,
                                to: old(env).current_contract,
                                amount: c.bond_amount,
                            },
                        )
                    },
                }
            }),
    {
        validate_uri(&challenge_uri)?;
        let mut candidate = match storage::get_candidate(env, candidate_id) {
            Some(c) => c,
            None => return Err(ContractError::CandidateNotFound),
        };
        if candidate.status == CandidateStatus::Finalized {
            return Err(ContractError::CandidateAlreadyFinalized);
        }
        if candidate.status == CandidateStatus::Challenged {
            return Err(ContractError::CandidateAlreadyChallenged);
        }
        if env.timestamp > candidate.challenge_deadline {
            return Err(ContractError::ChallengeWindowClosed);
        }
        let config = storage::get_config(env);
        let ghost e0 = env.effects@;
        let ghost s0 = env.storage;
        let market_id = candidate.market_id;
        let bond = candidate.bond_amount;
        candidate.status = CandidateStatus::Challenged;
        candidate.challenged_by = Some(challenger);
        candidate.challenge_uri = Some(types::copy_bytes(&challenge_uri));
        storage::set_candidate(env, &candidate);
        let ghost s1 = env.storage;
        let ghost em = env.effects@;
        storage::append_challenger(env, candidate_id, &challenger, bond);
        let ghost e1 = env.effects@;
        events::emit_candidate_challenged(env, candidate_id, market_id, &challenger, &challenge_uri);
        let ghost e2 = env.effects@;
        let current = env.current_contract;
        env.effects.push(
            Effect::Transfer(
                BondTransfer {
                    market_contract: config.market_contract,
                    market_id,
                    from: challenger,
                    to: current,
                    amount: bond,
                },
            ),
        );
        proof {
            let n = e0.len() as int;
            assert(e1 =~= e0 + seq![
                Effect::Write(StorageKey::Candidate(candidate_id)),
                Effect::Write(StorageKey::CandidateByMarket(market_id)),
                Effect::Write(StorageKey::Challengers(candidate_id)),
            ]);
            assert forall|i: int| 0 <= i < e1.len() implies e2[i] == e1[i] by {
                assert(e2.drop_last()[i] == e1[i]);
            }
            assert(e2[n + 3] == e2.last());
            assert(env.effects@.subrange(0, n) =~= e0);
            let s2 = final(env).storage;
            assert(s2.candidates == s1.candidates);
            assert(s2.candidate_by_market == s1.candidate_by_market);
            assert(stores_candidate(s0, s2, candidate_id, candidate@));
            assert(updates_candidate(s0, s2, candidate_id, candidate@));
            if lifecycle_ok(s0) {
                assert forall|k: u32| #[trigger] s2.candidates@.contains_key(k) implies 1 <= k
                    < next_candidate_id(s2) by {
                    assert(s0.candidates@.contains_key(k));
                }
                assert forall|m: u32| #[trigger] s2.candidate_by_market@.contains_key(m) implies s2.candidates@.contains_key(
                    s2.candidate_by_market@[m],
                ) && s2.candidates@[s2.candidate_by_market@[m]].market_id == m by {
                    if m != market_id {
                        let k = s0.candidate_by_market@[m];
                        assert(s0.candidates@.contains_key(k));
                        assert(s2.candidates@.contains_key(k));
                    }
                }
                assert forall|k: u32| #[trigger] s2.candidates@.contains_key(k) implies candidate_valid(
                    s2.candidates@[k]@,
                ) by {
                    assert(s0.candidates@.contains_key(k));
                }
            }
        }
        Ok(())
    }
    /// The checks `appeal` makes before it consults the market contract: a
    /// valid evidence URI and challenge window, and an existing candidate
    /// that is challenged and has appeals left. When they pass, the result
    /// is the signature check to put to the registered market contract, for
    /// the candidate's own market.
    pub fn check_appeal(
        env: &Env,
        candidate_id: u32,
        outcome: bool,
        signature: [u8; 64],
        evidence_uri: &Vec<u8>,
        challenge_window_seconds: u64,
    ) -> (r: Result<SignatureCheck, ContractError>)
        requires
            env.storage.config is Some,
        ensures
            r == match appeal_check(env.storage, candidate_id, evidence_uri@, challenge_window_seconds) {
                Err(e) => Err::<SignatureCheck, ContractError>(e),
                Ok(_) => Ok(appeal_request(env.storage, candidate_id, outcome, signature)),
            },
    {
        let config = storage::get_config(env);
        validate_uri(evidence_uri)?;
        validate_challenge_window(challenge_window_seconds)?;
        let candidate = match storage::get_candidate(env, candidate_id) {
            Some(c) => c,
            None => return Err(ContractError::CandidateNotFound),
        };
        if candidate.status != CandidateStatus::Challenged {
            return Err(ContractError::CandidateNotChallenged);
        }
        if candidate.appeal_round >= MAX_APPEAL_ROUNDS {
            return Err(ContractError::AppealLimitExceeded);
        }
        Ok(
            SignatureCheck {
                market_contract: config.market_contract,
                market_id: candidate.market_id,
                outcome,
                signature,
            },
        )
    }

    /// Re-propose a challenged candidate, resetting it to `Proposed` with a
    /// fresh challenge window so it can be finalized (or challenged again).
    ///
    /// `verdict` is the registered market contract's verdict on the
    /// signature check that [`ResolutionContract::check_appeal`] returned;
    /// a rejection is returned unchanged.
    ///
    /// Only usable while the candidate is `Challenged`, and capped at
    /// `MAX_APPEAL_ROUNDS` total appeals per candidate — once the cap is
    /// reached, the dispute can no longer be advanced through this contract
    /// and must be resolved by the admin/factory out of band. The proposer's
    /// bond stays locked and carries over across appeals; it is
    /// only refunded once the candidate is ultimately finalized.
    pub fn appeal(
        env: &mut Env,
        proposer: Address,
        candidate_id: u32,
        outcome: bool,
        signature: [u8; 64],
        evidence_uri: Vec<u8>,
        challenge_window_seconds: u64,
        verdict: SignatureVerdict,
    ) -> (r: Result<(), ContractError>)
        requires
            old(env).wf(),
            old(env).storage.config is Some,
            appeal_check(old(env).storage, candidate_id, evidence_uri@, challenge_window_seconds)
                is Ok ==> {
                &&& verdict.check == appeal_request(old(env).storage, candidate_id, outcome, signature)
                &&& verdict.result is Ok ==> old(env).timestamp + challenge_window_seconds
                    <= u64::MAX
            },
        ensures
            final(env).wf(),
            lifecycle_step(old(env).storage, final(env).storage),
            lifecycle_ok(old(env).storage) ==> lifecycle_ok(final(env).storage),
            r is Ok ==> final(env).storage.candidates@.contains_key(candidate_id) && ({
                let b = old(env).storage.candidates@[candidate_id]@;
                let a = final(env).storage.candidates@[candidate_id]@;
                &&& a.outcome == outcome
                &&& a.signature == signature
                &&& a.evidence_uri == evidence_uri@
                &&& a.proposed_at == old(env).timestamp
                &&& a.challenge_deadline == old(env).timestamp + challenge_window_seconds
                &&& a.status == CandidateStatus::Proposed
                &&& a.challenged_by is None && a.challenge_uri is None
                &&& a.appeal_round == b.appeal_round + 1
                &&& a.id == b.id && a.market_id == b.market_id && a.proposer == b.proposer
                &&& a.signature_expiry == b.signature_expiry && a.bond_amount == b.bond_amount
                &&& a.finalized_at == b.finalized_at
            }),
            lifecycle_ok(old(env).storage) ==> final(env).storage.candidate_by_market@ == old(
                env,
            ).storage.candidate_by_market@,
            match appeal_check(
                old(env).storage,
                candidate_id,
                evidence_uri@,
                challenge_window_seconds,
            ) {
                Err(e) => r == Err::<(), ContractError>(e) && *final(env) == *old(env),
                Ok(_) => match verdict.result {
                    Err(e) => r == Err::<(), ContractError>(e) && *final(env) == *old(env),
                    Ok(_) => {
                        let c = appealed_candidate(
                            old(env).storage.candidates@[candidate_id]@,
                            outcome,
                            signature,
                            evidence_uri@,
                            old(env).timestamp,
                            challenge_window_seconds,
                        );
                        let n = old(env).effects@.len() as int;
                        &&& r is Ok
                        &&& stores_candidate(old(env).storage, final(env).storage, candidate_id, c)
                        &&& final(env).storage == (Storage {
                            candidates: final(env).storage.candidates,
                            candidate_by_market: final(env).storage.candidate_by_market,
                            ..old(env).storage
                        })
                        &&& adds_effects(old(env), final(env), 3)
                        &&& final(env).effects@[n] == Effect::Write(StorageKey::Candidate(candidate_id))
                        &&& final(env).effects@[n + 1] == Effect::Write(
                            StorageKey::CandidateByMarket(c.market_id),
                        )
                        &&& is_appealed_event(final(env).effects@[n + 2], c, old(env).timestamp)
                    },
                },
            },
    {
        Self::check_appeal(
            env,
            candidate_id,
            outcome,
            signature,
            &evidence_uri,
            challenge_window_seconds,
        )?;
        let mut candidate = match storage::get_candidate(env, candidate_id) {
            Some(c) => c,
            None => return Err(ContractError::CandidateNotFound),
        };
        verdict.result?;

        let ghost e0 = env.effects@;
        let ghost s0 = env.storage;
        let proposed_at = env.timestamp;
        candidate.outcome = outcome;
        candidate.signature = signature;
        candidate.evidence_uri = evidence_uri;
        candidate.proposed_at = proposed_at;
        candidate.challenge_deadline = proposed_at + challenge_window_seconds;
        candidate.status = CandidateStatus::Proposed;
        candidate.challenged_by = None;
        candidate.challenge_uri = None;
        candidate.appeal_round = candidate.appeal_round + 1;

        storage::set_candidate(env, &candidate);
        let ghost e1 = env.effects@;
        events::emit_candidate_appealed(env, &candidate);
        proof {
            let n = e0.len() as int;
            let e2 = env.effects@;
            assert forall|i: int| 0 <= i < e1.len() implies e2[i] == e1[i] by {
                assert(e2.drop_last()[i] == e1[i]);
            }
            assert(e2.subrange(0, n) =~= e0);
            let s2 = env.storage;
            let market_id = candidate.market_id;
            assert(updates_candidate(s0, s2, candidate_id, candidate@));
            if lifecycle_ok(s0) {
                assert forall|k: u32| #[trigger] s2.candidates@.contains_key(k) implies 1 <= k
                    < next_candidate_id(s2) by {
                    assert(s0.candidates@.contains_key(k));
                }
                assert forall|m: u32| #[trigger] s2.candidate_by_market@.contains_key(m) implies s2.candidates@.contains_key(
                    s2.candidate_by_market@[m],
                ) && s2.candidates@[s2.candidate_by_market@[m]].market_id == m by {
                    if m != market_id {
                        let k = s0.candidate_by_market@[m];
                        assert(s0.candidates@.contains_key(k));
                        assert(s2.candidates@.contains_key(k));
                    }
                }
                assert forall|k: u32| #[trigger] s2.candidates@.contains_key(k) implies candidate_valid(
                    s2.candidates@[k]@,
                ) by {
                    assert(s0.candidates@.contains_key(k));
                }
            }
        }
        Ok(())
    }

    /// Finalize an unchallenged candidate after its challenge window closes
    /// and while its signature has not expired.
    ///
    /// This does not call `resolve_market` directly. It returns the signed
    /// candidate payload so the backend/factory can submit
    /// `market.resolve_market(market_id, outcome, signature)` as the final
    /// market-state transition. The finalized candidate is stored, then a
    /// positive bond is refunded to the proposer, then the finalization is
    /// announced.
    pub fn finalize(env: &mut Env, finalizer: Address, candidate_id: u32) -> (r: Result<
        ResolutionCandidate,
        ContractError,
    >)
        requires
            old(env).wf(),
            old(env).storage.candidates@.contains_key(candidate_id) && finalize_check(
                old(env).storage.candidates@[candidate_id]@,
                old(env).timestamp,
            ) is Ok && old(env).storage.candidates@[candidate_id].bond_amount > 0
                ==> old(env).storage.config is Some,
        ensures
            final(env).wf(),
            lifecycle_step(old(env).storage, final(env).storage),
            lifecycle_ok(old(env).storage) ==> lifecycle_ok(final(env).storage),
            r is Ok ==> final(env).storage.candidates@.contains_key(candidate_id) && ({
                let b = old(env).storage.candidates@[candidate_id]@;
                let a = final(env).storage.candidates@[candidate_id]@;
                &&& r.unwrap()@ == a
                &&& a.status == CandidateStatus::Finalized
                &&& a.finalized_at == Some(old(env).timestamp)
                &&& a.id == b.id && a.market_id == b.market_id
                &&& a.outcome == b.outcome && a.signature == b.signature
                &&& a.signature_expiry == b.signature_expiry && a.proposer == b.proposer
                &&& a.evidence_uri == b.evidence_uri
                &&& a.proposed_at == b.proposed_at && a.challenge_deadline == b.challenge_deadline
                &&& a.challenged_by == b.challenged_by && a.challenge_uri == b.challenge_uri
                &&& a.appeal_round == b.appeal_round && a.bond_amount == b.bond_amount
            }),
            lifecycle_ok(old(env).storage) ==> final(env).storage.candidate_by_market@ == old(
                env,
            ).storage.candidate_by_market@,
            !old(env).storage.candidates@.contains_key(candidate_id) ==> r == Err::<
                ResolutionCandidate,
                ContractError,
            >(ContractError::CandidateNotFound) && *final(env) == *old(env),
            old(env).storage.candidates@.contains_key(candidate_id) ==> ({
                let c = old(env).storage.candidates@[candidate_id]@;
                match finalize_check(c, old(env).timestamp) {
                    Err(e) => r == Err::<ResolutionCandidate, ContractError>(e) && *final(env)
                        == *old(env),
                    Ok(_) => {
                        let f = finalized_candidate(c, old(env).timestamp);
                        let stored = seq![
                            Effect::Write(StorageKey::Candidate(candidate_id)),
                            Effect::Write(StorageKey::CandidateByMarket(c.market_id)),
                        ];
                        let refund = if c.bond_amount > 0 {
                            seq![
                                Effect::Transfer(
                                    BondTransfer {
                                        market_contract: old(env).storage.config.unwrap().market_contract,
                                        market_id: c.market_id,
                                        from: old(env).current_contract,
                                        to: c.proposer,
                                        amount: c.bond_amount,
                                    },
                                ),
                            ]
                        } else {
                            Seq::<Effect>::empty()
                        };
                        &&& r is Ok
                        &&& r.unwrap()@ == f
                        &&& stores_candidate(old(env).storage, final(env).storage, candidate_id, f)
                        &&& final(env).storage == (Storage {
                            candidates: final(env).storage.candidates,
                            candidate_by_market: final(env).storage.candidate_by_market,
                            ..old(env).storage
                        })
                        &&& logged(
                            old(env),
                            final(env),
                            stored + refund + seq![
                                Effect::Publish(finalized_event(f, old(env).timestamp)),
                            ],
                        )
                    },
                }
            }),
    {
        let mut candidate = match storage::get_candidate(env, candidate_id) {
            Some(c) => c,
            None => return Err(ContractError::CandidateNotFound),
        };
        if candidate.status == CandidateStatus::Finalized {
            return Err(ContractError::CandidateAlreadyFinalized);
        }
        if candidate.status == CandidateStatus::Challenged {
            return Err(ContractError::CandidateAlreadyChallenged);
        }
        if env.timestamp <= candidate.challenge_deadline {
            return Err(ContractError::ChallengeWindowOpen);
        }
        if env.timestamp > candidate.signature_expiry {
            return Err(ContractError::SignatureExpired);
        }

        let ghost e0 = env.effects@;
        let ghost s0 = env.storage;
        candidate.status = CandidateStatus::Finalized;
        candidate.finalized_at = Some(env.timestamp);
        storage::set_candidate(env, &candidate);
        let ghost e1 = env.effects@;

        if candidate.bond_amount > 0 {
            let config = storage::get_config(env);
            let current = env.current_contract;
            env.effects.push(
                Effect::Transfer(
                    BondTransfer {
                        market_contract: config.market_contract,
                        market_id: candidate.market_id,
                        from: current,
                        to: candidate.proposer,
                        amount: candidate.bond_amount,
                    },
                ),
            );
        }
        let ghost e2 = env.effects@;
        events::emit_candidate_finalized(env, &candidate);
        proof {
            let c = s0.candidates@[candidate_id]@;
            let refund = if c.bond_amount > 0 {
                seq![
                    Effect::Transfer(
                        BondTransfer {
                            market_contract: s0.config.unwrap().market_contract,
                            market_id: c.market_id,
                            from: old(env).current_contract,
                            to: c.proposer,
                            amount: c.bond_amount,
                        },
                    ),
                ]
            } else {
                Seq::<Effect>::empty()
            };
            assert(e2 =~= e1 + refund);
            assert(candidate@ == finalized_candidate(c, old(env).timestamp));
            assert(env.effects@ =~= e0 + (seq![
                Effect::Write(StorageKey::Candidate(candidate_id)),
                Effect::Write(StorageKey::CandidateByMarket(c.market_id)),
            ] + refund + seq![Effect::Publish(finalized_event(candidate@, old(env).timestamp))]));
            let s2 = env.storage;
            let market_id = candidate.market_id;
            assert(updates_candidate(s0, s2, candidate_id, candidate@));
            if lifecycle_ok(s0) {
                assert forall|k: u32| #[trigger] s2.candidates@.contains_key(k) implies 1 <= k
                    < next_candidate_id(s2) by {
                    assert(s0.candidates@.contains_key(k));
                }
                assert forall|m: u32| #[trigger] s2.candidate_by_market@.contains_key(m) implies s2.candidates@.contains_key(
                    s2.candidate_by_market@[m],
                ) && s2.candidates@[s2.candidate_by_market@[m]].market_id == m by {
                    if m != market_id {
                        let k = s0.candidate_by_market@[m];
                        assert(s0.candidates@.contains_key(k));
                        assert(s2.candidates@.contains_key(k));
                    }
                }
                assert forall|k: u32| #[trigger] s2.candidates@.contains_key(k) implies candidate_valid(
                    s2.candidates@[k]@,
                ) by {
                    assert(s0.candidates@.contains_key(k));
                }
            }
        }
        Ok(candidate)
    }

    pub fn get_candidate(env: &Env, candidate_id: u32) -> (r: Option<ResolutionCandidate>)
        ensures
            match r {
                Some(c) => env.storage.candidates@.contains_key(candidate_id)
                    && c@ == env.storage.candidates@[candidate_id]@,
                None => !env.storage.candidates@.contains_key(candidate_id),
            },
    {
        storage::get_candidate(env, candidate_id)
    }

    pub fn get_candidate_id_for_market(env: &Env, market_id: u32) -> (r: Option<u32>)
        ensures
            r == (if env.storage.candidate_by_market@.contains_key(market_id) {
                Some(env.storage.candidate_by_market@[market_id])
            } else {
                None::<u32>
            }),
    {
        storage::get_candidate_id_for_market(env, market_id)
    }
}

} // verus!
