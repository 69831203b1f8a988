//! Properties of the resolution lifecycle that relate several entrypoints.

use vstd::prelude::*;
use crate::address::Address;
use super::env::Storage;
use super::error::ContractError;
use super::types::{CandidateStatus, CandidateView};
use super::{
    appeal_check, appealed_candidate, candidate_valid, challenge_check, challenged_candidate,
    finalize_check, finalized_candidate, propose_check, proposed_candidate, valid_challenge_window,
    stores_candidate, valid_uri, MIN_BOND_AMOUNT, lifecycle_ok, lifecycle_step, no_candidates,
    creates_candidate, updates_candidate, candidates_valid, MAX_APPEAL_ROUNDS,
};
use super::storage::next_candidate_id;
use super::events::{finalized_event, CandidateFinalized, ResolutionEvent};

verus! {

/// At no ledger time can a candidate be both challenged and finalized: the
/// challenge window runs up to and including the deadline, finalization
/// only opens after it.
pub proof fn lemma_challenge_and_finalize_exclusive(c: CandidateView, now: u64)
    ensures
        !(challenge_check(c, now) is Ok && finalize_check(c, now) is Ok),
{
}

/// A proposed candidate can be challenged exactly until its deadline,
/// that second included.
pub proof fn lemma_challenge_window(c: CandidateView, now: u64)
    requires
        c.status == CandidateStatus::Proposed,
    ensures
        challenge_check(c, now) is Ok <==> now <= c.challenge_deadline,
        now > c.challenge_deadline ==> challenge_check(c, now) == Err::<(), ContractError>(
            ContractError::ChallengeWindowClosed,
        ),
{
}

/// A proposed candidate can be finalized exactly after its deadline and up
/// to its signature's expiry, that second included.
pub proof fn lemma_finalize_window(c: CandidateView, now: u64)
    requires
        c.status == CandidateStatus::Proposed,
    ensures
        finalize_check(c, now) is Ok <==> c.challenge_deadline < now <= c.signature_expiry,
        now <= c.challenge_deadline ==> finalize_check(c, now) == Err::<(), ContractError>(
            ContractError::ChallengeWindowOpen,
        ),
        c.challenge_deadline < now && now > c.signature_expiry ==> finalize_check(c, now) == Err::<
            (),
            ContractError,
        >(ContractError::SignatureExpired),
{
}

/// A challenged candidate cannot be finalized; it can only be appealed.
pub proof fn lemma_challenged_blocks_finalize(c: CandidateView, now: u64)
    requires
        c.status == CandidateStatus::Challenged,
    ensures
        finalize_check(c, now) == Err::<(), ContractError>(ContractError::CandidateAlreadyChallenged),
        challenge_check(c, now) == Err::<(), ContractError>(ContractError::CandidateAlreadyChallenged),
{
}

/// Finalization is terminal: a finalized candidate can be neither
/// challenged, nor appealed, nor finalized again.
pub proof fn lemma_finalized_is_terminal(
    s: Storage,
    candidate_id: u32,
    now: u64,
    evidence_uri: Seq<u8>,
    challenge_window_seconds: u64,
)
    requires
        s.candidates@.contains_key(candidate_id),
        s.candidates@[candidate_id].status == CandidateStatus::Finalized,
        valid_uri(evidence_uri),
        valid_challenge_window(challenge_window_seconds),
    ensures
        challenge_check(s.candidates@[candidate_id]@, now) == Err::<(), ContractError>(
            ContractError::CandidateAlreadyFinalized,
        ),
        finalize_check(s.candidates@[candidate_id]@, now) == Err::<(), ContractError>(
            ContractError::CandidateAlreadyFinalized,
        ),
        appeal_check(s, candidate_id, evidence_uri, challenge_window_seconds) == Err::<
            (),
            ContractError,
        >(ContractError::CandidateNotChallenged),
{
}

/// A market holds at most one candidate: once one is indexed for a market,
/// any otherwise acceptable proposal for it is rejected.
pub proof fn lemma_one_candidate_per_market(
    s: Storage,
    now: u64,
    market_id: u32,
    signature_expiry: u64,
    evidence_uri: Seq<u8>,
    challenge_window_seconds: u64,
    bond_amount: i128,
)
    requires
        s.candidate_by_market@.contains_key(market_id),
        valid_uri(evidence_uri),
        valid_challenge_window(challenge_window_seconds),
        bond_amount >= MIN_BOND_AMOUNT,
        signature_expiry >= now,
    ensures
        propose_check(
            s,
            now,
            market_id,
            signature_expiry,
            evidence_uri,
            challenge_window_seconds,
            bond_amount,
        ) == Err::<(), ContractError>(ContractError::CandidateAlreadyExists),
{
}

/// A candidate keeps its id, market, proposer, bond and signature expiry
/// through challenges, appeals and finalization; so the bond refunded at
/// finalization is the one locked at proposal, and goes to the
/// proposer.
pub proof fn lemma_candidate_identity_preserved(
    c: CandidateView,
    challenger: Address,
    challenge_uri: Seq<u8>,
    outcome: bool,
    signature: [u8; 64],
    evidence_uri: Seq<u8>,
    now: u64,
    challenge_window_seconds: u64,
)
    ensures
        ({
            let ch = challenged_candidate(c, challenger, challenge_uri);
            let ap = appealed_candidate(
                c,
                outcome,
                signature,
                evidence_uri,
                now,
                challenge_window_seconds,
            );
            let fi = finalized_candidate(c, now);
            &&& ch.id == c.id && ap.id == c.id && fi.id == c.id
            &&& ch.market_id == c.market_id && ap.market_id == c.market_id && fi.market_id
                == c.market_id
            &&& ch.proposer == c.proposer && ap.proposer == c.proposer && fi.proposer == c.proposer
            &&& ch.bond_amount == c.bond_amount && ap.bond_amount == c.bond_amount
                && fi.bond_amount == c.bond_amount
            &&& ch.signature_expiry == c.signature_expiry && ap.signature_expiry
                == c.signature_expiry && fi.signature_expiry == c.signature_expiry
        }),
{
}

/// Every accepted proposal creates a valid candidate, and every accepted
/// challenge, appeal and finalization keeps a candidate valid; in
/// particular no candidate is ever appealed more than `MAX_APPEAL_ROUNDS`
/// times.
pub proof fn lemma_transitions_keep_candidates_valid(
    s: Storage,
    c: CandidateView,
    candidate_id: u32,
    id: u32,
    market_id: u32,
    outcome: bool,
    signature: [u8; 64],
    signature_expiry: u64,
    proposer: Address,
    challenger: Address,
    uri: Seq<u8>,
    now: u64,
    challenge_window_seconds: u64,
    bond_amount: i128,
)
    requires
        now + challenge_window_seconds <= u64::MAX,
    ensures
        propose_check(
            s,
            now,
            market_id,
            signature_expiry,
            uri,
            challenge_window_seconds,
            bond_amount,
        ) is Ok ==> candidate_valid(
            proposed_candidate(
                id,
                market_id,
                outcome,
                signature,
                signature_expiry,
                proposer,
                uri,
                now,
                challenge_window_seconds,
                bond_amount,
            ),
        ),
        candidate_valid(c) && valid_uri(uri) && challenge_check(c, now) is Ok ==> candidate_valid(
            challenged_candidate(c, challenger, uri),
        ),
        s.candidates@.contains_key(candidate_id) && candidate_valid(s.candidates@[candidate_id]@)
            && appeal_check(s, candidate_id, uri, challenge_window_seconds) is Ok
            ==> candidate_valid(
            appealed_candidate(
                s.candidates@[candidate_id]@,
                outcome,
                signature,
                uri,
                now,
                challenge_window_seconds,
            ),
        ),
        candidate_valid(c) && finalize_check(c, now) is Ok ==> candidate_valid(
            finalized_candidate(c, now),
        ),
{
}

/// Reading a candidate back after it was stored gives the stored value,
/// and its market's index entry names it; every other candidate reads as
/// before.
pub proof fn lemma_candidate_read_after_write(
    before: Storage,
    after: Storage,
    id: u32,
    c: CandidateView,
    other: u32,
)
    requires
        stores_candidate(before, after, id, c),
    ensures
        after.candidates@.contains_key(id),
        after.candidates@[id]@ == c,
        after.candidate_by_market@.contains_key(c.market_id),
        after.candidate_by_market@[c.market_id] == id,
        other != id ==> (after.candidates@.contains_key(other) == before.candidates@.contains_key(
            other,
        )),
        other != id && before.candidates@.contains_key(other) ==> after.candidates@[other]
            == before.candidates@[other],
{
    if other != id && before.candidates@.contains_key(other) {
        assert(after.candidates@.contains_key(other));
    }
}

/// A fresh deployment's candidate store is consistent.
pub proof fn lemma_fresh_store_is_consistent(s: Storage)
    requires
        no_candidates(s),
    ensures
        lifecycle_ok(s),
{
}

/// Every change a call of this contract makes to the candidate store keeps
/// it consistent.
pub proof fn lemma_lifecycle_step_keeps_consistency(before: Storage, after: Storage)
    requires
        lifecycle_ok(before),
        lifecycle_step(before, after),
    ensures
        lifecycle_ok(after),
{
    if exists|c: CandidateView| #[trigger] creates_candidate(before, after, c) {
        let c = choose|c: CandidateView| #[trigger] creates_candidate(before, after, c);
        let id = c.id;
        assert(!before.candidates@.contains_key(id));
        assert forall|k: u32| #[trigger] after.candidates@.contains_key(k) implies 1 <= k
            < next_candidate_id(after) by {
            if k != id {
                assert(before.candidates@.contains_key(k));
            }
        }
        assert forall|m: u32| #[trigger] after.candidate_by_market@.contains_key(m) implies after.candidates@.contains_key(
            after.candidate_by_market@[m],
        ) && after.candidates@[after.candidate_by_market@[m]].market_id == m by {
            if m != c.market_id {
                let k = before.candidate_by_market@[m];
                assert(before.candidates@.contains_key(k));
                assert(after.candidates@.contains_key(k));
            }
        }
        assert forall|k: u32| #[trigger] after.candidates@.contains_key(k) implies candidate_valid(
            after.candidates@[k]@,
        ) by {
            if k != id {
                assert(before.candidates@.contains_key(k));
            }
        }
    } else if exists|id: u32, c: CandidateView| #[trigger] updates_candidate(before, after, id, c) {
        let (id, c) = choose|id: u32, c: CandidateView| #[trigger] updates_candidate(before, after, id, c);
        assert forall|k: u32| #[trigger] after.candidates@.contains_key(k) implies 1 <= k
            < next_candidate_id(after) by {
            assert(before.candidates@.contains_key(k));
        }
        assert forall|m: u32| #[trigger] after.candidate_by_market@.contains_key(m) implies after.candidates@.contains_key(
            after.candidate_by_market@[m],
        ) && after.candidates@[after.candidate_by_market@[m]].market_id == m by {
            if m != c.market_id {
                let k = before.candidate_by_market@[m];
                assert(before.candidates@.contains_key(k));
                assert(after.candidates@.contains_key(k));
            }
        }
        assert forall|k: u32| #[trigger] after.candidates@.contains_key(k) implies candidate_valid(
            after.candidates@[k]@,
        ) by {
            assert(before.candidates@.contains_key(k));
        }
    } else {
        assert(after.candidates@ == before.candidates@);
        assert(after.candidate_by_market@ == before.candidate_by_market@);
    }
}

/// Along every run of the contract from a fresh deployment — each state
/// obtained from the previous one by a call of an entrypoint, as each
/// entrypoint's `lifecycle_step` clause states — the candidate store stays
/// consistent.
pub proof fn lemma_consistent_along_runs(run: Seq<Storage>)
    requires
        run.len() > 0,
        no_candidates(run[0]),
        forall|i: int| 0 <= i < run.len() - 1 ==> #[trigger] lifecycle_step(run[i], run[i + 1]),
    ensures
        forall|i: int| 0 <= i < run.len() ==> #[trigger] lifecycle_ok(run[i]),
    decreases run.len(),
{
    if run.len() == 1 {
        lemma_fresh_store_is_consistent(run[0]);
    } else {
        let prefix = run.drop_last();
        assert forall|i: int| 0 <= i < prefix.len() - 1 implies #[trigger] lifecycle_step(
            prefix[i],
            prefix[i + 1],
        ) by {
            assert(lifecycle_step(run[i], run[i + 1]));
        }
        lemma_consistent_along_runs(prefix);
        let last = run.len() - 1;
        assert(lifecycle_ok(prefix[last - 1]));
        let j = last - 1;
        assert(lifecycle_step(run[j], run[j + 1]));
        assert(j + 1 == last);
        lemma_lifecycle_step_keeps_consistency(run[j], run[last]);
        assert forall|i: int| 0 <= i < run.len() implies #[trigger] lifecycle_ok(run[i]) by {
            if i < last {
                assert(lifecycle_ok(prefix[i]));
            }
        }
    }
}

/// In a consistent candidate store the next id is fresh, every candidate
/// is valid, and no candidate has been appealed more than
/// `MAX_APPEAL_ROUNDS` times; so a fourth appeal of a candidate is refused.
pub proof fn lemma_consistent_store_properties(s: Storage, candidate_id: u32, evidence_uri: Seq<u8>, challenge_window_seconds: u64)
    requires
        lifecycle_ok(s),
    ensures
        next_candidate_id(s) <= u32::MAX ==> !s.candidates@.contains_key(next_candidate_id(s) as u32),
        candidates_valid(s),
        s.candidates@.contains_key(candidate_id) ==> s.candidates@[candidate_id].appeal_round
            <= MAX_APPEAL_ROUNDS,
        s.candidates@.contains_key(candidate_id) && s.candidates@[candidate_id].appeal_round
            == MAX_APPEAL_ROUNDS && s.candidates@[candidate_id].status == CandidateStatus::Challenged
            && valid_uri(evidence_uri) && valid_challenge_window(challenge_window_seconds)
            ==> appeal_check(s, candidate_id, evidence_uri, challenge_window_seconds) == Err::<
            (),
            ContractError,
        >(ContractError::AppealLimitExceeded),
{
    if s.candidates@.contains_key(candidate_id) {
        assert(candidate_valid(s.candidates@[candidate_id]@));
    }
}

/// In a consistent candidate store, rewriting a stored candidate (as a
/// challenge, an appeal or a finalization does) leaves the market index as
/// it was: the candidate is already the one indexed under its market.
pub proof fn lemma_update_keeps_market_index(before: Storage, after: Storage, id: u32, c: CandidateView)
    requires
        lifecycle_ok(before),
        updates_candidate(before, after, id, c),
    ensures
        after.candidate_by_market@ == before.candidate_by_market@,
{
    assert(before.candidates@.contains_key(id));
    assert(before.candidate_by_market@[before.candidates@[id].market_id] == id);
    assert(after.candidate_by_market@ =~= before.candidate_by_market@);
}

/// A proposal records exactly what was signed and proposed: the candidate
/// has the proposal's market, outcome, signature, expiry, proposer,
/// evidence and bond, opens at `now` with the requested window, and starts
/// unchallenged, unfinalized and unappealed.
pub proof fn lemma_proposal_records_the_signed_outcome(
    id: u32,
    market_id: u32,
    outcome: bool,
    signature: [u8; 64],
    signature_expiry: u64,
    proposer: Address,
    evidence_uri: Seq<u8>,
    now: u64,
    challenge_window_seconds: u64,
    bond_amount: i128,
)
    requires
        now + challenge_window_seconds <= u64::MAX,
    ensures
        ({
            let c = proposed_candidate(
                id,
                market_id,
                outcome,
                signature,
                signature_expiry,
                proposer,
                evidence_uri,
                now,
                challenge_window_seconds,
                bond_amount,
            );
            &&& c.id == id && c.market_id == market_id
            &&& c.outcome == outcome && c.signature == signature
            &&& c.signature_expiry == signature_expiry && c.proposer == proposer
            &&& c.evidence_uri == evidence_uri && c.bond_amount == bond_amount
            &&& c.proposed_at == now && c.challenge_deadline == now + challenge_window_seconds
            &&& c.status == CandidateStatus::Proposed && c.appeal_round == 0
            &&& c.challenged_by is None && c.challenge_uri is None && c.finalized_at is None
        }),
{
}

/// A challenge marks the candidate challenged by `challenger` with the
/// challenge URI, and changes nothing else: the proposer's evidence,
/// outcome, signature, window and bond stay as they were.
pub proof fn lemma_challenge_changes_only_the_challenge(
    c: CandidateView,
    challenger: Address,
    challenge_uri: Seq<u8>,
)
    ensures
        ({
            let a = challenged_candidate(c, challenger, challenge_uri);
            &&& a.status == CandidateStatus::Challenged
            &&& a.challenged_by == Some(challenger)
            &&& a.challenge_uri == Some(challenge_uri)
            &&& a.id == c.id && a.market_id == c.market_id
            &&& a.outcome == c.outcome && a.signature == c.signature
            &&& a.signature_expiry == c.signature_expiry && a.proposer == c.proposer
            &&& a.evidence_uri == c.evidence_uri
            &&& a.proposed_at == c.proposed_at && a.challenge_deadline == c.challenge_deadline
            &&& a.finalized_at == c.finalized_at && a.appeal_round == c.appeal_round
            &&& a.bond_amount == c.bond_amount
        }),
{
}

/// An appeal re-proposes the candidate with the appealed outcome,
/// signature and evidence, whatever the previous ones were, reopens the
/// window at `now`, clears the challenge and counts one more round.
pub proof fn lemma_appeal_takes_the_signed_outcome(
    c: CandidateView,
    outcome: bool,
    signature: [u8; 64],
    evidence_uri: Seq<u8>,
    now: u64,
    challenge_window_seconds: u64,
)
    requires
        now + challenge_window_seconds <= u64::MAX,
        c.appeal_round < MAX_APPEAL_ROUNDS,
    ensures
        ({
            let a = appealed_candidate(
                c,
                outcome,
                signature,
                evidence_uri,
                now,
                challenge_window_seconds,
            );
            &&& a.outcome == outcome && a.signature == signature
            &&& a.evidence_uri == evidence_uri
            &&& a.proposed_at == now && a.challenge_deadline == now + challenge_window_seconds
            &&& a.status == CandidateStatus::Proposed
            &&& a.challenged_by is None && a.challenge_uri is None
            &&& a.appeal_round == c.appeal_round + 1
            &&& a.id == c.id && a.market_id == c.market_id && a.proposer == c.proposer
            &&& a.signature_expiry == c.signature_expiry && a.bond_amount == c.bond_amount
        }),
{
}

/// Finalization keeps the signed payload: the finalized candidate, and the
/// event announcing it, carry the outcome, signature and market the
/// candidate had; only its status and finalization time change.
pub proof fn lemma_finalize_keeps_the_payload(c: CandidateView, now: u64)
    requires
        c.finalized_at is None,
    ensures
        ({
            let f = finalized_candidate(c, now);
            &&& f.status == CandidateStatus::Finalized && f.finalized_at == Some(now)
            &&& f.id == c.id && f.market_id == c.market_id
            &&& f.outcome == c.outcome && f.signature == c.signature
            &&& f.signature_expiry == c.signature_expiry && f.proposer == c.proposer
            &&& f.evidence_uri == c.evidence_uri
            &&& f.proposed_at == c.proposed_at && f.challenge_deadline == c.challenge_deadline
            &&& f.challenged_by == c.challenged_by && f.challenge_uri == c.challenge_uri
            &&& f.appeal_round == c.appeal_round && f.bond_amount == c.bond_amount
            &&& finalized_event(f, now) == ResolutionEvent::CandidateFinalized(
                CandidateFinalized {
                    candidate_id: c.id,
                    market_id: c.market_id,
                    outcome: c.outcome,
                    finalized_at: now,
                },
            )
        }),
{
}

/// What finalization hands to `resolve_market` is the outcome and signature
/// last signed for the candidate: those of the proposal, or of the latest
/// appeal, whatever happened in between.
pub proof fn lemma_finalized_outcome_is_last_signed(
    c: CandidateView,
    id: u32,
    market_id: u32,
    outcome: bool,
    signature: [u8; 64],
    signature_expiry: u64,
    proposer: Address,
    challenger: Address,
    uri: Seq<u8>,
    challenge_uri: Seq<u8>,
    proposed_at: u64,
    now: u64,
    challenge_window_seconds: u64,
    bond_amount: i128,
)
    ensures
        ({
            let p = proposed_candidate(
                id,
                market_id,
                outcome,
                signature,
                signature_expiry,
                proposer,
                uri,
                proposed_at,
                challenge_window_seconds,
                bond_amount,
            );
            let f = finalized_candidate(p, now);
            f.outcome == outcome && f.signature == signature
        }),
        ({
            let a = appealed_candidate(
                challenged_candidate(c, challenger, challenge_uri),
                outcome,
                signature,
                uri,
                proposed_at,
                challenge_window_seconds,
            );
            let f = finalized_candidate(a, now);
            f.outcome == outcome && f.signature == signature
        }),
{
}

} // verus!
