use vstd::prelude::*;
use crate::address::Address;
use super::env::{Effect, Env};
use super::storage::{logged, same_ledger};
use super::types::{copy_bytes, CandidateView, ResolutionCandidate};

verus! {

/// The contract was registered (or re-registered) with a factory and a
/// market contract.
#[derive(Clone, Copy, Debug, PartialEq, Eq, Structural)]
pub struct ResolutionRegistered {
    pub factory: Address,
    pub market_contract: Address,
    pub registered_at: u64,
}

/// A candidate was proposed.
#[derive(Clone, Debug, PartialEq, Eq)]
pub struct CandidateProposed {
    pub candidate_id: u32,
    pub market_id: u32,
    pub outcome: bool,
    pub proposer: Address,
    pub evidence_uri: Vec<u8>,
    pub challenge_deadline: u64,
    pub signature_expiry: u64,
}

/// A candidate was challenged.
#[derive(Clone, Debug, PartialEq, Eq)]
pub struct CandidateChallenged {
    pub candidate_id: u32,
    pub market_id: u32,
    pub challenger: Address,
    pub challenge_uri: Vec<u8>,
    pub challenged_at: u64,
}

/// A change of the factory address was proposed, applicable at `effective_at`.
#[derive(Clone, Copy, Debug, PartialEq, Eq, Structural)]
pub struct FactoryProposed {
    pub factory: Address,
    pub effective_at: u64,
}

/// The factory address was changed.
#[derive(Clone, Copy, Debug, PartialEq, Eq, Structural)]
pub struct FactorySet {
    pub factory: Address,
    pub set_at: u64,
}

/// A change of the market contract address was proposed, applicable at
/// `effective_at`.
#[derive(Clone, Copy, Debug, PartialEq, Eq, Structural)]
pub struct MarketContractProposed {
    pub market_contract: Address,
    pub effective_at: u64,
}

/// The market contract address was changed.
#[derive(Clone, Copy, Debug, PartialEq, Eq, Structural)]
pub struct MarketContractSet {
    pub market_contract: Address,
    pub set_at: u64,
}

/// A candidate was finalized.
#[derive(Clone, Copy, Debug, PartialEq, Eq, Structural)]
pub struct CandidateFinalized {
    pub candidate_id: u32,
    pub market_id: u32,
    pub outcome: bool,
    pub finalized_at: u64,
}

/// A challenged candidate was re-proposed.
#[derive(Clone, Debug, PartialEq, Eq)]
pub struct CandidateAppealed {
    pub candidate_id: u32,
    pub market_id: u32,
    pub outcome: bool,
    pub proposer: Address,
    pub appeal_round: u32,
    pub evidence_uri: Vec<u8>,
    pub challenge_deadline: u64,
    pub appealed_at: u64,
}

/// An event published by the resolution contract.
#[derive(Clone, Debug, PartialEq, Eq)]
pub enum ResolutionEvent {
    ResolutionRegistered(ResolutionRegistered),
    CandidateProposed(CandidateProposed),
    CandidateChallenged(CandidateChallenged),
    FactoryProposed(FactoryProposed),
    FactorySet(FactorySet),
    MarketContractProposed(MarketContractProposed),
    MarketContractSet(MarketContractSet),
    CandidateFinalized(CandidateFinalized),
    CandidateAppealed(CandidateAppealed),
}

/// `after` is `before` with one more effect at the end of its log, on the
/// same ledger and with the same storage.
pub open spec fn one_more_effect(before: &Env, after: &Env) -> bool {
    &&& after.effects@.len() == before.effects@.len() + 1
    &&& after.effects@.drop_last() == before.effects@
    &&& same_ledger(before, after)
    &&& after.storage == before.storage
}

/// `e` publishes the proposal of candidate `c`.
pub open spec fn is_proposed_event(e: Effect, c: CandidateView) -> bool {
    match e {
        Effect::Publish(ResolutionEvent::CandidateProposed(p)) => {
            &&& p.candidate_id == c.id
            &&& p.market_id == c.market_id
            &&& p.outcome == c.outcome
            &&& p.proposer == c.proposer
            &&& p.evidence_uri@ == c.evidence_uri
            &&& p.challenge_deadline == c.challenge_deadline
            &&& p.signature_expiry == c.signature_expiry
        },
        _ => false,
    }
}

/// `e` publishes that `challenger` challenged candidate `candidate_id` of
/// market `market_id` with `uri` at time `at`.
pub open spec fn is_challenged_event(
    e: Effect,
    candidate_id: u32,
    market_id: u32,
    challenger: Address,
    uri: Seq<u8>,
    at: u64,
) -> bool {
    match e {
        Effect::Publish(ResolutionEvent::CandidateChallenged(p)) => {
            &&& p.candidate_id == candidate_id
            &&& p.market_id == market_id
            &&& p.challenger == challenger
            &&& p.challenge_uri@ == uri
            &&& p.challenged_at == at
        },
        _ => false,
    }
}

/// `e` publishes the appeal that turned a candidate into `c` at time `at`.
pub open spec fn is_appealed_event(e: Effect, c: CandidateView, at: u64) -> bool {
    match e {
        Effect::Publish(ResolutionEvent::CandidateAppealed(p)) => {
            &&& p.candidate_id == c.id
            &&& p.market_id == c.market_id
            &&& p.outcome == c.outcome
            &&& p.proposer == c.proposer
            &&& p.appeal_round == c.appeal_round
            &&& p.evidence_uri@ == c.evidence_uri
            &&& p.challenge_deadline == c.challenge_deadline
            &&& p.appealed_at == at
        },
        _ => false,
    }
}

/// The finalization event of candidate `c` published at time `now`: it
/// carries the candidate's finalization time, or `now` when it has none.
pub open spec fn finalized_event(c: CandidateView, now: u64) -> ResolutionEvent {
    ResolutionEvent::CandidateFinalized(
        CandidateFinalized {
            candidate_id: c.id,
            market_id: c.market_id,
            outcome: c.outcome,
            finalized_at: match c.finalized_at {
                Some(t) => t,
                None => now,
            },
        },
    )
}

/// The event announcing a registration with `factory` and
/// `market_contract` at time `now`.
pub open spec fn registered_event(factory: Address, market_contract: Address, now: u64) -> ResolutionEvent {
    ResolutionEvent::ResolutionRegistered(
        ResolutionRegistered { factory, market_contract, registered_at: now },
    )
}

fn publish(env: &mut Env, e: ResolutionEvent)
    ensures
        final(env).effects@ == old(env).effects@.push(Effect::Publish(e)),
        same_ledger(old(env), final(env)),
        final(env).storage == old(env).storage,
{
    env.effects.push(Effect::Publish(e));
}

pub fn emit_resolution_registered(env: &mut Env, factory: &Address, market_contract: &Address)
    ensures
        logged(
            old(env),
            final(env),
            seq![Effect::Publish(registered_event(*factory, *market_contract, old(env).timestamp))],
        ),
        final(env).storage == old(env).storage,
{
    let e = ResolutionRegistered {
        factory: *factory,
        market_contract: *market_contract,
        registered_at: env.timestamp,
    };
    publish(env, ResolutionEvent::ResolutionRegistered(e));
    assert(env.effects@ =~= old(env).effects@ + seq![Effect::Publish(ResolutionEvent::ResolutionRegistered(e))]);
}

pub fn emit_candidate_proposed(env: &mut Env, candidate: &ResolutionCandidate)
    ensures
        one_more_effect(old(env), final(env)),
        is_proposed_event(final(env).effects@.last(), candidate@),
{
    let e = CandidateProposed {
        candidate_id: candidate.id,
        market_id: candidate.market_id,
        outcome: candidate.outcome,
        proposer: candidate.proposer,
        evidence_uri: copy_bytes(&candidate.evidence_uri),
        challenge_deadline: candidate.challenge_deadline,
        signature_expiry: candidate.signature_expiry,
    };
    publish(env, ResolutionEvent::CandidateProposed(e));
    assert(env.effects@.drop_last() =~= old(env).effects@);
}

pub fn emit_candidate_challenged(
    env: &mut Env,
    candidate_id: u32,
    market_id: u32,
    challenger: &Address,
    challenge_uri: &Vec<u8>,
)
    ensures
        one_more_effect(old(env), final(env)),
        is_challenged_event(
            final(env).effects@.last(),
            candidate_id,
            market_id,
            *challenger,
            challenge_uri@,
            old(env).timestamp,
        ),
{
    let e = CandidateChallenged {
        candidate_id,
        market_id,
        challenger: *challenger,
        challenge_uri: copy_bytes(challenge_uri),
        challenged_at: env.timestamp,
    };
    publish(env, ResolutionEvent::CandidateChallenged(e));
    assert(env.effects@.drop_last() =~= old(env).effects@);
}

pub fn emit_factory_proposed(env: &mut Env, factory: &Address, effective_at: u64)
    ensures
        logged(
            old(env),
            final(env),
            seq![Effect::Publish(ResolutionEvent::FactoryProposed(FactoryProposed { factory: *factory, effective_at }))],
        ),
        final(env).storage == old(env).storage,
{
    let e = FactoryProposed { factory: *factory, effective_at };
    publish(env, ResolutionEvent::FactoryProposed(e));
    assert(env.effects@ =~= old(env).effects@ + seq![Effect::Publish(ResolutionEvent::FactoryProposed(e))]);
}

pub fn emit_factory_set(env: &mut Env, factory: &Address)
    ensures
        logged(
            old(env),
            final(env),
            seq![Effect::Publish(ResolutionEvent::FactorySet(FactorySet { factory: *factory, set_at: old(env).timestamp }))],
        ),
        final(env).storage == old(env).storage,
{
    let e = FactorySet { factory: *factory, set_at: env.timestamp };
    publish(env, ResolutionEvent::FactorySet(e));
    assert(env.effects@ =~= old(env).effects@ + seq![Effect::Publish(ResolutionEvent::FactorySet(e))]);
}

pub fn emit_market_contract_proposed(env: &mut Env, market_contract: &Address, effective_at: u64)
    ensures
        logged(
            old(env),
            final(env),
            seq![Effect::Publish(ResolutionEvent::MarketContractProposed(MarketContractProposed { market_contract: *market_contract, effective_at }))],
        ),
        final(env).storage == old(env).storage,
{
    let e = MarketContractProposed { market_contract: *market_contract, effective_at };
    publish(env, ResolutionEvent::MarketContractProposed(e));
    assert(env.effects@ =~= old(env).effects@ + seq![Effect::Publish(ResolutionEvent::MarketContractProposed(e))]);
}

pub fn emit_market_contract_set(env: &mut Env, market_contract: &Address)
    ensures
        logged(
            old(env),
            final(env),
            seq![Effect::Publish(ResolutionEvent::MarketContractSet(MarketContractSet { market_contract: *market_contract, set_at: old(env).timestamp }))],
        ),
        final(env).storage == old(env).storage,
{
    let e = MarketContractSet { market_contract: *market_contract, set_at: env.timestamp };
    publish(env, ResolutionEvent::MarketContractSet(e));
    assert(env.effects@ =~= old(env).effects@ + seq![Effect::Publish(ResolutionEvent::MarketContractSet(e))]);
}

pub fn emit_candidate_finalized(env: &mut Env, candidate: &ResolutionCandidate)
    ensures
        logged(
            old(env),
            final(env),
            seq![Effect::Publish(finalized_event(candidate@, old(env).timestamp))],
        ),
        final(env).storage == old(env).storage,
{
    let finalized_at = match candidate.finalized_at {
        Some(t) => t,
        None => env.timestamp,
    };
    let e = CandidateFinalized {
        candidate_id: candidate.id,
        market_id: candidate.market_id,
        outcome: candidate.outcome,
        finalized_at,
    };
    publish(env, ResolutionEvent::CandidateFinalized(e));
    assert(env.effects@ =~= old(env).effects@ + seq![Effect::Publish(ResolutionEvent::CandidateFinalized(e))]);
}

pub fn emit_candidate_appealed(env: &mut Env, candidate: &ResolutionCandidate)
    ensures
        one_more_effect(old(env), final(env)),
        is_appealed_event(final(env).effects@.last(), candidate@, old(env).timestamp),
{
    let e = CandidateAppealed {
        candidate_id: candidate.id,
        market_id: candidate.market_id,
        outcome: candidate.outcome,
        proposer: candidate.proposer,
        appeal_round: candidate.appeal_round,
        evidence_uri: copy_bytes(&candidate.evidence_uri),
        challenge_deadline: candidate.challenge_deadline,
        appealed_at: env.timestamp,
    };
    publish(env, ResolutionEvent::CandidateAppealed(e));
    assert(env.effects@.drop_last() =~= old(env).effects@);
}

} // verus!
