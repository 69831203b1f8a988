use vstd::prelude::*;
use crate::address::Address;
use super::env::{Effect, Env, Storage, StorageKey};
use super::types::{ChallengeRecord, PendingAddressChange, ResolutionCandidate, ResolutionConfig};

verus! {

broadcast use vstd::std_specs::hash::group_hash_axioms;

/// `after` has the ledger clock and contract address of `before`.
pub open spec fn same_ledger(before: &Env, after: &Env) -> bool {
    &&& after.timestamp == before.timestamp
    &&& after.current_contract == before.current_contract
}

/// `after` extends the effects of `before` by exactly `more`, on the same
/// ledger.
pub open spec fn logged(before: &Env, after: &Env, more: Seq<Effect>) -> bool {
    &&& after.effects@ == before.effects@ + more
    &&& same_ledger(before, after)
}

/// The challengers recorded for candidate `candidate_id`; none when the
/// entry is absent.
pub open spec fn recorded_challengers(s: Storage, candidate_id: u32) -> Seq<ChallengeRecord> {
    if s.challengers@.contains_key(candidate_id) {
        s.challengers@[candidate_id]@
    } else {
        Seq::<ChallengeRecord>::empty()
    }
}

/// The id that the next candidate will receive.
pub open spec fn next_candidate_id(s: Storage) -> int {
    match s.candidate_counter {
        Some(n) => n + 1,
        None => 1,
    }
}

pub fn has_config(env: &Env) -> (r: bool)
    ensures
        r == env.storage.config is Some,
{
    env.storage.config.is_some()
}

pub fn get_config(env: &Env) -> (c: ResolutionConfig)
    requires
        env.storage.config is Some,
    ensures
        c == env.storage.config.unwrap(),
{
    env.storage.config.unwrap()
}

pub fn set_config(env: &mut Env, config: &ResolutionConfig)
    ensures
        final(env).storage == (Storage { config: Some(*config), ..old(env).storage }),
        logged(old(env), final(env), seq![Effect::Write(StorageKey::Config)]),
{
    env.storage.config = Some(*config);
    env.effects.push(Effect::Write(StorageKey::Config));
    assert(env.effects@ =~= old(env).effects@ + seq![Effect::Write(StorageKey::Config)]);
}

pub fn get_pending_factory(env: &Env) -> (r: Option<PendingAddressChange>)
    ensures
        r == env.storage.pending_factory,
{
    env.storage.pending_factory
}

pub fn set_pending_factory(env: &mut Env, pending: &PendingAddressChange)
    ensures
        final(env).storage == (Storage { pending_factory: Some(*pending), ..old(env).storage }),
        logged(old(env), final(env), seq![Effect::Write(StorageKey::PendingFactory)]),
{
    env.storage.pending_factory = Some(*pending);
    env.effects.push(Effect::Write(StorageKey::PendingFactory));
    assert(env.effects@ =~= old(env).effects@ + seq![Effect::Write(StorageKey::PendingFactory)]);
}

pub fn clear_pending_factory(env: &mut Env)
    ensures
        final(env).storage == (Storage { pending_factory: None, ..old(env).storage }),
        logged(old(env), final(env), seq![Effect::Remove(StorageKey::PendingFactory)]),
{
    env.storage.pending_factory = None;
    env.effects.push(Effect::Remove(StorageKey::PendingFactory));
    assert(env.effects@ =~= old(env).effects@ + seq![Effect::Remove(StorageKey::PendingFactory)]);
}

pub fn get_pending_market_contract(env: &Env) -> (r: Option<PendingAddressChange>)
    ensures
        r == env.storage.pending_market_contract,
{
    env.storage.pending_market_contract
}

pub fn set_pending_market_contract(env: &mut Env, pending: &PendingAddressChange)
    ensures
        final(env).storage == (Storage {
            pending_market_contract: Some(*pending),
            ..old(env).storage
        }),
        logged(old(env), final(env), seq![Effect::Write(StorageKey::PendingMarketContract)]),
{
    env.storage.pending_market_contract = Some(*pending);
    env.effects.push(Effect::Write(StorageKey::PendingMarketContract));
    assert(env.effects@ =~= old(env).effects@ + seq![Effect::Write(StorageKey::PendingMarketContract)]);
}

pub fn clear_pending_market_contract(env: &mut Env)
    ensures
        final(env).storage == (Storage { pending_market_contract: None, ..old(env).storage }),
        logged(old(env), final(env), seq![Effect::Remove(StorageKey::PendingMarketContract)]),
{
    env.storage.pending_market_contract = None;
    env.effects.push(Effect::Remove(StorageKey::PendingMarketContract));
    assert(env.effects@ =~= old(env).effects@ + seq![Effect::Remove(StorageKey::PendingMarketContract)]);
}

/// Advances the candidate counter and returns the new id.
pub fn increment_candidate_id(env: &mut Env) -> (id: u32)
    requires
        next_candidate_id(old(env).storage) <= u32::MAX,
    ensures
        id == next_candidate_id(old(env).storage),
        final(env).storage == (Storage { candidate_counter: Some(id), ..old(env).storage }),
        logged(old(env), final(env), seq![Effect::Write(StorageKey::CandidateCounter)]),
{
    let next = match env.storage.candidate_counter {
        Some(n) => n + 1,
        None => 1,
    };
    env.storage.candidate_counter = Some(next);
    env.effects.push(Effect::Write(StorageKey::CandidateCounter));
    assert(env.effects@ =~= old(env).effects@ + seq![Effect::Write(StorageKey::CandidateCounter)]);
    next
}

pub fn get_candidate(env: &Env, candidate_id: u32) -> (r: Option<ResolutionCandidate>)
    ensures
        match r {
            Some(c) => env.storage.candidates@.contains_key(candidate_id)
                && c@ == env.storage.candidates@[candidate_id]@,
            None => !env.storage.candidates@.contains_key(candidate_id),
        },
{
    match env.storage.candidates.get(&candidate_id) {
        Some(c) => Some(c.duplicate()),
        None => None,
    }
}

/// Stores `candidate` under its id and indexes it under its market.
pub fn set_candidate(env: &mut Env, candidate: &ResolutionCandidate)
    requires
        old(env).wf(),
    ensures
        final(env).wf(),
        final(env).storage.candidates@.dom() == old(env).storage.candidates@.dom().insert(candidate.id),
        final(env).storage.candidates@[candidate.id]@ == candidate@,
        forall|k: u32|
            k != candidate.id ==> #[trigger] final(env).storage.candidates@.contains_key(k)
                ==> final(env).storage.candidates@[k] == old(env).storage.candidates@[k],
        final(env).storage.candidate_by_market@ == old(env).storage.candidate_by_market@.insert(
            candidate.market_id,
            candidate.id,
        ),
        final(env).storage == (Storage {
            candidates: final(env).storage.candidates,
            candidate_by_market: final(env).storage.candidate_by_market,
            ..old(env).storage
        }),
        logged(old(env), final(env), seq![Effect::Write(StorageKey::Candidate(candidate.id)), Effect::Write(StorageKey::CandidateByMarket(candidate.market_id))]),
{
    env.storage.candidates.insert(candidate.id, candidate.duplicate());
    env.storage.candidate_by_market.insert(candidate.market_id, candidate.id);
    env.effects.push(Effect::Write(StorageKey::Candidate(candidate.id)));
    env.effects.push(Effect::Write(StorageKey::CandidateByMarket(candidate.market_id)));
    assert(env.effects@ =~= old(env).effects@ + seq![
        Effect::Write(StorageKey::Candidate(candidate.id)),
        Effect::Write(StorageKey::CandidateByMarket(candidate.market_id)),
    ]);
}

pub fn get_candidate_id_for_market(env: &Env, market_id: u32) -> (r: Option<u32>)
    ensures
        r == (if env.storage.candidate_by_market@.contains_key(market_id) {
            Some(env.storage.candidate_by_market@[market_id])
        } else {
            None::<u32>
        }),
{
    match env.storage.candidate_by_market.get(&market_id) {
        Some(id) => Some(*id),
        None => None,
    }
}

/// The collateral deposited by `proposer`; zero when none was recorded.
pub fn get_proposer_collateral(env: &Env, proposer: &Address) -> (amount: i128)
    requires
        env.wf(),
    ensures
        amount == (if env.storage.proposer_collateral@.contains_key(*proposer) {
            env.storage.proposer_collateral@[*proposer]
        } else {
            0
        }),
{
    match env.storage.proposer_collateral.get(proposer) {
        Some(a) => a,
        None => 0,
    }
}

pub fn set_proposer_collateral(env: &mut Env, proposer: &Address, amount: i128)
    requires
        old(env).wf(),
    ensures
        final(env).wf(),
        final(env).storage.proposer_collateral@ == old(env).storage.proposer_collateral@.insert(
            *proposer,
            amount,
        ),
        final(env).storage == (Storage {
            proposer_collateral: final(env).storage.proposer_collateral,
            ..old(env).storage
        }),
        logged(old(env), final(env), seq![Effect::Write(StorageKey::ProposerCollateral(*proposer))]),
{
    env.storage.proposer_collateral.set(*proposer, amount);
    env.effects.push(Effect::Write(StorageKey::ProposerCollateral(*proposer)));
    assert(env.effects@ =~= old(env).effects@ + seq![Effect::Write(StorageKey::ProposerCollateral(*proposer))]);
}

/// The challengers recorded for a candidate; empty when none were.
pub fn get_challengers(env: &Env, candidate_id: u32) -> (r: Vec<ChallengeRecord>)
    ensures
        r@ == recorded_challengers(env.storage, candidate_id),
{
    match env.storage.challengers.get(&candidate_id) {
        Some(v) => {
            let r = v.clone();
            assert(r@ =~= v@);
            r
        },
        None => Vec::new(),
    }
}

/// Records one more challenger of a candidate, after those already recorded.
pub fn append_challenger(env: &mut Env, candidate_id: u32, challenger: &Address, bond: i128)
    ensures
        final(env).storage.challengers@.dom() == old(env).storage.challengers@.dom().insert(
            candidate_id,
        ),
        final(env).storage.challengers@[candidate_id]@ == recorded_challengers(old(env).storage, candidate_id).push(
            ChallengeRecord { challenger: *challenger, bond },
        ),
        forall|k: u32|
            k != candidate_id ==> #[trigger] final(env).storage.challengers@.contains_key(k)
                ==> final(env).storage.challengers@[k] == old(env).storage.challengers@[k],
        final(env).storage == (Storage {
            challengers: final(env).storage.challengers,
            ..old(env).storage
        }),
        logged(old(env), final(env), seq![Effect::Write(StorageKey::Challengers(candidate_id))]),
{
    let mut challengers = get_challengers(env, candidate_id);
    challengers.push(ChallengeRecord { challenger: *challenger, bond });
    env.storage.challengers.insert(candidate_id, challengers);
    env.effects.push(Effect::Write(StorageKey::Challengers(candidate_id)));
    assert(env.effects@ =~= old(env).effects@ + seq![Effect::Write(StorageKey::Challengers(candidate_id))]);
}

pub fn clear_challengers(env: &mut Env, candidate_id: u32)
    ensures
        final(env).storage.challengers@ == old(env).storage.challengers@.remove(candidate_id),
        final(env).storage == (Storage {
            challengers: final(env).storage.challengers,
            ..old(env).storage
        }),
        logged(old(env), final(env), seq![Effect::Remove(StorageKey::Challengers(candidate_id))]),
{
    env.storage.challengers.remove(&candidate_id);
    env.effects.push(Effect::Remove(StorageKey::Challengers(candidate_id)));
    assert(env.effects@ =~= old(env).effects@ + seq![Effect::Remove(StorageKey::Challengers(candidate_id))]);
}

pub fn get_treasury(env: &Env) -> (r: Option<Address>)
    ensures
        r == env.storage.treasury,
{
    env.storage.treasury
}

pub fn set_treasury(env: &mut Env, treasury: &Address)
    ensures
        final(env).storage == (Storage { treasury: Some(*treasury), ..old(env).storage }),
        logged(old(env), final(env), seq![Effect::Write(StorageKey::Treasury)]),
{
    env.storage.treasury = Some(*treasury);
    env.effects.push(Effect::Write(StorageKey::Treasury));
    assert(env.effects@ =~= old(env).effects@ + seq![Effect::Write(StorageKey::Treasury)]);
}

} // verus!
