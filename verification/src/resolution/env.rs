use vstd::prelude::*;
use std::collections::HashMap;
use crate::address::Address;
use crate::amounts::AmountMap;
use super::events::ResolutionEvent;
use super::types::{ChallengeRecord, PendingAddressChange, ResolutionCandidate, ResolutionConfig};

verus! {

/// The resolution contract's persistent storage, one field per storage key.
pub struct Storage {
    pub config: Option<ResolutionConfig>,
    /// The id handed to the most recently created candidate (absent before
    /// the first one).
    pub candidate_counter: Option<u32>,
    pub candidates: HashMap<u32, ResolutionCandidate>,
    /// For each market, the id of the candidate last stored for it.
    pub candidate_by_market: HashMap<u32, u32>,
    pub proposer_collateral: AmountMap,
    /// Every bonded challenger of a candidate, in the order they challenged.
    pub challengers: HashMap<u32, Vec<ChallengeRecord>>,
    /// Treasury that receives the treasury share of slashed bonds.
    pub treasury: Option<Address>,
    pub pending_factory: Option<PendingAddressChange>,
    pub pending_market_contract: Option<PendingAddressChange>,
}

/// A movement of collateral tokens that the contract asks the host to
/// perform, in the collateral token of market `market_id` as reported by
/// `market_contract`.
#[derive(Clone, Copy, Debug, PartialEq, Eq, Structural)]
pub struct BondTransfer {
    pub market_contract: Address,
    pub market_id: u32,
    pub from: Address,
    pub to: Address,
    pub amount: i128,
}

/// A key of the contract's persistent storage.
#[derive(Clone, Copy, Debug, PartialEq, Eq, Structural)]
pub enum StorageKey {
    Config,
    CandidateCounter,
    Candidate(u32),
    CandidateByMarket(u32),
    ProposerCollateral(Address),
    Challengers(u32),
    Treasury,
    PendingFactory,
    PendingMarketContract,
}

/// One externally visible effect of an invocation, in the order the host
/// must carry the effects out.
#[derive(Clone, Debug, PartialEq, Eq)]
pub enum Effect {
    /// The storage entry under the key is persisted with its current value.
    Write(StorageKey),
    /// The storage entry under the key is removed.
    Remove(StorageKey),
    /// The event is published.
    Publish(ResolutionEvent),
    /// The token movement is performed.
    Transfer(BondTransfer),
}

/// Everything an invocation of the resolution contract reads and writes:
/// the ledger clock, the contract's own address, its storage, and the
/// ordered log of its effects (storage writes, published events, requested
/// token transfers).
pub struct Env {
    /// Ledger close time, in seconds.
    pub timestamp: u64,
    pub current_contract: Address,
    pub storage: Storage,
    pub effects: Vec<Effect>,
}

impl Env {
    /// The environment's storage is well formed.
    pub open spec fn wf(&self) -> bool {
        &&& self.storage.proposer_collateral.wf()
        &&& forall|k: u32| #[trigger]
            self.storage.candidates@.contains_key(k) ==> self.storage.candidates@[k].id == k
    }

    /// A fresh deployment of the contract at `current_contract`, with empty
    /// storage and logs, at ledger time `timestamp`.
    pub fn new(current_contract: Address, timestamp: u64) -> (env: Env)
        ensures
            env.wf(),
            env.timestamp == timestamp,
            env.current_contract == current_contract,
            env.storage.config is None,
            env.storage.candidate_counter is None,
            env.storage.candidates@ == Map::<u32, ResolutionCandidate>::empty(),
            env.storage.candidate_by_market@ == Map::<u32, u32>::empty(),
            env.storage.proposer_collateral@ == Map::<Address, i128>::empty(),
            env.storage.challengers@ == Map::<u32, Vec<ChallengeRecord>>::empty(),
            env.storage.treasury is None,
            env.storage.pending_factory is None,
            env.storage.pending_market_contract is None,
            env.effects@ == Seq::<Effect>::empty(),
    {
        Env {
            timestamp,
            current_contract,
            storage: Storage {
                config: None,
                candidate_counter: None,
                candidates: HashMap::new(),
                candidate_by_market: HashMap::new(),
                proposer_collateral: AmountMap::new(),
                challengers: HashMap::new(),
                treasury: None,
                pending_factory: None,
                pending_market_contract: None,
            },
            effects: Vec::new(),
        }
    }
}

} // verus!
