use vstd::prelude::*;
use crate::address::Address;

verus! {

/// Mirror of the market contract's `MarketStatus`, kept variant-for-variant
/// in sync with it so that status values read from the market contract
/// decode correctly.
#[derive(Clone, Copy, Debug, PartialEq, Eq, Structural)]
pub enum MarketStatus {
    Active,
    Resolved,
    Canceled,
}

/// Lifecycle stage of a resolution candidate.
#[derive(Clone, Copy, Debug, PartialEq, Eq, Structural)]
pub enum CandidateStatus {
    Proposed,
    Challenged,
    Finalized,
}

/// A proposed resolution of one market, open to challenge until its
/// `challenge_deadline`.
#[derive(Clone, Debug, PartialEq, Eq)]
pub struct ResolutionCandidate {
    pub id: u32,
    pub market_id: u32,
    pub outcome: bool,
    pub signature: [u8; 64],
    pub signature_expiry: u64,
    pub proposer: Address,
    pub evidence_uri: Vec<u8>,
    pub proposed_at: u64,
    pub challenge_deadline: u64,
    pub status: CandidateStatus,
    pub challenged_by: Option<Address>,
    pub challenge_uri: Option<Vec<u8>>,
    pub finalized_at: Option<u64>,
    /// Number of times this candidate has been re-proposed via `appeal`
    /// after a challenge. Capped at `MAX_APPEAL_ROUNDS`.
    pub appeal_round: u32,
    /// Bond posted by the proposer (in the market's collateral token),
    /// locked in the contract and refunded to the proposer on finalize.
    pub bond_amount: i128,
}

/// The mathematical value of a [`ResolutionCandidate`]: its byte strings
/// are taken as sequences.
pub struct CandidateView {
    pub id: u32,
    pub market_id: u32,
    pub outcome: bool,
    pub signature: [u8; 64],
    pub signature_expiry: u64,
    pub proposer: Address,
    pub evidence_uri: Seq<u8>,
    pub proposed_at: u64,
    pub challenge_deadline: u64,
    pub status: CandidateStatus,
    pub challenged_by: Option<Address>,
    pub challenge_uri: Option<Seq<u8>>,
    pub finalized_at: Option<u64>,
    pub appeal_round: u32,
    pub bond_amount: i128,
}

pub open spec fn opt_bytes_view(b: Option<Vec<u8>>) -> Option<Seq<u8>> {
    match b {
        Some(v) => Some(v@),
        None => None,
    }
}

impl View for ResolutionCandidate {
    type V = CandidateView;

    open spec fn view(&self) -> CandidateView {
        CandidateView {
            id: self.id,
            market_id: self.market_id,
            outcome: self.outcome,
            signature: self.signature,
            signature_expiry: self.signature_expiry,
            proposer: self.proposer,
            evidence_uri: self.evidence_uri@,
            proposed_at: self.proposed_at,
            challenge_deadline: self.challenge_deadline,
            status: self.status,
            challenged_by: self.challenged_by,
            challenge_uri: opt_bytes_view(self.challenge_uri),
            finalized_at: self.finalized_at,
            appeal_round: self.appeal_round,
            bond_amount: self.bond_amount,
        }
    }
}

/// A byte string equal, as a sequence, to `b`.
pub fn copy_bytes(b: &Vec<u8>) -> (r: Vec<u8>)
    ensures
        r@ == b@,
{
    let r = b.clone();
    assert(r@ =~= b@);
    r
}

/// An optional byte string equal, as a value, to `b`.
pub fn copy_opt_bytes(b: &Option<Vec<u8>>) -> (r: Option<Vec<u8>>)
    ensures
        opt_bytes_view(r) == opt_bytes_view(*b),
{
    match b {
        Some(v) => Some(copy_bytes(v)),
        None => None,
    }
}

impl ResolutionCandidate {
    /// A copy of this candidate with the same value.
    pub fn duplicate(&self) -> (r: ResolutionCandidate)
        ensures
            r@ == self@,
    {
        ResolutionCandidate {
            id: self.id,
            market_id: self.market_id,
            outcome: self.outcome,
            signature: self.signature,
            signature_expiry: self.signature_expiry,
            proposer: self.proposer,
            evidence_uri: copy_bytes(&self.evidence_uri),
            proposed_at: self.proposed_at,
            challenge_deadline: self.challenge_deadline,
            status: self.status,
            challenged_by: self.challenged_by,
            challenge_uri: copy_opt_bytes(&self.challenge_uri),
            finalized_at: self.finalized_at,
            appeal_round: self.appeal_round,
            bond_amount: self.bond_amount,
        }
    }
}

/// Registration of the resolution contract: who administers it, which
/// factory indexes it, which market contract its candidates target, and the
/// default challenge window in seconds (within
/// `MIN_CHALLENGE_WINDOW_SECONDS..=MAX_CHALLENGE_WINDOW_SECONDS`).
#[derive(Clone, Copy, Debug, PartialEq, Eq, Structural)]
pub struct ResolutionConfig {
    pub admin: Address,
    pub factory: Address,
    pub market_contract: Address,
    pub challenge_window_secs: u64,
}

/// One bonded challenge of a candidate.
#[derive(Clone, Copy, Debug, PartialEq, Eq, Structural)]
pub struct ChallengeRecord {
    pub challenger: Address,
    pub bond: i128,
}

/// A timelocked change of a registered address, applicable at or after
/// `effective_at`.
#[derive(Clone, Copy, Debug, PartialEq, Eq, Structural)]
pub struct PendingAddressChange {
    pub address: Address,
    pub effective_at: u64,
}

} // verus!
