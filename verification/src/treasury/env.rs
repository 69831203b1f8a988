use vstd::prelude::*;
use crate::address::Address;
use crate::amounts::AmountMap;
use super::events::TreasuryEvent;

verus! {

/// The treasury contract's storage, one field per storage key; keys that
/// read as a default when absent hold that default.
pub struct Storage {
    /// Schema version written by `initialize`.
    pub version: Option<u32>,
    /// The address that can withdraw fees and manage the registry.
    pub admin: Option<Address>,
    /// Market contracts allowed to call `collect_fee`.
    pub authorized_markets: Vec<Address>,
    /// Current custodied balance per token (decreases on withdrawal).
    pub token_balances: AmountMap,
    /// Fees ever collected per token (never decreases).
    pub cumulative_fees: AmountMap,
    /// Fees ever collected across all tokens (never decreases).
    pub total_collected: i128,
    /// When set, `collect_fee` and `withdraw_fees` are blocked.
    pub paused: bool,
    /// Every distinct token that has ever had a fee collected, in order of
    /// first collection.
    pub fee_tokens: Vec<Address>,
}

/// A movement of `amount` of `token` that the contract asks the host to
/// perform.
#[derive(Clone, Copy, Debug, PartialEq, Eq, Structural)]
pub struct TokenTransfer {
    pub token: Address,
    pub from: Address,
    pub to: Address,
    pub amount: i128,
}

/// Everything an invocation of the treasury reads and writes: the
/// contract's own address, its storage, and the logs of published events
/// and requested token transfers.
pub struct Env {
    pub current_contract: Address,
    pub storage: Storage,
    pub events: Vec<TreasuryEvent>,
    pub transfers: Vec<TokenTransfer>,
}

impl Env {
    /// The environment's storage is well formed.
    pub open spec fn wf(&self) -> bool {
        &&& self.storage.token_balances.wf()
        &&& self.storage.cumulative_fees.wf()
    }

    /// A fresh deployment of the treasury at `current_contract`, with empty
    /// storage and logs.
    pub fn new(current_contract: Address) -> (env: Env)
        ensures
            env.wf(),
            env.current_contract == current_contract,
            env.storage.version is None,
            env.storage.admin is None,
            env.storage.authorized_markets@ == Seq::<Address>::empty(),
            env.storage.token_balances@ == Map::<Address, i128>::empty(),
            env.storage.cumulative_fees@ == Map::<Address, i128>::empty(),
            env.storage.total_collected == 0,
            !env.storage.paused,
            env.storage.fee_tokens@ == Seq::<Address>::empty(),
            env.events@ == Seq::<TreasuryEvent>::empty(),
            env.transfers@ == Seq::<TokenTransfer>::empty(),
    {
        Env {
            current_contract,
            storage: Storage {
                version: None,
                admin: None,
                authorized_markets: Vec::new(),
                token_balances: AmountMap::new(),
                cumulative_fees: AmountMap::new(),
                total_collected: 0,
                paused: false,
                fee_tokens: Vec::new(),
            },
            events: Vec::new(),
            transfers: Vec::new(),
        }
    }
}

} // verus!
