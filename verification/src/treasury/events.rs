use vstd::prelude::*;
use crate::address::Address;
use super::env::Env;

verus! {

/// An event published by the treasury.
#[derive(Clone, Copy, Debug, PartialEq, Eq, Structural)]
pub enum TreasuryEvent {
    /// The treasury was initialized with its admin and first market.
    Initialized { admin: Address, market_contract: Address },
    /// A fee was collected from market `market_id`, leaving the token's
    /// balance and cumulative total at the given values.
    FeeCollected {
        market_id: u32,
        token: Address,
        amount: i128,
        new_balance: i128,
        new_cumulative: i128,
    },
    /// Fees were withdrawn to `to`, leaving `remaining` of the token.
    FeesWithdrawn { token: Address, to: Address, amount: i128, remaining: i128 },
    /// The admin role moved from `old_admin` to `new_admin`.
    AdminTransferred { old_admin: Address, new_admin: Address },
    /// The registry was rotated from `old_market` to `new_market`.
    MarketContractUpdated { old_market: Address, new_market: Address },
    /// The treasury was paused by `caller`.
    Paused { caller: Address },
    /// The treasury was unpaused by `caller`.
    Unpaused { caller: Address },
}

/// `after` differs from `before` only by one more event, `e`.
pub open spec fn published(before: &Env, after: &Env, e: TreasuryEvent) -> bool {
    &&& after.events@ == before.events@.push(e)
    &&& after.current_contract == before.current_contract
    &&& after.storage == before.storage
    &&& after.transfers == before.transfers
}

fn publish(env: &mut Env, e: TreasuryEvent)
    ensures
        published(old(env), final(env), e),
{
    env.events.push(e);
}

pub fn emit_treasury_initialized(env: &mut Env, admin: &Address, market_contract: &Address)
    ensures
        published(
            old(env),
            final(env),
            TreasuryEvent::Initialized { admin: *admin, market_contract: *market_contract },
        ),
{
    publish(env, TreasuryEvent::Initialized { admin: *admin, market_contract: *market_contract });
}

pub fn emit_fee_collected(
    env: &mut Env,
    market_id: u32,
    token: &Address,
    amount: i128,
    new_balance: i128,
    new_cumulative: i128,
)
    ensures
        published(
            old(env),
            final(env),
            TreasuryEvent::FeeCollected {
                market_id,
                token: *token,
                amount,
                new_balance,
                new_cumulative,
            },
        ),
{
    publish(
        env,
        TreasuryEvent::FeeCollected { market_id, token: *token, amount, new_balance, new_cumulative },
    );
}

pub fn emit_fees_withdrawn(env: &mut Env, token: &Address, to: &Address, amount: i128, remaining: i128)
    ensures
        published(
            old(env),
            final(env),
            TreasuryEvent::FeesWithdrawn { token: *token, to: *to, amount, remaining },
        ),
{
    publish(env, TreasuryEvent::FeesWithdrawn { token: *token, to: *to, amount, remaining });
}

pub fn emit_admin_transferred(env: &mut Env, old_admin: &Address, new_admin: &Address)
    ensures
        published(
            old(env),
            final(env),
            TreasuryEvent::AdminTransferred { old_admin: *old_admin, new_admin: *new_admin },
        ),
{
    publish(env, TreasuryEvent::AdminTransferred { old_admin: *old_admin, new_admin: *new_admin });
}

pub fn emit_market_contract_updated(env: &mut Env, old_market: &Address, new_market: &Address)
    ensures
        published(
            old(env),
            final(env),
            TreasuryEvent::MarketContractUpdated { old_market: *old_market, new_market: *new_market },
        ),
{
    publish(
        env,
        TreasuryEvent::MarketContractUpdated { old_market: *old_market, new_market: *new_market },
    );
}

pub fn emit_treasury_paused(env: &mut Env, caller: &Address)
    ensures
        published(old(env), final(env), TreasuryEvent::Paused { caller: *caller }),
{
    publish(env, TreasuryEvent::Paused { caller: *caller });
}

pub fn emit_treasury_unpaused(env: &mut Env, caller: &Address)
    ensures
        published(old(env), final(env), TreasuryEvent::Unpaused { caller: *caller }),
{
    publish(env, TreasuryEvent::Unpaused { caller: *caller });
}

} // verus!
