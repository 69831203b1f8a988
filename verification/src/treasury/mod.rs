//! The treasury contract: custody of protocol fees collected from the
//! registered market contracts.
//!
//! Any address in the authorized market registry may deposit fees via
//! [`TreasuryContract::collect_fee`]; the admin controls all other
//! privileged operations (withdrawal, registry management, pausing).

pub mod env;
pub mod error;
pub mod events;
pub mod laws;
pub mod storage;

use vstd::prelude::*;
use crate::address::{copy_list, list_contains, Address};
use env::{Env, Storage, TokenTransfer};
use error::TreasuryError;
use events::{published, TreasuryEvent};
use storage::{balance_of, cumulative_of, only_storage_changed, version_ok};

verus! {

/// `a + b`, or `i128::MAX` when the sum leaves the range of `i128`.
pub open spec fn saturating_sum(a: i128, b: i128) -> i128 {
    if i128::MIN <= a + b <= i128::MAX {
        (a + b) as i128
    } else {
        i128::MAX
    }
}

/// The checks every admin-only operation makes, in order: an initialized
/// treasury, a current schema version, and the admin as caller.
pub open spec fn admin_check(s: Storage, caller: Address) -> Result<(), TreasuryError> {
    if s.admin is None {
        Err(TreasuryError::NotInitialized)
    } else if !version_ok(s) {
        Err(TreasuryError::UpgradeRequired)
    } else if caller != s.admin.unwrap() {
        Err(TreasuryError::Unauthorized)
    } else {
        Ok(())
    }
}

/// The checks `collect_fee` makes, in order.
pub open spec fn collect_check(s: Storage, caller: Address, fee_amount: i128) -> Result<
    (),
    TreasuryError,
> {
    if s.admin is None {
        Err(TreasuryError::NotInitialized)
    } else if s.paused {
        Err(TreasuryError::ContractPaused)
    } else if !s.authorized_markets@.contains(caller) {
        Err(TreasuryError::CallerNotMarket)
    } else if fee_amount <= 0 {
        Err(TreasuryError::InvalidAmount)
    } else if !version_ok(s) {
        Err(TreasuryError::UpgradeRequired)
    } else {
        Ok(())
    }
}

/// The checks `withdraw_fees` makes, in order.
pub open spec fn withdraw_check(s: Storage, caller: Address, token: Address, amount: i128) -> Result<
    (),
    TreasuryError,
> {
    if s.admin is None {
        Err(TreasuryError::NotInitialized)
    } else if s.paused {
        Err(TreasuryError::ContractPaused)
    } else if !version_ok(s) {
        Err(TreasuryError::UpgradeRequired)
    } else if caller != s.admin.unwrap() {
        Err(TreasuryError::Unauthorized)
    } else if amount <= 0 {
        Err(TreasuryError::InvalidAmount)
    } else if amount > balance_of(s, token) {
        Err(TreasuryError::InsufficientBalance)
    } else {
        Ok(())
    }
}

/// For every token, the custodied balance is non-negative and at most the
/// fees ever collected in it, which in turn are at most the fees ever
/// collected overall.
pub open spec fn fees_consistent(s: Storage) -> bool {
    &&& 0 <= s.total_collected
    &&& forall|t: Address|
        0 <= #[trigger] balance_of(s, t) <= cumulative_of(s, t) <= s.total_collected
}

/// No market is registered twice, and no token is listed twice.
pub open spec fn registries_distinct(s: Storage) -> bool {
    &&& s.authorized_markets@.no_duplicates()
    &&& s.fee_tokens@.no_duplicates()
}

/// The state of the treasury once an admin-only operation of its has set
/// storage to `s` and published `e`.
pub open spec fn admin_update(before: &Env, after: &Env, s: Storage, e: Option<TreasuryEvent>) -> bool {
    &&& after.storage == s
    &&& after.events@ == match e {
        Some(e) => before.events@.push(e),
        None => before.events@,
    }
    &&& after.current_contract == before.current_contract
    &&& after.transfers == before.transfers
}

/// `after` is `before` after collecting `fee_amount` of `token` on an
/// unpaused treasury.
pub open spec fn collects(before: Storage, after: Storage, token: Address, fee_amount: i128) -> bool {
    &&& fee_amount > 0
    &&& !before.paused
    &&& after.paused == before.paused
    &&& after.admin == before.admin
    &&& after.token_balances@ == before.token_balances@.insert(
        token,
        saturating_sum(balance_of(before, token), fee_amount),
    )
    &&& after.cumulative_fees@ == before.cumulative_fees@.insert(
        token,
        saturating_sum(cumulative_of(before, token), fee_amount),
    )
    &&& after.total_collected == saturating_sum(before.total_collected, fee_amount)
    &&& after.fee_tokens@ == (if before.fee_tokens@.contains(token) {
        before.fee_tokens@
    } else {
        before.fee_tokens@.push(token)
    })
}

/// `after` is `before` after withdrawing `amount` of `token` from an
/// unpaused treasury holding at least that much.
pub open spec fn withdraws(before: Storage, after: Storage, token: Address, amount: i128) -> bool {
    &&& 0 < amount <= balance_of(before, token)
    &&& !before.paused
    &&& after.paused == before.paused
    &&& after.admin == before.admin
    &&& after.token_balances@ == before.token_balances@.insert(
        token,
        (balance_of(before, token) - amount) as i128,
    )
    &&& after.cumulative_fees@ == before.cumulative_fees@
    &&& after.total_collected == before.total_collected
    &&& after.fee_tokens@ == before.fee_tokens@
}

/// `after` has the fee amounts and fee tokens of `before`.
pub open spec fn keeps_fees(before: Storage, after: Storage) -> bool {
    &&& after.token_balances@ == before.token_balances@
    &&& after.cumulative_fees@ == before.cumulative_fees@
    &&& after.total_collected == before.total_collected
    &&& after.fee_tokens@ == before.fee_tokens@
}

/// The ways a call of the treasury changes its storage: the registry or
/// the admin only (an initialized treasury stays initialized), the pause
/// flag only, a fee collection, or a withdrawal.
pub open spec fn treasury_step(before: Storage, after: Storage) -> bool {
    ||| {
        &&& keeps_fees(before, after)
        &&& after.paused == before.paused
        &&& (before.admin is Some ==> after.admin is Some)
    }
    ||| after == (Storage { paused: after.paused, ..before })
    ||| exists|t: Address, f: i128| #[trigger] collects(before, after, t, f)
    ||| exists|t: Address, a: i128| #[trigger] withdraws(before, after, t, a)
}

/// The fees ever collected in each of `tokens`, summed.
pub open spec fn sum_cumulative(s: Storage, tokens: Seq<Address>) -> int
    decreases tokens.len(),
{
    if tokens.len() == 0 {
        0
    } else {
        sum_cumulative(s, tokens.drop_last()) + cumulative_of(s, tokens.last())
    }
}

/// The overall total is exactly the sum of the per-token totals over the
/// registered fee tokens, which are distinct and are the only tokens with
/// fees.
pub open spec fn totals_exact(s: Storage) -> bool {
    &&& s.fee_tokens@.no_duplicates()
    &&& forall|t: Address| !s.fee_tokens@.contains(t) ==> #[trigger] cumulative_of(s, t) == 0
    &&& s.total_collected == sum_cumulative(s, s.fee_tokens@)
}

/// `s` holds no fees yet, as a fresh deployment.
pub open spec fn no_fees(s: Storage) -> bool {
    &&& s.token_balances@ == Map::<Address, i128>::empty()
    &&& s.cumulative_fees@ == Map::<Address, i128>::empty()
    &&& s.total_collected == 0
    &&& s.fee_tokens@ == Seq::<Address>::empty()
}

/// The treasury contract.
pub struct TreasuryContract;

impl TreasuryContract {
    // ── Lifecycle ──────────────────────────────────────────────────────────────
    /// Bootstrap the treasury with an initial market contract in the registry.
    pub fn initialize(env: &mut Env, admin: Address, market_contract: Address) -> (r: Result<
        (),
        TreasuryError,
    >)
        ensures
            treasury_step(old(env).storage, final(env).storage),
            old(env).storage.admin is Some ==> r == Err::<(), TreasuryError>(
                TreasuryError::AlreadyInitialized,
            ) && *final(env) == *old(env),
            old(env).storage.admin is None ==> {
                &&& r is Ok
                &&& final(env).storage.authorized_markets@ == seq![market_contract]
                &&& admin_update(
                    old(env),
                    final(env),
                    Storage {
                        admin: Some(admin),
                        version: Some(storage::STORAGE_VERSION),
                        authorized_markets: final(env).storage.authorized_markets,
                        ..old(env).storage
                    },
                    Some(TreasuryEvent::Initialized { admin, market_contract }),
                )
            },
            registries_distinct(old(env).storage) ==> registries_distinct(final(env).storage),
    {
        if storage::has_admin(env) {
            return Err(TreasuryError::AlreadyInitialized);
        }
        storage::set_admin(env, &admin);
        let mut markets: Vec<Address> = Vec::new();
        markets.push(market_contract);
        storage::set_authorized_markets(env, &markets);
        storage::set_version(env);
        events::emit_treasury_initialized(env, &admin, &market_contract);
        proof {
            assert(final(env).storage.authorized_markets@ =~= seq![market_contract]);
        }
        Ok(())
    }

    // ── Fee collection ─────────────────────────────────────────────────────────
    /// Record a protocol fee transferred from any registered market contract.
    ///
    /// `token` identifies which token mint the fee was paid in: the treasury
    /// custodies an independent balance per token, so markets using
    /// different collateral tokens can all route fees through the same
    /// treasury deployment without their balances colliding. Balances and
    /// totals saturate at `i128::MAX`.
    pub fn collect_fee(
        env: &mut Env,
        caller: Address,
        token: Address,
        market_id: u32,
        fee_amount: i128,
    ) -> (r: Result<(), TreasuryError>)
        requires
            old(env).wf(),
        ensures
            treasury_step(old(env).storage, final(env).storage),
            final(env).wf(),
            match collect_check(old(env).storage, caller, fee_amount) {
                Err(e) => r == Err::<(), TreasuryError>(e) && *final(env) == *old(env),
                Ok(_) => {
                    let s = old(env).storage;
                    let new_balance = saturating_sum(balance_of(s, token), fee_amount);
                    let new_cumulative = saturating_sum(cumulative_of(s, token), fee_amount);
                    &&& r is Ok
                    &&& final(env).storage.token_balances@ == s.token_balances@.insert(
                        token,
                        new_balance,
                    )
                    &&& final(env).storage.cumulative_fees@ == s.cumulative_fees@.insert(
                        token,
                        new_cumulative,
                    )
                    &&& final(env).storage.fee_tokens@ == (if s.fee_tokens@.contains(token) {
                        s.fee_tokens@
                    } else {
                        s.fee_tokens@.push(token)
                    })
                    &&& admin_update(
                        old(env),
                        final(env),
                        Storage {
                            token_balances: final(env).storage.token_balances,
                            cumulative_fees: final(env).storage.cumulative_fees,
                            fee_tokens: final(env).storage.fee_tokens,
                            total_collected: saturating_sum(s.total_collected, fee_amount),
                            ..s
                        },
                        Some(
                            TreasuryEvent::FeeCollected {
                                market_id,
                                token,
                                amount: fee_amount,
                                new_balance,
                                new_cumulative,
                            },
                        ),
                    )
                },
            },
            fees_consistent(old(env).storage) ==> fees_consistent(final(env).storage),
            registries_distinct(old(env).storage) ==> registries_distinct(final(env).storage),
    {
        if !storage::has_admin(env) {
            return Err(TreasuryError::NotInitialized);
        }
        if storage::is_paused(env) {
            return Err(TreasuryError::ContractPaused);
        }
        if !storage::is_authorized_market(env, &caller) {
            return Err(TreasuryError::CallerNotMarket);
        }
        if fee_amount <= 0 {
            return Err(TreasuryError::InvalidAmount);
        }
        // The schema check comes before the first write, so a rejected
        // call leaves storage untouched.
        let prev_balance = storage::get_token_balance(env, &token)?;
        let prev_cumulative = storage::get_cumulative_fees(env, &token)?;
        let prev_total = storage::get_total_collected(env)?;

        // Track every token we've ever seen so callers can enumerate the full
        // set of fee-bearing tokens without prior knowledge.
        storage::register_fee_token(env, &token);

        let new_balance = match prev_balance.checked_add(fee_amount) {
            Some(v) => v,
            None => i128::MAX,
        };
        storage::set_token_balance(env, &token, new_balance);

        let new_cumulative = match prev_cumulative.checked_add(fee_amount) {
            Some(v) => v,
            None => i128::MAX,
        };
        storage::set_cumulative_fees(env, &token, new_cumulative);

        let new_total = match prev_total.checked_add(fee_amount) {
            Some(v) => v,
            None => i128::MAX,
        };
        storage::set_total_collected(env, new_total);

        events::emit_fee_collected(env, market_id, &token, fee_amount, new_balance, new_cumulative);
        proof {
            let s0 = old(env).storage;
            let s1 = final(env).storage;
            assert(collects(s0, s1, token, fee_amount));
            if fees_consistent(s0) {
                assert forall|t: Address|
                    0 <= #[trigger] balance_of(s1, t) <= cumulative_of(s1, t)
                        <= s1.total_collected by {
                    assert(0 <= balance_of(s0, t) <= cumulative_of(s0, t) <= s0.total_collected);
                }
            }
        }
        Ok(())
    }

    // ── Admin operations ───────────────────────────────────────────────────────
    /// Withdraw accumulated fees to a recipient address.
    pub fn withdraw_fees(
        env: &mut Env,
        caller: Address,
        token: Address,
        to: Address,
        amount: i128,
    ) -> (r: Result<(), TreasuryError>)
        requires
            old(env).wf(),
        ensures
            treasury_step(old(env).storage, final(env).storage),
            final(env).wf(),
            match withdraw_check(old(env).storage, caller, token, amount) {
                Err(e) => r == Err::<(), TreasuryError>(e) && *final(env) == *old(env),
                Ok(_) => {
                    let s = old(env).storage;
                    let remaining = (balance_of(s, token) - amount) as i128;
                    &&& r is Ok
                    &&& final(env).storage.token_balances@ == s.token_balances@.insert(
                        token,
                        remaining,
                    )
                    &&& final(env).storage == (Storage {
                        token_balances: final(env).storage.token_balances,
                        ..s
                    })
                    &&& final(env).events@ == old(env).events@.push(
                        TreasuryEvent::FeesWithdrawn { token, to, amount, remaining },
                    )
                    &&& final(env).transfers@ == old(env).transfers@.push(
                        TokenTransfer { token, from: old(env).current_contract, to, amount },
                    )
                    &&& final(env).current_contract == old(env).current_contract
                },
            },
            fees_consistent(old(env).storage) ==> fees_consistent(final(env).storage),
            registries_distinct(old(env).storage) ==> registries_distinct(final(env).storage),
    {
        if !storage::has_admin(env) {
            return Err(TreasuryError::NotInitialized);
        }
        if storage::is_paused(env) {
            return Err(TreasuryError::ContractPaused);
        }
        let admin = storage::get_admin(env)?;
        if caller != admin {
            return Err(TreasuryError::Unauthorized);
        }
        if amount <= 0 {
            return Err(TreasuryError::InvalidAmount);
        }

        let balance = storage::get_token_balance(env, &token)?;
        if amount > balance {
            return Err(TreasuryError::InsufficientBalance);
        }

        let treasury = env.current_contract;
        env.transfers.push(TokenTransfer { token, from: treasury, to, amount });

        let remaining = balance - amount;
        storage::set_token_balance(env, &token, remaining);

        events::emit_fees_withdrawn(env, &token, &to, amount, remaining);
        proof {
            let s0 = old(env).storage;
            let s1 = final(env).storage;
            assert(withdraws(s0, s1, token, amount));
            if fees_consistent(s0) {
                assert forall|t: Address|
                    0 <= #[trigger] balance_of(s1, t) <= cumulative_of(s1, t)
                        <= s1.total_collected by {
                    assert(0 <= balance_of(s0, t) <= cumulative_of(s0, t) <= s0.total_collected);
                }
            }
        }
        Ok(())
    }

    /// Transfer admin rights to a new address immediately.
    ///
    /// Only the current admin may call this.
    pub fn transfer_admin(env: &mut Env, caller: Address, new_admin: Address) -> (r: Result<
        (),
        TreasuryError,
    >)
        ensures
            treasury_step(old(env).storage, final(env).storage),
            match admin_check(old(env).storage, caller) {
                Err(e) => r == Err::<(), TreasuryError>(e) && *final(env) == *old(env),
                Ok(_) => r is Ok && admin_update(
                    old(env),
                    final(env),
                    Storage { admin: Some(new_admin), ..old(env).storage },
                    Some(
                        TreasuryEvent::AdminTransferred {
                            old_admin: old(env).storage.admin.unwrap(),
                            new_admin,
                        },
                    ),
                ),
            },
    {
        if !storage::has_admin(env) {
            return Err(TreasuryError::NotInitialized);
        }
        let admin = storage::get_admin(env)?;
        if caller != admin {
            return Err(TreasuryError::Unauthorized);
        }

        storage::set_admin(env, &new_admin);
        events::emit_admin_transferred(env, &admin, &new_admin);
        Ok(())
    }

    /// Register an additional market contract allowed to call `collect_fee`.
    ///
    /// Idempotent: adding an already-registered market is a no-op. Only the
    /// admin may call this.
    pub fn add_market(env: &mut Env, caller: Address, market_contract: Address) -> (r: Result<
        (),
        TreasuryError,
    >)
        ensures
            treasury_step(old(env).storage, final(env).storage),
            match admin_check(old(env).storage, caller) {
                Err(e) => r == Err::<(), TreasuryError>(e) && *final(env) == *old(env),
                Ok(_) => {
                    &&& r is Ok
                    &&& final(env).storage.authorized_markets@ == (if old(
                        env,
                    ).storage.authorized_markets@.contains(market_contract) {
                        old(env).storage.authorized_markets@
                    } else {
                        old(env).storage.authorized_markets@.push(market_contract)
                    })
                    &&& admin_update(
                        old(env),
                        final(env),
                        Storage {
                            authorized_markets: final(env).storage.authorized_markets,
                            ..old(env).storage
                        },
                        None,
                    )
                },
            },
            registries_distinct(old(env).storage) ==> registries_distinct(final(env).storage),
    {
        if !storage::has_admin(env) {
            return Err(TreasuryError::NotInitialized);
        }
        let admin = storage::get_admin(env)?;
        if caller != admin {
            return Err(TreasuryError::Unauthorized);
        }

        let mut markets = storage::get_authorized_markets(env);
        if !list_contains(&markets, &market_contract) {
            markets.push(market_contract);
            storage::set_authorized_markets(env, &markets);
        }
        Ok(())
    }

    /// Deregister a market contract, revoking its ability to call `collect_fee`.
    ///
    /// Returns [`TreasuryError::CallerNotMarket`] if the address is not registered.
    pub fn remove_market(env: &mut Env, caller: Address, market_contract: Address) -> (r: Result<
        (),
        TreasuryError,
    >)
        ensures
            treasury_step(old(env).storage, final(env).storage),
            match admin_check(old(env).storage, caller) {
                Err(e) => r == Err::<(), TreasuryError>(e) && *final(env) == *old(env),
                Ok(_) => if !old(env).storage.authorized_markets@.contains(market_contract) {
                    r == Err::<(), TreasuryError>(TreasuryError::CallerNotMarket) && *final(env)
                        == *old(env)
                } else {
                    &&& r is Ok
                    &&& final(env).storage.authorized_markets@ == old(
                        env,
                    ).storage.authorized_markets@.filter(|m: Address| m != market_contract)
                    &&& admin_update(
                        old(env),
                        final(env),
                        Storage {
                            authorized_markets: final(env).storage.authorized_markets,
                            ..old(env).storage
                        },
                        None,
                    )
                },
            },
            registries_distinct(old(env).storage) ==> registries_distinct(final(env).storage),
    {
        if !storage::has_admin(env) {
            return Err(TreasuryError::NotInitialized);
        }
        let admin = storage::get_admin(env)?;
        if caller != admin {
            return Err(TreasuryError::Unauthorized);
        }

        let markets = storage::get_authorized_markets(env);
        if !list_contains(&markets, &market_contract) {
            return Err(TreasuryError::CallerNotMarket);
        }
        let ghost keep = |m: Address| m != market_contract;
        let mut updated: Vec<Address> = Vec::new();
        let n = markets.len();
        let mut i: usize = 0;
        while i < n
            invariant
                n == markets@.len(),
                i <= n,
                updated@ == markets@.take(i as int).filter(keep),
                forall|a: Address| #[trigger] keep(a) == (a != market_contract),
            decreases n - i,
        {
            let m = markets[i];
            proof {
                let t = markets@.take(i + 1);
                assert(t.drop_last() =~= markets@.take(i as int));
                assert(t.last() == m);
                reveal_with_fuel(Seq::<Address>::filter, 1);
                assert(t.filter(keep) == (if keep(m) {
                    markets@.take(i as int).filter(keep).push(m)
                } else {
                    markets@.take(i as int).filter(keep)
                }));
            }
            if m != market_contract {
                updated.push(m);
            }
            i = i + 1;
        }
        proof {
            assert(markets@.take(n as int) =~= markets@);
        }
        storage::set_authorized_markets(env, &updated);
        proof {
            if old(env).storage.authorized_markets@.no_duplicates() {
                lemma_filter_keeps_distinct(markets@, keep);
            }
        }
        Ok(())
    }

    /// Rotate the full set of authorized markets to a single new market
    /// contract (e.g. after a market-contract upgrade). Existing
    /// registrations are replaced entirely — use `add_market` /
    /// `remove_market` to manage individual entries instead.
    pub fn set_market_contract(
        env: &mut Env,
        caller: Address,
        new_market_contract: Address,
    ) -> (r: Result<(), TreasuryError>)
        ensures
            treasury_step(old(env).storage, final(env).storage),
            match admin_check(old(env).storage, caller) {
                Err(e) => r == Err::<(), TreasuryError>(e) && *final(env) == *old(env),
                Ok(_) => {
                    let markets = old(env).storage.authorized_markets@;
                    let old_market = if markets.len() > 0 {
                        markets[0]
                    } else {
                        new_market_contract
                    };
                    &&& r is Ok
                    &&& final(env).storage.authorized_markets@ == seq![new_market_contract]
                    &&& admin_update(
                        old(env),
                        final(env),
                        Storage {
                            authorized_markets: final(env).storage.authorized_markets,
                            ..old(env).storage
                        },
                        Some(
                            TreasuryEvent::MarketContractUpdated {
                                old_market,
                                new_market: new_market_contract,
                            },
                        ),
                    )
                },
            },
            registries_distinct(old(env).storage) ==> registries_distinct(final(env).storage),
    {
        if !storage::has_admin(env) {
            return Err(TreasuryError::NotInitialized);
        }
        let admin = storage::get_admin(env)?;
        if caller != admin {
            return Err(TreasuryError::Unauthorized);
        }

        let old_markets = storage::get_authorized_markets(env);
        let old = if old_markets.len() > 0 {
            old_markets[0]
        } else {
            new_market_contract
        };
        let mut updated: Vec<Address> = Vec::new();
        updated.push(new_market_contract);
        storage::set_authorized_markets(env, &updated);
        events::emit_market_contract_updated(env, &old, &new_market_contract);
        proof {
            assert(final(env).storage.authorized_markets@ =~= seq![new_market_contract]);
        }
        Ok(())
    }

    /// Pause the treasury, blocking `collect_fee` and `withdraw_fees`.
    ///
    /// Intended for use during contract upgrades or incident response. Only the
    /// admin may call this.
    pub fn pause(env: &mut Env, caller: Address) -> (r: Result<(), TreasuryError>)
        ensures
            treasury_step(old(env).storage, final(env).storage),
            match admin_check(old(env).storage, caller) {
                Err(e) => r == Err::<(), TreasuryError>(e) && *final(env) == *old(env),
                Ok(_) => r is Ok && admin_update(
                    old(env),
                    final(env),
                    Storage { paused: true, ..old(env).storage },
                    Some(TreasuryEvent::Paused { caller }),
                ),
            },
    {
        if !storage::has_admin(env) {
            return Err(TreasuryError::NotInitialized);
        }
        let admin = storage::get_admin(env)?;
        if caller != admin {
            return Err(TreasuryError::Unauthorized);
        }
        storage::set_paused(env, true);
        events::emit_treasury_paused(env, &caller);
        Ok(())
    }

    /// Unpause the treasury, restoring normal operation.
    ///
    /// Only the admin may call this.
    pub fn unpause(env: &mut Env, caller: Address) -> (r: Result<(), TreasuryError>)
        ensures
            treasury_step(old(env).storage, final(env).storage),
            match admin_check(old(env).storage, caller) {
                Err(e) => r == Err::<(), TreasuryError>(e) && *final(env) == *old(env),
                Ok(_) => r is Ok && admin_update(
                    old(env),
                    final(env),
                    Storage { paused: false, ..old(env).storage },
                    Some(TreasuryEvent::Unpaused { caller }),
                ),
            },
    {
        if !storage::has_admin(env) {
            return Err(TreasuryError::NotInitialized);
        }
        let admin = storage::get_admin(env)?;
        if caller != admin {
            return Err(TreasuryError::Unauthorized);
        }
        storage::set_paused(env, false);
        events::emit_treasury_unpaused(env, &caller);
        Ok(())
    }

    // ── Getters ────────────────────────────────────────────────────────────────
    /// Return whether the treasury is currently paused.
    pub fn is_paused(env: &Env) -> (r: bool)
        ensures
            r == env.storage.paused,
    {
        storage::is_paused(env)
    }

    /// Return the admin address. Returns `UpgradeRequired` if version mismatches.
    pub fn admin(env: &Env) -> (r: Result<Address, TreasuryError>)
        requires
            version_ok(env.storage) ==> env.storage.admin is Some,
        ensures
            r == (if version_ok(env.storage) {
                Ok(env.storage.admin.unwrap())
            } else {
                Err(TreasuryError::UpgradeRequired)
            }),
    {
        storage::get_admin(env)
    }

    /// Return the primary registered market contract address (the first entry
    /// in the authorized-markets registry). Returns `NotInitialized` if no
    /// market has ever been registered.
    pub fn market_contract(env: &Env) -> (r: Result<Address, TreasuryError>)
        ensures
            r == (if env.storage.authorized_markets@.len() > 0 {
                Ok(env.storage.authorized_markets@[0])
            } else {
                Err(TreasuryError::NotInitialized)
            }),
    {
        let markets = storage::get_authorized_markets(env);
        if markets.len() > 0 {
            Ok(markets[0])
        } else {
            Err(TreasuryError::NotInitialized)
        }
    }

    /// Return whether `market` is currently authorized to call `collect_fee`.
    pub fn is_authorized_market(env: &Env, market: Address) -> (r: bool)
        ensures
            r == env.storage.authorized_markets@.contains(market),
    {
        storage::is_authorized_market(env, &market)
    }

    /// Return every market contract currently authorized to call `collect_fee`.
    pub fn list_markets(env: &Env) -> (r: Vec<Address>)
        ensures
            r@ == env.storage.authorized_markets@,
    {
        storage::get_authorized_markets(env)
    }

    /// Return every distinct token mint that has ever had a fee collected for
    /// it.
    pub fn list_fee_tokens(env: &Env) -> (r: Vec<Address>)
        ensures
            r@ == env.storage.fee_tokens@,
    {
        storage::get_fee_tokens(env)
    }

    /// Return the current custodied balance for `token` (decreases on withdrawal).
    pub fn token_balance(env: &Env, token: Address) -> (r: Result<i128, TreasuryError>)
        requires
            env.wf(),
        ensures
            r == (if version_ok(env.storage) {
                Ok(balance_of(env.storage, token))
            } else {
                Err(TreasuryError::UpgradeRequired)
            }),
    {
        storage::get_token_balance(env, &token)
    }

    /// Return the per-token cumulative fees collected for `token` since deployment.
    ///
    /// This counter never decreases: admin withdrawals do not affect it.
    pub fn get_cumulative_fees(env: &Env, token: Address) -> (r: Result<i128, TreasuryError>)
        requires
            env.wf(),
        ensures
            r == (if version_ok(env.storage) {
                Ok(cumulative_of(env.storage, token))
            } else {
                Err(TreasuryError::UpgradeRequired)
            }),
    {
        storage::get_cumulative_fees(env, &token)
    }

    /// Return the global cumulative fees collected across all tokens since deployment.
    ///
    /// Monotone: never decreases regardless of admin withdrawals.
    pub fn total_collected(env: &Env) -> (r: Result<i128, TreasuryError>)
        ensures
            r == (if version_ok(env.storage) {
                Ok(env.storage.total_collected)
            } else {
                Err(TreasuryError::UpgradeRequired)
            }),
    {
        storage::get_total_collected(env)
    }
}

/// Keeping only some elements of a sequence without repetitions leaves a
/// sequence without repetitions.
proof fn lemma_filter_keeps_distinct(s: Seq<Address>, keep: spec_fn(Address) -> bool)
    requires
        s.no_duplicates(),
    ensures
        s.filter(keep).no_duplicates(),
    decreases s.len(),
{
    reveal_with_fuel(Seq::<Address>::filter, 1);
    if s.len() > 0 {
        let prefix = s.drop_last();
        assert(prefix.no_duplicates());
        lemma_filter_keeps_distinct(prefix, keep);
        if keep(s.last()) {
            assert(!prefix.contains(s.last())) by {
                if prefix.contains(s.last()) {
                    let k = choose|k: int| 0 <= k < prefix.len() && prefix[k] == s.last();
                    assert(s[k] == s[s.len() - 1]);
                }
            }
            assert(!prefix.filter(keep).contains(s.last())) by {
                if prefix.filter(keep).contains(s.last()) {
                    prefix.lemma_filter_contains_rev(keep, s.last());
                }
            }
        }
    }
}

} // verus!
