//! Properties of the treasury that relate several entrypoints.

use vstd::prelude::*;
use crate::address::Address;
use super::env::Storage;
use super::error::TreasuryError;
use super::storage::{balance_of, cumulative_of, version_ok};
use super::{
    admin_check, collect_check, collects, fees_consistent, keeps_fees, no_fees, saturating_sum,
    sum_cumulative, totals_exact, treasury_step, withdraw_check, withdraws,
};

verus! {

/// While the treasury is paused, neither fee collection nor withdrawal
/// goes through, whoever calls.
pub proof fn lemma_pause_blocks_fee_flows(
    s: Storage,
    caller: Address,
    token: Address,
    amount: i128,
)
    requires
        s.admin is Some,
        s.paused,
    ensures
        collect_check(s, caller, amount) == Err::<(), TreasuryError>(TreasuryError::ContractPaused),
        withdraw_check(s, caller, token, amount) == Err::<(), TreasuryError>(
            TreasuryError::ContractPaused,
        ),
{
}

/// Unpausing lifts the pause: on an unpaused treasury a registered market
/// with a positive fee is accepted.
pub proof fn lemma_unpaused_accepts_registered_market(s: Storage, caller: Address, amount: i128)
    requires
        s.admin is Some,
        version_ok(s),
        !s.paused,
        s.authorized_markets@.contains(caller),
        amount > 0,
    ensures
        collect_check(s, caller, amount) is Ok,
{
}

/// Only the admin passes the admin checks of an initialized treasury.
pub proof fn lemma_only_admin_passes(s: Storage, caller: Address)
    requires
        s.admin is Some,
        version_ok(s),
    ensures
        admin_check(s, caller) is Ok <==> caller == s.admin.unwrap(),
        caller != s.admin.unwrap() ==> admin_check(s, caller) == Err::<(), TreasuryError>(
            TreasuryError::Unauthorized,
        ),
{
}

/// After an admin transfer the new admin passes the admin checks and the
/// previous one, if different, no longer does.
pub proof fn lemma_admin_transfer_hands_over(s: Storage, new_admin: Address)
    requires
        s.admin is Some,
        version_ok(s),
    ensures
        admin_check(Storage { admin: Some(new_admin), ..s }, new_admin) is Ok,
        s.admin.unwrap() != new_admin ==> admin_check(
            Storage { admin: Some(new_admin), ..s },
            s.admin.unwrap(),
        ) == Err::<(), TreasuryError>(TreasuryError::Unauthorized),
{
}

/// A removed market is no longer registered, and every other registered
/// market stays registered.
pub proof fn lemma_removed_market_is_gone(markets: Seq<Address>, market: Address, other: Address)
    ensures
        !markets.filter(|m: Address| m != market).contains(market),
        other != market && markets.contains(other) ==> markets.filter(
            |m: Address| m != market,
        ).contains(other),
{
    let keep = |m: Address| m != market;
    if markets.filter(keep).contains(market) {
        markets.lemma_filter_contains_rev(keep, market);
    }
    if other != market && markets.contains(other) {
        let i = choose|i: int| 0 <= i < markets.len() && markets[i] == other;
        markets.lemma_filter_contains(keep, i);
    }
}

/// Collecting a positive fee never lowers a balance or a running total.
pub proof fn lemma_collection_only_grows(previous: i128, fee_amount: i128)
    requires
        fee_amount > 0,
    ensures
        saturating_sum(previous, fee_amount) >= previous,
        previous + fee_amount <= i128::MAX ==> saturating_sum(previous, fee_amount) == previous
            + fee_amount,
{
}

/// Reading a token's balance or cumulative fees back after they were
/// written gives the written amount; every other token reads as before.
pub proof fn lemma_token_amounts_read_after_write(
    before: Storage,
    after: Storage,
    token: Address,
    balance: i128,
    cumulative: i128,
    other: Address,
)
    requires
        after.token_balances@ == before.token_balances@.insert(token, balance),
        after.cumulative_fees@ == before.cumulative_fees@.insert(token, cumulative),
    ensures
        balance_of(after, token) == balance,
        cumulative_of(after, token) == cumulative,
        other != token ==> balance_of(after, other) == balance_of(before, other),
        other != token ==> cumulative_of(after, other) == cumulative_of(before, other),
{
}

/// Every call of the treasury keeps each balance between zero and the fees
/// ever collected in its token, and those below the overall total.
pub proof fn lemma_step_keeps_fees_consistent(before: Storage, after: Storage)
    requires
        fees_consistent(before),
        treasury_step(before, after),
    ensures
        fees_consistent(after),
{
    if exists|t: Address, f: i128| #[trigger] collects(before, after, t, f) {
        let (token, f) = choose|t: Address, f: i128| #[trigger] collects(before, after, t, f);
        assert forall|t: Address|
            0 <= #[trigger] balance_of(after, t) <= cumulative_of(after, t)
                <= after.total_collected by {
            assert(0 <= balance_of(before, t) <= cumulative_of(before, t)
                <= before.total_collected);
        }
    } else if exists|t: Address, a: i128| #[trigger] withdraws(before, after, t, a) {
        let (token, a) = choose|t: Address, a: i128| #[trigger] withdraws(before, after, t, a);
        assert forall|t: Address|
            0 <= #[trigger] balance_of(after, t) <= cumulative_of(after, t)
                <= after.total_collected by {
            assert(0 <= balance_of(before, t) <= cumulative_of(before, t)
                <= before.total_collected);
        }
    } else {
        assert forall|t: Address|
            0 <= #[trigger] balance_of(after, t) <= cumulative_of(after, t)
                <= after.total_collected by {
            assert(0 <= balance_of(before, t) <= cumulative_of(before, t)
                <= before.total_collected);
        }
    }
}

/// A fresh deployment holds no fees, so its amounts are consistent and its
/// overall total is exactly the sum of its (absent) per-token totals.
pub proof fn lemma_fresh_treasury_totals(s: Storage)
    requires
        no_fees(s),
    ensures
        fees_consistent(s),
        totals_exact(s),
{
}

/// In every state that a run of calls reaches from a fresh deployment, each
/// token's balance lies between zero and the fees ever collected in it:
/// withdrawals never overdraw and never take out more than came in.
pub proof fn lemma_fees_consistent_along_runs(run: Seq<Storage>)
    requires
        run.len() > 0,
        no_fees(run[0]),
        forall|i: int| 0 <= i < run.len() - 1 ==> treasury_step(#[trigger] run[i], run[i + 1]),
    ensures
        forall|i: int| 0 <= i < run.len() ==> fees_consistent(#[trigger] run[i]),
    decreases run.len(),
{
    if run.len() == 1 {
        lemma_fresh_treasury_totals(run[0]);
    } else {
        let prefix = run.drop_last();
        assert forall|i: int| 0 <= i < prefix.len() - 1 implies treasury_step(
            #[trigger] prefix[i],
            prefix[i + 1],
        ) by {
            assert(treasury_step(run[i], run[i + 1]));
        }
        lemma_fees_consistent_along_runs(prefix);
        let n = run.len() - 1;
        assert(fees_consistent(prefix[n - 1]));
        assert(treasury_step(run[n - 1], run[n]));
        lemma_step_keeps_fees_consistent(run[n - 1], run[n]);
        assert forall|i: int| 0 <= i < run.len() implies fees_consistent(#[trigger] run[i]) by {
            if i < n {
                assert(fees_consistent(prefix[i]));
            }
        }
    }
}

/// No call of the treasury lowers the fees ever collected in a token or
/// overall.
pub proof fn lemma_step_never_lowers_totals(before: Storage, after: Storage)
    requires
        treasury_step(before, after),
    ensures
        forall|t: Address| #[trigger] cumulative_of(after, t) >= cumulative_of(before, t),
        after.total_collected >= before.total_collected,
{
    if exists|t: Address, f: i128| #[trigger] collects(before, after, t, f) {
        let (token, f) = choose|t: Address, f: i128| #[trigger] collects(before, after, t, f);
        lemma_collection_only_grows(cumulative_of(before, token), f);
        lemma_collection_only_grows(before.total_collected, f);
    } else if exists|t: Address, a: i128| #[trigger] withdraws(before, after, t, a) {
        let (token, a) = choose|t: Address, a: i128| #[trigger] withdraws(before, after, t, a);
    }
}

/// Along any run of calls, the fees ever collected in a token, and overall,
/// never decrease: a later state holds at least what an earlier one held.
pub proof fn lemma_totals_never_fall_along_runs(run: Seq<Storage>, i: int, j: int, token: Address)
    requires
        0 <= i <= j < run.len(),
        forall|k: int| 0 <= k < run.len() - 1 ==> treasury_step(#[trigger] run[k], run[k + 1]),
    ensures
        cumulative_of(run[j], token) >= cumulative_of(run[i], token),
        run[j].total_collected >= run[i].total_collected,
    decreases j - i,
{
    if i < j {
        lemma_totals_never_fall_along_runs(run, i, j - 1, token);
        assert(treasury_step(run[j - 1], run[j - 1 + 1]));
        lemma_step_never_lowers_totals(run[j - 1], run[j]);
        assert(cumulative_of(run[j], token) >= cumulative_of(run[j - 1], token));
    }
}

/// Summing the per-token totals over `tokens` gives the same in two states
/// that agree on every one of those tokens.
proof fn lemma_sum_agrees(s1: Storage, s2: Storage, tokens: Seq<Address>)
    requires
        forall|t: Address| tokens.contains(t) ==> cumulative_of(s1, t) == cumulative_of(s2, t),
    ensures
        sum_cumulative(s1, tokens) == sum_cumulative(s2, tokens),
    decreases tokens.len(),
{
    if tokens.len() > 0 {
        let prefix = tokens.drop_last();
        assert forall|t: Address| prefix.contains(t) implies cumulative_of(s1, t)
            == cumulative_of(s2, t) by {
            let k = choose|k: int| 0 <= k < prefix.len() && prefix[k] == t;
            assert(tokens[k] == t);
        }
        lemma_sum_agrees(s1, s2, prefix);
        assert(tokens.contains(tokens.last())) by {
            assert(tokens[tokens.len() - 1] == tokens.last());
        }
    }
}

/// Raising one listed token's total by `f`, all else equal, raises the sum
/// over a list without repetitions by `f`.
proof fn lemma_sum_raises_by(
    s1: Storage,
    s2: Storage,
    tokens: Seq<Address>,
    token: Address,
    f: int,
)
    requires
        tokens.no_duplicates(),
        tokens.contains(token),
        cumulative_of(s2, token) == cumulative_of(s1, token) + f,
        forall|t: Address| t != token ==> cumulative_of(s1, t) == cumulative_of(s2, t),
    ensures
        sum_cumulative(s2, tokens) == sum_cumulative(s1, tokens) + f,
    decreases tokens.len(),
{
    let prefix = tokens.drop_last();
    if tokens.last() == token {
        assert(!prefix.contains(token)) by {
            if prefix.contains(token) {
                let k = choose|k: int| 0 <= k < prefix.len() && prefix[k] == token;
                assert(tokens[k] == tokens[tokens.len() - 1]);
            }
        }
        lemma_sum_agrees(s1, s2, prefix);
    } else {
        assert(prefix.contains(token)) by {
            let k = choose|k: int| 0 <= k < tokens.len() && tokens[k] == token;
            assert(k != tokens.len() - 1);
            assert(prefix[k] == token);
        }
        assert(prefix.no_duplicates()) by {
            assert forall|a: int, b: int|
                0 <= a < prefix.len() && 0 <= b < prefix.len() && a != b implies prefix[a]
                != prefix[b] by {
                assert(prefix[a] == tokens[a] && prefix[b] == tokens[b]);
            }
        }
        lemma_sum_raises_by(s1, s2, prefix, token, f);
    }
}

/// While the overall total stays below `i128::MAX`, so that no addition
/// saturated, every call keeps it equal to the sum of the per-token totals
/// over the listed fee tokens.
pub proof fn lemma_step_keeps_totals_exact(before: Storage, after: Storage)
    requires
        fees_consistent(before),
        totals_exact(before),
        treasury_step(before, after),
        after.total_collected < i128::MAX,
    ensures
        totals_exact(after),
{
    if exists|t: Address, f: i128| #[trigger] collects(before, after, t, f) {
        let (token, f) = choose|t: Address, f: i128| #[trigger] collects(before, after, t, f);
        assert(0 <= cumulative_of(before, token) <= before.total_collected);
        assert(before.total_collected + f < i128::MAX);
        assert(cumulative_of(after, token) == cumulative_of(before, token) + f);
        assert(after.total_collected == before.total_collected + f);
        assert forall|t: Address| t != token implies cumulative_of(before, t)
            == #[trigger] cumulative_of(after, t) by {}
        if before.fee_tokens@.contains(token) {
            lemma_sum_raises_by(before, after, before.fee_tokens@, token, f as int);
            assert(after.fee_tokens@ == before.fee_tokens@);
            assert(after.total_collected == sum_cumulative(after, after.fee_tokens@));
        } else {
            let l = before.fee_tokens@;
            assert(after.fee_tokens@.drop_last() =~= l);
            assert(cumulative_of(before, token) == 0);
            assert forall|t: Address| l.contains(t) implies cumulative_of(before, t)
                == cumulative_of(after, t) by {}
            lemma_sum_agrees(before, after, l);
            assert(after.fee_tokens@.last() == token);
            assert(sum_cumulative(after, after.fee_tokens@) == sum_cumulative(after, l)
                + cumulative_of(after, token));
            assert(after.fee_tokens@.no_duplicates()) by {
                assert forall|a: int, b: int|
                    0 <= a < after.fee_tokens@.len() && 0 <= b < after.fee_tokens@.len() && a
                        != b implies after.fee_tokens@[a] != after.fee_tokens@[b] by {
                    if a < l.len() && b < l.len() {
                    } else if a < l.len() {
                        assert(l[a] != token);
                    } else {
                        assert(l[b] != token);
                    }
                }
            }
        }
        assert forall|t: Address| !after.fee_tokens@.contains(t) implies #[trigger] cumulative_of(
            after,
            t,
        ) == 0 by {
            if t == token {
                assert(after.fee_tokens@.contains(token)) by {
                    if before.fee_tokens@.contains(token) {
                    } else {
                        assert(after.fee_tokens@[after.fee_tokens@.len() - 1] == token);
                    }
                }
            } else {
                assert(!before.fee_tokens@.contains(t)) by {
                    if before.fee_tokens@.contains(t) {
                        let k = choose|k: int|
                            0 <= k < before.fee_tokens@.len() && before.fee_tokens@[k] == t;
                        assert(after.fee_tokens@[k] == t);
                    }
                }
            }
        }
    } else if exists|t: Address, a: i128| #[trigger] withdraws(before, after, t, a) {
        let (t, a) = choose|t: Address, a: i128| #[trigger] withdraws(before, after, t, a);
        lemma_sum_agrees(before, after, before.fee_tokens@);
        assert forall|t: Address| !after.fee_tokens@.contains(t) implies #[trigger] cumulative_of(
            after,
            t,
        ) == 0 by {
            assert(cumulative_of(before, t) == 0);
        }
    } else {
        lemma_sum_agrees(before, after, before.fee_tokens@);
        assert forall|t: Address| !after.fee_tokens@.contains(t) implies #[trigger] cumulative_of(
            after,
            t,
        ) == 0 by {
            assert(cumulative_of(before, t) == 0);
        }
    }
}

/// In every state that a run of calls reaches from a fresh deployment, as
/// long as the overall total has stayed below `i128::MAX`, the overall total
/// equals the sum of the per-token totals over the listed fee tokens.
pub proof fn lemma_totals_exact_along_runs(run: Seq<Storage>)
    requires
        run.len() > 0,
        no_fees(run[0]),
        forall|i: int| 0 <= i < run.len() - 1 ==> treasury_step(#[trigger] run[i], run[i + 1]),
        run.last().total_collected < i128::MAX,
    ensures
        forall|i: int| 0 <= i < run.len() ==> totals_exact(#[trigger] run[i]),
    decreases run.len(),
{
    lemma_fees_consistent_along_runs(run);
    if run.len() == 1 {
        lemma_fresh_treasury_totals(run[0]);
    } else {
        let n = run.len() - 1;
        let prefix = run.drop_last();
        assert forall|i: int| 0 <= i < prefix.len() - 1 implies treasury_step(
            #[trigger] prefix[i],
            prefix[i + 1],
        ) by {
            assert(treasury_step(run[i], run[i + 1]));
        }
        assert(treasury_step(run[n - 1], run[n]));
        lemma_step_never_lowers_totals(run[n - 1], run[n]);
        lemma_totals_exact_along_runs(prefix);
        assert(totals_exact(prefix[n - 1]));
        assert(fees_consistent(run[n - 1]));
        lemma_step_keeps_totals_exact(run[n - 1], run[n]);
        assert forall|i: int| 0 <= i < run.len() implies totals_exact(#[trigger] run[i]) by {
            if i < n {
                assert(totals_exact(prefix[i]));
            }
        }
    }
}

/// Once paused, the treasury stays paused until an unpause goes through,
/// and meanwhile every fee collection and every withdrawal, whoever calls,
/// is refused with `ContractPaused` and no amount moves.
pub proof fn lemma_pause_holds_until_unpause(
    run: Seq<Storage>,
    caller: Address,
    token: Address,
    amount: i128,
)
    requires
        run.len() > 0,
        run[0].paused,
        run[0].admin is Some,
        forall|i: int| 0 <= i < run.len() - 1 ==> treasury_step(#[trigger] run[i], run[i + 1]),
        forall|i: int|
            0 <= i < run.len() - 1 ==> run[i + 1] != (Storage { paused: false, ..#[trigger] run[i] }),
    ensures
        forall|i: int|
            0 <= i < run.len() ==> {
                &&& (#[trigger] run[i]).paused
                &&& run[i].admin is Some
                &&& keeps_fees(run[0], run[i])
                &&& collect_check(run[i], caller, amount) == Err::<(), TreasuryError>(
                    TreasuryError::ContractPaused,
                )
                &&& withdraw_check(run[i], caller, token, amount) == Err::<(), TreasuryError>(
                    TreasuryError::ContractPaused,
                )
            },
    decreases run.len(),
{
    if run.len() > 1 {
        let n = run.len() - 1;
        let prefix = run.drop_last();
        assert forall|i: int| 0 <= i < prefix.len() - 1 implies treasury_step(
            #[trigger] prefix[i],
            prefix[i + 1],
        ) by {
            assert(treasury_step(run[i], run[i + 1]));
        }
        assert forall|i: int| 0 <= i < prefix.len() - 1 implies prefix[i + 1] != (Storage {
            paused: false,
            ..#[trigger] prefix[i]
        }) by {
            assert(run[i + 1] != (Storage { paused: false, ..run[i] }));
        }
        lemma_pause_holds_until_unpause(prefix, caller, token, amount);
        let b = run[n - 1];
        let a = run[n];
        assert(b == prefix[n - 1]);
        assert(b.paused && b.admin is Some && keeps_fees(run[0], b));
        assert(treasury_step(b, a));
        assert(a != (Storage { paused: false, ..b }));
        assert(!exists|t: Address, f: i128| #[trigger] collects(b, a, t, f));
        assert(!exists|t: Address, x: i128| #[trigger] withdraws(b, a, t, x));
        if a == (Storage { paused: a.paused, ..b }) {
            assert(a.paused);
        }
        assert forall|i: int| 0 <= i < run.len() implies {
            &&& (#[trigger] run[i]).paused
            &&& run[i].admin is Some
            &&& keeps_fees(run[0], run[i])
            &&& collect_check(run[i], caller, amount) == Err::<(), TreasuryError>(
                TreasuryError::ContractPaused,
            )
            &&& withdraw_check(run[i], caller, token, amount) == Err::<(), TreasuryError>(
                TreasuryError::ContractPaused,
            )
        } by {
            if i < n {
                assert(run[i] == prefix[i]);
            }
        }
    }
}

} // verus!
