//! Storage accessors of the treasury contract.

use vstd::prelude::*;
use crate::address::{copy_list, list_contains, Address};
use super::env::{Env, Storage};
use super::error::TreasuryError;

verus! {

/// Bump this constant whenever the treasury storage layout changes in a breaking way.
/// `initialize()` writes this value so that future migrations can detect stale deployments.
pub const STORAGE_VERSION: u32 = 1;

/// The stored schema version is the one this build reads.
pub open spec fn version_ok(s: Storage) -> bool {
    s.version == Some(STORAGE_VERSION)
}

/// The custodied balance of `token`; zero when none was recorded.
pub open spec fn balance_of(s: Storage, token: Address) -> i128 {
    if s.token_balances@.contains_key(token) {
        s.token_balances@[token]
    } else {
        0
    }
}

/// The fees ever collected in `token`; zero when none was recorded.
pub open spec fn cumulative_of(s: Storage, token: Address) -> i128 {
    if s.cumulative_fees@.contains_key(token) {
        s.cumulative_fees@[token]
    } else {
        0
    }
}

/// `after` differs from `before` at most in its storage.
pub open spec fn only_storage_changed(before: &Env, after: &Env) -> bool {
    &&& after.current_contract == before.current_contract
    &&& after.events == before.events
    &&& after.transfers == before.transfers
}

pub fn set_version(env: &mut Env)
    ensures
        final(env).storage == (Storage { version: Some(STORAGE_VERSION), ..old(env).storage }),
        only_storage_changed(old(env), final(env)),
{
    env.storage.version = Some(STORAGE_VERSION);
}

pub fn get_version(env: &Env) -> (v: Option<u32>)
    ensures
        v == env.storage.version,
{
    env.storage.version
}

/// Guard used by every versioned storage accessor: rejects reads against a
/// deployment whose stored schema doesn't match this build.
fn assert_version(env: &Env) -> (r: Result<(), TreasuryError>)
    ensures
        r == (if version_ok(env.storage) { Ok(()) } else { Err(TreasuryError::UpgradeRequired) }),
{
    match get_version(env) {
        Some(v) => {
            if v == STORAGE_VERSION {
                Ok(())
            } else {
                Err(TreasuryError::UpgradeRequired)
            }
        },
        None => Err(TreasuryError::UpgradeRequired),
    }
}

pub fn has_admin(env: &Env) -> (r: bool)
    ensures
        r == env.storage.admin is Some,
{
    env.storage.admin.is_some()
}

pub fn get_admin(env: &Env) -> (r: Result<Address, TreasuryError>)
    requires
        version_ok(env.storage) ==> env.storage.admin is Some,
    ensures
        r == (if version_ok(env.storage) {
            Ok(env.storage.admin.unwrap())
        } else {
            Err(TreasuryError::UpgradeRequired)
        }),
{
    assert_version(env)?;
    Ok(env.storage.admin.unwrap())
}

pub fn set_admin(env: &mut Env, admin: &Address)
    ensures
        final(env).storage == (Storage { admin: Some(*admin), ..old(env).storage }),
        only_storage_changed(old(env), final(env)),
{
    env.storage.admin = Some(*admin);
}

pub fn get_authorized_markets(env: &Env) -> (r: Vec<Address>)
    ensures
        r@ == env.storage.authorized_markets@,
{
    copy_list(&env.storage.authorized_markets)
}

pub fn set_authorized_markets(env: &mut Env, markets: &Vec<Address>)
    ensures
        final(env).storage.authorized_markets@ == markets@,
        final(env).storage == (Storage {
            authorized_markets: final(env).storage.authorized_markets,
            ..old(env).storage
        }),
        only_storage_changed(old(env), final(env)),
{
    env.storage.authorized_markets = copy_list(markets);
}

pub fn is_authorized_market(env: &Env, market: &Address) -> (r: bool)
    ensures
        r == env.storage.authorized_markets@.contains(*market),
{
    list_contains(&env.storage.authorized_markets, market)
}

pub fn get_token_balance(env: &Env, token: &Address) -> (r: Result<i128, TreasuryError>)
    requires
        env.wf(),
    ensures
        r == (if version_ok(env.storage) {
            Ok(balance_of(env.storage, *token))
        } else {
            Err(TreasuryError::UpgradeRequired)
        }),
{
    assert_version(env)?;
    match env.storage.token_balances.get(token) {
        Some(b) => Ok(b),
        None => Ok(0),
    }
}

pub fn set_token_balance(env: &mut Env, token: &Address, amount: i128)
    requires
        old(env).wf(),
    ensures
        final(env).wf(),
        final(env).storage.token_balances@ == old(env).storage.token_balances@.insert(*token, amount),
        final(env).storage == (Storage {
            token_balances: final(env).storage.token_balances,
            ..old(env).storage
        }),
        only_storage_changed(old(env), final(env)),
{
    env.storage.token_balances.set(*token, amount);
}

pub fn get_cumulative_fees(env: &Env, token: &Address) -> (r: Result<i128, TreasuryError>)
    requires
        env.wf(),
    ensures
        r == (if version_ok(env.storage) {
            Ok(cumulative_of(env.storage, *token))
        } else {
            Err(TreasuryError::UpgradeRequired)
        }),
{
    assert_version(env)?;
    match env.storage.cumulative_fees.get(token) {
        Some(b) => Ok(b),
        None => Ok(0),
    }
}

pub fn set_cumulative_fees(env: &mut Env, token: &Address, amount: i128)
    requires
        old(env).wf(),
    ensures
        final(env).wf(),
        final(env).storage.cumulative_fees@ == old(env).storage.cumulative_fees@.insert(*token, amount),
        final(env).storage == (Storage {
            cumulative_fees: final(env).storage.cumulative_fees,
            ..old(env).storage
        }),
        only_storage_changed(old(env), final(env)),
{
    env.storage.cumulative_fees.set(*token, amount);
}

/// Return every distinct token mint that has ever had a fee collected for it.
pub fn get_fee_tokens(env: &Env) -> (r: Vec<Address>)
    ensures
        r@ == env.storage.fee_tokens@,
{
    copy_list(&env.storage.fee_tokens)
}

/// Record `token` in the fee-token registry if it hasn't been seen before.
/// Idempotent: re-registering an already-known token is a no-op.
pub fn register_fee_token(env: &mut Env, token: &Address)
    ensures
        final(env).storage.fee_tokens@ == (if old(env).storage.fee_tokens@.contains(*token) {
            old(env).storage.fee_tokens@
        } else {
            old(env).storage.fee_tokens@.push(*token)
        }),
        final(env).storage == (Storage {
            fee_tokens: final(env).storage.fee_tokens,
            ..old(env).storage
        }),
        only_storage_changed(old(env), final(env)),
{
    if !list_contains(&env.storage.fee_tokens, token) {
        env.storage.fee_tokens.push(*token);
    }
}

pub fn get_total_collected(env: &Env) -> (r: Result<i128, TreasuryError>)
    ensures
        r == (if version_ok(env.storage) {
            Ok(env.storage.total_collected)
        } else {
            Err(TreasuryError::UpgradeRequired)
        }),
{
    assert_version(env)?;
    Ok(env.storage.total_collected)
}

pub fn set_total_collected(env: &mut Env, amount: i128)
    ensures
        final(env).storage == (Storage { total_collected: amount, ..old(env).storage }),
        only_storage_changed(old(env), final(env)),
{
    env.storage.total_collected = amount;
}

pub fn is_paused(env: &Env) -> (r: bool)
    ensures
        r == env.storage.paused,
{
    env.storage.paused
}

pub fn set_paused(env: &mut Env, paused: bool)
    ensures
        final(env).storage == (Storage { paused, ..old(env).storage }),
        only_storage_changed(old(env), final(env)),
{
    env.storage.paused = paused;
}

} // verus!
