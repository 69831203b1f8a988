use vatix::address::{Address, AddressKind};
use vatix::resolution::env::{Effect, Env, StorageKey};
use vatix::resolution::events::{
    emit_candidate_appealed, emit_candidate_challenged, emit_candidate_finalized,
    emit_factory_proposed, emit_factory_set, emit_market_contract_proposed,
    emit_market_contract_set, CandidateAppealed, CandidateChallenged, CandidateFinalized,
    FactoryProposed, FactorySet, MarketContractProposed, MarketContractSet, ResolutionEvent,
};
use vatix::resolution::storage;
use vatix::resolution::types::{
    CandidateStatus, ChallengeRecord, PendingAddressChange, ResolutionCandidate, ResolutionConfig,
};

fn account(n: u128) -> Address {
    Address { kind: AddressKind::Account, hi: 7, lo: n }
}

fn sample_candidate(id: u32, market_id: u32) -> ResolutionCandidate {
    ResolutionCandidate {
        id,
        market_id,
        outcome: true,
        signature: [3u8; 64],
        signature_expiry: 9_000,
        proposer: account(1),
        evidence_uri: b"ipfs://e".to_vec(),
        proposed_at: 1_000,
        challenge_deadline: 1_300,
        status: CandidateStatus::Proposed,
        challenged_by: None,
        challenge_uri: None,
        finalized_at: None,
        appeal_round: 0,
        bond_amount: 10_000_000,
    }
}

#[test]
fn config_reads_back_what_was_written() {
    let mut env = Env::new(account(100), 5);
    assert!(!storage::has_config(&env));
    let config = ResolutionConfig {
        admin: account(1),
        factory: account(2),
        market_contract: account(3),
        challenge_window_secs: 120,
    };
    storage::set_config(&mut env, &config);
    assert!(storage::has_config(&env));
    assert_eq!(storage::get_config(&env), config);
}

#[test]
fn pending_changes_set_and_clear() {
    let mut env = Env::new(account(100), 5);
    let pending = PendingAddressChange { address: account(4), effective_at: 172_805 };
    assert_eq!(storage::get_pending_factory(&env), None);
    storage::set_pending_factory(&mut env, &pending);
    assert_eq!(storage::get_pending_factory(&env), Some(pending));
    storage::clear_pending_factory(&mut env);
    assert_eq!(storage::get_pending_factory(&env), None);

    storage::set_pending_market_contract(&mut env, &pending);
    assert_eq!(storage::get_pending_market_contract(&env), Some(pending));
    storage::clear_pending_market_contract(&mut env);
    assert_eq!(storage::get_pending_market_contract(&env), None);
}

#[test]
fn candidate_counter_starts_at_one() {
    let mut env = Env::new(account(100), 5);
    assert_eq!(storage::increment_candidate_id(&mut env), 1);
    assert_eq!(storage::increment_candidate_id(&mut env), 2);
    assert_eq!(env.storage.candidate_counter, Some(2));
    assert_eq!(
        env.effects,
        vec![
            Effect::Write(StorageKey::CandidateCounter),
            Effect::Write(StorageKey::CandidateCounter),
        ]
    );
}

#[test]
fn candidate_reads_back_and_is_indexed_by_market() {
    let mut env = Env::new(account(100), 5);
    let c = sample_candidate(4, 11);
    storage::set_candidate(&mut env, &c);
    assert_eq!(storage::get_candidate(&env, 4), Some(c));
    assert_eq!(storage::get_candidate(&env, 5), None);
    assert_eq!(storage::get_candidate_id_for_market(&env, 11), Some(4));
    assert_eq!(storage::get_candidate_id_for_market(&env, 12), None);
}

#[test]
fn proposer_collateral_defaults_to_zero() {
    let mut env = Env::new(account(100), 5);
    assert_eq!(storage::get_proposer_collateral(&env, &account(1)), 0);
    storage::set_proposer_collateral(&mut env, &account(1), 500);
    storage::set_proposer_collateral(&mut env, &account(2), 7);
    storage::set_proposer_collateral(&mut env, &account(1), 600);
    assert_eq!(storage::get_proposer_collateral(&env, &account(1)), 600);
    assert_eq!(storage::get_proposer_collateral(&env, &account(2)), 7);
    assert_eq!(storage::get_proposer_collateral(&env, &account(3)), 0);
}

#[test]
fn challengers_accumulate_in_order_and_clear() {
    let mut env = Env::new(account(100), 5);
    assert!(storage::get_challengers(&env, 1).is_empty());
    storage::append_challenger(&mut env, 1, &account(5), 10);
    storage::append_challenger(&mut env, 1, &account(6), 20);
    storage::append_challenger(&mut env, 2, &account(7), 30);
    assert_eq!(
        storage::get_challengers(&env, 1),
        vec![
            ChallengeRecord { challenger: account(5), bond: 10 },
            ChallengeRecord { challenger: account(6), bond: 20 },
        ]
    );
    storage::clear_challengers(&mut env, 1);
    assert!(storage::get_challengers(&env, 1).is_empty());
    assert_eq!(storage::get_challengers(&env, 2).len(), 1);
    assert_eq!(
        env.effects,
        vec![
            Effect::Write(StorageKey::Challengers(1)),
            Effect::Write(StorageKey::Challengers(1)),
            Effect::Write(StorageKey::Challengers(2)),
            Effect::Remove(StorageKey::Challengers(1)),
        ]
    );
}

#[test]
fn treasury_is_unset_until_registered() {
    let mut env = Env::new(account(100), 5);
    assert_eq!(storage::get_treasury(&env), None);
    storage::set_treasury(&mut env, &account(9));
    assert_eq!(storage::get_treasury(&env), Some(account(9)));
}

#[test]
fn events_carry_the_ledger_time() {
    let mut env = Env::new(account(100), 77);
    let mut c = sample_candidate(4, 11);
    emit_factory_proposed(&mut env, &account(2), 500);
    emit_factory_set(&mut env, &account(2));
    emit_market_contract_proposed(&mut env, &account(3), 600);
    emit_market_contract_set(&mut env, &account(3));
    emit_candidate_challenged(&mut env, 4, 11, &account(5), &b"ipfs://c".to_vec());
    c.appeal_round = 2;
    emit_candidate_appealed(&mut env, &c);
    emit_candidate_finalized(&mut env, &c);
    c.finalized_at = Some(70);
    emit_candidate_finalized(&mut env, &c);
    let published: Vec<ResolutionEvent> = env
        .effects
        .iter()
        .map(|e| match e {
            Effect::Publish(ev) => ev.clone(),
            other => panic!("unexpected effect {:?}", other),
        })
        .collect();
    assert_eq!(
        published,
        vec![
            ResolutionEvent::FactoryProposed(FactoryProposed {
                factory: account(2),
                effective_at: 500
            }),
            ResolutionEvent::FactorySet(FactorySet { factory: account(2), set_at: 77 }),
            ResolutionEvent::MarketContractProposed(MarketContractProposed {
                market_contract: account(3),
                effective_at: 600
            }),
            ResolutionEvent::MarketContractSet(MarketContractSet {
                market_contract: account(3),
                set_at: 77
            }),
            ResolutionEvent::CandidateChallenged(CandidateChallenged {
                candidate_id: 4,
                market_id: 11,
                challenger: account(5),
                challenge_uri: b"ipfs://c".to_vec(),
                challenged_at: 77,
            }),
            ResolutionEvent::CandidateAppealed(CandidateAppealed {
                candidate_id: 4,
                market_id: 11,
                outcome: true,
                proposer: account(1),
                appeal_round: 2,
                evidence_uri: b"ipfs://e".to_vec(),
                challenge_deadline: 1_300,
                appealed_at: 77,
            }),
            ResolutionEvent::CandidateFinalized(CandidateFinalized {
                candidate_id: 4,
                market_id: 11,
                outcome: true,
                finalized_at: 77,
            }),
            ResolutionEvent::CandidateFinalized(CandidateFinalized {
                candidate_id: 4,
                market_id: 11,
                outcome: true,
                finalized_at: 70,
            }),
        ]
    );
}
