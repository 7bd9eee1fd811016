//! Identity registry, fee schedule, vaults and enclaves.

use wunderland_sol::errors::WunderlandError;
use wunderland_sol::ledger::Ledger;
use wunderland_sol::state::{
    registration_fee_lamports, AgentRef, HIGH_FEE_LAMPORTS, LOW_FEE_LAMPORTS,
};

const AUTHORITY: u64 = 7;

fn ready_ledger() -> Ledger {
    let mut l = Ledger::new();
    l.initialize_config(AUTHORITY, true).unwrap();
    l
}

fn name_bytes() -> [u8; 32] {
    let mut n = [0u8; 32];
    n[0] = b'a';
    n
}

fn register(l: &mut Ledger, owner: u64, agent_id: u64, signer: u64) -> AgentRef {
    l.initialize_agent(owner, agent_id, name_bytes(), [500u16; 6], 9, signer, 1000)
        .unwrap();
    AgentRef { owner, agent_id }
}

#[test]
fn config_initializes_exactly_once() {
    let mut l = Ledger::new();
    assert_eq!(
        l.initialize_config(AUTHORITY, false),
        Err(WunderlandError::UnauthorizedAuthority)
    );
    assert!(l.config.is_none());
    l.initialize_config(AUTHORITY, true).unwrap();
    let c = l.config.unwrap();
    assert_eq!(c.authority, AUTHORITY);
    assert_eq!(c.agent_count, 0);
    assert_eq!(c.enclave_count, 0);
    let t = l.treasury.unwrap();
    assert_eq!(t.authority, AUTHORITY);
    assert_eq!(t.total_collected, 0);
    assert_eq!(
        l.initialize_config(AUTHORITY, true),
        Err(WunderlandError::RecordAlreadyExists)
    );
}

#[test]
fn register_agent_writes_fresh_record() {
    let mut l = ready_ledger();
    let a = register(&mut l, 10, 1, 11);
    assert_eq!(l.agents.len(), 1);
    let row = &l.agents[0];
    assert_eq!(row.identity.owner, 10);
    assert_eq!(row.identity.agent_id, 1);
    assert_eq!(row.identity.agent_signer, 11);
    assert_eq!(row.identity.citizen_level, 1);
    assert_eq!(row.identity.xp, 0);
    assert_eq!(row.identity.total_entries, 0);
    assert_eq!(row.identity.reputation_score, 0);
    assert!(row.identity.is_active);
    assert_eq!(row.vault.agent, a);
    assert_eq!(row.vault.balance, 0);
    assert_eq!(l.config.unwrap().agent_count, 1);
}

#[test]
fn trait_values_gate_registration() {
    let mut l = ready_ledger();
    let ok = l.initialize_agent(10, 1, name_bytes(), [0, 1000, 500, 1, 999, 42], 9, 11, 1000);
    assert!(ok.is_ok());
    for pos in 0..6 {
        let mut traits = [500u16; 6];
        traits[pos] = 1001;
        let r = l.initialize_agent(10, 2, name_bytes(), traits, 9, 11, 1000);
        assert_eq!(r, Err(WunderlandError::InvalidTraitValue));
    }
    assert_eq!(l.agents.len(), 1);
    assert_eq!(l.config.unwrap().agent_count, 1);
}

#[test]
fn empty_display_name_is_refused() {
    let mut l = ready_ledger();
    let r = l.initialize_agent(10, 1, [0u8; 32], [500u16; 6], 9, 11, 1000);
    assert_eq!(r, Err(WunderlandError::EmptyDisplayName));
    assert_eq!(l.agents.len(), 0);
}

#[test]
fn signer_must_differ_from_owner() {
    let mut l = ready_ledger();
    let r = l.initialize_agent(10, 1, name_bytes(), [500u16; 6], 9, 10, 1000);
    assert_eq!(r, Err(WunderlandError::AgentSignerEqualsOwner));
    assert_eq!(l.agents.len(), 0);
}

#[test]
fn duplicate_agent_key_is_refused() {
    let mut l = ready_ledger();
    register(&mut l, 10, 1, 11);
    let r = l.initialize_agent(10, 1, name_bytes(), [500u16; 6], 9, 12, 1000);
    assert_eq!(r, Err(WunderlandError::RecordAlreadyExists));
    assert_eq!(l.agents.len(), 1);
    // same id under another owner is another key
    l.initialize_agent(20, 1, name_bytes(), [500u16; 6], 9, 21, 1000)
        .unwrap();
    assert_eq!(l.agents.len(), 2);
}

#[test]
fn registration_requires_config() {
    let mut l = Ledger::new();
    let r = l.initialize_agent(10, 1, name_bytes(), [500u16; 6], 9, 11, 1000);
    assert_eq!(r, Err(WunderlandError::RecordNotFound));
}

#[test]
fn fee_is_a_step_function_of_the_count() {
    assert_eq!(registration_fee_lamports(0), 0);
    assert_eq!(registration_fee_lamports(999), 0);
    assert_eq!(registration_fee_lamports(1000), LOW_FEE_LAMPORTS);
    assert_eq!(registration_fee_lamports(1000), 100_000_000);
    assert_eq!(registration_fee_lamports(4999), LOW_FEE_LAMPORTS);
    assert_eq!(registration_fee_lamports(5000), HIGH_FEE_LAMPORTS);
    assert_eq!(registration_fee_lamports(5000), 500_000_000);
    assert_eq!(registration_fee_lamports(u32::MAX), HIGH_FEE_LAMPORTS);
}

#[test]
fn fee_reads_the_pre_registration_count() {
    let mut l = ready_ledger();
    for i in 0..1000u64 {
        register(&mut l, 10, i, 11);
    }
    // the first thousand registrations were free
    assert_eq!(l.treasury.unwrap().total_collected, 0);
    assert_eq!(l.config.unwrap().agent_count, 1000);
    // the next one is judged on the pre-call count of 1000 and pays the low fee
    register(&mut l, 10, 1000, 11);
    assert_eq!(l.treasury.unwrap().total_collected, LOW_FEE_LAMPORTS);
}

#[test]
fn rotate_signer_checks_the_current_signer() {
    let mut l = ready_ledger();
    let a = register(&mut l, 10, 1, 11);
    assert_eq!(
        l.rotate_agent_signer(a, 12, 13, 1001),
        Err(WunderlandError::UnauthorizedAuthority)
    );
    assert_eq!(
        l.rotate_agent_signer(a, 11, 10, 1001),
        Err(WunderlandError::AgentSignerEqualsOwner)
    );
    l.rotate_agent_signer(a, 11, 12, 1001).unwrap();
    assert_eq!(l.agents[0].identity.agent_signer, 12);
    let missing = AgentRef { owner: 99, agent_id: 99 };
    assert_eq!(
        l.rotate_agent_signer(missing, 11, 12, 1001),
        Err(WunderlandError::RecordNotFound)
    );
}

#[test]
fn vault_deposit_and_withdraw() {
    let mut l = ready_ledger();
    let a = register(&mut l, 10, 1, 11);
    l.deposit_to_vault(a, 100).unwrap();
    assert_eq!(l.agents[0].vault.balance, 100);
    assert_eq!(
        l.withdraw_from_vault(a, 42, 40),
        Err(WunderlandError::UnauthorizedAuthority)
    );
    assert_eq!(
        l.withdraw_from_vault(a, 10, 101),
        Err(WunderlandError::InsufficientVaultBalance)
    );
    l.withdraw_from_vault(a, 10, 40).unwrap();
    assert_eq!(l.agents[0].vault.balance, 60);
}

#[test]
fn vault_deposit_overflow_is_refused() {
    let mut l = ready_ledger();
    let a = register(&mut l, 10, 1, 11);
    l.deposit_to_vault(a, u64::MAX).unwrap();
    assert_eq!(
        l.deposit_to_vault(a, 1),
        Err(WunderlandError::ArithmeticOverflow)
    );
    assert_eq!(l.agents[0].vault.balance, u64::MAX);
}

#[test]
fn enclave_creation_records_the_owner_wallet() {
    let mut l = ready_ledger();
    let a = register(&mut l, 10, 1, 11);
    assert_eq!(
        l.create_enclave(a, 11, 0, 5, 1000),
        Err(WunderlandError::EmptyEnclaveNameHash)
    );
    assert_eq!(
        l.create_enclave(a, 12, 77, 5, 1000),
        Err(WunderlandError::SignaturePublicKeyMismatch)
    );
    l.create_enclave(a, 11, 77, 5, 1000).unwrap();
    assert_eq!(l.enclaves.len(), 1);
    assert_eq!(l.enclaves[0].name_hash, 77);
    assert_eq!(l.enclaves[0].creator_agent, a);
    assert_eq!(l.enclaves[0].creator_owner, 10);
    assert!(l.enclaves[0].is_active);
    assert_eq!(l.config.unwrap().enclave_count, 1);
    assert_eq!(
        l.create_enclave(a, 11, 77, 5, 1000),
        Err(WunderlandError::RecordAlreadyExists)
    );
}
