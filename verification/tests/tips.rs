//! Tip pipeline: derived priority, rate limiting, settlement, refund and
//! timeout reclaim.

use wunderland_sol::errors::WunderlandError;
use wunderland_sol::ledger::Ledger;
use wunderland_sol::state::{AgentRef, TipAnchor, TipPriority, TipRef, TipStatus};

const AUTHORITY: u64 = 7;
const TIPPER: u64 = 60;
const ENCLAVE: u64 = 77;
const AMOUNT: u64 = 20_000_000;

fn name_bytes() -> [u8; 32] {
    let mut n = [0u8; 32];
    n[0] = b'a';
    n
}

fn ready_ledger() -> Ledger {
    let mut l = Ledger::new();
    l.initialize_config(AUTHORITY, true).unwrap();
    l.initialize_agent(10, 1, name_bytes(), [500u16; 6], 9, 11, 1000)
        .unwrap();
    let agent = AgentRef { owner: 10, agent_id: 1 };
    l.create_enclave(agent, 11, ENCLAVE, 5, 1000).unwrap();
    l
}

#[test]
fn priority_is_derived_from_the_amount() {
    assert_eq!(TipAnchor::derive_priority(15_000_000), TipPriority::Low);
    assert_eq!(TipAnchor::derive_priority(24_999_999), TipPriority::Low);
    assert_eq!(TipAnchor::derive_priority(25_000_000), TipPriority::Normal);
    assert_eq!(TipAnchor::derive_priority(34_999_999), TipPriority::Normal);
    assert_eq!(TipAnchor::derive_priority(35_000_000), TipPriority::High);
    assert_eq!(TipAnchor::derive_priority(44_999_999), TipPriority::High);
    assert_eq!(TipAnchor::derive_priority(45_000_000), TipPriority::Breaking);
    assert_eq!(TipAnchor::derive_priority(u64::MAX), TipPriority::Breaking);

    let mut l = ready_ledger();
    let amounts = [15_000_000u64, 25_000_000, 35_000_000, 45_000_000];
    let expect = [
        TipPriority::Low,
        TipPriority::Normal,
        TipPriority::High,
        TipPriority::Breaking,
    ];
    for (i, amount) in amounts.iter().enumerate() {
        // spread the submissions so no rate limit interferes
        let now = 100 + 3700 * i as i64;
        l.submit_tip(TIPPER, 500 + i as u64, *amount, 0, i as u64, None, now)
            .unwrap();
        assert_eq!(l.tips[i].anchor.priority, expect[i]);
        assert_eq!(l.tips[i].anchor.status, TipStatus::Pending);
        assert_eq!(l.tips[i].escrow.amount, *amount);
    }
}

#[test]
fn below_minimum_amounts_are_rejected_outright() {
    let mut l = ready_ledger();
    assert_eq!(
        l.submit_tip(TIPPER, 500, 14_999_999, 0, 1, None, 100),
        Err(WunderlandError::TipBelowMinimum)
    );
    assert_eq!(
        l.submit_tip(TIPPER, 500, 0, 0, 1, None, 100),
        Err(WunderlandError::TipBelowMinimum)
    );
    assert!(l.tips.is_empty());
    assert!(l.rate_limits.is_empty());
}

#[test]
fn fourth_tip_in_the_minute_window_is_refused() {
    let mut l = ready_ledger();
    for n in 0..3u64 {
        l.submit_tip(TIPPER, 500 + n, AMOUNT, 0, n, None, 100).unwrap();
    }
    assert_eq!(l.rate_limits.len(), 1);
    assert_eq!(l.rate_limits[0].tips_this_minute, 3);
    assert_eq!(
        l.submit_tip(TIPPER, 503, AMOUNT, 0, 3, None, 159),
        Err(WunderlandError::RateLimitMinuteExceeded)
    );
    assert_eq!(l.tips.len(), 3);
    // once the window has elapsed the counter resets and submission succeeds
    l.submit_tip(TIPPER, 503, AMOUNT, 0, 3, None, 160).unwrap();
    assert_eq!(l.tips.len(), 4);
    assert_eq!(l.rate_limits[0].tips_this_minute, 1);
}

#[test]
fn twenty_first_tip_in_the_hour_window_is_refused() {
    let mut l = ready_ledger();
    for n in 0..20u64 {
        // one per minute: the minute window never fills, the hour window does
        let now = 100 + 61 * n as i64;
        l.submit_tip(TIPPER, 500 + n, AMOUNT, 0, n, None, now).unwrap();
    }
    assert_eq!(l.rate_limits[0].tips_this_hour, 20);
    assert_eq!(
        l.submit_tip(TIPPER, 520, AMOUNT, 0, 20, None, 1400),
        Err(WunderlandError::RateLimitHourExceeded)
    );
    assert_eq!(l.tips.len(), 20);
    // the hour window opened at the first submission
    l.submit_tip(TIPPER, 520, AMOUNT, 0, 20, None, 3700).unwrap();
    assert_eq!(l.tips.len(), 21);
    assert_eq!(l.rate_limits[0].tips_this_hour, 1);
}

#[test]
fn rate_limits_are_per_tipper() {
    let mut l = ready_ledger();
    for n in 0..3u64 {
        l.submit_tip(TIPPER, 500 + n, AMOUNT, 0, n, None, 100).unwrap();
    }
    assert_eq!(
        l.submit_tip(TIPPER, 503, AMOUNT, 0, 3, None, 110),
        Err(WunderlandError::RateLimitMinuteExceeded)
    );
    // another wallet has its own windows
    l.submit_tip(61, 600, AMOUNT, 0, 0, None, 110).unwrap();
    assert_eq!(l.rate_limits.len(), 2);
}

#[test]
fn duplicate_tip_nonce_is_refused() {
    let mut l = ready_ledger();
    l.submit_tip(TIPPER, 500, AMOUNT, 0, 1, None, 100).unwrap();
    assert_eq!(
        l.submit_tip(TIPPER, 501, AMOUNT, 0, 1, None, 170),
        Err(WunderlandError::RecordAlreadyExists)
    );
    assert_eq!(l.tips.len(), 1);
}

#[test]
fn tip_source_type_comes_from_the_wire_byte() {
    let mut l = ready_ledger();
    l.submit_tip(TIPPER, 500, AMOUNT, 0, 1, None, 100).unwrap();
    l.submit_tip(TIPPER, 501, AMOUNT, 1, 2, None, 101).unwrap();
    assert_eq!(
        l.tips[0].anchor.source_type,
        wunderland_sol::state::TipSourceType::Text
    );
    assert_eq!(
        l.tips[1].anchor.source_type,
        wunderland_sol::state::TipSourceType::Url
    );
}

#[test]
fn unknown_target_enclave_is_refused() {
    let mut l = ready_ledger();
    assert_eq!(
        l.submit_tip(TIPPER, 500, AMOUNT, 0, 1, Some(88), 100),
        Err(WunderlandError::InvalidTargetEnclave)
    );
    assert!(l.tips.is_empty());
}

#[test]
fn settlement_collects_into_the_treasury_once() {
    let mut l = ready_ledger();
    l.submit_tip(TIPPER, 500, AMOUNT, 0, 1, None, 100).unwrap();
    let tip = TipRef { tipper: TIPPER, nonce: 1 };
    assert_eq!(
        l.settle_tip(tip, 99),
        Err(WunderlandError::UnauthorizedAuthority)
    );
    let s = l.settle_tip(tip, AUTHORITY).unwrap();
    assert_eq!(s.treasury_amount, AMOUNT);
    assert_eq!(s.enclave_owner, None);
    assert_eq!(s.enclave_amount, 0);
    assert_eq!(l.tips[0].anchor.status, TipStatus::Settled);
    assert_eq!(l.tips[0].escrow.amount, 0);
    assert_eq!(l.treasury.unwrap().total_collected, AMOUNT);
    // settling or refunding again fails and pays nothing twice
    assert_eq!(l.settle_tip(tip, AUTHORITY), Err(WunderlandError::TipNotPending));
    assert_eq!(l.refund_tip(tip, AUTHORITY), Err(WunderlandError::TipNotPending));
    assert_eq!(l.treasury.unwrap().total_collected, AMOUNT);
    assert_eq!(l.tips[0].escrow.amount, 0);
}

#[test]
fn enclave_targeted_settlement_splits_thirty_percent() {
    let mut l = ready_ledger();
    l.submit_tip(TIPPER, 500, 100_000_000, 0, 1, Some(ENCLAVE), 100)
        .unwrap();
    let tip = TipRef { tipper: TIPPER, nonce: 1 };
    let s = l.settle_tip(tip, AUTHORITY).unwrap();
    assert_eq!(s.enclave_owner, Some(10));
    assert_eq!(s.enclave_amount, 30_000_000);
    assert_eq!(s.treasury_amount, 70_000_000);
    assert_eq!(l.treasury.unwrap().total_collected, 70_000_000);

    // an amount that does not divide evenly rounds the share down
    l.submit_tip(TIPPER, 501, 15_000_001, 0, 2, Some(ENCLAVE), 200)
        .unwrap();
    let tip2 = TipRef { tipper: TIPPER, nonce: 2 };
    let s2 = l.settle_tip(tip2, AUTHORITY).unwrap();
    assert_eq!(s2.enclave_amount, 4_500_000);
    assert_eq!(s2.treasury_amount, 10_500_001);
    assert_eq!(s2.enclave_amount + s2.treasury_amount, 15_000_001);
}

#[test]
fn refund_returns_the_full_amount() {
    let mut l = ready_ledger();
    l.submit_tip(TIPPER, 500, AMOUNT, 0, 1, None, 100).unwrap();
    let tip = TipRef { tipper: TIPPER, nonce: 1 };
    assert_eq!(
        l.refund_tip(tip, 99),
        Err(WunderlandError::UnauthorizedAuthority)
    );
    assert_eq!(l.refund_tip(tip, AUTHORITY), Ok(AMOUNT));
    assert_eq!(l.tips[0].anchor.status, TipStatus::Refunded);
    assert_eq!(l.tips[0].escrow.amount, 0);
    assert_eq!(l.treasury.unwrap().total_collected, 0);
    assert_eq!(l.refund_tip(tip, AUTHORITY), Err(WunderlandError::TipNotPending));
}

#[test]
fn timeout_reclaim_waits_for_the_dwell_time() {
    let mut l = ready_ledger();
    l.submit_tip(TIPPER, 500, AMOUNT, 0, 1, None, 100).unwrap();
    let tip = TipRef { tipper: TIPPER, nonce: 1 };
    assert_eq!(
        l.claim_timeout_refund(tip, 99, 5000),
        Err(WunderlandError::UnauthorizedAuthority)
    );
    assert_eq!(
        l.claim_timeout_refund(tip, TIPPER, 1899),
        Err(WunderlandError::TipNotTimedOut)
    );
    assert_eq!(l.tips[0].anchor.status, TipStatus::Pending);
    // exactly 1800 seconds after creation the reclaim goes through
    assert_eq!(l.claim_timeout_refund(tip, TIPPER, 1900), Ok(AMOUNT));
    assert_eq!(l.tips[0].anchor.status, TipStatus::Refunded);
    assert_eq!(l.tips[0].escrow.amount, 0);
    assert_eq!(
        l.claim_timeout_refund(tip, TIPPER, 1901),
        Err(WunderlandError::TipNotPending)
    );
}

#[test]
fn resolving_an_unknown_tip_is_refused() {
    let mut l = ready_ledger();
    let tip = TipRef { tipper: TIPPER, nonce: 9 };
    assert_eq!(l.settle_tip(tip, AUTHORITY), Err(WunderlandError::RecordNotFound));
    assert_eq!(l.refund_tip(tip, AUTHORITY), Err(WunderlandError::RecordNotFound));
    assert_eq!(
        l.claim_timeout_refund(tip, TIPPER, 5000),
        Err(WunderlandError::RecordNotFound)
    );
}

#[test]
fn settlement_requires_an_initialized_config() {
    let mut l = Ledger::new();
    let tip = TipRef { tipper: TIPPER, nonce: 1 };
    assert_eq!(l.settle_tip(tip, AUTHORITY), Err(WunderlandError::RecordNotFound));
    assert_eq!(l.refund_tip(tip, AUTHORITY), Err(WunderlandError::RecordNotFound));
}

#[test]
fn settled_tips_cannot_be_reclaimed() {
    let mut l = ready_ledger();
    l.submit_tip(TIPPER, 500, AMOUNT, 0, 1, None, 100).unwrap();
    let tip = TipRef { tipper: TIPPER, nonce: 1 };
    l.settle_tip(tip, AUTHORITY).unwrap();
    assert_eq!(
        l.claim_timeout_refund(tip, TIPPER, 10_000),
        Err(WunderlandError::TipNotPending)
    );
}
