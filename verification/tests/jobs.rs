//! Job marketplace lifecycle and budget conservation.

use wunderland_sol::errors::WunderlandError;
use wunderland_sol::ledger::Ledger;
use wunderland_sol::state::{AgentRef, JobBidStatus, JobRef, JobStatus};

const AUTHORITY: u64 = 7;
const CREATOR: u64 = 50;
const BUDGET: u64 = 2_000_000;

fn name_bytes() -> [u8; 32] {
    let mut n = [0u8; 32];
    n[0] = b'a';
    n
}

fn ready_ledger() -> (Ledger, AgentRef, JobRef) {
    let mut l = Ledger::new();
    l.initialize_config(AUTHORITY, true).unwrap();
    l.initialize_agent(10, 1, name_bytes(), [500u16; 6], 9, 11, 1000)
        .unwrap();
    let agent = AgentRef { owner: 10, agent_id: 1 };
    l.create_job(CREATOR, 1, 5, BUDGET, 1000).unwrap();
    let job = JobRef { creator: CREATOR, nonce: 1 };
    (l, agent, job)
}

#[test]
fn create_job_escrows_the_full_budget() {
    let (l, _, _) = ready_ledger();
    assert_eq!(l.jobs.len(), 1);
    let row = &l.jobs[0];
    assert_eq!(row.posting.status, JobStatus::Open);
    assert_eq!(row.posting.budget_lamports, BUDGET);
    assert_eq!(row.escrow.amount, BUDGET);
    assert!(row.posting.assigned_agent.is_none());
    assert!(row.posting.accepted_bid.is_none());
    assert!(row.submission.is_none());
}

#[test]
fn create_job_validates_budget_and_metadata() {
    let mut l = Ledger::new();
    l.initialize_config(AUTHORITY, true).unwrap();
    assert_eq!(
        l.create_job(CREATOR, 1, 5, 0, 1000),
        Err(WunderlandError::InvalidAmount)
    );
    assert_eq!(
        l.create_job(CREATOR, 1, 0, BUDGET, 1000),
        Err(WunderlandError::InvalidAmount)
    );
    l.create_job(CREATOR, 1, 5, BUDGET, 1000).unwrap();
    assert_eq!(
        l.create_job(CREATOR, 1, 5, BUDGET, 1000),
        Err(WunderlandError::RecordAlreadyExists)
    );
    assert_eq!(l.jobs.len(), 1);
}

#[test]
fn full_lifecycle_pays_the_vault_exactly_once() {
    let (mut l, agent, job) = ready_ledger();
    l.submit_job_bid(job, agent, 11, 1100).unwrap();
    assert_eq!(l.bids[0].status, JobBidStatus::Active);

    l.accept_job_bid(job, agent, CREATOR, 1200).unwrap();
    assert_eq!(l.jobs[0].posting.status, JobStatus::Assigned);
    assert_eq!(l.jobs[0].posting.assigned_agent, Some(agent));
    assert_eq!(l.bids[0].status, JobBidStatus::Accepted);
    assert_eq!(l.jobs[0].escrow.amount, BUDGET);

    l.submit_job_submission(job, agent, 11, 1300).unwrap();
    assert_eq!(l.jobs[0].posting.status, JobStatus::Submitted);
    let sub = l.jobs[0].submission.unwrap();
    assert_eq!(sub.agent, agent);
    assert_eq!(l.jobs[0].escrow.amount, BUDGET);

    l.approve_job_submission(job, CREATOR, 1400).unwrap();
    assert_eq!(l.jobs[0].posting.status, JobStatus::Completed);
    assert_eq!(l.jobs[0].escrow.amount, 0);
    assert_eq!(l.agents[0].vault.balance, BUDGET);

    // the payout point cannot be reached a second time
    assert_eq!(
        l.approve_job_submission(job, CREATOR, 1500),
        Err(WunderlandError::JobNotSubmitted)
    );
    assert_eq!(l.agents[0].vault.balance, BUDGET);
    assert_eq!(l.jobs[0].escrow.amount, 0);
}

#[test]
fn escrow_tracks_status_through_every_step() {
    let (mut l, agent, job) = ready_ledger();
    let synced = |l: &Ledger| {
        let row = &l.jobs[0];
        if row.posting.status == JobStatus::Completed {
            row.escrow.amount == 0
        } else {
            row.escrow.amount == row.posting.budget_lamports
        }
    };
    assert!(synced(&l));
    l.submit_job_bid(job, agent, 11, 1100).unwrap();
    assert!(synced(&l));
    l.accept_job_bid(job, agent, CREATOR, 1200).unwrap();
    assert!(synced(&l));
    l.submit_job_submission(job, agent, 11, 1300).unwrap();
    assert!(synced(&l));
    l.approve_job_submission(job, CREATOR, 1400).unwrap();
    assert!(synced(&l));
}

#[test]
fn bids_only_on_open_jobs_and_once_per_bidder() {
    let (mut l, agent, job) = ready_ledger();
    let missing = JobRef { creator: CREATOR, nonce: 9 };
    assert_eq!(
        l.submit_job_bid(missing, agent, 11, 1100),
        Err(WunderlandError::RecordNotFound)
    );
    l.submit_job_bid(job, agent, 11, 1100).unwrap();
    assert_eq!(
        l.submit_job_bid(job, agent, 11, 1101),
        Err(WunderlandError::RecordAlreadyExists)
    );
    l.accept_job_bid(job, agent, CREATOR, 1200).unwrap();
    // once assigned, the job accepts no further bids
    l.initialize_agent(20, 2, name_bytes(), [500u16; 6], 9, 21, 1000)
        .unwrap();
    let other = AgentRef { owner: 20, agent_id: 2 };
    assert_eq!(
        l.submit_job_bid(job, other, 21, 1201),
        Err(WunderlandError::JobNotOpen)
    );
}

#[test]
fn accept_is_creator_only_and_open_only() {
    let (mut l, agent, job) = ready_ledger();
    l.submit_job_bid(job, agent, 11, 1100).unwrap();
    assert_eq!(
        l.accept_job_bid(job, agent, 99, 1200),
        Err(WunderlandError::UnauthorizedJobCreator)
    );
    let no_bid = AgentRef { owner: 20, agent_id: 2 };
    assert_eq!(
        l.accept_job_bid(job, no_bid, CREATOR, 1200),
        Err(WunderlandError::RecordNotFound)
    );
    l.accept_job_bid(job, agent, CREATOR, 1200).unwrap();
    // a second acceptance is stopped by the open-only guard
    assert_eq!(
        l.accept_job_bid(job, agent, CREATOR, 1201),
        Err(WunderlandError::JobNotOpen)
    );
}

#[test]
fn submission_requires_the_assigned_agent() {
    let (mut l, agent, job) = ready_ledger();
    l.submit_job_bid(job, agent, 11, 1100).unwrap();
    assert_eq!(
        l.submit_job_submission(job, agent, 11, 1150),
        Err(WunderlandError::JobNotAssigned)
    );
    l.accept_job_bid(job, agent, CREATOR, 1200).unwrap();
    l.initialize_agent(20, 2, name_bytes(), [500u16; 6], 9, 21, 1000)
        .unwrap();
    let other = AgentRef { owner: 20, agent_id: 2 };
    assert_eq!(
        l.submit_job_submission(job, other, 21, 1300),
        Err(WunderlandError::UnauthorizedJobAgent)
    );
    l.submit_job_submission(job, agent, 11, 1300).unwrap();
    assert_eq!(
        l.submit_job_submission(job, agent, 11, 1301),
        Err(WunderlandError::JobNotAssigned)
    );
}

#[test]
fn approval_is_creator_only_and_submitted_only() {
    let (mut l, agent, job) = ready_ledger();
    l.submit_job_bid(job, agent, 11, 1100).unwrap();
    l.accept_job_bid(job, agent, CREATOR, 1200).unwrap();
    assert_eq!(
        l.approve_job_submission(job, CREATOR, 1250),
        Err(WunderlandError::JobNotSubmitted)
    );
    l.submit_job_submission(job, agent, 11, 1300).unwrap();
    assert_eq!(
        l.approve_job_submission(job, 99, 1400),
        Err(WunderlandError::UnauthorizedJobCreator)
    );
    l.approve_job_submission(job, CREATOR, 1400).unwrap();
    assert_eq!(l.agents[0].vault.balance, BUDGET);
}
