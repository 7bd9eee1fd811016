//! Job marketplace state machine: post, bid, assign, submit, approve and pay
//! out, with the escrow bound one-to-one to the job.
//!
//! Statuses move strictly forward: `Open` to `Assigned` to `Submitted` to
//! `Completed`. The escrow holds exactly the budget until the single payout,
//! which zeroes it in the same transition that completes the job.

use vstd::prelude::*;

use crate::errors::WunderlandError;
use crate::ledger::{
    agent_idx, bid_idx, has_agent, has_bid, has_job, job_idx, lemma_agent_idx, lemma_bid_idx,
    lemma_job_idx, lemma_sum_job_escrows_push, lemma_sum_job_escrows_update,
    lemma_sum_vaults_update, lemma_uniq_agents_update, lemma_uniq_bids_push,
    lemma_uniq_bids_update, lemma_uniq_jobs_push, lemma_uniq_jobs_update, same_entry_tables,
    same_tip_tables, sum_job_escrows, sum_vaults, unchanged, Ledger,
};
use crate::state::{
    bid_key, job_key, AgentRef, AgentRow, AgentVault, BidRef, Digest, JobBid, JobBidStatus,
    JobEscrow, JobPosting, JobRef, JobRow, JobStatus, JobSubmission, Pubkey,
};

verus! {

/// The job row written by a successful `create_job`.
pub open spec fn new_job_row(
    creator: Pubkey,
    job_nonce: u64,
    metadata_hash: Digest,
    budget_lamports: u64,
    now: i64,
) -> JobRow {
    JobRow {
        posting: JobPosting {
            creator,
            job_nonce,
            metadata_hash,
            budget_lamports,
            status: JobStatus::Open,
            assigned_agent: None,
            accepted_bid: None,
            created_at: now,
            updated_at: now,
        },
        escrow: JobEscrow { job: JobRef { creator, nonce: job_nonce }, amount: budget_lamports },
        submission: None,
    }
}

/// The job row after its bid from `bidder` is accepted.
pub open spec fn job_assigned(row: JobRow, bidder: AgentRef, now: i64) -> JobRow {
    JobRow {
        posting: JobPosting {
            status: JobStatus::Assigned,
            assigned_agent: Some(bidder),
            accepted_bid: Some(BidRef { job: job_key(row), bidder }),
            updated_at: now,
            ..row.posting
        },
        ..row
    }
}

/// The job row after its assigned agent submits work.
pub open spec fn job_submitted(row: JobRow, agent: AgentRef, now: i64) -> JobRow {
    JobRow {
        posting: JobPosting { status: JobStatus::Submitted, updated_at: now, ..row.posting },
        submission: Some(JobSubmission { job: job_key(row), agent, submitted_at: now }),
        ..row
    }
}

/// The job row after the single payout: escrow zeroed, job completed.
pub open spec fn job_completed(row: JobRow, now: i64) -> JobRow {
    JobRow {
        posting: JobPosting { status: JobStatus::Completed, updated_at: now, ..row.posting },
        escrow: JobEscrow { amount: 0u64, ..row.escrow },
        ..row
    }
}

/// The verdict of `create_job`, checks in call order.
pub open spec fn create_job_err(
    l: Ledger,
    creator: Pubkey,
    job_nonce: u64,
    metadata_hash: Digest,
    budget_lamports: u64,
) -> Option<WunderlandError> {
    if budget_lamports == 0 {
        Some(WunderlandError::InvalidAmount)
    } else if metadata_hash == 0 {
        Some(WunderlandError::InvalidAmount)
    } else if has_job(l.jobs@, JobRef { creator, nonce: job_nonce }) {
        Some(WunderlandError::RecordAlreadyExists)
    } else {
        None
    }
}

/// The verdict of `submit_job_bid`, checks in call order.
pub open spec fn submit_job_bid_err(
    l: Ledger,
    job: JobRef,
    bidder: AgentRef,
    signer: Pubkey,
) -> Option<WunderlandError> {
    if !has_job(l.jobs@, job) {
        Some(WunderlandError::RecordNotFound)
    } else if !(l.jobs@[job_idx(l.jobs@, job)].posting.status is Open) {
        Some(WunderlandError::JobNotOpen)
    } else if !has_agent(l.agents@, bidder) {
        Some(WunderlandError::RecordNotFound)
    } else if !l.agents@[agent_idx(l.agents@, bidder)].identity.is_active {
        Some(WunderlandError::AgentInactive)
    } else if signer != l.agents@[agent_idx(l.agents@, bidder)].identity.agent_signer {
        Some(WunderlandError::SignaturePublicKeyMismatch)
    } else if has_bid(l.bids@, BidRef { job, bidder }) {
        Some(WunderlandError::RecordAlreadyExists)
    } else {
        None
    }
}

/// The verdict of `accept_job_bid`, checks in call order.
pub open spec fn accept_job_bid_err(
    l: Ledger,
    job: JobRef,
    bidder: AgentRef,
    caller: Pubkey,
) -> Option<WunderlandError> {
    if !has_job(l.jobs@, job) {
        Some(WunderlandError::RecordNotFound)
    } else if caller != l.jobs@[job_idx(l.jobs@, job)].posting.creator {
        Some(WunderlandError::UnauthorizedJobCreator)
    } else if !(l.jobs@[job_idx(l.jobs@, job)].posting.status is Open) {
        Some(WunderlandError::JobNotOpen)
    } else if !has_bid(l.bids@, BidRef { job, bidder }) {
        Some(WunderlandError::RecordNotFound)
    } else if !(l.bids@[bid_idx(l.bids@, BidRef { job, bidder })].status is Active) {
        Some(WunderlandError::BidNotActive)
    } else {
        None
    }
}

/// The verdict of `submit_job_submission`, checks in call order.
pub open spec fn submit_job_submission_err(
    l: Ledger,
    job: JobRef,
    agent: AgentRef,
    signer: Pubkey,
) -> Option<WunderlandError> {
    if !has_job(l.jobs@, job) {
        Some(WunderlandError::RecordNotFound)
    } else if !(l.jobs@[job_idx(l.jobs@, job)].posting.status is Assigned) {
        Some(WunderlandError::JobNotAssigned)
    } else if l.jobs@[job_idx(l.jobs@, job)].posting.assigned_agent != Some(agent) {
        Some(WunderlandError::UnauthorizedJobAgent)
    } else if !has_agent(l.agents@, agent) {
        Some(WunderlandError::RecordNotFound)
    } else if !l.agents@[agent_idx(l.agents@, agent)].identity.is_active {
        Some(WunderlandError::AgentInactive)
    } else if signer != l.agents@[agent_idx(l.agents@, agent)].identity.agent_signer {
        Some(WunderlandError::SignaturePublicKeyMismatch)
    } else {
        None
    }
}

/// The verdict of `approve_job_submission`, checks in call order.
pub open spec fn approve_job_submission_err(l: Ledger, job: JobRef, caller: Pubkey) -> Option<
    WunderlandError,
> {
    if !has_job(l.jobs@, job) {
        Some(WunderlandError::RecordNotFound)
    } else if caller != l.jobs@[job_idx(l.jobs@, job)].posting.creator {
        Some(WunderlandError::UnauthorizedJobCreator)
    } else if !(l.jobs@[job_idx(l.jobs@, job)].posting.status is Submitted) {
        Some(WunderlandError::JobNotSubmitted)
    } else if l.jobs@[job_idx(l.jobs@, job)].escrow.amount == 0 {
        Some(WunderlandError::InvalidAmount)
    } else if l.jobs@[job_idx(l.jobs@, job)].submission->0.agent != l.jobs@[job_idx(
        l.jobs@,
        job,
    )].posting.assigned_agent->0 {
        Some(WunderlandError::UnauthorizedJobAgent)
    } else if !has_agent(l.agents@, l.jobs@[job_idx(l.jobs@, job)].posting.assigned_agent->0) {
        Some(WunderlandError::InvalidAgentVault)
    } else if l.agents@[agent_idx(
        l.agents@,
        l.jobs@[job_idx(l.jobs@, job)].posting.assigned_agent->0,
    )].vault.balance + l.jobs@[job_idx(l.jobs@, job)].escrow.amount > u64::MAX {
        Some(WunderlandError::ArithmeticOverflow)
    } else {
        None
    }
}

impl Ledger {
    /// Post a new job: the hosting runtime moves the budget from the creator
    /// into the escrow, and the ledger records the open job holding it.
    pub fn create_job(
        &mut self,
        creator: Pubkey,
        job_nonce: u64,
        metadata_hash: Digest,
        budget_lamports: u64,
        now: i64,
    ) -> (r: Result<(), WunderlandError>)
        requires
            old(self).wf(),
        ensures
            final(self).wf(),
            match create_job_err(*old(self), creator, job_nonce, metadata_hash, budget_lamports) {
                Some(e) => r == Err::<(), WunderlandError>(e) && unchanged(*old(self), *final(self)),
                None => {
                    &&& r is Ok
                    &&& final(self).jobs@ == old(self).jobs@.push(
                        new_job_row(creator, job_nonce, metadata_hash, budget_lamports, now),
                    )
                    &&& sum_job_escrows(final(self).jobs@) == sum_job_escrows(old(self).jobs@)
                        + budget_lamports
                    &&& final(self).bids@ == old(self).bids@
                    &&& final(self).config == old(self).config
                    &&& final(self).treasury == old(self).treasury
                    &&& final(self).agents@ == old(self).agents@
                    &&& final(self).enclaves@ == old(self).enclaves@
                    &&& same_entry_tables(*old(self), *final(self))
                    &&& same_tip_tables(*old(self), *final(self))
                },
            },
    {
        if budget_lamports == 0 {
            return Err(WunderlandError::InvalidAmount);
        }
        if metadata_hash == 0 {
            return Err(WunderlandError::InvalidAmount);
        }
        let key = JobRef { creator, nonce: job_nonce };
        if self.find_job(key).is_some() {
            return Err(WunderlandError::RecordAlreadyExists);
        }
        let row = JobRow {
            posting: JobPosting {
                creator,
                job_nonce,
                metadata_hash,
                budget_lamports,
                status: JobStatus::Open,
                assigned_agent: None,
                accepted_bid: None,
                created_at: now,
                updated_at: now,
            },
            escrow: JobEscrow { job: key, amount: budget_lamports },
            submission: None,
        };
        proof {
            lemma_uniq_jobs_push(self.jobs@, row);
            lemma_sum_job_escrows_push(self.jobs@, row);
        }
        self.jobs.push(row);
        proof {
            let jobs0 = old(self).jobs@;
            let jobs1 = self.jobs@;
            assert forall|i: int|
                0 <= i < self.bids@.len() && (#[trigger] self.bids@[i]).status
                    is Accepted implies {
                &&& has_job(jobs1, self.bids@[i].job)
                &&& !(jobs1[job_idx(jobs1, self.bids@[i].job)].posting.status is Open)
                &&& jobs1[job_idx(jobs1, self.bids@[i].job)].posting.accepted_bid == Some(
                    bid_key(self.bids@[i]),
                )
            } by {
                let b = self.bids@[i];
                assert(old(self).bids@[i] == b);
                let ji0 = job_idx(jobs0, b.job);
                assert(0 <= ji0 < jobs0.len() && job_key(jobs0[ji0]) == b.job);
                assert(jobs1[ji0] == jobs0[ji0]);
                lemma_job_idx(jobs1, b.job, ji0);
            }
        }
        Ok(())
    }

    /// Bid on an open job; one bid per (job, bidder) pair.
    pub fn submit_job_bid(&mut self, job: JobRef, bidder: AgentRef, signer: Pubkey, now: i64) -> (r:
        Result<(), WunderlandError>)
        requires
            old(self).wf(),
        ensures
            final(self).wf(),
            match submit_job_bid_err(*old(self), job, bidder, signer) {
                Some(e) => r == Err::<(), WunderlandError>(e) && unchanged(*old(self), *final(self)),
                None => {
                    &&& r is Ok
                    &&& final(self).bids@ == old(self).bids@.push(
                        JobBid {
                            job,
                            bidder_agent: bidder,
                            status: JobBidStatus::Active,
                            created_at: now,
                        },
                    )
                    &&& final(self).jobs@ == old(self).jobs@
                    &&& final(self).config == old(self).config
                    &&& final(self).treasury == old(self).treasury
                    &&& final(self).agents@ == old(self).agents@
                    &&& final(self).enclaves@ == old(self).enclaves@
                    &&& same_entry_tables(*old(self), *final(self))
                    &&& same_tip_tables(*old(self), *final(self))
                },
            },
    {
        let ji = match self.find_job(job) {
            Some(i) => i,
            None => {
                return Err(WunderlandError::RecordNotFound);
            },
        };
        proof {
            lemma_job_idx(self.jobs@, job, ji as int);
        }
        if !matches!(self.jobs[ji].posting.status, JobStatus::Open) {
            return Err(WunderlandError::JobNotOpen);
        }
        let ai = match self.find_agent(bidder) {
            Some(i) => i,
            None => {
                return Err(WunderlandError::RecordNotFound);
            },
        };
        proof {
            lemma_agent_idx(self.agents@, bidder, ai as int);
        }
        let arow = self.agents[ai];
        if !arow.identity.is_active {
            return Err(WunderlandError::AgentInactive);
        }
        if signer != arow.identity.agent_signer {
            return Err(WunderlandError::SignaturePublicKeyMismatch);
        }
        if self.find_bid(BidRef { job, bidder }).is_some() {
            return Err(WunderlandError::RecordAlreadyExists);
        }
        let bid = JobBid { job, bidder_agent: bidder, status: JobBidStatus::Active, created_at: now };
        proof {
            lemma_uniq_bids_push(self.bids@, bid);
        }
        self.bids.push(bid);
        proof {
            let bids0 = old(self).bids@;
            let bids1 = self.bids@;
            assert forall|i: int|
                0 <= i < bids1.len() && (#[trigger] bids1[i]).status is Accepted implies {
                &&& has_job(self.jobs@, bids1[i].job)
                &&& !(self.jobs@[job_idx(self.jobs@, bids1[i].job)].posting.status is Open)
                &&& self.jobs@[job_idx(self.jobs@, bids1[i].job)].posting.accepted_bid == Some(
                    bid_key(bids1[i]),
                )
            } by {
                // the pushed bid is active, so an accepted one sat there before
                assert(i < bids0.len());
                assert(bids0[i] == bids1[i]);
            }
        }
        Ok(())
    }

    /// Accept an active bid for an open job: the job becomes assigned to the
    /// bidder and records the accepted bid; the bid becomes accepted. The
    /// open-only guard is what makes at most one bid ever reach accepted.
    pub fn accept_job_bid(&mut self, job: JobRef, bidder: AgentRef, caller: Pubkey, now: i64) -> (r:
        Result<(), WunderlandError>)
        requires
            old(self).wf(),
        ensures
            final(self).wf(),
            match accept_job_bid_err(*old(self), job, bidder, caller) {
                Some(e) => r == Err::<(), WunderlandError>(e) && unchanged(*old(self), *final(self)),
                None => {
                    &&& r is Ok
                    &&& final(self).jobs@ == old(self).jobs@.update(
                        job_idx(old(self).jobs@, job),
                        job_assigned(old(self).jobs@[job_idx(old(self).jobs@, job)], bidder, now),
                    )
                    &&& final(self).bids@ == old(self).bids@.update(
                        bid_idx(old(self).bids@, BidRef { job, bidder }),
                        (JobBid {
                            status: JobBidStatus::Accepted,
                            ..old(self).bids@[bid_idx(old(self).bids@, BidRef { job, bidder })]
                        }),
                    )
                    &&& final(self).config == old(self).config
                    &&& final(self).treasury == old(self).treasury
                    &&& final(self).agents@ == old(self).agents@
                    &&& final(self).enclaves@ == old(self).enclaves@
                    &&& same_entry_tables(*old(self), *final(self))
                    &&& same_tip_tables(*old(self), *final(self))
                },
            },
    {
        let ji = match self.find_job(job) {
            Some(i) => i,
            None => {
                return Err(WunderlandError::RecordNotFound);
            },
        };
        proof {
            lemma_job_idx(self.jobs@, job, ji as int);
        }
        let jrow = self.jobs[ji];
        if caller != jrow.posting.creator {
            return Err(WunderlandError::UnauthorizedJobCreator);
        }
        if !matches!(jrow.posting.status, JobStatus::Open) {
            return Err(WunderlandError::JobNotOpen);
        }
        let bi = match self.find_bid(BidRef { job, bidder }) {
            Some(i) => i,
            None => {
                return Err(WunderlandError::RecordNotFound);
            },
        };
        proof {
            lemma_bid_idx(self.bids@, BidRef { job, bidder }, bi as int);
        }
        let brow = self.bids[bi];
        if !matches!(brow.status, JobBidStatus::Active) {
            return Err(WunderlandError::BidNotActive);
        }
        let new_job = JobRow {
            posting: JobPosting {
                status: JobStatus::Assigned,
                assigned_agent: Some(bidder),
                accepted_bid: Some(BidRef { job, bidder }),
                updated_at: now,
                ..jrow.posting
            },
            ..jrow
        };
        let new_bid = JobBid { status: JobBidStatus::Accepted, ..brow };
        proof {
            lemma_uniq_jobs_update(self.jobs@, ji as int, new_job);
            lemma_uniq_bids_update(self.bids@, bi as int, new_bid);
        }
        self.jobs[ji] = new_job;
        self.bids[bi] = new_bid;
        proof {
            let jobs0 = old(self).jobs@;
            let bids0 = old(self).bids@;
            let jobs1 = self.jobs@;
            let bids1 = self.bids@;
            assert forall|i: int|
                0 <= i < bids1.len() && (#[trigger] bids1[i]).status is Accepted implies {
                &&& has_job(jobs1, bids1[i].job)
                &&& !(jobs1[job_idx(jobs1, bids1[i].job)].posting.status is Open)
                &&& jobs1[job_idx(jobs1, bids1[i].job)].posting.accepted_bid == Some(
                    bid_key(bids1[i]),
                )
            } by {
                if i == bi {
                    assert(bids1[i] == new_bid);
                    assert(job_key(jobs1[ji as int]) == job);
                    lemma_job_idx(jobs1, job, ji as int);
                } else {
                    let b = bids1[i];
                    assert(bids0[i] == b);
                    let ji0 = job_idx(jobs0, b.job);
                    assert(0 <= ji0 < jobs0.len() && job_key(jobs0[ji0]) == b.job);
                    // the accepted bid's job had already left the open status,
                    // so it is not the job assigned here
                    if b.job == job {
                        lemma_job_idx(jobs0, job, ji as int);
                        assert(false);
                    }
                    assert(ji0 != ji as int);
                    assert(jobs1[ji0] == jobs0[ji0]);
                    lemma_job_idx(jobs1, b.job, ji0);
                }
            }
        }
        Ok(())
    }

    /// Record the assigned agent's completed work: the job moves from
    /// assigned to submitted and carries its single submission.
    pub fn submit_job_submission(
        &mut self,
        job: JobRef,
        agent: AgentRef,
        signer: Pubkey,
        now: i64,
    ) -> (r: Result<(), WunderlandError>)
        requires
            old(self).wf(),
        ensures
            final(self).wf(),
            match submit_job_submission_err(*old(self), job, agent, signer) {
                Some(e) => r == Err::<(), WunderlandError>(e) && unchanged(*old(self), *final(self)),
                None => {
                    &&& r is Ok
                    &&& final(self).jobs@ == old(self).jobs@.update(
                        job_idx(old(self).jobs@, job),
                        job_submitted(old(self).jobs@[job_idx(old(self).jobs@, job)], agent, now),
                    )
                    &&& final(self).bids@ == old(self).bids@
                    &&& final(self).config == old(self).config
                    &&& final(self).treasury == old(self).treasury
                    &&& final(self).agents@ == old(self).agents@
                    &&& final(self).enclaves@ == old(self).enclaves@
                    &&& same_entry_tables(*old(self), *final(self))
                    &&& same_tip_tables(*old(self), *final(self))
                },
            },
    {
        let ji = match self.find_job(job) {
            Some(i) => i,
            None => {
                return Err(WunderlandError::RecordNotFound);
            },
        };
        proof {
            lemma_job_idx(self.jobs@, job, ji as int);
        }
        let jrow = self.jobs[ji];
        if !matches!(jrow.posting.status, JobStatus::Assigned) {
            return Err(WunderlandError::JobNotAssigned);
        }
        let assigned_ok = match jrow.posting.assigned_agent {
            Some(a) => a == agent,
            None => false,
        };
        if !assigned_ok {
            return Err(WunderlandError::UnauthorizedJobAgent);
        }
        let ai = match self.find_agent(agent) {
            Some(i) => i,
            None => {
                return Err(WunderlandError::RecordNotFound);
            },
        };
        proof {
            lemma_agent_idx(self.agents@, agent, ai as int);
        }
        let arow = self.agents[ai];
        if !arow.identity.is_active {
            return Err(WunderlandError::AgentInactive);
        }
        if signer != arow.identity.agent_signer {
            return Err(WunderlandError::SignaturePublicKeyMismatch);
        }
        let new_job = JobRow {
            posting: JobPosting { status: JobStatus::Submitted, updated_at: now, ..jrow.posting },
            submission: Some(
                JobSubmission {
                    job: JobRef { creator: jrow.posting.creator, nonce: jrow.posting.job_nonce },
                    agent,
                    submitted_at: now,
                },
            ),
            ..jrow
        };
        proof {
            lemma_uniq_jobs_update(self.jobs@, ji as int, new_job);
        }
        self.jobs[ji] = new_job;
        proof {
            let jobs0 = old(self).jobs@;
            let jobs1 = self.jobs@;
            assert forall|i: int|
                0 <= i < self.bids@.len() && (#[trigger] self.bids@[i]).status
                    is Accepted implies {
                &&& has_job(jobs1, self.bids@[i].job)
                &&& !(jobs1[job_idx(jobs1, self.bids@[i].job)].posting.status is Open)
                &&& jobs1[job_idx(jobs1, self.bids@[i].job)].posting.accepted_bid == Some(
                    bid_key(self.bids@[i]),
                )
            } by {
                let b = self.bids@[i];
                assert(old(self).bids@[i] == b);
                let ji0 = job_idx(jobs0, b.job);
                assert(0 <= ji0 < jobs0.len() && job_key(jobs0[ji0]) == b.job);
                assert(job_key(jobs1[ji0]) == b.job);
                lemma_job_idx(jobs1, b.job, ji0);
            }
        }
        Ok(())
    }

    /// Approve the submission and release the escrowed budget into the
    /// assigned agent's vault: the single payout point, atomic with the move
    /// to completed.
    pub fn approve_job_submission(&mut self, job: JobRef, caller: Pubkey, now: i64) -> (r: Result<
        (),
        WunderlandError,
    >)
        requires
            old(self).wf(),
        ensures
            final(self).wf(),
            match approve_job_submission_err(*old(self), job, caller) {
                Some(e) => r == Err::<(), WunderlandError>(e) && unchanged(*old(self), *final(self)),
                None => {
                    &&& r is Ok
                    &&& final(self).jobs@ == old(self).jobs@.update(
                        job_idx(old(self).jobs@, job),
                        job_completed(old(self).jobs@[job_idx(old(self).jobs@, job)], now),
                    )
                    &&& final(self).agents@ == old(self).agents@.update(
                        agent_idx(
                            old(self).agents@,
                            old(self).jobs@[job_idx(old(self).jobs@, job)].posting.assigned_agent->0,
                        ),
                        (AgentRow {
                            vault: AgentVault {
                                balance: (old(self).agents@[agent_idx(
                                    old(self).agents@,
                                    old(self).jobs@[job_idx(
                                        old(self).jobs@,
                                        job,
                                    )].posting.assigned_agent->0,
                                )].vault.balance + old(self).jobs@[job_idx(
                                    old(self).jobs@,
                                    job,
                                )].escrow.amount) as u64,
                                ..old(self).agents@[agent_idx(
                                    old(self).agents@,
                                    old(self).jobs@[job_idx(
                                        old(self).jobs@,
                                        job,
                                    )].posting.assigned_agent->0,
                                )].vault
                            },
                            ..old(self).agents@[agent_idx(
                                old(self).agents@,
                                old(self).jobs@[job_idx(
                                    old(self).jobs@,
                                    job,
                                )].posting.assigned_agent->0,
                            )]
                        }),
                    )
                    &&& sum_vaults(final(self).agents@) + sum_job_escrows(final(self).jobs@)
                        == sum_vaults(old(self).agents@) + sum_job_escrows(old(self).jobs@)
                    &&& final(self).bids@ == old(self).bids@
                    &&& final(self).config == old(self).config
                    &&& final(self).treasury == old(self).treasury
                    &&& final(self).enclaves@ == old(self).enclaves@
                    &&& same_entry_tables(*old(self), *final(self))
                    &&& same_tip_tables(*old(self), *final(self))
                },
            },
    {
        let ji = match self.find_job(job) {
            Some(i) => i,
            None => {
                return Err(WunderlandError::RecordNotFound);
            },
        };
        proof {
            lemma_job_idx(self.jobs@, job, ji as int);
        }
        let jrow = self.jobs[ji];
        if caller != jrow.posting.creator {
            return Err(WunderlandError::UnauthorizedJobCreator);
        }
        if !matches!(jrow.posting.status, JobStatus::Submitted) {
            return Err(WunderlandError::JobNotSubmitted);
        }
        let amount = jrow.escrow.amount;
        if amount == 0 {
            return Err(WunderlandError::InvalidAmount);
        }
        let (submission_agent, assigned) = match (jrow.submission, jrow.posting.assigned_agent) {
            (Some(s), Some(a)) => (s.agent, a),
            _ => {
                return Err(WunderlandError::UnauthorizedJobAgent);
            },
        };
        if submission_agent != assigned {
            return Err(WunderlandError::UnauthorizedJobAgent);
        }
        let ai = match self.find_agent(assigned) {
            Some(i) => i,
            None => {
                return Err(WunderlandError::InvalidAgentVault);
            },
        };
        proof {
            lemma_agent_idx(self.agents@, assigned, ai as int);
        }
        let arow = self.agents[ai];
        let balance = match arow.vault.balance.checked_add(amount) {
            Some(v) => v,
            None => {
                return Err(WunderlandError::ArithmeticOverflow);
            },
        };
        let new_job = JobRow {
            posting: JobPosting { status: JobStatus::Completed, updated_at: now, ..jrow.posting },
            escrow: JobEscrow { amount: 0, ..jrow.escrow },
            ..jrow
        };
        let new_agent = AgentRow { vault: AgentVault { balance, ..arow.vault }, ..arow };
        proof {
            lemma_uniq_jobs_update(self.jobs@, ji as int, new_job);
            lemma_uniq_agents_update(self.agents@, ai as int, new_agent);
            lemma_sum_job_escrows_update(self.jobs@, ji as int, new_job);
            lemma_sum_vaults_update(self.agents@, ai as int, new_agent);
        }
        self.jobs[ji] = new_job;
        self.agents[ai] = new_agent;
        proof {
            let jobs0 = old(self).jobs@;
            let jobs1 = self.jobs@;
            assert forall|i: int|
                0 <= i < self.bids@.len() && (#[trigger] self.bids@[i]).status
                    is Accepted implies {
                &&& has_job(jobs1, self.bids@[i].job)
                &&& !(jobs1[job_idx(jobs1, self.bids@[i].job)].posting.status is Open)
                &&& jobs1[job_idx(jobs1, self.bids@[i].job)].posting.accepted_bid == Some(
                    bid_key(self.bids@[i]),
                )
            } by {
                let b = self.bids@[i];
                assert(old(self).bids@[i] == b);
                let ji0 = job_idx(jobs0, b.job);
                assert(0 <= ji0 < jobs0.len() && job_key(jobs0[ji0]) == b.job);
                assert(job_key(jobs1[ji0]) == b.job);
                lemma_job_idx(jobs1, b.job, ji0);
            }
        }
        Ok(())
    }
}

/// Exactly-one acceptance: two accepted bids on the same job are the same
/// bid, since the job records the single bid it accepted while open.
pub proof fn lemma_one_accepted_bid_per_job(l: Ledger, i: int, j: int)
    requires
        l.wf(),
        0 <= i < l.bids@.len(),
        0 <= j < l.bids@.len(),
        l.bids@[i].status is Accepted,
        l.bids@[j].status is Accepted,
        l.bids@[i].job == l.bids@[j].job,
    ensures
        i == j,
{
    let k = l.bids@[i].job;
    let ji = job_idx(l.jobs@, k);
    assert(l.jobs@[ji].posting.accepted_bid == Some(bid_key(l.bids@[i])));
    assert(l.jobs@[ji].posting.accepted_bid == Some(bid_key(l.bids@[j])));
}

/// Budget conservation: in any well-formed ledger a job's escrow holds the
/// full positive budget until the job is completed, and exactly zero once it
/// is — there is no state with a drained escrow and an uncompleted job, nor
/// a completed job with funds left behind.
pub proof fn lemma_job_budget_conservation(l: Ledger, i: int)
    requires
        l.wf(),
        0 <= i < l.jobs@.len(),
    ensures
        l.jobs@[i].posting.budget_lamports > 0,
        l.jobs@[i].posting.status is Completed ==> l.jobs@[i].escrow.amount == 0,
        !(l.jobs@[i].posting.status is Completed) ==> l.jobs@[i].escrow.amount == l.jobs@[i].posting.budget_lamports,
{
}

} // verus!
