//! The ledger: one content-addressed table per record kind, each keyed by the
//! record's natural key, plus the two singleton records.
//!
//! Each table is a vector of rows; a row's key is a function of the row
//! itself, and well-formedness keeps keys unique, so a key addresses at most
//! one record. Lookups scan for the key; insertions first check that the key
//! is absent, which is what makes duplicate creation fail.

use vstd::prelude::*;

use crate::state::{
    agent_key, agent_row_wf, bid_key, enclave_wf, job_key, job_row_wf, post_key, post_wf,
    rate_limit_wf, tip_key, tip_row_wf, vote_key, vote_wf, AgentRef, AgentRow, BidRef, Digest,
    Enclave, GlobalTreasury, JobBid, JobRef, JobRow, PostAnchor, PostRef, ProgramConfig, Pubkey,
    ReputationVote, TipRef, TipRow, TipperRateLimit,
};

verus! {

/// The whole persisted state, against which every operation is a single
/// all-or-nothing transition.
pub struct Ledger {
    /// Singleton configuration; absent until initialization.
    pub config: Option<ProgramConfig>,
    /// Singleton fee sink; created together with the configuration.
    pub treasury: Option<GlobalTreasury>,
    /// Agent identities with their vaults, keyed by (owner, agent id).
    pub agents: Vec<AgentRow>,
    /// Enclaves, keyed by name hash.
    pub enclaves: Vec<Enclave>,
    /// Entries, keyed by (agent, entry index).
    pub posts: Vec<PostAnchor>,
    /// Reputation votes, keyed by (entry, voter).
    pub votes: Vec<ReputationVote>,
    /// Job postings with escrow and submission, keyed by (creator, nonce).
    pub jobs: Vec<JobRow>,
    /// Job bids, keyed by (job, bidder).
    pub bids: Vec<JobBid>,
    /// Tips with escrow, keyed by (tipper, nonce).
    pub tips: Vec<TipRow>,
    /// Per-wallet tip rate limits, keyed by tipper.
    pub rate_limits: Vec<TipperRateLimit>,
}

// ============================================================================
// Key lookup, one set per table
// ============================================================================

pub open spec fn has_agent(s: Seq<AgentRow>, k: AgentRef) -> bool {
    exists|i: int| 0 <= i < s.len() && agent_key(s[i]) == k
}

pub open spec fn agent_idx(s: Seq<AgentRow>, k: AgentRef) -> int {
    choose|i: int| 0 <= i < s.len() && agent_key(s[i]) == k
}

pub open spec fn uniq_agents(s: Seq<AgentRow>) -> bool {
    forall|i: int, j: int|
        0 <= i < s.len() && 0 <= j < s.len() && i != j ==> #[trigger] agent_key(s[i])
            != #[trigger] agent_key(s[j])
}

pub open spec fn has_enclave(s: Seq<Enclave>, h: Digest) -> bool {
    exists|i: int| 0 <= i < s.len() && s[i].name_hash == h
}

pub open spec fn enclave_idx(s: Seq<Enclave>, h: Digest) -> int {
    choose|i: int| 0 <= i < s.len() && s[i].name_hash == h
}

pub open spec fn uniq_enclaves(s: Seq<Enclave>) -> bool {
    forall|i: int, j: int|
        0 <= i < s.len() && 0 <= j < s.len() && i != j ==> (#[trigger] s[i].name_hash)
            != (#[trigger] s[j].name_hash)
}

pub open spec fn has_post(s: Seq<PostAnchor>, k: PostRef) -> bool {
    exists|i: int| 0 <= i < s.len() && post_key(s[i]) == k
}

pub open spec fn post_idx(s: Seq<PostAnchor>, k: PostRef) -> int {
    choose|i: int| 0 <= i < s.len() && post_key(s[i]) == k
}

pub open spec fn uniq_posts(s: Seq<PostAnchor>) -> bool {
    forall|i: int, j: int|
        0 <= i < s.len() && 0 <= j < s.len() && i != j ==> #[trigger] post_key(s[i])
            != #[trigger] post_key(s[j])
}

pub open spec fn has_vote(s: Seq<ReputationVote>, k: (PostRef, AgentRef)) -> bool {
    exists|i: int| 0 <= i < s.len() && vote_key(s[i]) == k
}

pub open spec fn uniq_votes(s: Seq<ReputationVote>) -> bool {
    forall|i: int, j: int|
        0 <= i < s.len() && 0 <= j < s.len() && i != j ==> #[trigger] vote_key(s[i])
            != #[trigger] vote_key(s[j])
}

pub open spec fn has_job(s: Seq<JobRow>, k: JobRef) -> bool {
    exists|i: int| 0 <= i < s.len() && job_key(s[i]) == k
}

pub open spec fn job_idx(s: Seq<JobRow>, k: JobRef) -> int {
    choose|i: int| 0 <= i < s.len() && job_key(s[i]) == k
}

pub open spec fn uniq_jobs(s: Seq<JobRow>) -> bool {
    forall|i: int, j: int|
        0 <= i < s.len() && 0 <= j < s.len() && i != j ==> #[trigger] job_key(s[i])
            != #[trigger] job_key(s[j])
}

pub open spec fn has_bid(s: Seq<JobBid>, k: BidRef) -> bool {
    exists|i: int| 0 <= i < s.len() && bid_key(s[i]) == k
}

pub open spec fn bid_idx(s: Seq<JobBid>, k: BidRef) -> int {
    choose|i: int| 0 <= i < s.len() && bid_key(s[i]) == k
}

pub open spec fn uniq_bids(s: Seq<JobBid>) -> bool {
    forall|i: int, j: int|
        0 <= i < s.len() && 0 <= j < s.len() && i != j ==> #[trigger] bid_key(s[i])
            != #[trigger] bid_key(s[j])
}

pub open spec fn has_tip(s: Seq<TipRow>, k: TipRef) -> bool {
    exists|i: int| 0 <= i < s.len() && tip_key(s[i]) == k
}

pub open spec fn tip_idx(s: Seq<TipRow>, k: TipRef) -> int {
    choose|i: int| 0 <= i < s.len() && tip_key(s[i]) == k
}

pub open spec fn uniq_tips(s: Seq<TipRow>) -> bool {
    forall|i: int, j: int|
        0 <= i < s.len() && 0 <= j < s.len() && i != j ==> #[trigger] tip_key(s[i])
            != #[trigger] tip_key(s[j])
}

pub open spec fn has_rate_limit(s: Seq<TipperRateLimit>, tipper: Pubkey) -> bool {
    exists|i: int| 0 <= i < s.len() && s[i].tipper == tipper
}

pub open spec fn rate_limit_idx(s: Seq<TipperRateLimit>, tipper: Pubkey) -> int {
    choose|i: int| 0 <= i < s.len() && s[i].tipper == tipper
}

pub open spec fn uniq_rate_limits(s: Seq<TipperRateLimit>) -> bool {
    forall|i: int, j: int|
        0 <= i < s.len() && 0 <= j < s.len() && i != j ==> (#[trigger] s[i].tipper)
            != (#[trigger] s[j].tipper)
}

// ============================================================================
// Well-formedness
// ============================================================================

/// Every accepted bid is the one bid its job records as accepted, and that
/// job has left the open status. Together with key uniqueness this is what
/// lets at most one bid per job ever reach the accepted status.
pub open spec fn accepted_bids_linked(jobs: Seq<JobRow>, bids: Seq<JobBid>) -> bool {
    forall|i: int|
        0 <= i < bids.len() && (#[trigger] bids[i]).status is Accepted ==> {
            &&& has_job(jobs, bids[i].job)
            &&& !(jobs[job_idx(jobs, bids[i].job)].posting.status is Open)
            &&& jobs[job_idx(jobs, bids[i].job)].posting.accepted_bid == Some(bid_key(bids[i]))
        }
}

impl Ledger {
    /// Well-formedness: the singletons exist together, every table's keys
    /// are unique, every row satisfies its record invariant, and accepted
    /// bids stay linked to the job that accepted them. The job and tip
    /// budget-conservation invariants live in the per-row predicates.
    pub open spec fn wf(self) -> bool {
        &&& self.config is Some <==> self.treasury is Some
        &&& match (self.config, self.treasury) {
            (Some(c), Some(t)) => t.authority == c.authority,
            _ => true,
        }
        &&& uniq_agents(self.agents@)
        &&& forall|i: int| 0 <= i < self.agents@.len() ==> agent_row_wf(#[trigger] self.agents@[i])
        &&& uniq_enclaves(self.enclaves@)
        &&& forall|i: int| 0 <= i < self.enclaves@.len() ==> enclave_wf(#[trigger] self.enclaves@[i])
        &&& uniq_posts(self.posts@)
        &&& forall|i: int| 0 <= i < self.posts@.len() ==> post_wf(#[trigger] self.posts@[i])
        &&& uniq_votes(self.votes@)
        &&& forall|i: int| 0 <= i < self.votes@.len() ==> vote_wf(#[trigger] self.votes@[i])
        &&& uniq_jobs(self.jobs@)
        &&& forall|i: int| 0 <= i < self.jobs@.len() ==> job_row_wf(#[trigger] self.jobs@[i])
        &&& uniq_bids(self.bids@)
        &&& accepted_bids_linked(self.jobs@, self.bids@)
        &&& uniq_tips(self.tips@)
        &&& forall|i: int| 0 <= i < self.tips@.len() ==> tip_row_wf(#[trigger] self.tips@[i])
        &&& uniq_rate_limits(self.rate_limits@)
        &&& forall|i: int|
            0 <= i < self.rate_limits@.len() ==> rate_limit_wf(#[trigger] self.rate_limits@[i])
    }

    /// A ledger with nothing in it, as it stands before initialization.
    pub fn new() -> (l: Ledger)
        ensures
            l.wf(),
            l.config is None,
            l.treasury is None,
            l.agents@ =~= Seq::<AgentRow>::empty(),
            l.enclaves@ =~= Seq::<Enclave>::empty(),
            l.posts@ =~= Seq::<PostAnchor>::empty(),
            l.votes@ =~= Seq::<ReputationVote>::empty(),
            l.jobs@ =~= Seq::<JobRow>::empty(),
            l.bids@ =~= Seq::<JobBid>::empty(),
            l.tips@ =~= Seq::<TipRow>::empty(),
            l.rate_limits@ =~= Seq::<TipperRateLimit>::empty(),
    {
        Ledger {
            config: None,
            treasury: None,
            agents: Vec::new(),
            enclaves: Vec::new(),
            posts: Vec::new(),
            votes: Vec::new(),
            jobs: Vec::new(),
            bids: Vec::new(),
            tips: Vec::new(),
            rate_limits: Vec::new(),
        }
    }
}

// ============================================================================
// Frame helpers: which tables an operation leaves untouched
// ============================================================================

/// The entry tables are unchanged.
pub open spec fn same_entry_tables(pre: Ledger, post: Ledger) -> bool {
    post.posts@ == pre.posts@ && post.votes@ == pre.votes@
}

/// The job tables are unchanged.
pub open spec fn same_job_tables(pre: Ledger, post: Ledger) -> bool {
    post.jobs@ == pre.jobs@ && post.bids@ == pre.bids@
}

/// The tip tables are unchanged.
pub open spec fn same_tip_tables(pre: Ledger, post: Ledger) -> bool {
    post.tips@ == pre.tips@ && post.rate_limits@ == pre.rate_limits@
}

/// The registry (singletons, agents, enclaves) is unchanged.
pub open spec fn same_registry_tables(pre: Ledger, post: Ledger) -> bool {
    &&& post.config == pre.config
    &&& post.treasury == pre.treasury
    &&& post.agents@ == pre.agents@
    &&& post.enclaves@ == pre.enclaves@
}

/// No table changed at all.
pub open spec fn unchanged(pre: Ledger, post: Ledger) -> bool {
    &&& same_registry_tables(pre, post)
    &&& same_entry_tables(pre, post)
    &&& same_job_tables(pre, post)
    &&& same_tip_tables(pre, post)
}

// ============================================================================
// Index lemmas: with unique keys, the key's index is the found one
// ============================================================================

pub proof fn lemma_agent_idx(s: Seq<AgentRow>, k: AgentRef, i: int)
    requires
        uniq_agents(s),
        0 <= i < s.len(),
        agent_key(s[i]) == k,
    ensures
        has_agent(s, k),
        agent_idx(s, k) == i,
{
    assert(has_agent(s, k));
    let j = agent_idx(s, k);
    assert(0 <= j < s.len() && agent_key(s[j]) == k);
}

pub proof fn lemma_enclave_idx(s: Seq<Enclave>, h: Digest, i: int)
    requires
        uniq_enclaves(s),
        0 <= i < s.len(),
        s[i].name_hash == h,
    ensures
        has_enclave(s, h),
        enclave_idx(s, h) == i,
{
    assert(has_enclave(s, h));
    let j = enclave_idx(s, h);
    assert(0 <= j < s.len() && s[j].name_hash == h);
}

pub proof fn lemma_post_idx(s: Seq<PostAnchor>, k: PostRef, i: int)
    requires
        uniq_posts(s),
        0 <= i < s.len(),
        post_key(s[i]) == k,
    ensures
        has_post(s, k),
        post_idx(s, k) == i,
{
    assert(has_post(s, k));
    let j = post_idx(s, k);
    assert(0 <= j < s.len() && post_key(s[j]) == k);
}

pub proof fn lemma_job_idx(s: Seq<JobRow>, k: JobRef, i: int)
    requires
        uniq_jobs(s),
        0 <= i < s.len(),
        job_key(s[i]) == k,
    ensures
        has_job(s, k),
        job_idx(s, k) == i,
{
    assert(has_job(s, k));
    let j = job_idx(s, k);
    assert(0 <= j < s.len() && job_key(s[j]) == k);
}

pub proof fn lemma_bid_idx(s: Seq<JobBid>, k: BidRef, i: int)
    requires
        uniq_bids(s),
        0 <= i < s.len(),
        bid_key(s[i]) == k,
    ensures
        has_bid(s, k),
        bid_idx(s, k) == i,
{
    assert(has_bid(s, k));
    let j = bid_idx(s, k);
    assert(0 <= j < s.len() && bid_key(s[j]) == k);
}

pub proof fn lemma_tip_idx(s: Seq<TipRow>, k: TipRef, i: int)
    requires
        uniq_tips(s),
        0 <= i < s.len(),
        tip_key(s[i]) == k,
    ensures
        has_tip(s, k),
        tip_idx(s, k) == i,
{
    assert(has_tip(s, k));
    let j = tip_idx(s, k);
    assert(0 <= j < s.len() && tip_key(s[j]) == k);
}

pub proof fn lemma_rate_limit_idx(s: Seq<TipperRateLimit>, tipper: Pubkey, i: int)
    requires
        uniq_rate_limits(s),
        0 <= i < s.len(),
        s[i].tipper == tipper,
    ensures
        has_rate_limit(s, tipper),
        rate_limit_idx(s, tipper) == i,
{
    assert(has_rate_limit(s, tipper));
    let j = rate_limit_idx(s, tipper);
    assert(0 <= j < s.len() && s[j].tipper == tipper);
}

// ============================================================================
// Custodial totals: what the tables hold in value units
// ============================================================================

/// Total value held in agent vaults.
pub open spec fn sum_vaults(s: Seq<AgentRow>) -> int
    decreases s.len(),
{
    if s.len() == 0 {
        0
    } else {
        sum_vaults(s.drop_last()) + s.last().vault.balance
    }
}

/// Total value held in job escrows.
pub open spec fn sum_job_escrows(s: Seq<JobRow>) -> int
    decreases s.len(),
{
    if s.len() == 0 {
        0
    } else {
        sum_job_escrows(s.drop_last()) + s.last().escrow.amount
    }
}

/// Total value held in tip escrows.
pub open spec fn sum_tip_escrows(s: Seq<TipRow>) -> int
    decreases s.len(),
{
    if s.len() == 0 {
        0
    } else {
        sum_tip_escrows(s.drop_last()) + s.last().escrow.amount
    }
}

pub proof fn lemma_sum_vaults_push(s: Seq<AgentRow>, row: AgentRow)
    ensures
        sum_vaults(s.push(row)) == sum_vaults(s) + row.vault.balance,
{
    assert(s.push(row).drop_last() =~= s);
}

pub proof fn lemma_sum_vaults_update(s: Seq<AgentRow>, i: int, row: AgentRow)
    requires
        0 <= i < s.len(),
    ensures
        sum_vaults(s.update(i, row)) == sum_vaults(s) - s[i].vault.balance + row.vault.balance,
    decreases s.len(),
{
    if i == s.len() - 1 {
        assert(s.update(i, row).drop_last() =~= s.drop_last());
        assert(s.update(i, row).last() == row);
    } else {
        lemma_sum_vaults_update(s.drop_last(), i, row);
        assert(s.update(i, row).drop_last() =~= s.drop_last().update(i, row));
        assert(s.update(i, row).last() == s.last());
    }
}

pub proof fn lemma_sum_job_escrows_push(s: Seq<JobRow>, row: JobRow)
    ensures
        sum_job_escrows(s.push(row)) == sum_job_escrows(s) + row.escrow.amount,
{
    assert(s.push(row).drop_last() =~= s);
}

pub proof fn lemma_sum_job_escrows_update(s: Seq<JobRow>, i: int, row: JobRow)
    requires
        0 <= i < s.len(),
    ensures
        sum_job_escrows(s.update(i, row)) == sum_job_escrows(s) - s[i].escrow.amount
            + row.escrow.amount,
    decreases s.len(),
{
    if i == s.len() - 1 {
        assert(s.update(i, row).drop_last() =~= s.drop_last());
        assert(s.update(i, row).last() == row);
    } else {
        lemma_sum_job_escrows_update(s.drop_last(), i, row);
        assert(s.update(i, row).drop_last() =~= s.drop_last().update(i, row));
        assert(s.update(i, row).last() == s.last());
    }
}

pub proof fn lemma_sum_tip_escrows_push(s: Seq<TipRow>, row: TipRow)
    ensures
        sum_tip_escrows(s.push(row)) == sum_tip_escrows(s) + row.escrow.amount,
{
    assert(s.push(row).drop_last() =~= s);
}

pub proof fn lemma_sum_tip_escrows_update(s: Seq<TipRow>, i: int, row: TipRow)
    requires
        0 <= i < s.len(),
    ensures
        sum_tip_escrows(s.update(i, row)) == sum_tip_escrows(s) - s[i].escrow.amount
            + row.escrow.amount,
    decreases s.len(),
{
    if i == s.len() - 1 {
        assert(s.update(i, row).drop_last() =~= s.drop_last());
        assert(s.update(i, row).last() == row);
    } else {
        lemma_sum_tip_escrows_update(s.drop_last(), i, row);
        assert(s.update(i, row).drop_last() =~= s.drop_last().update(i, row));
        assert(s.update(i, row).last() == s.last());
    }
}

// ============================================================================
// Insertion and update keep keys unique
// ============================================================================

pub proof fn lemma_uniq_agents_push(s: Seq<AgentRow>, row: AgentRow)
    requires
        uniq_agents(s),
        !has_agent(s, agent_key(row)),
    ensures
        uniq_agents(s.push(row)),
{
    let t = s.push(row);
    assert forall|i: int, j: int|
        0 <= i < t.len() && 0 <= j < t.len() && i != j implies agent_key(t[i])
        != agent_key(t[j]) by {
        if i == s.len() {
            assert(t[i] == row && t[j] == s[j]);
        } else if j == s.len() {
            assert(t[j] == row && t[i] == s[i]);
        } else {
            assert(t[i] == s[i] && t[j] == s[j]);
        }
    }
}

pub proof fn lemma_uniq_agents_update(s: Seq<AgentRow>, i: int, row: AgentRow)
    requires
        uniq_agents(s),
        0 <= i < s.len(),
        agent_key(row) == agent_key(s[i]),
    ensures
        uniq_agents(s.update(i, row)),
{
    let t = s.update(i, row);
    assert forall|p: int, q: int|
        0 <= p < t.len() && 0 <= q < t.len() && p != q implies agent_key(t[p])
        != agent_key(t[q]) by {
        assert(agent_key(t[p]) == agent_key(s[p]));
        assert(agent_key(t[q]) == agent_key(s[q]));
    }
}

pub proof fn lemma_uniq_enclaves_push(s: Seq<Enclave>, row: Enclave)
    requires
        uniq_enclaves(s),
        !has_enclave(s, row.name_hash),
    ensures
        uniq_enclaves(s.push(row)),
{
    let t = s.push(row);
    assert forall|i: int, j: int|
        0 <= i < t.len() && 0 <= j < t.len() && i != j implies t[i].name_hash
        != t[j].name_hash by {
        if i == s.len() {
            assert(t[i] == row && t[j] == s[j]);
        } else if j == s.len() {
            assert(t[j] == row && t[i] == s[i]);
        } else {
            assert(t[i] == s[i] && t[j] == s[j]);
        }
    }
}

pub proof fn lemma_uniq_posts_push(s: Seq<PostAnchor>, row: PostAnchor)
    requires
        uniq_posts(s),
        !has_post(s, post_key(row)),
    ensures
        uniq_posts(s.push(row)),
{
    let t = s.push(row);
    assert forall|i: int, j: int|
        0 <= i < t.len() && 0 <= j < t.len() && i != j implies post_key(t[i])
        != post_key(t[j]) by {
        if i == s.len() {
            assert(t[i] == row && t[j] == s[j]);
        } else if j == s.len() {
            assert(t[j] == row && t[i] == s[i]);
        } else {
            assert(t[i] == s[i] && t[j] == s[j]);
        }
    }
}

pub proof fn lemma_uniq_posts_update(s: Seq<PostAnchor>, i: int, row: PostAnchor)
    requires
        uniq_posts(s),
        0 <= i < s.len(),
        post_key(row) == post_key(s[i]),
    ensures
        uniq_posts(s.update(i, row)),
{
    let t = s.update(i, row);
    assert forall|p: int, q: int|
        0 <= p < t.len() && 0 <= q < t.len() && p != q implies post_key(t[p])
        != post_key(t[q]) by {
        assert(post_key(t[p]) == post_key(s[p]));
        assert(post_key(t[q]) == post_key(s[q]));
    }
}

pub proof fn lemma_uniq_votes_push(s: Seq<ReputationVote>, row: ReputationVote)
    requires
        uniq_votes(s),
        !has_vote(s, vote_key(row)),
    ensures
        uniq_votes(s.push(row)),
{
    let t = s.push(row);
    assert forall|i: int, j: int|
        0 <= i < t.len() && 0 <= j < t.len() && i != j implies vote_key(t[i])
        != vote_key(t[j]) by {
        if i == s.len() {
            assert(t[i] == row && t[j] == s[j]);
        } else if j == s.len() {
            assert(t[j] == row && t[i] == s[i]);
        } else {
            assert(t[i] == s[i] && t[j] == s[j]);
        }
    }
}

pub proof fn lemma_uniq_jobs_push(s: Seq<JobRow>, row: JobRow)
    requires
        uniq_jobs(s),
        !has_job(s, job_key(row)),
    ensures
        uniq_jobs(s.push(row)),
{
    let t = s.push(row);
    assert forall|i: int, j: int|
        0 <= i < t.len() && 0 <= j < t.len() && i != j implies job_key(t[i]) != job_key(t[j]) by {
        if i == s.len() {
            assert(t[i] == row && t[j] == s[j]);
        } else if j == s.len() {
            assert(t[j] == row && t[i] == s[i]);
        } else {
            assert(t[i] == s[i] && t[j] == s[j]);
        }
    }
}

pub proof fn lemma_uniq_jobs_update(s: Seq<JobRow>, i: int, row: JobRow)
    requires
        uniq_jobs(s),
        0 <= i < s.len(),
        job_key(row) == job_key(s[i]),
    ensures
        uniq_jobs(s.update(i, row)),
{
    let t = s.update(i, row);
    assert forall|p: int, q: int|
        0 <= p < t.len() && 0 <= q < t.len() && p != q implies job_key(t[p]) != job_key(t[q]) by {
        assert(job_key(t[p]) == job_key(s[p]));
        assert(job_key(t[q]) == job_key(s[q]));
    }
}

pub proof fn lemma_uniq_bids_push(s: Seq<JobBid>, row: JobBid)
    requires
        uniq_bids(s),
        !has_bid(s, bid_key(row)),
    ensures
        uniq_bids(s.push(row)),
{
    let t = s.push(row);
    assert forall|i: int, j: int|
        0 <= i < t.len() && 0 <= j < t.len() && i != j implies bid_key(t[i]) != bid_key(t[j]) by {
        if i == s.len() {
            assert(t[i] == row && t[j] == s[j]);
        } else if j == s.len() {
            assert(t[j] == row && t[i] == s[i]);
        } else {
            assert(t[i] == s[i] && t[j] == s[j]);
        }
    }
}

pub proof fn lemma_uniq_bids_update(s: Seq<JobBid>, i: int, row: JobBid)
    requires
        uniq_bids(s),
        0 <= i < s.len(),
        bid_key(row) == bid_key(s[i]),
    ensures
        uniq_bids(s.update(i, row)),
{
    let t = s.update(i, row);
    assert forall|p: int, q: int|
        0 <= p < t.len() && 0 <= q < t.len() && p != q implies bid_key(t[p]) != bid_key(t[q]) by {
        assert(bid_key(t[p]) == bid_key(s[p]));
        assert(bid_key(t[q]) == bid_key(s[q]));
    }
}

pub proof fn lemma_uniq_tips_push(s: Seq<TipRow>, row: TipRow)
    requires
        uniq_tips(s),
        !has_tip(s, tip_key(row)),
    ensures
        uniq_tips(s.push(row)),
{
    let t = s.push(row);
    assert forall|i: int, j: int|
        0 <= i < t.len() && 0 <= j < t.len() && i != j implies tip_key(t[i]) != tip_key(t[j]) by {
        if i == s.len() {
            assert(t[i] == row && t[j] == s[j]);
        } else if j == s.len() {
            assert(t[j] == row && t[i] == s[i]);
        } else {
            assert(t[i] == s[i] && t[j] == s[j]);
        }
    }
}

pub proof fn lemma_uniq_tips_update(s: Seq<TipRow>, i: int, row: TipRow)
    requires
        uniq_tips(s),
        0 <= i < s.len(),
        tip_key(row) == tip_key(s[i]),
    ensures
        uniq_tips(s.update(i, row)),
{
    let t = s.update(i, row);
    assert forall|p: int, q: int|
        0 <= p < t.len() && 0 <= q < t.len() && p != q implies tip_key(t[p]) != tip_key(t[q]) by {
        assert(tip_key(t[p]) == tip_key(s[p]));
        assert(tip_key(t[q]) == tip_key(s[q]));
    }
}

pub proof fn lemma_uniq_rate_limits_push(s: Seq<TipperRateLimit>, row: TipperRateLimit)
    requires
        uniq_rate_limits(s),
        !has_rate_limit(s, row.tipper),
    ensures
        uniq_rate_limits(s.push(row)),
{
    let t = s.push(row);
    assert forall|i: int, j: int|
        0 <= i < t.len() && 0 <= j < t.len() && i != j implies t[i].tipper != t[j].tipper by {
        if i == s.len() {
            assert(t[i] == row && t[j] == s[j]);
        } else if j == s.len() {
            assert(t[j] == row && t[i] == s[i]);
        } else {
            assert(t[i] == s[i] && t[j] == s[j]);
        }
    }
}

pub proof fn lemma_uniq_rate_limits_update(s: Seq<TipperRateLimit>, i: int, row: TipperRateLimit)
    requires
        uniq_rate_limits(s),
        0 <= i < s.len(),
        row.tipper == s[i].tipper,
    ensures
        uniq_rate_limits(s.update(i, row)),
{
    let t = s.update(i, row);
    assert forall|p: int, q: int|
        0 <= p < t.len() && 0 <= q < t.len() && p != q implies t[p].tipper != t[q].tipper by {
        assert(t[p].tipper == s[p].tipper);
        assert(t[q].tipper == s[q].tipper);
    }
}

// ============================================================================
// Lookups
// ============================================================================

impl Ledger {
    /// Find the table index of the agent with key `k`.
    pub fn find_agent(&self, k: AgentRef) -> (r: Option<usize>)
        ensures
            match r {
                Some(i) => i < self.agents@.len() && agent_key(self.agents@[i as int]) == k,
                None => !has_agent(self.agents@, k),
            },
    {
        let n = self.agents.len();
        let mut i: usize = 0;
        while i < n
            invariant
                n == self.agents@.len(),
                i <= n,
                forall|j: int| 0 <= j < i ==> agent_key(#[trigger] self.agents@[j]) != k,
            decreases n - i,
        {
            if self.agents[i].identity.owner == k.owner && self.agents[i].identity.agent_id
                == k.agent_id {
                return Some(i);
            }
            i += 1;
        }
        None
    }

    /// Find the table index of the enclave with name hash `h`.
    pub fn find_enclave(&self, h: Digest) -> (r: Option<usize>)
        ensures
            match r {
                Some(i) => i < self.enclaves@.len() && self.enclaves@[i as int].name_hash == h,
                None => !has_enclave(self.enclaves@, h),
            },
    {
        let n = self.enclaves.len();
        let mut i: usize = 0;
        while i < n
            invariant
                n == self.enclaves@.len(),
                i <= n,
                forall|j: int| 0 <= j < i ==> (#[trigger] self.enclaves@[j]).name_hash != h,
            decreases n - i,
        {
            if self.enclaves[i].name_hash == h {
                return Some(i);
            }
            i += 1;
        }
        None
    }

    /// Find the table index of the entry with key `k`.
    pub fn find_post(&self, k: PostRef) -> (r: Option<usize>)
        ensures
            match r {
                Some(i) => i < self.posts@.len() && post_key(self.posts@[i as int]) == k,
                None => !has_post(self.posts@, k),
            },
    {
        let n = self.posts.len();
        let mut i: usize = 0;
        while i < n
            invariant
                n == self.posts@.len(),
                i <= n,
                forall|j: int| 0 <= j < i ==> post_key(#[trigger] self.posts@[j]) != k,
            decreases n - i,
        {
            if self.posts[i].agent == k.agent && self.posts[i].post_index == k.index {
                return Some(i);
            }
            i += 1;
        }
        None
    }

    /// Find the table index of the vote by `voter` on `post`.
    pub fn find_vote(&self, post: PostRef, voter: AgentRef) -> (r: Option<usize>)
        ensures
            match r {
                Some(i) => i < self.votes@.len() && vote_key(self.votes@[i as int]) == (
                post,
                voter,
                ),
                None => !has_vote(self.votes@, (post, voter)),
            },
    {
        let n = self.votes.len();
        let mut i: usize = 0;
        while i < n
            invariant
                n == self.votes@.len(),
                i <= n,
                forall|j: int| 0 <= j < i ==> vote_key(#[trigger] self.votes@[j]) != (post, voter),
            decreases n - i,
        {
            if self.votes[i].post == post && self.votes[i].voter_agent == voter {
                return Some(i);
            }
            i += 1;
        }
        None
    }

    /// Find the table index of the job with key `k`.
    pub fn find_job(&self, k: JobRef) -> (r: Option<usize>)
        ensures
            match r {
                Some(i) => i < self.jobs@.len() && job_key(self.jobs@[i as int]) == k,
                None => !has_job(self.jobs@, k),
            },
    {
        let n = self.jobs.len();
        let mut i: usize = 0;
        while i < n
            invariant
                n == self.jobs@.len(),
                i <= n,
                forall|j: int| 0 <= j < i ==> job_key(#[trigger] self.jobs@[j]) != k,
            decreases n - i,
        {
            if self.jobs[i].posting.creator == k.creator && self.jobs[i].posting.job_nonce
                == k.nonce {
                return Some(i);
            }
            i += 1;
        }
        None
    }

    /// Find the table index of the bid with key `k`.
    pub fn find_bid(&self, k: BidRef) -> (r: Option<usize>)
        ensures
            match r {
                Some(i) => i < self.bids@.len() && bid_key(self.bids@[i as int]) == k,
                None => !has_bid(self.bids@, k),
            },
    {
        let n = self.bids.len();
        let mut i: usize = 0;
        while i < n
            invariant
                n == self.bids@.len(),
                i <= n,
                forall|j: int| 0 <= j < i ==> bid_key(#[trigger] self.bids@[j]) != k,
            decreases n - i,
        {
            if self.bids[i].job == k.job && self.bids[i].bidder_agent == k.bidder {
                return Some(i);
            }
            i += 1;
        }
        None
    }

    /// Find the table index of the tip with key `k`.
    pub fn find_tip(&self, k: TipRef) -> (r: Option<usize>)
        ensures
            match r {
                Some(i) => i < self.tips@.len() && tip_key(self.tips@[i as int]) == k,
                None => !has_tip(self.tips@, k),
            },
    {
        let n = self.tips.len();
        let mut i: usize = 0;
        while i < n
            invariant
                n == self.tips@.len(),
                i <= n,
                forall|j: int| 0 <= j < i ==> tip_key(#[trigger] self.tips@[j]) != k,
            decreases n - i,
        {
            if self.tips[i].anchor.tipper == k.tipper && self.tips[i].anchor.tip_nonce == k.nonce {
                return Some(i);
            }
            i += 1;
        }
        None
    }

    /// Find the table index of the rate-limit record for `tipper`.
    pub fn find_rate_limit(&self, tipper: Pubkey) -> (r: Option<usize>)
        ensures
            match r {
                Some(i) => i < self.rate_limits@.len() && self.rate_limits@[i as int].tipper
                    == tipper,
                None => !has_rate_limit(self.rate_limits@, tipper),
            },
    {
        let n = self.rate_limits.len();
        let mut i: usize = 0;
        while i < n
            invariant
                n == self.rate_limits@.len(),
                i <= n,
                forall|j: int| 0 <= j < i ==> (#[trigger] self.rate_limits@[j]).tipper != tipper,
            decreases n - i,
        {
            if self.rate_limits[i].tipper == tipper {
                return Some(i);
            }
            i += 1;
        }
        None
    }
}

} // verus!
