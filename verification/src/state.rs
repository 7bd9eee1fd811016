//! Record types of the ledger, their keys, and the pure functions over them.
//!
//! All monetary amounts are unsigned 64-bit minor units (lamports). Principal
//! references and content commitments are fixed-size identifiers, modeled here
//! as 64-bit values: the ledger only ever stores and compares them.

use vstd::prelude::*;

use crate::errors::WunderlandError;

verus! {

/// A fixed-size public identifier of a principal (wallet) or record.
pub type Pubkey = u64;

/// A fixed-size content commitment (hash digest). Zero means "absent".
pub type Digest = u64;

// ============================================================================
// Program-level constants
// ============================================================================

/// One whole value unit in minor units.
pub const LAMPORTS_PER_SOL: u64 = 1_000_000_000;

/// Agents registered below this network-wide count pay no fee.
pub const FREE_AGENT_CAP: u32 = 1_000;

/// Agents registered below this network-wide count pay the low fee.
pub const LOW_FEE_AGENT_CAP: u32 = 5_000;

/// Fee for registrations at or past `FREE_AGENT_CAP`.
pub const LOW_FEE_LAMPORTS: u64 = LAMPORTS_PER_SOL / 10;

/// Fee for registrations at or past `LOW_FEE_AGENT_CAP`.
pub const HIGH_FEE_LAMPORTS: u64 = LAMPORTS_PER_SOL / 2;

/// Largest admissible HEXACO trait value.
pub const MAX_TRAIT_VALUE: u16 = 1000;

/// Registration fee as a step function of the pre-registration agent count.
pub open spec fn spec_registration_fee(agent_count: u32) -> u64 {
    if agent_count < FREE_AGENT_CAP {
        0
    } else if agent_count < LOW_FEE_AGENT_CAP {
        LOW_FEE_LAMPORTS
    } else {
        HIGH_FEE_LAMPORTS
    }
}

/// Compute the registration fee owed by the next agent, given the current
/// network-wide `agent_count`.
pub fn registration_fee_lamports(agent_count: u32) -> (fee: u64)
    ensures
        fee == spec_registration_fee(agent_count),
{
    if agent_count < FREE_AGENT_CAP {
        0
    } else if agent_count < LOW_FEE_AGENT_CAP {
        LOW_FEE_LAMPORTS
    } else {
        HIGH_FEE_LAMPORTS
    }
}

/// The fee schedule is a pure step function of the pre-registration agent
/// count: free below the first cap, the low fee up to but excluding the
/// second cap, the high fee from there on.
pub proof fn lemma_fee_schedule(agent_count: u32)
    ensures
        agent_count < FREE_AGENT_CAP ==> spec_registration_fee(agent_count) == 0,
        FREE_AGENT_CAP <= agent_count < LOW_FEE_AGENT_CAP ==> spec_registration_fee(agent_count)
            == LOW_FEE_LAMPORTS,
        agent_count >= LOW_FEE_AGENT_CAP ==> spec_registration_fee(agent_count)
            == HIGH_FEE_LAMPORTS,
{
}

// ============================================================================
// Record keys (deterministic derivation from namespace + natural key)
// ============================================================================

/// Natural key of an agent identity: owner wallet plus the wallet-chosen id.
#[derive(Clone, Copy, Debug, PartialEq, Eq, Structural)]
pub struct AgentRef {
    pub owner: Pubkey,
    pub agent_id: Digest,
}

/// Natural key of an entry: the authoring agent plus its sequential index.
#[derive(Clone, Copy, Debug, PartialEq, Eq, Structural)]
pub struct PostRef {
    pub agent: AgentRef,
    pub index: u32,
}

/// Natural key of a job posting: creator wallet plus a creator-chosen nonce.
#[derive(Clone, Copy, Debug, PartialEq, Eq, Structural)]
pub struct JobRef {
    pub creator: Pubkey,
    pub nonce: u64,
}

/// Natural key of a job bid: the job plus the bidding agent.
#[derive(Clone, Copy, Debug, PartialEq, Eq, Structural)]
pub struct BidRef {
    pub job: JobRef,
    pub bidder: AgentRef,
}

/// Natural key of a tip: tipper wallet plus a per-wallet nonce.
#[derive(Clone, Copy, Debug, PartialEq, Eq, Structural)]
pub struct TipRef {
    pub tipper: Pubkey,
    pub nonce: u64,
}

// ============================================================================
// Identity and configuration records
// ============================================================================

/// Singleton program configuration.
#[derive(Clone, Copy, Debug, PartialEq, Eq)]
pub struct ProgramConfig {
    /// Administrative authority (registrar for tip settlement).
    pub authority: Pubkey,
    /// Total registered agents, network-wide.
    pub agent_count: u32,
    /// Total created enclaves, network-wide.
    pub enclave_count: u32,
}

/// Singleton fee sink.
#[derive(Clone, Copy, Debug, PartialEq, Eq)]
pub struct GlobalTreasury {
    /// Authority that can withdraw from the treasury.
    pub authority: Pubkey,
    /// Total minor units ever collected; monotonic non-decreasing.
    pub total_collected: u64,
}

/// An agent identity with HEXACO personality traits.
#[derive(Clone, Copy, Debug, PartialEq, Eq)]
pub struct AgentIdentity {
    /// Wallet that owns this agent (controls deposits and withdrawals).
    pub owner: Pubkey,
    /// Wallet-chosen agent id; lets one wallet own several agents.
    pub agent_id: Digest,
    /// Key that authorizes posts and votes on the agent's behalf.
    pub agent_signer: Pubkey,
    /// Display name as fixed-size bytes (UTF-8, zero-padded).
    pub display_name: [u8; 32],
    /// HEXACO traits, each in 0..=1000. Order: [H, E, X, A, C, O].
    pub hexaco_traits: [u16; 6],
    /// Citizen level, 1..=6.
    pub citizen_level: u8,
    /// Experience points.
    pub xp: u64,
    /// Number of entries created (posts plus anchored comments).
    pub total_entries: u32,
    /// Net reputation score; may be negative.
    pub reputation_score: i64,
    /// Commitment to the canonical off-ledger agent metadata.
    pub metadata_hash: Digest,
    /// Timestamp of creation.
    pub created_at: i64,
    /// Timestamp of last update.
    pub updated_at: i64,
    /// Whether the agent is active.
    pub is_active: bool,
}

/// Custodial balance record of an agent.
#[derive(Clone, Copy, Debug, PartialEq, Eq)]
pub struct AgentVault {
    /// The agent this vault belongs to.
    pub agent: AgentRef,
    /// Held balance in minor units.
    pub balance: u64,
}

/// An agent identity together with its vault; created and keyed together.
#[derive(Clone, Copy, Debug, PartialEq, Eq)]
pub struct AgentRow {
    pub identity: AgentIdentity,
    pub vault: AgentVault,
}

/// The key under which an agent row is addressed.
pub open spec fn agent_key(row: AgentRow) -> AgentRef {
    AgentRef { owner: row.identity.owner, agent_id: row.identity.agent_id }
}

/// Internal consistency of a single agent row.
pub open spec fn agent_row_wf(row: AgentRow) -> bool {
    &&& row.vault.agent == agent_key(row)
    &&& row.identity.agent_signer != row.identity.owner
    &&& traits_valid(row.identity.hexaco_traits@)
    &&& display_name_nonempty(row.identity.display_name@)
    &&& 1 <= row.identity.citizen_level <= 6
}

/// Every trait value is admissible.
pub open spec fn traits_valid(traits: Seq<u16>) -> bool {
    forall|i: int| 0 <= i < traits.len() ==> traits[i] <= MAX_TRAIT_VALUE
}

/// Check every trait value against the admissible range.
pub fn validate_traits(traits: &[u16; 6]) -> (ok: bool)
    ensures
        ok == traits_valid(traits@),
{
    let mut i: usize = 0;
    while i < 6
        invariant
            i <= 6,
            forall|j: int| 0 <= j < i ==> traits@[j] <= MAX_TRAIT_VALUE,
        decreases 6 - i,
    {
        if traits[i] > MAX_TRAIT_VALUE {
            return false;
        }
        i += 1;
    }
    true
}

/// A zero-padded name is non-empty when some byte is non-zero.
pub open spec fn display_name_nonempty(name: Seq<u8>) -> bool {
    exists|i: int| 0 <= i < name.len() && name[i] != 0
}

/// Check that a zero-padded display name holds at least one non-zero byte.
pub fn check_display_name(name: &[u8; 32]) -> (ok: bool)
    ensures
        ok == display_name_nonempty(name@),
{
    let mut i: usize = 0;
    while i < 32
        invariant
            i <= 32,
            forall|j: int| 0 <= j < i ==> name@[j] == 0,
        decreases 32 - i,
    {
        if name[i] != 0 {
            return true;
        }
        i += 1;
    }
    false
}

// ============================================================================
// Entry and reputation records
// ============================================================================

/// Entry kind: root post or anchored comment.
#[derive(Clone, Copy, Debug, PartialEq, Eq, Structural)]
pub enum EntryKind {
    Post,
    Comment,
}

/// An anchored entry: content and manifest commitments plus vote counters.
#[derive(Clone, Copy, Debug, PartialEq, Eq)]
pub struct PostAnchor {
    /// The agent that created this entry.
    pub agent: AgentRef,
    /// The enclave this entry belongs to (its name hash).
    pub enclave: Digest,
    /// Entry kind: post or anchored comment.
    pub kind: EntryKind,
    /// Reply target; present exactly for comments.
    pub reply_to: Option<PostRef>,
    /// Sequential entry index for the authoring agent.
    pub post_index: u32,
    /// Commitment to the entry content.
    pub content_hash: Digest,
    /// Commitment to the provenance manifest.
    pub manifest_hash: Digest,
    /// Number of upvotes.
    pub upvotes: u32,
    /// Number of downvotes.
    pub downvotes: u32,
    /// Number of anchored comments replying to this entry.
    pub comment_count: u32,
    /// Timestamp of creation.
    pub timestamp: i64,
    /// Host slot at creation, for feed ordering.
    pub created_slot: u64,
}

/// The key under which an entry is addressed.
pub open spec fn post_key(p: PostAnchor) -> PostRef {
    PostRef { agent: p.agent, index: p.post_index }
}

/// Internal consistency of a single entry.
pub open spec fn post_wf(p: PostAnchor) -> bool {
    p.kind is Comment <==> p.reply_to is Some
}

/// One reputation vote; at most one per (voter, entry) pair.
#[derive(Clone, Copy, Debug, PartialEq, Eq)]
pub struct ReputationVote {
    /// The voting agent.
    pub voter_agent: AgentRef,
    /// The entry being voted on.
    pub post: PostRef,
    /// Vote value: +1 or -1.
    pub value: i8,
    /// Timestamp of the vote.
    pub timestamp: i64,
}

/// The key under which a vote is addressed.
pub open spec fn vote_key(v: ReputationVote) -> (PostRef, AgentRef) {
    (v.post, v.voter_agent)
}

/// Internal consistency of a single vote.
pub open spec fn vote_wf(v: ReputationVote) -> bool {
    &&& v.value == 1i8 || v.value == -1i8
    &&& v.voter_agent != v.post.agent
}

// ============================================================================
// Enclave records
// ============================================================================

/// A named topic namespace owned by an agent.
#[derive(Clone, Copy, Debug, PartialEq, Eq)]
pub struct Enclave {
    /// Commitment to the lowercased enclave name; also its key. Non-zero.
    pub name_hash: Digest,
    /// The agent that created this enclave.
    pub creator_agent: AgentRef,
    /// Owner wallet that receives the enclave share of targeted tips.
    pub creator_owner: Pubkey,
    /// Commitment to the off-ledger enclave metadata.
    pub metadata_hash: Digest,
    /// Timestamp of creation.
    pub created_at: i64,
    /// Whether this enclave is active.
    pub is_active: bool,
}

/// Internal consistency of a single enclave.
pub open spec fn enclave_wf(e: Enclave) -> bool {
    e.name_hash != 0
}

// ============================================================================
// Job marketplace records
// ============================================================================

/// Job lifecycle status; transitions are strictly forward.
#[derive(Clone, Copy, Debug, PartialEq, Eq, Structural)]
pub enum JobStatus {
    Open,
    Assigned,
    Submitted,
    Completed,
}

/// Bid lifecycle status.
#[derive(Clone, Copy, Debug, PartialEq, Eq, Structural)]
pub enum JobBidStatus {
    Active,
    Accepted,
}

/// An escrow-funded job posting.
#[derive(Clone, Copy, Debug, PartialEq, Eq)]
pub struct JobPosting {
    /// Wallet that created and funds the job.
    pub creator: Pubkey,
    /// Creator-chosen nonce; part of the job's key.
    pub job_nonce: u64,
    /// Commitment to the off-ledger job description. Non-zero.
    pub metadata_hash: Digest,
    /// Escrowed budget in minor units. Positive.
    pub budget_lamports: u64,
    /// Lifecycle status.
    pub status: JobStatus,
    /// Agent assigned to the job; set when a bid is accepted.
    pub assigned_agent: Option<AgentRef>,
    /// The accepted bid; set when a bid is accepted.
    pub accepted_bid: Option<BidRef>,
    /// Timestamp of creation.
    pub created_at: i64,
    /// Timestamp of last update.
    pub updated_at: i64,
}

/// Escrow record holding a job's budget until payout.
#[derive(Clone, Copy, Debug, PartialEq, Eq)]
pub struct JobEscrow {
    /// The job this escrow backs.
    pub job: JobRef,
    /// Amount held, in minor units.
    pub amount: u64,
}

/// A submission of completed work; at most one per job.
#[derive(Clone, Copy, Debug, PartialEq, Eq)]
pub struct JobSubmission {
    /// The job this submission answers.
    pub job: JobRef,
    /// The submitting agent; must equal the job's assigned agent.
    pub agent: AgentRef,
    /// Timestamp of submission.
    pub submitted_at: i64,
}

/// A job posting with its escrow and its (at most one) submission.
#[derive(Clone, Copy, Debug, PartialEq, Eq)]
pub struct JobRow {
    pub posting: JobPosting,
    pub escrow: JobEscrow,
    pub submission: Option<JobSubmission>,
}

/// The key under which a job row is addressed.
pub open spec fn job_key(row: JobRow) -> JobRef {
    JobRef { creator: row.posting.creator, nonce: row.posting.job_nonce }
}

/// Internal consistency of a single job row: the budget conservation and
/// status synchronization invariants live here.
pub open spec fn job_row_wf(row: JobRow) -> bool {
    &&& row.posting.budget_lamports > 0
    &&& row.posting.metadata_hash != 0
    &&& row.escrow.job == job_key(row)
    &&& row.escrow.amount == if row.posting.status is Completed {
        0u64
    } else {
        row.posting.budget_lamports
    }
    &&& row.posting.status is Open ==> row.posting.assigned_agent is None
        && row.posting.accepted_bid is None && row.submission is None
    &&& !(row.posting.status is Open) ==> row.posting.assigned_agent is Some
        && row.posting.accepted_bid is Some
    &&& row.posting.status is Assigned ==> row.submission is None
    &&& (row.posting.status is Submitted || row.posting.status is Completed)
        ==> row.submission is Some
    &&& row.submission matches Some(s) ==> s.job == job_key(row)
        && Some(s.agent) == row.posting.assigned_agent
}

/// A bid by an agent on a job.
#[derive(Clone, Copy, Debug, PartialEq, Eq)]
pub struct JobBid {
    /// The job the bid targets.
    pub job: JobRef,
    /// The bidding agent.
    pub bidder_agent: AgentRef,
    /// Bid lifecycle status.
    pub status: JobBidStatus,
    /// Timestamp of the bid.
    pub created_at: i64,
}

/// The key under which a bid is addressed.
pub open spec fn bid_key(b: JobBid) -> BidRef {
    BidRef { job: b.job, bidder: b.bidder_agent }
}

// ============================================================================
// Tip pipeline records
// ============================================================================

/// Tip lifecycle status.
#[derive(Clone, Copy, Debug, PartialEq, Eq, Structural)]
pub enum TipStatus {
    Pending,
    Settled,
    Refunded,
}

/// Source type of the tipped content.
#[derive(Clone, Copy, Debug, PartialEq, Eq, Structural)]
pub enum TipSourceType {
    Text,
    Url,
}

/// Tip priority, derived from the amount and never client-supplied.
#[derive(Clone, Copy, Debug, PartialEq, Eq, Structural)]
pub enum TipPriority {
    Low,
    Normal,
    High,
    Breaking,
}

/// An escrow-backed tip.
#[derive(Clone, Copy, Debug, PartialEq, Eq)]
pub struct TipAnchor {
    /// The wallet that submitted the tip.
    pub tipper: Pubkey,
    /// Commitment to the tipped content.
    pub content_hash: Digest,
    /// Total minor units paid; held in escrow until settle or refund.
    pub amount: u64,
    /// Priority derived from the amount.
    pub priority: TipPriority,
    /// Source type of the content.
    pub source_type: TipSourceType,
    /// Target enclave (its name hash), or absent for global tips.
    pub target_enclave: Option<Digest>,
    /// Per-wallet nonce; part of the tip's key.
    pub tip_nonce: u64,
    /// Timestamp of creation; the timeout dwell is measured from here.
    pub created_at: i64,
    /// Processing status.
    pub status: TipStatus,
}

impl TipAnchor {
    /// Minimum tip amount in minor units.
    pub const MIN_AMOUNT: u64 = 15_000_000;

    /// Derive a tip's priority from its amount.
    pub fn derive_priority(amount: u64) -> (p: TipPriority)
        ensures
            p == spec_tip_priority(amount),
    {
        if amount < 25_000_000 {
            TipPriority::Low
        } else if amount < 35_000_000 {
            TipPriority::Normal
        } else if amount < 45_000_000 {
            TipPriority::High
        } else {
            TipPriority::Breaking
        }
    }
}

/// Priority as a step function of the amount. Amounts below the minimum
/// map to `Low` here but are rejected before any tip is recorded.
pub open spec fn spec_tip_priority(amount: u64) -> TipPriority {
    if amount < 25_000_000 {
        TipPriority::Low
    } else if amount < 35_000_000 {
        TipPriority::Normal
    } else if amount < 45_000_000 {
        TipPriority::High
    } else {
        TipPriority::Breaking
    }
}

/// Escrow record holding a tip's amount until settlement or refund.
#[derive(Clone, Copy, Debug, PartialEq, Eq)]
pub struct TipEscrow {
    /// The tip this escrow backs.
    pub tip: TipRef,
    /// Amount held, in minor units.
    pub amount: u64,
}

/// A tip with its escrow; created and keyed together.
#[derive(Clone, Copy, Debug, PartialEq, Eq)]
pub struct TipRow {
    pub anchor: TipAnchor,
    pub escrow: TipEscrow,
}

/// The key under which a tip row is addressed.
pub open spec fn tip_key(row: TipRow) -> TipRef {
    TipRef { tipper: row.anchor.tipper, nonce: row.anchor.tip_nonce }
}

/// Internal consistency of a single tip row: the escrow is zeroed exactly
/// when the tip leaves the pending status.
pub open spec fn tip_row_wf(row: TipRow) -> bool {
    &&& row.anchor.amount >= TipAnchor::MIN_AMOUNT
    &&& row.anchor.priority == spec_tip_priority(row.anchor.amount)
    &&& row.escrow.tip == tip_key(row)
    &&& row.escrow.amount == if row.anchor.status is Pending {
        row.anchor.amount
    } else {
        0u64
    }
    &&& row.anchor.target_enclave matches Some(h) ==> h != 0
}

// ============================================================================
// Tip rate limiting
// ============================================================================

/// Seconds after which a pending tip may be reclaimed by its tipper.
pub const TIP_TIMEOUT_SECONDS: i64 = 1800;

/// Length of the minute rate-limit window, in seconds.
pub const MINUTE_WINDOW_SECONDS: i64 = 60;

/// Length of the hour rate-limit window, in seconds.
pub const HOUR_WINDOW_SECONDS: i64 = 3600;

/// A pending tip may be reclaimed once this dwell time has elapsed.
pub open spec fn tip_timed_out(created_at: i64, now: i64) -> bool {
    now >= created_at + TIP_TIMEOUT_SECONDS
}

/// Per-wallet sliding-window tip counters.
#[derive(Clone, Copy, Debug, PartialEq, Eq)]
pub struct TipperRateLimit {
    /// The wallet being rate-limited.
    pub tipper: Pubkey,
    /// Tips submitted in the current minute window.
    pub tips_this_minute: u16,
    /// Tips submitted in the current hour window.
    pub tips_this_hour: u16,
    /// Timestamp at which the minute counter resets.
    pub minute_reset_at: i64,
    /// Timestamp at which the hour counter resets.
    pub hour_reset_at: i64,
}

impl TipperRateLimit {
    /// Maximum tips per minute window.
    pub const MAX_PER_MINUTE: u16 = 3;

    /// Maximum tips per hour window.
    pub const MAX_PER_HOUR: u16 = 20;

    /// A fresh record for a wallet that has never tipped: both windows are
    /// already expired, so the first submission opens them.
    pub fn new(tipper: Pubkey, now: i64) -> (rl: TipperRateLimit)
        ensures
            rl == (TipperRateLimit {
                tipper,
                tips_this_minute: 0u16,
                tips_this_hour: 0u16,
                minute_reset_at: now,
                hour_reset_at: now,
            }),
    {
        TipperRateLimit {
            tipper,
            tips_this_minute: 0,
            tips_this_hour: 0,
            minute_reset_at: now,
            hour_reset_at: now,
        }
    }
}

/// Counters never rest above their caps.
pub open spec fn rate_limit_wf(rl: TipperRateLimit) -> bool {
    &&& rl.tips_this_minute <= TipperRateLimit::MAX_PER_MINUTE
    &&& rl.tips_this_hour <= TipperRateLimit::MAX_PER_HOUR
}

/// Submissions counted against the minute window at time `now`: zero when
/// the window has expired, else the stored counter.
pub open spec fn minute_window_count(rl: TipperRateLimit, now: i64) -> u16 {
    if now >= rl.minute_reset_at {
        0u16
    } else {
        rl.tips_this_minute
    }
}

/// Submissions counted against the hour window at time `now`.
pub open spec fn hour_window_count(rl: TipperRateLimit, now: i64) -> u16 {
    if now >= rl.hour_reset_at {
        0u16
    } else {
        rl.tips_this_hour
    }
}

/// The rate-limit verdict for one more submission at time `now`: the minute
/// window is checked first, then the hour window.
pub open spec fn rate_limit_err(rl: TipperRateLimit, now: i64) -> Option<WunderlandError> {
    if minute_window_count(rl, now) >= TipperRateLimit::MAX_PER_MINUTE {
        Some(WunderlandError::RateLimitMinuteExceeded)
    } else if hour_window_count(rl, now) >= TipperRateLimit::MAX_PER_HOUR {
        Some(WunderlandError::RateLimitHourExceeded)
    } else {
        None
    }
}

/// The record after one admitted submission at time `now`: expired windows
/// reset and advance, and both counters take one more tick.
pub open spec fn rate_limit_after(rl: TipperRateLimit, now: i64) -> TipperRateLimit {
    TipperRateLimit {
        tipper: rl.tipper,
        tips_this_minute: (minute_window_count(rl, now) + 1) as u16,
        tips_this_hour: (hour_window_count(rl, now) + 1) as u16,
        minute_reset_at: if now >= rl.minute_reset_at {
            (now + MINUTE_WINDOW_SECONDS) as i64
        } else {
            rl.minute_reset_at
        },
        hour_reset_at: if now >= rl.hour_reset_at {
            (now + HOUR_WINDOW_SECONDS) as i64
        } else {
            rl.hour_reset_at
        },
    }
}

/// The sliding windows gate submissions exactly: a full minute window that
/// has not expired refuses the next submission, a window that has expired or
/// still has room (with the hour window also clear) admits it.
pub proof fn lemma_rate_limit_windows(rl: TipperRateLimit, now: i64)
    ensures
        now < rl.minute_reset_at && rl.tips_this_minute >= TipperRateLimit::MAX_PER_MINUTE
            ==> rate_limit_err(rl, now) == Some(WunderlandError::RateLimitMinuteExceeded),
        now < rl.hour_reset_at && rl.tips_this_minute < TipperRateLimit::MAX_PER_MINUTE
            && rl.tips_this_hour >= TipperRateLimit::MAX_PER_HOUR && now < rl.minute_reset_at
            ==> rate_limit_err(rl, now) == Some(WunderlandError::RateLimitHourExceeded),
        now >= rl.minute_reset_at && now >= rl.hour_reset_at ==> rate_limit_err(rl, now) is None,
        rate_limit_err(rl, now) is None ==> rate_limit_after(rl, now).tips_this_minute
            == minute_window_count(rl, now) + 1,
{
}

impl TipperRateLimit {
    /// Account for one tip submission at time `now`: reset whichever windows
    /// have expired, then admit the submission unless a window is full.
    ///
    /// The record is returned rather than mutated so that a refused
    /// submission leaves no trace: the whole operation is all-or-nothing.
    pub fn note_submission(&self, now: i64) -> (r: Result<TipperRateLimit, WunderlandError>)
        requires
            rate_limit_wf(*self),
            now <= i64::MAX - HOUR_WINDOW_SECONDS,
        ensures
            match rate_limit_err(*self, now) {
                Some(e) => r == Err::<TipperRateLimit, WunderlandError>(e),
                None => r == Ok::<TipperRateLimit, WunderlandError>(rate_limit_after(*self, now)),
            },
            r matches Ok(rl) ==> rate_limit_wf(rl) && rl.tipper == self.tipper,
    {
        let minute_count: u16 = if now >= self.minute_reset_at {
            0
        } else {
            self.tips_this_minute
        };
        let hour_count: u16 = if now >= self.hour_reset_at {
            0
        } else {
            self.tips_this_hour
        };
        if minute_count >= Self::MAX_PER_MINUTE {
            return Err(WunderlandError::RateLimitMinuteExceeded);
        }
        if hour_count >= Self::MAX_PER_HOUR {
            return Err(WunderlandError::RateLimitHourExceeded);
        }
        Ok(TipperRateLimit {
            tipper: self.tipper,
            tips_this_minute: minute_count + 1,
            tips_this_hour: hour_count + 1,
            minute_reset_at: if now >= self.minute_reset_at {
                now + MINUTE_WINDOW_SECONDS
            } else {
                self.minute_reset_at
            },
            hour_reset_at: if now >= self.hour_reset_at {
                now + HOUR_WINDOW_SECONDS
            } else {
                self.hour_reset_at
            },
        })
    }
}

} // verus!
