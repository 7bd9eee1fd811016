//! Entry and reputation ledger: anchoring posts and comments under an agent
//! and enclave, and casting at most one vote per (voter, entry) pair.

use vstd::prelude::*;

use crate::errors::WunderlandError;
use crate::ledger::{
    agent_idx, enclave_idx, has_agent, has_enclave, has_post, has_vote, lemma_agent_idx,
    lemma_enclave_idx, lemma_post_idx, lemma_sum_vaults_update, lemma_uniq_agents_update,
    lemma_uniq_posts_push, lemma_uniq_posts_update, lemma_uniq_votes_push, post_idx,
    same_job_tables, same_tip_tables, sum_vaults, unchanged, Ledger,
};
use crate::state::{
    post_key, vote_key, AgentIdentity, AgentRef, AgentRow, Digest, EntryKind, PostAnchor, PostRef,
    Pubkey, ReputationVote,
};

verus! {

/// The entry row written by a successful `anchor_post` or `anchor_comment`.
pub open spec fn new_entry_row(
    agent: AgentRef,
    enclave: Digest,
    kind: EntryKind,
    reply_to: Option<PostRef>,
    index: u32,
    content_hash: Digest,
    manifest_hash: Digest,
    now: i64,
    slot: u64,
) -> PostAnchor {
    PostAnchor {
        agent,
        enclave,
        kind,
        reply_to,
        post_index: index,
        content_hash,
        manifest_hash,
        upvotes: 0u32,
        downvotes: 0u32,
        comment_count: 0u32,
        timestamp: now,
        created_slot: slot,
    }
}

/// The agent row after anchoring one more entry.
pub open spec fn agent_with_entry(row: AgentRow, now: i64) -> AgentRow {
    AgentRow {
        identity: AgentIdentity {
            total_entries: (row.identity.total_entries + 1) as u32,
            updated_at: now,
            ..row.identity
        },
        ..row
    }
}

/// An entry row after receiving one more anchored comment.
pub open spec fn post_with_comment(p: PostAnchor) -> PostAnchor {
    PostAnchor { comment_count: (p.comment_count + 1) as u32, ..p }
}

/// An entry row after receiving one vote.
pub open spec fn post_with_vote(p: PostAnchor, value: i8) -> PostAnchor {
    if value == 1i8 {
        PostAnchor { upvotes: (p.upvotes + 1) as u32, ..p }
    } else {
        PostAnchor { downvotes: (p.downvotes + 1) as u32, ..p }
    }
}

/// The agent row after its reputation moves by `value`.
pub open spec fn agent_with_reputation(row: AgentRow, value: i8) -> AgentRow {
    AgentRow {
        identity: AgentIdentity {
            reputation_score: (row.identity.reputation_score + value) as i64,
            ..row.identity
        },
        ..row
    }
}

/// Checks shared by both anchoring operations, in call order.
pub open spec fn anchor_agent_err(l: Ledger, agent: AgentRef, signer: Pubkey) -> Option<
    WunderlandError,
> {
    if !has_agent(l.agents@, agent) {
        Some(WunderlandError::RecordNotFound)
    } else if !l.agents@[agent_idx(l.agents@, agent)].identity.is_active {
        Some(WunderlandError::AgentInactive)
    } else if signer != l.agents@[agent_idx(l.agents@, agent)].identity.agent_signer {
        Some(WunderlandError::SignaturePublicKeyMismatch)
    } else {
        None
    }
}

/// The verdict of `anchor_post`, checks in call order.
pub open spec fn anchor_post_err(
    l: Ledger,
    agent: AgentRef,
    signer: Pubkey,
    enclave: Digest,
) -> Option<WunderlandError> {
    if anchor_agent_err(l, agent, signer) is Some {
        anchor_agent_err(l, agent, signer)
    } else if !has_enclave(l.enclaves@, enclave) {
        Some(WunderlandError::RecordNotFound)
    } else if !l.enclaves@[enclave_idx(l.enclaves@, enclave)].is_active {
        Some(WunderlandError::EnclaveInactive)
    } else if l.agents@[agent_idx(l.agents@, agent)].identity.total_entries == u32::MAX {
        Some(WunderlandError::PostCountOverflow)
    } else if has_post(
        l.posts@,
        PostRef { agent, index: l.agents@[agent_idx(l.agents@, agent)].identity.total_entries },
    ) {
        Some(WunderlandError::RecordAlreadyExists)
    } else {
        None
    }
}

/// The verdict of `anchor_comment`, checks in call order.
pub open spec fn anchor_comment_err(
    l: Ledger,
    agent: AgentRef,
    signer: Pubkey,
    reply_to: PostRef,
) -> Option<WunderlandError> {
    if anchor_agent_err(l, agent, signer) is Some {
        anchor_agent_err(l, agent, signer)
    } else if !has_post(l.posts@, reply_to) {
        Some(WunderlandError::InvalidReplyTarget)
    } else if l.agents@[agent_idx(l.agents@, agent)].identity.total_entries == u32::MAX {
        Some(WunderlandError::PostCountOverflow)
    } else if l.posts@[post_idx(l.posts@, reply_to)].comment_count == u32::MAX {
        Some(WunderlandError::ArithmeticOverflow)
    } else if has_post(
        l.posts@,
        PostRef { agent, index: l.agents@[agent_idx(l.agents@, agent)].identity.total_entries },
    ) {
        Some(WunderlandError::RecordAlreadyExists)
    } else {
        None
    }
}

/// The verdict of `cast_vote`, checks in call order.
pub open spec fn cast_vote_err(
    l: Ledger,
    voter: AgentRef,
    signer: Pubkey,
    post: PostRef,
    value: i8,
) -> Option<WunderlandError> {
    if value != 1i8 && value != -1i8 {
        Some(WunderlandError::InvalidVoteValue)
    } else if anchor_agent_err(l, voter, signer) is Some {
        anchor_agent_err(l, voter, signer)
    } else if !has_post(l.posts@, post) {
        Some(WunderlandError::RecordNotFound)
    } else if l.posts@[post_idx(l.posts@, post)].agent == voter {
        Some(WunderlandError::SelfVote)
    } else if has_vote(l.votes@, (post, voter)) {
        Some(WunderlandError::RecordAlreadyExists)
    } else if !has_agent(l.agents@, l.posts@[post_idx(l.posts@, post)].agent) {
        Some(WunderlandError::RecordNotFound)
    } else if value == 1i8 && l.posts@[post_idx(l.posts@, post)].upvotes == u32::MAX {
        Some(WunderlandError::VoteCountOverflow)
    } else if value == -1i8 && l.posts@[post_idx(l.posts@, post)].downvotes == u32::MAX {
        Some(WunderlandError::VoteCountOverflow)
    } else if value == 1i8 && l.agents@[agent_idx(
        l.agents@,
        l.posts@[post_idx(l.posts@, post)].agent,
    )].identity.reputation_score == i64::MAX {
        Some(WunderlandError::ReputationOverflow)
    } else if value == -1i8 && l.agents@[agent_idx(
        l.agents@,
        l.posts@[post_idx(l.posts@, post)].agent,
    )].identity.reputation_score == i64::MIN {
        Some(WunderlandError::ReputationOverflow)
    } else {
        None
    }
}

/// At most one vote per (entry, voter) pair: in a well-formed ledger two
/// vote rows with the same key are the same row.
pub proof fn lemma_one_vote_per_pair(l: Ledger, i: int, j: int)
    requires
        l.wf(),
        0 <= i < l.votes@.len(),
        0 <= j < l.votes@.len(),
        vote_key(l.votes@[i]) == vote_key(l.votes@[j]),
    ensures
        i == j,
{
}

/// A vote on one's own entry, or a second vote on the same entry, is always
/// refused: the verdict of `cast_vote` is an error in either situation.
pub proof fn lemma_vote_guards(l: Ledger, voter: AgentRef, signer: Pubkey, post: PostRef, value: i8)
    ensures
        has_vote(l.votes@, (post, voter)) ==> cast_vote_err(l, voter, signer, post, value) is Some,
        has_post(l.posts@, post) && l.posts@[post_idx(l.posts@, post)].agent == voter
            ==> cast_vote_err(l, voter, signer, post, value) is Some,
{
}

impl Ledger {
    /// Anchor a root post under an agent and an active enclave. The entry's
    /// index is the agent's entry counter, which then moves up by one.
    pub fn anchor_post(
        &mut self,
        agent: AgentRef,
        signer: Pubkey,
        enclave: Digest,
        content_hash: Digest,
        manifest_hash: Digest,
        now: i64,
        slot: u64,
    ) -> (r: Result<(), WunderlandError>)
        requires
            old(self).wf(),
        ensures
            final(self).wf(),
            match anchor_post_err(*old(self), agent, signer, enclave) {
                Some(e) => r == Err::<(), WunderlandError>(e) && unchanged(*old(self), *final(self)),
                None => {
                    &&& r is Ok
                    &&& final(self).posts@ == old(self).posts@.push(
                        new_entry_row(
                            agent,
                            enclave,
                            EntryKind::Post,
                            None,
                            old(self).agents@[agent_idx(
                                old(self).agents@,
                                agent,
                            )].identity.total_entries,
                            content_hash,
                            manifest_hash,
                            now,
                            slot,
                        ),
                    )
                    &&& final(self).agents@ == old(self).agents@.update(
                        agent_idx(old(self).agents@, agent),
                        agent_with_entry(
                            old(self).agents@[agent_idx(old(self).agents@, agent)],
                            now,
                        ),
                    )
                    &&& sum_vaults(final(self).agents@) == sum_vaults(old(self).agents@)
                    &&& final(self).votes@ == old(self).votes@
                    &&& final(self).config == old(self).config
                    &&& final(self).treasury == old(self).treasury
                    &&& final(self).enclaves@ == old(self).enclaves@
                    &&& same_job_tables(*old(self), *final(self))
                    &&& same_tip_tables(*old(self), *final(self))
                },
            },
    {
        let i = match self.find_agent(agent) {
            Some(i) => i,
            None => {
                return Err(WunderlandError::RecordNotFound);
            },
        };
        proof {
            lemma_agent_idx(self.agents@, agent, i as int);
        }
        let row = self.agents[i];
        if !row.identity.is_active {
            return Err(WunderlandError::AgentInactive);
        }
        if signer != row.identity.agent_signer {
            return Err(WunderlandError::SignaturePublicKeyMismatch);
        }
        let e = match self.find_enclave(enclave) {
            Some(e) => e,
            None => {
                return Err(WunderlandError::RecordNotFound);
            },
        };
        proof {
            lemma_enclave_idx(self.enclaves@, enclave, e as int);
        }
        if !self.enclaves[e].is_active {
            return Err(WunderlandError::EnclaveInactive);
        }
        if row.identity.total_entries == u32::MAX {
            return Err(WunderlandError::PostCountOverflow);
        }
        let key = PostRef { agent, index: row.identity.total_entries };
        if self.find_post(key).is_some() {
            return Err(WunderlandError::RecordAlreadyExists);
        }
        let post = PostAnchor {
            agent,
            enclave,
            kind: EntryKind::Post,
            reply_to: None,
            post_index: row.identity.total_entries,
            content_hash,
            manifest_hash,
            upvotes: 0,
            downvotes: 0,
            comment_count: 0,
            timestamp: now,
            created_slot: slot,
        };
        let new_agent = AgentRow {
            identity: AgentIdentity {
                total_entries: row.identity.total_entries + 1,
                updated_at: now,
                ..row.identity
            },
            ..row
        };
        proof {
            lemma_uniq_posts_push(self.posts@, post);
            lemma_uniq_agents_update(self.agents@, i as int, new_agent);
            lemma_sum_vaults_update(self.agents@, i as int, new_agent);
        }
        self.posts.push(post);
        self.agents[i] = new_agent;
        Ok(())
    }

    /// Anchor a comment under an existing entry; the comment inherits the
    /// target's enclave and the target's comment counter moves up by one.
    pub fn anchor_comment(
        &mut self,
        agent: AgentRef,
        signer: Pubkey,
        reply_to: PostRef,
        content_hash: Digest,
        manifest_hash: Digest,
        now: i64,
        slot: u64,
    ) -> (r: Result<(), WunderlandError>)
        requires
            old(self).wf(),
        ensures
            final(self).wf(),
            match anchor_comment_err(*old(self), agent, signer, reply_to) {
                Some(e) => r == Err::<(), WunderlandError>(e) && unchanged(*old(self), *final(self)),
                None => {
                    &&& r is Ok
                    &&& final(self).posts@ == old(self).posts@.update(
                        post_idx(old(self).posts@, reply_to),
                        post_with_comment(old(self).posts@[post_idx(old(self).posts@, reply_to)]),
                    ).push(
                        new_entry_row(
                            agent,
                            old(self).posts@[post_idx(old(self).posts@, reply_to)].enclave,
                            EntryKind::Comment,
                            Some(reply_to),
                            old(self).agents@[agent_idx(
                                old(self).agents@,
                                agent,
                            )].identity.total_entries,
                            content_hash,
                            manifest_hash,
                            now,
                            slot,
                        ),
                    )
                    &&& final(self).agents@ == old(self).agents@.update(
                        agent_idx(old(self).agents@, agent),
                        agent_with_entry(
                            old(self).agents@[agent_idx(old(self).agents@, agent)],
                            now,
                        ),
                    )
                    &&& sum_vaults(final(self).agents@) == sum_vaults(old(self).agents@)
                    &&& final(self).votes@ == old(self).votes@
                    &&& final(self).config == old(self).config
                    &&& final(self).treasury == old(self).treasury
                    &&& final(self).enclaves@ == old(self).enclaves@
                    &&& same_job_tables(*old(self), *final(self))
                    &&& same_tip_tables(*old(self), *final(self))
                },
            },
    {
        let i = match self.find_agent(agent) {
            Some(i) => i,
            None => {
                return Err(WunderlandError::RecordNotFound);
            },
        };
        proof {
            lemma_agent_idx(self.agents@, agent, i as int);
        }
        let row = self.agents[i];
        if !row.identity.is_active {
            return Err(WunderlandError::AgentInactive);
        }
        if signer != row.identity.agent_signer {
            return Err(WunderlandError::SignaturePublicKeyMismatch);
        }
        let t = match self.find_post(reply_to) {
            Some(t) => t,
            None => {
                return Err(WunderlandError::InvalidReplyTarget);
            },
        };
        proof {
            lemma_post_idx(self.posts@, reply_to, t as int);
        }
        let target = self.posts[t];
        if row.identity.total_entries == u32::MAX {
            return Err(WunderlandError::PostCountOverflow);
        }
        if target.comment_count == u32::MAX {
            return Err(WunderlandError::ArithmeticOverflow);
        }
        let key = PostRef { agent, index: row.identity.total_entries };
        if self.find_post(key).is_some() {
            return Err(WunderlandError::RecordAlreadyExists);
        }
        let comment = PostAnchor {
            agent,
            enclave: target.enclave,
            kind: EntryKind::Comment,
            reply_to: Some(reply_to),
            post_index: row.identity.total_entries,
            content_hash,
            manifest_hash,
            upvotes: 0,
            downvotes: 0,
            comment_count: 0,
            timestamp: now,
            created_slot: slot,
        };
        let new_target = PostAnchor { comment_count: target.comment_count + 1, ..target };
        let new_agent = AgentRow {
            identity: AgentIdentity {
                total_entries: row.identity.total_entries + 1,
                updated_at: now,
                ..row.identity
            },
            ..row
        };
        proof {
            let p0 = self.posts@;
            lemma_uniq_posts_update(p0, t as int, new_target);
            let p1 = p0.update(t as int, new_target);
            assert forall|j: int| 0 <= j < p1.len() implies post_key(p1[j]) != post_key(
                comment,
            ) by {
                if j == t {
                    assert(post_key(p0[j]) != post_key(comment));
                } else {
                    assert(p1[j] == p0[j]);
                }
            }
            assert(!has_post(p1, post_key(comment)));
            lemma_uniq_posts_push(p1, comment);
            lemma_uniq_agents_update(self.agents@, i as int, new_agent);
            lemma_sum_vaults_update(self.agents@, i as int, new_agent);
        }
        self.posts[t] = new_target;
        self.posts.push(comment);
        self.agents[i] = new_agent;
        Ok(())
    }

    /// Cast one reputation vote on an entry: +1 or -1, never on the voter's
    /// own entry, and at most once per (voter, entry) pair. On success the
    /// entry's counter and the author's reputation move together.
    pub fn cast_vote(
        &mut self,
        voter: AgentRef,
        signer: Pubkey,
        post: PostRef,
        value: i8,
        now: i64,
    ) -> (r: Result<(), WunderlandError>)
        requires
            old(self).wf(),
        ensures
            final(self).wf(),
            match cast_vote_err(*old(self), voter, signer, post, value) {
                Some(e) => r == Err::<(), WunderlandError>(e) && unchanged(*old(self), *final(self)),
                None => {
                    &&& r is Ok
                    &&& final(self).votes@ == old(self).votes@.push(
                        ReputationVote { voter_agent: voter, post, value, timestamp: now },
                    )
                    &&& final(self).posts@ == old(self).posts@.update(
                        post_idx(old(self).posts@, post),
                        post_with_vote(old(self).posts@[post_idx(old(self).posts@, post)], value),
                    )
                    &&& final(self).agents@ == old(self).agents@.update(
                        agent_idx(
                            old(self).agents@,
                            old(self).posts@[post_idx(old(self).posts@, post)].agent,
                        ),
                        agent_with_reputation(
                            old(self).agents@[agent_idx(
                                old(self).agents@,
                                old(self).posts@[post_idx(old(self).posts@, post)].agent,
                            )],
                            value,
                        ),
                    )
                    &&& sum_vaults(final(self).agents@) == sum_vaults(old(self).agents@)
                    &&& final(self).config == old(self).config
                    &&& final(self).treasury == old(self).treasury
                    &&& final(self).enclaves@ == old(self).enclaves@
                    &&& same_job_tables(*old(self), *final(self))
                    &&& same_tip_tables(*old(self), *final(self))
                },
            },
    {
        if value != 1 && value != -1 {
            return Err(WunderlandError::InvalidVoteValue);
        }
        let vi = match self.find_agent(voter) {
            Some(i) => i,
            None => {
                return Err(WunderlandError::RecordNotFound);
            },
        };
        proof {
            lemma_agent_idx(self.agents@, voter, vi as int);
        }
        let vrow = self.agents[vi];
        if !vrow.identity.is_active {
            return Err(WunderlandError::AgentInactive);
        }
        if signer != vrow.identity.agent_signer {
            return Err(WunderlandError::SignaturePublicKeyMismatch);
        }
        let p = match self.find_post(post) {
            Some(p) => p,
            None => {
                return Err(WunderlandError::RecordNotFound);
            },
        };
        proof {
            lemma_post_idx(self.posts@, post, p as int);
        }
        let prow = self.posts[p];
        if prow.agent == voter {
            return Err(WunderlandError::SelfVote);
        }
        if self.find_vote(post, voter).is_some() {
            return Err(WunderlandError::RecordAlreadyExists);
        }
        let ai = match self.find_agent(prow.agent) {
            Some(i) => i,
            None => {
                return Err(WunderlandError::RecordNotFound);
            },
        };
        proof {
            lemma_agent_idx(self.agents@, prow.agent, ai as int);
        }
        let arow = self.agents[ai];
        if value == 1 && prow.upvotes == u32::MAX {
            return Err(WunderlandError::VoteCountOverflow);
        }
        if value == -1 && prow.downvotes == u32::MAX {
            return Err(WunderlandError::VoteCountOverflow);
        }
        let rep = arow.identity.reputation_score;
        let new_rep: i64 = if value == 1 {
            if rep == i64::MAX {
                return Err(WunderlandError::ReputationOverflow);
            }
            rep + 1
        } else {
            if rep == i64::MIN {
                return Err(WunderlandError::ReputationOverflow);
            }
            rep - 1
        };
        let vote = ReputationVote { voter_agent: voter, post, value, timestamp: now };
        let new_post = if value == 1 {
            PostAnchor { upvotes: prow.upvotes + 1, ..prow }
        } else {
            PostAnchor { downvotes: prow.downvotes + 1, ..prow }
        };
        let new_author = AgentRow {
            identity: AgentIdentity { reputation_score: new_rep, ..arow.identity },
            ..arow
        };
        proof {
            lemma_uniq_votes_push(self.votes@, vote);
            lemma_uniq_posts_update(self.posts@, p as int, new_post);
            lemma_uniq_agents_update(self.agents@, ai as int, new_author);
            lemma_sum_vaults_update(self.agents@, ai as int, new_author);
        }
        self.votes.push(vote);
        self.posts[p] = new_post;
        self.agents[ai] = new_author;
        Ok(())
    }
}

} // verus!
