//! Entry anchoring and the one-vote-per-pair reputation rules.

use wunderland_sol::errors::WunderlandError;
use wunderland_sol::ledger::Ledger;
use wunderland_sol::state::{AgentRef, EntryKind, PostRef};

const AUTHORITY: u64 = 7;
const ENCLAVE: u64 = 77;

fn name_bytes() -> [u8; 32] {
    let mut n = [0u8; 32];
    n[0] = b'a';
    n
}

fn ready_ledger() -> (Ledger, AgentRef, AgentRef) {
    let mut l = Ledger::new();
    l.initialize_config(AUTHORITY, true).unwrap();
    l.initialize_agent(10, 1, name_bytes(), [500u16; 6], 9, 11, 1000)
        .unwrap();
    l.initialize_agent(20, 2, name_bytes(), [500u16; 6], 9, 21, 1000)
        .unwrap();
    let author = AgentRef { owner: 10, agent_id: 1 };
    let voter = AgentRef { owner: 20, agent_id: 2 };
    l.create_enclave(author, 11, ENCLAVE, 5, 1000).unwrap();
    (l, author, voter)
}

#[test]
fn anchor_post_assigns_sequential_indexes() {
    let (mut l, author, _) = ready_ledger();
    l.anchor_post(author, 11, ENCLAVE, 101, 102, 1500, 3).unwrap();
    l.anchor_post(author, 11, ENCLAVE, 103, 104, 1501, 4).unwrap();
    assert_eq!(l.posts.len(), 2);
    assert_eq!(l.posts[0].post_index, 0);
    assert_eq!(l.posts[1].post_index, 1);
    assert_eq!(l.posts[0].content_hash, 101);
    assert_eq!(l.posts[0].manifest_hash, 102);
    assert_eq!(l.posts[0].enclave, ENCLAVE);
    assert_eq!(l.posts[0].kind, EntryKind::Post);
    assert!(l.posts[0].reply_to.is_none());
    assert_eq!(l.posts[0].upvotes, 0);
    assert_eq!(l.agents[0].identity.total_entries, 2);
}

#[test]
fn anchor_post_checks_agent_signer_and_enclave() {
    let (mut l, author, _) = ready_ledger();
    assert_eq!(
        l.anchor_post(author, 12, ENCLAVE, 101, 102, 1500, 3),
        Err(WunderlandError::SignaturePublicKeyMismatch)
    );
    assert_eq!(
        l.anchor_post(author, 11, 88, 101, 102, 1500, 3),
        Err(WunderlandError::RecordNotFound)
    );
    let missing = AgentRef { owner: 99, agent_id: 99 };
    assert_eq!(
        l.anchor_post(missing, 11, ENCLAVE, 101, 102, 1500, 3),
        Err(WunderlandError::RecordNotFound)
    );
    assert!(l.posts.is_empty());
}

#[test]
fn anchor_comment_counts_on_the_target() {
    let (mut l, author, other) = ready_ledger();
    l.anchor_post(author, 11, ENCLAVE, 101, 102, 1500, 3).unwrap();
    let root = PostRef { agent: author, index: 0 };
    l.anchor_comment(other, 21, root, 201, 202, 1600, 5).unwrap();
    assert_eq!(l.posts.len(), 2);
    assert_eq!(l.posts[0].comment_count, 1);
    assert_eq!(l.posts[1].kind, EntryKind::Comment);
    assert_eq!(l.posts[1].reply_to, Some(root));
    assert_eq!(l.posts[1].enclave, ENCLAVE);
    assert_eq!(l.posts[1].post_index, 0);
    assert_eq!(l.agents[1].identity.total_entries, 1);
}

#[test]
fn anchor_comment_requires_an_existing_target() {
    let (mut l, _, other) = ready_ledger();
    let missing = PostRef {
        agent: AgentRef { owner: 10, agent_id: 1 },
        index: 5,
    };
    assert_eq!(
        l.anchor_comment(other, 21, missing, 201, 202, 1600, 5),
        Err(WunderlandError::InvalidReplyTarget)
    );
    assert!(l.posts.is_empty());
}

#[test]
fn votes_move_counters_and_reputation_together() {
    let (mut l, author, voter) = ready_ledger();
    l.anchor_post(author, 11, ENCLAVE, 101, 102, 1500, 3).unwrap();
    let post = PostRef { agent: author, index: 0 };
    l.cast_vote(voter, 21, post, 1, 1700).unwrap();
    assert_eq!(l.posts[0].upvotes, 1);
    assert_eq!(l.posts[0].downvotes, 0);
    assert_eq!(l.agents[0].identity.reputation_score, 1);
    assert_eq!(l.votes.len(), 1);
    assert_eq!(l.votes[0].value, 1);

    // a third agent votes the other way
    l.initialize_agent(30, 3, name_bytes(), [500u16; 6], 9, 31, 1000)
        .unwrap();
    let third = AgentRef { owner: 30, agent_id: 3 };
    l.cast_vote(third, 31, post, -1, 1701).unwrap();
    assert_eq!(l.posts[0].upvotes, 1);
    assert_eq!(l.posts[0].downvotes, 1);
    assert_eq!(l.agents[0].identity.reputation_score, 0);
}

#[test]
fn vote_value_must_be_unit() {
    let (mut l, author, voter) = ready_ledger();
    l.anchor_post(author, 11, ENCLAVE, 101, 102, 1500, 3).unwrap();
    let post = PostRef { agent: author, index: 0 };
    for v in [0i8, 2, -2, 100] {
        assert_eq!(
            l.cast_vote(voter, 21, post, v, 1700),
            Err(WunderlandError::InvalidVoteValue)
        );
    }
    assert!(l.votes.is_empty());
}

#[test]
fn self_vote_is_refused_and_changes_nothing() {
    let (mut l, author, _) = ready_ledger();
    l.anchor_post(author, 11, ENCLAVE, 101, 102, 1500, 3).unwrap();
    let post = PostRef { agent: author, index: 0 };
    assert_eq!(
        l.cast_vote(author, 11, post, 1, 1700),
        Err(WunderlandError::SelfVote)
    );
    assert_eq!(l.posts[0].upvotes, 0);
    assert_eq!(l.posts[0].downvotes, 0);
    assert_eq!(l.agents[0].identity.reputation_score, 0);
    assert!(l.votes.is_empty());
}

#[test]
fn second_vote_on_the_same_entry_is_refused() {
    let (mut l, author, voter) = ready_ledger();
    l.anchor_post(author, 11, ENCLAVE, 101, 102, 1500, 3).unwrap();
    let post = PostRef { agent: author, index: 0 };
    l.cast_vote(voter, 21, post, 1, 1700).unwrap();
    // a repeat vote fails whatever its value, and counters stay put
    assert_eq!(
        l.cast_vote(voter, 21, post, 1, 1701),
        Err(WunderlandError::RecordAlreadyExists)
    );
    assert_eq!(
        l.cast_vote(voter, 21, post, -1, 1702),
        Err(WunderlandError::RecordAlreadyExists)
    );
    assert_eq!(l.posts[0].upvotes, 1);
    assert_eq!(l.posts[0].downvotes, 0);
    assert_eq!(l.agents[0].identity.reputation_score, 1);
    assert_eq!(l.votes.len(), 1);
}
