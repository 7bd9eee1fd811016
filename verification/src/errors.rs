//! Error kinds returned by the ledger operations.
//!
//! Every operation is all-or-nothing: an error means the ledger is left
//! exactly as it was before the call.

use vstd::prelude::*;

verus! {

/// All the ways a ledger operation can refuse to run.
#[derive(Clone, Copy, Debug, PartialEq, Eq)]
pub enum WunderlandError {
    /// A HEXACO trait value was outside the range 0..=1000.
    InvalidTraitValue,
    /// A vote value other than +1 or -1 was supplied.
    InvalidVoteValue,
    /// The agent record is marked inactive.
    AgentInactive,
    /// A citizen level outside the range 1..=6.
    InvalidCitizenLevel,
    /// The display name bytes were all zero.
    EmptyDisplayName,
    /// An agent tried to vote on its own entry.
    SelfVote,
    /// The per-agent entry counter would overflow.
    PostCountOverflow,
    /// An entry's vote counter would overflow.
    VoteCountOverflow,
    /// An agent's signed reputation score would overflow.
    ReputationOverflow,
    /// The caller is not the principal this operation requires.
    UnauthorizedAuthority,
    /// The agent signer key may not equal the owner wallet key.
    AgentSignerEqualsOwner,
    /// The hosting runtime found no signature instruction beside the call.
    MissingEd25519Instruction,
    /// The hosting runtime could not parse the signature instruction.
    InvalidEd25519Instruction,
    /// The authenticated signer does not match the agent's signer key.
    SignaturePublicKeyMismatch,
    /// The signed payload does not match the submitted message.
    SignatureMessageMismatch,
    /// A comment's reply target does not exist.
    InvalidReplyTarget,
    /// A zero or otherwise unusable amount or hash was supplied.
    InvalidAmount,
    /// The vault balance is too small for the requested withdrawal.
    InsufficientVaultBalance,
    /// The authority proof names the wrong program record.
    InvalidProgramData,
    /// The program has no upgrade authority left to verify against.
    ProgramImmutable,
    /// The enclave name hash was zero.
    EmptyEnclaveNameHash,
    /// The enclave record is marked inactive.
    EnclaveInactive,
    /// The tip amount is below the minimum.
    TipBelowMinimum,
    /// The tip is not in pending status.
    TipNotPending,
    /// The tip's timeout dwell time has not elapsed yet.
    TipNotTimedOut,
    /// More than the allowed tips were submitted in the minute window.
    RateLimitMinuteExceeded,
    /// More than the allowed tips were submitted in the hour window.
    RateLimitHourExceeded,
    /// The tip's target enclave does not exist.
    InvalidTargetEnclave,
    /// Escrow contents disagree with the record they back.
    EscrowAmountMismatch,
    /// A checked addition or subtraction failed.
    ArithmeticOverflow,
    /// The caller is not the creator of the job.
    UnauthorizedJobCreator,
    /// The job is not in the open status.
    JobNotOpen,
    /// The job is not in the assigned status.
    JobNotAssigned,
    /// The job is not in the submitted status.
    JobNotSubmitted,
    /// The bid is not in the active status.
    BidNotActive,
    /// The submission's agent is not the job's assigned agent.
    UnauthorizedJobAgent,
    /// The payout destination vault does not belong to the assigned agent.
    InvalidAgentVault,
    /// The escrow record does not belong to the job being paid out.
    InvalidJobEscrow,
    /// The escrow's held value cannot cover the payout and its own keep.
    InsufficientJobEscrowBalance,
    /// A record this operation needs was never created.
    RecordNotFound,
    /// A record with the same derived key already exists.
    RecordAlreadyExists,
}

} // verus!
