//! Enclave registry: named topic namespaces owned by agents, gating entries
//! and targeted tips.

use vstd::prelude::*;

use crate::errors::WunderlandError;
use crate::ledger::{
    agent_idx, has_agent, has_enclave, lemma_agent_idx, lemma_uniq_enclaves_push,
    same_entry_tables, same_job_tables, same_tip_tables, unchanged, Ledger,
};
use crate::state::{AgentRef, Digest, Enclave, ProgramConfig, Pubkey};

verus! {

/// The verdict of `create_enclave`, checks in call order.
pub open spec fn create_enclave_err(
    l: Ledger,
    creator: AgentRef,
    signer: Pubkey,
    name_hash: Digest,
) -> Option<WunderlandError> {
    if name_hash == 0 {
        Some(WunderlandError::EmptyEnclaveNameHash)
    } else if l.config is None {
        Some(WunderlandError::RecordNotFound)
    } else if !has_agent(l.agents@, creator) {
        Some(WunderlandError::RecordNotFound)
    } else if !l.agents@[agent_idx(l.agents@, creator)].identity.is_active {
        Some(WunderlandError::AgentInactive)
    } else if signer != l.agents@[agent_idx(l.agents@, creator)].identity.agent_signer {
        Some(WunderlandError::SignaturePublicKeyMismatch)
    } else if has_enclave(l.enclaves@, name_hash) {
        Some(WunderlandError::RecordAlreadyExists)
    } else if l.config->0.enclave_count == u32::MAX {
        Some(WunderlandError::ArithmeticOverflow)
    } else {
        None
    }
}

impl Ledger {
    /// Create a new enclave owned by `creator`; its name hash is its key, and
    /// the creator's owner wallet is recorded as the tip-share recipient.
    pub fn create_enclave(
        &mut self,
        creator: AgentRef,
        signer: Pubkey,
        name_hash: Digest,
        metadata_hash: Digest,
        now: i64,
    ) -> (r: Result<(), WunderlandError>)
        requires
            old(self).wf(),
        ensures
            final(self).wf(),
            match create_enclave_err(*old(self), creator, signer, name_hash) {
                Some(e) => r == Err::<(), WunderlandError>(e) && unchanged(*old(self), *final(self)),
                None => {
                    &&& r is Ok
                    &&& final(self).enclaves@ == old(self).enclaves@.push(
                        Enclave {
                            name_hash,
                            creator_agent: creator,
                            creator_owner: old(self).agents@[agent_idx(
                                old(self).agents@,
                                creator,
                            )].identity.owner,
                            metadata_hash,
                            created_at: now,
                            is_active: true,
                        },
                    )
                    &&& final(self).config == Some(
                        ProgramConfig {
                            authority: old(self).config->0.authority,
                            agent_count: old(self).config->0.agent_count,
                            enclave_count: (old(self).config->0.enclave_count + 1) as u32,
                        },
                    )
                    &&& final(self).treasury == old(self).treasury
                    &&& final(self).agents@ == old(self).agents@
                    &&& same_entry_tables(*old(self), *final(self))
                    &&& same_job_tables(*old(self), *final(self))
                    &&& same_tip_tables(*old(self), *final(self))
                },
            },
    {
        if name_hash == 0 {
            return Err(WunderlandError::EmptyEnclaveNameHash);
        }
        let config = match &self.config {
            Some(c) => *c,
            None => {
                return Err(WunderlandError::RecordNotFound);
            },
        };
        let i = match self.find_agent(creator) {
            Some(i) => i,
            None => {
                return Err(WunderlandError::RecordNotFound);
            },
        };
        proof {
            lemma_agent_idx(self.agents@, creator, i as int);
        }
        let row = self.agents[i];
        if !row.identity.is_active {
            return Err(WunderlandError::AgentInactive);
        }
        if signer != row.identity.agent_signer {
            return Err(WunderlandError::SignaturePublicKeyMismatch);
        }
        if self.find_enclave(name_hash).is_some() {
            return Err(WunderlandError::RecordAlreadyExists);
        }
        if config.enclave_count == u32::MAX {
            return Err(WunderlandError::ArithmeticOverflow);
        }
        let enclave = Enclave {
            name_hash,
            creator_agent: creator,
            creator_owner: row.identity.owner,
            metadata_hash,
            created_at: now,
            is_active: true,
        };
        proof {
            lemma_uniq_enclaves_push(self.enclaves@, enclave);
        }
        self.enclaves.push(enclave);
        self.config = Some(
            ProgramConfig {
                authority: config.authority,
                agent_count: config.agent_count,
                enclave_count: config.enclave_count + 1,
            },
        );
        Ok(())
    }
}

} // verus!
