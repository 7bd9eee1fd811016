//! Identity and configuration registry: one-time initialization, agent
//! registration with tiered fees, and signer rotation.

use vstd::prelude::*;

use crate::errors::WunderlandError;
use crate::ledger::{
    agent_idx, has_agent, lemma_agent_idx, lemma_sum_vaults_push, lemma_sum_vaults_update,
    lemma_uniq_agents_push, lemma_uniq_agents_update, same_entry_tables, same_job_tables,
    same_tip_tables, sum_vaults, unchanged, Ledger,
};
use crate::state::{
    agent_key, display_name_nonempty, registration_fee_lamports, spec_registration_fee,
    traits_valid, AgentIdentity, AgentRef, AgentRow, AgentVault, Digest, GlobalTreasury,
    ProgramConfig, Pubkey,
};

verus! {

/// The verdict of `initialize_config`, checks in call order.
pub open spec fn initialize_config_err(l: Ledger, authority_verified: bool) -> Option<
    WunderlandError,
> {
    if !authority_verified {
        Some(WunderlandError::UnauthorizedAuthority)
    } else if l.config is Some {
        Some(WunderlandError::RecordAlreadyExists)
    } else {
        None
    }
}

/// The verdict of `initialize_agent`, checks in call order.
pub open spec fn initialize_agent_err(
    l: Ledger,
    owner: Pubkey,
    agent_id: Digest,
    display_name: Seq<u8>,
    traits: Seq<u16>,
    agent_signer: Pubkey,
) -> Option<WunderlandError> {
    if !traits_valid(traits) {
        Some(WunderlandError::InvalidTraitValue)
    } else if !display_name_nonempty(display_name) {
        Some(WunderlandError::EmptyDisplayName)
    } else if agent_signer == owner {
        Some(WunderlandError::AgentSignerEqualsOwner)
    } else if l.config is None {
        Some(WunderlandError::RecordNotFound)
    } else if has_agent(l.agents@, AgentRef { owner, agent_id }) {
        Some(WunderlandError::RecordAlreadyExists)
    } else if l.config->0.agent_count == u32::MAX {
        Some(WunderlandError::ArithmeticOverflow)
    } else if l.treasury->0.total_collected + spec_registration_fee(l.config->0.agent_count)
        > u64::MAX {
        Some(WunderlandError::ArithmeticOverflow)
    } else {
        None
    }
}

/// The agent row written by a successful registration.
pub open spec fn new_agent_row(
    owner: Pubkey,
    agent_id: Digest,
    display_name: [u8; 32],
    hexaco_traits: [u16; 6],
    metadata_hash: Digest,
    agent_signer: Pubkey,
    now: i64,
) -> AgentRow {
    AgentRow {
        identity: AgentIdentity {
            owner,
            agent_id,
            agent_signer,
            display_name,
            hexaco_traits,
            citizen_level: 1u8,
            xp: 0u64,
            total_entries: 0u32,
            reputation_score: 0i64,
            metadata_hash,
            created_at: now,
            updated_at: now,
            is_active: true,
        },
        vault: AgentVault { agent: AgentRef { owner, agent_id }, balance: 0u64 },
    }
}

/// The verdict of `rotate_agent_signer`, checks in call order.
pub open spec fn rotate_agent_signer_err(
    l: Ledger,
    agent: AgentRef,
    caller: Pubkey,
    new_agent_signer: Pubkey,
) -> Option<WunderlandError> {
    if !has_agent(l.agents@, agent) {
        Some(WunderlandError::RecordNotFound)
    } else if caller != l.agents@[agent_idx(l.agents@, agent)].identity.agent_signer {
        Some(WunderlandError::UnauthorizedAuthority)
    } else if new_agent_signer == l.agents@[agent_idx(l.agents@, agent)].identity.owner {
        Some(WunderlandError::AgentSignerEqualsOwner)
    } else {
        None
    }
}

/// Registration is gated on the trait array: it is refused with the
/// trait-value error exactly when some trait lies outside the admissible
/// range, whatever the other arguments hold.
pub proof fn lemma_trait_gate(
    l: Ledger,
    owner: Pubkey,
    agent_id: Digest,
    display_name: Seq<u8>,
    traits: Seq<u16>,
    agent_signer: Pubkey,
)
    ensures
        initialize_agent_err(l, owner, agent_id, display_name, traits, agent_signer) == Some(
            WunderlandError::InvalidTraitValue,
        ) <==> !traits_valid(traits),
{
}

impl Ledger {
    /// Create the singleton configuration and treasury, exactly once.
    ///
    /// The hosting runtime verifies that the caller is the program upgrade
    /// authority and passes that fact in as `authority_verified`.
    pub fn initialize_config(&mut self, authority: Pubkey, authority_verified: bool) -> (r: Result<
        (),
        WunderlandError,
    >)
        requires
            old(self).wf(),
        ensures
            final(self).wf(),
            match initialize_config_err(*old(self), authority_verified) {
                Some(e) => r == Err::<(), WunderlandError>(e) && unchanged(*old(self), *final(self)),
                None => {
                    &&& r is Ok
                    &&& final(self).config == Some(
                        ProgramConfig { authority, agent_count: 0u32, enclave_count: 0u32 },
                    )
                    &&& final(self).treasury == Some(
                        GlobalTreasury { authority, total_collected: 0u64 },
                    )
                    &&& final(self).agents@ == old(self).agents@
                    &&& final(self).enclaves@ == old(self).enclaves@
                    &&& same_entry_tables(*old(self), *final(self))
                    &&& same_job_tables(*old(self), *final(self))
                    &&& same_tip_tables(*old(self), *final(self))
                },
            },
    {
        if !authority_verified {
            return Err(WunderlandError::UnauthorizedAuthority);
        }
        if self.config.is_some() {
            return Err(WunderlandError::RecordAlreadyExists);
        }
        self.config = Some(ProgramConfig { authority, agent_count: 0, enclave_count: 0 });
        self.treasury = Some(GlobalTreasury { authority, total_collected: 0 });
        Ok(())
    }

    /// Register a new agent identity with its empty vault, collecting the
    /// tiered registration fee into the treasury.
    ///
    /// The fee is a pure step function of the agent count as it stood before
    /// this registration.
    pub fn initialize_agent(
        &mut self,
        owner: Pubkey,
        agent_id: Digest,
        display_name: [u8; 32],
        hexaco_traits: [u16; 6],
        metadata_hash: Digest,
        agent_signer: Pubkey,
        now: i64,
    ) -> (r: Result<(), WunderlandError>)
        requires
            old(self).wf(),
        ensures
            final(self).wf(),
            match initialize_agent_err(
                *old(self),
                owner,
                agent_id,
                display_name@,
                hexaco_traits@,
                agent_signer,
            ) {
                Some(e) => r == Err::<(), WunderlandError>(e) && unchanged(*old(self), *final(self)),
                None => {
                    &&& r is Ok
                    &&& final(self).config == Some(
                        ProgramConfig {
                            authority: old(self).config->0.authority,
                            agent_count: (old(self).config->0.agent_count + 1) as u32,
                            enclave_count: old(self).config->0.enclave_count,
                        },
                    )
                    &&& final(self).treasury == Some(
                        GlobalTreasury {
                            authority: old(self).treasury->0.authority,
                            total_collected: (old(self).treasury->0.total_collected
                                + spec_registration_fee(old(self).config->0.agent_count)) as u64,
                        },
                    )
                    &&& final(self).agents@ == old(self).agents@.push(
                        new_agent_row(
                            owner,
                            agent_id,
                            display_name,
                            hexaco_traits,
                            metadata_hash,
                            agent_signer,
                            now,
                        ),
                    )
                    &&& sum_vaults(final(self).agents@) == sum_vaults(old(self).agents@)
                    &&& final(self).enclaves@ == old(self).enclaves@
                    &&& same_entry_tables(*old(self), *final(self))
                    &&& same_job_tables(*old(self), *final(self))
                    &&& same_tip_tables(*old(self), *final(self))
                },
            },
    {
        if !crate::state::validate_traits(&hexaco_traits) {
            return Err(WunderlandError::InvalidTraitValue);
        }
        if !crate::state::check_display_name(&display_name) {
            return Err(WunderlandError::EmptyDisplayName);
        }
        if agent_signer == owner {
            return Err(WunderlandError::AgentSignerEqualsOwner);
        }
        let (config, treasury) = match (&self.config, &self.treasury) {
            (Some(c), Some(t)) => (*c, *t),
            _ => {
                return Err(WunderlandError::RecordNotFound);
            },
        };
        let key = AgentRef { owner, agent_id };
        if self.find_agent(key).is_some() {
            return Err(WunderlandError::RecordAlreadyExists);
        }
        if config.agent_count == u32::MAX {
            return Err(WunderlandError::ArithmeticOverflow);
        }
        let fee = registration_fee_lamports(config.agent_count);
        let total = match treasury.total_collected.checked_add(fee) {
            Some(v) => v,
            None => {
                return Err(WunderlandError::ArithmeticOverflow);
            },
        };
        let row = AgentRow {
            identity: AgentIdentity {
                owner,
                agent_id,
                agent_signer,
                display_name,
                hexaco_traits,
                citizen_level: 1,
                xp: 0,
                total_entries: 0,
                reputation_score: 0,
                metadata_hash,
                created_at: now,
                updated_at: now,
                is_active: true,
            },
            vault: AgentVault { agent: key, balance: 0 },
        };
        proof {
            lemma_uniq_agents_push(self.agents@, row);
            lemma_sum_vaults_push(self.agents@, row);
        }
        self.config = Some(
            ProgramConfig {
                authority: config.authority,
                agent_count: config.agent_count + 1,
                enclave_count: config.enclave_count,
            },
        );
        self.treasury = Some(GlobalTreasury { authority: treasury.authority, total_collected: total });
        self.agents.push(row);
        Ok(())
    }

    /// Replace an agent's posting signer key; authorized only by the current
    /// signer, and the new signer may not equal the owner wallet.
    pub fn rotate_agent_signer(
        &mut self,
        agent: AgentRef,
        caller: Pubkey,
        new_agent_signer: Pubkey,
        now: i64,
    ) -> (r: Result<(), WunderlandError>)
        requires
            old(self).wf(),
        ensures
            final(self).wf(),
            match rotate_agent_signer_err(*old(self), agent, caller, new_agent_signer) {
                Some(e) => r == Err::<(), WunderlandError>(e) && unchanged(*old(self), *final(self)),
                None => {
                    &&& r is Ok
                    &&& final(self).agents@ == old(self).agents@.update(
                        agent_idx(old(self).agents@, agent),
                        (AgentRow {
                            identity: AgentIdentity {
                                agent_signer: new_agent_signer,
                                updated_at: now,
                                ..old(self).agents@[agent_idx(old(self).agents@, agent)].identity
                            },
                            ..old(self).agents@[agent_idx(old(self).agents@, agent)]
                        }),
                    )
                    &&& sum_vaults(final(self).agents@) == sum_vaults(old(self).agents@)
                    &&& final(self).config == old(self).config
                    &&& final(self).treasury == old(self).treasury
                    &&& final(self).enclaves@ == old(self).enclaves@
                    &&& same_entry_tables(*old(self), *final(self))
                    &&& same_job_tables(*old(self), *final(self))
                    &&& same_tip_tables(*old(self), *final(self))
                },
            },
    {
        let i = match self.find_agent(agent) {
            Some(i) => i,
            None => {
                return Err(WunderlandError::RecordNotFound);
            },
        };
        proof {
            lemma_agent_idx(self.agents@, agent, i as int);
        }
        let row = self.agents[i];
        if caller != row.identity.agent_signer {
            return Err(WunderlandError::UnauthorizedAuthority);
        }
        if new_agent_signer == row.identity.owner {
            return Err(WunderlandError::AgentSignerEqualsOwner);
        }
        let new_row = AgentRow {
            identity: AgentIdentity {
                agent_signer: new_agent_signer,
                updated_at: now,
                ..row.identity
            },
            ..row
        };
        proof {
            lemma_uniq_agents_update(self.agents@, i as int, new_row);
            lemma_sum_vaults_update(self.agents@, i as int, new_row);
        }
        self.agents[i] = new_row;
        Ok(())
    }
}

} // verus!
