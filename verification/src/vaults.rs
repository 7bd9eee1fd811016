//! Vault accounting: deposits into and owner-authorized withdrawals from an
//! agent's custodial balance.

use vstd::prelude::*;

use crate::errors::WunderlandError;
use crate::ledger::{
    agent_idx, has_agent, lemma_agent_idx, lemma_sum_vaults_update, lemma_uniq_agents_update,
    same_entry_tables, same_job_tables, same_tip_tables, sum_vaults, unchanged, Ledger,
};
use crate::state::{AgentRef, AgentRow, AgentVault, Pubkey};

verus! {

/// The verdict of `deposit_to_vault`, checks in call order.
pub open spec fn deposit_to_vault_err(l: Ledger, agent: AgentRef, lamports: u64) -> Option<
    WunderlandError,
> {
    if !has_agent(l.agents@, agent) {
        Some(WunderlandError::RecordNotFound)
    } else if l.agents@[agent_idx(l.agents@, agent)].vault.balance + lamports > u64::MAX {
        Some(WunderlandError::ArithmeticOverflow)
    } else {
        None
    }
}

/// The verdict of `withdraw_from_vault`, checks in call order.
pub open spec fn withdraw_from_vault_err(
    l: Ledger,
    agent: AgentRef,
    caller: Pubkey,
    lamports: u64,
) -> Option<WunderlandError> {
    if !has_agent(l.agents@, agent) {
        Some(WunderlandError::RecordNotFound)
    } else if caller != l.agents@[agent_idx(l.agents@, agent)].identity.owner {
        Some(WunderlandError::UnauthorizedAuthority)
    } else if l.agents@[agent_idx(l.agents@, agent)].vault.balance < lamports {
        Some(WunderlandError::InsufficientVaultBalance)
    } else {
        None
    }
}

/// The agent row with its vault balance replaced.
pub open spec fn with_balance(row: AgentRow, balance: u64) -> AgentRow {
    AgentRow { vault: AgentVault { balance, ..row.vault }, ..row }
}

impl Ledger {
    /// Credit externally supplied funds to an agent's vault. The hosting
    /// runtime moves the depositor's funds; the ledger records the balance.
    pub fn deposit_to_vault(&mut self, agent: AgentRef, lamports: u64) -> (r: Result<
        (),
        WunderlandError,
    >)
        requires
            old(self).wf(),
        ensures
            final(self).wf(),
            match deposit_to_vault_err(*old(self), agent, lamports) {
                Some(e) => r == Err::<(), WunderlandError>(e) && unchanged(*old(self), *final(self)),
                None => {
                    &&& r is Ok
                    &&& final(self).agents@ == old(self).agents@.update(
                        agent_idx(old(self).agents@, agent),
                        with_balance(
                            old(self).agents@[agent_idx(old(self).agents@, agent)],
                            (old(self).agents@[agent_idx(old(self).agents@, agent)].vault.balance
                                + lamports) as u64,
                        ),
                    )
                    &&& sum_vaults(final(self).agents@) == sum_vaults(old(self).agents@)
                        + lamports
                    &&& final(self).config == old(self).config
                    &&& final(self).treasury == old(self).treasury
                    &&& final(self).enclaves@ == old(self).enclaves@
                    &&& same_entry_tables(*old(self), *final(self))
                    &&& same_job_tables(*old(self), *final(self))
                    &&& same_tip_tables(*old(self), *final(self))
                },
            },
    {
        let i = match self.find_agent(agent) {
            Some(i) => i,
            None => {
                return Err(WunderlandError::RecordNotFound);
            },
        };
        proof {
            lemma_agent_idx(self.agents@, agent, i as int);
        }
        let row = self.agents[i];
        let balance = match row.vault.balance.checked_add(lamports) {
            Some(v) => v,
            None => {
                return Err(WunderlandError::ArithmeticOverflow);
            },
        };
        let new_row = AgentRow { vault: AgentVault { balance, ..row.vault }, ..row };
        proof {
            lemma_uniq_agents_update(self.agents@, i as int, new_row);
            lemma_sum_vaults_update(self.agents@, i as int, new_row);
        }
        self.agents[i] = new_row;
        Ok(())
    }

    /// Pay out part of an agent's vault to its owner wallet; the hosting
    /// runtime hands the funds to the owner, the ledger debits the balance.
    pub fn withdraw_from_vault(&mut self, agent: AgentRef, caller: Pubkey, lamports: u64) -> (r:
        Result<(), WunderlandError>)
        requires
            old(self).wf(),
        ensures
            final(self).wf(),
            match withdraw_from_vault_err(*old(self), agent, caller, lamports) {
                Some(e) => r == Err::<(), WunderlandError>(e) && unchanged(*old(self), *final(self)),
                None => {
                    &&& r is Ok
                    &&& final(self).agents@ == old(self).agents@.update(
                        agent_idx(old(self).agents@, agent),
                        with_balance(
                            old(self).agents@[agent_idx(old(self).agents@, agent)],
                            (old(self).agents@[agent_idx(old(self).agents@, agent)].vault.balance
                                - lamports) as u64,
                        ),
                    )
                    &&& sum_vaults(final(self).agents@) == sum_vaults(old(self).agents@)
                        - lamports
                    &&& final(self).config == old(self).config
                    &&& final(self).treasury == old(self).treasury
                    &&& final(self).enclaves@ == old(self).enclaves@
                    &&& same_entry_tables(*old(self), *final(self))
                    &&& same_job_tables(*old(self), *final(self))
                    &&& same_tip_tables(*old(self), *final(self))
                },
            },
    {
        let i = match self.find_agent(agent) {
            Some(i) => i,
            None => {
                return Err(WunderlandError::RecordNotFound);
            },
        };
        proof {
            lemma_agent_idx(self.agents@, agent, i as int);
        }
        let row = self.agents[i];
        if caller != row.identity.owner {
            return Err(WunderlandError::UnauthorizedAuthority);
        }
        if row.vault.balance < lamports {
            return Err(WunderlandError::InsufficientVaultBalance);
        }
        let new_row = AgentRow {
            vault: AgentVault { balance: row.vault.balance - lamports, ..row.vault },
            ..row
        };
        proof {
            lemma_uniq_agents_update(self.agents@, i as int, new_row);
            lemma_sum_vaults_update(self.agents@, i as int, new_row);
        }
        self.agents[i] = new_row;
        Ok(())
    }
}

} // verus!
