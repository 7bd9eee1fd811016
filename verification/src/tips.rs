//! Tip pipeline state machine: submission with derived priority and
//! sliding-window rate limiting, then settlement, registrar refund, or
//! tipper-claimed timeout reclaim — each resolving the escrow exactly once.

use vstd::prelude::*;

use crate::errors::WunderlandError;
use crate::ledger::{
    enclave_idx, has_enclave, has_rate_limit, has_tip, lemma_enclave_idx, lemma_rate_limit_idx,
    lemma_sum_tip_escrows_push, lemma_sum_tip_escrows_update, lemma_tip_idx,
    lemma_uniq_rate_limits_push, lemma_uniq_rate_limits_update, lemma_uniq_tips_push,
    lemma_uniq_tips_update, rate_limit_idx, same_entry_tables, same_job_tables, sum_tip_escrows,
    tip_idx, unchanged, Ledger,
};
use crate::state::{
    rate_limit_after, rate_limit_err, spec_tip_priority, tip_timed_out, Digest, GlobalTreasury,
    Pubkey, TipAnchor, TipEscrow, TipRef, TipRow, TipSourceType, TipStatus, TipperRateLimit,
    HOUR_WINDOW_SECONDS, TIP_TIMEOUT_SECONDS,
};

verus! {

/// Share of an enclave-targeted tip paid to the enclave's owner wallet at
/// settlement, in percent.
pub const ENCLAVE_TIP_SHARE_PERCENT: u64 = 30;

/// The enclave owner's share of a settled tip, rounded down.
pub open spec fn spec_enclave_share(amount: u64) -> u64 {
    (amount * ENCLAVE_TIP_SHARE_PERCENT / 100) as u64
}

/// The rounded-down percentage share never exceeds the amount.
pub proof fn lemma_enclave_share_bound(amount: u64)
    ensures
        spec_enclave_share(amount) <= amount,
        amount * ENCLAVE_TIP_SHARE_PERCENT / 100 == spec_enclave_share(amount),
{
    assert(amount * ENCLAVE_TIP_SHARE_PERCENT / 100 <= amount) by (nonlinear_arith);
    assert(amount * ENCLAVE_TIP_SHARE_PERCENT >= 0) by (nonlinear_arith);
}

/// What the treasury collects when a tip settles: everything, less the
/// enclave owner's share when the tip targets an enclave.
pub open spec fn settle_treasury_part(row: TipRow) -> u64 {
    if row.anchor.target_enclave is Some {
        (row.anchor.amount - spec_enclave_share(row.anchor.amount)) as u64
    } else {
        row.anchor.amount
    }
}

/// How a settled tip's escrow was distributed. The treasury share is
/// recorded in the ledger; the enclave share is handed back to the hosting
/// runtime to pay the enclave's owner wallet.
#[derive(Clone, Copy, Debug, PartialEq, Eq, Structural)]
pub struct TipSettlement {
    /// Minor units collected into the treasury.
    pub treasury_amount: u64,
    /// Owner wallet owed the enclave share, when the tip targeted an enclave.
    pub enclave_owner: Option<Pubkey>,
    /// Minor units owed to the enclave owner.
    pub enclave_amount: u64,
}

/// Source type from its wire encoding: 1 is a link, anything else is text.
pub open spec fn spec_source_type(source_type: u8) -> TipSourceType {
    if source_type == 1 {
        TipSourceType::Url
    } else {
        TipSourceType::Text
    }
}

/// The rate-limit record a submission is judged against: the tipper's stored
/// record, or a fresh one whose windows are already expired.
pub open spec fn effective_rate_limit(l: Ledger, tipper: Pubkey, now: i64) -> TipperRateLimit {
    if has_rate_limit(l.rate_limits@, tipper) {
        l.rate_limits@[rate_limit_idx(l.rate_limits@, tipper)]
    } else {
        TipperRateLimit {
            tipper,
            tips_this_minute: 0u16,
            tips_this_hour: 0u16,
            minute_reset_at: now,
            hour_reset_at: now,
        }
    }
}

/// The tip row written by a successful `submit_tip`.
pub open spec fn new_tip_row(
    tipper: Pubkey,
    content_hash: Digest,
    amount: u64,
    source_type: u8,
    target_enclave: Option<Digest>,
    tip_nonce: u64,
    now: i64,
) -> TipRow {
    TipRow {
        anchor: TipAnchor {
            tipper,
            content_hash,
            amount,
            priority: spec_tip_priority(amount),
            source_type: spec_source_type(source_type),
            target_enclave,
            tip_nonce,
            created_at: now,
            status: TipStatus::Pending,
        },
        escrow: TipEscrow { tip: TipRef { tipper, nonce: tip_nonce }, amount },
    }
}

/// A tip row after leaving the pending status: the escrow is zeroed in the
/// same transition.
pub open spec fn tip_resolved(row: TipRow, status: TipStatus) -> TipRow {
    TipRow {
        anchor: TipAnchor { status, ..row.anchor },
        escrow: TipEscrow { amount: 0u64, ..row.escrow },
    }
}

/// The verdict of `submit_tip`, checks in call order.
pub open spec fn submit_tip_err(
    l: Ledger,
    tipper: Pubkey,
    amount: u64,
    tip_nonce: u64,
    target_enclave: Option<Digest>,
    now: i64,
) -> Option<WunderlandError> {
    if amount < TipAnchor::MIN_AMOUNT {
        Some(WunderlandError::TipBelowMinimum)
    } else if target_enclave matches Some(h) && !has_enclave(l.enclaves@, h) {
        Some(WunderlandError::InvalidTargetEnclave)
    } else if target_enclave matches Some(h) && !l.enclaves@[enclave_idx(
        l.enclaves@,
        h,
    )].is_active {
        Some(WunderlandError::EnclaveInactive)
    } else if rate_limit_err(effective_rate_limit(l, tipper, now), now) is Some {
        rate_limit_err(effective_rate_limit(l, tipper, now), now)
    } else if has_tip(l.tips@, TipRef { tipper, nonce: tip_nonce }) {
        Some(WunderlandError::RecordAlreadyExists)
    } else {
        None
    }
}

/// The verdict of `settle_tip`, checks in call order.
pub open spec fn settle_tip_err(l: Ledger, tip: TipRef, caller: Pubkey) -> Option<
    WunderlandError,
> {
    if l.config is None {
        Some(WunderlandError::RecordNotFound)
    } else if caller != l.config->0.authority {
        Some(WunderlandError::UnauthorizedAuthority)
    } else if !has_tip(l.tips@, tip) {
        Some(WunderlandError::RecordNotFound)
    } else if !(l.tips@[tip_idx(l.tips@, tip)].anchor.status is Pending) {
        Some(WunderlandError::TipNotPending)
    } else if l.tips@[tip_idx(l.tips@, tip)].anchor.target_enclave matches Some(h)
        && !has_enclave(l.enclaves@, h) {
        Some(WunderlandError::InvalidTargetEnclave)
    } else if l.treasury->0.total_collected + settle_treasury_part(
        l.tips@[tip_idx(l.tips@, tip)],
    ) > u64::MAX {
        Some(WunderlandError::ArithmeticOverflow)
    } else {
        None
    }
}

/// The verdict of `refund_tip`, checks in call order.
pub open spec fn refund_tip_err(l: Ledger, tip: TipRef, caller: Pubkey) -> Option<
    WunderlandError,
> {
    if l.config is None {
        Some(WunderlandError::RecordNotFound)
    } else if caller != l.config->0.authority {
        Some(WunderlandError::UnauthorizedAuthority)
    } else if !has_tip(l.tips@, tip) {
        Some(WunderlandError::RecordNotFound)
    } else if !(l.tips@[tip_idx(l.tips@, tip)].anchor.status is Pending) {
        Some(WunderlandError::TipNotPending)
    } else {
        None
    }
}

/// The verdict of `claim_timeout_refund`, checks in call order.
pub open spec fn claim_timeout_refund_err(l: Ledger, tip: TipRef, caller: Pubkey, now: i64) -> Option<
    WunderlandError,
> {
    if !has_tip(l.tips@, tip) {
        Some(WunderlandError::RecordNotFound)
    } else if caller != l.tips@[tip_idx(l.tips@, tip)].anchor.tipper {
        Some(WunderlandError::UnauthorizedAuthority)
    } else if !(l.tips@[tip_idx(l.tips@, tip)].anchor.status is Pending) {
        Some(WunderlandError::TipNotPending)
    } else if !tip_timed_out(l.tips@[tip_idx(l.tips@, tip)].anchor.created_at, now) {
        Some(WunderlandError::TipNotTimedOut)
    } else {
        None
    }
}

impl Ledger {
    /// Submit a tip: the amount must clear the minimum, the target enclave
    /// (if any) must exist and be active, and the tipper's sliding windows
    /// must have room. The priority is derived from the amount alone. The
    /// hosting runtime moves the amount from the tipper into the escrow.
    pub fn submit_tip(
        &mut self,
        tipper: Pubkey,
        content_hash: Digest,
        amount: u64,
        source_type: u8,
        tip_nonce: u64,
        target_enclave: Option<Digest>,
        now: i64,
    ) -> (r: Result<(), WunderlandError>)
        requires
            old(self).wf(),
            now <= i64::MAX - HOUR_WINDOW_SECONDS,
        ensures
            final(self).wf(),
            match submit_tip_err(*old(self), tipper, amount, tip_nonce, target_enclave, now) {
                Some(e) => r == Err::<(), WunderlandError>(e) && unchanged(*old(self), *final(self)),
                None => {
                    &&& r is Ok
                    &&& final(self).tips@ == old(self).tips@.push(
                        new_tip_row(
                            tipper,
                            content_hash,
                            amount,
                            source_type,
                            target_enclave,
                            tip_nonce,
                            now,
                        ),
                    )
                    &&& sum_tip_escrows(final(self).tips@) == sum_tip_escrows(old(self).tips@)
                        + amount
                    &&& has_rate_limit(old(self).rate_limits@, tipper)
                        ==> final(self).rate_limits@ == old(self).rate_limits@.update(
                        rate_limit_idx(old(self).rate_limits@, tipper),
                        rate_limit_after(effective_rate_limit(*old(self), tipper, now), now),
                    )
                    &&& !has_rate_limit(old(self).rate_limits@, tipper)
                        ==> final(self).rate_limits@ == old(self).rate_limits@.push(
                        rate_limit_after(effective_rate_limit(*old(self), tipper, now), now),
                    )
                    &&& final(self).config == old(self).config
                    &&& final(self).treasury == old(self).treasury
                    &&& final(self).agents@ == old(self).agents@
                    &&& final(self).enclaves@ == old(self).enclaves@
                    &&& same_entry_tables(*old(self), *final(self))
                    &&& same_job_tables(*old(self), *final(self))
                },
            },
    {
        if amount < TipAnchor::MIN_AMOUNT {
            return Err(WunderlandError::TipBelowMinimum);
        }
        match target_enclave {
            Some(h) => {
                let e = match self.find_enclave(h) {
                    Some(e) => e,
                    None => {
                        return Err(WunderlandError::InvalidTargetEnclave);
                    },
                };
                proof {
                    lemma_enclave_idx(self.enclaves@, h, e as int);
                }
                if !self.enclaves[e].is_active {
                    return Err(WunderlandError::EnclaveInactive);
                }
            },
            None => {},
        }
        let found = self.find_rate_limit(tipper);
        let rl = match found {
            Some(i) => {
                proof {
                    lemma_rate_limit_idx(self.rate_limits@, tipper, i as int);
                }
                self.rate_limits[i]
            },
            None => TipperRateLimit::new(tipper, now),
        };
        let new_rl = match rl.note_submission(now) {
            Ok(v) => v,
            Err(e) => {
                return Err(e);
            },
        };
        let key = TipRef { tipper, nonce: tip_nonce };
        if self.find_tip(key).is_some() {
            return Err(WunderlandError::RecordAlreadyExists);
        }
        let source = if source_type == 1 {
            TipSourceType::Url
        } else {
            TipSourceType::Text
        };
        let row = TipRow {
            anchor: TipAnchor {
                tipper,
                content_hash,
                amount,
                priority: TipAnchor::derive_priority(amount),
                source_type: source,
                target_enclave,
                tip_nonce,
                created_at: now,
                status: TipStatus::Pending,
            },
            escrow: TipEscrow { tip: key, amount },
        };
        proof {
            lemma_uniq_tips_push(self.tips@, row);
            lemma_sum_tip_escrows_push(self.tips@, row);
            match target_enclave {
                Some(h) => {
                    let ei = enclave_idx(self.enclaves@, h);
                    assert(crate::state::enclave_wf(self.enclaves@[ei]));
                },
                None => {},
            }
        }
        self.tips.push(row);
        match found {
            Some(i) => {
                proof {
                    lemma_uniq_rate_limits_update(self.rate_limits@, i as int, new_rl);
                }
                self.rate_limits[i] = new_rl;
            },
            None => {
                proof {
                    lemma_uniq_rate_limits_push(self.rate_limits@, new_rl);
                }
                self.rate_limits.push(new_rl);
            },
        }
        Ok(())
    }

    /// Settle a pending tip (registrar only): the treasury collects the
    /// escrowed amount, less the enclave owner's share for targeted tips,
    /// which the hosting runtime pays to the returned owner wallet.
    pub fn settle_tip(&mut self, tip: TipRef, caller: Pubkey) -> (r: Result<
        TipSettlement,
        WunderlandError,
    >)
        requires
            old(self).wf(),
        ensures
            final(self).wf(),
            match settle_tip_err(*old(self), tip, caller) {
                Some(e) => r == Err::<TipSettlement, WunderlandError>(e) && unchanged(
                    *old(self),
                    *final(self),
                ),
                None => {
                    &&& r == Ok::<TipSettlement, WunderlandError>(
                        TipSettlement {
                            treasury_amount: settle_treasury_part(
                                old(self).tips@[tip_idx(old(self).tips@, tip)],
                            ),
                            enclave_owner: match old(self).tips@[tip_idx(
                                old(self).tips@,
                                tip,
                            )].anchor.target_enclave {
                                Some(h) => Some(
                                    old(self).enclaves@[enclave_idx(
                                        old(self).enclaves@,
                                        h,
                                    )].creator_owner,
                                ),
                                None => None,
                            },
                            enclave_amount: match old(self).tips@[tip_idx(
                                old(self).tips@,
                                tip,
                            )].anchor.target_enclave {
                                Some(h) => spec_enclave_share(
                                    old(self).tips@[tip_idx(old(self).tips@, tip)].anchor.amount,
                                ),
                                None => 0u64,
                            },
                        },
                    )
                    &&& final(self).tips@ == old(self).tips@.update(
                        tip_idx(old(self).tips@, tip),
                        tip_resolved(
                            old(self).tips@[tip_idx(old(self).tips@, tip)],
                            TipStatus::Settled,
                        ),
                    )
                    &&& final(self).treasury == Some(
                        GlobalTreasury {
                            authority: old(self).treasury->0.authority,
                            total_collected: (old(self).treasury->0.total_collected
                                + settle_treasury_part(
                                old(self).tips@[tip_idx(old(self).tips@, tip)],
                            )) as u64,
                        },
                    )
                    &&& sum_tip_escrows(final(self).tips@) + final(self).treasury->0.total_collected
                        + (match old(self).tips@[tip_idx(old(self).tips@, tip)].anchor.target_enclave {
                        Some(h) => spec_enclave_share(
                            old(self).tips@[tip_idx(old(self).tips@, tip)].anchor.amount,
                        ),
                        None => 0u64,
                    }) == sum_tip_escrows(old(self).tips@) + old(self).treasury->0.total_collected
                    &&& final(self).config == old(self).config
                    &&& final(self).agents@ == old(self).agents@
                    &&& final(self).enclaves@ == old(self).enclaves@
                    &&& final(self).rate_limits@ == old(self).rate_limits@
                    &&& same_entry_tables(*old(self), *final(self))
                    &&& same_job_tables(*old(self), *final(self))
                },
            },
    {
        let (config, treasury) = match (&self.config, &self.treasury) {
            (Some(c), Some(t)) => (*c, *t),
            _ => {
                return Err(WunderlandError::RecordNotFound);
            },
        };
        if caller != config.authority {
            return Err(WunderlandError::UnauthorizedAuthority);
        }
        let ti = match self.find_tip(tip) {
            Some(i) => i,
            None => {
                return Err(WunderlandError::RecordNotFound);
            },
        };
        proof {
            lemma_tip_idx(self.tips@, tip, ti as int);
        }
        let row = self.tips[ti];
        if !matches!(row.anchor.status, TipStatus::Pending) {
            return Err(WunderlandError::TipNotPending);
        }
        let amount = row.anchor.amount;
        let (share, owner): (u64, Option<Pubkey>) = match row.anchor.target_enclave {
            Some(h) => {
                let e = match self.find_enclave(h) {
                    Some(e) => e,
                    None => {
                        return Err(WunderlandError::InvalidTargetEnclave);
                    },
                };
                proof {
                    lemma_enclave_idx(self.enclaves@, h, e as int);
                    lemma_enclave_share_bound(amount);
                }
                let share128: u128 = (amount as u128) * (ENCLAVE_TIP_SHARE_PERCENT as u128) / 100;
                (share128 as u64, Some(self.enclaves[e].creator_owner))
            },
            None => (0, None),
        };
        proof {
            lemma_enclave_share_bound(amount);
        }
        let treasury_part = amount - share;
        let total = match treasury.total_collected.checked_add(treasury_part) {
            Some(v) => v,
            None => {
                return Err(WunderlandError::ArithmeticOverflow);
            },
        };
        let new_row = TipRow {
            anchor: TipAnchor { status: TipStatus::Settled, ..row.anchor },
            escrow: TipEscrow { amount: 0, ..row.escrow },
        };
        proof {
            lemma_uniq_tips_update(self.tips@, ti as int, new_row);
            lemma_sum_tip_escrows_update(self.tips@, ti as int, new_row);
        }
        self.tips[ti] = new_row;
        self.treasury = Some(
            GlobalTreasury { authority: treasury.authority, total_collected: total },
        );
        Ok(TipSettlement { treasury_amount: treasury_part, enclave_owner: owner, enclave_amount: share })
    }

    /// Refund a pending tip (registrar only): the escrow is zeroed and the
    /// returned amount is handed back to the hosting runtime to repay the
    /// tipper.
    pub fn refund_tip(&mut self, tip: TipRef, caller: Pubkey) -> (r: Result<u64, WunderlandError>)
        requires
            old(self).wf(),
        ensures
            final(self).wf(),
            match refund_tip_err(*old(self), tip, caller) {
                Some(e) => r == Err::<u64, WunderlandError>(e) && unchanged(*old(self), *final(self)),
                None => {
                    &&& r == Ok::<u64, WunderlandError>(
                        old(self).tips@[tip_idx(old(self).tips@, tip)].anchor.amount,
                    )
                    &&& final(self).tips@ == old(self).tips@.update(
                        tip_idx(old(self).tips@, tip),
                        tip_resolved(
                            old(self).tips@[tip_idx(old(self).tips@, tip)],
                            TipStatus::Refunded,
                        ),
                    )
                    &&& sum_tip_escrows(final(self).tips@) == sum_tip_escrows(old(self).tips@)
                        - old(self).tips@[tip_idx(old(self).tips@, tip)].anchor.amount
                    &&& final(self).config == old(self).config
                    &&& final(self).treasury == old(self).treasury
                    &&& final(self).agents@ == old(self).agents@
                    &&& final(self).enclaves@ == old(self).enclaves@
                    &&& final(self).rate_limits@ == old(self).rate_limits@
                    &&& same_entry_tables(*old(self), *final(self))
                    &&& same_job_tables(*old(self), *final(self))
                },
            },
    {
        let config = match &self.config {
            Some(c) => *c,
            None => {
                return Err(WunderlandError::RecordNotFound);
            },
        };
        if caller != config.authority {
            return Err(WunderlandError::UnauthorizedAuthority);
        }
        let ti = match self.find_tip(tip) {
            Some(i) => i,
            None => {
                return Err(WunderlandError::RecordNotFound);
            },
        };
        proof {
            lemma_tip_idx(self.tips@, tip, ti as int);
        }
        let row = self.tips[ti];
        if !matches!(row.anchor.status, TipStatus::Pending) {
            return Err(WunderlandError::TipNotPending);
        }
        let new_row = TipRow {
            anchor: TipAnchor { status: TipStatus::Refunded, ..row.anchor },
            escrow: TipEscrow { amount: 0, ..row.escrow },
        };
        proof {
            lemma_uniq_tips_update(self.tips@, ti as int, new_row);
            lemma_sum_tip_escrows_update(self.tips@, ti as int, new_row);
        }
        self.tips[ti] = new_row;
        Ok(row.anchor.amount)
    }

    /// Reclaim a pending tip after the timeout dwell (tipper only): succeeds
    /// exactly when the tip is still pending and the dwell has elapsed, with
    /// the same fund-return effect as a registrar refund.
    pub fn claim_timeout_refund(&mut self, tip: TipRef, caller: Pubkey, now: i64) -> (r: Result<
        u64,
        WunderlandError,
    >)
        requires
            old(self).wf(),
        ensures
            final(self).wf(),
            match claim_timeout_refund_err(*old(self), tip, caller, now) {
                Some(e) => r == Err::<u64, WunderlandError>(e) && unchanged(*old(self), *final(self)),
                None => {
                    &&& r == Ok::<u64, WunderlandError>(
                        old(self).tips@[tip_idx(old(self).tips@, tip)].anchor.amount,
                    )
                    &&& final(self).tips@ == old(self).tips@.update(
                        tip_idx(old(self).tips@, tip),
                        tip_resolved(
                            old(self).tips@[tip_idx(old(self).tips@, tip)],
                            TipStatus::Refunded,
                        ),
                    )
                    &&& sum_tip_escrows(final(self).tips@) == sum_tip_escrows(old(self).tips@)
                        - old(self).tips@[tip_idx(old(self).tips@, tip)].anchor.amount
                    &&& final(self).config == old(self).config
                    &&& final(self).treasury == old(self).treasury
                    &&& final(self).agents@ == old(self).agents@
                    &&& final(self).enclaves@ == old(self).enclaves@
                    &&& final(self).rate_limits@ == old(self).rate_limits@
                    &&& same_entry_tables(*old(self), *final(self))
                    &&& same_job_tables(*old(self), *final(self))
                },
            },
    {
        let ti = match self.find_tip(tip) {
            Some(i) => i,
            None => {
                return Err(WunderlandError::RecordNotFound);
            },
        };
        proof {
            lemma_tip_idx(self.tips@, tip, ti as int);
        }
        let row = self.tips[ti];
        if caller != row.anchor.tipper {
            return Err(WunderlandError::UnauthorizedAuthority);
        }
        if !matches!(row.anchor.status, TipStatus::Pending) {
            return Err(WunderlandError::TipNotPending);
        }
        let timed_out = match row.anchor.created_at.checked_add(TIP_TIMEOUT_SECONDS) {
            Some(deadline) => now >= deadline,
            None => false,
        };
        if !timed_out {
            return Err(WunderlandError::TipNotTimedOut);
        }
        let new_row = TipRow {
            anchor: TipAnchor { status: TipStatus::Refunded, ..row.anchor },
            escrow: TipEscrow { amount: 0, ..row.escrow },
        };
        proof {
            lemma_uniq_tips_update(self.tips@, ti as int, new_row);
            lemma_sum_tip_escrows_update(self.tips@, ti as int, new_row);
        }
        self.tips[ti] = new_row;
        Ok(row.anchor.amount)
    }
}

/// Amounts below the minimum are rejected outright: the submission verdict
/// is the below-minimum error exactly when the amount is short, whatever the
/// other arguments hold.
pub proof fn lemma_tip_minimum_gate(
    l: Ledger,
    tipper: Pubkey,
    amount: u64,
    tip_nonce: u64,
    target_enclave: Option<Digest>,
    now: i64,
)
    ensures
        submit_tip_err(l, tipper, amount, tip_nonce, target_enclave, now) == Some(
            WunderlandError::TipBelowMinimum,
        ) <==> amount < TipAnchor::MIN_AMOUNT,
{
}

/// Timeout reclaim by the tipper on a pending tip succeeds exactly at or
/// after the dwell time, and fails with the not-timed-out error before it.
pub proof fn lemma_timeout_reclaim_gate(l: Ledger, tip: TipRef, now: i64)
    requires
        l.wf(),
        has_tip(l.tips@, tip),
        l.tips@[tip_idx(l.tips@, tip)].anchor.status is Pending,
    ensures
        claim_timeout_refund_err(l, tip, l.tips@[tip_idx(l.tips@, tip)].anchor.tipper, now)
            is None <==> now >= l.tips@[tip_idx(l.tips@, tip)].anchor.created_at
            + TIP_TIMEOUT_SECONDS,
        !(now >= l.tips@[tip_idx(l.tips@, tip)].anchor.created_at + TIP_TIMEOUT_SECONDS)
            ==> claim_timeout_refund_err(l, tip, l.tips@[tip_idx(l.tips@, tip)].anchor.tipper, now)
            == Some(WunderlandError::TipNotTimedOut),
{
}

/// Anti-replay: once a tip has left the pending status, settling it again,
/// refunding it again, or reclaiming it all fail with the not-pending error,
/// so its escrow — already zero — is never paid out twice.
pub proof fn lemma_tip_anti_replay(l: Ledger, tip: TipRef, caller: Pubkey, now: i64)
    requires
        l.wf(),
        l.config is Some,
        caller == l.config->0.authority,
        has_tip(l.tips@, tip),
        !(l.tips@[tip_idx(l.tips@, tip)].anchor.status is Pending),
    ensures
        settle_tip_err(l, tip, caller) == Some(WunderlandError::TipNotPending),
        refund_tip_err(l, tip, caller) == Some(WunderlandError::TipNotPending),
        claim_timeout_refund_err(l, tip, l.tips@[tip_idx(l.tips@, tip)].anchor.tipper, now)
            == Some(WunderlandError::TipNotPending),
        l.tips@[tip_idx(l.tips@, tip)].escrow.amount == 0,
{
}

/// A settlement splits the escrowed amount exactly: the treasury part and
/// the enclave owner's share sum to the tip's full amount.
pub proof fn lemma_settlement_split(row: TipRow)
    ensures
        settle_treasury_part(row) + (if row.anchor.target_enclave is Some {
            spec_enclave_share(row.anchor.amount)
        } else {
            0u64
        }) == row.anchor.amount,
{
    lemma_enclave_share_bound(row.anchor.amount);
}

/// Escrow conservation for tips: in any well-formed ledger a tip's escrow
/// holds the full amount exactly while the tip is pending and exactly zero
/// once it is settled or refunded, so no escrow can be paid out twice.
pub proof fn lemma_tip_escrow_conservation(l: Ledger, i: int)
    requires
        l.wf(),
        0 <= i < l.tips@.len(),
    ensures
        l.tips@[i].anchor.amount >= TipAnchor::MIN_AMOUNT,
        l.tips@[i].anchor.priority == spec_tip_priority(l.tips@[i].anchor.amount),
        l.tips@[i].anchor.status is Pending ==> l.tips@[i].escrow.amount == l.tips@[i].anchor.amount,
        !(l.tips@[i].anchor.status is Pending) ==> l.tips@[i].escrow.amount == 0,
{
}

} // verus!
