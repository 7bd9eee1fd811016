//! A deterministic, invariant-heavy ledger for two escrow-backed workflows —
//! a job marketplace and a tip pipeline — layered on an identity and
//! reputation registry with per-agent custodial balances.
//!
//! Every public operation is a single all-or-nothing transition of a
//! [`ledger::Ledger`]: on any error the ledger is unchanged. The hosting
//! runtime (total ordering, signature verification, wall-clock reads and the
//! actual movement of external funds) stays outside; operations receive the
//! authenticated caller key and the clock snapshot as plain arguments.

pub mod enclaves;
pub mod entries;
pub mod errors;
pub mod identity;
pub mod jobs;
pub mod ledger;
pub mod state;
pub mod tips;
pub mod vaults;
