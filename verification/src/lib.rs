//! A time-locked token custody library.
//!
//! An administrator configures a default lock duration and an append-only
//! allow-list of supported token mints. Users deposit ("lock") balances into a
//! per-(owner, mint) vault and withdraw ("unlock") the full balance once the
//! lock window has elapsed. Every deposit while a vault is active accumulates
//! the amount and restarts the window from the deposit's timestamp.
//!
//! The library is the state machine alone: it decides, for each operation,
//! whether it succeeds, which error it fails with, how the records change, and
//! which ledger transfer the host must perform. Account storage, the transfer
//! primitive and the clock belong to the hosting ledger.
#![verifier::loop_isolation(false)]

pub mod error;
pub mod keys;
pub mod program;
pub mod records;
pub mod vault_map;
