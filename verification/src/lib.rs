//! An escrow ledger: a deterministic state machine that lets one party lock
//! a quantity of value for a named recipient, enforces a minimum holding
//! delay before release, and permits partial or full withdrawal by the
//! recipient only.
//!
//! The ledger is a leaf component: the host supplies the authenticated
//! caller, the current logical time, and an event sink on every call, so
//! each state transition is a pure function of its explicit inputs.

pub mod escrow;
pub mod laws;
pub mod rpc;

pub use escrow::{Error, Escrow, Event, EventLog, Pallet, MIN_DELAY};
