//! Two-party, time-gated fund release on a ledger: an escrow contract whose
//! funds stay locked under the sender until the work period ends, with a
//! take-action window for the sender and self-settlement for the receiver,
//! and a simpler invoice book that reuses the same ledger calls.
//!
//! The ledger and the clock stay with the host: every operation takes the
//! current block height as an argument and hands back the ledger calls that
//! the host makes, together with the notifications it emits.

pub mod contract;
pub mod deadline;
pub mod invoice;
pub mod ledger;
