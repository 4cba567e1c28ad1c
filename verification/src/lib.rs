//! Milestone-based escrow: a verified state machine for funds held between a
//! depositor and a recipient.
//!
//! An escrow is created with a list of milestones, funded in one piece, and
//! paid out milestone by milestone. It ends completed, cancelled, expired, or
//! resolved after a dispute. The service keeps the records and decides; it
//! moves no funds itself. For each operation it says which funds the asset
//! ledger has to move, and it changes a record only once they have moved.
//!
//! - [`types`]: the records and their mathematical models.
//! - [`errors`]: why an operation is rejected.
//! - [`fees`]: the fee kept from a refund.
//! - [`config`]: treasury, fee rate, pause flag and administrator.
//! - [`registry`]: the escrows by identifier.
//! - [`lifecycle`]: the state machine as mathematics.
//! - [`engine`]: the operations, proved against the state machine.
//! - [`accounting`]: sums over milestones and the validation of records.
//! - [`laws`]: what holds of every state the service can reach.

pub mod accounting;
pub mod config;
pub mod engine;
pub mod errors;
pub mod fees;
pub mod laws;
pub mod lifecycle;
pub mod registry;
pub mod types;
