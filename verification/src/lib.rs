//! A single-instruction on-chain program: its identifier, the accounts that
//! its one instruction takes (none), and the handler of that instruction,
//! which greets from the running program's identifier and succeeds.
//!
//! The host runtime owns the log and the ledger. The handler is therefore a
//! function of plain values: it is given the log as a vector of lines and the
//! accounts behind a mutable reference, and its contract says what it does to
//! each.

pub mod context;
pub mod instructions;
pub mod program_id;

pub use crate::context::Context;
pub use crate::instructions::{greeting, initialize, Initialize, GREETING_PREFIX};
pub use crate::program_id::{check_id, id, ProgramId, ID_BYTES, ID_LEN};
