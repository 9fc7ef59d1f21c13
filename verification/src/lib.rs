//! A verified state-transition handler for a ledger-hosted vote account.
//!
//! An account's data holds a three-way vote tally as twelve little-endian
//! bytes. Each invocation checks that the caller owns the account, decodes
//! the tally, applies at most one increment selected by the instruction's
//! opcode byte, and encodes the result back into the same buffer.
//!
//! The host runtime that locates accounts, marshals invocation data and
//! persists buffers lives outside this crate; it hands
//! `transition::process_instruction` one account and one payload.

pub mod codec;
pub mod identity;
pub mod tally;
pub mod transition;
