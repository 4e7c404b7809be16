//! Accounting core of a liquid-staking pool.
//!
//! The pool holds deposited principal (SOL) and issues a proportional liquid
//! claim token (LST). A single administrative authority manages compounding,
//! delegation, and its own succession through a two-phase handoff. Every
//! state transition is specified and verified here; the surrounding runtime
//! (account plumbing, token-ledger calls) lives outside this crate's core.

pub mod error;
pub mod state;
pub mod accounting;
pub mod authority;
pub mod dispatch;
pub mod codec;
pub mod laws;
