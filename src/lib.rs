//! A small proof-of-work ledger: blocks, mining, chain validation,
//! fork choice and the handling of peer synchronisation messages.

pub mod hexcode;
pub mod block;
pub mod chain;
pub mod sync;
pub mod cmd;
