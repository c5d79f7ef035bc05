//! A single-node, append-only ledger: a chain of sealed blocks, each stamped
//! by a sequential hash clock, fed by a pool of admitted transactions.
//!
//! The ledger itself lives in `clock`, `transaction`, `block`, `blockchain`
//! and `pipeline`; what holds of it in every state is proved in `laws` and
//! `canonical`. The other modules hold the rules of what surrounds the
//! ledger: wallets, governance, the market, access, and the shapes of
//! answers, events and store addresses.

pub mod api;
pub mod block;
pub mod blockchain;
pub mod canonical;
pub mod clock;
pub mod database;
pub mod digest;
pub mod encoding;
pub mod error;
pub mod governance;
pub mod laws;
pub mod market;
pub mod network;
pub mod pipeline;
pub mod security;
pub mod signature;
pub mod time;
pub mod transaction;
pub mod wallet;
