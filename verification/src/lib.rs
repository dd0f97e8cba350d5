//! Core of a balance-bridge service: it receives balance/transaction queries
//! for a single address or an extended public key, resolves them against a
//! fragile single-threaded indexing backend behind a serializing gate with
//! rate limiting, timeouts and cooldowns, and answers over a store-and-forward
//! pub/sub transport, correlating responses to requests by an opaque tag.
//!
//! All decision logic is verified; the surrounding I/O (relay transport,
//! backend RPC, clocks, files) is driven by a thin unverified shell that
//! feeds plain values in and carries plain values out.

pub mod backend;
pub mod correlation;
pub mod errors;
pub mod flow;
pub mod gate;
pub mod json;
pub mod orchestrator;
pub mod order;
pub mod protocol;
pub mod qr;
pub mod relays;
pub mod xpub;
