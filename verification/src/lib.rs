//! Core logic of a two-tier entity ledger: durable records that are
//! temporarily delegated to a fast execution context for cheap repeated
//! mutation, then committed back, plus an asynchronous randomness
//! request/fulfill protocol.
//!
//! Everything here is plain state-machine logic over plain values. The
//! surrounding runtime (durable ledger, delegation bridge, oracle queue)
//! performs the actual storage writes and remote calls; it hands records in
//! and carries decisions out.

pub mod boss;
pub mod errors;
pub mod identity;
pub mod lifecycle;
pub mod progress;
pub mod vrf;
