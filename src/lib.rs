//! Verified control logic of a database test harness: server version facts,
//! capability queries, fail-point guard lifecycle and idempotent fixture steps.

pub mod client;
pub mod document;
pub mod failpoint;
pub mod fixture;
pub mod handshake;
pub mod naming;
pub mod outcome;
pub mod topology;
pub mod version;
