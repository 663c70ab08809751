//! A process supervisor for a single long-lived child server process:
//! launch validation, health monitoring with backoff and failure escalation,
//! and policy-driven error recovery.
//!
//! The decision logic is verified; process spawning, networking and file
//! handling live with the callers, which feed their observations in as plain
//! values and carry the returned plans out.

pub mod backoff;
pub mod clock;
pub mod console;
pub mod info;
pub mod monitor;
pub mod ports;
pub mod probe;
pub mod recovery;
pub mod status;
pub mod supervisor;
pub mod text;
pub mod update;
