//! Core of a local TLS-interception relay: process-lifetime root
//! certificate-authority material, an append-only store of (URL, timestamp)
//! records with owned snapshots, frame-by-frame response-body byte
//! accounting, RFC 3339 timestamps at seconds precision, the per-unit
//! consumption steps, and the startup order that never binds a listener
//! after a fatal failure.

pub mod ca;
pub mod clock;
pub mod consume;
pub mod diag;
pub mod meter;
pub mod startup;
pub mod store;
pub mod timefmt;
