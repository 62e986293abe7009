//! Keeps a torrent client's listening port in step with the port that a VPN
//! sidecar has forwarded: reply decoding, the per-pass reconciliation state
//! machine, and the scheduling decisions around it.

pub mod decimal;
pub mod json;
pub mod wire;
pub mod reconcile;
pub mod laws;
pub mod schedule;
