//! Connection-acceptance, protocol-detection and session-dispatch logic for a
//! single-port ingestion endpoint: sniffing whether a fresh connection opens a
//! secure or a plain handshake, parsing message envelopes, routing payloads by
//! declared content type, and driving the per-connection dispatch loop.

pub mod dispatch;
pub mod envelope;
pub mod reply;
pub mod sniff;
