//! Run-scoped archiving of detector trace frames.
//!
//! A message bus carries two kinds of traffic: high-rate trace frames and
//! low-rate run lifecycle signals. This library classifies each message,
//! keeps the state of the single recording session that may be open, and
//! decides for every message what has to happen to the session and its
//! sink, and which counters the message is worth.
//!
//! The library does no I/O. The consume loop that drives it receives the
//! messages, decodes trace payloads, creates and writes the sink, and
//! exports the counters.

pub mod envelope;
pub mod frame;
pub mod classify;
pub mod naming;
pub mod controller;
pub mod lifecycle;
pub mod load;
