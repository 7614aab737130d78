//! Wait for HTTP endpoints to become healthy.
//!
//! The core of this library is a polling engine: given the classification of
//! one HTTP attempt and the current clock reading, it decides whether the
//! check is done, whether the attempt deserves a log line (throttling
//! repeated identical outcomes), and whether the overall wait budget has run
//! out. All I/O — the HTTP request itself, the clock, the sleep, the
//! printing — is left to the caller; the decisions are verified here.
//!
//! * [`outcome`] classifies one attempt's report.
//! * [`poller`] holds the per-attempt decision engine and its model.
//! * [`laws`] states and proves the engine's guarantees.
//! * [`config`] holds the caller-supplied settings and their rules.

pub mod config;
pub mod laws;
pub mod outcome;
pub mod poller;
