//! A single countdown timer, kept current by lazy reconciliation against a
//! monotonic clock, together with the request/response rules of the small
//! service that exposes it and of the client that talks to that service.

pub mod client;
pub mod clock;
pub mod hms;
pub mod json;
pub mod laws;
pub mod service;
pub mod status_line;
pub mod text;
pub mod timer;
