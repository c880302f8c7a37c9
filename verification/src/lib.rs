//! A CI broker: it watches a peer-to-peer node's reference-update
//! announcements for patch refs, turns each detected patch into a `CIJob`,
//! and drives a remote pipeline-configuration CI engine through an
//! authenticated multi-step session for every job.
//!
//! The crate holds the broker's decision logic: event filtering, job
//! construction, HTTP request building, response interpretation, JSON
//! decoding of the engine's replies, and the per-job session state machine.
//! The surrounding process (sockets, threads, the HTTP client itself) feeds
//! events in and carries requests out.

use vstd::prelude::*;

pub mod api;
pub mod ci;
pub mod driver;
pub mod errors;
pub mod ingest;
pub mod http;
pub mod jobs;
pub mod json;
pub mod pipeline;
pub mod strutil;
pub mod token;
pub mod worker;

verus! {

/// Configuration for the CI engine connection.
pub struct CIConfig {
    pub concourse_uri: String,
    pub ci_user: String,
    pub ci_pass: String,
}

} // verus!
