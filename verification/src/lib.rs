//! Request-scoped telemetry for an HTTP server: one trace span and one
//! consistent set of server metrics per inbound request, whatever way the
//! downstream handler completes.
//!
//! The crate holds the decisions only. A host feeds it plain values (the
//! request line, the headers, the clock, what the handler returned) and
//! carries out the actions it hands back: metric observations to record and
//! the one finished span to export.
//!
//! - [`propagation`] extracts the inbound trace context from the headers.
//! - [`span`] and [`scope`] manage the life cycle of the request's span.
//! - [`metrics`] turns the start and the end of a request into observations.
//! - [`middleware`] orders all of it around the call of the next stage.
//!
//! Times are nanoseconds since the Unix epoch, as the host's clock gives
//! them; durations are nanoseconds.

use vstd::prelude::*;

pub mod assoc;
pub mod attribute;
pub mod headers;
pub mod metrics;
pub mod middleware;
pub mod propagation;
pub mod request;
pub mod scope;
pub mod span;
pub mod text;

verus! {

/// Where telemetry is sent.
#[derive(Debug, PartialEq, Eq)]
pub struct OtelConfig {
    /// Address of the collector that receives traces, metrics and logs.
    pub endpoint: String,
}

/// Process configuration.
#[derive(Debug, PartialEq, Eq)]
pub struct AppConfig {
    pub otel_config: OtelConfig,
}

} // verus!
