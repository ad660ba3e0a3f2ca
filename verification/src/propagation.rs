//! Extraction of the inbound trace context from the request headers.
//!
//! The format that is read here is the W3C trace context. The rest of the
//! crate depends on the extracted [`TraceContext`] only: a host that reads
//! another format decodes the context itself and begins the request under it.

use crate::assoc::keys_distinct;
use crate::headers::{text_entries, HeaderSeq, Headers};
use opentelemetry::propagation::TextMapPropagator;
use opentelemetry::trace::TraceContextExt;
use opentelemetry::Context;
use opentelemetry_sdk::propagation::TraceContextPropagator;
use std::collections::HashMap;
use vstd::prelude::*;

verus! {

/// A request's place in a distributed trace, as its caller announced it.
///
/// A context with a zero trace id or a zero parent span id is empty: it names
/// no parent, and the span made under it starts a new trace.
#[derive(Clone, Copy, Debug, PartialEq, Eq, Structural)]
pub struct TraceContext {
    pub trace_id: u128,
    pub parent_span_id: u64,
    pub sampled: bool,
}

/// The context that stands for "no parent".
pub open spec fn empty_context() -> TraceContext {
    TraceContext { trace_id: 0, parent_span_id: 0, sampled: false }
}

/// The context that a decoded triple amounts to: the triple itself where both
/// ids are set, the empty context otherwise.
pub open spec fn remote_context(trace_id: u128, span_id: u64, sampled: bool) -> TraceContext {
    if trace_id == 0 || span_id == 0 {
        empty_context()
    } else {
        TraceContext { trace_id, parent_span_id: span_id, sampled }
    }
}

impl TraceContext {
    /// Whether the context names no parent.
    pub open spec fn spec_is_empty(&self) -> bool {
        self.trace_id == 0 || self.parent_span_id == 0
    }

    /// The context that stands for "no parent".
    pub fn empty() -> (r: TraceContext)
        ensures
            r == empty_context(),
    {
        TraceContext { trace_id: 0, parent_span_id: 0, sampled: false }
    }

    /// The context for a decoded trace id, span id and sampling flag.
    pub fn remote(trace_id: u128, span_id: u64, sampled: bool) -> (r: TraceContext)
        ensures
            r == remote_context(trace_id, span_id, sampled),
    {
        if trace_id == 0 || span_id == 0 {
            TraceContext::empty()
        } else {
            TraceContext { trace_id, parent_span_id: span_id, sampled }
        }
    }

    /// Whether the context names no parent.
    #[verifier::when_used_as_spec(spec_is_empty)]
    pub fn is_empty(&self) -> (r: bool)
        ensures
            r == self.spec_is_empty(),
    {
        self.trace_id == 0 || self.parent_span_id == 0
    }
}

/// What the W3C trace-context propagator of `opentelemetry_sdk` decodes from
/// a carrier of header names and values: trace id, span id and sampling flag
/// of the remote span context, all zero and unsampled where the carrier holds
/// no valid `traceparent`.
pub uninterp spec fn w3c_remote_context(carrier: Seq<(Seq<char>, Seq<char>)>) -> (u128, u64, bool);

/// `TraceContextPropagator::extract_with_context` of `opentelemetry_sdk`, run
/// on an empty `Context` with the pairs as the carrier. The triple read from
/// the span context of the returned `Context` depends on the carrier alone.
#[verifier::external_body]
fn propagator_extract(carrier: &Vec<(String, String)>) -> (r: (u128, u64, bool))
    requires
        keys_distinct(carrier.deep_view()),
    ensures
        r == w3c_remote_context(carrier.deep_view()),
{
    let map: HashMap<String, String> = carrier.iter().cloned().collect();
    let cx = TraceContextPropagator::new().extract_with_context(&Context::new(), &map);
    let span = cx.span();
    let sc = span.span_context();
    (
        u128::from_be_bytes(sc.trace_id().to_bytes()),
        u64::from_be_bytes(sc.span_id().to_bytes()),
        sc.is_sampled(),
    )
}

/// The trace context that the headers carry in the W3C format.
pub open spec fn extracted(headers: HeaderSeq) -> TraceContext {
    let raw = w3c_remote_context(text_entries(headers));
    remote_context(raw.0, raw.1, raw.2)
}

/// Extracts the inbound trace context from the headers, which carry it in
/// the W3C format. Never fails: headers without a valid trace header give the
/// empty context.
pub fn extract(headers: &Headers) -> (r: TraceContext)
    ensures
        r == extracted(headers@),
{
    let carrier = headers.text_pairs();
    let raw = propagator_extract(&carrier);
    TraceContext::remote(raw.0, raw.1, raw.2)
}

} // verus!
