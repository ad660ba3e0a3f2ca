//! Request-scoped storage for the active span.
//!
//! Each request has a scope of its own. The orchestrator starts the request's
//! span once, attaches it, and finishes it; handlers read the attached span
//! and may annotate it.

use crate::assoc::upsert;
use crate::attribute::{AttrKey, AttrValue, KeyView, ValueView};
use crate::propagation::{empty_context, extract, extracted, TraceContext};
use crate::request::{
    or_empty, outcome_of, resolved_route, text_or_empty, Completion, Outcome, OutcomeView,
    Request, RequestView,
};
use crate::span::{
    finished, fresh_ids, next_state, span_valid, started, InvariantViolation, Span, SpanEvent,
    SpanState, SpanView,
};
use vstd::prelude::*;

verus! {

/// What a handler finds in its request's scope: the trace that the request
/// belongs to and the request's span.
#[derive(Debug, PartialEq, Eq)]
pub struct TraceInfo {
    pub trace_id: u128,
    pub app_root_span: Span,
}

/// Mathematical form of a [`TraceInfo`].
pub struct TraceInfoView {
    pub trace_id: u128,
    pub app_root_span: SpanView,
}

impl View for TraceInfo {
    type V = TraceInfoView;

    open spec fn view(&self) -> TraceInfoView {
        TraceInfoView { trace_id: self.trace_id, app_root_span: self.app_root_span@ }
    }
}

impl DeepView for TraceInfo {
    type V = TraceInfoView;

    open spec fn deep_view(&self) -> TraceInfoView {
        self@
    }
}

impl TraceInfo {
    pub fn new(trace_id: u128, app_root_span: Span) -> (r: TraceInfo)
        ensures
            r@ == (TraceInfoView { trace_id, app_root_span: app_root_span@ }),
    {
        TraceInfo { trace_id, app_root_span }
    }
}

/// Mathematical form of a [`RequestScope`].
pub struct ScopeView {
    /// Whether a span was started for the request.
    pub started: bool,
    /// The trace context that the request came with.
    pub context: TraceContext,
    /// The attached span, if any.
    pub info: Option<TraceInfoView>,
}

/// The scope of a request that nothing has happened to yet.
pub open spec fn fresh_scope() -> ScopeView {
    ScopeView { started: false, context: empty_context(), info: None }
}

/// The state of a span after an event that it may or may not take.
pub open spec fn state_after(state: SpanState, event: SpanEvent) -> SpanState {
    match next_state(state, event) {
        Some(next) => next,
        None => state,
    }
}

/// The scope after a span is offered for attachment: the first span offered
/// is kept, in the attached state; a scope that holds one stays as it is.
pub open spec fn attached(scope: ScopeView, span: SpanView) -> ScopeView {
    if scope.info is Some {
        scope
    } else {
        ScopeView {
            info: Some(
                TraceInfoView {
                    trace_id: span.trace_id,
                    app_root_span: SpanView {
                        state: state_after(span.state, SpanEvent::Attach),
                        ..span
                    },
                },
            ),
            ..scope
        }
    }
}

/// The scope with its span replaced.
pub open spec fn with_span(scope: ScopeView, span: SpanView) -> ScopeView {
    ScopeView {
        info: Some(TraceInfoView { trace_id: scope.info->0.trace_id, app_root_span: span }),
        ..scope
    }
}

/// The scope after a handler's write of an attribute: the attached span
/// takes the write while it is writable; otherwise nothing changes.
pub open spec fn annotated(scope: ScopeView, key: KeyView, value: ValueView) -> ScopeView {
    if scope.info is Some && scope.info->0.app_root_span.state.writable() {
        with_span(
            scope,
            SpanView {
                attributes: upsert(scope.info->0.app_root_span.attributes, key, value),
                ..scope.info->0.app_root_span
            },
        )
    } else {
        scope
    }
}

/// Whether finishing the scope's span now closes it: a span is attached and
/// it is not closed yet.
pub open spec fn closes(scope: ScopeView) -> bool {
    scope.info is Some && scope.info->0.app_root_span.state.finishable()
}

/// The scope after its span is finished with an outcome. A scope whose span
/// cannot be finished, or that has none, stays as it is.
pub open spec fn scope_finished(
    scope: ScopeView,
    req: RequestView,
    route: Seq<char>,
    outcome: OutcomeView,
    now: u64,
) -> ScopeView {
    if closes(scope) {
        with_span(scope, finished(scope.info->0.app_root_span, req, route, outcome, now))
    } else {
        scope
    }
}

/// The name of a request's span: the method, a space, and the route where
/// it is known.
pub open spec fn span_name(req: RequestView) -> Seq<char> {
    req.method + seq![' '] + text_or_empty(req.route)
}

/// The scope of a request whose span is started under the parent context,
/// attached and active: the handler can run.
pub open spec fn opened(
    req: RequestView,
    parent: TraceContext,
    fresh_trace_id: u128,
    fresh_span_id: u64,
    now: u64,
) -> ScopeView {
    let span = started(span_name(req), parent, fresh_trace_id, fresh_span_id, now);
    ScopeView {
        started: true,
        context: parent,
        info: Some(
            TraceInfoView {
                trace_id: span.trace_id,
                app_root_span: SpanView { state: SpanState::Active, ..span },
            },
        ),
    }
}

/// The name of a request's span.
pub fn span_name_of(req: &Request) -> (r: String)
    ensures
        r@ == span_name(req@),
{
    let mut name = req.method.clone();
    proof {
        reveal_strlit(" ");
        assert(" "@ =~= seq![' ']);
    }
    name.append(" ");
    let route = or_empty(&req.route);
    name.append(route.as_str());
    name
}

/// Makes the span of a request under a parent context with the given fresh
/// ids.
pub fn make_span_with(
    req: &Request,
    parent: &TraceContext,
    fresh_trace_id: u128,
    fresh_span_id: u64,
    now: u64,
) -> (r: Span)
    ensures
        r@ == started(span_name(req@), *parent, fresh_trace_id, fresh_span_id, now),
{
    let name = span_name_of(req);
    Span::start_with(name.as_str(), parent, fresh_trace_id, fresh_span_id, now)
}

/// Makes the span of a request: named after method and route, and parented
/// to the trace context that the headers carry, or the root of a new trace
/// where they carry none.
pub fn make_span(req: &Request, now: u64) -> (r: Span)
    ensures
        exists|t: u128, s: u64|
            r@ == #[trigger] started(span_name(req@), extracted(req@.headers), t, s, now),
        !extracted(req@.headers).spec_is_empty() ==> r@.trace_id == extracted(
            req@.headers,
        ).trace_id,
{
    let parent = extract(&req.headers);
    let (t, s) = fresh_ids();
    make_span_with(req, &parent, t, s, now)
}

/// The per-request bag of request-scoped values.
#[derive(Debug)]
pub struct RequestScope {
    started: bool,
    context: TraceContext,
    info: Option<TraceInfo>,
}

impl View for RequestScope {
    type V = ScopeView;

    closed spec fn view(&self) -> ScopeView {
        ScopeView { started: self.started, context: self.context, info: self.info.deep_view() }
    }
}

impl RequestScope {
    /// The scope of a new request.
    pub fn new() -> (r: RequestScope)
        ensures
            r@ == fresh_scope(),
    {
        RequestScope { started: false, context: TraceContext::empty(), info: None }
    }

    /// The scope of a request that is ready for its handler: the request's
    /// span is started under the parent context with the given fresh ids,
    /// attached and marked active.
    pub fn open_with(
        req: &Request,
        parent: &TraceContext,
        fresh_trace_id: u128,
        fresh_span_id: u64,
        now: u64,
    ) -> (r: RequestScope)
        ensures
            r@ == opened(req@, *parent, fresh_trace_id, fresh_span_id, now),
    {
        let mut scope = RequestScope::new();
        let name = span_name_of(req);
        match scope.start_with(name.as_str(), parent, fresh_trace_id, fresh_span_id, now) {
            Ok(span) => {
                scope.attach(span);
            },
            Err(_) => {},
        }
        let _ = scope.activate();
        scope
    }

    /// The scope of a request that is ready for its handler: the request's
    /// span is started under the parent context with fresh random ids,
    /// attached and marked active.
    pub fn open_under(req: &Request, parent: &TraceContext, now: u64) -> (r: RequestScope)
        ensures
            exists|t: u128, s: u64| r@ == #[trigger] opened(req@, *parent, t, s, now),
    {
        let (t, s) = fresh_ids();
        let scope = RequestScope::open_with(req, parent, t, s, now);
        assert(scope@ == opened(req@, *parent, t, s, now));
        scope
    }

    /// The scope of a request that is ready for its handler: the trace
    /// context is extracted from the headers, and the request's span is
    /// started under it with fresh random ids, attached and marked active.
    pub fn open(req: &Request, now: u64) -> (r: RequestScope)
        ensures
            exists|t: u128, s: u64|
                r@ == #[trigger] opened(req@, extracted(req@.headers), t, s, now),
    {
        let parent = extract(&req.headers);
        let scope = RequestScope::open_under(req, &parent, now);
        proof {
            let (t, s) = choose|t: u128, s: u64|
                scope@ == #[trigger] opened(req@, parent, t, s, now);
            assert(scope@ == opened(req@, extracted(req@.headers), t, s, now));
        }
        scope
    }

    /// Finishes the attached span with what came back from the next stage
    /// and hands out a copy of the closed span for export, as
    /// [`RequestScope::finish`] does with the outcome and the route that the
    /// completion amounts to. Where there is no span to close, nothing is
    /// handed out.
    pub fn close(&mut self, req: &Request, completion: &Completion, now: u64) -> (r: Option<Span>)
        ensures
            final(self)@ == scope_finished(
                old(self)@,
                req@,
                resolved_route(req@, completion@),
                outcome_of(completion@),
                now,
            ),
            closes(old(self)@) ==> r is Some && r->0@ == final(self)@.info->0.app_root_span
                && span_valid(r->0@),
            !closes(old(self)@) ==> r is None,
    {
        let route = completion.route(req);
        let outcome = completion.outcome();
        match self.finish(req, route.as_str(), &outcome, now) {
            Ok(exported) => exported,
            Err(_) => None,
        }
    }

    /// Starts the request's span under the parent context with the given
    /// fresh ids. A second start for the same request is a violation and
    /// changes nothing.
    pub fn start_with(
        &mut self,
        name: &str,
        parent: &TraceContext,
        fresh_trace_id: u128,
        fresh_span_id: u64,
        now: u64,
    ) -> (r: Result<Span, InvariantViolation>)
        ensures
            old(self)@.started ==> r == Err::<Span, InvariantViolation>(
                InvariantViolation::DoubleStart,
            ) && final(self)@ == old(self)@,
            !old(self)@.started ==> r is Ok && r->Ok_0@ == started(
                name@,
                *parent,
                fresh_trace_id,
                fresh_span_id,
                now,
            ) && final(self)@ == (ScopeView { started: true, context: *parent, ..old(self)@ }),
    {
        if self.started {
            return Err(InvariantViolation::DoubleStart);
        }
        self.started = true;
        self.context = *parent;
        Ok(Span::start_with(name, parent, fresh_trace_id, fresh_span_id, now))
    }

    /// Starts the request's span under the parent context, with fresh random
    /// ids. A second start for the same request is a violation and changes
    /// nothing.
    pub fn start(&mut self, name: &str, parent: &TraceContext, now: u64) -> (r: Result<
        Span,
        InvariantViolation,
    >)
        ensures
            old(self)@.started ==> r == Err::<Span, InvariantViolation>(
                InvariantViolation::DoubleStart,
            ) && final(self)@ == old(self)@,
            !old(self)@.started ==> r is Ok && (exists|t: u128, s: u64|
                r->Ok_0@ == #[trigger] started(name@, *parent, t, s, now)) && final(self)@ == (
            ScopeView { started: true, context: *parent, ..old(self)@ }),
            !old(self)@.started && !parent.spec_is_empty() ==> r->Ok_0@.trace_id
                == parent.trace_id,
    {
        if self.started {
            return Err(InvariantViolation::DoubleStart);
        }
        self.started = true;
        self.context = *parent;
        Ok(Span::start(name, parent, now))
    }

    /// Stores the span in the scope so that handlers can reach it. Attaching
    /// is idempotent: a scope that holds a span keeps it and drops the one
    /// offered.
    pub fn attach(&mut self, span: Span)
        ensures
            final(self)@ == attached(old(self)@, span@),
    {
        if self.info.is_none() {
            let mut span = span;
            let _ = span.advance(SpanEvent::Attach);
            self.info = Some(TraceInfo::new(span.trace_id(), span));
        }
    }

    /// Whether a span was started for the request.
    pub fn is_started(&self) -> (r: bool)
        ensures
            r == self@.started,
    {
        self.started
    }

    /// The trace context that the request came with.
    pub fn context(&self) -> (r: TraceContext)
        ensures
            r == self@.context,
    {
        self.context
    }

    /// What is attached to the request, for a handler to read.
    pub fn trace_info(&self) -> (r: Option<&TraceInfo>)
        ensures
            r is Some <==> self@.info is Some,
            r is Some ==> r->0@ == self@.info->0,
    {
        self.info.as_ref()
    }

    /// Marks the attached span as active: the handler is about to run.
    /// Returns whether the span took the step. Without an attached span this
    /// is a violation.
    pub fn activate(&mut self) -> (r: Result<bool, InvariantViolation>)
        ensures
            old(self)@.info is None ==> r == Err::<bool, InvariantViolation>(
                InvariantViolation::UnattachedSpan,
            ) && final(self)@ == old(self)@,
            old(self)@.info is Some ==> r == Ok::<bool, InvariantViolation>(
                old(self)@.info->0.app_root_span.state == SpanState::Attached,
            ) && final(self)@ == with_span(
                old(self)@,
                SpanView {
                    state: state_after(
                        old(self)@.info->0.app_root_span.state,
                        SpanEvent::Activate,
                    ),
                    ..old(self)@.info->0.app_root_span
                },
            ),
    {
        let mut slot: Option<TraceInfo> = None;
        std::mem::swap(&mut slot, &mut self.info);
        match slot {
            Some(mut info) => {
                let took = info.app_root_span.advance(SpanEvent::Activate);
                self.info = Some(info);
                Ok(took)
            },
            None => Err(InvariantViolation::UnattachedSpan),
        }
    }

    /// Writes an attribute to the attached span on behalf of a handler.
    /// Returns whether the span took the write; a span that is finishing or
    /// closed does not. Without an attached span this is a violation.
    pub fn annotate(&mut self, key: AttrKey, value: AttrValue) -> (r: Result<
        bool,
        InvariantViolation,
    >)
        ensures
            final(self)@ == annotated(old(self)@, key@, value@),
            old(self)@.info is None ==> r == Err::<bool, InvariantViolation>(
                InvariantViolation::UnattachedSpan,
            ),
            old(self)@.info is Some ==> r == Ok::<bool, InvariantViolation>(
                old(self)@.info->0.app_root_span.state.writable(),
            ),
    {
        let mut slot: Option<TraceInfo> = None;
        std::mem::swap(&mut slot, &mut self.info);
        match slot {
            Some(mut info) => {
                let written = info.app_root_span.set_attribute(key, value);
                self.info = Some(info);
                Ok(written)
            },
            None => Err(InvariantViolation::UnattachedSpan),
        }
    }

    /// Finishes the attached span with an outcome and hands out a copy of
    /// the closed span for export.
    ///
    /// The span is handed out by the call that closes it and by no other: a
    /// scope whose span is closed already is left as it is and gives
    /// `Ok(None)`. A scope without an attached span gives the violation.
    pub fn finish(&mut self, req: &Request, route: &str, outcome: &Outcome, now: u64) -> (r: Result<
        Option<Span>,
        InvariantViolation,
    >)
        ensures
            final(self)@ == scope_finished(old(self)@, req@, route@, outcome@, now),
            closes(old(self)@) ==> r is Ok && r->Ok_0 is Some && r->Ok_0->0@
                == final(self)@.info->0.app_root_span && span_valid(r->Ok_0->0@),
            old(self)@.info is Some && old(self)@.info->0.app_root_span.state == SpanState::Closed
                ==> r is Ok && r->Ok_0 is None,
            old(self)@.info is None || old(self)@.info->0.app_root_span.state == SpanState::Created
                ==> r is Err && r->Err_0 == InvariantViolation::UnattachedSpan,
    {
        let mut slot: Option<TraceInfo> = None;
        std::mem::swap(&mut slot, &mut self.info);
        match slot {
            Some(mut info) => {
                let closed = info.app_root_span.finish(req, route, outcome, now);
                let exported = match closed {
                    Ok(true) => Ok(Some(info.app_root_span.duplicate())),
                    Ok(false) => Ok(None),
                    Err(e) => Err(e),
                };
                self.info = Some(info);
                exported
            },
            None => Err(InvariantViolation::UnattachedSpan),
        }
    }
}

/// Attaching twice is the same as attaching once: the second span offered is
/// dropped.
pub proof fn lemma_attach_idempotent(scope: ScopeView, first: SpanView, second: SpanView)
    ensures
        attached(attached(scope, first), second) == attached(scope, first),
{
}

/// Finishing twice is the same as finishing once: the second call finds the
/// span closed, changes nothing and closes nothing.
pub proof fn lemma_finish_once(
    scope: ScopeView,
    req: RequestView,
    route: Seq<char>,
    outcome: OutcomeView,
    now: u64,
    later_route: Seq<char>,
    later_outcome: OutcomeView,
    later: u64,
)
    ensures
        !closes(scope_finished(scope, req, route, outcome, now)),
        scope_finished(
            scope_finished(scope, req, route, outcome, now),
            req,
            later_route,
            later_outcome,
            later,
        ) == scope_finished(scope, req, route, outcome, now),
{
}

} // verus!
