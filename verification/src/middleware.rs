//! The instrumentation of one request, from its arrival to its response.
//!
//! The host calls [`Instrumentation::begin`] when a request arrives, carries
//! out the actions it gets, runs the next stage, and calls
//! [`Instrumentation::complete`] with whatever came back, on every path: a
//! response of any status, a fault, a dropped connection. Completing records
//! the end of the request and hands out the finished span, once.

use crate::assoc::lookup;
use crate::attribute::{AttrKey, AttrValue, Attrs, KeyView, ValueView};
use crate::headers::{content_length_of, text_entries};
use crate::metrics::{
    all_run_events, base_attributes, end_attributes, end_events, event_views, gauge_net,
    lemma_gauge_balance, lemma_gauge_returns_to_baseline, request_size_attributes, run_events,
    start_events, EventView, Instrument, Measurement, MetricEvent, Metrics, RequestRun,
    RequestSizeSample,
};
use crate::propagation::{extract, extracted, w3c_remote_context, TraceContext};
use crate::request::{
    outcome_of, resolved_route, response_size_of, text_or_empty, Completion, CompletionView,
    Request, RequestView, FAULT_STATUS,
};
use crate::scope::{
    annotated, closes, opened, scope_finished, RequestScope, ScopeView, TraceInfo,
};
use crate::span::{fresh_ids, span_valid, InvariantViolation, Span, SpanState, SpanStatus, SpanView};
use crate::text::parse_u64_spec;
use vstd::prelude::*;

verus! {

/// Something for the host to carry out.
#[derive(Debug, PartialEq, Eq)]
pub enum Action {
    /// Record the observation on its instrument.
    Record(MetricEvent),
    /// Hand the closed span to the span sink.
    Export(Span),
}

/// Mathematical form of an [`Action`].
pub enum ActionView {
    Record(EventView),
    Export(SpanView),
}

impl View for Action {
    type V = ActionView;

    open spec fn view(&self) -> ActionView {
        match self {
            Action::Record(e) => ActionView::Record(e@),
            Action::Export(s) => ActionView::Export(s@),
        }
    }
}

/// The mathematical form of a list of actions.
pub open spec fn action_views(actions: Seq<Action>) -> Seq<ActionView> {
    Seq::new(actions.len(), |i: int| actions[i]@)
}

/// The actions that record a list of observations, in order.
pub open spec fn records(events: Seq<EventView>) -> Seq<ActionView> {
    Seq::new(events.len(), |i: int| ActionView::Record(events[i]))
}

/// The time from `start` to `now` in nanoseconds, 0 where the clock went
/// backwards.
pub open spec fn elapsed_between(start: u64, now: u64) -> u64 {
    if now < start {
        0
    } else {
        (now - start) as u64
    }
}

/// Mathematical form of a [`Flow`].
pub struct FlowView {
    /// The request's scope, which holds its span.
    pub scope: ScopeView,
    /// The attributes under which the gauge was raised.
    pub base: Attrs,
    /// The request size that was recorded.
    pub request_size: u64,
    /// When the request arrived.
    pub started_at: u64,
    /// Whether the end of the request has been recorded.
    pub completed: bool,
}

/// The flow of a request that has just begun: its span is started under the
/// parent context, attached and active.
pub open spec fn begun(
    req: RequestView,
    parent: TraceContext,
    fresh_trace_id: u128,
    fresh_span_id: u64,
    now: u64,
) -> FlowView {
    FlowView {
        scope: opened(req, parent, fresh_trace_id, fresh_span_id, now),
        base: base_attributes(req.method, req.scheme),
        request_size: content_length_of(req.headers),
        started_at: now,
        completed: false,
    }
}

/// The actions with which a request begins.
pub open spec fn begin_actions(req: RequestView) -> Seq<ActionView> {
    records(
        start_events(
            base_attributes(req.method, req.scheme),
            req.route,
            content_length_of(req.headers),
        ),
    )
}

/// The observations with which a request ends.
pub open spec fn completion_events(
    flow: FlowView,
    req: RequestView,
    c: CompletionView,
    now: u64,
) -> Seq<EventView> {
    end_events(
        flow.base,
        resolved_route(req, c),
        outcome_of(c).status_code,
        response_size_of(c),
        elapsed_between(flow.started_at, now),
    )
}

/// The flow after the request is completed. A flow that is completed already
/// stays as it is.
pub open spec fn completed(
    flow: FlowView,
    req: RequestView,
    c: CompletionView,
    now: u64,
) -> FlowView {
    if flow.completed {
        flow
    } else {
        FlowView {
            scope: scope_finished(flow.scope, req, resolved_route(req, c), outcome_of(c), now),
            completed: true,
            ..flow
        }
    }
}

/// The actions with which a request ends: first the observations, then the
/// export of the span that was closed. A flow that is completed already ends
/// with no action.
pub open spec fn complete_actions(
    flow: FlowView,
    req: RequestView,
    c: CompletionView,
    now: u64,
) -> Seq<ActionView> {
    if flow.completed {
        Seq::empty()
    } else if closes(flow.scope) {
        records(completion_events(flow, req, c, now)).push(
            ActionView::Export(completed(flow, req, c, now).scope.info->0.app_root_span),
        )
    } else {
        records(completion_events(flow, req, c, now))
    }
}

/// The time from `start` to `now` in nanoseconds, 0 where the clock went
/// backwards.
pub fn elapsed(start: u64, now: u64) -> (r: u64)
    ensures
        r == elapsed_between(start, now),
{
    if now < start {
        0
    } else {
        now - start
    }
}

/// The instrumentation state of one request in flight.
#[derive(Debug)]
pub struct Flow {
    scope: RequestScope,
    sample: RequestSizeSample,
    started_at: u64,
}

impl View for Flow {
    type V = FlowView;

    closed spec fn view(&self) -> FlowView {
        FlowView {
            scope: self.scope@,
            base: self.sample@.attributes,
            request_size: self.sample@.size,
            started_at: self.started_at,
            completed: !self.sample@.open,
        }
    }
}

impl Flow {
    /// The request's scope, for a handler to read.
    pub fn scope(&self) -> (r: &RequestScope)
        ensures
            r@ == self@.scope,
    {
        &self.scope
    }

    /// What is attached to the request, for a handler to read.
    pub fn trace_info(&self) -> (r: Option<&TraceInfo>)
        ensures
            r is Some <==> self@.scope.info is Some,
            r is Some ==> r->0@ == self@.scope.info->0,
    {
        self.scope.trace_info()
    }

    /// Whether the end of the request has been recorded.
    pub fn is_completed(&self) -> (r: bool)
        ensures
            r == self@.completed,
    {
        !self.sample.is_open()
    }

    /// When the request arrived.
    pub fn started_at(&self) -> (r: u64)
        ensures
            r == self@.started_at,
    {
        self.started_at
    }

    /// The request size that was recorded when the request arrived.
    pub fn request_size(&self) -> (r: u64)
        ensures
            r == self@.request_size,
    {
        self.sample.size()
    }

    /// Writes an attribute to the request's span on behalf of a handler.
    /// Returns whether the span took the write; a span that is closed does
    /// not. Nothing but the span's attributes changes.
    pub fn annotate(&mut self, key: AttrKey, value: AttrValue) -> (r: Result<
        bool,
        InvariantViolation,
    >)
        ensures
            final(self)@ == (FlowView {
                scope: annotated(old(self)@.scope, key@, value@),
                ..old(self)@
            }),
            old(self)@.scope.info is None ==> r == Err::<bool, InvariantViolation>(
                InvariantViolation::UnattachedSpan,
            ),
            old(self)@.scope.info is Some ==> r == Ok::<bool, InvariantViolation>(
                old(self)@.scope.info->0.app_root_span.state.writable(),
            ),
    {
        self.scope.annotate(key, value)
    }
}

/// The instrumentation middleware: it drives span and metrics around the
/// call of the next stage. Its instruments are set once, when it is made,
/// and shared by all requests.
#[derive(Debug)]
pub struct Instrumentation {
    metrics: Metrics,
}

impl Instrumentation {
    pub fn new(metrics: Metrics) -> (r: Instrumentation)
        ensures
            r.metrics() == metrics,
    {
        Instrumentation { metrics }
    }

    /// The instruments that the observations are meant for.
    pub closed spec fn metrics(&self) -> Metrics {
        self.metrics
    }

    /// The instruments that the observations are meant for.
    pub fn instruments(&self) -> (r: &Metrics)
        ensures
            *r == self.metrics(),
    {
        &self.metrics
    }

    /// Begins a request under a parent context with the given fresh ids:
    /// starts the span, attaches it, records the start of the request, and
    /// marks the span active.
    ///
    /// Returns the flow to complete later and the actions to carry out now.
    pub fn begin_with(
        &self,
        req: &Request,
        parent: &TraceContext,
        fresh_trace_id: u128,
        fresh_span_id: u64,
        now: u64,
    ) -> (r: (Flow, Vec<Action>))
        ensures
            r.0@ == begun(req@, *parent, fresh_trace_id, fresh_span_id, now),
            action_views(r.1@) == begin_actions(req@),
    {
        let scope = RequestScope::open_with(req, parent, fresh_trace_id, fresh_span_id, now);
        let (sample, events) = self.metrics.on_request_start(req);
        (Flow { scope, sample, started_at: now }, record_all(events))
    }

    /// Begins a request under a parent context, in whatever format the host
    /// decoded it: starts the span under it with fresh random ids, attaches
    /// it, records the start of the request, and marks the span active.
    ///
    /// Returns the flow to complete later and the actions to carry out now.
    pub fn begin_under(&self, req: &Request, parent: &TraceContext, now: u64) -> (r: (
        Flow,
        Vec<Action>,
    ))
        ensures
            exists|t: u128, s: u64| r.0@ == #[trigger] begun(req@, *parent, t, s, now),
            action_views(r.1@) == begin_actions(req@),
    {
        let (t, s) = fresh_ids();
        let r = self.begin_with(req, parent, t, s, now);
        assert(r.0@ == begun(req@, *parent, t, s, now));
        r
    }

    /// Begins a request: extracts the trace context from the headers, starts
    /// the span under it with fresh random ids, attaches it, records the
    /// start of the request, and marks the span active.
    ///
    /// Returns the flow to complete later and the actions to carry out now.
    pub fn begin(&self, req: &Request, now: u64) -> (r: (Flow, Vec<Action>))
        ensures
            exists|t: u128, s: u64|
                r.0@ == #[trigger] begun(req@, extracted(req@.headers), t, s, now),
            action_views(r.1@) == begin_actions(req@),
    {
        let parent = extract(&req.headers);
        let r = self.begin_under(req, &parent, now);
        proof {
            let (t, s) = choose|t: u128, s: u64| r.0@ == #[trigger] begun(req@, parent, t, s, now);
            assert(r.0@ == begun(req@, extracted(req@.headers), t, s, now));
        }
        r
    }

    /// Completes a request with what came back from the next stage: records
    /// the end of the request, then finishes the span and hands it out for
    /// export. A fault is recorded under the fault status, with the span's
    /// status set to error.
    ///
    /// A flow is completed once: a second call changes nothing and returns no
    /// action. Returns the actions to carry out, in order.
    pub fn complete(&self, flow: &mut Flow, req: &Request, completion: &Completion, now: u64) -> (r:
        Vec<Action>)
        ensures
            final(flow)@ == completed(old(flow)@, req@, completion@, now),
            action_views(r@) == complete_actions(old(flow)@, req@, completion@, now),
    {
        if !flow.sample.is_open() {
            let none: Vec<Action> = Vec::new();
            assert(action_views(none@) =~= Seq::<ActionView>::empty());
            return none;
        }
        let route = completion.route(req);
        let events = self.metrics.on_request_end(
            &mut flow.sample,
            route.as_str(),
            completion.outcome().status_code,
            completion.response_size(),
            elapsed(flow.started_at, now),
        );
        let mut actions = record_all(events);
        let ghost recorded = action_views(actions@);
        match flow.scope.close(req, completion, now) {
            Some(span) => {
                let ghost exported = span@;
                actions.push(Action::Export(span));
                assert(action_views(actions@) =~= recorded.push(ActionView::Export(exported)));
            },
            None => {},
        }
        actions
    }
}

/// The actions that record the observations, in order.
fn record_all(events: Vec<MetricEvent>) -> (r: Vec<Action>)
    ensures
        action_views(r@) == records(event_views(events@)),
{
    let ghost all = event_views(events@);
    let mut actions: Vec<Action> = Vec::new();
    for e in it: events
        invariant
            it.seq() == events@,
            all == event_views(events@),
            actions@.len() == it.index(),
            forall|i: int| 0 <= i < actions@.len() ==> (#[trigger] actions@[i])@
                == ActionView::Record(all[i]),
    {
        actions.push(Action::Record(e));
    }
    assert(action_views(actions@) =~= records(all));
    actions
}

/// The observations that a list of actions records, in order.
pub open spec fn recorded_events(actions: Seq<ActionView>) -> Seq<EventView>
    decreases actions.len(),
{
    if actions.len() == 0 {
        Seq::empty()
    } else {
        let rest = recorded_events(actions.drop_last());
        match actions.last() {
            ActionView::Record(e) => rest.push(e),
            ActionView::Export(_) => rest,
        }
    }
}

/// The spans that a list of actions exports, in order.
pub open spec fn exported_spans(actions: Seq<ActionView>) -> Seq<SpanView>
    decreases actions.len(),
{
    if actions.len() == 0 {
        Seq::empty()
    } else {
        let rest = exported_spans(actions.drop_last());
        match actions.last() {
            ActionView::Record(_) => rest,
            ActionView::Export(s) => rest.push(s),
        }
    }
}

/// Recording actions record their observations and export nothing.
pub proof fn lemma_records(events: Seq<EventView>)
    ensures
        recorded_events(records(events)) == events,
        exported_spans(records(events)) == Seq::<SpanView>::empty(),
    decreases events.len(),
{
    if events.len() == 0 {
        assert(recorded_events(records(events)) =~= events);
    } else {
        lemma_records(events.drop_last());
        assert(records(events).drop_last() =~= records(events.drop_last()));
        assert(recorded_events(records(events)) =~= events);
    }
}

/// What two lists of actions record and export, one after the other, is what
/// each records and exports, one after the other.
pub proof fn lemma_actions_concat(a: Seq<ActionView>, b: Seq<ActionView>)
    ensures
        recorded_events(a + b) == recorded_events(a) + recorded_events(b),
        exported_spans(a + b) == exported_spans(a) + exported_spans(b),
    decreases b.len(),
{
    if b.len() == 0 {
        assert(a + b =~= a);
        assert(recorded_events(a) + recorded_events(b) =~= recorded_events(a));
        assert(exported_spans(a) + exported_spans(b) =~= exported_spans(a));
    } else {
        lemma_actions_concat(a, b.drop_last());
        assert((a + b).drop_last() =~= a + b.drop_last());
        assert(recorded_events(a + b) =~= recorded_events(a) + recorded_events(b));
        assert(exported_spans(a + b) =~= exported_spans(a) + exported_spans(b));
    }
}

/// A flow that has begun and has not been completed: its span is attached
/// and not closed, and its base attributes are those of its request.
/// Handlers' annotations keep a flow in this condition.
pub open spec fn in_flight(flow: FlowView, req: RequestView) -> bool {
    &&& !flow.completed
    &&& closes(flow.scope)
    &&& flow.base == base_attributes(req.method, req.scheme)
    &&& span_valid(flow.scope.info->0.app_root_span)
}

/// A handler's write leaves a request in flight, with its span in the same
/// trace and the same state.
pub proof fn lemma_annotation_keeps_in_flight(
    flow: FlowView,
    req: RequestView,
    key: KeyView,
    value: ValueView,
)
    requires
        in_flight(flow, req),
    ensures
        in_flight(FlowView { scope: annotated(flow.scope, key, value), ..flow }, req),
        annotated(flow.scope, key, value).info->0.app_root_span.trace_id
            == flow.scope.info->0.app_root_span.trace_id,
        annotated(flow.scope, key, value).info->0.app_root_span.state
            == flow.scope.info->0.app_root_span.state,
{
}

/// A request that has just begun is in flight.
pub proof fn lemma_begun_in_flight(
    req: RequestView,
    parent: TraceContext,
    fresh_trace_id: u128,
    fresh_span_id: u64,
    now: u64,
)
    ensures
        in_flight(begun(req, parent, fresh_trace_id, fresh_span_id, now), req),
{
}

/// What the metrics get of a request in flight that is then completed, as a
/// run: the observations of its start, then those of its end. Its net effect
/// on the gauge of requests in flight is zero, with a response of any status
/// and with a fault.
pub proof fn lemma_request_is_a_run(flow: FlowView, req: RequestView, c: CompletionView, now: u64)
    requires
        in_flight(flow, req),
    ensures
        recorded_events(begin_actions(req) + complete_actions(flow, req, c, now)) == run_events(
            run_of(flow, req, c, now),
        ),
        gauge_net(recorded_events(begin_actions(req) + complete_actions(flow, req, c, now))) == 0,
{
    let run = run_of(flow, req, c, now);
    let begin = begin_actions(req);
    let end = complete_actions(flow, req, c, now);
    let end_records = records(completion_events(flow, req, c, now));
    lemma_actions_concat(begin, end);
    lemma_records(start_events(run.base, run.start_route, run.request_size));
    lemma_records(completion_events(flow, req, c, now));
    assert(end.drop_last() =~= end_records);
    lemma_gauge_balance(
        run.base,
        run.start_route,
        run.request_size,
        run.route,
        run.status,
        run.response_size,
        run.elapsed,
    );
}

/// The run that a request amounts to for the metrics.
pub open spec fn run_of(
    flow: FlowView,
    req: RequestView,
    c: CompletionView,
    now: u64,
) -> RequestRun {
    RequestRun {
        base: flow.base,
        start_route: req.route,
        request_size: content_length_of(req.headers),
        route: resolved_route(req, c),
        status: outcome_of(c).status_code,
        response_size: response_size_of(c),
        elapsed: elapsed_between(flow.started_at, now),
    }
}

/// Exactly one span per request: the actions of a request, from its
/// beginning through its completion and any later attempt to complete it
/// again, export one span. That span is closed, does not end before it
/// started, and carries the trace id that the span had while the handler
/// ran.
pub proof fn lemma_one_span_per_request(
    flow: FlowView,
    req: RequestView,
    c: CompletionView,
    now: u64,
    again: CompletionView,
    later: u64,
)
    requires
        in_flight(flow, req),
    ensures
        exported_spans(
            begin_actions(req) + complete_actions(flow, req, c, now) + complete_actions(
                completed(flow, req, c, now),
                req,
                again,
                later,
            ),
        ) == seq![completed(flow, req, c, now).scope.info->0.app_root_span],
        completed(flow, req, c, now).scope.info->0.app_root_span.state == SpanState::Closed,
        completed(flow, req, c, now).scope.info->0.app_root_span.end_time is Some,
        completed(flow, req, c, now).scope.info->0.app_root_span.start_time <= completed(
            flow,
            req,
            c,
            now,
        ).scope.info->0.app_root_span.end_time->0,
        completed(flow, req, c, now).scope.info->0.app_root_span.trace_id
            == flow.scope.info->0.app_root_span.trace_id,
        completed(completed(flow, req, c, now), req, again, later) == completed(flow, req, c, now),
{
    let begin = begin_actions(req);
    let end = complete_actions(flow, req, c, now);
    let after = completed(flow, req, c, now);
    let second = complete_actions(after, req, again, later);
    let span = after.scope.info->0.app_root_span;
    let end_records = records(completion_events(flow, req, c, now));
    assert(second =~= Seq::<ActionView>::empty());
    assert(begin + end + second =~= begin + end);
    lemma_actions_concat(begin, end);
    lemma_records(
        start_events(
            base_attributes(req.method, req.scheme),
            req.route,
            content_length_of(req.headers),
        ),
    );
    lemma_records(completion_events(flow, req, c, now));
    assert(end.drop_last() =~= end_records);
    assert(exported_spans(end) =~= seq![span]);
    assert(exported_spans(begin) + exported_spans(end) =~= seq![span]);
}

/// Context continuity: the span of a request that came with a valid trace
/// context belongs to the trace that the context names; the span of a
/// request that came with none belongs to the trace whose id was freshly
/// drawn for it. As headers with a valid trace header are those from which
/// the propagator decodes a trace id and a span id that are not zero, the
/// span of such a request carries the decoded trace id.
pub proof fn lemma_context_continuity(
    req: RequestView,
    parent: TraceContext,
    fresh_trace_id: u128,
    fresh_span_id: u64,
    now: u64,
    c: CompletionView,
    later: u64,
)
    ensures
        ({
            let flow = begun(req, parent, fresh_trace_id, fresh_span_id, now);
            let span = completed(flow, req, c, later).scope.info->0.app_root_span;
            &&& exported_spans(complete_actions(flow, req, c, later)) == seq![span]
            &&& !parent.spec_is_empty() ==> span.trace_id == parent.trace_id
                && span.parent_span_id == parent.parent_span_id
            &&& parent.spec_is_empty() ==> span.trace_id == fresh_trace_id && span.parent_span_id
                == 0
            &&& span.span_id == fresh_span_id
        }),
        ({
            let raw = w3c_remote_context(text_entries(req.headers));
            parent == extracted(req.headers) ==> {
                &&& raw.0 != 0 && raw.1 != 0 ==> !parent.spec_is_empty() && parent.trace_id
                    == raw.0 && parent.parent_span_id == raw.1
                &&& raw.0 == 0 || raw.1 == 0 ==> parent.spec_is_empty()
            }
        }),
{
    let flow = begun(req, parent, fresh_trace_id, fresh_span_id, now);
    let span = completed(flow, req, c, later).scope.info->0.app_root_span;
    let end = complete_actions(flow, req, c, later);
    lemma_records(completion_events(flow, req, c, later));
    assert(end.drop_last() =~= records(completion_events(flow, req, c, later)));
    assert(exported_spans(end) =~= seq![span]);
}

/// Size defaulting: a request without a length header, or with one that is
/// no number, still gets its request size recorded, as 0.
pub proof fn lemma_size_defaults_to_zero(req: RequestView)
    requires
        match lookup(req.headers, "content-length"@) {
            Some(Some(v)) => parse_u64_spec(v) is None,
            _ => true,
        },
    ensures
        recorded_events(begin_actions(req)).len() == 2,
        recorded_events(begin_actions(req))[1] == (EventView {
            instrument: Instrument::RequestSize,
            value: Measurement::Bytes(0),
            attributes: request_size_attributes(
                base_attributes(req.method, req.scheme),
                req.route,
            ),
        }),
{
    lemma_records(
        start_events(
            base_attributes(req.method, req.scheme),
            req.route,
            content_length_of(req.headers),
        ),
    );
}

/// Fault still records: where the next stage raises, completing the request
/// lowers the gauge under the attributes it was raised under, records the
/// duration, and then exports the span, closed, with the error status.
pub proof fn lemma_fault_still_records(
    flow: FlowView,
    req: RequestView,
    description: Seq<char>,
    now: u64,
)
    requires
        in_flight(flow, req),
    ensures
        ({
            let actions = complete_actions(flow, req, CompletionView::Fault(description), now);
            let route = text_or_empty(req.route);
            &&& actions.len() == 4
            &&& actions[0] == ActionView::Record(
                EventView {
                    instrument: Instrument::ActiveRequests,
                    value: Measurement::Delta(-1i64),
                    attributes: base_attributes(req.method, req.scheme),
                },
            )
            &&& actions[1] == ActionView::Record(
                EventView {
                    instrument: Instrument::Duration,
                    value: Measurement::Nanos(elapsed_between(flow.started_at, now)),
                    attributes: end_attributes(flow.base, route, FAULT_STATUS),
                },
            )
            &&& actions[2] == ActionView::Record(
                EventView {
                    instrument: Instrument::ResponseSize,
                    value: Measurement::Bytes(0),
                    attributes: end_attributes(flow.base, route, FAULT_STATUS),
                },
            )
            &&& actions[3] is Export
            &&& actions[3]->Export_0.state == SpanState::Closed
            &&& actions[3]->Export_0.status == SpanStatus::Error
            &&& actions[3]->Export_0.end_time is Some
        }),
{
}

/// One request from its beginning to its completion: the flow as it was when
/// the next stage came back, and what it was completed with.
pub struct Exchange {
    pub flow: FlowView,
    pub req: RequestView,
    pub completion: CompletionView,
    pub now: u64,
}

/// The observations of one request, those of its beginning before those of
/// its completion.
pub open spec fn exchange_events(x: Exchange) -> Seq<EventView> {
    recorded_events(begin_actions(x.req) + complete_actions(x.flow, x.req, x.completion, x.now))
}

/// The observations of several requests, one request after the other.
pub open spec fn all_exchange_events(xs: Seq<Exchange>) -> Seq<EventView>
    decreases xs.len(),
{
    if xs.len() == 0 {
        Seq::empty()
    } else {
        all_exchange_events(xs.drop_last()) + exchange_events(xs.last())
    }
}

/// Gauge balance across concurrent requests: once any number of requests in
/// flight have all been completed, with responses of any status or with
/// faults, the log of their observations leaves the gauge of requests in
/// flight where it was, in whatever order the requests' observations were
/// interleaved.
pub proof fn lemma_gauge_balance_concurrent(xs: Seq<Exchange>, log: Seq<EventView>)
    requires
        forall|i: int| 0 <= i < xs.len() ==> in_flight((#[trigger] xs[i]).flow, xs[i].req),
        log.to_multiset() == all_exchange_events(xs).to_multiset(),
    ensures
        gauge_net(log) == 0,
{
    lemma_exchanges_are_runs(xs);
    lemma_gauge_returns_to_baseline(runs_of(xs), log);
}

/// The runs that several requests amount to for the metrics.
pub open spec fn runs_of(xs: Seq<Exchange>) -> Seq<RequestRun> {
    Seq::new(xs.len(), |i: int| run_of(xs[i].flow, xs[i].req, xs[i].completion, xs[i].now))
}

/// The observations of requests in flight that are then completed are those
/// of their runs.
proof fn lemma_exchanges_are_runs(xs: Seq<Exchange>)
    requires
        forall|i: int| 0 <= i < xs.len() ==> in_flight((#[trigger] xs[i]).flow, xs[i].req),
    ensures
        all_exchange_events(xs) == all_run_events(runs_of(xs)),
    decreases xs.len(),
{
    if xs.len() > 0 {
        let init = xs.drop_last();
        let x = xs.last();
        assert forall|i: int| 0 <= i < init.len() implies in_flight(
            (#[trigger] init[i]).flow,
            init[i].req,
        ) by {
            assert(init[i] == xs[i]);
        }
        lemma_exchanges_are_runs(init);
        lemma_request_is_a_run(x.flow, x.req, x.completion, x.now);
        assert(runs_of(xs).drop_last() =~= runs_of(init));
    }
}

} // verus!
