//! The span of a request and its life cycle.
//!
//! A span is created, attached to its request's scope, active while the
//! handler runs, finishing while its final attributes are written, and closed.
//! A closed span never changes again and is handed out for export once.

use crate::assoc::{lookup, upsert};
use crate::attribute::{AttrKey, AttrValue, AttributeSet, Attrs, KeyView, ValueView};
use crate::propagation::TraceContext;
use crate::request::{
    is_server_error, is_success, or_empty, status_display, status_is_server_error,
    status_is_success, status_text, text_or_empty, Outcome, OutcomeView, Request, RequestView,
};
use opentelemetry_sdk::trace::{IdGenerator, RandomIdGenerator};
use vstd::prelude::*;

verus! {

/// The status of a span.
#[derive(Clone, Copy, Debug, PartialEq, Eq, Structural)]
pub enum SpanStatus {
    Unset,
    Okay,
    Error,
}

/// Where a span is in its life.
#[derive(Clone, Copy, Debug, PartialEq, Eq, Structural)]
pub enum SpanState {
    Created,
    Attached,
    Active,
    Finishing,
    Closed,
}

/// What moves a span from one state to the next.
#[derive(Clone, Copy, Debug, PartialEq, Eq, Structural)]
pub enum SpanEvent {
    Attach,
    Activate,
    BeginFinish,
    Close,
}

/// A use of the span life cycle that the instrumentation must never make.
#[derive(Clone, Copy, Debug, PartialEq, Eq, Structural)]
pub enum InvariantViolation {
    /// A span was started twice for one request.
    DoubleStart,
    /// A span was used that was never attached to its request.
    UnattachedSpan,
}

impl InvariantViolation {
    /// A description of the violation.
    pub fn message(&self) -> (r: String)
        ensures
            r@ == match *self {
                InvariantViolation::DoubleStart => "a span was already started for this request"@,
                InvariantViolation::UnattachedSpan => "no span is attached to this request"@,
            },
    {
        match self {
            InvariantViolation::DoubleStart => String::from_str(
                "a span was already started for this request",
            ),
            InvariantViolation::UnattachedSpan => String::from_str(
                "no span is attached to this request",
            ),
        }
    }
}

/// The state that an event leads to, `None` where the state does not take the
/// event.
pub open spec fn next_state(state: SpanState, event: SpanEvent) -> Option<SpanState> {
    match (state, event) {
        (SpanState::Created, SpanEvent::Attach) => Some(SpanState::Attached),
        (SpanState::Attached, SpanEvent::Activate) => Some(SpanState::Active),
        (SpanState::Active, SpanEvent::BeginFinish) => Some(SpanState::Finishing),
        (SpanState::Finishing, SpanEvent::Close) => Some(SpanState::Closed),
        _ => None,
    }
}

/// How many events a span in this state is away from being closed.
pub open spec fn steps_to_close(state: SpanState) -> nat {
    match state {
        SpanState::Created => 4,
        SpanState::Attached => 3,
        SpanState::Active => 2,
        SpanState::Finishing => 1,
        SpanState::Closed => 0,
    }
}

impl SpanState {
    /// The state that an event leads to, `None` where this state does not
    /// take the event.
    pub fn step(self, event: SpanEvent) -> (r: Option<SpanState>)
        ensures
            r == next_state(self, event),
    {
        match (self, event) {
            (SpanState::Created, SpanEvent::Attach) => Some(SpanState::Attached),
            (SpanState::Attached, SpanEvent::Activate) => Some(SpanState::Active),
                (SpanState::Active, SpanEvent::BeginFinish) => Some(SpanState::Finishing),
            (SpanState::Finishing, SpanEvent::Close) => Some(SpanState::Closed),
            _ => None,
        }
    }

    /// Whether a handler may still write to a span in this state.
    pub open spec fn writable(self) -> bool {
        self == SpanState::Created || self == SpanState::Attached || self == SpanState::Active
    }

    /// Whether a span in this state can be finished: it is attached and not
    /// closed. Finishing takes it through the states that are left.
    pub open spec fn finishable(self) -> bool {
        self == SpanState::Attached || self == SpanState::Active || self == SpanState::Finishing
    }
}

/// The states follow one another in one order only. The closed state is
/// terminal, it is entered from the finishing state only, every transition
/// brings a span exactly one state nearer to it, and every other state has a
/// way on: no span can be reopened, skip a state, or be kept from closing.
pub proof fn lemma_life_cycle(state: SpanState, event: SpanEvent)
    ensures
        next_state(SpanState::Closed, event) is None,
        next_state(state, event) == Some(SpanState::Closed) ==> state == SpanState::Finishing
            && event == SpanEvent::Close,
        next_state(state, event) is Some ==> steps_to_close(next_state(state, event)->0) + 1
            == steps_to_close(state),
        state != SpanState::Closed ==> exists|e: SpanEvent| next_state(state, e) is Some,
{
    match state {
        SpanState::Created => {
            assert(next_state(state, SpanEvent::Attach) is Some);
        },
        SpanState::Attached => {
            assert(next_state(state, SpanEvent::Activate) is Some);
        },
        SpanState::Active => {
            assert(next_state(state, SpanEvent::BeginFinish) is Some);
        },
        SpanState::Finishing => {
            assert(next_state(state, SpanEvent::Close) is Some);
        },
        SpanState::Closed => {},
    }
}

/// Mathematical form of a [`Span`].
pub struct SpanView {
    pub name: Seq<char>,
    pub trace_id: u128,
    pub span_id: u64,
    /// 0 for a span without a parent.
    pub parent_span_id: u64,
    pub start_time: u64,
    pub end_time: Option<u64>,
    pub attributes: Attrs,
    pub status: SpanStatus,
    pub state: SpanState,
}

/// The span that starts under a parent context, given the ids drawn for it:
/// the trace id is the parent's, or the fresh one where the parent is empty.
pub open spec fn started(
    name: Seq<char>,
    parent: TraceContext,
    fresh_trace_id: u128,
    fresh_span_id: u64,
    now: u64,
) -> SpanView {
    SpanView {
        name,
        trace_id: if parent.spec_is_empty() {
            fresh_trace_id
        } else {
            parent.trace_id
        },
        span_id: fresh_span_id,
        parent_span_id: if parent.spec_is_empty() {
            0
        } else {
            parent.parent_span_id
        },
        start_time: now,
        end_time: None,
        attributes: Seq::empty(),
        status: SpanStatus::Unset,
        state: SpanState::Created,
    }
}

/// The value recorded as the error type of an unsuccessful request: the
/// description of the failure, or else the displayed status.
pub open spec fn error_type_of(outcome: OutcomeView, displayed: Seq<char>) -> Seq<char> {
    match outcome.error {
        Some(d) => d,
        None => displayed,
    }
}

/// The attributes of a span once its final attributes are written over what
/// it held: path, route, method, protocol version, client address, the user
/// agent where the request names one, the response status and, for a status
/// outside the success class, the error type. `displayed` is the text that
/// the status is displayed with.
pub open spec fn final_attributes(
    base: Attrs,
    req: RequestView,
    route: Seq<char>,
    outcome: OutcomeView,
    displayed: Seq<char>,
) -> Attrs {
    let a1 = upsert(base, KeyView::UrlPath, ValueView::Str(req.path));
    let a2 = upsert(a1, KeyView::HttpRoute, ValueView::Str(route));
    let a3 = upsert(a2, KeyView::HttpRequestMethod, ValueView::Str(req.method));
    let a4 = upsert(a3, KeyView::NetworkProtocolVersion, ValueView::Str(req.version));
    let a5 = upsert(a4, KeyView::ClientAddress, ValueView::Str(text_or_empty(req.peer_addr)));
    let a6 = match lookup(req.headers, "user-agent"@) {
        Some(v) => upsert(a5, KeyView::UserAgentOriginal, ValueView::Str(text_or_empty(v))),
        None => a5,
    };
    let a7 = upsert(
        a6,
        KeyView::HttpResponseStatusCode,
        ValueView::Int(outcome.status_code as i64),
    );
    if is_success(outcome.status_code) {
        a7
    } else {
        upsert(a7, KeyView::ErrorType, ValueView::Str(error_type_of(outcome, displayed)))
    }
}

/// The end time of a span that started at `start` and is closed at `now`: a
/// clock that went backwards never puts the end before the start.
pub open spec fn end_time_of(start: u64, now: u64) -> u64 {
    if now < start {
        start
    } else {
        now
    }
}

/// The span after it is finished with an outcome whose status is displayed
/// with the given text.
pub open spec fn finished_with(
    span: SpanView,
    req: RequestView,
    route: Seq<char>,
    outcome: OutcomeView,
    displayed: Seq<char>,
    now: u64,
) -> SpanView {
    SpanView {
        end_time: Some(end_time_of(span.start_time, now)),
        attributes: final_attributes(span.attributes, req, route, outcome, displayed),
        status: if is_server_error(outcome.status_code) {
            SpanStatus::Error
        } else {
            span.status
        },
        state: SpanState::Closed,
        ..span
    }
}

/// The span after it is finished with an outcome.
pub open spec fn finished(
    span: SpanView,
    req: RequestView,
    route: Seq<char>,
    outcome: OutcomeView,
    now: u64,
) -> SpanView {
    finished_with(span, req, route, outcome, status_display(outcome.status_code), now)
}

/// `IdGenerator::new_trace_id` of `opentelemetry_sdk`'s `RandomIdGenerator`:
/// a random trace id, of which nothing is known.
#[verifier::external_body]
fn random_trace_id() -> u128 {
    u128::from_be_bytes(RandomIdGenerator::default().new_trace_id().to_bytes())
}

/// `IdGenerator::new_span_id` of `opentelemetry_sdk`'s `RandomIdGenerator`:
/// a random span id, of which nothing is known.
#[verifier::external_body]
fn random_span_id() -> u64 {
    u64::from_be_bytes(RandomIdGenerator::default().new_span_id().to_bytes())
}

/// A fresh random trace id and a fresh random span id.
pub(crate) fn fresh_ids() -> (u128, u64) {
    (random_trace_id(), random_span_id())
}

/// A timed unit of work in a trace.
#[derive(Debug, PartialEq, Eq)]
pub struct Span {
    name: String,
    trace_id: u128,
    span_id: u64,
    parent_span_id: u64,
    start_time: u64,
    /// Meaningful once the span is closed.
    end_time: u64,
    attributes: AttributeSet,
    status: SpanStatus,
    state: SpanState,
}

impl View for Span {
    type V = SpanView;

    closed spec fn view(&self) -> SpanView {
        SpanView {
            name: self.name@,
            trace_id: self.trace_id,
            span_id: self.span_id,
            parent_span_id: self.parent_span_id,
            start_time: self.start_time,
            end_time: if self.state == SpanState::Closed {
                Some(self.end_time)
            } else {
                None
            },
            attributes: self.attributes@,
            status: self.status,
            state: self.state,
        }
    }
}

/// What holds of every span: it has an end time exactly when it is closed, and
/// the end is not before the start.
pub open spec fn span_valid(s: SpanView) -> bool {
    &&& s.end_time is Some <==> s.state == SpanState::Closed
    &&& s.end_time is Some ==> s.start_time <= s.end_time->0
}

impl Span {
    /// A span ends, if at all, no earlier than it started.
    #[verifier::type_invariant]
    pub open spec fn inv(self) -> bool {
        span_valid(self@)
    }

    /// Starts a span under a parent context with the given fresh ids.
    pub fn start_with(
        name: &str,
        parent: &TraceContext,
        fresh_trace_id: u128,
        fresh_span_id: u64,
        now: u64,
    ) -> (r: Span)
        ensures
            r@ == started(name@, *parent, fresh_trace_id, fresh_span_id, now),
    {
        let root = parent.is_empty();
        let attributes = AttributeSet::new();
        Span {
            name: String::from_str(name),
            trace_id: if root {
                fresh_trace_id
            } else {
                parent.trace_id
            },
            span_id: fresh_span_id,
            parent_span_id: if root {
                0
            } else {
                parent.parent_span_id
            },
            start_time: now,
            end_time: now,
            attributes,
            status: SpanStatus::Unset,
            state: SpanState::Created,
        }
    }

    /// Starts a span under a parent context, with a fresh random span id and,
    /// where the parent is empty, a fresh random trace id.
    pub fn start(name: &str, parent: &TraceContext, now: u64) -> (r: Span)
        ensures
            exists|t: u128, s: u64| r@ == #[trigger] started(name@, *parent, t, s, now),
            !parent.spec_is_empty() ==> r@.trace_id == parent.trace_id,
    {
        let (t, s) = fresh_ids();
        Span::start_with(name, parent, t, s, now)
    }

    pub fn name(&self) -> (r: &str)
        ensures
            r@ == self@.name,
    {
        self.name.as_str()
    }

    pub fn trace_id(&self) -> (r: u128)
        ensures
            r == self@.trace_id,
    {
        self.trace_id
    }

    pub fn span_id(&self) -> (r: u64)
        ensures
            r == self@.span_id,
    {
        self.span_id
    }

    /// The span id of the parent, 0 for a span without one.
    pub fn parent_span_id(&self) -> (r: u64)
        ensures
            r == self@.parent_span_id,
    {
        self.parent_span_id
    }

    pub fn start_time(&self) -> (r: u64)
        ensures
            r == self@.start_time,
    {
        self.start_time
    }

    /// The end time, once the span is closed.
    pub fn end_time(&self) -> (r: Option<u64>)
        ensures
            r == self@.end_time,
            span_valid(self@),
    {
        proof {
            use_type_invariant(self);
        }
        match self.state {
            SpanState::Closed => Some(self.end_time),
            _ => None,
        }
    }

    pub fn attributes(&self) -> (r: &AttributeSet)
        ensures
            r@ == self@.attributes,
    {
        &self.attributes
    }

    pub fn status(&self) -> (r: SpanStatus)
        ensures
            r == self@.status,
    {
        self.status
    }

    pub fn state(&self) -> (r: SpanState)
        ensures
            r == self@.state,
    {
        self.state
    }

    /// A copy of the span.
    pub fn duplicate(&self) -> (r: Span)
        ensures
            r@ == self@,
    {
        proof {
            use_type_invariant(self);
        }
        Span {
            name: self.name.clone(),
            trace_id: self.trace_id,
            span_id: self.span_id,
            parent_span_id: self.parent_span_id,
            start_time: self.start_time,
            end_time: self.end_time,
            attributes: self.attributes.duplicate(),
            status: self.status,
            state: self.state,
        }
    }

    /// Applies an event of the life cycle other than the close, which only
    /// [`Span::finish`] makes. Returns whether the span took the event; a span
    /// that did not is unchanged.
    pub fn advance(&mut self, event: SpanEvent) -> (took: bool)
        ensures
            took == (event != SpanEvent::Close && next_state(old(self)@.state, event) is Some),
            took ==> final(self)@ == (SpanView {
                state: next_state(old(self)@.state, event)->0,
                ..old(self)@
            }),
            !took ==> final(self)@ == old(self)@,
    {
        proof {
            use_type_invariant(&*self);
        }
        if event == SpanEvent::Close {
            return false;
        }
        match self.state.step(event) {
            Some(next) => {
                self.state = next;
                true
            },
            None => false,
        }
    }

    /// Writes an attribute on behalf of a handler. A span that is finishing
    /// or closed refuses the write and is unchanged.
    pub fn set_attribute(&mut self, key: AttrKey, value: AttrValue) -> (written: bool)
        ensures
            written == old(self)@.state.writable(),
            written ==> final(self)@ == (SpanView {
                attributes: upsert(old(self)@.attributes, key@, value@),
                ..old(self)@
            }),
            !written ==> final(self)@ == old(self)@,
    {
        proof {
            use_type_invariant(&*self);
        }
        match self.state {
            SpanState::Created | SpanState::Attached | SpanState::Active => {
                self.write(key, value);
                true
            },
            _ => false,
        }
    }

    /// Sets the status on behalf of a handler. A span that is finishing or
    /// closed refuses the write and is unchanged.
    pub fn set_status(&mut self, status: SpanStatus) -> (written: bool)
        ensures
            written == old(self)@.state.writable(),
            written ==> final(self)@ == (SpanView { status, ..old(self)@ }),
            !written ==> final(self)@ == old(self)@,
    {
        proof {
            use_type_invariant(&*self);
        }
        match self.state {
            SpanState::Created | SpanState::Attached | SpanState::Active => {
                self.status = status;
                true
            },
            _ => false,
        }
    }

    /// Writes an attribute, whatever the state short of closed.
    fn write(&mut self, key: AttrKey, value: AttrValue)
        requires
            old(self)@.state != SpanState::Closed,
        ensures
            final(self)@ == (SpanView {
                attributes: upsert(old(self)@.attributes, key@, value@),
                ..old(self)@
            }),
    {
        proof {
            use_type_invariant(&*self);
        }
        let mut attributes = AttributeSet::new();
        std::mem::swap(&mut attributes, &mut self.attributes);
        attributes.insert(key, value);
        self.attributes = attributes;
    }

    /// Finishes the span: writes the final attributes, sets the status to
    /// error for a server error, sets the end time and closes the span.
    ///
    /// Returns `Ok(true)` where this call closed the span. A span that is
    /// closed already is left as it is, with `Ok(false)`. A span that was never
    /// attached is left as it is, with the violation.
    pub fn finish(&mut self, req: &Request, route: &str, outcome: &Outcome, now: u64) -> (r: Result<
        bool,
        InvariantViolation,
    >)
        ensures
            old(self)@.state == SpanState::Closed ==> r == Ok::<bool, InvariantViolation>(false)
                && final(self)@ == old(self)@,
            old(self)@.state == SpanState::Created ==> r == Err::<bool, InvariantViolation>(
                InvariantViolation::UnattachedSpan,
            ) && final(self)@ == old(self)@,
            old(self)@.state.finishable() ==> r == Ok::<bool, InvariantViolation>(true)
                && final(self)@ == finished(old(self)@, req@, route@, outcome@, now),
            span_valid(final(self)@),
    {
        let displayed = if outcome.error.is_none() && !status_is_success(outcome.status_code) {
            status_text(outcome.status_code)
        } else {
            String::new()
        };
        self.finish_with(req, route, outcome, displayed.as_str(), now)
    }

    /// Finishes the span as [`Span::finish`] does, with the text that the
    /// status is displayed with given by the caller.
    pub fn finish_with(
        &mut self,
        req: &Request,
        route: &str,
        outcome: &Outcome,
        displayed: &str,
        now: u64,
    ) -> (r: Result<bool, InvariantViolation>)
        ensures
            old(self)@.state == SpanState::Closed ==> r == Ok::<bool, InvariantViolation>(false)
                && final(self)@ == old(self)@,
            old(self)@.state == SpanState::Created ==> r == Err::<bool, InvariantViolation>(
                InvariantViolation::UnattachedSpan,
            ) && final(self)@ == old(self)@,
            old(self)@.state.finishable() ==> r == Ok::<bool, InvariantViolation>(true)
                && final(self)@ == finished_with(
                old(self)@,
                req@,
                route@,
                outcome@,
                displayed@,
                now,
            ),
            span_valid(final(self)@),
    {
        proof {
            use_type_invariant(&*self);
        }
        match self.state {
            SpanState::Closed => {
                return Ok(false);
            },
            SpanState::Created => {
                return Err(InvariantViolation::UnattachedSpan);
            },
            _ => {},
        }
        let ghost before = self@;
        self.state = SpanState::Finishing;
        self.write(AttrKey::UrlPath, AttrValue::Str(req.path.clone()));
        self.write(AttrKey::HttpRoute, AttrValue::text(route));
        self.write(AttrKey::HttpRequestMethod, AttrValue::Str(req.method.clone()));
        self.write(AttrKey::NetworkProtocolVersion, AttrValue::Str(req.version.clone()));
        self.write(AttrKey::ClientAddress, AttrValue::Str(or_empty(&req.peer_addr)));
        match req.headers.value_under("user-agent") {
            Some(v) => {
                self.write(AttrKey::UserAgentOriginal, AttrValue::Str(or_empty(&v)));
            },
            None => {},
        }
        self.write(AttrKey::HttpResponseStatusCode, AttrValue::Int(outcome.status_code as i64));
        if !status_is_success(outcome.status_code) {
            let error_type = match &outcome.error {
                Some(d) => d.clone(),
                None => String::from_str(displayed),
            };
            self.write(AttrKey::ErrorType, AttrValue::Str(error_type));
        }
        if status_is_server_error(outcome.status_code) {
            self.status = SpanStatus::Error;
        }
        self.end_time = if now < self.start_time {
            self.start_time
        } else {
            now
        };
        self.state = SpanState::Closed;
        assert(self@.attributes == final_attributes(
            before.attributes,
            req@,
            route@,
            outcome@,
            displayed@,
        ));
        Ok(true)
    }
}

} // verus!
