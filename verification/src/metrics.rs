//! The server metrics of a request.
//!
//! Four instruments describe the server: a gauge of requests in flight and
//! histograms of duration, request size and response size. The recorder turns
//! the start and the end of a request into the observations to record; the
//! host applies them to the instruments it created.

use crate::assoc::{has_key, keys_distinct, upsert};
use crate::attribute::{AttrKey, AttrValue, AttributeSet, Attrs, KeyView, ValueView};
use crate::headers::content_length_of;
use crate::request::Request;
use vstd::prelude::*;

verus! {

/// Name of the duration histogram, in seconds.
pub const HTTP_SERVER_DURATION: &'static str = "http.server.duration";

/// Name of the gauge of requests in flight.
pub const HTTP_SERVER_ACTIVE_REQUESTS: &'static str = "http.server.active_requests";

/// Name of the request size histogram, in bytes.
pub const HTTP_SERVER_REQUEST_SIZE: &'static str = "http.server.request.size";

/// Name of the response size histogram, in bytes.
pub const HTTP_SERVER_RESPONSE_SIZE: &'static str = "http.server.response.size";

/// One of the four instruments.
#[derive(Clone, Copy, Debug, PartialEq, Eq, Structural)]
pub enum Instrument {
    Duration,
    ActiveRequests,
    RequestSize,
    ResponseSize,
}

/// The kind of an instrument.
#[derive(Clone, Copy, Debug, PartialEq, Eq, Structural)]
pub enum InstrumentKind {
    Histogram,
    UpDownCounter,
}

impl Instrument {
    /// The stable name of the instrument.
    pub open spec fn spec_name(self) -> Seq<char> {
        match self {
            Instrument::Duration => "http.server.duration"@,
            Instrument::ActiveRequests => "http.server.active_requests"@,
            Instrument::RequestSize => "http.server.request.size"@,
            Instrument::ResponseSize => "http.server.response.size"@,
        }
    }

    /// What the instrument measures.
    pub open spec fn spec_description(self) -> Seq<char> {
        match self {
            Instrument::Duration => "Measures the duration of inbound HTTP requests."@,
            Instrument::ActiveRequests =>
                "Measures the number of concurrent HTTP requests that are currently in-flight."@,
            Instrument::RequestSize => "Measures the size of HTTP request messages (compressed)."@,
            Instrument::ResponseSize =>
                "Measures the size of HTTP response messages (compressed)."@,
        }
    }

    /// The unit of the instrument's values, where it has one.
    pub open spec fn spec_unit(self) -> Option<Seq<char>> {
        match self {
            Instrument::Duration => Some("s"@),
            Instrument::ActiveRequests => None,
            Instrument::RequestSize => Some("By"@),
            Instrument::ResponseSize => Some("By"@),
        }
    }

    /// The kind of the instrument.
    pub open spec fn spec_kind(self) -> InstrumentKind {
        match self {
            Instrument::ActiveRequests => InstrumentKind::UpDownCounter,
            _ => InstrumentKind::Histogram,
        }
    }

    /// The stable name of the instrument.
    pub fn name(&self) -> (r: &'static str)
        ensures
            r@ == self.spec_name(),
    {
        match self {
            Instrument::Duration => HTTP_SERVER_DURATION,
            Instrument::ActiveRequests => HTTP_SERVER_ACTIVE_REQUESTS,
            Instrument::RequestSize => HTTP_SERVER_REQUEST_SIZE,
            Instrument::ResponseSize => HTTP_SERVER_RESPONSE_SIZE,
        }
    }

    /// What the instrument measures.
    pub fn description(&self) -> (r: &'static str)
        ensures
            r@ == self.spec_description(),
    {
        match self {
            Instrument::Duration => "Measures the duration of inbound HTTP requests.",
            Instrument::ActiveRequests =>
                "Measures the number of concurrent HTTP requests that are currently in-flight.",
            Instrument::RequestSize => "Measures the size of HTTP request messages (compressed).",
            Instrument::ResponseSize => "Measures the size of HTTP response messages (compressed).",
        }
    }

    /// The unit of the instrument's values, where it has one.
    pub fn unit(&self) -> (r: Option<&'static str>)
        ensures
            r is Some <==> self.spec_unit() is Some,
            r is Some ==> r->0@ == self.spec_unit()->0,
    {
        match self {
            Instrument::Duration => Some("s"),
            Instrument::ActiveRequests => None,
            Instrument::RequestSize => Some("By"),
            Instrument::ResponseSize => Some("By"),
        }
    }

    /// The kind of the instrument.
    pub fn kind(&self) -> (r: InstrumentKind)
        ensures
            r == self.spec_kind(),
    {
        match self {
            Instrument::ActiveRequests => InstrumentKind::UpDownCounter,
            _ => InstrumentKind::Histogram,
        }
    }
}

/// What is needed to create an instrument.
#[derive(Debug, PartialEq, Eq)]
pub struct InstrumentDescriptor {
    pub instrument: Instrument,
    pub name: String,
    pub description: String,
    pub unit: Option<String>,
    pub kind: InstrumentKind,
}

impl InstrumentDescriptor {
    /// Whether the description is the one of its instrument.
    pub open spec fn describes(&self, instrument: Instrument) -> bool {
        &&& self.instrument == instrument
        &&& self.name@ == instrument.spec_name()
        &&& self.description@ == instrument.spec_description()
        &&& self.unit.deep_view() == instrument.spec_unit()
        &&& self.kind == instrument.spec_kind()
    }

    /// The description of an instrument.
    pub fn of(instrument: Instrument) -> (r: InstrumentDescriptor)
        ensures
            r.describes(instrument),
    {
        let unit = match instrument.unit() {
            Some(u) => Some(String::from_str(u)),
            None => None,
        };
        InstrumentDescriptor {
            instrument,
            name: String::from_str(instrument.name()),
            description: String::from_str(instrument.description()),
            unit,
            kind: instrument.kind(),
        }
    }
}

/// The value of an observation.
#[derive(Clone, Copy, Debug, PartialEq, Eq, Structural)]
pub enum Measurement {
    /// A change of the gauge of requests in flight.
    Delta(i64),
    /// A size in bytes.
    Bytes(u64),
    /// A duration in nanoseconds, to be recorded in seconds.
    Nanos(u64),
}

/// One observation: a value for an instrument under a set of attributes.
#[derive(Debug, PartialEq, Eq)]
pub struct MetricEvent {
    pub instrument: Instrument,
    pub value: Measurement,
    pub attributes: AttributeSet,
}

/// Mathematical form of a [`MetricEvent`].
pub struct EventView {
    pub instrument: Instrument,
    pub value: Measurement,
    pub attributes: Attrs,
}

impl View for MetricEvent {
    type V = EventView;

    open spec fn view(&self) -> EventView {
        EventView {
            instrument: self.instrument,
            value: self.value,
            attributes: self.attributes@,
        }
    }
}

/// The mathematical form of a list of observations.
pub open spec fn event_views(events: Seq<MetricEvent>) -> Seq<EventView> {
    Seq::new(events.len(), |i: int| events[i]@)
}

/// The attributes known when a request starts: method and scheme. The gauge
/// is raised and lowered under exactly these.
pub open spec fn base_attributes(method: Seq<char>, scheme: Seq<char>) -> Attrs {
    seq![
        (KeyView::HttpRequestMethod, ValueView::Str(method)),
        (KeyView::UrlScheme, ValueView::Str(scheme)),
    ]
}

/// The attributes under which the request size is recorded: the base
/// attributes, with the route where it is known when the request starts.
pub open spec fn request_size_attributes(base: Attrs, route: Option<Seq<char>>) -> Attrs {
    match route {
        Some(r) => upsert(base, KeyView::HttpRoute, ValueView::Str(r)),
        None => base,
    }
}

/// The attributes under which duration and response size are recorded: the
/// base attributes with route and status.
pub open spec fn end_attributes(base: Attrs, route: Seq<char>, status: u16) -> Attrs {
    upsert(
        upsert(base, KeyView::HttpRoute, ValueView::Str(route)),
        KeyView::HttpResponseStatusCode,
        ValueView::Int(status as i64),
    )
}

/// The observations made when a request starts: the gauge is raised by one
/// under the base attributes, and the request size is recorded.
pub open spec fn start_events(base: Attrs, route: Option<Seq<char>>, request_size: u64) -> Seq<
    EventView,
> {
    seq![
        EventView {
            instrument: Instrument::ActiveRequests,
            value: Measurement::Delta(1i64),
            attributes: base,
        },
        EventView {
            instrument: Instrument::RequestSize,
            value: Measurement::Bytes(request_size),
            attributes: request_size_attributes(base, route),
        },
    ]
}

/// The observations made when a request ends: the gauge is lowered by one
/// under the base attributes, and duration and response size are recorded
/// under the end attributes.
pub open spec fn end_events(
    base: Attrs,
    route: Seq<char>,
    status: u16,
    response_size: u64,
    elapsed: u64,
) -> Seq<EventView> {
    seq![
        EventView {
            instrument: Instrument::ActiveRequests,
            value: Measurement::Delta(-1i64),
            attributes: base,
        },
        EventView {
            instrument: Instrument::Duration,
            value: Measurement::Nanos(elapsed),
            attributes: end_attributes(base, route, status),
        },
        EventView {
            instrument: Instrument::ResponseSize,
            value: Measurement::Bytes(response_size),
            attributes: end_attributes(base, route, status),
        },
    ]
}

/// What the recorder keeps of a request between its start and its end: the
/// attributes under which the gauge was raised, the request size that was
/// recorded, and whether the end of the request is still to be recorded.
#[derive(Debug, PartialEq, Eq)]
pub struct RequestSizeSample {
    attributes: AttributeSet,
    size: u64,
    open: bool,
}

/// Mathematical form of a [`RequestSizeSample`].
pub struct SampleView {
    /// The attributes under which the gauge was raised.
    pub attributes: Attrs,
    /// The request size that was recorded.
    pub size: u64,
    /// Whether the end of the request is still to be recorded.
    pub open: bool,
}

impl View for RequestSizeSample {
    type V = SampleView;

    closed spec fn view(&self) -> SampleView {
        SampleView { attributes: self.attributes@, size: self.size, open: self.open }
    }
}

impl RequestSizeSample {
    /// The attributes under which the gauge was raised.
    pub fn attributes(&self) -> (r: &AttributeSet)
        ensures
            r@ == self@.attributes,
    {
        &self.attributes
    }

    /// The request size that was recorded.
    pub fn size(&self) -> (r: u64)
        ensures
            r == self@.size,
    {
        self.size
    }

    /// Whether the end of the request is still to be recorded.
    pub fn is_open(&self) -> (r: bool)
        ensures
            r == self@.open,
    {
        self.open
    }
}

/// The observations made at the end of a request for a sample: those of the
/// end where the sample is open, none where the end was recorded before.
pub open spec fn sample_end_events(
    sample: SampleView,
    route: Seq<char>,
    status: u16,
    response_size: u64,
    elapsed: u64,
) -> Seq<EventView> {
    if sample.open {
        end_events(sample.attributes, route, status, response_size, elapsed)
    } else {
        Seq::empty()
    }
}

/// The four instruments of the server.
#[derive(Debug, PartialEq, Eq)]
pub struct Metrics {
    pub http_server_duration: InstrumentDescriptor,
    pub http_server_active_requests: InstrumentDescriptor,
    pub http_server_request_size: InstrumentDescriptor,
    pub http_server_response_size: InstrumentDescriptor,
}

impl Metrics {
    /// The four instruments, each under its stable name.
    pub fn new() -> (r: Metrics)
        ensures
            r.http_server_duration.describes(Instrument::Duration),
            r.http_server_active_requests.describes(Instrument::ActiveRequests),
            r.http_server_request_size.describes(Instrument::RequestSize),
            r.http_server_response_size.describes(Instrument::ResponseSize),
    {
        Metrics {
            http_server_duration: InstrumentDescriptor::of(Instrument::Duration),
            http_server_active_requests: InstrumentDescriptor::of(Instrument::ActiveRequests),
            http_server_request_size: InstrumentDescriptor::of(Instrument::RequestSize),
            http_server_response_size: InstrumentDescriptor::of(Instrument::ResponseSize),
        }
    }

    /// The description of one of the instruments.
    pub fn descriptor(&self, instrument: Instrument) -> (r: &InstrumentDescriptor)
        ensures
            r == match instrument {
                Instrument::Duration => &self.http_server_duration,
                Instrument::ActiveRequests => &self.http_server_active_requests,
                Instrument::RequestSize => &self.http_server_request_size,
                Instrument::ResponseSize => &self.http_server_response_size,
            },
    {
        match instrument {
            Instrument::Duration => &self.http_server_duration,
            Instrument::ActiveRequests => &self.http_server_active_requests,
            Instrument::RequestSize => &self.http_server_request_size,
            Instrument::ResponseSize => &self.http_server_response_size,
        }
    }

    /// The start of a request: raises the gauge of requests in flight under
    /// method and scheme, and records the request size that the headers
    /// announce, 0 where they announce none.
    ///
    /// Returns what to keep for the end of the request, and the observations
    /// to record, in order.
    pub fn on_request_start(&self, req: &Request) -> (r: (RequestSizeSample, Vec<MetricEvent>))
        ensures
            r.0@ == (SampleView {
                attributes: base_attributes(req@.method, req@.scheme),
                size: content_length_of(req@.headers),
                open: true,
            }),
            event_views(r.1@) == start_events(
                base_attributes(req@.method, req@.scheme),
                req@.route,
                content_length_of(req@.headers),
            ),
    {
        let mut attributes = AttributeSet::new();
        attributes.insert(AttrKey::HttpRequestMethod, AttrValue::Str(req.method.clone()));
        attributes.insert(AttrKey::UrlScheme, AttrValue::Str(req.scheme.clone()));
        proof {
            lemma_base_attributes(req@.method, req@.scheme);
        }
        let size = req.headers.content_length();
        let mut sized = attributes.duplicate();
        match &req.route {
            Some(route) => {
                sized.insert(AttrKey::HttpRoute, AttrValue::Str(route.clone()));
            },
            None => {},
        }
        let mut events: Vec<MetricEvent> = Vec::new();
        events.push(
            MetricEvent {
                instrument: Instrument::ActiveRequests,
                value: Measurement::Delta(1),
                attributes: attributes.duplicate(),
            },
        );
        events.push(
            MetricEvent {
                instrument: Instrument::RequestSize,
                value: Measurement::Bytes(size),
                attributes: sized,
            },
        );
        assert(event_views(events@) =~= start_events(
            base_attributes(req@.method, req@.scheme),
            req@.route,
            content_length_of(req@.headers),
        ));
        (RequestSizeSample { attributes, size, open: true }, events)
    }

    /// The end of a request: lowers the gauge of requests in flight under the
    /// attributes it was raised under, and records duration and response size
    /// under those attributes extended with route and status.
    ///
    /// The end of a request is recorded once: the call closes the sample, and
    /// a sample that is closed gives no observation. Returns the observations
    /// to record, in order.
    pub fn on_request_end(
        &self,
        sample: &mut RequestSizeSample,
        route: &str,
        status_code: u16,
        response_size: u64,
        elapsed: u64,
    ) -> (r: Vec<MetricEvent>)
        ensures
            final(sample)@ == (SampleView { open: false, ..old(sample)@ }),
            event_views(r@) == sample_end_events(
                old(sample)@,
                route@,
                status_code,
                response_size,
                elapsed,
            ),
    {
        if !sample.open {
            let none: Vec<MetricEvent> = Vec::new();
            assert(event_views(none@) =~= Seq::<EventView>::empty());
            return none;
        }
        sample.open = false;
        let mut full = sample.attributes.duplicate();
        full.insert(AttrKey::HttpRoute, AttrValue::text(route));
        full.insert(AttrKey::HttpResponseStatusCode, AttrValue::Int(status_code as i64));
        let mut events: Vec<MetricEvent> = Vec::new();
        events.push(
            MetricEvent {
                instrument: Instrument::ActiveRequests,
                value: Measurement::Delta(-1),
                attributes: sample.attributes.duplicate(),
            },
        );
        events.push(
            MetricEvent {
                instrument: Instrument::Duration,
                value: Measurement::Nanos(elapsed),
                attributes: full.duplicate(),
            },
        );
        events.push(
            MetricEvent {
                instrument: Instrument::ResponseSize,
                value: Measurement::Bytes(response_size),
                attributes: full,
            },
        );
        assert(event_views(events@) =~= end_events(
            sample@.attributes,
            route@,
            status_code,
            response_size,
            elapsed,
        ));
        events
    }
}

/// The end of a request is recorded once: whatever is offered as a second
/// end for a sample gives no observation, so the gauge is lowered once.
pub proof fn lemma_end_recorded_once(
    sample: SampleView,
    route: Seq<char>,
    status: u16,
    response_size: u64,
    elapsed: u64,
)
    ensures
        sample_end_events(
            SampleView { open: false, ..sample },
            route,
            status,
            response_size,
            elapsed,
        ) == Seq::<EventView>::empty(),
{
}

/// Method and scheme, written one after the other into an empty set, are the
/// base attributes.
pub proof fn lemma_base_attributes(method: Seq<char>, scheme: Seq<char>)
    ensures
        upsert(
            upsert(Attrs::empty(), KeyView::HttpRequestMethod, ValueView::Str(method)),
            KeyView::UrlScheme,
            ValueView::Str(scheme),
        ) == base_attributes(method, scheme),
        keys_distinct(base_attributes(method, scheme)),
{
    let e = Attrs::empty();
    let a = upsert(e, KeyView::HttpRequestMethod, ValueView::Str(method));
    assert(!has_key(e, KeyView::HttpRequestMethod));
    assert(a =~= seq![(KeyView::HttpRequestMethod, ValueView::Str(method))]);
    assert(!has_key(a, KeyView::UrlScheme)) by {
        if has_key(a, KeyView::UrlScheme) {
            let i = choose|i: int| 0 <= i < a.len() && (#[trigger] a[i]).0 == KeyView::UrlScheme;
            assert(a[i].0 == KeyView::HttpRequestMethod);
        }
    }
    assert(upsert(a, KeyView::UrlScheme, ValueView::Str(scheme)) =~= base_attributes(
        method,
        scheme,
    ));
}

/// The change that an observation makes to the gauge of requests in flight.
pub open spec fn gauge_change(e: EventView) -> int {
    match (e.instrument, e.value) {
        (Instrument::ActiveRequests, Measurement::Delta(d)) => d as int,
        _ => 0,
    }
}

/// The net change that a log of observations makes to the gauge of requests
/// in flight.
pub open spec fn gauge_net(log: Seq<EventView>) -> int
    decreases log.len(),
{
    if log.len() == 0 {
        0
    } else {
        gauge_net(log.drop_last()) + gauge_change(log.last())
    }
}

/// The net change of two logs, one after the other, is the sum of their net
/// changes.
pub proof fn lemma_gauge_net_concat(a: Seq<EventView>, b: Seq<EventView>)
    ensures
        gauge_net(a + b) == gauge_net(a) + gauge_net(b),
    decreases b.len(),
{
    if b.len() == 0 {
        assert(a + b =~= a);
    } else {
        assert((a + b).drop_last() =~= a + b.drop_last());
        lemma_gauge_net_concat(a, b.drop_last());
    }
}

/// A request's start raises the gauge by one, its end lowers it by one, and
/// both speak of the gauge under the same attributes: together they leave it
/// where it was, whatever the status and however the request ended.
pub proof fn lemma_gauge_balance(
    base: Attrs,
    start_route: Option<Seq<char>>,
    request_size: u64,
    route: Seq<char>,
    status: u16,
    response_size: u64,
    elapsed: u64,
)
    ensures
        gauge_net(start_events(base, start_route, request_size)) == 1,
        gauge_net(end_events(base, route, status, response_size, elapsed)) == -1,
        gauge_net(
            start_events(base, start_route, request_size) + end_events(
                base,
                route,
                status,
                response_size,
                elapsed,
            ),
        ) == 0,
        start_events(base, start_route, request_size)[0].attributes == end_events(
            base,
            route,
            status,
            response_size,
            elapsed,
        )[0].attributes,
{
    let s = start_events(base, start_route, request_size);
    let e = end_events(base, route, status, response_size, elapsed);
    reveal_with_fuel(gauge_net, 4);
    assert(s.drop_last().drop_last() =~= Seq::<EventView>::empty());
    assert(gauge_net(s) == 1);
    assert(e.drop_last().drop_last().drop_last() =~= Seq::<EventView>::empty());
    assert(gauge_net(e) == -1);
    lemma_gauge_net_concat(s, e);
}

/// Taking one observation out of a log takes its change out of the net
/// change.
pub proof fn lemma_gauge_net_remove(log: Seq<EventView>, j: int)
    requires
        0 <= j < log.len(),
    ensures
        gauge_net(log) == gauge_net(log.remove(j)) + gauge_change(log[j]),
{
    let head = log.take(j);
    let one = seq![log[j]];
    let tail = log.skip(j + 1);
    assert(log =~= head + one + tail);
    assert(log.remove(j) =~= head + tail);
    lemma_gauge_net_concat(head + one, tail);
    lemma_gauge_net_concat(head, one);
    lemma_gauge_net_concat(head, tail);
    assert(one.drop_last() =~= Seq::<EventView>::empty());
    reveal_with_fuel(gauge_net, 2);
    assert(gauge_net(one) == gauge_change(log[j]));
}

/// The net change of a log does not depend on the order of its observations.
pub proof fn lemma_gauge_net_permutation(a: Seq<EventView>, b: Seq<EventView>)
    requires
        a.to_multiset() == b.to_multiset(),
    ensures
        gauge_net(a) == gauge_net(b),
    decreases a.len(),
{
    a.to_multiset_ensures();
    b.to_multiset_ensures();
    if a.len() > 0 {
        let x = a.last();
        assert(a[a.len() - 1] == x);
        assert(a.contains(x));
        assert(a.to_multiset().count(x) > 0);
        assert(b.to_multiset().count(x) > 0);
        assert(b.contains(x));
        let j = choose|j: int| 0 <= j < b.len() && b[j] == x;
        let a2 = a.drop_last();
        let b2 = b.remove(j);
        a2.to_multiset_ensures();
        assert(a2.push(x) =~= a);
        assert(a2.to_multiset() =~= a.to_multiset().remove(x));
        assert(a2.to_multiset() =~= b2.to_multiset());
        lemma_gauge_net_permutation(a2, b2);
        lemma_gauge_net_remove(b, j);
    }
}

/// What one request contributes to the metrics, from its start to its end.
pub struct RequestRun {
    /// The attributes known at the start: method and scheme.
    pub base: Attrs,
    /// The route, where it was known at the start.
    pub start_route: Option<Seq<char>>,
    pub request_size: u64,
    /// The route resolved at the end.
    pub route: Seq<char>,
    /// The response status, or the fault status.
    pub status: u16,
    pub response_size: u64,
    pub elapsed: u64,
}

/// The observations of one request, those of its start before those of its
/// end.
pub open spec fn run_events(run: RequestRun) -> Seq<EventView> {
    start_events(run.base, run.start_route, run.request_size) + end_events(
        run.base,
        run.route,
        run.status,
        run.response_size,
        run.elapsed,
    )
}

/// The observations of several requests, one request after the other.
pub open spec fn all_run_events(runs: Seq<RequestRun>) -> Seq<EventView>
    decreases runs.len(),
{
    if runs.len() == 0 {
        Seq::empty()
    } else {
        all_run_events(runs.drop_last()) + run_events(runs.last())
    }
}

/// Gauge balance: once any number of requests have all completed, the gauge
/// of requests in flight is back where it was, whatever their statuses and
/// in whatever order their observations were interleaved in the log.
pub proof fn lemma_gauge_returns_to_baseline(runs: Seq<RequestRun>, log: Seq<EventView>)
    requires
        log.to_multiset() == all_run_events(runs).to_multiset(),
    ensures
        gauge_net(log) == 0,
{
    lemma_runs_net_zero(runs);
    lemma_gauge_net_permutation(log, all_run_events(runs));
}

/// Requests that run one after the other leave the gauge where it was.
proof fn lemma_runs_net_zero(runs: Seq<RequestRun>)
    ensures
        gauge_net(all_run_events(runs)) == 0,
    decreases runs.len(),
{
    if runs.len() > 0 {
        let run = runs.last();
        lemma_runs_net_zero(runs.drop_last());
        lemma_gauge_balance(
            run.base,
            run.start_route,
            run.request_size,
            run.route,
            run.status,
            run.response_size,
            run.elapsed,
        );
        lemma_gauge_net_concat(all_run_events(runs.drop_last()), run_events(run));
    }
}

} // verus!
