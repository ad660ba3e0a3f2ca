//! What the instrumentation reads of a request and of what came back for it.

use crate::headers::{HeaderSeq, Headers};
use actix_web::http::StatusCode;
use vstd::prelude::*;

verus! {

/// The text in an optional text, the empty text where there is none.
pub open spec fn text_or_empty(t: Option<Seq<char>>) -> Seq<char> {
    match t {
        Some(s) => s,
        None => Seq::empty(),
    }
}

/// A copy of an optional text, the empty text where there is none.
pub fn or_empty(t: &Option<String>) -> (r: String)
    ensures
        r@ == text_or_empty(t.deep_view()),
{
    match t {
        Some(s) => s.clone(),
        None => String::new(),
    }
}

/// An inbound request, as far as telemetry is concerned.
#[derive(Debug, PartialEq, Eq)]
pub struct Request {
    /// The request method, such as `GET`.
    pub method: String,
    /// The URL scheme, such as `http`.
    pub scheme: String,
    /// The path of the request target.
    pub path: String,
    /// The route pattern that the request matched, where that is known before
    /// the handler runs.
    pub route: Option<String>,
    /// The protocol version, such as `HTTP/1.1`.
    pub version: String,
    /// The address of the peer, where it is known.
    pub peer_addr: Option<String>,
    /// The request headers.
    pub headers: Headers,
}

/// Mathematical form of a [`Request`].
pub struct RequestView {
    pub method: Seq<char>,
    pub scheme: Seq<char>,
    pub path: Seq<char>,
    pub route: Option<Seq<char>>,
    pub version: Seq<char>,
    pub peer_addr: Option<Seq<char>>,
    pub headers: HeaderSeq,
}

impl View for Request {
    type V = RequestView;

    open spec fn view(&self) -> RequestView {
        RequestView {
            method: self.method@,
            scheme: self.scheme@,
            path: self.path@,
            route: self.route.deep_view(),
            version: self.version@,
            peer_addr: self.peer_addr.deep_view(),
            headers: self.headers@,
        }
    }
}

/// How large a response body is.
#[derive(Clone, Copy, Debug, PartialEq, Eq, Structural)]
pub enum BodySize {
    /// There is no body.
    Empty,
    /// The body has this many bytes.
    Sized(u64),
    /// The body is streamed and its length is not known.
    Stream,
}

impl BodySize {
    /// The number of bytes to record: the known size, 0 for a body that is
    /// absent or of unknown length.
    pub open spec fn recorded(self) -> u64 {
        match self {
            BodySize::Sized(n) => n,
            _ => 0,
        }
    }

    /// The number of bytes to record for this body.
    pub fn bytes(&self) -> (r: u64)
        ensures
            r == self.recorded(),
    {
        match self {
            BodySize::Sized(n) => *n,
            _ => 0,
        }
    }
}

/// The response that the next stage returned.
#[derive(Debug, PartialEq, Eq)]
pub struct Response {
    /// The status code.
    pub status: u16,
    /// The size of the body.
    pub body: BodySize,
    /// The route pattern that the request matched, where there is one.
    pub route: Option<String>,
}

/// Mathematical form of a [`Response`].
pub struct ResponseView {
    pub status: u16,
    pub body: BodySize,
    pub route: Option<Seq<char>>,
}

impl View for Response {
    type V = ResponseView;

    open spec fn view(&self) -> ResponseView {
        ResponseView { status: self.status, body: self.body, route: self.route.deep_view() }
    }
}

/// What came back from the next stage.
#[derive(Debug, PartialEq, Eq)]
pub enum Completion {
    /// The next stage returned a response, whatever its status.
    Response(Response),
    /// The next stage raised, panicked or was cancelled; the text describes
    /// the fault.
    Fault(String),
}

/// Mathematical form of a [`Completion`].
pub enum CompletionView {
    Response(ResponseView),
    Fault(Seq<char>),
}

impl View for Completion {
    type V = CompletionView;

    open spec fn view(&self) -> CompletionView {
        match self {
            Completion::Response(r) => CompletionView::Response(r@),
            Completion::Fault(d) => CompletionView::Fault(d@),
        }
    }
}

/// The status recorded for a request whose next stage gave no response.
pub const FAULT_STATUS: u16 = 500;

/// How a request ended, as the span and the metrics record it.
#[derive(Debug, PartialEq, Eq)]
pub struct Outcome {
    /// The response status, or the status that stands for a fault.
    pub status_code: u16,
    /// A description of the failure, where there was one.
    pub error: Option<String>,
}

/// Mathematical form of an [`Outcome`].
pub struct OutcomeView {
    pub status_code: u16,
    pub error: Option<Seq<char>>,
}

impl View for Outcome {
    type V = OutcomeView;

    open spec fn view(&self) -> OutcomeView {
        OutcomeView { status_code: self.status_code, error: self.error.deep_view() }
    }
}

/// Whether a status is in the success class, 200 to 299.
pub open spec fn is_success(status: u16) -> bool {
    200 <= status < 300
}

/// Whether a status is in the server-error class, 500 to 599.
pub open spec fn is_server_error(status: u16) -> bool {
    500 <= status < 600
}

/// Whether a status is in the success class.
pub fn status_is_success(status: u16) -> (r: bool)
    ensures
        r == is_success(status),
{
    200 <= status && status < 300
}

/// Whether a status is in the server-error class.
pub fn status_is_server_error(status: u16) -> (r: bool)
    ensures
        r == is_server_error(status),
{
    500 <= status && status < 600
}

/// The text that `actix_web::http::StatusCode` displays for a status: the
/// number and its canonical reason phrase. It is the empty text for a number
/// that is no status code.
pub uninterp spec fn status_display(status: u16) -> Seq<char>;

/// `StatusCode::from_u16` followed by the `Display` form of the status, both
/// of `actix_web::http`. The text depends on the number alone; a number that
/// `from_u16` rejects gives the empty text.
#[verifier::external_body]
pub(crate) fn status_text(status: u16) -> (r: String)
    ensures
        r@ == status_display(status),
{
    match StatusCode::from_u16(status) {
        Ok(code) => code.to_string(),
        Err(_) => String::new(),
    }
}

/// The outcome that a completion amounts to.
pub open spec fn outcome_of(c: CompletionView) -> OutcomeView {
    match c {
        CompletionView::Response(r) => OutcomeView { status_code: r.status, error: None },
        CompletionView::Fault(d) => OutcomeView { status_code: FAULT_STATUS, error: Some(d) },
    }
}

/// The route to record at the end of a request: the one that the response
/// names, else the one known from the request, else the empty text.
pub open spec fn resolved_route(req: RequestView, c: CompletionView) -> Seq<char> {
    match c {
        CompletionView::Response(r) if r.route is Some => r.route->0,
        _ => text_or_empty(req.route),
    }
}

/// The number of body bytes to record at the end of a request.
pub open spec fn response_size_of(c: CompletionView) -> u64 {
    match c {
        CompletionView::Response(r) => r.body.recorded(),
        CompletionView::Fault(_) => 0,
    }
}

impl Completion {
    /// The outcome that this completion amounts to: the response's status, or
    /// the fault status together with the fault's description.
    pub fn outcome(&self) -> (r: Outcome)
        ensures
            r@ == outcome_of(self@),
    {
        match self {
            Completion::Response(r) => Outcome { status_code: r.status, error: None },
            Completion::Fault(d) => Outcome { status_code: FAULT_STATUS, error: Some(d.clone()) },
        }
    }

    /// The route to record at the end of the request.
    pub fn route(&self, req: &Request) -> (r: String)
        ensures
            r@ == resolved_route(req@, self@),
    {
        match self {
            Completion::Response(Response { route: Some(route), .. }) => route.clone(),
            _ => or_empty(&req.route),
        }
    }

    /// The number of body bytes to record at the end of the request.
    pub fn response_size(&self) -> (r: u64)
        ensures
            r == response_size_of(self@),
    {
        match self {
            Completion::Response(r) => r.body.bytes(),
            Completion::Fault(_) => 0,
        }
    }
}

} // verus!
