//! Root HTTP server span and HTTP semantic-convention metrics.
//!
//! One span per request, opened before a handler sees the request and closed
//! only when the response body has been fully sent or dropped. The functions
//! here decide what is recorded on that span and on the request metrics at each
//! turn of a request; the caller performs the [`Effect`]s in order. Only
//! bounded attributes are recorded: no query strings, headers, client
//! addresses, or original method strings.

use vstd::prelude::*;
use vstd::std_specs::convert::FromSpecImpl;

use crate::text;
use crate::text::optional_view;

verus! {

pub const ATTR_METHOD: &'static str = "http.request.method";

pub const ATTR_ROUTE: &'static str = "http.route";

pub const ATTR_STATUS: &'static str = "http.response.status_code";

pub const ATTR_SCHEME: &'static str = "url.scheme";

pub const ATTR_ERROR_TYPE: &'static str = "error.type";

pub const ATTR_OTEL_STATUS: &'static str = "otel.status_code";

/// The gateway listens on plain HTTP; TLS, if any, terminates in front of it.
/// The scheme is therefore a property of the listener, never copied from the
/// request target (absolute-form targets can carry any client-chosen scheme).
pub const LISTENER_SCHEME: &'static str = "http";

/// Bounded `error.type` values for outcomes observed here.
pub const ERROR_TYPE_PANIC: &'static str = "handler_panic";

pub const ERROR_TYPE_BODY: &'static str = "response_body";

pub const ERROR_TYPE_CANCELLED: &'static str = "cancelled";

/// Status of a span that failed.
pub const OTEL_ERROR: &'static str = "ERROR";

/// Bounded `http.request.method` label per the HTTP semantic conventions:
/// well-known methods verbatim, anything else collapsed to `_OTHER`.
#[derive(Debug, Clone, Copy, PartialEq, Eq, Structural)]
pub enum KnownMethod {
    Connect,
    Delete,
    Get,
    Head,
    Options,
    Patch,
    Post,
    Put,
    Trace,
    Other,
}

impl KnownMethod {
    pub open spec fn label(self) -> Seq<char> {
        match self {
            KnownMethod::Connect => "CONNECT"@,
            KnownMethod::Delete => "DELETE"@,
            KnownMethod::Get => "GET"@,
            KnownMethod::Head => "HEAD"@,
            KnownMethod::Options => "OPTIONS"@,
            KnownMethod::Patch => "PATCH"@,
            KnownMethod::Post => "POST"@,
            KnownMethod::Put => "PUT"@,
            KnownMethod::Trace => "TRACE"@,
            KnownMethod::Other => "_OTHER"@,
        }
    }

    pub fn as_str(self) -> (label: &'static str)
        ensures
            label@ == self.label(),
            label@ == match self {
                KnownMethod::Connect => "CONNECT"@,
                KnownMethod::Delete => "DELETE"@,
                KnownMethod::Get => "GET"@,
                KnownMethod::Head => "HEAD"@,
                KnownMethod::Options => "OPTIONS"@,
                KnownMethod::Patch => "PATCH"@,
                KnownMethod::Post => "POST"@,
                KnownMethod::Put => "PUT"@,
                KnownMethod::Trace => "TRACE"@,
                KnownMethod::Other => "_OTHER"@,
            },
    {
        match self {
            KnownMethod::Connect => "CONNECT",
            KnownMethod::Delete => "DELETE",
            KnownMethod::Get => "GET",
            KnownMethod::Head => "HEAD",
            KnownMethod::Options => "OPTIONS",
            KnownMethod::Patch => "PATCH",
            KnownMethod::Post => "POST",
            KnownMethod::Put => "PUT",
            KnownMethod::Trace => "TRACE",
            KnownMethod::Other => "_OTHER",
        }
    }
}

impl KnownMethod {
    /// The label of a request method.
    pub open spec fn of_name(name: Seq<char>) -> KnownMethod {
        if name == "CONNECT"@ {
            KnownMethod::Connect
        } else if name == "DELETE"@ {
            KnownMethod::Delete
        } else if name == "GET"@ {
            KnownMethod::Get
        } else if name == "HEAD"@ {
            KnownMethod::Head
        } else if name == "OPTIONS"@ {
            KnownMethod::Options
        } else if name == "PATCH"@ {
            KnownMethod::Patch
        } else if name == "POST"@ {
            KnownMethod::Post
        } else if name == "PUT"@ {
            KnownMethod::Put
        } else if name == "TRACE"@ {
            KnownMethod::Trace
        } else {
            KnownMethod::Other
        }
    }
}

impl<'a> From<&'a str> for KnownMethod {
    /// The label of a request method, given by its name.
    fn from(name: &'a str) -> (method: Self) {
        if text::same(name, "CONNECT") {
            KnownMethod::Connect
        } else if text::same(name, "DELETE") {
            KnownMethod::Delete
        } else if text::same(name, "GET") {
            KnownMethod::Get
        } else if text::same(name, "HEAD") {
            KnownMethod::Head
        } else if text::same(name, "OPTIONS") {
            KnownMethod::Options
        } else if text::same(name, "PATCH") {
            KnownMethod::Patch
        } else if text::same(name, "POST") {
            KnownMethod::Post
        } else if text::same(name, "PUT") {
            KnownMethod::Put
        } else if text::same(name, "TRACE") {
            KnownMethod::Trace
        } else {
            KnownMethod::Other
        }
    }
}

impl<'a> FromSpecImpl<&'a str> for KnownMethod {
    open spec fn obeys_from_spec() -> bool {
        true
    }

    open spec fn from_spec(name: &'a str) -> KnownMethod {
        KnownMethod::of_name(name@)
    }
}

/// HTTP version of a request.
#[derive(Debug, Clone, Copy, PartialEq, Eq, Structural)]
pub enum Version {
    Http09,
    Http10,
    Http11,
    Http2,
    Http3,
    Unknown,
}

impl Version {
    pub open spec fn label(self) -> Seq<char> {
        match self {
            Version::Http09 => "0.9"@,
            Version::Http10 => "1.0"@,
            Version::Http11 => "1.1"@,
            Version::Http2 => "2"@,
            Version::Http3 => "3"@,
            Version::Unknown => "unknown"@,
        }
    }
}

pub fn protocol_version(version: Version) -> (label: &'static str)
    ensures
        label@ == version.label(),
        label@ == match version {
            Version::Http09 => "0.9"@,
            Version::Http10 => "1.0"@,
            Version::Http11 => "1.1"@,
            Version::Http2 => "2"@,
            Version::Http3 => "3"@,
            Version::Unknown => "unknown"@,
        },
{
    match version {
        Version::Http09 => "0.9",
        Version::Http10 => "1.0",
        Version::Http11 => "1.1",
        Version::Http2 => "2",
        Version::Http3 => "3",
        Version::Unknown => "unknown",
    }
}

pub open spec fn request_name(method: KnownMethod, route: Option<Seq<char>>) -> Seq<char> {
    match route {
        Some(route) => method.label() + " "@ + route,
        None => method.label(),
    }
}

/// Span name per the semantic conventions: `{method} {route}` when the
/// request matched a route template, otherwise the method alone.
pub fn span_name(method: KnownMethod, route: Option<&str>) -> (name: String)
    ensures
        name@ == request_name(method, optional_view(route)),
        route matches Some(route) ==> name@ == method.label() + " "@ + route@,
        route is None ==> name@ == method.label(),
{
    match route {
        Some(route) => method.as_str().to_owned().concat(" ").concat(route),
        None => method.as_str().to_owned(),
    }
}

/// What the root span of a request carries when it opens. Its status code,
/// error type and response status are still unset.
#[derive(Debug)]
pub struct ServerSpan {
    pub name: String,
    pub kind: &'static str,
    pub method: &'static str,
    pub scheme: &'static str,
    pub protocol_version: &'static str,
    pub route: Option<String>,
}

impl ServerSpan {
    /// Whether this is the span of a request.
    pub open spec fn opens(
        self,
        method: KnownMethod,
        version: Version,
        route: Option<Seq<char>>,
    ) -> bool {
        &&& self.name@ == request_name(method, route)
        &&& self.kind@ == "server"@
        &&& self.method@ == method.label()
        &&& self.scheme@ == LISTENER_SCHEME@
        &&& self.protocol_version@ == version.label()
        &&& route_view(self.route) == route
    }

    pub fn open(method: KnownMethod, version: Version, route: Option<&str>) -> (span: Self)
        ensures
            span.opens(method, version, optional_view(route)),
            route matches Some(route) ==> span.name@ == method.label() + " "@ + route@,
            route is None ==> span.name@ == method.label(),
            span.kind@ == "server"@,
            span.method@ == method.label(),
            span.scheme@ == "http"@,
            span.protocol_version@ == version.label(),
            route matches Some(route) ==> span.route is Some && span.route->0@ == route@,
            route is None ==> span.route is None,
    {
        ServerSpan {
            name: span_name(method, route),
            kind: "server",
            method: method.as_str(),
            scheme: LISTENER_SCHEME,
            protocol_version: protocol_version(version),
            route: match route {
                Some(route) => Some(route.to_owned()),
                None => None,
            },
        }
    }
}

/// Value of an attribute.
#[derive(Debug, Clone, PartialEq, Eq)]
pub enum AttributeValue {
    Text(String),
    Integer(i64),
}

pub enum AttributeValueView {
    Text(Seq<char>),
    Integer(int),
}

/// An attribute of a span or of a measurement.
#[derive(Debug, Clone, PartialEq, Eq)]
pub struct Attribute {
    pub key: &'static str,
    pub value: AttributeValue,
}

pub struct AttributeView {
    pub key: Seq<char>,
    pub value: AttributeValueView,
}

impl View for Attribute {
    type V = AttributeView;

    open spec fn view(&self) -> AttributeView {
        AttributeView {
            key: self.key@,
            value: match self.value {
                AttributeValue::Text(text) => AttributeValueView::Text(text@),
                AttributeValue::Integer(value) => AttributeValueView::Integer(value as int),
            },
        }
    }
}

pub open spec fn text_attribute(key: Seq<char>, value: Seq<char>) -> AttributeView {
    AttributeView { key, value: AttributeValueView::Text(value) }
}

pub open spec fn integer_attribute(key: Seq<char>, value: int) -> AttributeView {
    AttributeView { key, value: AttributeValueView::Integer(value) }
}

pub open spec fn attributes_view(attributes: Seq<Attribute>) -> Seq<AttributeView> {
    attributes.map_values(|attribute: Attribute| attribute@)
}

impl Attribute {
    fn text(key: &'static str, value: &str) -> (attribute: Self)
        ensures
            attribute@ == text_attribute(key@, value@),
    {
        Attribute { key, value: AttributeValue::Text(value.to_owned()) }
    }

    fn status(status: u16) -> (attribute: Self)
        ensures
            attribute@ == integer_attribute(ATTR_STATUS@, status as int),
    {
        Attribute { key: ATTR_STATUS, value: AttributeValue::Integer(status as i64) }
    }
}

/// Something to record.
#[derive(Debug, Clone, PartialEq, Eq)]
pub enum Effect {
    /// Move the number of active requests.
    ActiveRequests(i64, Vec<Attribute>),
    /// Record how long the request has taken so far.
    Duration(Vec<Attribute>),
    /// Set an attribute of the request's span.
    Span(Attribute),
}

pub enum EffectView {
    ActiveRequests(int, Seq<AttributeView>),
    Duration(Seq<AttributeView>),
    Span(AttributeView),
}

impl View for Effect {
    type V = EffectView;

    open spec fn view(&self) -> EffectView {
        match *self {
            Effect::ActiveRequests(change, attributes) => EffectView::ActiveRequests(
                change as int,
                attributes_view(attributes@),
            ),
            Effect::Duration(attributes) => EffectView::Duration(attributes_view(attributes@)),
            Effect::Span(attribute) => EffectView::Span(attribute@),
        }
    }
}

pub open spec fn effects_view(effects: Seq<Effect>) -> Seq<EffectView> {
    effects.map_values(|effect: Effect| effect@)
}

/// Attributes of the active-request count.
pub open spec fn active_attributes(method: KnownMethod) -> Seq<AttributeView> {
    seq![
        text_attribute(ATTR_METHOD@, method.label()),
        text_attribute(ATTR_SCHEME@, LISTENER_SCHEME@),
    ]
}

/// Attributes of the request duration.
pub open spec fn duration_attributes(
    method: KnownMethod,
    route: Option<Seq<char>>,
    status: Option<u16>,
) -> Seq<AttributeView> {
    let routed = match route {
        Some(route) => seq![text_attribute(ATTR_ROUTE@, route)],
        None => seq![],
    };
    let answered = match status {
        Some(status) => seq![integer_attribute(ATTR_STATUS@, status as int)],
        None => seq![],
    };
    active_attributes(method) + routed + answered
}

pub open spec fn start_effects(method: KnownMethod) -> Seq<EffectView> {
    seq![EffectView::ActiveRequests(1, active_attributes(method))]
}

pub open spec fn finish_effects(
    method: KnownMethod,
    route: Option<Seq<char>>,
    status: Option<u16>,
) -> Seq<EffectView> {
    seq![
        EffectView::ActiveRequests(-1, active_attributes(method)),
        EffectView::Duration(duration_attributes(method, route, status)),
    ]
}

pub open spec fn error_effects(error_type: Seq<char>) -> Seq<EffectView> {
    seq![
        EffectView::Span(text_attribute(ATTR_OTEL_STATUS@, OTEL_ERROR@)),
        EffectView::Span(text_attribute(ATTR_ERROR_TYPE@, error_type)),
    ]
}

pub open spec fn response_effects(status: u16) -> Seq<EffectView> {
    let recorded = EffectView::Span(integer_attribute(ATTR_STATUS@, status as int));
    if is_server_error(status) {
        seq![recorded, EffectView::Span(text_attribute(ATTR_OTEL_STATUS@, OTEL_ERROR@))]
    } else {
        seq![recorded]
    }
}

/// Whether a status tells of a failure of the server.
pub open spec fn is_server_error(status: u16) -> bool {
    500 <= status < 600
}

pub open spec fn route_view(route: Option<String>) -> Option<Seq<char>> {
    match route {
        Some(route) => Some(route@),
        None => None,
    }
}

/// Balances the active-request count and records the duration exactly once,
/// when the request ends, so every way a body can end (completion, error, or
/// the client going away) is accounted for.
#[derive(Debug)]
pub struct RequestGuard {
    pub method: KnownMethod,
    pub route: Option<String>,
    pub status: Option<u16>,
}

impl RequestGuard {
    /// Begin a request.
    pub fn start(method: KnownMethod, route: Option<String>) -> (started: (Self, Vec<Effect>))
        ensures
            started.0 == (RequestGuard { method, route, status: None }),
            effects_view(started.1@) == start_effects(method),
            effects_view(started.1@) == seq![EffectView::ActiveRequests(1, seq![
                AttributeView { key: "http.request.method"@, value: AttributeValueView::Text(method.label()) },
                AttributeView { key: "url.scheme"@, value: AttributeValueView::Text("http"@) },
            ])],
    {
        let guard = RequestGuard { method, route, status: None };
        let mut effects = Vec::new();
        effects.push(Effect::ActiveRequests(1, guard.active_attributes()));
        assert(effects_view(effects@) =~= start_effects(method));
        (guard, effects)
    }

    pub fn active_attributes(&self) -> (attributes: Vec<Attribute>)
        ensures
            attributes_view(attributes@) == active_attributes(self.method),
            attributes_view(attributes@) == seq![
                AttributeView { key: "http.request.method"@, value: AttributeValueView::Text(self.method.label()) },
                AttributeView { key: "url.scheme"@, value: AttributeValueView::Text("http"@) },
            ],
    {
        let mut attributes = Vec::new();
        attributes.push(Attribute::text(ATTR_METHOD, self.method.as_str()));
        attributes.push(Attribute::text(ATTR_SCHEME, LISTENER_SCHEME));
        assert(attributes_view(attributes@) =~= active_attributes(self.method));
        attributes
    }

    pub fn duration_attributes(&self) -> (attributes: Vec<Attribute>)
        ensures
            attributes_view(attributes@) == duration_attributes(
                self.method,
                route_view(self.route),
                self.status,
            ),
            attributes_view(attributes@) == seq![
                AttributeView { key: "http.request.method"@, value: AttributeValueView::Text(self.method.label()) },
                AttributeView { key: "url.scheme"@, value: AttributeValueView::Text("http"@) },
            ] + (match self.route {
                Some(route) => seq![AttributeView { key: "http.route"@, value: AttributeValueView::Text(route@) }],
                None => seq![],
            }) + (match self.status {
                Some(status) => seq![
                    AttributeView { key: "http.response.status_code"@, value: AttributeValueView::Integer(status as int) },
                ],
                None => seq![],
            }),
    {
        let mut attributes = self.active_attributes();
        match &self.route {
            Some(route) => {
                attributes.push(Attribute::text(ATTR_ROUTE, route.as_str()));
            },
            None => {},
        }
        match self.status {
            Some(status) => {
                attributes.push(Attribute::status(status));
            },
            None => {},
        }
        assert(attributes_view(attributes@) =~= duration_attributes(
            self.method,
            route_view(self.route),
            self.status,
        ));
        attributes
    }

    /// The handler has answered with a status.
    pub fn responded(&mut self, status: u16) -> (effects: Vec<Effect>)
        ensures
            *final(self) == (RequestGuard { status: Some(status), ..*old(self) }),
            effects_view(effects@) == response_effects(status),
            effects_view(effects@) == if 500 <= status <= 599 {
                seq![
                    EffectView::Span(AttributeView { key: "http.response.status_code"@, value: AttributeValueView::Integer(status as int) }),
                    EffectView::Span(AttributeView { key: "otel.status_code"@, value: AttributeValueView::Text("ERROR"@) }),
                ]
            } else {
                seq![EffectView::Span(AttributeView { key: "http.response.status_code"@, value: AttributeValueView::Integer(status as int) })]
            },
    {
        let mut effects = Vec::new();
        effects.push(Effect::Span(Attribute::status(status)));
        if status >= 500 && status < 600 {
            effects.push(Effect::Span(Attribute::text(ATTR_OTEL_STATUS, OTEL_ERROR)));
        }
        self.status = Some(status);
        assert(effects_view(effects@) =~= response_effects(status));
        effects
    }

    /// End the request.
    pub fn finish(self) -> (effects: Vec<Effect>)
        ensures
            effects_view(effects@) == finish_effects(
                self.method,
                route_view(self.route),
                self.status,
            ),
            effects_view(effects@) == seq![
                EffectView::ActiveRequests(-1, seq![
                AttributeView { key: "http.request.method"@, value: AttributeValueView::Text(self.method.label()) },
                AttributeView { key: "url.scheme"@, value: AttributeValueView::Text("http"@) },
            ]),
                EffectView::Duration(seq![
                AttributeView { key: "http.request.method"@, value: AttributeValueView::Text(self.method.label()) },
                AttributeView { key: "url.scheme"@, value: AttributeValueView::Text("http"@) },
            ] + (match self.route {
                Some(route) => seq![AttributeView { key: "http.route"@, value: AttributeValueView::Text(route@) }],
                None => seq![],
            }) + (match self.status {
                Some(status) => seq![
                    AttributeView { key: "http.response.status_code"@, value: AttributeValueView::Integer(status as int) },
                ],
                None => seq![],
            })),
            ],
    {
        let mut effects = Vec::new();
        effects.push(Effect::ActiveRequests(-1, self.active_attributes()));
        effects.push(Effect::Duration(self.duration_attributes()));
        assert(effects_view(effects@) =~= finish_effects(
            self.method,
            route_view(self.route),
            self.status,
        ));
        effects
    }
}

fn mark_error(error_type: &str) -> (effects: Vec<Effect>)
    ensures
        effects_view(effects@) == error_effects(error_type@),
{
    let mut effects = Vec::new();
    effects.push(Effect::Span(Attribute::text(ATTR_OTEL_STATUS, OTEL_ERROR)));
    effects.push(Effect::Span(Attribute::text(ATTR_ERROR_TYPE, error_type)));
    assert(effects_view(effects@) =~= error_effects(error_type@));
    effects
}

pub open spec fn outcome_effects(completed: bool, panicking: bool) -> Seq<EffectView> {
    if completed {
        seq![]
    } else if panicking {
        error_effects(ERROR_TYPE_PANIC@)
    } else {
        seq![EffectView::Span(text_attribute(ATTR_ERROR_TYPE@, ERROR_TYPE_CANCELLED@))]
    }
}

/// Records how a request ended when the handler never returned a response.
///
/// Two things end this before [`SpanOutcome::completed`] is called: a panic
/// unwinding through the middleware, and the request future being dropped
/// while the handler is still pending (a timeout wrapping the handler, the
/// client going away before headers, or the runtime shutting down). Only the
/// former is a failure; the latter is labelled `cancelled` and leaves the
/// span status unset.
#[derive(Debug)]
pub struct SpanOutcome {
    pub completed: bool,
}

impl SpanOutcome {
    pub fn pending() -> (outcome: Self)
        ensures
            !outcome.completed,
    {
        SpanOutcome { completed: false }
    }

    pub fn completed(&mut self)
        ensures
            final(self).completed,
    {
        self.completed = true;
    }

    /// The request is over, possibly because a panic is unwinding.
    pub fn finish(self, panicking: bool) -> (effects: Vec<Effect>)
        ensures
            effects_view(effects@) == outcome_effects(self.completed, panicking),
            effects_view(effects@) == if self.completed {
                seq![]
            } else if panicking {
                seq![
                    EffectView::Span(AttributeView { key: "otel.status_code"@, value: AttributeValueView::Text("ERROR"@) }),
                    EffectView::Span(AttributeView { key: "error.type"@, value: AttributeValueView::Text("handler_panic"@) }),
                ]
            } else {
                seq![EffectView::Span(AttributeView { key: "error.type"@, value: AttributeValueView::Text("cancelled"@) })]
            },
    {
        if self.completed {
            let effects = Vec::new();
            assert(effects_view(effects@) =~= seq![]);
            return effects;
        }
        if panicking {
            mark_error(ERROR_TYPE_PANIC)
        } else {
            let mut effects = Vec::new();
            effects.push(Effect::Span(Attribute::text(ATTR_ERROR_TYPE, ERROR_TYPE_CANCELLED)));
            assert(effects_view(effects@) =~= outcome_effects(false, false));
            effects
        }
    }
}

/// What polling a response body gave.
#[derive(Debug, Clone, Copy, PartialEq, Eq, Structural)]
pub enum BodyPoll {
    Pending,
    Frame,
    Failed,
    Ended,
}

pub open spec fn poll_effects(poll: BodyPoll) -> Seq<EffectView> {
    match poll {
        BodyPoll::Failed => error_effects(ERROR_TYPE_BODY@),
        _ => seq![],
    }
}

/// The response body has been polled; an error marks the span.
pub fn poll_frame(poll: BodyPoll) -> (effects: Vec<Effect>)
    ensures
        effects_view(effects@) == poll_effects(poll),
        effects_view(effects@) == if poll == BodyPoll::Failed {
            seq![
                EffectView::Span(AttributeView { key: "otel.status_code"@, value: AttributeValueView::Text("ERROR"@) }),
                EffectView::Span(AttributeView { key: "error.type"@, value: AttributeValueView::Text("response_body"@) }),
            ]
        } else {
            seq![]
        },
{
    match poll {
        BodyPoll::Failed => mark_error(ERROR_TYPE_BODY),
        _ => {
            let effects = Vec::new();
            assert(effects_view(effects@) =~= seq![]);
            effects
        },
    }
}

/// A request that is being tracked.
#[derive(Debug)]
pub struct TrackedRequest {
    /// The span to open.
    pub span: ServerSpan,
    pub guard: RequestGuard,
    pub outcome: SpanOutcome,
    /// What to record before the handler runs.
    pub effects: Vec<Effect>,
}

/// Track a request from its start: the span to open around it, and what will
/// account for its end.
///
/// [`TrackedRequest::responded`] is due once the handler has answered, then
/// [`poll_frame`] each time the response body is polled, and
/// [`TrackedRequest::finish`] when the request ends, whichever way that is.
pub fn track_request(method: &str, version: Version, route: Option<&str>) -> (request:
    TrackedRequest)
    ensures
        request.span.opens(KnownMethod::of_name(method@), version, optional_view(route)),
        request.guard.method == KnownMethod::of_name(method@),
        route_view(request.guard.route) == optional_view(route),
        request.guard.status is None,
        !request.outcome.completed,
        effects_view(request.effects@) == start_effects(KnownMethod::of_name(method@)),
        request.span.method@ == if method@ == "CONNECT"@ || method@ == "DELETE"@ || method@
            == "GET"@ || method@ == "HEAD"@ || method@ == "OPTIONS"@ || method@ == "PATCH"@
            || method@ == "POST"@ || method@ == "PUT"@ || method@ == "TRACE"@ {
            method@
        } else {
            "_OTHER"@
        },
        route matches Some(route) ==> request.span.name@ == request.span.method@ + " "@ + route@,
        route is None ==> request.span.name@ == request.span.method@,
        request.span.kind@ == "server"@,
        request.span.scheme@ == "http"@,
        request.span.protocol_version@ == version.label(),
        route matches Some(route) ==> request.span.route is Some && request.span.route->0@ == route@
            && request.guard.route is Some && request.guard.route->0@ == route@,
        route is None ==> request.span.route is None && request.guard.route is None,
        request.guard.method.label() == request.span.method@,
        effects_view(request.effects@) == seq![
            EffectView::ActiveRequests(1, seq![
                AttributeView { key: "http.request.method"@, value: AttributeValueView::Text(request.span.method@) },
                AttributeView { key: "url.scheme"@, value: AttributeValueView::Text("http"@) },
            ]),
        ],
{
    let method = KnownMethod::from(method);
    let span = ServerSpan::open(method, version, route);
    let matched = match route {
        Some(route) => Some(route.to_owned()),
        None => None,
    };
    let (guard, effects) = RequestGuard::start(method, matched);
    TrackedRequest { span, guard, outcome: SpanOutcome::pending(), effects }
}

impl TrackedRequest {
    /// The handler has answered with a status.
    pub fn responded(&mut self, status: u16) -> (effects: Vec<Effect>)
        ensures
            final(self).span == old(self).span,
            final(self).guard == (RequestGuard { status: Some(status), ..old(self).guard }),
            final(self).outcome.completed,
            final(self).effects == old(self).effects,
            effects_view(effects@) == response_effects(status),
            effects_view(effects@) == if 500 <= status <= 599 {
                seq![
                    EffectView::Span(AttributeView { key: "http.response.status_code"@, value: AttributeValueView::Integer(status as int) }),
                    EffectView::Span(AttributeView { key: "otel.status_code"@, value: AttributeValueView::Text("ERROR"@) }),
                ]
            } else {
                seq![EffectView::Span(AttributeView { key: "http.response.status_code"@, value: AttributeValueView::Integer(status as int) })]
            },
    {
        self.outcome.completed();
        self.guard.responded(status)
    }

    /// The request has ended, possibly because a panic is unwinding.
    pub fn finish(self, panicking: bool) -> (effects: Vec<Effect>)
        ensures
            effects_view(effects@) == outcome_effects(self.outcome.completed, panicking)
                + finish_effects(self.guard.method, route_view(self.guard.route), self.guard.status),
            effects_view(effects@) == (if self.outcome.completed {
                seq![]
            } else if panicking {
                seq![
                    EffectView::Span(AttributeView { key: "otel.status_code"@, value: AttributeValueView::Text("ERROR"@) }),
                    EffectView::Span(AttributeView { key: "error.type"@, value: AttributeValueView::Text("handler_panic"@) }),
                ]
            } else {
                seq![EffectView::Span(AttributeView { key: "error.type"@, value: AttributeValueView::Text("cancelled"@) })]
            }) + seq![
                EffectView::ActiveRequests(-1, seq![
                AttributeView { key: "http.request.method"@, value: AttributeValueView::Text(self.guard.method.label()) },
                AttributeView { key: "url.scheme"@, value: AttributeValueView::Text("http"@) },
            ]),
                EffectView::Duration(seq![
                AttributeView { key: "http.request.method"@, value: AttributeValueView::Text(self.guard.method.label()) },
                AttributeView { key: "url.scheme"@, value: AttributeValueView::Text("http"@) },
            ] + (match self.guard.route {
                Some(route) => seq![AttributeView { key: "http.route"@, value: AttributeValueView::Text(route@) }],
                None => seq![],
            }) + (match self.guard.status {
                Some(status) => seq![
                    AttributeView { key: "http.response.status_code"@, value: AttributeValueView::Integer(status as int) },
                ],
                None => seq![],
            })),
            ],
    {
        let mut effects = self.outcome.finish(panicking);
        let mut last = self.guard.finish();
        let ghost outcome = effects@;
        let ghost finished = last@;
        effects.append(&mut last);
        assert(effects_view(effects@) =~= effects_view(outcome) + effects_view(finished));
        effects
    }
}

} // verus!
