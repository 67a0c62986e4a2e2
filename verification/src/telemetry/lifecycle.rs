//! What holds of a tracked request as a whole, however it ends.

use vstd::prelude::*;

use super::http_server::{
    active_attributes, attributes_view, duration_attributes, effects_view, error_effects,
    finish_effects, is_server_error, outcome_effects, poll_effects, request_name, response_effects,
    start_effects, Attribute, AttributeValue, AttributeValueView, AttributeView, BodyPoll, Effect,
    EffectView, KnownMethod, ATTR_ERROR_TYPE, ATTR_OTEL_STATUS, ATTR_STATUS, ERROR_TYPE_BODY, ERROR_TYPE_CANCELLED,
    ERROR_TYPE_PANIC, OTEL_ERROR,
};

verus! {

/// How a request ends.
pub enum Ending {
    /// The handler panicked.
    Panicked,
    /// The request was dropped before the handler answered.
    Cancelled,
    /// The handler answered, and the body was dropped after some polls, possibly
    /// by a panic.
    Answered { status: u16, polls: Seq<BodyPoll>, panicking: bool },
}

impl Ending {
    pub open spec fn status(self) -> Option<u16> {
        match self {
            Ending::Answered { status, .. } => Some(status),
            _ => None,
        }
    }

    /// Whether a panic is unwinding as the request ends.
    pub open spec fn panicking(self) -> bool {
        match self {
            Ending::Panicked => true,
            Ending::Cancelled => false,
            Ending::Answered { panicking, .. } => panicking,
        }
    }

    /// Whether the response body failed.
    pub open spec fn has_failed_body(self) -> bool {
        self matches Ending::Answered { polls, .. } && polls.contains(BodyPoll::Failed)
    }
}

pub open spec fn polls_effects(polls: Seq<BodyPoll>) -> Seq<EffectView>
    decreases polls.len(),
{
    if polls.len() == 0 {
        Seq::empty()
    } else {
        polls_effects(polls.drop_last()) + poll_effects(polls.last())
    }
}

/// What is recorded between the start of a request and its end.
pub open spec fn handled_effects(ending: Ending) -> Seq<EffectView> {
    match ending {
        Ending::Answered { status, polls, .. } => response_effects(status) + polls_effects(polls),
        _ => Seq::empty(),
    }
}

/// All that is recorded of a request, in order: at its start, by the response
/// and the polls of its body where there are any, and at its end.
pub open spec fn request_effects(
    method: KnownMethod,
    route: Option<Seq<char>>,
    ending: Ending,
) -> Seq<EffectView> {
    start_effects(method) + handled_effects(ending) + (outcome_effects(
        ending is Answered,
        ending.panicking(),
    ) + finish_effects(method, route, ending.status()))
}

/// Change of the active-request count under some attributes.
pub open spec fn net_active(effects: Seq<EffectView>, attributes: Seq<AttributeView>) -> int
    decreases effects.len(),
{
    if effects.len() == 0 {
        0
    } else {
        net_active(effects.drop_last(), attributes) + match effects.last() {
            EffectView::ActiveRequests(change, under) if under == attributes => change,
            _ => 0,
        }
    }
}

/// Attributes of the recorded durations.
pub open spec fn durations(effects: Seq<EffectView>) -> Seq<Seq<AttributeView>>
    decreases effects.len(),
{
    if effects.len() == 0 {
        Seq::empty()
    } else {
        match effects.last() {
            EffectView::Duration(attributes) => durations(effects.drop_last()).push(attributes),
            _ => durations(effects.drop_last()),
        }
    }
}

/// The value last set for an attribute of the span.
pub open spec fn span_value(effects: Seq<EffectView>, key: Seq<char>) -> Option<AttributeValueView>
    decreases effects.len(),
{
    if effects.len() == 0 {
        None
    } else {
        match effects.last() {
            EffectView::Span(attribute) if attribute.key == key => Some(attribute.value),
            _ => span_value(effects.drop_last(), key),
        }
    }
}

proof fn folds_over_parts(
    a: Seq<EffectView>,
    b: Seq<EffectView>,
    attributes: Seq<AttributeView>,
    key: Seq<char>,
)
    ensures
        net_active(a + b, attributes) == net_active(a, attributes) + net_active(b, attributes),
        durations(a + b) == durations(a) + durations(b),
        span_value(a + b, key) == match span_value(b, key) {
            Some(value) => Some(value),
            None => span_value(a, key),
        },
    decreases b.len(),
{
    if b.len() == 0 {
        assert(a + b =~= a);
        assert(durations(a) + durations(b) =~= durations(a));
    } else {
        assert((a + b).drop_last() =~= a + b.drop_last());
        assert((a + b).last() == b.last());
        folds_over_parts(a, b.drop_last(), attributes, key);
        assert(durations(a + b) =~= durations(a) + durations(b));
    }
}

proof fn short_sequences(a: EffectView, b: EffectView, attributes: Seq<AttributeView>, key: Seq<char>)
    ensures
        net_active(seq![a], attributes) == match a {
            EffectView::ActiveRequests(change, under) if under == attributes => change,
            _ => 0,
        },
        durations(seq![a]) == match a {
            EffectView::Duration(under) => seq![under],
            _ => seq![],
        },
        span_value(seq![a], key) == match a {
            EffectView::Span(attribute) if attribute.key == key => Some(attribute.value),
            _ => None,
        },
        seq![a, b] == seq![a] + seq![b],
{
    assert(seq![a].drop_last() =~= Seq::empty());
    assert(seq![a, b] =~= seq![a] + seq![b]);
    reveal_with_fuel(net_active, 2);
    reveal_with_fuel(durations, 2);
    reveal_with_fuel(span_value, 2);
    assert(durations(Seq::<EffectView>::empty()) =~= seq![]);
    assert(durations(seq![a]) =~= match a {
        EffectView::Duration(under) => seq![under],
        _ => seq![],
    });
}

proof fn start_folds(method: KnownMethod, attributes: Seq<AttributeView>, key: Seq<char>)
    ensures
        net_active(start_effects(method), attributes) == if attributes == active_attributes(
            method,
        ) {
            1int
        } else {
            0
        },
        durations(start_effects(method)) == Seq::<Seq<AttributeView>>::empty(),
        span_value(start_effects(method), key) is None,
{
    let started = start_effects(method)[0];
    short_sequences(started, started, attributes, key);
}

proof fn finish_folds(
    method: KnownMethod,
    route: Option<Seq<char>>,
    status: Option<u16>,
    attributes: Seq<AttributeView>,
    key: Seq<char>,
)
    ensures
        net_active(finish_effects(method, route, status), attributes) == if attributes
            == active_attributes(method) {
            -1
        } else {
            0int
        },
        durations(finish_effects(method, route, status)) == seq![
            duration_attributes(method, route, status),
        ],
        span_value(finish_effects(method, route, status), key) is None,
{
    let effects = finish_effects(method, route, status);
    short_sequences(effects[0], effects[1], attributes, key);
    short_sequences(effects[1], effects[1], attributes, key);
    folds_over_parts(seq![effects[0]], seq![effects[1]], attributes, key);
    assert(durations(effects) =~= seq![duration_attributes(method, route, status)]);
}

proof fn error_folds(error_type: Seq<char>, attributes: Seq<AttributeView>, key: Seq<char>)
    ensures
        net_active(error_effects(error_type), attributes) == 0,
        durations(error_effects(error_type)) == Seq::<Seq<AttributeView>>::empty(),
        span_value(error_effects(error_type), key) == if key == ATTR_ERROR_TYPE@ {
            Some(AttributeValueView::Text(error_type))
        } else if key == ATTR_OTEL_STATUS@ {
            Some(AttributeValueView::Text(OTEL_ERROR@))
        } else {
            None
        },
{
    let effects = error_effects(error_type);
    short_sequences(effects[0], effects[1], attributes, key);
    short_sequences(effects[1], effects[1], attributes, key);
    folds_over_parts(seq![effects[0]], seq![effects[1]], attributes, key);
    assert(durations(effects) =~= seq![]);
}

proof fn cancelled_folds(attributes: Seq<AttributeView>, key: Seq<char>)
    ensures
        net_active(outcome_effects(false, false), attributes) == 0,
        durations(outcome_effects(false, false)) == Seq::<Seq<AttributeView>>::empty(),
        span_value(outcome_effects(false, false), key) == if key == ATTR_ERROR_TYPE@ {
            Some(AttributeValueView::Text(ERROR_TYPE_CANCELLED@))
        } else {
            None
        },
{
    let effect = outcome_effects(false, false)[0];
    short_sequences(effect, effect, attributes, key);
}

proof fn response_folds(status: u16, attributes: Seq<AttributeView>, key: Seq<char>)
    ensures
        net_active(response_effects(status), attributes) == 0,
        durations(response_effects(status)) == Seq::<Seq<AttributeView>>::empty(),
        span_value(response_effects(status), key) == if key == ATTR_OTEL_STATUS@ && is_server_error(
            status,
        ) {
            Some(AttributeValueView::Text(OTEL_ERROR@))
        } else if key == ATTR_STATUS@ {
            Some(AttributeValueView::Integer(status as int))
        } else {
            None
        },
{
    let effects = response_effects(status);
    if is_server_error(status) {
        short_sequences(effects[0], effects[1], attributes, key);
        short_sequences(effects[1], effects[1], attributes, key);
        folds_over_parts(seq![effects[0]], seq![effects[1]], attributes, key);
        assert(durations(effects) =~= seq![]);
    } else {
        short_sequences(effects[0], effects[0], attributes, key);
    }
}

proof fn polls_fold(polls: Seq<BodyPoll>, attributes: Seq<AttributeView>, key: Seq<char>)
    ensures
        net_active(polls_effects(polls), attributes) == 0,
        durations(polls_effects(polls)) == Seq::<Seq<AttributeView>>::empty(),
        span_value(polls_effects(polls), key) == if !polls.contains(BodyPoll::Failed) {
            None
        } else if key == ATTR_ERROR_TYPE@ {
            Some(AttributeValueView::Text(ERROR_TYPE_BODY@))
        } else if key == ATTR_OTEL_STATUS@ {
            Some(AttributeValueView::Text(OTEL_ERROR@))
        } else {
            None
        },
    decreases polls.len(),
{
    if polls.len() > 0 {
        let init = polls.drop_last();
        polls_fold(init, attributes, key);
        error_folds(ERROR_TYPE_BODY@, attributes, key);
        folds_over_parts(polls_effects(init), poll_effects(polls.last()), attributes, key);
        assert(polls =~= init.push(polls.last()));
        assert(polls[polls.len() - 1] == polls.last());
        if init.contains(BodyPoll::Failed) {
            let i = choose|i: int| 0 <= i < init.len() && init[i] == BodyPoll::Failed;
            assert(polls[i] == BodyPoll::Failed);
        } else if polls.contains(BodyPoll::Failed) {
            let i = choose|i: int| 0 <= i < polls.len() && polls[i] == BodyPoll::Failed;
            if i < init.len() {
                assert(init[i] == BodyPoll::Failed);
            }
        }
        assert(durations(polls_effects(polls)) =~= seq![]);
    }
}

proof fn request_folds(
    method: KnownMethod,
    route: Option<Seq<char>>,
    ending: Ending,
    attributes: Seq<AttributeView>,
    key: Seq<char>,
)
    ensures
        net_active(request_effects(method, route, ending), attributes) == 0,
        durations(request_effects(method, route, ending)) == seq![
            duration_attributes(method, route, ending.status()),
        ],
        span_value(request_effects(method, route, ending), key) == match ending {
            Ending::Panicked => span_value(error_effects(ERROR_TYPE_PANIC@), key),
            Ending::Cancelled => span_value(outcome_effects(false, false), key),
            Ending::Answered { status, polls, .. } => match span_value(polls_effects(polls), key) {
                Some(value) => Some(value),
                None => span_value(response_effects(status), key),
            },
        },
{
    let handled = handled_effects(ending);
    let outcome = outcome_effects(ending is Answered, ending.panicking());
    let finish = finish_effects(method, route, ending.status());
    start_folds(method, attributes, key);
    finish_folds(method, route, ending.status(), attributes, key);
    match ending {
        Ending::Panicked => {
            error_folds(ERROR_TYPE_PANIC@, attributes, key);
        },
        Ending::Cancelled => {
            cancelled_folds(attributes, key);
        },
        Ending::Answered { status, polls, .. } => {
            response_folds(status, attributes, key);
            polls_fold(polls, attributes, key);
            folds_over_parts(response_effects(status), polls_effects(polls), attributes, key);
        },
    }
    folds_over_parts(start_effects(method), handled, attributes, key);
    folds_over_parts(outcome, finish, attributes, key);
    folds_over_parts(start_effects(method) + handled, outcome + finish, attributes, key);
    assert(durations(request_effects(method, route, ending)) =~= seq![
        duration_attributes(method, route, ending.status()),
    ]);
}

/// The active-request count comes back to where it was, under every set of
/// attributes, whichever way a request ends.
pub proof fn active_requests_are_balanced(
    method: KnownMethod,
    route: Option<Seq<char>>,
    ending: Ending,
    attributes: Seq<AttributeView>,
)
    ensures
        net_active(request_effects(method, route, ending), attributes) == 0,
{
    request_folds(method, route, ending, attributes, Seq::empty());
}

/// The duration is recorded exactly once, with the status of the response
/// where there was one.
pub proof fn duration_is_recorded_once(
    method: KnownMethod,
    route: Option<Seq<char>>,
    ending: Ending,
)
    ensures
        durations(request_effects(method, route, ending)) == seq![
            duration_attributes(method, route, ending.status()),
        ],
{
    request_folds(method, route, ending, Seq::empty(), Seq::empty());
}

proof fn keys_differ()
    ensures
        ATTR_ERROR_TYPE@ != ATTR_OTEL_STATUS@,
        ATTR_ERROR_TYPE@ != ATTR_STATUS@,
        ATTR_OTEL_STATUS@ != ATTR_STATUS@,
{
    reveal_strlit("error.type");
    reveal_strlit("otel.status_code");
    reveal_strlit("http.response.status_code");
    assert(ATTR_ERROR_TYPE@.len() == 10);
    assert(ATTR_OTEL_STATUS@.len() == 16);
    assert(ATTR_STATUS@.len() == 25);
}

/// A span is marked with error status on a 5xx response, when the handler
/// panics and when the response body fails, and in no other case.
pub proof fn span_status_tells_of_failures(
    method: KnownMethod,
    route: Option<Seq<char>>,
    ending: Ending,
)
    ensures
        span_value(request_effects(method, route, ending), "otel.status_code"@) == if {
            ||| ending is Panicked
            ||| ending matches Ending::Answered { polls, .. } && polls.contains(BodyPoll::Failed)
            ||| ending matches Ending::Answered { status, .. } && 500 <= status <= 599
        } {
            Some(AttributeValueView::Text("ERROR"@))
        } else {
            None
        },
{
    let key = ATTR_OTEL_STATUS@;
    keys_differ();
    request_folds(method, route, ending, Seq::empty(), key);
    match ending {
        Ending::Panicked => error_folds(ERROR_TYPE_PANIC@, Seq::empty(), key),
        Ending::Cancelled => cancelled_folds(Seq::empty(), key),
        Ending::Answered { status, polls, .. } => {
            response_folds(status, Seq::empty(), key);
            polls_fold(polls, Seq::empty(), key);
        },
    }
}

/// The error type of a span names the outcome that was observed, and is left
/// unset where the response body was sent without a failure.
pub proof fn error_type_names_the_outcome(
    method: KnownMethod,
    route: Option<Seq<char>>,
    ending: Ending,
)
    ensures
        span_value(request_effects(method, route, ending), "error.type"@) == match ending {
            Ending::Panicked => Some(AttributeValueView::Text("handler_panic"@)),
            Ending::Cancelled => Some(AttributeValueView::Text("cancelled"@)),
            Ending::Answered { polls, .. } => if polls.contains(BodyPoll::Failed) {
                Some(AttributeValueView::Text("response_body"@))
            } else {
                None
            },
        },
{
    let key = ATTR_ERROR_TYPE@;
    keys_differ();
    request_folds(method, route, ending, Seq::empty(), key);
    match ending {
        Ending::Panicked => error_folds(ERROR_TYPE_PANIC@, Seq::empty(), key),
        Ending::Cancelled => cancelled_folds(Seq::empty(), key),
        Ending::Answered { status, polls, .. } => {
            response_folds(status, Seq::empty(), key);
            polls_fold(polls, Seq::empty(), key);
        },
    }
}

/// The span carries the status of the response, and none where the request
/// ended before there was a response.
pub proof fn span_carries_the_response_status(
    method: KnownMethod,
    route: Option<Seq<char>>,
    ending: Ending,
)
    ensures
        span_value(request_effects(method, route, ending), "http.response.status_code"@)
            == match ending {
            Ending::Answered { status, .. } => Some(AttributeValueView::Integer(status as int)),
            _ => None,
        },
{
    let key = ATTR_STATUS@;
    keys_differ();
    request_folds(method, route, ending, Seq::empty(), key);
    match ending {
        Ending::Panicked => error_folds(ERROR_TYPE_PANIC@, Seq::empty(), key),
        Ending::Cancelled => cancelled_folds(Seq::empty(), key),
        Ending::Answered { status, polls, .. } => {
            response_folds(status, Seq::empty(), key);
            polls_fold(polls, Seq::empty(), key);
        },
    }
}

/// Whether an attribute takes its value from a bounded set: a label, the
/// template of a route, or a status.
pub open spec fn is_bounded(attribute: AttributeView, route: Option<Seq<char>>) -> bool {
    match attribute.value {
        AttributeValueView::Text(value) => {
            ||| attribute.key == "http.request.method"@ && (value == "CONNECT"@ || value == "DELETE"@
                || value == "GET"@ || value == "HEAD"@ || value == "OPTIONS"@ || value == "PATCH"@
                || value == "POST"@ || value == "PUT"@ || value == "TRACE"@ || value == "_OTHER"@)
            ||| attribute.key == "url.scheme"@ && value == "http"@
            ||| attribute.key == "http.route"@ && route == Some(value)
            ||| attribute.key == "otel.status_code"@ && value == "ERROR"@
            ||| attribute.key == "error.type"@ && (value == "handler_panic"@ || value
                == "response_body"@ || value == "cancelled"@)
        },
        AttributeValueView::Integer(value) => attribute.key == "http.response.status_code"@ && 0
            <= value <= u16::MAX,
    }
}

pub open spec fn records_bounded(effect: EffectView, route: Option<Seq<char>>) -> bool {
    match effect {
        EffectView::ActiveRequests(_, attributes) => forall|i: int|
            0 <= i < attributes.len() ==> is_bounded(#[trigger] attributes[i], route),
        EffectView::Duration(attributes) => forall|i: int|
            0 <= i < attributes.len() ==> is_bounded(#[trigger] attributes[i], route),
        EffectView::Span(attribute) => is_bounded(attribute, route),
    }
}

proof fn polls_record_bounded(polls: Seq<BodyPoll>, route: Option<Seq<char>>)
    ensures
        forall|i: int|
            0 <= i < polls_effects(polls).len() ==> records_bounded(
                #[trigger] polls_effects(polls)[i],
                route,
            ),
    decreases polls.len(),
{
    if polls.len() > 0 {
        polls_record_bounded(polls.drop_last(), route);
        let earlier = polls_effects(polls.drop_last());
        let effects = polls_effects(polls);
        assert forall|i: int| 0 <= i < effects.len() implies records_bounded(
            #[trigger] effects[i],
            route,
        ) by {
            if i < earlier.len() {
                assert(effects[i] == earlier[i]);
            }
        }
    }
}

/// Only bounded attributes are recorded of a request: nothing that a client
/// chose freely reaches a span or a measurement.
pub proof fn only_bounded_attributes_are_recorded(
    method: KnownMethod,
    route: Option<Seq<char>>,
    ending: Ending,
)
    ensures
        forall|i: int|
            0 <= i < request_effects(method, route, ending).len() ==> records_bounded(
                #[trigger] request_effects(method, route, ending)[i],
                route,
            ),
{
    let active = active_attributes(method);
    assert(is_bounded(active[0], route));
    assert(is_bounded(active[1], route));
    match ending {
        Ending::Answered { polls, .. } => polls_record_bounded(polls, route),
        _ => {},
    }
    let effects = request_effects(method, route, ending);
    let handled = handled_effects(ending);
    assert forall|i: int| 0 <= i < handled.len() implies records_bounded(
        #[trigger] handled[i],
        route,
    ) by {}
    let outcome = outcome_effects(ending is Answered, ending.panicking());
    assert forall|i: int| 0 <= i < outcome.len() implies records_bounded(
        #[trigger] outcome[i],
        route,
    ) by {}
    let finish = finish_effects(method, route, ending.status());
    assert(records_bounded(finish[0], route));
    assert(records_bounded(finish[1], route));
}

proof fn polls_only_mark_the_span(polls: Seq<BodyPoll>)
    ensures
        forall|i: int|
            0 <= i < polls_effects(polls).len() ==> (#[trigger] polls_effects(polls)[i]) is Span,
    decreases polls.len(),
{
    if polls.len() > 0 {
        polls_only_mark_the_span(polls.drop_last());
        let earlier = polls_effects(polls.drop_last());
        let effects = polls_effects(polls);
        assert forall|i: int| 0 <= i < effects.len() implies (#[trigger] effects[i]) is Span by {
            if i < earlier.len() {
                assert(effects[i] == earlier[i]);
            }
        }
    }
}

/// A request is counted as active from its very start to the end: the first thing
/// recorded is one more active request and the last but one is one less, under
/// the same method and scheme, and the count moves at no other time. The last
/// thing recorded, and only that, is the duration.
pub proof fn a_request_is_counted_once(
    method: KnownMethod,
    route: Option<Seq<char>>,
    ending: Ending,
)
    ensures
        ({
            let effects = request_effects(method, route, ending);
            let under = seq![
                AttributeView {
                    key: "http.request.method"@,
                    value: AttributeValueView::Text(method.label()),
                },
                AttributeView { key: "url.scheme"@, value: AttributeValueView::Text("http"@) },
            ];
            &&& effects.len() >= 3
            &&& effects[0] == EffectView::ActiveRequests(1, under)
            &&& effects[effects.len() - 2] == EffectView::ActiveRequests(-1, under)
            &&& effects[effects.len() - 1] is Duration
            &&& forall|i: int|
                0 < i < effects.len() - 2 ==> (#[trigger] effects[i]) is Span
        }),
{
    match ending {
        Ending::Answered { polls, .. } => polls_only_mark_the_span(polls),
        _ => {},
    }
    let effects = request_effects(method, route, ending);
    let handled = handled_effects(ending);
    assert forall|i: int| 0 <= i < handled.len() implies (#[trigger] handled[i]) is Span by {}
    let outcome = outcome_effects(ending is Answered, ending.panicking());
    assert forall|i: int| 0 <= i < outcome.len() implies (#[trigger] outcome[i]) is Span by {}
    let finish = finish_effects(method, route, ending.status());
    let before = start_effects(method) + handled;
    assert(effects == before + (outcome + finish));
    assert(effects.len() == 1 + handled.len() + outcome.len() + 2);
    assert(effects[effects.len() - 2] == finish[0]);
    assert(effects[effects.len() - 1] == finish[1]);
    assert forall|i: int| 0 < i < effects.len() - 2 implies (#[trigger] effects[i]) is Span by {
        if i < 1 + handled.len() {
            assert(effects[i] == handled[i - 1]);
        } else {
            assert(effects[i] == outcome[i - 1 - handled.len()]);
        }
    }
    let under = seq![
        AttributeView {
            key: "http.request.method"@,
            value: AttributeValueView::Text(method.label()),
        },
        AttributeView { key: "url.scheme"@, value: AttributeValueView::Text("http"@) },
    ];
    assert(active_attributes(method) =~= under);
}

proof fn measured_keys_differ()
    ensures
        "http.request.method"@ != "url.scheme"@,
        "http.request.method"@ != "http.route"@,
        "http.request.method"@ != "http.response.status_code"@,
        "url.scheme"@ != "http.route"@,
        "url.scheme"@ != "http.response.status_code"@,
        "http.route"@ != "http.response.status_code"@,
{
    reveal_strlit("http.request.method");
    reveal_strlit("url.scheme");
    reveal_strlit("http.route");
    reveal_strlit("http.response.status_code");
    assert("http.request.method"@.len() == 19);
    assert("url.scheme"@.len() == 10);
    assert("http.route"@.len() == 10);
    assert("http.response.status_code"@.len() == 25);
    assert("url.scheme"@[0] != "http.route"@[0]);
}

/// The recorded duration carries the status that the request was answered with,
/// and no status where it was not answered; the route that was matched, and no
/// route where none was; and always the method and the scheme. Each stands under
/// its own key, once, and there is nothing else.
pub proof fn duration_tells_of_the_request(
    method: KnownMethod,
    route: Option<Seq<char>>,
    ending: Ending,
    i: int,
)
    ensures
        request_effects(method, route, ending).last() matches EffectView::Duration(attributes)
            && ({
            &&& 0 <= i < attributes.len() && attributes[i].key == "http.response.status_code"@
                ==> (ending matches Ending::Answered { status, .. } && attributes[i].value
                == AttributeValueView::Integer(status as int))
            &&& ending is Answered <==> exists|j: int|
                0 <= j < attributes.len() && (#[trigger] attributes[j]).key
                    == "http.response.status_code"@
            &&& 0 <= i < attributes.len() && attributes[i].key == "http.route"@ ==> (
            route matches Some(matched) && attributes[i].value == AttributeValueView::Text(matched))
            &&& route is Some <==> exists|j: int|
                0 <= j < attributes.len() && (#[trigger] attributes[j]).key == "http.route"@
            &&& 0 <= i < attributes.len() && attributes[i].key == "http.request.method"@
                ==> attributes[i].value == AttributeValueView::Text(method.label())
            &&& exists|j: int|
                0 <= j < attributes.len() && (#[trigger] attributes[j]).key
                    == "http.request.method"@
            &&& 0 <= i < attributes.len() && attributes[i].key == "url.scheme"@
                ==> attributes[i].value == AttributeValueView::Text("http"@)
            &&& exists|j: int|
                0 <= j < attributes.len() && (#[trigger] attributes[j]).key == "url.scheme"@
            &&& forall|j: int, k: int|
                0 <= j < k < attributes.len() ==> (#[trigger] attributes[j]).key != (
                #[trigger] attributes[k]).key
            &&& attributes.len() == 2 + (if route is Some {
                1int
            } else {
                0
            }) + (if ending is Answered {
                1int
            } else {
                0
            })
        }),
{
    measured_keys_differ();
    let finish = finish_effects(method, route, ending.status());
    let outcome = outcome_effects(ending is Answered, ending.panicking());
    let effects = request_effects(method, route, ending);
    assert((outcome + finish).last() == finish[1]);
    assert(effects.last() == finish[1]);
    let attributes = duration_attributes(method, route, ending.status());
    assert(attributes[0].key == "http.request.method"@);
    assert(attributes[1].key == "url.scheme"@);
    if route is Some {
        assert(attributes[2].key == "http.route"@);
    }
    if ending is Answered {
        assert(attributes.last().key == "http.response.status_code"@);
        assert(attributes[attributes.len() - 1].key == "http.response.status_code"@);
    }
}

/// For an answered request whose body did not fail, the span is marked as failed
/// exactly where the status is from 500 to 599.
pub proof fn only_server_errors_mark_answered_requests(
    method: KnownMethod,
    route: Option<Seq<char>>,
    status: u16,
    polls: Seq<BodyPoll>,
    panicking: bool,
)
    requires
        !polls.contains(BodyPoll::Failed),
    ensures
        ({
            let ending = Ending::Answered { status, polls, panicking };
            let mark = span_value(request_effects(method, route, ending), "otel.status_code"@);
            &&& mark == Some(AttributeValueView::Text("ERROR"@)) <==> 500 <= status <= 599
            &&& mark is None <==> status < 500 || status > 599
        }),
{
    span_status_tells_of_failures(method, route, Ending::Answered { status, polls, panicking });
}

/// An answer is recorded with its status, and as a failure exactly where that is
/// from 500 to 599: a client error leaves no mark.
pub proof fn an_answer_is_recorded_with_its_status(status: u16)
    ensures
        response_effects(status).len() == if 500 <= status <= 599 {
            2int
        } else {
            1
        },
        response_effects(status)[0] == EffectView::Span(
            AttributeView {
                key: "http.response.status_code"@,
                value: AttributeValueView::Integer(status as int),
            },
        ),
        500 <= status <= 599 ==> response_effects(status)[1] == EffectView::Span(
            AttributeView {
                key: "otel.status_code"@,
                value: AttributeValueView::Text("ERROR"@),
            },
        ),
{
}

/// A body marks the span only where polling it failed.
pub proof fn only_failed_polls_are_recorded(poll: BodyPoll)
    ensures
        poll_effects(poll).len() > 0 <==> poll == BodyPoll::Failed,
        span_value(poll_effects(poll), "otel.status_code"@) is Some <==> poll == BodyPoll::Failed,
        span_value(poll_effects(poll), "error.type"@) == if poll == BodyPoll::Failed {
            Some(AttributeValueView::Text("response_body"@))
        } else {
            None
        },
{
    keys_differ();
    error_folds(ERROR_TYPE_BODY@, Seq::empty(), "otel.status_code"@);
    error_folds(ERROR_TYPE_BODY@, Seq::empty(), "error.type"@);
}

/// What is shown of something to record is what is recorded: the keys and values
/// of its attributes, and by how much the active requests move.
pub proof fn views_show_what_is_recorded(attribute: Attribute, effect: Effect, effects: Seq<Effect>)
    ensures
        attribute@.key == attribute.key@,
        attribute.value matches AttributeValue::Text(text) ==> attribute@.value
            == AttributeValueView::Text(text@),
        attribute.value matches AttributeValue::Integer(value) ==> attribute@.value
            == AttributeValueView::Integer(value as int),
        effect matches Effect::ActiveRequests(change, attributes) ==> effect@
            == EffectView::ActiveRequests(
            change as int,
            Seq::new(attributes@.len(), |i: int| attributes@[i]@),
        ),
        effect matches Effect::Duration(attributes) ==> effect@ == EffectView::Duration(
            Seq::new(attributes@.len(), |i: int| attributes@[i]@),
        ),
        effect matches Effect::Span(attribute) ==> effect@ == EffectView::Span(attribute@),
        effects_view(effects) == Seq::new(effects.len(), |i: int| effects[i]@),
{
    match effect {
        Effect::ActiveRequests(_, attributes) => {
            assert(attributes_view(attributes@) =~= Seq::new(
                attributes@.len(),
                |i: int| attributes@[i]@,
            ));
        },
        Effect::Duration(attributes) => {
            assert(attributes_view(attributes@) =~= Seq::new(
                attributes@.len(),
                |i: int| attributes@[i]@,
            ));
        },
        Effect::Span(_) => {},
    }
    assert(effects_view(effects) =~= Seq::new(effects.len(), |i: int| effects[i]@));
}

/// The label of a request is the name of its method where that is one of the
/// nine well-known ones, and `_OTHER` for every other name.
pub proof fn labels_are_names_or_other(name: Seq<char>)
    ensures
        KnownMethod::of_name(name).label() == if name == "CONNECT"@ || name == "DELETE"@ || name
            == "GET"@ || name == "HEAD"@ || name == "OPTIONS"@ || name == "PATCH"@ || name
            == "POST"@ || name == "PUT"@ || name == "TRACE"@ {
            name
        } else {
            "_OTHER"@
        },
{
}

/// A span is named after the label of its method, and after its route where one
/// was matched, with a single space between the two.
pub proof fn spans_are_named_after_method_and_route(method: KnownMethod, route: Seq<char>)
    ensures
        request_name(method, None) == method.label(),
        request_name(method, Some(route)).len() == method.label().len() + 1 + route.len(),
        request_name(method, Some(route)).take(method.label().len() as int) == method.label(),
        request_name(method, Some(route))[method.label().len() as int] == ' ',
        request_name(method, Some(route)).skip(method.label().len() as int + 1) == route,
{
    reveal_strlit(" ");
    let name = request_name(method, Some(route));
    assert(name.take(method.label().len() as int) =~= method.label());
    assert(name.skip(method.label().len() as int + 1) =~= route);
}

/// A well-known method is labelled with its own name, every other method with
/// `_OTHER`, and a label is its own label.
pub proof fn well_known_methods_are_labelled_verbatim(name: Seq<char>, method: KnownMethod)
    ensures
        KnownMethod::of_name(name) != KnownMethod::Other ==> KnownMethod::of_name(name).label()
            == name,
        KnownMethod::of_name(method.label()) == method,
{
    reveal_strlit("CONNECT");
    assert("CONNECT"@.len() == 7);
    reveal_strlit("DELETE");
    assert("DELETE"@.len() == 6);
    reveal_strlit("GET");
    assert("GET"@.len() == 3);
    reveal_strlit("HEAD");
    assert("HEAD"@.len() == 4);
    reveal_strlit("OPTIONS");
    assert("OPTIONS"@.len() == 7);
    reveal_strlit("PATCH");
    assert("PATCH"@.len() == 5);
    reveal_strlit("POST");
    assert("POST"@.len() == 4);
    reveal_strlit("PUT");
    assert("PUT"@.len() == 3);
    reveal_strlit("TRACE");
    assert("TRACE"@.len() == 5);
    reveal_strlit("_OTHER");
    assert("_OTHER"@.len() == 6);
    assert("CONNECT"@[0] != "OPTIONS"@[0]);
    assert("DELETE"@[0] != "_OTHER"@[0]);
    assert("GET"@[0] != "PUT"@[0]);
    assert("HEAD"@[0] != "POST"@[0]);
    assert("PATCH"@[0] != "TRACE"@[0]);
}

} // verus!
