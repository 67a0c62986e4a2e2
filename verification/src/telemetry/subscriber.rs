//! The `tracing` subscriber stack: local log output plus, when traces are
//! exported, the OpenTelemetry bridge.
//!
//! The two layers are filtered independently: `RUST_LOG` only affects what
//! is printed locally, and the bridge only sees spans at `INFO` and above
//! whose target belongs to this repository's crates, so local log verbosity
//! never changes what is exported, dependency spans never leak into the
//! export, and sampling never changes what is logged.

use opentelemetry::trace::{SpanContext, SpanId, TraceFlags, TraceId, TraceState};
use vstd::arithmetic::div_mod::lemma_div_denominator;
use vstd::arithmetic::power::{lemma_pow0, lemma_pow_positive, pow};
use vstd::prelude::*;

use crate::text;

verus! {

/// Local log filter used when `RUST_LOG` is unset.
///
/// The SDK and exporter report queue overflow and export failures through
/// `tracing` at `WARN` under their crate names, so those targets are part of
/// the default: an operator whose collector is down must see it locally.
pub const DEFAULT_LOG_FILTER: &'static str = "agentic_server=info,agentic_core=info,opentelemetry_sdk=warn,opentelemetry-otlp=warn";

/// Level of a span or an event, the most severe first.
#[derive(Debug, Clone, Copy, PartialEq, Eq, Structural)]
pub enum Level {
    Error,
    Warn,
    Info,
    Debug,
    Trace,
}

impl Level {
    /// How much is seen at this level: the higher, the more verbose.
    pub open spec fn verbosity(self) -> int {
        match self {
            Level::Error => 1,
            Level::Warn => 2,
            Level::Info => 3,
            Level::Debug => 4,
            Level::Trace => 5,
        }
    }
}

/// Whether spans of a level are exported: those at `INFO` or above.
pub fn is_exported_level(level: Level) -> (exported: bool)
    ensures
        exported == (level.verbosity() <= Level::Info.verbosity()),
        exported <==> level is Error || level is Warn || level is Info,
{
    match level {
        Level::Error | Level::Warn | Level::Info => true,
        Level::Debug | Level::Trace => false,
    }
}

/// Crates whose spans may be exported. An allow-list rather than a deny-list:
/// dependencies such as `rmcp`, `hyper`, or the SDK itself declare their own
/// `INFO` spans, and none of those attributes have been reviewed for
/// cardinality or sensitivity.
pub open spec fn is_exported_crate(name: Seq<char>) -> bool {
    ||| name == "agentic_server"@
    ||| name == "agentic_core"@
    ||| name == "agentic_praxis"@
    ||| name == "agentic_llm_d"@
}

/// Whether `::` starts at a position.
pub open spec fn separates_at(target: Seq<char>, position: int) -> bool {
    0 <= position && position + 1 < target.len() && target[position] == ':' && target[position + 1]
        == ':'
}

/// Whether `crate_name` is the leading `::` segment of a target: all of it up
/// to the first `::`, or all of it where there is none.
pub open spec fn is_leading_segment(target: Seq<char>, crate_name: Seq<char>) -> bool {
    &&& crate_name.len() <= target.len()
    &&& crate_name == target.take(crate_name.len() as int)
    &&& crate_name.len() == target.len() || separates_at(target, crate_name.len() as int)
    &&& forall|i: int| 0 <= i < crate_name.len() ==> !separates_at(target, i)
}

proof fn leading_segment_is_unique(target: Seq<char>, a: Seq<char>, b: Seq<char>)
    requires
        is_leading_segment(target, a),
        is_leading_segment(target, b),
    ensures
        a == b,
{
    if a.len() < b.len() {
        assert(!separates_at(target, a.len() as int));
    } else if b.len() < a.len() {
        assert(!separates_at(target, b.len() as int));
    }
}

/// The leading `::` segment of a target.
fn leading_segment(target: &str) -> (crate_name: &str)
    ensures
        is_leading_segment(target@, crate_name@),
{
    let length = target.unicode_len();
    let mut end: usize = 0;
    while end < length && !(end + 1 < length && target.get_char(end) == ':' && target.get_char(
        end + 1,
    ) == ':')
        invariant
            end <= length,
            length == target@.len(),
            forall|i: int| 0 <= i < end ==> !separates_at(target@, i),
        decreases length - end,
    {
        end = end + 1;
    }
    target.substring_char(0, end)
}

/// Whether the leading `::` segment of a target is a crate whose spans may be
/// exported.
pub open spec fn belongs_to_exported_crate(target: Seq<char>) -> bool {
    exists|crate_name: Seq<char>| #[trigger]
        is_exported_crate(crate_name) && is_leading_segment(target, crate_name)
}

/// Whether spans of a target are exported: those of this repository's crates.
pub fn is_exported_target(target: &str) -> (exported: bool)
    ensures
        exported == belongs_to_exported_crate(target@),
        exported <==> ({
            ||| target@ == "agentic_server"@ || (exists|path: Seq<char>|
                target@ == "agentic_server"@ + "::"@ + path)
            ||| target@ == "agentic_core"@ || (exists|path: Seq<char>|
                target@ == "agentic_core"@ + "::"@ + path)
            ||| target@ == "agentic_praxis"@ || (exists|path: Seq<char>|
                target@ == "agentic_praxis"@ + "::"@ + path)
            ||| target@ == "agentic_llm_d"@ || (exists|path: Seq<char>|
                target@ == "agentic_llm_d"@ + "::"@ + path)
        }),
{
    let crate_name = leading_segment(target);
    let exported = text::same(crate_name, "agentic_server") || text::same(
        crate_name,
        "agentic_core",
    ) || text::same(crate_name, "agentic_praxis") || text::same(crate_name, "agentic_llm_d");
    proof {
        assert(exported == is_exported_crate(crate_name@));
        if exists|name: Seq<char>|
            #[trigger] is_exported_crate(name) && is_leading_segment(target@, name) {
            let name = choose|name: Seq<char>|
                #[trigger] is_exported_crate(name) && is_leading_segment(target@, name);
            leading_segment_is_unique(target@, name, crate_name@);
        }
        exported_targets_start_with_their_crate(target@);
    }
    exported
}

/// What the bridge sees of a span or an event.
#[derive(Debug, Clone, Copy)]
pub struct Metadata<'a> {
    pub is_span: bool,
    pub level: Level,
    pub target: &'a str,
}

/// Bridge filter: spans only (events are reviewed and opted in individually
/// by later work), at `INFO` or above, from this repository's crates only.
pub fn is_exported(metadata: &Metadata<'_>) -> (exported: bool)
    ensures
        exported == {
            &&& metadata.is_span
            &&& metadata.level.verbosity() <= Level::Info.verbosity()
            &&& belongs_to_exported_crate(metadata.target@)
        },
        exported <==> metadata.is_span && (metadata.level is Error || metadata.level is Warn
            || metadata.level is Info) && ({
            ||| metadata.target@ == "agentic_server"@ || (exists|path: Seq<char>|
                metadata.target@ == "agentic_server"@ + "::"@ + path)
            ||| metadata.target@ == "agentic_core"@ || (exists|path: Seq<char>|
                metadata.target@ == "agentic_core"@ + "::"@ + path)
            ||| metadata.target@ == "agentic_praxis"@ || (exists|path: Seq<char>|
                metadata.target@ == "agentic_praxis"@ + "::"@ + path)
            ||| metadata.target@ == "agentic_llm_d"@ || (exists|path: Seq<char>|
                metadata.target@ == "agentic_llm_d"@ + "::"@ + path)
        }),
{
    metadata.is_span && is_exported_level(metadata.level) && is_exported_target(metadata.target)
}

/// A target that starts with a crate name and `::` has that name as its leading
/// segment, where the name has no colon, and the other way round.
proof fn leading_segment_is_followed_by_colons(target: Seq<char>, crate_name: Seq<char>)
    requires
        forall|i: int| 0 <= i < crate_name.len() ==> (#[trigger] crate_name[i]) != ':',
    ensures
        is_leading_segment(target, crate_name) <==> target == crate_name || (exists|
            path: Seq<char>,
        |
            target == crate_name + "::"@ + path),
{
    reveal_strlit("::");
    let length = crate_name.len() as int;
    if is_leading_segment(target, crate_name) {
        if length == target.len() {
            assert(target =~= crate_name);
        } else {
            assert(target =~= crate_name + "::"@ + target.skip(length + 2));
        }
    }
    if target == crate_name {
        assert(crate_name =~= target.take(length));
    }
    if exists|path: Seq<char>| target == crate_name + "::"@ + path {
        let path = choose|path: Seq<char>| target == crate_name + "::"@ + path;
        assert(crate_name =~= target.take(length));
        assert forall|i: int| 0 <= i < length implies !separates_at(target, i) by {
            assert(target[i] == crate_name[i]);
        }
        assert(target[length] == ':');
        assert(target[length + 1] == ':');
    }
}

/// The exported targets are the four crates of this repository and what lies in
/// them: the name of the crate, alone or followed by `::` and a path.
pub proof fn exported_targets_start_with_their_crate(target: Seq<char>)
    ensures
        belongs_to_exported_crate(target) <==> ({
            ||| target == "agentic_server"@ || (exists|path: Seq<char>|
                target == "agentic_server"@ + "::"@ + path)
            ||| target == "agentic_core"@ || (exists|path: Seq<char>|
                target == "agentic_core"@ + "::"@ + path)
            ||| target == "agentic_praxis"@ || (exists|path: Seq<char>|
                target == "agentic_praxis"@ + "::"@ + path)
            ||| target == "agentic_llm_d"@ || (exists|path: Seq<char>|
                target == "agentic_llm_d"@ + "::"@ + path)
        }),
{
    reveal_strlit("agentic_server");
    reveal_strlit("agentic_core");
    reveal_strlit("agentic_praxis");
    reveal_strlit("agentic_llm_d");
    leading_segment_is_followed_by_colons(target, "agentic_server"@);
    leading_segment_is_followed_by_colons(target, "agentic_core"@);
    leading_segment_is_followed_by_colons(target, "agentic_praxis"@);
    leading_segment_is_followed_by_colons(target, "agentic_llm_d"@);
    assert(is_exported_crate("agentic_server"@));
    assert(is_exported_crate("agentic_core"@));
    assert(is_exported_crate("agentic_praxis"@));
    assert(is_exported_crate("agentic_llm_d"@));
}

/// Spans are exported at `INFO` and at the more severe levels, and at no other.
pub proof fn levels_down_to_info_are_exported(level: Level)
    ensures
        level.verbosity() <= Level::Info.verbosity() <==> level == Level::Error || level
            == Level::Warn || level == Level::Info,
{
}

/// Every module of an exported crate is exported, however deep, and so is the
/// crate itself.
pub proof fn modules_of_exported_crates_are_exported(crate_name: Seq<char>, path: Seq<char>)
    requires
        is_exported_crate(crate_name),
    ensures
        belongs_to_exported_crate(crate_name),
        belongs_to_exported_crate(crate_name + "::"@ + path),
{
    reveal_strlit("agentic_server");
    reveal_strlit("agentic_core");
    reveal_strlit("agentic_praxis");
    reveal_strlit("agentic_llm_d");
    reveal_strlit("::");
    assert forall|i: int| 0 <= i < crate_name.len() implies crate_name[i] != ':' by {}
    let target = crate_name + "::"@ + path;
    assert(crate_name =~= crate_name.take(crate_name.len() as int));
    assert(is_leading_segment(crate_name, crate_name));
    assert(crate_name =~= target.take(crate_name.len() as int));
    assert forall|i: int| 0 <= i < crate_name.len() implies !separates_at(target, i) by {
        assert(target[i] == crate_name[i]);
    }
    assert(target[crate_name.len() as int] == ':');
    assert(target[crate_name.len() as int + 1] == ':');
    assert(is_leading_segment(target, crate_name));
}

/// What the bridge adds to the declared fields of a span.
#[derive(Debug, Clone, Copy, PartialEq, Eq, Structural)]
pub struct BridgeOptions {
    pub location: bool,
    pub threads: bool,
    pub target: bool,
    pub level: bool,
    pub tracked_inactivity: bool,
}

/// The layers of a subscriber.
#[derive(Debug, Clone, Copy, PartialEq, Eq, Structural)]
pub struct SubscriberPlan {
    /// How local log lines are written.
    pub format: CorrelatedFormat,
    /// How spans reach the export, filtered by [`is_exported`]; `None` where
    /// nothing is exported.
    pub bridge: Option<BridgeOptions>,
}

/// Decide the layer stack, given whether there is a tracer to export to.
pub fn build_subscriber(has_tracer: bool) -> (plan: SubscriberPlan)
    ensures
        plan.format.correlate == has_tracer,
        plan.bridge is Some <==> has_tracer,
        plan.bridge matches Some(options) ==> options == (BridgeOptions {
            location: false,
            threads: false,
            target: false,
            level: false,
            tracked_inactivity: false,
        }),
{
    let bridge = if has_tracer {
        // Only declared span fields become attributes: no source location,
        // thread, `tracing` target/level, or busy/idle timings.
        Some(
            BridgeOptions {
                location: false,
                threads: false,
                target: false,
                level: false,
                tracked_inactivity: false,
            },
        )
    } else {
        None
    };
    SubscriberPlan { format: CorrelatedFormat::new(has_tracer), bridge }
}

/// Trace and span identifiers of the active OpenTelemetry span, if any.
#[derive(Debug, Clone, Copy, PartialEq, Eq, Structural)]
pub struct CorrelationIds {
    pub trace_id: u128,
    pub span_id: u64,
}

/// `SpanContext::is_valid`, of a context with these identifiers: both are
/// other than zero.
#[verifier::external_body]
fn span_context_is_valid(trace_id: u128, span_id: u64) -> (valid: bool)
    ensures
        valid == (trace_id != 0 && span_id != 0),
{
    SpanContext::new(
        TraceId::from(trace_id),
        SpanId::from(span_id),
        TraceFlags::default(),
        false,
        TraceState::default(),
    ).is_valid()
}

/// The identifiers of the current span context, where it is valid.
///
/// The bridge activates the OpenTelemetry context whenever a bridged span is
/// entered, so an event's correlation is simply the current context on the
/// emitting thread. Spans that are filtered away from the bridge inherit the
/// nearest exported ancestor, which is the span a reader can actually find.
pub fn current_correlation_ids(trace_id: u128, span_id: u64) -> (ids: Option<CorrelationIds>)
    ensures
        ids == if trace_id != 0 && span_id != 0 {
            Some(CorrelationIds { trace_id, span_id })
        } else {
            None
        },
{
    if span_context_is_valid(trace_id, span_id) {
        Some(CorrelationIds { trace_id, span_id })
    } else {
        None
    }
}

pub open spec fn hex_digit(value: int) -> char {
    if value < 10 {
        ('0' as u32 + value) as char
    } else {
        ('a' as u32 + value - 10) as char
    }
}

/// The lowest `width` hexadecimal digits of a number, in lower case.
pub open spec fn lower_hex(value: int, width: nat) -> Seq<char>
    decreases width,
{
    if width == 0 {
        Seq::empty()
    } else {
        lower_hex(value / 16, (width - 1) as nat).push(hex_digit(value % 16))
    }
}

/// `TraceId` as it is displayed: all of its hexadecimal digits, in lower case.
#[verifier::external_body]
fn trace_id_text(trace_id: u128) -> (text: String)
    ensures
        text@ == lower_hex(trace_id as int, 32),
{
    TraceId::from(trace_id).to_string()
}

/// `SpanId` as it is displayed: all of its hexadecimal digits, in lower case.
#[verifier::external_body]
fn span_id_text(span_id: u64) -> (text: String)
    ensures
        text@ == lower_hex(span_id as int, 16),
{
    SpanId::from(span_id).to_string()
}

pub open spec fn ends_line(c: char) -> bool {
    c == '\n' || c == '\r'
}

/// A line without its terminator.
pub open spec fn trimmed(line: Seq<char>) -> Seq<char>
    decreases line.len(),
{
    if line.len() > 0 && ends_line(line.last()) {
        trimmed(line.drop_last())
    } else {
        line
    }
}

/// A line loses nothing but its terminator: what is left is how the line starts,
/// every character that went is a line feed or a carriage return, and no such
/// character is left at the end.
pub proof fn only_line_ends_are_trimmed(line: Seq<char>)
    ensures
        trimmed(line).len() <= line.len(),
        trimmed(line) == line.take(trimmed(line).len() as int),
        forall|i: int|
            trimmed(line).len() <= i < line.len() ==> (#[trigger] line[i]) == '\n' || line[i]
                == '\r',
        trimmed(line).len() > 0 ==> trimmed(line).last() != '\n' && trimmed(line).last() != '\r',
    decreases line.len(),
{
    if line.len() > 0 && ends_line(line.last()) {
        let init = line.drop_last();
        only_line_ends_are_trimmed(init);
        assert(trimmed(line) =~= line.take(trimmed(line).len() as int));
        assert forall|i: int| trimmed(line).len() <= i < line.len() implies (#[trigger] line[i])
            == '\n' || line[i] == '\r' by {
            if i < init.len() {
                assert(init[i] == line[i]);
            }
        }
    } else {
        assert(line.take(line.len() as int) =~= line);
    }
}

/// A message that does not end in a line end is kept whole, whatever line ends
/// come after it.
pub proof fn messages_are_kept_whole(message: Seq<char>, terminator: Seq<char>)
    requires
        message.len() > 0 ==> message.last() != '\n' && message.last() != '\r',
        forall|i: int|
            0 <= i < terminator.len() ==> (#[trigger] terminator[i]) == '\n' || terminator[i]
                == '\r',
    ensures
        trimmed(message + terminator) == message,
{
    let line = message + terminator;
    only_line_ends_are_trimmed(line);
    let kept = trimmed(line).len() as int;
    if kept < message.len() {
        assert(line[message.len() - 1] == message.last());
        assert(false);
    }
    if kept > message.len() {
        assert(trimmed(line).last() == line[kept - 1]);
        assert(line[kept - 1] == terminator[kept - 1 - message.len()]);
        assert(false);
    }
    assert(trimmed(line) =~= message);
}

/// A line with the identifiers spliced in before its terminator.
pub open spec fn correlated(line: Seq<char>, ids: CorrelationIds) -> Seq<char> {
    trimmed(line) + " trace_id="@ + lower_hex(ids.trace_id as int, 32) + " span_id="@ + lower_hex(
        ids.span_id as int,
        16,
    ) + "\n"@
}

fn trim_line(line: &str) -> (rest: &str)
    ensures
        rest@ == trimmed(line@),
        rest@ == line@.take(rest@.len() as int),
        rest@.len() <= line@.len(),
        forall|i: int|
            rest@.len() <= i < line@.len() ==> (#[trigger] line@[i]) == '\n' || line@[i] == '\r',
        rest@.len() > 0 ==> rest@.last() != '\n' && rest@.last() != '\r',
{
    proof {
        only_line_ends_are_trimmed(line@);
    }
    let mut end = line.unicode_len();
    assert(line@.take(end as int) =~= line@);
    while end > 0 && (line.get_char(end - 1) == '\n' || line.get_char(end - 1) == '\r')
        invariant
            end <= line@.len(),
            trimmed(line@.take(end as int)) == trimmed(line@),
        decreases end,
    {
        assert(line@.take(end as int).drop_last() =~= line@.take(end - 1));
        end = end - 1;
    }
    assert(line@.subrange(0, end as int) =~= line@.take(end as int));
    line.substring_char(0, end)
}

/// The default human-readable format with `trace_id`/`span_id` appended when
/// the event is emitted inside an exported span.
///
/// Without a bridge layer no span can carry an OpenTelemetry context, so the
/// formatter skips the context lookup entirely and delegates unchanged.
#[derive(Debug, Clone, Copy, PartialEq, Eq, Structural)]
pub struct CorrelatedFormat {
    pub correlate: bool,
}

impl CorrelatedFormat {
    pub fn new(correlate: bool) -> (format: Self)
        ensures
            format.correlate == correlate,
    {
        CorrelatedFormat { correlate }
    }

    /// The identifiers to append to an event, given those of the current span
    /// context; `None` leaves the event as it is.
    pub fn ids(&self, trace_id: u128, span_id: u64) -> (ids: Option<CorrelationIds>)
        ensures
            ids == if self.correlate && trace_id != 0 && span_id != 0 {
                Some(CorrelationIds { trace_id, span_id })
            } else {
                None
            },
    {
        if self.correlate {
            current_correlation_ids(trace_id, span_id)
        } else {
            None
        }
    }

    /// Append identifiers to an event, given the line it is written as.
    pub fn format_event(line: &str, ids: CorrelationIds) -> (written: String)
        ensures
            written@ == correlated(line@, ids),
            exists|kept: int|
                written@ == #[trigger] line@.take(kept) + " trace_id="@ + lower_hex(ids.trace_id as int, 32)
                    + " span_id="@ + lower_hex(ids.span_id as int, 16) + "\n"@ && 0 <= kept
                    <= line@.len() && (forall|i: int|
                    kept <= i < line@.len() ==> (#[trigger] line@[i]) == '\n' || line@[i] == '\r')
                    && (kept > 0 ==> line@[kept - 1] != '\n' && line@[kept - 1] != '\r'),
    {
        proof {
            only_line_ends_are_trimmed(line@);
        }
        // The inner format owns the line terminator, so the identifiers are
        // spliced in before it.
        trim_line(line).to_owned().concat(" trace_id=").concat(
            trace_id_text(ids.trace_id).as_str(),
        ).concat(" span_id=").concat(span_id_text(ids.span_id).as_str()).concat("\n")
    }
}

/// What is left of a number once its lowest `width` hexadecimal digits are gone.
spec fn beyond_hex(value: int, width: nat) -> int
    decreases width,
{
    if width == 0 {
        value
    } else {
        beyond_hex(value / 16, (width - 1) as nat)
    }
}

proof fn hex_has_width(value: int, width: nat)
    ensures
        lower_hex(value, width).len() == width,
    decreases width,
{
    if width > 0 {
        hex_has_width(value / 16, (width - 1) as nat);
    }
}

/// The hexadecimal digits of a number stand for it, the highest first: the digit
/// at each position is what the number has there, written `0` to `9` and `a` to
/// `f`.
pub proof fn hex_digits_stand_for_the_number(value: int, width: nat, i: int)
    requires
        value >= 0,
        0 <= i < width,
    ensures
        lower_hex(value, width).len() == width,
        ({
            let digit = (value / pow(16, (width - 1 - i) as nat)) % 16;
            lower_hex(value, width)[i] as int == if digit < 10 {
                48 + digit
            } else {
                97 + digit - 10
            }
        }),
    decreases width,
{
    hex_has_width(value, width);
    if i == width - 1 {
        lemma_pow0(16);
    } else {
        let rest = (width - 1) as nat;
        let places = (width - 2 - i) as nat;
        hex_digits_stand_for_the_number(value / 16, rest, i);
        hex_has_width(value / 16, rest);
        assert(lower_hex(value, width)[i] == lower_hex(value / 16, rest)[i]);
        lemma_pow_positive(16, places);
        lemma_div_denominator(value, 16, pow(16, places));
        assert(pow(16, places + 1) == 16 * pow(16, places)) by {
            reveal(pow);
        }
    }
}

proof fn hex_determines(a: int, b: int, width: nat)
    requires
        a >= 0,
        b >= 0,
        lower_hex(a, width) == lower_hex(b, width),
        beyond_hex(a, width) == beyond_hex(b, width),
    ensures
        a == b,
    decreases width,
{
    if width > 0 {
        let rest = (width - 1) as nat;
        let left = lower_hex(a, width);
        let right = lower_hex(b, width);
        assert(left.drop_last() =~= lower_hex(a / 16, rest));
        assert(right.drop_last() =~= lower_hex(b / 16, rest));
        assert(left.last() == hex_digit(a % 16));
        assert(right.last() == hex_digit(b % 16));
        hex_determines(a / 16, b / 16, rest);
    }
}

proof fn identifiers_fit(ids: CorrelationIds)
    ensures
        beyond_hex(ids.trace_id as int, 32) == 0,
        beyond_hex(ids.span_id as int, 16) == 0,
{
    reveal_with_fuel(beyond_hex, 33);
}

/// A correlated line ends with `trace_id=` and 32 hexadecimal digits, then
/// `span_id=` and 16, and its terminator.
pub proof fn correlated_lines_end_with_the_identifiers(line: Seq<char>, ids: CorrelationIds)
    ensures
        lower_hex(ids.trace_id as int, 32).len() == 32,
        lower_hex(ids.span_id as int, 16).len() == 16,
        correlated(line, ids) == trimmed(line) + (" trace_id="@ + lower_hex(
            ids.trace_id as int,
            32,
        ) + " span_id="@ + lower_hex(ids.span_id as int, 16) + "\n"@),
{
    hex_has_width(ids.trace_id as int, 32);
    hex_has_width(ids.span_id as int, 16);
    assert(correlated(line, ids) =~= trimmed(line) + (" trace_id="@ + lower_hex(
        ids.trace_id as int,
        32,
    ) + " span_id="@ + lower_hex(ids.span_id as int, 16) + "\n"@));
}

/// A correlated line tells which trace and span it belongs to: lines of
/// different spans never read the same.
pub proof fn correlated_lines_tell_spans_apart(
    line: Seq<char>,
    ids: CorrelationIds,
    other_line: Seq<char>,
    other_ids: CorrelationIds,
)
    requires
        correlated(line, ids) == correlated(other_line, other_ids),
    ensures
        ids == other_ids,
        trimmed(line) == trimmed(other_line),
{
    let text = correlated(line, ids);
    let trace = lower_hex(ids.trace_id as int, 32);
    let span = lower_hex(ids.span_id as int, 16);
    let other_trace = lower_hex(other_ids.trace_id as int, 32);
    let other_span = lower_hex(other_ids.span_id as int, 16);
    hex_has_width(ids.trace_id as int, 32);
    hex_has_width(ids.span_id as int, 16);
    hex_has_width(other_ids.trace_id as int, 32);
    hex_has_width(other_ids.span_id as int, 16);
    reveal_strlit(" trace_id=");
    reveal_strlit(" span_id=");
    reveal_strlit("\n");
    let end = text.len() - 1;
    assert(text.subrange(end - 16, end) =~= span);
    assert(text.subrange(end - 16, end) =~= other_span);
    assert(text.subrange(end - 57, end - 25) =~= trace);
    assert(text.subrange(end - 57, end - 25) =~= other_trace);
    assert(text.subrange(0, end - 67) =~= trimmed(line));
    assert(text.subrange(0, end - 67) =~= trimmed(other_line));
    identifiers_fit(ids);
    identifiers_fit(other_ids);
    hex_determines(ids.trace_id as int, other_ids.trace_id as int, 32);
    hex_determines(ids.span_id as int, other_ids.span_id as int, 16);
}

} // verus!
