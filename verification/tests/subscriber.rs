use agentic_server::telemetry::subscriber::{
    build_subscriber, current_correlation_ids, is_exported, is_exported_level, is_exported_target,
    BridgeOptions, CorrelatedFormat, CorrelationIds, Level, Metadata, DEFAULT_LOG_FILTER,
};

#[test]
fn exported_levels_are_info_and_above() {
    assert!(is_exported_level(Level::Error));
    assert!(is_exported_level(Level::Warn));
    assert!(is_exported_level(Level::Info));
    assert!(!is_exported_level(Level::Debug));
    assert!(!is_exported_level(Level::Trace));
}

#[test]
fn only_repository_crates_are_exported() {
    assert!(is_exported_target("agentic_core::executor::engine"));
    assert!(is_exported_target("agentic_server::telemetry::http"));
    assert!(is_exported_target("agentic_server"));
    for dependency in [
        "rmcp::service",
        "opentelemetry_sdk::trace",
        "opentelemetry-otlp",
        "hyper::proto::h1",
        "hyper_util::client::legacy",
        "reqwest",
        "tokio::task",
        "sqlx_core::pool",
        "agentic_server_evil::x",
    ] {
        assert!(
            !is_exported_target(dependency),
            "{dependency} must not be exported"
        );
    }
}

#[test]
fn targets_are_split_at_the_first_double_colon() {
    assert!(is_exported_target("agentic_praxis::a::b"));
    assert!(is_exported_target("agentic_llm_d"));
    assert!(is_exported_target("agentic_core::"));
    assert!(is_exported_target("agentic_core:::x"));
    assert!(!is_exported_target("agentic_core:x"));
    assert!(!is_exported_target("agentic_core:"));
    assert!(!is_exported_target("::agentic_core"));
    assert!(!is_exported_target("agentic"));
    assert!(!is_exported_target(""));
}

#[test]
fn only_spans_of_exported_levels_and_targets_are_exported() {
    let span = Metadata {
        is_span: true,
        level: Level::Info,
        target: "agentic_core::executor",
    };
    assert!(is_exported(&span));
    assert!(!is_exported(&Metadata {
        is_span: false,
        ..span
    }));
    assert!(!is_exported(&Metadata {
        level: Level::Debug,
        ..span
    }));
    assert!(!is_exported(&Metadata {
        target: "rmcp::service",
        ..span
    }));
}

#[test]
fn a_tracer_brings_the_bridge_and_correlation() {
    let plain = build_subscriber(false);
    assert!(!plain.format.correlate);
    assert_eq!(plain.bridge, None);

    let exporting = build_subscriber(true);
    assert!(exporting.format.correlate);
    assert_eq!(
        exporting.bridge,
        Some(BridgeOptions {
            location: false,
            threads: false,
            target: false,
            level: false,
            tracked_inactivity: false,
        })
    );
}

#[test]
fn only_valid_contexts_give_identifiers() {
    let ids = CorrelationIds {
        trace_id: 42,
        span_id: 7,
    };
    assert_eq!(current_correlation_ids(42, 7), Some(ids));
    assert_eq!(current_correlation_ids(0, 7), None);
    assert_eq!(current_correlation_ids(42, 0), None);
    assert_eq!(CorrelatedFormat::new(true).ids(42, 7), Some(ids));
    assert_eq!(CorrelatedFormat::new(true).ids(0, 0), None);
    assert_eq!(CorrelatedFormat::new(false).ids(42, 7), None);
}

#[test]
fn identifiers_are_spliced_in_before_the_terminator() {
    let ids = CorrelationIds {
        trace_id: 0x4bf92f3577b34da6a3ce929d0e0e4736,
        span_id: 0x00f067aa0ba902b7,
    };
    let suffix = "trace_id=4bf92f3577b34da6a3ce929d0e0e4736 span_id=00f067aa0ba902b7";
    for line in ["inside span", "inside span\n", "inside span\r\n\n"] {
        assert_eq!(
            CorrelatedFormat::format_event(line, ids),
            format!("inside span {suffix}\n")
        );
    }
    assert_eq!(
        CorrelatedFormat::format_event("a\nb é\n", ids),
        format!("a\nb é {suffix}\n")
    );
    assert_eq!(CorrelatedFormat::format_event("\n", ids), format!(" {suffix}\n"));
}

#[test]
fn identifiers_keep_their_leading_zeros() {
    let ids = CorrelationIds {
        trace_id: 42,
        span_id: 42,
    };
    assert_eq!(
        CorrelatedFormat::format_event("x", ids),
        "x trace_id=0000000000000000000000000000002a span_id=000000000000002a\n"
    );
}

#[test]
fn the_default_filter_names_the_exporter_crates() {
    assert_eq!(
        DEFAULT_LOG_FILTER,
        "agentic_server=info,agentic_core=info,opentelemetry_sdk=warn,opentelemetry-otlp=warn"
    );
}
