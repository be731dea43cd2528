use opto_sync_mcp_server::observability::{event, failure, LifecycleRecord, Severity};
use opto_sync_mcp_server::runtime::{first_stage, next_step, RunOutcome, RunStep, Stage, ROUTINE_ID};

fn record_text(record: &LifecycleRecord) -> String {
    let mut text = String::from(record.message);
    for (key, value) in &record.fields {
        text.push_str(key);
        text.push_str(value);
    }
    for tag in &record.tags {
        text.push_str(tag);
    }
    if let Some(trace) = &record.trace {
        text.push_str(trace.id);
    }
    if let Some(routine) = record.routine_id {
        text.push_str(routine);
    }
    text.to_ascii_lowercase()
}

#[test]
fn records_carry_only_constant_metadata_free_fields() {
    let record = event("mcp.test");
    let encoded = record_text(&record);
    assert!(encoded.contains("mcp.test"));
    assert!(encoded.contains("metadata-free"));
    for forbidden in ["token", "secret", "password", "https://", "session"] {
        assert!(
            !encoded.contains(forbidden),
            "{forbidden} entered telemetry"
        );
    }
    let failed = failure("mcp.test.failed");
    assert!(failed.severity == Severity::Error);
}

#[test]
fn records_have_exact_fields_and_tags() {
    let record = event("mcp.test");
    assert!(record.severity == Severity::Info);
    assert_eq!(record.message, "mcp.test");
    assert_eq!(
        record.fields,
        vec![("event.name", "mcp.test"), ("data.classification", "metadata-free")]
    );
    assert_eq!(record.tags, vec!["opto-sync", "mcp"]);
    assert!(record.trace.is_none());
    assert!(record.routine_id.is_none());
    let traced = failure("mcp.x").add_trace("ores-trace-x", true).add_routine_id("ores-routine-y");
    assert_eq!(traced.trace.map(|t| (t.id, t.sampled)), Some(("ores-trace-x", true)));
    assert_eq!(traced.routine_id, Some("ores-routine-y"));
    assert_eq!(traced.fields.len(), 2);
    let more = LifecycleRecord::new(Severity::Info, "m").add_fields(vec![("a", "b")]).add_tags(vec!["t"]);
    assert_eq!(more.fields, vec![("a", "b")]);
    assert_eq!(more.tags, vec!["t"]);
}

fn exit_of(step: RunStep) -> (LifecycleRecord, RunOutcome) {
    match step {
        RunStep::Exit(exit) => (exit.record, exit.outcome),
        RunStep::Perform(_) => panic!("the run goes on"),
    }
}

#[test]
fn a_clean_run_passes_every_stage_and_stops() {
    let first = first_stage();
    assert!(first == Stage::ResolveConfig);
    assert!(matches!(next_step(first, true), RunStep::Perform(Stage::StartServer)));
    assert!(matches!(next_step(Stage::StartServer, true), RunStep::Perform(Stage::Serve)));
    let (record, outcome) = exit_of(next_step(Stage::Serve, true));
    assert!(outcome == RunOutcome::Stopped);
    assert!(record.severity == Severity::Info);
    assert_eq!(record.message, "mcp.runtime.stopped");
    assert_eq!(record.trace.map(|t| (t.id, t.sampled)), Some(("ores-trace-qR6Z4dfu0F8P0e8WNrMjV", false)));
    assert_eq!(record.routine_id, Some(ROUTINE_ID));
    assert_eq!(ROUTINE_ID, "ores-routine-IQEFyT3CGzAfTvByoyKcv");
}

#[test]
fn each_failing_stage_ends_the_run_with_its_own_failure_record() {
    let cases = [
        (Stage::ResolveConfig, RunOutcome::ConfigInvalid, "mcp.config.invalid", "ores-trace-Rytef_9Vu8Ccft8-x6pOV"),
        (Stage::StartServer, RunOutcome::StartFailed, "mcp.lifecycle.start_failed", "ores-trace-Eb2dzDZ1sU0qBgQDjZ_dH"),
        (Stage::Serve, RunOutcome::RuntimeFailed, "mcp.runtime.failed", "ores-trace-Mjra79Tm9CWiGWtxsXLIZ"),
    ];
    for (stage, expected, name, trace) in cases {
        let (record, outcome) = exit_of(next_step(stage, false));
        assert!(outcome == expected);
        assert!(record.severity == Severity::Error);
        assert_eq!(record.message, name);
        assert_eq!(record.fields, vec![("event.name", name), ("data.classification", "metadata-free")]);
        assert_eq!(record.tags, vec!["opto-sync", "mcp"]);
        assert_eq!(record.trace.map(|t| (t.id, t.sampled)), Some((trace, false)));
        assert_eq!(record.routine_id, Some(ROUTINE_ID));
    }
}
