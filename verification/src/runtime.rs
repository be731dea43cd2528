//! The decisions of the stdio runtime. The process resolves its configuration,
//! starts the server and serves MCP frames; after each of these stages the
//! library says what comes next: the following stage, or the closing record to
//! send before the lifecycle logger is closed and the run ends.

use vstd::prelude::*;

use crate::observability::{event, failure, is_metadata_free_record, LifecycleRecord, Severity, TraceTag};

verus! {

/// The routine id that every closing record of a run carries.
pub const ROUTINE_ID: &'static str = "ores-routine-IQEFyT3CGzAfTvByoyKcv";

/// A stage of the run, each performed by the process around the library.
#[derive(Clone, Copy, PartialEq, Eq, Structural)]
pub enum Stage {
    /// Resolve the command-line configuration.
    ResolveConfig,
    /// Initialise telemetry and build the server from the configuration.
    StartServer,
    /// Serve bounded MCP frames until the transport stops.
    Serve,
}

/// How a run ended.
#[derive(Clone, Copy, PartialEq, Eq, Structural)]
pub enum RunOutcome {
    /// The transport stopped cleanly; the run succeeds.
    Stopped,
    /// The configuration was invalid; the run fails with that error.
    ConfigInvalid,
    /// The server could not be started; the run fails with that error.
    StartFailed,
    /// The transport failed; the run fails with that error.
    RuntimeFailed,
}

/// The end of a run: the record to send, then the outcome to report.
pub struct RunExit {
    pub record: LifecycleRecord,
    pub outcome: RunOutcome,
}

/// What the process does next.
pub enum RunStep {
    Perform(Stage),
    Exit(RunExit),
}

/// The stage that every run begins with.
pub open spec fn spec_first_stage() -> Stage {
    Stage::ResolveConfig
}

/// The stage that follows a stage that succeeded, if any.
pub open spec fn spec_next_stage(stage: Stage) -> Option<Stage> {
    match stage {
        Stage::ResolveConfig => Some(Stage::StartServer),
        Stage::StartServer => Some(Stage::Serve),
        Stage::Serve => None,
    }
}

/// How the run ends after `stage` finished, if it ends there.
pub open spec fn spec_exit_outcome(stage: Stage, succeeded: bool) -> Option<RunOutcome> {
    match (stage, succeeded) {
        (Stage::ResolveConfig, false) => Some(RunOutcome::ConfigInvalid),
        (Stage::StartServer, false) => Some(RunOutcome::StartFailed),
        (Stage::Serve, false) => Some(RunOutcome::RuntimeFailed),
        (Stage::Serve, true) => Some(RunOutcome::Stopped),
        _ => None,
    }
}

/// A run fails unless the transport stopped cleanly.
pub open spec fn is_failure(outcome: RunOutcome) -> bool {
    outcome != RunOutcome::Stopped
}

/// The constant event name of the closing record.
pub open spec fn exit_event_name(outcome: RunOutcome) -> &'static str {
    match outcome {
        RunOutcome::Stopped => "mcp.runtime.stopped",
        RunOutcome::ConfigInvalid => "mcp.config.invalid",
        RunOutcome::StartFailed => "mcp.lifecycle.start_failed",
        RunOutcome::RuntimeFailed => "mcp.runtime.failed",
    }
}

/// The static trace tag of the closing record.
pub open spec fn exit_trace_id(outcome: RunOutcome) -> &'static str {
    match outcome {
        RunOutcome::Stopped => "ores-trace-qR6Z4dfu0F8P0e8WNrMjV",
        RunOutcome::ConfigInvalid => "ores-trace-Rytef_9Vu8Ccft8-x6pOV",
        RunOutcome::StartFailed => "ores-trace-Eb2dzDZ1sU0qBgQDjZ_dH",
        RunOutcome::RuntimeFailed => "ores-trace-Mjra79Tm9CWiGWtxsXLIZ",
    }
}

/// The record that closes a run with `outcome`: a failure record for a failed
/// run and an informational one otherwise, metadata-free, with the trace tag of
/// its exit and the routine id.
pub open spec fn is_closing_record(r: &LifecycleRecord, outcome: RunOutcome) -> bool {
    &&& is_metadata_free_record(
        r,
        if is_failure(outcome) {
            Severity::Error
        } else {
            Severity::Info
        },
        exit_event_name(outcome),
    )
    &&& r.trace == Some(TraceTag { id: exit_trace_id(outcome), sampled: false })
    &&& r.routine_id == Some(ROUTINE_ID)
}

/// The stage that every run begins with.
pub fn first_stage() -> (r: Stage)
    ensures
        r == spec_first_stage(),
{
    Stage::ResolveConfig
}

/// What follows `stage`, which succeeded or failed.
pub fn next_step(stage: Stage, succeeded: bool) -> (r: RunStep)
    ensures
        match r {
            RunStep::Perform(next) => spec_exit_outcome(stage, succeeded) is None && spec_next_stage(stage)
                == Some(next),
            RunStep::Exit(exit) => spec_exit_outcome(stage, succeeded) == Some(exit.outcome)
                && is_closing_record(&exit.record, exit.outcome),
        },
{
    match (stage, succeeded) {
        (Stage::ResolveConfig, true) => RunStep::Perform(Stage::StartServer),
        (Stage::StartServer, true) => RunStep::Perform(Stage::Serve),
        (Stage::ResolveConfig, false) => RunStep::Exit(
            RunExit {
                record: failure("mcp.config.invalid").add_trace(
                    "ores-trace-Rytef_9Vu8Ccft8-x6pOV",
                    false,
                ).add_routine_id(ROUTINE_ID),
                outcome: RunOutcome::ConfigInvalid,
            },
        ),
        (Stage::StartServer, false) => RunStep::Exit(
            RunExit {
                record: failure("mcp.lifecycle.start_failed").add_trace(
                    "ores-trace-Eb2dzDZ1sU0qBgQDjZ_dH",
                    false,
                ).add_routine_id(ROUTINE_ID),
                outcome: RunOutcome::StartFailed,
            },
        ),
        (Stage::Serve, false) => RunStep::Exit(
            RunExit {
                record: failure("mcp.runtime.failed").add_trace(
                    "ores-trace-Mjra79Tm9CWiGWtxsXLIZ",
                    false,
                ).add_routine_id(ROUTINE_ID),
                outcome: RunOutcome::RuntimeFailed,
            },
        ),
        (Stage::Serve, true) => RunStep::Exit(
            RunExit {
                record: event("mcp.runtime.stopped").add_trace(
                    "ores-trace-qR6Z4dfu0F8P0e8WNrMjV",
                    false,
                ).add_routine_id(ROUTINE_ID),
                outcome: RunOutcome::Stopped,
            },
        ),
    }
}

/// How a run that starts at `stage` ends when its stages report `succeeded`
/// in turn; nothing while it has not ended.
pub open spec fn spec_run(stage: Stage, succeeded: Seq<bool>) -> Option<RunOutcome>
    decreases succeeded.len(),
{
    if succeeded.len() == 0 {
        None
    } else {
        match spec_exit_outcome(stage, succeeded[0]) {
            Some(outcome) => Some(outcome),
            None => match spec_next_stage(stage) {
                Some(next) => spec_run(next, succeeded.drop_first()),
                None => None,
            },
        }
    }
}

/// Every run ends after at most three stages, whatever they report, with
/// exactly one closing record; it ends cleanly only when every stage
/// succeeded, and otherwise with the failure of the first stage that failed.
pub proof fn lemma_every_run_ends(succeeded: Seq<bool>)
    requires
        succeeded.len() == 3,
    ensures
        spec_run(spec_first_stage(), succeeded) is Some,
        spec_run(spec_first_stage(), succeeded) == Some(RunOutcome::Stopped) <==> (succeeded[0]
            && succeeded[1] && succeeded[2]),
        !succeeded[0] ==> spec_run(spec_first_stage(), succeeded) == Some(RunOutcome::ConfigInvalid),
        succeeded[0] && !succeeded[1] ==> spec_run(spec_first_stage(), succeeded) == Some(
            RunOutcome::StartFailed,
        ),
        succeeded[0] && succeeded[1] && !succeeded[2] ==> spec_run(spec_first_stage(), succeeded)
            == Some(RunOutcome::RuntimeFailed),
{
    reveal_with_fuel(spec_run, 4);
    assert(succeeded.drop_first()[0] == succeeded[1]);
    assert(succeeded.drop_first().drop_first()[0] == succeeded[2]);
}

/// Each way a run can end has its own trace tag, and a run is reported as
/// failed exactly when its closing record is an error record.
pub proof fn lemma_exits_are_distinguishable(a: RunOutcome, b: RunOutcome)
    ensures
        a != b ==> exit_trace_id(a)@ != exit_trace_id(b)@,
        a != b ==> exit_event_name(a)@ != exit_event_name(b)@,
        forall|r: &LifecycleRecord| #[trigger] is_closing_record(r, a) ==> (r.severity == Severity::Error
            <==> is_failure(a)),
{
    reveal_strlit("ores-trace-qR6Z4dfu0F8P0e8WNrMjV");
    reveal_strlit("ores-trace-Rytef_9Vu8Ccft8-x6pOV");
    reveal_strlit("ores-trace-Eb2dzDZ1sU0qBgQDjZ_dH");
    reveal_strlit("ores-trace-Mjra79Tm9CWiGWtxsXLIZ");
    reveal_strlit("mcp.runtime.stopped");
    reveal_strlit("mcp.config.invalid");
    reveal_strlit("mcp.lifecycle.start_failed");
    reveal_strlit("mcp.runtime.failed");
    if a != b {
        assert(exit_trace_id(a)@[11] != exit_trace_id(b)@[11]);
        assert(exit_event_name(a)@.len() != exit_event_name(b)@.len() || exit_event_name(a)@[4]
            != exit_event_name(b)@[4] || exit_event_name(a)@[12] != exit_event_name(b)@[12]);
    }
}

} // verus!
