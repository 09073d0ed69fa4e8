//! The state machine of one run: it turns what the driver observes of
//! the worker (lines, exit, the final directory) into progress events and
//! the run's outcome.
use vstd::prelude::*;

use crate::stage::{next_stage, spec_next_stage, spec_stage_after};

verus! {

/// Why a run ended without a result.
#[derive(Clone, Copy, Debug, PartialEq, Eq, Structural)]
pub enum RunErrorKind {
    /// A filesystem operation failed.
    IoError,
    /// The input path does not exist.
    InputNotFound,
    /// The worker's entry script is absent.
    LaunchScriptMissing,
    /// The worker could not be started.
    SpawnError,
    /// The worker exited with a failure status.
    WorkerExitedNonZero,
    /// The worker succeeded but left nothing in the final directory.
    NoOutputProduced,
    /// The run's own execution context failed.
    TaskFailed,
}

/// A terminal failure of a run, with its human-readable message.
#[derive(Clone, Debug)]
pub struct RunError {
    pub kind: RunErrorKind,
    pub message: String,
}

/// Where a run stands.
#[derive(Clone, Copy, Debug, PartialEq, Eq, Structural)]
pub enum RunPhase {
    /// Preparing directories and the worker; nothing spawned yet.
    Starting,
    /// The worker runs and its output is being drained.
    Running,
    /// The worker exited successfully; the result is being located.
    Exited,
    /// The run produced its result.
    Succeeded,
    /// The run ended with the given failure.
    Failed(RunErrorKind),
}

/// Stage and phase of a run.
#[derive(Clone, Copy, Debug, PartialEq, Eq, Structural)]
pub struct RunState {
    pub stage: Option<u8>,
    pub phase: RunPhase,
}

/// One progress record for the consumer.
#[derive(Clone, Debug)]
pub struct ProgressEvent {
    pub run_id: String,
    pub stage: Option<u8>,
    pub message: String,
    pub is_error: bool,
}

/// The result of a successful run.
#[derive(Clone, Debug)]
pub struct ModifyPhotoResult {
    pub output_path: String,
}

/// What one bounded wait on the merged output channel brought.
pub enum Received {
    /// A line, and whether it came from the error stream.
    Line(bool, String),
    /// No line arrived before the wait timed out.
    Quiet,
    /// Both stream readers have finished.
    Closed,
}

/// What the driver does after one wait while the worker runs.
pub enum DrainStep {
    /// Forward this event, then wait again.
    Forward(ProgressEvent),
    /// Poll, without blocking, whether the worker has exited; wait again
    /// if it has not.
    PollExit,
    /// Block until the worker exits: no more lines will come.
    AwaitExit,
}

/// Stage, message and error flag of an event.
pub type EventBody = (Option<u8>, Seq<char>, bool);

pub open spec fn body_of(e: ProgressEvent) -> EventBody {
    (e.stage, e.message@, e.is_error)
}

/// The message that opens every failure report of the given kind.
pub open spec fn error_prefix(kind: RunErrorKind) -> Seq<char> {
    match kind {
        RunErrorKind::IoError => ""@,
        RunErrorKind::InputNotFound => "Input not found: "@,
        RunErrorKind::LaunchScriptMissing => "run.py not found: "@,
        RunErrorKind::SpawnError => "Failed to start python: "@,
        RunErrorKind::WorkerExitedNonZero => "Python exited with status: "@,
        RunErrorKind::NoOutputProduced => "No output image found under "@,
        RunErrorKind::TaskFailed => "Task failed: "@,
    }
}

pub open spec fn error_message(kind: RunErrorKind, detail: Seq<char>) -> Seq<char> {
    error_prefix(kind) + detail
}

/// A failure can still be reported: the run has not ended.
pub open spec fn is_live(phase: RunPhase) -> bool {
    phase is Starting || phase is Running || phase is Exited
}

pub open spec fn spec_start_state() -> RunState {
    RunState { stage: Some(0u8), phase: RunPhase::Starting }
}

pub open spec fn spec_start_event() -> EventBody {
    (Some(0u8), "Starting..."@, false)
}

pub open spec fn spec_after_spawn(st: RunState) -> RunState {
    RunState { stage: st.stage, phase: RunPhase::Running }
}

pub open spec fn spec_after_line(st: RunState, line: Seq<char>) -> RunState {
    RunState { stage: spec_next_stage(st.stage, line), phase: st.phase }
}

pub open spec fn spec_line_event(st: RunState, is_error: bool, line: Seq<char>) -> EventBody {
    (spec_next_stage(st.stage, line), line, is_error)
}

/// The state after draining a sequence of lines, in order.
pub open spec fn spec_after_lines(st: RunState, lines: Seq<Seq<char>>) -> RunState
    decreases lines.len(),
{
    if lines.len() == 0 {
        st
    } else {
        spec_after_line(spec_after_lines(st, lines.drop_last()), lines.last())
    }
}

pub open spec fn spec_after_exit(st: RunState, success: bool) -> RunState {
    if success {
        RunState { stage: st.stage, phase: RunPhase::Exited }
    } else {
        RunState { stage: st.stage, phase: RunPhase::Failed(RunErrorKind::WorkerExitedNonZero) }
    }
}

pub open spec fn spec_exit_event(st: RunState, status: Seq<char>) -> EventBody {
    (st.stage, error_message(RunErrorKind::WorkerExitedNonZero, status), true)
}

pub open spec fn spec_after_output(st: RunState, found: bool) -> RunState {
    if found {
        RunState { stage: Some(4u8), phase: RunPhase::Succeeded }
    } else {
        RunState { stage: st.stage, phase: RunPhase::Failed(RunErrorKind::NoOutputProduced) }
    }
}

pub open spec fn spec_output_event(st: RunState, found: bool, final_dir: Seq<char>) -> EventBody {
    if found {
        (Some(4u8), "Done"@, false)
    } else {
        (st.stage, error_message(RunErrorKind::NoOutputProduced, final_dir), true)
    }
}

pub open spec fn spec_after_failure(st: RunState, kind: RunErrorKind) -> RunState {
    RunState { stage: st.stage, phase: RunPhase::Failed(kind) }
}

pub open spec fn spec_failure_event(st: RunState, kind: RunErrorKind, detail: Seq<char>) -> EventBody {
    (st.stage, error_message(kind, detail), true)
}

/// Builds `prefix + detail` for a failure of the given kind.
fn error_text(kind: RunErrorKind, detail: &str) -> (r: String)
    ensures
        r@ == error_message(kind, detail@),
{
    let mut s = match kind {
        RunErrorKind::IoError => String::from_str(""),
        RunErrorKind::InputNotFound => String::from_str("Input not found: "),
        RunErrorKind::LaunchScriptMissing => String::from_str("run.py not found: "),
        RunErrorKind::SpawnError => String::from_str("Failed to start python: "),
        RunErrorKind::WorkerExitedNonZero => String::from_str("Python exited with status: "),
        RunErrorKind::NoOutputProduced => String::from_str("No output image found under "),
        RunErrorKind::TaskFailed => String::from_str("Task failed: "),
    };
    s.append(detail);
    s
}

/// The orchestration state of one run, owned by the loop that drives it.
pub struct RunMachine {
    run_id: String,
    state: RunState,
}

impl View for RunMachine {
    type V = (Seq<char>, RunState);

    closed spec fn view(&self) -> (Seq<char>, RunState) {
        (self.run_id@, self.state)
    }
}

impl RunMachine {
    fn event(&self, stage: Option<u8>, message: String, is_error: bool) -> (e: ProgressEvent)
        ensures
            e.run_id@ == self@.0,
            body_of(e) == (stage, message@, is_error),
    {
        ProgressEvent { run_id: self.run_id.clone(), stage, message, is_error }
    }

    /// Opens a run: the machine, in `Starting` at stage 0, and the
    /// "Starting..." event.
    pub fn start(run_id: String) -> (r: (RunMachine, ProgressEvent))
        ensures
            r.0@ == (run_id@, spec_start_state()),
            r.1.run_id@ == run_id@,
            body_of(r.1) == spec_start_event(),
    {
        let m = RunMachine { run_id, state: RunState { stage: Some(0), phase: RunPhase::Starting } };
        let e = m.event(Some(0), String::from_str("Starting..."), false);
        (m, e)
    }

    /// The run's identifier.
    pub fn run_id(&self) -> (r: &String)
        ensures
            r@ == self@.0,
    {
        &self.run_id
    }

    /// The run's current stage and phase.
    pub fn state(&self) -> (r: RunState)
        ensures
            r == self@.1,
    {
        self.state
    }

    /// Records that the worker was spawned: output is drained from now on.
    pub fn worker_started(&mut self)
        requires
            old(self)@.1.phase is Starting,
        ensures
            final(self)@ == (old(self)@.0, spec_after_spawn(old(self)@.1)),
    {
        self.state = RunState { stage: self.state.stage, phase: RunPhase::Running };
    }

    /// One line of worker output: updates the current stage and returns the
    /// event that forwards the line, flagged as an error when it came from
    /// the error stream.
    pub fn on_line(&mut self, is_error: bool, line: String) -> (e: ProgressEvent)
        requires
            old(self)@.1.phase is Running,
        ensures
            final(self)@ == (old(self)@.0, spec_after_line(old(self)@.1, line@)),
            e.run_id@ == old(self)@.0,
            body_of(e) == spec_line_event(old(self)@.1, is_error, line@),
    {
        let stage = next_stage(self.state.stage, line.as_str());
        self.state = RunState { stage, phase: self.state.phase };
        self.event(stage, line, is_error)
    }

    /// One step of draining: a line is forwarded as `on_line` does; a quiet
    /// wait asks for a poll of the worker; closed streams ask to wait for
    /// its exit. Only a line changes the state.
    pub fn on_received(&mut self, received: Received) -> (r: DrainStep)
        requires
            old(self)@.1.phase is Running,
        ensures
            match received {
                Received::Line(is_error, line) => {
                    &&& final(self)@ == (old(self)@.0, spec_after_line(old(self)@.1, line@))
                    &&& r matches DrainStep::Forward(e)
                    &&& e.run_id@ == old(self)@.0
                    &&& body_of(e) == spec_line_event(old(self)@.1, is_error, line@)
                },
                Received::Quiet => final(self)@ == old(self)@ && r is PollExit,
                Received::Closed => final(self)@ == old(self)@ && r is AwaitExit,
            },
    {
        match received {
            Received::Line(is_error, line) => DrainStep::Forward(self.on_line(is_error, line)),
            Received::Quiet => DrainStep::PollExit,
            Received::Closed => DrainStep::AwaitExit,
        }
    }

    /// The worker exited, and both of its streams were drained. On failure
    /// the run ends: the final error event and the error are returned.
    pub fn on_exit(&mut self, success: bool, status: &str) -> (r: Option<(ProgressEvent, RunError)>)
        requires
            old(self)@.1.phase is Running,
        ensures
            final(self)@ == (old(self)@.0, spec_after_exit(old(self)@.1, success)),
            r is None <==> success,
            r matches Some((e, err)) ==> {
                &&& e.run_id@ == old(self)@.0
                &&& body_of(e) == spec_exit_event(old(self)@.1, status@)
                &&& err.kind == RunErrorKind::WorkerExitedNonZero
                &&& err.message@ == e.message@
            },
    {
        if success {
            self.state = RunState { stage: self.state.stage, phase: RunPhase::Exited };
            None
        } else {
            let msg = error_text(RunErrorKind::WorkerExitedNonZero, status);
            let e = self.event(self.state.stage, msg.clone(), true);
            self.state = RunState {
                stage: self.state.stage,
                phase: RunPhase::Failed(RunErrorKind::WorkerExitedNonZero),
            };
            Some((e, RunError { kind: RunErrorKind::WorkerExitedNonZero, message: msg }))
        }
    }

    /// The newest file of the final directory, if any, after a successful
    /// exit. Ends the run: with the "Done" event at stage 4 and the result,
    /// or with an error event and `NoOutputProduced`.
    pub fn on_output(&mut self, latest: Option<String>, final_dir: &str) -> (r: Result<
        (ProgressEvent, ModifyPhotoResult),
        (ProgressEvent, RunError),
    >)
        requires
            old(self)@.1.phase is Exited,
        ensures
            final(self)@ == (old(self)@.0, spec_after_output(old(self)@.1, latest is Some)),
            r is Ok <==> latest is Some,
            r matches Ok((e, res)) ==> {
                &&& e.run_id@ == old(self)@.0
                &&& body_of(e) == spec_output_event(old(self)@.1, true, final_dir@)
                &&& res.output_path@ == latest->0@
            },
            r matches Err((e, err)) ==> {
                &&& e.run_id@ == old(self)@.0
                &&& body_of(e) == spec_output_event(old(self)@.1, false, final_dir@)
                &&& err.kind == RunErrorKind::NoOutputProduced
                &&& err.message@ == e.message@
            },
    {
        match latest {
            Some(path) => {
                self.state = RunState { stage: Some(4), phase: RunPhase::Succeeded };
                let e = self.event(Some(4), String::from_str("Done"), false);
                Ok((e, ModifyPhotoResult { output_path: path }))
            },
            None => {
                let msg = error_text(RunErrorKind::NoOutputProduced, final_dir);
                let e = self.event(self.state.stage, msg.clone(), true);
                self.state = RunState {
                    stage: self.state.stage,
                    phase: RunPhase::Failed(RunErrorKind::NoOutputProduced),
                };
                Err((e, RunError { kind: RunErrorKind::NoOutputProduced, message: msg }))
            },
        }
    }

    /// Ends a run that has not ended yet with a failure of the given kind:
    /// the error event, at the last known stage, and the error.
    pub fn fail(&mut self, kind: RunErrorKind, detail: &str) -> (r: (ProgressEvent, RunError))
        requires
            is_live(old(self)@.1.phase),
        ensures
            final(self)@ == (old(self)@.0, spec_after_failure(old(self)@.1, kind)),
            r.0.run_id@ == old(self)@.0,
            body_of(r.0) == spec_failure_event(old(self)@.1, kind, detail@),
            r.1.kind == kind,
            r.1.message@ == r.0.message@,
    {
        let msg = error_text(kind, detail);
        let e = self.event(self.state.stage, msg.clone(), true);
        self.state = RunState { stage: self.state.stage, phase: RunPhase::Failed(kind) };
        (e, RunError { kind, message: msg })
    }
}

/// Draining lines keeps the phase, and the stage is the stage fold of
/// those lines.
pub proof fn lemma_after_lines(st: RunState, lines: Seq<Seq<char>>)
    ensures
        spec_after_lines(st, lines).phase == st.phase,
        spec_after_lines(st, lines).stage == spec_stage_after(st.stage, lines),
    decreases lines.len(),
{
    if lines.len() > 0 {
        lemma_after_lines(st, lines.drop_last());
    }
}

/// The state of a run once its worker is spawned and `lines` are drained.
pub open spec fn spec_drained(lines: Seq<Seq<char>>) -> RunState {
    spec_after_lines(spec_after_spawn(spec_start_state()), lines)
}

/// A run whose worker exits successfully and leaves a file behind ends in
/// success, at stage 4, and its last event is the "Done" event at stage 4.
pub proof fn lemma_clean_exit_with_output_succeeds(lines: Seq<Seq<char>>, final_dir: Seq<char>)
    ensures
        spec_drained(lines).phase is Running,
        spec_after_exit(spec_drained(lines), true).phase is Exited,
        spec_after_output(spec_after_exit(spec_drained(lines), true), true) == (RunState {
            stage: Some(4u8),
            phase: RunPhase::Succeeded,
        }),
        spec_output_event(spec_after_exit(spec_drained(lines), true), true, final_dir) == (
            Some(4u8),
            "Done"@,
            false,
        ),
{
    lemma_after_lines(spec_after_spawn(spec_start_state()), lines);
}

/// A run whose worker exits with a failure status ends failed with
/// `WorkerExitedNonZero`, after an error-flagged event at the last known
/// stage; it never reaches the phase in which a result is produced.
pub proof fn lemma_failed_exit_fails(lines: Seq<Seq<char>>, status: Seq<char>)
    ensures
        spec_after_exit(spec_drained(lines), false).phase == RunPhase::Failed(
            RunErrorKind::WorkerExitedNonZero,
        ),
        !is_live(spec_after_exit(spec_drained(lines), false).phase),
        spec_exit_event(spec_drained(lines), status).2,
        spec_exit_event(spec_drained(lines), status).0 == spec_stage_after(Some(0u8), lines),
{
    lemma_after_lines(spec_after_spawn(spec_start_state()), lines);
}

/// A run whose worker exits successfully but leaves the final directory
/// empty ends failed with `NoOutputProduced`, after an error-flagged event.
pub proof fn lemma_clean_exit_without_output_fails(lines: Seq<Seq<char>>, final_dir: Seq<char>)
    ensures
        spec_after_output(spec_after_exit(spec_drained(lines), true), false).phase
            == RunPhase::Failed(RunErrorKind::NoOutputProduced),
        spec_output_event(spec_after_exit(spec_drained(lines), true), false, final_dir).2,
{
    lemma_after_lines(spec_after_spawn(spec_start_state()), lines);
}

/// Every event that a machine returns carries that machine's identifier
/// (each method's `ensures` says so), so an event of one run is never
/// taken for an event of a run with another identifier.
pub proof fn lemma_events_stay_with_their_run(a: RunMachine, b: RunMachine, e: ProgressEvent)
    requires
        a@.0 != b@.0,
        e.run_id@ == a@.0,
    ensures
        e.run_id@ != b@.0,
{
}

} // verus!
