//! The decisions of the resident script runner: what each message from the runner
//! process or command from the host does to the session, the run status and the
//! loop that serves them.

use crate::reaction::{MAX_OUTPUT_BYTES, RunState};
use crate::text::{decimal, push_decimal};
use vstd::utf8::encode_utf8;
use vstd::prelude::*;
use vstd::string::*;

verus! {

/// `serde_json::Value`, the arguments of an SDK request, carried to the host's
/// method bindings without being read.
#[verifier::external_type_specification]
#[verifier::external_body]
pub struct ExJsonValue(serde_json::Value);

/// The largest request id a script may use (`Number.MAX_SAFE_INTEGER`).
pub const MAX_SAFE_REQUEST_ID: u64 = 9_007_199_254_740_991;

/// A call of a host method by a script.
pub struct SdkRequest {
    pub id: u64,
    pub method: String,
    pub args: serde_json::Value,
}

/// A lifecycle or SDK message the runner process prints on its stdout.
pub enum RunnerMessage {
    Ready { version: u32, script_count: usize },
    StartupFailed { version: u32, error: String },
    Completed { version: u32, run_id: String },
    Failed { version: u32, run_id: String, error: String },
    Request { version: u32, run_id: String, request: SdkRequest },
}

/// What reaches the serving loop: a command from the host, a line of the runner's
/// output, or the state of the channels.
pub enum WorkerEvent {
    Run { run_id: String, script_id: u32 },
    Cancel,
    Shutdown,
    /// A line the runner printed on its stderr.
    Diagnostic { text: String },
    /// A line the runner printed on its stdout, with the message it decodes to or
    /// the decoder's error.
    Output { text: String, message: Result<RunnerMessage, String> },
    Closed,
    Error(String),
    /// Nothing arrived within the poll interval.
    Timeout,
    /// Every sender of the event channel is gone.
    Disconnected,
}

/// What the host does for a step, besides updating the status.
pub enum WorkerAction {
    Nothing,
    /// Write a diagnostic line of the runner to the host's stderr.
    PrintDiagnostic { run_id: String, text: String },
    /// Take the session-wide script slot and, when it is free, send the run command
    /// and report `run_started`.
    AcquireSlot { run_id: String, script_id: u32 },
    /// Tell the host that started the runner that it is ready.
    SignalReady,
    /// Serve an SDK request and send the response.
    Dispatch { run_id: String, request: SdkRequest },
}

/// Whether the serving loop goes on.
pub enum Flow {
    Continue,
    /// Leave the loop with this result and reclaim the runner.
    Break(Result<(), String>),
    /// Give up at once with this error.
    Abort(String),
}

/// The outcome of one step.
pub struct WorkerStep {
    pub status: Option<RunState>,
    pub action: WorkerAction,
    pub flow: Flow,
}

/// The script that is running.
pub struct ActiveRun {
    pub run_id: String,
    /// When the run started, in nanoseconds since the session started.
    pub started_at: u128,
    pub next_request_id: u64,
}

/// The serving loop's state.
pub struct WorkerSession {
    pub script_count: usize,
    pub timeout_ms: u64,
    pub active: Option<ActiveRun>,
    pub ready: bool,
    pub output_bytes: usize,
    pub open_output_streams: usize,
}

/// The length of a text in UTF-8 bytes, as `str::len` reports it.
pub open spec fn byte_len(s: Seq<char>) -> usize {
    encode_utf8(s).len() as usize
}

/// A step that only updates nothing and goes on.
pub open spec fn is_quiet(step: WorkerStep) -> bool {
    step.status is None && step.action is Nothing && step.flow is Continue
}

/// A step that leaves the loop with an error message.
pub open spec fn breaks_with(step: WorkerStep, msg: Seq<char>) -> bool {
    &&& step.status is None
    &&& step.action is Nothing
    &&& step.flow matches Flow::Break(Err(e)) && e@ == msg
}

/// A step that gives up at once with an error message.
pub open spec fn aborts_with(step: WorkerStep, msg: Seq<char>) -> bool {
    &&& step.status is None
    &&& step.action is Nothing
    &&& step.flow matches Flow::Abort(e) && e@ == msg
}

fn quiet() -> (s: WorkerStep)
    ensures
        is_quiet(s),
{
    WorkerStep { status: None, action: WorkerAction::Nothing, flow: Flow::Continue }
}

fn break_with(msg: &str) -> (s: WorkerStep)
    ensures
        breaks_with(s, msg@),
{
    WorkerStep {
        status: None,
        action: WorkerAction::Nothing,
        flow: Flow::Break(Err(String::from_str(msg))),
    }
}

fn abort_with(msg: String) -> (s: WorkerStep)
    ensures
        aborts_with(s, msg@),
{
    WorkerStep { status: None, action: WorkerAction::Nothing, flow: Flow::Abort(msg) }
}

/// The session's own state, apart from the run in progress.
pub open spec fn same_counters(a: &WorkerSession, b: &WorkerSession) -> bool {
    &&& a.script_count == b.script_count
    &&& a.timeout_ms == b.timeout_ms
    &&& a.ready == b.ready
    &&& a.output_bytes == b.output_bytes
    &&& a.open_output_streams == b.open_output_streams
}

/// The run in progress is the same run, with the same progress.
pub open spec fn same_active(a: Option<ActiveRun>, b: Option<ActiveRun>) -> bool {
    match (a, b) {
        (None, None) => true,
        (Some(x), Some(y)) => x.run_id@ == y.run_id@ && x.started_at == y.started_at
            && x.next_request_id == y.next_request_id,
        _ => false,
    }
}

impl WorkerSession {
    /// The session's invariant: the output of a run stays within its bound.
    pub open spec fn wf(&self) -> bool {
        self.output_bytes <= MAX_OUTPUT_BYTES
    }

    /// A session before the runner reported ready, reading both output streams.
    pub fn new(script_count: usize, timeout_ms: u64) -> (s: Self)
        ensures
            s.script_count == script_count,
            s.timeout_ms == timeout_ms,
            s.active is None,
            !s.ready,
            s.output_bytes == 0,
            s.open_output_streams == 2,
            s.wf(),
    {
        WorkerSession {
            script_count,
            timeout_ms,
            active: None,
            ready: false,
            output_bytes: 0,
            open_output_streams: 2,
        }
    }

    /// The run in progress has used up its time at `now`.
    pub open spec fn spec_timed_out(&self, now: int) -> bool {
        self.active matches Some(run) && now - run.started_at >= self.timeout_ms * 1_000_000
    }

    /// The error that ends the loop when the run in progress used up its time.
    pub fn timed_out(&self, now: u128) -> (r: Option<String>)
        ensures
            self.spec_timed_out(now as int) ==> (r matches Some(m) && m@ == "Script execution timed out ("@
                + decimal(self.timeout_ms as nat) + " ms)"@),
            !self.spec_timed_out(now as int) ==> r is None,
    {
        match &self.active {
            None => None,
            Some(run) => {
                let limit: u128 = (self.timeout_ms as u128) * 1_000_000;
                if now >= run.started_at && now - run.started_at >= limit {
                    let mut m = String::from_str("Script execution timed out (");
                    push_decimal(&mut m, self.timeout_ms);
                    m.append(" ms)");
                    Some(m)
                } else {
                    None
                }
            },
        }
    }

    /// Records that the run command was sent: the run starts at `now` with a fresh
    /// output budget.
    pub fn run_started(&mut self, run_id: String, now: u128)
        ensures
            (final(self).active matches Some(run) && run.run_id@ == run_id@ && run.started_at == now
                && run.next_request_id == 1),
            final(self).output_bytes == 0,
            final(self).ready == old(self).ready,
            final(self).script_count == old(self).script_count,
            final(self).timeout_ms == old(self).timeout_ms,
            final(self).open_output_streams == old(self).open_output_streams,
            final(self).wf(),
    {
        self.output_bytes = 0;
        self.active = Some(ActiveRun { run_id, started_at: now, next_request_id: 1 });
    }

    /// The status to publish when the loop has ended: a run cut off is cleaned up.
    pub fn final_status(&self) -> (s: Option<RunState>)
        ensures
            self.active is Some ==> s == Some(RunState::CleaningUp),
            self.active is None ==> s is None,
    {
        if self.active.is_some() {
            Some(RunState::CleaningUp)
        } else {
            None
        }
    }

    /// One step of the serving loop for `event` received at `now`.
    pub fn handle(&mut self, event: WorkerEvent, now: u128) -> (step: WorkerStep)
        requires
            old(self).wf(),
        ensures
            final(self).wf(),
            final(self).script_count == old(self).script_count,
            final(self).timeout_ms == old(self).timeout_ms,
            match event {
                WorkerEvent::Shutdown => same_counters(old(self), final(self)) && same_active(
                    old(self).active,
                    final(self).active,
                ) && step.status is None && step.action is Nothing && (step.flow matches Flow::Break(
                    Ok(()),
                )),
                WorkerEvent::Cancel => same_counters(old(self), final(self)) && same_active(
                    old(self).active,
                    final(self).active,
                ) && if old(self).active is Some {
                    &&& step.status == Some(RunState::CleaningUp)
                    &&& step.action is Nothing
                    &&& step.flow matches Flow::Break(Err(e)) && e@
                        == "Script has been cancelled; resident Bun has been reclaimed"@
                } else {
                    is_quiet(step)
                },
                WorkerEvent::Run { run_id, script_id } => same_counters(old(self), final(self))
                    && same_active(old(self).active, final(self).active) && if !old(self).ready
                    || old(self).active is Some {
                    &&& step.status matches Some(RunState::Failed(e)) && e@
                        == "Resident Bun is not ready or a script is already running"@
                    &&& step.action is Nothing
                    &&& step.flow is Continue
                } else {
                    &&& step.status is None
                    &&& step.action matches WorkerAction::AcquireSlot { run_id: r, script_id: s } && r@
                        == run_id@ && s == script_id
                    &&& step.flow is Continue
                },
                WorkerEvent::Error(e) => same_counters(old(self), final(self)) && same_active(
                    old(self).active,
                    final(self).active,
                ) && breaks_with(step, e@),
                WorkerEvent::Closed => {
                    &&& final(self).open_output_streams == if old(self).open_output_streams > 0 {
                        (old(self).open_output_streams - 1) as usize
                    } else {
                        0
                    }
                    &&& final(self).ready == old(self).ready
                    &&& final(self).output_bytes == old(self).output_bytes
                    &&& same_active(old(self).active, final(self).active)
                    &&& if final(self).open_output_streams == 0 {
                        breaks_with(step, "Resident Bun output channel has been disconnected"@)
                    } else {
                        is_quiet(step)
                    }
                },
                WorkerEvent::Timeout => same_counters(old(self), final(self)) && same_active(
                    old(self).active,
                    final(self).active,
                ) && is_quiet(step),
                WorkerEvent::Disconnected => same_counters(old(self), final(self)) && same_active(
                    old(self).active,
                    final(self).active,
                ) && breaks_with(step, "Resident Bun management channel has been disconnected"@),
                WorkerEvent::Diagnostic { text } => if old(self).output_bytes + byte_len(text@)
                    > MAX_OUTPUT_BYTES {
                    same_counters(old(self), final(self)) && same_active(
                        old(self).active,
                        final(self).active,
                    ) && breaks_with(step, "Script cumulative output exceeds 1 MiB"@)
                } else {
                    &&& final(self).output_bytes == old(self).output_bytes + byte_len(text@)
                    &&& final(self).ready == old(self).ready
                    &&& final(self).open_output_streams == old(self).open_output_streams
                    &&& same_active(old(self).active, final(self).active)
                    &&& step.status is None
                    &&& step.flow is Continue
                    &&& step.action matches WorkerAction::PrintDiagnostic { run_id, text: t } && t@
                        == text@ && run_id@ == match old(self).active {
                        Some(run) => run.run_id@,
                        None => "runner"@,
                    }
                },
                WorkerEvent::Output { text, message } => if old(self).output_bytes + byte_len(text@) > MAX_OUTPUT_BYTES {
                    same_counters(old(self), final(self)) && same_active(
                        old(self).active,
                        final(self).active,
                    ) && breaks_with(step, "Script cumulative output exceeds 1 MiB"@)
                } else {
                    spec_output_step(
                        old(self),
                        (old(self).output_bytes + byte_len(text@)) as usize,
                        message,
                        final(self),
                        step,
                    )
                },
            },
    {
        match event {
            WorkerEvent::Shutdown => WorkerStep {
                status: None,
                action: WorkerAction::Nothing,
                flow: Flow::Break(Ok(())),
            },
            WorkerEvent::Cancel => {
                if self.active.is_some() {
                    WorkerStep {
                        status: Some(RunState::CleaningUp),
                        action: WorkerAction::Nothing,
                        flow: Flow::Break(
                            Err(
                                String::from_str(
                                    "Script has been cancelled; resident Bun has been reclaimed",
                                ),
                            ),
                        ),
                    }
                } else {
                    quiet()
                }
            },
            WorkerEvent::Run { run_id, script_id } => {
                if !self.ready || self.active.is_some() {
                    WorkerStep {
                        status: Some(
                            RunState::Failed(
                                String::from_str(
                                    "Resident Bun is not ready or a script is already running",
                                ),
                            ),
                        ),
                        action: WorkerAction::Nothing,
                        flow: Flow::Continue,
                    }
                } else {
                    WorkerStep {
                        status: None,
                        action: WorkerAction::AcquireSlot { run_id, script_id },
                        flow: Flow::Continue,
                    }
                }
            },
            WorkerEvent::Error(e) => WorkerStep {
                status: None,
                action: WorkerAction::Nothing,
                flow: Flow::Break(Err(e)),
            },
            WorkerEvent::Closed => {
                self.open_output_streams = if self.open_output_streams > 0 {
                    self.open_output_streams - 1
                } else {
                    0
                };
                if self.open_output_streams == 0 {
                    break_with("Resident Bun output channel has been disconnected")
                } else {
                    quiet()
                }
            },
            WorkerEvent::Timeout => quiet(),
            WorkerEvent::Disconnected => break_with(
                "Resident Bun management channel has been disconnected",
            ),
            WorkerEvent::Diagnostic { text } => {
                let len = text.as_str().len();
                if len > MAX_OUTPUT_BYTES - self.output_bytes {
                    return break_with("Script cumulative output exceeds 1 MiB");
                }
                self.output_bytes = self.output_bytes + len;
                let run_id = match &self.active {
                    Some(run) => run.run_id.clone(),
                    None => String::from_str("runner"),
                };
                WorkerStep {
                    status: None,
                    action: WorkerAction::PrintDiagnostic { run_id, text },
                    flow: Flow::Continue,
                }
            },
            WorkerEvent::Output { text, message } => {
                let len = text.as_str().len();
                if len > MAX_OUTPUT_BYTES - self.output_bytes {
                    return break_with("Script cumulative output exceeds 1 MiB");
                }
                self.output_bytes = self.output_bytes + len;
                self.handle_message(message)
            },
        }
    }
}

/// The message is a lifecycle or request message of protocol version 1.
pub open spec fn lifecycle_mismatch(old: &WorkerSession, m: RunnerMessage) -> bool {
    match m {
        RunnerMessage::Ready { version, script_count } => !(version == 1 && !old.ready
            && script_count == old.script_count),
        RunnerMessage::StartupFailed { version, error } => !(version == 1 && !old.ready),
        RunnerMessage::Completed { version, run_id } => version != 1,
        RunnerMessage::Failed { version, run_id, error } => version != 1,
        RunnerMessage::Request { version, run_id, request } => version != 1,
    }
}

/// What a decoded stdout line does, once its bytes have been counted
/// (`bytes` is the count that includes them).
pub open spec fn spec_output_step(
    old: &WorkerSession,
    bytes: usize,
    message: Result<RunnerMessage, String>,
    new: &WorkerSession,
    step: WorkerStep,
) -> bool {
    &&& new.script_count == old.script_count
    &&& new.timeout_ms == old.timeout_ms
    &&& new.open_output_streams == old.open_output_streams
    &&& match message {
        Err(e) => new.ready == old.ready && new.output_bytes == bytes && same_active(
            old.active,
            new.active,
        ) && aborts_with(step, "Script stdout protocol error: "@ + e@),
        Ok(m) => if lifecycle_mismatch(old, m) {
            new.ready == old.ready && new.output_bytes == bytes && same_active(old.active, new.active)
                && breaks_with(step, "Resident Bun lifecycle message does not match or is duplicated"@)
        } else {
            match m {
                RunnerMessage::Ready { version, script_count } => {
                    &&& new.ready
                    &&& new.output_bytes == bytes
                    &&& same_active(old.active, new.active)
                    &&& step.status is None
                    &&& step.action is SignalReady
                    &&& step.flow is Continue
                },
                RunnerMessage::StartupFailed { version, error } => new.ready == old.ready
                    && new.output_bytes == bytes && same_active(old.active, new.active) && breaks_with(
                    step,
                    "Resident Bun failed to load script: "@ + error@,
                ),
                RunnerMessage::Request { version, run_id, request } => new.ready == old.ready
                    && new.output_bytes == bytes && match old.active {
                    None => same_active(old.active, new.active) && aborts_with(
                        step,
                        "Idle resident Bun sent an SDK request"@,
                    ),
                    Some(run) => if run.run_id@ != run_id@ || request.id != run.next_request_id
                        || request.id > MAX_SAFE_REQUEST_ID {
                        same_active(old.active, new.active) && breaks_with(
                            step,
                            "SDK request run ID or request ID does not match"@,
                        )
                    } else {
                        &&& new.active matches Some(r) && r.run_id@ == run.run_id@ && r.started_at
                            == run.started_at && r.next_request_id == run.next_request_id + 1
                        &&& step.status is None
                        &&& step.flow is Continue
                        &&& step.action matches WorkerAction::Dispatch { run_id: id, request: q } && id@
                            == run_id@ && q.id == request.id && q.method@ == request.method@
                    },
                },
                RunnerMessage::Completed { version, run_id } => new.ready == old.ready && match old.active {
                    None => new.active is None && new.output_bytes == bytes && aborts_with(
                        step,
                        "Idle resident Bun reported script completion"@,
                    ),
                    Some(run) => new.active is None && if run.run_id@ != run_id@ {
                        new.output_bytes == bytes && breaks_with(
                            step,
                            "Script completion message run ID does not match"@,
                        )
                    } else {
                        &&& new.output_bytes == 0
                        &&& step.status == Some(RunState::Completed)
                        &&& step.action is Nothing
                        &&& step.flow is Continue
                    },
                },
                RunnerMessage::Failed { version, run_id, error } => new.ready == old.ready && match old.active {
                    None => new.active is None && new.output_bytes == bytes && aborts_with(
                        step,
                        "Idle resident Bun reported script failure"@,
                    ),
                    Some(run) => new.active is None && if run.run_id@ != run_id@ {
                        new.output_bytes == bytes && breaks_with(
                            step,
                            "Script failure message run ID does not match"@,
                        )
                    } else {
                        &&& new.output_bytes == 0
                        &&& step.status matches Some(RunState::Failed(e)) && e@ == error@
                        &&& step.action is Nothing
                        &&& step.flow is Continue
                    },
                },
            }
        },
    }
}

impl WorkerSession {
    fn handle_message(&mut self, message: Result<RunnerMessage, String>) -> (step: WorkerStep)
        requires
            old(self).wf(),
        ensures
            final(self).wf(),
            spec_output_step(old(self), old(self).output_bytes, message, final(self), step),
    {
        let message = match message {
            Err(e) => {
                let mut m = String::from_str("Script stdout protocol error: ");
                m.append(e.as_str());
                return abort_with(m);
            },
            Ok(m) => m,
        };
        match message {
            RunnerMessage::Ready { version, script_count } => {
                if version == 1 && !self.ready && script_count == self.script_count {
                    self.ready = true;
                    WorkerStep {
                        status: None,
                        action: WorkerAction::SignalReady,
                        flow: Flow::Continue,
                    }
                } else {
                    break_with("Resident Bun lifecycle message does not match or is duplicated")
                }
            },
            RunnerMessage::StartupFailed { version, error } => {
                if version == 1 && !self.ready {
                    let mut m = String::from_str("Resident Bun failed to load script: ");
                    m.append(error.as_str());
                    WorkerStep { status: None, action: WorkerAction::Nothing, flow: Flow::Break(Err(m)) }
                } else {
                    break_with("Resident Bun lifecycle message does not match or is duplicated")
                }
            },
            RunnerMessage::Request { version, run_id, request } => {
                if version != 1 {
                    return break_with(
                        "Resident Bun lifecycle message does not match or is duplicated",
                    );
                }
                match &mut self.active {
                    None => abort_with(String::from_str("Idle resident Bun sent an SDK request")),
                    Some(run) => {
                        if run.run_id != run_id || request.id != run.next_request_id || request.id
                            > MAX_SAFE_REQUEST_ID {
                            break_with("SDK request run ID or request ID does not match")
                        } else {
                            run.next_request_id = run.next_request_id + 1;
                            WorkerStep {
                                status: None,
                                action: WorkerAction::Dispatch { run_id, request },
                                flow: Flow::Continue,
                            }
                        }
                    },
                }
            },
            RunnerMessage::Completed { version, run_id } => {
                if version != 1 {
                    return break_with(
                        "Resident Bun lifecycle message does not match or is duplicated",
                    );
                }
                let taken = self.active.take();
                match taken {
                    None => abort_with(
                        String::from_str("Idle resident Bun reported script completion"),
                    ),
                    Some(run) => {
                        if run.run_id != run_id {
                            break_with("Script completion message run ID does not match")
                        } else {
                            self.output_bytes = 0;
                            WorkerStep {
                                status: Some(RunState::Completed),
                                action: WorkerAction::Nothing,
                                flow: Flow::Continue,
                            }
                        }
                    },
                }
            },
            RunnerMessage::Failed { version, run_id, error } => {
                if version != 1 {
                    return break_with(
                        "Resident Bun lifecycle message does not match or is duplicated",
                    );
                }
                let taken = self.active.take();
                match taken {
                    None => abort_with(String::from_str("Idle resident Bun reported script failure")),
                    Some(run) => {
                        if run.run_id != run_id {
                            break_with("Script failure message run ID does not match")
                        } else {
                            self.output_bytes = 0;
                            WorkerStep {
                                status: Some(RunState::Failed(error)),
                                action: WorkerAction::Nothing,
                                flow: Flow::Continue,
                            }
                        }
                    },
                }
            },
        }
    }
}


/// Law: when a run completes, the runner stays up and goes back to idle: the run
/// is over, the status says completed, the loop goes on, and the session is ready
/// for the next trigger (a `Run` event on such a session asks for the slot).
pub proof fn law_idle_after_completion(
    old: &WorkerSession,
    bytes: usize,
    version: u32,
    run_id: String,
    new: &WorkerSession,
    step: WorkerStep,
)
    requires
        old.ready,
        old.active matches Some(run) && run.run_id@ == run_id@,
        version == 1,
        spec_output_step(
            old,
            bytes,
            Ok(RunnerMessage::Completed { version, run_id }),
            new,
            step,
        ),
    ensures
        new.ready,
        new.active is None,
        new.output_bytes == 0,
        step.status == Some(RunState::Completed),
        step.flow is Continue,
{
}

/// Law: a script that fails ends only its own run: the status carries the
/// script's error, the loop goes on, and the session is ready for the next
/// trigger.
pub proof fn law_failure_ends_only_the_run(
    old: &WorkerSession,
    bytes: usize,
    version: u32,
    run_id: String,
    error: String,
    new: &WorkerSession,
    step: WorkerStep,
)
    requires
        old.ready,
        old.active matches Some(run) && run.run_id@ == run_id@,
        version == 1,
        spec_output_step(
            old,
            bytes,
            Ok(RunnerMessage::Failed { version, run_id, error }),
            new,
            step,
        ),
    ensures
        new.ready,
        new.active is None,
        step.status matches Some(RunState::Failed(e)) && e@ == error@,
        step.flow is Continue,
{
}

/// Law: SDK calls of a run are served one after another: a request whose id is
/// not the next one expected stops the loop, and a served request moves the
/// expected id on by one.
pub proof fn law_requests_in_order(
    old: &WorkerSession,
    bytes: usize,
    version: u32,
    run_id: String,
    request: SdkRequest,
    new: &WorkerSession,
    step: WorkerStep,
)
    requires
        version == 1,
        old.active matches Some(run) && run.run_id@ == run_id@,
        spec_output_step(
            old,
            bytes,
            Ok(RunnerMessage::Request { version, run_id, request }),
            new,
            step,
        ),
    ensures
        request.id != old.active->0.next_request_id ==> step.flow is Break,
        request.id == old.active->0.next_request_id && request.id <= MAX_SAFE_REQUEST_ID ==> (
        new.active matches Some(r) && r.next_request_id == request.id + 1) && step.flow is Continue,
{
}

} // verus!
