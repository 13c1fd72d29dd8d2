//! The host side of the resident script runner: the scripts it preloads, the
//! gate that starts one run at a time, and the lines it reads from the runner.

use crate::reaction::{run_id_for, RunState, RunStatus, MAX_LINE_BYTES};
use crate::text::decimal;
use vstd::prelude::*;
use vstd::string::*;
use vstd::utf8::{decode_utf8, valid_utf8};

verus! {

/// The scripts the runner preloads, each once, numbered in the order they were
/// first configured.
pub struct ScriptRegistry {
    paths: Vec<String>,
}

impl ScriptRegistry {
    /// The registered paths, in the order of their numbers.
    pub closed spec fn view(&self) -> Seq<Seq<char>> {
        self.paths@.map_values(|s: String| s@)
    }

    /// No path is registered twice, and every number fits in `u32`.
    pub open spec fn wf(&self) -> bool {
        &&& forall|i: int, j: int|
            0 <= i < j < self.view().len() ==> #[trigger] self.view()[i] != #[trigger] self.view()[j]
        &&& self.view().len() <= u32::MAX as int + 1
    }

    /// A registry with no script.
    pub fn new() -> (r: Self)
        ensures
            r.wf(),
            r.view() == Seq::<Seq<char>>::empty(),
    {
        let r = ScriptRegistry { paths: Vec::new() };
        assert(r.view() =~= Seq::<Seq<char>>::empty());
        r
    }

    /// The number of registered scripts.
    pub fn len(&self) -> (n: usize)
        ensures
            n == self.view().len(),
    {
        self.paths.len()
    }

    /// The registered path with number `id`.
    pub fn path(&self, id: usize) -> (p: &String)
        requires
            id < self.view().len(),
        ensures
            p@ == self.view()[id as int],
    {
        &self.paths[id]
    }

    /// The number of a registered path, or `None` for a path never registered.
    pub fn id_of(&self, path: &String) -> (r: Option<u32>)
        requires
            self.wf(),
        ensures
            r is None <==> !self.view().contains(path@),
            r matches Some(id) ==> id < self.view().len() && self.view()[id as int] == path@,
    {
        let n = self.paths.len();
        let mut i: usize = 0;
        while i < n
            invariant
                n == self.view().len(),
                self.view().len() == self.paths@.len(),
                self.wf(),
                i <= n,
                forall|k: int| 0 <= k < i ==> self.view()[k] != path@,
            decreases n - i,
        {
            assert(self.view()[i as int] == self.paths@[i as int]@);
            if self.paths[i] == *path {
                return Some(i as u32);
            }
            i = i + 1;
        }
        proof {
            if self.view().contains(path@) {
                let k = choose|k: int| 0 <= k < self.view().len() && self.view()[k] == path@;
                assert(self.view()[k] != path@);
            }
        }
        None
    }

    /// Registers a script path and gives its number: the number it already has, or
    /// the next one; an error when the next number does not fit in `u32`.
    pub fn register(&mut self, path: String) -> (r: Result<u32, String>)
        requires
            old(self).wf(),
        ensures
            final(self).wf(),
            old(self).view().contains(path@) ==> final(self).view() == old(self).view() && (
            r matches Ok(id) && old(self).view()[id as int] == path@),
            !old(self).view().contains(path@) && old(self).view().len() <= u32::MAX ==> r == Ok::<
                u32,
                String,
            >(old(self).view().len() as u32) && final(self).view() == old(self).view().push(
                path@,
            ),
            !old(self).view().contains(path@) && old(self).view().len() > u32::MAX ==> final(self).view() == old(self).view() && (r matches Err(e) && e@
                == "The number of configured Reaction scripts exceeds the supported range"@),
    {
        let n = self.paths.len();
        let mut i: usize = 0;
        while i < n
            invariant
                n == old(self).view().len(),
                *self == *old(self),
                self.wf(),
                self.view().len() == self.paths@.len(),
                i <= n,
                forall|k: int| 0 <= k < i ==> self.view()[k] != path@,
            decreases n - i,
        {
            assert(self.view()[i as int] == self.paths@[i as int]@);
            if self.paths[i] == path {
                proof {
                    assert(self.view().contains(path@));
                }
                return Ok(i as u32);
            }
            i = i + 1;
        }
        proof {
            if self.view().contains(path@) {
                let k = choose|k: int| 0 <= k < self.view().len() && self.view()[k] == path@;
                assert(self.view()[k] != path@);
            }
        }
        if n > u32::MAX as usize {
            return Err(
                String::from_str("The number of configured Reaction scripts exceeds the supported range"),
            );
        }
        let ghost before = self.view();
        self.paths.push(path);
        proof {
            assert(self.view() =~= before.push(path@));
        }
        Ok(n as u32)
    }
}

/// The host's handle on the resident runner: the scripts it preloaded, how many
/// runs it started, and whether the serving thread and its command channel are
/// still there. The status of the runs is shared with the serving thread, which
/// updates it too; it is handed to the operations that read or change it.
pub struct ReactionRunner {
    pub scripts: ScriptRegistry,
    pub sequence: u64,
    pub events_open: bool,
    pub worker_running: bool,
}

/// A copy of a run state.
fn copy_state(s: &RunState) -> (r: RunState)
    ensures
        r == *s,
{
    match s {
        RunState::Idle => RunState::Idle,
        RunState::Running => RunState::Running,
        RunState::CleaningUp => RunState::CleaningUp,
        RunState::Completed => RunState::Completed,
        RunState::Failed(e) => RunState::Failed(e.clone()),
    }
}

impl RunStatus {
    /// A copy of the status, to read it outside the lock that guards it.
    pub fn snapshot(&self) -> (s: RunStatus)
        ensures
            s == *self,
    {
        let run_id = match &self.run_id {
            Some(id) => Some(id.clone()),
            None => None,
        };
        RunStatus { run_id, state: copy_state(&self.state) }
    }
}

/// Why a trigger is refused: a run in progress or being reclaimed, a script that
/// did not resolve, a script not preloaded, or no open command channel; `None`
/// when the run starts.
pub open spec fn spec_start_refusal(
    runner: ReactionRunner,
    status: RunStatus,
    resolved: Result<String, String>,
) -> Option<Seq<char>> {
    if status.spec_is_busy() {
        Some("A TS script is already running or cleaning up, this trigger is rejected"@)
    } else {
        match resolved {
            Err(e) => Some(e@),
            Ok(p) => if !runner.scripts.view().contains(p@) {
                Some("The script was not preloaded by the resident Bun: "@ + p@)
            } else if !runner.events_open {
                Some("The current configuration has no runnable Reaction scripts"@)
            } else {
                None
            },
        }
    }
}

impl ReactionRunner {
    /// The runner once its serving thread reported how the start went: ready
    /// (`Some(Ok)`), failed with a message, or silent past the startup timeout
    /// (`None`).
    pub fn new(scripts: ScriptRegistry, startup: Option<Result<(), String>>) -> (r: Result<
        Self,
        String,
    >)
        ensures
            startup matches Some(Ok(())) ==> (r matches Ok(x) && x.scripts == scripts
                && x.sequence == 0 && x.events_open && x.worker_running),
            startup matches Some(Err(e)) ==> (r matches Err(m) && m@ == e@),
            startup is None ==> (r matches Err(m) && m@
                == "Waiting for resident Bun initialization timed out"@),
    {
        match startup {
            Some(Ok(())) => Ok(
                ReactionRunner { scripts, sequence: 0, events_open: true, worker_running: true },
            ),
            Some(Err(e)) => Err(e),
            None => Err(String::from_str("Waiting for resident Bun initialization timed out")),
        }
    }

    /// Whether the resident Bun is started at all: only when at least one script
    /// is configured.
    pub fn starts_bun(scripts: &ScriptRegistry) -> (b: bool)
        ensures
            b == (scripts.view().len() > 0),
    {
        scripts.len() > 0
    }

    /// The runner of a configuration without scripts: no Bun is started, so there
    /// is no serving thread and no command channel, and every trigger is refused.
    pub fn without_bun(scripts: ScriptRegistry) -> (r: Self)
        ensures
            r.scripts == scripts,
            r.sequence == 0,
            !r.events_open,
            !r.worker_running,
    {
        ReactionRunner { scripts, sequence: 0, events_open: false, worker_running: false }
    }

    /// Whether a trigger for the resolved script would start a run (see
    /// `spec_start_refusal`).
    pub fn would_start(&self, status: &RunStatus, resolved: &Result<String, String>) -> (b: bool)
        requires
            self.scripts.wf(),
        ensures
            b == (spec_start_refusal(*self, *status, *resolved) is None),
    {
        if status.is_busy() {
            return false;
        }
        match resolved {
            Err(_) => false,
            Ok(p) => {
                match self.scripts.id_of(p) {
                    Some(_) => self.events_open,
                    None => false,
                }
            },
        }
    }

    /// Whether a cancel command is to be sent: only while the command channel is
    /// open.
    pub fn cancel(&self) -> (send: bool)
        ensures
            send == self.events_open,
    {
        self.events_open
    }

    /// Takes notice of a serving thread that has ended: it is joined, the command
    /// channel is closed, and a thread that ended by panicking fails the status.
    pub fn poll(&mut self, status: &mut RunStatus, worker_finished: bool, join_ok: bool)
        ensures
            final(self).scripts == old(self).scripts,
            final(self).sequence == old(self).sequence,
            final(status).run_id == old(status).run_id,
            !(old(self).worker_running && worker_finished) ==> *final(self) == *old(self)
                && *final(status) == *old(status),
            old(self).worker_running && worker_finished ==> !final(self).worker_running
                && !final(self).events_open,
            old(self).worker_running && worker_finished && join_ok ==> *final(status) == *old(
                status),
            old(self).worker_running && worker_finished && !join_ok ==> (final(status).state matches RunState::Failed(e) && e@
                == "Resident script management thread exited unexpectedly"@),
    {
        if self.worker_running && worker_finished {
            self.worker_running = false;
            if !join_ok {
                status.state = RunState::Failed(
                    String::from_str("Resident script management thread exited unexpectedly"),
                );
            }
            self.events_open = false;
        }
    }

    /// Starts a run of a script, given where the script resolved to: refused while
    /// busy, for a script that did not resolve or was not preloaded, or when no
    /// command channel is open. Otherwise the run gets the next sequence number and
    /// its id, the status becomes running, and the run id and script number are
    /// handed back for the run command.
    pub fn start(
        &mut self,
        status: &mut RunStatus,
        process_id: u32,
        resolved: Result<String, String>,
    ) -> (r: Result<(String, u32), String>)
        requires
            old(self).scripts.wf(),
            spec_start_refusal(*old(self), *old(status), resolved) is None ==> old(self).sequence
                < u64::MAX,
        ensures
            final(self).scripts == old(self).scripts,
            final(self).events_open == old(self).events_open,
            final(self).worker_running == old(self).worker_running,
            match spec_start_refusal(*old(self), *old(status), resolved) {
                Some(m) => *final(self) == *old(self) && *final(status) == *old(status) && (
                r matches Err(e) && e@ == m),
                None => match (resolved, r) {
                    (Ok(p), Ok((id, n))) => {
                        &&& old(self).scripts.view()[n as int] == p@
                        &&& final(self).sequence == old(self).sequence + 1
                        &&& id@ == decimal(process_id as nat) + "-"@ + decimal(
                            final(self).sequence as nat,
                        )
                        &&& final(status).run_id matches Some(s) && s@ == id@
                        &&& final(status).state is Running
                    },
                    _ => false,
                },
            },
    {
        if status.is_busy() {
            return Err(
                String::from_str(
                    "A TS script is already running or cleaning up, this trigger is rejected",
                ),
            );
        }
        let path = match resolved {
            Ok(p) => p,
            Err(e) => return Err(e),
        };
        let script_id = match self.scripts.id_of(&path) {
            Some(id) => id,
            None => {
                let mut m = String::from_str("The script was not preloaded by the resident Bun: ");
                m.append(path.as_str());
                return Err(m);
            },
        };
        if !self.events_open {
            return Err(String::from_str("The current configuration has no runnable Reaction scripts"));
        }
        self.sequence = self.sequence + 1;
        let run_id = run_id_for(process_id, self.sequence);
        *status = RunStatus { run_id: Some(run_id.clone()), state: RunState::Running };
        Ok((run_id, script_id))
    }
}

/// The run command could not be handed to the serving thread: the status fails
/// with the message that is also returned.
pub fn trigger_failed(status: &mut RunStatus, error: &str) -> (m: String)
    ensures
        m@ == "Unable to trigger resident Bun: "@ + error@,
        final(status).state matches RunState::Failed(f) && f@ == m@,
        final(status).run_id == old(status).run_id,
{
    let mut m = String::from_str("Unable to trigger resident Bun: ");
    m.append(error);
    status.state = RunState::Failed(m.clone());
    m
}

/// The verdict on a script's file extension: `.ts` and `.mts` are runnable.
pub open spec fn spec_check_script_extension(extension: Option<Seq<char>>, display: Seq<char>) -> Result<
    (),
    Seq<char>,
> {
    match extension {
        Some(e) if e == "ts"@ || e == "mts"@ => Ok(()),
        _ => Err("The script must be a .ts or .mts file: "@ + display),
    }
}

/// Checks a script's file extension before the script is looked up on disk.
pub fn check_script_extension(extension: Option<&str>, display: &str) -> (r: Result<(), String>)
    ensures
        match spec_check_script_extension(
            match extension {
                Some(e) => Some(e@),
                None => None,
            },
            display@,
        ) {
            Ok(()) => r is Ok,
            Err(m) => r matches Err(e) && e@ == m,
        },
{
    if let Some(e) = extension {
        let chars = crate::text::chars_of(e);
        if crate::text::chars_eq_str(&chars, "ts") || crate::text::chars_eq_str(&chars, "mts") {
            return Ok(());
        }
    }
    let mut m = String::from_str("The script must be a .ts or .mts file: ");
    m.append(display);
    Err(m)
}

/// `String::from_utf8`: the text whose UTF-8 encoding is `bytes`, or `None` when
/// `bytes` is not valid UTF-8. Claimed, as the method's documentation states:
/// it succeeds exactly on valid UTF-8 (vstd's `valid_utf8`), and the text is the
/// decoding of the bytes (vstd's `decode_utf8`).
#[verifier::external_body]
fn text_from_utf8(bytes: Vec<u8>) -> (r: Option<String>)
    ensures
        r is Some <==> valid_utf8(bytes@),
        r matches Some(s) ==> s@ == decode_utf8(bytes@),
{
    String::from_utf8(bytes).ok()
}

/// What one read of a runner output stream yields.
pub enum OutputRead {
    /// The stream ended.
    Closed,
    /// A line, with its line break.
    Line(String),
    /// The stream cannot be read on; the serving loop stops with this error.
    Error(String),
}

/// What a read of at most `MAX_LINE_BYTES + 1` bytes up to a line break yields:
/// the end of the stream for no bytes, an error for a line too long or not
/// UTF-8 or a failed read, and the line otherwise.
pub fn classify_output(read: Result<Vec<u8>, String>) -> (r: OutputRead)
    ensures
        match read {
            Err(e) => r matches OutputRead::Error(m) && m@ == "Failed to read script output: "@ + e@,
            Ok(b) => if b@.len() == 0 {
                r is Closed
            } else if b@.len() > MAX_LINE_BYTES {
                r matches OutputRead::Error(m) && m@ == "Script output line exceeds 16 KiB"@
            } else if !valid_utf8(b@) {
                r matches OutputRead::Error(m) && m@ == "Script output is not valid UTF-8"@
            } else {
                r matches OutputRead::Line(t) && t@ == decode_utf8(b@)
            },
        },
{
    match read {
        Err(e) => {
            let mut m = String::from_str("Failed to read script output: ");
            m.append(e.as_str());
            OutputRead::Error(m)
        },
        Ok(bytes) => {
            if bytes.len() == 0 {
                OutputRead::Closed
            } else if bytes.len() > MAX_LINE_BYTES {
                OutputRead::Error(String::from_str("Script output line exceeds 16 KiB"))
            } else {
                match text_from_utf8(bytes) {
                    Some(text) => OutputRead::Line(text),
                    None => OutputRead::Error(String::from_str("Script output is not valid UTF-8")),
                }
            }
        },
    }
}

/// Law: a configuration without scripts starts no Bun, and its runner refuses
/// every trigger.
pub proof fn law_no_scripts_no_bun(
    scripts: ScriptRegistry,
    status: RunStatus,
    resolved: Result<String, String>,
)
    requires
        scripts.view().len() == 0,
    ensures
        spec_start_refusal(
            ReactionRunner { scripts, sequence: 0, events_open: false, worker_running: false },
            status,
            resolved,
        ) is Some,
{
}

/// Law: one script runs at a time. Once a run has started, and until the serving
/// thread reports it completed or failed, every further trigger is refused with
/// the same message, whatever script it names.
pub proof fn law_one_run_at_a_time(
    runner: ReactionRunner,
    status: RunStatus,
    resolved: Result<String, String>,
)
    requires
        status.state is Running || status.state is CleaningUp,
    ensures
        spec_start_refusal(runner, status, resolved) == Some(
            "A TS script is already running or cleaning up, this trigger is rejected"@,
        ),
{
}

} // verus!
