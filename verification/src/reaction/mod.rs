//! Reactions: scripts run by a resident Bun process when a tip's hotkey fires.

pub mod hotkey;
pub mod runner;
pub mod worker;

use crate::text::{decimal, push_decimal};
use vstd::prelude::*;
use vstd::string::*;

verus! {

/// The longest line a script may print, in bytes.
pub const MAX_LINE_BYTES: usize = 16384;

/// The most a script may print in one run, in bytes.
pub const MAX_OUTPUT_BYTES: usize = 1048576;

/// The longest message `log` accepts, in UTF-16 code units.
pub const MAX_LOG_UTF16_UNITS: u64 = 2000;

/// The longest time a script may run when the configuration sets none.
pub const DEFAULT_TIMEOUT_MS: u64 = 30000;

/// The longest `timeoutMs` the configuration may set.
pub const MAX_TIMEOUT_MS: u64 = 300000;

/// The `reaction` section of the configuration.
#[derive(Clone, Debug)]
pub struct ReactionConfig {
    pub timeout_ms: u64,
}

impl ReactionConfig {
    pub fn default() -> (c: Self)
        ensures
            c.timeout_ms == DEFAULT_TIMEOUT_MS,
    {
        ReactionConfig { timeout_ms: DEFAULT_TIMEOUT_MS }
    }
}

/// The `reaction` section is acceptable when its timeout lies in `1..=300000` ms.
pub open spec fn spec_validate_reaction_config(c: ReactionConfig) -> Result<(), Seq<char>> {
    if 1 <= c.timeout_ms && c.timeout_ms <= MAX_TIMEOUT_MS {
        Ok(())
    } else {
        Err("reaction.timeoutMs must be in the range 1..=300000"@)
    }
}

/// Checks the `reaction` section of the configuration.
pub fn validate_reaction_config(config: &ReactionConfig) -> (r: Result<(), String>)
    ensures
        match spec_validate_reaction_config(*config) {
            Ok(()) => r is Ok,
            Err(m) => r matches Err(e) && e@ == m,
        },
{
    if 1 <= config.timeout_ms && config.timeout_ms <= MAX_TIMEOUT_MS {
        Ok(())
    } else {
        Err(String::from_str("reaction.timeoutMs must be in the range 1..=300000"))
    }
}

/// Where a script run stands.
#[derive(Clone, Debug, PartialEq, Eq)]
pub enum RunState {
    Idle,
    Running,
    CleaningUp,
    Completed,
    Failed(String),
}

/// The run in progress or last finished, and its state.
#[derive(Clone, Debug)]
pub struct RunStatus {
    pub run_id: Option<String>,
    pub state: RunState,
}

impl RunStatus {
    /// A runner that has not run anything yet.
    pub fn idle() -> (s: Self)
        ensures
            s.run_id is None,
            s.state is Idle,
    {
        RunStatus { run_id: None, state: RunState::Idle }
    }

    /// A script runs or its process is being reclaimed, so no new run may start.
    pub open spec fn spec_is_busy(&self) -> bool {
        self.state is Running || self.state is CleaningUp
    }

    pub fn is_busy(&self) -> (b: bool)
        ensures
            b == self.spec_is_busy(),
    {
        match self.state {
            RunState::Running | RunState::CleaningUp => true,
            _ => false,
        }
    }
}

/// The UTF-16 code units a text takes: two for characters beyond U+FFFF, one for
/// the others.
pub open spec fn utf16_len(s: Seq<char>) -> nat
    decreases s.len(),
{
    if s.len() == 0 {
        0
    } else {
        utf16_len(s.drop_last()) + if (s.last() as u32) > 0xFFFF { 2nat } else { 1nat }
    }
}

proof fn lemma_utf16_len_bound(s: Seq<char>)
    ensures
        utf16_len(s) <= 2 * s.len(),
    decreases s.len(),
{
    if s.len() > 0 {
        lemma_utf16_len_bound(s.drop_last());
    }
}

/// The verdict of the SDK's `log` on a message: at most 2000 UTF-16 code units.
pub open spec fn spec_check_log_message(message: Seq<char>) -> Result<(), Seq<char>> {
    if utf16_len(message) > MAX_LOG_UTF16_UNITS {
        Err("log(message) length cannot exceed 2000 UTF-16 code units"@)
    } else {
        Ok(())
    }
}

/// Checks a message handed to the SDK's `log` before the host writes it.
pub fn check_log_message(message: &str) -> (r: Result<(), String>)
    ensures
        match spec_check_log_message(message@) {
            Ok(()) => r is Ok,
            Err(m) => r matches Err(e) && e@ == m,
        },
{
    let n = message.unicode_len();
    let mut units: u128 = 0;
    let mut i: usize = 0;
    while i < n
        invariant
            n == message@.len(),
            i <= n,
            units == utf16_len(message@.subrange(0, i as int)),
            units <= 2 * i,
        decreases n - i,
    {
        let c = message.get_char(i);
        proof {
            let p = message@.subrange(0, i + 1);
            assert(p.drop_last() =~= message@.subrange(0, i as int));
        }
        units = units + if (c as u32) > 0xFFFF { 2 } else { 1 };
        i = i + 1;
    }
    assert(message@.subrange(0, n as int) =~= message@);
    if units > MAX_LOG_UTF16_UNITS as u128 {
        Err(String::from_str("log(message) length cannot exceed 2000 UTF-16 code units"))
    } else {
        Ok(())
    }
}

/// The SDK methods the host offers.
#[derive(Clone, Copy, Debug, PartialEq, Eq, Structural)]
pub enum SdkMethod {
    Log,
}

/// The method a request names, or the message for a method the host lacks.
pub open spec fn spec_sdk_method(name: Seq<char>) -> Result<SdkMethod, Seq<char>> {
    if name == "log"@ {
        Ok(SdkMethod::Log)
    } else {
        Err("Unknown SDK method: "@ + name)
    }
}

/// Finds the SDK method a request names.
pub fn sdk_method(name: &str) -> (r: Result<SdkMethod, String>)
    ensures
        match spec_sdk_method(name@) {
            Ok(m) => r == Ok::<SdkMethod, String>(m),
            Err(msg) => r matches Err(e) && e@ == msg,
        },
{
    let chars = crate::text::chars_of(name);
    if crate::text::chars_eq_str(&chars, "log") {
        Ok(SdkMethod::Log)
    } else {
        let mut s = String::from_str("Unknown SDK method: ");
        s.append(name);
        Err(s)
    }
}

/// The message for SDK arguments that do not decode.
pub fn invalid_arguments_message(method: &str, error: &str) -> (s: String)
    ensures
        s@ == "SDK "@ + method@ + " arguments are invalid: "@ + error@,
{
    let mut s = String::from_str("SDK ");
    s.append(method);
    s.append(" arguments are invalid: ");
    s.append(error);
    s
}

/// The identifier of a run: the host's process id and the run's sequence number.
pub fn run_id_for(process_id: u32, sequence: u64) -> (s: String)
    ensures
        s@ == decimal(process_id as nat) + "-"@ + decimal(sequence as nat),
{
    let mut s = String::new();
    push_decimal(&mut s, process_id as u64);
    s.append("-");
    push_decimal(&mut s, sequence);
    s
}

} // verus!
