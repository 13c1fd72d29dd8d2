//! Which global hotkey is registered: the decisions of the hotkey thread and of
//! the runner that follows the tip on screen.

use crate::job::hotkey::{same_hotkey, same_optional_hotkey};
use crate::job::{Hotkey, JobConfig, TipReaction};
use crate::sensory::job_manager::ActiveJobState;
use vstd::prelude::*;
use vstd::string::*;

verus! {

/// The thread message that asks for another hotkey.
pub const CHANGE_HOTKEY_MESSAGE: u32 = 0x8000 + 1;

/// The id the registered hotkey carries.
pub const HOTKEY_ID: i32 = 1;

/// Whether two optional hotkeys are both absent or the same key combination.
pub fn same_optional(a: &Option<Hotkey>, b: &Option<Hotkey>) -> (r: bool)
    ensures
        r == same_optional_hotkey(*a, *b),
{
    match (a, b) {
        (None, None) => true,
        (Some(x), Some(y)) => x.same_as(y),
        _ => false,
    }
}

/// A copy of an optional hotkey.
pub fn duplicate_optional(a: &Option<Hotkey>) -> (r: Option<Hotkey>)
    ensures
        same_optional_hotkey(r, *a),
{
    match a {
        None => None,
        Some(h) => Some(h.duplicate()),
    }
}

/// What the hotkey thread reports.
pub enum HotkeyEvent {
    Registered(Option<Hotkey>),
    Triggered(Hotkey),
    RegistrationFailed(String),
}

/// What a change request makes the hotkey thread do.
pub struct HotkeyChange {
    /// Unregister the hotkey registered now.
    pub unregister: bool,
    /// Register this hotkey; `None` to leave none registered.
    pub register: Option<Hotkey>,
}

/// The hotkey thread's state: the hotkey registered with the system, if any.
pub struct HotkeyRegistrar {
    pub registered: Option<Hotkey>,
}

impl HotkeyRegistrar {
    pub fn new() -> (r: Self)
        ensures
            r.registered is None,
    {
        HotkeyRegistrar { registered: None }
    }

    /// A request to register `next` in place of the current hotkey: the current
    /// one is forgotten and unregistered.
    pub fn change(&mut self, next: Option<Hotkey>) -> (c: HotkeyChange)
        ensures
            c.unregister == old(self).registered is Some,
            c.register == next,
            final(self).registered is None,
    {
        let unregister = self.registered.is_some();
        self.registered = None;
        HotkeyChange { unregister, register: next }
    }

    /// The outcome of registering `hotkey`; `error` describes a failure.
    pub fn registration_result(&mut self, hotkey: Hotkey, ok: bool, error: String) -> (e: HotkeyEvent)
        ensures
            ok ==> same_optional_hotkey(final(self).registered, Some(hotkey)) && (e matches HotkeyEvent::Registered(Some(h))
                && same_hotkey(h, hotkey)),
            !ok ==> final(self).registered == old(self).registered && (e matches HotkeyEvent::RegistrationFailed(m)
                && m@ == "Unable to register global hotkey "@ + hotkey.spec_display() + ": "@ + error@),
    {
        if ok {
            self.registered = Some(hotkey.duplicate());
            HotkeyEvent::Registered(Some(hotkey))
        } else {
            let mut m = String::from_str("Unable to register global hotkey ");
            let display = hotkey.display_text();
            m.append(display.as_str());
            m.append(": ");
            m.append(error.as_str());
            HotkeyEvent::RegistrationFailed(m)
        }
    }

    /// A hotkey message with id `id`: the registered hotkey fired.
    pub fn on_hotkey_message(&self, id: i32) -> (e: Option<HotkeyEvent>)
        ensures
            (id == HOTKEY_ID && self.registered is Some) ==> (e matches Some(HotkeyEvent::Triggered(h))
                && same_hotkey(h, self.registered->0)),
            !(id == HOTKEY_ID && self.registered is Some) ==> e is None,
    {
        if id == HOTKEY_ID {
            match &self.registered {
                Some(h) => Some(HotkeyEvent::Triggered(h.duplicate())),
                None => None,
            }
        } else {
            None
        }
    }
}

/// The reaction of the tip on screen, if it has one.
pub open spec fn spec_desired_reaction(jobs: &JobConfig, state: &ActiveJobState) -> Option<TipReaction> {
    match state.active_job {
        Some(job) => if job.current_index < jobs.len() {
            jobs.tip(job.current_index as int).reaction
        } else {
            None
        },
        None => None,
    }
}

/// The reaction of the tip on screen, if it has one.
pub fn desired_reaction<'a>(jobs: &'a JobConfig, state: &ActiveJobState) -> (r: Option<&'a TipReaction>)
    ensures
        match spec_desired_reaction(jobs, state) {
            Some(x) => r matches Some(y) && *y == x,
            None => r is None,
        },
{
    match state.current_index() {
        Some(index) => {
            if index < jobs.0.tips.len() {
                match &jobs.0.tips[index].reaction {
                    Some(reaction) => Some(reaction),
                    None => None,
                }
            } else {
                None
            }
        },
        None => None,
    }
}

/// A triggered hotkey starts the script only when it is the hotkey of the tip on
/// screen.
pub fn should_start(desired: &Option<Hotkey>, triggered: &Hotkey) -> (b: bool)
    ensures
        b == (*desired matches Some(h) && same_hotkey(h, *triggered)),
{
    match desired {
        Some(h) => h.same_as(triggered),
        None => false,
    }
}

/// The hotkey the runner asks for: the current one when it is unchanged, or no
/// request at all.
pub fn hotkey_change_needed(requested: &Option<Hotkey>, desired: &Option<Hotkey>) -> (b: bool)
    ensures
        b == !same_optional_hotkey(*requested, *desired),
{
    !same_optional(requested, desired)
}

} // verus!
