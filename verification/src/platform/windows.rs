//! The decisions of the Windows overlay controller: when to change the window's
//! style, when to hook the window and register shortcuts, and which shortcut a
//! hotkey message stands for.

use crate::overlay::OverlayMode;
use crate::platform::OverlayPlatformEvent;
use vstd::prelude::*;

verus! {

/// The id of the shortcut that toggles the mode (F8).
pub const HOTKEY_ID_TOGGLE_MODE: i32 = 1;

/// The id of the shortcut that clears the selection (Escape).
pub const HOTKEY_ID_CLEAR_SELECTION: i32 = 2;

/// Don't repeat the hotkey while the key is held.
pub const MOD_NOREPEAT: u32 = 0x4000;

/// The virtual key code of Escape.
pub const VK_ESCAPE: u32 = 0x1B;

/// The virtual key code of F8.
pub const VK_F8: u32 = 0x77;

/// What the controller knows of its window: the title it looks for, the window
/// handle once found, the mode last applied, and what it installed.
pub struct WindowsOverlayController {
    pub title: String,
    pub hwnd: Option<isize>,
    pub last_mode: Option<OverlayMode>,
    pub hotkeys_registered: bool,
    pub subclass_installed: bool,
}

/// What binding a window requires.
pub struct BindActions {
    pub install_subclass: bool,
    pub register_hotkeys: bool,
}

impl WindowsOverlayController {
    pub fn new(title: &str) -> (c: Self)
        ensures
            c.title@ == title@,
            c.hwnd is None,
            c.last_mode is None,
            !c.hotkeys_registered,
            !c.subclass_installed,
    {
        WindowsOverlayController {
            title: String::from_str(title),
            hwnd: None,
            last_mode: None,
            hotkeys_registered: false,
            subclass_installed: false,
        }
    }

    /// Whether applying `mode` changes anything: it differs from the mode applied last.
    pub fn needs_mode_change(&self, mode: OverlayMode) -> (b: bool)
        ensures
            b == (self.last_mode != Some(mode)),
    {
        match self.last_mode {
            Some(m) => m != mode,
            None => true,
        }
    }

    /// What binding the window still requires.
    pub fn bind_window(&self) -> (a: BindActions)
        ensures
            a.install_subclass == !self.subclass_installed,
            a.register_hotkeys == !self.hotkeys_registered,
    {
        BindActions {
            install_subclass: !self.subclass_installed,
            register_hotkeys: !self.hotkeys_registered,
        }
    }

    /// The shortcuts pressed since the last poll, oldest first, taken from the
    /// queue the window procedure fills; the queue is left empty.
    pub fn poll_events(&mut self, state: &mut OverlayWindowSubclassState) -> (events: Vec<
        OverlayPlatformEvent,
    >)
        ensures
            events@ == old(state).queued_events@,
            final(state).queued_events@.len() == 0,
            final(state).hwnd == old(state).hwnd,
            *final(self) == *old(self),
    {
        state.take_events()
    }

    /// Records that `mode` was applied to the window.
    pub fn mode_applied(&mut self, mode: OverlayMode)
        ensures
            final(self).last_mode == Some(mode),
            final(self).hwnd == old(self).hwnd,
            final(self).hotkeys_registered == old(self).hotkeys_registered,
            final(self).subclass_installed == old(self).subclass_installed,
    {
        self.last_mode = Some(mode);
    }
}

/// The shortcut a hotkey message with the given id stands for.
pub fn event_for_hotkey(id: i32) -> (e: Option<OverlayPlatformEvent>)
    ensures
        id == HOTKEY_ID_TOGGLE_MODE ==> e == Some(OverlayPlatformEvent::ToggleMode),
        id == HOTKEY_ID_CLEAR_SELECTION ==> e == Some(OverlayPlatformEvent::ClearSelection),
        id != HOTKEY_ID_TOGGLE_MODE && id != HOTKEY_ID_CLEAR_SELECTION ==> e is None,
{
    if id == HOTKEY_ID_TOGGLE_MODE {
        Some(OverlayPlatformEvent::ToggleMode)
    } else if id == HOTKEY_ID_CLEAR_SELECTION {
        Some(OverlayPlatformEvent::ClearSelection)
    } else {
        None
    }
}

/// Shortcuts queued by the window procedure until the overlay polls them.
pub struct OverlayWindowSubclassState {
    pub hwnd: Option<isize>,
    pub queued_events: Vec<OverlayPlatformEvent>,
}

impl OverlayWindowSubclassState {
    pub fn default() -> (s: Self)
        ensures
            s.hwnd is None,
            s.queued_events@.len() == 0,
    {
        OverlayWindowSubclassState { hwnd: None, queued_events: Vec::new() }
    }

    /// A hotkey message for window `hwnd`: queued when it is the hooked window and a
    /// known shortcut; returns whether the message was the hooked window's.
    pub fn on_hotkey(&mut self, hwnd: isize, id: i32) -> (handled: bool)
        ensures
            handled == (old(self).hwnd == Some(hwnd)),
            final(self).hwnd == old(self).hwnd,
            final(self).queued_events@ == spec_queue_after(old(self).queued_events@, old(self).hwnd, hwnd, id),
            handled && event_for_hotkey_spec(id) is Some ==> final(self).queued_events@
                == old(self).queued_events@.push(event_for_hotkey_spec(id)->0),
            !(handled && event_for_hotkey_spec(id) is Some) ==> final(self).queued_events@
                == old(self).queued_events@,
    {
        let handled = match self.hwnd {
            Some(h) => h == hwnd,
            None => false,
        };
        if handled {
            if let Some(e) = event_for_hotkey(id) {
                self.queued_events.push(e);
            }
        }
        handled
    }

    /// Takes the queued shortcuts, oldest first.
    pub fn take_events(&mut self) -> (events: Vec<OverlayPlatformEvent>)
        ensures
            events@ == old(self).queued_events@,
            final(self).queued_events@.len() == 0,
            final(self).hwnd == old(self).hwnd,
    {
        let mut events = Vec::new();
        std::mem::swap(&mut events, &mut self.queued_events);
        events
    }
}

/// The queue after a hotkey message with id `id` for window `hwnd`, `hooked` being
/// the hooked window: a known shortcut of the hooked window is added at the end.
pub open spec fn spec_queue_after(
    queue: Seq<OverlayPlatformEvent>,
    hooked: Option<isize>,
    hwnd: isize,
    id: i32,
) -> Seq<OverlayPlatformEvent> {
    if hooked == Some(hwnd) {
        match event_for_hotkey_spec(id) {
            Some(e) => queue.push(e),
            None => queue,
        }
    } else {
        queue
    }
}

/// The queue after hotkey messages `(window, id)` in arrival order.
pub open spec fn spec_queue_after_all(
    queue: Seq<OverlayPlatformEvent>,
    hooked: Option<isize>,
    messages: Seq<(isize, i32)>,
) -> Seq<OverlayPlatformEvent>
    decreases messages.len(),
{
    if messages.len() == 0 {
        queue
    } else {
        let m = messages.last();
        spec_queue_after(spec_queue_after_all(queue, hooked, messages.drop_last()), hooked, m.0, m.1)
    }
}

/// The shortcuts that hotkey ids stand for, in order, unknown ids skipped.
pub open spec fn events_for_ids(ids: Seq<i32>) -> Seq<OverlayPlatformEvent>
    decreases ids.len(),
{
    if ids.len() == 0 {
        Seq::empty()
    } else {
        match event_for_hotkey_spec(ids.last()) {
            Some(e) => events_for_ids(ids.drop_last()).push(e),
            None => events_for_ids(ids.drop_last()),
        }
    }
}

/// Law: the shortcuts pressed on the hooked window come out of the queue in the
/// order they arrived (unknown ids skipped, other windows ignored) after what was
/// already queued; taking them leaves the queue empty, so a second poll with no
/// message in between gets nothing.
pub proof fn law_events_in_arrival_order(
    queue: Seq<OverlayPlatformEvent>,
    hooked: isize,
    ids: Seq<i32>,
)
    ensures
        spec_queue_after_all(queue, Some(hooked), ids.map_values(|id: i32| (hooked, id))) == queue
            + events_for_ids(ids),
    decreases ids.len(),
{
    let messages = ids.map_values(|id: i32| (hooked, id));
    if ids.len() == 0 {
        assert(queue + events_for_ids(ids) =~= queue);
    } else {
        let rest = ids.drop_last();
        law_events_in_arrival_order(queue, hooked, rest);
        assert(messages.drop_last() =~= rest.map_values(|id: i32| (hooked, id)));
        assert(messages.last() == (hooked, ids.last()));
        match event_for_hotkey_spec(ids.last()) {
            Some(e) => {
                assert((queue + events_for_ids(rest)).push(e) =~= queue + events_for_ids(rest).push(e));
            },
            None => {},
        }
    }
}

/// The shortcut a hotkey id stands for.
pub open spec fn event_for_hotkey_spec(id: i32) -> Option<OverlayPlatformEvent> {
    if id == HOTKEY_ID_TOGGLE_MODE {
        Some(OverlayPlatformEvent::ToggleMode)
    } else if id == HOTKEY_ID_CLEAR_SELECTION {
        Some(OverlayPlatformEvent::ClearSelection)
    } else {
        None
    }
}

} // verus!
