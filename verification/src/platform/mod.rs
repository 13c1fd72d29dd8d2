//! What the overlay needs from the desktop: mouse pass-through and global shortcuts.

pub mod windows;

use crate::overlay::OverlayMode;
use vstd::prelude::*;

verus! {

/// A global shortcut pressed while the overlay runs.
#[derive(Debug, Clone, Copy, PartialEq, Eq, Structural)]
pub enum OverlayPlatformEvent {
    ToggleMode,
    ClearSelection,
}

/// The controller for desktops without native overlay support: it changes nothing
/// and reports no shortcuts.
pub struct OverlayController;

impl OverlayController {
    pub fn new(_title: &str) -> (c: Self) {
        OverlayController
    }

    /// Applies a mode to the window; nothing to do here.
    pub fn apply_mode(&mut self, _mode: OverlayMode) {
    }

    /// The shortcuts pressed since the last poll; there are none here.
    pub fn poll_events(&mut self) -> (events: Vec<OverlayPlatformEvent>)
        ensures
            events@.len() == 0,
    {
        Vec::new()
    }
}

} // verus!
