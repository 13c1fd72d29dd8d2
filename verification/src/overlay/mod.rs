//! The full-screen overlay: its interaction mode and region selection.

pub mod board;
pub mod selection;

use crate::overlay::selection::SelectionPhase;
use vstd::prelude::*;

verus! {

/// `Edit` takes the mouse for selecting regions; `Sentinel` lets it pass through.
#[derive(Debug, Clone, Copy, PartialEq, Eq, Structural)]
pub enum OverlayMode {
    Edit,
    Sentinel,
}

/// The other mode.
pub open spec fn spec_toggle(m: OverlayMode) -> OverlayMode {
    match m {
        OverlayMode::Edit => OverlayMode::Sentinel,
        OverlayMode::Sentinel => OverlayMode::Edit,
    }
}

impl OverlayMode {
    /// The other mode.
    pub fn toggle(self) -> (m: Self)
        ensures
            m == spec_toggle(self),
            m != self,
    {
        match self {
            Self::Edit => Self::Sentinel,
            Self::Sentinel => Self::Edit,
        }
    }
}

/// The overlay's mode and its selection in progress.
#[derive(Debug, Clone, Copy)]
pub struct OverlayState {
    pub mode: OverlayMode,
    pub selection: SelectionPhase,
}

impl OverlayState {
    pub fn default() -> (s: Self)
        ensures
            s.mode == OverlayMode::Edit,
            s.selection == SelectionPhase::Idle,
    {
        OverlayState { mode: OverlayMode::Edit, selection: SelectionPhase::Idle }
    }
}

/// The label of a mode's button.
pub fn mode_label(mode: OverlayMode) -> (s: &'static str)
    ensures
        mode == OverlayMode::Edit ==> s@ == "Edit"@,
        mode == OverlayMode::Sentinel ==> s@ == "Sentinel"@,
{
    match mode {
        OverlayMode::Edit => "Edit",
        OverlayMode::Sentinel => "Sentinel",
    }
}

/// Law: toggling always changes the mode, and toggling twice gives back the mode
/// one started with.
pub proof fn law_toggle_involution(m: OverlayMode)
    ensures
        spec_toggle(m) != m,
        spec_toggle(spec_toggle(m)) == m,
{
}

} // verus!
