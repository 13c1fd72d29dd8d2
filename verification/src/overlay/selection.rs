//! The phases of selecting a screen region by dragging.

use crate::job::entity::{ScreenPoint, ScreenRect};
use vstd::prelude::*;

verus! {

/// The point where a drag started.
#[derive(Debug, Clone, Copy, PartialEq, Eq, Structural)]
pub struct SelectionPhaseStart(pub ScreenPoint);

impl SelectionPhaseStart {
    pub fn dragging_to(self, to: ScreenPoint) -> (d: SelectionPhaseDragging)
        ensures
            d == SelectionPhaseDragging(self.0, to),
    {
        SelectionPhaseDragging(self.0, to)
    }

    pub fn point(self) -> (p: ScreenPoint)
        ensures
            p == self.0,
    {
        self.0
    }
}

/// A drag in progress: the start point and the current point.
#[derive(Debug, Clone, Copy, PartialEq, Eq, Structural)]
pub struct SelectionPhaseDragging(pub ScreenPoint, pub ScreenPoint);

impl SelectionPhaseDragging {
    /// The same drag, now at `to`.
    pub fn dragging_to(self, to: ScreenPoint) -> (d: SelectionPhaseDragging)
        ensures
            d == SelectionPhaseDragging(self.0, to),
    {
        SelectionPhaseDragging(self.0, to)
    }

    /// The drag ends: the region spanned by the two points.
    pub fn confirm(self) -> (p: SelectionPhasePreview)
        ensures
            p == SelectionPhasePreview(ScreenRect::spec_from_points(self.0, self.1)),
    {
        SelectionPhasePreview(ScreenRect::from_points(self.0, self.1))
    }

    /// The region spanned by the two points.
    pub fn get_region(&self) -> (r: ScreenRect)
        ensures
            r == ScreenRect::spec_from_points(self.0, self.1),
    {
        ScreenRect::from_points(self.0, self.1)
    }
}

/// A finished selection awaiting a task.
#[derive(Debug, Clone, Copy, PartialEq, Eq, Structural)]
pub struct SelectionPhasePreview(pub ScreenRect);

impl SelectionPhasePreview {
    pub fn region(self) -> (r: ScreenRect)
        ensures
            r == self.0,
    {
        self.0
    }
}

/// Where a selection stands.
#[derive(Debug, Clone, Copy, PartialEq, Eq, Structural)]
pub enum SelectionPhase {
    Idle,
    Start(SelectionPhaseStart),
    Dragging(SelectionPhaseDragging),
    Preview(SelectionPhasePreview),
}

/// The phase after the pointer moved to `point`.
pub open spec fn spec_update_by(phase: SelectionPhase, point: ScreenPoint) -> SelectionPhase {
    match phase {
        SelectionPhase::Idle => SelectionPhase::Start(SelectionPhaseStart(point)),
        SelectionPhase::Start(s) => SelectionPhase::Dragging(SelectionPhaseDragging(s.0, point)),
        SelectionPhase::Dragging(d) => SelectionPhase::Dragging(SelectionPhaseDragging(d.0, point)),
        SelectionPhase::Preview(_) => phase,
    }
}

impl SelectionPhase {
    pub fn default() -> (p: Self)
        ensures
            p == SelectionPhase::Idle,
    {
        SelectionPhase::Idle
    }

    /// A selection starting at `at`.
    pub fn start_at(at: ScreenPoint) -> (p: SelectionPhase)
        ensures
            p == SelectionPhase::Start(SelectionPhaseStart(at)),
    {
        SelectionPhase::Start(SelectionPhaseStart(at))
    }

    /// The phase after the pointer moved to `point`: an idle selection starts, a
    /// started or dragging one follows the pointer, a preview stays.
    pub fn update_by(self, point: ScreenPoint) -> (p: SelectionPhase)
        ensures
            p == spec_update_by(self, point),
    {
        match self {
            SelectionPhase::Idle => Self::start_at(point),
            SelectionPhase::Start(s) => SelectionPhase::Dragging(s.dragging_to(point)),
            SelectionPhase::Dragging(s) => SelectionPhase::Dragging(s.dragging_to(point)),
            SelectionPhase::Preview(_) => self,
        }
    }
}

/// The region a selection covers so far, if any.
pub open spec fn spec_selection_rect(selection: SelectionPhase) -> Option<ScreenRect> {
    match selection {
        SelectionPhase::Idle => None,
        SelectionPhase::Start(s) => Some(ScreenRect::spec_from_points(s.0, s.0)),
        SelectionPhase::Dragging(d) => Some(ScreenRect::spec_from_points(d.0, d.1)),
        SelectionPhase::Preview(p) => Some(p.0),
    }
}

/// The region a selection covers so far, if any.
pub fn selection_rect(selection: SelectionPhase) -> (r: Option<ScreenRect>)
    ensures
        r == spec_selection_rect(selection),
{
    match selection {
        SelectionPhase::Idle => None,
        SelectionPhase::Start(start) => Some(ScreenRect::from_points(start.point(), start.point())),
        SelectionPhase::Dragging(dragging) => Some(dragging.get_region()),
        SelectionPhase::Preview(preview) => Some(preview.region()),
    }
}

/// Law: a drag keeps its start point; the region follows the last pointer position
/// and is always normalized.
pub proof fn law_drag_keeps_start(start: ScreenPoint, moves: Seq<ScreenPoint>)
    requires
        moves.len() > 0,
    ensures
        spec_drag(SelectionPhase::Start(SelectionPhaseStart(start)), moves) == SelectionPhase::Dragging(
            SelectionPhaseDragging(start, moves.last()),
        ),
        spec_selection_rect(spec_drag(SelectionPhase::Start(SelectionPhaseStart(start)), moves))
            == Some(ScreenRect::spec_from_points(start, moves.last())),
    decreases moves.len(),
{
    let phase = SelectionPhase::Start(SelectionPhaseStart(start));
    if moves.len() > 1 {
        law_drag_keeps_start(start, moves.drop_last());
    } else {
        assert(spec_drag(phase, moves.drop_last()) == phase);
    }
}

/// The phase after the pointer moved through `moves` in order.
pub open spec fn spec_drag(phase: SelectionPhase, moves: Seq<ScreenPoint>) -> SelectionPhase
    decreases moves.len(),
{
    if moves.len() == 0 {
        phase
    } else {
        spec_update_by(spec_drag(phase, moves.drop_last()), moves.last())
    }
}

} // verus!
