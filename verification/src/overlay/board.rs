//! The overlay's task board: regions that are recognized periodically, the task
//! being created or edited, and how recognition results are filed.

use crate::job::entity::ScreenRect;
use crate::overlay::selection::{SelectionPhase, SelectionPhasePreview};
use crate::overlay::{OverlayMode, OverlayState};
use crate::perception::service::{PerceptionError, PerceptionResult};
use crate::platform::OverlayPlatformEvent;
use crate::text::{chars_of, decimal, push_decimal, push_signed_decimal, signed_decimal, string_from_chars, trim, trim_chars};
use vstd::prelude::*;
use vstd::string::*;

verus! {

/// Nanoseconds in one second.
pub const NANOS_PER_SEC: u128 = 1_000_000_000;

/// The frequency a new task starts with: every three seconds.
pub const DEFAULT_TASK_FREQUENCY_NANOS: u128 = 3_000_000_000;

/// The smallest side of a region that makes a task.
pub const MIN_REGION_SIDE: u32 = 8;

/// What a task last did.
#[derive(Debug, Clone)]
pub enum TaskStatus {
    Idle,
    Running,
    Success { summary: String, text: String },
    Failed(String),
}

/// A region recognized periodically. Times are nanoseconds since the overlay started.
#[derive(Debug, Clone)]
pub struct OverlayTask {
    pub id: u64,
    pub title: String,
    pub region: ScreenRect,
    pub frequency: u128,
    pub enabled: bool,
    pub last_run_at: Option<u128>,
    pub last_result_at: Option<u128>,
    pub last_request_id: Option<u64>,
    pub status: TaskStatus,
}

/// A task being created (`task_id` is `None`) or edited.
#[derive(Debug, Clone)]
pub struct PendingTaskUpsert {
    pub task_id: Option<u64>,
    pub region: ScreenRect,
    pub title: String,
    pub frequency: u128,
    pub enabled: bool,
}

/// The board: the overlay state, the tasks, and the edit in progress.
pub struct TaskBoard {
    pub state: OverlayState,
    pub tasks: Vec<OverlayTask>,
    pub next_task_id: u64,
    pub next_request_id: u64,
    pub selected_task_id: Option<u64>,
    pub pending_task_upsert: Option<PendingTaskUpsert>,
}

/// The task with the given id comes first at position `i`.
pub open spec fn first_with_id(tasks: Seq<OverlayTask>, id: u64, i: int) -> bool {
    &&& 0 <= i < tasks.len()
    &&& tasks[i].id == id
    &&& forall|j: int| 0 <= j < i ==> tasks[j].id != id
}

/// Whether a task has the id.
pub open spec fn has_id(tasks: Seq<OverlayTask>, id: u64) -> bool {
    exists|i: int| 0 <= i < tasks.len() && #[trigger] tasks[i].id == id
}

/// The position of the first task with the id, if any.
fn position_of(tasks: &Vec<OverlayTask>, id: u64) -> (r: Option<usize>)
    ensures
        r matches Some(i) ==> first_with_id(tasks@, id, i as int),
        r is None ==> !has_id(tasks@, id),
{
    let mut i: usize = 0;
    while i < tasks.len()
        invariant
            i <= tasks.len(),
            forall|j: int| 0 <= j < i ==> tasks@[j].id != id,
        decreases tasks.len() - i,
    {
        if tasks[i].id == id {
            return Some(i);
        }
        i = i + 1;
    }
    None
}

/// A region large enough for a task: both sides at least eight pixels.
pub open spec fn spec_is_large_enough(region: ScreenRect) -> bool {
    region.spec_width() >= MIN_REGION_SIDE && region.spec_height() >= MIN_REGION_SIDE
}

pub fn is_large_enough(region: ScreenRect) -> (b: bool)
    requires
        i32::MIN <= region.rb.x - region.lt.x <= i32::MAX,
        i32::MIN <= region.rb.y - region.lt.y <= i32::MAX,
    ensures
        b == spec_is_large_enough(region),
{
    region.width() >= MIN_REGION_SIDE && region.height() >= MIN_REGION_SIDE
}

/// A region as the board shows it: `区域: (x, y) w x h`.
pub fn format_region(region: ScreenRect) -> (s: String)
    requires
        i32::MIN <= region.rb.x - region.lt.x <= i32::MAX,
        i32::MIN <= region.rb.y - region.lt.y <= i32::MAX,
    ensures
        s@ == "区域: ("@ + signed_decimal(region.lt.x as int) + ", "@ + signed_decimal(
            region.lt.y as int,
        ) + ") "@ + decimal(region.spec_width() as nat) + " x "@ + decimal(
            region.spec_height() as nat,
        ),
{
    let mut s = String::from_str("区域: (");
    push_signed_decimal(&mut s, region.lt_x() as i64);
    s.append(", ");
    push_signed_decimal(&mut s, region.lt_y() as i64);
    s.append(") ");
    push_decimal(&mut s, region.width() as u64);
    s.append(" x ");
    push_decimal(&mut s, region.height() as u64);
    s
}

/// The title a task gets when none is given: `Task <n>`.
pub open spec fn default_title(n: u64) -> Seq<char> {
    "Task "@ + decimal(n as nat)
}

fn default_title_exec(n: u64) -> (s: String)
    ensures
        s@ == default_title(n),
{
    let mut s = String::from_str("Task ");
    push_decimal(&mut s, n);
    s
}

/// Regions the board works with have sides that fit an `i32`.
pub open spec fn region_fits(region: ScreenRect) -> bool {
    &&& region.is_normalized()
    &&& region.rb.x - region.lt.x <= i32::MAX
    &&& region.rb.y - region.lt.y <= i32::MAX
}

impl OverlayTask {
    /// The task's status as one line.
    pub fn status_line(&self) -> (s: String)
        ensures
            s@ == match self.status {
                TaskStatus::Idle => "idle"@,
                TaskStatus::Running => "running"@,
                TaskStatus::Success { summary, text } => summary@,
                TaskStatus::Failed(message) => "failed: "@ + message@,
            },
    {
        match &self.status {
            TaskStatus::Idle => String::from_str("idle"),
            TaskStatus::Running => String::from_str("running"),
            TaskStatus::Success { summary, .. } => summary.clone(),
            TaskStatus::Failed(message) => {
                let mut s = String::from_str("failed: ");
                s.append(message.as_str());
                s
            },
        }
    }

    /// The task is due at `now`: it is enabled, not running, and its frequency has
    /// passed since it last ran (or it never ran).
    pub open spec fn spec_is_due(&self, now: int) -> bool {
        &&& self.enabled
        &&& !(self.status is Running)
        &&& match self.last_run_at {
            None => true,
            Some(last) => (if now >= last { now - last } else { 0 }) >= self.frequency,
        }
    }
}

impl TaskBoard {
    /// Ids are increasing along the list and below the next id to hand out.
    pub open spec fn wf(&self) -> bool {
        &&& forall|i: int, j: int|
            0 <= i < j < self.tasks@.len() ==> self.tasks@[i].id < self.tasks@[j].id
        &&& forall|i: int| 0 <= i < self.tasks@.len() ==> self.tasks@[i].id < self.next_task_id
    }

    /// An empty board in edit mode.
    pub fn new() -> (b: Self)
        ensures
            b.wf(),
            b.tasks@.len() == 0,
            b.next_task_id == 1,
            b.next_request_id == 1,
            b.selected_task_id is None,
            b.pending_task_upsert is None,
            b.state.mode == OverlayMode::Edit,
            b.state.selection == SelectionPhase::Idle,
    {
        TaskBoard {
            state: OverlayState::default(),
            tasks: Vec::new(),
            next_task_id: 1,
            next_request_id: 1,
            selected_task_id: None,
            pending_task_upsert: None,
        }
    }

    /// Drops the selection and the edit in progress.
    pub fn clear_selection(&mut self)
        ensures
            final(self).state.selection == SelectionPhase::Idle,
            final(self).pending_task_upsert is None,
            final(self).state.mode == old(self).state.mode,
            final(self).tasks@ == old(self).tasks@,
            final(self).next_task_id == old(self).next_task_id,
            final(self).next_request_id == old(self).next_request_id,
            final(self).selected_task_id == old(self).selected_task_id,
    {
        self.state.selection = SelectionPhase::Idle;
        self.pending_task_upsert = None;
    }

    /// Switches between edit and pass-through mode.
    pub fn toggle_mode(&mut self)
        ensures
            final(self).state.mode == crate::overlay::spec_toggle(old(self).state.mode),
            final(self).state.selection == old(self).state.selection,
            final(self).tasks@ == old(self).tasks@,
            final(self).next_task_id == old(self).next_task_id,
            final(self).next_request_id == old(self).next_request_id,
            final(self).selected_task_id == old(self).selected_task_id,
            final(self).pending_task_upsert == old(self).pending_task_upsert,
    {
        self.state.mode = self.state.mode.toggle();
    }

    /// Reacts to a global shortcut: F8 toggles the mode, Escape drops the selection.
    pub fn handle_platform_event(&mut self, event: OverlayPlatformEvent)
        ensures
            event == OverlayPlatformEvent::ToggleMode ==> final(self).state.mode
                == crate::overlay::spec_toggle(old(self).state.mode)
                && final(self).state.selection == old(self).state.selection
                && final(self).pending_task_upsert == old(self).pending_task_upsert,
            event == OverlayPlatformEvent::ClearSelection ==> final(self).state.selection
                == SelectionPhase::Idle && final(self).pending_task_upsert is None
                && final(self).state.mode == old(self).state.mode,
            final(self).tasks@ == old(self).tasks@,
            final(self).next_task_id == old(self).next_task_id,
            final(self).selected_task_id == old(self).selected_task_id,
            final(self).next_request_id == old(self).next_request_id,
    {
        match event {
            OverlayPlatformEvent::ToggleMode => self.toggle_mode(),
            OverlayPlatformEvent::ClearSelection => self.clear_selection(),
        }
    }

    /// Starts a new task from scratch: nothing selected, nothing pending.
    pub fn new_task(&mut self)
        ensures
            final(self).selected_task_id is None,
            final(self).pending_task_upsert is None,
            final(self).state.selection == SelectionPhase::Idle,
            final(self).state.mode == old(self).state.mode,
            final(self).tasks@ == old(self).tasks@,
            final(self).next_task_id == old(self).next_task_id,
            final(self).next_request_id == old(self).next_request_id,
    {
        self.selected_task_id = None;
        self.clear_selection();
    }

    /// The pointer pressed at `point` starts a selection (in edit mode only).
    pub fn drag_started(&mut self, point: crate::job::entity::ScreenPoint)
        ensures
            old(self).state.mode == OverlayMode::Edit ==> final(self).state.selection
                == SelectionPhase::Start(crate::overlay::selection::SelectionPhaseStart(point)),
            old(self).state.mode == OverlayMode::Sentinel ==> final(self).state.selection
                == old(self).state.selection,
            final(self).state.mode == old(self).state.mode,
            final(self).tasks@ == old(self).tasks@,
            final(self).next_task_id == old(self).next_task_id,
            final(self).selected_task_id == old(self).selected_task_id,
            final(self).next_request_id == old(self).next_request_id,
            final(self).pending_task_upsert == old(self).pending_task_upsert,
    {
        if self.state.mode == OverlayMode::Edit {
            self.state.selection = SelectionPhase::start_at(point);
        }
    }

    /// The pointer dragged to `point` (in edit mode only).
    pub fn dragged(&mut self, point: crate::job::entity::ScreenPoint)
        ensures
            old(self).state.mode == OverlayMode::Edit ==> final(self).state.selection
                == crate::overlay::selection::spec_update_by(old(self).state.selection, point),
            old(self).state.mode == OverlayMode::Sentinel ==> final(self).state.selection
                == old(self).state.selection,
            final(self).state.mode == old(self).state.mode,
            final(self).tasks@ == old(self).tasks@,
            final(self).next_task_id == old(self).next_task_id,
            final(self).selected_task_id == old(self).selected_task_id,
            final(self).next_request_id == old(self).next_request_id,
            final(self).pending_task_upsert == old(self).pending_task_upsert,
    {
        if self.state.mode == OverlayMode::Edit {
            self.state.selection = self.state.selection.update_by(point);
        }
    }
}

/// The edit a finished selection opens: for the selected task, prefilled from it
/// when it exists; otherwise a new task's defaults.
pub open spec fn spec_pending_for(
    tasks: Seq<OverlayTask>,
    selected: Option<u64>,
    next_task_id: u64,
    region: ScreenRect,
    p: PendingTaskUpsert,
) -> bool {
    &&& p.task_id == selected
    &&& p.region == region
    &&& match selected {
        Some(id) if has_id(tasks, id) => exists|i: int|
            first_with_id(tasks, id, i) && p.title@ == tasks[i].title@ && p.frequency
                == tasks[i].frequency && p.enabled == tasks[i].enabled,
        _ => p.title@ == default_title(next_task_id) && p.frequency == DEFAULT_TASK_FREQUENCY_NANOS
            && p.enabled,
    }
}

/// The title a task is saved with: the given one trimmed, or `Task <n>` when that
/// is empty, `n` being the task's id or the id a new task gets.
pub open spec fn spec_saved_title(title: Seq<char>, task_id: Option<u64>, next_task_id: u64) -> Seq<
    char,
> {
    if trim(title).len() == 0 {
        default_title(
            match task_id {
                Some(id) => id,
                None => next_task_id,
            },
        )
    } else {
        trim(title)
    }
}

impl TaskBoard {
    /// Ends a drag: a region too small is dropped; otherwise an edit opens for it.
    pub fn finish_selection(&mut self)
        requires
            old(self).state.selection matches SelectionPhase::Dragging(d) ==> region_fits(
                ScreenRect::spec_from_points(d.0, d.1),
            ),
            old(self).state.selection matches SelectionPhase::Preview(p) ==> region_fits(p.0),
        ensures
            final(self).next_request_id == old(self).next_request_id,
            final(self).tasks@ == old(self).tasks@,
            final(self).next_task_id == old(self).next_task_id,
            final(self).selected_task_id == old(self).selected_task_id,
            final(self).state.mode == old(self).state.mode,
            ({
                let region = match old(self).state.selection {
                    SelectionPhase::Dragging(d) => Some(ScreenRect::spec_from_points(d.0, d.1)),
                    SelectionPhase::Preview(p) => Some(p.0),
                    _ => None,
                };
                match region {
                    None => final(self).state.selection == old(self).state.selection
                        && final(self).pending_task_upsert == old(self).pending_task_upsert,
                    Some(r) => if !spec_is_large_enough(r) {
                        final(self).state.selection == SelectionPhase::Idle
                            && final(self).pending_task_upsert == old(self).pending_task_upsert
                    } else {
                        &&& final(self).state.selection == SelectionPhase::Preview(
                            SelectionPhasePreview(r),
                        )
                        &&& final(self).pending_task_upsert matches Some(p) && spec_pending_for(
                            old(self).tasks@,
                            old(self).selected_task_id,
                            old(self).next_task_id,
                            r,
                            p,
                        )
                    },
                }
            }),
    {
        let preview = match self.state.selection {
            SelectionPhase::Dragging(dragging) => dragging.confirm(),
            SelectionPhase::Preview(preview) => preview,
            _ => return ,
        };
        let region = preview.region();
        if !is_large_enough(region) {
            self.state.selection = SelectionPhase::Idle;
            return ;
        }
        let task_id = self.selected_task_id;
        let template = match task_id {
            Some(id) => position_of(&self.tasks, id),
            None => None,
        };
        let pending = match template {
            Some(i) => PendingTaskUpsert {
                task_id,
                region,
                title: self.tasks[i].title.clone(),
                frequency: self.tasks[i].frequency,
                enabled: self.tasks[i].enabled,
            },
            None => PendingTaskUpsert {
                task_id,
                region,
                title: default_title_exec(self.next_task_id),
                frequency: DEFAULT_TASK_FREQUENCY_NANOS,
                enabled: true,
            },
        };
        self.pending_task_upsert = Some(pending);
        self.state.selection = SelectionPhase::Preview(preview);
    }

    /// Saves an edit: updates task `task_id` (the first with that id) or adds a new
    /// task with the next id; the saved or new task becomes selected.
    pub fn upsert_task(
        &mut self,
        task_id: Option<u64>,
        title: String,
        region: ScreenRect,
        frequency: u128,
        enabled: bool,
    )
        requires
            old(self).wf(),
            task_id is None ==> old(self).next_task_id < u64::MAX,
        ensures
            final(self).wf(),
            final(self).pending_task_upsert is None,
            final(self).state.selection == SelectionPhase::Idle,
            final(self).state.mode == old(self).state.mode,
            final(self).next_request_id == old(self).next_request_id,
            match task_id {
                Some(id) => {
                    &&& final(self).selected_task_id == Some(id)
                    &&& final(self).next_task_id == old(self).next_task_id
                    &&& final(self).tasks@.len() == old(self).tasks@.len()
                    &&& forall|i: int|
                        0 <= i < old(self).tasks@.len() ==> if first_with_id(old(self).tasks@, id, i) {
                            let t = #[trigger] final(self).tasks@[i];
                            let o = old(self).tasks@[i];
                            &&& t.id == id
                            &&& t.title@ == spec_saved_title(title@, task_id, old(self).next_task_id)
                            &&& t.region == region
                            &&& t.frequency == frequency
                            &&& t.enabled == enabled
                            &&& t.last_run_at == o.last_run_at
                            &&& t.last_result_at == o.last_result_at
                            &&& t.last_request_id == o.last_request_id
                        } else {
                            final(self).tasks@[i] == old(self).tasks@[i]
                        }
                },
                None => {
                    &&& final(self).selected_task_id == Some(old(self).next_task_id)
                    &&& final(self).next_task_id == old(self).next_task_id + 1
                    &&& final(self).tasks@.len() == old(self).tasks@.len() + 1
                    &&& final(self).tasks@.drop_last() == old(self).tasks@
                    &&& ({
                        let t = final(self).tasks@.last();
                        &&& t.id == old(self).next_task_id
                        &&& t.title@ == spec_saved_title(title@, task_id, old(self).next_task_id)
                        &&& t.region == region
                        &&& t.frequency == frequency
                        &&& t.enabled == enabled
                        &&& t.last_run_at is None
                        &&& t.last_result_at is None
                        &&& t.last_request_id is None
                        &&& t.status is Idle
                    })
                },
            },
    {
        let chars = chars_of(title.as_str());
        let trimmed = trim_chars(&chars);
        let title = if trimmed.len() == 0 {
            default_title_exec(
                match task_id {
                    Some(id) => id,
                    None => self.next_task_id,
                },
            )
        } else {
            string_from_chars(&trimmed)
        };
        match task_id {
            Some(id) => {
                match position_of(&self.tasks, id) {
                    Some(i) => {
                        let ghost before = self.tasks@;
                        let mut task = self.tasks.remove(i);
                        task.title = title;
                        task.region = region;
                        task.frequency = frequency;
                        task.enabled = enabled;
                        self.tasks.insert(i, task);
                        proof {
                            assert forall|k: int| 0 <= k < before.len() && k != i implies self.tasks@[k] == before[k] by {
                                if k < i {
                                } else {
                                }
                            }
                        }
                    },
                    None => {},
                }
                self.selected_task_id = Some(id);
            },
            None => {
                let new_task_id = self.next_task_id;
                self.next_task_id = self.next_task_id + 1;
                self.selected_task_id = Some(new_task_id);
                self.tasks.push(
                    OverlayTask {
                        id: new_task_id,
                        title,
                        region,
                        frequency,
                        enabled,
                        last_run_at: None,
                        last_result_at: None,
                        last_request_id: None,
                        status: TaskStatus::Idle,
                    },
                );
            },
        }
        self.pending_task_upsert = None;
        self.state.selection = SelectionPhase::Idle;
    }
}

/// The ids of the tasks due at `now`, in list order.
pub open spec fn due_ids(tasks: Seq<OverlayTask>, now: int) -> Seq<u64>
    decreases tasks.len(),
{
    if tasks.len() == 0 {
        Seq::empty()
    } else {
        let rest = due_ids(tasks.drop_last(), now);
        if tasks.last().spec_is_due(now) {
            rest.push(tasks.last().id)
        } else {
            rest
        }
    }
}

/// Every task except those at position `i` are unchanged.
pub open spec fn others_unchanged(a: Seq<OverlayTask>, b: Seq<OverlayTask>, i: int) -> bool {
    &&& a.len() == b.len()
    &&& forall|k: int| 0 <= k < a.len() && k != i ==> #[trigger] b[k] == a[k]
}

impl TaskBoard {
    /// Drops the edit in progress and the selection.
    pub fn cancel_pending(&mut self)
        ensures
            final(self).pending_task_upsert is None,
            final(self).state.selection == SelectionPhase::Idle,
            final(self).tasks@ == old(self).tasks@,
            final(self).selected_task_id == old(self).selected_task_id,
            final(self).next_task_id == old(self).next_task_id,
            final(self).next_request_id == old(self).next_request_id,
            final(self).state.mode == old(self).state.mode,
    {
        self.clear_selection();
    }

    /// Selects a task; the next finished selection edits its region.
    pub fn select_task(&mut self, task_id: u64)
        ensures
            final(self).selected_task_id == Some(task_id),
            final(self).tasks@ == old(self).tasks@,
            final(self).pending_task_upsert == old(self).pending_task_upsert,
            final(self).state == old(self).state,
            final(self).next_task_id == old(self).next_task_id,
            final(self).next_request_id == old(self).next_request_id,
    {
        self.selected_task_id = Some(task_id);
    }

    /// Starts editing a task's region: it becomes selected, and the edit in progress
    /// and the selection are dropped.
    pub fn edit_region(&mut self, task_id: u64)
        ensures
            final(self).selected_task_id == Some(task_id),
            final(self).pending_task_upsert is None,
            final(self).state.selection == SelectionPhase::Idle,
            final(self).state.mode == old(self).state.mode,
            final(self).tasks@ == old(self).tasks@,
            final(self).next_task_id == old(self).next_task_id,
            final(self).next_request_id == old(self).next_request_id,
    {
        self.selected_task_id = Some(task_id);
        self.clear_selection();
    }

    /// Enables or disables the first task with the id.
    pub fn set_task_enabled(&mut self, task_id: u64, enabled: bool)
        requires
            old(self).wf(),
        ensures
            final(self).state == old(self).state,
            final(self).next_request_id == old(self).next_request_id,
            final(self).pending_task_upsert == old(self).pending_task_upsert,
            final(self).wf(),
            final(self).next_task_id == old(self).next_task_id,
            final(self).selected_task_id == old(self).selected_task_id,
            !has_id(old(self).tasks@, task_id) ==> final(self).tasks@ == old(self).tasks@,
            forall|i: int| first_with_id(old(self).tasks@, task_id, i) ==> {
                &&& others_unchanged(old(self).tasks@, final(self).tasks@, i)
                &&& final(self).tasks@[i].enabled == enabled
                &&& final(self).tasks@[i].id == task_id
                &&& final(self).tasks@[i].title == old(self).tasks@[i].title
                &&& final(self).tasks@[i].region == old(self).tasks@[i].region
            },
    {
        match position_of(&self.tasks, task_id) {
            Some(i) => {
                let ghost before = self.tasks@;
                let mut task = self.tasks.remove(i);
                task.enabled = enabled;
                self.tasks.insert(i, task);
                proof {
                    assert forall|k: int| 0 <= k < before.len() && k != i implies #[trigger] self.tasks@[k] == before[k] by {
                    }
                }
            },
            None => {},
        }
    }

    /// Deletes the first task with the id; a selection or edit of it is dropped.
    pub fn delete_task(&mut self, task_id: u64)
        requires
            old(self).wf(),
        ensures
            final(self).state == old(self).state,
            final(self).next_request_id == old(self).next_request_id,
            final(self).wf(),
            final(self).next_task_id == old(self).next_task_id,
            !has_id(old(self).tasks@, task_id) ==> final(self).tasks@ == old(self).tasks@,
            forall|i: int| first_with_id(old(self).tasks@, task_id, i) ==> final(self).tasks@
                == old(self).tasks@.remove(i),
            !has_id(final(self).tasks@, task_id) || !has_id(old(self).tasks@, task_id),
            !has_id(old(self).tasks@, task_id) ==> final(self).selected_task_id == old(
                self,
            ).selected_task_id && final(self).pending_task_upsert == old(self).pending_task_upsert,
            has_id(old(self).tasks@, task_id) ==> final(self).selected_task_id == if old(
                self,
            ).selected_task_id == Some(task_id) {
                None
            } else {
                old(self).selected_task_id
            },
            has_id(old(self).tasks@, task_id) && (old(self).pending_task_upsert matches Some(p)
                && p.task_id == Some(task_id)) ==> final(self).pending_task_upsert is None,
            !(old(self).pending_task_upsert matches Some(p) && p.task_id == Some(task_id))
                ==> final(self).pending_task_upsert == old(self).pending_task_upsert,
    {
        let index = match position_of(&self.tasks, task_id) {
            Some(i) => i,
            None => return ,
        };
        let ghost before = self.tasks@;
        self.tasks.remove(index);
        proof {
            assert forall|k: int| 0 <= k < self.tasks@.len() implies self.tasks@[k].id != task_id by {
                if k < index {
                } else {
                    assert(self.tasks@[k] == before[k + 1]);
                    assert(before[index as int].id < before[k + 1].id);
                }
            }
        }
        if self.selected_task_id == Some(task_id) {
            self.selected_task_id = None;
        }
        let clear_pending = match &self.pending_task_upsert {
            Some(pending) => pending.task_id == Some(task_id),
            None => false,
        };
        if clear_pending {
            self.pending_task_upsert = None;
        }
    }

    /// Starts a run of the first task with the id at `now`: it gets the next request
    /// id and is marked running. Returns the request id and the region to recognize.
    pub fn spawn_task_run(&mut self, task_id: u64, now: u128) -> (r: Option<(u64, ScreenRect)>)
        requires
            old(self).wf(),
            old(self).next_request_id < u64::MAX,
        ensures
            final(self).state == old(self).state,
            final(self).pending_task_upsert == old(self).pending_task_upsert,
            final(self).wf(),
            final(self).next_task_id == old(self).next_task_id,
            final(self).selected_task_id == old(self).selected_task_id,
            !has_id(old(self).tasks@, task_id) ==> r is None && final(self).tasks@ == old(
                self,
            ).tasks@ && final(self).next_request_id == old(self).next_request_id,
            forall|i: int| first_with_id(old(self).tasks@, task_id, i) ==> {
                &&& r == Some((old(self).next_request_id, old(self).tasks@[i].region))
                &&& final(self).next_request_id == old(self).next_request_id + 1
                &&& others_unchanged(old(self).tasks@, final(self).tasks@, i)
                &&& final(self).tasks@[i].id == task_id
                &&& final(self).tasks@[i].last_run_at == Some(now)
                &&& final(self).tasks@[i].last_request_id == Some(old(self).next_request_id)
                &&& final(self).tasks@[i].status is Running
                &&& final(self).tasks@[i].region == old(self).tasks@[i].region
                &&& final(self).tasks@[i].frequency == old(self).tasks@[i].frequency
                &&& final(self).tasks@[i].enabled == old(self).tasks@[i].enabled
            },
    {
        let i = match position_of(&self.tasks, task_id) {
            Some(i) => i,
            None => return None,
        };
        let request_id = self.next_request_id;
        self.next_request_id = self.next_request_id + 1;
        let ghost before = self.tasks@;
        let mut task = self.tasks.remove(i);
        task.last_run_at = Some(now);
        task.last_request_id = Some(request_id);
        task.status = TaskStatus::Running;
        let region = task.region;
        self.tasks.insert(i, task);
        proof {
            assert forall|k: int| 0 <= k < before.len() && k != i implies #[trigger] self.tasks@[k] == before[k] by {
            }
        }
        Some((request_id, region))
    }

    /// Files a recognition result for the first task with the id.
    pub fn apply_result(
        &mut self,
        task_id: u64,
        request_id: u64,
        finished_at: u128,
        response: Result<PerceptionResult, PerceptionError>,
    )
        requires
            old(self).wf(),
        ensures
            final(self).state == old(self).state,
            final(self).pending_task_upsert == old(self).pending_task_upsert,
            final(self).wf(),
            final(self).next_task_id == old(self).next_task_id,
            final(self).next_request_id == old(self).next_request_id,
            final(self).selected_task_id == old(self).selected_task_id,
            !has_id(old(self).tasks@, task_id) ==> final(self).tasks@ == old(self).tasks@,
            forall|i: int| first_with_id(old(self).tasks@, task_id, i) ==> {
                let t = final(self).tasks@[i];
                let o = old(self).tasks@[i];
                &&& others_unchanged(old(self).tasks@, final(self).tasks@, i)
                &&& t.id == task_id
                &&& t.last_result_at == Some(finished_at)
                &&& t.last_request_id == Some(request_id)
                &&& t.last_run_at == o.last_run_at
                &&& t.frequency == o.frequency
                &&& t.enabled == o.enabled
                &&& match response {
                    Ok(result) => t.region == result.region && (t.status matches TaskStatus::Success {
                        summary,
                        text,
                    } && summary@ == result.summary@ && text@ == result.text@),
                    Err(error) => t.region == o.region && (t.status matches TaskStatus::Failed(m)
                        && m@ == error.message@),
                }
            },
    {
        let i = match position_of(&self.tasks, task_id) {
            Some(i) => i,
            None => return ,
        };
        let ghost before = self.tasks@;
        let mut task = self.tasks.remove(i);
        task.last_result_at = Some(finished_at);
        task.last_request_id = Some(request_id);
        match response {
            Ok(result) => {
                task.region = result.region;
                task.status = TaskStatus::Success { summary: result.summary, text: result.text };
            },
            Err(error) => {
                task.status = TaskStatus::Failed(error.message);
            },
        }
        self.tasks.insert(i, task);
        proof {
            assert forall|k: int| 0 <= k < before.len() && k != i implies #[trigger] self.tasks@[k] == before[k] by {
            }
        }
    }

    /// The ids of the tasks due at `now`, in list order.
    pub fn due_task_ids(&self, now: u128) -> (ids: Vec<u64>)
        ensures
            ids@ == due_ids(self.tasks@, now as int),
    {
        let mut ids: Vec<u64> = Vec::new();
        let mut i: usize = 0;
        while i < self.tasks.len()
            invariant
                i <= self.tasks@.len(),
                ids@ == due_ids(self.tasks@.subrange(0, i as int), now as int),
            decreases self.tasks@.len() - i,
        {
            let task = &self.tasks[i];
            let running = match task.status {
                TaskStatus::Running => true,
                _ => false,
            };
            let waited = match task.last_run_at {
                None => true,
                Some(last) => (if now >= last { now - last } else { 0 }) >= task.frequency,
            };
            proof {
                let p = self.tasks@.subrange(0, i + 1);
                assert(p.drop_last() =~= self.tasks@.subrange(0, i as int));
            }
            if task.enabled && !running && waited {
                ids.push(task.id);
            }
            i = i + 1;
        }
        assert(self.tasks@.subrange(0, i as int) =~= self.tasks@);
        ids
    }
}

/// Law: task ids are unique and a new task's id was never used before.
pub proof fn law_task_ids_unique(board: &TaskBoard, i: int, j: int)
    requires
        board.wf(),
        0 <= i < board.tasks@.len(),
        0 <= j < board.tasks@.len(),
        i != j,
    ensures
        board.tasks@[i].id != board.tasks@[j].id,
        board.tasks@[i].id < board.next_task_id,
{
}

/// Every due id is the id of one of the tasks.
proof fn lemma_due_ids_from_tasks(tasks: Seq<OverlayTask>, now: int)
    ensures
        forall|k: int|
            0 <= k < due_ids(tasks, now).len() ==> exists|j: int|
                0 <= j < tasks.len() && tasks[j].id == #[trigger] due_ids(tasks, now)[k],
    decreases tasks.len(),
{
    if tasks.len() > 0 {
        let prev = tasks.drop_last();
        lemma_due_ids_from_tasks(prev, now);
        let rest = due_ids(prev, now);
        assert forall|k: int| 0 <= k < due_ids(tasks, now).len() implies exists|j: int|
            0 <= j < tasks.len() && tasks[j].id == #[trigger] due_ids(tasks, now)[k] by {
            if k < rest.len() {
                assert(due_ids(tasks, now)[k] == rest[k]);
                let j = choose|j: int| 0 <= j < prev.len() && prev[j].id == #[trigger] rest[k];
                assert(tasks[j] == prev[j]);
            } else {
                assert(due_ids(tasks, now)[k] == tasks[tasks.len() - 1].id);
            }
        }
    }
}

/// With increasing ids, the id of a task is due exactly when the task is.
proof fn lemma_due_ids_contains(tasks: Seq<OverlayTask>, now: int, i: int)
    requires
        forall|a: int, b: int| 0 <= a < b < tasks.len() ==> tasks[a].id < tasks[b].id,
        0 <= i < tasks.len(),
    ensures
        due_ids(tasks, now).contains(tasks[i].id) == tasks[i].spec_is_due(now),
    decreases tasks.len(),
{
    let prev = tasks.drop_last();
    let rest = due_ids(prev, now);
    let last = tasks.len() - 1;
    if i == last {
        lemma_due_ids_from_tasks(prev, now);
        if rest.contains(tasks[i].id) {
            let k = choose|k: int| 0 <= k < rest.len() && rest[k] == tasks[i].id;
            let j = choose|j: int| 0 <= j < prev.len() && prev[j].id == #[trigger] rest[k];
            assert(tasks[j].id < tasks[i].id);
        }
        if tasks[i].spec_is_due(now) {
            assert(due_ids(tasks, now)[rest.len() as int] == tasks[i].id);
        }
    } else {
        lemma_due_ids_contains(prev, now, i);
        assert(prev[i] == tasks[i]);
        assert(tasks[i].id < tasks[last].id);
        if tasks[last].spec_is_due(now) {
            let d = due_ids(tasks, now);
            assert(d == rest.push(tasks[last].id));
            if rest.contains(tasks[i].id) {
                let k = choose|k: int| 0 <= k < rest.len() && rest[k] == tasks[i].id;
                assert(d[k] == tasks[i].id);
            }
            if d.contains(tasks[i].id) {
                let k = choose|k: int| 0 <= k < d.len() && d[k] == tasks[i].id;
                assert(k < rest.len());
                assert(rest[k] == tasks[i].id);
            }
        }
    }
}

/// Law: a task's id is among the ids due at `now` exactly when the task is enabled,
/// is not running, and its frequency has passed since it last ran (or it never ran;
/// a clock that went back counts as no time passed). What its last run gave,
/// success or failure, plays no part.
pub proof fn law_due_tasks(board: &TaskBoard, now: int, i: int)
    requires
        board.wf(),
        0 <= i < board.tasks@.len(),
    ensures
        due_ids(board.tasks@, now).contains(board.tasks@[i].id) == {
            let t = board.tasks@[i];
            &&& t.enabled
            &&& !(t.status is Running)
            &&& match t.last_run_at {
                None => true,
                Some(last) => last + t.frequency <= now || t.frequency == 0,
            }
        },
{
    lemma_due_ids_contains(board.tasks@, now, i);
}

/// Law: the edit that a finished selection opens for an existing task starts from
/// that task (the first with the selected id): it keeps the task's id, title,
/// frequency and enabled flag, so a disabled task stays disabled, and takes the new
/// region. With no task selected, or none with the selected id, it starts from a new
/// task's defaults: the next task's title, three seconds, enabled.
pub proof fn law_edit_starts_from_task(
    tasks: Seq<OverlayTask>,
    selected: Option<u64>,
    next_task_id: u64,
    region: ScreenRect,
    p: PendingTaskUpsert,
    i: int,
)
    requires
        spec_pending_for(tasks, selected, next_task_id, region, p),
    ensures
        p.task_id == selected,
        p.region == region,
        (selected matches Some(id) && 0 <= i < tasks.len() && tasks[i].id == id && forall|j: int|
            0 <= j < i ==> tasks[j].id != id) ==> {
            &&& p.enabled == tasks[i].enabled
            &&& p.title@ == tasks[i].title@
            &&& p.frequency == tasks[i].frequency
        },
        (selected matches Some(id) ==> forall|j: int| 0 <= j < tasks.len() ==> tasks[j].id != id)
            ==> {
            &&& p.enabled
            &&& p.title@ == "Task "@ + decimal(next_task_id as nat)
            &&& p.frequency == 3 * NANOS_PER_SEC
        },
{
    if let Some(id) = selected {
        if 0 <= i < tasks.len() && tasks[i].id == id && forall|j: int|
            0 <= j < i ==> tasks[j].id != id {
            assert(has_id(tasks, id));
            let k = choose|k: int|
                first_with_id(tasks, id, k) && p.title@ == tasks[k].title@ && p.frequency
                    == tasks[k].frequency && p.enabled == tasks[k].enabled;
            if k < i {
                assert(tasks[k].id != id);
            }
            if i < k {
                assert(tasks[i].id != id);
            }
        }
        if forall|j: int| 0 <= j < tasks.len() ==> tasks[j].id != id {
            assert(!has_id(tasks, id));
        }
    }
}

} // verus!
