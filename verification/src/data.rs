//! The fetched project and task records the filter engine works on.
//!
//! These mirror what the resource API returns, with every date carried
//! as a [`Moment`](crate::timeframe::Moment) so the filter can reason
//! about it; the unverified rim parses the wire format and converts.

use vstd::prelude::*;

use crate::timeframe::Moment;

verus! {

/// A project as listed by the resource API.
#[derive(Clone, Debug)]
pub struct Project {
    /// Opaque project identifier.
    pub id: String,
    /// Display name.
    pub name: String,
    /// Optional display color tag.
    pub color: Option<String>,
    /// Position among the user's projects.
    pub sort_order: i64,
    /// Whether the project is closed.
    pub closed: Option<bool>,
    /// Group the project belongs to, if any.
    pub group_id: Option<String>,
    /// How the project is displayed.
    pub view_mode: Option<String>,
    /// The caller's permission on the project.
    pub permission: Option<String>,
    /// The project kind reported by the service.
    pub kind: String,
}

/// One entry of a task's checklist.
#[derive(Clone, Debug)]
pub struct ChecklistItem {
    /// Opaque item identifier.
    pub id: String,
    /// Item text.
    pub title: String,
    /// Completion status code.
    pub status: i32,
    /// When the item was completed, if it was.
    pub completed_time: Option<Moment>,
    /// Whether the item is an all-day entry.
    pub is_all_day: bool,
    /// Position within the checklist.
    pub sort_order: i64,
    /// When the item starts, if set.
    pub start_date: Option<Moment>,
    /// Time zone the item's dates were entered in.
    pub time_zone: String,
}

/// A task of a project.
#[derive(Clone, Debug)]
pub struct Task {
    /// Opaque task identifier.
    pub id: String,
    /// Identifier of the owning project.
    pub project_id: String,
    /// Task title.
    pub title: String,
    /// Whether the task is an all-day entry.
    pub is_all_day: bool,
    /// When the task was completed, if it was.
    pub completed_time: Option<Moment>,
    /// Task body text.
    pub content: String,
    /// Task description.
    pub desc: String,
    /// When the task is due, if a due date is set.
    pub due_date: Option<Moment>,
    /// The task's checklist, if it has one.
    pub items: Option<Vec<ChecklistItem>>,
    /// Priority code.
    pub priority: i32,
    /// Reminder triggers.
    pub reminders: Option<Vec<String>>,
    /// Recurrence rule, if the task repeats.
    pub repeat_flag: Option<String>,
    /// Position within the project.
    pub sort_order: i64,
    /// When the task starts, if set.
    pub start_date: Option<Moment>,
    /// Completion status code.
    pub status: u32,
    /// Time zone the task's dates were entered in.
    pub time_zone: String,
}

/// A kanban column of a project.
#[derive(Clone, Debug)]
pub struct Column {
    /// Opaque column identifier.
    pub id: String,
    /// Identifier of the owning project.
    pub project_id: String,
    /// Column name.
    pub name: String,
    /// Position among the project's columns.
    pub sort_order: i64,
}

/// A project together with its tasks and columns.
#[derive(Clone, Debug)]
pub struct ProjectData {
    /// The project itself.
    pub project: Project,
    /// Its tasks, in fetch order.
    pub tasks: Vec<Task>,
    /// Its kanban columns.
    pub columns: Vec<Column>,
}

/// A read-only reference to one task of a fetched project collection:
/// the position of the owning project and of the task within it.
#[derive(Clone, Copy, PartialEq, Eq, Structural, Debug)]
pub struct TaggedTask {
    /// Position of the owning project in the fetched collection.
    pub project_index: usize,
    /// Position of the task within that project.
    pub task_index: usize,
}

} // verus!
