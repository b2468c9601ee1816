//! Tasks and their lifecycle: the legal moves between statuses, assignment,
//! and the hours logged against a task.

use vstd::prelude::*;
use crate::clock::{system_time, Timestamp};
use crate::ident::{is_random_v4, random_id, EntityId};
use crate::value_objects::enums::{Priority, TaskStatus};

verus! {

/// An amount of working time, counted in thousandths of an hour.
#[derive(Clone, Copy, Debug, PartialEq, Eq, Hash, Structural)]
pub struct Hours {
    pub thousandths: i64,
}

impl Hours {
    /// The amount of `thousandths` thousandths of an hour.
    pub fn from_thousandths(thousandths: i64) -> (h: Hours)
        ensures
            h.thousandths == thousandths,
    {
        Hours { thousandths }
    }
}

/// A unit of work within a project.
#[derive(Clone, Debug)]
pub struct Task {
    pub id: EntityId,
    pub project_id: EntityId,
    pub milestone_id: Option<EntityId>,
    pub title: String,
    pub description: Option<String>,
    pub status: TaskStatus,
    pub priority: Priority,
    pub assignee_id: Option<EntityId>,
    pub due_date: Option<Timestamp>,
    pub estimated_hours: Option<Hours>,
    pub actual_hours: Option<Hours>,
    pub created_at: Timestamp,
    pub updated_at: Timestamp,
}

/// The hours logged so far, none counting as zero.
pub open spec fn logged(hours: Option<Hours>) -> int {
    match hours {
        Some(h) => h.thousandths as int,
        None => 0,
    }
}

impl Task {
    /// Whether the task may move to `next`.
    pub open spec fn spec_can_transition_to(&self, next: &TaskStatus) -> bool {
        self.status.spec_allows(*next)
    }

    /// Whether logging `hours` keeps the total within the machine's integers.
    pub open spec fn can_log(&self, hours: Hours) -> bool {
        i64::MIN <= logged(self.actual_hours) + hours.thousandths <= i64::MAX
    }

    /// The task after a move to `status` at the moment `now`.
    pub open spec fn moved_to(self, status: TaskStatus, now: Timestamp) -> Task {
        Task { status, updated_at: now, ..self }
    }

    /// The task after it was handed to `user_id`, or to nobody, at the
    /// moment `now`.
    pub open spec fn assigned_to(self, user_id: Option<EntityId>, now: Timestamp) -> Task {
        Task { assignee_id: user_id, updated_at: now, ..self }
    }

    /// The task after `hours` were logged at the moment `now`.
    pub open spec fn with_hours_logged(self, hours: Hours, now: Timestamp) -> Task {
        Task {
            actual_hours: Some(
                Hours { thousandths: (logged(self.actual_hours) + hours.thousandths) as i64 },
            ),
            updated_at: now,
            ..self
        }
    }

    /// A new task of a project. It starts in `Todo`, with no milestone and
    /// no hours logged, under a fresh identifier, created and updated at the
    /// present moment. The priority is `Medium` unless one is given.
    pub fn new(
        project_id: EntityId,
        title: String,
        description: Option<String>,
        priority: Option<Priority>,
        assignee_id: Option<EntityId>,
        due_date: Option<Timestamp>,
        estimated_hours: Option<Hours>,
    ) -> (task: Task)
        ensures
            is_random_v4(task.id.0),
            task.project_id == project_id,
            task.milestone_id is None,
            task.title == title,
            task.description == description,
            task.status == TaskStatus::Todo,
            task.priority == match priority {
                Some(p) => p,
                None => Priority::Medium,
            },
            task.assignee_id == assignee_id,
            task.due_date == due_date,
            task.estimated_hours == estimated_hours,
            task.actual_hours is None,
            task.created_at == task.updated_at,
            task.created_at.is_clock_reading(),
    {
        let now = system_time();
        Task {
            id: random_id(),
            project_id,
            milestone_id: None,
            title,
            description,
            status: TaskStatus::Todo,
            priority: match priority {
                Some(p) => p,
                None => Priority::Medium,
            },
            assignee_id,
            due_date,
            estimated_hours,
            actual_hours: None,
            created_at: now,
            updated_at: now,
        }
    }

    /// Whether the task is done.
    pub fn is_done(&self) -> (r: bool)
        ensures
            r == (self.status == TaskStatus::Done),
    {
        matches!(self.status, TaskStatus::Done)
    }

    /// Whether the task is blocked.
    pub fn is_blocked(&self) -> (r: bool)
        ensures
            r == (self.status == TaskStatus::Blocked),
    {
        matches!(self.status, TaskStatus::Blocked)
    }

    /// Whether the task may move to `new_status`: the pair of its status and
    /// the new one is in the table of legal moves.
    #[verifier::when_used_as_spec(spec_can_transition_to)]
    pub fn can_transition_to(&self, new_status: &TaskStatus) -> (r: bool)
        ensures
            r == self.spec_can_transition_to(new_status),
    {
        self.status.allows(*new_status)
    }

    /// Moves the task to `status` at the moment `now`.
    ///
    /// The move has to be a legal one: the caller asks `can_transition_to`
    /// first. Nothing but the status and the time of the last update changes.
    pub fn update_status_at(&mut self, status: TaskStatus, now: Timestamp)
        requires
            old(self).spec_can_transition_to(&status),
        ensures
            *final(self) == old(self).moved_to(status, now),
    {
        self.status = status;
        self.updated_at = now;
    }

    /// Moves the task to `status` and stamps it with the present moment.
    ///
    /// The move has to be a legal one: the caller asks `can_transition_to`
    /// first.
    pub fn update_status(&mut self, status: TaskStatus)
        requires
            old(self).spec_can_transition_to(&status),
        ensures
            *final(self) == old(self).moved_to(status, final(self).updated_at),
            final(self).updated_at.is_clock_reading(),
    {
        let now = system_time();
        self.update_status_at(status, now);
    }

    /// Hands the task to `user_id`, or to nobody, at the moment `now`. This
    /// is allowed in every status.
    pub fn assign_to_at(&mut self, user_id: Option<EntityId>, now: Timestamp)
        ensures
            *final(self) == old(self).assigned_to(user_id, now),
    {
        self.assignee_id = user_id;
        self.updated_at = now;
    }

    /// Hands the task to `user_id`, or to nobody, and stamps it with the
    /// present moment.
    pub fn assign_to(&mut self, user_id: Option<EntityId>)
        ensures
            *final(self) == old(self).assigned_to(user_id, final(self).updated_at),
            final(self).updated_at.is_clock_reading(),
    {
        let now = system_time();
        self.assign_to_at(user_id, now);
    }

    /// Adds `hours` to the hours logged, which count as zero while none are
    /// logged, at the moment `now`. An amount below zero is not turned down.
    pub fn log_hours_at(&mut self, hours: Hours, now: Timestamp)
        requires
            old(self).can_log(hours),
        ensures
            *final(self) == old(self).with_hours_logged(hours, now),
    {
        let prior: i64 = match self.actual_hours {
            Some(h) => h.thousandths,
            None => 0,
        };
        self.actual_hours = Some(Hours { thousandths: prior + hours.thousandths });
        self.updated_at = now;
    }

    /// Adds `hours` to the hours logged and stamps the task with the present
    /// moment.
    pub fn log_hours(&mut self, hours: Hours)
        requires
            old(self).can_log(hours),
        ensures
            *final(self) == old(self).with_hours_logged(hours, final(self).updated_at),
            final(self).updated_at.is_clock_reading(),
    {
        let now = system_time();
        self.log_hours_at(hours, now);
    }
}

/// A remark on a task.
#[derive(Clone, Debug)]
pub struct TaskComment {
    pub id: EntityId,
    pub task_id: EntityId,
    pub user_id: EntityId,
    pub content: String,
    pub created_at: Timestamp,
    pub updated_at: Timestamp,
}

impl TaskComment {
    /// A new remark of `user_id` on `task_id`, under a fresh identifier,
    /// created and updated at the present moment.
    pub fn new(task_id: EntityId, user_id: EntityId, content: String) -> (comment: TaskComment)
        ensures
            is_random_v4(comment.id.0),
            comment.task_id == task_id,
            comment.user_id == user_id,
            comment.content == content,
            comment.created_at == comment.updated_at,
            comment.created_at.is_clock_reading(),
    {
        let now = system_time();
        TaskComment { id: random_id(), task_id, user_id, content, created_at: now, updated_at: now }
    }
}

/// The table of legal moves, pair by pair: a move is legal exactly when it
/// is one of these nine.
pub proof fn lemma_transition_table(from: TaskStatus, to: TaskStatus)
    ensures
        from.spec_allows(to) <==> {
            ||| (from == TaskStatus::Todo && to == TaskStatus::InProgress)
            ||| (from == TaskStatus::InProgress && to == TaskStatus::Review)
            ||| (from == TaskStatus::InProgress && to == TaskStatus::Blocked)
            ||| (from == TaskStatus::InProgress && to == TaskStatus::Todo)
            ||| (from == TaskStatus::Review && to == TaskStatus::Done)
            ||| (from == TaskStatus::Review && to == TaskStatus::InProgress)
            ||| (from == TaskStatus::Blocked && to == TaskStatus::InProgress)
            ||| (from == TaskStatus::Blocked && to == TaskStatus::Todo)
            ||| (from == TaskStatus::Done && to == TaskStatus::InProgress)
        },
{
}

/// No status may be kept by way of a move, and every status has a way on.
pub proof fn lemma_no_move_stays(status: TaskStatus)
    ensures
        !status.spec_allows(status),
        exists|next: TaskStatus| status.spec_allows(next),
{
    assert(status.spec_allows(TaskStatus::InProgress) || status.spec_allows(TaskStatus::Todo));
}

/// Hours logged on a task without any are the amount itself, a second
/// amount comes on top of the first, and amounts that are not below zero
/// never lower the total.
pub proof fn lemma_logged_hours_add_up(task: Task, a: Hours, b: Hours, first: Timestamp, second: Timestamp)
    requires
        task.can_log(a),
        task.with_hours_logged(a, first).can_log(b),
    ensures
        task.actual_hours is None ==> task.with_hours_logged(a, first).actual_hours == Some(a),
        logged(task.with_hours_logged(a, first).with_hours_logged(b, second).actual_hours)
            == logged(task.actual_hours) + a.thousandths + b.thousandths,
        a.thousandths >= 0 ==> logged(task.actual_hours) <= logged(
            task.with_hours_logged(a, first).actual_hours,
        ),
        task.with_hours_logged(a, first).updated_at == first,
{
}

/// Assigning and then unassigning leaves the task with nobody, and the time
/// of the last update moves forward with each of the two calls, as long as
/// the clock has moved forward before each.
pub proof fn lemma_assign_then_unassign(
    task: Task,
    user: EntityId,
    first: Timestamp,
    second: Timestamp,
)
    requires
        task.updated_at.precedes(first),
        first.precedes(second),
    ensures
        task.assigned_to(Some(user), first).assignee_id == Some(user),
        task.assigned_to(Some(user), first).assigned_to(None, second).assignee_id is None,
        task.updated_at.precedes(task.assigned_to(Some(user), first).updated_at),
        task.assigned_to(Some(user), first).updated_at.precedes(
            task.assigned_to(Some(user), first).assigned_to(None, second).updated_at,
        ),
        task.assigned_to(Some(user), first).assigned_to(None, second) == task.assigned_to(
            None,
            second,
        ),
{
}

/// A move changes the status to the one asked for and nothing else but the
/// time of the last update; assigning and logging leave the status as it is.
pub proof fn lemma_only_moves_change_status(
    task: Task,
    status: TaskStatus,
    user: Option<EntityId>,
    hours: Hours,
    now: Timestamp,
)
    ensures
        task.moved_to(status, now).status == status,
        task.assigned_to(user, now).status == task.status,
        task.with_hours_logged(hours, now).status == task.status,
        task.moved_to(status, now).assignee_id == task.assignee_id,
        task.moved_to(status, now).actual_hours == task.actual_hours,
{
}

} // verus!
