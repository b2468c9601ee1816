//! Tasks: reading, creating, changing and deleting them against the store
//! of tasks.

use vstd::prelude::*;
use crate::clock::{system_time, Timestamp};
use crate::commands::{CreateTaskCommand, UpdateTaskCommand};
use crate::entities::task::Task;
use crate::error::{DomainError, ErrorKind};
use crate::ident::{is_random_v4, EntityId};
use crate::value_objects::enums::{Priority, TaskStatus};
use crate::repositories::TaskRepository;

verus! {

/// A change may be applied to a task when the status it asks for, if it
/// asks for one, is a legal move from the status of the task.
pub open spec fn update_allowed(task: Task, cmd: UpdateTaskCommand) -> bool {
    cmd.status matches Some(status) ==> task.status.spec_allows(status)
}

/// The task after a change was applied at the moment `now`: every field
/// that the change names takes the new value, every other field stays, and
/// the time of the last update moves to `now` where the status or the
/// assignee is named.
pub open spec fn updated_task(task: Task, cmd: UpdateTaskCommand, now: Timestamp) -> Task {
    Task {
        title: match cmd.title {
            Some(title) => title,
            None => task.title,
        },
        description: match cmd.description {
            Some(description) => Some(description),
            None => task.description,
        },
        status: match cmd.status {
            Some(status) => status,
            None => task.status,
        },
        priority: match cmd.priority {
            Some(priority) => priority,
            None => task.priority,
        },
        assignee_id: match cmd.assignee_id {
            Some(user) => Some(user),
            None => task.assignee_id,
        },
        due_date: match cmd.due_date {
            Some(due) => Some(due),
            None => task.due_date,
        },
        estimated_hours: match cmd.estimated_hours {
            Some(hours) => Some(hours),
            None => task.estimated_hours,
        },
        actual_hours: match cmd.actual_hours {
            Some(hours) => Some(hours),
            None => task.actual_hours,
        },
        updated_at: if cmd.status is Some || cmd.assignee_id is Some {
            now
        } else {
            task.updated_at
        },
        ..task
    }
}

/// The task that a store has found, or the error for one that is not there.
pub open spec fn found_task(found: Result<Option<Task>, DomainError>, r: Result<
    Task,
    DomainError,
>) -> bool {
    match found {
        Ok(Some(task)) => r == Ok::<Task, DomainError>(task),
        Ok(None) => r matches Err(e) && e.is(ErrorKind::NotFound, "Task not found"@),
        Err(failure) => r == Err::<Task, DomainError>(failure),
    }
}

/// The task that a request to add one asks for: under a fresh identifier,
/// in `Todo`, with the fields of the request, the priority `Medium` where
/// none is asked for, no milestone and no hours logged.
pub open spec fn is_new_task(task: Task, cmd: CreateTaskCommand) -> bool {
    &&& is_random_v4(task.id.0)
    &&& task.project_id == cmd.project_id
    &&& task.milestone_id is None
    &&& task.title == cmd.title
    &&& task.description == cmd.description
    &&& task.status == TaskStatus::Todo
    &&& task.priority == match cmd.priority {
        Some(priority) => priority,
        None => Priority::Medium,
    }
    &&& task.assignee_id == cmd.assignee_id
    &&& task.due_date == cmd.due_date
    &&& task.estimated_hours == cmd.estimated_hours
    &&& task.actual_hours is None
    &&& task.created_at == task.updated_at
}

/// What changing the task `id` ends in over a store.
///
/// It is decided on what the store answers when asked for the task: a
/// failure of the store is handed on, a task that is not there ends in its
/// error, a change that is not allowed for the task ends in its error, and
/// every other change ends in what the store answers when handed the
/// changed task.
pub open spec fn update_outcome<R: TaskRepository>(
    store: R,
    id: EntityId,
    cmd: UpdateTaskCommand,
    r: Result<Task, DomainError>,
) -> bool {
    exists|found: Result<Option<Task>, DomainError>| #[trigger]
        store.answers_find_by_id(id, found) && match found {
            Err(failure) => r == Err::<Task, DomainError>(failure),
            Ok(None) => r matches Err(e) && e.is(ErrorKind::NotFound, "Task not found"@),
            Ok(Some(task)) => if update_allowed(task, cmd) {
                exists|now: Timestamp| #[trigger]
                    store.answers_update(updated_task(task, cmd, now), r)
            } else {
                r matches Err(e) && e.is(ErrorKind::Validation, "Invalid status transition"@)
            },
        }
}

/// The service of tasks.
pub struct TaskAppService<R: TaskRepository> {
    task_repository: R,
}

impl<R: TaskRepository> TaskAppService<R> {
    /// The store that the service works against.
    pub closed spec fn store(&self) -> R {
        self.task_repository
    }

    /// A service over the given store.
    pub fn new(task_repository: R) -> (service: Self)
        ensures
            service.store() == task_repository,
    {
        TaskAppService { task_repository }
    }

    /// Turns the answer of the store to the question for one task into the
    /// task, or into the error of a task that is not there; a failure of the
    /// store is handed on.
    pub fn found_or_missing(found: Result<Option<Task>, DomainError>) -> (r: Result<
        Task,
        DomainError,
    >)
        ensures
            found_task(found, r),
    {
        match found {
            Ok(Some(task)) => Ok(task),
            Ok(None) => Err(DomainError::not_found("Task not found")),
            Err(failure) => Err(failure),
        }
    }

    /// Applies a change to a task at the moment `now`.
    ///
    /// A change that asks for a move which is not legal is turned down and
    /// leaves the task as it was.
    pub fn apply_update_at(task: &mut Task, cmd: UpdateTaskCommand, now: Timestamp) -> (r: Result<
        (),
        DomainError,
    >)
        ensures
            match r {
                Ok(_) => update_allowed(*old(task), cmd) && *final(task) == updated_task(
                    *old(task),
                    cmd,
                    now,
                ),
                Err(e) => !update_allowed(*old(task), cmd) && *final(task) == *old(task) && e.is(
                    ErrorKind::Validation,
                    "Invalid status transition"@,
                ),
            },
    {
        if let Some(status) = &cmd.status {
            if !task.can_transition_to(status) {
                return Err(DomainError::validation("Invalid status transition"));
            }
        }
        let UpdateTaskCommand {
            title,
            description,
            status,
            priority,
            assignee_id,
            due_date,
            estimated_hours,
            actual_hours,
        } = cmd;
        if let Some(title) = title {
            task.title = title;
        }
        if let Some(description) = description {
            task.description = Some(description);
        }
        if let Some(status) = status {
            task.update_status_at(status, now);
        }
        if let Some(priority) = priority {
            task.priority = priority;
        }
        if assignee_id.is_some() {
            task.assign_to_at(assignee_id, now);
        }
        if let Some(due_date) = due_date {
            task.due_date = Some(due_date);
        }
        if let Some(estimated_hours) = estimated_hours {
            task.estimated_hours = Some(estimated_hours);
        }
        if let Some(actual_hours) = actual_hours {
            task.actual_hours = Some(actual_hours);
        }
        Ok(())
    }

    /// Applies a change to a task at the present moment.
    pub fn apply_update(task: &mut Task, cmd: UpdateTaskCommand) -> (r: Result<(), DomainError>)
        ensures
            match r {
                Ok(_) => update_allowed(*old(task), cmd) && exists|now: Timestamp|
                    now.secs >= 0 && *final(task) == #[trigger] updated_task(*old(task), cmd, now),
                Err(e) => !update_allowed(*old(task), cmd) && *final(task) == *old(task) && e.is(
                    ErrorKind::Validation,
                    "Invalid status transition"@,
                ),
            },
    {
        let now = system_time();
        Self::apply_update_at(task, cmd, now)
    }

    /// All tasks, as the store lists them.
    pub fn list_tasks(&self) -> (r: Result<Vec<Task>, DomainError>)
        ensures
            self.store().answers_find_all(r),
    {
        self.task_repository.find_all()
    }

    /// The task `id`, or the error of a task that is not there.
    pub fn get_task(&self, id: EntityId) -> (r: Result<Task, DomainError>)
        ensures
            exists|found: Result<Option<Task>, DomainError>| #[trigger]
                self.store().answers_find_by_id(id, found) && found_task(found, r),
    {
        let found = self.task_repository.find_by_id(id);
        let r = Self::found_or_missing(found);
        assert(self.store().answers_find_by_id(id, found) && found_task(found, r));
        r
    }

    /// Makes a new task of a request and hands it to the store, whose answer
    /// is the result.
    pub fn create_task(&self, cmd: CreateTaskCommand) -> (r: Result<Task, DomainError>)
        ensures
            exists|task: Task| #[trigger]
                self.store().answers_create(task, r) && is_new_task(task, cmd),
    {
        let task = Task::new(
            cmd.project_id,
            cmd.title,
            cmd.description,
            cmd.priority,
            cmd.assignee_id,
            cmd.due_date,
            cmd.estimated_hours,
        );
        let r = self.task_repository.create(&task);
        assert(self.store().answers_create(task, r) && is_new_task(task, cmd));
        r
    }

    /// Reads the task `id`, applies a change to it and hands it back to the
    /// store, whose answer is the result. A task that is not there and a
    /// change that is not allowed end in their errors before anything is
    /// written.
    pub fn update_task(&self, id: EntityId, cmd: UpdateTaskCommand) -> (r: Result<
        Task,
        DomainError,
    >)
        ensures
            update_outcome(self.store(), id, cmd, r),
    {
        let found = self.task_repository.find_by_id(id);
        let mut task = match Self::found_or_missing(found) {
            Ok(task) => task,
            Err(e) => {
                return Err(e);
            },
        };
        let ghost before = task;
        match Self::apply_update(&mut task, cmd) {
            Ok(_) => {},
            Err(e) => {
                return Err(e);
            },
        }
        let r = self.task_repository.update(&task);
        proof {
            let now = choose|now: Timestamp|
                now.secs >= 0 && task == #[trigger] updated_task(before, cmd, now);
            assert(self.store().answers_update(updated_task(before, cmd, now), r));
        }
        r
    }

    /// Deletes the task `id`, after making sure that it is there.
    pub fn delete_task(&self, id: EntityId) -> (r: Result<(), DomainError>)
        ensures
            exists|found: Result<Option<Task>, DomainError>| #[trigger]
                self.store().answers_find_by_id(id, found) && match found {
                    Ok(Some(_)) => self.store().answers_delete(id, r),
                    Ok(None) => r matches Err(e) && e.is(ErrorKind::NotFound, "Task not found"@),
                    Err(failure) => r == Err::<(), DomainError>(failure),
                },
    {
        let found = self.task_repository.find_by_id(id);
        let ghost answer = found;
        match Self::found_or_missing(found) {
            Ok(_) => {},
            Err(e) => {
                assert(self.store().answers_find_by_id(id, answer));
                return Err(e);
            },
        }
        let r = self.task_repository.delete(id);
        assert(self.store().answers_find_by_id(id, answer));
        r
    }

    /// The tasks of a project, as the store lists them.
    pub fn get_tasks_by_project(&self, project_id: EntityId) -> (r: Result<Vec<Task>, DomainError>)
        ensures
            self.store().answers_find_by_project(project_id, r),
    {
        self.task_repository.find_by_project(project_id)
    }

    /// The tasks of an assignee, as the store lists them.
    pub fn get_tasks_by_assignee(&self, user_id: EntityId) -> (r: Result<Vec<Task>, DomainError>)
        ensures
            self.store().answers_find_by_assignee(user_id, r),
    {
        self.task_repository.find_by_assignee(user_id)
    }
}

/// A change that is applied moves the status along the table of legal moves
/// or leaves it, and a change that names neither status nor assignee leaves
/// the time of the last update alone.
pub proof fn lemma_update_keeps_lifecycle(task: Task, cmd: UpdateTaskCommand, now: Timestamp)
    requires
        update_allowed(task, cmd),
    ensures
        updated_task(task, cmd, now).status == task.status || task.status.spec_allows(
            updated_task(task, cmd, now).status,
        ),
        cmd.status is None && cmd.assignee_id is None ==> updated_task(task, cmd, now).updated_at
            == task.updated_at,
        updated_task(task, cmd, now).id == task.id,
        updated_task(task, cmd, now).project_id == task.project_id,
        updated_task(task, cmd, now).created_at == task.created_at,
{
}

} // verus!
