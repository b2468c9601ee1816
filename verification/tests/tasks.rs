use std::cell::RefCell;

use pmo_backend::clock::Timestamp;
use pmo_backend::commands::{CreateTaskCommand, UpdateTaskCommand};
use pmo_backend::entities::{Hours, Task, TaskComment};
use pmo_backend::error::{DomainError, ErrorKind};
use pmo_backend::ident::EntityId;
use pmo_backend::repositories::TaskRepository;
use pmo_backend::services::TaskAppService;
use pmo_backend::value_objects::{Priority, TaskStatus};

const PROJECT: EntityId = EntityId(7);
const USER: EntityId = EntityId(11);

const ALL: [TaskStatus; 5] = [
    TaskStatus::Todo,
    TaskStatus::InProgress,
    TaskStatus::Review,
    TaskStatus::Done,
    TaskStatus::Blocked,
];

fn task() -> Task {
    Task::new(PROJECT, "Write the report".to_string(), None, None, None, None, None)
}

fn task_in(status: TaskStatus) -> Task {
    let mut task = task();
    task.status = status;
    task
}

fn legal(from: TaskStatus, to: TaskStatus) -> bool {
    matches!(
        (from, to),
        (TaskStatus::Todo, TaskStatus::InProgress)
            | (TaskStatus::InProgress, TaskStatus::Review)
            | (TaskStatus::InProgress, TaskStatus::Blocked)
            | (TaskStatus::InProgress, TaskStatus::Todo)
            | (TaskStatus::Review, TaskStatus::Done)
            | (TaskStatus::Review, TaskStatus::InProgress)
            | (TaskStatus::Blocked, TaskStatus::InProgress)
            | (TaskStatus::Blocked, TaskStatus::Todo)
            | (TaskStatus::Done, TaskStatus::InProgress)
    )
}

#[test]
fn a_new_task_starts_in_todo() {
    let before = chrono::Utc::now().timestamp();
    let task = Task::new(
        PROJECT,
        "Write the report".to_string(),
        Some("All of it".to_string()),
        None,
        Some(USER),
        Some(Timestamp::new(2_000_000_000, 0)),
        Some(Hours::from_thousandths(8000)),
    );
    let after = chrono::Utc::now().timestamp();
    assert_eq!(task.project_id, PROJECT);
    assert_eq!(task.milestone_id, None);
    assert_eq!(task.title, "Write the report");
    assert_eq!(task.description.as_deref(), Some("All of it"));
    assert_eq!(task.status, TaskStatus::Todo);
    assert_eq!(task.priority, Priority::Medium);
    assert_eq!(task.assignee_id, Some(USER));
    assert_eq!(task.due_date, Some(Timestamp::new(2_000_000_000, 0)));
    assert_eq!(task.estimated_hours, Some(Hours::from_thousandths(8000)));
    assert_eq!(task.actual_hours, None);
    assert_eq!(task.created_at, task.updated_at);
    assert!(before <= task.created_at.secs && task.created_at.secs <= after);
    assert!(task.created_at.nanos < 1_000_000_000);
    assert!(!task.is_done());
    assert!(!task.is_blocked());
    let urgent = Task::new(PROJECT, "x".to_string(), None, Some(Priority::Critical), None, None, None);
    assert_eq!(urgent.priority, Priority::Critical);
    assert_ne!(urgent.id, task.id);
}

#[test]
fn the_table_of_legal_moves() {
    let mut count = 0;
    for from in ALL {
        for to in ALL {
            assert_eq!(task_in(from).can_transition_to(&to), legal(from, to));
            assert_eq!(from.allows(to), legal(from, to));
            if legal(from, to) {
                count += 1;
            }
        }
        assert!(!task_in(from).can_transition_to(&from));
    }
    assert_eq!(count, 9);
}

#[test]
fn the_moves_that_are_named() {
    assert!(!task_in(TaskStatus::Todo).can_transition_to(&TaskStatus::Done));
    assert!(task_in(TaskStatus::Review).can_transition_to(&TaskStatus::Done));
    assert!(task_in(TaskStatus::Done).can_transition_to(&TaskStatus::InProgress));
    assert!(!task_in(TaskStatus::Done).can_transition_to(&TaskStatus::Review));
}

#[test]
fn a_move_is_asked_for_and_then_made() {
    // The mutator trusts its caller: whoever moves a task asks
    // `can_transition_to` first, and moves it only where the answer is yes.
    let mut task = task();
    let path = [
        TaskStatus::InProgress,
        TaskStatus::Blocked,
        TaskStatus::InProgress,
        TaskStatus::Review,
        TaskStatus::Done,
        TaskStatus::InProgress,
        TaskStatus::Todo,
    ];
    let mut clock = 100;
    for next in path {
        assert!(task.can_transition_to(&next));
        clock += 1;
        task.update_status_at(next, Timestamp::new(clock, 0));
        assert_eq!(task.status, next);
        assert_eq!(task.updated_at, Timestamp::new(clock, 0));
    }
    assert_eq!(task.title, "Write the report");
    assert!(task.can_transition_to(&TaskStatus::InProgress));
    task.update_status(TaskStatus::InProgress);
    assert_eq!(task.status, TaskStatus::InProgress);
    assert!(task.updated_at.secs > clock);
}

#[test]
fn done_and_blocked() {
    assert!(task_in(TaskStatus::Done).is_done());
    assert!(!task_in(TaskStatus::Done).is_blocked());
    assert!(task_in(TaskStatus::Blocked).is_blocked());
    assert!(!task_in(TaskStatus::Review).is_done());
}

#[test]
fn hours_add_up() {
    let mut task = task();
    assert_eq!(task.actual_hours, None);
    task.log_hours_at(Hours::from_thousandths(2500), Timestamp::new(10, 0));
    assert_eq!(task.actual_hours, Some(Hours::from_thousandths(2500)));
    assert_eq!(task.updated_at, Timestamp::new(10, 0));
    task.log_hours_at(Hours::from_thousandths(1000), Timestamp::new(20, 0));
    assert_eq!(task.actual_hours, Some(Hours::from_thousandths(3500)));
    assert_eq!(task.updated_at, Timestamp::new(20, 0));
    task.log_hours(Hours::from_thousandths(500));
    assert_eq!(task.actual_hours, Some(Hours::from_thousandths(4000)));
    assert_eq!(task.status, TaskStatus::Todo);
}

#[test]
fn hours_below_zero_are_not_turned_down() {
    let mut task = task();
    task.log_hours_at(Hours::from_thousandths(-250), Timestamp::new(10, 0));
    assert_eq!(task.actual_hours, Some(Hours::from_thousandths(-250)));
    task.log_hours_at(Hours::from_thousandths(0), Timestamp::new(11, 0));
    assert_eq!(task.actual_hours, Some(Hours::from_thousandths(-250)));
}

#[test]
fn assigning_and_unassigning() {
    let mut task = task();
    let created = task.updated_at;
    let first = Timestamp::new(created.secs + 1, 0);
    let second = Timestamp::new(created.secs + 1, 1);
    task.assign_to_at(Some(USER), first);
    assert_eq!(task.assignee_id, Some(USER));
    assert!(task.updated_at.is_after(&created));
    task.assign_to_at(None, second);
    assert_eq!(task.assignee_id, None);
    assert!(task.updated_at.is_after(&first));
    assert_eq!(task.updated_at, second);
    assert_eq!(task.created_at, created);
}

#[test]
fn assigning_is_allowed_in_every_status() {
    for status in ALL {
        let mut task = task_in(status);
        task.assign_to(Some(USER));
        assert_eq!(task.assignee_id, Some(USER));
        assert_eq!(task.status, status);
        assert!(!task.updated_at.is_before(&task.created_at));
        task.assign_to(None);
        assert_eq!(task.assignee_id, None);
    }
}

#[test]
fn a_remark_on_a_task() {
    let comment = TaskComment::new(EntityId(1), USER, "Looks good".to_string());
    assert_eq!(comment.task_id, EntityId(1));
    assert_eq!(comment.user_id, USER);
    assert_eq!(comment.content, "Looks good");
    assert_eq!(comment.created_at, comment.updated_at);
}

fn no_change() -> UpdateTaskCommand {
    UpdateTaskCommand {
        title: None,
        description: None,
        status: None,
        priority: None,
        assignee_id: None,
        due_date: None,
        estimated_hours: None,
        actual_hours: None,
    }
}

type Service<'a> = TaskAppService<&'a MemoryTasks>;

#[test]
fn a_change_takes_the_fields_it_names() {
    let mut task = task();
    let created = task.created_at;
    let cmd = UpdateTaskCommand {
        title: Some("Write the book".to_string()),
        description: Some("All chapters".to_string()),
        status: Some(TaskStatus::InProgress),
        priority: Some(Priority::High),
        assignee_id: Some(USER),
        due_date: Some(Timestamp::new(99, 0)),
        estimated_hours: Some(Hours::from_thousandths(1500)),
        actual_hours: Some(Hours::from_thousandths(250)),
    };
    let now = Timestamp::new(created.secs + 5, 0);
    Service::apply_update_at(&mut task, cmd, now).unwrap();
    assert_eq!(task.title, "Write the book");
    assert_eq!(task.description.as_deref(), Some("All chapters"));
    assert_eq!(task.status, TaskStatus::InProgress);
    assert_eq!(task.priority, Priority::High);
    assert_eq!(task.assignee_id, Some(USER));
    assert_eq!(task.due_date, Some(Timestamp::new(99, 0)));
    assert_eq!(task.estimated_hours, Some(Hours::from_thousandths(1500)));
    assert_eq!(task.actual_hours, Some(Hours::from_thousandths(250)));
    assert_eq!(task.updated_at, now);
    assert_eq!(task.created_at, created);
    assert_eq!(task.project_id, PROJECT);
}

#[test]
fn a_change_leaves_what_it_does_not_name() {
    let mut task = task();
    task.assignee_id = Some(USER);
    let before = task.clone();
    Service::apply_update_at(&mut task, no_change(), Timestamp::new(5, 0)).unwrap();
    assert_eq!(task.title, before.title);
    assert_eq!(task.status, before.status);
    assert_eq!(task.assignee_id, Some(USER));
    assert_eq!(task.updated_at, before.updated_at);
    let mut cmd = no_change();
    cmd.title = Some("Other".to_string());
    Service::apply_update_at(&mut task, cmd, Timestamp::new(5, 0)).unwrap();
    assert_eq!(task.title, "Other");
    assert_eq!(task.updated_at, before.updated_at);
}

#[test]
fn a_change_to_an_illegal_status_is_turned_down_and_changes_nothing() {
    let mut task = task();
    let before = task.clone();
    let mut cmd = no_change();
    cmd.title = Some("Other".to_string());
    cmd.status = Some(TaskStatus::Done);
    cmd.assignee_id = Some(USER);
    let error = Service::apply_update_at(&mut task, cmd, Timestamp::new(5, 0)).unwrap_err();
    assert_eq!(error.kind(), ErrorKind::Validation);
    assert_eq!(error.message(), "Invalid status transition");
    assert_eq!(task.title, before.title);
    assert_eq!(task.status, TaskStatus::Todo);
    assert_eq!(task.assignee_id, None);
    assert_eq!(task.updated_at, before.updated_at);
    let mut same = no_change();
    same.status = Some(TaskStatus::Todo);
    assert!(Service::apply_update(&mut task, same).is_err());
}

/// A store of tasks in memory.
struct MemoryTasks {
    tasks: RefCell<Vec<Task>>,
}

impl MemoryTasks {
    fn new() -> Self {
        MemoryTasks { tasks: RefCell::new(Vec::new()) }
    }

    fn filtered(&self, keep: impl Fn(&Task) -> bool) -> Result<Vec<Task>, DomainError> {
        Ok(self.tasks.borrow().iter().filter(|t| keep(t)).cloned().collect())
    }
}

impl TaskRepository for &MemoryTasks {
    fn find_by_id(&self, id: EntityId) -> Result<Option<Task>, DomainError> {
        Ok(self.tasks.borrow().iter().find(|t| t.id == id).cloned())
    }

    fn find_all(&self) -> Result<Vec<Task>, DomainError> {
        self.filtered(|_| true)
    }

    fn find_by_project(&self, project_id: EntityId) -> Result<Vec<Task>, DomainError> {
        self.filtered(|t| t.project_id == project_id)
    }

    fn find_by_assignee(&self, user_id: EntityId) -> Result<Vec<Task>, DomainError> {
        self.filtered(|t| t.assignee_id == Some(user_id))
    }

    fn find_by_status(&self, status: TaskStatus) -> Result<Vec<Task>, DomainError> {
        self.filtered(|t| t.status == status)
    }

    fn create(&self, task: &Task) -> Result<Task, DomainError> {
        self.tasks.borrow_mut().push(task.clone());
        Ok(task.clone())
    }

    fn update(&self, task: &Task) -> Result<Task, DomainError> {
        let mut tasks = self.tasks.borrow_mut();
        match tasks.iter_mut().find(|t| t.id == task.id) {
            Some(slot) => {
                *slot = task.clone();
                Ok(task.clone())
            }
            None => Err(DomainError::NotFound("Task not found".to_string())),
        }
    }

    fn delete(&self, id: EntityId) -> Result<(), DomainError> {
        self.tasks.borrow_mut().retain(|t| t.id != id);
        Ok(())
    }
}

fn creation(title: &str, assignee: Option<EntityId>) -> CreateTaskCommand {
    CreateTaskCommand {
        project_id: PROJECT,
        title: title.to_string(),
        description: None,
        priority: Some(Priority::Low),
        assignee_id: assignee,
        due_date: None,
        estimated_hours: None,
    }
}

#[test]
fn the_service_creates_reads_and_lists() {
    let store = MemoryTasks::new();
    let service = TaskAppService::new(&store);
    let one = service.create_task(creation("one", Some(USER))).unwrap();
    let two = service.create_task(creation("two", None)).unwrap();
    assert_eq!(one.status, TaskStatus::Todo);
    assert_eq!(one.priority, Priority::Low);
    assert_eq!(service.get_task(one.id).unwrap().title, "one");
    assert_eq!(service.list_tasks().unwrap().len(), 2);
    assert_eq!(service.get_tasks_by_project(PROJECT).unwrap().len(), 2);
    assert_eq!(service.get_tasks_by_project(EntityId(8)).unwrap().len(), 0);
    let mine = service.get_tasks_by_assignee(USER).unwrap();
    assert_eq!(mine.len(), 1);
    assert_eq!(mine[0].id, one.id);
    assert_ne!(one.id, two.id);
}

#[test]
fn the_service_reports_a_task_that_is_not_there() {
    let store = MemoryTasks::new();
    let service = TaskAppService::new(&store);
    for error in [
        service.get_task(EntityId(1)).unwrap_err(),
        service.update_task(EntityId(1), no_change()).unwrap_err(),
        service.delete_task(EntityId(1)).unwrap_err(),
    ] {
        assert_eq!(error.kind(), ErrorKind::NotFound);
        assert_eq!(error.message(), "Task not found");
    }
}

#[test]
fn the_service_changes_a_task_along_the_table() {
    let store = MemoryTasks::new();
    let service = TaskAppService::new(&store);
    let task = service.create_task(creation("one", None)).unwrap();
    let mut cmd = no_change();
    cmd.status = Some(TaskStatus::InProgress);
    cmd.assignee_id = Some(USER);
    let changed = service.update_task(task.id, cmd).unwrap();
    assert_eq!(changed.status, TaskStatus::InProgress);
    assert_eq!(changed.assignee_id, Some(USER));
    assert!(!changed.updated_at.is_before(&task.updated_at));
    assert_eq!(service.get_task(task.id).unwrap().status, TaskStatus::InProgress);
    // From `InProgress` there is no way straight to `Done`.
    let mut jump = no_change();
    jump.status = Some(TaskStatus::Done);
    let error = service.update_task(task.id, jump).unwrap_err();
    assert_eq!(error.kind(), ErrorKind::Validation);
    assert_eq!(service.get_task(task.id).unwrap().status, TaskStatus::InProgress);
}

#[test]
fn the_service_deletes_a_task() {
    let store = MemoryTasks::new();
    let service = TaskAppService::new(&store);
    let task = service.create_task(creation("one", None)).unwrap();
    service.delete_task(task.id).unwrap();
    assert_eq!(service.get_task(task.id).unwrap_err().kind(), ErrorKind::NotFound);
    assert!(service.list_tasks().unwrap().is_empty());
}

#[test]
fn the_answer_of_the_store_becomes_the_task_or_its_error() {
    let task = task();
    let found = Service::found_or_missing(Ok(Some(task.clone()))).unwrap();
    assert_eq!(found.id, task.id);
    let missing = Service::found_or_missing(Ok(None)).unwrap_err();
    assert_eq!(missing.kind(), ErrorKind::NotFound);
    let failure = Service::found_or_missing(Err(DomainError::InternalError("down".to_string()))).unwrap_err();
    assert_eq!(failure.kind(), ErrorKind::Internal);
    assert_eq!(failure.message(), "down");
}
