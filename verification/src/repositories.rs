//! The stores that the services work against. The core knows a store by
//! these methods alone; what stands behind them is the caller's choice.
//!
//! Beside every method stands a relation between what the store is asked
//! and what it answers. A store that says nothing about itself leaves the
//! relation at its default, under which every answer is possible; the
//! services state their results over these relations, so that what they
//! promise holds for every store.

use vstd::prelude::*;
use crate::entities::activity_log::ActivityLog;
use crate::entities::milestone::Milestone;
use crate::entities::project::Project;
use crate::entities::task::Task;
use crate::entities::team::{Team, TeamMember};
use crate::entities::user::User;
use crate::error::DomainError;
use crate::ident::EntityId;
use crate::value_objects::enums::TaskStatus;

verus! {

/// The store of accounts.
pub trait UserRepository {
    /// Whether `answer` is what this store gives when asked for the account `id`.
    open spec fn answers_find_by_id(&self, id: EntityId, answer: Result<Option<User>, DomainError>) -> bool {
        true
    }

    fn find_by_id(&self, id: EntityId) -> (answer: Result<Option<User>, DomainError>)
        ensures
            self.answers_find_by_id(id, answer),
    ;

    /// Whether `answer` is what this store gives when asked for the account with the address `email`.
    open spec fn answers_find_by_email(&self, email: Seq<char>, answer: Result<Option<User>, DomainError>) -> bool {
        true
    }

    fn find_by_email(&self, email: &str) -> (answer: Result<Option<User>, DomainError>)
        ensures
            self.answers_find_by_email(email@, answer),
    ;

    /// Whether `answer` is what this store gives when asked for all accounts.
    open spec fn answers_find_all(&self, answer: Result<Vec<User>, DomainError>) -> bool {
        true
    }

    fn find_all(&self) -> (answer: Result<Vec<User>, DomainError>)
        ensures
            self.answers_find_all(answer),
    ;

    /// Whether `answer` is what this store gives when handed the new account `user`.
    open spec fn answers_create(&self, user: User, answer: Result<User, DomainError>) -> bool {
        true
    }

    fn create(&self, user: &User) -> (answer: Result<User, DomainError>)
        ensures
            self.answers_create(*user, answer),
    ;

    /// Whether `answer` is what this store gives when handed the changed account `user`.
    open spec fn answers_update(&self, user: User, answer: Result<User, DomainError>) -> bool {
        true
    }

    fn update(&self, user: &User) -> (answer: Result<User, DomainError>)
        ensures
            self.answers_update(*user, answer),
    ;

    /// Whether `answer` is what this store gives when asked to delete the account `id`.
    open spec fn answers_delete(&self, id: EntityId, answer: Result<(), DomainError>) -> bool {
        true
    }

    fn delete(&self, id: EntityId) -> (answer: Result<(), DomainError>)
        ensures
            self.answers_delete(id, answer),
    ;
}

/// The store of tasks.
pub trait TaskRepository {
    /// Whether `answer` is what this store gives when asked for the task `id`.
    open spec fn answers_find_by_id(&self, id: EntityId, answer: Result<Option<Task>, DomainError>) -> bool {
        true
    }

    fn find_by_id(&self, id: EntityId) -> (answer: Result<Option<Task>, DomainError>)
        ensures
            self.answers_find_by_id(id, answer),
    ;

    /// Whether `answer` is what this store gives when asked for all tasks.
    open spec fn answers_find_all(&self, answer: Result<Vec<Task>, DomainError>) -> bool {
        true
    }

    fn find_all(&self) -> (answer: Result<Vec<Task>, DomainError>)
        ensures
            self.answers_find_all(answer),
    ;

    /// Whether `answer` is what this store gives when asked for the tasks of the project `project_id`.
    open spec fn answers_find_by_project(&self, project_id: EntityId, answer: Result<Vec<Task>, DomainError>) -> bool {
        true
    }

    fn find_by_project(&self, project_id: EntityId) -> (answer: Result<Vec<Task>, DomainError>)
        ensures
            self.answers_find_by_project(project_id, answer),
    ;

    /// Whether `answer` is what this store gives when asked for the tasks handed to `user_id`.
    open spec fn answers_find_by_assignee(&self, user_id: EntityId, answer: Result<Vec<Task>, DomainError>) -> bool {
        true
    }

    fn find_by_assignee(&self, user_id: EntityId) -> (answer: Result<Vec<Task>, DomainError>)
        ensures
            self.answers_find_by_assignee(user_id, answer),
    ;

    /// Whether `answer` is what this store gives when asked for the tasks in `status`.
    open spec fn answers_find_by_status(&self, status: TaskStatus, answer: Result<Vec<Task>, DomainError>) -> bool {
        true
    }

    fn find_by_status(&self, status: TaskStatus) -> (answer: Result<Vec<Task>, DomainError>)
        ensures
            self.answers_find_by_status(status, answer),
    ;

    /// Whether `answer` is what this store gives when handed the new task `task`.
    open spec fn answers_create(&self, task: Task, answer: Result<Task, DomainError>) -> bool {
        true
    }

    fn create(&self, task: &Task) -> (answer: Result<Task, DomainError>)
        ensures
            self.answers_create(*task, answer),
    ;

    /// Whether `answer` is what this store gives when handed the changed task `task`.
    open spec fn answers_update(&self, task: Task, answer: Result<Task, DomainError>) -> bool {
        true
    }

    fn update(&self, task: &Task) -> (answer: Result<Task, DomainError>)
        ensures
            self.answers_update(*task, answer),
    ;

    /// Whether `answer` is what this store gives when asked to delete the task `id`.
    open spec fn answers_delete(&self, id: EntityId, answer: Result<(), DomainError>) -> bool {
        true
    }

    fn delete(&self, id: EntityId) -> (answer: Result<(), DomainError>)
        ensures
            self.answers_delete(id, answer),
    ;
}

/// The store of projects.
pub trait ProjectRepository {
    /// Whether `answer` is what this store gives when asked for the project `id`.
    open spec fn answers_find_by_id(&self, id: EntityId, answer: Result<Option<Project>, DomainError>) -> bool {
        true
    }

    fn find_by_id(&self, id: EntityId) -> (answer: Result<Option<Project>, DomainError>)
        ensures
            self.answers_find_by_id(id, answer),
    ;

    /// Whether `answer` is what this store gives when asked for all projects.
    open spec fn answers_find_all(&self, answer: Result<Vec<Project>, DomainError>) -> bool {
        true
    }

    fn find_all(&self) -> (answer: Result<Vec<Project>, DomainError>)
        ensures
            self.answers_find_all(answer),
    ;

    /// Whether `answer` is what this store gives when asked for the projects of `owner_id`.
    open spec fn answers_find_by_owner(&self, owner_id: EntityId, answer: Result<Vec<Project>, DomainError>) -> bool {
        true
    }

    fn find_by_owner(&self, owner_id: EntityId) -> (answer: Result<Vec<Project>, DomainError>)
        ensures
            self.answers_find_by_owner(owner_id, answer),
    ;

    /// Whether `answer` is what this store gives when handed the new project `project`.
    open spec fn answers_create(&self, project: Project, answer: Result<Project, DomainError>) -> bool {
        true
    }

    fn create(&self, project: &Project) -> (answer: Result<Project, DomainError>)
        ensures
            self.answers_create(*project, answer),
    ;

    /// Whether `answer` is what this store gives when handed the changed project `project`.
    open spec fn answers_update(&self, project: Project, answer: Result<Project, DomainError>) -> bool {
        true
    }

    fn update(&self, project: &Project) -> (answer: Result<Project, DomainError>)
        ensures
            self.answers_update(*project, answer),
    ;

    /// Whether `answer` is what this store gives when asked to delete the project `id`.
    open spec fn answers_delete(&self, id: EntityId, answer: Result<(), DomainError>) -> bool {
        true
    }

    fn delete(&self, id: EntityId) -> (answer: Result<(), DomainError>)
        ensures
            self.answers_delete(id, answer),
    ;

    /// Whether `answer` is what this store gives when asked for the tasks of the project `project_id`.
    open spec fn answers_find_tasks(&self, project_id: EntityId, answer: Result<Vec<Task>, DomainError>) -> bool {
        true
    }

    fn find_tasks(&self, project_id: EntityId) -> (answer: Result<Vec<Task>, DomainError>)
        ensures
            self.answers_find_tasks(project_id, answer),
    ;

    /// Whether `answer` is what this store gives when asked for the milestones of the project `project_id`.
    open spec fn answers_find_milestones(&self, project_id: EntityId, answer: Result<Vec<Milestone>, DomainError>) -> bool {
        true
    }

    fn find_milestones(&self, project_id: EntityId) -> (answer: Result<Vec<Milestone>, DomainError>)
        ensures
            self.answers_find_milestones(project_id, answer),
    ;
}

/// The store of teams.
pub trait TeamRepository {
    /// Whether `answer` is what this store gives when asked for the team `id`.
    open spec fn answers_find_by_id(&self, id: EntityId, answer: Result<Option<Team>, DomainError>) -> bool {
        true
    }

    fn find_by_id(&self, id: EntityId) -> (answer: Result<Option<Team>, DomainError>)
        ensures
            self.answers_find_by_id(id, answer),
    ;

    /// Whether `answer` is what this store gives when asked for all teams.
    open spec fn answers_find_all(&self, answer: Result<Vec<Team>, DomainError>) -> bool {
        true
    }

    fn find_all(&self) -> (answer: Result<Vec<Team>, DomainError>)
        ensures
            self.answers_find_all(answer),
    ;

    /// Whether `answer` is what this store gives when handed the new team `team`.
    open spec fn answers_create(&self, team: Team, answer: Result<Team, DomainError>) -> bool {
        true
    }

    fn create(&self, team: &Team) -> (answer: Result<Team, DomainError>)
        ensures
            self.answers_create(*team, answer),
    ;

    /// Whether `answer` is what this store gives when handed the changed team `team`.
    open spec fn answers_update(&self, team: Team, answer: Result<Team, DomainError>) -> bool {
        true
    }

    fn update(&self, team: &Team) -> (answer: Result<Team, DomainError>)
        ensures
            self.answers_update(*team, answer),
    ;

    /// Whether `answer` is what this store gives when asked to delete the team `id`.
    open spec fn answers_delete(&self, id: EntityId, answer: Result<(), DomainError>) -> bool {
        true
    }

    fn delete(&self, id: EntityId) -> (answer: Result<(), DomainError>)
        ensures
            self.answers_delete(id, answer),
    ;

    /// Whether `answer` is what this store gives when asked for the members of the team `team_id`.
    open spec fn answers_find_members(&self, team_id: EntityId, answer: Result<Vec<TeamMember>, DomainError>) -> bool {
        true
    }

    fn find_members(&self, team_id: EntityId) -> (answer: Result<Vec<TeamMember>, DomainError>)
        ensures
            self.answers_find_members(team_id, answer),
    ;

    /// Whether `answer` is what this store gives when handed the new membership `member`.
    open spec fn answers_add_member(&self, member: TeamMember, answer: Result<TeamMember, DomainError>) -> bool {
        true
    }

    fn add_member(&self, member: &TeamMember) -> (answer: Result<TeamMember, DomainError>)
        ensures
            self.answers_add_member(*member, answer),
    ;

    /// Whether `answer` is what this store gives when asked to take `user_id` out of the team `team_id`.
    open spec fn answers_remove_member(&self, team_id: EntityId, user_id: EntityId, answer: Result<(), DomainError>) -> bool {
        true
    }

    fn remove_member(&self, team_id: EntityId, user_id: EntityId) -> (answer: Result<(), DomainError>)
        ensures
            self.answers_remove_member(team_id, user_id, answer),
    ;
}

/// The store of the activity record.
pub trait ActivityLogRepository {
    /// Whether `answer` is what this store gives when asked for the latest entries, at most `limit` of them.
    open spec fn answers_find_all(&self, limit: Option<i64>, answer: Result<Vec<ActivityLog>, DomainError>) -> bool {
        true
    }

    fn find_all(&self, limit: Option<i64>) -> (answer: Result<Vec<ActivityLog>, DomainError>)
        ensures
            self.answers_find_all(limit, answer),
    ;

    /// Whether `answer` is what this store gives when asked for the latest entries of the project `project_id`.
    open spec fn answers_find_by_project(&self, project_id: EntityId, limit: Option<i64>, answer: Result<Vec<ActivityLog>, DomainError>) -> bool {
        true
    }

    fn find_by_project(&self, project_id: EntityId, limit: Option<i64>) -> (answer: Result<Vec<ActivityLog>, DomainError>)
        ensures
            self.answers_find_by_project(project_id, limit, answer),
    ;

    /// Whether `answer` is what this store gives when asked for the latest entries of the user `user_id`.
    open spec fn answers_find_by_user(&self, user_id: EntityId, limit: Option<i64>, answer: Result<Vec<ActivityLog>, DomainError>) -> bool {
        true
    }

    fn find_by_user(&self, user_id: EntityId, limit: Option<i64>) -> (answer: Result<Vec<ActivityLog>, DomainError>)
        ensures
            self.answers_find_by_user(user_id, limit, answer),
    ;

    /// Whether `answer` is what this store gives when handed the new entry `activity`.
    open spec fn answers_create(&self, activity: ActivityLog, answer: Result<ActivityLog, DomainError>) -> bool {
        true
    }

    fn create(&self, activity: &ActivityLog) -> (answer: Result<ActivityLog, DomainError>)
        ensures
            self.answers_create(*activity, answer),
    ;
}

} // verus!
