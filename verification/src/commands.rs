//! What callers ask the services to do.

use vstd::prelude::*;
use crate::clock::Timestamp;
use crate::entities::task::Hours;
use crate::ident::EntityId;
use crate::value_objects::enums::{Priority, TaskStatus, UserRole};

verus! {

/// The request to open an account.
#[derive(Clone, Debug)]
pub struct CreateUserCommand {
    pub email: String,
    pub password: String,
    pub name: String,
    pub role: Option<UserRole>,
}

/// The request to log in.
#[derive(Clone, Debug)]
pub struct LoginCommand {
    pub email: String,
    pub password: String,
}

/// The request to add a task to a project.
#[derive(Clone, Debug)]
pub struct CreateTaskCommand {
    pub project_id: EntityId,
    pub title: String,
    pub description: Option<String>,
    pub priority: Option<Priority>,
    pub assignee_id: Option<EntityId>,
    pub due_date: Option<Timestamp>,
    pub estimated_hours: Option<Hours>,
}

/// The request to change a task. A field that is left out stays as it is.
#[derive(Clone, Debug)]
pub struct UpdateTaskCommand {
    pub title: Option<String>,
    pub description: Option<String>,
    pub status: Option<TaskStatus>,
    pub priority: Option<Priority>,
    pub assignee_id: Option<EntityId>,
    pub due_date: Option<Timestamp>,
    pub estimated_hours: Option<Hours>,
    pub actual_hours: Option<Hours>,
}

} // verus!
