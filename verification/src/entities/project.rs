//! Projects and who belongs to them.

use vstd::prelude::*;
use crate::clock::{system_time, Timestamp};
use crate::ident::{is_random_v4, random_id, EntityId};
use crate::value_objects::enums::{Priority, ProjectStatus};

verus! {

/// A decimal number of the `rust_decimal` crate. The core carries budgets
/// through without looking into them.
#[verifier::external_type_specification]
#[verifier::external_body]
pub struct ExDecimal(rust_decimal::Decimal);

/// A project.
#[derive(Clone, Debug)]
pub struct Project {
    pub id: EntityId,
    pub name: String,
    pub description: Option<String>,
    pub status: ProjectStatus,
    pub priority: Priority,
    pub start_date: Option<Timestamp>,
    pub end_date: Option<Timestamp>,
    pub budget: Option<rust_decimal::Decimal>,
    pub owner_id: EntityId,
    pub created_at: Timestamp,
    pub updated_at: Timestamp,
}

impl Project {
    /// Whether tasks may be added: not once the project is completed or
    /// cancelled.
    pub open spec fn spec_can_add_tasks(&self) -> bool {
        self.status != ProjectStatus::Completed && self.status != ProjectStatus::Cancelled
    }

    /// The project after its status was set to `status` at the moment `now`.
    pub open spec fn with_status(self, status: ProjectStatus, now: Timestamp) -> Project {
        Project { status, updated_at: now, ..self }
    }

    /// A new project under a fresh identifier, created and updated at the
    /// present moment. The status is `Planning` and the priority `Medium`
    /// unless they are given.
    pub fn new(
        name: String,
        description: Option<String>,
        owner_id: EntityId,
        status: Option<ProjectStatus>,
        priority: Option<Priority>,
        start_date: Option<Timestamp>,
        end_date: Option<Timestamp>,
        budget: Option<rust_decimal::Decimal>,
    ) -> (project: Project)
        ensures
            is_random_v4(project.id.0),
            project.name == name,
            project.description == description,
            project.status == match status {
                Some(s) => s,
                None => ProjectStatus::Planning,
            },
            project.priority == match priority {
                Some(p) => p,
                None => Priority::Medium,
            },
            project.start_date == start_date,
            project.end_date == end_date,
            project.budget == budget,
            project.owner_id == owner_id,
            project.created_at == project.updated_at,
            project.created_at.is_clock_reading(),
    {
        let now = system_time();
        Project {
            id: random_id(),
            name,
            description,
            status: match status {
                Some(s) => s,
                None => ProjectStatus::Planning,
            },
            priority: match priority {
                Some(p) => p,
                None => Priority::Medium,
            },
            start_date,
            end_date,
            budget,
            owner_id,
            created_at: now,
            updated_at: now,
        }
    }

    /// Whether the project is active.
    pub fn is_active(&self) -> (r: bool)
        ensures
            r == (self.status == ProjectStatus::Active),
    {
        matches!(self.status, ProjectStatus::Active)
    }

    /// Whether the project is completed.
    pub fn is_completed(&self) -> (r: bool)
        ensures
            r == (self.status == ProjectStatus::Completed),
    {
        matches!(self.status, ProjectStatus::Completed)
    }

    /// Whether tasks may be added to the project.
    #[verifier::when_used_as_spec(spec_can_add_tasks)]
    pub fn can_add_tasks(&self) -> (r: bool)
        ensures
            r == self.spec_can_add_tasks(),
    {
        !matches!(self.status, ProjectStatus::Completed | ProjectStatus::Cancelled)
    }

    /// Sets the status and stamps the project with the present moment.
    pub fn update_status(&mut self, status: ProjectStatus)
        ensures
            *final(self) == old(self).with_status(status, final(self).updated_at),
            final(self).updated_at.is_clock_reading(),
    {
        self.status = status;
        self.updated_at = system_time();
    }
}

/// The membership of a user in a project.
#[derive(Clone, Debug)]
pub struct ProjectMember {
    pub id: EntityId,
    pub project_id: EntityId,
    pub user_id: EntityId,
    pub role: Option<String>,
    pub joined_at: Timestamp,
}

impl ProjectMember {
    /// A new membership under a fresh identifier, joined at the present
    /// moment.
    pub fn new(project_id: EntityId, user_id: EntityId, role: Option<String>) -> (member:
        ProjectMember)
        ensures
            is_random_v4(member.id.0),
            member.project_id == project_id,
            member.user_id == user_id,
            member.role == role,
            member.joined_at.is_clock_reading(),
    {
        ProjectMember { id: random_id(), project_id, user_id, role, joined_at: system_time() }
    }
}

} // verus!
