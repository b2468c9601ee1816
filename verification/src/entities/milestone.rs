//! Milestones of a project.

use vstd::prelude::*;
use crate::clock::{system_time, Timestamp};
use crate::ident::{is_random_v4, random_id, EntityId};

verus! {

/// A point that a project wants to reach, with or without a date.
#[derive(Clone, Debug)]
pub struct Milestone {
    pub id: EntityId,
    pub project_id: EntityId,
    pub name: String,
    pub description: Option<String>,
    pub due_date: Option<Timestamp>,
    pub completed: bool,
    pub created_at: Timestamp,
    pub updated_at: Timestamp,
}

impl Milestone {
    /// A milestone is overdue at `now` when it is not completed and its due
    /// date, if it has one, lies before `now`.
    pub open spec fn overdue_at(&self, now: Timestamp) -> bool {
        match self.due_date {
            Some(due) => !self.completed && due.precedes(now),
            None => false,
        }
    }

    /// The milestone after it was completed at the moment `now`.
    pub open spec fn completed_at(self, now: Timestamp) -> Milestone {
        Milestone { completed: true, updated_at: now, ..self }
    }

    /// A new milestone under a fresh identifier, not completed, created and
    /// updated at the present moment.
    pub fn new(
        project_id: EntityId,
        name: String,
        description: Option<String>,
        due_date: Option<Timestamp>,
    ) -> (milestone: Milestone)
        ensures
            is_random_v4(milestone.id.0),
            milestone.project_id == project_id,
            milestone.name == name,
            milestone.description == description,
            milestone.due_date == due_date,
            !milestone.completed,
            milestone.created_at == milestone.updated_at,
            milestone.created_at.is_clock_reading(),
    {
        let now = system_time();
        Milestone {
            id: random_id(),
            project_id,
            name,
            description,
            due_date,
            completed: false,
            created_at: now,
            updated_at: now,
        }
    }

    /// Marks the milestone as completed and stamps it with the present
    /// moment.
    pub fn mark_completed(&mut self)
        ensures
            *final(self) == old(self).completed_at(final(self).updated_at),
            final(self).updated_at.is_clock_reading(),
    {
        self.completed = true;
        self.updated_at = system_time();
    }

    /// Whether the milestone is overdue at the moment `now`.
    pub fn is_overdue_at(&self, now: &Timestamp) -> (r: bool)
        ensures
            r == self.overdue_at(*now),
    {
        match &self.due_date {
            Some(due) => !self.completed && now.is_after(due),
            None => false,
        }
    }

    /// Whether the milestone is overdue at the present moment. A milestone
    /// that is completed or has no due date never is.
    pub fn is_overdue(&self) -> (r: bool)
        ensures
            exists|now: Timestamp| now.secs >= 0 && r == #[trigger] self.overdue_at(now),
            (self.completed || self.due_date is None) ==> !r,
    {
        let now = system_time();
        self.is_overdue_at(&now)
    }
}

/// A completed milestone is never overdue, and one that is overdue stays so
/// at every later moment.
pub proof fn lemma_overdue_is_lasting(milestone: Milestone, now: Timestamp, later: Timestamp)
    requires
        now.precedes(later),
    ensures
        milestone.completed ==> !milestone.overdue_at(now),
        milestone.overdue_at(now) ==> milestone.overdue_at(later),
        !milestone.completed_at(now).overdue_at(later),
{
}

} // verus!
