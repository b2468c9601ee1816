//! The record of what was done to which entity.

use vstd::prelude::*;
use crate::clock::{system_time, Timestamp};
use crate::ident::{is_random_v4, random_id, EntityId};
use crate::text::same_text;

verus! {

/// A JSON value of the `serde_json` crate. The core carries the details of
/// an activity through without looking into them.
#[verifier::external_type_specification]
#[verifier::external_body]
pub struct ExJsonValue(serde_json::Value);

/// What was done.
#[derive(Clone, Copy, Debug, PartialEq, Eq, Hash, Structural)]
pub enum ActivityAction {
    Created,
    Updated,
    Deleted,
    StatusChanged,
    Assigned,
    Commented,
}

impl ActivityAction {
    /// The name under which an action is stored.
    pub open spec fn spec_name(self) -> Seq<char> {
        match self {
            ActivityAction::Created => "created"@,
            ActivityAction::Updated => "updated"@,
            ActivityAction::Deleted => "deleted"@,
            ActivityAction::StatusChanged => "status_changed"@,
            ActivityAction::Assigned => "assigned"@,
            ActivityAction::Commented => "commented"@,
        }
    }

    /// The action that a stored name stands for; a name that is none of the
    /// six stands for `Updated`.
    pub open spec fn named(name: Seq<char>) -> ActivityAction {
        if name == "created"@ {
            ActivityAction::Created
        } else if name == "updated"@ {
            ActivityAction::Updated
        } else if name == "deleted"@ {
            ActivityAction::Deleted
        } else if name == "status_changed"@ {
            ActivityAction::StatusChanged
        } else if name == "assigned"@ {
            ActivityAction::Assigned
        } else if name == "commented"@ {
            ActivityAction::Commented
        } else {
            ActivityAction::Updated
        }
    }

    /// The name under which this action is stored.
    pub fn name(&self) -> (s: &'static str)
        ensures
            s@ == self.spec_name(),
    {
        match self {
            ActivityAction::Created => "created",
            ActivityAction::Updated => "updated",
            ActivityAction::Deleted => "deleted",
            ActivityAction::StatusChanged => "status_changed",
            ActivityAction::Assigned => "assigned",
            ActivityAction::Commented => "commented",
        }
    }
}

impl From<String> for ActivityAction {
    fn from(s: String) -> (action: ActivityAction) {
        let name = s.as_str();
        if same_text(name, "created") {
            ActivityAction::Created
        } else if same_text(name, "updated") {
            ActivityAction::Updated
        } else if same_text(name, "deleted") {
            ActivityAction::Deleted
        } else if same_text(name, "status_changed") {
            ActivityAction::StatusChanged
        } else if same_text(name, "assigned") {
            ActivityAction::Assigned
        } else if same_text(name, "commented") {
            ActivityAction::Commented
        } else {
            ActivityAction::Updated
        }
    }
}

impl vstd::std_specs::convert::FromSpecImpl<String> for ActivityAction {
    open spec fn obeys_from_spec() -> bool {
        true
    }

    open spec fn from_spec(s: String) -> ActivityAction {
        ActivityAction::named(s@)
    }
}

/// The kind of entity that something was done to.
#[derive(Clone, Copy, Debug, PartialEq, Eq, Hash, Structural)]
pub enum EntityType {
    Project,
    Task,
    Team,
    Milestone,
    Comment,
}

impl EntityType {
    /// The name under which a kind of entity is stored.
    pub open spec fn spec_name(self) -> Seq<char> {
        match self {
            EntityType::Project => "project"@,
            EntityType::Task => "task"@,
            EntityType::Team => "team"@,
            EntityType::Milestone => "milestone"@,
            EntityType::Comment => "comment"@,
        }
    }

    /// The kind of entity that a stored name stands for; a name that is none
    /// of the five stands for `Task`.
    pub open spec fn named(name: Seq<char>) -> EntityType {
        if name == "project"@ {
            EntityType::Project
        } else if name == "task"@ {
            EntityType::Task
        } else if name == "team"@ {
            EntityType::Team
        } else if name == "milestone"@ {
            EntityType::Milestone
        } else if name == "comment"@ {
            EntityType::Comment
        } else {
            EntityType::Task
        }
    }

    /// The name under which this kind of entity is stored.
    pub fn name(&self) -> (s: &'static str)
        ensures
            s@ == self.spec_name(),
    {
        match self {
            EntityType::Project => "project",
            EntityType::Task => "task",
            EntityType::Team => "team",
            EntityType::Milestone => "milestone",
            EntityType::Comment => "comment",
        }
    }
}

impl From<String> for EntityType {
    fn from(s: String) -> (kind: EntityType) {
        let name = s.as_str();
        if same_text(name, "project") {
            EntityType::Project
        } else if same_text(name, "task") {
            EntityType::Task
        } else if same_text(name, "team") {
            EntityType::Team
        } else if same_text(name, "milestone") {
            EntityType::Milestone
        } else if same_text(name, "comment") {
            EntityType::Comment
        } else {
            EntityType::Task
        }
    }
}

impl vstd::std_specs::convert::FromSpecImpl<String> for EntityType {
    open spec fn obeys_from_spec() -> bool {
        true
    }

    open spec fn from_spec(s: String) -> EntityType {
        EntityType::named(s@)
    }
}

/// One entry of the record.
#[derive(Clone, Debug)]
pub struct ActivityLog {
    pub id: EntityId,
    pub user_id: Option<EntityId>,
    pub user_name: Option<String>,
    pub project_id: Option<EntityId>,
    pub project_name: Option<String>,
    pub action: ActivityAction,
    pub entity_type: EntityType,
    pub entity_id: EntityId,
    pub entity_name: Option<String>,
    pub details: Option<serde_json::Value>,
    pub created_at: Timestamp,
}

impl ActivityLog {
    /// A new entry under a fresh identifier, created at the present moment.
    /// The names of the user, the project and the entity are left out; the
    /// store fills them in when it reads entries back.
    pub fn new(
        user_id: Option<EntityId>,
        project_id: Option<EntityId>,
        action: ActivityAction,
        entity_type: EntityType,
        entity_id: EntityId,
        details: Option<serde_json::Value>,
    ) -> (entry: ActivityLog)
        ensures
            is_random_v4(entry.id.0),
            entry.user_id == user_id,
            entry.user_name is None,
            entry.project_id == project_id,
            entry.project_name is None,
            entry.action == action,
            entry.entity_type == entity_type,
            entry.entity_id == entity_id,
            entry.entity_name is None,
            entry.details == details,
            entry.created_at.is_clock_reading(),
    {
        ActivityLog {
            id: random_id(),
            user_id,
            user_name: None,
            project_id,
            project_name: None,
            action,
            entity_type,
            entity_id,
            entity_name: None,
            details,
            created_at: system_time(),
        }
    }
}

/// Every action is read back from its own name.
pub proof fn lemma_action_name_round_trip(action: ActivityAction)
    ensures
        ActivityAction::named(action.spec_name()) == action,
{
    reveal_strlit("created");
    reveal_strlit("updated");
    reveal_strlit("deleted");
    reveal_strlit("status_changed");
    reveal_strlit("assigned");
    reveal_strlit("commented");
    assert("created"@[0] == 'c');
    assert("updated"@[0] == 'u');
    assert("deleted"@[0] == 'd');
    assert("status_changed"@.len() == 14);
    assert("assigned"@.len() == 8);
    assert("commented"@.len() == 9);
}

/// Every kind of entity is read back from its own name.
pub proof fn lemma_entity_type_name_round_trip(kind: EntityType)
    ensures
        EntityType::named(kind.spec_name()) == kind,
{
    reveal_strlit("project");
    reveal_strlit("task");
    reveal_strlit("team");
    reveal_strlit("milestone");
    reveal_strlit("comment");
    assert("project"@[0] == 'p');
    assert("comment"@[0] == 'c');
    assert("task"@[1] == 'a');
    assert("team"@[1] == 'e');
    assert("milestone"@.len() == 9);
    assert("task"@.len() == 4);
}

} // verus!
