//! Roles, statuses and priorities.

use vstd::prelude::*;

verus! {

/// What a user may do, from the most privileged role to the least.
#[derive(Clone, Copy, Debug, PartialEq, Eq, Hash, Structural)]
pub enum UserRole {
    Admin,
    Manager,
    Member,
}

impl UserRole {
    /// The place of a role in the order of privilege; more is more.
    pub open spec fn rank(self) -> nat {
        match self {
            UserRole::Admin => 2,
            UserRole::Manager => 1,
            UserRole::Member => 0,
        }
    }

    /// A role has a capability when it ranks at least as high as the role
    /// that the capability asks for.
    pub open spec fn spec_has_capability(self, required: UserRole) -> bool {
        self.rank() >= required.rank()
    }

    /// The name under which a role is written into a token.
    pub open spec fn spec_name(self) -> Seq<char> {
        match self {
            UserRole::Admin => "Admin"@,
            UserRole::Manager => "Manager"@,
            UserRole::Member => "Member"@,
        }
    }

    /// The role that a name stands for, if it names one.
    pub open spec fn from_name(name: Seq<char>) -> Option<UserRole> {
        if name == "Admin"@ {
            Some(UserRole::Admin)
        } else if name == "Manager"@ {
            Some(UserRole::Manager)
        } else if name == "Member"@ {
            Some(UserRole::Member)
        } else {
            None
        }
    }

    /// Whether this role may do what `required` may do.
    #[verifier::when_used_as_spec(spec_has_capability)]
    pub fn has_capability(self, required: UserRole) -> (r: bool)
        ensures
            r == self.spec_has_capability(required),
    {
        match (self, required) {
            (UserRole::Admin, _) => true,
            (UserRole::Manager, UserRole::Admin) => false,
            (UserRole::Manager, _) => true,
            (UserRole::Member, UserRole::Member) => true,
            (UserRole::Member, _) => false,
        }
    }

    /// The name under which this role is written into a token.
    pub fn name(self) -> (s: &'static str)
        ensures
            s@ == self.spec_name(),
    {
        match self {
            UserRole::Admin => "Admin",
            UserRole::Manager => "Manager",
            UserRole::Member => "Member",
        }
    }

    /// Reads a role from its name; `None` where the text names no role.
    pub fn parse(name: &str) -> (r: Option<UserRole>)
        ensures
            r == UserRole::from_name(name@),
    {
        if crate::text::same_text(name, "Admin") {
            Some(UserRole::Admin)
        } else if crate::text::same_text(name, "Manager") {
            Some(UserRole::Manager)
        } else if crate::text::same_text(name, "Member") {
            Some(UserRole::Member)
        } else {
            None
        }
    }
}

impl Default for UserRole {
    fn default() -> (r: UserRole)
        ensures
            r == UserRole::Member,
    {
        UserRole::Member
    }
}

/// Privilege is a total order on roles, with `Admin` on top.
pub proof fn lemma_capability_is_total_order(a: UserRole, b: UserRole, c: UserRole)
    ensures
        a.spec_has_capability(a),
        a.spec_has_capability(b) && b.spec_has_capability(c) ==> a.spec_has_capability(c),
        a.spec_has_capability(b) && b.spec_has_capability(a) ==> a == b,
        a.spec_has_capability(b) || b.spec_has_capability(a),
        UserRole::Admin.spec_has_capability(a),
        a.spec_has_capability(UserRole::Member),
{
}

/// Every role is read back from its own name.
pub proof fn lemma_role_name_round_trip(role: UserRole)
    ensures
        UserRole::from_name(role.spec_name()) == Some(role),
{
    reveal_strlit("Admin");
    reveal_strlit("Manager");
    reveal_strlit("Member");
    assert("Admin"@.len() == 5);
    assert("Manager"@.len() == 7);
    assert("Member"@.len() == 6);
    assert("Manager"@[1] == 'a');
    assert("Member"@[1] == 'e');
}

/// Where a project stands.
#[derive(Clone, Copy, Debug, PartialEq, Eq, Hash, Structural)]
pub enum ProjectStatus {
    Planning,
    Active,
    OnHold,
    Completed,
    Cancelled,
}

impl Default for ProjectStatus {
    fn default() -> (r: ProjectStatus)
        ensures
            r == ProjectStatus::Planning,
    {
        ProjectStatus::Planning
    }
}

/// How urgent a project or a task is.
#[derive(Clone, Copy, Debug, PartialEq, Eq, Hash, Structural)]
pub enum Priority {
    Low,
    Medium,
    High,
    Critical,
}

impl Default for Priority {
    fn default() -> (r: Priority)
        ensures
            r == Priority::Medium,
    {
        Priority::Medium
    }
}

/// Where a task stands in its lifecycle.
#[derive(Clone, Copy, Debug, PartialEq, Eq, Hash, Structural)]
pub enum TaskStatus {
    Todo,
    InProgress,
    Review,
    Done,
    Blocked,
}

impl TaskStatus {
    /// The statuses that a task may move to from `self`.
    pub open spec fn successors(self) -> Set<TaskStatus> {
        match self {
            TaskStatus::Todo => set![TaskStatus::InProgress],
            TaskStatus::InProgress => set![TaskStatus::Review, TaskStatus::Blocked, TaskStatus::Todo],
            TaskStatus::Review => set![TaskStatus::Done, TaskStatus::InProgress],
            TaskStatus::Blocked => set![TaskStatus::InProgress, TaskStatus::Todo],
            TaskStatus::Done => set![TaskStatus::InProgress],
        }
    }

    /// Whether a task may move from `self` to `next`.
    pub open spec fn spec_allows(self, next: TaskStatus) -> bool {
        self.successors().contains(next)
    }

    /// Whether a task may move from `self` to `next`.
    #[verifier::when_used_as_spec(spec_allows)]
    pub fn allows(self, next: TaskStatus) -> (r: bool)
        ensures
            r == self.spec_allows(next),
    {
        match (self, next) {
            (TaskStatus::Todo, TaskStatus::InProgress) => true,
            (TaskStatus::InProgress, TaskStatus::Review) => true,
            (TaskStatus::InProgress, TaskStatus::Blocked) => true,
            (TaskStatus::InProgress, TaskStatus::Todo) => true,
            (TaskStatus::Review, TaskStatus::Done) => true,
            (TaskStatus::Review, TaskStatus::InProgress) => true,
            (TaskStatus::Blocked, TaskStatus::InProgress) => true,
            (TaskStatus::Blocked, TaskStatus::Todo) => true,
            (TaskStatus::Done, TaskStatus::InProgress) => true,
            _ => false,
        }
    }
}

impl Default for TaskStatus {
    fn default() -> (r: TaskStatus)
        ensures
            r == TaskStatus::Todo,
    {
        TaskStatus::Todo
    }
}

/// The place of a member in a team.
#[derive(Clone, Copy, Debug, PartialEq, Eq, Hash, Structural)]
pub enum TeamMemberRole {
    Lead,
    Member,
}

impl Default for TeamMemberRole {
    fn default() -> (r: TeamMemberRole)
        ensures
            r == TeamMemberRole::Member,
    {
        TeamMemberRole::Member
    }
}

} // verus!
