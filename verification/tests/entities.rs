use std::cell::RefCell;

use pmo_backend::clock::Timestamp;
use pmo_backend::entities::{
    ActivityAction, ActivityLog, EntityType, Milestone, Notification, NotificationType, Project,
    ProjectMember, Team, TeamMember, User,
};
use pmo_backend::error::DomainError;
use pmo_backend::ident::EntityId;
use pmo_backend::repositories::ActivityLogRepository;
use pmo_backend::services::ActivityAppService;
use pmo_backend::value_objects::{
    Email, Priority, ProjectStatus, TaskStatus, TeamMemberRole, UserRole,
};

const OWNER: EntityId = EntityId(3);

#[test]
fn the_defaults_of_the_enumerations() {
    assert_eq!(UserRole::default(), UserRole::Member);
    assert_eq!(ProjectStatus::default(), ProjectStatus::Planning);
    assert_eq!(Priority::default(), Priority::Medium);
    assert_eq!(TaskStatus::default(), TaskStatus::Todo);
    assert_eq!(TeamMemberRole::default(), TeamMemberRole::Member);
}

#[test]
fn roles_are_ordered_by_privilege() {
    let roles = [UserRole::Member, UserRole::Manager, UserRole::Admin];
    for (i, role) in roles.iter().enumerate() {
        for (j, required) in roles.iter().enumerate() {
            assert_eq!(role.has_capability(*required), i >= j);
        }
    }
}

#[test]
fn roles_have_names() {
    for role in [UserRole::Member, UserRole::Manager, UserRole::Admin] {
        assert_eq!(UserRole::parse(role.name()), Some(role));
    }
    assert_eq!(UserRole::Admin.name(), "Admin");
    assert_eq!(UserRole::Manager.name(), "Manager");
    assert_eq!(UserRole::Member.name(), "Member");
    assert_eq!(UserRole::parse("admin"), None);
    assert_eq!(UserRole::parse(""), None);
    assert_eq!(UserRole::parse("Members"), None);
}

#[test]
fn a_new_account() {
    let email = Email::new("ada@example.com").unwrap();
    let user = User::new(email.clone(), "hash".to_string(), "Ada".to_string(), None);
    assert!(user.email == email);
    assert_eq!(user.password_hash, "hash");
    assert_eq!(user.name, "Ada");
    assert_eq!(user.role, UserRole::Member);
    assert_eq!(user.avatar_url, None);
    assert_eq!(user.created_at, user.updated_at);
    assert!(!user.is_admin());
    assert!(!user.is_manager());
    let manager = User::new(email.clone(), "hash".to_string(), "Ada".to_string(), Some(UserRole::Manager));
    assert!(!manager.is_admin());
    assert!(manager.is_manager());
    let admin = User::new(email, "hash".to_string(), "Ada".to_string(), Some(UserRole::Admin));
    assert!(admin.is_admin());
    assert!(admin.is_manager());
    assert_ne!(admin.id, manager.id);
}

#[test]
fn fresh_identifiers_are_random_ones() {
    let team = Team::new("Core".to_string(), None, None);
    let other = Team::new("Core".to_string(), None, None);
    assert_ne!(team.id, other.id);
    for id in [team.id, other.id] {
        assert_eq!(id.0 & 0x0000_0000_0000_f000_c000_0000_0000_0000, 0x0000_0000_0000_4000_8000_0000_0000_0000);
    }
}

#[test]
fn a_new_project() {
    let project = Project::new("Apollo".to_string(), None, OWNER, None, None, None, None, None);
    assert_eq!(project.name, "Apollo");
    assert_eq!(project.status, ProjectStatus::Planning);
    assert_eq!(project.priority, Priority::Medium);
    assert_eq!(project.owner_id, OWNER);
    assert_eq!(project.budget, None);
    assert_eq!(project.created_at, project.updated_at);
    let budget = rust_decimal::Decimal::new(123_456, 2);
    let funded = Project::new(
        "Gemini".to_string(),
        Some("Two seats".to_string()),
        OWNER,
        Some(ProjectStatus::Active),
        Some(Priority::High),
        Some(Timestamp::new(1, 0)),
        Some(Timestamp::new(2, 0)),
        Some(budget),
    );
    assert_eq!(funded.status, ProjectStatus::Active);
    assert_eq!(funded.priority, Priority::High);
    assert_eq!(funded.start_date, Some(Timestamp::new(1, 0)));
    assert_eq!(funded.end_date, Some(Timestamp::new(2, 0)));
    assert_eq!(funded.budget, Some(budget));
    assert!(funded.is_active());
}

#[test]
fn tasks_may_be_added_until_a_project_ends() {
    let mut project = Project::new("Apollo".to_string(), None, OWNER, None, None, None, None, None);
    for (status, open) in [
        (ProjectStatus::Planning, true),
        (ProjectStatus::Active, true),
        (ProjectStatus::OnHold, true),
        (ProjectStatus::Completed, false),
        (ProjectStatus::Cancelled, false),
    ] {
        project.update_status(status);
        assert_eq!(project.status, status);
        assert_eq!(project.can_add_tasks(), open);
        assert_eq!(project.is_active(), status == ProjectStatus::Active);
        assert_eq!(project.is_completed(), status == ProjectStatus::Completed);
        assert!(!project.updated_at.is_before(&project.created_at));
    }
    assert_eq!(project.name, "Apollo");
}

#[test]
fn memberships() {
    let member = ProjectMember::new(EntityId(1), EntityId(2), Some("observer".to_string()));
    assert_eq!(member.project_id, EntityId(1));
    assert_eq!(member.user_id, EntityId(2));
    assert_eq!(member.role.as_deref(), Some("observer"));
    let mut member = TeamMember::new(EntityId(1), EntityId(2), None);
    assert_eq!(member.role, TeamMemberRole::Member);
    assert!(!member.is_lead());
    member.promote_to_lead();
    assert!(member.is_lead());
    assert_eq!(member.team_id, EntityId(1));
    assert_eq!(member.user_id, EntityId(2));
    assert!(TeamMember::new(EntityId(1), EntityId(2), Some(TeamMemberRole::Lead)).is_lead());
}

#[test]
fn a_team_and_its_lead() {
    let mut team = Team::new("Core".to_string(), Some("The core team".to_string()), None);
    assert_eq!(team.name, "Core");
    assert_eq!(team.lead_id, None);
    assert_eq!(team.created_at, team.updated_at);
    team.set_lead(Some(EntityId(5)));
    assert_eq!(team.lead_id, Some(EntityId(5)));
    team.set_lead(None);
    assert_eq!(team.lead_id, None);
    assert_eq!(team.description.as_deref(), Some("The core team"));
}

#[test]
fn a_milestone_is_overdue_after_its_date_until_it_is_completed() {
    let due = Timestamp::new(1000, 500);
    let mut milestone = Milestone::new(EntityId(1), "Beta".to_string(), None, Some(due));
    assert!(!milestone.completed);
    assert!(!milestone.is_overdue_at(&Timestamp::new(999, 0)));
    assert!(!milestone.is_overdue_at(&due));
    assert!(milestone.is_overdue_at(&Timestamp::new(1000, 501)));
    assert!(milestone.is_overdue_at(&Timestamp::new(1001, 0)));
    assert!(milestone.is_overdue());
    milestone.mark_completed();
    assert!(milestone.completed);
    assert!(!milestone.is_overdue_at(&Timestamp::new(1001, 0)));
    assert!(!milestone.is_overdue());
    let open = Milestone::new(EntityId(1), "Some day".to_string(), None, None);
    assert!(!open.is_overdue());
    assert!(!open.is_overdue_at(&Timestamp::new(i64::MAX, 0)));
    let far = Milestone::new(EntityId(1), "Far".to_string(), None, Some(Timestamp::new(i64::MAX, 0)));
    assert!(!far.is_overdue());
}

#[test]
fn a_notification_is_unread_until_it_is_read() {
    let mut notification = Notification::new(
        EntityId(1),
        NotificationType::TaskAssigned,
        "A task for you".to_string(),
        "Write the report".to_string(),
        Some("/tasks/1".to_string()),
    );
    assert_eq!(notification.user_id, EntityId(1));
    assert_eq!(notification.notification_type, NotificationType::TaskAssigned);
    assert!(!notification.is_read);
    notification.mark_as_read();
    assert!(notification.is_read);
    notification.mark_as_read();
    assert!(notification.is_read);
    assert_eq!(notification.title, "A task for you");
    assert_eq!(notification.link.as_deref(), Some("/tasks/1"));
}

#[test]
fn actions_have_names() {
    let names = [
        (ActivityAction::Created, "created"),
        (ActivityAction::Updated, "updated"),
        (ActivityAction::Deleted, "deleted"),
        (ActivityAction::StatusChanged, "status_changed"),
        (ActivityAction::Assigned, "assigned"),
        (ActivityAction::Commented, "commented"),
    ];
    for (action, name) in names {
        assert_eq!(action.name(), name);
        assert_eq!(ActivityAction::from(name.to_string()), action);
    }
    assert_eq!(ActivityAction::from("renamed".to_string()), ActivityAction::Updated);
    assert_eq!(ActivityAction::from("Created".to_string()), ActivityAction::Updated);
    assert_eq!(ActivityAction::from(String::new()), ActivityAction::Updated);
}

#[test]
fn kinds_of_entities_have_names() {
    let names = [
        (EntityType::Project, "project"),
        (EntityType::Task, "task"),
        (EntityType::Team, "team"),
        (EntityType::Milestone, "milestone"),
        (EntityType::Comment, "comment"),
    ];
    for (kind, name) in names {
        assert_eq!(kind.name(), name);
        assert_eq!(EntityType::from(name.to_string()), kind);
    }
    assert_eq!(EntityType::from("user".to_string()), EntityType::Task);
    assert_eq!(EntityType::from("tasks".to_string()), EntityType::Task);
}

fn entry(project: Option<EntityId>, user: Option<EntityId>) -> ActivityLog {
    let mut details = serde_json::Map::new();
    details.insert("from".to_string(), serde_json::Value::from("todo"));
    ActivityLog::new(
        user,
        project,
        ActivityAction::StatusChanged,
        EntityType::Task,
        EntityId(9),
        Some(serde_json::Value::Object(details)),
    )
}

#[test]
fn a_new_entry_of_the_record() {
    let entry = entry(Some(EntityId(1)), Some(EntityId(2)));
    assert_eq!(entry.user_id, Some(EntityId(2)));
    assert_eq!(entry.project_id, Some(EntityId(1)));
    assert_eq!(entry.action, ActivityAction::StatusChanged);
    assert_eq!(entry.entity_type, EntityType::Task);
    assert_eq!(entry.entity_id, EntityId(9));
    assert_eq!(entry.user_name, None);
    assert_eq!(entry.project_name, None);
    assert_eq!(entry.entity_name, None);
    let details = entry.details.unwrap();
    assert_eq!(details.get("from").and_then(serde_json::Value::as_str), Some("todo"));
}

/// A store of the record in memory.
struct MemoryRecord {
    entries: RefCell<Vec<ActivityLog>>,
}

impl MemoryRecord {
    fn latest(&self, keep: impl Fn(&ActivityLog) -> bool, limit: Option<i64>) -> Result<Vec<ActivityLog>, DomainError> {
        let limit = limit.unwrap_or(50).max(0) as usize;
        Ok(self.entries.borrow().iter().rev().filter(|e| keep(e)).take(limit).cloned().collect())
    }
}

impl ActivityLogRepository for &MemoryRecord {
    fn find_all(&self, limit: Option<i64>) -> Result<Vec<ActivityLog>, DomainError> {
        self.latest(|_| true, limit)
    }

    fn find_by_project(&self, project_id: EntityId, limit: Option<i64>) -> Result<Vec<ActivityLog>, DomainError> {
        self.latest(|e| e.project_id == Some(project_id), limit)
    }

    fn find_by_user(&self, user_id: EntityId, limit: Option<i64>) -> Result<Vec<ActivityLog>, DomainError> {
        self.latest(|e| e.user_id == Some(user_id), limit)
    }

    fn create(&self, activity: &ActivityLog) -> Result<ActivityLog, DomainError> {
        self.entries.borrow_mut().push(activity.clone());
        Ok(activity.clone())
    }
}

#[test]
fn the_service_of_the_record_asks_the_store() {
    let store = MemoryRecord { entries: RefCell::new(Vec::new()) };
    let service = ActivityAppService::new(&store);
    let first = service.log_activity(entry(Some(EntityId(1)), Some(EntityId(2)))).unwrap();
    service.log_activity(entry(Some(EntityId(1)), Some(EntityId(3)))).unwrap();
    service.log_activity(entry(None, Some(EntityId(2)))).unwrap();
    assert_eq!(service.list_activities(None).unwrap().len(), 3);
    assert_eq!(service.list_activities(Some(2)).unwrap().len(), 2);
    assert_eq!(service.get_activities_by_project(EntityId(1), None).unwrap().len(), 2);
    assert_eq!(service.get_activities_by_project(EntityId(1), Some(1)).unwrap().len(), 1);
    let by_user = service.get_activities_by_user(EntityId(2), None).unwrap();
    assert_eq!(by_user.len(), 2);
    assert_eq!(by_user[1].id, first.id);
    assert!(service.get_activities_by_user(EntityId(4), None).unwrap().is_empty());
}
