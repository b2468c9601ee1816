//! The entities of the domain and the rules that their mutations keep.

pub mod activity_log;
pub mod milestone;
pub mod notification;
pub mod project;
pub mod task;
pub mod team;
pub mod user;

pub use activity_log::{ActivityAction, ActivityLog, EntityType};
pub use milestone::Milestone;
pub use notification::{Notification, NotificationType};
pub use project::{Project, ProjectMember};
pub use task::{Hours, Task, TaskComment};
pub use team::{Team, TeamMember};
pub use user::User;
