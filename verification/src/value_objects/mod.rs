//! Small values with rules of their own: e-mail addresses, password
//! strength, and the enumerations of roles, statuses and priorities.

pub mod email;
pub mod enums;
pub mod password;

pub use email::Email;
pub use enums::{Priority, ProjectStatus, TaskStatus, TeamMemberRole, UserRole};
pub use password::PasswordValidator;
