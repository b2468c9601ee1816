//! The services of the core: credentials, tokens, accounts and tasks.

pub mod activity_app_service;
pub mod auth_app_service;
pub mod auth_service;
pub mod task_app_service;
pub mod token;

pub use activity_app_service::ActivityAppService;
pub use auth_app_service::{AuthAppService, AuthResponse};
pub use auth_service::AuthService;
pub use task_app_service::TaskAppService;
pub use token::{Claims, TokenService};
