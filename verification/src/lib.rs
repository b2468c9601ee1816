//! Verified core of a project-management backend: credentials, bearer
//! tokens, the request guard, account registration and login, and the task
//! lifecycle.

pub mod clock;
pub mod commands;
pub mod config;
pub mod dto;
pub mod entities;
pub mod error;
pub mod ident;
pub mod middleware;
pub mod queries;
pub mod repositories;
pub mod services;
pub mod text;
pub mod value_objects;
