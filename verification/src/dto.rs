//! The shapes in which answers leave the services.

use vstd::prelude::*;
use crate::ident::EntityId;

verus! {

/// The envelope of every answer.
#[derive(Clone, Debug)]
pub struct ApiResponse<T> {
    pub success: bool,
    pub data: Option<T>,
    pub message: Option<String>,
}

impl<T> ApiResponse<T> {
    /// A successful answer that carries `data` and no message.
    pub fn success(data: T) -> (response: Self)
        ensures
            response.success,
            response.data == Some(data),
            response.message is None,
    {
        ApiResponse { success: true, data: Some(data), message: None }
    }
}

impl ApiResponse<()> {
    /// A successful answer that carries a message and no data.
    pub fn ok(message: &str) -> (response: Self)
        ensures
            response.success,
            response.data is None,
            response.message matches Some(text) && text@ == message@,
    {
        ApiResponse { success: true, data: None, message: Some(message.to_owned()) }
    }
}

/// How many notifications are asked for.
#[derive(Clone, Copy, Debug)]
pub struct NotificationQuery {
    pub limit: Option<i64>,
}

/// The number of notifications that a user has not read.
#[derive(Clone, Copy, Debug)]
pub struct UnreadCountResponse {
    pub count: i64,
}

/// Which entries of the activity record are asked for.
#[derive(Clone, Copy, Debug)]
pub struct ListActivitiesQuery {
    pub limit: Option<i64>,
    pub project_id: Option<EntityId>,
}

} // verus!
