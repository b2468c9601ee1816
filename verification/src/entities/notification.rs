//! Notifications to users.

use vstd::prelude::*;
use crate::clock::{system_time, Timestamp};
use crate::ident::{is_random_v4, random_id, EntityId};

verus! {

/// What a notification is about.
#[derive(Clone, Copy, Debug, PartialEq, Eq, Hash, Structural)]
pub enum NotificationType {
    TaskAssigned,
    TaskUpdated,
    TaskCompleted,
    TaskDueSoon,
    ProjectUpdated,
    CommentAdded,
    Mention,
}

/// A message to one user.
#[derive(Clone, Debug)]
pub struct Notification {
    pub id: EntityId,
    pub user_id: EntityId,
    pub notification_type: NotificationType,
    pub title: String,
    pub message: String,
    pub link: Option<String>,
    pub is_read: bool,
    pub created_at: Timestamp,
}

impl Notification {
    /// A new, unread notification under a fresh identifier, created at the
    /// present moment.
    pub fn new(
        user_id: EntityId,
        notification_type: NotificationType,
        title: String,
        message: String,
        link: Option<String>,
    ) -> (notification: Notification)
        ensures
            is_random_v4(notification.id.0),
            notification.user_id == user_id,
            notification.notification_type == notification_type,
            notification.title == title,
            notification.message == message,
            notification.link == link,
            !notification.is_read,
            notification.created_at.is_clock_reading(),
    {
        Notification {
            id: random_id(),
            user_id,
            notification_type,
            title,
            message,
            link,
            is_read: false,
            created_at: system_time(),
        }
    }

    /// Marks the notification as read; nothing else changes.
    pub fn mark_as_read(&mut self)
        ensures
            *final(self) == (Notification { is_read: true, ..*old(self) }),
    {
        self.is_read = true;
    }
}

} // verus!
