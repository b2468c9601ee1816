//! The activity record, read and written through its store.

use vstd::prelude::*;
use crate::entities::activity_log::ActivityLog;
use crate::error::DomainError;
use crate::ident::EntityId;
use crate::repositories::ActivityLogRepository;

verus! {

/// The service of the activity record.
pub struct ActivityAppService<R: ActivityLogRepository> {
    activity_repository: R,
}

impl<R: ActivityLogRepository> ActivityAppService<R> {
    /// The store that the service works against.
    pub closed spec fn store(&self) -> R {
        self.activity_repository
    }

    /// A service over the given store.
    pub fn new(activity_repository: R) -> (service: Self)
        ensures
            service.store() == activity_repository,
    {
        ActivityAppService { activity_repository }
    }

    /// The latest entries, as the store lists them.
    pub fn list_activities(&self, limit: Option<i64>) -> (r: Result<Vec<ActivityLog>, DomainError>)
        ensures
            self.store().answers_find_all(limit, r),
    {
        self.activity_repository.find_all(limit)
    }

    /// The latest entries of a project, as the store lists them.
    pub fn get_activities_by_project(&self, project_id: EntityId, limit: Option<i64>) -> (r: Result<
        Vec<ActivityLog>,
        DomainError,
    >)
        ensures
            self.store().answers_find_by_project(project_id, limit, r),
    {
        self.activity_repository.find_by_project(project_id, limit)
    }

    /// The latest entries of a user, as the store lists them.
    pub fn get_activities_by_user(&self, user_id: EntityId, limit: Option<i64>) -> (r: Result<
        Vec<ActivityLog>,
        DomainError,
    >)
        ensures
            self.store().answers_find_by_user(user_id, limit, r),
    {
        self.activity_repository.find_by_user(user_id, limit)
    }

    /// Hands an entry to the store, whose answer is the result.
    pub fn log_activity(&self, activity: ActivityLog) -> (r: Result<ActivityLog, DomainError>)
        ensures
            self.store().answers_create(activity, r),
    {
        self.activity_repository.create(&activity)
    }
}

} // verus!
