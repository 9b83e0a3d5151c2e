use vstd::prelude::*;
use std::sync::Arc;

verus! {

/// Fetches one project of a user through a project repository.
#[derive(Clone)]
pub struct GetProjectByIdAndUserId<R> {
    pub project_repo: Arc<R>,
}

impl<R> GetProjectByIdAndUserId<R> {
    pub fn new(project_repo: Arc<R>) -> (r: Self)
        ensures
            r.project_repo == project_repo,
    {
        Self { project_repo }
    }
}

/// Renames or redescribes a project of a user through a project repository.
#[derive(Clone)]
pub struct UpdateProject<R> {
    pub project_repo: Arc<R>,
}

impl<R> UpdateProject<R> {
    pub fn new(project_repo: Arc<R>) -> (r: Self)
        ensures
            r.project_repo == project_repo,
    {
        Self { project_repo }
    }
}

/// Reads the settings of a user through a user repository.
pub struct GetUserSettingsUseCase<R> {
    pub user_repo: Arc<R>,
}

impl<R> GetUserSettingsUseCase<R> {
    pub fn new(user_repo: Arc<R>) -> (r: Self)
        ensures
            r.user_repo == user_repo,
    {
        Self { user_repo }
    }
}

} // verus!
