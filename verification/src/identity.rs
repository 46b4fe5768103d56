//! Identity snapshots and project permissions, as the remote user service
//! reports them.

use vstd::prelude::*;

use crate::error::RequestError;

verus! {

/// One user's permission on one project, as carried in user-activation and
/// project-membership calls.
#[derive(Clone, Debug, PartialEq)]
pub struct ProjectPermission {
    pub user_id: String,
    pub project_id: String,
    pub permission: i32,
    pub service_account: bool,
}

impl ProjectPermission {
    /// A permission entry for a regular user (not a service account).
    pub fn new(user_id: String, project_id: String, permission: i32) -> (r: ProjectPermission)
        ensures
            r == (ProjectPermission {
                user_id,
                project_id,
                permission,
                service_account: false,
            }),
    {
        ProjectPermission { user_id, project_id, permission, service_account: false }
    }
}

/// The plain identity fields of the remote service's user object.
#[derive(Clone, Debug, PartialEq)]
pub struct UserRecord {
    pub id: String,
    pub display_name: String,
    pub email: String,
    pub active: bool,
}

/// An immutable identity snapshot: the user plus the project permissions
/// reported alongside it. Cached in the session once fetched.
#[derive(Clone, Debug, PartialEq)]
pub struct UserState {
    pub user_id: String,
    pub display_name: String,
    pub email: String,
    pub active: bool,
    pub permissions: Vec<ProjectPermission>,
}

/// Builds the identity snapshot from the parts of a "who am I" response:
/// the optional user object and the permissions listed beside it. A
/// response without a user object is an upstream failure.
pub fn user_state_from_parts(user: Option<UserRecord>, permissions: Vec<ProjectPermission>) -> (r:
    Result<UserState, RequestError>)
    ensures
        user is None ==> r == Err::<UserState, RequestError>(RequestError::UpstreamError),
        user matches Some(u) ==> r matches Ok(s)
            && s.user_id == u.id
            && s.display_name == u.display_name
            && s.email == u.email
            && s.active == u.active
            && s.permissions == permissions,
{
    match user {
        Some(u) => Ok(
            UserState {
                user_id: u.id,
                display_name: u.display_name,
                email: u.email,
                active: u.active,
                permissions,
            },
        ),
        None => Err(RequestError::UpstreamError),
    }
}

/// The permission entry a user-activation call carries: one is attached
/// exactly when a project id is given.
pub fn permission_for_activation(
    user_id: String,
    project_ulid: Option<String>,
    permission: i32,
) -> (r: Option<ProjectPermission>)
    ensures
        project_ulid is None ==> r is None,
        project_ulid matches Some(p) ==> r == Some(ProjectPermission {
            user_id,
            project_id: p,
            permission,
            service_account: false,
        }),
{
    match project_ulid {
        Some(p) => Some(ProjectPermission::new(user_id, p, permission)),
        None => None,
    }
}

} // verus!
