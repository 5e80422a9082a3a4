//! The arguments of the identity tools, as an agent sends them.
use vstd::prelude::*;
use crate::types::{AccessAction, ActorContext, TaskType};

verus! {

/// Arguments of `lookup_user`.
#[derive(Debug)]
pub struct LookupUserInput {
    /// Email, username, full name, or employee ID.
    pub query: String,
    pub actor: ActorContext,
}

/// Arguments of `get_user_groups`.
#[derive(Debug)]
pub struct GetUserGroupsInput {
    pub user_id: String,
    pub actor: ActorContext,
}

/// Arguments of `get_mfa_status`.
#[derive(Debug)]
pub struct GetMfaStatusInput {
    pub user_id: String,
    pub actor: ActorContext,
}

/// Arguments of `validate_identity`.
#[derive(Debug)]
pub struct ValidateIdentityInput {
    pub user_id: String,
    pub actor: ActorContext,
}

/// Arguments of `list_entitlements`.
#[derive(Debug)]
pub struct ListEntitlementsInput {
    pub user_id: String,
    pub actor: ActorContext,
}

/// Arguments of `request_access_change`.
#[derive(Debug)]
pub struct RequestAccessChangeInput {
    pub user_id: String,
    pub action: AccessAction,
    pub resource: String,
    pub role: String,
    pub reason: String,
    pub requested_by: String,
    pub ticket_id: Option<String>,
    pub actor: ActorContext,
}

/// Arguments of `revoke_access`.
#[derive(Debug)]
pub struct RevokeAccessInput {
    pub user_id: String,
    pub resource: String,
    pub role: String,
    pub reason: String,
    pub requested_by: String,
    pub ticket_id: Option<String>,
    pub actor: ActorContext,
}

/// Arguments of `create_user_lifecycle_task`.
#[derive(Debug)]
pub struct CreateLifecycleTaskInput {
    pub user_id: String,
    pub task_type: TaskType,
    pub owner_team: String,
    pub ticket_id: Option<String>,
    pub actor: ActorContext,
}

} // verus!
