//! The records that the identity store keeps and hands out, each with a
//! mathematical view in which text is a `Seq<char>`.
use vstd::prelude::*;

verus! {

/// Account state of a user.
#[derive(Clone, Copy, Debug, PartialEq, Eq, Structural)]
pub enum UserStatus {
    Active,
    Suspended,
    Deactivated,
    Pending,
}

/// How an entitlement reached its holder.
#[derive(Clone, Copy, Debug, PartialEq, Eq, Structural)]
pub enum GrantType {
    Direct,
    Group,
    Role,
    Inherited,
    Temporary,
}

/// Risk classification of an entitlement, and of a user.
#[derive(Clone, Copy, Debug, PartialEq, Eq, Structural)]
pub enum EntitlementRisk {
    Low,
    Medium,
    High,
    Critical,
}

/// What an access-change request asks for.
#[derive(Clone, Copy, Debug, PartialEq, Eq, Structural)]
pub enum AccessAction {
    Grant,
    Revoke,
}

/// Where an access-change request stands in the approval workflow.
#[derive(Clone, Copy, Debug, PartialEq, Eq, Structural)]
pub enum RequestStatus {
    Pending,
    Approved,
    Denied,
    Expired,
}

/// Kind of lifecycle event a task handles.
#[derive(Clone, Copy, Debug, PartialEq, Eq, Structural)]
pub enum TaskType {
    Onboarding,
    Offboarding,
    Transfer,
    RoleChange,
}

/// Progress of a lifecycle task.
#[derive(Clone, Copy, Debug, PartialEq, Eq, Structural)]
pub enum TaskStatus {
    Pending,
    InProgress,
    Completed,
}

/// Classification of a group.
#[derive(Clone, Copy, Debug, PartialEq, Eq, Structural)]
pub enum GroupType {
    Security,
    Application,
    Role,
    Distribution,
    Dynamic,
}

/// A UTC instant: whole seconds since the Unix epoch and the nanoseconds
/// past that second.
#[derive(Clone, Copy, Debug, PartialEq, Eq, Structural)]
pub struct Timestamp {
    pub secs: i64,
    pub nanos: u32,
}

/// A user's membership of one group.
#[derive(Debug)]
pub struct GroupMembership {
    pub group_id: String,
    pub group_name: String,
    pub group_type: GroupType,
    pub role_in_group: Option<String>,
}

pub struct GroupMembershipView {
    pub group_id: Seq<char>,
    pub group_name: Seq<char>,
    pub group_type: GroupType,
    pub role_in_group: Option<Seq<char>>,
}

impl View for GroupMembership {
    type V = GroupMembershipView;

    open spec fn view(&self) -> GroupMembershipView {
        GroupMembershipView {
            group_id: self.group_id@,
            group_name: self.group_name@,
            group_type: self.group_type,
            role_in_group: self.role_in_group.deep_view(),
        }
    }
}

impl Clone for GroupMembership {
    fn clone(&self) -> (r: Self)
        ensures
            r@ == self@,
    {
        GroupMembership {
            group_id: self.group_id.clone(),
            group_name: self.group_name.clone(),
            group_type: self.group_type,
            role_in_group: self.role_in_group.clone(),
        }
    }
}


/// MFA enrollment metadata for a user: never device identifiers or recovery
/// codes.
#[derive(Debug)]
pub struct MfaStatus {
    pub enabled: bool,
    pub methods: Vec<String>,
    pub last_verified: Option<Timestamp>,
    pub enrolled_at: Option<Timestamp>,
}

pub struct MfaStatusView {
    pub enabled: bool,
    pub methods: Seq<Seq<char>>,
    pub last_verified: Option<Timestamp>,
    pub enrolled_at: Option<Timestamp>,
}

impl View for MfaStatus {
    type V = MfaStatusView;

    open spec fn view(&self) -> MfaStatusView {
        MfaStatusView {
            enabled: self.enabled,
            methods: self.methods.deep_view(),
            last_verified: self.last_verified,
            enrolled_at: self.enrolled_at,
        }
    }
}

impl Clone for MfaStatus {
    fn clone(&self) -> (r: Self)
        ensures
            r@ == self@,
    {
        let methods = self.methods.clone();
        proof {
            assert(methods.deep_view() =~= self.methods.deep_view());
        }
        MfaStatus {
            enabled: self.enabled,
            methods,
            last_verified: self.last_verified,
            enrolled_at: self.enrolled_at,
        }
    }
}

/// A user account as the directory holds it.
#[derive(Debug)]
pub struct User {
    pub id: String,
    pub username: String,
    pub email: String,
    pub full_name: String,
    pub department: String,
    pub job_title: Option<String>,
    pub location: Option<String>,
    pub manager: Option<String>,
    pub employee_id: Option<String>,
    pub status: UserStatus,
    pub mfa: MfaStatus,
    pub groups: Vec<GroupMembership>,
    pub risk_level: EntitlementRisk,
    pub last_login_at: Option<Timestamp>,
    pub created_at: Timestamp,
}

pub struct UserView {
    pub id: Seq<char>,
    pub username: Seq<char>,
    pub email: Seq<char>,
    pub full_name: Seq<char>,
    pub department: Seq<char>,
    pub job_title: Option<Seq<char>>,
    pub location: Option<Seq<char>>,
    pub manager: Option<Seq<char>>,
    pub employee_id: Option<Seq<char>>,
    pub status: UserStatus,
    pub mfa: MfaStatusView,
    pub groups: Seq<GroupMembershipView>,
    pub risk_level: EntitlementRisk,
    pub last_login_at: Option<Timestamp>,
    pub created_at: Timestamp,
}

/// The views of a sequence of group memberships.
pub open spec fn groups_view(groups: Seq<GroupMembership>) -> Seq<GroupMembershipView> {
    groups.map_values(|g: GroupMembership| g@)
}

impl View for User {
    type V = UserView;

    open spec fn view(&self) -> UserView {
        UserView {
            id: self.id@,
            username: self.username@,
            email: self.email@,
            full_name: self.full_name@,
            department: self.department@,
            job_title: self.job_title.deep_view(),
            location: self.location.deep_view(),
            manager: self.manager.deep_view(),
            employee_id: self.employee_id.deep_view(),
            status: self.status,
            mfa: self.mfa@,
            groups: groups_view(self.groups@),
            risk_level: self.risk_level,
            last_login_at: self.last_login_at,
            created_at: self.created_at,
        }
    }
}

/// What a lookup discloses of a user: identity, department, account status
/// and risk level, and nothing of MFA, groups, manager or employee id.
#[derive(Debug)]
pub struct UserSummary {
    pub id: String,
    pub username: String,
    pub email: String,
    pub full_name: String,
    pub department: String,
    pub status: UserStatus,
    pub risk_level: EntitlementRisk,
}

pub struct UserSummaryView {
    pub id: Seq<char>,
    pub username: Seq<char>,
    pub email: Seq<char>,
    pub full_name: Seq<char>,
    pub department: Seq<char>,
    pub status: UserStatus,
    pub risk_level: EntitlementRisk,
}

impl View for UserSummary {
    type V = UserSummaryView;

    open spec fn view(&self) -> UserSummaryView {
        UserSummaryView {
            id: self.id@,
            username: self.username@,
            email: self.email@,
            full_name: self.full_name@,
            department: self.department@,
            status: self.status,
            risk_level: self.risk_level,
        }
    }
}

/// The summary of a user: the projection onto the fields a lookup discloses.
pub open spec fn summary_of(u: UserView) -> UserSummaryView {
    UserSummaryView {
        id: u.id,
        username: u.username,
        email: u.email,
        full_name: u.full_name,
        department: u.department,
        status: u.status,
        risk_level: u.risk_level,
    }
}

impl User {
    /// The fields of this user that a lookup discloses.
    pub fn summary(&self) -> (r: UserSummary)
        ensures
            r@ == summary_of(self@),
    {
        UserSummary {
            id: self.id.clone(),
            username: self.username.clone(),
            email: self.email.clone(),
            full_name: self.full_name.clone(),
            department: self.department.clone(),
            status: self.status,
            risk_level: self.risk_level,
        }
    }
}

/// Copies a list of group memberships, element by element.
pub fn clone_groups(groups: &Vec<GroupMembership>) -> (r: Vec<GroupMembership>)
    ensures
        groups_view(r@) == groups_view(groups@),
{
    let mut r: Vec<GroupMembership> = Vec::new();
    let mut i: usize = 0;
    while i < groups.len()
        invariant
            i <= groups.len(),
            r@.len() == i,
            forall|j: int| 0 <= j < i ==> #[trigger] r@[j]@ == groups@[j]@,
        decreases groups.len() - i,
    {
        r.push(groups[i].clone());
        i = i + 1;
    }
    proof {
        assert(groups_view(r@) =~= groups_view(groups@));
    }
    r
}

impl Clone for User {
    fn clone(&self) -> (r: Self)
        ensures
            r@ == self@,
    {
        User {
            id: self.id.clone(),
            username: self.username.clone(),
            email: self.email.clone(),
            full_name: self.full_name.clone(),
            department: self.department.clone(),
            job_title: self.job_title.clone(),
            location: self.location.clone(),
            manager: self.manager.clone(),
            employee_id: self.employee_id.clone(),
            status: self.status,
            mfa: self.mfa.clone(),
            groups: clone_groups(&self.groups),
            risk_level: self.risk_level,
            last_login_at: self.last_login_at,
            created_at: self.created_at,
        }
    }
}

/// One access right that a user holds on a resource.
#[derive(Debug)]
pub struct Entitlement {
    pub resource: String,
    pub role: String,
    pub source: String,
    pub grant_type: GrantType,
    pub risk: EntitlementRisk,
    pub environment: Option<String>,
    pub granted_at: Timestamp,
    pub expires_at: Option<Timestamp>,
    pub granted_by: String,
    pub justification: Option<String>,
}

pub struct EntitlementView {
    pub resource: Seq<char>,
    pub role: Seq<char>,
    pub source: Seq<char>,
    pub grant_type: GrantType,
    pub risk: EntitlementRisk,
    pub environment: Option<Seq<char>>,
    pub granted_at: Timestamp,
    pub expires_at: Option<Timestamp>,
    pub granted_by: Seq<char>,
    pub justification: Option<Seq<char>>,
}

impl View for Entitlement {
    type V = EntitlementView;

    open spec fn view(&self) -> EntitlementView {
        EntitlementView {
            resource: self.resource@,
            role: self.role@,
            source: self.source@,
            grant_type: self.grant_type,
            risk: self.risk,
            environment: self.environment.deep_view(),
            granted_at: self.granted_at,
            expires_at: self.expires_at,
            granted_by: self.granted_by@,
            justification: self.justification.deep_view(),
        }
    }
}

impl Clone for Entitlement {
    fn clone(&self) -> (r: Self)
        ensures
            r@ == self@,
    {
        Entitlement {
            resource: self.resource.clone(),
            role: self.role.clone(),
            source: self.source.clone(),
            grant_type: self.grant_type,
            risk: self.risk,
            environment: self.environment.clone(),
            granted_at: self.granted_at,
            expires_at: self.expires_at,
            granted_by: self.granted_by.clone(),
            justification: self.justification.clone(),
        }
    }
}

/// The views of a sequence of entitlements.
pub open spec fn entitlements_view(ents: Seq<Entitlement>) -> Seq<EntitlementView> {
    ents.map_values(|e: Entitlement| e@)
}

/// Copies a list of entitlements, element by element.
pub fn clone_entitlements(ents: &Vec<Entitlement>) -> (r: Vec<Entitlement>)
    ensures
        entitlements_view(r@) == entitlements_view(ents@),
{
    let mut r: Vec<Entitlement> = Vec::new();
    let mut i: usize = 0;
    while i < ents.len()
        invariant
            i <= ents.len(),
            r@.len() == i,
            forall|j: int| 0 <= j < i ==> #[trigger] r@[j]@ == ents@[j]@,
        decreases ents.len() - i,
    {
        r.push(ents[i].clone());
        i = i + 1;
    }
    proof {
        assert(entitlements_view(r@) =~= entitlements_view(ents@));
    }
    r
}

/// A request to grant or revoke access, waiting in the approval workflow.
#[derive(Debug)]
pub struct AccessRequest {
    pub id: String,
    pub user_id: String,
    pub action: AccessAction,
    pub resource: String,
    pub role: String,
    pub reason: String,
    pub requested_by: String,
    pub ticket_id: Option<String>,
    pub status: RequestStatus,
    pub approver: Option<String>,
    pub policy_decision: Option<String>,
    pub created_at: Timestamp,
    pub updated_at: Timestamp,
}

pub struct AccessRequestView {
    pub id: Seq<char>,
    pub user_id: Seq<char>,
    pub action: AccessAction,
    pub resource: Seq<char>,
    pub role: Seq<char>,
    pub reason: Seq<char>,
    pub requested_by: Seq<char>,
    pub ticket_id: Option<Seq<char>>,
    pub status: RequestStatus,
    pub approver: Option<Seq<char>>,
    pub policy_decision: Option<Seq<char>>,
    pub created_at: Timestamp,
    pub updated_at: Timestamp,
}

impl View for AccessRequest {
    type V = AccessRequestView;

    open spec fn view(&self) -> AccessRequestView {
        AccessRequestView {
            id: self.id@,
            user_id: self.user_id@,
            action: self.action,
            resource: self.resource@,
            role: self.role@,
            reason: self.reason@,
            requested_by: self.requested_by@,
            ticket_id: self.ticket_id.deep_view(),
            status: self.status,
            approver: self.approver.deep_view(),
            policy_decision: self.policy_decision.deep_view(),
            created_at: self.created_at,
            updated_at: self.updated_at,
        }
    }
}

impl Clone for AccessRequest {
    fn clone(&self) -> (r: Self)
        ensures
            r@ == self@,
    {
        AccessRequest {
            id: self.id.clone(),
            user_id: self.user_id.clone(),
            action: self.action,
            resource: self.resource.clone(),
            role: self.role.clone(),
            reason: self.reason.clone(),
            requested_by: self.requested_by.clone(),
            ticket_id: self.ticket_id.clone(),
            status: self.status,
            approver: self.approver.clone(),
            policy_decision: self.policy_decision.clone(),
            created_at: self.created_at,
            updated_at: self.updated_at,
        }
    }
}

/// An onboarding, offboarding, transfer or role-change task with its steps
/// and the systems it touches.
#[derive(Debug)]
pub struct LifecycleTask {
    pub id: String,
    pub user_id: String,
    pub task_type: TaskType,
    pub status: TaskStatus,
    pub owner_team: String,
    pub ticket_id: Option<String>,
    pub steps: Vec<String>,
    pub systems_impacted: Vec<String>,
    pub created_at: Timestamp,
}

pub struct LifecycleTaskView {
    pub id: Seq<char>,
    pub user_id: Seq<char>,
    pub task_type: TaskType,
    pub status: TaskStatus,
    pub owner_team: Seq<char>,
    pub ticket_id: Option<Seq<char>>,
    pub steps: Seq<Seq<char>>,
    pub systems_impacted: Seq<Seq<char>>,
    pub created_at: Timestamp,
}

impl View for LifecycleTask {
    type V = LifecycleTaskView;

    open spec fn view(&self) -> LifecycleTaskView {
        LifecycleTaskView {
            id: self.id@,
            user_id: self.user_id@,
            task_type: self.task_type,
            status: self.status,
            owner_team: self.owner_team@,
            ticket_id: self.ticket_id.deep_view(),
            steps: self.steps.deep_view(),
            systems_impacted: self.systems_impacted.deep_view(),
            created_at: self.created_at,
        }
    }
}

impl Clone for LifecycleTask {
    fn clone(&self) -> (r: Self)
        ensures
            r@ == self@,
    {
        let steps = self.steps.clone();
        let systems_impacted = self.systems_impacted.clone();
        proof {
            assert(steps.deep_view() =~= self.steps.deep_view());
            assert(systems_impacted.deep_view() =~= self.systems_impacted.deep_view());
        }
        LifecycleTask {
            id: self.id.clone(),
            user_id: self.user_id.clone(),
            task_type: self.task_type,
            status: self.status,
            owner_team: self.owner_team.clone(),
            ticket_id: self.ticket_id.clone(),
            steps,
            systems_impacted,
            created_at: self.created_at,
        }
    }
}

/// Who is calling, from which agent and session, for which ticket and for
/// what purpose.
#[derive(Debug)]
pub struct ActorContext {
    pub actor_id: Option<String>,
    pub agent_id: Option<String>,
    pub session_id: Option<String>,
    pub ticket_id: Option<String>,
    pub purpose: Option<String>,
}

pub struct ActorContextView {
    pub actor_id: Option<Seq<char>>,
    pub agent_id: Option<Seq<char>>,
    pub session_id: Option<Seq<char>>,
    pub ticket_id: Option<Seq<char>>,
    pub purpose: Option<Seq<char>>,
}

impl View for ActorContext {
    type V = ActorContextView;

    open spec fn view(&self) -> ActorContextView {
        ActorContextView {
            actor_id: self.actor_id.deep_view(),
            agent_id: self.agent_id.deep_view(),
            session_id: self.session_id.deep_view(),
            ticket_id: self.ticket_id.deep_view(),
            purpose: self.purpose.deep_view(),
        }
    }
}

impl Clone for ActorContext {
    fn clone(&self) -> (r: Self)
        ensures
            r@ == self@,
    {
        ActorContext {
            actor_id: self.actor_id.clone(),
            agent_id: self.agent_id.clone(),
            session_id: self.session_id.clone(),
            ticket_id: self.ticket_id.clone(),
            purpose: self.purpose.clone(),
        }
    }
}

impl Default for ActorContext {
    /// An actor about whom nothing is known.
    fn default() -> (r: Self)
        ensures
            r@ == (ActorContextView {
                actor_id: None,
                agent_id: None,
                session_id: None,
                ticket_id: None,
                purpose: None,
            }),
    {
        ActorContext { actor_id: None, agent_id: None, session_id: None, ticket_id: None, purpose: None }
    }
}

} // verus!
