//! The identity store: users, their entitlements, access-change requests,
//! lifecycle tasks and the audit trail, with every operation that agents use.
use vstd::prelude::*;
use vstd::string::*;
use crate::types::{
    AccessAction, AccessRequest, AccessRequestView, ActorContext, ActorContextView, Entitlement,
    EntitlementRisk, EntitlementView, GroupMembership, LifecycleTask, LifecycleTaskView, MfaStatus,
    RequestStatus, TaskStatus, TaskType, Timestamp, User, UserStatus, UserView, clone_entitlements,
    clone_groups, entitlements_view, groups_view, summary_of, UserSummary,
};
use crate::text::{contains_text, has_substring, lowercase, to_lowercase};
use crate::sources::{current_time, has_id_shape, is_generated_id, new_short_id};
use crate::laws::{lemma_with_entitlement_wf, lemma_with_user_wf};

verus! {

/// What an audit record says about the call it records.
#[derive(Debug)]
pub enum AuditDetails {
    /// A user lookup, with the query as given.
    Query { query: String },
    /// A read about one user.
    Subject { user_id: String },
    /// An access-change request.
    AccessChange { user_id: String, action: AccessAction, resource: String },
    /// A break-glass revocation.
    Revocation { user_id: String, resource: String, reason: String, break_glass: bool },
    /// A lifecycle task.
    Lifecycle { user_id: String, task_type: TaskType },
}

pub enum AuditDetailsView {
    Query { query: Seq<char> },
    Subject { user_id: Seq<char> },
    AccessChange { user_id: Seq<char>, action: AccessAction, resource: Seq<char> },
    Revocation { user_id: Seq<char>, resource: Seq<char>, reason: Seq<char>, break_glass: bool },
    Lifecycle { user_id: Seq<char>, task_type: TaskType },
}

impl View for AuditDetails {
    type V = AuditDetailsView;

    open spec fn view(&self) -> AuditDetailsView {
        match self {
            AuditDetails::Query { query } => AuditDetailsView::Query { query: query@ },
            AuditDetails::Subject { user_id } => AuditDetailsView::Subject { user_id: user_id@ },
            AuditDetails::AccessChange { user_id, action, resource } => AuditDetailsView::AccessChange {
                user_id: user_id@,
                action: *action,
                resource: resource@,
            },
            AuditDetails::Revocation { user_id, resource, reason, break_glass } => AuditDetailsView::Revocation {
                user_id: user_id@,
                resource: resource@,
                reason: reason@,
                break_glass: *break_glass,
            },
            AuditDetails::Lifecycle { user_id, task_type } => AuditDetailsView::Lifecycle {
                user_id: user_id@,
                task_type: *task_type,
            },
        }
    }
}

/// One record of the audit trail: which operation ran, for whom, about what,
/// and when.
#[derive(Debug)]
pub struct AuditEntry {
    pub action: String,
    pub actor: ActorContext,
    pub details: AuditDetails,
    pub timestamp: Timestamp,
}

pub struct AuditEntryView {
    pub action: Seq<char>,
    pub actor: ActorContextView,
    pub details: AuditDetailsView,
    pub timestamp: Timestamp,
}

impl View for AuditEntry {
    type V = AuditEntryView;

    open spec fn view(&self) -> AuditEntryView {
        AuditEntryView {
            action: self.action@,
            actor: self.actor@,
            details: self.details@,
            timestamp: self.timestamp,
        }
    }
}

/// The answer to an identity validation of an existing user.
#[derive(Debug)]
pub struct IdentityValidation {
    pub valid: bool,
    pub user_id: String,
    pub status: UserStatus,
    pub full_name: String,
    pub department: String,
    pub manager: Option<String>,
    pub mfa_enabled: bool,
    pub risk_level: EntitlementRisk,
    pub active: bool,
}

pub struct IdentityValidationView {
    pub valid: bool,
    pub user_id: Seq<char>,
    pub status: UserStatus,
    pub full_name: Seq<char>,
    pub department: Seq<char>,
    pub manager: Option<Seq<char>>,
    pub mfa_enabled: bool,
    pub risk_level: EntitlementRisk,
    pub active: bool,
}

impl View for IdentityValidation {
    type V = IdentityValidationView;

    open spec fn view(&self) -> IdentityValidationView {
        IdentityValidationView {
            valid: self.valid,
            user_id: self.user_id@,
            status: self.status,
            full_name: self.full_name@,
            department: self.department@,
            manager: self.manager.deep_view(),
            mfa_enabled: self.mfa_enabled,
            risk_level: self.risk_level,
            active: self.active,
        }
    }
}

/// The validation answer for a user that exists: valid, and active exactly
/// when the account status is `Active`.
pub open spec fn validation_of(u: UserView) -> IdentityValidationView {
    IdentityValidationView {
        valid: true,
        user_id: u.id,
        status: u.status,
        full_name: u.full_name,
        department: u.department,
        manager: u.manager,
        mfa_enabled: u.mfa.enabled,
        risk_level: u.risk_level,
        active: u.status == UserStatus::Active,
    }
}

/// The receipt of a break-glass revocation.
#[derive(Debug)]
pub struct RevocationReceipt {
    pub revoked: bool,
    pub user_id: String,
    pub resource: String,
    pub role: String,
    pub reason: String,
    pub requested_by: String,
    pub ticket_id: Option<String>,
    pub effective_at: Timestamp,
    pub requires_post_review: bool,
}

pub struct RevocationReceiptView {
    pub revoked: bool,
    pub user_id: Seq<char>,
    pub resource: Seq<char>,
    pub role: Seq<char>,
    pub reason: Seq<char>,
    pub requested_by: Seq<char>,
    pub ticket_id: Option<Seq<char>>,
    pub effective_at: Timestamp,
    pub requires_post_review: bool,
}

impl View for RevocationReceipt {
    type V = RevocationReceiptView;

    open spec fn view(&self) -> RevocationReceiptView {
        RevocationReceiptView {
            revoked: self.revoked,
            user_id: self.user_id@,
            resource: self.resource@,
            role: self.role@,
            reason: self.reason@,
            requested_by: self.requested_by@,
            ticket_id: self.ticket_id.deep_view(),
            effective_at: self.effective_at,
            requires_post_review: self.requires_post_review,
        }
    }
}

/// What the clock can read: not before the Unix epoch, and fewer than a
/// billion nanoseconds past the whole second.
pub open spec fn is_clock_reading(t: Timestamp) -> bool {
    t.secs >= 0 && t.nanos < 1_000_000_000
}

/// The answer to a break-glass revocation that names no ticket.
pub open spec fn missing_ticket_message() -> Seq<char> {
    "Ticket required: break-glass revocation needs a ticket"@
}

/// The text of an optional string argument.
pub open spec fn opt_text(o: Option<&str>) -> Option<Seq<char>> {
    match o {
        Some(t) => Some(t@),
        None => None,
    }
}

fn opt_string(o: Option<&str>) -> (r: Option<String>)
    ensures
        r.deep_view() == opt_text(o),
{
    match o {
        Some(t) => Some(String::from_str(t)),
        None => None,
    }
}

/// The entitlements held under one user id.
struct EntitlementSet {
    user_id: String,
    items: Vec<Entitlement>,
}

pub struct EntitlementSetView {
    pub user_id: Seq<char>,
    pub items: Seq<EntitlementView>,
}

impl View for EntitlementSet {
    type V = EntitlementSetView;

    closed spec fn view(&self) -> EntitlementSetView {
        EntitlementSetView { user_id: self.user_id@, items: entitlements_view(self.items@) }
    }
}

/// `u` matches a lowercased lookup query: the query occurs in the lowercased
/// username, email, full name or employee id.
pub open spec fn user_matches(u: UserView, q: Seq<char>) -> bool {
    ||| has_substring(lowercase(u.username), q)
    ||| has_substring(lowercase(u.email), q)
    ||| has_substring(lowercase(u.full_name), q)
    ||| (u.employee_id matches Some(e) && has_substring(lowercase(e), q))
}

/// An entitlement that a revocation of `role` on `resource` leaves in place.
pub open spec fn survives_revocation(e: EntitlementView, resource: Seq<char>, role: Seq<char>) -> bool {
    !(e.resource == resource && e.role == role)
}

/// A freshly submitted access-change request: pending, with no approver,
/// awaiting approval.
pub open spec fn pending_request(
    id: Seq<char>,
    user_id: Seq<char>,
    action: AccessAction,
    resource: Seq<char>,
    role: Seq<char>,
    reason: Seq<char>,
    requested_by: Seq<char>,
    ticket_id: Option<Seq<char>>,
    created_at: Timestamp,
    updated_at: Timestamp,
) -> AccessRequestView {
    AccessRequestView {
        id,
        user_id,
        action,
        resource,
        role,
        reason,
        requested_by,
        ticket_id,
        status: RequestStatus::Pending,
        approver: None,
        policy_decision: Some("awaiting_approval"@),
        created_at,
        updated_at,
    }
}

/// The steps of a lifecycle task of the given type.
pub open spec fn lifecycle_steps(t: TaskType) -> Seq<Seq<char>> {
    match t {
        TaskType::Onboarding => seq![
            "Create accounts"@,
            "Assign groups"@,
            "Provision hardware"@,
            "Schedule orientation"@,
            "Grant base entitlements"@,
        ],
        TaskType::Offboarding => seq![
            "Revoke all access"@,
            "Disable accounts"@,
            "Collect hardware"@,
            "Transfer data ownership"@,
            "Archive mailbox"@,
        ],
        TaskType::Transfer => seq![
            "Review current entitlements"@,
            "Revoke old team access"@,
            "Grant new team access"@,
            "Update manager"@,
        ],
        TaskType::RoleChange => seq![
            "Review role requirements"@,
            "Adjust entitlements"@,
            "Update groups"@,
            "Notify manager"@,
        ],
    }
}

/// The systems that a lifecycle task of the given type touches.
pub open spec fn lifecycle_systems(t: TaskType) -> Seq<Seq<char>> {
    match t {
        TaskType::Onboarding => seq!["Azure AD"@, "GitHub"@, "Slack"@, "VPN"@, "Email"@],
        TaskType::Offboarding => seq!["All systems"@],
        _ => seq!["Azure AD"@, "GitHub"@],
    }
}

/// A freshly created lifecycle task: pending, with the steps and systems of
/// its type.
pub open spec fn pending_task(
    id: Seq<char>,
    user_id: Seq<char>,
    task_type: TaskType,
    owner_team: Seq<char>,
    ticket_id: Option<Seq<char>>,
    created_at: Timestamp,
) -> LifecycleTaskView {
    LifecycleTaskView {
        id,
        user_id,
        task_type,
        status: TaskStatus::Pending,
        owner_team,
        ticket_id,
        steps: lifecycle_steps(task_type),
        systems_impacted: lifecycle_systems(task_type),
        created_at,
    }
}

/// The contents of an identity store.
pub struct IdentityStoreView {
    /// Users in the order they were first added; ids are distinct.
    pub users: Seq<UserView>,
    /// Entitlement lists keyed by user id, in the order the keys appeared;
    /// keys are distinct.
    pub entitlements: Seq<EntitlementSetView>,
    /// Access-change requests in submission order.
    pub access_requests: Seq<AccessRequestView>,
    /// Lifecycle tasks in creation order.
    pub lifecycle_tasks: Seq<LifecycleTaskView>,
    /// The audit trail, oldest first.
    pub audit_log: Seq<AuditEntryView>,
}

impl IdentityStoreView {
    /// Ids of users are distinct, and so are the keys of entitlement lists.
    pub open spec fn wf(self) -> bool {
        &&& forall|i: int, j: int|
            0 <= i < self.users.len() && 0 <= j < self.users.len() && i != j ==> #[trigger] self.users[i].id
                != #[trigger] self.users[j].id
        &&& forall|i: int, j: int|
            0 <= i < self.entitlements.len() && 0 <= j < self.entitlements.len() && i != j
                ==> #[trigger] self.entitlements[i].user_id != #[trigger] self.entitlements[j].user_id
    }

    pub open spec fn has_user(self, id: Seq<char>) -> bool {
        exists|i: int| 0 <= i < self.users.len() && #[trigger] self.users[i].id == id
    }

    pub open spec fn user_index(self, id: Seq<char>) -> int {
        choose|i: int| 0 <= i < self.users.len() && #[trigger] self.users[i].id == id
    }

    /// The user with the given id, if there is one.
    pub open spec fn user(self, id: Seq<char>) -> Option<UserView> {
        if self.has_user(id) {
            Some(self.users[self.user_index(id)])
        } else {
            None
        }
    }

    pub open spec fn has_entitlement_set(self, id: Seq<char>) -> bool {
        exists|i: int| 0 <= i < self.entitlements.len() && #[trigger] self.entitlements[i].user_id == id
    }

    pub open spec fn entitlement_set_index(self, id: Seq<char>) -> int {
        choose|i: int| 0 <= i < self.entitlements.len() && #[trigger] self.entitlements[i].user_id == id
    }

    /// The entitlement list kept under the given user id, if there is one.
    pub open spec fn entitlements_of(self, id: Seq<char>) -> Option<Seq<EntitlementView>> {
        if self.has_entitlement_set(id) {
            Some(self.entitlements[self.entitlement_set_index(id)].items)
        } else {
            None
        }
    }

    /// The entitlements of the given user id, empty where none are kept.
    pub open spec fn entitlements_or_empty(self, id: Seq<char>) -> Seq<EntitlementView> {
        match self.entitlements_of(id) {
            Some(items) => items,
            None => Seq::empty(),
        }
    }

    /// The store with one more audit record at the end of its trail.
    pub open spec fn logged(
        self,
        action: Seq<char>,
        actor: ActorContextView,
        details: AuditDetailsView,
        at: Timestamp,
    ) -> IdentityStoreView {
        IdentityStoreView {
            audit_log: self.audit_log.push(
                AuditEntryView { action, actor, details, timestamp: at },
            ),
            ..self
        }
    }

    /// The store after adding `u`: a user with the same id is replaced in
    /// place, a new one goes last; a new id gets an empty entitlement list,
    /// an id that has one keeps it.
    pub open spec fn with_user(self, u: UserView) -> IdentityStoreView {
        IdentityStoreView {
            users: if self.has_user(u.id) {
                self.users.update(self.user_index(u.id), u)
            } else {
                self.users.push(u)
            },
            entitlements: if self.has_entitlement_set(u.id) {
                self.entitlements
            } else {
                self.entitlements.push(EntitlementSetView { user_id: u.id, items: Seq::empty() })
            },
            ..self
        }
    }

    /// The store after appending `e` to the entitlements of `id`, creating
    /// the list where there is none.
    pub open spec fn with_entitlement(self, id: Seq<char>, e: EntitlementView) -> IdentityStoreView {
        IdentityStoreView {
            entitlements: if self.has_entitlement_set(id) {
                let i = self.entitlement_set_index(id);
                self.entitlements.update(
                    i,
                    EntitlementSetView { user_id: id, items: self.entitlements[i].items.push(e) },
                )
            } else {
                self.entitlements.push(EntitlementSetView { user_id: id, items: seq![e] })
            },
            ..self
        }
    }

    /// The entitlements of `id` that a revocation of `role` on `resource`
    /// keeps, in their order.
    pub open spec fn surviving(self, id: Seq<char>, resource: Seq<char>, role: Seq<char>) -> Seq<
        EntitlementView,
    > {
        self.entitlements_or_empty(id).filter(
            |e: EntitlementView| survives_revocation(e, resource, role),
        )
    }

    /// Whether the entitlements of `id` hold `role` on `resource`.
    pub open spec fn holds(self, id: Seq<char>, resource: Seq<char>, role: Seq<char>) -> bool {
        exists|k: int|
            0 <= k < self.entitlements_or_empty(id).len() && !survives_revocation(
                #[trigger] self.entitlements_or_empty(id)[k],
                resource,
                role,
            )
    }

    /// The store after removing every entitlement of `id` that grants `role`
    /// on `resource`.
    pub open spec fn without_access(self, id: Seq<char>, resource: Seq<char>, role: Seq<char>) -> IdentityStoreView {
        IdentityStoreView {
            entitlements: if self.has_entitlement_set(id) {
                self.entitlements.update(
                    self.entitlement_set_index(id),
                    EntitlementSetView { user_id: id, items: self.surviving(id, resource, role) },
                )
            } else {
                self.entitlements
            },
            ..self
        }
    }

    pub open spec fn with_request(self, r: AccessRequestView) -> IdentityStoreView {
        IdentityStoreView { access_requests: self.access_requests.push(r), ..self }
    }

    pub open spec fn with_task(self, t: LifecycleTaskView) -> IdentityStoreView {
        IdentityStoreView { lifecycle_tasks: self.lifecycle_tasks.push(t), ..self }
    }

    /// The users that a lookup with `query` finds, in store order.
    pub open spec fn lookup(self, query: Seq<char>) -> Seq<UserView> {
        self.users.filter(|u: UserView| user_matches(u, lowercase(query)))
    }

    /// The time stamp of the newest audit record.
    pub open spec fn last_audit_time(self) -> Timestamp {
        self.audit_log.last().timestamp
    }
}

/// One step of a filter over a prefix.
proof fn lemma_filter_prefix_step<A>(s: Seq<A>, i: int, p: spec_fn(A) -> bool)
    requires
        0 <= i < s.len(),
    ensures
        s.take(i + 1).filter(p) == (if p(s[i]) {
            s.take(i).filter(p).push(s[i])
        } else {
            s.take(i).filter(p)
        }),
{
    reveal(Seq::filter);
    assert(s.take(i + 1).drop_last() =~= s.take(i));
}

/// Users whose views have distinct ids have distinct ids.
proof fn lemma_distinct_user_ids(users: Seq<User>, views: Seq<UserView>)
    requires
        views == users.map_values(|u: User| u@),
        forall|i: int, j: int|
            0 <= i < views.len() && 0 <= j < views.len() && i != j ==> #[trigger] views[i].id
                != #[trigger] views[j].id,
    ensures
        forall|i: int, j: int|
            0 <= i < users.len() && 0 <= j < users.len() && i != j ==> #[trigger] users[i].id@
                != #[trigger] users[j].id@,
{
    assert forall|i: int, j: int|
        0 <= i < users.len() && 0 <= j < users.len() && i != j implies #[trigger] users[i].id@
        != #[trigger] users[j].id@ by {
        assert(views[i].id != views[j].id);
    }
}

/// Entitlement lists whose views have distinct keys have distinct keys.
proof fn lemma_distinct_set_keys(sets: Seq<EntitlementSet>, views: Seq<EntitlementSetView>)
    requires
        views == sets.map_values(|x: EntitlementSet| x@),
        forall|i: int, j: int|
            0 <= i < views.len() && 0 <= j < views.len() && i != j ==> #[trigger] views[i].user_id
                != #[trigger] views[j].user_id,
    ensures
        forall|i: int, j: int|
            0 <= i < sets.len() && 0 <= j < sets.len() && i != j ==> #[trigger] sets[i].user_id@
                != #[trigger] sets[j].user_id@,
{
    assert forall|i: int, j: int|
        0 <= i < sets.len() && 0 <= j < sets.len() && i != j implies #[trigger] sets[i].user_id@
        != #[trigger] sets[j].user_id@ by {
        assert(views[i].user_id != views[j].user_id);
    }
}

/// An in-memory identity store.
pub struct IdentityStore {
    users: Vec<User>,
    entitlements: Vec<EntitlementSet>,
    access_requests: Vec<AccessRequest>,
    lifecycle_tasks: Vec<LifecycleTask>,
    audit_log: Vec<AuditEntry>,
}

impl View for IdentityStore {
    type V = IdentityStoreView;

    closed spec fn view(&self) -> IdentityStoreView {
        IdentityStoreView {
            users: self.users@.map_values(|u: User| u@),
            entitlements: self.entitlements@.map_values(|s: EntitlementSet| s@),
            access_requests: self.access_requests@.map_values(|r: AccessRequest| r@),
            lifecycle_tasks: self.lifecycle_tasks@.map_values(|t: LifecycleTask| t@),
            audit_log: self.audit_log@.map_values(|e: AuditEntry| e@),
        }
    }
}

impl IdentityStore {
    /// User ids are distinct, and so are the keys of entitlement lists.
    #[verifier::type_invariant]
    closed spec fn keys_distinct(&self) -> bool {
        &&& forall|i: int, j: int|
            0 <= i < self.users@.len() && 0 <= j < self.users@.len() && i != j
                ==> #[trigger] self.users@[i].id@ != #[trigger] self.users@[j].id@
        &&& forall|i: int, j: int|
            0 <= i < self.entitlements@.len() && 0 <= j < self.entitlements@.len() && i != j
                ==> #[trigger] self.entitlements@[i].user_id@ != #[trigger] self.entitlements@[j].user_id@
    }

    /// The type invariant is the well-formedness of the view.
    proof fn lemma_keys_distinct_is_wf(&self)
        ensures
            self.keys_distinct() == self@.wf(),
    {
        assert(self.keys_distinct() ==> self@.wf()) by {
            if self.keys_distinct() {
                assert forall|i: int, j: int|
                    0 <= i < self@.users.len() && 0 <= j < self@.users.len() && i != j implies #[trigger] self@.users[i].id
                    != #[trigger] self@.users[j].id by {
                    assert(self.users@[i].id@ != self.users@[j].id@);
                }
                assert forall|i: int, j: int|
                    0 <= i < self@.entitlements.len() && 0 <= j < self@.entitlements.len() && i != j implies #[trigger] self@.entitlements[i].user_id
                    != #[trigger] self@.entitlements[j].user_id by {
                    assert(self.entitlements@[i].user_id@ != self.entitlements@[j].user_id@);
                }
            }
        }
        assert(self@.wf() ==> self.keys_distinct()) by {
            if self@.wf() {
                assert forall|i: int, j: int|
                    0 <= i < self.users@.len() && 0 <= j < self.users@.len() && i != j implies #[trigger] self.users@[i].id@
                    != #[trigger] self.users@[j].id@ by {
                    assert(self@.users[i].id != self@.users[j].id);
                }
                assert forall|i: int, j: int|
                    0 <= i < self.entitlements@.len() && 0 <= j < self.entitlements@.len() && i != j implies #[trigger] self.entitlements@[i].user_id@
                    != #[trigger] self.entitlements@[j].user_id@ by {
                    assert(self@.entitlements[i].user_id != self@.entitlements[j].user_id);
                }
            }
        }
    }

    /// An empty store.
    pub fn new() -> (s: Self)
        ensures
            s@.wf(),
            s@.users == Seq::<UserView>::empty(),
            s@.entitlements == Seq::<EntitlementSetView>::empty(),
            s@.access_requests == Seq::<AccessRequestView>::empty(),
            s@.lifecycle_tasks == Seq::<LifecycleTaskView>::empty(),
            s@.audit_log == Seq::<AuditEntryView>::empty(),
    {
        let s = IdentityStore {
            users: Vec::new(),
            entitlements: Vec::new(),
            access_requests: Vec::new(),
            lifecycle_tasks: Vec::new(),
            audit_log: Vec::new(),
        };
        proof {
            assert(s@.users =~= Seq::<UserView>::empty());
            assert(s@.entitlements =~= Seq::<EntitlementSetView>::empty());
            assert(s@.access_requests =~= Seq::<AccessRequestView>::empty());
            assert(s@.lifecycle_tasks =~= Seq::<LifecycleTaskView>::empty());
            assert(s@.audit_log =~= Seq::<AuditEntryView>::empty());
        }
        s
    }

    /// Where the user with id `key` sits.
    fn position_of_user(&self, key: &String) -> (r: Option<usize>)
        requires
            self@.wf(),
        ensures
            match r {
                Some(i) => i < self@.users.len() && self@.has_user(key@) && self@.user_index(key@)
                    == i,
                None => !self@.has_user(key@),
            },
    {
        let mut i: usize = 0;
        while i < self.users.len()
            invariant
                i <= self.users@.len(),
                self@.wf(),
                forall|j: int| 0 <= j < i ==> #[trigger] self@.users[j].id != key@,
            decreases self.users@.len() - i,
        {
            if self.users[i].id == *key {
                proof {
                    assert(self@.users[i as int].id == key@);
                    assert(self@.has_user(key@));
                    let j = self@.user_index(key@);
                    assert(self@.users[j].id == key@);
                }
                return Some(i);
            }
            i = i + 1;
        }
        None
    }

    /// Where the entitlement list of `key` sits.
    fn position_of_set(&self, key: &String) -> (r: Option<usize>)
        requires
            self@.wf(),
        ensures
            match r {
                Some(i) => i < self@.entitlements.len() && self@.has_entitlement_set(key@)
                    && self@.entitlement_set_index(key@) == i,
                None => !self@.has_entitlement_set(key@),
            },
    {
        let mut i: usize = 0;
        while i < self.entitlements.len()
            invariant
                i <= self.entitlements@.len(),
                self@.wf(),
                forall|j: int| 0 <= j < i ==> #[trigger] self@.entitlements[j].user_id != key@,
            decreases self.entitlements@.len() - i,
        {
            if self.entitlements[i].user_id == *key {
                proof {
                    assert(self@.entitlements[i as int].user_id == key@);
                    assert(self@.has_entitlement_set(key@));
                    let j = self@.entitlement_set_index(key@);
                    assert(self@.entitlements[j].user_id == key@);
                }
                return Some(i);
            }
            i = i + 1;
        }
        None
    }

    /// Appends a record to the audit trail, stamped with the current time.
    fn audit(&mut self, action: String, actor: &ActorContext, details: AuditDetails)
        ensures
            final(self)@ == old(self)@.logged(
                action@,
                actor@,
                details@,
                final(self)@.last_audit_time(),
            ),
            is_clock_reading(final(self)@.last_audit_time()),
    {
        proof {
            use_type_invariant(&*self);
            self.lemma_keys_distinct_is_wf();
        }
        let timestamp = current_time();
        let entry = AuditEntry { action, actor: actor.clone(), details, timestamp };
        let mut log: Vec<AuditEntry> = Vec::new();
        std::mem::swap(&mut log, &mut self.audit_log);
        log.push(entry);
        self.audit_log = log;
        proof {
            assert(self@.audit_log =~= old(self)@.audit_log.push(entry@));
        }
    }

    /// Adds a user, replacing any user with the same id, and makes sure the
    /// id has an entitlement list (an existing one is kept as it is).
    pub fn add_user(&mut self, user: User)
        ensures
            final(self)@.wf(),
            final(self)@ == old(self)@.with_user(user@),
    {
        proof {
            use_type_invariant(&*self);
            self.lemma_keys_distinct_is_wf();
        }
        let ghost u = user@;
        let key = user.id.clone();
        let user_pos = self.position_of_user(&key);
        let set_pos = self.position_of_set(&key);
        let mut users: Vec<User> = Vec::new();
        std::mem::swap(&mut users, &mut self.users);
        match user_pos {
            Some(i) => {
                users.set(i, user);
                proof {
                    assert(users@.map_values(|x: User| x@) =~= old(self)@.users.update(i as int, u));
                    assert(old(self)@.users[i as int].id == key@);
                }
            },
            None => {
                users.push(user);
                proof {
                    assert(users@.map_values(|x: User| x@) =~= old(self)@.users.push(u));
                    assert(forall|j: int| 0 <= j < old(self)@.users.len() ==> #[trigger] old(self)@.users[j].id != key@);
                }
            },
        }
        proof {
            lemma_with_user_wf(old(self)@, u);
            assert(users@.map_values(|x: User| x@) == old(self)@.with_user(u).users);
            lemma_distinct_user_ids(users@, old(self)@.with_user(u).users);
        }
        self.users = users;
        proof {
            assert(self@.users == old(self)@.with_user(u).users);
        }
        match set_pos {
            Some(_) => {},
            None => {
                let set = EntitlementSet { user_id: key, items: Vec::new() };
                proof {
                    assert(entitlements_view(set.items@) =~= Seq::<EntitlementView>::empty());
                }
                let mut sets: Vec<EntitlementSet> = Vec::new();
                std::mem::swap(&mut sets, &mut self.entitlements);
                sets.push(set);
                proof {
                    assert(sets@.map_values(|x: EntitlementSet| x@) =~= old(self)@.entitlements.push(set@));
                    assert(forall|j: int| 0 <= j < old(self)@.entitlements.len() ==> #[trigger] old(self)@.entitlements[j].user_id != key@);
                    assert(sets@.map_values(|x: EntitlementSet| x@) == old(self)@.with_user(u).entitlements);
                    lemma_with_user_wf(old(self)@, u);
                    lemma_distinct_set_keys(sets@, old(self)@.with_user(u).entitlements);
                }
                self.entitlements = sets;
            },
        }
        proof {
            assert(self@.entitlements == old(self)@.with_user(u).entitlements);
            assert(self@.users == old(self)@.with_user(u).users);
        }
    }

    /// Appends an entitlement to the list of `user_id`, creating the list if
    /// there is none (whether or not such a user exists).
    pub fn add_entitlement(&mut self, user_id: &str, ent: Entitlement)
        ensures
            final(self)@.wf(),
            final(self)@ == old(self)@.with_entitlement(user_id@, ent@),
    {
        proof {
            use_type_invariant(&*self);
            self.lemma_keys_distinct_is_wf();
        }
        let ghost e = ent@;
        let key = String::from_str(user_id);
        let set_pos = self.position_of_set(&key);
        let mut sets: Vec<EntitlementSet> = Vec::new();
        std::mem::swap(&mut sets, &mut self.entitlements);
        match set_pos {
            Some(i) => {
                let ghost old_sets = sets@;
                let mut set = sets.remove(i);
                let ghost before = set@;
                set.items.push(ent);
                proof {
                    assert(entitlements_view(set.items@) =~= before.items.push(e));
                }
                sets.insert(i, set);
                proof {
                    assert(sets@ =~= old_sets.update(i as int, set));
                    assert(sets@.map_values(|x: EntitlementSet| x@) =~= old(self)@.entitlements.update(
                        i as int,
                        EntitlementSetView { user_id: user_id@, items: before.items.push(e) },
                    ));
                    assert(old(self)@.entitlements[i as int].user_id == key@);
                }
            },
            None => {
                let mut items: Vec<Entitlement> = Vec::new();
                items.push(ent);
                let set = EntitlementSet { user_id: key, items };
                proof {
                    assert(entitlements_view(set.items@) =~= seq![e]);
                }
                sets.push(set);
                proof {
                    assert(sets@.map_values(|x: EntitlementSet| x@) =~= old(self)@.entitlements.push(set@));
                    assert(forall|j: int| 0 <= j < old(self)@.entitlements.len() ==> #[trigger] old(self)@.entitlements[j].user_id != key@);
                }
            },
        }
        proof {
            lemma_with_entitlement_wf(old(self)@, user_id@, e);
            assert(sets@.map_values(|x: EntitlementSet| x@) == old(self)@.with_entitlement(user_id@, e).entitlements);
            lemma_distinct_set_keys(sets@, old(self)@.with_entitlement(user_id@, e).entitlements);
        }
        self.entitlements = sets;
    }

    /// The user with the given id, if any. Not audited.
    pub fn get_user(&self, id: &str) -> (r: Option<User>)
        ensures
            match r {
                Some(u) => self@.user(id@) == Some(u@),
                None => self@.user(id@) is None,
            },
    {
        proof {
            use_type_invariant(self);
            self.lemma_keys_distinct_is_wf();
        }
        let key = String::from_str(id);
        match self.position_of_user(&key) {
            Some(i) => Some(self.users[i].clone()),
            None => None,
        }
    }

    /// Whether `u` matches the lowercased query `q`.
    fn matches_query(u: &User, q: &str) -> (r: bool)
        ensures
            r == user_matches(u@, q@),
    {
        if contains_text(to_lowercase(u.username.as_str()).as_str(), q) {
            return true;
        }
        if contains_text(to_lowercase(u.email.as_str()).as_str(), q) {
            return true;
        }
        if contains_text(to_lowercase(u.full_name.as_str()).as_str(), q) {
            return true;
        }
        match &u.employee_id {
            Some(e) => contains_text(to_lowercase(e.as_str()).as_str(), q),
            None => false,
        }
    }

    /// Finds the users whose username, email, full name or employee id
    /// contains the query, ignoring case. Audited as `lookup_user`.
    pub fn lookup_user(&mut self, query: &str, actor: &ActorContext) -> (r: Vec<User>)
        ensures
            final(self)@.wf(),
            is_clock_reading(final(self)@.last_audit_time()),
            final(self)@ == old(self)@.logged(
                "lookup_user"@,
                actor@,
                AuditDetailsView::Query { query: query@ },
                final(self)@.last_audit_time(),
            ),
            r@.map_values(|u: User| u@) == old(self)@.lookup(query@),
    {
        self.audit(
            String::from_str("lookup_user"),
            actor,
            AuditDetails::Query { query: String::from_str(query) },
        );
        proof {
            use_type_invariant(&*self);
            self.lemma_keys_distinct_is_wf();
        }
        let q = to_lowercase(query);
        let ghost users = self@.users;
        let ghost pred = |u: UserView| user_matches(u, lowercase(query@));
        let mut out: Vec<User> = Vec::new();
        let mut i: usize = 0;
        while i < self.users.len()
            invariant
                i <= self.users@.len(),
                users == self@.users,
                q@ == lowercase(query@),
                pred == (|u: UserView| user_matches(u, lowercase(query@))),
                out@.map_values(|u: User| u@) == users.take(i as int).filter(pred),
            decreases self.users@.len() - i,
        {
            proof {
                lemma_filter_prefix_step(users, i as int, pred);
            }
            if Self::matches_query(&self.users[i], q.as_str()) {
                let ghost prev = out@;
                out.push(self.users[i].clone());
                proof {
                    assert(out@.map_values(|u: User| u@) =~= prev.map_values(|u: User| u@).push(
                        users[i as int],
                    ));
                }
            }
            i = i + 1;
        }
        proof {
            assert(users.take(users.len() as int) =~= users);
        }
        out
    }

    /// Finds users as `lookup_user` does and discloses only their summaries:
    /// id, username, email, full name, department, status and risk level.
    /// Audited as `lookup_user`.
    pub fn lookup_user_summaries(&mut self, query: &str, actor: &ActorContext) -> (r: Vec<UserSummary>)
        ensures
            final(self)@.wf(),
            is_clock_reading(final(self)@.last_audit_time()),
            final(self)@ == old(self)@.logged(
                "lookup_user"@,
                actor@,
                AuditDetailsView::Query { query: query@ },
                final(self)@.last_audit_time(),
            ),
            r@.map_values(|s: UserSummary| s@) == old(self)@.lookup(query@).map_values(
                |u: UserView| summary_of(u),
            ),
    {
        let users = self.lookup_user(query, actor);
        let mut out: Vec<UserSummary> = Vec::new();
        let mut i: usize = 0;
        while i < users.len()
            invariant
                i <= users@.len(),
                out@.len() == i,
                forall|j: int| 0 <= j < i ==> #[trigger] out@[j]@ == summary_of(users@[j]@),
            decreases users@.len() - i,
        {
            out.push(users[i].summary());
            i = i + 1;
        }
        proof {
            assert(users@.map_values(|u: User| u@) == old(self)@.lookup(query@));
            assert(out@.map_values(|s: UserSummary| s@) =~= old(self)@.lookup(query@).map_values(
                |u: UserView| summary_of(u),
            ));
        }
        out
    }

    /// The MFA status of a user, if the user exists. Audited as
    /// `get_mfa_status`.
    pub fn get_mfa_status(&mut self, user_id: &str, actor: &ActorContext) -> (r: Option<MfaStatus>)
        ensures
            final(self)@.wf(),
            is_clock_reading(final(self)@.last_audit_time()),
            final(self)@ == old(self)@.logged(
                "get_mfa_status"@,
                actor@,
                AuditDetailsView::Subject { user_id: user_id@ },
                final(self)@.last_audit_time(),
            ),
            match r {
                Some(m) => old(self)@.user(user_id@) matches Some(u) && m@ == u.mfa,
                None => old(self)@.user(user_id@) is None,
            },
    {
        self.audit(
            String::from_str("get_mfa_status"),
            actor,
            AuditDetails::Subject { user_id: String::from_str(user_id) },
        );
        proof {
            use_type_invariant(&*self);
            self.lemma_keys_distinct_is_wf();
        }
        let key = String::from_str(user_id);
        match self.position_of_user(&key) {
            Some(i) => Some(self.users[i].mfa.clone()),
            None => None,
        }
    }

    /// The groups of a user; empty for an unknown user. Audited as
    /// `get_user_groups`.
    pub fn get_groups(&mut self, user_id: &str, actor: &ActorContext) -> (r: Vec<GroupMembership>)
        ensures
            final(self)@.wf(),
            is_clock_reading(final(self)@.last_audit_time()),
            final(self)@ == old(self)@.logged(
                "get_user_groups"@,
                actor@,
                AuditDetailsView::Subject { user_id: user_id@ },
                final(self)@.last_audit_time(),
            ),
            groups_view(r@) == match old(self)@.user(user_id@) {
                Some(u) => u.groups,
                None => Seq::empty(),
            },
    {
        self.audit(
            String::from_str("get_user_groups"),
            actor,
            AuditDetails::Subject { user_id: String::from_str(user_id) },
        );
        proof {
            use_type_invariant(&*self);
            self.lemma_keys_distinct_is_wf();
        }
        let key = String::from_str(user_id);
        match self.position_of_user(&key) {
            Some(i) => clone_groups(&self.users[i].groups),
            None => {
                let r: Vec<GroupMembership> = Vec::new();
                proof {
                    assert(groups_view(r@) =~= Seq::<crate::types::GroupMembershipView>::empty());
                }
                r
            },
        }
    }

    /// The entitlements kept under a user id; empty where there are none.
    /// Audited as `list_entitlements`.
    pub fn list_entitlements(&mut self, user_id: &str, actor: &ActorContext) -> (r: Vec<Entitlement>)
        ensures
            final(self)@.wf(),
            is_clock_reading(final(self)@.last_audit_time()),
            final(self)@ == old(self)@.logged(
                "list_entitlements"@,
                actor@,
                AuditDetailsView::Subject { user_id: user_id@ },
                final(self)@.last_audit_time(),
            ),
            entitlements_view(r@) == old(self)@.entitlements_or_empty(user_id@),
    {
        self.audit(
            String::from_str("list_entitlements"),
            actor,
            AuditDetails::Subject { user_id: String::from_str(user_id) },
        );
        proof {
            use_type_invariant(&*self);
            self.lemma_keys_distinct_is_wf();
        }
        let key = String::from_str(user_id);
        match self.position_of_set(&key) {
            Some(i) => clone_entitlements(&self.entitlements[i].items),
            None => {
                let r: Vec<Entitlement> = Vec::new();
                proof {
                    assert(entitlements_view(r@) =~= Seq::<EntitlementView>::empty());
                }
                r
            },
        }
    }

    /// Checks that a user exists and reports status, manager, department,
    /// MFA state, risk level and whether the account is active; `None` for an
    /// unknown user. Audited as `validate_identity`.
    pub fn validate_identity(&mut self, user_id: &str, actor: &ActorContext) -> (r: Option<IdentityValidation>)
        ensures
            final(self)@.wf(),
            is_clock_reading(final(self)@.last_audit_time()),
            final(self)@ == old(self)@.logged(
                "validate_identity"@,
                actor@,
                AuditDetailsView::Subject { user_id: user_id@ },
                final(self)@.last_audit_time(),
            ),
            match r {
                Some(v) => old(self)@.user(user_id@) matches Some(u) && v@ == validation_of(u),
                None => old(self)@.user(user_id@) is None,
            },
            r matches Some(v) ==> {
                &&& v.valid
                &&& v@.user_id == user_id@
                &&& v.status == old(self)@.user(user_id@).unwrap().status
                &&& (v.active <==> old(self)@.user(user_id@).unwrap().status == UserStatus::Active)
            },
    {
        self.audit(
            String::from_str("validate_identity"),
            actor,
            AuditDetails::Subject { user_id: String::from_str(user_id) },
        );
        proof {
            use_type_invariant(&*self);
            self.lemma_keys_distinct_is_wf();
        }
        let key = String::from_str(user_id);
        match self.position_of_user(&key) {
            Some(i) => {
                let u = &self.users[i];
                Some(
                    IdentityValidation {
                        valid: true,
                        user_id: u.id.clone(),
                        status: u.status,
                        full_name: u.full_name.clone(),
                        department: u.department.clone(),
                        manager: u.manager.clone(),
                        mfa_enabled: u.mfa.enabled,
                        risk_level: u.risk_level,
                        active: u.status == UserStatus::Active,
                    },
                )
            },
            None => None,
        }
    }

    /// Submits a request to grant or revoke access. The request enters the
    /// approval workflow as pending and awaiting approval; nothing is granted
    /// or revoked by it. Audited as `request_access_change`.
    pub fn request_access_change(
        &mut self,
        user_id: &str,
        action: AccessAction,
        resource: &str,
        role: &str,
        reason: &str,
        requested_by: &str,
        ticket_id: Option<&str>,
        actor: &ActorContext,
    ) -> (r: AccessRequest)
        ensures
            final(self)@.wf(),
            is_clock_reading(final(self)@.last_audit_time()),
            final(self)@ == old(self)@.logged(
                "request_access_change"@,
                actor@,
                AuditDetailsView::AccessChange { user_id: user_id@, action, resource: resource@ },
                final(self)@.last_audit_time(),
            ).with_request(r@),
            r@ == pending_request(
                r@.id,
                user_id@,
                action,
                resource@,
                role@,
                reason@,
                requested_by@,
                opt_text(ticket_id),
                r.created_at,
                r.updated_at,
            ),
            is_generated_id("AR-"@, r@.id),
            has_id_shape("AR-"@, r@.id),
            r.action == action,
            r.status == RequestStatus::Pending,
            r@.user_id == user_id@,
            r@.resource == resource@,
            r@.role == role@,
            r@.approver is None,
            final(self)@.access_requests.last() == r@,
            is_clock_reading(r.created_at),
            is_clock_reading(r.updated_at),
    {
        self.audit(
            String::from_str("request_access_change"),
            actor,
            AuditDetails::AccessChange {
                user_id: String::from_str(user_id),
                action,
                resource: String::from_str(resource),
            },
        );
        proof {
            use_type_invariant(&*self);
            self.lemma_keys_distinct_is_wf();
        }
        let req = AccessRequest {
            id: new_short_id("AR-"),
            user_id: String::from_str(user_id),
            action,
            resource: String::from_str(resource),
            role: String::from_str(role),
            reason: String::from_str(reason),
            requested_by: String::from_str(requested_by),
            ticket_id: opt_string(ticket_id),
            status: RequestStatus::Pending,
            approver: None,
            policy_decision: Some(String::from_str("awaiting_approval")),
            created_at: current_time(),
            updated_at: current_time(),
        };
        let ghost mid = self@;
        let mut requests: Vec<AccessRequest> = Vec::new();
        std::mem::swap(&mut requests, &mut self.access_requests);
        requests.push(req.clone());
        self.access_requests = requests;
        proof {
            assert(self@.access_requests =~= mid.access_requests.push(req@));
        }
        req
    }

    /// Emergency revocation: removes at once every entitlement of `user_id`
    /// that grants `role` on `resource`, and answers with a receipt that
    /// always asks for post-action review. A break-glass revocation needs a
    /// ticket: without one it is refused. It fails with
    /// `User not found: <id>` when no entitlement list is kept under the id.
    /// Audited as `revoke_access` before anything else, whether it fails or
    /// not; a refused or failed revocation changes nothing else.
    pub fn revoke_access(
        &mut self,
        user_id: &str,
        resource: &str,
        role: &str,
        reason: &str,
        requested_by: &str,
        ticket_id: Option<&str>,
        actor: &ActorContext,
    ) -> (r: Result<RevocationReceipt, String>)
        ensures
            final(self)@.wf(),
            r is Ok <==> (ticket_id is Some && old(self)@.has_entitlement_set(user_id@)),
            match r {
                Ok(receipt) => {
                    &&& final(self)@ == old(self)@.logged(
                        "revoke_access"@,
                        actor@,
                        AuditDetailsView::Revocation {
                            user_id: user_id@,
                            resource: resource@,
                            reason: reason@,
                            break_glass: true,
                        },
                        final(self)@.last_audit_time(),
                    ).without_access(user_id@, resource@, role@)
                    &&& receipt@ == (RevocationReceiptView {
                        revoked: old(self)@.holds(user_id@, resource@, role@),
                        user_id: user_id@,
                        resource: resource@,
                        role: role@,
                        reason: reason@,
                        requested_by: requested_by@,
                        ticket_id: opt_text(ticket_id),
                        effective_at: receipt.effective_at,
                        requires_post_review: true,
                    })
                    &&& is_clock_reading(receipt.effective_at)
                },
                Err(e) => {
                    &&& final(self)@ == old(self)@.logged(
                        "revoke_access"@,
                        actor@,
                        AuditDetailsView::Revocation {
                            user_id: user_id@,
                            resource: resource@,
                            reason: reason@,
                            break_glass: true,
                        },
                        final(self)@.last_audit_time(),
                    )
                    &&& e@ == (if ticket_id is None {
                        missing_ticket_message()
                    } else {
                        "User not found: "@ + user_id@
                    })
                },
            },
            is_clock_reading(final(self)@.last_audit_time()),
    {
        self.audit(
            String::from_str("revoke_access"),
            actor,
            AuditDetails::Revocation {
                user_id: String::from_str(user_id),
                resource: String::from_str(resource),
                reason: String::from_str(reason),
                break_glass: true,
            },
        );
        proof {
            use_type_invariant(&*self);
            self.lemma_keys_distinct_is_wf();
        }
        let ghost logged = self@;
        if ticket_id.is_none() {
            return Err(String::from_str("Ticket required: break-glass revocation needs a ticket"));
        }
        let key = String::from_str(user_id);
        match self.position_of_set(&key) {
            None => {
                let mut e = String::from_str("User not found: ");
                e.append(user_id);
                Err(e)
            },
            Some(i) => {
                let resource_key = String::from_str(resource);
                let role_key = String::from_str(role);
                let mut sets: Vec<EntitlementSet> = Vec::new();
                std::mem::swap(&mut sets, &mut self.entitlements);
                let ghost old_sets = sets@;
                let set = sets.remove(i);
                let ghost old_items = set@.items;
                let ghost keep = |e: EntitlementView| survives_revocation(e, resource@, role@);
                let mut kept: Vec<Entitlement> = Vec::new();
                let mut revoked = false;
                let mut k: usize = 0;
                while k < set.items.len()
                    invariant
                        k <= set.items@.len(),
                        old_items == entitlements_view(set.items@),
                        keep == (|e: EntitlementView| survives_revocation(e, resource@, role@)),
                        resource_key@ == resource@,
                        role_key@ == role@,
                        entitlements_view(kept@) == old_items.take(k as int).filter(keep),
                        revoked <==> exists|m: int| 0 <= m < k && !survives_revocation(#[trigger] old_items[m], resource@, role@),
                    decreases set.items@.len() - k,
                {
                    proof {
                        lemma_filter_prefix_step(old_items, k as int, keep);
                    }
                    let item = &set.items[k];
                    if item.resource == resource_key && item.role == role_key {
                        revoked = true;
                    } else {
                        let ghost prev = kept@;
                        kept.push(item.clone());
                        proof {
                            assert(entitlements_view(kept@) =~= entitlements_view(prev).push(old_items[k as int]));
                        }
                    }
                    k = k + 1;
                }
                proof {
                    assert(old_items.take(old_items.len() as int) =~= old_items);
                }
                let updated = EntitlementSet { user_id: key, items: kept };
                sets.insert(i, updated);
                proof {
                    assert(sets@ =~= old_sets.update(i as int, updated));
                    assert(logged.entitlements_of(user_id@) == Some(old_items));
                    assert(sets@.map_values(|x: EntitlementSet| x@) =~= logged.entitlements.update(
                        i as int,
                        EntitlementSetView { user_id: user_id@, items: logged.surviving(user_id@, resource@, role@) },
                    ));
                    assert(logged.entitlements[i as int].user_id == user_id@);
                }
                self.entitlements = sets;
                proof {
                    assert(self@ == logged.without_access(user_id@, resource@, role@));
                    assert(old(self)@.entitlements_or_empty(user_id@) == old_items);
                    if revoked {
                        let m = choose|m: int| 0 <= m < old_items.len() && !survives_revocation(#[trigger] old_items[m], resource@, role@);
                        assert(!survives_revocation(old(self)@.entitlements_or_empty(user_id@)[m], resource@, role@));
                    }
                    assert(revoked == old(self)@.holds(user_id@, resource@, role@));
                }
                Ok(
                    RevocationReceipt {
                        revoked,
                        user_id: String::from_str(user_id),
                        resource: String::from_str(resource),
                        role: String::from_str(role),
                        reason: String::from_str(reason),
                        requested_by: String::from_str(requested_by),
                        ticket_id: opt_string(ticket_id),
                        effective_at: current_time(),
                        requires_post_review: true,
                    },
                )
            },
        }
    }

    /// The steps of a lifecycle task of the given type.
    fn task_steps(task_type: TaskType) -> (r: Vec<String>)
        ensures
            r.deep_view() == lifecycle_steps(task_type),
    {
        let mut r: Vec<String> = Vec::new();
        match task_type {
            TaskType::Onboarding => {
                r.push(String::from_str("Create accounts"));
                r.push(String::from_str("Assign groups"));
                r.push(String::from_str("Provision hardware"));
                r.push(String::from_str("Schedule orientation"));
                r.push(String::from_str("Grant base entitlements"));
            },
            TaskType::Offboarding => {
                r.push(String::from_str("Revoke all access"));
                r.push(String::from_str("Disable accounts"));
                r.push(String::from_str("Collect hardware"));
                r.push(String::from_str("Transfer data ownership"));
                r.push(String::from_str("Archive mailbox"));
            },
            TaskType::Transfer => {
                r.push(String::from_str("Review current entitlements"));
                r.push(String::from_str("Revoke old team access"));
                r.push(String::from_str("Grant new team access"));
                r.push(String::from_str("Update manager"));
            },
            TaskType::RoleChange => {
                r.push(String::from_str("Review role requirements"));
                r.push(String::from_str("Adjust entitlements"));
                r.push(String::from_str("Update groups"));
                r.push(String::from_str("Notify manager"));
            },
        }
        proof {
            assert(r.deep_view() =~= lifecycle_steps(task_type));
        }
        r
    }

    /// The systems that a lifecycle task of the given type touches.
    fn task_systems(task_type: TaskType) -> (r: Vec<String>)
        ensures
            r.deep_view() == lifecycle_systems(task_type),
    {
        let mut r: Vec<String> = Vec::new();
        match task_type {
            TaskType::Onboarding => {
                r.push(String::from_str("Azure AD"));
                r.push(String::from_str("GitHub"));
                r.push(String::from_str("Slack"));
                r.push(String::from_str("VPN"));
                r.push(String::from_str("Email"));
            },
            TaskType::Offboarding => {
                r.push(String::from_str("All systems"));
            },
            _ => {
                r.push(String::from_str("Azure AD"));
                r.push(String::from_str("GitHub"));
            },
        }
        proof {
            assert(r.deep_view() =~= lifecycle_systems(task_type));
        }
        r
    }

    /// Creates an onboarding, offboarding, transfer or role-change task with
    /// the steps and impacted systems of its type; the task starts pending.
    /// Audited as `create_lifecycle_task`.
    pub fn create_lifecycle_task(
        &mut self,
        user_id: &str,
        task_type: TaskType,
        owner_team: &str,
        ticket_id: Option<&str>,
        actor: &ActorContext,
    ) -> (r: LifecycleTask)
        ensures
            final(self)@.wf(),
            is_clock_reading(final(self)@.last_audit_time()),
            final(self)@ == old(self)@.logged(
                "create_lifecycle_task"@,
                actor@,
                AuditDetailsView::Lifecycle { user_id: user_id@, task_type },
                final(self)@.last_audit_time(),
            ).with_task(r@),
            r@ == pending_task(r@.id, user_id@, task_type, owner_team@, opt_text(ticket_id), r.created_at),
            is_generated_id("LT-"@, r@.id),
            has_id_shape("LT-"@, r@.id),
            r.task_type == task_type,
            r.status == TaskStatus::Pending,
            r@.user_id == user_id@,
            r@.steps == lifecycle_steps(r.task_type),
            r@.systems_impacted == lifecycle_systems(r.task_type),
            final(self)@.lifecycle_tasks.last() == r@,
            is_clock_reading(r.created_at),
    {
        self.audit(
            String::from_str("create_lifecycle_task"),
            actor,
            AuditDetails::Lifecycle { user_id: String::from_str(user_id), task_type },
        );
        proof {
            use_type_invariant(&*self);
            self.lemma_keys_distinct_is_wf();
        }
        let steps = Self::task_steps(task_type);
        let systems_impacted = Self::task_systems(task_type);
        let task = LifecycleTask {
            id: new_short_id("LT-"),
            user_id: String::from_str(user_id),
            task_type,
            status: TaskStatus::Pending,
            owner_team: String::from_str(owner_team),
            ticket_id: opt_string(ticket_id),
            steps,
            systems_impacted,
            created_at: current_time(),
        };
        let ghost mid = self@;
        let mut tasks: Vec<LifecycleTask> = Vec::new();
        std::mem::swap(&mut tasks, &mut self.lifecycle_tasks);
        tasks.push(task.clone());
        self.lifecycle_tasks = tasks;
        proof {
            assert(self@.lifecycle_tasks =~= mid.lifecycle_tasks.push(task@));
        }
        task
    }

    /// The audit trail, oldest record first.
    pub fn audit_log(&self) -> (r: &Vec<AuditEntry>)
        ensures
            r@.map_values(|e: AuditEntry| e@) == self@.audit_log,
    {
        &self.audit_log
    }

    /// The access-change requests submitted so far, in submission order.
    pub fn access_requests(&self) -> (r: &Vec<AccessRequest>)
        ensures
            r@.map_values(|q: AccessRequest| q@) == self@.access_requests,
    {
        &self.access_requests
    }

    /// The lifecycle tasks created so far, in creation order.
    pub fn lifecycle_tasks(&self) -> (r: &Vec<LifecycleTask>)
        ensures
            r@.map_values(|t: LifecycleTask| t@) == self@.lifecycle_tasks,
    {
        &self.lifecycle_tasks
    }
}

} // verus!
