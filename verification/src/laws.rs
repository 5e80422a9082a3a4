//! Properties of the store that span operations: what a read gives back of a
//! write, what a revocation leaves, and what an access request does not do.
use vstd::prelude::*;
use crate::types::{
    AccessAction, AccessRequestView, ActorContextView, EntitlementView, LifecycleTaskView, RequestStatus,
    TaskStatus, TaskType, Timestamp, UserStatus, UserView,
};
use crate::store::{
    AuditDetailsView, IdentityStoreView, lifecycle_steps, lifecycle_systems, pending_request, pending_task,
    survives_revocation, user_matches, validation_of,
};
use crate::text::{has_substring, lowercase};

verus! {

/// In a well-formed store, the user found at position `i` is the user of its
/// id.
pub proof fn lemma_user_at(v: IdentityStoreView, id: Seq<char>, i: int)
    requires
        v.wf(),
        0 <= i < v.users.len(),
        v.users[i].id == id,
    ensures
        v.has_user(id),
        v.user_index(id) == i,
        v.user(id) == Some(v.users[i]),
{
    assert(v.has_user(id));
    let j = v.user_index(id);
    assert(v.users[j].id == id);
}

/// In a well-formed store, the entitlement list found at position `i` is the
/// list of its key.
pub proof fn lemma_set_at(v: IdentityStoreView, id: Seq<char>, i: int)
    requires
        v.wf(),
        0 <= i < v.entitlements.len(),
        v.entitlements[i].user_id == id,
    ensures
        v.has_entitlement_set(id),
        v.entitlement_set_index(id) == i,
        v.entitlements_of(id) == Some(v.entitlements[i].items),
{
    assert(v.has_entitlement_set(id));
    let j = v.entitlement_set_index(id);
    assert(v.entitlements[j].user_id == id);
}

/// A filter keeps a sequence whole when every element passes.
pub proof fn lemma_filter_keeps_all<A>(s: Seq<A>, p: spec_fn(A) -> bool)
    requires
        forall|i: int| 0 <= i < s.len() ==> p(#[trigger] s[i]),
    ensures
        s.filter(p) == s,
    decreases s.len(),
{
    reveal(Seq::filter);
    if s.len() > 0 {
        lemma_filter_keeps_all(s.drop_last(), p);
        assert(s.drop_last().push(s.last()) =~= s);
    }
}

/// Adding a user keeps user ids and entitlement keys distinct.
pub proof fn lemma_with_user_wf(v: IdentityStoreView, u: UserView)
    requires
        v.wf(),
    ensures
        v.with_user(u).wf(),
{
    let w = v.with_user(u);
    if v.has_user(u.id) {
        let k = v.user_index(u.id);
        assert(v.users[k].id == u.id);
        assert forall|i: int, j: int|
            0 <= i < w.users.len() && 0 <= j < w.users.len() && i != j implies #[trigger] w.users[i].id
            != #[trigger] w.users[j].id by {
            assert(v.users[i].id != v.users[j].id);
        }
    } else {
        assert forall|i: int, j: int|
            0 <= i < w.users.len() && 0 <= j < w.users.len() && i != j implies #[trigger] w.users[i].id
            != #[trigger] w.users[j].id by {
            if i < v.users.len() && j < v.users.len() {
                assert(v.users[i].id != v.users[j].id);
            } else if i < v.users.len() {
                assert(v.users[i].id != u.id);
            } else {
                assert(v.users[j].id != u.id);
            }
        }
    }
    if !v.has_entitlement_set(u.id) {
        assert forall|i: int, j: int|
            0 <= i < w.entitlements.len() && 0 <= j < w.entitlements.len() && i != j implies #[trigger] w.entitlements[i].user_id
            != #[trigger] w.entitlements[j].user_id by {
            if i < v.entitlements.len() && j < v.entitlements.len() {
                assert(v.entitlements[i].user_id != v.entitlements[j].user_id);
            } else if i < v.entitlements.len() {
                assert(v.entitlements[i].user_id != u.id);
            } else {
                assert(v.entitlements[j].user_id != u.id);
            }
        }
    }
}

/// Read after write: once a user is added, looking up its id gives that
/// user back, whether the id was new or replaced an earlier user.
pub proof fn law_added_user_is_found(v: IdentityStoreView, u: UserView)
    requires
        v.wf(),
    ensures
        v.with_user(u).wf(),
        v.with_user(u).user(u.id) == Some(u),
{
    lemma_with_user_wf(v, u);
    let w = v.with_user(u);
    if v.has_user(u.id) {
        let k = v.user_index(u.id);
        lemma_user_at(w, u.id, k);
    } else {
        lemma_user_at(w, u.id, v.users.len() as int);
    }
}

/// Adding a user leaves every other id's user as it was.
pub proof fn law_add_user_keeps_other_users(v: IdentityStoreView, u: UserView, id: Seq<char>)
    requires
        v.wf(),
        id != u.id,
    ensures
        v.with_user(u).user(id) == v.user(id),
{
    lemma_with_user_wf(v, u);
    let w = v.with_user(u);
    if v.has_user(id) {
        let k = v.user_index(id);
        assert(v.users[k].id == id);
        assert(w.users[k] == v.users[k]);
        lemma_user_at(w, id, k);
    } else {
        assert forall|j: int| 0 <= j < w.users.len() implies #[trigger] w.users[j].id != id by {
            if j < v.users.len() && w.users[j] == v.users[j] {
                assert(v.users[j].id != id);
            }
        }
    }
}

/// Adding a user never changes what any id's entitlements read as, and
/// afterwards the new user's id has an entitlement list.
pub proof fn law_add_user_keeps_entitlements(v: IdentityStoreView, u: UserView, id: Seq<char>)
    requires
        v.wf(),
    ensures
        v.with_user(u).entitlements_or_empty(id) == v.entitlements_or_empty(id),
        v.with_user(u).has_entitlement_set(u.id),
{
    lemma_with_user_wf(v, u);
    let w = v.with_user(u);
    if v.has_entitlement_set(u.id) {
        assert(w.entitlements == v.entitlements);
    } else {
        let n = v.entitlements.len() as int;
        lemma_set_at(w, u.id, n);
        if v.has_entitlement_set(id) {
            let k = v.entitlement_set_index(id);
            assert(v.entitlements[k].user_id == id);
            lemma_set_at(w, id, k);
        } else if id != u.id {
            assert forall|j: int| 0 <= j < w.entitlements.len() implies #[trigger] w.entitlements[j].user_id
                != id by {
                if j < n {
                    assert(v.entitlements[j].user_id != id);
                }
            }
        }
    }
}

/// Adding an entitlement keeps entitlement keys distinct.
pub proof fn lemma_with_entitlement_wf(v: IdentityStoreView, id: Seq<char>, e: EntitlementView)
    requires
        v.wf(),
    ensures
        v.with_entitlement(id, e).wf(),
{
    let w = v.with_entitlement(id, e);
    if v.has_entitlement_set(id) {
        let k = v.entitlement_set_index(id);
        assert(v.entitlements[k].user_id == id);
        assert forall|i: int, j: int|
            0 <= i < w.entitlements.len() && 0 <= j < w.entitlements.len() && i != j implies #[trigger] w.entitlements[i].user_id
            != #[trigger] w.entitlements[j].user_id by {
            assert(v.entitlements[i].user_id != v.entitlements[j].user_id);
        }
    } else {
        assert forall|i: int, j: int|
            0 <= i < w.entitlements.len() && 0 <= j < w.entitlements.len() && i != j implies #[trigger] w.entitlements[i].user_id
            != #[trigger] w.entitlements[j].user_id by {
            if i < v.entitlements.len() && j < v.entitlements.len() {
                assert(v.entitlements[i].user_id != v.entitlements[j].user_id);
            } else if i < v.entitlements.len() {
                assert(v.entitlements[i].user_id != id);
            } else {
                assert(v.entitlements[j].user_id != id);
            }
        }
    }
}

/// Read after write: an added entitlement shows up last in the entitlements
/// of its id, and no other id's entitlements change.
pub proof fn law_added_entitlement_is_listed(
    v: IdentityStoreView,
    id: Seq<char>,
    e: EntitlementView,
    other: Seq<char>,
)
    requires
        v.wf(),
    ensures
        v.with_entitlement(id, e).wf(),
        v.with_entitlement(id, e).entitlements_or_empty(id) == v.entitlements_or_empty(id).push(e),
        other != id ==> v.with_entitlement(id, e).entitlements_or_empty(other)
            == v.entitlements_or_empty(other),
{
    lemma_with_entitlement_wf(v, id, e);
    let w = v.with_entitlement(id, e);
    let n = v.entitlements.len() as int;
    if v.has_entitlement_set(id) {
        let k = v.entitlement_set_index(id);
        assert(v.entitlements[k].user_id == id);
        lemma_set_at(w, id, k);
    } else {
        lemma_set_at(w, id, n);
        assert(seq![e] =~= Seq::<EntitlementView>::empty().push(e));
    }
    if other != id {
        if v.has_entitlement_set(other) {
            let k = v.entitlement_set_index(other);
            assert(v.entitlements[k].user_id == other);
            assert(w.entitlements[k] == v.entitlements[k]);
            lemma_set_at(w, other, k);
        } else {
            assert forall|j: int| 0 <= j < w.entitlements.len() implies #[trigger] w.entitlements[j].user_id
                != other by {
                if j < n && w.entitlements[j] == v.entitlements[j] {
                    assert(v.entitlements[j].user_id != other);
                }
            }
        }
    }
}

/// Revocation removes exactly the matching access: afterwards the
/// entitlements of `id` are those that did not grant `role` on `resource`,
/// in their order; none grants it any more; a second revocation changes
/// nothing; and no other id's entitlements change.
pub proof fn law_revocation_removes_access(
    v: IdentityStoreView,
    id: Seq<char>,
    resource: Seq<char>,
    role: Seq<char>,
    other: Seq<char>,
)
    requires
        v.wf(),
        v.has_entitlement_set(id),
    ensures
        v.without_access(id, resource, role).wf(),
        v.without_access(id, resource, role).entitlements_or_empty(id) == v.surviving(id, resource, role),
        !v.without_access(id, resource, role).holds(id, resource, role),
        v.without_access(id, resource, role).without_access(id, resource, role) == v.without_access(
            id,
            resource,
            role,
        ),
        other != id ==> v.without_access(id, resource, role).entitlements_or_empty(other)
            == v.entitlements_or_empty(other),
{
    let w = v.without_access(id, resource, role);
    let k = v.entitlement_set_index(id);
    assert(v.entitlements[k].user_id == id);
    assert forall|i: int, j: int|
        0 <= i < w.entitlements.len() && 0 <= j < w.entitlements.len() && i != j implies #[trigger] w.entitlements[i].user_id
        != #[trigger] w.entitlements[j].user_id by {
        assert(v.entitlements[i].user_id != v.entitlements[j].user_id);
    }
    lemma_set_at(w, id, k);
    let keep = |e: EntitlementView| survives_revocation(e, resource, role);
    let kept = v.surviving(id, resource, role);
    assert forall|i: int| 0 <= i < kept.len() implies keep(#[trigger] kept[i]) by {
        v.entitlements_or_empty(id).lemma_filter_pred(keep, i);
    }
    assert(!w.holds(id, resource, role)) by {
        if w.holds(id, resource, role) {
            let m = choose|m: int|
                0 <= m < w.entitlements_or_empty(id).len() && !survives_revocation(
                    #[trigger] w.entitlements_or_empty(id)[m],
                    resource,
                    role,
                );
            assert(keep(kept[m]));
        }
    }
    lemma_filter_keeps_all(kept, keep);
    assert(w.surviving(id, resource, role) == kept);
    assert(w.without_access(id, resource, role).entitlements =~= w.entitlements);
    if other != id {
        if v.has_entitlement_set(other) {
            let j = v.entitlement_set_index(other);
            assert(v.entitlements[j].user_id == other);
            lemma_set_at(w, other, j);
        } else {
            assert forall|j: int| 0 <= j < w.entitlements.len() implies #[trigger] w.entitlements[j].user_id
                != other by {
                if j != k {
                    assert(v.entitlements[j].user_id != other);
                }
            }
        }
    }
}

/// Access changes are approval-gated: recording a request (and its audit
/// record) leaves users, entitlements and lifecycle tasks as they were, and
/// only appends the request.
pub proof fn law_access_request_grants_nothing(
    v: IdentityStoreView,
    action: Seq<char>,
    actor: ActorContextView,
    details: AuditDetailsView,
    at: Timestamp,
    r: AccessRequestView,
)
    ensures
        v.logged(action, actor, details, at).with_request(r).users == v.users,
        v.logged(action, actor, details, at).with_request(r).entitlements == v.entitlements,
        v.logged(action, actor, details, at).with_request(r).lifecycle_tasks == v.lifecycle_tasks,
        v.logged(action, actor, details, at).with_request(r).access_requests == v.access_requests.push(
            r,
        ),
{
}

/// The audit trail only grows: every step of the store keeps the earlier
/// records in place, and an audited step adds exactly one record.
pub proof fn law_audit_trail_is_append_only(
    v: IdentityStoreView,
    action: Seq<char>,
    actor: ActorContextView,
    details: AuditDetailsView,
    at: Timestamp,
    u: UserView,
    id: Seq<char>,
    e: EntitlementView,
    resource: Seq<char>,
    role: Seq<char>,
    r: AccessRequestView,
    t: LifecycleTaskView,
)
    ensures
        v.logged(action, actor, details, at).audit_log.len() == v.audit_log.len() + 1,
        v.logged(action, actor, details, at).audit_log.take(v.audit_log.len() as int) == v.audit_log,
        v.with_user(u).audit_log == v.audit_log,
        v.with_entitlement(id, e).audit_log == v.audit_log,
        v.without_access(id, resource, role).audit_log == v.audit_log,
        v.with_request(r).audit_log == v.audit_log,
        v.with_task(t).audit_log == v.audit_log,
{
    assert(v.logged(action, actor, details, at).audit_log.take(v.audit_log.len() as int) =~= v.audit_log);
}

/// A lookup finds exactly the users that match the lowercased query, and
/// two queries with the same lowercase form find the same users.
pub proof fn law_lookup_finds_exactly_matching(v: IdentityStoreView, query: Seq<char>, query2: Seq<char>)
    ensures
        forall|i: int|
            0 <= i < v.lookup(query).len() ==> user_matches(#[trigger] v.lookup(query)[i], lowercase(query)),
        forall|i: int|
            0 <= i < v.users.len() && user_matches(#[trigger] v.users[i], lowercase(query))
                ==> v.lookup(query).contains(v.users[i]),
        lowercase(query) == lowercase(query2) ==> v.lookup(query) == v.lookup(query2),
{
    let p = |u: UserView| user_matches(u, lowercase(query));
    assert forall|i: int| 0 <= i < v.lookup(query).len() implies user_matches(
        #[trigger] v.lookup(query)[i],
        lowercase(query),
    ) by {
        v.users.lemma_filter_pred(p, i);
    }
    assert forall|i: int|
        0 <= i < v.users.len() && user_matches(#[trigger] v.users[i], lowercase(query)) implies v.lookup(
        query,
    ).contains(v.users[i]) by {
        v.users.lemma_filter_contains(p, i);
    }
    if lowercase(query) == lowercase(query2) {
        assert(v.lookup(query) == v.lookup(query2));
    }
}


/// A lookup finds a stored user exactly when the lowercased query occurs in
/// the user's lowercased username, email, full name or employee id; nothing
/// else about the user (status, risk, groups) plays a part.
pub proof fn law_lookup_matches_on_text_fields(v: IdentityStoreView, query: Seq<char>, i: int)
    requires
        0 <= i < v.users.len(),
    ensures
        v.lookup(query).contains(v.users[i]) <==> {
            let q = lowercase(query);
            let u = v.users[i];
            ||| has_substring(lowercase(u.username), q)
            ||| has_substring(lowercase(u.email), q)
            ||| has_substring(lowercase(u.full_name), q)
            ||| (u.employee_id matches Some(e) && has_substring(lowercase(e), q))
        },
{
    let p = |u: UserView| user_matches(u, lowercase(query));
    if user_matches(v.users[i], lowercase(query)) {
        v.users.lemma_filter_contains(p, i);
    }
    if v.lookup(query).contains(v.users[i]) {
        let k = choose|k: int| 0 <= k < v.lookup(query).len() && v.lookup(query)[k] == v.users[i];
        v.users.lemma_filter_pred(p, k);
    }
}

/// Whether a user matches a query does not depend on the account status:
/// a suspended, deactivated or pending user is found by the same queries as
/// an active one.
pub proof fn law_lookup_ignores_status(u: UserView, q: Seq<char>, status: UserStatus)
    ensures
        user_matches(u, q) == user_matches(UserView { status, ..u }, q),
{
}

/// Revocation keeps every grant that differs from the revoked one in resource
/// or in role, and keeps nothing that grants the revoked role on the revoked
/// resource; what it keeps was there before.
pub proof fn law_revocation_keeps_other_grants(
    v: IdentityStoreView,
    id: Seq<char>,
    resource: Seq<char>,
    role: Seq<char>,
)
    requires
        v.wf(),
        v.has_entitlement_set(id),
    ensures
        forall|k: int|
            0 <= k < v.entitlements_or_empty(id).len() && (#[trigger] v.entitlements_or_empty(id)[k].resource
                != resource || v.entitlements_or_empty(id)[k].role != role) ==> v.without_access(
                id,
                resource,
                role,
            ).entitlements_or_empty(id).contains(v.entitlements_or_empty(id)[k]),
        forall|k: int|
            0 <= k < v.without_access(id, resource, role).entitlements_or_empty(id).len() ==> {
                let e = #[trigger] v.without_access(id, resource, role).entitlements_or_empty(id)[k];
                &&& !(e.resource == resource && e.role == role)
                &&& v.entitlements_or_empty(id).contains(e)
            },
{
    law_revocation_removes_access(v, id, resource, role, id);
    let old_list = v.entitlements_or_empty(id);
    let keep = |e: EntitlementView| survives_revocation(e, resource, role);
    let kept = v.without_access(id, resource, role).entitlements_or_empty(id);
    assert(kept == old_list.filter(keep));
    assert forall|k: int|
        0 <= k < old_list.len() && (#[trigger] old_list[k].resource != resource || old_list[k].role
            != role) implies kept.contains(old_list[k]) by {
        old_list.lemma_filter_contains(keep, k);
    }
    assert forall|k: int| 0 <= k < kept.len() implies {
        let e = #[trigger] kept[k];
        &&& !(e.resource == resource && e.role == role)
        &&& old_list.contains(e)
    } by {
        old_list.lemma_filter_pred(keep, k);
        assert(old_list.filter(keep).contains(kept[k]));
        old_list.lemma_filter_contains_rev(keep, kept[k]);
    }
}

/// A revocation reports that it revoked something exactly when the list held
/// an entitlement with both the revoked resource and the revoked role.
pub proof fn law_revoked_exactly_when_granted(v: IdentityStoreView, id: Seq<char>, resource: Seq<char>, role: Seq<char>)
    ensures
        v.holds(id, resource, role) <==> exists|k: int|
            0 <= k < v.entitlements_or_empty(id).len() && #[trigger] v.entitlements_or_empty(id)[k].resource
                == resource && v.entitlements_or_empty(id)[k].role == role,
{
}

/// Validating an existing user reports it valid, with its own status, and
/// active exactly when that status is `Active`: suspended, deactivated and
/// pending accounts are not active.
pub proof fn law_validation_active_exactly_when_status_active(u: UserView)
    ensures
        validation_of(u).valid,
        validation_of(u).status == u.status,
        validation_of(u).user_id == u.id,
        validation_of(u).active <==> u.status == UserStatus::Active,
        u.status == UserStatus::Deactivated ==> !validation_of(u).active,
        u.status == UserStatus::Pending ==> !validation_of(u).active,
        u.status == UserStatus::Suspended ==> !validation_of(u).active,
{
}

/// A submitted access request records what was asked: the user, the action
/// (a revoke stays a revoke), the resource, role, reason, requester and
/// ticket; it is pending with no approver.
pub proof fn law_request_records_what_was_asked(
    id: Seq<char>,
    user_id: Seq<char>,
    action: AccessAction,
    resource: Seq<char>,
    role: Seq<char>,
    reason: Seq<char>,
    requested_by: Seq<char>,
    ticket_id: Option<Seq<char>>,
    created_at: Timestamp,
    updated_at: Timestamp,
)
    ensures
        ({
            let r = pending_request(id, user_id, action, resource, role, reason, requested_by, ticket_id, created_at, updated_at);
            &&& r.action == action
            &&& r.user_id == user_id
            &&& r.resource == resource
            &&& r.role == role
            &&& r.reason == reason
            &&& r.requested_by == requested_by
            &&& r.ticket_id == ticket_id
            &&& r.status == RequestStatus::Pending
            &&& r.approver is None
        }),
{
}

/// A created lifecycle task has the requested type, starts pending, and
/// carries the steps and systems of that type; tasks of different types have
/// different steps, so the steps tell the type.
pub proof fn law_task_has_requested_type(
    id: Seq<char>,
    user_id: Seq<char>,
    task_type: TaskType,
    owner_team: Seq<char>,
    ticket_id: Option<Seq<char>>,
    created_at: Timestamp,
    other: TaskType,
)
    ensures
        ({
            let t = pending_task(id, user_id, task_type, owner_team, ticket_id, created_at);
            &&& t.task_type == task_type
            &&& t.user_id == user_id
            &&& t.owner_team == owner_team
            &&& t.status == TaskStatus::Pending
            &&& t.steps == lifecycle_steps(task_type)
            &&& t.systems_impacted == lifecycle_systems(task_type)
        }),
        lifecycle_steps(task_type) == lifecycle_steps(other) ==> task_type == other,
{
    reveal_strlit("Create accounts");
    reveal_strlit("Revoke all access");
    reveal_strlit("Review current entitlements");
    reveal_strlit("Review role requirements");
    if lifecycle_steps(task_type) == lifecycle_steps(other) {
        let a = lifecycle_steps(task_type)[0];
        let b = lifecycle_steps(other)[0];
        assert(a.len() == b.len());
        assert(("Create accounts"@).len() == 15);
        assert(("Revoke all access"@).len() == 17);
        assert(("Review current entitlements"@).len() == 27);
        assert(("Review role requirements"@).len() == 24);
    }
}


/// Offboarding starts by revoking all access and touches all systems, as the
/// tool's published example shows; the other task types touch named systems.
pub proof fn law_offboarding_revokes_everything(t: TaskType)
    ensures
        lifecycle_steps(TaskType::Offboarding)[0] == "Revoke all access"@,
        lifecycle_systems(TaskType::Offboarding) == seq!["All systems"@],
        t != TaskType::Offboarding ==> !lifecycle_systems(t).contains("All systems"@),
{
    reveal_strlit("All systems");
    reveal_strlit("Azure AD");
    reveal_strlit("GitHub");
    reveal_strlit("Slack");
    reveal_strlit("VPN");
    reveal_strlit("Email");
    if t != TaskType::Offboarding {
        assert(("All systems"@).len() == 11);
        assert forall|i: int| 0 <= i < lifecycle_systems(t).len() implies #[trigger] lifecycle_systems(t)[i]
            != "All systems"@ by {
            assert(lifecycle_systems(t)[i].len() != 11);
        }
    }
}

} // verus!
