use mcp_identity::demo::{seed_demo_data, seed_demo_data_at};
use mcp_identity::store::{AuditDetails, IdentityStore};
use mcp_identity::types::UserSummary;
use mcp_identity::types::{
    AccessAction, ActorContext, Entitlement, EntitlementRisk, GrantType, GroupType, MfaStatus,
    RequestStatus, TaskStatus, TaskType, Timestamp, User, UserStatus,
};

fn now() -> Timestamp {
    Timestamp { secs: 1_779_580_800, nanos: 0 }
}

fn seeded() -> IdentityStore {
    let mut store = IdentityStore::new();
    seed_demo_data_at(&mut store, now());
    store
}

fn actor() -> ActorContext {
    ActorContext {
        actor_id: Some("agent-7".to_string()),
        agent_id: Some("support-bot".to_string()),
        session_id: None,
        ticket_id: Some("SUP-42".to_string()),
        purpose: Some("support_ticket".to_string()),
    }
}

fn plain_user(id: &str, username: &str, status: UserStatus) -> User {
    User {
        id: id.to_string(),
        username: username.to_string(),
        email: format!("{}@company.com", username),
        full_name: "Test Person".to_string(),
        department: "QA".to_string(),
        job_title: None,
        location: None,
        manager: None,
        employee_id: None,
        status,
        mfa: MfaStatus { enabled: false, methods: vec![], last_verified: None, enrolled_at: None },
        groups: vec![],
        risk_level: EntitlementRisk::High,
        last_login_at: None,
        created_at: now(),
    }
}

fn entitlement(resource: &str, role: &str) -> Entitlement {
    Entitlement {
        resource: resource.to_string(),
        role: role.to_string(),
        source: "okta".to_string(),
        grant_type: GrantType::Direct,
        risk: EntitlementRisk::Low,
        environment: None,
        granted_at: now(),
        expires_at: None,
        granted_by: "manager".to_string(),
        justification: None,
    }
}

fn is_upper_hex(s: &str) -> bool {
    s.chars().all(|c| c.is_ascii_digit() || ('A'..='F').contains(&c))
}

#[test]
fn lookup_james_finds_one_user() {
    let mut store = seeded();
    let users = store.lookup_user("james", &actor());
    assert_eq!(users.len(), 1);
    assert_eq!(users[0].full_name, "James Karanja");
    assert_eq!(users[0].email, "james.karanja@company.com");
    assert_eq!(users[0].status, UserStatus::Active);
}

#[test]
fn lookup_ignores_case() {
    let mut store = seeded();
    let users = store.lookup_user("KARANJA", &actor());
    assert_eq!(users.len(), 1);
    assert_eq!(users[0].id, "usr_001");
    let users = store.lookup_user("SnGuGi", &actor());
    assert_eq!(users.len(), 1);
    assert_eq!(users[0].id, "usr_002");
}

#[test]
fn lookup_by_employee_id() {
    let mut store = seeded();
    let users = store.lookup_user("EMP-1001", &actor());
    assert_eq!(users.len(), 1);
    assert_eq!(users[0].id, "usr_001");
    let users = store.lookup_user("emp-1002", &actor());
    assert_eq!(users.len(), 1);
    assert_eq!(users[0].id, "usr_002");
}

#[test]
fn lookup_shared_domain_finds_all_in_order() {
    let mut store = seeded();
    let users = store.lookup_user("@company.com", &actor());
    let ids: Vec<&str> = users.iter().map(|u| u.id.as_str()).collect();
    assert_eq!(ids, vec!["usr_001", "usr_002"]);
}

#[test]
fn lookup_without_match_is_empty() {
    let mut store = seeded();
    assert!(store.lookup_user("nobody-here", &actor()).is_empty());
}

#[test]
fn lookup_with_empty_query_finds_everyone() {
    let mut store = seeded();
    assert_eq!(store.lookup_user("", &actor()).len(), 2);
}

#[test]
fn mfa_status_of_james() {
    let mut store = seeded();
    let mfa = store.get_mfa_status("usr_001", &actor()).unwrap();
    assert!(mfa.enabled);
    assert_eq!(mfa.methods, vec!["totp".to_string(), "webauthn".to_string()]);
    assert_eq!(mfa.last_verified, Some(now()));
    let mfa = store.get_mfa_status("usr_002", &actor()).unwrap();
    assert!(!mfa.enabled);
    assert!(mfa.methods.is_empty());
    assert!(store.get_mfa_status("usr_404", &actor()).is_none());
}

#[test]
fn groups_of_users() {
    let mut store = seeded();
    let groups = store.get_groups("usr_001", &actor());
    assert_eq!(groups.len(), 2);
    assert_eq!(groups[0].group_id, "grp_eng");
    assert_eq!(groups[0].group_type, GroupType::Security);
    assert_eq!(groups[0].role_in_group.as_deref(), Some("member"));
    assert_eq!(groups[1].group_name, "VPN Users");
    assert_eq!(groups[1].group_type, GroupType::Application);
    assert_eq!(groups[1].role_in_group, None);
    assert!(store.get_groups("usr_404", &actor()).is_empty());
}

#[test]
fn entitlements_of_james() {
    let mut store = seeded();
    let ents = store.list_entitlements("usr_001", &actor());
    assert_eq!(ents.len(), 3);
    assert_eq!((ents[0].resource.as_str(), ents[0].role.as_str()), ("github:zavora-ai", "write"));
    assert_eq!(ents[0].grant_type, GrantType::Group);
    assert_eq!(ents[0].risk, EntitlementRisk::Medium);
    assert_eq!((ents[1].resource.as_str(), ents[1].role.as_str()), ("aws:staging", "developer"));
    assert_eq!(ents[1].grant_type, GrantType::Role);
    assert_eq!(ents[1].risk, EntitlementRisk::Low);
    assert_eq!((ents[2].resource.as_str(), ents[2].role.as_str()), ("vpn", "user"));
    assert_eq!(ents[2].grant_type, GrantType::Group);
    assert_eq!(ents[2].risk, EntitlementRisk::Low);
    assert!(store.list_entitlements("usr_404", &actor()).is_empty());
}

#[test]
fn validate_identity_reports_active_user() {
    let mut store = seeded();
    let v = store.validate_identity("usr_001", &actor()).unwrap();
    assert!(v.valid);
    assert!(v.active);
    assert!(v.mfa_enabled);
    assert_eq!(v.user_id, "usr_001");
    assert_eq!(v.manager.as_deref(), Some("usr_003"));
    assert_eq!(v.department, "Engineering");
    assert_eq!(v.risk_level, EntitlementRisk::Medium);
    assert!(store.validate_identity("usr_404", &actor()).is_none());
}

#[test]
fn validate_identity_of_suspended_user_is_not_active() {
    let mut store = seeded();
    store.add_user(plain_user("usr_009", "ghost", UserStatus::Suspended));
    let v = store.validate_identity("usr_009", &actor()).unwrap();
    assert!(v.valid);
    assert!(!v.active);
    assert_eq!(v.status, UserStatus::Suspended);
}

#[test]
fn access_request_is_pending_and_grants_nothing() {
    let mut store = seeded();
    let req = store.request_access_change(
        "usr_001",
        AccessAction::Grant,
        "aws:production",
        "admin",
        "Release deployment",
        "mgr_1",
        Some("CHG-7"),
        &actor(),
    );
    assert!(req.id.starts_with("AR-"));
    assert_eq!(req.id.len(), 11);
    assert!(is_upper_hex(&req.id[3..]));
    assert_eq!(req.status, RequestStatus::Pending);
    assert_eq!(req.policy_decision.as_deref(), Some("awaiting_approval"));
    assert_eq!(req.approver, None);
    assert_eq!(req.ticket_id.as_deref(), Some("CHG-7"));
    assert_eq!(req.action, AccessAction::Grant);
    assert_eq!(store.access_requests().len(), 1);
    assert_eq!(store.access_requests()[0].id, req.id);
    assert_eq!(store.list_entitlements("usr_001", &actor()).len(), 3);
}

#[test]
fn revoke_vpn_access_of_james() {
    let mut store = seeded();
    let receipt = store
        .revoke_access("usr_001", "vpn", "user", "Account compromised", "sec_1", Some("SEC-001"), &actor())
        .unwrap();
    assert!(receipt.revoked);
    assert!(receipt.requires_post_review);
    assert_eq!(receipt.ticket_id.as_deref(), Some("SEC-001"));
    let ents = store.list_entitlements("usr_001", &actor());
    let pairs: Vec<(&str, &str)> = ents.iter().map(|e| (e.resource.as_str(), e.role.as_str())).collect();
    assert_eq!(pairs, vec![("github:zavora-ai", "write"), ("aws:staging", "developer")]);
    let again = store
        .revoke_access("usr_001", "vpn", "user", "Account compromised", "sec_1", Some("SEC-002"), &actor())
        .unwrap();
    assert!(!again.revoked);
    assert!(again.requires_post_review);
    assert_eq!(store.list_entitlements("usr_001", &actor()).len(), 2);
}

#[test]
fn revoke_needs_matching_role_too() {
    let mut store = seeded();
    let receipt = store.revoke_access("usr_001", "vpn", "admin", "r", "sec_1", Some("SEC-002"), &actor()).unwrap();
    assert!(!receipt.revoked);
    assert_eq!(store.list_entitlements("usr_001", &actor()).len(), 3);
}

#[test]
fn revoke_removes_every_duplicate_grant() {
    let mut store = IdentityStore::new();
    store.add_entitlement("usr_010", entitlement("db", "read"));
    store.add_entitlement("usr_010", entitlement("db", "write"));
    store.add_entitlement("usr_010", entitlement("db", "read"));
    let receipt = store.revoke_access("usr_010", "db", "read", "r", "sec_1", Some("SEC-002"), &actor()).unwrap();
    assert!(receipt.revoked);
    let ents = store.list_entitlements("usr_010", &actor());
    assert_eq!(ents.len(), 1);
    assert_eq!(ents[0].role, "write");
}

#[test]
fn revoke_for_unknown_user_fails_but_is_audited() {
    let mut store = seeded();
    let err = store.revoke_access("usr_999", "vpn", "user", "r", "sec_1", Some("SEC-002"), &actor()).unwrap_err();
    assert_eq!(err, "User not found: usr_999");
    let log = store.audit_log();
    assert_eq!(log.len(), 1);
    assert_eq!(log[0].action, "revoke_access");
    match &log[0].details {
        AuditDetails::Revocation { user_id, resource, reason, break_glass } => {
            assert_eq!(user_id, "usr_999");
            assert_eq!(resource, "vpn");
            assert_eq!(reason, "r");
            assert!(*break_glass);
        }
        other => panic!("unexpected details {:?}", other),
    }
}

#[test]
fn offboarding_task_for_sarah() {
    let mut store = seeded();
    let task = store.create_lifecycle_task("usr_002", TaskType::Offboarding, "IT Operations", None, &actor());
    assert!(task.id.starts_with("LT-"));
    assert_eq!(task.id.len(), 11);
    assert!(is_upper_hex(&task.id[3..]));
    assert_eq!(task.status, TaskStatus::Pending);
    assert_eq!(task.owner_team, "IT Operations");
    assert_eq!(
        task.steps,
        vec!["Revoke all access", "Disable accounts", "Collect hardware", "Transfer data ownership", "Archive mailbox"]
    );
    assert_eq!(task.systems_impacted, vec!["All systems"]);
    assert_eq!(store.lifecycle_tasks().len(), 1);
    assert_eq!(store.lifecycle_tasks()[0].id, task.id);
}

#[test]
fn onboarding_transfer_and_role_change_tasks() {
    let mut store = seeded();
    let on = store.create_lifecycle_task("usr_003", TaskType::Onboarding, "IT", Some("HR-1"), &actor());
    assert_eq!(
        on.steps,
        vec!["Create accounts", "Assign groups", "Provision hardware", "Schedule orientation", "Grant base entitlements"]
    );
    assert_eq!(on.systems_impacted, vec!["Azure AD", "GitHub", "Slack", "VPN", "Email"]);
    assert_eq!(on.ticket_id.as_deref(), Some("HR-1"));
    let tr = store.create_lifecycle_task("usr_001", TaskType::Transfer, "IT", None, &actor());
    assert_eq!(
        tr.steps,
        vec!["Review current entitlements", "Revoke old team access", "Grant new team access", "Update manager"]
    );
    assert_eq!(tr.systems_impacted, vec!["Azure AD", "GitHub"]);
    let rc = store.create_lifecycle_task("usr_001", TaskType::RoleChange, "IT", None, &actor());
    assert_eq!(rc.steps, vec!["Review role requirements", "Adjust entitlements", "Update groups", "Notify manager"]);
    assert_eq!(rc.systems_impacted, vec!["Azure AD", "GitHub"]);
    assert_ne!(on.id, tr.id);
}

#[test]
fn every_tool_call_is_audited_once() {
    let mut store = seeded();
    assert!(store.audit_log().is_empty());
    let a = actor();
    store.lookup_user("james", &a);
    store.get_mfa_status("usr_001", &a);
    store.get_groups("usr_001", &a);
    store.list_entitlements("usr_001", &a);
    store.validate_identity("usr_001", &a);
    store.request_access_change("usr_001", AccessAction::Revoke, "vpn", "user", "r", "m", None, &a);
    let _ = store.revoke_access("usr_001", "vpn", "user", "r", "m", None, &a);
    store.create_lifecycle_task("usr_001", TaskType::Transfer, "IT", None, &a);
    let actions: Vec<&str> = store.audit_log().iter().map(|e| e.action.as_str()).collect();
    assert_eq!(
        actions,
        vec![
            "lookup_user",
            "get_mfa_status",
            "get_user_groups",
            "list_entitlements",
            "validate_identity",
            "request_access_change",
            "revoke_access",
            "create_lifecycle_task",
        ]
    );
    for entry in store.audit_log() {
        assert_eq!(entry.actor.purpose.as_deref(), Some("support_ticket"));
        assert_eq!(entry.actor.ticket_id.as_deref(), Some("SUP-42"));
    }
    match &store.audit_log()[0].details {
        AuditDetails::Query { query } => assert_eq!(query, "james"),
        other => panic!("unexpected details {:?}", other),
    }
    match &store.audit_log()[5].details {
        AuditDetails::AccessChange { user_id, action, resource } => {
            assert_eq!(user_id, "usr_001");
            assert_eq!(*action, AccessAction::Revoke);
            assert_eq!(resource, "vpn");
        }
        other => panic!("unexpected details {:?}", other),
    }
    match &store.audit_log()[7].details {
        AuditDetails::Lifecycle { user_id, task_type } => {
            assert_eq!(user_id, "usr_001");
            assert_eq!(*task_type, TaskType::Transfer);
        }
        other => panic!("unexpected details {:?}", other),
    }
}

#[test]
fn unaudited_calls_leave_the_trail_alone() {
    let mut store = seeded();
    store.add_user(plain_user("usr_005", "quiet", UserStatus::Active));
    store.add_entitlement("usr_005", entitlement("wiki", "read"));
    assert!(store.get_user("usr_005").is_some());
    assert!(store.audit_log().is_empty());
}

#[test]
fn added_user_is_found_and_replaces_same_id() {
    let mut store = seeded();
    store.add_user(plain_user("usr_005", "first", UserStatus::Pending));
    assert_eq!(store.get_user("usr_005").unwrap().username, "first");
    store.add_user(plain_user("usr_005", "second", UserStatus::Active));
    let u = store.get_user("usr_005").unwrap();
    assert_eq!(u.username, "second");
    assert_eq!(u.status, UserStatus::Active);
    assert_eq!(store.lookup_user("company.com", &actor()).len(), 3);
    assert_eq!(store.get_user("usr_001").unwrap().username, "jkaranja");
    assert!(store.get_user("usr_404").is_none());
}

#[test]
fn re_adding_a_user_keeps_entitlements() {
    let mut store = seeded();
    store.add_user(plain_user("usr_001", "renamed", UserStatus::Active));
    assert_eq!(store.list_entitlements("usr_001", &actor()).len(), 3);
    assert_eq!(store.get_user("usr_001").unwrap().username, "renamed");
}

#[test]
fn new_user_starts_with_empty_entitlements_that_can_be_revoked_from() {
    let mut store = IdentityStore::new();
    store.add_user(plain_user("usr_020", "newbie", UserStatus::Active));
    assert!(store.list_entitlements("usr_020", &actor()).is_empty());
    let receipt = store.revoke_access("usr_020", "vpn", "user", "r", "m", Some("SEC-002"), &actor()).unwrap();
    assert!(!receipt.revoked);
}

#[test]
fn entitlement_for_unknown_user_is_kept() {
    let mut store = IdentityStore::new();
    store.add_entitlement("usr_077", entitlement("db", "read"));
    store.add_entitlement("usr_077", entitlement("db", "write"));
    let ents = store.list_entitlements("usr_077", &actor());
    assert_eq!(ents.len(), 2);
    assert_eq!(ents[1].role, "write");
    assert!(store.get_user("usr_077").is_none());
    assert!(store.revoke_access("usr_077", "db", "read", "r", "m", Some("SEC-002"), &actor()).is_ok());
}

#[test]
fn seeding_with_the_clock_stamps_records_now() {
    let mut store = IdentityStore::new();
    seed_demo_data(&mut store);
    let u = store.get_user("usr_002").unwrap();
    assert!(u.created_at.secs > 1_600_000_000);
    assert_eq!(u.last_login_at, Some(u.created_at));
    let ents = store.list_entitlements("usr_002", &actor());
    assert_eq!(ents.len(), 1);
    assert_eq!(ents[0].resource, "hubspot");
    assert_eq!(ents[0].granted_at, u.created_at);
}

#[test]
fn default_actor_knows_nothing() {
    let a = ActorContext::default();
    assert!(a.actor_id.is_none());
    assert!(a.agent_id.is_none());
    assert!(a.session_id.is_none());
    assert!(a.ticket_id.is_none());
    assert!(a.purpose.is_none());
}

#[test]
fn audit_records_carry_the_clock() {
    let mut store = seeded();
    store.get_groups("usr_001", &actor());
    let t = store.audit_log()[0].timestamp;
    assert!(t.secs > 1_600_000_000);
    assert!(t.nanos < 1_000_000_000);
}

#[test]
fn lookup_lowercases_beyond_ascii() {
    let mut store = IdentityStore::new();
    let mut u = plain_user("usr_030", "asa", UserStatus::Active);
    u.full_name = "ÅSA ÖBERG".to_string();
    store.add_user(u);
    let found = store.lookup_user("åsa ö", &actor());
    assert_eq!(found.len(), 1);
    assert_eq!(found[0].id, "usr_030");
}

#[test]
fn revoke_without_ticket_is_refused() {
    let mut store = seeded();
    let err = store.revoke_access("usr_001", "vpn", "user", "Account compromised", "sec_1", None, &actor()).unwrap_err();
    assert_eq!(err, "Ticket required: break-glass revocation needs a ticket");
    assert_eq!(store.list_entitlements("usr_001", &actor()).len(), 3);
    assert_eq!(store.audit_log()[0].action, "revoke_access");
    let err = store.revoke_access("usr_999", "vpn", "user", "r", "sec_1", None, &actor()).unwrap_err();
    assert_eq!(err, "Ticket required: break-glass revocation needs a ticket");
}

#[test]
fn lookup_summaries_disclose_only_minimal_fields() {
    let mut store = seeded();
    let found: Vec<UserSummary> = store.lookup_user_summaries("company.com", &actor());
    assert_eq!(found.len(), 2);
    assert_eq!(found[0].id, "usr_001");
    assert_eq!(found[0].username, "jkaranja");
    assert_eq!(found[0].email, "james.karanja@company.com");
    assert_eq!(found[0].full_name, "James Karanja");
    assert_eq!(found[0].department, "Engineering");
    assert_eq!(found[0].status, UserStatus::Active);
    assert_eq!(found[0].risk_level, EntitlementRisk::Medium);
    assert_eq!(found[1].id, "usr_002");
    assert_eq!(store.audit_log().len(), 1);
    assert_eq!(store.audit_log()[0].action, "lookup_user");
}
