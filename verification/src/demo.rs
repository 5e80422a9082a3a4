//! The demonstration directory: two users with groups, MFA state and
//! entitlements.
use vstd::prelude::*;
use vstd::string::*;
use crate::types::{
    Entitlement, EntitlementRisk, EntitlementView, GrantType, GroupMembership,
    GroupMembershipView, GroupType, MfaStatus, MfaStatusView, Timestamp, User, UserStatus, UserView,
};
use crate::store::{IdentityStore, IdentityStoreView, is_clock_reading};
use crate::sources::current_time;

verus! {

/// The first demonstration user, James Karanja, an engineer with MFA.
pub open spec fn demo_james(now: Timestamp) -> UserView {
    UserView {
        id: "usr_001"@,
        username: "jkaranja"@,
        email: "james.karanja@company.com"@,
        full_name: "James Karanja"@,
        department: "Engineering"@,
        job_title: Some("Senior Engineer"@),
        location: Some("Nairobi"@),
        manager: Some("usr_003"@),
        employee_id: Some("EMP-1001"@),
        status: UserStatus::Active,
        mfa: MfaStatusView {
            enabled: true,
            methods: seq!["totp"@, "webauthn"@],
            last_verified: Some(now),
            enrolled_at: Some(now),
        },
        groups: seq![
            GroupMembershipView {
                group_id: "grp_eng"@,
                group_name: "Engineering"@,
                group_type: GroupType::Security,
                role_in_group: Some("member"@),
            },
            GroupMembershipView {
                group_id: "grp_vpn"@,
                group_name: "VPN Users"@,
                group_type: GroupType::Application,
                role_in_group: None,
            },
        ],
        risk_level: EntitlementRisk::Medium,
        last_login_at: Some(now),
        created_at: now,
    }
}

/// The second demonstration user, Sarah Ngugi, a marketing manager without
/// MFA.
pub open spec fn demo_sarah(now: Timestamp) -> UserView {
    UserView {
        id: "usr_002"@,
        username: "sngugi"@,
        email: "sarah.ngugi@company.com"@,
        full_name: "Sarah Ngugi"@,
        department: "Marketing"@,
        job_title: Some("Marketing Manager"@),
        location: Some("Nairobi"@),
        manager: Some("usr_003"@),
        employee_id: Some("EMP-1002"@),
        status: UserStatus::Active,
        mfa: MfaStatusView {
            enabled: false,
            methods: Seq::empty(),
            last_verified: None,
            enrolled_at: None,
        },
        groups: seq![
            GroupMembershipView {
                group_id: "grp_mkt"@,
                group_name: "Marketing"@,
                group_type: GroupType::Security,
                role_in_group: Some("member"@),
            },
        ],
        risk_level: EntitlementRisk::Low,
        last_login_at: Some(now),
        created_at: now,
    }
}

/// An entitlement of the demonstration data: granted now, never expiring.
pub open spec fn demo_entitlement(
    resource: Seq<char>,
    role: Seq<char>,
    source: Seq<char>,
    grant_type: GrantType,
    risk: EntitlementRisk,
    environment: Option<Seq<char>>,
    granted_by: Seq<char>,
    justification: Option<Seq<char>>,
    now: Timestamp,
) -> EntitlementView {
    EntitlementView {
        resource,
        role,
        source,
        grant_type,
        risk,
        environment,
        granted_at: now,
        expires_at: None,
        granted_by,
        justification,
    }
}

/// The store after seeding the demonstration data at time `now`: James with
/// write access to GitHub, developer access to AWS staging and VPN access,
/// then Sarah with admin access to HubSpot.
pub open spec fn demo_seeded(v: IdentityStoreView, now: Timestamp) -> IdentityStoreView {
    v.with_user(demo_james(now)).with_entitlement(
        "usr_001"@,
        demo_entitlement(
            "github:zavora-ai"@,
            "write"@,
            "azure_ad"@,
            GrantType::Group,
            EntitlementRisk::Medium,
            Some("production"@),
            "system"@,
            Some("Engineering team member"@),
            now,
        ),
    ).with_entitlement(
        "usr_001"@,
        demo_entitlement(
            "aws:staging"@,
            "developer"@,
            "okta"@,
            GrantType::Role,
            EntitlementRisk::Low,
            Some("staging"@),
            "manager"@,
            None,
            now,
        ),
    ).with_entitlement(
        "usr_001"@,
        demo_entitlement(
            "vpn"@,
            "user"@,
            "azure_ad"@,
            GrantType::Group,
            EntitlementRisk::Low,
            None,
            "system"@,
            None,
            now,
        ),
    ).with_user(demo_sarah(now)).with_entitlement(
        "usr_002"@,
        demo_entitlement(
            "hubspot"@,
            "admin"@,
            "okta"@,
            GrantType::Direct,
            EntitlementRisk::Medium,
            None,
            "manager"@,
            Some("Marketing lead"@),
            now,
        ),
    )
}

fn text(s: &str) -> (r: String)
    ensures
        r@ == s@,
{
    String::from_str(s)
}

fn some_text(s: &str) -> (r: Option<String>)
    ensures
        r.deep_view() == Some(s@),
{
    Some(String::from_str(s))
}

fn james(now: Timestamp) -> (u: User)
    ensures
        u@ == demo_james(now),
{
    let mut methods: Vec<String> = Vec::new();
    methods.push(text("totp"));
    methods.push(text("webauthn"));
    let mut groups: Vec<GroupMembership> = Vec::new();
    groups.push(
        GroupMembership {
            group_id: text("grp_eng"),
            group_name: text("Engineering"),
            group_type: GroupType::Security,
            role_in_group: some_text("member"),
        },
    );
    groups.push(
        GroupMembership {
            group_id: text("grp_vpn"),
            group_name: text("VPN Users"),
            group_type: GroupType::Application,
            role_in_group: None,
        },
    );
    let u = User {
        id: text("usr_001"),
        username: text("jkaranja"),
        email: text("james.karanja@company.com"),
        full_name: text("James Karanja"),
        department: text("Engineering"),
        job_title: some_text("Senior Engineer"),
        location: some_text("Nairobi"),
        manager: some_text("usr_003"),
        employee_id: some_text("EMP-1001"),
        status: UserStatus::Active,
        risk_level: EntitlementRisk::Medium,
        last_login_at: Some(now),
        mfa: MfaStatus { enabled: true, methods, last_verified: Some(now), enrolled_at: Some(now) },
        groups,
        created_at: now,
    };
    proof {
        assert(u@.mfa.methods =~= demo_james(now).mfa.methods);
        assert(u@.groups =~= demo_james(now).groups);
    }
    u
}

fn sarah(now: Timestamp) -> (u: User)
    ensures
        u@ == demo_sarah(now),
{
    let methods: Vec<String> = Vec::new();
    let mut groups: Vec<GroupMembership> = Vec::new();
    groups.push(
        GroupMembership {
            group_id: text("grp_mkt"),
            group_name: text("Marketing"),
            group_type: GroupType::Security,
            role_in_group: some_text("member"),
        },
    );
    let u = User {
        id: text("usr_002"),
        username: text("sngugi"),
        email: text("sarah.ngugi@company.com"),
        full_name: text("Sarah Ngugi"),
        department: text("Marketing"),
        job_title: some_text("Marketing Manager"),
        location: some_text("Nairobi"),
        manager: some_text("usr_003"),
        employee_id: some_text("EMP-1002"),
        status: UserStatus::Active,
        risk_level: EntitlementRisk::Low,
        last_login_at: Some(now),
        mfa: MfaStatus { enabled: false, methods, last_verified: None, enrolled_at: None },
        groups,
        created_at: now,
    };
    proof {
        assert(u@.mfa.methods =~= demo_sarah(now).mfa.methods);
        assert(u@.groups =~= demo_sarah(now).groups);
    }
    u
}

/// Seeds the demonstration data, stamping every record with the time `now`.
pub fn seed_demo_data_at(store: &mut IdentityStore, now: Timestamp)
    ensures
        final(store)@.wf(),
        final(store)@ == demo_seeded(old(store)@, now),
{
    store.add_user(james(now));
    store.add_entitlement(
        "usr_001",
        Entitlement {
            resource: text("github:zavora-ai"),
            role: text("write"),
            source: text("azure_ad"),
            grant_type: GrantType::Group,
            risk: EntitlementRisk::Medium,
            environment: some_text("production"),
            granted_at: now,
            expires_at: None,
            granted_by: text("system"),
            justification: some_text("Engineering team member"),
        },
    );
    store.add_entitlement(
        "usr_001",
        Entitlement {
            resource: text("aws:staging"),
            role: text("developer"),
            source: text("okta"),
            grant_type: GrantType::Role,
            risk: EntitlementRisk::Low,
            environment: some_text("staging"),
            granted_at: now,
            expires_at: None,
            granted_by: text("manager"),
            justification: None,
        },
    );
    store.add_entitlement(
        "usr_001",
        Entitlement {
            resource: text("vpn"),
            role: text("user"),
            source: text("azure_ad"),
            grant_type: GrantType::Group,
            risk: EntitlementRisk::Low,
            environment: None,
            granted_at: now,
            expires_at: None,
            granted_by: text("system"),
            justification: None,
        },
    );
    store.add_user(sarah(now));
    store.add_entitlement(
        "usr_002",
        Entitlement {
            resource: text("hubspot"),
            role: text("admin"),
            source: text("okta"),
            grant_type: GrantType::Direct,
            risk: EntitlementRisk::Medium,
            environment: None,
            granted_at: now,
            expires_at: None,
            granted_by: text("manager"),
            justification: some_text("Marketing lead"),
        },
    );
}

/// Seeds the demonstration data, stamped with the current time.
pub fn seed_demo_data(store: &mut IdentityStore)
    ensures
        final(store)@.wf(),
        exists|now: Timestamp| is_clock_reading(now) && final(store)@ == demo_seeded(old(store)@, now),
{
    let now = current_time();
    seed_demo_data_at(store, now);
    proof {
        assert(is_clock_reading(now) && final(store)@ == demo_seeded(old(store)@, now));
    }
}

} // verus!
