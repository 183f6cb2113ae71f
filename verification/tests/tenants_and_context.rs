use stumble_core::agent_tools::AgentTools;
use stumble_core::error::{AgentToolsError, StoreError};
use stumble_core::harnesses::DevTokenRequest;
use stumble_core::personal_discovery::SetUserContextRequest;
use stumble_core::store::Store;
use stumble_core::tenants::CreateTenantRequest;
use stumble_core::types::{AgentHarness, AgentHarnessKind, AuthContext, HarnessCapability, HarnessGrant, User};

fn owner() -> AuthContext {
    AuthContext { user_id: None, tenant_id: None, node_id: 1, harness_id: None }
}

fn acme() -> CreateTenantRequest {
    CreateTenantRequest { name: "Acme".to_string(), slug: "acme".to_string() }
}

#[test]
fn creating_a_tenant_adds_its_managed_node() {
    let mut tools = AgentTools::new(Store::new());
    let tenant = tools.create_tenant(acme(), "pk-acme".to_string()).unwrap();
    assert_eq!(tenant.name, "Acme");
    assert_eq!(tenant.slug, "acme");
    assert_eq!(tools.store.tenants.len(), 1);
    assert_eq!(tools.store.tenants[0].id, tenant.id);
    let node = &tools.store.node_identities[0];
    assert_eq!(node.tenant_id, Some(tenant.id));
    assert_eq!(node.display_name, "Acme managed node");
    assert_eq!(node.public_key, "pk-acme");
    assert!(tools.store.harness_write_audit.is_empty());
}

#[test]
fn a_tenant_slug_is_used_once() {
    let mut tools = AgentTools::new(Store::new());
    tools.create_tenant(acme(), "pk".to_string()).unwrap();
    let refused = tools
        .create_tenant(CreateTenantRequest { name: "Other".to_string(), slug: "acme".to_string() }, "pk2".to_string())
        .unwrap_err();
    assert!(matches!(refused, AgentToolsError::Store(StoreError::Duplicate(m)) if m == "tenant acme"));
    assert_eq!(tools.store.tenants.len(), 1);
    assert_eq!(tools.store.node_identities.len(), 1);
}

fn tools_with_harness(capabilities: Vec<HarnessCapability>) -> AgentTools {
    let mut store = Store::new();
    store.users.push(User { id: 10, display_name: "Owner".to_string(), created_at: 0 });
    store.agent_harnesses.push(AgentHarness {
        id: 7,
        user_id: 10,
        tenant_id: None,
        label: "Admin".to_string(),
        kind: AgentHarnessKind::Interactive,
        grant: HarnessGrant { capabilities, pod_ids: None },
        created_at: 0,
        revoked_at: None,
    });
    AgentTools::new(store)
}

fn harness_ctx() -> AuthContext {
    AuthContext { user_id: Some(10), tenant_id: None, node_id: 1, harness_id: Some(7) }
}

#[test]
fn tenant_creation_as_a_harness_needs_administration() {
    let mut tools = tools_with_harness(vec![HarnessCapability::FeedRead]);
    let refused = tools.create_tenant_as(&harness_ctx(), acme(), "pk".to_string()).unwrap_err();
    assert!(matches!(refused, AgentToolsError::Forbidden { reason } if reason == "harness grant lacks administration"));
    assert!(tools.store.tenants.is_empty());

    let mut tools = tools_with_harness(vec![HarnessCapability::Administration]);
    let tenant = tools.create_tenant_as(&harness_ctx(), acme(), "pk".to_string()).unwrap();
    assert_eq!(tools.store.harness_write_audit.len(), 1);
    assert_eq!(tools.store.harness_write_audit[0].harness_id, 7);
    assert_eq!(tools.store.harness_write_audit[0].pod_id, None);
    let token = tools
        .create_dev_token(
            DevTokenRequest { tenant_slug: Some("acme".to_string()), user_id: Some(10), label: "dev".to_string() },
            "tok".to_string(),
        )
        .unwrap();
    assert_eq!(token.tenant_id, Some(tenant.id));
    assert_eq!(tools.store.tenant_users.len(), 1);
    assert_eq!(tools.store.tenant_users[0].tenant_id, tenant.id);
}

fn user_ctx() -> AuthContext {
    AuthContext { user_id: Some(10), tenant_id: None, node_id: 1, harness_id: None }
}

#[test]
fn user_context_is_replaced_in_place() {
    let mut tools = AgentTools::new(Store::new());
    let first = tools
        .set_user_context(&user_ctx(), SetUserContextRequest { context_md: "likes rust".to_string() }, 1_000)
        .unwrap();
    assert_eq!(first.created_at, 1_000);
    assert_eq!(first.updated_at, 1_000);
    let second = tools
        .set_user_context(&user_ctx(), SetUserContextRequest { context_md: "likes verus".to_string() }, 2_000)
        .unwrap();
    assert_eq!(second.context_md, "likes verus");
    assert_eq!(second.created_at, 1_000);
    assert_eq!(second.updated_at, 2_000);
    assert_eq!(tools.store.user_contexts.len(), 1);
    assert_eq!(tools.store.user_contexts[0].context_md, "likes verus");
}

#[test]
fn user_context_is_bounded_in_bytes() {
    let mut tools = AgentTools::new(Store::new());
    let refused = tools
        .set_user_context(&user_ctx(), SetUserContextRequest { context_md: "é".repeat(32_769) }, 1_000)
        .unwrap_err();
    assert!(matches!(refused, AgentToolsError::Store(StoreError::Validation(m)) if m == "context_md must be at most 65536 bytes"));
    assert!(tools.store.user_contexts.is_empty());
    let accepted = tools.set_user_context(&user_ctx(), SetUserContextRequest { context_md: "é".repeat(32_768) }, 1_000);
    assert!(accepted.is_ok());
}

#[test]
fn user_context_needs_a_user() {
    let mut tools = AgentTools::new(Store::new());
    let refused = tools.set_user_context(&owner(), SetUserContextRequest { context_md: "x".to_string() }, 1).unwrap_err();
    assert!(matches!(refused, AgentToolsError::Store(StoreError::Validation(m)) if m == "User Context requires an authenticated User"));
}
