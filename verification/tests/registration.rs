use sha2::Digest;
use stumble_core::agent_tools::AgentTools;
use stumble_core::error::{AgentToolsError, StoreError};
use stumble_core::harnesses::{normalize_capabilities, normalize_pod_ids, RegisterAgentHarnessRequest};
use stumble_core::store::Store;
use stumble_core::types::{AgentHarnessKind, AuthContext, HarnessCapability, Pod, User, Visibility};

fn hash_of(token: &str) -> String {
    sha2::Sha256::digest(token.as_bytes()).iter().map(|byte| format!("{byte:02x}")).collect()
}

fn tools() -> AgentTools {
    let mut store = Store::new();
    store.users.push(User { id: 10, display_name: "Owner".to_string(), created_at: 0 });
    for id in [100u128, 50] {
        store.pods.push(Pod {
            id,
            tenant_id: None,
            slug: format!("pod-{id}"),
            name: "Pod".to_string(),
            description: String::new(),
            visibility: Visibility::Private,
            origin_node_id: None,
            created_at: 0,
        });
    }
    AgentTools::new(store)
}

fn owner() -> AuthContext {
    AuthContext { user_id: None, tenant_id: None, node_id: 1, harness_id: None }
}

fn request(kind: AgentHarnessKind, capabilities: Vec<HarnessCapability>, pod_ids: Option<Vec<u128>>) -> RegisterAgentHarnessRequest {
    RegisterAgentHarnessRequest { label: "Worker".to_string(), kind, capabilities, pod_ids }
}

#[test]
fn registration_normalizes_the_grant() {
    let mut tools = tools();
    let response = tools
        .register_agent_harness(
            &owner(),
            request(
                AgentHarnessKind::Unattended,
                vec![HarnessCapability::DiscoveryTasks, HarnessCapability::FeedRead, HarnessCapability::DiscoveryTasks],
                Some(vec![100, 50, 100]),
            ),
            "secret-token".to_string(),
        )
        .unwrap();
    assert_eq!(response.token, "secret-token");
    assert_eq!(response.harness.user_id, 10);
    assert_eq!(response.harness.grant.capabilities, vec![HarnessCapability::FeedRead, HarnessCapability::DiscoveryTasks]);
    assert_eq!(response.harness.grant.pod_ids, Some(vec![50, 100]));
    let token = &tools.store.api_tokens[0];
    assert_eq!(token.token_hash, "930bbdc51b6aed5c2a5678fd6e28dee7a05e8a4b643cfc0b4427c3efb86c0d94");
    assert_eq!(token.label, "Harness: Worker");
    assert_eq!(token.harness_id, Some(response.harness.id));
    let view = tools.agent_harness(&owner(), response.harness.id).unwrap();
    assert_eq!(view.credential_fingerprint, "sha256:930bbdc51b6a");
}

#[test]
fn a_harness_cannot_register_another() {
    let mut tools = tools();
    let ctx = AuthContext { user_id: Some(10), tenant_id: None, node_id: 1, harness_id: Some(1) };
    let refused = tools
        .register_agent_harness(&ctx, request(AgentHarnessKind::Interactive, vec![], None), "t".to_string())
        .unwrap_err();
    assert!(matches!(refused, AgentToolsError::Forbidden { reason }
        if reason == "only the Home Node Owner may register an Agent Harness directly"));
}

#[test]
fn oversight_grants_are_isolated_and_interactive() {
    let mut tools = tools();
    let unattended = tools
        .register_agent_harness(
            &owner(),
            request(AgentHarnessKind::Unattended, vec![HarnessCapability::Approval], None),
            "t".to_string(),
        )
        .unwrap_err();
    assert!(matches!(unattended, AgentToolsError::Forbidden { reason }
        if reason == "unattended harnesses cannot receive administration or approval"));
    let mixed = tools
        .register_agent_harness(
            &owner(),
            request(AgentHarnessKind::Interactive, vec![HarnessCapability::Administration, HarnessCapability::FeedRead], None),
            "t".to_string(),
        )
        .unwrap_err();
    assert!(matches!(mixed, AgentToolsError::Store(StoreError::Validation(m))
        if m == "bootstrap administration and approval grants must be isolated"));
    assert!(tools
        .register_agent_harness(
            &owner(),
            request(AgentHarnessKind::Interactive, vec![HarnessCapability::Administration], None),
            "t".to_string(),
        )
        .is_ok());
}

#[test]
fn registration_checks_label_user_and_scope() {
    let mut tools = tools();
    let blank = RegisterAgentHarnessRequest { label: "  ".to_string(), kind: AgentHarnessKind::Interactive, capabilities: vec![], pod_ids: None };
    let refused = tools.register_agent_harness(&owner(), blank, "t".to_string()).unwrap_err();
    assert!(matches!(refused, AgentToolsError::Store(StoreError::Validation(m)) if m == "Agent Harness label must not be empty"));
    let missing = tools
        .register_agent_harness(&owner(), request(AgentHarnessKind::Interactive, vec![], Some(vec![7])), "t".to_string())
        .unwrap_err();
    assert!(matches!(missing, AgentToolsError::Store(StoreError::NotFound(m))
        if m == "pod 00000000-0000-0000-0000-000000000007"));
    let mut empty = AgentTools::new(Store::new());
    let no_user = empty
        .register_agent_harness(&owner(), request(AgentHarnessKind::Interactive, vec![], None), "t".to_string())
        .unwrap_err();
    assert!(matches!(no_user, AgentToolsError::Store(StoreError::Validation(m)) if m == "an Agent Harness must belong to a User"));
}

#[test]
fn normalization_sorts_and_deduplicates() {
    assert_eq!(normalize_pod_ids(vec![3, 1, 2, 3, 1]), vec![1, 2, 3]);
    assert_eq!(normalize_pod_ids(vec![]), Vec::<u128>::new());
    assert_eq!(
        normalize_capabilities(vec![HarnessCapability::Approval, HarnessCapability::FeedRead, HarnessCapability::Approval]),
        vec![HarnessCapability::FeedRead, HarnessCapability::Approval]
    );
}

#[test]
fn dev_token_creates_user_membership_and_credential() {
    let mut tools = tools();
    tools.store.tenants.push(stumble_core::types::Tenant {
        id: 7,
        name: "Acme".to_string(),
        slug: "acme".to_string(),
        created_at: 0,
    });
    let response = tools
        .create_dev_token(
            stumble_core::harnesses::DevTokenRequest { tenant_slug: Some("acme".to_string()), user_id: Some(33), label: "cli".to_string() },
            "plain".to_string(),
        )
        .unwrap();
    assert_eq!(response.user_id, 33);
    assert_eq!(response.tenant_id, Some(7));
    assert_eq!(response.token, "plain");
    assert_eq!(response.token_hash, hash_of("plain"));
    assert_eq!(tools.store.users.last().unwrap().display_name, "Remote Agent User");
    assert_eq!(tools.store.tenant_users.len(), 1);
    let harness = tools.store.agent_harnesses.last().unwrap();
    assert!(harness.grant.capabilities.is_empty());
    assert_eq!(harness.kind, AgentHarnessKind::Interactive);
    assert_eq!(
        tools.store.api_tokens.last().unwrap().token_hash,
        hash_of("plain")
    );
    tools
        .create_dev_token(
            stumble_core::harnesses::DevTokenRequest { tenant_slug: Some("acme".to_string()), user_id: Some(33), label: "again".to_string() },
            "p2".to_string(),
        )
        .unwrap();
    assert_eq!(tools.store.tenant_users.len(), 1);
    assert_eq!(tools.store.users.len(), 2);
    let missing = tools
        .create_dev_token(
            stumble_core::harnesses::DevTokenRequest { tenant_slug: Some("nope".to_string()), user_id: None, label: "x".to_string() },
            "p".to_string(),
        )
        .unwrap_err();
    assert!(matches!(missing, AgentToolsError::Store(StoreError::NotFound(m)) if m == "tenant nope"));
}

#[test]
fn dev_token_for_a_context_needs_administration() {
    let mut tools = tools();
    tools.store.agent_harnesses.push(stumble_core::types::AgentHarness {
        id: 5,
        user_id: 10,
        tenant_id: None,
        label: "reader".to_string(),
        kind: AgentHarnessKind::Interactive,
        grant: stumble_core::types::HarnessGrant { capabilities: vec![HarnessCapability::FeedRead], pod_ids: None },
        created_at: 0,
        revoked_at: None,
    });
    let ctx = AuthContext { user_id: Some(10), tenant_id: None, node_id: 1, harness_id: Some(5) };
    let refused = tools
        .create_dev_token_as(
            &ctx,
            stumble_core::harnesses::DevTokenRequest { tenant_slug: None, user_id: None, label: "x".to_string() },
            "p".to_string(),
        )
        .unwrap_err();
    assert!(matches!(refused, AgentToolsError::Forbidden { reason } if reason == "harness grant lacks administration"));
}
