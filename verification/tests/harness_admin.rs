use sha2::Digest;
use stumble_core::agent_tools::AgentTools;
use stumble_core::error::{AgentToolsError, StoreError};
use stumble_core::store::Store;
use stumble_core::types::{
    AgentHarness, AgentHarnessKind, AgentHarnessStatus, ApiToken, AuthContext, HarnessCapability, HarnessGrant, NodeIdentity, User,
};

fn harness(id: u128, kind: AgentHarnessKind, capabilities: Vec<HarnessCapability>, created_at: i64) -> AgentHarness {
    AgentHarness {
        id,
        user_id: 10,
        tenant_id: None,
        label: format!("h{id}"),
        kind,
        grant: HarnessGrant { capabilities, pod_ids: None },
        created_at,
        revoked_at: None,
    }
}

fn token(id: u128, harness_id: u128, hash: &str) -> ApiToken {
    ApiToken {
        id,
        user_id: 10,
        tenant_id: None,
        token_hash: hash.to_string(),
        label: "t".to_string(),
        created_at: 0,
        last_used_at: None,
        revoked_at: None,
        harness_id: Some(harness_id),
    }
}

fn sha256_hex(token: &str) -> String {
    sha2::Sha256::digest(token.as_bytes()).iter().map(|byte| format!("{byte:02x}")).collect()
}

fn tools() -> AgentTools {
    let mut store = Store::new();
    store.users.push(User { id: 12, display_name: "Later".to_string(), created_at: 9 });
    store.users.push(User { id: 10, display_name: "Owner".to_string(), created_at: 1 });
    store.node_identities.push(NodeIdentity {
        id: 900,
        tenant_id: None,
        display_name: "Home".to_string(),
        public_key: "pk".to_string(),
        created_at: 0,
    });
    store.agent_harnesses.push(harness(2, AgentHarnessKind::Unattended, vec![HarnessCapability::PersonalDiscoveryExecution], 50));
    store.agent_harnesses.push(harness(
        1,
        AgentHarnessKind::Interactive,
        vec![HarnessCapability::Administration, HarnessCapability::Feedback, HarnessCapability::PersonalDiscoveryManagement],
        10,
    ));
    store.api_tokens.push(token(100, 1, "0123456789abcdefXYZ"));
    store.api_tokens.push(token(101, 2, "short"));
    AgentTools::new(store)
}

fn ctx(harness_id: Option<u128>) -> AuthContext {
    AuthContext { user_id: Some(10), tenant_id: None, node_id: 900, harness_id }
}

#[test]
fn harnesses_are_listed_by_creation_with_fingerprints() {
    let tools = tools();
    let views = tools.list_agent_harnesses(&ctx(Some(1))).unwrap();
    let ids: Vec<u128> = views.iter().map(|v| v.harness.id).collect();
    assert_eq!(ids, vec![1, 2]);
    assert_eq!(views[0].credential_fingerprint, "sha256:0123456789ab");
    assert_eq!(views[1].credential_fingerprint, "sha256:short");
    assert_eq!(views[0].status, AgentHarnessStatus::Active);
}

#[test]
fn revoked_harness_is_denied_everything() {
    let mut tools = tools();
    tools.revoke_agent_harness(&ctx(None), 2).unwrap();
    assert!(tools.store.api_tokens[1].revoked_at.is_some());
    assert!(tools.store.api_tokens[0].revoked_at.is_none());
    let refused = tools.require_harness_capability(&ctx(Some(2)), HarnessCapability::PersonalDiscoveryExecution).unwrap_err();
    assert!(matches!(refused, AgentToolsError::Forbidden { reason } if reason == "harness grant is revoked or missing"));
    let by_harness = tools.revoke_agent_harness(&ctx(Some(1)), 1).unwrap_err();
    assert!(matches!(by_harness, AgentToolsError::Forbidden { reason }
        if reason == "only the Home Node Owner may revoke an Agent Harness directly"));
    let missing = tools.revoke_agent_harness(&ctx(None), 77).unwrap_err();
    assert!(matches!(missing, AgentToolsError::Store(StoreError::NotFound(_))));
}

#[test]
fn capability_checks_name_the_missing_capability() {
    let tools = tools();
    assert!(tools.require_harness_capability(&ctx(None), HarnessCapability::Approval).is_ok());
    let refused = tools.require_harness_capability(&ctx(Some(1)), HarnessCapability::Approval).unwrap_err();
    assert!(matches!(refused, AgentToolsError::Forbidden { reason } if reason == "harness grant lacks approval"));
    let mismatch = AuthContext { user_id: Some(99), tenant_id: None, node_id: 900, harness_id: Some(1) };
    let refused = tools.require_harness_capability(&mismatch, HarnessCapability::Feedback).unwrap_err();
    assert!(matches!(refused, AgentToolsError::Forbidden { reason }
        if reason == "harness grant does not match the authorization context"));
}

#[test]
fn personal_discovery_roles_follow_harness_kind() {
    let tools = tools();
    assert!(tools.require_personal_discovery_management(&ctx(Some(1))).is_ok());
    assert!(tools.require_personal_discovery_execution(&ctx(Some(2))).is_ok());
    assert!(tools.require_personal_discovery_plan_access(&ctx(Some(2))).is_ok());
    assert!(tools.require_interactive_feedback(&ctx(Some(1))).is_ok());
    let refused = tools.require_personal_discovery_execution(&ctx(Some(1))).unwrap_err();
    assert!(matches!(refused, AgentToolsError::Forbidden { reason } if reason == "harness grant lacks personal_discovery_execution"));
}

#[test]
fn owner_context_is_the_earliest_user() {
    let tools = tools();
    let owner = tools.local_owner_auth_context().unwrap();
    assert_eq!(owner.user_id, Some(10));
    assert_eq!(owner.node_id, 900);
    assert_eq!(owner.harness_id, None);
    let anonymous = tools.default_auth_context().unwrap();
    assert_eq!(anonymous.user_id, None);
    let empty = AgentTools::new(Store::new());
    assert!(matches!(empty.default_auth_context().unwrap_err(), AgentToolsError::Store(StoreError::NotFound(m)) if m == "node identity"));
}

#[test]
fn harness_writes_are_attributed_and_listed() {
    let mut tools = tools();
    tools.register_agent_harness(
        &ctx(None),
        stumble_core::harnesses::RegisterAgentHarnessRequest {
            label: "New".to_string(),
            kind: AgentHarnessKind::Interactive,
            capabilities: vec![HarnessCapability::FeedRead],
            pod_ids: None,
        },
        "tok".to_string(),
    )
    .unwrap();
    assert!(tools.store.harness_write_audit.is_empty());
    assert!(tools.list_harness_write_audit(&ctx(Some(1))).unwrap().is_empty());
}

#[test]
fn credentials_authenticate_until_their_harness_is_revoked() {
    let mut tools = tools();
    tools.store.api_tokens[0].token_hash = sha256_hex("bearer-one");
    let ctx = tools.authenticate_token("bearer-one").unwrap().unwrap();
    assert_eq!(ctx.user_id, Some(10));
    assert_eq!(ctx.harness_id, Some(1));
    assert_eq!(ctx.node_id, 900);
    assert!(tools.store.api_tokens[0].last_used_at.is_some());
    assert_eq!(tools.authenticate_token("unknown").unwrap(), None);
    tools.revoke_agent_harness(&AuthContext { user_id: Some(10), tenant_id: None, node_id: 900, harness_id: None }, 1).unwrap();
    assert_eq!(tools.authenticate_token("bearer-one").unwrap(), None);
}

#[test]
fn credential_without_a_tenant_node_is_refused() {
    let mut tools = tools();
    tools.store.api_tokens[1].tenant_id = Some(5);
    tools.store.api_tokens[1].token_hash = sha256_hex("bearer-two");
    let refused = tools.authenticate_token("bearer-two").unwrap_err();
    assert!(matches!(refused, AgentToolsError::Store(StoreError::NotFound(m)) if m == "node identity"));
}

#[test]
fn a_revoked_harness_is_reported_revoked() {
    let mut tools = tools();
    let owner = AuthContext { user_id: Some(10), tenant_id: None, node_id: 900, harness_id: None };
    assert_eq!(tools.agent_harness(&owner, 2).unwrap().status, AgentHarnessStatus::Active);
    tools.revoke_agent_harness(&owner, 2).unwrap();
    let view = tools.agent_harness(&owner, 2).unwrap();
    assert_eq!(view.status, AgentHarnessStatus::Revoked);
    assert!(view.harness.revoked_at.is_some());
}
