use stumble_core::agent_tools::AgentTools;
use stumble_core::error::{AgentToolsError, StoreError};
use stumble_core::store::Store;
use stumble_core::types::{
    AgentHarness, AgentHarnessKind, AuthContext, HarnessCapability, HarnessGrant, HarnessWriteOperation, NodeIdentity, Pod,
    PodAllowedAction, PodRole, PodRoleAssignment, Visibility,
};

const USER: u128 = 10;
const TENANT: u128 = 7;

fn pod(id: u128, slug: &str, tenant_id: Option<u128>, visibility: Visibility) -> Pod {
    Pod {
        id,
        tenant_id,
        slug: slug.to_string(),
        name: slug.to_string(),
        description: String::new(),
        visibility,
        origin_node_id: None,
        created_at: 0,
    }
}

fn tools() -> AgentTools {
    let mut store = Store::new();
    store.node_identities.push(NodeIdentity {
        id: 900,
        tenant_id: Some(TENANT),
        display_name: "Home".to_string(),
        public_key: "pk".to_string(),
        created_at: 0,
    });
    store.pods.push(pod(1, "rust", Some(TENANT), Visibility::Public));
    store.pods.push(pod(2, "other", Some(99), Visibility::Public));
    store.pods.push(pod(3, "shared", None, Visibility::Private));
    store.pod_roles.push(PodRoleAssignment { pod_id: 1, user_id: 30, role: PodRole::Curator, created_at: 5 });
    store.pod_roles.push(PodRoleAssignment { pod_id: 1, user_id: USER, role: PodRole::Owner, created_at: 5 });
    store.pod_roles.push(PodRoleAssignment { pod_id: 1, user_id: 20, role: PodRole::Curator, created_at: 1 });
    store.agent_harnesses.push(AgentHarness {
        id: 50,
        user_id: USER,
        tenant_id: Some(TENANT),
        label: "scoped".to_string(),
        kind: AgentHarnessKind::Interactive,
        grant: HarnessGrant { capabilities: vec![HarnessCapability::SubscriptionManagement], pod_ids: Some(vec![3]) },
        created_at: 0,
        revoked_at: None,
    });
    AgentTools::new(store)
}

fn ctx(harness_id: Option<u128>) -> AuthContext {
    AuthContext { user_id: Some(USER), tenant_id: Some(TENANT), node_id: 900, harness_id }
}

fn ids(pods: &[Pod]) -> Vec<u128> {
    pods.iter().map(|p| p.id).collect()
}

#[test]
fn tenant_sees_its_pods_and_shared_pods() {
    let tools = tools();
    assert_eq!(ids(&tools.list_pods(Some(TENANT)).unwrap()), vec![1, 3]);
    assert_eq!(ids(&tools.list_pods(None).unwrap()), vec![3]);
}

#[test]
fn harness_listing_is_limited_to_its_scope() {
    let tools = tools();
    assert_eq!(ids(&tools.list_pods_for_harness(&ctx(None)).unwrap()), vec![1, 3]);
    assert_eq!(ids(&tools.list_pods_for_harness(&ctx(Some(50))).unwrap()), vec![3]);
}

#[test]
fn public_pods_of_the_tenant_node() {
    let tools = tools();
    assert_eq!(ids(&tools.list_public_pods(&ctx(None)).unwrap()), vec![1]);
    let no_node = AuthContext { user_id: None, tenant_id: Some(1234), node_id: 1, harness_id: None };
    let refused = tools.list_public_pods(&no_node).unwrap_err();
    assert!(matches!(refused, AgentToolsError::Store(StoreError::NotFound(m)) if m == "node identity"));
}

#[test]
fn slug_lookup_reports_missing_pods_by_slug() {
    let tools = tools();
    assert_eq!(tools.pod_by_slug("shared", Some(TENANT)).unwrap().id, 3);
    let refused = tools.pod_by_slug("other", Some(TENANT)).unwrap_err();
    assert!(matches!(refused, AgentToolsError::Store(StoreError::NotFound(m)) if m == "pod other"));
}

#[test]
fn owner_may_subscribe_and_manage_roles() {
    let tools = tools();
    assert_eq!(
        tools.pod_allowed_actions(&ctx(None), 1).unwrap(),
        vec![
            PodAllowedAction::Subscribe,
            PodAllowedAction::RoleList,
            PodAllowedAction::VisibilitySet,
            PodAllowedAction::RoleGrant,
            PodAllowedAction::RoleRevoke,
        ]
    );
    assert!(tools.pod_allowed_actions(&ctx(Some(50)), 1).unwrap().is_empty());
}

#[test]
fn roles_are_listed_by_grant_instant_then_user() {
    let tools = tools();
    let users: Vec<u128> = tools.list_pod_roles(&ctx(None), 1).unwrap().iter().map(|a| a.user_id).collect();
    assert_eq!(users, vec![20, USER, 30]);
}

#[test]
fn joining_twice_keeps_one_subscription() {
    let mut tools = tools();
    let first = tools.subscribe_local_pod(&ctx(None), 1).unwrap();
    assert_eq!(first.user_id, USER);
    assert_eq!(first.pod_slug, "rust");
    assert_eq!(first.origin_node_id, 900);
    assert!(!first.is_priority);
    let second = tools.subscribe_local_pod(&ctx(None), 1).unwrap();
    assert_eq!(second.id, first.id);
    assert_eq!(tools.store.subscriptions.len(), 1);
    assert_eq!(
        tools.pod_allowed_actions(&ctx(None), 1).unwrap()[..2],
        [PodAllowedAction::Unsubscribe, PodAllowedAction::SubscriptionSet]
    );
}

#[test]
fn join_by_slug_is_attributed_to_the_harness() {
    let mut tools = tools();
    tools.join_pod(&ctx(Some(50)), "shared").unwrap();
    assert_eq!(tools.store.subscriptions.len(), 1);
    assert_eq!(tools.store.harness_write_audit[0].operation, HarnessWriteOperation::JoinPod);
    assert_eq!(tools.store.harness_write_audit[0].pod_id, Some(3));
    let refused = tools.join_pod(&ctx(Some(50)), "rust").unwrap_err();
    assert!(matches!(refused, AgentToolsError::Forbidden { reason } if reason.starts_with("harness grant does not include Pod ")));
}

#[test]
fn unsubscribing_keeps_pod_roles() {
    let mut tools = tools();
    tools.subscribe_local_pod(&ctx(None), 1).unwrap();
    tools.set_priority_subscription(&ctx(None), 1, true).unwrap();
    assert!(tools.store.subscriptions[0].is_priority);
    let removed = tools.unsubscribe_pod(&ctx(None), 1).unwrap();
    assert!(removed.is_priority);
    assert!(tools.store.subscriptions.is_empty());
    assert_eq!(tools.store.pod_roles.len(), 3);
    let again = tools.unsubscribe_pod(&ctx(None), 1).unwrap_err();
    assert!(matches!(again, AgentToolsError::Store(StoreError::NotFound(m)) if m == "Subscription"));
}

#[test]
fn joining_a_pod_of_another_tenant_crosses_the_boundary() {
    let mut tools = tools();
    let refused = tools.subscribe_local_pod(&ctx(None), 2).unwrap_err();
    assert!(matches!(refused, AgentToolsError::Store(StoreError::TenantBoundary)));
    let missing = tools.subscribe_local_pod(&ctx(None), 77).unwrap_err();
    assert!(matches!(missing, AgentToolsError::Store(StoreError::NotFound(m)) if m == "pod 00000000-0000-0000-0000-00000000004d"));
}

#[test]
fn subscription_reads_are_limited_to_their_owner() {
    let mut tools = tools();
    let sub = tools.subscribe_local_pod(&ctx(None), 1).unwrap();
    assert_eq!(tools.subscription(&ctx(None), sub.id).unwrap().id, sub.id);
    assert_eq!(tools.subscription_for_pod(&ctx(None), 1).unwrap().id, sub.id);
    let stranger = AuthContext { user_id: Some(11), tenant_id: Some(TENANT), node_id: 900, harness_id: None };
    assert!(matches!(tools.subscription(&stranger, sub.id).unwrap_err(), AgentToolsError::Store(StoreError::NotFound(_))));
}

#[test]
fn sync_failures_are_recorded_on_the_callers_subscription() {
    let mut tools = tools();
    let sub = tools.subscribe_local_pod(&ctx(None), 1).unwrap();
    let updated = tools
        .record_subscription_sync_failure(&ctx(None), sub.id, "timeout".to_string(), "origin did not answer".to_string(), true, 42)
        .unwrap();
    let failure = updated.last_sync_failure.unwrap();
    assert_eq!(failure.code, "timeout");
    assert!(failure.retryable);
    assert_eq!(failure.occurred_at, 42);
    assert!(tools.store.subscriptions[0].last_sync_failure.is_some());
    let stranger = AuthContext { user_id: Some(11), tenant_id: Some(TENANT), node_id: 900, harness_id: None };
    let refused = tools
        .record_subscription_sync_failure(&stranger, sub.id, "x".to_string(), "y".to_string(), false, 1)
        .unwrap_err();
    assert!(matches!(refused, AgentToolsError::Store(StoreError::NotFound(m)) if m.starts_with("Subscription ")));
}

#[test]
fn harness_listing_narrows_the_tenant_listing() {
    let tools = tools();
    let tenant = ids(&tools.list_pods(Some(TENANT)).unwrap());
    let scoped = ids(&tools.list_pods_for_harness(&ctx(Some(50))).unwrap());
    assert!(scoped.iter().all(|id| tenant.contains(id)));
    assert_eq!(ids(&tools.list_pods_for_harness(&ctx(None)).unwrap()), tenant);
}
