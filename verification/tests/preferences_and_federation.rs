use stumble_core::agent_tools::AgentTools;
use stumble_core::error::{AgentToolsError, StoreError};
use stumble_core::preferences::{normalize_unique, UpdatePreferencesRequest};
use stumble_core::store::Store;
use stumble_core::text::{append_decimal, text_less, trim_end_matches_char};
use stumble_core::types::{AuthContext, DiscoveryMode, HarnessWriteOperation, NodeIdentity};

fn ctx(user_id: Option<u128>) -> AuthContext {
    AuthContext { user_id, tenant_id: None, node_id: 900, harness_id: None }
}

fn tools() -> AgentTools {
    let mut store = Store::new();
    store.node_identities.push(NodeIdentity {
        id: 900,
        tenant_id: None,
        display_name: "Home".to_string(),
        public_key: "pk-home".to_string(),
        created_at: 0,
    });
    AgentTools::new(store)
}

#[test]
fn preference_lists_are_normalized_and_length_clamped() {
    let mut tools = tools();
    let prefs = tools
        .update_preferences(
            &ctx(Some(10)),
            UpdatePreferencesRequest {
                interests: Some(vec!["  Rust ".to_string(), "rust".to_string(), "".to_string(), "Verus".to_string()]),
                blocked_topics: None,
                blocked_sources: Some(vec!["Spam.example".to_string()]),
                preferred_brief_length: Some(40),
                preferred_discovery_mode: Some(DiscoveryMode::Serendipity),
            },
        )
        .unwrap();
    assert_eq!(prefs.interests, vec!["rust".to_string(), "verus".to_string()]);
    assert_eq!(prefs.blocked_sources, vec!["spam.example".to_string()]);
    assert!(prefs.blocked_topics.is_empty());
    assert_eq!(prefs.preferred_brief_length, 10);
    assert_eq!(prefs.preferred_discovery_mode, DiscoveryMode::Serendipity);
    let again = tools
        .update_preferences(
            &ctx(Some(10)),
            UpdatePreferencesRequest {
                interests: None,
                blocked_topics: None,
                blocked_sources: None,
                preferred_brief_length: Some(0),
                preferred_discovery_mode: None,
            },
        )
        .unwrap();
    assert_eq!(again.preferred_brief_length, 1);
    assert_eq!(again.interests, vec!["rust".to_string(), "verus".to_string()]);
    assert_eq!(tools.store.user_preferences.len(), 1);
}

#[test]
fn preferences_need_a_user() {
    let mut tools = tools();
    let refused = tools
        .update_preferences(
            &ctx(None),
            UpdatePreferencesRequest {
                interests: None,
                blocked_topics: None,
                blocked_sources: None,
                preferred_brief_length: None,
                preferred_discovery_mode: None,
            },
        )
        .unwrap_err();
    assert!(matches!(refused, AgentToolsError::Store(StoreError::Validation(m)) if m == "preferences require an authenticated user"));
}

#[test]
fn blocking_adds_each_value_once() {
    let mut tools = tools();
    tools.block_topic(&ctx(Some(10)), "crypto".to_string()).unwrap();
    tools.block_topic(&ctx(Some(10)), "crypto".to_string()).unwrap();
    tools.block_source(&ctx(Some(10)), "ads.example".to_string()).unwrap();
    let prefs = &tools.store.user_preferences[0];
    assert_eq!(prefs.blocked_topics, vec!["crypto".to_string()]);
    assert_eq!(prefs.blocked_sources, vec!["ads.example".to_string()]);
    assert_eq!(prefs.preferred_brief_length, 7);
    assert_eq!(prefs.preferred_discovery_mode, DiscoveryMode::DeepMatch);
    tools.block_topic(&ctx(None), "ignored".to_string()).unwrap();
    assert_eq!(tools.store.user_preferences.len(), 1);
    assert!(tools.store.harness_write_audit.iter().all(|a| a.operation != HarnessWriteOperation::UpdatePreferences));
}

#[test]
fn normalize_unique_keeps_first_occurrences() {
    let out = normalize_unique(vec!["B".to_string(), " a ".to_string(), "b".to_string(), "  ".to_string()]);
    assert_eq!(out, vec!["b".to_string(), "a".to_string()]);
}

#[test]
fn node_info_describes_the_tenant_node() {
    let tools = tools();
    let info = tools.node_info(&ctx(None)).unwrap();
    assert_eq!(info.node_id, 900);
    assert_eq!(info.public_key, "pk-home");
    assert_eq!(info.supported_protocol_version, "stumble-federation/1");
}

#[test]
fn well_known_document_lists_endpoints_under_the_base_url() {
    let tools = tools();
    let doc = tools.well_known_node(&ctx(None), "https://home.example//").unwrap();
    assert_eq!(doc.protocol, "stumble-federation/1");
    let names: Vec<&str> = doc.endpoints.iter().map(|(n, _)| n.as_str()).collect();
    assert_eq!(names, vec!["hub_search_pods", "node", "pod_events_template", "pod_manifest_template", "pods"]);
    assert_eq!(doc.endpoints[1].1, "https://home.example/federation/node");
}

#[test]
fn trust_policy_defaults_to_empty() {
    let tools = tools();
    let policy = tools.trust_policy(&ctx(Some(10))).unwrap();
    assert_eq!(policy.user_id, 10);
    assert!(policy.index_nodes.is_empty());
    assert!(policy.blocked_sources.is_empty());
}

#[test]
fn text_helpers_behave_like_std() {
    assert_eq!(trim_end_matches_char("a//", '/'), "a");
    assert_eq!(trim_end_matches_char("///", '/'), "");
    assert!(text_less("abc", "abd"));
    assert!(text_less("ab", "abc"));
    assert!(!text_less("abc", "abc"));
    assert!(!text_less("b", "abc"));
    let mut s = String::from("n=");
    append_decimal(&mut s, 0);
    append_decimal(&mut s, 1_234_567);
    assert_eq!(s, "n=01234567");
}
