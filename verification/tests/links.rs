use stumble_core::agent_tools::AgentTools;
use stumble_core::error::{AgentToolsError, StoreError};
use stumble_core::links::{CrawlCandidateStatus, SubmitLinkRequest};
use stumble_core::store::Store;
use stumble_core::types::{
    AgentHarness, AgentHarnessKind, AuthContext, HarnessCapability, HarnessGrant, HarnessWriteOperation, NodeIdentity, Pod,
    SubmissionAsset, Visibility,
};

fn pod(id: u128, slug: &str, tenant_id: Option<u128>) -> Pod {
    Pod {
        id,
        tenant_id,
        slug: slug.to_string(),
        name: slug.to_string(),
        description: String::new(),
        visibility: Visibility::Private,
        origin_node_id: None,
        created_at: 0,
    }
}

fn tools() -> AgentTools {
    let mut store = Store::new();
    store.pods.push(pod(100, "reading", None));
    store.pods.push(pod(101, "other", Some(9)));
    store.agent_harnesses.push(AgentHarness {
        id: 5,
        user_id: 10,
        tenant_id: None,
        label: "crawler".to_string(),
        kind: AgentHarnessKind::Unattended,
        grant: HarnessGrant { capabilities: vec![HarnessCapability::DiscoveryTasks], pod_ids: None },
        created_at: 0,
        revoked_at: None,
    });
    AgentTools::new(store)
}

fn owner() -> AuthContext {
    AuthContext { user_id: Some(10), tenant_id: None, node_id: 1, harness_id: None }
}

fn link(url: &str) -> SubmitLinkRequest {
    SubmitLinkRequest {
        url: url.to_string(),
        title: None,
        description: Some("about it".to_string()),
        note: Some("read later".to_string()),
        tags: vec!["rust".to_string()],
        discovered_by_crawler: false,
    }
}

#[test]
fn a_link_is_recorded_once_and_linked_once() {
    let mut tools = tools();
    let first = tools.submit_link_to_pod(&owner(), "reading", link("HTTPS://WWW.Example.com/a")).unwrap();
    assert_eq!(first.canonical_url, "https://www.example.com/a");
    assert_eq!(first.url, "HTTPS://WWW.Example.com/a");
    assert_eq!(first.title, "https://www.example.com/a");
    assert_eq!(first.domain, "www.example.com");
    assert_eq!(first.summary.as_deref(), Some("about it"));
    assert_eq!(first.submitter_note.as_deref(), Some("read later"));
    assert_eq!(first.submitted_by, Some(10));
    let again = tools.submit_link_to_pod(&owner(), "reading", link("https://www.example.com/a")).unwrap();
    assert_eq!(again.id, first.id);
    assert_eq!(tools.store.submissions.len(), 1);
    assert_eq!(tools.store.submission_pods.len(), 1);
    assert_eq!(tools.store.submission_pods[0].pod_id, 100);
}

#[test]
fn a_link_must_parse_and_stay_in_its_tenant() {
    let mut tools = tools();
    assert!(matches!(tools.submit_link_to_pod(&owner(), "reading", link("not a url")), Err(AgentToolsError::BadUrl(_))));
    let missing = tools.submit_link_to_pod(&owner(), "nope", link("https://a.example")).unwrap_err();
    assert!(matches!(missing, AgentToolsError::Store(StoreError::NotFound(m)) if m == "pod nope"));
    assert!(tools.store.submissions.is_empty());
}

#[test]
fn a_crawler_candidate_is_pending_under_its_canonical_url() {
    let mut tools = tools();
    let ctx = AuthContext { user_id: Some(10), tenant_id: None, node_id: 1, harness_id: Some(5) };
    let mut request = link("https://192.168.0.1/x");
    request.title = None;
    let c = tools.create_crawl_candidate(&ctx, "reading", 77, request).unwrap();
    assert_eq!(c.pod_id, 100);
    assert_eq!(c.crawler_source_id, 77);
    assert_eq!(c.title, "Untitled crawler candidate");
    assert_eq!(c.domain, "unknown");
    assert_eq!(c.status, CrawlCandidateStatus::Pending);
    assert_eq!(tools.store.crawl_candidates.len(), 1);
    assert_eq!(tools.store.crawl_candidates[0].id, c.id);
    assert_eq!(tools.store.harness_write_audit[0].operation, HarnessWriteOperation::CreateCrawlCandidate);
    let refused = tools.submit_link_to_pod(&ctx, "reading", link("https://a.example")).unwrap_err();
    assert!(matches!(refused, AgentToolsError::Forbidden { reason } if reason == "harness grant lacks candidate_submission"));
}

fn with_node(tools: &mut AgentTools) {
    tools.store.node_identities.push(NodeIdentity {
        id: 1,
        tenant_id: None,
        display_name: "home".to_string(),
        public_key: "pk".to_string(),
        created_at: 0,
    });
}

#[test]
fn removing_the_last_link_purges_the_submission() {
    let mut tools = tools();
    with_node(&mut tools);
    tools.store.pods.push(pod(102, "later", None));
    let x = tools.submit_link_to_pod(&owner(), "reading", link("https://example.com/a")).unwrap();
    tools.submit_link_to_pod(&owner(), "later", link("https://example.com/a")).unwrap();
    tools.store.submission_assets.push(SubmissionAsset {
        id: 1,
        submission_id: x.id,
        kind: "image".to_string(),
        url: "https://example.com/a.png".to_string(),
    });
    assert_eq!(tools.remove_submission_from_pod(&owner(), "reading", x.id).unwrap(), false);
    assert_eq!(tools.store.submission_pods.len(), 1);
    assert_eq!(tools.store.submissions.len(), 1);
    assert_eq!(tools.store.submission_assets.len(), 1);
    assert_eq!(tools.remove_submission_from_pod(&owner(), "later", x.id).unwrap(), true);
    assert!(tools.store.submission_pods.is_empty());
    assert!(tools.store.submissions.is_empty());
    assert!(tools.store.submission_assets.is_empty());
    let again = tools.remove_submission_from_pod(&owner(), "later", x.id).unwrap_err();
    assert!(matches!(again, AgentToolsError::Store(StoreError::NotFound(m))
        if m == format!("submission {} in pod later", uuid(x.id))));
}

fn uuid(id: u128) -> String {
    let h = format!("{id:032x}");
    format!("{}-{}-{}-{}-{}", &h[0..8], &h[8..12], &h[12..16], &h[16..20], &h[20..32])
}

#[test]
fn public_content_removal_is_refused() {
    let mut tools = tools();
    with_node(&mut tools);
    let x = tools.submit_link_to_pod(&owner(), "reading", link("https://example.com/a")).unwrap();
    tools.store.pods[0].visibility = Visibility::Public;
    let err = tools.remove_submission_from_pod(&owner(), "reading", x.id).unwrap_err();
    assert!(matches!(err, AgentToolsError::Store(StoreError::Validation(m))
        if m == "public-content removal requires a Pending Proposal"));
    assert_eq!(tools.store.submission_pods.len(), 1);
}
