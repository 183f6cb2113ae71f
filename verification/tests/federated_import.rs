use stumble_core::federated_import::{project_imported_placement, project_imported_pod, project_imported_submission, project_imported_tombstone};
use stumble_core::error::{AgentToolsError, StoreError};
use stumble_core::store::Store;
use stumble_core::types::{
    AcceptedPlacementProjection, AuthContext, EventLog, PlacementTombstone, Pod, Submission, SubmissionPod, Visibility,
};

const ORIGIN_NODE: u128 = 0x77;

fn context(tenant_id: u128) -> AuthContext {
    AuthContext { user_id: None, tenant_id: Some(tenant_id), node_id: 1, harness_id: None }
}

fn public_pod(id: u128, tenant_id: u128, slug: &str) -> Pod {
    Pod {
        id,
        tenant_id: Some(tenant_id),
        slug: slug.to_string(),
        name: slug.to_string(),
        description: String::new(),
        visibility: Visibility::Public,
        origin_node_id: None,
        created_at: 0,
    }
}

fn submission(id: u128, tenant_id: u128, url: &str) -> Submission {
    Submission {
        id,
        tenant_id: Some(tenant_id),
        url: url.to_string(),
        canonical_url: url.to_string(),
        title: url.to_string(),
        description: None,
        domain: "example.com".to_string(),
        submitted_by: None,
        discovered_by_crawler: false,
        submitter_note: None,
        summary: None,
        tags: Vec::new(),
        created_at: 0,
    }
}

fn copy(x: &Submission) -> Submission {
    Submission {
        id: x.id,
        tenant_id: x.tenant_id,
        url: x.url.clone(),
        canonical_url: x.canonical_url.clone(),
        title: x.title.clone(),
        description: x.description.clone(),
        domain: x.domain.clone(),
        submitted_by: x.submitted_by,
        discovered_by_crawler: x.discovered_by_crawler,
        submitter_note: x.submitter_note.clone(),
        summary: x.summary.clone(),
        tags: x.tags.clone(),
        created_at: x.created_at,
    }
}

fn event(pod_slug: &str, event_type: &str) -> EventLog {
    EventLog {
        event_id: 900,
        tenant_id: None,
        pod_slug: pod_slug.to_string(),
        event_type: event_type.to_string(),
        author_node_id: ORIGIN_NODE,
        previous_event_hash: None,
        content_hash: String::new(),
        payload: String::new(),
        signature: String::new(),
        created_at: 50,
        imported_from_peer_id: None,
        verified: true,
    }
}

fn accepted(content_item_id: u128, pod_id: u128) -> AcceptedPlacementProjection {
    AcceptedPlacementProjection { content_item_id, pod_id, origin_node_id: ORIGIN_NODE, accepted_at: 40 }
}

fn mapped(store: &Store, tenant_id: u128, origin_id: u128) -> Option<u128> {
    store
        .federated_content_item_ids
        .iter()
        .find(|l| l.tenant_id == Some(tenant_id) && l.origin_node_id == ORIGIN_NODE && l.origin_content_item_id == origin_id)
        .map(|l| l.local_content_item_id)
}

fn linked(store: &Store, pod_id: u128, submission_id: u128) -> bool {
    store.submission_pods.iter().any(|link| link.pod_id == pod_id && link.submission_id == submission_id)
}

#[test]
fn federated_tombstones_resolve_ids_within_the_importing_tenant() {
    let (tenant_a, tenant_b) = (1u128, 2u128);
    let mut pod_a = public_pod(10, tenant_a, "shared-pod");
    pod_a.origin_node_id = Some(ORIGIN_NODE);
    let mut pod_b = public_pod(20, tenant_b, "shared-pod");
    pod_b.origin_node_id = Some(ORIGIN_NODE);
    let origin = submission(500, tenant_a, "https://example.com/item");
    let local_a = submission(501, tenant_a, "https://example.com/item");
    let local_b = submission(502, tenant_b, "https://example.com/item");
    let mut store = Store::new();
    store.pods.push(pod_a);
    store.pods.push(pod_b);
    store.submissions.push(copy(&local_a));
    store.submissions.push(copy(&local_b));
    let placed = event("shared-pod", "content_item_placed");
    project_imported_placement(&mut store, &context(tenant_a), &placed, copy(&origin), accepted(origin.id, 10)).unwrap();
    project_imported_placement(&mut store, &context(tenant_b), &placed, copy(&origin), accepted(origin.id, 10)).unwrap();
    let tombstone = PlacementTombstone { content_item_id: origin.id, origin_placement: accepted(origin.id, 10), withdrawn_at: 60 };
    project_imported_tombstone(&mut store, &context(tenant_a), &event("shared-pod", "placement_tombstoned"), tombstone).unwrap();
    assert!(!linked(&store, 10, local_a.id));
    assert!(linked(&store, 20, local_b.id));
    assert_eq!(store.placement_tombstones.len(), 1);
    assert_eq!(store.placement_tombstones[0].content_item_id, local_a.id);
}

#[test]
fn unmapped_federated_tombstone_never_treats_an_origin_id_as_local() {
    let tenant_id = 1u128;
    let pod = public_pod(10, tenant_id, "unmapped-pod");
    let local = submission(700, tenant_id, "https://local.example/item");
    let mut store = Store::new();
    store.pods.push(pod);
    store.submissions.push(copy(&local));
    store.submission_pods.push(SubmissionPod { submission_id: local.id, pod_id: 10 });
    let tombstone = PlacementTombstone { content_item_id: local.id, origin_placement: accepted(local.id, 10), withdrawn_at: 60 };
    project_imported_tombstone(&mut store, &context(tenant_id), &event("unmapped-pod", "placement_tombstoned"), tombstone).unwrap();
    assert!(linked(&store, 10, local.id));
}

#[test]
fn federated_content_id_collision_cannot_alias_a_same_tenant_item() {
    let tenant_id = 1u128;
    let mut pod = public_pod(10, tenant_id, "remote-collision-pod");
    pod.origin_node_id = Some(ORIGIN_NODE);
    let origin_id = 800u128;
    let local = submission(origin_id, tenant_id, "https://local.example/item");
    let remote = submission(origin_id, tenant_id, "https://remote.example/item");
    let mut store = Store::new();
    store.pods.push(pod);
    store.submissions.push(copy(&local));
    project_imported_placement(&mut store, &context(tenant_id), &event("remote-collision-pod", "content_item_placed"), copy(&remote), accepted(origin_id, 10))
        .unwrap();
    let kept = store.submissions.iter().find(|x| x.id == local.id).unwrap();
    assert_eq!(kept.canonical_url, local.canonical_url);
    let mapped_id = mapped(&store, tenant_id, origin_id).unwrap();
    assert_ne!(mapped_id, origin_id);
    assert_eq!(store.submissions.iter().find(|x| x.id == mapped_id).unwrap().canonical_url, remote.canonical_url);
}

#[test]
fn federated_content_id_collision_cannot_overwrite_another_tenant() {
    let (tenant_a, tenant_b) = (1u128, 2u128);
    let mut pod_b = public_pod(20, tenant_b, "tenant-b-remote-pod");
    pod_b.origin_node_id = Some(ORIGIN_NODE);
    let origin_id = 800u128;
    let tenant_a_item = submission(origin_id, tenant_a, "https://tenant-a.example/item");
    let remote = submission(origin_id, tenant_b, "https://remote.example/tenant-b-item");
    let mut store = Store::new();
    store.pods.push(pod_b);
    store.submissions.push(copy(&tenant_a_item));
    project_imported_placement(&mut store, &context(tenant_b), &event("tenant-b-remote-pod", "content_item_placed"), copy(&remote), accepted(origin_id, 20))
        .unwrap();
    assert_eq!(store.submissions.iter().find(|x| x.id == origin_id).unwrap().tenant_id, Some(tenant_a));
    let tenant_b_item = store
        .submissions
        .iter()
        .find(|x| x.tenant_id == Some(tenant_b) && x.canonical_url == remote.canonical_url)
        .unwrap();
    assert_ne!(tenant_b_item.id, origin_id);
}

#[test]
fn federated_content_deduplicates_canonical_urls_only_within_the_tenant() {
    let tenant_id = 1u128;
    let mut pod = public_pod(10, tenant_id, "canonical-dedupe-pod");
    pod.origin_node_id = Some(ORIGIN_NODE);
    let local = submission(901, tenant_id, "https://canonical.example/item");
    let remote = submission(902, tenant_id, "https://canonical.example/item");
    let mut store = Store::new();
    store.pods.push(pod);
    store.submissions.push(copy(&local));
    project_imported_placement(&mut store, &context(tenant_id), &event("canonical-dedupe-pod", "content_item_placed"), copy(&remote), accepted(remote.id, 10))
        .unwrap();
    assert_eq!(store.submissions.len(), 1);
    assert_eq!(mapped(&store, tenant_id, remote.id), Some(local.id));
}

#[test]
fn an_imported_item_for_an_unknown_pod_adds_the_pod_to_the_tenant() {
    let mut store = Store::new();
    let remote = submission(902, 9, "https://remote.example/a");
    let local = project_imported_submission(&mut store, &context(1), &event("fresh-pod", "link_submitted"), copy(&remote)).unwrap();
    assert_eq!(store.pods.len(), 1);
    let pod = &store.pods[0];
    assert_eq!((pod.slug.as_str(), pod.tenant_id, pod.visibility, pod.origin_node_id), ("fresh-pod", Some(1), Visibility::Public, Some(ORIGIN_NODE)));
    assert_eq!(pod.description, "Imported public pod from a federated node.");
    assert_eq!(store.submissions[0].tenant_id, Some(1));
    assert_ne!(local, remote.id);
    assert!(linked(&store, pod.id, local));
    let again = project_imported_submission(&mut store, &context(1), &event("fresh-pod", "link_submitted"), copy(&remote)).unwrap();
    assert_eq!(again, local);
    assert_eq!(store.submission_pods.len(), 1);
    assert_eq!(store.federated_content_item_ids.len(), 1);
}

#[test]
fn an_imported_pod_cannot_take_a_slug_the_tenant_uses() {
    let mut store = Store::new();
    store.pods.push(public_pod(10, 1, "taken"));
    let err = project_imported_pod(&mut store, &context(1), ORIGIN_NODE, public_pod(99, 5, "taken")).unwrap_err();
    assert!(matches!(err, AgentToolsError::Store(StoreError::Duplicate(m)) if m == "Pod slug taken"));
    let id = project_imported_pod(&mut store, &context(2), ORIGIN_NODE, public_pod(99, 5, "taken")).unwrap();
    assert_ne!(id, 99);
    assert_eq!(store.pods[1].tenant_id, Some(2));
    assert_eq!(project_imported_pod(&mut store, &context(2), ORIGIN_NODE, public_pod(98, 5, "taken")).unwrap(), id);
}

#[test]
fn a_tombstone_must_match_the_recorded_placement() {
    let tenant_id = 1u128;
    let mut pod = public_pod(10, tenant_id, "p");
    pod.origin_node_id = Some(ORIGIN_NODE);
    let mut store = Store::new();
    store.pods.push(pod);
    let remote = submission(902, 9, "https://remote.example/a");
    project_imported_placement(&mut store, &context(tenant_id), &event("p", "content_item_placed"), copy(&remote), accepted(remote.id, 10)).unwrap();
    let mut other = accepted(remote.id, 10);
    other.accepted_at = 41;
    let err = project_imported_tombstone(
        &mut store,
        &context(tenant_id),
        &event("p", "placement_tombstoned"),
        PlacementTombstone { content_item_id: remote.id, origin_placement: other, withdrawn_at: 60 },
    )
    .unwrap_err();
    assert!(matches!(err, AgentToolsError::Store(StoreError::Validation(m))
        if m == "Placement Tombstone does not match accepted Origin Placement evidence"));
    let forged = PlacementTombstone { content_item_id: 1, origin_placement: accepted(remote.id, 10), withdrawn_at: 60 };
    let err = project_imported_tombstone(&mut store, &context(tenant_id), &event("p", "placement_tombstoned"), forged).unwrap_err();
    assert!(matches!(err, AgentToolsError::Store(StoreError::Validation(m))
        if m == "signed Placement Tombstone does not match its Origin Placement"));
    assert_eq!(store.submission_pods.len(), 1);
}
