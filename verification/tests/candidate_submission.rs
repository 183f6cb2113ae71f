use stumble_core::agent_tools::AgentTools;
use stumble_core::candidate_submission::{
    validate_candidate_submission, CandidateEvidence, CandidateTaskContext, PlacementProposal, SubmitCandidateRequest,
    SubmitCandidateTarget,
};
use stumble_core::candidates::{CandidateReviewState, CandidateSubmissionTarget};
use stumble_core::error::{AgentToolsError, StoreError};
use stumble_core::store::Store;
use stumble_core::types::{
    AgentHarness, AgentHarnessKind, AuthContext, HarnessCapability, HarnessGrant, NodeIdentity, Pod, Visibility,
};

const USER: u128 = 10;

fn pod(id: u128) -> Pod {
    Pod {
        id,
        tenant_id: None,
        slug: format!("pod-{id}"),
        name: "Pod".to_string(),
        description: String::new(),
        visibility: Visibility::Private,
        origin_node_id: None,
        created_at: 0,
    }
}

fn harness(id: u128, kind: AgentHarnessKind) -> AgentHarness {
    AgentHarness {
        id,
        user_id: USER,
        tenant_id: None,
        label: "agent".to_string(),
        kind,
        grant: HarnessGrant { capabilities: vec![HarnessCapability::CandidateSubmission], pod_ids: None },
        created_at: 0,
        revoked_at: None,
    }
}

fn tools() -> AgentTools {
    let mut store = Store::new();
    store.pods.push(pod(100));
    store.pods.push(pod(101));
    store.node_identities.push(NodeIdentity {
        id: 1,
        tenant_id: None,
        display_name: "home".to_string(),
        public_key: "pk".to_string(),
        created_at: 0,
    });
    store.agent_harnesses.push(harness(5, AgentHarnessKind::Interactive));
    store.agent_harnesses.push(harness(6, AgentHarnessKind::Unattended));
    AgentTools::new(store)
}

fn ctx(harness_id: u128) -> AuthContext {
    AuthContext { user_id: Some(USER), tenant_id: None, node_id: 1, harness_id: Some(harness_id) }
}

fn evidence(url: &str, key: &str) -> CandidateEvidence {
    CandidateEvidence {
        source_url: url.to_string(),
        referrer_url: None,
        discovery_method: "search".to_string(),
        harness_idempotency_key: key.to_string(),
        client_idempotency_key: format!("client-{key}"),
    }
}

fn to_pods(url: &str, key: &str, pods: &[u128]) -> SubmitCandidateRequest {
    SubmitCandidateRequest {
        target: SubmitCandidateTarget::PodPlacements {
            placements: pods.iter().map(|id| PlacementProposal { pod_id: *id, reason: "fits".to_string() }).collect(),
            task_context: None,
        },
        evidence: evidence(url, key),
    }
}

fn validation_message(e: AgentToolsError) -> String {
    match e {
        AgentToolsError::Store(StoreError::Validation(m)) => m,
        other => panic!("unexpected {other:?}"),
    }
}

#[test]
fn a_submission_is_recorded_against_its_canonical_candidate() {
    let mut tools = tools();
    let first = tools.submit_candidate(&ctx(5), to_pods("HTTPS://E.example/x", "k1", &[100, 101]), 50).unwrap();
    assert_eq!(tools.store.candidates.len(), 1);
    let candidate = &tools.store.candidates[0];
    assert_eq!(candidate.canonical_url, "https://e.example/x");
    assert_eq!(candidate.review_state, CandidateReviewState::Pending);
    assert_eq!(first.candidate_id, candidate.id);
    assert_eq!(first.submitted_by, 5);
    assert!(matches!(&first.target, CandidateSubmissionTarget::PodPlacements { pod_ids } if *pod_ids == vec![100, 101]));
    let second = tools.submit_candidate(&ctx(5), to_pods("https://e.example/x", "k2", &[100]), 60).unwrap();
    assert_eq!(second.candidate_id, first.candidate_id);
    assert_eq!(tools.store.candidates.len(), 1);
    assert_eq!(tools.store.candidate_submissions.len(), 2);
}

#[test]
fn a_repeated_key_returns_the_stored_submission_or_conflicts() {
    let mut tools = tools();
    let first = tools.submit_candidate(&ctx(5), to_pods("https://e.example/x", "k1", &[100]), 50).unwrap();
    let again = tools.submit_candidate(&ctx(5), to_pods("https://e.example/x", "k1", &[100]), 70).unwrap();
    assert_eq!(again.id, first.id);
    assert_eq!(tools.store.candidate_submissions.len(), 1);
    let conflict = tools.submit_candidate(&ctx(5), to_pods("https://e.example/y", "k1", &[100]), 80).unwrap_err();
    assert!(matches!(conflict, AgentToolsError::CandidateIdempotencyConflict));
}

#[test]
fn evidence_and_placements_are_checked() {
    let tools = tools();
    let blank = SubmitCandidateRequest { evidence: evidence("https://e.example/x", " "), ..to_pods("x", "k", &[100]) };
    assert_eq!(
        validation_message(validate_candidate_submission(&tools.store, &ctx(5), &blank).unwrap_err()),
        "Candidate Submission idempotency keys must not be empty"
    );
    let creds = to_pods("https://user:pw@e.example/x", "k", &[100]);
    assert!(matches!(validate_candidate_submission(&tools.store, &ctx(5), &creds),
        Err(AgentToolsError::BadUrl(m)) if m == "Candidate evidence URLs must not contain credentials"));
    assert!(matches!(validate_candidate_submission(&tools.store, &ctx(5), &to_pods("nope", "k", &[100])), Err(AgentToolsError::BadUrl(_))));
    assert_eq!(
        validation_message(validate_candidate_submission(&tools.store, &ctx(5), &to_pods("https://e.example", "k", &[])).unwrap_err()),
        "Pod-targeted Candidate Submission requires at least one placement"
    );
    assert_eq!(
        validation_message(validate_candidate_submission(&tools.store, &ctx(5), &to_pods("https://e.example", "k", &[100, 100])).unwrap_err()),
        "Candidate Submission cannot propose the same Pod twice"
    );
    assert!(matches!(validate_candidate_submission(&tools.store, &ctx(5), &to_pods("https://e.example", "k", &[999])),
        Err(AgentToolsError::Store(StoreError::NotFound(m))) if m == "Pod"));
    assert_eq!(validate_candidate_submission(&tools.store, &ctx(5), &to_pods("https://E.example", "k", &[100])).unwrap(), "https://e.example/");
}

#[test]
fn unattended_harnesses_need_a_leased_task() {
    let mut tools = tools();
    let owner = AuthContext { user_id: Some(USER), tenant_id: None, node_id: 1, harness_id: None };
    assert!(matches!(tools.submit_candidate(&owner, to_pods("https://e.example", "k", &[100]), 0), Err(AgentToolsError::CandidateHarnessRequired)));
    assert!(matches!(tools.submit_candidate(&ctx(6), to_pods("https://e.example", "k", &[100]), 0), Err(AgentToolsError::CandidateTaskRequired)));
    let mut with_task = to_pods("https://e.example", "k", &[100]);
    with_task.target = SubmitCandidateTarget::PodPlacements {
        placements: vec![PlacementProposal { pod_id: 100, reason: "fits".to_string() }],
        task_context: Some(CandidateTaskContext { task_id: 77, package_version: 1 }),
    };
    let missing = tools.submit_candidate(&ctx(6), with_task, 0).unwrap_err();
    assert!(matches!(missing, AgentToolsError::Store(StoreError::NotFound(m)) if m == "Discovery Task"));
    assert!(tools.store.candidate_submissions.is_empty());
}
