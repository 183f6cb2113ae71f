use stumble_core::agent_tools::AgentTools;
use stumble_core::candidate_submission::CandidateEvidence;
use stumble_core::candidates::{Candidate, CandidateAllowedAction, CandidateReviewState, CandidateSubmission, CandidateSubmissionTarget};
use stumble_core::error::{AgentToolsError, StoreError};
use stumble_core::store::Store;
use stumble_core::types::{
    AgentHarness, AgentHarnessKind, AuthContext, HarnessCapability, HarnessGrant, NodeIdentity, Pod, PodPlacement,
    PodPlacementStatus, PodRole, PodRoleAssignment, Visibility,
};

const USER: u128 = 10;
const CURATOR: u128 = 1;
const SUBMITTER: u128 = 2;

fn tools() -> AgentTools {
    let mut store = Store::new();
    store.node_identities.push(NodeIdentity {
        id: 900,
        tenant_id: None,
        display_name: "Home".to_string(),
        public_key: "pk".to_string(),
        created_at: 0,
    });
    for id in [100u128, 200] {
        store.pods.push(Pod {
            id,
            tenant_id: None,
            slug: format!("pod-{id}"),
            name: "Pod".to_string(),
            description: String::new(),
            visibility: Visibility::Private,
            origin_node_id: None,
            created_at: 0,
        });
    }
    store.pod_roles.push(PodRoleAssignment { pod_id: 100, user_id: USER, role: PodRole::Owner, created_at: 0 });
    store.agent_harnesses.push(AgentHarness {
        id: CURATOR,
        user_id: USER,
        tenant_id: None,
        label: "curator".to_string(),
        kind: AgentHarnessKind::Interactive,
        grant: HarnessGrant { capabilities: vec![HarnessCapability::PodCuration], pod_ids: Some(vec![100]) },
        created_at: 0,
        revoked_at: None,
    });
    store.agent_harnesses.push(AgentHarness {
        id: SUBMITTER,
        user_id: USER,
        tenant_id: None,
        label: "submitter".to_string(),
        kind: AgentHarnessKind::Interactive,
        grant: HarnessGrant { capabilities: vec![HarnessCapability::CandidateSubmission], pod_ids: None },
        created_at: 0,
        revoked_at: None,
    });
    store.candidates.push(Candidate {
        id: 7,
        tenant_id: None,
        source_url: "https://a.example/x".to_string(),
        canonical_url: "https://a.example/x".to_string(),
        review_state: CandidateReviewState::Pending,
        created_at: 0,
    });
    store.candidates.push(Candidate {
        id: 8,
        tenant_id: None,
        source_url: "https://b.example/y".to_string(),
        canonical_url: "https://b.example/y".to_string(),
        review_state: CandidateReviewState::Pending,
        created_at: 0,
    });
    store.candidate_submissions.push(CandidateSubmission {
        id: 71,
        candidate_id: 7,
        tenant_id: None,
        submitted_by: SUBMITTER,
        target: CandidateSubmissionTarget::PodPlacements { pod_ids: vec![100] },
        evidence: evidence(),
        created_at: 5,
    });
    store.candidate_submissions.push(CandidateSubmission {
        id: 72,
        candidate_id: 7,
        tenant_id: None,
        submitted_by: SUBMITTER,
        target: CandidateSubmissionTarget::PodPlacements { pod_ids: vec![100] },
        evidence: evidence(),
        created_at: 3,
    });
    store.candidate_submissions.push(CandidateSubmission {
        id: 81,
        candidate_id: 8,
        tenant_id: None,
        submitted_by: SUBMITTER,
        target: CandidateSubmissionTarget::PodPlacements { pod_ids: vec![200] },
        evidence: evidence(),
        created_at: 1,
    });
    store.pod_placements.push(PodPlacement { candidate_id: 7, pod_id: 100, status: PodPlacementStatus::Pending, updated_at: 0 });
    AgentTools::new(store)
}

fn ctx(harness_id: Option<u128>) -> AuthContext {
    AuthContext { user_id: Some(USER), tenant_id: None, node_id: 900, harness_id }
}

#[test]
fn curator_sees_only_candidates_proposed_into_its_pods() {
    let tools = tools();
    let ids: Vec<u128> = tools.list_candidates(&ctx(Some(CURATOR))).unwrap().iter().map(|c| c.id).collect();
    assert_eq!(ids, vec![7]);
    let all: Vec<u128> = tools.list_candidates(&ctx(Some(SUBMITTER))).unwrap().iter().map(|c| c.id).collect();
    assert_eq!(all, vec![7, 8]);
}

#[test]
fn inspection_orders_evidence_and_offers_curation() {
    let tools = tools();
    let inspection = tools.inspect_candidate(&ctx(Some(CURATOR)), 7).unwrap();
    let ids: Vec<u128> = inspection.submissions.iter().map(|s| s.id).collect();
    assert_eq!(ids, vec![72, 71]);
    assert_eq!(inspection.placements.len(), 1);
    assert_eq!(
        inspection.allowed_actions,
        vec![
            CandidateAllowedAction::EvaluateCandidate,
            CandidateAllowedAction::RouteCandidatePlacement,
            CandidateAllowedAction::ReviewCandidatePlacement,
        ]
    );
    let submitter = tools.inspect_candidate(&ctx(Some(SUBMITTER)), 7).unwrap();
    assert_eq!(submitter.allowed_actions, vec![CandidateAllowedAction::SubmitCandidateEvidence]);
}

#[test]
fn hidden_evidence_is_refused() {
    let tools = tools();
    let refused = tools.inspect_candidate(&ctx(Some(CURATOR)), 8).unwrap_err();
    assert!(matches!(refused, AgentToolsError::Forbidden { reason } if reason == "Harness Grant cannot inspect this Candidate evidence"));
    let missing = tools.inspect_candidate(&ctx(Some(CURATOR)), 9).unwrap_err();
    assert!(matches!(missing, AgentToolsError::Store(StoreError::NotFound(m)) if m == "Candidate"));
}

fn evidence() -> CandidateEvidence {
    CandidateEvidence {
        source_url: "https://e.example/x".to_string(),
        referrer_url: None,
        discovery_method: "search".to_string(),
        harness_idempotency_key: "h".to_string(),
        client_idempotency_key: "c".to_string(),
    }
}
