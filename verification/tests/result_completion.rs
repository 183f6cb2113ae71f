use stumble_core::agent_tools::AgentTools;
use stumble_core::candidate_submission::CandidateEvidence;
use stumble_core::candidates::{Candidate, CandidateReviewState, CandidateSubmission, CandidateSubmissionTarget};
use stumble_core::result_review::{DiscoveryResultItemActionRequest, ReviewDiscoveryResultItemRequest};
use stumble_core::error::{AgentToolsError, StoreError};
use stumble_core::result_completion::CompleteDiscoveryResultBatchRequest;
use stumble_core::store::Store;
use stumble_core::types::{
    AgentHarness, AgentHarnessKind, AuthContext, DiscoveryPlan, DiscoveryResultBatchState, DiscoveryResultItemAction, DiscoveryTask,
    DiscoveryTaskAttemptOutcome, DiscoveryTaskLease, DiscoveryTaskOrigin, DiscoveryTaskState, DiscoveryTaskTarget,
    HarnessCapability, HarnessGrant, LearnedTasteEvidenceKind, PersonalDiscoveryDeliveryMode, PersonalDiscoverySchedule, Pod,
    NodeIdentity, PodPlacementStatus, PodRole, PodRoleAssignment, TasteEvidenceDirection, Visibility,
};

const USER: u128 = 10;
const WORKER: u128 = 3;
const TASK: u128 = 500;
const PLAN: u128 = 40;

fn submission(id: u128, candidate_id: u128, task_id: u128, submitted_by: u128) -> CandidateSubmission {
    CandidateSubmission {
        id,
        candidate_id,
        tenant_id: None,
        submitted_by,
        target: CandidateSubmissionTarget::PersonalDiscovery { user_id: USER, task_id, discovery_plan_id: PLAN },
        evidence: evidence(),
        created_at: 1,
    }
}

fn tools(origin: DiscoveryTaskOrigin) -> AgentTools {
    let mut store = Store::new();
    store.agent_harnesses.push(AgentHarness {
        id: WORKER,
        user_id: USER,
        tenant_id: None,
        label: "worker".to_string(),
        kind: AgentHarnessKind::Unattended,
        grant: HarnessGrant { capabilities: vec![HarnessCapability::PersonalDiscoveryExecution], pod_ids: None },
        created_at: 0,
        revoked_at: None,
    });
    store.discovery_plans.push(DiscoveryPlan { id: PLAN, user_id: USER, tenant_id: None, created_at: 0 });
    store.discovery_tasks.push(DiscoveryTask {
        id: TASK,
        target: DiscoveryTaskTarget::Personal { plan_id: PLAN },
        origin,
        due_at: 0,
        state: DiscoveryTaskState::Leased(DiscoveryTaskLease { harness_id: WORKER, claimed_at: 100, expires_at: 10_000 }),
        attempts: Vec::new(),
        created_at: 0,
    });
    store.personal_discovery_schedules.push(PersonalDiscoverySchedule {
        id: 9,
        user_id: USER,
        tenant_id: None,
        delivery_mode: PersonalDiscoveryDeliveryMode::NotifyWhenSupported,
        created_at: 0,
    });
    store.candidate_submissions.push(submission(71, 7, TASK, WORKER));
    store.candidate_submissions.push(submission(81, 8, TASK, WORKER));
    store.candidate_submissions.push(submission(91, 9, 999, WORKER));
    AgentTools::new(store)
}

fn worker() -> AuthContext {
    AuthContext { user_id: Some(USER), tenant_id: None, node_id: 1, harness_id: Some(WORKER) }
}

fn request(ids: Vec<u128>) -> CompleteDiscoveryResultBatchRequest {
    CompleteDiscoveryResultBatchRequest { task_id: TASK, submission_ids: ids }
}

#[test]
fn completing_orders_distinct_results_and_completes_the_task() {
    let mut tools = tools(DiscoveryTaskOrigin::PersonalRequest { idempotency_key: "k".to_string(), requested_by: None });
    let batch = tools.complete_discovery_result_batch(&worker(), request(vec![81, 71, 81]), 500).unwrap();
    assert_eq!(batch.task_id, TASK);
    assert_eq!(batch.plan_id, PLAN);
    assert_eq!(batch.user_id, USER);
    assert_eq!(batch.state, DiscoveryResultBatchState::Ready);
    assert_eq!(batch.created_at, 500);
    let items = &tools.store.discovery_result_items;
    assert_eq!(items.len(), 2);
    assert_eq!((items[0].submission_id, items[0].candidate_id, items[0].position), (81, 8, 0));
    assert_eq!((items[1].submission_id, items[1].candidate_id, items[1].position), (71, 7, 1));
    let task = &tools.store.discovery_tasks[0];
    assert_eq!(task.state, DiscoveryTaskState::Completed);
    assert_eq!(task.attempts.len(), 1);
    assert!(matches!(task.attempts[0].outcome, DiscoveryTaskAttemptOutcome::Completed));
    assert_eq!(task.attempts[0].started_at, 100);
    assert!(tools.store.discovery_results_ready_events.is_empty());
    let again = tools.complete_discovery_result_batch(&worker(), request(vec![71]), 600).unwrap();
    assert_eq!(again, batch);
    assert_eq!(tools.store.discovery_result_batches.len(), 1);
    assert_eq!(tools.store.discovery_result_items.len(), 2);
}

#[test]
fn a_scheduled_run_records_its_ready_event() {
    let mut tools = tools(DiscoveryTaskOrigin::PersonalScheduled { schedule_id: 9 });
    let batch = tools.complete_discovery_result_batch(&worker(), request(vec![71]), 500).unwrap();
    let events = &tools.store.discovery_results_ready_events;
    assert_eq!(events.len(), 1);
    assert_eq!(events[0].batch_id, batch.id);
    assert_eq!(events[0].delivery_mode, PersonalDiscoveryDeliveryMode::NotifyWhenSupported);
    assert_eq!(events[0].notification_attempted_at, None);
}

#[test]
fn results_must_belong_to_the_lease() {
    let mut tools = tools(DiscoveryTaskOrigin::PersonalScheduled { schedule_id: 9 });
    let foreign = tools.complete_discovery_result_batch(&worker(), request(vec![71, 91]), 500).unwrap_err();
    assert!(matches!(foreign, AgentToolsError::Store(StoreError::Validation(m))
        if m == "submission is not a task-bound Personal Discovery result for this lease"));
    let missing = tools.complete_discovery_result_batch(&worker(), request(vec![5]), 500).unwrap_err();
    assert!(matches!(missing, AgentToolsError::Store(StoreError::NotFound(m)) if m == "Candidate Submission"));
    let late = tools.complete_discovery_result_batch(&worker(), request(vec![71]), 10_000).unwrap_err();
    assert!(matches!(late, AgentToolsError::TaskLeaseRequired));
    assert!(tools.store.discovery_result_batches.is_empty());
    assert!(matches!(tools.store.discovery_tasks[0].state, DiscoveryTaskState::Leased(_)));
}

fn owner() -> AuthContext {
    AuthContext { user_id: Some(USER), tenant_id: None, node_id: 1, harness_id: None }
}

fn review(batch_id: u128, candidate_id: u128, action: DiscoveryResultItemActionRequest) -> ReviewDiscoveryResultItemRequest {
    ReviewDiscoveryResultItemRequest { batch_id, candidate_id, action }
}

fn completed_with_candidates() -> (AgentTools, u128) {
    let mut tools = tools(DiscoveryTaskOrigin::PersonalRequest { idempotency_key: "k".to_string(), requested_by: None });
    for id in [7u128, 8] {
        tools.store.candidates.push(Candidate {
            id,
            tenant_id: None,
            source_url: format!("https://e.example/{id}"),
            canonical_url: format!("https://e.example/{id}"),
            review_state: CandidateReviewState::Pending,
            created_at: 0,
        });
    }
    let batch = tools.complete_discovery_result_batch(&worker(), request(vec![71, 81]), 500).unwrap();
    (tools, batch.id)
}

#[test]
fn reviewing_a_result_records_and_replaces_actions() {
    let (mut tools, batch_id) = completed_with_candidates();
    let first = tools.review_discovery_result_item(&owner(), review(batch_id, 7, DiscoveryResultItemActionRequest::MoreLikeThis), 600).unwrap();
    assert!(!first.action_replaced);
    assert_eq!(first.batch.id, batch_id);
    let rv = first.item.review.unwrap();
    assert_eq!(rv.action, DiscoveryResultItemAction::MoreLikeThis);
    assert_eq!(rv.reviewed_at, 600);
    assert_eq!(rv.replaced_action, None);
    let evidence = &tools.store.taste_learning_evidence;
    assert_eq!(evidence.len(), 1);
    assert_eq!((evidence[0].batch_id, evidence[0].candidate_id), (batch_id, 7));
    assert_eq!(evidence[0].direction, TasteEvidenceDirection::Supporting);
    let repeat = tools.review_discovery_result_item(&owner(), review(batch_id, 7, DiscoveryResultItemActionRequest::MoreLikeThis), 700).unwrap();
    assert_eq!(repeat.item, first.item);
    assert_eq!(tools.store.taste_learning_evidence.len(), 1);
    let replaced = tools.review_discovery_result_item(&owner(), review(batch_id, 7, DiscoveryResultItemActionRequest::NotForMe), 800).unwrap();
    assert!(replaced.action_replaced);
    let rv = replaced.item.review.unwrap();
    assert_eq!(rv.action, DiscoveryResultItemAction::NotForMe);
    assert_eq!(rv.replaced_action, Some(DiscoveryResultItemAction::MoreLikeThis));
    let evidence = &tools.store.taste_learning_evidence;
    assert_eq!(evidence.len(), 1);
    assert_eq!(evidence[0].direction, TasteEvidenceDirection::Opposing);
    assert_eq!(evidence[0].kind, LearnedTasteEvidenceKind::LessLikeThis);
    let ignored = tools.review_discovery_result_item(&owner(), review(batch_id, 7, DiscoveryResultItemActionRequest::Ignore), 900).unwrap();
    assert!(tools.store.taste_learning_evidence.is_empty());
    assert_eq!(tools.store.discovery_result_items[0], ignored.item);
    assert_eq!(tools.store.discovery_result_items[1].review, None);
}

#[test]
fn adding_a_result_to_a_pod_accepts_it_there() {
    let (mut tools, batch_id) = completed_with_candidates();
    tools.store.pods.push(Pod {
        id: 300,
        tenant_id: None,
        slug: "mine".to_string(),
        name: "Mine".to_string(),
        description: String::new(),
        visibility: Visibility::Private,
        origin_node_id: None,
        created_at: 0,
    });
    tools.store.pod_roles.push(PodRoleAssignment { user_id: USER, pod_id: 300, role: PodRole::Owner, created_at: 0 });
    tools.store.node_identities.push(NodeIdentity {
        id: 1,
        tenant_id: None,
        display_name: "home".to_string(),
        public_key: "pk".to_string(),
        created_at: 0,
    });
    let added = tools
        .review_discovery_result_item(&owner(), review(batch_id, 8, DiscoveryResultItemActionRequest::AddToPod { pod_id: 300 }), 600)
        .unwrap();
    let placement = added.placement.unwrap();
    assert_eq!((placement.candidate_id, placement.pod_id, placement.status), (8, 300, PodPlacementStatus::Accepted));
    assert_eq!(tools.store.pod_placements.len(), 1);
    assert_eq!(added.item.review.unwrap().placement_pod_id, Some(300));
    let later = tools.review_discovery_result_item(&owner(), review(batch_id, 8, DiscoveryResultItemActionRequest::Ignore), 700).unwrap();
    assert_eq!(later.item.review.unwrap().placement_pod_id, Some(300));
    assert_eq!(tools.store.pod_placements.len(), 1);
}

#[test]
fn saving_a_result_places_it_in_the_private_inbox() {
    let (mut tools, batch_id) = completed_with_candidates();
    let no_node = tools.review_discovery_result_item(&owner(), review(batch_id, 7, DiscoveryResultItemActionRequest::Save), 600).unwrap_err();
    assert!(matches!(no_node, AgentToolsError::Store(StoreError::Validation(m)) if m == "a private Inbox needs the Home Node identity"));
    assert!(tools.store.pods.is_empty());
    assert_eq!(tools.store.discovery_result_items[0].review, None);
    tools.store.node_identities.push(NodeIdentity {
        id: 1,
        tenant_id: None,
        display_name: "home".to_string(),
        public_key: "pk".to_string(),
        created_at: 0,
    });
    let saved = tools.review_discovery_result_item(&owner(), review(batch_id, 7, DiscoveryResultItemActionRequest::Save), 600).unwrap();
    assert_eq!(tools.store.pods.len(), 1);
    let inbox = &tools.store.pods[0];
    assert_eq!(inbox.slug, "inbox-00000000-0000-0000-0000-00000000000a");
    assert_eq!(inbox.visibility, Visibility::Private);
    assert_eq!(inbox.origin_node_id, Some(1));
    let inbox_id = inbox.id;
    assert_eq!(tools.store.pod_roles[0].pod_id, inbox_id);
    assert_eq!(tools.store.pod_roles[0].role, PodRole::Owner);
    let placement = saved.placement.unwrap();
    assert_eq!((placement.candidate_id, placement.pod_id, placement.status), (7, inbox_id, PodPlacementStatus::Accepted));
    assert_eq!(saved.item.review.unwrap().placement_pod_id, Some(inbox_id));
    let other = tools.review_discovery_result_item(&owner(), review(batch_id, 8, DiscoveryResultItemActionRequest::Save), 700).unwrap();
    assert_eq!(tools.store.pods.len(), 1);
    assert_eq!(other.placement.unwrap().pod_id, inbox_id);
    assert_eq!(tools.store.pod_placements.len(), 2);
    assert!(tools.store.taste_learning_evidence.is_empty());
}

#[test]
fn a_shared_pod_cannot_serve_as_the_inbox() {
    let (mut tools, batch_id) = completed_with_candidates();
    tools.store.pods.push(Pod {
        id: 301,
        tenant_id: None,
        slug: "inbox-00000000-0000-0000-0000-00000000000a".to_string(),
        name: "Inbox".to_string(),
        description: String::new(),
        visibility: Visibility::Public,
        origin_node_id: None,
        created_at: 0,
    });
    let err = tools.review_discovery_result_item(&owner(), review(batch_id, 7, DiscoveryResultItemActionRequest::Save), 600).unwrap_err();
    assert!(matches!(err, AgentToolsError::Store(StoreError::Validation(m)) if m == "the private Inbox slug belongs to a shared Pod"));
    assert!(tools.store.pod_placements.is_empty());
}

#[test]
fn a_dismissed_batch_takes_no_review() {
    let (mut tools, batch_id) = completed_with_candidates();
    let missing = tools.review_discovery_result_item(&owner(), review(batch_id, 99, DiscoveryResultItemActionRequest::Ignore), 600).unwrap_err();
    assert!(matches!(missing, AgentToolsError::Store(StoreError::NotFound(m)) if m == "Discovery Result Item"));
    tools.dismiss_discovery_result_batch(&owner(), batch_id, 650).unwrap();
    let refused = tools.review_discovery_result_item(&owner(), review(batch_id, 7, DiscoveryResultItemActionRequest::Ignore), 700).unwrap_err();
    assert!(matches!(refused, AgentToolsError::Store(StoreError::Validation(m))
        if m == "dismissed Discovery Result Batch cannot receive item review"));
}

fn evidence() -> CandidateEvidence {
    CandidateEvidence {
        source_url: "https://e.example/x".to_string(),
        referrer_url: None,
        discovery_method: "search".to_string(),
        harness_idempotency_key: "h".to_string(),
        client_idempotency_key: "c".to_string(),
    }
}
