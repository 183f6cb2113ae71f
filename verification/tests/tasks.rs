use stumble_core::agent_tools::AgentTools;
use stumble_core::error::{AgentToolsError, StoreError};
use stumble_core::store::Store;
use stumble_core::tasks::{CreateImmediateDiscoveryTaskRequest, MAX_DISCOVERY_TASK_ATTEMPTS};
use stumble_core::types::{
    AgentHarness, AgentHarnessKind, AuthContext, DiscoveryPlan, DiscoveryTask, DiscoveryTaskAttemptOutcome,
    DiscoveryTaskOrigin, DiscoveryTaskState, DiscoveryTaskTarget, HarnessCapability, HarnessGrant, HarnessWriteOperation,
    PodSkillPack,
};

const USER: u128 = 10;
const POD: u128 = 100;
const WORKER: u128 = 1;
const OTHER_WORKER: u128 = 2;
const TASK: u128 = 500;

fn harness(id: u128, kind: AgentHarnessKind, capabilities: Vec<HarnessCapability>) -> AgentHarness {
    AgentHarness {
        id,
        user_id: USER,
        tenant_id: None,
        label: format!("worker {id}"),
        kind,
        grant: HarnessGrant { capabilities, pod_ids: None },
        created_at: 0,
        revoked_at: None,
    }
}

fn pod_task(id: u128) -> DiscoveryTask {
    DiscoveryTask {
        id,
        target: DiscoveryTaskTarget::Pod { pod_id: POD, package_version: 1 },
        origin: DiscoveryTaskOrigin::Scheduled { source_rule_index: 0 },
        due_at: 0,
        state: DiscoveryTaskState::Pending,
        attempts: Vec::new(),
        created_at: 0,
    }
}

fn tools() -> AgentTools {
    let mut store = Store::new();
    store.agent_harnesses.push(harness(WORKER, AgentHarnessKind::Unattended, vec![HarnessCapability::DiscoveryTasks]));
    store.agent_harnesses.push(harness(OTHER_WORKER, AgentHarnessKind::Unattended, vec![HarnessCapability::DiscoveryTasks]));
    store.agent_harnesses.push(harness(
        3,
        AgentHarnessKind::Unattended,
        vec![HarnessCapability::PersonalDiscoveryExecution],
    ));
    store.discovery_tasks.push(pod_task(TASK));
    store.pod_skill_packs.push(PodSkillPack {
        pod_id: POD,
        version: 4,
        skill_md: String::new(),
        pod_yaml: String::new(),
        filters_yaml: String::new(),
        sources_yaml: String::new(),
    });
    AgentTools::new(store)
}

fn ctx(harness_id: u128) -> AuthContext {
    AuthContext { user_id: Some(USER), tenant_id: None, node_id: 1, harness_id: Some(harness_id) }
}

#[test]
fn claim_leases_pending_task_to_the_caller() {
    let mut tools = tools();
    let task = tools.claim_discovery_task(&ctx(WORKER), TASK, 1_000, 60).unwrap();
    assert_eq!(
        task.state,
        DiscoveryTaskState::Leased(stumble_core::types::DiscoveryTaskLease {
            harness_id: WORKER,
            claimed_at: 1_000,
            expires_at: 61_000,
        })
    );
    let audit = &tools.store.harness_write_audit;
    assert_eq!(audit.len(), 1);
    assert_eq!(audit[0].operation, HarnessWriteOperation::ClaimDiscoveryTask);
    assert_eq!(audit[0].pod_id, Some(POD));
}

#[test]
fn live_lease_refuses_every_other_claim() {
    let mut tools = tools();
    tools.claim_discovery_task(&ctx(WORKER), TASK, 1_000, 60).unwrap();
    let refused = tools.claim_discovery_task(&ctx(OTHER_WORKER), TASK, 2_000, 60).unwrap_err();
    assert!(matches!(refused, AgentToolsError::TaskLeaseConflict));
    let again = tools.claim_discovery_task(&ctx(WORKER), TASK, 2_000, 60).unwrap_err();
    assert!(matches!(again, AgentToolsError::TaskLeaseConflict));
}

#[test]
fn expired_lease_is_recorded_and_work_reclaimed() {
    let mut tools = tools();
    tools.claim_discovery_task(&ctx(WORKER), TASK, 1_000, 1).unwrap();
    let task = tools.claim_discovery_task(&ctx(OTHER_WORKER), TASK, 5_000, 1).unwrap();
    assert_eq!(task.attempts.len(), 1);
    assert_eq!(task.attempts[0].harness_id, WORKER);
    assert_eq!(task.attempts[0].started_at, 1_000);
    assert_eq!(task.attempts[0].finished_at, 2_000);
    assert!(matches!(task.attempts[0].outcome, DiscoveryTaskAttemptOutcome::LeaseExpired));
    assert!(matches!(task.state, DiscoveryTaskState::Leased(lease) if lease.harness_id == OTHER_WORKER));
}

#[test]
fn three_expired_leases_fail_the_task_terminally() {
    let mut tools = tools();
    let mut now = 1_000;
    for _ in 0..MAX_DISCOVERY_TASK_ATTEMPTS {
        tools.claim_discovery_task(&ctx(WORKER), TASK, now, 1).unwrap();
        now += 10_000;
    }
    let refused = tools.claim_discovery_task(&ctx(WORKER), TASK, now, 1).unwrap_err();
    assert!(matches!(refused, AgentToolsError::TaskTerminal));
    let task = tools.discovery_task_status(&ctx(WORKER), TASK, now).unwrap();
    assert_eq!(task.state, DiscoveryTaskState::TerminalFailure);
    assert_eq!(task.attempts.len(), MAX_DISCOVERY_TASK_ATTEMPTS);
}

#[test]
fn status_shows_an_expired_lease_without_changing_the_store() {
    let mut tools = tools();
    tools.claim_discovery_task(&ctx(WORKER), TASK, 1_000, 1).unwrap();
    let seen = tools.discovery_task_status(&ctx(WORKER), TASK, 9_000).unwrap();
    assert_eq!(seen.state, DiscoveryTaskState::Pending);
    assert_eq!(seen.attempts.len(), 1);
    assert!(matches!(tools.store.discovery_tasks[0].state, DiscoveryTaskState::Leased(_)));
}

#[test]
fn only_the_holder_renews_a_live_lease() {
    let mut tools = tools();
    tools.claim_discovery_task(&ctx(WORKER), TASK, 1_000, 60).unwrap();
    let refused = tools.renew_discovery_task_lease(&ctx(OTHER_WORKER), TASK, 2_000, 60).unwrap_err();
    assert!(matches!(refused, AgentToolsError::TaskLeaseRequired));
    let renewed = tools.renew_discovery_task_lease(&ctx(WORKER), TASK, 2_000, 600).unwrap();
    assert!(matches!(renewed.state, DiscoveryTaskState::Leased(lease)
        if lease.expires_at == 602_000 && lease.claimed_at == 1_000));
    let late = tools.renew_discovery_task_lease(&ctx(WORKER), TASK, 700_000, 60).unwrap_err();
    assert!(matches!(late, AgentToolsError::TaskLeaseRequired));
}

#[test]
fn unrepresentable_lease_end_is_refused() {
    let mut tools = tools();
    let refused = tools.claim_discovery_task_until(&ctx(WORKER), TASK, 1_000, None).unwrap_err();
    assert!(matches!(refused, AgentToolsError::Store(StoreError::Validation(m))
        if m == "lease expiration is outside the supported time range"));
    assert!(matches!(tools.store.discovery_tasks[0].state, DiscoveryTaskState::Pending));
}

#[test]
fn completing_a_leased_pod_task_completes_it() {
    let mut tools = tools();
    tools.claim_discovery_task(&ctx(WORKER), TASK, 1_000, 60).unwrap();
    let done = tools.complete_discovery_task(&ctx(WORKER), TASK, 2_000).unwrap();
    assert_eq!(done.state, DiscoveryTaskState::Completed);
    assert_eq!(done.attempts.len(), 1);
    assert!(matches!(done.attempts[0].outcome, DiscoveryTaskAttemptOutcome::Completed));
    let refused = tools.claim_discovery_task(&ctx(WORKER), TASK, 3_000, 60).unwrap_err();
    assert!(matches!(refused, AgentToolsError::TaskTerminal));
    let ops: Vec<_> = tools.store.harness_write_audit.iter().map(|a| a.operation).collect();
    assert_eq!(ops, vec![HarnessWriteOperation::ClaimDiscoveryTask, HarnessWriteOperation::CompleteDiscoveryTask]);
}

#[test]
fn failing_retries_until_attempts_are_used_up() {
    let mut tools = tools();
    let mut now = 1_000;
    for round in 1..=MAX_DISCOVERY_TASK_ATTEMPTS {
        tools.claim_discovery_task(&ctx(WORKER), TASK, now, 60).unwrap();
        let failed = tools.fail_discovery_task(&ctx(WORKER), TASK, now + 1, "source offline".to_string()).unwrap();
        assert_eq!(failed.attempts.len(), round);
        if round < MAX_DISCOVERY_TASK_ATTEMPTS {
            assert_eq!(failed.state, DiscoveryTaskState::Pending);
        } else {
            assert_eq!(failed.state, DiscoveryTaskState::TerminalFailure);
        }
        now += 10;
    }
}

#[test]
fn blank_failure_reason_is_refused() {
    let mut tools = tools();
    tools.claim_discovery_task(&ctx(WORKER), TASK, 1_000, 60).unwrap();
    let refused = tools.fail_discovery_task(&ctx(WORKER), TASK, 1_001, "   ".to_string()).unwrap_err();
    assert!(matches!(refused, AgentToolsError::Store(StoreError::Validation(m)) if m == "failure reason must not be empty"));
}

#[test]
fn unknown_task_is_not_found() {
    let mut tools = tools();
    let refused = tools.claim_discovery_task(&ctx(WORKER), 999, 1_000, 60).unwrap_err();
    assert!(matches!(refused, AgentToolsError::Store(StoreError::NotFound(m)) if m == "Discovery Task"));
}

#[test]
fn mutation_requires_a_harness() {
    let mut tools = tools();
    let owner = AuthContext { user_id: Some(USER), tenant_id: None, node_id: 1, harness_id: None };
    let refused = tools.claim_discovery_task(&owner, TASK, 1_000, 60).unwrap_err();
    assert!(matches!(refused, AgentToolsError::Forbidden { reason } if reason == "task mutation requires an Agent Harness"));
}

#[test]
fn personal_task_completes_only_through_its_result_batch() {
    let mut tools = tools();
    tools.store.discovery_plans.push(DiscoveryPlan { id: 77, user_id: USER, tenant_id: None, created_at: 0 });
    tools.store.discovery_tasks.push(DiscoveryTask {
        id: 600,
        target: DiscoveryTaskTarget::Personal { plan_id: 77 },
        origin: DiscoveryTaskOrigin::PersonalScheduled { schedule_id: 5 },
        due_at: 0,
        state: DiscoveryTaskState::Pending,
        attempts: Vec::new(),
        created_at: 0,
    });
    tools.claim_discovery_task(&ctx(3), 600, 1_000, 60).unwrap();
    let refused = tools.complete_discovery_task(&ctx(3), 600, 1_001).unwrap_err();
    assert!(matches!(refused, AgentToolsError::Store(StoreError::Validation(m))
        if m == "Personal Discovery tasks complete only through complete_discovery_result_batch"));
    let failed = tools.fail_discovery_task(&ctx(3), 600, 1_002, "no results".to_string()).unwrap();
    assert_eq!(failed.state, DiscoveryTaskState::Pending);
}

#[test]
fn personal_task_of_another_user_is_forbidden() {
    let mut tools = tools();
    tools.store.discovery_plans.push(DiscoveryPlan { id: 78, user_id: 999, tenant_id: None, created_at: 0 });
    tools.store.discovery_tasks.push(DiscoveryTask {
        id: 601,
        target: DiscoveryTaskTarget::Personal { plan_id: 78 },
        origin: DiscoveryTaskOrigin::PersonalScheduled { schedule_id: 5 },
        due_at: 0,
        state: DiscoveryTaskState::Pending,
        attempts: Vec::new(),
        created_at: 0,
    });
    let refused = tools.discovery_task_status(&ctx(3), 601, 0).unwrap_err();
    assert!(matches!(refused, AgentToolsError::Forbidden { reason }
        if reason == "Personal Discovery task belongs to another User"));
}

#[test]
fn immediate_task_is_created_once_per_idempotency_key() {
    let mut tools = tools();
    let request = || CreateImmediateDiscoveryTaskRequest {
        pod_id: POD,
        instructions: "find recent essays".to_string(),
        idempotency_key: "k-1".to_string(),
    };
    let first = tools.create_immediate_discovery_task(&ctx(WORKER), request(), 5_000).unwrap();
    assert_eq!(first.target, DiscoveryTaskTarget::Pod { pod_id: POD, package_version: 4 });
    assert_eq!(first.due_at, 5_000);
    assert_eq!(first.state, DiscoveryTaskState::Pending);
    let second = tools.create_immediate_discovery_task(&ctx(WORKER), request(), 9_000).unwrap();
    assert_eq!(second.id, first.id);
    assert_eq!(tools.store.discovery_tasks.len(), 2);
    let blank = tools
        .create_immediate_discovery_task(
            &ctx(WORKER),
            CreateImmediateDiscoveryTaskRequest { pod_id: POD, instructions: " ".to_string(), idempotency_key: "k".to_string() },
            1,
        )
        .unwrap_err();
    assert!(matches!(blank, AgentToolsError::Store(StoreError::Validation(m))
        if m == "immediate task instructions and idempotency key must not be empty"));
}

#[test]
fn immediate_task_needs_a_pod_package() {
    let mut tools = tools();
    let refused = tools
        .create_immediate_discovery_task(
            &ctx(WORKER),
            CreateImmediateDiscoveryTaskRequest { pod_id: 101, instructions: "x".to_string(), idempotency_key: "k".to_string() },
            1,
        )
        .unwrap_err();
    assert!(matches!(refused, AgentToolsError::Store(StoreError::NotFound(m)) if m == "Pod Package"));
}

#[test]
fn ready_list_holds_pending_due_work_only() {
    let mut tools = tools();
    let mut later = pod_task(501);
    later.due_at = 50_000;
    tools.store.discovery_tasks.push(later);
    tools.store.discovery_tasks.push(pod_task(502));
    tools.claim_discovery_task(&ctx(WORKER), 502, 1_000, 60).unwrap();
    let ready: Vec<u128> = tools.list_ready_discovery_tasks(&ctx(WORKER), 2_000).unwrap().iter().map(|t| t.id).collect();
    assert_eq!(ready, vec![TASK]);
    let all: Vec<u128> = tools.list_discovery_tasks(&ctx(WORKER), 2_000).unwrap().iter().map(|t| t.id).collect();
    assert_eq!(all, vec![TASK, 501, 502]);
    let after_expiry: Vec<u128> =
        tools.list_ready_discovery_tasks(&ctx(WORKER), 100_000).unwrap().iter().map(|t| t.id).collect();
    assert_eq!(after_expiry, vec![TASK, 501, 502]);
}

#[test]
fn listing_without_any_task_authority_is_refused() {
    let tools = tools();
    let mut store_harness = harness(9, AgentHarnessKind::Interactive, vec![HarnessCapability::FeedRead]);
    store_harness.id = 9;
    let mut tools = tools;
    tools.store.agent_harnesses.push(store_harness);
    let refused = tools.list_discovery_tasks(&ctx(9), 0).unwrap_err();
    assert!(matches!(refused, AgentToolsError::Forbidden { reason } if reason == "harness grant lacks discovery_tasks"));
}
