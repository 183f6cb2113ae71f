use stumble_core::agent_tools::AgentTools;
use stumble_core::error::{AgentToolsError, StoreError};
use stumble_core::store::Store;
use stumble_core::result_batches::DiscoveryResultsReadyNotificationOutcome;
use stumble_core::types::{
    AuthContext, DiscoveryResultBatch, DiscoveryResultBatchState, DiscoveryResultNotificationState, DiscoveryResultsReadyEvent,
    PersonalDiscoveryDeliveryMode,
};

fn batch(id: u128, user_id: u128, state: DiscoveryResultBatchState) -> DiscoveryResultBatch {
    DiscoveryResultBatch {
        id,
        user_id,
        tenant_id: None,
        plan_id: 1,
        task_id: 2,
        state,
        notification_state: DiscoveryResultNotificationState::NotDelivered,
        created_at: 5,
        reviewed_at: None,
        dismissed_at: None,
    }
}

fn tools() -> AgentTools {
    let mut store = Store::new();
    store.discovery_result_batches.push(batch(30, 10, DiscoveryResultBatchState::Ready));
    store.discovery_result_batches.push(batch(31, 10, DiscoveryResultBatchState::Ready));
    store.discovery_result_batches.push(batch(32, 11, DiscoveryResultBatchState::Ready));
    AgentTools::new(store)
}

fn user(id: u128) -> AuthContext {
    AuthContext { user_id: Some(id), tenant_id: None, node_id: 1, harness_id: None }
}

fn validation_message(e: AgentToolsError) -> String {
    match e {
        AgentToolsError::Store(StoreError::Validation(m)) => m,
        other => panic!("unexpected {other:?}"),
    }
}

#[test]
fn dismissing_a_ready_batch_is_final() {
    let mut tools = tools();
    let dismissed = tools.dismiss_discovery_result_batch(&user(10), 30, 100).unwrap();
    assert_eq!(dismissed.state, DiscoveryResultBatchState::Dismissed);
    assert_eq!(dismissed.dismissed_at, Some(100));
    assert_eq!(tools.store.discovery_result_batches[0], dismissed);
    let again = tools.dismiss_discovery_result_batch(&user(10), 30, 200).unwrap();
    assert_eq!(again.dismissed_at, Some(100));
    let refused = tools.mark_discovery_result_batch_reviewed(&user(10), 30, 300).unwrap_err();
    assert_eq!(validation_message(refused), "dismissed Discovery Result Batch cannot be marked reviewed");
    assert_eq!(tools.store.discovery_result_batches[0].state, DiscoveryResultBatchState::Dismissed);
}

#[test]
fn reviewing_a_ready_batch_is_final() {
    let mut tools = tools();
    let reviewed = tools.mark_discovery_result_batch_reviewed(&user(10), 31, 100).unwrap();
    assert_eq!(reviewed.state, DiscoveryResultBatchState::Reviewed);
    assert_eq!(reviewed.reviewed_at, Some(100));
    assert_eq!(reviewed.dismissed_at, None);
    let refused = tools.dismiss_discovery_result_batch(&user(10), 31, 200).unwrap_err();
    assert_eq!(validation_message(refused), "reviewed Discovery Result Batch cannot be dismissed");
    assert_eq!(tools.store.discovery_result_batches[1], reviewed);
    assert_eq!(tools.store.discovery_result_batches[0].state, DiscoveryResultBatchState::Ready);
}

#[test]
fn another_users_batch_is_not_found() {
    let mut tools = tools();
    let refused = tools.dismiss_discovery_result_batch(&user(10), 32, 100).unwrap_err();
    assert!(matches!(refused, AgentToolsError::Store(StoreError::NotFound(m)) if m == "Discovery Result Batch"));
    let missing = tools.mark_discovery_result_batch_reviewed(&user(10), 99, 100).unwrap_err();
    assert!(matches!(missing, AgentToolsError::Store(StoreError::NotFound(_))));
    assert_eq!(tools.store.discovery_result_batches[2].state, DiscoveryResultBatchState::Ready);
}

#[test]
fn batch_decisions_need_a_user() {
    let mut tools = tools();
    let anonymous = AuthContext { user_id: None, tenant_id: None, node_id: 1, harness_id: None };
    let refused = tools.dismiss_discovery_result_batch(&anonymous, 30, 100).unwrap_err();
    assert_eq!(validation_message(refused), "Personal Discovery requires an authenticated User");
}

fn ready_event(batch_id: u128, delivery_mode: PersonalDiscoveryDeliveryMode) -> DiscoveryResultsReadyEvent {
    DiscoveryResultsReadyEvent {
        batch_id,
        schedule_id: 3,
        user_id: 10,
        tenant_id: None,
        delivery_mode,
        created_at: 5,
        notification_attempted_at: None,
    }
}

#[test]
fn a_ready_batch_is_announced_once() {
    let mut tools = tools();
    tools.store.discovery_results_ready_events.push(ready_event(30, PersonalDiscoveryDeliveryMode::NotifyWhenSupported));
    let first = tools.attempt_discovery_results_ready_notification(&user(10), 30, 100).unwrap();
    match first {
        DiscoveryResultsReadyNotificationOutcome::ShouldNotify { event, batch } => {
            assert_eq!(event.notification_attempted_at, Some(100));
            assert_eq!(batch.notification_state, DiscoveryResultNotificationState::Delivered);
            assert_eq!(batch.state, DiscoveryResultBatchState::Ready);
        }
        other => panic!("unexpected {other:?}"),
    }
    assert_eq!(tools.store.discovery_result_batches[0].notification_state, DiscoveryResultNotificationState::Delivered);
    assert_eq!(tools.store.discovery_results_ready_events[0].notification_attempted_at, Some(100));
    let second = tools.attempt_discovery_results_ready_notification(&user(10), 30, 200).unwrap();
    assert!(matches!(second, DiscoveryResultsReadyNotificationOutcome::AlreadyAttempted { event, .. }
        if event.notification_attempted_at == Some(100)));
}

#[test]
fn a_queue_only_batch_is_not_announced() {
    let mut tools = tools();
    tools.store.discovery_results_ready_events.push(ready_event(31, PersonalDiscoveryDeliveryMode::QueueOnly));
    let outcome = tools.attempt_discovery_results_ready_notification(&user(10), 31, 100).unwrap();
    assert!(matches!(outcome, DiscoveryResultsReadyNotificationOutcome::QueueOnly { event, batch }
        if event.notification_attempted_at.is_none() && batch.notification_state == DiscoveryResultNotificationState::NotDelivered));
    assert!(tools.store.discovery_results_ready_events[0].notification_attempted_at.is_none());
}

#[test]
fn announcing_needs_the_owner_and_an_event() {
    let mut tools = tools();
    let other = tools.attempt_discovery_results_ready_notification(&user(10), 32, 100).unwrap_err();
    assert!(matches!(other, AgentToolsError::Forbidden { reason } if reason == "Discovery Result Batch belongs to another User"));
    let missing = tools.attempt_discovery_results_ready_notification(&user(10), 30, 100).unwrap_err();
    assert!(matches!(missing, AgentToolsError::Store(StoreError::NotFound(m)) if m == "Discovery-results-ready Event"));
    let unknown = tools.attempt_discovery_results_ready_notification(&user(10), 99, 100).unwrap_err();
    assert!(matches!(unknown, AgentToolsError::Store(StoreError::NotFound(m)) if m == "Discovery Result Batch"));
}
