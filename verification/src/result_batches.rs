//! The owner's whole-batch decisions on Personal Discovery results (a ready
//! batch is either dismissed or marked reviewed, and either decision is final),
//! and the single notification that a scheduled batch is ready.
use crate::agent_tools::{audited, record_harness_write, AgentTools};
use crate::auth::{authorize_personal_discovery_execution, authorize_personal_discovery_management};
use crate::error::{denies, forbidden, not_found, validation, AgentToolsError, Denial};
use crate::personal_discovery::{batch_with_id, private_owner, schedule_read_check};
use crate::seqs::{first_index, lemma_first_index_at};
use crate::store::Store;
use crate::types::{
    AuthContext, DiscoveryResultBatch, DiscoveryResultBatchState, DiscoveryResultNotificationState, DiscoveryResultsReadyEvent,
    HarnessWriteOperation, PersonalDiscoveryDeliveryMode,
};
use vstd::prelude::*;

verus! {

/// A whole-batch decision.
#[derive(Clone, Copy, Debug, PartialEq, Eq, Structural)]
pub enum BatchDecision {
    Dismiss,
    MarkReviewed,
}

/// The batch after `decision` at `now`, and whether anything changed: a ready
/// batch takes the decision and its instant; a batch that already took it is
/// returned as it is; a batch that took the other decision is refused.
pub open spec fn settled(b: DiscoveryResultBatch, decision: BatchDecision, now: i64) -> Result<(DiscoveryResultBatch, bool), Denial> {
    match (decision, b.state) {
        (BatchDecision::Dismiss, DiscoveryResultBatchState::Dismissed) => Ok((b, false)),
        (BatchDecision::Dismiss, DiscoveryResultBatchState::Reviewed) => Err(
            Denial::Validation("reviewed Discovery Result Batch cannot be dismissed"@),
        ),
        (BatchDecision::Dismiss, DiscoveryResultBatchState::Ready) => Ok(
            (DiscoveryResultBatch { state: DiscoveryResultBatchState::Dismissed, dismissed_at: Some(now), ..b }, true),
        ),
        (BatchDecision::MarkReviewed, DiscoveryResultBatchState::Reviewed) => Ok((b, false)),
        (BatchDecision::MarkReviewed, DiscoveryResultBatchState::Dismissed) => Err(
            Denial::Validation("dismissed Discovery Result Batch cannot be marked reviewed"@),
        ),
        (BatchDecision::MarkReviewed, DiscoveryResultBatchState::Ready) => Ok(
            (DiscoveryResultBatch { state: DiscoveryResultBatchState::Reviewed, reviewed_at: Some(now), ..b }, true),
        ),
    }
}

/// The operation a decision is audited as.
pub open spec fn decision_operation(decision: BatchDecision) -> HarnessWriteOperation {
    match decision {
        BatchDecision::Dismiss => HarnessWriteOperation::DismissDiscoveryResultBatch,
        BatchDecision::MarkReviewed => HarnessWriteOperation::MarkDiscoveryResultBatchReviewed,
    }
}

/// What a whole-batch decision on `batch_id` by `ctx` at `now` does: the
/// caller's batch with that identifier is settled as `settled` says and
/// written back when it changed; anything else fails and changes nothing.
pub open spec fn decision_outcome(
    before: Store,
    after: Store,
    r: Result<DiscoveryResultBatch, AgentToolsError>,
    ctx: AuthContext,
    batch_id: u128,
    decision: BatchDecision,
    now: i64,
) -> bool {
    match private_owner(before, ctx) {
        Err(d) => r matches Err(e) && denies(e, d) && after == before,
        Ok(u) => {
            let i = first_index(before.discovery_result_batches@, batch_with_id(batch_id));
            if i < 0 || before.discovery_result_batches@[i].user_id != u || before.discovery_result_batches@[i].tenant_id
                != ctx.tenant_id {
                r matches Err(e) && denies(e, Denial::NotFound("Discovery Result Batch"@)) && after == before
            } else {
                match settled(before.discovery_result_batches@[i], decision, now) {
                    Err(d) => r matches Err(e) && denies(e, d) && after == before,
                    Ok((b, false)) => r == Ok::<DiscoveryResultBatch, AgentToolsError>(b) && after == before,
                    Ok((b, true)) => {
                        &&& r == Ok::<DiscoveryResultBatch, AgentToolsError>(b)
                        &&& after.discovery_result_batches@ == before.discovery_result_batches@.update(i, b)
                        &&& audited(before.harness_write_audit@, after.harness_write_audit@, ctx, decision_operation(decision), None)
                        &&& after == (Store {
                            discovery_result_batches: after.discovery_result_batches,
                            harness_write_audit: after.harness_write_audit,
                            ..before
                        })
                    },
                }
            }
        },
    }
}

/// Dismissal and review are final and idempotent: once a batch has taken one
/// decision, taking it again changes nothing and the other is refused.
pub proof fn lemma_batch_decisions_are_final(b: DiscoveryResultBatch, first: BatchDecision, at: i64, second: BatchDecision, later: i64)
    requires
        settled(b, first, at) is Ok,
    ensures
        ({
            let b1 = settled(b, first, at)->Ok_0.0;
            &&& second == first ==> settled(b1, second, later) == Ok::<(DiscoveryResultBatch, bool), Denial>((b1, false))
            &&& second != first ==> settled(b1, second, later) is Err
        }),
{
}

/// A decision never changes which batch it is, whose it is, or what it holds.
pub proof fn lemma_decision_keeps_identity(b: DiscoveryResultBatch, decision: BatchDecision, now: i64)
    requires
        settled(b, decision, now) is Ok,
    ensures
        ({
            let b1 = settled(b, decision, now)->Ok_0.0;
            &&& b1.id == b.id && b1.user_id == b.user_id && b1.tenant_id == b.tenant_id
            &&& b1.plan_id == b.plan_id && b1.task_id == b.task_id && b1.created_at == b.created_at
        }),
{
}

/// What an attempt to announce a ready batch found.
#[derive(Debug)]
pub enum DiscoveryResultsReadyNotificationOutcome {
    /// The schedule keeps its results in the queue without notifying.
    QueueOnly { event: DiscoveryResultsReadyEvent, batch: DiscoveryResultBatch },
    /// The one notification was already attempted.
    AlreadyAttempted { event: DiscoveryResultsReadyEvent, batch: DiscoveryResultBatch },
    /// The caller should notify the User now; the attempt has been recorded.
    ShouldNotify { event: DiscoveryResultsReadyEvent, batch: DiscoveryResultBatch },
}

/// The kinds of [`DiscoveryResultsReadyNotificationOutcome`].
pub enum NotificationStep {
    QueueOnly,
    AlreadyAttempted,
    ShouldNotify,
}

/// One attempt on a ready event and its batch at `now`: what it finds, and the
/// event and batch after it. Only a notify-when-supported event that was never
/// attempted, for a batch not yet delivered, is attempted; the attempt stamps
/// the event and marks the batch delivered, and touches nothing else of it.
pub open spec fn notification_step(ev: DiscoveryResultsReadyEvent, b: DiscoveryResultBatch, now: i64) -> (
    NotificationStep,
    DiscoveryResultsReadyEvent,
    DiscoveryResultBatch,
) {
    match ev.delivery_mode {
        PersonalDiscoveryDeliveryMode::QueueOnly => (NotificationStep::QueueOnly, ev, b),
        PersonalDiscoveryDeliveryMode::NotifyWhenSupported => if ev.notification_attempted_at is Some
            || b.notification_state == DiscoveryResultNotificationState::Delivered {
            (NotificationStep::AlreadyAttempted, ev, b)
        } else {
            (
                NotificationStep::ShouldNotify,
                DiscoveryResultsReadyEvent { notification_attempted_at: Some(now), ..ev },
                DiscoveryResultBatch { notification_state: DiscoveryResultNotificationState::Delivered, ..b },
            )
        },
    }
}

/// The outcome value of a step.
pub open spec fn step_outcome(step: (NotificationStep, DiscoveryResultsReadyEvent, DiscoveryResultBatch)) -> DiscoveryResultsReadyNotificationOutcome {
    match step.0 {
        NotificationStep::QueueOnly => DiscoveryResultsReadyNotificationOutcome::QueueOnly { event: step.1, batch: step.2 },
        NotificationStep::AlreadyAttempted => DiscoveryResultsReadyNotificationOutcome::AlreadyAttempted {
            event: step.1,
            batch: step.2,
        },
        NotificationStep::ShouldNotify => DiscoveryResultsReadyNotificationOutcome::ShouldNotify { event: step.1, batch: step.2 },
    }
}

pub open spec fn ready_event_for(batch_id: u128) -> spec_fn(DiscoveryResultsReadyEvent) -> bool {
    |ev: DiscoveryResultsReadyEvent| ev.batch_id == batch_id
}

/// What an attempt to announce batch `batch_id` by `ctx` at `now` does.
pub open spec fn notification_outcome(
    before: Store,
    after: Store,
    r: Result<DiscoveryResultsReadyNotificationOutcome, AgentToolsError>,
    ctx: AuthContext,
    batch_id: u128,
    now: i64,
) -> bool {
    let i = first_index(before.discovery_result_batches@, batch_with_id(batch_id));
    let k = first_index(before.discovery_results_ready_events@, ready_event_for(batch_id));
    if schedule_read_check(before, ctx) is Err {
        r matches Err(e) && denies(e, schedule_read_check(before, ctx)->Err_0) && after == before
    } else if ctx.user_id is None {
        r matches Err(e) && denies(e, Denial::Validation("Personal Discovery requires an authenticated User"@)) && after == before
    } else if i < 0 {
        r matches Err(e) && denies(e, Denial::NotFound("Discovery Result Batch"@)) && after == before
    } else if before.discovery_result_batches@[i].user_id != ctx.user_id->0 || before.discovery_result_batches@[i].tenant_id
        != ctx.tenant_id {
        r matches Err(e) && denies(e, Denial::Forbidden("Discovery Result Batch belongs to another User"@)) && after == before
    } else if k < 0 {
        r matches Err(e) && denies(e, Denial::NotFound("Discovery-results-ready Event"@)) && after == before
    } else {
        let step = notification_step(before.discovery_results_ready_events@[k], before.discovery_result_batches@[i], now);
        &&& r == Ok::<DiscoveryResultsReadyNotificationOutcome, AgentToolsError>(step_outcome(step))
        &&& match step.0 {
            NotificationStep::ShouldNotify => {
                &&& after.discovery_results_ready_events@ == before.discovery_results_ready_events@.update(k, step.1)
                &&& after.discovery_result_batches@ == before.discovery_result_batches@.update(i, step.2)
                &&& audited(before.harness_write_audit@, after.harness_write_audit@, ctx,
                    HarnessWriteOperation::AttemptDiscoveryResultsReadyNotification, None)
                &&& after == (Store {
                    discovery_results_ready_events: after.discovery_results_ready_events,
                    discovery_result_batches: after.discovery_result_batches,
                    harness_write_audit: after.harness_write_audit,
                    ..before
                })
            },
            _ => after == before,
        }
    }
}

/// A ready batch is announced at most once: after an attempt, every later
/// attempt finds it already attempted and changes nothing; and an attempt never
/// changes the batch's review state.
pub proof fn lemma_single_notification(ev: DiscoveryResultsReadyEvent, b: DiscoveryResultBatch, now: i64, later: i64)
    ensures
        ({
            let s1 = notification_step(ev, b, now);
            &&& s1.2.state == b.state
            &&& s1.0 is ShouldNotify ==> notification_step(s1.1, s1.2, later) == (NotificationStep::AlreadyAttempted, s1.1, s1.2)
            &&& !(s1.0 is ShouldNotify) ==> s1.1 == ev && s1.2 == b
        }),
{
}

impl AgentTools {
    fn decide_discovery_result_batch(&mut self, ctx: &AuthContext, batch_id: u128, decision: BatchDecision, now: i64) -> (r:
        Result<DiscoveryResultBatch, AgentToolsError>)
        ensures
            decision_outcome(old(self).store, final(self).store, r, *ctx, batch_id, decision, now),
    {
        authorize_personal_discovery_management(&self.store, ctx)?;
        let user_id = match ctx.user_id {
            Some(u) => u,
            None => return Err(validation("Personal Discovery requires an authenticated User")),
        };
        let all = &self.store.discovery_result_batches;
        let mut i: usize = 0;
        while i < all.len() && all[i].id != batch_id
            invariant
                i <= all@.len(),
                forall|j: int| 0 <= j < i ==> !batch_with_id(batch_id)(#[trigger] all@[j]),
            decreases all@.len() - i,
        {
            i = i + 1;
        }
        proof { lemma_first_index_at(all@, batch_with_id(batch_id), i as int); }
        if i == all.len() || all[i].user_id != user_id || all[i].tenant_id != ctx.tenant_id {
            return Err(not_found("Discovery Result Batch"));
        }
        let mut batch = all[i];
        match (decision, batch.state) {
            (BatchDecision::Dismiss, DiscoveryResultBatchState::Dismissed) => return Ok(batch),
            (BatchDecision::MarkReviewed, DiscoveryResultBatchState::Reviewed) => return Ok(batch),
            (BatchDecision::Dismiss, DiscoveryResultBatchState::Reviewed) => {
                return Err(validation("reviewed Discovery Result Batch cannot be dismissed"));
            },
            (BatchDecision::MarkReviewed, DiscoveryResultBatchState::Dismissed) => {
                return Err(validation("dismissed Discovery Result Batch cannot be marked reviewed"));
            },
            (BatchDecision::Dismiss, DiscoveryResultBatchState::Ready) => {
                batch.state = DiscoveryResultBatchState::Dismissed;
                batch.dismissed_at = Some(now);
            },
            (BatchDecision::MarkReviewed, DiscoveryResultBatchState::Ready) => {
                batch.state = DiscoveryResultBatchState::Reviewed;
                batch.reviewed_at = Some(now);
            },
        }
        self.store.discovery_result_batches.set(i, batch);
        let operation = match decision {
            BatchDecision::Dismiss => HarnessWriteOperation::DismissDiscoveryResultBatch,
            BatchDecision::MarkReviewed => HarnessWriteOperation::MarkDiscoveryResultBatchReviewed,
        };
        record_harness_write(&mut self.store, ctx, operation, None);
        Ok(batch)
    }

    /// Dismisses one of the caller's ready Discovery Result Batches at `now`;
    /// dismissing it again returns it unchanged, and a reviewed batch is refused.
    pub fn dismiss_discovery_result_batch(&mut self, ctx: &AuthContext, batch_id: u128, now: i64) -> (r: Result<
        DiscoveryResultBatch,
        AgentToolsError,
    >)
        ensures
            decision_outcome(old(self).store, final(self).store, r, *ctx, batch_id, BatchDecision::Dismiss, now),
    {
        self.decide_discovery_result_batch(ctx, batch_id, BatchDecision::Dismiss, now)
    }

    /// Attempts the single notification that a scheduled batch is ready: a
    /// queue-only schedule notifies nobody, an attempt is made at most once,
    /// and it never marks the batch reviewed.
    pub fn attempt_discovery_results_ready_notification(&mut self, ctx: &AuthContext, batch_id: u128, now: i64) -> (r:
        Result<DiscoveryResultsReadyNotificationOutcome, AgentToolsError>)
        ensures
            notification_outcome(old(self).store, final(self).store, r, *ctx, batch_id, now),
    {
        if authorize_personal_discovery_management(&self.store, ctx).is_err() {
            authorize_personal_discovery_execution(&self.store, ctx)?;
        }
        let user_id = match ctx.user_id {
            Some(u) => u,
            None => return Err(validation("Personal Discovery requires an authenticated User")),
        };
        let batches = &self.store.discovery_result_batches;
        let mut i: usize = 0;
        while i < batches.len() && batches[i].id != batch_id
            invariant
                i <= batches@.len(),
                forall|j: int| 0 <= j < i ==> !batch_with_id(batch_id)(#[trigger] batches@[j]),
            decreases batches@.len() - i,
        {
            i = i + 1;
        }
        proof { lemma_first_index_at(batches@, batch_with_id(batch_id), i as int); }
        if i == batches.len() {
            return Err(not_found("Discovery Result Batch"));
        }
        let mut batch = batches[i];
        if batch.user_id != user_id || batch.tenant_id != ctx.tenant_id {
            return Err(forbidden("Discovery Result Batch belongs to another User"));
        }
        let events = &self.store.discovery_results_ready_events;
        let mut k: usize = 0;
        while k < events.len() && events[k].batch_id != batch_id
            invariant
                k <= events@.len(),
                forall|j: int| 0 <= j < k ==> !ready_event_for(batch_id)(#[trigger] events@[j]),
            decreases events@.len() - k,
        {
            k = k + 1;
        }
        proof { lemma_first_index_at(events@, ready_event_for(batch_id), k as int); }
        if k == events.len() {
            return Err(not_found("Discovery-results-ready Event"));
        }
        let mut event = events[k];
        match event.delivery_mode {
            PersonalDiscoveryDeliveryMode::QueueOnly => {
                return Ok(DiscoveryResultsReadyNotificationOutcome::QueueOnly { event, batch });
            },
            PersonalDiscoveryDeliveryMode::NotifyWhenSupported => {},
        }
        if event.notification_attempted_at.is_some() || batch.notification_state == DiscoveryResultNotificationState::Delivered {
            return Ok(DiscoveryResultsReadyNotificationOutcome::AlreadyAttempted { event, batch });
        }
        event.notification_attempted_at = Some(now);
        batch.notification_state = DiscoveryResultNotificationState::Delivered;
        self.store.discovery_results_ready_events.set(k, event);
        self.store.discovery_result_batches.set(i, batch);
        record_harness_write(&mut self.store, ctx, HarnessWriteOperation::AttemptDiscoveryResultsReadyNotification, None);
        Ok(DiscoveryResultsReadyNotificationOutcome::ShouldNotify { event, batch })
    }

    /// Marks one of the caller's ready Discovery Result Batches reviewed at
    /// `now`; marking it again returns it unchanged, and a dismissed batch is refused.
    pub fn mark_discovery_result_batch_reviewed(&mut self, ctx: &AuthContext, batch_id: u128, now: i64) -> (r: Result<
        DiscoveryResultBatch,
        AgentToolsError,
    >)
        ensures
            decision_outcome(old(self).store, final(self).store, r, *ctx, batch_id, BatchDecision::MarkReviewed, now),
    {
        self.decide_discovery_result_batch(ctx, batch_id, BatchDecision::MarkReviewed, now)
    }
}

} // verus!
