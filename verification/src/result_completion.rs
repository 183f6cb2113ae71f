//! Completing a leased Personal Discovery task into its one ordered batch of results.
use crate::agent_tools::{audited, record_harness_write, AgentTools};
use crate::auth::ids_contain;
use crate::candidates::{CandidateSubmission, CandidateSubmissionTarget};
use crate::error::{denies, not_found, validation, AgentToolsError, Denial};
use crate::outside::new_id;
use crate::personal_discovery::{plan_with_id, schedule_with_id};
use crate::result_batches::ready_event_for;
use crate::seqs::{first_index, first_match, lemma_first_index, lemma_first_index_at};
use crate::store::Store;
use crate::tasks::{authorized_discovery_task_mutation, find_task, mutation_check, task_index};
use crate::types::{
    AuthContext, DiscoveryPlan, DiscoveryResultBatch, DiscoveryResultBatchState, DiscoveryResultItem,
    DiscoveryResultNotificationState, DiscoveryResultsReadyEvent, DiscoveryTaskAttempt, DiscoveryTaskAttemptOutcome,
    DiscoveryTaskLease, DiscoveryTaskModel, DiscoveryTaskOrigin, DiscoveryTaskState, DiscoveryTaskTarget,
    HarnessWriteOperation, PersonalDiscoveryDeliveryMode,
};
use vstd::prelude::*;

verus! {

/// The results a worker hands in for its leased Personal Discovery task, in order.
#[derive(Debug)]
pub struct CompleteDiscoveryResultBatchRequest {
    pub task_id: u128,
    pub submission_ids: Vec<u128>,
}

/// The identifiers of `s` in order of first occurrence, each once.
pub open spec fn unique_ids(s: Seq<u128>) -> Seq<u128>
    decreases s.len(),
{
    if s.len() == 0 {
        s
    } else {
        let d = unique_ids(s.drop_last());
        if d.contains(s.last()) {
            d
        } else {
            d.push(s.last())
        }
    }
}

/// `unique_ids` keeps exactly the identifiers that occur.
pub proof fn lemma_unique_ids_contains(s: Seq<u128>, x: u128)
    ensures
        unique_ids(s).contains(x) <==> s.contains(x),
    decreases s.len(),
{
    if s.len() > 0 {
        let t = s.drop_last();
        let d = unique_ids(t);
        lemma_unique_ids_contains(t, x);
        lemma_unique_ids_contains(t, s.last());
        if s.contains(x) {
            let j = choose|j: int| 0 <= j < s.len() && s[j] == x;
            if j < t.len() {
                assert(t[j] == x);
            }
        }
        if t.contains(x) {
            let j = choose|j: int| 0 <= j < t.len() && t[j] == x;
            assert(s[j] == x);
        }
        assert(s[s.len() - 1] == s.last());
        if !d.contains(s.last()) {
            let e = d.push(s.last());
            assert(e[d.len() as int] == s.last());
            if d.contains(x) {
                let j = choose|j: int| 0 <= j < d.len() && d[j] == x;
                assert(e[j] == x);
            }
            if e.contains(x) {
                let j = choose|j: int| 0 <= j < e.len() && e[j] == x;
                if j < d.len() {
                    assert(d[j] == x);
                }
            }
        }
    }
}

pub open spec fn submission_with_id(id: u128) -> spec_fn(CandidateSubmission) -> bool {
    |c: CandidateSubmission| c.id == id
}

/// Checks one result: it must name this run, its plan and its User, and be
/// submitted under the caller's lease.
pub open spec fn result_check(s: Store, plan: DiscoveryPlan, task_id: u128, harness_id: u128, id: u128) -> Result<
    CandidateSubmission,
    Denial,
> {
    match first_match(s.candidate_submissions@, submission_with_id(id)) {
        None => Err(Denial::NotFound("Candidate Submission"@)),
        Some(c) => match c.target {
            CandidateSubmissionTarget::PersonalDiscovery { user_id, task_id: t, discovery_plan_id } => if t == task_id
                && discovery_plan_id == plan.id && user_id == plan.user_id && c.submitted_by == harness_id {
                Ok(c)
            } else {
                Err(Denial::Validation("submission is not a task-bound Personal Discovery result for this lease"@))
            },
            _ => Err(Denial::Validation("submission is not a task-bound Personal Discovery result for this lease"@)),
        },
    }
}

pub open spec fn result_refused(s: Store, plan: DiscoveryPlan, task_id: u128, harness_id: u128) -> spec_fn(u128) -> bool {
    |id: u128| result_check(s, plan, task_id, harness_id, id) is Err
}

/// The ordered items of batch `batch_id` for the results `ids`.
pub open spec fn result_items(s: Store, plan: DiscoveryPlan, task_id: u128, harness_id: u128, batch_id: u128, ids: Seq<u128>) -> Seq<
    DiscoveryResultItem,
> {
    Seq::new(
        ids.len(),
        |j: int|
            DiscoveryResultItem {
                batch_id,
                position: j as u64,
                candidate_id: result_check(s, plan, task_id, harness_id, ids[j])->Ok_0.candidate_id,
                submission_id: ids[j],
                review: None,
            },
    )
}

pub open spec fn batch_for_task(task_id: u128) -> spec_fn(DiscoveryResultBatch) -> bool {
    |b: DiscoveryResultBatch| b.task_id == task_id
}

/// The task after its leased attempt completes at `now`.
pub open spec fn completed_task(t: DiscoveryTaskModel, l: DiscoveryTaskLease, now: i64) -> DiscoveryTaskModel {
    DiscoveryTaskModel {
        attempts: t.attempts.push(
            DiscoveryTaskAttempt {
                harness_id: l.harness_id,
                started_at: l.claimed_at,
                finished_at: now,
                outcome: DiscoveryTaskAttemptOutcome::Completed,
            },
        ),
        state: DiscoveryTaskState::Completed,
        ..t
    }
}

/// The results-ready events after batch `b` of a task with origin `origin`:
/// a scheduled run records one for the batch (delivered as its schedule says,
/// queue-only when the schedule is gone), unless the batch already has one.
pub open spec fn events_after(s: Store, origin: DiscoveryTaskOrigin, b: DiscoveryResultBatch, now: i64) -> Seq<
    DiscoveryResultsReadyEvent,
> {
    match origin {
        DiscoveryTaskOrigin::PersonalScheduled { schedule_id } => if first_index(
            s.discovery_results_ready_events@,
            ready_event_for(b.id),
        ) >= 0 {
            s.discovery_results_ready_events@
        } else {
            s.discovery_results_ready_events@.push(
                DiscoveryResultsReadyEvent {
                    batch_id: b.id,
                    schedule_id,
                    user_id: b.user_id,
                    tenant_id: b.tenant_id,
                    delivery_mode: match first_match(s.personal_discovery_schedules@, schedule_with_id(schedule_id)) {
                        Some(sch) => sch.delivery_mode,
                        None => PersonalDiscoveryDeliveryMode::QueueOnly,
                    },
                    created_at: now,
                    notification_attempted_at: None,
                },
            )
        },
        _ => s.discovery_results_ready_events@,
    }
}

/// What completing task `request.task_id` by `ctx` at `now` does. Failures
/// change nothing; a task that already has a batch gives that batch back;
/// otherwise the batch is appended with one item per distinct submission in
/// the order given, the task records its completed attempt, a scheduled run's
/// results-ready event is recorded, and the write is attributed.
pub open spec fn completion_outcome(
    before: Store,
    after: Store,
    r: Result<DiscoveryResultBatch, AgentToolsError>,
    ctx: AuthContext,
    request: CompleteDiscoveryResultBatchRequest,
    now: i64,
) -> bool {
    let task_id = request.task_id;
    match mutation_check(before, ctx, task_id) {
        Err(d) => r matches Err(e) && denies(e, d) && after == before,
        Ok((pod, h)) => if pod is Some {
            r matches Err(e) && denies(e, Denial::Validation("complete_discovery_result_batch requires a Personal Discovery Task"@))
                && after == before
        } else {
            let i = task_index(before, task_id);
            let t = before.discovery_tasks@[i];
            let plan = first_match(before.discovery_plans@, plan_with_id(t.target->plan_id))->Some_0;
            let bi = first_index(before.discovery_result_batches@, batch_for_task(task_id));
            if bi >= 0 {
                r == Ok::<DiscoveryResultBatch, AgentToolsError>(before.discovery_result_batches@[bi]) && after == before
            } else if !(t.state matches DiscoveryTaskState::Leased(l) && l.harness_id == h && l.expires_at > now) {
                r matches Err(e) && denies(e, Denial::TaskLeaseRequired) && after == before
            } else {
                let ids = request.submission_ids@;
                let bad = first_match(ids, result_refused(before, plan, task_id, h));
                if bad is Some {
                    r matches Err(e) && denies(e, result_check(before, plan, task_id, h, bad->Some_0)->Err_0) && after == before
                } else {
                    r matches Ok(b) && {
                        &&& b.user_id == plan.user_id && b.tenant_id == plan.tenant_id && b.plan_id == plan.id
                        &&& b.task_id == task_id && b.state == DiscoveryResultBatchState::Ready
                        &&& b.notification_state == DiscoveryResultNotificationState::NotDelivered
                        &&& b.created_at == now && b.reviewed_at is None && b.dismissed_at is None
                        &&& after.discovery_result_batches@ == before.discovery_result_batches@.push(b)
                        &&& after.discovery_result_items@ == before.discovery_result_items@
                            + result_items(before, plan, task_id, h, b.id, unique_ids(ids))
                        &&& after.discovery_results_ready_events@ == events_after(before, t.origin, b, now)
                        &&& after.discovery_tasks@.len() == before.discovery_tasks@.len()
                        &&& after.discovery_tasks@[i]@ == completed_task(t@, t.state->Leased_0, now)
                        &&& forall|j: int|
                            0 <= j < before.discovery_tasks@.len() && j != i ==> after.discovery_tasks@[j]
                                == before.discovery_tasks@[j]
                        &&& audited(before.harness_write_audit@, after.harness_write_audit@, ctx,
                            HarnessWriteOperation::CompleteDiscoveryResultBatch, None)
                        &&& after == (Store {
                            discovery_result_batches: after.discovery_result_batches,
                            discovery_result_items: after.discovery_result_items,
                            discovery_results_ready_events: after.discovery_results_ready_events,
                            discovery_tasks: after.discovery_tasks,
                            harness_write_audit: after.harness_write_audit,
                            ..before
                        })
                    }
                }
            }
        },
    }
}

/// A task has at most one batch: once it completes into a batch, completing
/// it again gives that same batch back and changes nothing.
pub proof fn lemma_one_batch_per_task(
    before: Store,
    after: Store,
    r: Result<DiscoveryResultBatch, AgentToolsError>,
    ctx: AuthContext,
    request: CompleteDiscoveryResultBatchRequest,
    now: i64,
)
    requires
        completion_outcome(before, after, r, ctx, request, now),
        r is Ok,
    ensures
        first_match(after.discovery_result_batches@, batch_for_task(request.task_id)) == Some(r->Ok_0),
{
    let bi = first_index(before.discovery_result_batches@, batch_for_task(request.task_id));
    lemma_first_index(before.discovery_result_batches@, batch_for_task(request.task_id));
    if bi < 0 {
        let n = before.discovery_result_batches@.len() as int;
        assert forall|j: int| 0 <= j < n implies !batch_for_task(request.task_id)(#[trigger] after.discovery_result_batches@[j]) by {
            assert(after.discovery_result_batches@[j] == before.discovery_result_batches@[j]);
        }
        lemma_first_index_at(after.discovery_result_batches@, batch_for_task(request.task_id), n);
    }
}

/// The submission with identifier `id`, checked as a result of the task.
fn check_result(store: &Store, plan: &DiscoveryPlan, task_id: u128, harness_id: u128, id: u128) -> (r: Result<
    u128,
    AgentToolsError,
>)
    ensures
        match result_check(*store, *plan, task_id, harness_id, id) {
            Ok(c) => r == Ok::<u128, AgentToolsError>(c.candidate_id),
            Err(d) => r matches Err(e) && denies(e, d),
        },
{
    let all = &store.candidate_submissions;
    let mut k: usize = 0;
    while k < all.len() && all[k].id != id
        invariant
            k <= all@.len(),
            forall|j: int| 0 <= j < k ==> !submission_with_id(id)(#[trigger] all@[j]),
        decreases all@.len() - k,
    {
        k = k + 1;
    }
    proof { lemma_first_index_at(all@, submission_with_id(id), k as int); }
    if k == all.len() {
        return Err(not_found("Candidate Submission"));
    }
    let c = &all[k];
    let ok = match &c.target {
        CandidateSubmissionTarget::PersonalDiscovery { user_id, task_id: t, discovery_plan_id } => *t == task_id
            && *discovery_plan_id == plan.id && *user_id == plan.user_id && c.submitted_by == harness_id,
        _ => false,
    };
    if ok {
        Ok(c.candidate_id)
    } else {
        Err(validation("submission is not a task-bound Personal Discovery result for this lease"))
    }
}

impl AgentTools {
    /// Completes the caller's leased Personal Discovery task into one ordered
    /// Discovery Result Batch: each distinct submission becomes an item in the
    /// order given, and the task is completed. A task completes at most once:
    /// asking again gives its batch back.
    pub fn complete_discovery_result_batch(&mut self, ctx: &AuthContext, request: CompleteDiscoveryResultBatchRequest, now: i64) -> (r:
        Result<DiscoveryResultBatch, AgentToolsError>)
        ensures
            completion_outcome(old(self).store, final(self).store, r, *ctx, request, now),
    {
        let (pod_id, harness_id) = authorized_discovery_task_mutation(&self.store, ctx, request.task_id)?;
        if pod_id.is_some() {
            return Err(validation("complete_discovery_result_batch requires a Personal Discovery Task"));
        }
        let task_id = request.task_id;
        let i = match find_task(&self.store, task_id) {
            Some(i) => i,
            None => return Err(not_found("Discovery Task")),
        };
        let plan_id = match self.store.discovery_tasks[i].target {
            DiscoveryTaskTarget::Personal { plan_id } => plan_id,
            DiscoveryTaskTarget::Pod { .. } => return Err(validation("Personal Discovery Task missing plan")),
        };
        let plans = &self.store.discovery_plans;
        let mut p: usize = 0;
        while p < plans.len() && plans[p].id != plan_id
            invariant
                p <= plans@.len(),
                forall|j: int| 0 <= j < p ==> !plan_with_id(plan_id)(#[trigger] plans@[j]),
            decreases plans@.len() - p,
        {
            p = p + 1;
        }
        proof { lemma_first_index_at(plans@, plan_with_id(plan_id), p as int); }
        if p == plans.len() {
            return Err(not_found("Discovery Plan"));
        }
        let plan = plans[p];
        let batches = &self.store.discovery_result_batches;
        let mut b: usize = 0;
        while b < batches.len() && batches[b].task_id != task_id
            invariant
                b <= batches@.len(),
                forall|j: int| 0 <= j < b ==> !batch_for_task(task_id)(#[trigger] batches@[j]),
            decreases batches@.len() - b,
        {
            b = b + 1;
        }
        proof { lemma_first_index_at(batches@, batch_for_task(task_id), b as int); }
        if b < batches.len() {
            return Ok(batches[b]);
        }
        let lease = match self.store.discovery_tasks[i].state {
            DiscoveryTaskState::Leased(lease) => lease,
            _ => return Err(AgentToolsError::TaskLeaseRequired),
        };
        if lease.harness_id != harness_id || lease.expires_at <= now {
            return Err(AgentToolsError::TaskLeaseRequired);
        }
        let batch_id = new_id();
        let ids = &request.submission_ids;
        let mut seen: Vec<u128> = Vec::new();
        let mut items: Vec<DiscoveryResultItem> = Vec::new();
        let mut k: usize = 0;
        while k < ids.len()
            invariant
                k <= ids@.len(),
                *ids == request.submission_ids,
                self.store == old(self).store,
                task_id == request.task_id,
                mutation_check(self.store, *ctx, task_id) == Ok::<(Option<u128>, u128), Denial>((None, harness_id)),
                i == task_index(self.store, task_id),
                0 <= i < self.store.discovery_tasks@.len(),
                self.store.discovery_tasks@[i as int].target == (DiscoveryTaskTarget::Personal { plan_id }),
                first_match(self.store.discovery_plans@, plan_with_id(plan_id)) == Some(plan),
                first_index(self.store.discovery_result_batches@, batch_for_task(task_id)) < 0,
                self.store.discovery_tasks@[i as int].state == DiscoveryTaskState::Leased(lease),
                lease.harness_id == harness_id,
                lease.expires_at > now,
                seen@ == unique_ids(ids@.take(k as int)),
                items@ == result_items(self.store, plan, task_id, harness_id, batch_id, seen@),
                forall|j: int| 0 <= j < k ==> !result_refused(self.store, plan, task_id, harness_id)(#[trigger] ids@[j]),
            decreases ids@.len() - k,
        {
            let id = ids[k];
            proof {
                assert(ids@.take(k + 1).drop_last() =~= ids@.take(k as int));
                lemma_unique_ids_contains(ids@.take(k as int), id);
            }
            if !ids_contain(&seen, id) {
                let candidate_id = match check_result(&self.store, &plan, task_id, harness_id, id) {
                    Ok(c) => c,
                    Err(e) => {
                        proof {
                            assert(result_refused(self.store, plan, task_id, harness_id)(ids@[k as int]));
                            lemma_first_index_at(ids@, result_refused(self.store, plan, task_id, harness_id), k as int);
                        }
                        return Err(e);
                    },
                };
                let ghost before_items = items@;
                items.push(
                    DiscoveryResultItem { batch_id, position: seen.len() as u64, candidate_id, submission_id: id, review: None },
                );
                seen.push(id);
                assert(items@ =~= result_items(self.store, plan, task_id, harness_id, batch_id, seen@));
            } else {
                proof {
                    let j = choose|j: int| 0 <= j < ids@.take(k as int).len() && ids@.take(k as int)[j] == id;
                    assert(ids@[j] == id);
                }
            }
            k = k + 1;
        }
        proof {
            assert(ids@.take(ids@.len() as int) =~= ids@);
            lemma_first_index_at(ids@, result_refused(self.store, plan, task_id, harness_id), ids@.len() as int);
        }
        let batch = DiscoveryResultBatch {
            id: batch_id,
            user_id: plan.user_id,
            tenant_id: plan.tenant_id,
            plan_id: plan.id,
            task_id,
            state: DiscoveryResultBatchState::Ready,
            notification_state: DiscoveryResultNotificationState::NotDelivered,
            created_at: now,
            reviewed_at: None,
            dismissed_at: None,
        };
        let scheduled = match &self.store.discovery_tasks[i].origin {
            DiscoveryTaskOrigin::PersonalScheduled { schedule_id } => Some(*schedule_id),
            _ => None,
        };
        if let Some(schedule_id) = scheduled {
            let events = &self.store.discovery_results_ready_events;
            let mut e: usize = 0;
            while e < events.len() && events[e].batch_id != batch_id
                invariant
                    e <= events@.len(),
                    forall|j: int| 0 <= j < e ==> !ready_event_for(batch_id)(#[trigger] events@[j]),
                decreases events@.len() - e,
            {
                e = e + 1;
            }
            proof { lemma_first_index_at(events@, ready_event_for(batch_id), e as int); }
            if e == events.len() {
                let schedules = &self.store.personal_discovery_schedules;
                let mut q: usize = 0;
                while q < schedules.len() && schedules[q].id != schedule_id
                    invariant
                        q <= schedules@.len(),
                        forall|j: int| 0 <= j < q ==> !schedule_with_id(schedule_id)(#[trigger] schedules@[j]),
                    decreases schedules@.len() - q,
                {
                    q = q + 1;
                }
                proof { lemma_first_index_at(schedules@, schedule_with_id(schedule_id), q as int); }
                let delivery_mode = if q < schedules.len() {
                    schedules[q].delivery_mode
                } else {
                    PersonalDiscoveryDeliveryMode::QueueOnly
                };
                self.store.discovery_results_ready_events.push(
                    DiscoveryResultsReadyEvent {
                        batch_id,
                        schedule_id,
                        user_id: batch.user_id,
                        tenant_id: batch.tenant_id,
                        delivery_mode,
                        created_at: now,
                        notification_attempted_at: None,
                    },
                );
            }
        }
        self.store.discovery_result_batches.push(batch);
        self.store.discovery_result_items.append(&mut items);
        let mut task = self.store.discovery_tasks[i].clone();
        task.attempts.push(
            DiscoveryTaskAttempt {
                harness_id,
                started_at: lease.claimed_at,
                finished_at: now,
                outcome: DiscoveryTaskAttemptOutcome::Completed,
            },
        );
        task.state = DiscoveryTaskState::Completed;
        self.store.discovery_tasks.set(i, task);
        record_harness_write(&mut self.store, ctx, HarnessWriteOperation::CompleteDiscoveryResultBatch, None);
        Ok(batch)
    }
}

} // verus!
