//! The Discovery Task lease lifecycle: claiming, renewing, finishing, and
//! the recording of leases that ran out.
//!
//! A task's attempts form an append-only history. A task is retried until
//! it has used `MAX_DISCOVERY_TASK_ATTEMPTS` attempts, after which it fails
//! terminally; a completed or terminally failed task is never leased again.
use crate::agent_tools::{audited, record_harness_write, AgentTools};
use crate::auth::{authorize_harness, authorize_personal_discovery_execution, execution_check, harness_check};
use crate::error::{denies, forbidden, not_found, validation, yields, AgentToolsError, Denial};
use crate::catalog::pack_of;
use crate::outside::{checked_add_seconds, instant_plus_seconds, new_id, trim, trimmed};
use crate::personal_discovery::plan_with_id;
use crate::seqs::{first_index, first_match, lemma_first_index_at};
use crate::store::Store;
use crate::types::{
    AuthContext, DiscoveryTask, DiscoveryTaskAttempt, DiscoveryTaskAttemptOutcome, DiscoveryTaskLease, DiscoveryTaskModel,
    DiscoveryTaskOrigin, DiscoveryTaskState, DiscoveryTaskTarget, HarnessCapability, HarnessWriteOperation,
};
use vstd::prelude::*;

verus! {

/// How many attempts a task may use before it fails terminally.
pub const MAX_DISCOVERY_TASK_ATTEMPTS: usize = 3;

/// The state a task returns to after an unsuccessful attempt, given how many it has used.
pub open spec fn state_after_attempts(n: nat) -> DiscoveryTaskState {
    if n >= MAX_DISCOVERY_TASK_ATTEMPTS {
        DiscoveryTaskState::TerminalFailure
    } else {
        DiscoveryTaskState::Pending
    }
}

/// Whether the task is leased by a lease that is still live at `now`.
pub open spec fn live_lease(t: DiscoveryTaskModel, now: i64) -> bool {
    t.state matches DiscoveryTaskState::Leased(l) && l.expires_at > now
}

/// Whether the task can never run again.
pub open spec fn is_finished(t: DiscoveryTaskModel) -> bool {
    t.state == DiscoveryTaskState::Completed || t.state == DiscoveryTaskState::TerminalFailure
}

/// The task as it stands at `now`: a lease that ran out by `now` is written
/// into the history as an expired attempt, and the task becomes pending
/// again or, with its attempts used up, fails terminally.
pub open spec fn expired_lease_recorded(t: DiscoveryTaskModel, now: i64) -> DiscoveryTaskModel {
    match t.state {
        DiscoveryTaskState::Leased(lease) => if lease.expires_at > now {
            t
        } else {
            let attempts = t.attempts.push(DiscoveryTaskAttempt {
                harness_id: lease.harness_id,
                started_at: lease.claimed_at,
                finished_at: lease.expires_at,
                outcome: DiscoveryTaskAttemptOutcome::LeaseExpired,
            });
            DiscoveryTaskModel { attempts, state: state_after_attempts(attempts.len()), ..t }
        },
        _ => t,
    }
}

/// Claiming the task for harness `h` at `now` until `expires_at`: finished
/// tasks and tasks under a live lease are refused.
pub open spec fn claimed(t: DiscoveryTaskModel, h: u128, now: i64, expires_at: i64) -> Result<DiscoveryTaskModel, Denial> {
    let t1 = expired_lease_recorded(t, now);
    if is_finished(t1) {
        Err(Denial::TaskTerminal)
    } else if live_lease(t1, now) {
        Err(Denial::TaskLeaseConflict)
    } else {
        Ok(DiscoveryTaskModel {
            state: DiscoveryTaskState::Leased(DiscoveryTaskLease { harness_id: h, claimed_at: now, expires_at }),
            ..t1
        })
    }
}

/// Whether harness `h` holds a live lease on the task at `now`.
pub open spec fn holds_lease(t: DiscoveryTaskModel, h: u128, now: i64) -> bool {
    t.state matches DiscoveryTaskState::Leased(l) && l.harness_id == h && l.expires_at > now
}

/// Extending the live lease that harness `h` holds until `expires_at`.
pub open spec fn renewed(t: DiscoveryTaskModel, h: u128, now: i64, expires_at: i64) -> Result<DiscoveryTaskModel, Denial> {
    match t.state {
        DiscoveryTaskState::Leased(l) => if l.harness_id != h || l.expires_at <= now {
            Err(Denial::TaskLeaseRequired)
        } else {
            Ok(DiscoveryTaskModel {
                state: DiscoveryTaskState::Leased(DiscoveryTaskLease { expires_at, ..l }),
                ..t
            })
        },
        _ => Err(Denial::TaskLeaseRequired),
    }
}

/// Ending the attempt that harness `h` runs under its live lease, with
/// `outcome`: a success completes the task; a failure makes it pending again
/// or, with its attempts used up, fails it terminally. A Personal Discovery
/// task completes only through its result batch.
pub open spec fn finished(t: DiscoveryTaskModel, h: u128, now: i64, outcome: DiscoveryTaskAttemptOutcome) -> Result<
    DiscoveryTaskModel,
    Denial,
> {
    match t.state {
        DiscoveryTaskState::Leased(l) => if l.harness_id != h || l.expires_at <= now {
            Err(Denial::TaskLeaseRequired)
        } else if outcome == DiscoveryTaskAttemptOutcome::Completed && t.target is Personal {
            Err(Denial::Validation("Personal Discovery tasks complete only through complete_discovery_result_batch"@))
        } else {
            let attempts = t.attempts.push(DiscoveryTaskAttempt {
                harness_id: h,
                started_at: l.claimed_at,
                finished_at: now,
                outcome,
            });
            let state = if outcome == DiscoveryTaskAttemptOutcome::Completed {
                DiscoveryTaskState::Completed
            } else {
                state_after_attempts(attempts.len())
            };
            Ok(DiscoveryTaskModel { attempts, state, ..t })
        },
        _ => Err(Denial::TaskLeaseRequired),
    }
}

/// The bookkeeping every task keeps: it never holds more than the allowed
/// attempts, a task that can still run has attempts left, and a terminal
/// failure has used them all.
pub open spec fn task_wf(t: DiscoveryTaskModel) -> bool {
    &&& t.attempts.len() <= MAX_DISCOVERY_TASK_ATTEMPTS
    &&& (t.state is Pending || t.state is Leased) ==> t.attempts.len() < MAX_DISCOVERY_TASK_ATTEMPTS
    &&& t.state is TerminalFailure ==> t.attempts.len() == MAX_DISCOVERY_TASK_ATTEMPTS
}

/// Writes an expired lease into the task's history.
pub fn record_expired_lease(task: &mut DiscoveryTask, now: i64)
    ensures
        final(task)@ == expired_lease_recorded(old(task)@, now),
{
    let lease = match task.state {
        DiscoveryTaskState::Leased(lease) => lease,
        _ => return,
    };
    if lease.expires_at > now {
        return;
    }
    task.attempts.push(DiscoveryTaskAttempt {
        harness_id: lease.harness_id,
        started_at: lease.claimed_at,
        finished_at: lease.expires_at,
        outcome: DiscoveryTaskAttemptOutcome::LeaseExpired,
    });
    task.state = if task.attempts.len() >= MAX_DISCOVERY_TASK_ATTEMPTS {
        DiscoveryTaskState::TerminalFailure
    } else {
        DiscoveryTaskState::Pending
    };
}

/// The task as it stands at `now`.
pub fn task_with_expired_lease_recorded(task: DiscoveryTask, now: i64) -> (r: DiscoveryTask)
    ensures
        r@ == expired_lease_recorded(task@, now),
{
    let mut task = task;
    record_expired_lease(&mut task, now);
    task
}

/// A finished task is never claimed again.
pub proof fn lemma_finished_task_is_never_claimed(t: DiscoveryTaskModel, h: u128, now: i64, expires_at: i64)
    requires
        is_finished(t),
    ensures
        claimed(t, h, now, expires_at) == Err::<DiscoveryTaskModel, Denial>(Denial::TaskTerminal),
{
}

/// While a lease is live, no harness (its holder included) can claim the task.
pub proof fn lemma_live_lease_excludes_claims(t: DiscoveryTaskModel, h: u128, now: i64, expires_at: i64)
    requires
        live_lease(t, now),
    ensures
        claimed(t, h, now, expires_at) == Err::<DiscoveryTaskModel, Denial>(Denial::TaskLeaseConflict),
{
}

/// Only the harness holding a live lease may renew it or end the attempt.
pub proof fn lemma_only_the_holder_acts(
    t: DiscoveryTaskModel,
    h: u128,
    now: i64,
    expires_at: i64,
    outcome: DiscoveryTaskAttemptOutcome,
)
    requires
        !holds_lease(t, h, now),
    ensures
        renewed(t, h, now, expires_at) == Err::<DiscoveryTaskModel, Denial>(Denial::TaskLeaseRequired),
        finished(t, h, now, outcome) == Err::<DiscoveryTaskModel, Denial>(Denial::TaskLeaseRequired),
{
}

/// A claim hands the task to the claiming harness, which may then renew the
/// lease or end the attempt at any instant before the lease runs out.
pub proof fn lemma_claim_then_holder_acts(
    t: DiscoveryTaskModel,
    h: u128,
    now: i64,
    expires_at: i64,
    later: i64,
    renewed_until: i64,
)
    requires
        claimed(t, h, now, expires_at) is Ok,
        later < expires_at,
    ensures
        holds_lease(claimed(t, h, now, expires_at)->Ok_0, h, later),
        renewed(claimed(t, h, now, expires_at)->Ok_0, h, later, renewed_until) is Ok,
        finished(claimed(t, h, now, expires_at)->Ok_0, h, later, DiscoveryTaskAttemptOutcome::LeaseExpired) is Ok,
{
}

/// Every lease operation keeps the history append-only: the attempts before
/// are a prefix of the attempts after.
pub proof fn lemma_history_is_append_only(
    t: DiscoveryTaskModel,
    h: u128,
    now: i64,
    expires_at: i64,
    outcome: DiscoveryTaskAttemptOutcome,
)
    ensures
        expired_lease_recorded(t, now).attempts.take(t.attempts.len() as int) == t.attempts,
        claimed(t, h, now, expires_at) is Ok ==> claimed(t, h, now, expires_at)->Ok_0.attempts.take(
            t.attempts.len() as int,
        ) == t.attempts,
        renewed(t, h, now, expires_at) is Ok ==> renewed(t, h, now, expires_at)->Ok_0.attempts == t.attempts,
        finished(t, h, now, outcome) is Ok ==> finished(t, h, now, outcome)->Ok_0.attempts == t.attempts.push(
            finished(t, h, now, outcome)->Ok_0.attempts.last(),
        ),
{
    assert(t.attempts.push(DiscoveryTaskAttempt {
        harness_id: h,
        started_at: 0,
        finished_at: 0,
        outcome,
    }).take(t.attempts.len() as int) =~= t.attempts);
    match t.state {
        DiscoveryTaskState::Leased(lease) => {
            let a = DiscoveryTaskAttempt {
                harness_id: lease.harness_id,
                started_at: lease.claimed_at,
                finished_at: lease.expires_at,
                outcome: DiscoveryTaskAttemptOutcome::LeaseExpired,
            };
            assert(t.attempts.push(a).take(t.attempts.len() as int) =~= t.attempts);
        },
        _ => {
            assert(t.attempts.take(t.attempts.len() as int) =~= t.attempts);
        },
    }
}

/// A new task is well formed, and every lease operation keeps a task well
/// formed: no task is ever attempted more than `MAX_DISCOVERY_TASK_ATTEMPTS` times.
pub proof fn lemma_lease_operations_keep_task_wf(
    t: DiscoveryTaskModel,
    h: u128,
    now: i64,
    expires_at: i64,
    outcome: DiscoveryTaskAttemptOutcome,
)
    requires
        task_wf(t),
    ensures
        task_wf(DiscoveryTaskModel { state: DiscoveryTaskState::Pending, attempts: Seq::empty(), ..t }),
        task_wf(expired_lease_recorded(t, now)),
        claimed(t, h, now, expires_at) is Ok ==> task_wf(claimed(t, h, now, expires_at)->Ok_0),
        renewed(t, h, now, expires_at) is Ok ==> task_wf(renewed(t, h, now, expires_at)->Ok_0),
        finished(t, h, now, outcome) is Ok ==> task_wf(finished(t, h, now, outcome)->Ok_0),
{
}

pub open spec fn task_with_id(id: u128) -> spec_fn(DiscoveryTask) -> bool {
    |t: DiscoveryTask| t.id == id
}

/// The position of the task with identifier `id`, or -1.
pub open spec fn task_index(s: Store, id: u128) -> int {
    first_index(s.discovery_tasks@, task_with_id(id))
}

/// Who may see or work a task, yielding the task's Pod: a Pod task needs the
/// discovery-task capability on its Pod; a Personal Discovery task needs the
/// execution policy and must belong to the caller.
pub open spec fn task_check(s: Store, ctx: AuthContext, t: DiscoveryTask) -> Result<Option<u128>, Denial> {
    match t.target {
        DiscoveryTaskTarget::Pod { pod_id, .. } => match harness_check(s, ctx, HarnessCapability::DiscoveryTasks, Some(pod_id)) {
            Err(d) => Err(d),
            Ok(()) => Ok(Some(pod_id)),
        },
        DiscoveryTaskTarget::Personal { plan_id } => match execution_check(s, ctx) {
            Err(d) => Err(d),
            Ok(()) => match first_match(s.discovery_plans@, plan_with_id(plan_id)) {
                None => Err(Denial::NotFound("Discovery Plan"@)),
                Some(plan) => if ctx.user_id != Some(plan.user_id) || ctx.tenant_id != plan.tenant_id {
                    Err(Denial::Forbidden("Personal Discovery task belongs to another User"@))
                } else {
                    Ok(None)
                },
            },
        },
    }
}

/// Who may change a task: someone who may work it, through a harness.
/// Yields the task's Pod and the acting harness.
pub open spec fn mutation_check(s: Store, ctx: AuthContext, task_id: u128) -> Result<(Option<u128>, u128), Denial> {
    let i = task_index(s, task_id);
    if i < 0 {
        Err(Denial::NotFound("Discovery Task"@))
    } else {
        match task_check(s, ctx, s.discovery_tasks@[i]) {
            Err(d) => Err(d),
            Ok(pod) => match ctx.harness_id {
                None => Err(Denial::Forbidden("task mutation requires an Agent Harness"@)),
                Some(h) => Ok((pod, h)),
            },
        }
    }
}

/// `after` is `before` with the task at `i` (and nothing else) replaced by one whose value is `t`.
pub open spec fn task_replaced(before: Store, after: Store, i: int, t: DiscoveryTaskModel) -> bool {
    &&& 0 <= i < before.discovery_tasks@.len()
    &&& after.discovery_tasks@.len() == before.discovery_tasks@.len()
    &&& after.discovery_tasks@[i]@ == t
    &&& forall|j: int|
        0 <= j < before.discovery_tasks@.len() && j != i ==> after.discovery_tasks@[j] == before.discovery_tasks@[j]
    &&& after == (Store { discovery_tasks: after.discovery_tasks, ..before })
}

/// `after` is `before` with the task at `i` replaced by `t` and the write attributed.
pub open spec fn task_written(
    before: Store,
    after: Store,
    ctx: AuthContext,
    i: int,
    t: DiscoveryTaskModel,
    operation: HarnessWriteOperation,
    pod_id: Option<u128>,
) -> bool {
    &&& task_replaced(before, Store { harness_write_audit: before.harness_write_audit, ..after }, i, t)
    &&& audited(before.harness_write_audit@, after.harness_write_audit@, ctx, operation, pod_id)
}

/// The message of a lease whose end chrono cannot represent.
pub open spec fn unrepresentable_lease() -> Denial {
    Denial::Validation("lease expiration is outside the supported time range"@)
}

/// What claiming task `task_id` at `now` until `expires_at` does to the store and returns.
pub open spec fn claim_outcome(
    before: Store,
    after: Store,
    r: Result<DiscoveryTask, AgentToolsError>,
    ctx: AuthContext,
    task_id: u128,
    now: i64,
    expires_at: Option<i64>,
) -> bool {
    match mutation_check(before, ctx, task_id) {
        Err(d) => r matches Err(e) && denies(e, d) && after == before,
        Ok((pod, h)) => match expires_at {
            None => r matches Err(e) && denies(e, unrepresentable_lease()) && after == before,
            Some(exp) => {
                let i = task_index(before, task_id);
                let t = before.discovery_tasks@[i]@;
                match claimed(t, h, now, exp) {
                    Err(d) => r matches Err(e) && denies(e, d) && task_replaced(before, after, i, expired_lease_recorded(t, now)),
                    Ok(t2) => r matches Ok(x) && x@ == t2 && task_written(before, after, ctx, i, t2, HarnessWriteOperation::ClaimDiscoveryTask, pod),
                }
            },
        },
    }
}

/// What renewing the lease on task `task_id` at `now` until `expires_at` does to the store and returns.
pub open spec fn renew_outcome(
    before: Store,
    after: Store,
    r: Result<DiscoveryTask, AgentToolsError>,
    ctx: AuthContext,
    task_id: u128,
    now: i64,
    expires_at: Option<i64>,
) -> bool {
    match mutation_check(before, ctx, task_id) {
        Err(d) => r matches Err(e) && denies(e, d) && after == before,
        Ok((pod, h)) => match expires_at {
            None => r matches Err(e) && denies(e, unrepresentable_lease()) && after == before,
            Some(exp) => {
                let i = task_index(before, task_id);
                match renewed(before.discovery_tasks@[i]@, h, now, exp) {
                    Err(d) => r matches Err(e) && denies(e, d) && after == before,
                    Ok(t2) => r matches Ok(x) && x@ == t2 && task_written(before, after, ctx, i, t2, HarnessWriteOperation::RenewDiscoveryTaskLease, pod),
                }
            },
        },
    }
}

/// The outcome an attempt ends with: success, or failure for `reason`.
pub open spec fn attempt_outcome(failure: Option<String>) -> DiscoveryTaskAttemptOutcome {
    match failure {
        None => DiscoveryTaskAttemptOutcome::Completed,
        Some(reason) => DiscoveryTaskAttemptOutcome::Failed { reason },
    }
}

/// What ending the attempt on task `task_id` at `now` with `outcome` does to the store and returns.
pub open spec fn finish_outcome(
    before: Store,
    after: Store,
    r: Result<DiscoveryTask, AgentToolsError>,
    ctx: AuthContext,
    task_id: u128,
    now: i64,
    outcome: DiscoveryTaskAttemptOutcome,
) -> bool {
    match mutation_check(before, ctx, task_id) {
        Err(d) => r matches Err(e) && denies(e, d) && after == before,
        Ok((pod, h)) => {
            let i = task_index(before, task_id);
            match finished(before.discovery_tasks@[i]@, h, now, outcome) {
                Err(d) => r matches Err(e) && denies(e, d) && after == before,
                Ok(t2) => r matches Ok(x) && x@ == t2 && task_written(
                    before,
                    after,
                    ctx,
                    i,
                    t2,
                    if t2.state == DiscoveryTaskState::Completed {
                        HarnessWriteOperation::CompleteDiscoveryTask
                    } else {
                        HarnessWriteOperation::FailDiscoveryTask
                    },
                    pod,
                ),
            }
        },
    }
}

/// Which task the caller sees at `now`, and as what.
pub open spec fn task_status(s: Store, ctx: AuthContext, task_id: u128, now: i64) -> Result<DiscoveryTaskModel, Denial> {
    let i = task_index(s, task_id);
    if i < 0 {
        Err(Denial::NotFound("Discovery Task"@))
    } else {
        match task_check(s, ctx, s.discovery_tasks@[i]) {
            Err(d) => Err(d),
            Ok(_) => Ok(expired_lease_recorded(s.discovery_tasks@[i]@, now)),
        }
    }
}

/// Who may list tasks: a worker of Pod tasks or of Personal Discovery.
pub open spec fn task_list_check(s: Store, ctx: AuthContext) -> Result<(), Denial> {
    match harness_check(s, ctx, HarnessCapability::DiscoveryTasks, None) {
        Ok(()) => Ok(()),
        Err(d) => if execution_check(s, ctx) is Ok {
            Ok(())
        } else {
            Err(d)
        },
    }
}

pub open spec fn task_visible(s: Store, ctx: AuthContext) -> spec_fn(DiscoveryTask) -> bool {
    |t: DiscoveryTask| task_check(s, ctx, t) is Ok
}

pub open spec fn task_as_of(now: i64) -> spec_fn(DiscoveryTask) -> DiscoveryTaskModel {
    |t: DiscoveryTask| expired_lease_recorded(t@, now)
}

/// The tasks the caller sees, in store order, as they stand at `now`.
pub open spec fn visible_tasks(s: Store, ctx: AuthContext, now: i64) -> Seq<DiscoveryTaskModel> {
    s.discovery_tasks@.filter(task_visible(s, ctx)).map_values(task_as_of(now))
}

/// A task that can be claimed at `now`: pending and due.
pub open spec fn ready_at(now: i64) -> spec_fn(DiscoveryTaskModel) -> bool {
    |t: DiscoveryTaskModel| t.state == DiscoveryTaskState::Pending && t.due_at <= now
}

pub open spec fn task_view() -> spec_fn(DiscoveryTask) -> DiscoveryTaskModel {
    |t: DiscoveryTask| t@
}

/// A request for conversational discovery work on one Pod, now.
#[derive(Debug)]
pub struct CreateImmediateDiscoveryTaskRequest {
    pub pod_id: u128,
    pub instructions: String,
    pub idempotency_key: String,
}

/// An immediate task that harness `h` asked for under idempotency key `key`.
pub open spec fn immediate_task_of(h: u128, key: Seq<char>) -> spec_fn(DiscoveryTask) -> bool {
    |t: DiscoveryTask|
        t.origin matches DiscoveryTaskOrigin::Immediate { idempotency_key, requested_by, .. } && requested_by == h
            && idempotency_key@ == key
}

/// The task an immediate request creates, given its identifier and the Pod Package version.
pub open spec fn immediate_task(
    id: u128,
    request: CreateImmediateDiscoveryTaskRequest,
    h: u128,
    package_version: u64,
    now: i64,
) -> DiscoveryTaskModel {
    DiscoveryTaskModel {
        id,
        target: DiscoveryTaskTarget::Pod { pod_id: request.pod_id, package_version },
        origin: DiscoveryTaskOrigin::Immediate {
            instructions: request.instructions,
            idempotency_key: request.idempotency_key,
            requested_by: h,
        },
        due_at: now,
        state: DiscoveryTaskState::Pending,
        attempts: Seq::empty(),
        created_at: now,
    }
}

/// Finds a task by identifier.
pub fn find_task(store: &Store, id: u128) -> (r: Option<usize>)
    ensures
        match r {
            Some(i) => i < store.discovery_tasks@.len() && i == task_index(*store, id),
            None => task_index(*store, id) < 0,
        },
{
    let tasks = &store.discovery_tasks;
    let mut i: usize = 0;
    while i < tasks.len() && tasks[i].id != id
        invariant
            i <= tasks@.len(),
            forall|j: int| 0 <= j < i ==> !task_with_id(id)(#[trigger] tasks@[j]),
        decreases tasks@.len() - i,
    {
        i = i + 1;
    }
    proof { lemma_first_index_at(tasks@, task_with_id(id), i as int); }
    if i < tasks.len() {
        Some(i)
    } else {
        None
    }
}

/// Checks that the caller may see or work `task`, and returns its Pod.
pub fn authorize_discovery_task(store: &Store, ctx: &AuthContext, task: &DiscoveryTask) -> (r: Result<Option<u128>, AgentToolsError>)
    ensures
        yields(r, task_check(*store, *ctx, *task)),
{
    match task.target {
        DiscoveryTaskTarget::Pod { pod_id, .. } => {
            authorize_harness(store, ctx, HarnessCapability::DiscoveryTasks, Some(pod_id))?;
            Ok(Some(pod_id))
        },
        DiscoveryTaskTarget::Personal { plan_id } => {
            authorize_personal_discovery_execution(store, ctx)?;
            let plans = &store.discovery_plans;
            let mut i: usize = 0;
            while i < plans.len() && plans[i].id != plan_id
                invariant
                    i <= plans@.len(),
                    forall|j: int| 0 <= j < i ==> !plan_with_id(plan_id)(#[trigger] plans@[j]),
                decreases plans@.len() - i,
            {
                i = i + 1;
            }
            proof { lemma_first_index_at(plans@, plan_with_id(plan_id), i as int); }
            if i == plans.len() {
                return Err(not_found("Discovery Plan"));
            }
            let plan = plans[i];
            if ctx.user_id != Some(plan.user_id) || ctx.tenant_id != plan.tenant_id {
                return Err(forbidden("Personal Discovery task belongs to another User"));
            }
            Ok(None)
        },
    }
}

/// Checks that the caller may change task `task_id`; returns its Pod and the acting harness.
pub fn authorized_discovery_task_mutation(store: &Store, ctx: &AuthContext, task_id: u128) -> (r: Result<
    (Option<u128>, u128),
    AgentToolsError,
>)
    ensures
        yields(r, mutation_check(*store, *ctx, task_id)),
{
    let i = match find_task(store, task_id) {
        Some(i) => i,
        None => return Err(not_found("Discovery Task")),
    };
    let pod_id = authorize_discovery_task(store, ctx, &store.discovery_tasks[i])?;
    match ctx.harness_id {
        Some(h) => Ok((pod_id, h)),
        None => Err(forbidden("task mutation requires an Agent Harness")),
    }
}

impl AgentTools {
    /// Claims pending or safely expired work for the calling harness until
    /// `expires_at` (`None` when the lease's end cannot be represented).
    pub fn claim_discovery_task_until(&mut self, ctx: &AuthContext, task_id: u128, now: i64, expires_at: Option<i64>) -> (r: Result<
        DiscoveryTask,
        AgentToolsError,
    >)
        ensures
            claim_outcome(old(self).store, final(self).store, r, *ctx, task_id, now, expires_at),
    {
        let (pod_id, harness_id) = authorized_discovery_task_mutation(&self.store, ctx, task_id)?;
        let expires_at = match expires_at {
            Some(t) => t,
            None => return Err(validation("lease expiration is outside the supported time range")),
        };
        let i = match find_task(&self.store, task_id) {
            Some(i) => i,
            None => return Err(not_found("Discovery Task")),
        };
        let mut task = self.store.discovery_tasks[i].clone();
        record_expired_lease(&mut task, now);
        let refusal = match task.state {
            DiscoveryTaskState::Completed | DiscoveryTaskState::TerminalFailure => Some(AgentToolsError::TaskTerminal),
            DiscoveryTaskState::Leased(lease) => if lease.expires_at > now {
                Some(AgentToolsError::TaskLeaseConflict)
            } else {
                None
            },
            DiscoveryTaskState::Pending => None,
        };
        if let Some(e) = refusal {
            self.store.discovery_tasks.set(i, task);
            return Err(e);
        }
        task.state = DiscoveryTaskState::Leased(DiscoveryTaskLease { harness_id, claimed_at: now, expires_at });
        let result = task.clone();
        self.store.discovery_tasks.set(i, task);
        record_harness_write(&mut self.store, ctx, HarnessWriteOperation::ClaimDiscoveryTask, pod_id);
        Ok(result)
    }

    /// Claims pending or safely expired work for the calling harness for
    /// `lease_seconds` seconds from `now`.
    pub fn claim_discovery_task(&mut self, ctx: &AuthContext, task_id: u128, now: i64, lease_seconds: u32) -> (r: Result<
        DiscoveryTask,
        AgentToolsError,
    >)
        ensures
            claim_outcome(old(self).store, final(self).store, r, *ctx, task_id, now, instant_plus_seconds(now, lease_seconds)),
    {
        let expires_at = checked_add_seconds(now, lease_seconds);
        self.claim_discovery_task_until(ctx, task_id, now, expires_at)
    }

    /// Extends the live lease the calling harness holds until `expires_at`
    /// (`None` when the new end cannot be represented).
    pub fn renew_discovery_task_lease_until(&mut self, ctx: &AuthContext, task_id: u128, now: i64, expires_at: Option<i64>) -> (r: Result<
        DiscoveryTask,
        AgentToolsError,
    >)
        ensures
            renew_outcome(old(self).store, final(self).store, r, *ctx, task_id, now, expires_at),
    {
        let (pod_id, harness_id) = authorized_discovery_task_mutation(&self.store, ctx, task_id)?;
        let expires_at = match expires_at {
            Some(t) => t,
            None => return Err(validation("lease expiration is outside the supported time range")),
        };
        let i = match find_task(&self.store, task_id) {
            Some(i) => i,
            None => return Err(not_found("Discovery Task")),
        };
        let lease = match self.store.discovery_tasks[i].state {
            DiscoveryTaskState::Leased(lease) => lease,
            _ => return Err(AgentToolsError::TaskLeaseRequired),
        };
        if lease.harness_id != harness_id || lease.expires_at <= now {
            return Err(AgentToolsError::TaskLeaseRequired);
        }
        let mut task = self.store.discovery_tasks[i].clone();
        task.state = DiscoveryTaskState::Leased(DiscoveryTaskLease { expires_at, ..lease });
        let result = task.clone();
        self.store.discovery_tasks.set(i, task);
        record_harness_write(&mut self.store, ctx, HarnessWriteOperation::RenewDiscoveryTaskLease, pod_id);
        Ok(result)
    }

    /// Extends the live lease the calling harness holds by `lease_seconds` seconds from `now`.
    pub fn renew_discovery_task_lease(&mut self, ctx: &AuthContext, task_id: u128, now: i64, lease_seconds: u32) -> (r: Result<
        DiscoveryTask,
        AgentToolsError,
    >)
        ensures
            renew_outcome(old(self).store, final(self).store, r, *ctx, task_id, now, instant_plus_seconds(now, lease_seconds)),
    {
        let expires_at = checked_add_seconds(now, lease_seconds);
        self.renew_discovery_task_lease_until(ctx, task_id, now, expires_at)
    }
}

impl AgentTools {
    /// Ends the attempt the calling harness runs under its live lease: with
    /// `failure` absent it succeeds, otherwise it fails for that reason.
    pub fn finish_discovery_task(&mut self, ctx: &AuthContext, task_id: u128, now: i64, failure: Option<String>) -> (r: Result<
        DiscoveryTask,
        AgentToolsError,
    >)
        ensures
            finish_outcome(old(self).store, final(self).store, r, *ctx, task_id, now, attempt_outcome(failure)),
    {
        let (pod_id, harness_id) = authorized_discovery_task_mutation(&self.store, ctx, task_id)?;
        let i = match find_task(&self.store, task_id) {
            Some(i) => i,
            None => return Err(not_found("Discovery Task")),
        };
        let lease = match self.store.discovery_tasks[i].state {
            DiscoveryTaskState::Leased(lease) => lease,
            _ => return Err(AgentToolsError::TaskLeaseRequired),
        };
        if lease.harness_id != harness_id || lease.expires_at <= now {
            return Err(AgentToolsError::TaskLeaseRequired);
        }
        let completes = failure.is_none();
        let personal = match self.store.discovery_tasks[i].target {
            DiscoveryTaskTarget::Personal { .. } => true,
            DiscoveryTaskTarget::Pod { .. } => false,
        };
        if completes && personal {
            return Err(validation("Personal Discovery tasks complete only through complete_discovery_result_batch"));
        }
        let outcome = match failure {
            Some(reason) => DiscoveryTaskAttemptOutcome::Failed { reason },
            None => DiscoveryTaskAttemptOutcome::Completed,
        };
        let mut task = self.store.discovery_tasks[i].clone();
        task.attempts.push(DiscoveryTaskAttempt { harness_id, started_at: lease.claimed_at, finished_at: now, outcome });
        task.state = if completes {
            DiscoveryTaskState::Completed
        } else if task.attempts.len() >= MAX_DISCOVERY_TASK_ATTEMPTS {
            DiscoveryTaskState::TerminalFailure
        } else {
            DiscoveryTaskState::Pending
        };
        let result = task.clone();
        self.store.discovery_tasks.set(i, task);
        let operation = if completes {
            HarnessWriteOperation::CompleteDiscoveryTask
        } else {
            HarnessWriteOperation::FailDiscoveryTask
        };
        record_harness_write(&mut self.store, ctx, operation, pod_id);
        Ok(result)
    }

    /// Completes an actively leased Pod task and records its successful attempt.
    pub fn complete_discovery_task(&mut self, ctx: &AuthContext, task_id: u128, now: i64) -> (r: Result<DiscoveryTask, AgentToolsError>)
        ensures
            finish_outcome(old(self).store, final(self).store, r, *ctx, task_id, now, DiscoveryTaskAttemptOutcome::Completed),
    {
        self.finish_discovery_task(ctx, task_id, now, None)
    }

    /// Fails an actively leased task for `reason`, making it retryable or
    /// terminal by its history; a blank reason is refused.
    pub fn fail_discovery_task(&mut self, ctx: &AuthContext, task_id: u128, now: i64, reason: String) -> (r: Result<
        DiscoveryTask,
        AgentToolsError,
    >)
        ensures
            if trimmed(reason@).len() == 0 {
                r matches Err(e) && denies(e, Denial::Validation("failure reason must not be empty"@))
                    && final(self).store == old(self).store
            } else {
                finish_outcome(
                    old(self).store,
                    final(self).store,
                    r,
                    *ctx,
                    task_id,
                    now,
                    DiscoveryTaskAttemptOutcome::Failed { reason },
                )
            },
    {
        if trim(reason.as_str()).unicode_len() == 0 {
            return Err(validation("failure reason must not be empty"));
        }
        self.finish_discovery_task(ctx, task_id, now, Some(reason))
    }

    /// Returns one visible task, as it stands at `now`, with its retry history.
    pub fn discovery_task_status(&self, ctx: &AuthContext, task_id: u128, now: i64) -> (r: Result<DiscoveryTask, AgentToolsError>)
        ensures
            match task_status(self.store, *ctx, task_id, now) {
                Ok(t) => r matches Ok(x) && x@ == t,
                Err(d) => r matches Err(e) && denies(e, d),
            },
    {
        let i = match find_task(&self.store, task_id) {
            Some(i) => i,
            None => return Err(not_found("Discovery Task")),
        };
        authorize_discovery_task(&self.store, ctx, &self.store.discovery_tasks[i])?;
        Ok(task_with_expired_lease_recorded(self.store.discovery_tasks[i].clone(), now))
    }

    /// Lists the tasks the caller may see, in store order, each as it stands
    /// at `now` (an expired lease shows as a recorded attempt).
    pub fn list_discovery_tasks(&self, ctx: &AuthContext, now: i64) -> (r: Result<Vec<DiscoveryTask>, AgentToolsError>)
        ensures
            match task_list_check(self.store, *ctx) {
                Err(d) => r matches Err(e) && denies(e, d),
                Ok(()) => r matches Ok(v) && v@.map_values(task_view()) == visible_tasks(self.store, *ctx, now),
            },
    {
        let personal = authorize_personal_discovery_execution(&self.store, ctx);
        let pods = authorize_harness(&self.store, ctx, HarnessCapability::DiscoveryTasks, None);
        if personal.is_err() {
            if let Err(e) = pods {
                return Err(e);
            }
        }
        let store = &self.store;
        let all = &store.discovery_tasks;
        let ghost p = task_visible(*store, *ctx);
        let ghost f = task_as_of(now);
        let mut out: Vec<DiscoveryTask> = Vec::new();
        let mut i: usize = 0;
        while i < all.len()
            invariant
                *store == self.store,
                *all == store.discovery_tasks,
                p == task_visible(*store, *ctx),
                f == task_as_of(now),
                i <= all@.len(),
                out@.map_values(task_view()) == all@.take(i as int).filter(p).map_values(f),
            decreases all@.len() - i,
        {
            proof { crate::seqs::lemma_filter_map_step(all@, p, f, i as int); }
            let ghost before = out@;
            if authorize_discovery_task(store, ctx, &all[i]).is_ok() {
                let t = task_with_expired_lease_recorded(all[i].clone(), now);
                out.push(t);
                assert(out@.map_values(task_view()) =~= before.map_values(task_view()).push(t@));
            }
            i = i + 1;
        }
        assert(all@.take(all@.len() as int) =~= all@);
        Ok(out)
    }

    /// Lists only the visible tasks that can be claimed at `now`: pending and due,
    /// including work whose lease has safely expired.
    pub fn list_ready_discovery_tasks(&self, ctx: &AuthContext, now: i64) -> (r: Result<Vec<DiscoveryTask>, AgentToolsError>)
        ensures
            match task_list_check(self.store, *ctx) {
                Err(d) => r matches Err(e) && denies(e, d),
                Ok(()) => r matches Ok(v) && v@.map_values(task_view()) == visible_tasks(self.store, *ctx, now).filter(
                    ready_at(now),
                ),
            },
    {
        let all = self.list_discovery_tasks(ctx, now)?;
        let ghost models = all@.map_values(task_view());
        let ghost q = ready_at(now);
        let mut out: Vec<DiscoveryTask> = Vec::new();
        let mut i: usize = 0;
        while i < all.len()
            invariant
                models == all@.map_values(task_view()),
                q == ready_at(now),
                i <= all@.len(),
                out@.map_values(task_view()) == models.take(i as int).filter(q),
            decreases all@.len() - i,
        {
            proof { crate::seqs::lemma_filter_take_step(models, q, i as int); }
            let ghost before = out@;
            assert(models[i as int] == all@[i as int]@);
            if all[i].state == DiscoveryTaskState::Pending && all[i].due_at <= now {
                let t = all[i].clone();
                out.push(t);
                assert(out@.map_values(task_view()) =~= before.map_values(task_view()).push(t@));
            }
            i = i + 1;
        }
        assert(models.take(all@.len() as int) =~= models);
        Ok(out)
    }
}

impl AgentTools {
    /// Creates immediate conversational discovery work on a Pod through the
    /// task contract; a repeated request (same harness, same idempotency key)
    /// returns the task it created before.
    pub fn create_immediate_discovery_task(
        &mut self,
        ctx: &AuthContext,
        request: CreateImmediateDiscoveryTaskRequest,
        now: i64,
    ) -> (r: Result<DiscoveryTask, AgentToolsError>)
        ensures
            match harness_check(old(self).store, *ctx, HarnessCapability::DiscoveryTasks, Some(request.pod_id)) {
                Err(d) => r matches Err(e) && denies(e, d) && final(self).store == old(self).store,
                Ok(()) => match ctx.harness_id {
                    None => r matches Err(e) && denies(e, Denial::Forbidden("immediate tasks require an Agent Harness"@))
                        && final(self).store == old(self).store,
                    Some(h) => if trimmed(request.instructions@).len() == 0 || trimmed(request.idempotency_key@).len() == 0 {
                        r matches Err(e) && denies(
                            e,
                            Denial::Validation("immediate task instructions and idempotency key must not be empty"@),
                        ) && final(self).store == old(self).store
                    } else {
                        match first_match(old(self).store.discovery_tasks@, immediate_task_of(h, request.idempotency_key@)) {
                            Some(t) => r matches Ok(x) && x@ == t@ && final(self).store == old(self).store,
                            None => match first_match(old(self).store.pod_skill_packs@, pack_of(request.pod_id)) {
                                None => r matches Err(e) && denies(e, Denial::NotFound("Pod Package"@))
                                    && final(self).store == old(self).store,
                                Some(package) => r matches Ok(x) && {
                                    &&& x@ == immediate_task(x.id, request, h, package.version, now)
                                    &&& final(self).store.discovery_tasks@.len() == old(self).store.discovery_tasks@.len() + 1
                                    &&& final(self).store.discovery_tasks@.drop_last() == old(self).store.discovery_tasks@
                                    &&& final(self).store.discovery_tasks@.last()@ == x@
                                    &&& audited(old(self).store.harness_write_audit@, final(self).store.harness_write_audit@,
                                        *ctx, HarnessWriteOperation::CreateDiscoveryTask, Some(request.pod_id))
                                    &&& final(self).store == (Store {
                                        discovery_tasks: final(self).store.discovery_tasks,
                                        harness_write_audit: final(self).store.harness_write_audit,
                                        ..old(self).store
                                    })
                                },
                            },
                        }
                    },
                },
            },
    {
        authorize_harness(&self.store, ctx, HarnessCapability::DiscoveryTasks, Some(request.pod_id))?;
        let requested_by = match ctx.harness_id {
            Some(h) => h,
            None => return Err(forbidden("immediate tasks require an Agent Harness")),
        };
        if trim(request.instructions.as_str()).unicode_len() == 0 || trim(request.idempotency_key.as_str()).unicode_len() == 0 {
            return Err(validation("immediate task instructions and idempotency key must not be empty"));
        }
        let tasks = &self.store.discovery_tasks;
        let mut i: usize = 0;
        while i < tasks.len()
            invariant
                i <= tasks@.len(),
                *tasks == self.store.discovery_tasks,
                harness_check(self.store, *ctx, HarnessCapability::DiscoveryTasks, Some(request.pod_id)) is Ok,
                ctx.harness_id == Some(requested_by),
                !(trimmed(request.instructions@).len() == 0 || trimmed(request.idempotency_key@).len() == 0),
                forall|j: int| 0 <= j < i ==> !immediate_task_of(requested_by, request.idempotency_key@)(#[trigger] tasks@[j]),
            decreases tasks@.len() - i,
        {
            let same = match &tasks[i].origin {
                DiscoveryTaskOrigin::Immediate { idempotency_key, requested_by: creator, .. } => *creator == requested_by
                    && *idempotency_key == request.idempotency_key,
                _ => false,
            };
            if same {
                proof { lemma_first_index_at(tasks@, immediate_task_of(requested_by, request.idempotency_key@), i as int); }
                return Ok(tasks[i].clone());
            }
            i = i + 1;
        }
        proof { lemma_first_index_at(tasks@, immediate_task_of(requested_by, request.idempotency_key@), i as int); }
        let packs = &self.store.pod_skill_packs;
        let mut k: usize = 0;
        while k < packs.len() && packs[k].pod_id != request.pod_id
            invariant
                k <= packs@.len(),
                forall|j: int| 0 <= j < k ==> !pack_of(request.pod_id)(#[trigger] packs@[j]),
            decreases packs@.len() - k,
        {
            k = k + 1;
        }
        proof { lemma_first_index_at(packs@, pack_of(request.pod_id), k as int); }
        if k == packs.len() {
            return Err(not_found("Pod Package"));
        }
        let package_version = packs[k].version;
        let pod_id = request.pod_id;
        let ghost req = request;
        let task = DiscoveryTask {
            id: new_id(),
            target: DiscoveryTaskTarget::Pod { pod_id, package_version },
            origin: DiscoveryTaskOrigin::Immediate {
                instructions: request.instructions,
                idempotency_key: request.idempotency_key,
                requested_by,
            },
            due_at: now,
            state: DiscoveryTaskState::Pending,
            attempts: Vec::new(),
            created_at: now,
        };
        assert(task@ == immediate_task(task.id, req, requested_by, package_version, now));
        let result = task.clone();
        self.store.discovery_tasks.push(task);
        record_harness_write(&mut self.store, ctx, HarnessWriteOperation::CreateDiscoveryTask, Some(pod_id));
        Ok(result)
    }
}

} // verus!
