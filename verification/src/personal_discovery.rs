//! The private Personal Discovery surface: result batches, plans, watches,
//! schedules and notices, readable only by their own User.
use crate::agent_tools::{audited, record_harness_write, AgentTools};
use crate::auth::{authorize_personal_discovery_execution, authorize_personal_discovery_management, execution_check, management_check};
use crate::error::{denies, forbidden, not_found, validation, AgentToolsError, Denial};
use crate::seqs::{any_match, first_index, first_match, lemma_filter_map_step, lemma_first_index, lemma_first_index_at, payloads, sort_by_key, stable_sort, strip_keys};
use crate::outside::{byte_len, utf8_len};
use crate::store::Store;
use crate::types::{
    AuthContext, AuthenticationNeededNotice, DiscoveryPlan, DiscoveryResultBatch, DiscoveryTask, DiscoveryTaskSourceAvailability,
    DiscoveryTaskState, DiscoveryTaskTarget, HarnessWriteOperation, PersonalDiscoverySchedule, UserContext, UserWatch,
};
use vstd::prelude::*;

verus! {

/// The management policy, then an authenticated User: the owner every private read needs.
pub open spec fn private_owner(s: Store, ctx: AuthContext) -> Result<u128, Denial> {
    match management_check(s, ctx) {
        Err(d) => Err(d),
        Ok(()) => match ctx.user_id {
            None => Err(Denial::Validation("Personal Discovery requires an authenticated User"@)),
            Some(u) => Ok(u),
        },
    }
}

/// The schedule-read policy: management, or else execution.
pub open spec fn schedule_read_check(s: Store, ctx: AuthContext) -> Result<(), Denial> {
    if management_check(s, ctx) is Ok {
        Ok(())
    } else {
        execution_check(s, ctx)
    }
}

pub open spec fn batch_owned_by(user_id: u128, tenant_id: Option<u128>) -> spec_fn(DiscoveryResultBatch) -> bool {
    |b: DiscoveryResultBatch| b.user_id == user_id && b.tenant_id == tenant_id
}

pub open spec fn batch_key() -> spec_fn(DiscoveryResultBatch) -> ((i64, u128), DiscoveryResultBatch) {
    |b: DiscoveryResultBatch| ((b.created_at, b.id), b)
}

pub open spec fn batch_with_id(id: u128) -> spec_fn(DiscoveryResultBatch) -> bool {
    |b: DiscoveryResultBatch| b.id == id
}

pub open spec fn plan_with_id(id: u128) -> spec_fn(DiscoveryPlan) -> bool {
    |p: DiscoveryPlan| p.id == id
}

pub open spec fn watch_owned_by(user_id: u128, tenant_id: Option<u128>) -> spec_fn(UserWatch) -> bool {
    |w: UserWatch| w.user_id == user_id && w.tenant_id == tenant_id
}

pub open spec fn watch_key() -> spec_fn(UserWatch) -> ((i64, u128), UserWatch) {
    |w: UserWatch| ((w.created_at, w.id), w)
}

pub open spec fn watch_with_id(id: u128) -> spec_fn(UserWatch) -> bool {
    |w: UserWatch| w.id == id
}

pub open spec fn notice_owned_by(user_id: u128, tenant_id: Option<u128>) -> spec_fn(AuthenticationNeededNotice) -> bool {
    |n: AuthenticationNeededNotice| n.user_id == user_id && n.tenant_id == tenant_id
}

pub open spec fn notice_key() -> spec_fn(AuthenticationNeededNotice) -> ((i64, u128), AuthenticationNeededNotice) {
    |n: AuthenticationNeededNotice| ((n.first_emitted_at, n.id), n)
}

pub open spec fn availability_of(task_id: u128) -> spec_fn(DiscoveryTaskSourceAvailability) -> bool {
    |a: DiscoveryTaskSourceAvailability| a.task_id == task_id
}

pub open spec fn schedule_with_id(id: u128) -> spec_fn(PersonalDiscoverySchedule) -> bool {
    |p: PersonalDiscoverySchedule| p.id == id
}

/// A task of plan `plan_id` leased by harness `harness_id` beyond instant `now`.
pub open spec fn leased_plan_task(plan_id: u128, harness_id: u128, now: i64) -> spec_fn(DiscoveryTask) -> bool {
    |t: DiscoveryTask| t.target == (DiscoveryTaskTarget::Personal { plan_id }) && match t.state {
        DiscoveryTaskState::Leased(lease) => lease.harness_id == harness_id && lease.expires_at > now,
        _ => false,
    }
}

/// What reading plan `plan_id` yields at instant `now`: its owner may read it
/// under the management policy; an unattended worker may read it while its
/// harness holds a live lease on a task of the plan.
pub open spec fn plan_read(s: Store, ctx: AuthContext, plan_id: u128, now: i64) -> Result<DiscoveryPlan, Denial> {
    match first_match(s.discovery_plans@, plan_with_id(plan_id)) {
        None => Err(Denial::NotFound("Discovery Plan"@)),
        Some(plan) => if management_check(s, ctx) is Ok && ctx.user_id == Some(plan.user_id) && ctx.tenant_id == plan.tenant_id {
            Ok(plan)
        } else {
            match execution_check(s, ctx) {
                Err(d) => Err(d),
                Ok(()) => match ctx.harness_id {
                    None => Err(Denial::TaskLeaseRequired),
                    Some(h) => if any_match(s.discovery_tasks@, leased_plan_task(plan_id, h, now)) {
                        Ok(plan)
                    } else {
                        Err(Denial::TaskLeaseRequired)
                    },
                },
            }
        },
    }
}

/// `r` is what reading the plan at instant `now` yields.
pub open spec fn plan_read_gave(r: Result<DiscoveryPlan, AgentToolsError>, s: Store, ctx: AuthContext, plan_id: u128, now: i64) -> bool {
    match plan_read(s, ctx, plan_id, now) {
        Ok(p) => r == Ok::<DiscoveryPlan, AgentToolsError>(p),
        Err(d) => r matches Err(e) && denies(e, d),
    }
}

/// The longest User Context, in bytes.
pub const MAX_CONTEXT_MD_LEN: usize = 65_536;

/// A replacement for a User's private context prose.
#[derive(Debug)]
pub struct SetUserContextRequest {
    pub context_md: String,
}

pub open spec fn context_of(user_id: u128, tenant_id: Option<u128>) -> spec_fn(UserContext) -> bool {
    |c: UserContext| c.user_id == user_id && c.tenant_id == tenant_id
}

/// The User Context after `text` is set at `now`: the stored one with new
/// prose and update instant, or a new one.
pub open spec fn context_after(s: Store, user_id: u128, tenant_id: Option<u128>, text: String, now: i64) -> UserContext {
    let i = first_index(s.user_contexts@, context_of(user_id, tenant_id));
    if i < 0 {
        UserContext { user_id, tenant_id, context_md: text, created_at: now, updated_at: now }
    } else {
        UserContext { context_md: text, updated_at: now, ..s.user_contexts@[i] }
    }
}

/// Setting a User Context again replaces its prose and update instant but
/// keeps the instant it was first created at.
pub proof fn lemma_context_creation_is_kept(
    s: Store,
    s1: Store,
    user_id: u128,
    tenant_id: Option<u128>,
    first: String,
    at: i64,
    second: String,
    later: i64,
)
    requires
        ({
            let c = context_after(s, user_id, tenant_id, first, at);
            let i = first_index(s.user_contexts@, context_of(user_id, tenant_id));
            s1.user_contexts@ == (if i < 0 {
                s.user_contexts@.push(c)
            } else {
                s.user_contexts@.update(i, c)
            })
        }),
    ensures
        ({
            let c = context_after(s, user_id, tenant_id, first, at);
            let d = context_after(s1, user_id, tenant_id, second, later);
            &&& d.created_at == c.created_at
            &&& d.context_md == second
            &&& d.updated_at == later
            &&& d.user_id == user_id && d.tenant_id == tenant_id
        }),
{
    let p = context_of(user_id, tenant_id);
    let c = context_after(s, user_id, tenant_id, first, at);
    lemma_first_index(s.user_contexts@, p);
    let i = first_index(s.user_contexts@, p);
    if i < 0 {
        lemma_first_index_at(s1.user_contexts@, p, s.user_contexts@.len() as int);
    } else {
        assert(p(s1.user_contexts@[i]));
        lemma_first_index_at(s1.user_contexts@, p, i);
    }
}

impl AgentTools {
    /// Replaces the caller's private User Context prose (interactive User only).
    pub fn set_user_context(&mut self, ctx: &AuthContext, request: SetUserContextRequest, now: i64) -> (r: Result<
        UserContext,
        AgentToolsError,
    >)
        ensures
            if utf8_len(request.context_md@) > MAX_CONTEXT_MD_LEN {
                r matches Err(e) && denies(e, Denial::Validation("context_md must be at most 65536 bytes"@))
                    && final(self).store == old(self).store
            } else {
                match management_check(old(self).store, *ctx) {
                    Err(d) => r matches Err(e) && denies(e, d) && final(self).store == old(self).store,
                    Ok(()) => match ctx.user_id {
                        None => r matches Err(e) && denies(e, Denial::Validation("User Context requires an authenticated User"@))
                            && final(self).store == old(self).store,
                        Some(u) => {
                            let c = context_after(old(self).store, u, ctx.tenant_id, request.context_md, now);
                            let i = first_index(old(self).store.user_contexts@, context_of(u, ctx.tenant_id));
                            &&& r == Ok::<UserContext, AgentToolsError>(c)
                            &&& final(self).store.user_contexts@ == (if i < 0 {
                                old(self).store.user_contexts@.push(c)
                            } else {
                                old(self).store.user_contexts@.update(i, c)
                            })
                            &&& audited(old(self).store.harness_write_audit@, final(self).store.harness_write_audit@, *ctx,
                                HarnessWriteOperation::SetUserContext, None)
                            &&& final(self).store == (Store {
                                user_contexts: final(self).store.user_contexts,
                                harness_write_audit: final(self).store.harness_write_audit,
                                ..old(self).store
                            })
                        },
                    },
                }
            },
    {
        if byte_len(request.context_md.as_str()) > MAX_CONTEXT_MD_LEN {
            return Err(validation("context_md must be at most 65536 bytes"));
        }
        authorize_personal_discovery_management(&self.store, ctx)?;
        let user_id = match ctx.user_id {
            Some(u) => u,
            None => return Err(validation("User Context requires an authenticated User")),
        };
        let all = &self.store.user_contexts;
        let mut i: usize = 0;
        while i < all.len() && !(all[i].user_id == user_id && all[i].tenant_id == ctx.tenant_id)
            invariant
                i <= all@.len(),
                forall|j: int| 0 <= j < i ==> !context_of(user_id, ctx.tenant_id)(#[trigger] all@[j]),
            decreases all@.len() - i,
        {
            i = i + 1;
        }
        proof { lemma_first_index_at(all@, context_of(user_id, ctx.tenant_id), i as int); }
        let context = if i < all.len() {
            let mut c = all[i].clone();
            c.context_md = request.context_md;
            c.updated_at = now;
            let result = c.clone();
            self.store.user_contexts.set(i, c);
            result
        } else {
            let c = UserContext { user_id, tenant_id: ctx.tenant_id, context_md: request.context_md, created_at: now, updated_at: now };
            let result = c.clone();
            self.store.user_contexts.push(c);
            result
        };
        record_harness_write(&mut self.store, ctx, HarnessWriteOperation::SetUserContext, None);
        Ok(context)
    }

    /// Lists the caller's private Discovery Result Batches, oldest first.
    pub fn list_discovery_result_batches(&self, ctx: &AuthContext) -> (r: Result<Vec<DiscoveryResultBatch>, AgentToolsError>)
        ensures
            match private_owner(self.store, *ctx) {
                Err(d) => r matches Err(e) && denies(e, d),
                Ok(u) => r matches Ok(v) && v@ == payloads(stable_sort(
                    self.store.discovery_result_batches@.filter(batch_owned_by(u, ctx.tenant_id)).map_values(batch_key()),
                )),
            },
    {
        authorize_personal_discovery_management(&self.store, ctx)?;
        let user_id = match ctx.user_id {
            Some(u) => u,
            None => return Err(validation("Personal Discovery requires an authenticated User")),
        };
        let all = &self.store.discovery_result_batches;
        let mut keyed: Vec<((i64, u128), DiscoveryResultBatch)> = Vec::new();
        let mut i: usize = 0;
        while i < all.len()
            invariant
                i <= all@.len(),
                keyed@ == all@.take(i as int).filter(batch_owned_by(user_id, ctx.tenant_id)).map_values(batch_key()),
            decreases all@.len() - i,
        {
            proof { lemma_filter_map_step(all@, batch_owned_by(user_id, ctx.tenant_id), batch_key(), i as int); }
            let b = all[i];
            if b.user_id == user_id && b.tenant_id == ctx.tenant_id {
                keyed.push(((b.created_at, b.id), b));
            }
            i = i + 1;
        }
        assert(all@.take(all@.len() as int) =~= all@);
        Ok(strip_keys(sort_by_key(keyed)))
    }

    /// Reads one of the caller's private Discovery Result Batches.
    pub fn discovery_result_batch(&self, ctx: &AuthContext, batch_id: u128) -> (r: Result<DiscoveryResultBatch, AgentToolsError>)
        ensures
            match private_owner(self.store, *ctx) {
                Err(d) => r matches Err(e) && denies(e, d),
                Ok(u) => match first_match(self.store.discovery_result_batches@, batch_with_id(batch_id)) {
                    Some(b) => if b.user_id == u && b.tenant_id == ctx.tenant_id {
                        r == Ok::<DiscoveryResultBatch, AgentToolsError>(b)
                    } else {
                        r matches Err(e) && denies(e, Denial::NotFound("Discovery Result Batch"@))
                    },
                    None => r matches Err(e) && denies(e, Denial::NotFound("Discovery Result Batch"@)),
                },
            },
    {
        authorize_personal_discovery_management(&self.store, ctx)?;
        let user_id = match ctx.user_id {
            Some(u) => u,
            None => return Err(validation("Personal Discovery requires an authenticated User")),
        };
        let all = &self.store.discovery_result_batches;
        let mut i: usize = 0;
        while i < all.len() && all[i].id != batch_id
            invariant
                i <= all@.len(),
                forall|j: int| 0 <= j < i ==> !batch_with_id(batch_id)(#[trigger] all@[j]),
            decreases all@.len() - i,
        {
            i = i + 1;
        }
        proof { lemma_first_index_at(all@, batch_with_id(batch_id), i as int); }
        if i < all.len() && all[i].user_id == user_id && all[i].tenant_id == ctx.tenant_id {
            Ok(all[i])
        } else {
            Err(not_found("Discovery Result Batch"))
        }
    }

    /// Reads a plan at instant `now`, for its interactive owner or the worker holding a lease on its task.
    pub fn discovery_plan_at(&self, ctx: &AuthContext, plan_id: u128, now: i64) -> (r: Result<DiscoveryPlan, AgentToolsError>)
        ensures
            match plan_read(self.store, *ctx, plan_id, now) {
                Ok(p) => r == Ok::<DiscoveryPlan, AgentToolsError>(p),
                Err(d) => r matches Err(e) && denies(e, d),
            },
    {
        let plans = &self.store.discovery_plans;
        let mut i: usize = 0;
        while i < plans.len() && plans[i].id != plan_id
            invariant
                i <= plans@.len(),
                forall|j: int| 0 <= j < i ==> !plan_with_id(plan_id)(#[trigger] plans@[j]),
            decreases plans@.len() - i,
        {
            i = i + 1;
        }
        proof { lemma_first_index_at(plans@, plan_with_id(plan_id), i as int); }
        if i == plans.len() {
            return Err(not_found("Discovery Plan"));
        }
        let plan = plans[i];
        if authorize_personal_discovery_management(&self.store, ctx).is_ok() && ctx.user_id == Some(plan.user_id)
            && ctx.tenant_id == plan.tenant_id {
            return Ok(plan);
        }
        authorize_personal_discovery_execution(&self.store, ctx)?;
        let harness_id = match ctx.harness_id {
            Some(h) => h,
            None => return Err(AgentToolsError::TaskLeaseRequired),
        };
        let tasks = &self.store.discovery_tasks;
        let mut k: usize = 0;
        while k < tasks.len()
            invariant
                k <= tasks@.len(),
                *tasks == self.store.discovery_tasks,
                first_match(self.store.discovery_plans@, plan_with_id(plan_id)) == Some(plan),
                !(management_check(self.store, *ctx) is Ok && ctx.user_id == Some(plan.user_id) && ctx.tenant_id == plan.tenant_id),
                execution_check(self.store, *ctx) is Ok,
                ctx.harness_id == Some(harness_id),
                forall|j: int| 0 <= j < k ==> !leased_plan_task(plan_id, harness_id, now)(#[trigger] tasks@[j]),
            decreases tasks@.len() - k,
        {
            let assigned = match tasks[k].state {
                DiscoveryTaskState::Leased(lease) => lease.harness_id == harness_id && lease.expires_at > now,
                _ => false,
            };
            if assigned && tasks[k].target == (DiscoveryTaskTarget::Personal { plan_id }) {
                assert(leased_plan_task(plan_id, harness_id, now)(tasks@[k as int]));
                return Ok(plan);
            }
            k = k + 1;
        }
        proof { lemma_first_index_at(tasks@, leased_plan_task(plan_id, harness_id, now), k as int); crate::seqs::lemma_first_index(tasks@, leased_plan_task(plan_id, harness_id, now)); }
        Err(AgentToolsError::TaskLeaseRequired)
    }

    /// Reads a plan now, for its interactive owner or the worker holding a lease on its task.
    pub fn discovery_plan(&self, ctx: &AuthContext, plan_id: u128) -> (r: Result<DiscoveryPlan, AgentToolsError>)
        ensures
            exists|now: i64| #[trigger] plan_read_gave(r, self.store, *ctx, plan_id, now),
    {
        let now = crate::outside::now_millis();
        let r = self.discovery_plan_at(ctx, plan_id, now);
        assert(plan_read_gave(r, self.store, *ctx, plan_id, now));
        r
    }

    /// Lists the caller's private watches in creation order.
    pub fn list_user_watches(&self, ctx: &AuthContext) -> (r: Result<Vec<UserWatch>, AgentToolsError>)
        ensures
            match management_check(self.store, *ctx) {
                Err(d) => r matches Err(e) && denies(e, d),
                Ok(()) => match ctx.user_id {
                    None => r matches Err(e) && denies(e, Denial::Validation("watches require an authenticated User"@)),
                    Some(u) => r matches Ok(v) && v@ == payloads(stable_sort(
                        self.store.user_watches@.filter(watch_owned_by(u, ctx.tenant_id)).map_values(watch_key()),
                    )),
                },
            },
    {
        authorize_personal_discovery_management(&self.store, ctx)?;
        let user_id = match ctx.user_id {
            Some(u) => u,
            None => return Err(validation("watches require an authenticated User")),
        };
        let all = &self.store.user_watches;
        let mut keyed: Vec<((i64, u128), UserWatch)> = Vec::new();
        let mut i: usize = 0;
        while i < all.len()
            invariant
                i <= all@.len(),
                keyed@ == all@.take(i as int).filter(watch_owned_by(user_id, ctx.tenant_id)).map_values(watch_key()),
            decreases all@.len() - i,
        {
            proof { lemma_filter_map_step(all@, watch_owned_by(user_id, ctx.tenant_id), watch_key(), i as int); }
            let w = &all[i];
            if w.user_id == user_id && w.tenant_id == ctx.tenant_id {
                keyed.push(((w.created_at, w.id), w.clone()));
            }
            i = i + 1;
        }
        assert(all@.take(all@.len() as int) =~= all@);
        Ok(strip_keys(sort_by_key(keyed)))
    }

    /// Removes one of the caller's private watches.
    pub fn remove_user_watch(&mut self, ctx: &AuthContext, watch_id: u128) -> (r: Result<UserWatch, AgentToolsError>)
        ensures
            match management_check(old(self).store, *ctx) {
                Err(d) => r matches Err(e) && denies(e, d) && final(self).store == old(self).store,
                Ok(()) => match ctx.user_id {
                    None => r matches Err(e) && denies(e, Denial::Validation("watches require an authenticated User"@))
                        && final(self).store == old(self).store,
                    Some(u) => {
                        let i = first_index(old(self).store.user_watches@, watch_with_id(watch_id));
                        if i < 0 {
                            r matches Err(e) && denies(e, Denial::NotFound("watch"@)) && final(self).store == old(self).store
                        } else if old(self).store.user_watches@[i].user_id != u || old(self).store.user_watches@[i].tenant_id != ctx.tenant_id {
                            r matches Err(e) && denies(e, Denial::Forbidden("watch belongs to another User"@))
                                && final(self).store == old(self).store
                        } else {
                            &&& r == Ok::<UserWatch, AgentToolsError>(old(self).store.user_watches@[i])
                            &&& final(self).store.user_watches@ == old(self).store.user_watches@.remove(i)
                            &&& audited(old(self).store.harness_write_audit@, final(self).store.harness_write_audit@, *ctx,
                                HarnessWriteOperation::RemoveUserWatch, None)
                            &&& final(self).store == (Store {
                                user_watches: final(self).store.user_watches,
                                harness_write_audit: final(self).store.harness_write_audit,
                                ..old(self).store
                            })
                        }
                    },
                },
            },
    {
        authorize_personal_discovery_management(&self.store, ctx)?;
        let user_id = match ctx.user_id {
            Some(u) => u,
            None => return Err(validation("watches require an authenticated User")),
        };
        let mut i: usize = 0;
        while i < self.store.user_watches.len() && self.store.user_watches[i].id != watch_id
            invariant
                i <= self.store.user_watches@.len(),
                forall|j: int| 0 <= j < i ==> !watch_with_id(watch_id)(#[trigger] self.store.user_watches@[j]),
            decreases self.store.user_watches@.len() - i,
        {
            i = i + 1;
        }
        proof { lemma_first_index_at(self.store.user_watches@, watch_with_id(watch_id), i as int); }
        if i == self.store.user_watches.len() {
            return Err(not_found("watch"));
        }
        if self.store.user_watches[i].user_id != user_id || self.store.user_watches[i].tenant_id != ctx.tenant_id {
            return Err(forbidden("watch belongs to another User"));
        }
        let removed = self.store.user_watches.remove(i);
        record_harness_write(&mut self.store, ctx, HarnessWriteOperation::RemoveUserWatch, None);
        Ok(removed)
    }

    /// Lists the caller's private authentication-needed notices, oldest first.
    pub fn list_authentication_needed_notices(&self, ctx: &AuthContext) -> (r: Result<Vec<AuthenticationNeededNotice>, AgentToolsError>)
        ensures
            match private_owner(self.store, *ctx) {
                Err(d) => r matches Err(e) && denies(e, d),
                Ok(u) => r matches Ok(v) && v@ == payloads(stable_sort(
                    self.store.authentication_needed_notices@.filter(notice_owned_by(u, ctx.tenant_id)).map_values(notice_key()),
                )),
            },
    {
        authorize_personal_discovery_management(&self.store, ctx)?;
        let user_id = match ctx.user_id {
            Some(u) => u,
            None => return Err(validation("Personal Discovery requires an authenticated User")),
        };
        let all = &self.store.authentication_needed_notices;
        let mut keyed: Vec<((i64, u128), AuthenticationNeededNotice)> = Vec::new();
        let mut i: usize = 0;
        while i < all.len()
            invariant
                i <= all@.len(),
                keyed@ == all@.take(i as int).filter(notice_owned_by(user_id, ctx.tenant_id)).map_values(notice_key()),
            decreases all@.len() - i,
        {
            proof { lemma_filter_map_step(all@, notice_owned_by(user_id, ctx.tenant_id), notice_key(), i as int); }
            let n = &all[i];
            if n.user_id == user_id && n.tenant_id == ctx.tenant_id {
                keyed.push(((n.first_emitted_at, n.id), n.clone()));
            }
            i = i + 1;
        }
        assert(all@.take(all@.len() as int) =~= all@);
        Ok(strip_keys(sort_by_key(keyed)))
    }

    /// Reads the source availability recorded for one of the caller's Personal Discovery tasks.
    pub fn discovery_task_source_availability(&self, ctx: &AuthContext, task_id: u128) -> (r: Result<DiscoveryTaskSourceAvailability, AgentToolsError>)
        ensures
            match schedule_read_check(self.store, *ctx) {
                Err(d) => r matches Err(e) && denies(e, d),
                Ok(()) => match ctx.user_id {
                    None => r matches Err(e) && denies(e, Denial::Validation("Personal Discovery requires an authenticated User"@)),
                    Some(u) => match first_match(self.store.discovery_task_source_availability@, availability_of(task_id)) {
                        Some(a) => if a.user_id == u && a.tenant_id == ctx.tenant_id {
                            r == Ok::<DiscoveryTaskSourceAvailability, AgentToolsError>(a)
                        } else {
                            r matches Err(e) && denies(e, Denial::NotFound("Discovery Task source availability"@))
                        },
                        None => r matches Err(e) && denies(e, Denial::NotFound("Discovery Task source availability"@)),
                    },
                },
            },
    {
        if authorize_personal_discovery_management(&self.store, ctx).is_err() {
            authorize_personal_discovery_execution(&self.store, ctx)?;
        }
        let user_id = match ctx.user_id {
            Some(u) => u,
            None => return Err(validation("Personal Discovery requires an authenticated User")),
        };
        let all = &self.store.discovery_task_source_availability;
        let mut i: usize = 0;
        while i < all.len() && all[i].task_id != task_id
            invariant
                i <= all@.len(),
                forall|j: int| 0 <= j < i ==> !availability_of(task_id)(#[trigger] all@[j]),
            decreases all@.len() - i,
        {
            i = i + 1;
        }
        proof { lemma_first_index_at(all@, availability_of(task_id), i as int); }
        if i < all.len() && all[i].user_id == user_id && all[i].tenant_id == ctx.tenant_id {
            Ok(all[i])
        } else {
            Err(not_found("Discovery Task source availability"))
        }
    }

    /// Removes one of the caller's Personal Discovery schedules; the tasks,
    /// plans and batches it produced remain.
    pub fn remove_personal_discovery_schedule(&mut self, ctx: &AuthContext, schedule_id: u128) -> (r: Result<PersonalDiscoverySchedule, AgentToolsError>)
        ensures
            match private_owner(old(self).store, *ctx) {
                Err(d) => r matches Err(e) && denies(e, d) && final(self).store == old(self).store,
                Ok(u) => {
                    let i = first_index(old(self).store.personal_discovery_schedules@, schedule_with_id(schedule_id));
                    if i < 0 {
                        r matches Err(e) && denies(e, Denial::NotFound("Personal Discovery schedule"@))
                            && final(self).store == old(self).store
                    } else if old(self).store.personal_discovery_schedules@[i].user_id != u
                        || old(self).store.personal_discovery_schedules@[i].tenant_id != ctx.tenant_id {
                        r matches Err(e) && denies(e, Denial::Forbidden("Personal Discovery schedule belongs to another User"@))
                            && final(self).store == old(self).store
                    } else {
                        &&& r == Ok::<PersonalDiscoverySchedule, AgentToolsError>(old(self).store.personal_discovery_schedules@[i])
                        &&& final(self).store.personal_discovery_schedules@ == old(self).store.personal_discovery_schedules@.remove(i)
                        &&& audited(old(self).store.harness_write_audit@, final(self).store.harness_write_audit@, *ctx,
                            HarnessWriteOperation::RemovePersonalDiscoverySchedule, None)
                        &&& final(self).store == (Store {
                            personal_discovery_schedules: final(self).store.personal_discovery_schedules,
                            harness_write_audit: final(self).store.harness_write_audit,
                            ..old(self).store
                        })
                    }
                },
            },
    {
        authorize_personal_discovery_management(&self.store, ctx)?;
        let user_id = match ctx.user_id {
            Some(u) => u,
            None => return Err(validation("Personal Discovery requires an authenticated User")),
        };
        let mut i: usize = 0;
        while i < self.store.personal_discovery_schedules.len() && self.store.personal_discovery_schedules[i].id != schedule_id
            invariant
                i <= self.store.personal_discovery_schedules@.len(),
                forall|j: int| 0 <= j < i ==> !schedule_with_id(schedule_id)(#[trigger] self.store.personal_discovery_schedules@[j]),
            decreases self.store.personal_discovery_schedules@.len() - i,
        {
            i = i + 1;
        }
        proof { lemma_first_index_at(self.store.personal_discovery_schedules@, schedule_with_id(schedule_id), i as int); }
        if i == self.store.personal_discovery_schedules.len() {
            return Err(not_found("Personal Discovery schedule"));
        }
        let schedule = self.store.personal_discovery_schedules[i];
        if schedule.user_id != user_id || schedule.tenant_id != ctx.tenant_id {
            return Err(forbidden("Personal Discovery schedule belongs to another User"));
        }
        let removed = self.store.personal_discovery_schedules.remove(i);
        record_harness_write(&mut self.store, ctx, HarnessWriteOperation::RemovePersonalDiscoverySchedule, None);
        Ok(removed)
    }
}

} // verus!
