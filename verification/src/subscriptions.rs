//! Subscriptions: a User's Feed eligibility for Pods, which grants no Pod authority.
use crate::agent_tools::{audited, record_harness_write, AgentTools};
use crate::auth::{authorize_harness, harness_check};
use crate::error::{denies, not_found, not_found_for, validation, AgentToolsError, Denial};
use crate::outside::uuid_text;
use crate::seqs::{first_index, first_match, lemma_first_index, lemma_first_index_at};
use crate::store::{pod_with_id, tenant_check, Store};
use crate::types::{AuthContext, HarnessCapability, HarnessWriteOperation, NodeIdentity, Pod, Subscription, SynchronizationFailure};
use vstd::prelude::*;

verus! {

pub open spec fn subscription_with_id(id: u128) -> spec_fn(Subscription) -> bool {
    |s: Subscription| s.id == id
}

/// A Subscription of `user_id` (any tenant) to the local Pod `pod_id`.
pub open spec fn user_pod_subscription(user_id: u128, pod_id: u128) -> spec_fn(Subscription) -> bool {
    |s: Subscription| s.user_id == user_id && s.local_pod_id == pod_id
}

/// The context's own Subscription to the Pod `pod_id`, within its tenant.
pub open spec fn own_pod_subscription(ctx: AuthContext, pod_id: u128) -> spec_fn(Subscription) -> bool {
    |s: Subscription| s.local_pod_id == pod_id && ctx.user_id == Some(s.user_id) && s.tenant_id == ctx.tenant_id
}

/// A map-style insert: replace the element with `x`'s key, or append `x`.
pub open spec fn upsert_subscription(s: Seq<Subscription>, x: Subscription) -> Seq<Subscription> {
    let i = first_index(s, subscription_with_id(x.id));
    if i < 0 {
        s.push(x)
    } else {
        s.update(i, x)
    }
}

/// The Subscription a User gets by joining a local Pod at `now`.
pub open spec fn is_new_local_subscription(s: Subscription, user_id: u128, pod: Pod, node: NodeIdentity, now: i64) -> bool {
    &&& s.user_id == user_id
    &&& s.tenant_id == pod.tenant_id
    &&& s.public_pod_url@ == Seq::<char>::empty()
    &&& s.origin_node_id == node.id
    &&& s.origin_public_key == node.public_key
    &&& s.pod_slug == pod.slug
    &&& s.local_pod_id == pod.id
    &&& !s.is_priority
    &&& s.last_event_hash is None
    &&& s.created_at == now
    &&& s.synchronized_at == now
    &&& s.last_sync_failure is None
}

impl Subscription {
    /// A Subscription to a Pod authored by the local node.
    pub fn new_local(id: u128, user_id: u128, pod: &Pod, node: &NodeIdentity, now: i64) -> (s: Subscription)
        ensures
            s.id == id,
            is_new_local_subscription(s, user_id, *pod, *node, now),
    {
        Subscription {
            id,
            user_id,
            tenant_id: pod.tenant_id,
            public_pod_url: String::new(),
            origin_node_id: node.id,
            origin_public_key: node.public_key.clone(),
            pod_slug: pod.slug.clone(),
            local_pod_id: pod.id,
            is_priority: false,
            last_event_hash: None,
            created_at: now,
            synchronized_at: now,
            last_sync_failure: None,
        }
    }
}

/// What reading Subscription `id` yields for a context.
pub open spec fn subscription_spec(s: Store, ctx: AuthContext, id: u128) -> Result<Subscription, Denial> {
    match first_match(s.subscriptions@, subscription_with_id(id)) {
        Some(sub) => if ctx.user_id == Some(sub.user_id) && sub.tenant_id == ctx.tenant_id {
            match harness_check(s, ctx, HarnessCapability::SubscriptionManagement, Some(sub.local_pod_id)) {
                Ok(()) => Ok(sub),
                Err(d) => Err(d),
            }
        } else {
            Err(Denial::NotFound("Subscription "@ + uuid_text(id)))
        },
        None => Err(Denial::NotFound("Subscription "@ + uuid_text(id))),
    }
}

/// What reading the context's Subscription to Pod `pod_id` yields.
pub open spec fn subscription_for_pod_spec(s: Store, ctx: AuthContext, pod_id: u128) -> Result<Subscription, Denial> {
    match first_match(s.subscriptions@, own_pod_subscription(ctx, pod_id)) {
        Some(sub) => match harness_check(s, ctx, HarnessCapability::SubscriptionManagement, Some(pod_id)) {
            Ok(()) => Ok(sub),
            Err(d) => Err(d),
        },
        None => Err(Denial::NotFound("Subscription for Pod "@ + uuid_text(pod_id))),
    }
}

/// The checks before joining Pod `pod_id`, yielding the Pod and the joining User.
pub open spec fn join_check(s: Store, ctx: AuthContext, pod_id: u128) -> Result<(Pod, u128), Denial> {
    match first_match(s.pods@, pod_with_id(pod_id)) {
        None => Err(Denial::NotFound("pod "@ + uuid_text(pod_id))),
        Some(pod) => match tenant_check(pod.tenant_id, ctx.tenant_id) {
            Err(d) => Err(d),
            Ok(()) => match harness_check(s, ctx, HarnessCapability::SubscriptionManagement, Some(pod.id)) {
                Err(d) => Err(d),
                Ok(()) => match ctx.user_id {
                    None => Err(Denial::Validation("Subscription requires an authenticated User"@)),
                    Some(u) => Ok((pod, u)),
                },
            },
        },
    }
}

/// The checks before changing the context's Subscription to Pod `pod_id`.
pub open spec fn own_subscription_check(s: Store, ctx: AuthContext, pod_id: u128, missing_user: Seq<char>) -> Result<
    int,
    Denial,
> {
    match harness_check(s, ctx, HarnessCapability::SubscriptionManagement, Some(pod_id)) {
        Err(d) => Err(d),
        Ok(()) => match ctx.user_id {
            None => Err(Denial::Validation(missing_user)),
            Some(u) => {
                let i = first_index(s.subscriptions@, user_pod_subscription(u, pod_id));
                if i < 0 {
                    Err(Denial::NotFound("Subscription"@))
                } else {
                    Ok(i)
                }
            },
        },
    }
}

/// Who may record a synchronization failure of Subscription `id`: its own
/// User in its tenant, with subscription management on its Pod. Yields its position.
pub open spec fn sync_failure_check(s: Store, ctx: AuthContext, id: u128) -> Result<int, Denial> {
    let i = first_index(s.subscriptions@, subscription_with_id(id));
    if i < 0 {
        Err(Denial::NotFound("Subscription "@ + uuid_text(id)))
    } else {
        let sub = s.subscriptions@[i];
        match harness_check(s, ctx, HarnessCapability::SubscriptionManagement, Some(sub.local_pod_id)) {
            Err(d) => Err(d),
            Ok(()) => if ctx.user_id != Some(sub.user_id) || ctx.tenant_id != sub.tenant_id {
                Err(Denial::NotFound("Subscription "@ + uuid_text(id)))
            } else {
                Ok(i)
            },
        }
    }
}

impl AgentTools {
    /// Records why the last synchronization of one of the caller's Subscriptions failed.
    pub fn record_subscription_sync_failure(
        &mut self,
        ctx: &AuthContext,
        subscription_id: u128,
        code: String,
        message: String,
        retryable: bool,
        now: i64,
    ) -> (r: Result<Subscription, AgentToolsError>)
        ensures
            match sync_failure_check(old(self).store, *ctx, subscription_id) {
                Err(d) => r matches Err(e) && denies(e, d) && final(self).store == old(self).store,
                Ok(i) => {
                    let updated = Subscription {
                        last_sync_failure: Some(SynchronizationFailure { code, message, retryable, occurred_at: now }),
                        ..old(self).store.subscriptions@[i]
                    };
                    &&& r == Ok::<Subscription, AgentToolsError>(updated)
                    &&& final(self).store.subscriptions@ == old(self).store.subscriptions@.update(i, updated)
                    &&& final(self).store == (Store { subscriptions: final(self).store.subscriptions, ..old(self).store })
                },
            },
    {
        let subs = &self.store.subscriptions;
        let mut i: usize = 0;
        while i < subs.len() && subs[i].id != subscription_id
            invariant
                i <= subs@.len(),
                forall|j: int| 0 <= j < i ==> !subscription_with_id(subscription_id)(#[trigger] subs@[j]),
            decreases subs@.len() - i,
        {
            i = i + 1;
        }
        proof { lemma_first_index_at(subs@, subscription_with_id(subscription_id), i as int); }
        if i == subs.len() {
            return Err(not_found_for("Subscription ", subscription_id));
        }
        authorize_harness(&self.store, ctx, HarnessCapability::SubscriptionManagement, Some(self.store.subscriptions[i].local_pod_id))?;
        if ctx.user_id != Some(self.store.subscriptions[i].user_id) || ctx.tenant_id != self.store.subscriptions[i].tenant_id {
            return Err(not_found_for("Subscription ", subscription_id));
        }
        let mut sub = self.store.subscriptions[i].clone();
        sub.last_sync_failure = Some(SynchronizationFailure { code, message, retryable, occurred_at: now });
        let result = sub.clone();
        self.store.subscriptions.set(i, sub);
        Ok(result)
    }

    /// Reads one of the caller's own Subscriptions.
    pub fn subscription(&self, ctx: &AuthContext, subscription_id: u128) -> (r: Result<Subscription, AgentToolsError>)
        ensures
            match subscription_spec(self.store, *ctx, subscription_id) {
                Ok(sub) => r == Ok::<Subscription, AgentToolsError>(sub),
                Err(d) => r matches Err(e) && denies(e, d),
            },
    {
        let subs = &self.store.subscriptions;
        let mut i: usize = 0;
        while i < subs.len() && subs[i].id != subscription_id
            invariant
                i <= subs@.len(),
                forall|j: int| 0 <= j < i ==> !subscription_with_id(subscription_id)(#[trigger] subs@[j]),
            decreases subs@.len() - i,
        {
            i = i + 1;
        }
        proof { lemma_first_index_at(subs@, subscription_with_id(subscription_id), i as int); }
        if i == subs.len() {
            return Err(not_found_for("Subscription ", subscription_id));
        }
        let sub = &subs[i];
        if !(ctx.user_id == Some(sub.user_id) && sub.tenant_id == ctx.tenant_id) {
            return Err(not_found_for("Subscription ", subscription_id));
        }
        authorize_harness(&self.store, ctx, HarnessCapability::SubscriptionManagement, Some(sub.local_pod_id))?;
        Ok(sub.clone())
    }

    /// Reads the caller's Subscription to one local Pod projection.
    pub fn subscription_for_pod(&self, ctx: &AuthContext, pod_id: u128) -> (r: Result<Subscription, AgentToolsError>)
        ensures
            match subscription_for_pod_spec(self.store, *ctx, pod_id) {
                Ok(sub) => r == Ok::<Subscription, AgentToolsError>(sub),
                Err(d) => r matches Err(e) && denies(e, d),
            },
    {
        let subs = &self.store.subscriptions;
        let mut i: usize = 0;
        while i < subs.len() && !(subs[i].local_pod_id == pod_id && ctx.user_id == Some(subs[i].user_id)
            && subs[i].tenant_id == ctx.tenant_id)
            invariant
                i <= subs@.len(),
                forall|j: int| 0 <= j < i ==> !own_pod_subscription(*ctx, pod_id)(#[trigger] subs@[j]),
            decreases subs@.len() - i,
        {
            i = i + 1;
        }
        proof { lemma_first_index_at(subs@, own_pod_subscription(*ctx, pod_id), i as int); }
        if i == subs.len() {
            return Err(not_found_for("Subscription for Pod ", pod_id));
        }
        authorize_harness(&self.store, ctx, HarnessCapability::SubscriptionManagement, Some(pod_id))?;
        Ok(subs[i].clone())
    }

    /// Makes the caller's User eligible for a local Pod's Feed without granting
    /// Pod authority; joining twice returns the existing Subscription unchanged.
    pub fn subscribe_local_pod(&mut self, ctx: &AuthContext, pod_id: u128) -> (r: Result<Subscription, AgentToolsError>)
        ensures
            match join_check(old(self).store, *ctx, pod_id) {
                Err(d) => r matches Err(e) && denies(e, d) && final(self).store == old(self).store,
                Ok((pod, user_id)) => match first_match(old(self).store.subscriptions@, user_pod_subscription(user_id, pod.id)) {
                    Some(existing) => r == Ok::<Subscription, AgentToolsError>(existing) && final(self).store == old(self).store,
                    None => match old(self).store.node_for_tenant_spec(ctx.tenant_id) {
                        Err(d) => r matches Err(e) && denies(e, d) && final(self).store == old(self).store,
                        Ok(node) => r matches Ok(sub) && {
                            &&& is_new_local_subscription(sub, user_id, pod, node, sub.created_at)
                            &&& final(self).store.subscriptions@ == upsert_subscription(old(self).store.subscriptions@, sub)
                            &&& audited(old(self).store.harness_write_audit@, final(self).store.harness_write_audit@, *ctx,
                                HarnessWriteOperation::JoinPod, Some(pod.id))
                            &&& final(self).store == (Store {
                                subscriptions: final(self).store.subscriptions,
                                harness_write_audit: final(self).store.harness_write_audit,
                                ..old(self).store
                            })
                        },
                    },
                },
            },
    {
        let index = match self.store.find_pod(pod_id) {
            Some(i) => i,
            None => return Err(not_found_for("pod ", pod_id)),
        };
        let pod = self.store.pods[index].clone();
        self.store.assert_tenant(pod.tenant_id, ctx.tenant_id)?;
        authorize_harness(&self.store, ctx, HarnessCapability::SubscriptionManagement, Some(pod.id))?;
        let user_id = match ctx.user_id {
            Some(u) => u,
            None => return Err(validation("Subscription requires an authenticated User")),
        };
        let subs = &self.store.subscriptions;
        let mut i: usize = 0;
        while i < subs.len() && !(subs[i].user_id == user_id && subs[i].local_pod_id == pod.id)
            invariant
                i <= subs@.len(),
                forall|j: int| 0 <= j < i ==> !user_pod_subscription(user_id, pod.id)(#[trigger] subs@[j]),
            decreases subs@.len() - i,
        {
            i = i + 1;
        }
        proof { lemma_first_index_at(subs@, user_pod_subscription(user_id, pod.id), i as int); }
        if i < subs.len() {
            return Ok(subs[i].clone());
        }
        let node = self.store.node_for_tenant(ctx.tenant_id)?.clone();
        let now = crate::outside::now_millis();
        let id = crate::outside::new_id();
        let subscription = Subscription::new_local(id, user_id, &pod, &node, now);
        let ghost before = self.store.subscriptions@;
        let mut k: usize = 0;
        while k < self.store.subscriptions.len() && self.store.subscriptions[k].id != id
            invariant
                k <= self.store.subscriptions@.len(),
                forall|j: int| 0 <= j < k ==> !subscription_with_id(id)(#[trigger] self.store.subscriptions@[j]),
            decreases self.store.subscriptions@.len() - k,
        {
            k = k + 1;
        }
        proof { lemma_first_index_at(self.store.subscriptions@, subscription_with_id(id), k as int); }
        if k < self.store.subscriptions.len() {
            self.store.subscriptions.set(k, subscription.clone());
        } else {
            self.store.subscriptions.push(subscription.clone());
        }
        record_harness_write(&mut self.store, ctx, HarnessWriteOperation::JoinPod, Some(pod.id));
        Ok(subscription)
    }

    /// Joins the Pod with slug `pod_slug` in the caller's tenant.
    pub fn join_pod(&mut self, ctx: &AuthContext, pod_slug: &str) -> (r: Result<(), AgentToolsError>)
        ensures
            match old(self).store.pod_by_slug_spec(pod_slug@, ctx.tenant_id) {
                Err(d) => r matches Err(e) && denies(e, d) && final(self).store == old(self).store,
                Ok(p) => match join_check(old(self).store, *ctx, p.id) {
                    Err(d) => r matches Err(e) && denies(e, d) && final(self).store == old(self).store,
                    Ok((pod, user_id)) => match first_match(old(self).store.subscriptions@, user_pod_subscription(user_id, pod.id)) {
                        Some(_) => r is Ok && final(self).store == old(self).store,
                        None => match old(self).store.node_for_tenant_spec(ctx.tenant_id) {
                            Err(d) => r matches Err(e) && denies(e, d) && final(self).store == old(self).store,
                            Ok(node) => r is Ok && exists|sub: Subscription| {
                                &&& is_new_local_subscription(sub, user_id, pod, node, sub.created_at)
                                &&& final(self).store.subscriptions@ == upsert_subscription(old(self).store.subscriptions@, sub)
                            } && audited(old(self).store.harness_write_audit@, final(self).store.harness_write_audit@, *ctx,
                                HarnessWriteOperation::JoinPod, Some(pod.id)) && final(self).store == (Store {
                                subscriptions: final(self).store.subscriptions,
                                harness_write_audit: final(self).store.harness_write_audit,
                                ..old(self).store
                            }),
                        },
                    },
                },
            },
    {
        let pod_id = self.store.pod_by_slug(pod_slug, ctx.tenant_id)?.id;
        match self.subscribe_local_pod(ctx, pod_id) {
            Ok(_) => Ok(()),
            Err(e) => Err(e),
        }
    }

    /// Ends the caller's Subscription to a Pod, leaving every Pod Role unchanged.
    pub fn unsubscribe_pod(&mut self, ctx: &AuthContext, pod_id: u128) -> (r: Result<Subscription, AgentToolsError>)
        ensures
            match own_subscription_check(old(self).store, *ctx, pod_id, "unsubscribe requires an authenticated User"@) {
                Err(d) => r matches Err(e) && denies(e, d) && final(self).store == old(self).store,
                Ok(i) => r == Ok::<Subscription, AgentToolsError>(old(self).store.subscriptions@[i])
                    && final(self).store.subscriptions@ == old(self).store.subscriptions@.remove(i)
                    && final(self).store == (Store { subscriptions: final(self).store.subscriptions, ..old(self).store }),
            },
    {
        authorize_harness(&self.store, ctx, HarnessCapability::SubscriptionManagement, Some(pod_id))?;
        let user_id = match ctx.user_id {
            Some(u) => u,
            None => return Err(validation("unsubscribe requires an authenticated User")),
        };
        let mut i: usize = 0;
        while i < self.store.subscriptions.len() && !(self.store.subscriptions[i].user_id == user_id
            && self.store.subscriptions[i].local_pod_id == pod_id)
            invariant
                i <= self.store.subscriptions@.len(),
                forall|j: int| 0 <= j < i ==> !user_pod_subscription(user_id, pod_id)(#[trigger] self.store.subscriptions@[j]),
            decreases self.store.subscriptions@.len() - i,
        {
            i = i + 1;
        }
        proof { lemma_first_index_at(self.store.subscriptions@, user_pod_subscription(user_id, pod_id), i as int); }
        if i == self.store.subscriptions.len() {
            return Err(not_found("Subscription"));
        }
        let removed = self.store.subscriptions.remove(i);
        Ok(removed)
    }

    /// Sets whether one of the caller's Subscriptions is a Priority Subscription.
    pub fn set_priority_subscription(&mut self, ctx: &AuthContext, pod_id: u128, is_priority: bool) -> (r: Result<(), AgentToolsError>)
        ensures
            match own_subscription_check(old(self).store, *ctx, pod_id, "Priority Subscription requires an authenticated User"@) {
                Err(d) => r matches Err(e) && denies(e, d) && final(self).store == old(self).store,
                Ok(i) => r is Ok && {
                    let before = old(self).store.subscriptions@[i];
                    &&& final(self).store.subscriptions@ == old(self).store.subscriptions@.update(i, Subscription { is_priority, ..before })
                    &&& audited(old(self).store.harness_write_audit@, final(self).store.harness_write_audit@, *ctx,
                        HarnessWriteOperation::SetPrioritySubscription, Some(pod_id))
                    &&& final(self).store == (Store {
                        subscriptions: final(self).store.subscriptions,
                        harness_write_audit: final(self).store.harness_write_audit,
                        ..old(self).store
                    })
                },
            },
    {
        authorize_harness(&self.store, ctx, HarnessCapability::SubscriptionManagement, Some(pod_id))?;
        let user_id = match ctx.user_id {
            Some(u) => u,
            None => return Err(validation("Priority Subscription requires an authenticated User")),
        };
        let mut i: usize = 0;
        while i < self.store.subscriptions.len() && !(self.store.subscriptions[i].user_id == user_id
            && self.store.subscriptions[i].local_pod_id == pod_id)
            invariant
                i <= self.store.subscriptions@.len(),
                forall|j: int| 0 <= j < i ==> !user_pod_subscription(user_id, pod_id)(#[trigger] self.store.subscriptions@[j]),
            decreases self.store.subscriptions@.len() - i,
        {
            i = i + 1;
        }
        proof { lemma_first_index_at(self.store.subscriptions@, user_pod_subscription(user_id, pod_id), i as int); }
        if i == self.store.subscriptions.len() {
            return Err(not_found("Subscription"));
        }
        let mut updated = self.store.subscriptions[i].clone();
        updated.is_priority = is_priority;
        self.store.subscriptions.set(i, updated);
        record_harness_write(&mut self.store, ctx, HarnessWriteOperation::SetPrioritySubscription, Some(pod_id));
        Ok(())
    }
}

} // verus!
