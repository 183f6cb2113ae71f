//! Pod listings, lookups and the workflow actions a caller may take on a Pod.
use crate::agent_tools::AgentTools;
use crate::auth::{authorize_harness, context_harness, grant_admits, grant_admits_pod, grant_contains, grant_has, harness_check, harness_for_context, ids_contain};
use crate::error::{denies, AgentToolsError, Denial};
use crate::seqs::{first_match, lemma_filter_take_step, lemma_first_index_at, payloads, sort_by_key, stable_sort};
use crate::store::{pod_in_tenant, Store};
use crate::types::{AgentHarness, AuthContext, HarnessCapability, Pod, PodAllowedAction, PodRole, PodRoleAssignment, Subscription, Visibility};
use vstd::prelude::*;

verus! {

pub open spec fn pod_visible_in(tenant_id: Option<u128>) -> spec_fn(Pod) -> bool {
    |p: Pod| pod_in_tenant(p, tenant_id)
}

/// The Pod scope of an optional harness: `None` means unrestricted.
pub open spec fn harness_scope(h: Option<AgentHarness>) -> Option<Seq<u128>> {
    match h {
        Some(h) => match h.grant.pod_ids {
            Some(ids) => Some(ids@),
            None => None,
        },
        None => None,
    }
}

pub open spec fn pod_listed_for(tenant_id: Option<u128>, scope: Option<Seq<u128>>) -> spec_fn(Pod) -> bool {
    |p: Pod| pod_in_tenant(p, tenant_id) && match scope {
        None => true,
        Some(ids) => ids.contains(p.id),
    }
}

pub open spec fn pod_in_scope(ids: Seq<u128>) -> spec_fn(Pod) -> bool {
    |p: Pod| ids.contains(p.id)
}

/// What a harness is listed is what the tenant is listed, narrowed to the
/// harness's Pod scope: all of it when the grant (or the context) is
/// unscoped, and otherwise exactly its Pods whose identifier the grant names,
/// in the same order.
pub proof fn lemma_harness_listing_narrows_tenant_listing(pods: Seq<Pod>, tenant_id: Option<u128>, scope: Option<Seq<u128>>)
    ensures
        pods.filter(pod_listed_for(tenant_id, scope)) == (match scope {
            None => pods.filter(pod_visible_in(tenant_id)),
            Some(ids) => pods.filter(pod_visible_in(tenant_id)).filter(pod_in_scope(ids)),
        }),
    decreases pods.len(),
{
    reveal(Seq::filter);
    if pods.len() > 0 {
        lemma_harness_listing_narrows_tenant_listing(pods.drop_last(), tenant_id, scope);
        match scope {
            None => {},
            Some(ids) => {
                let q = pods.drop_last().filter(pod_visible_in(tenant_id));
                if pod_visible_in(tenant_id)(pods.last()) {
                    assert(q.push(pods.last()).drop_last() =~= q);
                }
            },
        }
    }
}

pub open spec fn pod_public_at(tenant_id: Option<u128>, node_id: u128) -> spec_fn(Pod) -> bool {
    |p: Pod| pod_in_tenant(p, tenant_id) && p.visibility == Visibility::Public && match p.origin_node_id {
        None => true,
        Some(o) => o == node_id,
    }
}

/// Whether an optional harness holds `c` for `pod_id` (no harness holds everything).
pub open spec fn may(h: Option<AgentHarness>, c: HarnessCapability, pod_id: u128) -> bool {
    match h {
        None => true,
        Some(h) => grant_has(h, c) && grant_admits_pod(h, pod_id),
    }
}

pub open spec fn subscribes(user_id: u128, pod_id: u128) -> spec_fn(Subscription) -> bool {
    |s: Subscription| s.user_id == user_id && s.local_pod_id == pod_id
}

pub open spec fn role_of(user_id: u128, pod_id: u128) -> spec_fn(PodRoleAssignment) -> bool {
    |a: PodRoleAssignment| a.user_id == user_id && a.pod_id == pod_id
}

/// The actions allowed on `pod_id`, given the caller's harness, subscription and role.
pub open spec fn allowed_pod_actions(
    h: Option<AgentHarness>,
    pod_id: u128,
    subscribed: bool,
    role: Option<PodRole>,
) -> Seq<PodAllowedAction> {
    let subscription_actions = if may(h, HarnessCapability::SubscriptionManagement, pod_id) {
        if subscribed {
            seq![PodAllowedAction::Unsubscribe, PodAllowedAction::SubscriptionSet]
        } else {
            seq![PodAllowedAction::Subscribe]
        }
    } else {
        Seq::empty()
    };
    let role_actions = if may(h, HarnessCapability::PodCuration, pod_id) && role is Some {
        if role == Some(PodRole::Owner) {
            seq![PodAllowedAction::RoleList, PodAllowedAction::VisibilitySet, PodAllowedAction::RoleGrant, PodAllowedAction::RoleRevoke]
        } else {
            seq![PodAllowedAction::RoleList]
        }
    } else {
        Seq::empty()
    };
    subscription_actions + role_actions
}

/// Whether the context's User subscribes to the Pod.
pub open spec fn is_subscribed(s: Store, ctx: AuthContext, pod_id: u128) -> bool {
    ctx.user_id is Some && first_match(s.subscriptions@, subscribes(ctx.user_id->0, pod_id)) is Some
}

/// The context's User's first role in the Pod.
pub open spec fn role_in(s: Store, ctx: AuthContext, pod_id: u128) -> Option<PodRole> {
    if ctx.user_id is Some {
        match first_match(s.pod_roles@, role_of(ctx.user_id->0, pod_id)) {
            Some(a) => Some(a.role),
            None => None,
        }
    } else {
        None
    }
}

pub open spec fn role_key() -> spec_fn(PodRoleAssignment) -> ((i64, u128), PodRoleAssignment) {
    |a: PodRoleAssignment| ((a.created_at, a.user_id), a)
}

pub open spec fn in_pod(pod_id: u128) -> spec_fn(PodRoleAssignment) -> bool {
    |a: PodRoleAssignment| a.pod_id == pod_id
}

/// A Pod's role assignments ordered by grant instant, then User.
pub open spec fn pod_roles_sorted(s: Store, pod_id: u128) -> Seq<PodRoleAssignment> {
    payloads(stable_sort(s.pod_roles@.filter(in_pod(pod_id)).map_values(role_key())))
}

impl AgentTools {
    /// Lists the Pods visible in a tenant, including Pods shared by all tenants.
    pub fn list_pods(&self, tenant_id: Option<u128>) -> (r: Result<Vec<Pod>, AgentToolsError>)
        ensures
            r matches Ok(v) && v@ == self.store.pods@.filter(pod_visible_in(tenant_id)),
    {
        let pods = &self.store.pods;
        let mut out: Vec<Pod> = Vec::new();
        let mut i: usize = 0;
        while i < pods.len()
            invariant
                i <= pods@.len(),
                out@ == pods@.take(i as int).filter(pod_visible_in(tenant_id)),
            decreases pods@.len() - i,
        {
            proof { lemma_filter_take_step(pods@, pod_visible_in(tenant_id), i as int); }
            let pod = &pods[i];
            if pod.tenant_id == tenant_id || pod.tenant_id.is_none() {
                out.push(pod.clone());
            }
            i = i + 1;
        }
        assert(pods@.take(pods@.len() as int) =~= pods@);
        Ok(out)
    }

    /// Lists the Pods visible in the caller's tenant and within its Harness Grant's Pod scope.
    pub fn list_pods_for_harness(&self, ctx: &AuthContext) -> (r: Result<Vec<Pod>, AgentToolsError>)
        ensures
            match context_harness(self.store, *ctx) {
                Ok(h) => r matches Ok(v) && v@ == self.store.pods@.filter(pod_listed_for(ctx.tenant_id, harness_scope(h))),
                Err(d) => r matches Err(e) && denies(e, d),
            },
    {
        let harness = harness_for_context(&self.store, ctx)?;
        let scope: Option<&Vec<u128>> = match harness {
            Some(h) => match &h.grant.pod_ids {
                Some(ids) => Some(ids),
                None => None,
            },
            None => None,
        };
        let ghost spec_scope = harness_scope(context_harness(self.store, *ctx)->Ok_0);
        assert(match scope { Some(v) => spec_scope == Some(v@), None => spec_scope is None });
        let pods = &self.store.pods;
        let mut out: Vec<Pod> = Vec::new();
        let mut i: usize = 0;
        while i < pods.len()
            invariant
                i <= pods@.len(),
                match scope { Some(v) => spec_scope == Some(v@), None => spec_scope is None },
                out@ == pods@.take(i as int).filter(pod_listed_for(ctx.tenant_id, spec_scope)),
            decreases pods@.len() - i,
        {
            proof { lemma_filter_take_step(pods@, pod_listed_for(ctx.tenant_id, spec_scope), i as int); }
            let pod = &pods[i];
            let in_scope = match scope {
                None => true,
                Some(ids) => ids_contain(ids, pod.id),
            };
            if (pod.tenant_id == ctx.tenant_id || pod.tenant_id.is_none()) && in_scope {
                out.push(pod.clone());
            }
            i = i + 1;
        }
        assert(pods@.take(pods@.len() as int) =~= pods@);
        Ok(out)
    }

    /// The Pod workflow actions allowed by relationship, Harness Grant and Pod scope.
    pub fn pod_allowed_actions(&self, ctx: &AuthContext, pod_id: u128) -> (r: Result<Vec<PodAllowedAction>, AgentToolsError>)
        ensures
            match context_harness(self.store, *ctx) {
                Ok(h) => r matches Ok(v) && v@ == allowed_pod_actions(
                    h,
                    pod_id,
                    is_subscribed(self.store, *ctx, pod_id),
                    role_in(self.store, *ctx, pod_id),
                ),
                Err(d) => r matches Err(e) && denies(e, d),
            },
    {
        let harness = harness_for_context(&self.store, ctx)?;
        let may_subscribe = match harness {
            None => true,
            Some(h) => grant_contains(h, HarnessCapability::SubscriptionManagement) && grant_admits(h, pod_id),
        };
        let may_curate = match harness {
            None => true,
            Some(h) => grant_contains(h, HarnessCapability::PodCuration) && grant_admits(h, pod_id),
        };
        let mut subscribed = false;
        let mut role: Option<PodRole> = None;
        if let Some(user_id) = ctx.user_id {
            let subs = &self.store.subscriptions;
            let mut i: usize = 0;
            while i < subs.len() && !(subs[i].user_id == user_id && subs[i].local_pod_id == pod_id)
                invariant
                    i <= subs@.len(),
                    forall|j: int| 0 <= j < i ==> !subscribes(user_id, pod_id)(#[trigger] subs@[j]),
                decreases subs@.len() - i,
            {
                i = i + 1;
            }
            proof { lemma_first_index_at(subs@, subscribes(user_id, pod_id), i as int); }
            subscribed = i < subs.len();
            let roles = &self.store.pod_roles;
            let mut k: usize = 0;
            while k < roles.len() && !(roles[k].user_id == user_id && roles[k].pod_id == pod_id)
                invariant
                    k <= roles@.len(),
                    forall|j: int| 0 <= j < k ==> !role_of(user_id, pod_id)(#[trigger] roles@[j]),
                decreases roles@.len() - k,
            {
                k = k + 1;
            }
            proof { lemma_first_index_at(roles@, role_of(user_id, pod_id), k as int); }
            if k < roles.len() {
                role = Some(roles[k].role);
            }
        }
        let mut actions: Vec<PodAllowedAction> = Vec::new();
        if may_subscribe {
            if subscribed {
                actions.push(PodAllowedAction::Unsubscribe);
                actions.push(PodAllowedAction::SubscriptionSet);
            } else {
                actions.push(PodAllowedAction::Subscribe);
            }
        }
        if may_curate && role.is_some() {
            actions.push(PodAllowedAction::RoleList);
            if role == Some(PodRole::Owner) {
                actions.push(PodAllowedAction::VisibilitySet);
                actions.push(PodAllowedAction::RoleGrant);
                actions.push(PodAllowedAction::RoleRevoke);
            }
        }
        let ghost expected = allowed_pod_actions(
            context_harness(self.store, *ctx)->Ok_0,
            pod_id,
            is_subscribed(self.store, *ctx, pod_id),
            role_in(self.store, *ctx, pod_id),
        );
        assert(actions@ =~= expected);
        Ok(actions)
    }

    /// Lists the Pods safe to expose on the unauthenticated federation surface:
    /// public Pods of the caller's tenant that this node is authoritative for.
    pub fn list_public_pods(&self, ctx: &AuthContext) -> (r: Result<Vec<Pod>, AgentToolsError>)
        ensures
            match context_harness(self.store, *ctx) {
                Err(d) => r matches Err(e) && denies(e, d),
                Ok(_) => match self.store.node_for_tenant_spec(ctx.tenant_id) {
                    Err(d) => r matches Err(e) && denies(e, d),
                    Ok(n) => r matches Ok(v) && v@ == self.store.pods@.filter(pod_public_at(ctx.tenant_id, n.id)),
                },
            },
    {
        harness_for_context(&self.store, ctx)?;
        let node_id = self.store.node_for_tenant(ctx.tenant_id)?.id;
        let pods = &self.store.pods;
        let mut out: Vec<Pod> = Vec::new();
        let mut i: usize = 0;
        while i < pods.len()
            invariant
                i <= pods@.len(),
                out@ == pods@.take(i as int).filter(pod_public_at(ctx.tenant_id, node_id)),
            decreases pods@.len() - i,
        {
            proof { lemma_filter_take_step(pods@, pod_public_at(ctx.tenant_id, node_id), i as int); }
            let pod = &pods[i];
            let authoritative = match pod.origin_node_id {
                None => true,
                Some(origin) => origin == node_id,
            };
            if (pod.tenant_id == ctx.tenant_id || pod.tenant_id.is_none()) && pod.visibility == Visibility::Public
                && authoritative {
                out.push(pod.clone());
            }
            i = i + 1;
        }
        assert(pods@.take(pods@.len() as int) =~= pods@);
        Ok(out)
    }

    /// Looks up a Pod by slug within a tenant.
    pub fn pod_by_slug(&self, slug: &str, tenant_id: Option<u128>) -> (r: Result<Pod, AgentToolsError>)
        ensures
            match self.store.pod_by_slug_spec(slug@, tenant_id) {
                Ok(p) => r == Ok::<Pod, AgentToolsError>(p),
                Err(d) => r matches Err(e) && denies(e, d),
            },
    {
        let pod = self.store.pod_by_slug(slug, tenant_id)?;
        Ok(pod.clone())
    }

    /// Lists a Pod's roles, ordered by grant instant and then User, for its curators.
    pub fn list_pod_roles(&self, ctx: &AuthContext, pod_id: u128) -> (r: Result<Vec<PodRoleAssignment>, AgentToolsError>)
        ensures
            match harness_check(self.store, *ctx, HarnessCapability::PodCuration, Some(pod_id)) {
                Ok(()) => r matches Ok(v) && v@ == pod_roles_sorted(self.store, pod_id),
                Err(d) => r matches Err(e) && denies(e, d),
            },
    {
        authorize_harness(&self.store, ctx, HarnessCapability::PodCuration, Some(pod_id))?;
        let roles = &self.store.pod_roles;
        let ghost pred = in_pod(pod_id);
        let mut keyed: Vec<((i64, u128), PodRoleAssignment)> = Vec::new();
        let mut i: usize = 0;
        while i < roles.len()
            invariant
                i <= roles@.len(),
                pred == in_pod(pod_id),
                keyed@ == roles@.take(i as int).filter(pred).map_values(role_key()),
            decreases roles@.len() - i,
        {
            proof { lemma_filter_take_step(roles@, pred, i as int); }
            let a = roles[i];
            let ghost before = keyed@;
            if a.pod_id == pod_id {
                keyed.push(((a.created_at, a.user_id), a));
                assert(keyed@ == before.push(role_key()(a)));
            } else {
                assert(keyed@ == before);
            }
            proof {
                let f = roles@.take(i as int).filter(pred);
                assert(a == roles@[i as int]);
                assert(roles@.take(i + 1).filter(pred) == (if pred(a) { f.push(a) } else { f }));
                assert(role_key()(a) == ((a.created_at, a.user_id), a));
                if pred(a) {
                    assert(f.push(a).map_values(role_key()) =~= f.map_values(role_key()).push(role_key()(a)));
                }
                assert(keyed@ =~= roles@.take(i + 1).filter(pred).map_values(role_key()));
            }
            i = i + 1;
        }
        assert(roles@.take(roles@.len() as int) =~= roles@);
        let sorted = sort_by_key(keyed);
        let mut out: Vec<PodRoleAssignment> = Vec::new();
        let mut k: usize = 0;
        while k < sorted.len()
            invariant
                k <= sorted@.len(),
                out@ == payloads(sorted@.take(k as int)),
            decreases sorted@.len() - k,
        {
            out.push(sorted[k].1);
            assert(out@ =~= payloads(sorted@.take(k + 1)));
            k = k + 1;
        }
        assert(sorted@.take(sorted@.len() as int) =~= sorted@);
        Ok(out)
    }
}

} // verus!
