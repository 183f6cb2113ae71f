//! Authorization of callers: harness identity, Harness Grants, Pod scope,
//! Pod Roles, and the Personal Discovery policies built on them.
use crate::error::{denies, forbidden, forbidden_for, refuses_as, AgentToolsError, Denial};
use crate::outside::uuid_text;
use crate::seqs::{any_match, first_index, first_match, lemma_first_index, lemma_first_index_at};
use crate::store::{harness_with_id, pod_with_id, tenant_check, Store};
use crate::types::{AgentHarness, AgentHarnessKind, AuthContext, HarnessCapability, PodRole, PodRoleAssignment, SubmissionPod};
use vstd::prelude::*;

verus! {

/// The text by which a capability is named in denials.
pub open spec fn capability_name_spec(c: HarnessCapability) -> Seq<char> {
    match c {
        HarnessCapability::FeedRead => "feed_read"@,
        HarnessCapability::Feedback => "feedback"@,
        HarnessCapability::SubscriptionManagement => "subscription_management"@,
        HarnessCapability::PodCuration => "pod_curation"@,
        HarnessCapability::Administration => "administration"@,
        HarnessCapability::Approval => "approval"@,
        HarnessCapability::CandidateSubmission => "candidate_submission"@,
        HarnessCapability::DiscoveryTasks => "discovery_tasks"@,
        HarnessCapability::PackageManagement => "package_management"@,
        HarnessCapability::PersonalDiscoveryManagement => "personal_discovery_management"@,
        HarnessCapability::PersonalDiscoveryExecution => "personal_discovery_execution"@,
        HarnessCapability::PodSimilarityEvidence => "pod_similarity_evidence"@,
    }
}

/// Names a capability.
pub fn capability_name(c: HarnessCapability) -> (s: &'static str)
    ensures
        s@ == capability_name_spec(c),
{
    match c {
        HarnessCapability::FeedRead => "feed_read",
        HarnessCapability::Feedback => "feedback",
        HarnessCapability::SubscriptionManagement => "subscription_management",
        HarnessCapability::PodCuration => "pod_curation",
        HarnessCapability::Administration => "administration",
        HarnessCapability::Approval => "approval",
        HarnessCapability::CandidateSubmission => "candidate_submission",
        HarnessCapability::DiscoveryTasks => "discovery_tasks",
        HarnessCapability::PackageManagement => "package_management",
        HarnessCapability::PersonalDiscoveryManagement => "personal_discovery_management",
        HarnessCapability::PersonalDiscoveryExecution => "personal_discovery_execution",
        HarnessCapability::PodSimilarityEvidence => "pod_similarity_evidence",
    }
}

/// The harness a context acts through, if any; a context naming a missing,
/// revoked or mismatched harness is refused.
pub open spec fn context_harness(s: Store, ctx: AuthContext) -> Result<Option<AgentHarness>, Denial> {
    match ctx.harness_id {
        None => Ok(None),
        Some(hid) => match first_match(s.agent_harnesses@, harness_with_id(hid)) {
            None => Err(Denial::Forbidden("harness grant is revoked or missing"@)),
            Some(h) => if h.revoked_at is Some {
                Err(Denial::Forbidden("harness grant is revoked or missing"@))
            } else if ctx.user_id != Some(h.user_id) || h.tenant_id != ctx.tenant_id {
                Err(Denial::Forbidden("harness grant does not match the authorization context"@))
            } else {
                Ok(Some(h))
            },
        },
    }
}

/// The context's harness check alone, without its result.
pub open spec fn context_check(s: Store, ctx: AuthContext) -> Result<(), Denial> {
    match context_harness(s, ctx) {
        Ok(_) => Ok(()),
        Err(d) => Err(d),
    }
}

pub open spec fn grant_has(h: AgentHarness, c: HarnessCapability) -> bool {
    h.grant.capabilities@.contains(c)
}

/// Whether the grant's Pod scope admits `pod_id` (an unscoped grant admits every Pod).
pub open spec fn grant_admits_pod(h: AgentHarness, pod_id: u128) -> bool {
    match h.grant.pod_ids {
        None => true,
        Some(ids) => ids@.contains(pod_id),
    }
}

pub open spec fn curates(user_id: u128, pod_id: u128) -> spec_fn(PodRoleAssignment) -> bool {
    |a: PodRoleAssignment| a.user_id == user_id && a.pod_id == pod_id && (a.role == PodRole::Owner || a.role == PodRole::Curator)
}

/// The rule for one capability, optionally on one Pod: contexts without a
/// harness pass; a harness needs the capability, a grant scope admitting the
/// Pod, and, for curation of a Pod by a known User, an Owner or Curator role.
pub open spec fn harness_check(
    s: Store,
    ctx: AuthContext,
    capability: HarnessCapability,
    pod_id: Option<u128>,
) -> Result<(), Denial> {
    match context_harness(s, ctx) {
        Err(d) => Err(d),
        Ok(None) => Ok(()),
        Ok(Some(h)) => if !grant_has(h, capability) {
            Err(Denial::Forbidden("harness grant lacks "@ + capability_name_spec(capability)))
        } else if pod_id is Some && h.grant.pod_ids is Some && !grant_admits_pod(h, pod_id->0) {
            Err(Denial::Forbidden("harness grant does not include Pod "@ + uuid_text(pod_id->0)))
        } else if capability == HarnessCapability::PodCuration && ctx.user_id is Some && pod_id is Some
            && !any_match(s.pod_roles@, curates(ctx.user_id->0, pod_id->0)) {
            Err(Denial::Forbidden("User has no Pod Role for Pod "@ + uuid_text(pod_id->0)))
        } else {
            Ok(())
        },
    }
}

/// Resolves the harness a context acts through.
pub fn harness_for_context<'a>(store: &'a Store, ctx: &AuthContext) -> (r: Result<Option<&'a AgentHarness>, AgentToolsError>)
    ensures
        match context_harness(*store, *ctx) {
            Ok(None) => r == Ok::<Option<&AgentHarness>, AgentToolsError>(None),
            Ok(Some(h)) => r matches Ok(Some(x)) && *x == h,
            Err(d) => r matches Err(e) && denies(e, d),
        },
{
    let harness_id = match ctx.harness_id {
        None => return Ok(None),
        Some(id) => id,
    };
    let index = match store.find_harness(harness_id) {
        None => return Err(forbidden("harness grant is revoked or missing")),
        Some(i) => i,
    };
    let harness = &store.agent_harnesses[index];
    if harness.revoked_at.is_some() {
        return Err(forbidden("harness grant is revoked or missing"));
    }
    if ctx.user_id != Some(harness.user_id) || harness.tenant_id != ctx.tenant_id {
        return Err(forbidden("harness grant does not match the authorization context"));
    }
    Ok(Some(harness))
}

/// Whether `grant_has` holds, computed.
pub fn grant_contains(h: &AgentHarness, capability: HarnessCapability) -> (b: bool)
    ensures
        b == grant_has(*h, capability),
{
    let mut i: usize = 0;
    while i < h.grant.capabilities.len()
        invariant
            i <= h.grant.capabilities@.len(),
            forall|j: int| 0 <= j < i ==> h.grant.capabilities@[j] != capability,
        decreases h.grant.capabilities@.len() - i,
    {
        if h.grant.capabilities[i] == capability {
            assert(h.grant.capabilities@[i as int] == capability);
            return true;
        }
        i = i + 1;
    }
    false
}

/// Whether a list of identifiers holds `id`.
pub fn ids_contain(ids: &Vec<u128>, id: u128) -> (b: bool)
    ensures
        b == ids@.contains(id),
{
    let mut i: usize = 0;
    while i < ids.len()
        invariant
            i <= ids@.len(),
            forall|j: int| 0 <= j < i ==> ids@[j] != id,
        decreases ids@.len() - i,
    {
        if ids[i] == id {
            assert(ids@[i as int] == id);
            return true;
        }
        i = i + 1;
    }
    false
}

/// Whether `grant_admits_pod` holds, computed.
pub fn grant_admits(h: &AgentHarness, pod_id: u128) -> (b: bool)
    ensures
        b == grant_admits_pod(*h, pod_id),
{
    match &h.grant.pod_ids {
        None => true,
        Some(ids) => ids_contain(ids, pod_id),
    }
}

/// Whether the User curates the Pod (as Owner or Curator).
pub fn has_curation_role(store: &Store, user_id: u128, pod_id: u128) -> (b: bool)
    ensures
        b == any_match(store.pod_roles@, curates(user_id, pod_id)),
{
    let mut i: usize = 0;
    while i < store.pod_roles.len()
        invariant
            i <= store.pod_roles@.len(),
            forall|j: int| 0 <= j < i ==> !curates(user_id, pod_id)(#[trigger] store.pod_roles@[j]),
        decreases store.pod_roles@.len() - i,
    {
        let a = store.pod_roles[i];
        if a.user_id == user_id && a.pod_id == pod_id && (a.role == PodRole::Owner || a.role == PodRole::Curator) {
            assert(curates(user_id, pod_id)(store.pod_roles@[i as int]));
            return true;
        }
        i = i + 1;
    }
    false
}

/// Checks one capability, optionally on one Pod, for a context.
pub fn authorize_harness(
    store: &Store,
    ctx: &AuthContext,
    capability: HarnessCapability,
    pod_id: Option<u128>,
) -> (r: Result<(), AgentToolsError>)
    ensures
        refuses_as(r, harness_check(*store, *ctx, capability, pod_id)),
{
    let harness = match harness_for_context(store, ctx)? {
        None => return Ok(()),
        Some(h) => h,
    };
    if !grant_contains(harness, capability) {
        let mut reason = String::from_str("harness grant lacks ");
        reason.append(capability_name(capability));
        return Err(AgentToolsError::Forbidden { reason });
    }
    if let Some(pod) = pod_id {
        if harness.grant.pod_ids.is_some() && !grant_admits(harness, pod) {
            return Err(forbidden_for("harness grant does not include Pod ", pod));
        }
    }
    if capability == HarnessCapability::PodCuration {
        if let (Some(user_id), Some(pod)) = (ctx.user_id, pod_id) {
            if !has_curation_role(store, user_id, pod) {
                return Err(forbidden_for("User has no Pod Role for Pod ", pod));
            }
        }
    }
    Ok(())
}


/// The rule that a context's harness, if any, acts interactively.
pub open spec fn interactive_check(s: Store, ctx: AuthContext, reason: Seq<char>) -> Result<(), Denial> {
    match context_harness(s, ctx) {
        Err(d) => Err(d),
        Ok(Some(h)) => if h.kind != AgentHarnessKind::Interactive {
            Err(Denial::Forbidden(reason))
        } else {
            Ok(())
        },
        Ok(None) => Ok(()),
    }
}

/// Checks that the context's harness, if any, is interactive.
pub fn authorize_interactive_user_action(store: &Store, ctx: &AuthContext, reason: &str) -> (r: Result<(), AgentToolsError>)
    ensures
        refuses_as(r, interactive_check(*store, *ctx, reason@)),
{
    if let Some(harness) = harness_for_context(store, ctx)? {
        if harness.kind != AgentHarnessKind::Interactive {
            return Err(forbidden(reason));
        }
    }
    Ok(())
}

/// The rule for private Taste Profile access: Feedback authority through an
/// unscoped, interactive grant.
pub open spec fn taste_profile_check(s: Store, ctx: AuthContext) -> Result<(), Denial> {
    match harness_check(s, ctx, HarnessCapability::Feedback, None) {
        Err(d) => Err(d),
        Ok(()) => match context_harness(s, ctx) {
            Ok(Some(h)) => if h.grant.pod_ids is Some {
                Err(Denial::Forbidden("Taste Profile access requires an unscoped feedback grant"@))
            } else if h.kind != AgentHarnessKind::Interactive {
                Err(Denial::Forbidden("Taste Profile access requires an interactive User action"@))
            } else {
                Ok(())
            },
            _ => Ok(()),
        },
    }
}

/// Checks private Taste Profile access.
pub fn authorize_taste_profile(store: &Store, ctx: &AuthContext) -> (r: Result<(), AgentToolsError>)
    ensures
        refuses_as(r, taste_profile_check(*store, *ctx)),
{
    authorize_harness(store, ctx, HarnessCapability::Feedback, None)?;
    if let Some(harness) = harness_for_context(store, ctx)? {
        if harness.grant.pod_ids.is_some() {
            return Err(forbidden("Taste Profile access requires an unscoped feedback grant"));
        }
        if harness.kind != AgentHarnessKind::Interactive {
            return Err(forbidden("Taste Profile access requires an interactive User action"));
        }
    }
    Ok(())
}

/// The Personal Discovery management rule: the management capability through
/// an unscoped, interactive grant.
pub open spec fn management_check(s: Store, ctx: AuthContext) -> Result<(), Denial> {
    match harness_check(s, ctx, HarnessCapability::PersonalDiscoveryManagement, None) {
        Err(d) => Err(d),
        Ok(()) => match context_harness(s, ctx) {
            Ok(Some(h)) => if h.kind != AgentHarnessKind::Interactive || h.grant.pod_ids is Some {
                Err(Denial::Forbidden("Personal Discovery management requires an unscoped interactive grant"@))
            } else {
                Ok(())
            },
            _ => Ok(()),
        },
    }
}

/// Checks the Personal Discovery management rule.
pub fn authorize_personal_discovery_management(store: &Store, ctx: &AuthContext) -> (r: Result<(), AgentToolsError>)
    ensures
        refuses_as(r, management_check(*store, *ctx)),
{
    authorize_harness(store, ctx, HarnessCapability::PersonalDiscoveryManagement, None)?;
    if let Some(harness) = harness_for_context(store, ctx)? {
        if harness.kind != AgentHarnessKind::Interactive || harness.grant.pod_ids.is_some() {
            return Err(forbidden("Personal Discovery management requires an unscoped interactive grant"));
        }
    }
    Ok(())
}

/// The Personal Discovery execution rule: the execution capability through
/// an unscoped, unattended grant.
pub open spec fn execution_check(s: Store, ctx: AuthContext) -> Result<(), Denial> {
    match harness_check(s, ctx, HarnessCapability::PersonalDiscoveryExecution, None) {
        Err(d) => Err(d),
        Ok(()) => match context_harness(s, ctx) {
            Ok(Some(h)) => if h.kind != AgentHarnessKind::Unattended || h.grant.pod_ids is Some {
                Err(Denial::Forbidden("Personal Discovery execution requires an unscoped unattended grant"@))
            } else {
                Ok(())
            },
            _ => Ok(()),
        },
    }
}

/// Checks the Personal Discovery execution rule.
pub fn authorize_personal_discovery_execution(store: &Store, ctx: &AuthContext) -> (r: Result<(), AgentToolsError>)
    ensures
        refuses_as(r, execution_check(*store, *ctx)),
{
    authorize_harness(store, ctx, HarnessCapability::PersonalDiscoveryExecution, None)?;
    if let Some(harness) = harness_for_context(store, ctx)? {
        if harness.kind != AgentHarnessKind::Unattended || harness.grant.pod_ids.is_some() {
            return Err(forbidden("Personal Discovery execution requires an unscoped unattended grant"));
        }
    }
    Ok(())
}

/// The rule that a harness, if any, may act on one Pod by its grant's scope.
pub open spec fn pod_scope_check(s: Store, ctx: AuthContext, pod_id: u128) -> Result<(), Denial> {
    match context_harness(s, ctx) {
        Err(d) => Err(d),
        Ok(Some(h)) => if !grant_admits_pod(h, pod_id) {
            Err(Denial::Forbidden("harness grant does not include Pod "@ + uuid_text(pod_id)))
        } else {
            Ok(())
        },
        Ok(None) => Ok(()),
    }
}

/// Checks a harness's Pod scope for one Pod.
pub fn authorize_harness_pod_scope(store: &Store, ctx: &AuthContext, pod_id: u128) -> (r: Result<(), AgentToolsError>)
    ensures
        refuses_as(r, pod_scope_check(*store, *ctx, pod_id)),
{
    if let Some(harness) = harness_for_context(store, ctx)? {
        if !grant_admits(harness, pod_id) {
            return Err(forbidden_for("harness grant does not include Pod ", pod_id));
        }
    }
    Ok(())
}

/// The rule for creating a new Pod with a capability: a Pod-scoped grant never may.
pub open spec fn new_pod_check(s: Store, ctx: AuthContext, capability: HarnessCapability) -> Result<(), Denial> {
    match harness_check(s, ctx, capability, None) {
        Err(d) => Err(d),
        Ok(()) => match context_harness(s, ctx) {
            Ok(Some(h)) => if h.grant.pod_ids is Some {
                Err(Denial::Forbidden("a Pod-scoped harness grant cannot create a new Pod"@))
            } else {
                Ok(())
            },
            _ => Ok(()),
        },
    }
}

/// Checks authority to create a new Pod.
pub fn authorize_harness_for_new_pod(store: &Store, ctx: &AuthContext, capability: HarnessCapability) -> (r: Result<(), AgentToolsError>)
    ensures
        refuses_as(r, new_pod_check(*store, *ctx, capability)),
{
    authorize_harness(store, ctx, capability, None)?;
    if let Some(harness) = harness_for_context(store, ctx)? {
        if harness.grant.pod_ids.is_some() {
            return Err(forbidden("a Pod-scoped harness grant cannot create a new Pod"));
        }
    }
    Ok(())
}

pub open spec fn owns(user_id: u128, pod_id: u128) -> spec_fn(PodRoleAssignment) -> bool {
    |a: PodRoleAssignment| a.user_id == user_id && a.pod_id == pod_id && a.role == PodRole::Owner
}

/// The rule that the caller is an Owner of the Pod with curation authority.
pub open spec fn pod_owner_check(s: Store, ctx: AuthContext, pod_id: u128) -> Result<(), Denial> {
    match harness_check(s, ctx, HarnessCapability::PodCuration, Some(pod_id)) {
        Err(d) => Err(d),
        Ok(()) => if ctx.user_id is Some && any_match(s.pod_roles@, owns(ctx.user_id->0, pod_id)) {
            Ok(())
        } else {
            Err(Denial::Forbidden("User is not an Owner of Pod "@ + uuid_text(pod_id)))
        },
    }
}

/// Checks that the caller owns the Pod.
pub fn authorize_pod_role_owner(store: &Store, ctx: &AuthContext, pod_id: u128) -> (r: Result<(), AgentToolsError>)
    ensures
        refuses_as(r, pod_owner_check(*store, *ctx, pod_id)),
{
    authorize_harness(store, ctx, HarnessCapability::PodCuration, Some(pod_id))?;
    if let Some(user_id) = ctx.user_id {
        let mut i: usize = 0;
        while i < store.pod_roles.len()
            invariant
                i <= store.pod_roles@.len(),
                forall|j: int| 0 <= j < i ==> !owns(user_id, pod_id)(#[trigger] store.pod_roles@[j]),
                harness_check(*store, *ctx, HarnessCapability::PodCuration, Some(pod_id)) is Ok,
                ctx.user_id == Some(user_id),
            decreases store.pod_roles@.len() - i,
        {
            let a = store.pod_roles[i];
            if a.user_id == user_id && a.pod_id == pod_id && a.role == PodRole::Owner {
                assert(owns(user_id, pod_id)(store.pod_roles@[i as int]));
                assert(any_match(store.pod_roles@, owns(user_id, pod_id)));
                return Ok(());
            }
            i = i + 1;
        }
    }
    Err(forbidden_for("User is not an Owner of Pod ", pod_id))
}


/// The rule for local curation of one Pod: curation authority on it, the
/// Pod exists in the caller's tenant, and this node is its origin.
pub open spec fn local_curation_check(s: Store, ctx: AuthContext, pod_id: u128) -> Result<(), Denial> {
    match harness_check(s, ctx, HarnessCapability::PodCuration, Some(pod_id)) {
        Err(d) => Err(d),
        Ok(()) => match first_match(s.pods@, pod_with_id(pod_id)) {
            None => Err(Denial::NotFound("Pod "@ + uuid_text(pod_id))),
            Some(pod) => match tenant_check(pod.tenant_id, ctx.tenant_id) {
                Err(d) => Err(d),
                Ok(()) => match s.node_for_tenant_spec(ctx.tenant_id) {
                    Err(d) => Err(d),
                    Ok(node) => if pod.origin_node_id is Some && pod.origin_node_id != Some(node.id) {
                        Err(Denial::Forbidden("remote Pod "@ + uuid_text(pod_id) + " cannot receive local curation"@))
                    } else {
                        Ok(())
                    },
                },
            },
        },
    }
}

/// Checks local curation authority over one Pod.
pub fn authorize_local_pod_curation(store: &Store, ctx: &AuthContext, pod_id: u128) -> (r: Result<(), AgentToolsError>)
    ensures
        refuses_as(r, local_curation_check(*store, *ctx, pod_id)),
{
    authorize_harness(store, ctx, HarnessCapability::PodCuration, Some(pod_id))?;
    let index = match store.find_pod(pod_id) {
        Some(i) => i,
        None => return Err(crate::error::not_found_for("Pod ", pod_id)),
    };
    let pod = &store.pods[index];
    store.assert_tenant(pod.tenant_id, ctx.tenant_id)?;
    let local_node_id = store.node_for_tenant(ctx.tenant_id)?.id;
    if let Some(origin) = pod.origin_node_id {
        if origin != local_node_id {
            return Err(crate::error::forbidden_around("remote Pod ", pod_id, " cannot receive local curation"));
        }
    }
    Ok(())
}

pub open spec fn placement_outside(h: AgentHarness, submission_id: u128) -> spec_fn(SubmissionPod) -> bool {
    |p: SubmissionPod| p.submission_id == submission_id && !grant_admits_pod(h, p.pod_id)
}

/// The rule that every Pod holding a Submission lies within the harness's Pod scope.
pub open spec fn submission_scope_check(s: Store, ctx: AuthContext, submission_id: u128) -> Result<(), Denial> {
    match context_harness(s, ctx) {
        Err(d) => Err(d),
        Ok(None) => Ok(()),
        Ok(Some(h)) => match first_match(s.submission_pods@, placement_outside(h, submission_id)) {
            Some(p) => Err(Denial::Forbidden("harness grant does not include Pod "@ + uuid_text(p.pod_id))),
            None => Ok(()),
        },
    }
}

/// Checks that a harness may reach a Submission through every Pod that holds it.
pub fn authorize_harness_submission_scope(store: &Store, ctx: &AuthContext, submission_id: u128) -> (r: Result<(), AgentToolsError>)
    ensures
        refuses_as(r, submission_scope_check(*store, *ctx, submission_id)),
{
    let harness = match harness_for_context(store, ctx)? {
        None => return Ok(()),
        Some(h) => h,
    };
    let placements = &store.submission_pods;
    let mut i: usize = 0;
    while i < placements.len()
        invariant
            i <= placements@.len(),
            *placements == store.submission_pods,
            context_harness(*store, *ctx) == Ok::<Option<AgentHarness>, Denial>(Some(*harness)),
            forall|j: int| 0 <= j < i ==> !placement_outside(*harness, submission_id)(#[trigger] placements@[j]),
        decreases placements@.len() - i,
    {
        let p = placements[i];
        if p.submission_id == submission_id && !grant_admits(harness, p.pod_id) {
            proof { lemma_first_index_at(placements@, placement_outside(*harness, submission_id), i as int); }
            return Err(forbidden_for("harness grant does not include Pod ", p.pod_id));
        }
        i = i + 1;
    }
    proof { lemma_first_index_at(placements@, placement_outside(*harness, submission_id), i as int); }
    Ok(())
}

} // verus!
