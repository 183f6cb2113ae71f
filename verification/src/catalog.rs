//! Read access to Pod content: accepted placements, Pod Placements, assets,
//! briefs and Pod Packages, each limited by tenant and Harness Grant scope.
use crate::agent_tools::AgentTools;
use crate::auth::{
    authorize_harness, authorize_harness_pod_scope, authorize_harness_submission_scope, authorize_local_pod_curation, harness_check,
    local_curation_check, pod_scope_check, submission_scope_check,
};
use crate::error::{denies, not_found, not_found_for, AgentToolsError, Denial, StoreError};
use crate::outside::uuid_text;
use crate::seqs::{first_index, first_match, lemma_filter_map_step, lemma_filter_take_step, lemma_first_index_at, payloads, sort_by_key, stable_sort, strip_keys};
use crate::store::{pod_with_id, tenant_check, Store};
use crate::text::{append_decimal, decimal};
use crate::types::{
    AcceptedPlacementProjection, AuthContext, Brief, BriefModel, HarnessCapability, PodPlacement, PodSkillPack, Submission, SubmissionAsset,
};
use vstd::prelude::*;

verus! {

pub open spec fn projected_into(pod_id: u128) -> spec_fn(AcceptedPlacementProjection) -> bool {
    |p: AcceptedPlacementProjection| p.pod_id == pod_id
}

pub open spec fn projection_key() -> spec_fn(AcceptedPlacementProjection) -> ((i64, u128), AcceptedPlacementProjection) {
    |p: AcceptedPlacementProjection| ((p.accepted_at, p.content_item_id), p)
}

pub open spec fn placement_of(candidate_id: u128, pod_id: u128) -> spec_fn(PodPlacement) -> bool {
    |p: PodPlacement| p.candidate_id == candidate_id && p.pod_id == pod_id
}

pub open spec fn submission_with_id(id: u128) -> spec_fn(Submission) -> bool {
    |s: Submission| s.id == id
}

pub open spec fn asset_of(submission_id: u128) -> spec_fn(SubmissionAsset) -> bool {
    |a: SubmissionAsset| a.submission_id == submission_id
}

pub open spec fn pack_of(pod_id: u128) -> spec_fn(PodSkillPack) -> bool {
    |p: PodSkillPack| p.pod_id == pod_id
}

pub open spec fn package_version_of(pod_id: u128, version: u64) -> spec_fn(PodSkillPack) -> bool {
    |p: PodSkillPack| p.pod_id == pod_id && p.version == version
}

/// A brief is listed when it is in the caller's tenant, is the caller's own
/// when a harness asks, and every Submission in it is within the harness's Pod scope.
pub open spec fn brief_listed(s: Store, ctx: AuthContext) -> spec_fn(Brief) -> bool {
    |b: Brief| b.tenant_id == ctx.tenant_id && (ctx.harness_id is None || b.user_id == ctx.user_id)
        && forall|j: int| 0 <= j < b.items@.len() ==> submission_scope_check(s, ctx, #[trigger] b.items@[j].submission_id) is Ok
}

pub open spec fn brief_model() -> spec_fn(Brief) -> BriefModel {
    |b: Brief| b@
}

/// The checks that precede reading a Pod's accepted placements.
pub open spec fn feed_pod_check(s: Store, ctx: AuthContext, pod_id: u128) -> Result<(), Denial> {
    match first_match(s.pods@, pod_with_id(pod_id)) {
        None => Err(Denial::NotFound("Pod "@ + uuid_text(pod_id))),
        Some(pod) => match tenant_check(pod.tenant_id, ctx.tenant_id) {
            Err(d) => Err(d),
            Ok(()) => harness_check(s, ctx, HarnessCapability::FeedRead, Some(pod_id)),
        },
    }
}

impl AgentTools {
    /// Lists a Pod's accepted placements, in acceptance order.
    pub fn accepted_placements_for_pod(&self, ctx: &AuthContext, pod_id: u128) -> (r: Result<Vec<AcceptedPlacementProjection>, AgentToolsError>)
        ensures
            match feed_pod_check(self.store, *ctx, pod_id) {
                Err(d) => r matches Err(e) && denies(e, d),
                Ok(()) => r matches Ok(v) && v@ == payloads(stable_sort(
                    self.store.accepted_placement_projections@.filter(projected_into(pod_id)).map_values(projection_key()),
                )),
            },
    {
        let index = match self.store.find_pod(pod_id) {
            Some(i) => i,
            None => return Err(not_found_for("Pod ", pod_id)),
        };
        self.store.assert_tenant(self.store.pods[index].tenant_id, ctx.tenant_id)?;
        authorize_harness(&self.store, ctx, HarnessCapability::FeedRead, Some(pod_id))?;
        let all = &self.store.accepted_placement_projections;
        let mut keyed: Vec<((i64, u128), AcceptedPlacementProjection)> = Vec::new();
        let mut i: usize = 0;
        while i < all.len()
            invariant
                i <= all@.len(),
                keyed@ == all@.take(i as int).filter(projected_into(pod_id)).map_values(projection_key()),
            decreases all@.len() - i,
        {
            proof { lemma_filter_map_step(all@, projected_into(pod_id), projection_key(), i as int); }
            let p = all[i];
            if p.pod_id == pod_id {
                keyed.push(((p.accepted_at, p.content_item_id), p));
            }
            i = i + 1;
        }
        assert(all@.take(all@.len() as int) =~= all@);
        Ok(strip_keys(sort_by_key(keyed)))
    }

    /// Reads one locally governed Pod Placement.
    pub fn pod_placement(&self, ctx: &AuthContext, candidate_id: u128, pod_id: u128) -> (r: Result<PodPlacement, AgentToolsError>)
        ensures
            match local_curation_check(self.store, *ctx, pod_id) {
                Err(d) => r matches Err(e) && denies(e, d),
                Ok(()) => match first_match(self.store.pod_placements@, placement_of(candidate_id, pod_id)) {
                    Some(p) => r == Ok::<PodPlacement, AgentToolsError>(p),
                    None => r matches Err(e) && denies(e, Denial::NotFound("Pod Placement"@)),
                },
            },
    {
        authorize_local_pod_curation(&self.store, ctx, pod_id)?;
        let all = &self.store.pod_placements;
        let mut i: usize = 0;
        while i < all.len() && !(all[i].candidate_id == candidate_id && all[i].pod_id == pod_id)
            invariant
                i <= all@.len(),
                forall|j: int| 0 <= j < i ==> !placement_of(candidate_id, pod_id)(#[trigger] all@[j]),
            decreases all@.len() - i,
        {
            i = i + 1;
        }
        proof { lemma_first_index_at(all@, placement_of(candidate_id, pod_id), i as int); }
        if i < all.len() {
            Ok(all[i])
        } else {
            Err(not_found("Pod Placement"))
        }
    }

    /// Lists the assets of a Submission the caller may reach.
    pub fn assets_for_submission(&self, ctx: &AuthContext, submission_id: u128) -> (r: Result<Vec<SubmissionAsset>, AgentToolsError>)
        ensures
            match first_match(self.store.submissions@, submission_with_id(submission_id)) {
                None => r matches Err(e) && denies(e, Denial::NotFound("submission"@)),
                Some(sub) => match tenant_check(sub.tenant_id, ctx.tenant_id) {
                    Err(d) => r matches Err(e) && denies(e, d),
                    Ok(()) => match submission_scope_check(self.store, *ctx, submission_id) {
                        Err(d) => r matches Err(e) && denies(e, d),
                        Ok(()) => r matches Ok(v) && v@ == self.store.submission_assets@.filter(asset_of(submission_id)),
                    },
                },
            },
    {
        let subs = &self.store.submissions;
        let mut i: usize = 0;
        while i < subs.len() && subs[i].id != submission_id
            invariant
                i <= subs@.len(),
                forall|j: int| 0 <= j < i ==> !submission_with_id(submission_id)(#[trigger] subs@[j]),
            decreases subs@.len() - i,
        {
            i = i + 1;
        }
        proof { lemma_first_index_at(subs@, submission_with_id(submission_id), i as int); }
        if i == subs.len() {
            return Err(not_found("submission"));
        }
        self.store.assert_tenant(subs[i].tenant_id, ctx.tenant_id)?;
        authorize_harness_submission_scope(&self.store, ctx, submission_id)?;
        let all = &self.store.submission_assets;
        let mut out: Vec<SubmissionAsset> = Vec::new();
        let mut k: usize = 0;
        while k < all.len()
            invariant
                k <= all@.len(),
                out@ == all@.take(k as int).filter(asset_of(submission_id)),
            decreases all@.len() - k,
        {
            proof { lemma_filter_take_step(all@, asset_of(submission_id), k as int); }
            if all[k].submission_id == submission_id {
                out.push(all[k].clone());
            }
            k = k + 1;
        }
        assert(all@.take(all@.len() as int) =~= all@);
        Ok(out)
    }

    /// Lists the briefs visible to the caller's User and Harness Grant.
    pub fn list_briefs_for_harness(&self, ctx: &AuthContext) -> (r: Result<Vec<Brief>, AgentToolsError>)
        ensures
            match harness_check(self.store, *ctx, HarnessCapability::FeedRead, None) {
                Err(d) => r matches Err(e) && denies(e, d),
                Ok(()) => r matches Ok(v) && v@.map_values(brief_model())
                    == self.store.briefs@.filter(brief_listed(self.store, *ctx)).map_values(brief_model()),
            },
    {
        authorize_harness(&self.store, ctx, HarnessCapability::FeedRead, None)?;
        let store = &self.store;
        let is_harness = ctx.harness_id.is_some();
        let all = &store.briefs;
        let mut out: Vec<Brief> = Vec::new();
        let mut i: usize = 0;
        while i < all.len()
            invariant
                i <= all@.len(),
                *all == store.briefs,
                *store == self.store,
                is_harness == ctx.harness_id is Some,
                out@.map_values(brief_model()) == all@.take(i as int).filter(brief_listed(*store, *ctx)).map_values(brief_model()),
            decreases all@.len() - i,
        {
            proof { lemma_filter_map_step(all@, brief_listed(*store, *ctx), brief_model(), i as int); }
            let brief = &all[i];
            let mut visible = brief.tenant_id == ctx.tenant_id && (!is_harness || brief.user_id == ctx.user_id);
            if visible {
                let mut k: usize = 0;
                let mut in_scope = true;
                while in_scope && k < brief.items.len()
                    invariant
                        k <= brief.items@.len(),
                        *store == self.store,
                        forall|j: int| 0 <= j < k ==> submission_scope_check(*store, *ctx, #[trigger] brief.items@[j].submission_id) is Ok,
                        !in_scope ==> k < brief.items@.len() && submission_scope_check(*store, *ctx, brief.items@[k as int].submission_id) is Err,
                    decreases brief.items@.len() - k + (if in_scope { 1int } else { 0int }),
                {
                    if authorize_harness_submission_scope(store, ctx, brief.items[k].submission_id).is_err() {
                        in_scope = false;
                    } else {
                        k = k + 1;
                    }
                }
                visible = in_scope;
            }
            assert(visible == brief_listed(*store, *ctx)(*brief));
            let ghost before = out@;
            if visible {
                out.push(brief.clone());
                assert(out@.map_values(brief_model()) =~= before.map_values(brief_model()).push(brief_model()(*brief)));
            }
            i = i + 1;
        }
        assert(all@.take(all@.len() as int) =~= all@);
        Ok(out)
    }

    /// Reads the current Pod Package of a Pod in the caller's tenant and scope.
    pub fn get_skill_pack(&self, ctx: &AuthContext, pod_slug: &str) -> (r: Result<PodSkillPack, AgentToolsError>)
        ensures
            match self.store.pod_by_slug_spec(pod_slug@, ctx.tenant_id) {
                Err(d) => r matches Err(e) && denies(e, d),
                Ok(pod) => match tenant_check(pod.tenant_id, ctx.tenant_id) {
                    Err(d) => r matches Err(e) && denies(e, d),
                    Ok(()) => match pod_scope_check(self.store, *ctx, pod.id) {
                        Err(d) => r matches Err(e) && denies(e, d),
                        Ok(()) => match first_match(self.store.pod_skill_packs@, pack_of(pod.id)) {
                            Some(p) => r == Ok::<PodSkillPack, AgentToolsError>(p),
                            None => r matches Err(e) && denies(e, Denial::NotFound("skill pack"@)),
                        },
                    },
                },
            },
    {
        let pod = self.store.pod_by_slug(pod_slug, ctx.tenant_id)?;
        self.store.assert_tenant(pod.tenant_id, ctx.tenant_id)?;
        authorize_harness_pod_scope(&self.store, ctx, pod.id)?;
        let pod_id = pod.id;
        let all = &self.store.pod_skill_packs;
        let mut i: usize = 0;
        while i < all.len() && all[i].pod_id != pod_id
            invariant
                i <= all@.len(),
                forall|j: int| 0 <= j < i ==> !pack_of(pod_id)(#[trigger] all@[j]),
            decreases all@.len() - i,
        {
            i = i + 1;
        }
        proof { lemma_first_index_at(all@, pack_of(pod_id), i as int); }
        if i < all.len() {
            Ok(all[i].clone())
        } else {
            Err(not_found("skill pack"))
        }
    }

    /// Reads one immutable historical Pod Package version.
    pub fn get_pod_package_version(&self, ctx: &AuthContext, pod_slug: &str, version: u64) -> (r: Result<PodSkillPack, AgentToolsError>)
        ensures
            match self.store.pod_by_slug_spec(pod_slug@, ctx.tenant_id) {
                Err(d) => r matches Err(e) && denies(e, d),
                Ok(pod) => match pod_scope_check(self.store, *ctx, pod.id) {
                    Err(d) => r matches Err(e) && denies(e, d),
                    Ok(()) => match first_match(self.store.pod_package_versions@, package_version_of(pod.id, version)) {
                        Some(p) => r == Ok::<PodSkillPack, AgentToolsError>(p),
                        None => r matches Err(e) && denies(e, Denial::NotFound("Pod Package version "@ + decimal(version as nat))),
                    },
                },
            },
    {
        let pod = self.store.pod_by_slug(pod_slug, ctx.tenant_id)?;
        authorize_harness_pod_scope(&self.store, ctx, pod.id)?;
        let pod_id = pod.id;
        let all = &self.store.pod_package_versions;
        let mut i: usize = 0;
        while i < all.len() && !(all[i].pod_id == pod_id && all[i].version == version)
            invariant
                i <= all@.len(),
                forall|j: int| 0 <= j < i ==> !package_version_of(pod_id, version)(#[trigger] all@[j]),
            decreases all@.len() - i,
        {
            i = i + 1;
        }
        proof { lemma_first_index_at(all@, package_version_of(pod_id, version), i as int); }
        if i < all.len() {
            Ok(all[i].clone())
        } else {
            let mut message = String::from_str("Pod Package version ");
            append_decimal(&mut message, version);
            Err(AgentToolsError::Store(StoreError::NotFound(message)))
        }
    }
}

} // verus!
