//! Candidates: links proposed for curation, the evidence harnesses submitted
//! for them, and who may inspect that evidence.
use crate::agent_tools::AgentTools;
use crate::auth::{
    authorize_harness, authorize_local_pod_curation, authorize_personal_discovery_execution,
    authorize_personal_discovery_management, context_harness, execution_check, grant_contains, grant_has, harness_check,
    harness_for_context, local_curation_check, management_check,
};
use crate::error::{denies, AgentToolsError, Denial};
use crate::seqs::{
    any_match, first_match, lemma_filter_map_step, lemma_filter_take_step, lemma_first_index, lemma_first_index_at, lemma_stable_sort_elems,
    payloads, positions, sort_by_key, stable_sort, strip_keys,
};
use crate::store::Store;
use crate::tasks::{task_index, task_with_id};
use crate::types::{AgentHarness, AgentHarnessKind, AuthContext, DiscoveryTask, DiscoveryTaskState, HarnessCapability, PodPlacement, PodPlacementStatus};
use crate::candidate_submission::{CandidateEvidence, CandidateEvidenceModel};
use vstd::prelude::*;

verus! {

/// Where curation of a Candidate stands.
#[derive(Clone, Copy, Debug, PartialEq, Eq, Structural)]
pub enum CandidateReviewState {
    Pending,
    Reviewed,
}

/// A link proposed for curation, one per canonical URL and tenant.
#[derive(Debug)]
pub struct Candidate {
    pub id: u128,
    pub tenant_id: Option<u128>,
    pub source_url: String,
    pub canonical_url: String,
    pub review_state: CandidateReviewState,
    pub created_at: i64,
}

impl Clone for Candidate {
    fn clone(&self) -> (res: Self)
        ensures
            res == *self,
    {
        Candidate {
            id: self.id,
            tenant_id: self.tenant_id,
            source_url: self.source_url.clone(),
            canonical_url: self.canonical_url.clone(),
            review_state: self.review_state,
            created_at: self.created_at,
        }
    }
}

/// Where a harness proposed a Candidate to go.
#[derive(Debug)]
pub enum CandidateSubmissionTarget {
    /// Into one User's own taste, optionally as learning evidence.
    User { user_id: u128, learn: bool },
    /// Into the listed Pods.
    PodPlacements { pod_ids: Vec<u128> },
    /// Into a User's Personal Discovery results, as part of one task.
    PersonalDiscovery { user_id: u128, task_id: u128, discovery_plan_id: u128 },
}

/// The mathematical value of a [`CandidateSubmissionTarget`].
pub enum CandidateSubmissionTargetModel {
    User { user_id: u128, learn: bool },
    PodPlacements { pod_ids: Seq<u128> },
    PersonalDiscovery { user_id: u128, task_id: u128, discovery_plan_id: u128 },
}

impl View for CandidateSubmissionTarget {
    type V = CandidateSubmissionTargetModel;

    open spec fn view(&self) -> CandidateSubmissionTargetModel {
        match *self {
            CandidateSubmissionTarget::User { user_id, learn } => CandidateSubmissionTargetModel::User { user_id, learn },
            CandidateSubmissionTarget::PodPlacements { pod_ids } => CandidateSubmissionTargetModel::PodPlacements { pod_ids: pod_ids@ },
            CandidateSubmissionTarget::PersonalDiscovery { user_id, task_id, discovery_plan_id } => {
                CandidateSubmissionTargetModel::PersonalDiscovery { user_id, task_id, discovery_plan_id }
            },
        }
    }
}

/// One harness's evidence for a Candidate.
#[derive(Debug)]
pub struct CandidateSubmission {
    pub id: u128,
    pub candidate_id: u128,
    pub tenant_id: Option<u128>,
    pub submitted_by: u128,
    pub target: CandidateSubmissionTarget,
    pub evidence: CandidateEvidence,
    pub created_at: i64,
}

/// The mathematical value of a [`CandidateSubmission`].
pub struct CandidateSubmissionModel {
    pub id: u128,
    pub candidate_id: u128,
    pub tenant_id: Option<u128>,
    pub submitted_by: u128,
    pub target: CandidateSubmissionTargetModel,
    pub evidence: CandidateEvidenceModel,
    pub created_at: i64,
}

impl View for CandidateSubmission {
    type V = CandidateSubmissionModel;

    open spec fn view(&self) -> CandidateSubmissionModel {
        CandidateSubmissionModel {
            id: self.id,
            candidate_id: self.candidate_id,
            tenant_id: self.tenant_id,
            submitted_by: self.submitted_by,
            target: self.target@,
            evidence: self.evidence@,
            created_at: self.created_at,
        }
    }
}

impl Clone for CandidateSubmission {
    fn clone(&self) -> (res: Self)
        ensures
            res@ == self@,
    {
        let target = match &self.target {
            CandidateSubmissionTarget::User { user_id, learn } => CandidateSubmissionTarget::User { user_id: *user_id, learn: *learn },
            CandidateSubmissionTarget::PodPlacements { pod_ids } => {
                let ids = pod_ids.clone();
                assert(ids@ =~= pod_ids@);
                CandidateSubmissionTarget::PodPlacements { pod_ids: ids }
            },
            CandidateSubmissionTarget::PersonalDiscovery { user_id, task_id, discovery_plan_id } => {
                CandidateSubmissionTarget::PersonalDiscovery {
                    user_id: *user_id,
                    task_id: *task_id,
                    discovery_plan_id: *discovery_plan_id,
                }
            },
        };
        CandidateSubmission {
            id: self.id,
            candidate_id: self.candidate_id,
            tenant_id: self.tenant_id,
            submitted_by: self.submitted_by,
            target,
            evidence: self.evidence.clone(),
            created_at: self.created_at,
        }
    }
}

/// Whether the caller may see placements into Pod `pod_id`: candidate
/// submission authority on it, or local curation of it.
pub open spec fn placement_visible(s: Store, ctx: AuthContext, pod_id: u128) -> bool {
    harness_check(s, ctx, HarnessCapability::CandidateSubmission, Some(pod_id)) is Ok || local_curation_check(s, ctx, pod_id) is Ok
}

/// A task leased by harness `h` beyond instant `now`.
pub open spec fn leased_by_at(t: DiscoveryTask, h: u128, now: i64) -> bool {
    t.state matches DiscoveryTaskState::Leased(lease) && lease.harness_id == h && lease.expires_at > now
}

/// Whether the caller, acting through harness `h` (if any) at `now`, may see one submission.
pub open spec fn submission_visible(s: Store, ctx: AuthContext, h: Option<AgentHarness>, sub: CandidateSubmission, now: i64) -> bool {
    match sub.target {
        CandidateSubmissionTarget::User { user_id, .. } => ctx.user_id == Some(user_id) && match h {
            Some(x) => x.kind == AgentHarnessKind::Interactive && x.grant.pod_ids is None && grant_has(
                x,
                HarnessCapability::CandidateSubmission,
            ),
            None => false,
        },
        CandidateSubmissionTarget::PodPlacements { pod_ids } => pod_ids@.len() > 0 && forall|i: int|
            0 <= i < pod_ids@.len() ==> #[trigger] placement_visible(s, ctx, pod_ids@[i]),
        CandidateSubmissionTarget::PersonalDiscovery { user_id, task_id, .. } => if management_check(s, ctx) is Ok
            && ctx.user_id == Some(user_id) {
            true
        } else {
            match h {
                None => false,
                Some(x) => execution_check(s, ctx) is Ok && (sub.submitted_by == x.id || (task_index(s, task_id) >= 0
                    && leased_by_at(s.discovery_tasks@[task_index(s, task_id)], x.id, now))),
            }
        },
    }
}

/// Whether some submission for Candidate `c` is visible to the caller.
pub open spec fn candidate_visible(s: Store, ctx: AuthContext, h: Option<AgentHarness>, c: Candidate, now: i64) -> bool {
    exists|i: int|
        0 <= i < s.candidate_submissions@.len() && (#[trigger] s.candidate_submissions@[i]).candidate_id == c.id
            && submission_visible(s, ctx, h, s.candidate_submissions@[i], now)
}

pub open spec fn candidate_listed(s: Store, ctx: AuthContext, h: Option<AgentHarness>, now: i64) -> spec_fn(Candidate) -> bool {
    |c: Candidate| c.tenant_id == ctx.tenant_id && candidate_visible(s, ctx, h, c, now)
}

/// Whether the caller may see placements into Pod `pod_id`.
pub fn candidate_placement_is_visible(store: &Store, ctx: &AuthContext, pod_id: u128) -> (b: bool)
    ensures
        b == placement_visible(*store, *ctx, pod_id),
{
    authorize_harness(store, ctx, HarnessCapability::CandidateSubmission, Some(pod_id)).is_ok()
        || authorize_local_pod_curation(store, ctx, pod_id).is_ok()
}

/// Whether the caller, acting through `harness` at `now`, may see a submission.
pub fn candidate_submission_is_visible(
    store: &Store,
    ctx: &AuthContext,
    harness: Option<&AgentHarness>,
    submission: &CandidateSubmission,
    now: i64,
) -> (b: bool)
    ensures
        b == submission_visible(
            *store,
            *ctx,
            match harness {
                Some(x) => Some(*x),
                None => None,
            },
            *submission,
            now,
        ),
{
    match &submission.target {
        CandidateSubmissionTarget::User { user_id, .. } => {
            ctx.user_id == Some(*user_id) && match harness {
                Some(h) => h.kind == AgentHarnessKind::Interactive && h.grant.pod_ids.is_none() && grant_contains(
                    h,
                    HarnessCapability::CandidateSubmission,
                ),
                None => false,
            }
        },
        CandidateSubmissionTarget::PodPlacements { pod_ids } => {
            if pod_ids.len() == 0 {
                return false;
            }
            let mut i: usize = 0;
            while i < pod_ids.len()
                invariant
                    i <= pod_ids@.len(),
                    pod_ids@.len() > 0,
                    submission.target == (CandidateSubmissionTarget::PodPlacements { pod_ids: *pod_ids }),
                    forall|j: int| 0 <= j < i ==> #[trigger] placement_visible(*store, *ctx, pod_ids@[j]),
                decreases pod_ids@.len() - i,
            {
                if !candidate_placement_is_visible(store, ctx, pod_ids[i]) {
                    assert(!placement_visible(*store, *ctx, pod_ids@[i as int]));
                    return false;
                }
                i = i + 1;
            }
            true
        },
        CandidateSubmissionTarget::PersonalDiscovery { user_id, task_id, .. } => {
            if authorize_personal_discovery_management(store, ctx).is_ok() && ctx.user_id == Some(*user_id) {
                return true;
            }
            let h = match harness {
                None => return false,
                Some(h) => h,
            };
            if authorize_personal_discovery_execution(store, ctx).is_err() {
                return false;
            }
            if submission.submitted_by == h.id {
                return true;
            }
            match crate::tasks::find_task(store, *task_id) {
                None => false,
                Some(k) => match store.discovery_tasks[k].state {
                    DiscoveryTaskState::Leased(lease) => lease.harness_id == h.id && lease.expires_at > now,
                    _ => false,
                },
            }
        },
    }
}

/// An action the caller may take on an inspected Candidate.
#[derive(Clone, Copy, Debug, PartialEq, Eq, Structural)]
pub enum CandidateAllowedAction {
    SubmitCandidateEvidence,
    EvaluateCandidate,
    RouteCandidatePlacement,
    ReviewCandidatePlacement,
}

/// A Candidate with the evidence and placements the caller may see.
#[derive(Debug)]
pub struct CandidateInspection {
    pub candidate: Candidate,
    pub submissions: Vec<CandidateSubmission>,
    pub placements: Vec<PodPlacement>,
    pub allowed_actions: Vec<CandidateAllowedAction>,
}

pub open spec fn candidate_with_id(id: u128) -> spec_fn(Candidate) -> bool {
    |c: Candidate| c.id == id
}

/// A submission for Candidate `id` that the caller may see.
pub open spec fn shown_sub(s: Store, ctx: AuthContext, h: Option<AgentHarness>, id: u128, now: i64, sub: CandidateSubmission) -> bool {
    sub.candidate_id == id && submission_visible(s, ctx, h, sub, now)
}

pub open spec fn sub_at_shown(s: Store, ctx: AuthContext, h: Option<AgentHarness>, id: u128, now: i64) -> spec_fn(usize) -> bool {
    |k: usize| shown_sub(s, ctx, h, id, now, s.candidate_submissions@[k as int])
}

pub open spec fn sub_key(s: Store) -> spec_fn(usize) -> ((i64, u128), usize) {
    |k: usize| ((s.candidate_submissions@[k as int].created_at, s.candidate_submissions@[k as int].id), k)
}

pub open spec fn sub_model_at(s: Store) -> spec_fn(usize) -> CandidateSubmissionModel {
    |k: usize| s.candidate_submissions@[k as int]@
}

/// The submissions the caller may see, oldest first, ties by identifier.
pub open spec fn shown_submissions(s: Store, ctx: AuthContext, h: Option<AgentHarness>, id: u128, now: i64) -> Seq<CandidateSubmissionModel> {
    payloads(stable_sort(positions(s.candidate_submissions@).filter(sub_at_shown(s, ctx, h, id, now)).map_values(sub_key(s)))).map_values(
        sub_model_at(s),
    )
}

pub open spec fn placement_shown(s: Store, ctx: AuthContext, id: u128) -> spec_fn(PodPlacement) -> bool {
    |p: PodPlacement| p.candidate_id == id && placement_visible(s, ctx, p.pod_id)
}

pub open spec fn placement_key() -> spec_fn(PodPlacement) -> ((i64, u128), PodPlacement) {
    |p: PodPlacement| ((0i64, p.pod_id), p)
}

/// The placements of Candidate `id` the caller may see, ordered by Pod.
pub open spec fn shown_placements(s: Store, ctx: AuthContext, id: u128) -> Seq<PodPlacement> {
    payloads(stable_sort(s.pod_placements@.filter(placement_shown(s, ctx, id)).map_values(placement_key())))
}

/// Whether the caller may add evidence of the kind `sub` holds.
pub open spec fn may_submit(s: Store, ctx: AuthContext, h: Option<AgentHarness>, sub: CandidateSubmission) -> bool {
    match sub.target {
        CandidateSubmissionTarget::User { user_id, .. } => match h {
            Some(x) => x.kind == AgentHarnessKind::Interactive && x.grant.pod_ids is None && ctx.user_id == Some(user_id),
            None => false,
        },
        CandidateSubmissionTarget::PodPlacements { pod_ids } => forall|i: int|
            0 <= i < pod_ids@.len() ==> #[trigger] harness_check(s, ctx, HarnessCapability::CandidateSubmission, Some(pod_ids@[i])) is Ok,
        CandidateSubmissionTarget::PersonalDiscovery { .. } => false,
    }
}

/// Whether the caller may curate every Pod that `sub` proposes.
pub open spec fn curates_proposed(s: Store, ctx: AuthContext, sub: CandidateSubmission) -> bool {
    match sub.target {
        CandidateSubmissionTarget::PodPlacements { pod_ids } => forall|i: int|
            0 <= i < pod_ids@.len() ==> #[trigger] local_curation_check(s, ctx, pod_ids@[i]) is Ok,
        _ => true,
    }
}

/// Whether `sub` proposes at least one Pod.
pub open spec fn proposes_pods(sub: CandidateSubmission) -> bool {
    sub.target matches CandidateSubmissionTarget::PodPlacements { pod_ids } && pod_ids@.len() > 0
}

/// The actions the caller may take on Candidate `id`.
pub open spec fn candidate_actions(s: Store, ctx: AuthContext, h: Option<AgentHarness>, id: u128, now: i64) -> Seq<CandidateAllowedAction> {
    let subs = s.candidate_submissions@;
    let submit = h is Some && (forall|k: int| 0 <= k < subs.len() && shown_sub(s, ctx, h, id, now, #[trigger] subs[k]) ==> may_submit(s, ctx, h, subs[k]));
    let any_proposal = exists|k: int| 0 <= k < subs.len() && shown_sub(s, ctx, h, id, now, #[trigger] subs[k]) && proposes_pods(subs[k]);
    let curate_all = h is Some && (forall|k: int| 0 <= k < subs.len() && shown_sub(s, ctx, h, id, now, #[trigger] subs[k]) ==> curates_proposed(s, ctx, subs[k]));
    let route = h is Some && exists|j: int| 0 <= j < s.pods@.len() && local_curation_check(s, ctx, (#[trigger] s.pods@[j]).id) is Ok;
    let review = h is Some && exists|j: int|
        0 <= j < s.pod_placements@.len() && placement_shown(s, ctx, id)(#[trigger] s.pod_placements@[j])
            && s.pod_placements@[j].status == PodPlacementStatus::Pending && local_curation_check(s, ctx, s.pod_placements@[j].pod_id) is Ok;
    (if submit { seq![CandidateAllowedAction::SubmitCandidateEvidence] } else { Seq::empty() })
        + (if curate_all && any_proposal { seq![CandidateAllowedAction::EvaluateCandidate] } else { Seq::empty() })
        + (if route { seq![CandidateAllowedAction::RouteCandidatePlacement] } else { Seq::empty() })
        + (if review { seq![CandidateAllowedAction::ReviewCandidatePlacement] } else { Seq::empty() })
}

pub open spec fn opt_harness(h: Option<&AgentHarness>) -> Option<AgentHarness> {
    match h {
        Some(x) => Some(*x),
        None => None,
    }
}

fn sub_may_submit(store: &Store, ctx: &AuthContext, harness: Option<&AgentHarness>, sub: &CandidateSubmission) -> (b: bool)
    ensures
        b == may_submit(*store, *ctx, opt_harness(harness), *sub),
{
    match &sub.target {
        CandidateSubmissionTarget::User { user_id, .. } => match harness {
            Some(h) => h.kind == AgentHarnessKind::Interactive && h.grant.pod_ids.is_none() && ctx.user_id == Some(*user_id),
            None => false,
        },
        CandidateSubmissionTarget::PodPlacements { pod_ids } => {
            let mut i: usize = 0;
            while i < pod_ids.len()
                invariant
                    i <= pod_ids@.len(),
                    sub.target == (CandidateSubmissionTarget::PodPlacements { pod_ids: *pod_ids }),
                    forall|j: int| 0 <= j < i ==> #[trigger] harness_check(*store, *ctx, HarnessCapability::CandidateSubmission, Some(pod_ids@[j])) is Ok,
                decreases pod_ids@.len() - i,
            {
                if authorize_harness(store, ctx, HarnessCapability::CandidateSubmission, Some(pod_ids[i])).is_err() {
                    assert(!(harness_check(*store, *ctx, HarnessCapability::CandidateSubmission, Some(pod_ids@[i as int])) is Ok));
                    return false;
                }
                i = i + 1;
            }
            true
        },
        CandidateSubmissionTarget::PersonalDiscovery { .. } => false,
    }
}

fn sub_curates_proposed(store: &Store, ctx: &AuthContext, sub: &CandidateSubmission) -> (b: bool)
    ensures
        b == curates_proposed(*store, *ctx, *sub),
{
    match &sub.target {
        CandidateSubmissionTarget::PodPlacements { pod_ids } => {
            let mut i: usize = 0;
            while i < pod_ids.len()
                invariant
                    i <= pod_ids@.len(),
                    sub.target == (CandidateSubmissionTarget::PodPlacements { pod_ids: *pod_ids }),
                    forall|j: int| 0 <= j < i ==> #[trigger] local_curation_check(*store, *ctx, pod_ids@[j]) is Ok,
                decreases pod_ids@.len() - i,
            {
                if authorize_local_pod_curation(store, ctx, pod_ids[i]).is_err() {
                    assert(!(local_curation_check(*store, *ctx, pod_ids@[i as int]) is Ok));
                    return false;
                }
                i = i + 1;
            }
            true
        },
        _ => true,
    }
}

pub open spec fn submission_view() -> spec_fn(CandidateSubmission) -> CandidateSubmissionModel {
    |x: CandidateSubmission| x@
}

/// What inspecting Candidate `id` at instant `now` yields.
pub open spec fn inspection_outcome(r: Result<CandidateInspection, AgentToolsError>, s: Store, ctx: AuthContext, id: u128, now: i64) -> bool {
    match first_match(s.candidates@, candidate_with_id(id)) {
        None => r matches Err(e) && denies(e, Denial::NotFound("Candidate"@)),
        Some(c) => if c.tenant_id != ctx.tenant_id {
            r matches Err(e) && denies(e, Denial::NotFound("Candidate"@))
        } else {
            match context_harness(s, ctx) {
                Err(d) => r matches Err(e) && denies(e, d),
                Ok(h) => if shown_submissions(s, ctx, h, id, now).len() == 0 {
                    r matches Err(e) && denies(e, Denial::Forbidden("Harness Grant cannot inspect this Candidate evidence"@))
                } else {
                    r matches Ok(x) && {
                        &&& x.candidate == c
                        &&& x.submissions@.map_values(submission_view()) == shown_submissions(s, ctx, h, id, now)
                        &&& x.placements@ == shown_placements(s, ctx, id)
                        &&& x.allowed_actions@ == candidate_actions(s, ctx, h, id, now)
                    }
                },
            }
        },
    }
}

/// What listing Candidates at instant `now` yields.
pub open spec fn listing_outcome(r: Result<Vec<Candidate>, AgentToolsError>, s: Store, ctx: AuthContext, now: i64) -> bool {
    match context_harness(s, ctx) {
        Err(d) => r matches Err(e) && denies(e, d),
        Ok(h) => r matches Ok(v) && v@ == s.candidates@.filter(candidate_listed(s, ctx, h, now)),
    }
}

impl AgentTools {
    /// Inspects one Candidate of the caller's tenant at instant `now`: the
    /// evidence and placements the caller may see, and what the caller may do.
    pub fn inspect_candidate_at(&self, ctx: &AuthContext, candidate_id: u128, now: i64) -> (r: Result<CandidateInspection, AgentToolsError>)
        ensures
            inspection_outcome(r, self.store, *ctx, candidate_id, now),
    {
        let store = &self.store;
        let cands = &store.candidates;
        let mut ci: usize = 0;
        while ci < cands.len() && cands[ci].id != candidate_id
            invariant
                ci <= cands@.len(),
                forall|j: int| 0 <= j < ci ==> !candidate_with_id(candidate_id)(#[trigger] cands@[j]),
            decreases cands@.len() - ci,
        {
            ci = ci + 1;
        }
        proof { lemma_first_index_at(cands@, candidate_with_id(candidate_id), ci as int); }
        if ci == cands.len() || cands[ci].tenant_id != ctx.tenant_id {
            return Err(crate::error::not_found("Candidate"));
        }
        let candidate = cands[ci].clone();
        let harness = harness_for_context(store, ctx)?;
        let ghost h = opt_harness(harness);
        assert(h == context_harness(*store, *ctx)->Ok_0);
        let subs = &store.candidate_submissions;
        let n = subs.len();
        let ghost all = positions(subs@);
        let ghost p = sub_at_shown(*store, *ctx, h, candidate_id, now);
        let mut keyed: Vec<((i64, u128), usize)> = Vec::new();
        let mut submit_all = true;
        let mut any_proposal = false;
        let mut curate_all = true;
        let mut i: usize = 0;
        while i < n
            invariant
                *subs == store.candidate_submissions,
                n == subs@.len(),
                all == positions(subs@),
                h == opt_harness(harness),
                p == sub_at_shown(*store, *ctx, h, candidate_id, now),
                i <= n,
                keyed@ == all.take(i as int).filter(p).map_values(sub_key(*store)),
                forall|j: int| 0 <= j < keyed@.len() ==> (#[trigger] keyed@[j]).1 < n,
                submit_all == forall|k: int|
                    0 <= k < i && shown_sub(*store, *ctx, h, candidate_id, now, #[trigger] subs@[k]) ==> may_submit(*store, *ctx, h, subs@[k]),
                any_proposal == exists|k: int|
                    0 <= k < i && shown_sub(*store, *ctx, h, candidate_id, now, #[trigger] subs@[k]) && proposes_pods(subs@[k]),
                curate_all == forall|k: int|
                    0 <= k < i && shown_sub(*store, *ctx, h, candidate_id, now, #[trigger] subs@[k]) ==> curates_proposed(*store, *ctx, subs@[k]),
            decreases n - i,
        {
            proof { lemma_filter_take_step(all, p, i as int); }
            assert(all[i as int] == i);
            let sub = &subs[i];
            if sub.candidate_id == candidate_id && candidate_submission_is_visible(store, ctx, harness, sub, now) {
                keyed.push(((sub.created_at, sub.id), i));
                proof {
                    let f = all.take(i as int).filter(p);
                    assert(f.push(i).map_values(sub_key(*store)) =~= f.map_values(sub_key(*store)).push(sub_key(*store)(i)));
                }
                if !sub_may_submit(store, ctx, harness, sub) {
                    submit_all = false;
                }
                let proposes = match &sub.target {
                    CandidateSubmissionTarget::PodPlacements { pod_ids } => pod_ids.len() > 0,
                    _ => false,
                };
                if proposes {
                    any_proposal = true;
                }
                if !sub_curates_proposed(store, ctx, sub) {
                    curate_all = false;
                }
            }
            i = i + 1;
        }
        assert(all.take(n as int) =~= all);
        let sorted = sort_by_key(keyed);
        proof {
            lemma_stable_sort_elems(keyed@);
            assert forall|j: int| 0 <= j < sorted@.len() implies (#[trigger] sorted@[j]).1 < n by {
                assert(sorted@.contains(sorted@[j]));
                assert(keyed@.contains(sorted@[j]));
                let m = choose|m: int| 0 <= m < keyed@.len() && keyed@[m] == sorted@[j];
            }
        }
        if sorted.len() == 0 {
            return Err(crate::error::forbidden("Harness Grant cannot inspect this Candidate evidence"));
        }
        let ghost order = payloads(sorted@);
        let mut submissions: Vec<CandidateSubmission> = Vec::new();
        let mut k: usize = 0;
        while k < sorted.len()
            invariant
                *subs == store.candidate_submissions,
                k <= sorted@.len(),
                order == payloads(sorted@),
                n == subs@.len(),
                forall|j: int| 0 <= j < sorted@.len() ==> (#[trigger] sorted@[j]).1 < n,
                submissions@.map_values(submission_view()) == order.take(k as int).map_values(sub_model_at(*store)),
            decreases sorted@.len() - k,
        {
            let idx = sorted[k].1;
            let c = subs[idx].clone();
            let ghost before = submissions@;
            submissions.push(c);
            proof {
                assert(submissions@.map_values(submission_view()) =~= before.map_values(submission_view()).push(c@));
                assert(order.take(k + 1) =~= order.take(k as int).push(order[k as int]));
                assert(order.take(k + 1).map_values(sub_model_at(*store)) =~= order.take(k as int).map_values(sub_model_at(*store)).push(
                    sub_model_at(*store)(order[k as int]),
                ));
            }
            k = k + 1;
        }
        assert(order.take(sorted@.len() as int) =~= order);
        let places = &store.pod_placements;
        let ghost q = placement_shown(*store, *ctx, candidate_id);
        let mut pkeyed: Vec<((i64, u128), PodPlacement)> = Vec::new();
        let mut review = false;
        let mut j: usize = 0;
        while j < places.len()
            invariant
                *places == store.pod_placements,
                q == placement_shown(*store, *ctx, candidate_id),
                j <= places@.len(),
                pkeyed@ == places@.take(j as int).filter(q).map_values(placement_key()),
                review == exists|m: int|
                    0 <= m < j && q(#[trigger] places@[m]) && places@[m].status == PodPlacementStatus::Pending && local_curation_check(
                        *store,
                        *ctx,
                        places@[m].pod_id,
                    ) is Ok,
            decreases places@.len() - j,
        {
            proof { lemma_filter_map_step(places@, q, placement_key(), j as int); }
            let pl = places[j];
            if pl.candidate_id == candidate_id && candidate_placement_is_visible(store, ctx, pl.pod_id) {
                pkeyed.push(((0i64, pl.pod_id), pl));
                if pl.status == PodPlacementStatus::Pending && authorize_local_pod_curation(store, ctx, pl.pod_id).is_ok() {
                    review = true;
                }
            }
            j = j + 1;
        }
        assert(places@.take(places@.len() as int) =~= places@);
        let placements = strip_keys(sort_by_key(pkeyed));
        let pods = &store.pods;
        let mut route = false;
        let mut t: usize = 0;
        while t < pods.len()
            invariant
                *pods == store.pods,
                t <= pods@.len(),
                route == exists|m: int| 0 <= m < t && local_curation_check(*store, *ctx, (#[trigger] pods@[m]).id) is Ok,
            decreases pods@.len() - t,
        {
            if authorize_local_pod_curation(store, ctx, pods[t].id).is_ok() {
                route = true;
            }
            t = t + 1;
        }
        let has_harness = harness.is_some();
        let mut actions: Vec<CandidateAllowedAction> = Vec::new();
        if has_harness && submit_all {
            actions.push(CandidateAllowedAction::SubmitCandidateEvidence);
        }
        if has_harness && curate_all && any_proposal {
            actions.push(CandidateAllowedAction::EvaluateCandidate);
        }
        if has_harness && route {
            actions.push(CandidateAllowedAction::RouteCandidatePlacement);
        }
        if has_harness && review {
            actions.push(CandidateAllowedAction::ReviewCandidatePlacement);
        }
        assert(actions@ =~= candidate_actions(*store, *ctx, h, candidate_id, now));
        Ok(CandidateInspection { candidate, submissions, placements, allowed_actions: actions })
    }

    /// Inspects one Candidate of the caller's tenant now.
    pub fn inspect_candidate(&self, ctx: &AuthContext, candidate_id: u128) -> (r: Result<CandidateInspection, AgentToolsError>)
        ensures
            exists|now: i64| #[trigger] inspection_outcome(r, self.store, *ctx, candidate_id, now),
    {
        let now = crate::outside::now_millis();
        let r = self.inspect_candidate_at(ctx, candidate_id, now);
        assert(inspection_outcome(r, self.store, *ctx, candidate_id, now));
        r
    }

    /// Lists the tenant's Candidates with evidence the caller may see now.
    pub fn list_candidates(&self, ctx: &AuthContext) -> (r: Result<Vec<Candidate>, AgentToolsError>)
        ensures
            exists|now: i64| #[trigger] listing_outcome(r, self.store, *ctx, now),
    {
        let now = crate::outside::now_millis();
        let r = self.list_candidates_at(ctx, now);
        assert(listing_outcome(r, self.store, *ctx, now));
        r
    }

    /// Lists the tenant's Candidates with at least one submission the caller
    /// may see at instant `now`, in store order.
    pub fn list_candidates_at(&self, ctx: &AuthContext, now: i64) -> (r: Result<Vec<Candidate>, AgentToolsError>)
        ensures
            match context_harness(self.store, *ctx) {
                Err(d) => r matches Err(e) && denies(e, d),
                Ok(h) => r matches Ok(v) && v@ == self.store.candidates@.filter(candidate_listed(self.store, *ctx, h, now)),
            },
    {
        let harness = harness_for_context(&self.store, ctx)?;
        let ghost h = context_harness(self.store, *ctx)->Ok_0;
        let ghost p = candidate_listed(self.store, *ctx, h, now);
        let all = &self.store.candidates;
        let subs = &self.store.candidate_submissions;
        let mut out: Vec<Candidate> = Vec::new();
        let mut i: usize = 0;
        while i < all.len()
            invariant
                *all == self.store.candidates,
                *subs == self.store.candidate_submissions,
                h == context_harness(self.store, *ctx)->Ok_0,
                context_harness(self.store, *ctx) is Ok,
                h == match harness {
                    Some(x) => Some(*x),
                    None => None::<AgentHarness>,
                },
                p == candidate_listed(self.store, *ctx, h, now),
                i <= all@.len(),
                out@ == all@.take(i as int).filter(p),
            decreases all@.len() - i,
        {
            proof { lemma_filter_take_step(all@, p, i as int); }
            let c = &all[i];
            if c.tenant_id == ctx.tenant_id {
                let mut visible = false;
                let mut k: usize = 0;
                while k < subs.len() && !visible
                    invariant
                        *subs == self.store.candidate_submissions,
                        h == match harness {
                            Some(x) => Some(*x),
                            None => None::<AgentHarness>,
                        },
                        k <= subs@.len(),
                        visible ==> candidate_visible(self.store, *ctx, h, *c, now),
                        !visible ==> forall|j: int|
                            0 <= j < k ==> !((#[trigger] subs@[j]).candidate_id == c.id && submission_visible(
                                self.store,
                                *ctx,
                                h,
                                subs@[j],
                                now,
                            )),
                    decreases subs@.len() - k,
                {
                    if subs[k].candidate_id == c.id && candidate_submission_is_visible(&self.store, ctx, harness, &subs[k], now) {
                        visible = true;
                    }
                    k = k + 1;
                }
                if visible {
                    out.push(c.clone());
                }
            }
            i = i + 1;
        }
        assert(all@.take(all@.len() as int) =~= all@);
        Ok(out)
    }
}

} // verus!
