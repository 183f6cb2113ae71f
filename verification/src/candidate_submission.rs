//! Agents hand in external discovery evidence as Candidate Submissions.
use crate::agent_tools::{audited, record_harness_write, AgentTools};
use crate::candidates::{candidate_with_id, Candidate, CandidateReviewState, CandidateSubmission, CandidateSubmissionTarget, CandidateSubmissionTargetModel};
use crate::outside::new_id;
use crate::personal_discovery::plan_with_id;
use crate::seqs::{first_index, first_match, lemma_first_index, lemma_first_index_at};
use crate::tasks::{authorize_discovery_task, find_task, task_check, task_index};
use crate::types::{AgentHarness, DiscoveryTask, DiscoveryTaskState, DiscoveryTaskTarget, HarnessWriteOperation};
use crate::auth::{
    authorize_harness, authorize_personal_discovery_execution, context_harness, execution_check, harness_check,
    harness_for_context, ids_contain,
};
use crate::error::{denies, forbidden, forbidden_around, not_found, validation, yields, AgentToolsError, Denial};
use crate::outside::{canonical_url_of, parses_as_url, trim, trimmed, url_credentials, url_userinfo, uuid_text};
use crate::store::{pod_with_id, tenant_check, Store};
use crate::types::{AgentHarnessKind, AuthContext, HarnessCapability};
use crate::urls::canonicalize_url;
use vstd::prelude::*;

verus! {

/// Where a harness found a link, and the keys that make handing it in idempotent.
#[derive(Debug)]
pub struct CandidateEvidence {
    pub source_url: String,
    pub referrer_url: Option<String>,
    pub discovery_method: String,
    pub harness_idempotency_key: String,
    pub client_idempotency_key: String,
}

/// The mathematical value of [`CandidateEvidence`].
pub struct CandidateEvidenceModel {
    pub source_url: Seq<char>,
    pub referrer_url: Option<Seq<char>>,
    pub discovery_method: Seq<char>,
    pub harness_idempotency_key: Seq<char>,
    pub client_idempotency_key: Seq<char>,
}

impl View for CandidateEvidence {
    type V = CandidateEvidenceModel;

    open spec fn view(&self) -> CandidateEvidenceModel {
        CandidateEvidenceModel {
            source_url: self.source_url@,
            referrer_url: match self.referrer_url {
                Some(r) => Some(r@),
                None => None,
            },
            discovery_method: self.discovery_method@,
            harness_idempotency_key: self.harness_idempotency_key@,
            client_idempotency_key: self.client_idempotency_key@,
        }
    }
}

impl Clone for CandidateEvidence {
    fn clone(&self) -> (res: Self)
        ensures
            res@ == self@,
    {
        CandidateEvidence {
            source_url: self.source_url.clone(),
            referrer_url: match &self.referrer_url {
                Some(r) => Some(r.clone()),
                None => None,
            },
            discovery_method: self.discovery_method.clone(),
            harness_idempotency_key: self.harness_idempotency_key.clone(),
            client_idempotency_key: self.client_idempotency_key.clone(),
        }
    }
}

/// One Pod a submission proposes, and why.
#[derive(Debug)]
pub struct PlacementProposal {
    pub pod_id: u128,
    pub reason: String,
}

/// The Discovery Task a Pod submission runs under.
#[derive(Clone, Copy, Debug, PartialEq, Eq, Structural)]
pub struct CandidateTaskContext {
    pub task_id: u128,
    pub package_version: u64,
}

/// Where a submission is headed.
#[derive(Debug)]
pub enum SubmitCandidateTarget {
    /// Into the User's own taste, optionally as learning evidence.
    User { learn: bool },
    /// Into the proposed Pods.
    PodPlacements { placements: Vec<PlacementProposal>, task_context: Option<CandidateTaskContext> },
    /// Into a User's Personal Discovery results, under a leased task.
    PersonalDiscovery { task_id: u128 },
}

/// A Candidate Submission as a harness hands it in.
#[derive(Debug)]
pub struct SubmitCandidateRequest {
    pub target: SubmitCandidateTarget,
    pub evidence: CandidateEvidence,
}

/// Whether a URL carries a user name or a password.
pub open spec fn has_credentials(raw: Seq<char>) -> bool {
    url_credentials(raw).0.len() > 0 || url_credentials(raw).1 is Some
}

/// The rule for an evidence URL: it parses and carries no credentials.
pub open spec fn evidence_url_check(raw: Seq<char>) -> Result<(), Denial> {
    if !parses_as_url(raw) {
        Err(Denial::UnparsableUrl)
    } else if has_credentials(raw) {
        Err(Denial::BadUrl("Candidate evidence URLs must not contain credentials"@))
    } else {
        Ok(())
    }
}

/// The first refusal of the proposed placement at `i`, if any: a Pod proposed
/// twice, a blank reason, a missing Pod, another tenant's Pod, a remote Pod,
/// or a Pod outside the harness's reach.
pub open spec fn placement_error(s: Store, ctx: AuthContext, ps: Seq<PlacementProposal>, i: int, node_id: u128) -> Option<Denial> {
    let p = ps[i];
    if exists|k: int| 0 <= k < i && #[trigger] ps[k].pod_id == p.pod_id {
        Some(Denial::Validation("Candidate Submission cannot propose the same Pod twice"@))
    } else if trimmed(p.reason@).len() == 0 {
        Some(Denial::Validation("Candidate Placement reason must not be empty"@))
    } else {
        match first_match_pod(s, p.pod_id) {
            None => Some(Denial::NotFound("Pod"@)),
            Some(pod) => if tenant_check(pod.tenant_id, ctx.tenant_id) is Err {
                Some(Denial::TenantBoundary)
            } else if pod.origin_node_id is Some && pod.origin_node_id != Some(node_id) {
                Some(
                    Denial::Forbidden(
                        "Candidate Submission cannot propose remote Pod "@ + uuid_text(p.pod_id) + " as a local placement"@,
                    ),
                )
            } else if harness_check(s, ctx, HarnessCapability::CandidateSubmission, Some(p.pod_id)) is Err {
                Some(harness_check(s, ctx, HarnessCapability::CandidateSubmission, Some(p.pod_id))->Err_0)
            } else {
                None
            },
        }
    }
}

pub open spec fn first_match_pod(s: Store, pod_id: u128) -> Option<crate::types::Pod> {
    crate::seqs::first_match(s.pods@, pod_with_id(pod_id))
}

/// The placements from position `i` on, checked in order.
pub open spec fn placements_check(s: Store, ctx: AuthContext, ps: Seq<PlacementProposal>, node_id: u128, i: int) -> Result<
    (),
    Denial,
>
    decreases ps.len() - i,
{
    if i < 0 || i >= ps.len() {
        Ok(())
    } else {
        match placement_error(s, ctx, ps, i, node_id) {
            Some(d) => Err(d),
            None => placements_check(s, ctx, ps, node_id, i + 1),
        }
    }
}

/// The placements a target proposes.
pub open spec fn proposed(t: SubmitCandidateTarget) -> Seq<PlacementProposal> {
    match t {
        SubmitCandidateTarget::PodPlacements { placements, .. } => placements@,
        _ => Seq::empty(),
    }
}

/// The rules of a Candidate Submission, in the order they are checked; on
/// success, the canonical spelling of its evidence URL.
pub open spec fn candidate_submission_check(s: Store, ctx: AuthContext, request: SubmitCandidateRequest) -> Result<
    Seq<char>,
    Denial,
> {
    let ev = request.evidence;
    if trimmed(ev.harness_idempotency_key@).len() == 0 || trimmed(ev.client_idempotency_key@).len() == 0 {
        Err(Denial::Validation("Candidate Submission idempotency keys must not be empty"@))
    } else if trimmed(ev.discovery_method@).len() == 0 {
        Err(Denial::Validation("Candidate Submission discovery method must not be empty"@))
    } else {
        match context_harness(s, ctx) {
            Err(d) => Err(d),
            Ok(None) => Err(Denial::CandidateHarnessRequired),
            Ok(Some(h)) => {
                let access = match request.target {
                    SubmitCandidateTarget::PersonalDiscovery { .. } => execution_check(s, ctx),
                    _ => harness_check(s, ctx, HarnessCapability::CandidateSubmission, None),
                };
                if access is Err {
                    Err(access->Err_0)
                } else if request.target is User && (h.kind != AgentHarnessKind::Interactive || h.grant.pod_ids is Some
                    || ctx.user_id is None) {
                    Err(Denial::Forbidden("User-targeted Candidate Submission requires an unscoped interactive grant"@))
                } else if evidence_url_check(ev.source_url@) is Err {
                    Err(evidence_url_check(ev.source_url@)->Err_0)
                } else if ev.referrer_url is Some && evidence_url_check(ev.referrer_url->Some_0@) is Err {
                    Err(evidence_url_check(ev.referrer_url->Some_0@)->Err_0)
                } else if request.target is PodPlacements && proposed(request.target).len() == 0 {
                    Err(Denial::Validation("Pod-targeted Candidate Submission requires at least one placement"@))
                } else {
                    match s.node_for_tenant_spec(ctx.tenant_id) {
                        Err(d) => Err(d),
                        Ok(node) => match placements_check(s, ctx, proposed(request.target), node.id, 0) {
                            Err(d) => Err(d),
                            Ok(()) => Ok(canonical_url_of(ev.source_url@)),
                        },
                    }
                }
            },
        }
    }
}

/// Checks an evidence URL and gives its canonical spelling.
fn check_evidence_url(raw: &str) -> (r: Result<String, AgentToolsError>)
    ensures
        match evidence_url_check(raw@) {
            Err(d) => r matches Err(e) && denies(e, d),
            Ok(()) => r matches Ok(c) && c@ == canonical_url_of(raw@),
        },
{
    let (user, password) = match url_userinfo(raw) {
        Some(u) => u,
        None => {
            return match canonicalize_url(raw) {
                Ok(_) => Err(AgentToolsError::BadUrl(String::from_str("unparsable URL"))),
                Err(e) => Err(e),
            };
        },
    };
    if user.unicode_len() > 0 || password.is_some() {
        return Err(AgentToolsError::BadUrl(String::from_str("Candidate evidence URLs must not contain credentials")));
    }
    canonicalize_url(raw)
}

/// Checks a Candidate Submission against every rule before anything is
/// written; gives the canonical spelling of its evidence URL.
#[verifier::loop_isolation(false)]
pub fn validate_candidate_submission(store: &Store, ctx: &AuthContext, request: &SubmitCandidateRequest) -> (r: Result<
    String,
    AgentToolsError,
>)
    ensures
        match candidate_submission_check(*store, *ctx, *request) {
            Err(d) => r matches Err(e) && denies(e, d),
            Ok(c) => r matches Ok(x) && x@ == c,
        },
{
    let ev = &request.evidence;
    if trim(ev.harness_idempotency_key.as_str()).unicode_len() == 0 || trim(ev.client_idempotency_key.as_str()).unicode_len()
        == 0 {
        return Err(validation("Candidate Submission idempotency keys must not be empty"));
    }
    if trim(ev.discovery_method.as_str()).unicode_len() == 0 {
        return Err(validation("Candidate Submission discovery method must not be empty"));
    }
    let harness = match harness_for_context(store, ctx)? {
        Some(h) => h,
        None => return Err(AgentToolsError::CandidateHarnessRequired),
    };
    match &request.target {
        SubmitCandidateTarget::PersonalDiscovery { .. } => {
            authorize_personal_discovery_execution(store, ctx)?;
        },
        _ => {
            authorize_harness(store, ctx, HarnessCapability::CandidateSubmission, None)?;
        },
    }
    let user_target = match &request.target {
        SubmitCandidateTarget::User { .. } => true,
        _ => false,
    };
    if user_target && (harness.kind != AgentHarnessKind::Interactive || harness.grant.pod_ids.is_some() || ctx.user_id.is_none()) {
        return Err(forbidden("User-targeted Candidate Submission requires an unscoped interactive grant"));
    }
    let canonical = check_evidence_url(ev.source_url.as_str())?;
    if let Some(referrer) = &ev.referrer_url {
        check_evidence_url(referrer.as_str())?;
    }
    let empty: Vec<PlacementProposal> = Vec::new();
    let placements = match &request.target {
        SubmitCandidateTarget::PodPlacements { placements, .. } => {
            if placements.len() == 0 {
                return Err(validation("Pod-targeted Candidate Submission requires at least one placement"));
            }
            placements
        },
        _ => &empty,
    };
    assert(placements@ == proposed(request.target));
    let node_id = store.node_for_tenant(ctx.tenant_id)?.id;
    let mut seen: Vec<u128> = Vec::new();
    let mut i: usize = 0;
    while i < placements.len()
        invariant
            i <= placements@.len(),
            placements@ == proposed(request.target),
            seen@ == placements@.take(i as int).map_values(|p: PlacementProposal| p.pod_id),
            placements_check(*store, *ctx, placements@, node_id, 0) == placements_check(*store, *ctx, placements@, node_id, i as int),
        decreases placements@.len() - i,
    {
        let p = &placements[i];
        let ghost ps = placements@;
        let dup = ids_contain(&seen, p.pod_id);
        proof {
            if dup {
                let k = choose|k: int| 0 <= k < seen@.len() && seen@[k] == p.pod_id;
                assert(ps[k].pod_id == ps[i as int].pod_id);
            } else {
                assert forall|k: int| 0 <= k < i implies #[trigger] ps[k].pod_id != ps[i as int].pod_id by {
                    assert(seen@[k] == ps[k].pod_id);
                }
            }
        }
        if dup {
            return Err(validation("Candidate Submission cannot propose the same Pod twice"));
        }
        if trim(p.reason.as_str()).unicode_len() == 0 {
            return Err(validation("Candidate Placement reason must not be empty"));
        }
        let index = match store.find_pod(p.pod_id) {
            Some(j) => j,
            None => return Err(not_found("Pod")),
        };
        let pod = &store.pods[index];
        store.assert_tenant(pod.tenant_id, ctx.tenant_id)?;
        let remote = match pod.origin_node_id {
            Some(origin) => origin != node_id,
            None => false,
        };
        if remote {
            return Err(forbidden_around("Candidate Submission cannot propose remote Pod ", p.pod_id, " as a local placement"));
        }
        authorize_harness(store, ctx, HarnessCapability::CandidateSubmission, Some(p.pod_id))?;
        seen.push(p.pod_id);
        assert(placements@.take(i + 1).map_values(|q: PlacementProposal| q.pod_id) =~= seen@);
        i = i + 1;
    }
    Ok(canonical)
}


pub open spec fn same_key(h: u128, hk: Seq<char>, ck: Seq<char>) -> spec_fn(CandidateSubmission) -> bool {
    |c: CandidateSubmission|
        c.submitted_by == h && (c.evidence.harness_idempotency_key@ == hk || c.evidence.client_idempotency_key@ == ck)
}

/// The Pods a target proposes.
pub open spec fn proposed_ids(t: SubmitCandidateTarget) -> Seq<u128> {
    proposed(t).map_values(|p: PlacementProposal| p.pod_id)
}

/// Whether a stored submission is the one `request` describes again.
pub open spec fn matches_request(c: CandidateSubmission, request: SubmitCandidateRequest) -> bool {
    &&& match (c.target, request.target) {
        (CandidateSubmissionTarget::User { learn: a, .. }, SubmitCandidateTarget::User { learn: b }) => a == b,
        (
            CandidateSubmissionTarget::PersonalDiscovery { task_id: a, .. },
            SubmitCandidateTarget::PersonalDiscovery { task_id: b },
        ) => a == b,
        (CandidateSubmissionTarget::PodPlacements { pod_ids }, SubmitCandidateTarget::PodPlacements { .. }) => pod_ids@
            == proposed_ids(request.target),
        _ => false,
    }
    &&& c.evidence@ == request.evidence@
}

pub open spec fn task_with(id: u128) -> spec_fn(DiscoveryTask) -> bool {
    |t: DiscoveryTask| t.id == id
}

/// Whether harness `h` holds a live lease on `t` at `now`.
pub open spec fn leased_by(t: DiscoveryTask, h: u128, now: i64) -> bool {
    t.state matches DiscoveryTaskState::Leased(l) && l.harness_id == h && l.expires_at > now
}

/// The task rules of a submission at `now`: a Personal Discovery result runs
/// under a leased Personal task; a Pod submission with a task context runs
/// under a leased task of one of its Pods at the same package version; an
/// unattended harness always needs a task.
pub open spec fn task_context_check(s: Store, ctx: AuthContext, h: AgentHarness, request: SubmitCandidateRequest, now: i64) -> Result<
    (),
    Denial,
> {
    match request.target {
        SubmitCandidateTarget::PersonalDiscovery { task_id } => match first_match(s.discovery_tasks@, task_with(task_id)) {
            None => Err(Denial::NotFound("Discovery Task"@)),
            Some(t) => if t.target is Pod {
                Err(Denial::Validation("Personal Discovery result requires a Personal Discovery Task"@))
            } else if task_check(s, ctx, t) is Err {
                Err(task_check(s, ctx, t)->Err_0)
            } else if !leased_by(t, h.id, now) {
                Err(Denial::CandidateTaskLeaseRequired)
            } else {
                Ok(())
            },
        },
        SubmitCandidateTarget::PodPlacements { task_context: Some(tc), .. } => match first_match(
            s.discovery_tasks@,
            task_with(tc.task_id),
        ) {
            None => Err(Denial::NotFound("Discovery Task"@)),
            Some(t) => match t.target {
                DiscoveryTaskTarget::Personal { .. } => Err(
                    Denial::Validation("Pod Candidate Submission cannot use a Personal Discovery Task"@),
                ),
                DiscoveryTaskTarget::Pod { pod_id, package_version } => if harness_check(
                    s,
                    ctx,
                    HarnessCapability::DiscoveryTasks,
                    Some(pod_id),
                ) is Err {
                    Err(harness_check(s, ctx, HarnessCapability::DiscoveryTasks, Some(pod_id))->Err_0)
                } else if package_version != tc.package_version {
                    Err(Denial::CandidatePackageVersionMismatch)
                } else if !proposed_ids(request.target).contains(pod_id) {
                    Err(Denial::Validation("task-driven Candidate Submission must propose its task Pod"@))
                } else if !leased_by(t, h.id, now) {
                    Err(Denial::CandidateTaskLeaseRequired)
                } else {
                    Ok(())
                },
            },
        },
        _ => if h.kind == AgentHarnessKind::Unattended {
            Err(Denial::CandidateTaskRequired)
        } else {
            Ok(())
        },
    }
}

pub open spec fn candidate_at(tenant_id: Option<u128>, canonical: Seq<char>) -> spec_fn(Candidate) -> bool {
    |c: Candidate| c.tenant_id == tenant_id && c.canonical_url@ == canonical
}

/// The target a submission is stored with.
pub open spec fn stored_target(s: Store, ctx: AuthContext, request: SubmitCandidateRequest) -> CandidateSubmissionTargetModel {
    match request.target {
        SubmitCandidateTarget::User { learn } => CandidateSubmissionTargetModel::User { user_id: ctx.user_id->0, learn },
        SubmitCandidateTarget::PodPlacements { .. } => CandidateSubmissionTargetModel::PodPlacements {
            pod_ids: proposed_ids(request.target),
        },
        SubmitCandidateTarget::PersonalDiscovery { task_id } => {
            let t = first_match(s.discovery_tasks@, task_with(task_id))->Some_0;
            let plan = first_match(s.discovery_plans@, plan_with_id(t.target->plan_id))->Some_0;
            CandidateSubmissionTargetModel::PersonalDiscovery { user_id: plan.user_id, task_id, discovery_plan_id: plan.id }
        },
    }
}

/// What handing in a Candidate Submission at `now` does. A submission that
/// passes every rule is recorded against the Candidate for its canonical URL
/// in the caller's tenant (recorded as pending when new); handing the same
/// submission in again under either of its idempotency keys returns the
/// stored one, and a different submission under a used key is refused.
pub open spec fn submit_candidate_outcome(
    before: Store,
    after: Store,
    r: Result<CandidateSubmission, AgentToolsError>,
    ctx: AuthContext,
    request: SubmitCandidateRequest,
    now: i64,
) -> bool {
    match ctx.harness_id {
        None => r matches Err(e) && denies(e, Denial::CandidateHarnessRequired) && after == before,
        Some(hid) => match context_harness(before, ctx) {
            Err(d) => r matches Err(e) && denies(e, d) && after == before,
            Ok(None) => r matches Err(e) && denies(e, Denial::CandidateHarnessRequired) && after == before,
            Ok(Some(h)) => match candidate_submission_check(before, ctx, request) {
                Err(d) => r matches Err(e) && denies(e, d) && after == before,
                Ok(canonical) => {
                    let subs = before.candidate_submissions@;
                    let k = first_index(
                        subs,
                        same_key(hid, request.evidence.harness_idempotency_key@, request.evidence.client_idempotency_key@),
                    );
                    if k >= 0 {
                        if !matches_request(subs[k], request) {
                            r matches Err(e) && denies(e, Denial::CandidateIdempotencyConflict) && after == before
                        } else if first_match(before.candidates@, candidate_with_id(subs[k].candidate_id)) is None {
                            r matches Err(e) && denies(e, Denial::NotFound("Candidate"@)) && after == before
                        } else {
                            r matches Ok(x) && x@ == subs[k]@ && after == before
                        }
                    } else {
                        match task_context_check(before, ctx, h, request, now) {
                            Err(d) => r matches Err(e) && denies(e, d) && after == before,
                            Ok(()) => {
                                let ci = first_index(before.candidates@, candidate_at(ctx.tenant_id, canonical));
                                r matches Ok(x) && {
                                    &&& if ci >= 0 {
                                        after.candidates@ == before.candidates@ && x.candidate_id == before.candidates@[ci].id
                                    } else {
                                        let c = after.candidates@.last();
                                        &&& after.candidates@.len() == before.candidates@.len() + 1
                                        &&& after.candidates@.drop_last() == before.candidates@
                                        &&& c.tenant_id == ctx.tenant_id && c.source_url@ == canonical && c.canonical_url@ == canonical
                                        &&& c.review_state == CandidateReviewState::Pending && c.created_at == now
                                        &&& x.candidate_id == c.id
                                    }
                                    &&& x.tenant_id == ctx.tenant_id && x.submitted_by == hid && x.created_at == now
                                    &&& x.target@ == stored_target(before, ctx, request)
                                    &&& x.evidence@ == request.evidence@
                                    &&& after.candidate_submissions@.len() == subs.len() + 1
                                    &&& after.candidate_submissions@.drop_last() == subs
                                    &&& after.candidate_submissions@.last()@ == x@
                                    &&& audited(before.harness_write_audit@, after.harness_write_audit@, ctx,
                                        HarnessWriteOperation::SubmitCandidate, None)
                                    &&& after == (Store {
                                        candidates: after.candidates,
                                        candidate_submissions: after.candidate_submissions,
                                        harness_write_audit: after.harness_write_audit,
                                        ..before
                                    })
                                }
                            },
                        }
                    }
                },
            },
        },
    }
}

fn proposed_pod_ids(target: &SubmitCandidateTarget) -> (r: Vec<u128>)
    ensures
        r@ == proposed_ids(*target),
{
    let mut r: Vec<u128> = Vec::new();
    if let SubmitCandidateTarget::PodPlacements { placements, .. } = target {
        let mut i: usize = 0;
        while i < placements.len()
            invariant
                i <= placements@.len(),
                r@ == placements@.take(i as int).map_values(|p: PlacementProposal| p.pod_id),
            decreases placements@.len() - i,
        {
            r.push(placements[i].pod_id);
            assert(placements@.take(i + 1).map_values(|p: PlacementProposal| p.pod_id) =~= r@);
            i = i + 1;
        }
        assert(placements@.take(placements@.len() as int) =~= placements@);
    } else {
        assert(r@ =~= proposed_ids(*target));
    }
    r
}

fn same_ids(a: &Vec<u128>, b: &Vec<u128>) -> (r: bool)
    ensures
        r == (a@ == b@),
{
    if a.len() != b.len() {
        return false;
    }
    let mut i: usize = 0;
    while i < a.len()
        invariant
            i <= a@.len(),
            a@.len() == b@.len(),
            forall|j: int| 0 <= j < i ==> a@[j] == b@[j],
        decreases a@.len() - i,
    {
        if a[i] != b[i] {
            return false;
        }
        i = i + 1;
    }
    assert(a@ =~= b@);
    true
}

fn same_evidence(a: &CandidateEvidence, b: &CandidateEvidence) -> (r: bool)
    ensures
        r == (a@ == b@),
{
    let referrers = match (&a.referrer_url, &b.referrer_url) {
        (Some(x), Some(y)) => *x == *y,
        (None, None) => true,
        _ => false,
    };
    a.source_url == b.source_url && referrers && a.discovery_method == b.discovery_method
        && a.harness_idempotency_key == b.harness_idempotency_key && a.client_idempotency_key == b.client_idempotency_key
}

/// Whether a stored submission is the one `request` describes again.
fn submission_matches(c: &CandidateSubmission, request: &SubmitCandidateRequest) -> (r: bool)
    ensures
        r == matches_request(*c, *request),
{
    let targets = match (&c.target, &request.target) {
        (CandidateSubmissionTarget::User { learn: a, .. }, SubmitCandidateTarget::User { learn: b }) => *a == *b,
        (CandidateSubmissionTarget::PersonalDiscovery { task_id: a, .. }, SubmitCandidateTarget::PersonalDiscovery { task_id: b }) => *a
            == *b,
        (CandidateSubmissionTarget::PodPlacements { pod_ids }, SubmitCandidateTarget::PodPlacements { .. }) => {
            let ids = proposed_pod_ids(&request.target);
            same_ids(pod_ids, &ids)
        },
        _ => false,
    };
    targets && same_evidence(&c.evidence, &request.evidence)
}

/// Checks the task rules of a submission at `now`.
fn check_task_context(store: &Store, ctx: &AuthContext, h: &AgentHarness, request: &SubmitCandidateRequest, now: i64) -> (r: Result<
    (),
    AgentToolsError,
>)
    ensures
        match task_context_check(*store, *ctx, *h, *request, now) {
            Ok(()) => r is Ok,
            Err(d) => r matches Err(e) && denies(e, d),
        },
{
    let task_id = match &request.target {
        SubmitCandidateTarget::PersonalDiscovery { task_id } => *task_id,
        SubmitCandidateTarget::PodPlacements { task_context: Some(tc), .. } => tc.task_id,
        _ => {
            if h.kind == AgentHarnessKind::Unattended {
                return Err(AgentToolsError::CandidateTaskRequired);
            }
            return Ok(());
        },
    };
    let i = match find_task(store, task_id) {
        Some(i) => i,
        None => return Err(not_found("Discovery Task")),
    };
    proof {
        assert(task_with(task_id) == crate::tasks::task_with_id(task_id));
    }
    let t = &store.discovery_tasks[i];
    let leased = match t.state {
        DiscoveryTaskState::Leased(l) => l.harness_id == h.id && l.expires_at > now,
        _ => false,
    };
    match &request.target {
        SubmitCandidateTarget::PersonalDiscovery { .. } => {
            if let DiscoveryTaskTarget::Pod { .. } = t.target {
                return Err(validation("Personal Discovery result requires a Personal Discovery Task"));
            }
            authorize_discovery_task(store, ctx, t)?;
            if !leased {
                return Err(AgentToolsError::CandidateTaskLeaseRequired);
            }
            Ok(())
        },
        SubmitCandidateTarget::PodPlacements { task_context: Some(tc), .. } => {
            let (pod_id, package_version) = match t.target {
                DiscoveryTaskTarget::Pod { pod_id, package_version } => (pod_id, package_version),
                DiscoveryTaskTarget::Personal { .. } => {
                    return Err(validation("Pod Candidate Submission cannot use a Personal Discovery Task"));
                },
            };
            authorize_harness(store, ctx, HarnessCapability::DiscoveryTasks, Some(pod_id))?;
            if package_version != tc.package_version {
                return Err(AgentToolsError::CandidatePackageVersionMismatch);
            }
            let ids = proposed_pod_ids(&request.target);
            if !ids_contain(&ids, pod_id) {
                return Err(validation("task-driven Candidate Submission must propose its task Pod"));
            }
            if !leased {
                return Err(AgentToolsError::CandidateTaskLeaseRequired);
            }
            Ok(())
        },
        _ => Ok(()),
    }
}

impl AgentTools {
    /// Records external discovery evidence a harness hands in at `now`,
    /// against the Candidate for its canonical URL; idempotent under either of
    /// the submission's keys.
    pub fn submit_candidate(&mut self, ctx: &AuthContext, request: SubmitCandidateRequest, now: i64) -> (r: Result<
        CandidateSubmission,
        AgentToolsError,
    >)
        ensures
            submit_candidate_outcome(old(self).store, final(self).store, r, *ctx, request, now),
    {
        let harness_id = match ctx.harness_id {
            Some(h) => h,
            None => return Err(AgentToolsError::CandidateHarnessRequired),
        };
        let harness = match harness_for_context(&self.store, ctx)? {
            Some(h) => h.clone(),
            None => return Err(AgentToolsError::CandidateHarnessRequired),
        };
        let canonical = validate_candidate_submission(&self.store, ctx, &request)?;
        let subs = &self.store.candidate_submissions;
        let mut k: usize = 0;
        while k < subs.len() && !(subs[k].submitted_by == harness_id && (subs[k].evidence.harness_idempotency_key
            == request.evidence.harness_idempotency_key || subs[k].evidence.client_idempotency_key
            == request.evidence.client_idempotency_key))
            invariant
                k <= subs@.len(),
                forall|j: int|
                    0 <= j < k ==> !same_key(
                        harness_id,
                        request.evidence.harness_idempotency_key@,
                        request.evidence.client_idempotency_key@,
                    )(#[trigger] subs@[j]),
            decreases subs@.len() - k,
        {
            k = k + 1;
        }
        proof {
            lemma_first_index_at(
                subs@,
                same_key(harness_id, request.evidence.harness_idempotency_key@, request.evidence.client_idempotency_key@),
                k as int,
            );
        }
        if k < subs.len() {
            if !submission_matches(&subs[k], &request) {
                return Err(AgentToolsError::CandidateIdempotencyConflict);
            }
            let wanted = subs[k].candidate_id;
            let cands = &self.store.candidates;
            let mut c: usize = 0;
            while c < cands.len() && cands[c].id != wanted
                invariant
                    c <= cands@.len(),
                    forall|j: int| 0 <= j < c ==> !candidate_with_id(wanted)(#[trigger] cands@[j]),
                decreases cands@.len() - c,
            {
                c = c + 1;
            }
            proof { lemma_first_index_at(cands@, candidate_with_id(wanted), c as int); }
            if c == cands.len() {
                return Err(not_found("Candidate"));
            }
            return Ok(subs[k].clone());
        }
        check_task_context(&self.store, ctx, &harness, &request, now)?;
        let cands = &self.store.candidates;
        let mut c: usize = 0;
        while c < cands.len() && !(cands[c].tenant_id == ctx.tenant_id && cands[c].canonical_url == canonical)
            invariant
                c <= cands@.len(),
                forall|j: int| 0 <= j < c ==> !candidate_at(ctx.tenant_id, canonical@)(#[trigger] cands@[j]),
            decreases cands@.len() - c,
        {
            c = c + 1;
        }
        proof { lemma_first_index_at(cands@, candidate_at(ctx.tenant_id, canonical@), c as int); }
        let candidate_id = if c < cands.len() {
            cands[c].id
        } else {
            let id = new_id();
            let ghost before = self.store.candidates@;
            self.store.candidates.push(
                Candidate {
                    id,
                    tenant_id: ctx.tenant_id,
                    source_url: canonical.clone(),
                    canonical_url: canonical,
                    review_state: CandidateReviewState::Pending,
                    created_at: now,
                },
            );
            assert(self.store.candidates@.drop_last() =~= before);
            id
        };
        let target = match &request.target {
            SubmitCandidateTarget::User { learn } => {
                CandidateSubmissionTarget::User { user_id: ctx.user_id.unwrap(), learn: *learn }
            },
            SubmitCandidateTarget::PodPlacements { .. } => {
                CandidateSubmissionTarget::PodPlacements { pod_ids: proposed_pod_ids(&request.target) }
            },
            SubmitCandidateTarget::PersonalDiscovery { task_id } => {
                let i = find_task(&self.store, *task_id).unwrap();
                proof {
                    assert(task_with(*task_id) == crate::tasks::task_with_id(*task_id));
                }
                let plan_id = match self.store.discovery_tasks[i].target {
                    DiscoveryTaskTarget::Personal { plan_id } => plan_id,
                    DiscoveryTaskTarget::Pod { .. } => 0,
                };
                let plans = &self.store.discovery_plans;
                let mut p: usize = 0;
                while p < plans.len() && plans[p].id != plan_id
                    invariant
                        p <= plans@.len(),
                        forall|j: int| 0 <= j < p ==> !plan_with_id(plan_id)(#[trigger] plans@[j]),
                    decreases plans@.len() - p,
                {
                    p = p + 1;
                }
                proof { lemma_first_index_at(plans@, plan_with_id(plan_id), p as int); }
                let plan = plans[p];
                CandidateSubmissionTarget::PersonalDiscovery { user_id: plan.user_id, task_id: *task_id, discovery_plan_id: plan.id }
            },
        };
        let submission = CandidateSubmission {
            id: new_id(),
            candidate_id,
            tenant_id: ctx.tenant_id,
            submitted_by: harness_id,
            target,
            evidence: request.evidence.clone(),
            created_at: now,
        };
        let result = submission.clone();
        let ghost subs0 = self.store.candidate_submissions@;
        self.store.candidate_submissions.push(submission);
        assert(self.store.candidate_submissions@.drop_last() =~= subs0);
        record_harness_write(&mut self.store, ctx, HarnessWriteOperation::SubmitCandidate, None);
        Ok(result)
    }
}

} // verus!
