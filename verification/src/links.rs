//! Links handed in by agents: crawler candidates and direct Pod submissions.
use crate::agent_tools::{audited, record_harness_write, AgentTools};
use crate::auth::{authorize_harness, harness_check};
use crate::error::{denies, AgentToolsError, Denial};
use crate::seqs::{
    any_match, first_index, lemma_filter_drops, lemma_filter_keeps_all, lemma_filter_take_step, lemma_first_index, lemma_first_index_at,
};
use crate::store::tenant_check;
use crate::outside::{canonical_url_of, id_text, new_id, now_millis, parses_as_url, url_domain, url_domain_of, uuid_text};
use crate::store::Store;
use crate::types::{
    texts, AuthContext, HarnessCapability, HarnessWriteOperation, Submission, SubmissionAsset, SubmissionPod, Visibility,
};
use crate::urls::canonicalize_url;
use vstd::prelude::*;

verus! {

/// A link an agent hands in.
#[derive(Debug)]
pub struct SubmitLinkRequest {
    pub url: String,
    pub title: Option<String>,
    pub description: Option<String>,
    pub note: Option<String>,
    pub tags: Vec<String>,
    pub discovered_by_crawler: bool,
}

/// Where a crawler candidate stands.
#[derive(Clone, Copy, Debug, PartialEq, Eq, Structural)]
pub enum CrawlCandidateStatus {
    Pending,
    Promoted,
}

/// A link a crawler found for a Pod, waiting for promotion.
#[derive(Debug)]
pub struct CrawlCandidate {
    pub id: u128,
    pub tenant_id: Option<u128>,
    pub pod_id: u128,
    pub crawler_source_id: u128,
    pub url: String,
    pub canonical_url: String,
    pub title: String,
    pub description: Option<String>,
    pub domain: String,
    pub summary: Option<String>,
    pub tags: Vec<String>,
    pub status: CrawlCandidateStatus,
    pub rejection_reason: Option<String>,
    pub created_at: i64,
}

pub open spec fn opt_text(o: Option<String>) -> Option<Seq<char>> {
    match o {
        Some(s) => Some(s@),
        None => None,
    }
}

/// The domain recorded for a canonical URL: its domain, or "unknown".
pub open spec fn domain_label(canonical: Seq<char>) -> Seq<char> {
    match url_domain_of(canonical) {
        Some(d) => d,
        None => "unknown"@,
    }
}

/// `c` is the crawler candidate that `request` makes for Pod `pod_id` and source `source_id`.
pub open spec fn crawl_candidate_is(
    c: CrawlCandidate,
    ctx: AuthContext,
    pod_id: u128,
    source_id: u128,
    request: SubmitLinkRequest,
) -> bool {
    &&& c.tenant_id == ctx.tenant_id && c.pod_id == pod_id && c.crawler_source_id == source_id
    &&& c.url@ == request.url@
    &&& c.canonical_url@ == canonical_url_of(request.url@)
    &&& c.title@ == (match request.title {
        Some(t) => t@,
        None => "Untitled crawler candidate"@,
    })
    &&& opt_text(c.description) == opt_text(request.description)
    &&& c.domain@ == domain_label(canonical_url_of(request.url@))
    &&& c.summary is None
    &&& texts(c.tags@) == texts(request.tags@)
    &&& c.status == CrawlCandidateStatus::Pending
    &&& c.rejection_reason is None
}

/// What a crawler candidate does: for a Pod the caller may run discovery on,
/// a link that parses is recorded as pending under its canonical spelling.
pub open spec fn crawl_outcome(
    before: Store,
    after: Store,
    r: Result<CrawlCandidate, AgentToolsError>,
    ctx: AuthContext,
    pod_slug: Seq<char>,
    source_id: u128,
    request: SubmitLinkRequest,
) -> bool {
    match before.pod_by_slug_spec(pod_slug, ctx.tenant_id) {
        Err(d) => r matches Err(e) && denies(e, d) && after == before,
        Ok(pod) => match harness_check(before, ctx, HarnessCapability::DiscoveryTasks, Some(pod.id)) {
            Err(d) => r matches Err(e) && denies(e, d) && after == before,
            Ok(()) => if !parses_as_url(request.url@) {
                r matches Err(e) && e is BadUrl && after == before
            } else {
                r matches Ok(c) && {
                    &&& crawl_candidate_is(c, ctx, pod.id, source_id, request)
                    &&& after.crawl_candidates@.len() == before.crawl_candidates@.len() + 1
                    &&& after.crawl_candidates@.drop_last() == before.crawl_candidates@
                    &&& crawl_candidate_is(after.crawl_candidates@.last(), ctx, pod.id, source_id, request)
                    &&& after.crawl_candidates@.last().id == c.id
                    &&& audited(before.harness_write_audit@, after.harness_write_audit@, ctx,
                        HarnessWriteOperation::CreateCrawlCandidate, Some(pod.id))
                    &&& after == (Store {
                        crawl_candidates: after.crawl_candidates,
                        harness_write_audit: after.harness_write_audit,
                        ..before
                    })
                }
            },
        },
    }
}

fn clone_opt(o: &Option<String>) -> (r: Option<String>)
    ensures
        opt_text(r) == opt_text(*o),
{
    match o {
        Some(s) => Some(s.clone()),
        None => None,
    }
}

fn clone_tags(v: &Vec<String>) -> (r: Vec<String>)
    ensures
        texts(r@) == texts(v@),
{
    let mut r: Vec<String> = Vec::new();
    let mut i: usize = 0;
    while i < v.len()
        invariant
            i <= v@.len(),
            texts(r@) == texts(v@.take(i as int)),
        decreases v@.len() - i,
    {
        let t = v[i].clone();
        assert(t@ == v@[i as int]@);
        let ghost r0 = r@;
        r.push(t);
        assert(r@ == r0.push(t));
        assert(v@.take(i + 1) =~= v@.take(i as int).push(v@[i as int]));
        assert(texts(r0.push(t)) =~= texts(r0).push(t@));
        assert(texts(v@.take(i as int).push(v@[i as int])) =~= texts(v@.take(i as int)).push(v@[i as int]@));
        i = i + 1;
    }
    assert(v@.take(v@.len() as int) =~= v@);
    r
}

pub open spec fn link_of(canonical: Seq<char>, tenant_id: Option<u128>) -> spec_fn(Submission) -> bool {
    |x: Submission| x.canonical_url@ == canonical && x.tenant_id == tenant_id
}

pub open spec fn pod_link(pod_id: u128, submission_id: u128) -> spec_fn(SubmissionPod) -> bool {
    |l: SubmissionPod| l.pod_id == pod_id && l.submission_id == submission_id
}

/// `a` and `b` hold the same Submission.
pub open spec fn same_link(a: Submission, b: Submission) -> bool {
    &&& a.id == b.id && a.tenant_id == b.tenant_id && a.url@ == b.url@ && a.canonical_url@ == b.canonical_url@
    &&& a.title@ == b.title@ && opt_text(a.description) == opt_text(b.description) && a.domain@ == b.domain@
    &&& a.submitted_by == b.submitted_by && a.discovered_by_crawler == b.discovered_by_crawler
    &&& opt_text(a.submitter_note) == opt_text(b.submitter_note) && opt_text(a.summary) == opt_text(b.summary)
    &&& texts(a.tags@) == texts(b.tags@) && a.created_at == b.created_at
}

/// `x` is the new Submission that `request` makes, by `ctx`.
pub open spec fn new_link_is(x: Submission, ctx: AuthContext, request: SubmitLinkRequest) -> bool {
    let canonical = canonical_url_of(request.url@);
    &&& x.tenant_id == ctx.tenant_id && x.url@ == request.url@ && x.canonical_url@ == canonical
    &&& x.title@ == (match request.title {
        Some(t) => t@,
        None => canonical,
    })
    &&& opt_text(x.description) == opt_text(request.description) && x.domain@ == domain_label(canonical)
    &&& x.submitted_by == ctx.user_id && x.discovered_by_crawler == request.discovered_by_crawler
    &&& opt_text(x.submitter_note) == opt_text(request.note) && opt_text(x.summary) == opt_text(request.description)
    &&& texts(x.tags@) == texts(request.tags@)
}

/// What submitting a link to a Pod does: for a Pod of the caller's tenant
/// that the caller may submit candidates to, a link that parses is recorded
/// once per canonical spelling and tenant (an earlier Submission of it is
/// reused), linked to the Pod once, and the write attributed.
pub open spec fn link_outcome(
    before: Store,
    after: Store,
    r: Result<Submission, AgentToolsError>,
    ctx: AuthContext,
    pod_slug: Seq<char>,
    request: SubmitLinkRequest,
) -> bool {
    match before.pod_by_slug_spec(pod_slug, ctx.tenant_id) {
        Err(d) => r matches Err(e) && denies(e, d) && after == before,
        Ok(pod) => if tenant_check(pod.tenant_id, ctx.tenant_id) is Err {
            r matches Err(e) && denies(e, tenant_check(pod.tenant_id, ctx.tenant_id)->Err_0) && after == before
        } else if harness_check(before, ctx, HarnessCapability::CandidateSubmission, Some(pod.id)) is Err {
            r matches Err(e) && denies(e, harness_check(before, ctx, HarnessCapability::CandidateSubmission, Some(pod.id))->Err_0)
                && after == before
        } else if !parses_as_url(request.url@) {
            r matches Err(e) && e is BadUrl && after == before
        } else {
            let k = first_index(before.submissions@, link_of(canonical_url_of(request.url@), ctx.tenant_id));
            r matches Ok(x) && {
                &&& if k >= 0 {
                    same_link(x, before.submissions@[k]) && after.submissions@ == before.submissions@
                } else {
                    &&& new_link_is(x, ctx, request)
                    &&& after.submissions@.len() == before.submissions@.len() + 1
                    &&& after.submissions@.drop_last() == before.submissions@
                    &&& same_link(after.submissions@.last(), x)
                }
                &&& after.submission_pods@ == (if any_match(before.submission_pods@, pod_link(pod.id, x.id)) {
                    before.submission_pods@
                } else {
                    before.submission_pods@.push(SubmissionPod { submission_id: x.id, pod_id: pod.id })
                })
                &&& audited(before.harness_write_audit@, after.harness_write_audit@, ctx,
                    HarnessWriteOperation::SubmitLinkToPod, Some(pod.id))
                &&& after == (Store {
                    submissions: after.submissions,
                    submission_pods: after.submission_pods,
                    harness_write_audit: after.harness_write_audit,
                    ..before
                })
            }
        },
    }
}

fn copy_submission(x: &Submission) -> (r: Submission)
    ensures
        same_link(r, *x),
{
    Submission {
        id: x.id,
        tenant_id: x.tenant_id,
        url: x.url.clone(),
        canonical_url: x.canonical_url.clone(),
        title: x.title.clone(),
        description: clone_opt(&x.description),
        domain: x.domain.clone(),
        submitted_by: x.submitted_by,
        discovered_by_crawler: x.discovered_by_crawler,
        submitter_note: clone_opt(&x.submitter_note),
        summary: clone_opt(&x.summary),
        tags: clone_tags(&x.tags),
        created_at: x.created_at,
    }
}

impl AgentTools {
    /// Records a link a crawler found for the Pod with slug `pod_slug`, from
    /// crawler source `source_id`, as a pending candidate.
    pub fn create_crawl_candidate(&mut self, ctx: &AuthContext, pod_slug: &str, source_id: u128, request: SubmitLinkRequest) -> (r:
        Result<CrawlCandidate, AgentToolsError>)
        ensures
            crawl_outcome(old(self).store, final(self).store, r, *ctx, pod_slug@, source_id, request),
    {
        let pod_id = self.store.pod_by_slug(pod_slug, ctx.tenant_id)?.id;
        authorize_harness(&self.store, ctx, HarnessCapability::DiscoveryTasks, Some(pod_id))?;
        let canonical_url = canonicalize_url(request.url.as_str())?;
        let domain = match url_domain(canonical_url.as_str()) {
            Some(d) => d,
            None => String::from_str("unknown"),
        };
        let title = match &request.title {
            Some(t) => t.clone(),
            None => String::from_str("Untitled crawler candidate"),
        };
        let id = new_id();
        let created_at = now_millis();
        let stored = CrawlCandidate {
            id,
            tenant_id: ctx.tenant_id,
            pod_id,
            crawler_source_id: source_id,
            url: request.url.clone(),
            canonical_url: canonical_url.clone(),
            title: title.clone(),
            description: clone_opt(&request.description),
            domain: domain.clone(),
            summary: None,
            tags: clone_tags(&request.tags),
            status: CrawlCandidateStatus::Pending,
            rejection_reason: None,
            created_at,
        };
        let ghost before = self.store.crawl_candidates@;
        self.store.crawl_candidates.push(stored);
        assert(self.store.crawl_candidates@.drop_last() =~= before);
        record_harness_write(&mut self.store, ctx, HarnessWriteOperation::CreateCrawlCandidate, Some(pod_id));
        Ok(CrawlCandidate {
            id,
            tenant_id: ctx.tenant_id,
            pod_id,
            crawler_source_id: source_id,
            url: request.url,
            canonical_url,
            title,
            description: request.description,
            domain,
            summary: None,
            tags: request.tags,
            status: CrawlCandidateStatus::Pending,
            rejection_reason: None,
            created_at,
        })
    }
    /// Submits a link to the Pod with slug `pod_slug`: the link's canonical
    /// Submission in the caller's tenant is reused or created, and linked to
    /// the Pod once.
    pub fn submit_link_to_pod(&mut self, ctx: &AuthContext, pod_slug: &str, request: SubmitLinkRequest) -> (r: Result<
        Submission,
        AgentToolsError,
    >)
        ensures
            link_outcome(old(self).store, final(self).store, r, *ctx, pod_slug@, request),
    {
        let pod = self.store.pod_by_slug(pod_slug, ctx.tenant_id)?;
        let pod_id = pod.id;
        let owner = pod.tenant_id;
        self.store.assert_tenant(owner, ctx.tenant_id)?;
        authorize_harness(&self.store, ctx, HarnessCapability::CandidateSubmission, Some(pod_id))?;
        let canonical_url = canonicalize_url(request.url.as_str())?;
        let domain = match url_domain(canonical_url.as_str()) {
            Some(d) => d,
            None => String::from_str("unknown"),
        };
        let subs = &self.store.submissions;
        let mut k: usize = 0;
        while k < subs.len() && !(subs[k].canonical_url == canonical_url && subs[k].tenant_id == ctx.tenant_id)
            invariant
                k <= subs@.len(),
                forall|j: int| 0 <= j < k ==> !link_of(canonical_url@, ctx.tenant_id)(#[trigger] subs@[j]),
            decreases subs@.len() - k,
        {
            k = k + 1;
        }
        proof { lemma_first_index_at(subs@, link_of(canonical_url@, ctx.tenant_id), k as int); }
        let submission = if k < subs.len() {
            copy_submission(&subs[k])
        } else {
            let title = match &request.title {
                Some(t) => t.clone(),
                None => canonical_url.clone(),
            };
            let fresh = Submission {
                id: new_id(),
                tenant_id: ctx.tenant_id,
                url: request.url.clone(),
                canonical_url: canonical_url.clone(),
                title,
                description: clone_opt(&request.description),
                domain,
                submitted_by: ctx.user_id,
                discovered_by_crawler: request.discovered_by_crawler,
                submitter_note: clone_opt(&request.note),
                summary: clone_opt(&request.description),
                tags: clone_tags(&request.tags),
                created_at: now_millis(),
            };
            let result = copy_submission(&fresh);
            let ghost before = self.store.submissions@;
            self.store.submissions.push(fresh);
            assert(self.store.submissions@.drop_last() =~= before);
            result
        };
        let links = &self.store.submission_pods;
        let mut l: usize = 0;
        while l < links.len() && !(links[l].pod_id == pod_id && links[l].submission_id == submission.id)
            invariant
                l <= links@.len(),
                forall|j: int| 0 <= j < l ==> !pod_link(pod_id, submission.id)(#[trigger] links@[j]),
            decreases links@.len() - l,
        {
            l = l + 1;
        }
        proof {
            lemma_first_index_at(links@, pod_link(pod_id, submission.id), l as int);
            lemma_first_index(links@, pod_link(pod_id, submission.id));
        }
        if l == links.len() {
            self.store.submission_pods.push(SubmissionPod { submission_id: submission.id, pod_id });
        }
        record_harness_write(&mut self.store, ctx, HarnessWriteOperation::SubmitLinkToPod, Some(pod_id));
        Ok(submission)
    }
}

/// A link of Submission `submission_id` to Pod `pod_id`.
pub open spec fn unlinked(pod_id: u128, submission_id: u128) -> spec_fn(SubmissionPod) -> bool {
    |l: SubmissionPod| !(l.pod_id == pod_id && l.submission_id == submission_id)
}

pub open spec fn links_submission(submission_id: u128) -> spec_fn(SubmissionPod) -> bool {
    |l: SubmissionPod| l.submission_id == submission_id
}

pub open spec fn submission_with_id(id: u128) -> spec_fn(Submission) -> bool {
    |x: Submission| x.id == id
}

pub open spec fn asset_kept(submission_id: u128) -> spec_fn(SubmissionAsset) -> bool {
    |a: SubmissionAsset| a.submission_id != submission_id
}

/// The Submissions without the one with identifier `id`, if there is one.
pub open spec fn without_submission(s: Seq<Submission>, id: u128) -> Seq<Submission> {
    let i = first_index(s, submission_with_id(id));
    if i >= 0 {
        s.remove(i)
    } else {
        s
    }
}

/// What removing a Submission from a Pod does: for a Pod of the caller's
/// tenant that the caller curates and that is not public (public content
/// goes through a Pending Proposal), every link of the Submission to the Pod
/// is removed, and when no Pod links the Submission any more, it and its
/// assets are purged; the result says whether it was. The removal needs the
/// tenant's node identity to announce it; without one it is refused after the
/// links and the purge have been made.
pub open spec fn removal_outcome(
    before: Store,
    after: Store,
    r: Result<bool, AgentToolsError>,
    ctx: AuthContext,
    pod_slug: Seq<char>,
    submission_id: u128,
) -> bool {
    match before.pod_by_slug_spec(pod_slug, ctx.tenant_id) {
        Err(d) => r matches Err(e) && denies(e, d) && after == before,
        Ok(pod) => if tenant_check(pod.tenant_id, ctx.tenant_id) is Err {
            r matches Err(e) && denies(e, tenant_check(pod.tenant_id, ctx.tenant_id)->Err_0) && after == before
        } else if harness_check(before, ctx, HarnessCapability::PodCuration, Some(pod.id)) is Err {
            r matches Err(e) && denies(e, harness_check(before, ctx, HarnessCapability::PodCuration, Some(pod.id))->Err_0)
                && after == before
        } else if pod.visibility == Visibility::Public {
            r matches Err(e) && denies(e, Denial::Validation("public-content removal requires a Pending Proposal"@))
                && after == before
        } else if !any_match(before.submission_pods@, pod_link(pod.id, submission_id)) {
            r matches Err(e) && denies(e, Denial::NotFound("submission "@ + uuid_text(submission_id) + " in pod "@ + pod_slug))
                && after == before
        } else {
            let links = before.submission_pods@.filter(unlinked(pod.id, submission_id));
            let purged = !any_match(links, links_submission(submission_id));
            &&& after.submission_pods@ == links
            &&& after.submissions@ == (if purged {
                without_submission(before.submissions@, submission_id)
            } else {
                before.submissions@
            })
            &&& after.submission_assets@ == (if purged {
                before.submission_assets@.filter(asset_kept(submission_id))
            } else {
                before.submission_assets@
            })
            &&& match before.node_for_tenant_spec(ctx.tenant_id) {
                Err(d) => r matches Err(e) && denies(e, d) && after.harness_write_audit == before.harness_write_audit,
                Ok(_) => r == Ok::<bool, AgentToolsError>(purged) && audited(
                    before.harness_write_audit@,
                    after.harness_write_audit@,
                    ctx,
                    HarnessWriteOperation::RemoveSubmissionFromPod,
                    Some(pod.id),
                ),
            }
            &&& after == (Store {
                submissions: after.submissions,
                submission_pods: after.submission_pods,
                submission_assets: after.submission_assets,
                harness_write_audit: after.harness_write_audit,
                ..before
            })
        },
    }
}

pub(crate) fn unlink(links: &Vec<SubmissionPod>, pod_id: u128, submission_id: u128) -> (r: Vec<SubmissionPod>)
    ensures
        r@ == links@.filter(unlinked(pod_id, submission_id)),
{
    let ghost p = unlinked(pod_id, submission_id);
    let mut r: Vec<SubmissionPod> = Vec::new();
    let mut i: usize = 0;
    while i < links.len()
        invariant
            p == unlinked(pod_id, submission_id),
            i <= links@.len(),
            r@ == links@.take(i as int).filter(p),
        decreases links@.len() - i,
    {
        proof { lemma_filter_take_step(links@, p, i as int); }
        if !(links[i].pod_id == pod_id && links[i].submission_id == submission_id) {
            r.push(links[i]);
        }
        i = i + 1;
    }
    assert(links@.take(links@.len() as int) =~= links@);
    r
}

fn assets_without(assets: &Vec<SubmissionAsset>, submission_id: u128) -> (r: Vec<SubmissionAsset>)
    ensures
        r@ == assets@.filter(asset_kept(submission_id)),
{
    let ghost p = asset_kept(submission_id);
    let mut r: Vec<SubmissionAsset> = Vec::new();
    let mut i: usize = 0;
    while i < assets.len()
        invariant
            p == asset_kept(submission_id),
            i <= assets@.len(),
            r@ == assets@.take(i as int).filter(p),
        decreases assets@.len() - i,
    {
        proof { lemma_filter_take_step(assets@, p, i as int); }
        if assets[i].submission_id != submission_id {
            r.push(assets[i].clone());
        }
        i = i + 1;
    }
    assert(assets@.take(assets@.len() as int) =~= assets@);
    r
}

impl AgentTools {
    /// Removes Submission `submission_id` from the Pod with slug `pod_slug`,
    /// purging it when no Pod links it any more; says whether it was purged.
    pub fn remove_submission_from_pod(&mut self, ctx: &AuthContext, pod_slug: &str, submission_id: u128) -> (r: Result<
        bool,
        AgentToolsError,
    >)
        ensures
            removal_outcome(old(self).store, final(self).store, r, *ctx, pod_slug@, submission_id),
    {
        let pod = self.store.pod_by_slug(pod_slug, ctx.tenant_id)?;
        let pod_id = pod.id;
        let visibility = pod.visibility;
        self.store.assert_tenant(pod.tenant_id, ctx.tenant_id)?;
        authorize_harness(&self.store, ctx, HarnessCapability::PodCuration, Some(pod_id))?;
        if visibility == Visibility::Public {
            return Err(crate::error::validation("public-content removal requires a Pending Proposal"));
        }
        let links = unlink(&self.store.submission_pods, pod_id, submission_id);
        if links.len() == self.store.submission_pods.len() {
            proof {
                lemma_first_index(self.store.submission_pods@, pod_link(pod_id, submission_id));
                if any_match(self.store.submission_pods@, pod_link(pod_id, submission_id)) {
                    let k = first_index(self.store.submission_pods@, pod_link(pod_id, submission_id));
                    lemma_filter_drops(self.store.submission_pods@, unlinked(pod_id, submission_id), k);
                }
            }
            let mut message = String::from_str("submission ");
            let text = id_text(submission_id);
            message.append(text.as_str());
            message.append(" in pod ");
            message.append(pod_slug);
            return Err(AgentToolsError::Store(crate::error::StoreError::NotFound(message)));
        }
        proof {
            if !any_match(self.store.submission_pods@, pod_link(pod_id, submission_id)) {
                assert forall|j: int| 0 <= j < self.store.submission_pods@.len() implies unlinked(pod_id, submission_id)(
                    #[trigger] self.store.submission_pods@[j],
                ) by {
                    assert(!pod_link(pod_id, submission_id)(self.store.submission_pods@[j]));
                }
                lemma_filter_keeps_all(self.store.submission_pods@, unlinked(pod_id, submission_id));
            }
        }
        let mut l: usize = 0;
        while l < links.len() && links[l].submission_id != submission_id
            invariant
                l <= links@.len(),
                forall|j: int| 0 <= j < l ==> !links_submission(submission_id)(#[trigger] links@[j]),
            decreases links@.len() - l,
        {
            l = l + 1;
        }
        proof {
            lemma_first_index_at(links@, links_submission(submission_id), l as int);
            lemma_first_index(links@, links_submission(submission_id));
        }
        let purged = l == links.len();
        self.store.submission_pods = links;
        if purged {
            let subs = &self.store.submissions;
            let mut k: usize = 0;
            while k < subs.len() && subs[k].id != submission_id
                invariant
                    k <= subs@.len(),
                    forall|j: int| 0 <= j < k ==> !submission_with_id(submission_id)(#[trigger] subs@[j]),
                decreases subs@.len() - k,
            {
                k = k + 1;
            }
            proof { lemma_first_index_at(subs@, submission_with_id(submission_id), k as int); }
            if k < self.store.submissions.len() {
                self.store.submissions.remove(k);
            }
            let assets = assets_without(&self.store.submission_assets, submission_id);
            self.store.submission_assets = assets;
        }
        self.store.node_for_tenant(ctx.tenant_id)?;
        record_harness_write(&mut self.store, ctx, HarnessWriteOperation::RemoveSubmissionFromPod, Some(pod_id));
        Ok(purged)
    }
}

} // verus!
