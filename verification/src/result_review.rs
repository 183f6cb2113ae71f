//! The owner's review of one Personal Discovery result.
use crate::agent_tools::{audited_at, record_harness_write_at, AgentTools};
use crate::auth::{
    authorize_interactive_user_action, authorize_local_pod_curation, authorize_personal_discovery_management,
    interactive_check, local_curation_check, management_check,
};
use crate::candidates::candidate_with_id;
use crate::catalog::placement_of;
use crate::outside::{id_text, new_id, uuid_text};
use crate::seqs::lemma_filter_take_step;
use crate::error::{denies, not_found, validation, AgentToolsError, Denial};
use crate::personal_discovery::batch_with_id;
use crate::result_completion::submission_with_id;
use crate::seqs::{first_index, first_match, lemma_first_index, lemma_first_index_at};
use crate::store::{pod_with_slug, Store};
use crate::types::{
    AuthContext, DiscoveryResultBatch, DiscoveryResultBatchState, DiscoveryResultItem, DiscoveryResultItemAction,
    DiscoveryResultItemReview, HarnessWriteOperation, LearnedTasteEvidenceKind, Pod, PodPlacement, PodPlacementStatus, PodRole,
    PodRoleAssignment, TasteEvidenceDirection, TasteLearningEvidence, Visibility,
};
use vstd::prelude::*;

verus! {

/// What the owner asks to do with one result.
#[derive(Clone, Copy, Debug, PartialEq, Eq, Structural)]
pub enum DiscoveryResultItemActionRequest {
    Save,
    AddToPod { pod_id: u128 },
    MoreLikeThis,
    NotForMe,
    Ignore,
}

/// A review of the result for Candidate `candidate_id` in batch `batch_id`.
#[derive(Clone, Copy, Debug, PartialEq, Eq, Structural)]
pub struct ReviewDiscoveryResultItemRequest {
    pub batch_id: u128,
    pub candidate_id: u128,
    pub action: DiscoveryResultItemActionRequest,
}

/// The action a request records.
pub open spec fn requested_action(a: DiscoveryResultItemActionRequest) -> DiscoveryResultItemAction {
    match a {
        DiscoveryResultItemActionRequest::Save => DiscoveryResultItemAction::Save,
        DiscoveryResultItemActionRequest::AddToPod { .. } => DiscoveryResultItemAction::AddToPod,
        DiscoveryResultItemActionRequest::MoreLikeThis => DiscoveryResultItemAction::MoreLikeThis,
        DiscoveryResultItemActionRequest::NotForMe => DiscoveryResultItemAction::NotForMe,
        DiscoveryResultItemActionRequest::Ignore => DiscoveryResultItemAction::Ignore,
    }
}

pub open spec fn item_of(batch_id: u128, candidate_id: u128) -> spec_fn(DiscoveryResultItem) -> bool {
    |it: DiscoveryResultItem| it.batch_id == batch_id && it.candidate_id == candidate_id
}

/// What a review of the result found and did.
#[derive(Debug)]
pub struct DiscoveryResultItemReviewOutcome {
    pub batch: DiscoveryResultBatch,
    pub item: DiscoveryResultItem,
    /// The accepted placement the review made or found, if any.
    pub placement: Option<PodPlacement>,
    /// Whether the review replaced a different earlier action.
    pub action_replaced: bool,
}

/// The Pod a review places the result in.
pub open spec fn review_pod(a: DiscoveryResultItemActionRequest) -> Option<u128> {
    match a {
        DiscoveryResultItemActionRequest::AddToPod { pod_id } => Some(pod_id),
        _ => None,
    }
}

/// The slug of a User's private Inbox Pod.
pub open spec fn inbox_slug(user_id: u128) -> Seq<char> {
    "inbox-"@ + uuid_text(user_id)
}

/// Where Save puts a result: the User's private Inbox Pod in the tenant when
/// it exists, `None` when it is still to be made. A Pod that holds the Inbox
/// slug but is not private cannot serve, and making the Inbox needs the
/// tenant's node identity.
pub open spec fn inbox_check(s: Store, ctx: AuthContext, user_id: u128) -> Result<Option<Pod>, Denial> {
    match first_match(s.pods@, pod_with_slug(inbox_slug(user_id), ctx.tenant_id)) {
        Some(p) => if p.visibility == Visibility::Private {
            Ok(Some(p))
        } else {
            Err(Denial::Validation("the private Inbox slug belongs to a shared Pod"@))
        },
        None => match s.node_for_tenant_spec(ctx.tenant_id) {
            Err(_) => Err(Denial::Validation("a private Inbox needs the Home Node identity"@)),
            Ok(_) => Ok(None),
        },
    }
}

/// `pods` and `roles` are those of `before` with the User's new private Inbox
/// Pod appended, made at `now` on the tenant's node, and the User as its Owner.
pub open spec fn inbox_made(
    before: Store,
    pods: Seq<Pod>,
    roles: Seq<PodRoleAssignment>,
    ctx: AuthContext,
    user_id: u128,
    now: i64,
) -> bool {
    let p = pods.last();
    &&& pods.len() == before.pods@.len() + 1
    &&& pods.drop_last() == before.pods@
    &&& p.tenant_id == ctx.tenant_id && p.slug@ == inbox_slug(user_id) && p.name@ == "Inbox"@
    &&& p.visibility == Visibility::Private && p.created_at == now
    &&& before.node_for_tenant_spec(ctx.tenant_id) matches Ok(n) && p.origin_node_id == Some(n.id)
    &&& roles == before.pod_roles@.push(PodRoleAssignment { user_id, pod_id: p.id, role: PodRole::Owner, created_at: now })
}

/// The taste evidence a review teaches: supporting for More like this,
/// opposing for Not for me, none otherwise.
pub open spec fn review_learning(a: DiscoveryResultItemAction) -> Option<(LearnedTasteEvidenceKind, TasteEvidenceDirection)> {
    match a {
        DiscoveryResultItemAction::MoreLikeThis => Some((LearnedTasteEvidenceKind::MoreLikeThis, TasteEvidenceDirection::Supporting)),
        DiscoveryResultItemAction::NotForMe => Some((LearnedTasteEvidenceKind::LessLikeThis, TasteEvidenceDirection::Opposing)),
        _ => None,
    }
}

pub open spec fn evidence_kept(batch_id: u128, candidate_id: u128) -> spec_fn(TasteLearningEvidence) -> bool {
    |e: TasteLearningEvidence| !(e.batch_id == batch_id && e.candidate_id == candidate_id)
}

pub open spec fn accepted_placement_of(candidate_id: u128, pod_id: u128) -> spec_fn(PodPlacement) -> bool {
    |p: PodPlacement| p.candidate_id == candidate_id && p.pod_id == pod_id && p.status == PodPlacementStatus::Accepted
}

/// The placements after accepting Candidate `candidate_id` into Pod `pod_id`
/// at `now`, and the accepted placement: an accepted placement stays as it
/// is; any other placement of the pair is replaced by an accepted one; with
/// none, an accepted one is appended.
pub open spec fn accepted_into(placements: Seq<PodPlacement>, candidate_id: u128, pod_id: u128, now: i64) -> (
    Seq<PodPlacement>,
    PodPlacement,
) {
    let i = first_index(placements, placement_of(candidate_id, pod_id));
    let fresh = PodPlacement { candidate_id, pod_id, status: PodPlacementStatus::Accepted, updated_at: now };
    if i >= 0 && placements[i].status == PodPlacementStatus::Accepted {
        (placements, placements[i])
    } else if i >= 0 {
        (placements.update(i, fresh), fresh)
    } else {
        (placements.push(fresh), fresh)
    }
}

/// Accepting a Candidate into a Pod leaves it accepted there, whatever its
/// placement was before: the placement given back is the pair's, Accepted,
/// and is the pair's record afterwards; a placement that was Accepted is kept
/// as it was, any other is made Accepted at `now`; placements of other pairs are
/// untouched, and at most one record is added.
pub proof fn lemma_accepting_leaves_the_pair_accepted(ps: Seq<PodPlacement>, candidate_id: u128, pod_id: u128, now: i64)
    ensures
        ({
            let (out, p) = accepted_into(ps, candidate_id, pod_id, now);
            &&& p.candidate_id == candidate_id && p.pod_id == pod_id && p.status == PodPlacementStatus::Accepted
            &&& first_match(out, placement_of(candidate_id, pod_id)) == Some(p)
            &&& out.len() == ps.len() || (out.len() == ps.len() + 1 && out.drop_last() == ps)
            &&& forall|j: int|
                0 <= j < ps.len() && !placement_of(candidate_id, pod_id)(#[trigger] ps[j]) ==> out[j] == ps[j]
            &&& (first_match(ps, placement_of(candidate_id, pod_id)) matches Some(q) && q.status == PodPlacementStatus::Accepted)
                ==> p == first_match(ps, placement_of(candidate_id, pod_id))->Some_0 && out == ps
            &&& !(first_match(ps, placement_of(candidate_id, pod_id)) matches Some(q) && q.status == PodPlacementStatus::Accepted)
                ==> p.updated_at == now
        }),
{
    let key = placement_of(candidate_id, pod_id);
    lemma_first_index(ps, key);
    let i = first_index(ps, key);
    let (out, p) = accepted_into(ps, candidate_id, pod_id, now);
    if i >= 0 {
        assert forall|j: int| 0 <= j < i implies !key(#[trigger] out[j]) by {
            assert(out[j] == ps[j]);
        }
        lemma_first_index_at(out, key, i);
    } else {
        assert forall|j: int| 0 <= j < ps.len() implies !key(#[trigger] out[j]) by {
            assert(out[j] == ps[j]);
        }
        lemma_first_index_at(out, key, ps.len() as int);
        assert(out.drop_last() =~= ps);
    }
}

/// The item after `action` at `now`, remembering the action it replaces and
/// keeping the Pod an earlier review placed it in unless this one places it.
pub open spec fn reviewed_item(it: DiscoveryResultItem, action: DiscoveryResultItemAction, pod: Option<u128>, now: i64) -> DiscoveryResultItem {
    DiscoveryResultItem {
        review: Some(
            DiscoveryResultItemReview {
                action,
                reviewed_at: now,
                replaced_action: match it.review {
                    Some(rv) => Some(rv.action),
                    None => None,
                },
                placement_pod_id: match pod {
                    Some(p) => Some(p),
                    None => match it.review {
                        Some(rv) => rv.placement_pod_id,
                        None => None,
                    },
                },
            },
        ),
        ..it
    }
}

/// What reviewing a result does. The owner's result in a batch that is not
/// dismissed takes the review: a replaced action's taste evidence is removed,
/// Save accepts the result into the User's private Inbox Pod (made on first
/// use), Add to Pod accepts it into that Pod, More like this and Not for me
/// append supporting or opposing evidence linked to the result, and the item
/// records the review. Repeating the action it already has writes nothing and
/// returns the item as it stands.
pub open spec fn review_outcome(
    before: Store,
    after: Store,
    r: Result<DiscoveryResultItemReviewOutcome, AgentToolsError>,
    ctx: AuthContext,
    request: ReviewDiscoveryResultItemRequest,
    now: i64,
) -> bool {
    let bi = first_index(before.discovery_result_batches@, batch_with_id(request.batch_id));
    let ii = first_index(before.discovery_result_items@, item_of(request.batch_id, request.candidate_id));
    let it = before.discovery_result_items@[ii];
    let action = requested_action(request.action);
    if management_check(before, ctx) is Err {
        r matches Err(e) && denies(e, management_check(before, ctx)->Err_0) && after == before
    } else if interactive_check(before, ctx, "Discovery Result review requires an interactive User action"@) is Err {
        r matches Err(e) && denies(
            e,
            interactive_check(before, ctx, "Discovery Result review requires an interactive User action"@)->Err_0,
        ) && after == before
    } else if ctx.user_id is None {
        r matches Err(e) && denies(e, Denial::Validation("Personal Discovery requires an authenticated User"@)) && after == before
    } else if bi < 0 || before.discovery_result_batches@[bi].user_id != ctx.user_id->0
        || before.discovery_result_batches@[bi].tenant_id != ctx.tenant_id {
        r matches Err(e) && denies(e, Denial::NotFound("Discovery Result Batch"@)) && after == before
    } else if before.discovery_result_batches@[bi].state == DiscoveryResultBatchState::Dismissed {
        r matches Err(e) && denies(e, Denial::Validation("dismissed Discovery Result Batch cannot receive item review"@))
            && after == before
    } else if ii < 0 {
        r matches Err(e) && denies(e, Denial::NotFound("Discovery Result Item"@)) && after == before
    } else if it.review matches Some(rv) && rv.action == action {
        r matches Ok(o) && after == before && o.batch == before.discovery_result_batches@[bi] && o.item == it
            && !o.action_replaced && o.placement == (match it.review->Some_0.placement_pod_id {
            Some(pod) => first_match(before.pod_placements@, accepted_placement_of(it.candidate_id, pod)),
            None => None,
        })
    } else if first_match(before.candidates@, candidate_with_id(it.candidate_id)) is None {
        r matches Err(e) && denies(e, Denial::NotFound("Candidate"@)) && after == before
    } else if first_match(before.candidate_submissions@, submission_with_id(it.submission_id)) is None {
        r matches Err(e) && denies(e, Denial::NotFound("Candidate Submission"@)) && after == before
    } else if review_pod(request.action) is Some && local_curation_check(before, ctx, review_pod(request.action)->Some_0) is Err {
        r matches Err(e) && denies(e, local_curation_check(before, ctx, review_pod(request.action)->Some_0)->Err_0)
            && after == before
    } else if request.action is Save && inbox_check(before, ctx, ctx.user_id->0) is Err {
        r matches Err(e) && denies(e, inbox_check(before, ctx, ctx.user_id->0)->Err_0) && after == before
    } else {
        let made = request.action is Save && inbox_check(before, ctx, ctx.user_id->0) == Ok::<Option<Pod>, Denial>(None);
        let pod: Option<u128> = match request.action {
            DiscoveryResultItemActionRequest::Save => match inbox_check(before, ctx, ctx.user_id->0) {
                Ok(Some(p)) => Some(p.id),
                _ => Some(after.pods@.last().id),
            },
            DiscoveryResultItemActionRequest::AddToPod { pod_id } => Some(pod_id),
            _ => None,
        };
        let new_item = reviewed_item(it, action, pod, now);
        let kept = if it.review is Some {
            before.taste_learning_evidence@.filter(evidence_kept(request.batch_id, request.candidate_id))
        } else {
            before.taste_learning_evidence@
        };
        r matches Ok(o) && {
            &&& o.batch == before.discovery_result_batches@[bi] && o.item == new_item
            &&& o.action_replaced == it.review is Some
            &&& after.discovery_result_items@ == before.discovery_result_items@.update(ii, new_item)
            &&& if made {
                inbox_made(before, after.pods@, after.pod_roles@, ctx, ctx.user_id->0, now)
            } else {
                after.pods == before.pods && after.pod_roles == before.pod_roles
            }
            &&& match pod {
                Some(p) => {
                    let acc = accepted_into(before.pod_placements@, it.candidate_id, p, now);
                    after.pod_placements@ == acc.0 && o.placement == Some(acc.1)
                },
                None => after.pod_placements@ == before.pod_placements@ && o.placement is None,
            }
            &&& match review_learning(action) {
                Some((kind, direction)) => {
                    let e = after.taste_learning_evidence@.last();
                    &&& after.taste_learning_evidence@.len() == kept.len() + 1
                    &&& after.taste_learning_evidence@.drop_last() == kept
                    &&& e.user_id == ctx.user_id->0 && e.tenant_id == ctx.tenant_id
                    &&& e.batch_id == request.batch_id && e.candidate_id == it.candidate_id && e.submission_id == it.submission_id
                    &&& e.kind == kind && e.direction == direction && e.created_at == now
                },
                None => after.taste_learning_evidence@ == kept,
            }
            &&& audited_at(before.harness_write_audit@, after.harness_write_audit@, ctx,
                HarnessWriteOperation::ReviewDiscoveryResultItem, pod, now)
            &&& after == (Store {
                pods: after.pods,
                pod_roles: after.pod_roles,
                discovery_result_items: after.discovery_result_items,
                pod_placements: after.pod_placements,
                taste_learning_evidence: after.taste_learning_evidence,
                harness_write_audit: after.harness_write_audit,
                ..before
            })
        }
    }
}

/// Whether the result a request reviews already carries `action`.
pub open spec fn reviewed_with(before: Store, request: ReviewDiscoveryResultItemRequest, action: DiscoveryResultItemAction) -> bool {
    let ii = first_index(before.discovery_result_items@, item_of(request.batch_id, request.candidate_id));
    before.discovery_result_items@[ii].review matches Some(rv) && rv.action == action
}

/// A review only ever hands back an accepted placement: whatever placement a
/// successful review returns is an Accepted placement of the reviewed
/// Candidate, stored after the review. A first Add to Pod (the item not yet
/// added to a Pod) returns the Candidate's Accepted placement in the Pod asked
/// for, and a first Save one in a private Pod the tenant sees.
pub proof fn lemma_review_places_accepted(
    before: Store,
    after: Store,
    r: Result<DiscoveryResultItemReviewOutcome, AgentToolsError>,
    ctx: AuthContext,
    request: ReviewDiscoveryResultItemRequest,
    now: i64,
)
    requires
        review_outcome(before, after, r, ctx, request, now),
    ensures
        r matches Ok(o) ==> (o.placement matches Some(p) ==> (p.status == PodPlacementStatus::Accepted && p.candidate_id
            == request.candidate_id && after.pod_placements@.contains(p))),
        r matches Ok(o) ==> (request.action matches DiscoveryResultItemActionRequest::AddToPod { pod_id } ==> (!reviewed_with(
            before,
            request,
            DiscoveryResultItemAction::AddToPod,
        ) ==> (o.placement matches Some(p) && p.pod_id == pod_id && p.status == PodPlacementStatus::Accepted
            && after.pod_placements@.contains(p)))),
        r matches Ok(o) ==> (request.action is Save ==> (!reviewed_with(before, request, DiscoveryResultItemAction::Save) ==> (
        o.placement matches Some(p) && p.status == PodPlacementStatus::Accepted && after.pod_placements@.contains(p)
            && exists|k: int|
            0 <= k < after.pods@.len() && (#[trigger] after.pods@[k]).id == p.pod_id && after.pods@[k].visibility
                == Visibility::Private && crate::store::pod_in_tenant(after.pods@[k], ctx.tenant_id)))),
{
    let items = before.discovery_result_items@;
    let ii = first_index(items, item_of(request.batch_id, request.candidate_id));
    lemma_first_index(items, item_of(request.batch_id, request.candidate_id));
    if r is Ok {
        let o = r->Ok_0;
        assert(ii >= 0);
        let it = items[ii];
        assert(item_of(request.batch_id, request.candidate_id)(it));
        let action = requested_action(request.action);
        if it.review matches Some(rv) && rv.action == action {
            assert(after == before);
            if o.placement is Some {
                let pod = it.review->Some_0.placement_pod_id->Some_0;
                let ps = before.pod_placements@;
                lemma_first_index(ps, accepted_placement_of(it.candidate_id, pod));
                let k = first_index(ps, accepted_placement_of(it.candidate_id, pod));
                assert(o.placement == Some(ps[k]));
                assert(accepted_placement_of(it.candidate_id, pod)(ps[k]));
                assert(ps.contains(ps[k]));
            }
        } else {
            let pod: Option<u128> = match request.action {
                DiscoveryResultItemActionRequest::Save => match inbox_check(before, ctx, ctx.user_id->0) {
                    Ok(Some(p)) => Some(p.id),
                    _ => Some(after.pods@.last().id),
                },
                DiscoveryResultItemActionRequest::AddToPod { pod_id } => Some(pod_id),
                _ => None,
            };
            if pod is Some {
                let pid = pod->Some_0;
                lemma_accepting_leaves_the_pair_accepted(before.pod_placements@, it.candidate_id, pid, now);
                let acc = accepted_into(before.pod_placements@, it.candidate_id, pid, now);
                lemma_first_index(acc.0, placement_of(it.candidate_id, pid));
                let fi = first_index(acc.0, placement_of(it.candidate_id, pid));
                assert(acc.0[fi] == acc.1);
                assert(acc.0.contains(acc.1));
                assert(o.placement == Some(acc.1));
                assert(after.pod_placements@ == acc.0);
                if request.action is Save {
                    let slug = inbox_slug(ctx.user_id->0);
                    lemma_first_index(before.pods@, pod_with_slug(slug, ctx.tenant_id));
                    match inbox_check(before, ctx, ctx.user_id->0) {
                        Ok(Some(q)) => {
                            let k = first_index(before.pods@, pod_with_slug(slug, ctx.tenant_id));
                            assert(after.pods@[k] == before.pods@[k]);
                        },
                        _ => {
                            let k = after.pods@.len() - 1;
                            assert(after.pods@[k] == after.pods@.last());
                        },
                    }
                }
            } else {
                assert(o.placement is None);
            }
        }
    }
}

/// A review is stable: the reviewed item carries the requested action, so
/// asking for the same action again writes nothing; and a review keeps which
/// result it is.
pub proof fn lemma_review_is_stable(it: DiscoveryResultItem, action: DiscoveryResultItemAction, pod: Option<u128>, now: i64)
    ensures
        reviewed_item(it, action, pod, now).review matches Some(rv) && rv.action == action,
        reviewed_item(it, action, pod, now).batch_id == it.batch_id,
        reviewed_item(it, action, pod, now).candidate_id == it.candidate_id,
        reviewed_item(it, action, pod, now).submission_id == it.submission_id,
        reviewed_item(it, action, pod, now).position == it.position,
{
}

/// Replacing an action takes back everything it taught: after the clearing,
/// no evidence linked to the result remains.
pub proof fn lemma_cleared_evidence_is_gone(ev: Seq<TasteLearningEvidence>, batch_id: u128, candidate_id: u128)
    ensures
        forall|j: int|
            0 <= j < ev.filter(evidence_kept(batch_id, candidate_id)).len() ==> !(#[trigger] ev.filter(
                evidence_kept(batch_id, candidate_id),
            )[j].batch_id == batch_id && ev.filter(evidence_kept(batch_id, candidate_id))[j].candidate_id == candidate_id),
{
    assert forall|j: int| 0 <= j < ev.filter(evidence_kept(batch_id, candidate_id)).len() implies evidence_kept(
        batch_id,
        candidate_id,
    )(ev.filter(evidence_kept(batch_id, candidate_id))[j]) by {
        ev.lemma_filter_pred(evidence_kept(batch_id, candidate_id), j);
    }
}

fn clear_evidence(ev: &Vec<TasteLearningEvidence>, batch_id: u128, candidate_id: u128) -> (r: Vec<TasteLearningEvidence>)
    ensures
        r@ == ev@.filter(evidence_kept(batch_id, candidate_id)),
{
    let mut r: Vec<TasteLearningEvidence> = Vec::new();
    let mut i: usize = 0;
    while i < ev.len()
        invariant
            i <= ev@.len(),
            r@ == ev@.take(i as int).filter(evidence_kept(batch_id, candidate_id)),
        decreases ev@.len() - i,
    {
        proof { lemma_filter_take_step(ev@, evidence_kept(batch_id, candidate_id), i as int); }
        if !(ev[i].batch_id == batch_id && ev[i].candidate_id == candidate_id) {
            r.push(ev[i]);
        }
        i = i + 1;
    }
    assert(ev@.take(ev@.len() as int) =~= ev@);
    r
}

fn find_accepted(placements: &Vec<PodPlacement>, candidate_id: u128, pod_id: u128) -> (r: Option<PodPlacement>)
    ensures
        r == first_match(placements@, accepted_placement_of(candidate_id, pod_id)),
{
    let mut i: usize = 0;
    while i < placements.len()
        && !(placements[i].candidate_id == candidate_id && placements[i].pod_id == pod_id
            && placements[i].status == PodPlacementStatus::Accepted)
        invariant
            i <= placements@.len(),
            forall|j: int| 0 <= j < i ==> !accepted_placement_of(candidate_id, pod_id)(#[trigger] placements@[j]),
        decreases placements@.len() - i,
    {
        i = i + 1;
    }
    proof { lemma_first_index_at(placements@, accepted_placement_of(candidate_id, pod_id), i as int); }
    if i < placements.len() {
        Some(placements[i])
    } else {
        None
    }
}

fn accept_into(placements: &mut Vec<PodPlacement>, candidate_id: u128, pod_id: u128, now: i64) -> (p: PodPlacement)
    ensures
        (final(placements)@, p) == accepted_into(old(placements)@, candidate_id, pod_id, now),
{
    let mut i: usize = 0;
    while i < placements.len() && !(placements[i].candidate_id == candidate_id && placements[i].pod_id == pod_id)
        invariant
            i <= placements@.len(),
            forall|j: int| 0 <= j < i ==> !placement_of(candidate_id, pod_id)(#[trigger] placements@[j]),
        decreases placements@.len() - i,
    {
        i = i + 1;
    }
    proof { lemma_first_index_at(placements@, placement_of(candidate_id, pod_id), i as int); }
    let fresh = PodPlacement { candidate_id, pod_id, status: PodPlacementStatus::Accepted, updated_at: now };
    if i < placements.len() {
        if placements[i].status == PodPlacementStatus::Accepted {
            placements[i]
        } else {
            placements.set(i, fresh);
            fresh
        }
    } else {
        placements.push(fresh);
        fresh
    }
}

/// Finds the User's private Inbox Pod, making it, with the User as its Owner,
/// when the tenant has none yet.
fn ensure_private_inbox(store: &mut Store, ctx: &AuthContext, user_id: u128, now: i64) -> (r: Result<u128, AgentToolsError>)
    ensures
        match inbox_check(*old(store), *ctx, user_id) {
            Err(d) => r matches Err(e) && denies(e, d) && *final(store) == *old(store),
            Ok(Some(p)) => r == Ok::<u128, AgentToolsError>(p.id) && *final(store) == *old(store),
            Ok(None) => r matches Ok(id) && id == final(store).pods@.last().id && inbox_made(
                *old(store),
                final(store).pods@,
                final(store).pod_roles@,
                *ctx,
                user_id,
                now,
            ) && *final(store) == (Store { pods: final(store).pods, pod_roles: final(store).pod_roles, ..*old(store) }),
        },
{
    let mut slug = String::from_str("inbox-");
    let text = id_text(user_id);
    slug.append(text.as_str());
    let ghost wanted = inbox_slug(user_id);
    assert(slug@ == wanted);
    let pods = &store.pods;
    let mut i: usize = 0;
    while i < pods.len() && !(pods[i].slug == slug && (pods[i].tenant_id == ctx.tenant_id || pods[i].tenant_id.is_none()))
        invariant
            i <= pods@.len(),
            slug@ == wanted,
            forall|j: int| 0 <= j < i ==> !pod_with_slug(wanted, ctx.tenant_id)(#[trigger] pods@[j]),
        decreases pods@.len() - i,
    {
        i = i + 1;
    }
    proof { lemma_first_index_at(pods@, pod_with_slug(wanted, ctx.tenant_id), i as int); }
    if i < pods.len() {
        if pods[i].visibility == Visibility::Private {
            return Ok(pods[i].id);
        }
        return Err(validation("the private Inbox slug belongs to a shared Pod"));
    }
    let node_id = match store.node_for_tenant(ctx.tenant_id) {
        Ok(n) => n.id,
        Err(_) => return Err(validation("a private Inbox needs the Home Node identity")),
    };
    let pod = Pod {
        id: new_id(),
        tenant_id: ctx.tenant_id,
        slug,
        name: String::from_str("Inbox"),
        description: String::from_str("Results saved from Personal Discovery"),
        visibility: Visibility::Private,
        origin_node_id: Some(node_id),
        created_at: now,
    };
    let id = pod.id;
    let ghost pods0 = store.pods@;
    store.pods.push(pod);
    assert(store.pods@.drop_last() =~= pods0);
    store.pod_roles.push(PodRoleAssignment { user_id, pod_id: id, role: PodRole::Owner, created_at: now });
    Ok(id)
}

impl AgentTools {
    /// Reviews one result of one of the caller's batches with a deliberate
    /// interactive action; a dismissed batch takes no review.
    pub fn review_discovery_result_item(&mut self, ctx: &AuthContext, request: ReviewDiscoveryResultItemRequest, now: i64) -> (r:
        Result<DiscoveryResultItemReviewOutcome, AgentToolsError>)
        ensures
            review_outcome(old(self).store, final(self).store, r, *ctx, request, now),
    {
        authorize_personal_discovery_management(&self.store, ctx)?;
        authorize_interactive_user_action(&self.store, ctx, "Discovery Result review requires an interactive User action")?;
        let user_id = match ctx.user_id {
            Some(u) => u,
            None => return Err(validation("Personal Discovery requires an authenticated User")),
        };
        let batches = &self.store.discovery_result_batches;
        let mut b: usize = 0;
        while b < batches.len() && batches[b].id != request.batch_id
            invariant
                b <= batches@.len(),
                forall|j: int| 0 <= j < b ==> !batch_with_id(request.batch_id)(#[trigger] batches@[j]),
            decreases batches@.len() - b,
        {
            b = b + 1;
        }
        proof { lemma_first_index_at(batches@, batch_with_id(request.batch_id), b as int); }
        if b == batches.len() || batches[b].user_id != user_id || batches[b].tenant_id != ctx.tenant_id {
            return Err(not_found("Discovery Result Batch"));
        }
        let batch = batches[b];
        if batch.state == DiscoveryResultBatchState::Dismissed {
            return Err(validation("dismissed Discovery Result Batch cannot receive item review"));
        }
        let items = &self.store.discovery_result_items;
        let mut k: usize = 0;
        while k < items.len() && !(items[k].batch_id == request.batch_id && items[k].candidate_id == request.candidate_id)
            invariant
                k <= items@.len(),
                forall|j: int| 0 <= j < k ==> !item_of(request.batch_id, request.candidate_id)(#[trigger] items@[j]),
            decreases items@.len() - k,
        {
            k = k + 1;
        }
        proof { lemma_first_index_at(items@, item_of(request.batch_id, request.candidate_id), k as int); }
        if k == items.len() {
            return Err(not_found("Discovery Result Item"));
        }
        let item = items[k];
        let action = match request.action {
            DiscoveryResultItemActionRequest::Save => DiscoveryResultItemAction::Save,
            DiscoveryResultItemActionRequest::AddToPod { .. } => DiscoveryResultItemAction::AddToPod,
            DiscoveryResultItemActionRequest::MoreLikeThis => DiscoveryResultItemAction::MoreLikeThis,
            DiscoveryResultItemActionRequest::NotForMe => DiscoveryResultItemAction::NotForMe,
            DiscoveryResultItemActionRequest::Ignore => DiscoveryResultItemAction::Ignore,
        };
        if let Some(rv) = item.review {
            if rv.action == action {
                let placement = match rv.placement_pod_id {
                    Some(pod) => find_accepted(&self.store.pod_placements, item.candidate_id, pod),
                    None => None,
                };
                return Ok(DiscoveryResultItemReviewOutcome { batch, item, placement, action_replaced: false });
            }
        }
        let candidates = &self.store.candidates;
        let mut c: usize = 0;
        while c < candidates.len() && candidates[c].id != item.candidate_id
            invariant
                c <= candidates@.len(),
                forall|j: int| 0 <= j < c ==> !candidate_with_id(item.candidate_id)(#[trigger] candidates@[j]),
            decreases candidates@.len() - c,
        {
            c = c + 1;
        }
        proof { lemma_first_index_at(candidates@, candidate_with_id(item.candidate_id), c as int); }
        if c == candidates.len() {
            return Err(not_found("Candidate"));
        }
        let submissions = &self.store.candidate_submissions;
        let mut s: usize = 0;
        while s < submissions.len() && submissions[s].id != item.submission_id
            invariant
                s <= submissions@.len(),
                forall|j: int| 0 <= j < s ==> !submission_with_id(item.submission_id)(#[trigger] submissions@[j]),
            decreases submissions@.len() - s,
        {
            s = s + 1;
        }
        proof { lemma_first_index_at(submissions@, submission_with_id(item.submission_id), s as int); }
        if s == submissions.len() {
            return Err(not_found("Candidate Submission"));
        }
        let pod = match request.action {
            DiscoveryResultItemActionRequest::Save => Some(ensure_private_inbox(&mut self.store, ctx, user_id, now)?),
            DiscoveryResultItemActionRequest::AddToPod { pod_id } => {
                authorize_local_pod_curation(&self.store, ctx, pod_id)?;
                Some(pod_id)
            },
            _ => None,
        };
        let action_replaced = item.review.is_some();
        if action_replaced {
            let kept = clear_evidence(&self.store.taste_learning_evidence, request.batch_id, request.candidate_id);
            self.store.taste_learning_evidence = kept;
        }
        let placement = match pod {
            Some(pod_id) => Some(accept_into(&mut self.store.pod_placements, item.candidate_id, pod_id, now)),
            None => None,
        };
        let learning = match action {
            DiscoveryResultItemAction::MoreLikeThis => Some((LearnedTasteEvidenceKind::MoreLikeThis, TasteEvidenceDirection::Supporting)),
            DiscoveryResultItemAction::NotForMe => Some((LearnedTasteEvidenceKind::LessLikeThis, TasteEvidenceDirection::Opposing)),
            _ => None,
        };
        if let Some((kind, direction)) = learning {
            let ghost ev0 = self.store.taste_learning_evidence@;
            self.store.taste_learning_evidence.push(
                TasteLearningEvidence {
                    id: new_id(),
                    user_id,
                    tenant_id: ctx.tenant_id,
                    batch_id: request.batch_id,
                    candidate_id: item.candidate_id,
                    submission_id: item.submission_id,
                    kind,
                    direction,
                    created_at: now,
                },
            );
            assert(self.store.taste_learning_evidence@.drop_last() =~= ev0);
        }
        let replaced_action = match item.review {
            Some(rv) => Some(rv.action),
            None => None,
        };
        let placement_pod_id = match pod {
            Some(p) => Some(p),
            None => match item.review {
                Some(rv) => rv.placement_pod_id,
                None => None,
            },
        };
        let reviewed = DiscoveryResultItem {
            review: Some(DiscoveryResultItemReview { action, reviewed_at: now, replaced_action, placement_pod_id }),
            ..item
        };
        self.store.discovery_result_items.set(k, reviewed);
        record_harness_write_at(&mut self.store, ctx, HarnessWriteOperation::ReviewDiscoveryResultItem, pod, now);
        Ok(DiscoveryResultItemReviewOutcome { batch, item: reviewed, placement, action_replaced })
    }
}

} // verus!
