//! Projecting public Pod events imported from a federated node into the
//! importing tenant's own records. The events' payloads arrive decoded; what
//! is decided here is which local records they land in, and that nothing of
//! another tenant is touched.
use crate::error::{denies, validation, AgentToolsError, Denial, StoreError};
use crate::links::{link_of, pod_link, unlink, unlinked};
use crate::outside::new_id;
use crate::seqs::{any_match, first_index, first_match, lemma_first_index, lemma_first_index_at};
use crate::store::Store;
use crate::types::{
    AcceptedPlacementProjection, AuthContext, EventLog, FederatedContentItemLink, PlacementTombstone, Pod, Submission, SubmissionPod,
    Visibility,
};
use vstd::prelude::*;

verus! {

/// The Pod with slug `slug` that tenant `tenant_id` keeps for node `node_id`.
pub open spec fn origin_pod(slug: Seq<char>, tenant_id: Option<u128>, node_id: u128) -> spec_fn(Pod) -> bool {
    |p: Pod| p.slug@ == slug && p.tenant_id == tenant_id && p.origin_node_id == Some(node_id)
}

/// A Pod of tenant `tenant_id` with slug `slug`.
pub open spec fn slug_taken(slug: Seq<char>, tenant_id: Option<u128>) -> spec_fn(Pod) -> bool {
    |p: Pod| p.slug@ == slug && p.tenant_id == tenant_id
}

/// An imported Pod as the importing tenant keeps it: its own, public, and
/// marked as coming from `origin_node_id`, under the local identifier `id`.
pub open spec fn projected_pod(pod: Pod, id: u128, ctx: AuthContext, origin_node_id: u128) -> Pod {
    Pod { id, tenant_id: ctx.tenant_id, visibility: Visibility::Public, origin_node_id: Some(origin_node_id), ..pod }
}

/// What projecting an imported Pod does: the tenant's Pod for that origin
/// and slug is reused; otherwise a slug the tenant already uses is refused,
/// and the Pod is added as the tenant's own.
pub open spec fn pod_projection(
    before: Store,
    after: Store,
    r: Result<u128, AgentToolsError>,
    ctx: AuthContext,
    origin_node_id: u128,
    pod: Pod,
) -> bool {
    match first_match(before.pods@, origin_pod(pod.slug@, ctx.tenant_id, origin_node_id)) {
        Some(e) => r == Ok::<u128, AgentToolsError>(e.id) && after == before,
        None => if any_match(before.pods@, slug_taken(pod.slug@, ctx.tenant_id)) {
            r matches Err(e) && denies(e, Denial::Duplicate("Pod slug "@ + pod.slug@)) && after == before
        } else {
            r matches Ok(id) && after.pods@ == before.pods@.push(projected_pod(pod, id, ctx, origin_node_id)) && after == (Store {
                pods: after.pods,
                ..before
            })
        },
    }
}

fn find_origin_pod(pods: &Vec<Pod>, slug: &String, tenant_id: Option<u128>, node_id: u128) -> (r: Option<usize>)
    ensures
        match r {
            Some(i) => i < pods@.len() && i == first_index(pods@, origin_pod(slug@, tenant_id, node_id)),
            None => first_index(pods@, origin_pod(slug@, tenant_id, node_id)) < 0,
        },
{
    let mut i: usize = 0;
    while i < pods.len()
        && !(pods[i].slug == *slug && pods[i].tenant_id == tenant_id && pods[i].origin_node_id == Some(node_id))
        invariant
            i <= pods@.len(),
            forall|j: int| 0 <= j < i ==> !origin_pod(slug@, tenant_id, node_id)(#[trigger] pods@[j]),
        decreases pods@.len() - i,
    {
        i = i + 1;
    }
    proof { lemma_first_index_at(pods@, origin_pod(slug@, tenant_id, node_id), i as int); }
    if i < pods.len() {
        Some(i)
    } else {
        None
    }
}

fn slug_in_use(pods: &Vec<Pod>, slug: &String, tenant_id: Option<u128>) -> (b: bool)
    ensures
        b == any_match(pods@, slug_taken(slug@, tenant_id)),
{
    let mut i: usize = 0;
    while i < pods.len()
        invariant
            i <= pods@.len(),
            forall|j: int| 0 <= j < i ==> !slug_taken(slug@, tenant_id)(#[trigger] pods@[j]),
        decreases pods@.len() - i,
    {
        if pods[i].slug == *slug && pods[i].tenant_id == tenant_id {
            assert(slug_taken(slug@, tenant_id)(pods@[i as int]));
            return true;
        }
        i = i + 1;
    }
    false
}

/// Keeps an imported Pod in the importing tenant; gives its local identifier.
pub fn project_imported_pod(store: &mut Store, ctx: &AuthContext, origin_node_id: u128, pod: Pod) -> (r: Result<
    u128,
    AgentToolsError,
>)
    ensures
        pod_projection(*old(store), *final(store), r, *ctx, origin_node_id, pod),
{
    if let Some(i) = find_origin_pod(&store.pods, &pod.slug, ctx.tenant_id, origin_node_id) {
        return Ok(store.pods[i].id);
    }
    if slug_in_use(&store.pods, &pod.slug, ctx.tenant_id) {
        let mut message = String::from_str("Pod slug ");
        message.append(pod.slug.as_str());
        return Err(AgentToolsError::Store(StoreError::Duplicate(message)));
    }
    let id = new_id();
    let projected = Pod {
        id,
        tenant_id: ctx.tenant_id,
        slug: pod.slug,
        name: pod.name,
        description: pod.description,
        visibility: Visibility::Public,
        origin_node_id: Some(origin_node_id),
        created_at: pod.created_at,
    };
    store.pods.push(projected);
    Ok(id)
}

/// The mapping entry for key (`tenant_id`, `node_id`, `origin_id`).
pub open spec fn federated_key(tenant_id: Option<u128>, node_id: u128, origin_id: u128) -> spec_fn(FederatedContentItemLink) -> bool {
    |l: FederatedContentItemLink| l.tenant_id == tenant_id && l.origin_node_id == node_id && l.origin_content_item_id == origin_id
}

/// The mapping with `l` written under its key: the entry with that key is
/// replaced, or `l` is appended.
pub open spec fn with_link(links: Seq<FederatedContentItemLink>, l: FederatedContentItemLink) -> Seq<FederatedContentItemLink> {
    let i = first_index(links, federated_key(l.tenant_id, l.origin_node_id, l.origin_content_item_id));
    if i >= 0 {
        links.update(i, l)
    } else {
        links.push(l)
    }
}

/// No two entries of the mapping share a key.
pub open spec fn keys_unique(links: Seq<FederatedContentItemLink>) -> bool {
    forall|i: int, j: int|
        0 <= i < j < links.len() ==> !(#[trigger] links[i].tenant_id == #[trigger] links[j].tenant_id && links[i].origin_node_id
            == links[j].origin_node_id && links[i].origin_content_item_id == links[j].origin_content_item_id)
}

/// The local Pod an event of `event` lands in: the tenant's Pod for the
/// event's origin and slug, or the one the import added.
pub open spec fn import_pod_id(before: Store, after: Store, ctx: AuthContext, event: EventLog) -> u128 {
    match first_match(before.pods@, origin_pod(event.pod_slug@, ctx.tenant_id, event.author_node_id)) {
        Some(p) => p.id,
        None => after.pods@.last().id,
    }
}

/// The local Content Item an imported one lands in: the tenant's Submission
/// with the same canonical URL, or the one the import added.
pub open spec fn import_item_id(before: Store, after: Store, ctx: AuthContext, item: Submission) -> u128 {
    let k = first_index(before.submissions@, link_of(item.canonical_url@, ctx.tenant_id));
    if k >= 0 {
        before.submissions@[k].id
    } else {
        after.submissions@.last().id
    }
}

/// What projecting an imported Content Item does, within the importing
/// tenant only: the event's Pod is the tenant's Pod for that origin and slug,
/// added (public, named by its slug) when missing unless the tenant uses the
/// slug already; the item is the tenant's Submission with the same canonical
/// URL, or a new Submission of the tenant under a fresh identifier, never the
/// origin's; it is linked to the Pod once; and the origin's identifier for it
/// maps, for this tenant and origin node, to the local one, which is returned.
pub open spec fn item_projection(
    before: Store,
    after: Store,
    r: Result<u128, AgentToolsError>,
    ctx: AuthContext,
    event: EventLog,
    item: Submission,
) -> bool {
    let found = first_match(before.pods@, origin_pod(event.pod_slug@, ctx.tenant_id, event.author_node_id));
    if found is None && any_match(before.pods@, slug_taken(event.pod_slug@, ctx.tenant_id)) {
        r matches Err(e) && denies(e, Denial::Duplicate("Pod slug "@ + event.pod_slug@)) && after == before
    } else {
        let pod_id = import_pod_id(before, after, ctx, event);
        let k = first_index(before.submissions@, link_of(item.canonical_url@, ctx.tenant_id));
        let local = import_item_id(before, after, ctx, item);
        let p = after.pods@.last();
        let x = after.submissions@.last();
        &&& if found is Some {
            after.pods == before.pods
        } else {
            &&& after.pods@.len() == before.pods@.len() + 1 && after.pods@.drop_last() == before.pods@
            &&& p.tenant_id == ctx.tenant_id && p.slug@ == event.pod_slug@ && p.name@ == event.pod_slug@
            &&& p.description@ == "Imported public pod from a federated node."@ && p.visibility == Visibility::Public
            &&& p.origin_node_id == Some(event.author_node_id) && p.created_at == event.created_at
        }
        &&& if k >= 0 {
            after.submissions == before.submissions
        } else {
            &&& after.submissions@.len() == before.submissions@.len() + 1 && after.submissions@.drop_last() == before.submissions@
            &&& x == (Submission { id: x.id, tenant_id: ctx.tenant_id, submitted_by: None, ..item })
        }
        &&& after.submission_pods@ == (if any_match(before.submission_pods@, pod_link(pod_id, local)) {
            before.submission_pods@
        } else {
            before.submission_pods@.push(SubmissionPod { submission_id: local, pod_id })
        })
        &&& after.federated_content_item_ids@ == with_link(
            before.federated_content_item_ids@,
            FederatedContentItemLink {
                tenant_id: ctx.tenant_id,
                origin_node_id: event.author_node_id,
                origin_content_item_id: item.id,
                local_content_item_id: local,
            },
        )
        &&& r == Ok::<u128, AgentToolsError>(local)
        &&& after == (Store {
            pods: after.pods,
            submissions: after.submissions,
            submission_pods: after.submission_pods,
            federated_content_item_ids: after.federated_content_item_ids,
            ..before
        })
    }
}

fn write_link(links: &mut Vec<FederatedContentItemLink>, l: FederatedContentItemLink)
    ensures
        final(links)@ == with_link(old(links)@, l),
{
    let mut i: usize = 0;
    while i < links.len()
        && !(links[i].tenant_id == l.tenant_id && links[i].origin_node_id == l.origin_node_id
            && links[i].origin_content_item_id == l.origin_content_item_id)
        invariant
            i <= links@.len(),
            forall|j: int|
                0 <= j < i ==> !federated_key(l.tenant_id, l.origin_node_id, l.origin_content_item_id)(#[trigger] links@[j]),
        decreases links@.len() - i,
    {
        i = i + 1;
    }
    proof { lemma_first_index_at(links@, federated_key(l.tenant_id, l.origin_node_id, l.origin_content_item_id), i as int); }
    if i < links.len() {
        links.set(i, l);
    } else {
        links.push(l);
    }
}

/// Projects an imported Content Item; gives the local Content Item and the local Pod.
fn project_item(store: &mut Store, ctx: &AuthContext, event: &EventLog, item: Submission) -> (r: Result<
    (u128, u128),
    AgentToolsError,
>)
    ensures
        item_projection(
            *old(store),
            *final(store),
            match r {
                Ok((local, _)) => Ok::<u128, AgentToolsError>(local),
                Err(e) => Err(e),
            },
            *ctx,
            *event,
            item,
        ),
        r matches Ok((_, pod_id)) ==> pod_id == import_pod_id(*old(store), *final(store), *ctx, *event),
{
    let ghost s0 = *store;
    let pod_id = match find_origin_pod(&store.pods, &event.pod_slug, ctx.tenant_id, event.author_node_id) {
        Some(i) => store.pods[i].id,
        None => {
            if slug_in_use(&store.pods, &event.pod_slug, ctx.tenant_id) {
                let mut message = String::from_str("Pod slug ");
                message.append(event.pod_slug.as_str());
                return Err(AgentToolsError::Store(StoreError::Duplicate(message)));
            }
            let id = new_id();
            let stub = Pod {
                id,
                tenant_id: ctx.tenant_id,
                slug: event.pod_slug.clone(),
                name: event.pod_slug.clone(),
                description: String::from_str("Imported public pod from a federated node."),
                visibility: Visibility::Public,
                origin_node_id: Some(event.author_node_id),
                created_at: event.created_at,
            };
            store.pods.push(stub);
            assert(store.pods@.drop_last() =~= s0.pods@);
            id
        },
    };
    proof { lemma_first_index(s0.pods@, origin_pod(event.pod_slug@, ctx.tenant_id, event.author_node_id)); }
    let ghost s1 = *store;
    let subs = &store.submissions;
    let mut k: usize = 0;
    while k < subs.len() && !(subs[k].tenant_id == ctx.tenant_id && subs[k].canonical_url == item.canonical_url)
        invariant
            k <= subs@.len(),
            forall|j: int| 0 <= j < k ==> !link_of(item.canonical_url@, ctx.tenant_id)(#[trigger] subs@[j]),
        decreases subs@.len() - k,
    {
        k = k + 1;
    }
    proof { lemma_first_index_at(subs@, link_of(item.canonical_url@, ctx.tenant_id), k as int); }
    let origin_id = item.id;
    let local = if k < subs.len() {
        subs[k].id
    } else {
        let id = new_id();
        let imported = Submission { id, tenant_id: ctx.tenant_id, submitted_by: None, ..item };
        store.submissions.push(imported);
        assert(store.submissions@.drop_last() =~= s1.submissions@);
        id
    };
    let links = &store.submission_pods;
    let mut l: usize = 0;
    while l < links.len() && !(links[l].pod_id == pod_id && links[l].submission_id == local)
        invariant
            l <= links@.len(),
            forall|j: int| 0 <= j < l ==> !pod_link(pod_id, local)(#[trigger] links@[j]),
        decreases links@.len() - l,
    {
        l = l + 1;
    }
    proof {
        lemma_first_index_at(links@, pod_link(pod_id, local), l as int);
        lemma_first_index(links@, pod_link(pod_id, local));
    }
    if l == links.len() {
        store.submission_pods.push(SubmissionPod { submission_id: local, pod_id });
    }
    write_link(
        &mut store.federated_content_item_ids,
        FederatedContentItemLink {
            tenant_id: ctx.tenant_id,
            origin_node_id: event.author_node_id,
            origin_content_item_id: origin_id,
            local_content_item_id: local,
        },
    );
    Ok((local, pod_id))
}

/// Projects a Content Item that an imported event carries into the
/// importing tenant; gives the local Content Item that stands for it.
pub fn project_imported_submission(store: &mut Store, ctx: &AuthContext, event: &EventLog, item: Submission) -> (r: Result<
    u128,
    AgentToolsError,
>)
    ensures
        item_projection(*old(store), *final(store), r, *ctx, *event, item),
{
    let (local, _) = project_item(store, ctx, event, item)?;
    Ok(local)
}

/// The projection of an accepted placement for key (`content_item_id`, `pod_id`).
pub open spec fn projection_for(content_item_id: u128, pod_id: u128) -> spec_fn(AcceptedPlacementProjection) -> bool {
    |p: AcceptedPlacementProjection| p.content_item_id == content_item_id && p.pod_id == pod_id
}

/// The projections with `p` written under its key (Content Item and Pod).
pub open spec fn with_projection(ps: Seq<AcceptedPlacementProjection>, p: AcceptedPlacementProjection) -> Seq<
    AcceptedPlacementProjection,
> {
    let i = first_index(ps, projection_for(p.content_item_id, p.pod_id));
    if i >= 0 {
        ps.update(i, p)
    } else {
        ps.push(p)
    }
}

/// What projecting an imported accepted placement does: its Content Item is
/// projected as `item_projection` says, and the placement is recorded for
/// the local Content Item and the local Pod, as accepted by the event's
/// origin node at the time it carries.
pub open spec fn placement_projection(
    before: Store,
    after: Store,
    r: Result<u128, AgentToolsError>,
    ctx: AuthContext,
    event: EventLog,
    item: Submission,
    accepted: AcceptedPlacementProjection,
) -> bool {
    let mid = Store { accepted_placement_projections: before.accepted_placement_projections, ..after };
    &&& item_projection(before, mid, r, ctx, event, item)
    &&& match r {
        Ok(local) => after.accepted_placement_projections@ == with_projection(
            before.accepted_placement_projections@,
            AcceptedPlacementProjection {
                content_item_id: local,
                pod_id: import_pod_id(before, after, ctx, event),
                origin_node_id: event.author_node_id,
                accepted_at: accepted.accepted_at,
            },
        ),
        Err(_) => after == before,
    }
}

/// Projects an imported accepted placement of `item` into the importing
/// tenant; gives the local Content Item.
pub fn project_imported_placement(
    store: &mut Store,
    ctx: &AuthContext,
    event: &EventLog,
    item: Submission,
    accepted: AcceptedPlacementProjection,
) -> (r: Result<u128, AgentToolsError>)
    ensures
        placement_projection(*old(store), *final(store), r, *ctx, *event, item, accepted),
{
    let (local, pod_id) = project_item(store, ctx, event, item)?;
    let p = AcceptedPlacementProjection {
        content_item_id: local,
        pod_id,
        origin_node_id: event.author_node_id,
        accepted_at: accepted.accepted_at,
    };
    let ps = &store.accepted_placement_projections;
    let mut i: usize = 0;
    while i < ps.len() && !(ps[i].content_item_id == local && ps[i].pod_id == pod_id)
        invariant
            i <= ps@.len(),
            forall|j: int| 0 <= j < i ==> !projection_for(local, pod_id)(#[trigger] ps@[j]),
        decreases ps@.len() - i,
    {
        i = i + 1;
    }
    proof { lemma_first_index_at(ps@, projection_for(local, pod_id), i as int); }
    if i < store.accepted_placement_projections.len() {
        store.accepted_placement_projections.set(i, p);
    } else {
        store.accepted_placement_projections.push(p);
    }
    Ok(local)
}

/// The projections without the one for key (`content_item_id`, `pod_id`), if any.
pub open spec fn without_projection(ps: Seq<AcceptedPlacementProjection>, content_item_id: u128, pod_id: u128) -> Seq<
    AcceptedPlacementProjection,
> {
    let i = first_index(ps, projection_for(content_item_id, pod_id));
    if i >= 0 {
        ps.remove(i)
    } else {
        ps
    }
}

/// What projecting an imported Placement Tombstone does. A tombstone whose
/// placement is not its own origin's, or names another Content Item, is
/// refused. It acts only through this tenant's mapping of the origin's
/// Content Item and this tenant's Pod for the event's origin and slug: with
/// either missing nothing happens (an origin identifier is never taken for
/// a local one). The local placement must be recorded, exactly as the
/// tombstone states it once mapped to the local Content Item and Pod; then
/// the Content Item leaves the Pod, the placement record goes, and the
/// tombstone is kept, in local terms.
pub open spec fn tombstone_projection(
    before: Store,
    after: Store,
    r: Result<(), AgentToolsError>,
    ctx: AuthContext,
    event: EventLog,
    t: PlacementTombstone,
) -> bool {
    let op = t.origin_placement;
    if op.origin_node_id != event.author_node_id || t.content_item_id != op.content_item_id {
        r matches Err(e) && denies(e, Denial::Validation("signed Placement Tombstone does not match its Origin Placement"@))
            && after == before
    } else {
        match first_match(
            before.federated_content_item_ids@,
            federated_key(ctx.tenant_id, event.author_node_id, op.content_item_id),
        ) {
            None => r is Ok && after == before,
            Some(m) => match first_match(before.pods@, origin_pod(event.pod_slug@, ctx.tenant_id, event.author_node_id)) {
                None => r is Ok && after == before,
                Some(pod) => {
                    let local = m.local_content_item_id;
                    let expected = AcceptedPlacementProjection { content_item_id: local, pod_id: pod.id, ..op };
                    match first_match(before.accepted_placement_projections@, projection_for(local, pod.id)) {
                        None => r matches Err(e) && denies(
                            e,
                            Denial::Validation("Placement Tombstone has no matching accepted Origin Placement"@),
                        ) && after == before,
                        Some(existing) => if existing != expected {
                            r matches Err(e) && denies(
                                e,
                                Denial::Validation("Placement Tombstone does not match accepted Origin Placement evidence"@),
                            ) && after == before
                        } else {
                            &&& r is Ok
                            &&& after.submission_pods@ == before.submission_pods@.filter(unlinked(pod.id, local))
                            &&& after.accepted_placement_projections@ == without_projection(
                                before.accepted_placement_projections@,
                                local,
                                pod.id,
                            )
                            &&& after.placement_tombstones@ == before.placement_tombstones@.push(
                                PlacementTombstone { content_item_id: local, origin_placement: expected, withdrawn_at: t.withdrawn_at },
                            )
                            &&& after == (Store {
                                submission_pods: after.submission_pods,
                                accepted_placement_projections: after.accepted_placement_projections,
                                placement_tombstones: after.placement_tombstones,
                                ..before
                            })
                        },
                    }
                },
            },
        }
    }
}

/// Projects an imported Placement Tombstone into the importing tenant.
pub fn project_imported_tombstone(store: &mut Store, ctx: &AuthContext, event: &EventLog, t: PlacementTombstone) -> (r: Result<
    (),
    AgentToolsError,
>)
    ensures
        tombstone_projection(*old(store), *final(store), r, *ctx, *event, t),
{
    let op = t.origin_placement;
    if op.origin_node_id != event.author_node_id || t.content_item_id != op.content_item_id {
        return Err(validation("signed Placement Tombstone does not match its Origin Placement"));
    }
    let links = &store.federated_content_item_ids;
    let mut i: usize = 0;
    while i < links.len()
        && !(links[i].tenant_id == ctx.tenant_id && links[i].origin_node_id == event.author_node_id
            && links[i].origin_content_item_id == op.content_item_id)
        invariant
            i <= links@.len(),
            forall|j: int|
                0 <= j < i ==> !federated_key(ctx.tenant_id, event.author_node_id, op.content_item_id)(#[trigger] links@[j]),
        decreases links@.len() - i,
    {
        i = i + 1;
    }
    proof { lemma_first_index_at(links@, federated_key(ctx.tenant_id, event.author_node_id, op.content_item_id), i as int); }
    if i == links.len() {
        return Ok(());
    }
    let local = links[i].local_content_item_id;
    let pod_id = match find_origin_pod(&store.pods, &event.pod_slug, ctx.tenant_id, event.author_node_id) {
        Some(p) => store.pods[p].id,
        None => return Ok(()),
    };
    let ps = &store.accepted_placement_projections;
    let mut k: usize = 0;
    while k < ps.len() && !(ps[k].content_item_id == local && ps[k].pod_id == pod_id)
        invariant
            k <= ps@.len(),
            forall|j: int| 0 <= j < k ==> !projection_for(local, pod_id)(#[trigger] ps@[j]),
        decreases ps@.len() - k,
    {
        k = k + 1;
    }
    proof { lemma_first_index_at(ps@, projection_for(local, pod_id), k as int); }
    if k == ps.len() {
        return Err(validation("Placement Tombstone has no matching accepted Origin Placement"));
    }
    let expected = AcceptedPlacementProjection { content_item_id: local, pod_id, ..op };
    if ps[k] != expected {
        return Err(validation("Placement Tombstone does not match accepted Origin Placement evidence"));
    }
    let kept = unlink(&store.submission_pods, pod_id, local);
    store.submission_pods = kept;
    store.accepted_placement_projections.remove(k);
    store.placement_tombstones.push(
        PlacementTombstone { content_item_id: local, origin_placement: expected, withdrawn_at: t.withdrawn_at },
    );
    Ok(())
}

/// Writing a mapping entry keeps every key unique, and afterwards the key
/// maps to the entry written.
pub proof fn lemma_with_link_keeps_keys_unique(links: Seq<FederatedContentItemLink>, l: FederatedContentItemLink)
    requires
        keys_unique(links),
    ensures
        keys_unique(with_link(links, l)),
        first_match(with_link(links, l), federated_key(l.tenant_id, l.origin_node_id, l.origin_content_item_id)) == Some(l),
{
    let key = federated_key(l.tenant_id, l.origin_node_id, l.origin_content_item_id);
    lemma_first_index(links, key);
    let out = with_link(links, l);
    let i = first_index(links, key);
    if i >= 0 {
        assert forall|a: int, b: int| 0 <= a < b < out.len() implies !(#[trigger] out[a].tenant_id == #[trigger] out[b].tenant_id
            && out[a].origin_node_id == out[b].origin_node_id && out[a].origin_content_item_id == out[b].origin_content_item_id) by {
            if a == i {
                assert(key(links[i]));
            } else if b == i {
                assert(key(links[i]));
            }
        }
        assert forall|j: int| 0 <= j < i implies !key(#[trigger] out[j]) by {
            assert(out[j] == links[j]);
        }
        lemma_first_index_at(out, key, i);
    } else {
        assert forall|j: int| 0 <= j < links.len() implies !key(#[trigger] out[j]) by {
            assert(out[j] == links[j]);
        }
        lemma_first_index_at(out, key, links.len() as int);
    }
}

/// No two accepted-placement projections share a Content Item and Pod.
pub open spec fn projection_keys_unique(ps: Seq<AcceptedPlacementProjection>) -> bool {
    forall|i: int, j: int|
        0 <= i < j < ps.len() ==> !(#[trigger] ps[i].content_item_id == #[trigger] ps[j].content_item_id && ps[i].pod_id
            == ps[j].pod_id)
}

/// Writing a projection keeps every (Content Item, Pod) key unique, and
/// afterwards the key holds the projection written.
pub proof fn lemma_with_projection_keeps_keys_unique(ps: Seq<AcceptedPlacementProjection>, p: AcceptedPlacementProjection)
    requires
        projection_keys_unique(ps),
    ensures
        projection_keys_unique(with_projection(ps, p)),
        first_match(with_projection(ps, p), projection_for(p.content_item_id, p.pod_id)) == Some(p),
{
    let key = projection_for(p.content_item_id, p.pod_id);
    lemma_first_index(ps, key);
    let out = with_projection(ps, p);
    let i = first_index(ps, key);
    if i >= 0 {
        assert forall|a: int, b: int| 0 <= a < b < out.len() implies !(#[trigger] out[a].content_item_id
            == #[trigger] out[b].content_item_id && out[a].pod_id == out[b].pod_id) by {
            if a == i {
                assert(key(ps[i]));
            } else if b == i {
                assert(key(ps[i]));
            }
        }
        assert forall|j: int| 0 <= j < i implies !key(#[trigger] out[j]) by {
            assert(out[j] == ps[j]);
        }
        lemma_first_index_at(out, key, i);
    } else {
        assert forall|j: int| 0 <= j < ps.len() implies !key(#[trigger] out[j]) by {
            assert(out[j] == ps[j]);
        }
        lemma_first_index_at(out, key, ps.len() as int);
    }
}

/// Importing stays within the importing tenant: every Submission already
/// stored, of any tenant, is left exactly as it was, and the Content Item
/// the import maps to is a Submission of the importing tenant with the
/// imported canonical URL.
pub proof fn lemma_import_stays_in_tenant(
    before: Store,
    after: Store,
    r: Result<u128, AgentToolsError>,
    ctx: AuthContext,
    event: EventLog,
    item: Submission,
)
    requires
        item_projection(before, after, r, ctx, event, item),
    ensures
        after.submissions@.len() >= before.submissions@.len(),
        forall|j: int| 0 <= j < before.submissions@.len() ==> after.submissions@[j] == before.submissions@[j],
        r matches Ok(local) ==> exists|k: int|
            0 <= k < after.submissions@.len() && (#[trigger] after.submissions@[k]).id == local
                && after.submissions@[k].tenant_id == ctx.tenant_id && after.submissions@[k].canonical_url@ == item.canonical_url@,
{
    lemma_first_index(before.submissions@, link_of(item.canonical_url@, ctx.tenant_id));
    if r is Ok {
        let k = first_index(before.submissions@, link_of(item.canonical_url@, ctx.tenant_id));
        if k >= 0 {
            assert(after.submissions@[k] == before.submissions@[k]);
        } else {
            let last = after.submissions@.len() - 1;
            assert(after.submissions@[last] == after.submissions@.last());
        }
    }
}

} // verus!
