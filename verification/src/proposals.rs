//! Pending Proposals: sensitive changes an Agent Harness proposes and an
//! independent approver accepts or rejects before they take effect.
//!
//! A proposal records the resources it touches and a snapshot of each before
//! and after the change. It stays pending until it is decided or expires;
//! approval re-checks that the snapshots still describe the store, then
//! applies the change. A harness never decides its own proposal.
use crate::agent_tools::{audited, record_harness_write, AgentTools};
use crate::auth::{
    authorize_harness, authorize_pod_role_owner, context_harness, grant_admits, grant_admits_pod, grant_contains, grant_has,
    harness_check, harness_for_context, ids_contain, pod_owner_check,
};
use crate::error::{denies, forbidden, not_found, not_found_for, validation, yields, AgentToolsError, Denial, StoreError};
use crate::federation::peer_with_id;
use crate::harnesses::{
    capabilities_contain, check_scope_pods, confers_oversight, normalize_capabilities, normalize_pod_ids, normalized_capabilities,
    scope_pods_check, sorted_ids,
};
use crate::outside::{id_text, new_id, now_millis, parses_as_url, trim, trimmed, parse_url, uuid_text};
use crate::seqs::{
    any_match, first_index, first_match, lemma_filter_take_step, lemma_first_index, lemma_first_index_at, payloads, positions,
    sort_by_key, stable_sort,
};
use crate::store::{harness_with_id, pod_with_id, tenant_check, Store};
use crate::catalog::pack_of;
use crate::federated_import::{projection_for, without_projection};
use crate::links::{pod_link, submission_with_id, unlink, unlinked};
use crate::types::{
    opt_vec_view, AgentHarness, AgentHarnessKind, AgentHarnessModel, AuthContext, HarnessCapability, HarnessGrant, HarnessGrantModel,
    HarnessWriteOperation, PlacementTombstone, PodRole, SubmissionPod,
    PodRoleAssignment, NodeInfo, Pod, TrustLevel, TrustedPeer, User, Visibility,
};
use crate::federation::CURRENT_PROTOCOL_VERSION;
use vstd::prelude::*;

verus! {

/// Where a proposal stands.
#[derive(Clone, Copy, Debug, PartialEq, Eq, Structural)]
pub enum ProposalStatus {
    Pending,
    Accepted,
    Rejected,
    Expired,
}

/// A resource a sensitive change touches.
#[derive(Debug)]
pub enum ProposalResource {
    AgentHarness(u128),
    TrustedPeerUrl(String),
    PodRoles(u128),
    /// A Pod's visibility.
    Pod(u128),
    /// A Submission's placement in a Pod.
    SubmissionPlacement { pod_id: u128, submission_id: u128 },
}

impl Clone for ProposalResource {
    fn clone(&self) -> (res: Self)
        ensures
            res == *self,
    {
        match self {
            ProposalResource::AgentHarness(id) => ProposalResource::AgentHarness(*id),
            ProposalResource::TrustedPeerUrl(url) => ProposalResource::TrustedPeerUrl(url.clone()),
            ProposalResource::PodRoles(id) => ProposalResource::PodRoles(*id),
            ProposalResource::Pod(id) => ProposalResource::Pod(*id),
            ProposalResource::SubmissionPlacement { pod_id, submission_id } => ProposalResource::SubmissionPlacement {
                pod_id: *pod_id,
                submission_id: *submission_id,
            },
        }
    }
}

/// A change that takes effect only through an approved Pending Proposal.
#[derive(Debug)]
pub enum SensitiveChange {
    /// Widens a harness's capabilities or Pod scope.
    ExpandHarnessGrant { harness_id: u128, capabilities: Vec<HarnessCapability>, pod_ids: Option<Vec<u128>> },
    /// Trusts a federation peer.
    AddTrustedPeer { node_id: u128, display_name: String, base_url: String, public_key: String },
    /// Stops trusting a federation peer.
    RemoveTrustedPeer { peer_id: u128 },
    /// Gives a User a role in a Pod.
    GrantPodRole { pod_id: u128, user_id: u128, role: PodRole },
    /// Takes a role in a Pod from a User.
    RevokePodRole { pod_id: u128, user_id: u128, role: PodRole },
    /// Makes a Pod public.
    PublishPod { pod_id: u128 },
    /// Shows a Pod to a wider audience.
    ExpandPodVisibility { pod_id: u128, visibility: Visibility },
    /// Withdraws a Submission from a public Pod.
    RemovePublicSubmissionFromPod { pod_id: u128, submission_id: u128 },
}

/// The mathematical value of a [`SensitiveChange`].
pub enum SensitiveChangeModel {
    ExpandHarnessGrant { harness_id: u128, capabilities: Seq<HarnessCapability>, pod_ids: Option<Seq<u128>> },
    AddTrustedPeer { node_id: u128, display_name: String, base_url: String, public_key: String },
    RemoveTrustedPeer { peer_id: u128 },
    GrantPodRole { pod_id: u128, user_id: u128, role: PodRole },
    RevokePodRole { pod_id: u128, user_id: u128, role: PodRole },
    PublishPod { pod_id: u128 },
    ExpandPodVisibility { pod_id: u128, visibility: Visibility },
    RemovePublicSubmissionFromPod { pod_id: u128, submission_id: u128 },
}

impl View for SensitiveChange {
    type V = SensitiveChangeModel;

    open spec fn view(&self) -> SensitiveChangeModel {
        match *self {
            SensitiveChange::ExpandHarnessGrant { harness_id, capabilities, pod_ids } => SensitiveChangeModel::ExpandHarnessGrant {
                harness_id,
                capabilities: capabilities@,
                pod_ids: crate::types::opt_vec_view(pod_ids),
            },
            SensitiveChange::AddTrustedPeer { node_id, display_name, base_url, public_key } => SensitiveChangeModel::AddTrustedPeer {
                node_id,
                display_name,
                base_url,
                public_key,
            },
            SensitiveChange::RemoveTrustedPeer { peer_id } => SensitiveChangeModel::RemoveTrustedPeer { peer_id },
            SensitiveChange::GrantPodRole { pod_id, user_id, role } => SensitiveChangeModel::GrantPodRole { pod_id, user_id, role },
            SensitiveChange::RevokePodRole { pod_id, user_id, role } => SensitiveChangeModel::RevokePodRole { pod_id, user_id, role },
            SensitiveChange::PublishPod { pod_id } => SensitiveChangeModel::PublishPod { pod_id },
            SensitiveChange::ExpandPodVisibility { pod_id, visibility } => SensitiveChangeModel::ExpandPodVisibility { pod_id, visibility },
            SensitiveChange::RemovePublicSubmissionFromPod { pod_id, submission_id } => SensitiveChangeModel::RemovePublicSubmissionFromPod {
                pod_id,
                submission_id,
            },
        }
    }
}

pub fn clone_ids(ids: &Option<Vec<u128>>) -> (r: Option<Vec<u128>>)
    ensures
        crate::types::opt_vec_view(r) == crate::types::opt_vec_view(*ids),
{
    match ids {
        Some(v) => {
            let c = v.clone();
            assert(c@ =~= v@);
            Some(c)
        },
        None => None,
    }
}

impl Clone for SensitiveChange {
    fn clone(&self) -> (res: Self)
        ensures
            res@ == self@,
    {
        match self {
            SensitiveChange::ExpandHarnessGrant { harness_id, capabilities, pod_ids } => {
                let caps = capabilities.clone();
                assert(caps@ =~= capabilities@);
                SensitiveChange::ExpandHarnessGrant { harness_id: *harness_id, capabilities: caps, pod_ids: clone_ids(pod_ids) }
            },
            SensitiveChange::AddTrustedPeer { node_id, display_name, base_url, public_key } => SensitiveChange::AddTrustedPeer {
                node_id: *node_id,
                display_name: display_name.clone(),
                base_url: base_url.clone(),
                public_key: public_key.clone(),
            },
            SensitiveChange::RemoveTrustedPeer { peer_id } => SensitiveChange::RemoveTrustedPeer { peer_id: *peer_id },
            SensitiveChange::GrantPodRole { pod_id, user_id, role } => SensitiveChange::GrantPodRole {
                pod_id: *pod_id,
                user_id: *user_id,
                role: *role,
            },
            SensitiveChange::RevokePodRole { pod_id, user_id, role } => SensitiveChange::RevokePodRole {
                pod_id: *pod_id,
                user_id: *user_id,
                role: *role,
            },
            SensitiveChange::PublishPod { pod_id } => SensitiveChange::PublishPod { pod_id: *pod_id },
            SensitiveChange::ExpandPodVisibility { pod_id, visibility } => SensitiveChange::ExpandPodVisibility {
                pod_id: *pod_id,
                visibility: *visibility,
            },
            SensitiveChange::RemovePublicSubmissionFromPod { pod_id, submission_id } => SensitiveChange::RemovePublicSubmissionFromPod {
                pod_id: *pod_id,
                submission_id: *submission_id,
            },
        }
    }
}

/// What a resource looked like, before or after a proposed change.
#[derive(Debug)]
pub enum ResourceSnapshot {
    /// The resource does not exist.
    Absent,
    /// A harness's grant.
    Grant(HarnessGrant),
    /// A peer about to be trusted, read-only and enabled.
    NewPeer { node_id: u128, display_name: String, base_url: String, public_key: String },
    /// A trusted peer as stored.
    Peer(TrustedPeer),
    /// A Pod's role assignments, ordered by User and then role.
    Roles(Vec<PodRoleAssignment>),
    /// A Pod's visibility.
    Visibility(Visibility),
    /// Whether a Submission is placed in a Pod.
    Accepted(bool),
}

/// The mathematical value of a [`TrustedPeer`].
pub struct TrustedPeerModel {
    pub id: u128,
    pub node_id: u128,
    pub tenant_id: Option<u128>,
    pub display_name: Seq<char>,
    pub base_url: Seq<char>,
    pub public_key: Seq<char>,
    pub trust_level: TrustLevel,
    pub enabled: bool,
    pub created_at: i64,
}

pub open spec fn peer_model(p: TrustedPeer) -> TrustedPeerModel {
    TrustedPeerModel {
        id: p.id,
        node_id: p.node_id,
        tenant_id: p.tenant_id,
        display_name: p.display_name@,
        base_url: p.base_url@,
        public_key: p.public_key@,
        trust_level: p.trust_level,
        enabled: p.enabled,
        created_at: p.created_at,
    }
}

/// The mathematical value of a [`ResourceSnapshot`].
pub enum ResourceSnapshotModel {
    Absent,
    Grant(HarnessGrantModel),
    NewPeer { node_id: u128, display_name: Seq<char>, base_url: Seq<char>, public_key: Seq<char> },
    Peer(TrustedPeerModel),
    Roles(Seq<PodRoleAssignment>),
    Visibility(Visibility),
    Accepted(bool),
}

impl View for ResourceSnapshot {
    type V = ResourceSnapshotModel;

    open spec fn view(&self) -> ResourceSnapshotModel {
        match *self {
            ResourceSnapshot::Absent => ResourceSnapshotModel::Absent,
            ResourceSnapshot::Grant(g) => ResourceSnapshotModel::Grant(g@),
            ResourceSnapshot::NewPeer { node_id, display_name, base_url, public_key } => ResourceSnapshotModel::NewPeer {
                node_id,
                display_name: display_name@,
                base_url: base_url@,
                public_key: public_key@,
            },
            ResourceSnapshot::Peer(p) => ResourceSnapshotModel::Peer(peer_model(p)),
            ResourceSnapshot::Roles(r) => ResourceSnapshotModel::Roles(r@),
            ResourceSnapshot::Visibility(v) => ResourceSnapshotModel::Visibility(v),
            ResourceSnapshot::Accepted(b) => ResourceSnapshotModel::Accepted(b),
        }
    }
}

impl Clone for ResourceSnapshot {
    fn clone(&self) -> (res: Self)
        ensures
            res@ == self@,
    {
        match self {
            ResourceSnapshot::Absent => ResourceSnapshot::Absent,
            ResourceSnapshot::Grant(g) => ResourceSnapshot::Grant(g.clone()),
            ResourceSnapshot::NewPeer { node_id, display_name, base_url, public_key } => ResourceSnapshot::NewPeer {
                node_id: *node_id,
                display_name: display_name.clone(),
                base_url: base_url.clone(),
                public_key: public_key.clone(),
            },
            ResourceSnapshot::Peer(p) => ResourceSnapshot::Peer(p.clone()),
            ResourceSnapshot::Roles(r) => {
                let c = r.clone();
                assert(c@ =~= r@);
                ResourceSnapshot::Roles(c)
            },
            ResourceSnapshot::Visibility(v) => ResourceSnapshot::Visibility(*v),
            ResourceSnapshot::Accepted(b) => ResourceSnapshot::Accepted(*b),
        }
    }
}

/// One touched resource, before and after the change.
#[derive(Debug)]
pub struct ProposalResourceDiff {
    pub resource: ProposalResource,
    pub before: ResourceSnapshot,
    pub after: ResourceSnapshot,
}

/// The mathematical value of a [`ProposalResourceDiff`].
pub struct ProposalResourceDiffModel {
    pub resource: ProposalResource,
    pub before: ResourceSnapshotModel,
    pub after: ResourceSnapshotModel,
}

impl View for ProposalResourceDiff {
    type V = ProposalResourceDiffModel;

    open spec fn view(&self) -> ProposalResourceDiffModel {
        ProposalResourceDiffModel { resource: self.resource, before: self.before@, after: self.after@ }
    }
}

impl Clone for ProposalResourceDiff {
    fn clone(&self) -> (res: Self)
        ensures
            res@ == self@,
    {
        ProposalResourceDiff { resource: self.resource.clone(), before: self.before.clone(), after: self.after.clone() }
    }
}

/// Who decided a proposal.
#[derive(Clone, Copy, Debug, PartialEq, Eq, Structural)]
pub enum ProposalDecisionActor {
    /// The proposal's User, acting without a harness.
    Owner { owner_user_id: u128 },
    /// An independent interactive harness of the proposal's User.
    Harness(u128),
}

/// A sensitive change awaiting an independent decision.
#[derive(Debug)]
pub struct PendingProposal {
    pub id: u128,
    pub requested_change: SensitiveChange,
    pub affected_resources: Vec<ProposalResource>,
    pub expected_consequences: Vec<String>,
    pub structured_diff: Vec<ProposalResourceDiff>,
    pub proposer: u128,
    pub user_id: u128,
    pub tenant_id: Option<u128>,
    pub created_at: i64,
    pub expires_at: i64,
    pub status: ProposalStatus,
    pub decided_by: Option<ProposalDecisionActor>,
    pub decided_at: Option<i64>,
    pub rejection_reason: Option<String>,
}

pub open spec fn diff_view() -> spec_fn(ProposalResourceDiff) -> ProposalResourceDiffModel {
    |d: ProposalResourceDiff| d@
}

/// The mathematical value of a [`PendingProposal`].
pub struct PendingProposalModel {
    pub id: u128,
    pub requested_change: SensitiveChangeModel,
    pub affected_resources: Seq<ProposalResource>,
    pub expected_consequences: Seq<Seq<char>>,
    pub structured_diff: Seq<ProposalResourceDiffModel>,
    pub proposer: u128,
    pub user_id: u128,
    pub tenant_id: Option<u128>,
    pub created_at: i64,
    pub expires_at: i64,
    pub status: ProposalStatus,
    pub decided_by: Option<ProposalDecisionActor>,
    pub decided_at: Option<i64>,
    pub rejection_reason: Option<String>,
}

impl View for PendingProposal {
    type V = PendingProposalModel;

    open spec fn view(&self) -> PendingProposalModel {
        PendingProposalModel {
            id: self.id,
            requested_change: self.requested_change@,
            affected_resources: self.affected_resources@,
            expected_consequences: self.expected_consequences@.map_values(|c: String| c@),
            structured_diff: self.structured_diff@.map_values(diff_view()),
            proposer: self.proposer,
            user_id: self.user_id,
            tenant_id: self.tenant_id,
            created_at: self.created_at,
            expires_at: self.expires_at,
            status: self.status,
            decided_by: self.decided_by,
            decided_at: self.decided_at,
            rejection_reason: self.rejection_reason,
        }
    }
}

pub fn clone_diffs(diffs: &Vec<ProposalResourceDiff>) -> (r: Vec<ProposalResourceDiff>)
    ensures
        r@.map_values(diff_view()) == diffs@.map_values(diff_view()),
{
    let mut r: Vec<ProposalResourceDiff> = Vec::new();
    let mut i: usize = 0;
    while i < diffs.len()
        invariant
            i <= diffs@.len(),
            r@.map_values(diff_view()) == diffs@.take(i as int).map_values(diff_view()),
        decreases diffs@.len() - i,
    {
        let ghost before = r@;
        let d = diffs[i].clone();
        r.push(d);
        assert(diffs@.take(i + 1) =~= diffs@.take(i as int).push(diffs@[i as int]));
        assert(r@ =~= before.push(d));
        assert(r@.map_values(diff_view()) =~= before.map_values(diff_view()).push(d@));
        assert(diffs@.take(i + 1).map_values(diff_view()) =~= diffs@.take(i as int).map_values(diff_view()).push(diffs@[i as int]@));
        i = i + 1;
    }
    assert(diffs@.take(diffs@.len() as int) =~= diffs@);
    r
}

impl Clone for PendingProposal {
    fn clone(&self) -> (res: Self)
        ensures
            res@ == self@,
    {
        let affected_resources = self.affected_resources.clone();
        assert(affected_resources@ =~= self.affected_resources@);
        let expected_consequences = self.expected_consequences.clone();
        assert(expected_consequences@ =~= self.expected_consequences@);
        let rejection_reason = match &self.rejection_reason {
            Some(r) => Some(r.clone()),
            None => None,
        };
        PendingProposal {
            id: self.id,
            requested_change: self.requested_change.clone(),
            affected_resources,
            expected_consequences,
            structured_diff: clone_diffs(&self.structured_diff),
            proposer: self.proposer,
            user_id: self.user_id,
            tenant_id: self.tenant_id,
            created_at: self.created_at,
            expires_at: self.expires_at,
            status: self.status,
            decided_by: self.decided_by,
            decided_at: self.decided_at,
            rejection_reason,
        }
    }
}

/// The order of roles within one User's assignments.
pub open spec fn role_rank(r: PodRole) -> int {
    match r {
        PodRole::Owner => 0,
        PodRole::Curator => 1,
    }
}

/// Assignments ordered by User, then role.
pub open spec fn role_key_le(a: PodRoleAssignment, b: PodRoleAssignment) -> bool {
    a.user_id < b.user_id || (a.user_id == b.user_id && role_rank(a.role) <= role_rank(b.role))
}

pub open spec fn role_exceeds(x: PodRoleAssignment) -> spec_fn(PodRoleAssignment) -> bool {
    |e: PodRoleAssignment| !role_key_le(e, x)
}

/// Inserts `x` after every assignment that does not sort after it.
pub open spec fn role_insert(s: Seq<PodRoleAssignment>, x: PodRoleAssignment) -> Seq<PodRoleAssignment> {
    let i = first_index(s, role_exceeds(x));
    let pos = if i < 0 {
        s.len() as int
    } else {
        i
    };
    s.take(pos).push(x) + s.skip(pos)
}

/// The stable sort of assignments by User, then role.
pub open spec fn sorted_roles(s: Seq<PodRoleAssignment>) -> Seq<PodRoleAssignment>
    decreases s.len(),
{
    if s.len() == 0 {
        s
    } else {
        role_insert(sorted_roles(s.drop_last()), s.last())
    }
}

pub open spec fn role_in_pod(pod_id: u128) -> spec_fn(PodRoleAssignment) -> bool {
    |a: PodRoleAssignment| a.pod_id == pod_id
}

/// A Pod's role assignments, ordered by User and then role.
pub open spec fn roles_value(roles: Seq<PodRoleAssignment>, pod_id: u128) -> Seq<PodRoleAssignment> {
    sorted_roles(roles.filter(role_in_pod(pod_id)))
}

fn rank_of(r: PodRole) -> (n: u8)
    ensures
        n == role_rank(r),
{
    match r {
        PodRole::Owner => 0,
        PodRole::Curator => 1,
    }
}

/// A Pod's role assignments, ordered by User and then role.
pub fn pod_roles_value(roles: &Vec<PodRoleAssignment>, pod_id: u128) -> (r: Vec<PodRoleAssignment>)
    ensures
        r@ == roles_value(roles@, pod_id),
{
    let ghost p = role_in_pod(pod_id);
    let mut kept: Vec<PodRoleAssignment> = Vec::new();
    let mut i: usize = 0;
    while i < roles.len()
        invariant
            p == role_in_pod(pod_id),
            i <= roles@.len(),
            kept@ == roles@.take(i as int).filter(p),
        decreases roles@.len() - i,
    {
        proof { lemma_filter_take_step(roles@, p, i as int); }
        if roles[i].pod_id == pod_id {
            kept.push(roles[i]);
        }
        i = i + 1;
    }
    assert(roles@.take(roles@.len() as int) =~= roles@);
    let mut out: Vec<PodRoleAssignment> = Vec::new();
    let mut k: usize = 0;
    assert(kept@.take(0) =~= Seq::<PodRoleAssignment>::empty());
    while k < kept.len()
        invariant
            k <= kept@.len(),
            out@ == sorted_roles(kept@.take(k as int)),
        decreases kept@.len() - k,
    {
        let x = kept[k];
        let xr = rank_of(x.role);
        let mut pos: usize = 0;
        while pos < out.len() && (out[pos].user_id < x.user_id || (out[pos].user_id == x.user_id && rank_of(out[pos].role) <= xr))
            invariant
                pos <= out@.len(),
                xr == role_rank(x.role),
                forall|j: int| 0 <= j < pos ==> !role_exceeds(x)(#[trigger] out@[j]),
            decreases out@.len() - pos,
        {
            pos = pos + 1;
        }
        proof {
            lemma_first_index_at(out@, role_exceeds(x), pos as int);
            assert(kept@.take(k + 1).drop_last() =~= kept@.take(k as int));
            assert(kept@.take(k + 1).last() == x);
        }
        let ghost before = out@;
        out.insert(pos, x);
        assert(out@ =~= before.take(pos as int).push(x) + before.skip(pos as int));
        k = k + 1;
    }
    assert(kept@.take(kept@.len() as int) =~= kept@);
    out
}

/// What a valid proposal records: the resources touched, the expected
/// consequences, and each resource before and after.
pub struct ProposalPlan {
    pub resources: Seq<ProposalResource>,
    pub consequences: Seq<Seq<char>>,
    pub diff: Seq<ProposalResourceDiffModel>,
}

/// The plan of a change that touches one resource.
pub open spec fn one_resource_plan(
    resource: ProposalResource,
    consequence: Seq<char>,
    before: ResourceSnapshotModel,
    after: ResourceSnapshotModel,
) -> ProposalPlan {
    ProposalPlan {
        resources: seq![resource],
        consequences: seq![consequence],
        diff: seq![ProposalResourceDiffModel { resource, before, after }],
    }
}

/// Whether every identifier of `c` is one of `r`.
pub open spec fn ids_within(c: Seq<u128>, r: Seq<u128>) -> bool {
    forall|i: int| 0 <= i < c.len() ==> r.contains(#[trigger] c[i])
}

/// Whether a requested Pod scope is at least as wide as the current one.
pub open spec fn scope_widens(current: Option<Seq<u128>>, requested: Option<Seq<u128>>) -> bool {
    match requested {
        None => true,
        Some(r) => match current {
            None => false,
            Some(c) => ids_within(c, r),
        },
    }
}

/// Widening a Pod scope keeps every Pod of it. Any request that keeps all
/// current Pods, adding others, widens the scope, and so does asking for the
/// same scope again; a request that drops a current Pod does not; a request
/// for all Pods widens any scope, and a limited request never widens an
/// unlimited one.
pub proof fn lemma_scope_widening_keeps_every_pod(c: Seq<u128>, extra: Seq<u128>, r: Seq<u128>, x: u128)
    ensures
        scope_widens(Some(c), Some(c + extra)),
        scope_widens(Some(c), Some(extra + c)),
        scope_widens(Some(c), Some(c)),
        (forall|i: int| 0 <= i < c.len() ==> r.contains(#[trigger] c[i])) ==> scope_widens(Some(c), Some(r)),
        c.contains(x) && !r.contains(x) ==> !scope_widens(Some(c), Some(r)),
        scope_widens(Some(c), None),
        !scope_widens(None, Some(r)),
{
    assert forall|i: int| 0 <= i < c.len() implies (c + extra).contains(#[trigger] c[i]) by {
        assert((c + extra)[i] == c[i]);
    }
    assert forall|i: int| 0 <= i < c.len() implies (extra + c).contains(#[trigger] c[i]) by {
        assert((extra + c)[extra.len() + i] == c[i]);
    }
    assert forall|i: int| 0 <= i < c.len() implies c.contains(#[trigger] c[i]) by {}
    if c.contains(x) && !r.contains(x) {
        let k = choose|k: int| 0 <= k < c.len() && c[k] == x;
        assert(!r.contains(c[k]));
    }
}

/// Whether every current capability is still requested.
pub open spec fn keeps_capabilities(current: Seq<HarnessCapability>, requested: Seq<HarnessCapability>) -> bool {
    forall|i: int| 0 <= i < current.len() ==> requested.contains(#[trigger] current[i])
}

pub open spec fn opt_sorted_ids(ids: Option<Seq<u128>>) -> Option<Seq<u128>> {
    match ids {
        None => None,
        Some(s) => Some(sorted_ids(s)),
    }
}

/// Expanding a harness's grant: administration authority, a harness of the
/// tenant, an existing scope of the tenant, and a strict widening that gives
/// an unattended harness no oversight authority.
pub open spec fn grant_expansion_plan(
    s: Store,
    ctx: AuthContext,
    harness_id: u128,
    capabilities: Seq<HarnessCapability>,
    pod_ids: Option<Seq<u128>>,
) -> Result<ProposalPlan, Denial> {
    let caps = normalized_capabilities(capabilities);
    match harness_check(s, ctx, HarnessCapability::Administration, None) {
        Err(d) => Err(d),
        Ok(()) => match first_match(s.agent_harnesses@, harness_with_id(harness_id)) {
            None => Err(Denial::NotFound("Agent Harness "@ + uuid_text(harness_id))),
            Some(t) => match tenant_check(t.tenant_id, ctx.tenant_id) {
                Err(d) => Err(d),
                Ok(()) => if pod_ids is Some && scope_pods_check(s, pod_ids->0, ctx.tenant_id) is Err {
                    Err(scope_pods_check(s, pod_ids->0, ctx.tenant_id)->Err_0)
                } else if !keeps_capabilities(t.grant@.capabilities, caps) || !scope_widens(t.grant@.pod_ids, pod_ids) {
                    Err(Denial::Validation("sensitive grant change must only expand authority"@))
                } else if t.kind == AgentHarnessKind::Unattended && confers_oversight(caps) {
                    Err(Denial::Forbidden("unattended harnesses cannot receive administration or approval"@))
                } else {
                    Ok(one_resource_plan(
                        ProposalResource::AgentHarness(harness_id),
                        "The Harness Grant gains additional authority for future requests."@,
                        ResourceSnapshotModel::Grant(t.grant@),
                        ResourceSnapshotModel::Grant(HarnessGrantModel { capabilities: caps, pod_ids: opt_sorted_ids(pod_ids) }),
                    ))
                },
            },
        },
    }
}

/// Expanding a harness's grant never narrows its Pod scope: a request that
/// drops a Pod the harness holds is refused, both when it is proposed and
/// when it is approved.
pub proof fn lemma_grant_expansion_never_drops_a_pod(
    s: Store,
    ctx: AuthContext,
    harness_id: u128,
    capabilities: Seq<HarnessCapability>,
    t: AgentHarness,
    current: Seq<u128>,
    requested: Seq<u128>,
    x: u128,
)
    requires
        first_match(s.agent_harnesses@, harness_with_id(harness_id)) == Some(t),
        t.grant@.pod_ids == Some(current),
        current.contains(x),
        !requested.contains(x),
    ensures
        grant_expansion_plan(s, ctx, harness_id, capabilities, Some(requested)) is Err,
        apply_check(
            s,
            ctx,
            SensitiveChangeModel::ExpandHarnessGrant { harness_id, capabilities, pod_ids: Some(requested) },
        ) is Err,
{
    lemma_scope_widening_keeps_every_pod(current, Seq::empty(), requested, x);
}

/// With authority, a harness of the tenant, Pods of the tenant, every
/// current capability kept and no oversight for an unattended harness, a
/// request for the harness's current Pods plus others is proposed, recording
/// the grant widened to that scope.
pub proof fn lemma_grant_expansion_accepts_added_pods(
    s: Store,
    ctx: AuthContext,
    harness_id: u128,
    capabilities: Seq<HarnessCapability>,
    t: AgentHarness,
    current: Seq<u128>,
    extra: Seq<u128>,
)
    requires
        harness_check(s, ctx, HarnessCapability::Administration, None) is Ok,
        first_match(s.agent_harnesses@, harness_with_id(harness_id)) == Some(t),
        tenant_check(t.tenant_id, ctx.tenant_id) is Ok,
        t.grant@.pod_ids == Some(current),
        scope_pods_check(s, current + extra, ctx.tenant_id) is Ok,
        keeps_capabilities(t.grant@.capabilities, normalized_capabilities(capabilities)),
        !(t.kind == AgentHarnessKind::Unattended && confers_oversight(normalized_capabilities(capabilities))),
    ensures
        grant_expansion_plan(s, ctx, harness_id, capabilities, Some(current + extra)) matches Ok(plan) && plan.diff == seq![
            ProposalResourceDiffModel {
                resource: ProposalResource::AgentHarness(harness_id),
                before: ResourceSnapshotModel::Grant(t.grant@),
                after: ResourceSnapshotModel::Grant(
                    HarnessGrantModel {
                        capabilities: normalized_capabilities(capabilities),
                        pod_ids: Some(sorted_ids(current + extra)),
                    },
                ),
            },
        ],
{
    lemma_scope_widening_keeps_every_pod(current, extra, current, 0);
}

/// A stored peer that a new peer would duplicate within the tenant: the same
/// URL, or the same (non-nil) node.
pub open spec fn peer_conflict(tenant_id: Option<u128>, base_url: Seq<char>, node_id: u128) -> spec_fn(TrustedPeer) -> bool {
    |p: TrustedPeer| p.tenant_id == tenant_id && (p.base_url@ == base_url || (node_id != 0 && p.node_id == node_id))
}

/// Trusting a new peer: administration authority, a non-blank name and key,
/// a parseable URL, and no duplicate within the tenant.
pub open spec fn add_peer_plan(
    s: Store,
    ctx: AuthContext,
    node_id: u128,
    display_name: String,
    base_url: String,
    public_key: String,
) -> Result<ProposalPlan, Denial> {
    match harness_check(s, ctx, HarnessCapability::Administration, None) {
        Err(d) => Err(d),
        Ok(()) => if trimmed(display_name@).len() == 0 || trimmed(public_key@).len() == 0 || !parses_as_url(base_url@) {
            Err(Denial::Validation("trusted peer name, URL, and public key must be valid"@))
        } else if any_match(s.trusted_peers@, peer_conflict(ctx.tenant_id, base_url@, node_id)) {
            Err(Denial::Duplicate("trusted peer "@ + base_url@))
        } else {
            Ok(one_resource_plan(
                ProposalResource::TrustedPeerUrl(base_url),
                "The Home Node will trust signed public data from this peer."@,
                ResourceSnapshotModel::Absent,
                ResourceSnapshotModel::NewPeer {
                    node_id,
                    display_name: display_name@,
                    base_url: base_url@,
                    public_key: public_key@,
                },
            ))
        },
    }
}

/// Distrusting a peer: administration authority and an enabled peer of the tenant.
pub open spec fn remove_peer_plan(s: Store, ctx: AuthContext, peer_id: u128) -> Result<ProposalPlan, Denial> {
    match harness_check(s, ctx, HarnessCapability::Administration, None) {
        Err(d) => Err(d),
        Ok(()) => match first_match(s.trusted_peers@, peer_with_id(peer_id)) {
            None => Err(Denial::NotFound("trusted peer "@ + uuid_text(peer_id))),
            Some(p) => match tenant_check(p.tenant_id, ctx.tenant_id) {
                Err(d) => Err(d),
                Ok(()) => if !p.enabled {
                    Err(Denial::Validation("trusted peer is already disabled"@))
                } else {
                    Ok(one_resource_plan(
                        ProposalResource::TrustedPeerUrl(p.base_url),
                        "The peer can no longer exchange signed public discovery data with this Home Node."@,
                        ResourceSnapshotModel::Peer(peer_model(p)),
                        ResourceSnapshotModel::Peer(TrustedPeerModel { enabled: false, ..peer_model(p) }),
                    ))
                },
            },
        },
    }
}

pub open spec fn user_with_id(id: u128) -> spec_fn(User) -> bool {
    |u: User| u.id == id
}

pub open spec fn exact_role(pod_id: u128, user_id: u128, role: PodRole) -> spec_fn(PodRoleAssignment) -> bool {
    |a: PodRoleAssignment| a.pod_id == pod_id && a.user_id == user_id && a.role == role
}

pub open spec fn pod_owner_role(pod_id: u128) -> spec_fn(PodRoleAssignment) -> bool {
    |a: PodRoleAssignment| a.pod_id == pod_id && a.role == PodRole::Owner
}

pub open spec fn not_user_in_pod(pod_id: u128, user_id: u128) -> spec_fn(PodRoleAssignment) -> bool {
    |a: PodRoleAssignment| a.pod_id != pod_id || a.user_id != user_id
}

pub open spec fn differs_from(x: PodRoleAssignment) -> spec_fn(PodRoleAssignment) -> bool {
    |a: PodRoleAssignment| a != x
}

/// How many Owners a Pod has.
pub open spec fn owner_count(roles: Seq<PodRoleAssignment>, pod_id: u128) -> nat {
    roles.filter(pod_owner_role(pod_id)).len()
}

/// The role assignments after giving `user_id` exactly `role` in the Pod at `now`.
pub open spec fn roles_with_grant(roles: Seq<PodRoleAssignment>, pod_id: u128, user_id: u128, role: PodRole, now: i64) -> Seq<
    PodRoleAssignment,
> {
    roles.filter(not_user_in_pod(pod_id, user_id)).push(PodRoleAssignment { user_id, pod_id, role, created_at: now })
}

/// Giving a User a role: the caller owns the Pod, the User exists, does not
/// already hold the role, and is not the last Owner being demoted.
pub open spec fn grant_role_plan(s: Store, ctx: AuthContext, pod_id: u128, user_id: u128, role: PodRole, now: i64) -> Result<
    ProposalPlan,
    Denial,
> {
    match pod_owner_check(s, ctx, pod_id) {
        Err(d) => Err(d),
        Ok(()) => if !any_match(s.users@, user_with_id(user_id)) {
            Err(Denial::NotFound("User "@ + uuid_text(user_id)))
        } else if any_match(s.pod_roles@, exact_role(pod_id, user_id, role)) {
            Err(Denial::Duplicate("Pod Role for User "@ + uuid_text(user_id)))
        } else if role != PodRole::Owner && any_match(s.pod_roles@, exact_role(pod_id, user_id, PodRole::Owner))
            && owner_count(s.pod_roles@, pod_id) == 1 {
            Err(Denial::Validation("cannot replace the last Pod Owner"@))
        } else {
            Ok(one_resource_plan(
                ProposalResource::PodRoles(pod_id),
                "The User gains explicit authority over this Pod."@,
                ResourceSnapshotModel::Roles(roles_value(s.pod_roles@, pod_id)),
                ResourceSnapshotModel::Roles(roles_value(roles_with_grant(s.pod_roles@, pod_id, user_id, role, now), pod_id)),
            ))
        },
    }
}

/// Taking a role from a User: the caller owns the Pod, the User holds the
/// role, and it is not the last Owner.
pub open spec fn revoke_role_plan(s: Store, ctx: AuthContext, pod_id: u128, user_id: u128, role: PodRole) -> Result<
    ProposalPlan,
    Denial,
> {
    match pod_owner_check(s, ctx, pod_id) {
        Err(d) => Err(d),
        Ok(()) => match first_match(s.pod_roles@, exact_role(pod_id, user_id, role)) {
            None => Err(Denial::NotFound("Pod Role for User "@ + uuid_text(user_id))),
            Some(a) => if a.role == PodRole::Owner && owner_count(s.pod_roles@, pod_id) == 1 {
                Err(Denial::Validation("cannot revoke the last Pod Owner"@))
            } else {
                Ok(one_resource_plan(
                    ProposalResource::PodRoles(pod_id),
                    "The User loses explicit authority over this Pod."@,
                    ResourceSnapshotModel::Roles(roles_value(s.pod_roles@, pod_id)),
                    ResourceSnapshotModel::Roles(roles_value(s.pod_roles@.filter(differs_from(a)), pod_id)),
                ))
            },
        },
    }
}

/// How widely a visibility exposes a Pod: private, then invite-only, then public.
pub open spec fn visibility_exposure(v: Visibility) -> int {
    match v {
        Visibility::Private => 0,
        Visibility::InviteOnly => 1,
        Visibility::Public => 2,
    }
}

/// Publishing a Pod: curation authority over it, a Pod of the tenant that is
/// not public yet.
pub open spec fn publish_plan(s: Store, ctx: AuthContext, pod_id: u128) -> Result<ProposalPlan, Denial> {
    match harness_check(s, ctx, HarnessCapability::PodCuration, Some(pod_id)) {
        Err(d) => Err(d),
        Ok(()) => match first_match(s.pods@, pod_with_id(pod_id)) {
            None => Err(Denial::NotFound("pod "@ + uuid_text(pod_id))),
            Some(p) => match tenant_check(p.tenant_id, ctx.tenant_id) {
                Err(d) => Err(d),
                Ok(()) => if p.visibility == Visibility::Public {
                    Err(Denial::Validation("Pod is already public"@))
                } else {
                    Ok(one_resource_plan(
                        ProposalResource::Pod(pod_id),
                        "The Pod and its signed public events become available through federation and Explore surfaces."@,
                        ResourceSnapshotModel::Visibility(p.visibility),
                        ResourceSnapshotModel::Visibility(Visibility::Public),
                    ))
                },
            },
        },
    }
}

/// Widening who sees a Pod: the caller owns the Pod, a Pod of the tenant, and
/// a visibility that exposes it more than it is now.
pub open spec fn expand_visibility_plan(s: Store, ctx: AuthContext, pod_id: u128, visibility: Visibility) -> Result<
    ProposalPlan,
    Denial,
> {
    match pod_owner_check(s, ctx, pod_id) {
        Err(d) => Err(d),
        Ok(()) => match first_match(s.pods@, pod_with_id(pod_id)) {
            None => Err(Denial::NotFound("pod "@ + uuid_text(pod_id))),
            Some(p) => match tenant_check(p.tenant_id, ctx.tenant_id) {
                Err(d) => Err(d),
                Ok(()) => if visibility_exposure(visibility) <= visibility_exposure(p.visibility) {
                    Err(Denial::Validation("Pending Proposals only apply to visibility expansion"@))
                } else {
                    Ok(one_resource_plan(
                        ProposalResource::Pod(pod_id),
                        "The Pod becomes visible to a broader audience."@,
                        ResourceSnapshotModel::Visibility(p.visibility),
                        ResourceSnapshotModel::Visibility(visibility),
                    ))
                },
            },
        },
    }
}

/// Withdrawing a Submission from a public Pod: curation authority over the
/// Pod, a public Pod of the tenant, and the Submission placed in it.
pub open spec fn public_removal_plan(s: Store, ctx: AuthContext, pod_id: u128, submission_id: u128) -> Result<ProposalPlan, Denial> {
    match harness_check(s, ctx, HarnessCapability::PodCuration, Some(pod_id)) {
        Err(d) => Err(d),
        Ok(()) => match first_match(s.pods@, pod_with_id(pod_id)) {
            None => Err(Denial::NotFound("pod "@ + uuid_text(pod_id))),
            Some(p) => match tenant_check(p.tenant_id, ctx.tenant_id) {
                Err(d) => Err(d),
                Ok(()) => if p.visibility != Visibility::Public {
                    Err(Denial::Validation("this proposal type requires a public Pod"@))
                } else if !any_match(s.submission_pods@, pod_link(pod_id, submission_id)) {
                    Err(Denial::NotFound("submission "@ + uuid_text(submission_id) + " in pod "@ + p.slug@))
                } else {
                    Ok(one_resource_plan(
                        ProposalResource::SubmissionPlacement { pod_id, submission_id },
                        "The public Pod Placement is withdrawn from future federation and discovery."@,
                        ResourceSnapshotModel::Accepted(true),
                        ResourceSnapshotModel::Accepted(false),
                    ))
                },
            },
        },
    }
}

/// What proposing `change` at `now` records, or why it is refused.
pub open spec fn change_plan(s: Store, ctx: AuthContext, change: SensitiveChangeModel, now: i64) -> Result<ProposalPlan, Denial> {
    match change {
        SensitiveChangeModel::ExpandHarnessGrant { harness_id, capabilities, pod_ids } => grant_expansion_plan(
            s,
            ctx,
            harness_id,
            capabilities,
            pod_ids,
        ),
        SensitiveChangeModel::AddTrustedPeer { node_id, display_name, base_url, public_key } => add_peer_plan(
            s,
            ctx,
            node_id,
            display_name,
            base_url,
            public_key,
        ),
        SensitiveChangeModel::RemoveTrustedPeer { peer_id } => remove_peer_plan(s, ctx, peer_id),
        SensitiveChangeModel::GrantPodRole { pod_id, user_id, role } => grant_role_plan(s, ctx, pod_id, user_id, role, now),
        SensitiveChangeModel::RevokePodRole { pod_id, user_id, role } => revoke_role_plan(s, ctx, pod_id, user_id, role),
        SensitiveChangeModel::PublishPod { pod_id } => publish_plan(s, ctx, pod_id),
        SensitiveChangeModel::ExpandPodVisibility { pod_id, visibility } => expand_visibility_plan(s, ctx, pod_id, visibility),
        SensitiveChangeModel::RemovePublicSubmissionFromPod { pod_id, submission_id } => public_removal_plan(
            s,
            ctx,
            pod_id,
            submission_id,
        ),
    }
}

/// The longest a proposal may stay open: seven days, in milliseconds.
pub open spec fn max_proposal_lifetime() -> int {
    604_800_000
}

/// Who may propose, yielding the proposing harness: an authenticated harness,
/// with an expiry after `now` and within seven days.
pub open spec fn proposer_check(s: Store, ctx: AuthContext, now: i64, expires_at: i64) -> Result<AgentHarness, Denial> {
    match ctx.harness_id {
        None => Err(Denial::Forbidden("Pending Proposals require an authenticated Agent Harness"@)),
        Some(_) => match context_harness(s, ctx) {
            Err(d) => Err(d),
            Ok(None) => Err(Denial::Forbidden("Pending Proposals require an authenticated Agent Harness"@)),
            Ok(Some(h)) => if expires_at <= now || expires_at > now + max_proposal_lifetime() {
                Err(Denial::Validation("Pending Proposal expiry must be within seven days"@))
            } else {
                Ok(h)
            },
        },
    }
}

/// The exec form of a plan: resources, consequences and the diff.
pub type PlanParts = (Vec<ProposalResource>, Vec<String>, Vec<ProposalResourceDiff>);

pub open spec fn parts_are(parts: PlanParts, plan: ProposalPlan) -> bool {
    &&& parts.0@ == plan.resources
    &&& parts.1@.map_values(|c: String| c@) == plan.consequences
    &&& parts.2@.map_values(diff_view()) == plan.diff
}

/// The parts of a plan touching one resource.
fn one_resource_parts(resource: ProposalResource, consequence: &str, before: ResourceSnapshot, after: ResourceSnapshot) -> (parts: PlanParts)
    ensures
        parts_are(parts, one_resource_plan(resource, consequence@, before@, after@)),
{
    let diff = ProposalResourceDiff { resource: resource.clone(), before, after };
    let resources = vec![resource];
    let consequences = vec![String::from_str(consequence)];
    let diffs = vec![diff];
    let ghost plan = one_resource_plan(resource, consequence@, before@, after@);
    assert(resources@ =~= plan.resources);
    assert(consequences@.map_values(|c: String| c@) =~= plan.consequences);
    assert(diffs@.map_values(diff_view()) =~= plan.diff);
    (resources, consequences, diffs)
}

fn keeps_all(current: &Vec<HarnessCapability>, requested: &Vec<HarnessCapability>) -> (b: bool)
    ensures
        b == keeps_capabilities(current@, requested@),
{
    let mut i: usize = 0;
    while i < current.len()
        invariant
            i <= current@.len(),
            forall|j: int| 0 <= j < i ==> requested@.contains(#[trigger] current@[j]),
        decreases current@.len() - i,
    {
        if !capabilities_contain(requested, current[i]) {
            return false;
        }
        i = i + 1;
    }
    true
}

fn grant_scope_expands(current: &Option<Vec<u128>>, requested: &Option<Vec<u128>>) -> (b: bool)
    ensures
        b == scope_widens(opt_vec_view(*current), opt_vec_view(*requested)),
{
    let r = match requested {
        None => return true,
        Some(r) => r,
    };
    let c = match current {
        None => return false,
        Some(c) => c,
    };
    let mut i: usize = 0;
    while i < c.len()
        invariant
            i <= c@.len(),
            opt_vec_view(*current) == Some(c@),
            opt_vec_view(*requested) == Some(r@),
            forall|j: int| 0 <= j < i ==> r@.contains(#[trigger] c@[j]),
        decreases c@.len() - i,
    {
        if !ids_contain(r, c[i]) {
            assert(!r@.contains(c@[i as int]));
            assert(!ids_within(c@, r@));
            return false;
        }
        i = i + 1;
    }
    true
}

/// Plans expanding a harness's grant.
pub fn plan_grant_expansion(
    store: &Store,
    ctx: &AuthContext,
    harness_id: u128,
    capabilities: &Vec<HarnessCapability>,
    pod_ids: &Option<Vec<u128>>,
) -> (r: Result<PlanParts, AgentToolsError>)
    ensures
        match grant_expansion_plan(*store, *ctx, harness_id, capabilities@, opt_vec_view(*pod_ids)) {
            Err(d) => r matches Err(e) && denies(e, d),
            Ok(plan) => r matches Ok(parts) && parts_are(parts, plan),
        },
{
    authorize_harness(store, ctx, HarnessCapability::Administration, None)?;
    let index = match store.find_harness(harness_id) {
        Some(i) => i,
        None => return Err(not_found_for("Agent Harness ", harness_id)),
    };
    let target = &store.agent_harnesses[index];
    store.assert_tenant(target.tenant_id, ctx.tenant_id)?;
    if let Some(ids) = pod_ids {
        check_scope_pods(store, ids, ctx.tenant_id)?;
    }
    let requested = capabilities.clone();
    assert(requested@ =~= capabilities@);
    let caps = normalize_capabilities(requested);
    if !keeps_all(&target.grant.capabilities, &caps) || !grant_scope_expands(&target.grant.pod_ids, pod_ids) {
        return Err(validation("sensitive grant change must only expand authority"));
    }
    let oversight = capabilities_contain(&caps, HarnessCapability::Administration)
        || capabilities_contain(&caps, HarnessCapability::Approval);
    if target.kind == AgentHarnessKind::Unattended && oversight {
        return Err(forbidden("unattended harnesses cannot receive administration or approval"));
    }
    let scope = match pod_ids {
        Some(ids) => {
            let copy = ids.clone();
            assert(copy@ =~= ids@);
            Some(normalize_pod_ids(copy))
        },
        None => None,
    };
    let after = HarnessGrant { capabilities: caps, pod_ids: scope };
    Ok(one_resource_parts(
        ProposalResource::AgentHarness(harness_id),
        "The Harness Grant gains additional authority for future requests.",
        ResourceSnapshot::Grant(target.grant.clone()),
        ResourceSnapshot::Grant(after),
    ))
}

/// Plans trusting a new peer.
pub fn plan_add_peer(
    store: &Store,
    ctx: &AuthContext,
    node_id: u128,
    display_name: &String,
    base_url: &String,
    public_key: &String,
) -> (r: Result<PlanParts, AgentToolsError>)
    ensures
        match add_peer_plan(*store, *ctx, node_id, *display_name, *base_url, *public_key) {
            Err(d) => r matches Err(e) && denies(e, d),
            Ok(plan) => r matches Ok(parts) && parts_are(parts, plan),
        },
{
    authorize_harness(store, ctx, HarnessCapability::Administration, None)?;
    if trim(display_name.as_str()).unicode_len() == 0 || trim(public_key.as_str()).unicode_len() == 0
        || parse_url(base_url.as_str()).is_err() {
        return Err(validation("trusted peer name, URL, and public key must be valid"));
    }
    let peers = &store.trusted_peers;
    let mut i: usize = 0;
    while i < peers.len()
        invariant
            i <= peers@.len(),
            *peers == store.trusted_peers,
            harness_check(*store, *ctx, HarnessCapability::Administration, None) is Ok,
            !(trimmed(display_name@).len() == 0 || trimmed(public_key@).len() == 0 || !parses_as_url(base_url@)),
            forall|j: int| 0 <= j < i ==> !peer_conflict(ctx.tenant_id, base_url@, node_id)(#[trigger] peers@[j]),
        decreases peers@.len() - i,
    {
        let p = &peers[i];
        if p.tenant_id == ctx.tenant_id && (p.base_url == *base_url || (node_id != 0 && p.node_id == node_id)) {
            assert(peer_conflict(ctx.tenant_id, base_url@, node_id)(peers@[i as int]));
            let mut message = String::from_str("trusted peer ");
            message.append(base_url.as_str());
            return Err(AgentToolsError::Store(StoreError::Duplicate(message)));
        }
        i = i + 1;
    }
    Ok(one_resource_parts(
        ProposalResource::TrustedPeerUrl(base_url.clone()),
        "The Home Node will trust signed public data from this peer.",
        ResourceSnapshot::Absent,
        ResourceSnapshot::NewPeer {
            node_id,
            display_name: display_name.clone(),
            base_url: base_url.clone(),
            public_key: public_key.clone(),
        },
    ))
}

/// Finds a trusted peer by identifier.
pub fn find_peer(store: &Store, id: u128) -> (r: Option<usize>)
    ensures
        match r {
            Some(i) => i < store.trusted_peers@.len() && i == first_index(store.trusted_peers@, peer_with_id(id)),
            None => first_index(store.trusted_peers@, peer_with_id(id)) < 0,
        },
{
    let all = &store.trusted_peers;
    let mut i: usize = 0;
    while i < all.len() && all[i].id != id
        invariant
            i <= all@.len(),
            forall|j: int| 0 <= j < i ==> !peer_with_id(id)(#[trigger] all@[j]),
        decreases all@.len() - i,
    {
        i = i + 1;
    }
    proof { lemma_first_index_at(all@, peer_with_id(id), i as int); }
    if i < all.len() {
        Some(i)
    } else {
        None
    }
}

/// Plans distrusting a peer.
pub fn plan_remove_peer(store: &Store, ctx: &AuthContext, peer_id: u128) -> (r: Result<PlanParts, AgentToolsError>)
    ensures
        match remove_peer_plan(*store, *ctx, peer_id) {
            Err(d) => r matches Err(e) && denies(e, d),
            Ok(plan) => r matches Ok(parts) && parts_are(parts, plan),
        },
{
    authorize_harness(store, ctx, HarnessCapability::Administration, None)?;
    let i = match find_peer(store, peer_id) {
        Some(i) => i,
        None => return Err(not_found_for("trusted peer ", peer_id)),
    };
    let peer = &store.trusted_peers[i];
    store.assert_tenant(peer.tenant_id, ctx.tenant_id)?;
    if !peer.enabled {
        return Err(validation("trusted peer is already disabled"));
    }
    let mut disabled = peer.clone();
    disabled.enabled = false;
    Ok(one_resource_parts(
        ProposalResource::TrustedPeerUrl(peer.base_url.clone()),
        "The peer can no longer exchange signed public discovery data with this Home Node.",
        ResourceSnapshot::Peer(peer.clone()),
        ResourceSnapshot::Peer(disabled),
    ))
}

/// Whether some assignment gives `user_id` exactly `role` in the Pod.
fn holds_role(roles: &Vec<PodRoleAssignment>, pod_id: u128, user_id: u128, role: PodRole) -> (r: Option<usize>)
    ensures
        match r {
            Some(i) => i < roles@.len() && i == first_index(roles@, exact_role(pod_id, user_id, role)),
            None => first_index(roles@, exact_role(pod_id, user_id, role)) < 0,
        },
{
    let mut i: usize = 0;
    while i < roles.len() && !(roles[i].pod_id == pod_id && roles[i].user_id == user_id && roles[i].role == role)
        invariant
            i <= roles@.len(),
            forall|j: int| 0 <= j < i ==> !exact_role(pod_id, user_id, role)(#[trigger] roles@[j]),
        decreases roles@.len() - i,
    {
        i = i + 1;
    }
    proof { lemma_first_index_at(roles@, exact_role(pod_id, user_id, role), i as int); }
    if i < roles.len() {
        Some(i)
    } else {
        None
    }
}

/// How many Owners a Pod has.
pub fn count_owners(roles: &Vec<PodRoleAssignment>, pod_id: u128) -> (n: usize)
    ensures
        n == owner_count(roles@, pod_id),
{
    let ghost p = pod_owner_role(pod_id);
    let mut n: usize = 0;
    let mut i: usize = 0;
    while i < roles.len()
        invariant
            p == pod_owner_role(pod_id),
            i <= roles@.len(),
            n == roles@.take(i as int).filter(p).len(),
            n <= i,
        decreases roles@.len() - i,
    {
        proof { lemma_filter_take_step(roles@, p, i as int); }
        if roles[i].pod_id == pod_id && roles[i].role == PodRole::Owner {
            n = n + 1;
        }
        i = i + 1;
    }
    assert(roles@.take(roles@.len() as int) =~= roles@);
    n
}

/// The assignments kept by removing every role of `user_id` in the Pod.
pub fn roles_without_user(roles: &Vec<PodRoleAssignment>, pod_id: u128, user_id: u128) -> (r: Vec<PodRoleAssignment>)
    ensures
        r@ == roles@.filter(not_user_in_pod(pod_id, user_id)),
{
    let ghost p = not_user_in_pod(pod_id, user_id);
    let mut r: Vec<PodRoleAssignment> = Vec::new();
    let mut i: usize = 0;
    while i < roles.len()
        invariant
            p == not_user_in_pod(pod_id, user_id),
            i <= roles@.len(),
            r@ == roles@.take(i as int).filter(p),
        decreases roles@.len() - i,
    {
        proof { lemma_filter_take_step(roles@, p, i as int); }
        if roles[i].pod_id != pod_id || roles[i].user_id != user_id {
            r.push(roles[i]);
        }
        i = i + 1;
    }
    assert(roles@.take(roles@.len() as int) =~= roles@);
    r
}

/// The assignments kept by removing every copy of `x`.
pub fn roles_without(roles: &Vec<PodRoleAssignment>, x: PodRoleAssignment) -> (r: Vec<PodRoleAssignment>)
    ensures
        r@ == roles@.filter(differs_from(x)),
{
    let ghost p = differs_from(x);
    let mut r: Vec<PodRoleAssignment> = Vec::new();
    let mut i: usize = 0;
    while i < roles.len()
        invariant
            p == differs_from(x),
            i <= roles@.len(),
            r@ == roles@.take(i as int).filter(p),
        decreases roles@.len() - i,
    {
        proof { lemma_filter_take_step(roles@, p, i as int); }
        if roles[i] != x {
            r.push(roles[i]);
        }
        i = i + 1;
    }
    assert(roles@.take(roles@.len() as int) =~= roles@);
    r
}

/// Plans giving a User a role in a Pod.
pub fn plan_grant_role(store: &Store, ctx: &AuthContext, pod_id: u128, user_id: u128, role: PodRole, now: i64) -> (r: Result<
    PlanParts,
    AgentToolsError,
>)
    ensures
        match grant_role_plan(*store, *ctx, pod_id, user_id, role, now) {
            Err(d) => r matches Err(e) && denies(e, d),
            Ok(plan) => r matches Ok(parts) && parts_are(parts, plan),
        },
{
    authorize_pod_role_owner(store, ctx, pod_id)?;
    let users = &store.users;
    let mut i: usize = 0;
    while i < users.len() && users[i].id != user_id
        invariant
            i <= users@.len(),
            forall|j: int| 0 <= j < i ==> !user_with_id(user_id)(#[trigger] users@[j]),
        decreases users@.len() - i,
    {
        i = i + 1;
    }
    if i == users.len() {
        return Err(not_found_for("User ", user_id));
    }
    assert(user_with_id(user_id)(users@[i as int]));
    if holds_role(&store.pod_roles, pod_id, user_id, role).is_some() {
        proof { lemma_first_index(store.pod_roles@, exact_role(pod_id, user_id, role)); }
        let mut message = String::from_str("Pod Role for User ");
        let text = id_text(user_id);
        message.append(text.as_str());
        return Err(AgentToolsError::Store(StoreError::Duplicate(message)));
    }
    proof { lemma_first_index(store.pod_roles@, exact_role(pod_id, user_id, role)); }
    let is_owner = holds_role(&store.pod_roles, pod_id, user_id, PodRole::Owner).is_some();
    proof { lemma_first_index(store.pod_roles@, exact_role(pod_id, user_id, PodRole::Owner)); }
    if role != PodRole::Owner && is_owner && count_owners(&store.pod_roles, pod_id) == 1 {
        return Err(validation("cannot replace the last Pod Owner"));
    }
    let before = pod_roles_value(&store.pod_roles, pod_id);
    let mut prospective = roles_without_user(&store.pod_roles, pod_id, user_id);
    prospective.push(PodRoleAssignment { user_id, pod_id, role, created_at: now });
    let after = pod_roles_value(&prospective, pod_id);
    Ok(one_resource_parts(
        ProposalResource::PodRoles(pod_id),
        "The User gains explicit authority over this Pod.",
        ResourceSnapshot::Roles(before),
        ResourceSnapshot::Roles(after),
    ))
}

/// Plans taking a role in a Pod from a User.
pub fn plan_revoke_role(store: &Store, ctx: &AuthContext, pod_id: u128, user_id: u128, role: PodRole) -> (r: Result<
    PlanParts,
    AgentToolsError,
>)
    ensures
        match revoke_role_plan(*store, *ctx, pod_id, user_id, role) {
            Err(d) => r matches Err(e) && denies(e, d),
            Ok(plan) => r matches Ok(parts) && parts_are(parts, plan),
        },
{
    authorize_pod_role_owner(store, ctx, pod_id)?;
    let k = match holds_role(&store.pod_roles, pod_id, user_id, role) {
        Some(k) => k,
        None => return Err(not_found_for("Pod Role for User ", user_id)),
    };
    let assignment = store.pod_roles[k];
    if assignment.role == PodRole::Owner && count_owners(&store.pod_roles, pod_id) == 1 {
        return Err(validation("cannot revoke the last Pod Owner"));
    }
    let before = pod_roles_value(&store.pod_roles, pod_id);
    let prospective = roles_without(&store.pod_roles, assignment);
    let after = pod_roles_value(&prospective, pod_id);
    Ok(one_resource_parts(
        ProposalResource::PodRoles(pod_id),
        "The User loses explicit authority over this Pod.",
        ResourceSnapshot::Roles(before),
        ResourceSnapshot::Roles(after),
    ))
}

fn exposure(v: Visibility) -> (n: u8)
    ensures
        n == visibility_exposure(v),
{
    match v {
        Visibility::Private => 0,
        Visibility::InviteOnly => 1,
        Visibility::Public => 2,
    }
}

/// Plans making a Pod public.
pub fn plan_publish_pod(store: &Store, ctx: &AuthContext, pod_id: u128) -> (r: Result<PlanParts, AgentToolsError>)
    ensures
        match publish_plan(*store, *ctx, pod_id) {
            Err(d) => r matches Err(e) && denies(e, d),
            Ok(plan) => r matches Ok(parts) && parts_are(parts, plan),
        },
{
    authorize_harness(store, ctx, HarnessCapability::PodCuration, Some(pod_id))?;
    let i = match store.find_pod(pod_id) {
        Some(i) => i,
        None => return Err(not_found_for("pod ", pod_id)),
    };
    let pod = &store.pods[i];
    store.assert_tenant(pod.tenant_id, ctx.tenant_id)?;
    if pod.visibility == Visibility::Public {
        return Err(validation("Pod is already public"));
    }
    Ok(one_resource_parts(
        ProposalResource::Pod(pod_id),
        "The Pod and its signed public events become available through federation and Explore surfaces.",
        ResourceSnapshot::Visibility(pod.visibility),
        ResourceSnapshot::Visibility(Visibility::Public),
    ))
}

/// Plans showing a Pod to a wider audience.
pub fn plan_expand_visibility(store: &Store, ctx: &AuthContext, pod_id: u128, visibility: Visibility) -> (r: Result<
    PlanParts,
    AgentToolsError,
>)
    ensures
        match expand_visibility_plan(*store, *ctx, pod_id, visibility) {
            Err(d) => r matches Err(e) && denies(e, d),
            Ok(plan) => r matches Ok(parts) && parts_are(parts, plan),
        },
{
    authorize_pod_role_owner(store, ctx, pod_id)?;
    let i = match store.find_pod(pod_id) {
        Some(i) => i,
        None => return Err(not_found_for("pod ", pod_id)),
    };
    let pod = &store.pods[i];
    store.assert_tenant(pod.tenant_id, ctx.tenant_id)?;
    if exposure(visibility) <= exposure(pod.visibility) {
        return Err(validation("Pending Proposals only apply to visibility expansion"));
    }
    Ok(one_resource_parts(
        ProposalResource::Pod(pod_id),
        "The Pod becomes visible to a broader audience.",
        ResourceSnapshot::Visibility(pod.visibility),
        ResourceSnapshot::Visibility(visibility),
    ))
}

fn has_link(links: &Vec<SubmissionPod>, pod_id: u128, submission_id: u128) -> (b: bool)
    ensures
        b == any_match(links@, pod_link(pod_id, submission_id)),
{
    let mut i: usize = 0;
    while i < links.len()
        invariant
            i <= links@.len(),
            forall|j: int| 0 <= j < i ==> !pod_link(pod_id, submission_id)(#[trigger] links@[j]),
        decreases links@.len() - i,
    {
        if links[i].pod_id == pod_id && links[i].submission_id == submission_id {
            assert(pod_link(pod_id, submission_id)(links@[i as int]));
            return true;
        }
        i = i + 1;
    }
    false
}

/// Plans withdrawing a Submission from a public Pod.
pub fn plan_public_removal(store: &Store, ctx: &AuthContext, pod_id: u128, submission_id: u128) -> (r: Result<
    PlanParts,
    AgentToolsError,
>)
    ensures
        match public_removal_plan(*store, *ctx, pod_id, submission_id) {
            Err(d) => r matches Err(e) && denies(e, d),
            Ok(plan) => r matches Ok(parts) && parts_are(parts, plan),
        },
{
    authorize_harness(store, ctx, HarnessCapability::PodCuration, Some(pod_id))?;
    let i = match store.find_pod(pod_id) {
        Some(i) => i,
        None => return Err(not_found_for("pod ", pod_id)),
    };
    let pod = &store.pods[i];
    store.assert_tenant(pod.tenant_id, ctx.tenant_id)?;
    if pod.visibility != Visibility::Public {
        return Err(validation("this proposal type requires a public Pod"));
    }
    if !has_link(&store.submission_pods, pod_id, submission_id) {
        let mut message = String::from_str("submission ");
        let text = id_text(submission_id);
        message.append(text.as_str());
        message.append(" in pod ");
        message.append(pod.slug.as_str());
        return Err(AgentToolsError::Store(StoreError::NotFound(message)));
    }
    Ok(one_resource_parts(
        ProposalResource::SubmissionPlacement { pod_id, submission_id },
        "The public Pod Placement is withdrawn from future federation and discovery.",
        ResourceSnapshot::Accepted(true),
        ResourceSnapshot::Accepted(false),
    ))
}

/// Plans a sensitive change.
pub fn plan_sensitive_change(store: &Store, ctx: &AuthContext, change: &SensitiveChange, now: i64) -> (r: Result<
    PlanParts,
    AgentToolsError,
>)
    ensures
        match change_plan(*store, *ctx, change@, now) {
            Err(d) => r matches Err(e) && denies(e, d),
            Ok(plan) => r matches Ok(parts) && parts_are(parts, plan),
        },
{
    match change {
        SensitiveChange::ExpandHarnessGrant { harness_id, capabilities, pod_ids } => plan_grant_expansion(
            store,
            ctx,
            *harness_id,
            capabilities,
            pod_ids,
        ),
        SensitiveChange::AddTrustedPeer { node_id, display_name, base_url, public_key } => plan_add_peer(
            store,
            ctx,
            *node_id,
            display_name,
            base_url,
            public_key,
        ),
        SensitiveChange::RemoveTrustedPeer { peer_id } => plan_remove_peer(store, ctx, *peer_id),
        SensitiveChange::GrantPodRole { pod_id, user_id, role } => plan_grant_role(store, ctx, *pod_id, *user_id, *role, now),
        SensitiveChange::RevokePodRole { pod_id, user_id, role } => plan_revoke_role(store, ctx, *pod_id, *user_id, *role),
        SensitiveChange::PublishPod { pod_id } => plan_publish_pod(store, ctx, *pod_id),
        SensitiveChange::ExpandPodVisibility { pod_id, visibility } => plan_expand_visibility(store, ctx, *pod_id, *visibility),
        SensitiveChange::RemovePublicSubmissionFromPod { pod_id, submission_id } => plan_public_removal(
            store,
            ctx,
            *pod_id,
            *submission_id,
        ),
    }
}

/// A decision the caller may take on a proposal.
#[derive(Clone, Copy, Debug, PartialEq, Eq, Structural)]
pub enum ProposalAllowedAction {
    Approve,
    Reject,
}

pub open spec fn proposal_with_id(id: u128) -> spec_fn(PendingProposal) -> bool {
    |p: PendingProposal| p.id == id
}

/// The position of proposal `id`, or -1.
pub open spec fn proposal_index(s: Store, id: u128) -> int {
    first_index(s.pending_proposals@, proposal_with_id(id))
}

/// Whether a harness's Pod scope covers a resource: Pod resources need the
/// Pod in scope; node-wide resources need an unscoped grant.
pub open spec fn resource_in_scope(h: AgentHarness) -> spec_fn(ProposalResource) -> bool {
    |r: ProposalResource| match r {
        ProposalResource::PodRoles(p) => grant_admits_pod(h, p),
        _ => h.grant.pod_ids is None,
    }
}

/// Whether a harness's Pod scope covers every resource the proposal touches.
pub open spec fn approval_scope_covers(h: AgentHarness, p: PendingProposal) -> bool {
    forall|i: int| 0 <= i < p.affected_resources@.len() ==> #[trigger] resource_in_scope(h)(p.affected_resources@[i])
}

/// Who may read proposal `id`: its User without a harness (or an anonymous
/// caller of its tenant); its proposer; or an approval harness of its User
/// whose scope covers it.
pub open spec fn reader_check(s: Store, ctx: AuthContext, id: u128) -> Result<(), Denial> {
    let i = proposal_index(s, id);
    if i < 0 {
        Err(Denial::NotFound("Pending Proposal "@ + uuid_text(id)))
    } else {
        let p = s.pending_proposals@[i];
        match context_harness(s, ctx) {
            Err(d) => Err(d),
            Ok(None) => if ctx.tenant_id == p.tenant_id && (ctx.user_id is None || ctx.user_id == Some(p.user_id)) {
                Ok(())
            } else {
                Err(Denial::Forbidden("Pending Proposal belongs to another User or tenant"@))
            },
            Ok(Some(h)) => if h.tenant_id == p.tenant_id && h.user_id == p.user_id && (h.id == p.proposer || (grant_has(
                h,
                HarnessCapability::Approval,
            ) && approval_scope_covers(h, p))) {
                Ok(())
            } else {
                Err(Denial::Forbidden("harness cannot inspect this Pending Proposal"@))
            },
        }
    }
}

/// Who may decide proposal `id`, yielding the deciding actor: its User
/// without a harness, or an interactive approval harness of its User, other
/// than the proposer, whose scope covers the proposal.
pub open spec fn approver_check(s: Store, ctx: AuthContext, id: u128) -> Result<ProposalDecisionActor, Denial> {
    let i = proposal_index(s, id);
    if i < 0 {
        Err(Denial::NotFound("Pending Proposal "@ + uuid_text(id)))
    } else {
        let p = s.pending_proposals@[i];
        match context_harness(s, ctx) {
            Err(d) => Err(d),
            Ok(None) => if ctx.tenant_id == p.tenant_id && ctx.user_id == Some(p.user_id) {
                Ok(ProposalDecisionActor::Owner { owner_user_id: p.user_id })
            } else {
                Err(Denial::Forbidden("approval must belong to the proposal User and tenant"@))
            },
            Ok(Some(h)) => match harness_check(s, ctx, HarnessCapability::Approval, None) {
                Err(d) => Err(d),
                Ok(()) => if h.kind != AgentHarnessKind::Interactive {
                    Err(Denial::Forbidden("approval requires an interactive Agent Harness"@))
                } else if h.tenant_id != p.tenant_id || h.user_id != p.user_id {
                    Err(Denial::Forbidden("approval must belong to the proposal User and tenant"@))
                } else if !approval_scope_covers(h, p) {
                    Err(Denial::Forbidden("approval Harness Grant does not cover the affected resources"@))
                } else if p.proposer == h.id {
                    Err(Denial::Forbidden("a harness cannot approve its own Pending Proposal"@))
                } else {
                    Ok(ProposalDecisionActor::Harness(h.id))
                },
            },
        }
    }
}

/// The proposal as it stands at `now`: a pending proposal past its expiry is expired at `now`.
pub open spec fn expired_at(p: PendingProposalModel, now: i64) -> PendingProposalModel {
    if p.status == ProposalStatus::Pending && now >= p.expires_at {
        PendingProposalModel { status: ProposalStatus::Expired, decided_at: Some(now), ..p }
    } else {
        p
    }
}

/// `after` is `before` with the proposal at `i` (and nothing else) replaced by one whose value is `m`.
pub open spec fn proposal_replaced(before: Store, after: Store, i: int, m: PendingProposalModel) -> bool {
    &&& 0 <= i < before.pending_proposals@.len()
    &&& after.pending_proposals@.len() == before.pending_proposals@.len()
    &&& after.pending_proposals@[i]@ == m
    &&& forall|j: int|
        0 <= j < before.pending_proposals@.len() && j != i ==> after.pending_proposals@[j] == before.pending_proposals@[j]
    &&& after == (Store { pending_proposals: after.pending_proposals, ..before })
}

/// Finds a proposal by identifier.
pub fn find_proposal(store: &Store, id: u128) -> (r: Option<usize>)
    ensures
        match r {
            Some(i) => i < store.pending_proposals@.len() && i == proposal_index(*store, id),
            None => proposal_index(*store, id) < 0,
        },
{
    let all = &store.pending_proposals;
    let mut i: usize = 0;
    while i < all.len() && all[i].id != id
        invariant
            i <= all@.len(),
            forall|j: int| 0 <= j < i ==> !proposal_with_id(id)(#[trigger] all@[j]),
        decreases all@.len() - i,
    {
        i = i + 1;
    }
    proof { lemma_first_index_at(all@, proposal_with_id(id), i as int); }
    if i < all.len() {
        Some(i)
    } else {
        None
    }
}

/// Whether a harness's Pod scope covers every resource the proposal touches.
pub fn approval_scope_allows(harness: &AgentHarness, proposal: &PendingProposal) -> (b: bool)
    ensures
        b == approval_scope_covers(*harness, *proposal),
{
    let rs = &proposal.affected_resources;
    let mut i: usize = 0;
    while i < rs.len()
        invariant
            *rs == proposal.affected_resources,
            i <= rs@.len(),
            forall|j: int| 0 <= j < i ==> #[trigger] resource_in_scope(*harness)(rs@[j]),
        decreases rs@.len() - i,
    {
        let ok = match &rs[i] {
            ProposalResource::PodRoles(p) => grant_admits(harness, *p),
            _ => harness.grant.pod_ids.is_none(),
        };
        if !ok {
            assert(!resource_in_scope(*harness)(rs@[i as int]));
            return false;
        }
        i = i + 1;
    }
    true
}

/// Checks that the caller may read proposal `proposal_id`.
pub fn authorize_proposal_reader(store: &Store, ctx: &AuthContext, proposal_id: u128) -> (r: Result<(), AgentToolsError>)
    ensures
        yields(r, reader_check(*store, *ctx, proposal_id)),
{
    let i = match find_proposal(store, proposal_id) {
        Some(i) => i,
        None => return Err(not_found_for("Pending Proposal ", proposal_id)),
    };
    let proposal = &store.pending_proposals[i];
    match harness_for_context(store, ctx)? {
        None => {
            if ctx.tenant_id == proposal.tenant_id && (ctx.user_id.is_none() || ctx.user_id == Some(proposal.user_id)) {
                Ok(())
            } else {
                Err(forbidden("Pending Proposal belongs to another User or tenant"))
            }
        },
        Some(harness) => {
            if harness.tenant_id == proposal.tenant_id && harness.user_id == proposal.user_id && (harness.id == proposal.proposer
                || (grant_contains(harness, HarnessCapability::Approval) && approval_scope_allows(harness, proposal))) {
                Ok(())
            } else {
                Err(forbidden("harness cannot inspect this Pending Proposal"))
            }
        },
    }
}

/// Checks that the caller may decide proposal `proposal_id`, independently of its proposer.
pub fn authorize_independent_approver(store: &Store, ctx: &AuthContext, proposal_id: u128) -> (r: Result<
    ProposalDecisionActor,
    AgentToolsError,
>)
    ensures
        yields(r, approver_check(*store, *ctx, proposal_id)),
{
    let i = match find_proposal(store, proposal_id) {
        Some(i) => i,
        None => return Err(not_found_for("Pending Proposal ", proposal_id)),
    };
    let proposal = &store.pending_proposals[i];
    let harness = match harness_for_context(store, ctx)? {
        None => {
            if ctx.tenant_id == proposal.tenant_id && ctx.user_id == Some(proposal.user_id) {
                return Ok(ProposalDecisionActor::Owner { owner_user_id: proposal.user_id });
            }
            return Err(forbidden("approval must belong to the proposal User and tenant"));
        },
        Some(h) => h,
    };
    authorize_harness(store, ctx, HarnessCapability::Approval, None)?;
    if harness.kind != AgentHarnessKind::Interactive {
        return Err(forbidden("approval requires an interactive Agent Harness"));
    }
    if harness.tenant_id != proposal.tenant_id || harness.user_id != proposal.user_id {
        return Err(forbidden("approval must belong to the proposal User and tenant"));
    }
    if !approval_scope_allows(harness, proposal) {
        return Err(forbidden("approval Harness Grant does not cover the affected resources"));
    }
    if proposal.proposer == harness.id {
        return Err(forbidden("a harness cannot approve its own Pending Proposal"));
    }
    Ok(ProposalDecisionActor::Harness(harness.id))
}

/// Records the expiry of a pending proposal first observed at or after its expiry.
pub fn expire_proposal(store: &mut Store, proposal_id: u128, now: i64) -> (r: Result<(), AgentToolsError>)
    ensures
        if proposal_index(*old(store), proposal_id) < 0 {
            r matches Err(e) && denies(e, Denial::NotFound("Pending Proposal "@ + uuid_text(proposal_id)))
                && *final(store) == *old(store)
        } else {
            r is Ok && {
                let i = proposal_index(*old(store), proposal_id);
                let m = old(store).pending_proposals@[i]@;
                if expired_at(m, now) == m {
                    *final(store) == *old(store)
                } else {
                    proposal_replaced(*old(store), *final(store), i, expired_at(m, now))
                }
            }
        },
{
    let i = match find_proposal(store, proposal_id) {
        Some(i) => i,
        None => return Err(not_found_for("Pending Proposal ", proposal_id)),
    };
    if store.pending_proposals[i].status == ProposalStatus::Pending && now >= store.pending_proposals[i].expires_at {
        let mut p = store.pending_proposals[i].clone();
        p.status = ProposalStatus::Expired;
        p.decided_at = Some(now);
        store.pending_proposals.set(i, p);
    }
    Ok(())
}

/// What reading proposal `id` at `now` does: the reader rule, then expiry is recorded.
pub open spec fn proposal_read(
    before: Store,
    after: Store,
    r: Result<PendingProposal, AgentToolsError>,
    ctx: AuthContext,
    id: u128,
    now: i64,
) -> bool {
    match reader_check(before, ctx, id) {
        Err(d) => r matches Err(e) && denies(e, d) && after == before,
        Ok(()) => {
            let i = proposal_index(before, id);
            let m = expired_at(before.pending_proposals@[i]@, now);
            &&& r matches Ok(x) && x@ == m
            &&& if m == before.pending_proposals@[i]@ {
                after == before
            } else {
                proposal_replaced(before, after, i, m)
            }
        },
    }
}

pub open spec fn proposal_view() -> spec_fn(PendingProposal) -> PendingProposalModel {
    |p: PendingProposal| p@
}

/// `after` is `before` with every proposal as it stands at `now`.
pub open spec fn all_expired_at(before: Store, after: Store, now: i64) -> bool {
    &&& after.pending_proposals@.len() == before.pending_proposals@.len()
    &&& forall|k: int|
        0 <= k < before.pending_proposals@.len() ==> #[trigger] after.pending_proposals@[k]@ == expired_at(
            before.pending_proposals@[k]@,
            now,
        )
    &&& after == (Store { pending_proposals: after.pending_proposals, ..before })
}

pub open spec fn readable_at(s: Store, ctx: AuthContext) -> spec_fn(usize) -> bool {
    |k: usize| reader_check(s, ctx, s.pending_proposals@[k as int].id) is Ok
}

pub open spec fn proposal_created_key(s: Store) -> spec_fn(usize) -> ((i64, u128), usize) {
    |k: usize| ((s.pending_proposals@[k as int].created_at, 0u128), k)
}

pub open spec fn proposal_model_at(s: Store) -> spec_fn(usize) -> PendingProposalModel {
    |k: usize| s.pending_proposals@[k as int]@
}

/// The proposals the caller may read, oldest first (ties in stored order).
pub open spec fn readable_proposals(s: Store, ctx: AuthContext) -> Seq<PendingProposalModel> {
    payloads(stable_sort(positions(s.pending_proposals@).filter(readable_at(s, ctx)).map_values(proposal_created_key(s)))).map_values(
        proposal_model_at(s),
    )
}

/// Records the expiry of every pending proposal past its expiry at `now`.
pub fn expire_proposals(store: &mut Store, now: i64)
    ensures
        all_expired_at(*old(store), *final(store), now),
{
    let ghost s0 = *store;
    let n = store.pending_proposals.len();
    let mut j: usize = 0;
    while j < n
        invariant
            n == s0.pending_proposals@.len(),
            j <= n,
            store.pending_proposals@.len() == n,
            forall|k: int| 0 <= k < j ==> #[trigger] store.pending_proposals@[k]@ == expired_at(s0.pending_proposals@[k]@, now),
            forall|k: int| j <= k < n ==> #[trigger] store.pending_proposals@[k] == s0.pending_proposals@[k],
            *store == (Store { pending_proposals: store.pending_proposals, ..s0 }),
        decreases n - j,
    {
        if store.pending_proposals[j].status == ProposalStatus::Pending && now >= store.pending_proposals[j].expires_at {
            let mut p = store.pending_proposals[j].clone();
            p.status = ProposalStatus::Expired;
            p.decided_at = Some(now);
            store.pending_proposals.set(j, p);
        }
        j = j + 1;
    }
}

impl AgentTools {
    /// Lists the proposals the caller may read, oldest first, after recording
    /// the expiry of every proposal found late.
    pub fn list_pending_proposals(&mut self, ctx: &AuthContext, now: i64) -> (r: Result<Vec<PendingProposal>, AgentToolsError>)
        ensures
            match context_harness(old(self).store, *ctx) {
                Err(d) => r matches Err(e) && denies(e, d) && final(self).store == old(self).store,
                Ok(_) => {
                    &&& all_expired_at(old(self).store, final(self).store, now)
                    &&& r matches Ok(v) && v@.map_values(proposal_view()) == readable_proposals(final(self).store, *ctx)
                },
            },
    {
        harness_for_context(&self.store, ctx)?;
        expire_proposals(&mut self.store, now);
        let store = &self.store;
        let n = store.pending_proposals.len();
        let ghost all = positions(store.pending_proposals@);
        let ghost p = readable_at(*store, *ctx);
        let mut keyed: Vec<((i64, u128), usize)> = Vec::new();
        let mut i: usize = 0;
        while i < n
            invariant
                n == store.pending_proposals@.len(),
                all == positions(store.pending_proposals@),
                p == readable_at(*store, *ctx),
                i <= n,
                keyed@ == all.take(i as int).filter(p).map_values(proposal_created_key(*store)),
                forall|j: int| 0 <= j < keyed@.len() ==> (#[trigger] keyed@[j]).1 < n,
            decreases n - i,
        {
            proof { lemma_filter_take_step(all, p, i as int); }
            assert(all[i as int] == i);
            if authorize_proposal_reader(store, ctx, store.pending_proposals[i].id).is_ok() {
                keyed.push(((store.pending_proposals[i].created_at, 0u128), i));
                proof {
                    let f = all.take(i as int).filter(p);
                    assert(f.push(i).map_values(proposal_created_key(*store)) =~= f.map_values(proposal_created_key(*store)).push(
                        proposal_created_key(*store)(i)));
                }
            }
            i = i + 1;
        }
        assert(all.take(n as int) =~= all);
        let sorted = sort_by_key(keyed);
        proof {
            crate::seqs::lemma_stable_sort_elems(keyed@);
            assert forall|j: int| 0 <= j < sorted@.len() implies (#[trigger] sorted@[j]).1 < n by {
                assert(sorted@.contains(sorted@[j]));
                assert(keyed@.contains(sorted@[j]));
                let m = choose|m: int| 0 <= m < keyed@.len() && keyed@[m] == sorted@[j];
            }
        }
        let ghost order = payloads(sorted@);
        let mut out: Vec<PendingProposal> = Vec::new();
        let mut k: usize = 0;
        while k < sorted.len()
            invariant
                k <= sorted@.len(),
                order == payloads(sorted@),
                n == store.pending_proposals@.len(),
                forall|j: int| 0 <= j < sorted@.len() ==> (#[trigger] sorted@[j]).1 < n,
                out@.map_values(proposal_view()) == order.take(k as int).map_values(proposal_model_at(*store)),
            decreases sorted@.len() - k,
        {
            let idx = sorted[k].1;
            let c = store.pending_proposals[idx].clone();
            let ghost before = out@;
            out.push(c);
            proof {
                assert(out@.map_values(proposal_view()) =~= before.map_values(proposal_view()).push(c@));
                assert(order.take(k + 1) =~= order.take(k as int).push(order[k as int]));
                assert(order.take(k + 1).map_values(proposal_model_at(*store)) =~= order.take(k as int).map_values(
                    proposal_model_at(*store),
                ).push(proposal_model_at(*store)(order[k as int])));
            }
            k = k + 1;
        }
        assert(order.take(sorted@.len() as int) =~= order);
        Ok(out)
    }

    /// Returns one proposal, recording its expiry when it is first observed late.
    pub fn pending_proposal(&mut self, ctx: &AuthContext, proposal_id: u128, now: i64) -> (r: Result<
        PendingProposal,
        AgentToolsError,
    >)
        ensures
            proposal_read(old(self).store, final(self).store, r, *ctx, proposal_id, now),
    {
        authorize_proposal_reader(&self.store, ctx, proposal_id)?;
        let i = match find_proposal(&self.store, proposal_id) {
            Some(i) => i,
            None => return Err(not_found_for("Pending Proposal ", proposal_id)),
        };
        expire_proposal(&mut self.store, proposal_id, now)?;
        Ok(self.store.pending_proposals[i].clone())
    }

    /// The decisions the caller may take on a proposal at `now`: both while it
    /// is pending and not yet expired and the caller is an independent
    /// approver, otherwise none.
    pub fn pending_proposal_allowed_actions(&self, ctx: &AuthContext, proposal_id: u128, now: i64) -> (r: Result<
        Vec<ProposalAllowedAction>,
        AgentToolsError,
    >)
        ensures
            if proposal_index(self.store, proposal_id) < 0 {
                r matches Err(e) && denies(e, Denial::NotFound("Pending Proposal "@ + uuid_text(proposal_id)))
            } else {
                match reader_check(self.store, *ctx, proposal_id) {
                    Err(d) => r matches Err(e) && denies(e, d),
                    Ok(()) => r matches Ok(v) && v@ == (if self.store.pending_proposals@[proposal_index(self.store, proposal_id)].status
                        == ProposalStatus::Pending && now < self.store.pending_proposals@[proposal_index(self.store, proposal_id)].expires_at
                        && approver_check(self.store, *ctx, proposal_id) is Ok {
                        seq![ProposalAllowedAction::Approve, ProposalAllowedAction::Reject]
                    } else {
                        Seq::empty()
                    }),
                }
            },
    {
        let i = match find_proposal(&self.store, proposal_id) {
            Some(i) => i,
            None => return Err(not_found_for("Pending Proposal ", proposal_id)),
        };
        authorize_proposal_reader(&self.store, ctx, proposal_id)?;
        if self.store.pending_proposals[i].status == ProposalStatus::Pending && now < self.store.pending_proposals[i].expires_at
            && authorize_independent_approver(&self.store, ctx, proposal_id).is_ok() {
            let v = vec![ProposalAllowedAction::Approve, ProposalAllowedAction::Reject];
            assert(v@ =~= seq![ProposalAllowedAction::Approve, ProposalAllowedAction::Reject]);
            Ok(v)
        } else {
            let v: Vec<ProposalAllowedAction> = Vec::new();
            assert(v@ =~= Seq::<ProposalAllowedAction>::empty());
            Ok(v)
        }
    }

    /// Independently rejects a live proposal for `reason`, without applying its change.
    pub fn reject_pending_proposal(&mut self, ctx: &AuthContext, proposal_id: u128, now: i64, reason: String) -> (r: Result<
        PendingProposal,
        AgentToolsError,
    >)
        ensures
            if trimmed(reason@).len() == 0 {
                r matches Err(e) && denies(e, Denial::Validation("rejection reason must not be empty"@))
                    && final(self).store == old(self).store
            } else { match approver_check(old(self).store, *ctx, proposal_id) {
                Err(d) => r matches Err(e) && denies(e, d) && final(self).store == old(self).store,
                Ok(actor) => {
                    let i = proposal_index(old(self).store, proposal_id);
                    let m = expired_at(old(self).store.pending_proposals@[i]@, now);
                    if m.status != ProposalStatus::Pending {
                        &&& r matches Err(e) && denies(e, Denial::Validation("Pending Proposal is terminal"@))
                        &&& if m == old(self).store.pending_proposals@[i]@ {
                            final(self).store == old(self).store
                        } else {
                            proposal_replaced(old(self).store, final(self).store, i, m)
                        }
                    } else {
                        let decided = PendingProposalModel {
                            status: ProposalStatus::Rejected,
                            decided_by: Some(actor),
                            decided_at: Some(now),
                            rejection_reason: Some(reason),
                            ..m
                        };
                        r matches Ok(x) && x@ == decided && proposal_replaced(old(self).store, final(self).store, i, decided)
                    }
                },
            } },
    {
        if trim(reason.as_str()).unicode_len() == 0 {
            return Err(validation("rejection reason must not be empty"));
        }
        let approver = authorize_independent_approver(&self.store, ctx, proposal_id)?;
        let i = match find_proposal(&self.store, proposal_id) {
            Some(i) => i,
            None => return Err(not_found_for("Pending Proposal ", proposal_id)),
        };
        expire_proposal(&mut self.store, proposal_id, now)?;
        if self.store.pending_proposals[i].status != ProposalStatus::Pending {
            return Err(validation("Pending Proposal is terminal"));
        }
        let mut p = self.store.pending_proposals[i].clone();
        p.status = ProposalStatus::Rejected;
        p.decided_by = Some(approver);
        p.decided_at = Some(now);
        p.rejection_reason = Some(reason);
        let result = p.clone();
        self.store.pending_proposals.set(i, p);
        Ok(result)
    }
}

/// What a resource of a proposal of tenant `tenant_id` looks like in the store now.
pub open spec fn current_snapshot(s: Store, tenant_id: Option<u128>, resource: ProposalResource) -> ResourceSnapshotModel {
    match resource {
        ProposalResource::AgentHarness(id) => match first_match(s.agent_harnesses@, harness_with_id(id)) {
            Some(h) => ResourceSnapshotModel::Grant(h.grant@),
            None => ResourceSnapshotModel::Absent,
        },
        ProposalResource::TrustedPeerUrl(url) => match first_match(s.trusted_peers@, peer_at_url(tenant_id, url@)) {
            Some(p) => ResourceSnapshotModel::Peer(peer_model(p)),
            None => ResourceSnapshotModel::Absent,
        },
        ProposalResource::PodRoles(pod_id) => ResourceSnapshotModel::Roles(roles_value(s.pod_roles@, pod_id)),
        ProposalResource::Pod(pod_id) => match first_match(s.pods@, pod_with_id(pod_id)) {
            Some(p) => ResourceSnapshotModel::Visibility(p.visibility),
            None => ResourceSnapshotModel::Absent,
        },
        ProposalResource::SubmissionPlacement { pod_id, submission_id } => ResourceSnapshotModel::Accepted(
            any_match(s.submission_pods@, pod_link(pod_id, submission_id)),
        ),
    }
}

pub open spec fn peer_at_url(tenant_id: Option<u128>, url: Seq<char>) -> spec_fn(TrustedPeer) -> bool {
    |p: TrustedPeer| p.tenant_id == tenant_id && p.base_url@ == url
}

/// Whether every "before" snapshot of the proposal still describes the store.
pub open spec fn diff_is_fresh(s: Store, p: PendingProposalModel) -> bool {
    forall|i: int|
        0 <= i < p.structured_diff.len() ==> current_snapshot(s, p.tenant_id, (#[trigger] p.structured_diff[i]).resource)
            == p.structured_diff[i].before
}

fn same_capabilities(a: &Vec<HarnessCapability>, b: &Vec<HarnessCapability>) -> (r: bool)
    ensures
        r == (a@ == b@),
{
    if a.len() != b.len() {
        return false;
    }
    let mut i: usize = 0;
    while i < a.len()
        invariant
            a@.len() == b@.len(),
            i <= a@.len(),
            forall|j: int| 0 <= j < i ==> a@[j] == b@[j],
        decreases a@.len() - i,
    {
        if a[i] != b[i] {
            return false;
        }
        i = i + 1;
    }
    assert(a@ =~= b@);
    true
}

fn same_ids(a: &Vec<u128>, b: &Vec<u128>) -> (r: bool)
    ensures
        r == (a@ == b@),
{
    if a.len() != b.len() {
        return false;
    }
    let mut i: usize = 0;
    while i < a.len()
        invariant
            a@.len() == b@.len(),
            i <= a@.len(),
            forall|j: int| 0 <= j < i ==> a@[j] == b@[j],
        decreases a@.len() - i,
    {
        if a[i] != b[i] {
            return false;
        }
        i = i + 1;
    }
    assert(a@ =~= b@);
    true
}

fn same_roles(a: &Vec<PodRoleAssignment>, b: &Vec<PodRoleAssignment>) -> (r: bool)
    ensures
        r == (a@ == b@),
{
    if a.len() != b.len() {
        return false;
    }
    let mut i: usize = 0;
    while i < a.len()
        invariant
            a@.len() == b@.len(),
            i <= a@.len(),
            forall|j: int| 0 <= j < i ==> a@[j] == b@[j],
        decreases a@.len() - i,
    {
        if a[i] != b[i] {
            return false;
        }
        i = i + 1;
    }
    assert(a@ =~= b@);
    true
}

fn same_grant(a: &HarnessGrant, b: &HarnessGrant) -> (r: bool)
    ensures
        r == (a@ == b@),
{
    if !same_capabilities(&a.capabilities, &b.capabilities) {
        return false;
    }
    match (&a.pod_ids, &b.pod_ids) {
        (None, None) => true,
        (Some(x), Some(y)) => same_ids(x, y),
        _ => false,
    }
}

fn same_peer(a: &TrustedPeer, b: &TrustedPeer) -> (r: bool)
    ensures
        r == (peer_model(*a) == peer_model(*b)),
{
    a.id == b.id && a.node_id == b.node_id && a.tenant_id == b.tenant_id && a.display_name == b.display_name
        && a.base_url == b.base_url && a.public_key == b.public_key && a.trust_level == b.trust_level && a.enabled == b.enabled
        && a.created_at == b.created_at
}

/// Whether a resource still looks as the snapshot `before` recorded.
fn snapshot_is_current(store: &Store, tenant_id: Option<u128>, resource: &ProposalResource, before: &ResourceSnapshot) -> (r: bool)
    ensures
        r == (current_snapshot(*store, tenant_id, *resource) == before@),
{
    match resource {
        ProposalResource::AgentHarness(id) => match store.find_harness(*id) {
            Some(i) => match before {
                ResourceSnapshot::Grant(g) => same_grant(&store.agent_harnesses[i].grant, g),
                _ => false,
            },
            None => match before {
                ResourceSnapshot::Absent => true,
                _ => false,
            },
        },
        ProposalResource::TrustedPeerUrl(url) => {
            let peers = &store.trusted_peers;
            let mut i: usize = 0;
            while i < peers.len() && !(peers[i].tenant_id == tenant_id && peers[i].base_url == *url)
                invariant
                    i <= peers@.len(),
                    forall|j: int| 0 <= j < i ==> !peer_at_url(tenant_id, url@)(#[trigger] peers@[j]),
                decreases peers@.len() - i,
            {
                i = i + 1;
            }
            proof { lemma_first_index_at(peers@, peer_at_url(tenant_id, url@), i as int); }
            if i < peers.len() {
                match before {
                    ResourceSnapshot::Peer(p) => same_peer(&peers[i], p),
                    _ => false,
                }
            } else {
                match before {
                    ResourceSnapshot::Absent => true,
                    _ => false,
                }
            }
        },
        ProposalResource::PodRoles(pod_id) => {
            let current = pod_roles_value(&store.pod_roles, *pod_id);
            match before {
                ResourceSnapshot::Roles(r) => same_roles(&current, r),
                _ => false,
            }
        },
        ProposalResource::Pod(pod_id) => match store.find_pod(*pod_id) {
            Some(i) => match before {
                ResourceSnapshot::Visibility(v) => store.pods[i].visibility == *v,
                _ => false,
            },
            None => match before {
                ResourceSnapshot::Absent => true,
                _ => false,
            },
        },
        ProposalResource::SubmissionPlacement { pod_id, submission_id } => match before {
            ResourceSnapshot::Accepted(b) => has_link(&store.submission_pods, *pod_id, *submission_id) == *b,
            _ => false,
        },
    }
}

/// Checks that every "before" snapshot of the proposal still describes the store.
pub fn validate_structured_diff(store: &Store, proposal: &PendingProposal) -> (r: Result<(), AgentToolsError>)
    ensures
        if diff_is_fresh(*store, proposal@) {
            r is Ok
        } else {
            r matches Err(e) && denies(e, Denial::Validation("proposal structured diff is stale; create a new Pending Proposal"@))
        },
{
    let diffs = &proposal.structured_diff;
    let ghost m = proposal@;
    let mut i: usize = 0;
    while i < diffs.len()
        invariant
            *diffs == proposal.structured_diff,
            m == proposal@,
            i <= diffs@.len(),
            forall|j: int| 0 <= j < i ==> current_snapshot(*store, m.tenant_id, (#[trigger] m.structured_diff[j]).resource)
                == m.structured_diff[j].before,
        decreases diffs@.len() - i,
    {
        assert(m.structured_diff[i as int] == diffs@[i as int]@);
        if !snapshot_is_current(store, proposal.tenant_id, &diffs[i].resource, &diffs[i].before) {
            return Err(validation("proposal structured diff is stale; create a new Pending Proposal"));
        }
        i = i + 1;
    }
    Ok(())
}

/// Why applying an approved change fails now, if it does.
pub open spec fn apply_check(s: Store, ctx: AuthContext, change: SensitiveChangeModel) -> Result<(), Denial> {
    match change {
        SensitiveChangeModel::ExpandHarnessGrant { harness_id, capabilities, pod_ids } => match first_match(
            s.agent_harnesses@,
            harness_with_id(harness_id),
        ) {
            None => Err(Denial::NotFound("Agent Harness "@ + uuid_text(harness_id))),
            Some(t) => if t.tenant_id != ctx.tenant_id {
                Err(Denial::TenantBoundary)
            } else if !keeps_capabilities(t.grant@.capabilities, normalized_capabilities(capabilities)) || !scope_widens(
                t.grant@.pod_ids,
                pod_ids,
            ) {
                Err(Denial::Validation("Harness Grant changed after proposal creation"@))
            } else {
                Ok(())
            },
        },
        SensitiveChangeModel::AddTrustedPeer { node_id, base_url, .. } => if any_match(
            s.trusted_peers@,
            peer_conflict(ctx.tenant_id, base_url@, node_id),
        ) {
            Err(Denial::Duplicate("trusted peer "@ + base_url@))
        } else {
            Ok(())
        },
        SensitiveChangeModel::RemoveTrustedPeer { peer_id } => match first_match(s.trusted_peers@, peer_with_id(peer_id)) {
            None => Err(Denial::NotFound("trusted peer "@ + uuid_text(peer_id))),
            Some(p) => if p.tenant_id != ctx.tenant_id {
                Err(Denial::TenantBoundary)
            } else if !p.enabled {
                Err(Denial::Validation("trusted peer is already disabled"@))
            } else {
                Ok(())
            },
        },
        SensitiveChangeModel::GrantPodRole { .. } => Ok(()),
        SensitiveChangeModel::RevokePodRole { pod_id, user_id, role } => if !any_match(
            s.pod_roles@,
            exact_role(pod_id, user_id, role),
        ) {
            Err(Denial::NotFound("Pod Role for User "@ + uuid_text(user_id)))
        } else {
            Ok(())
        },
        SensitiveChangeModel::PublishPod { pod_id } => match first_match(s.pods@, pod_with_id(pod_id)) {
            None => Err(Denial::NotFound("pod "@ + uuid_text(pod_id))),
            Some(p) => if tenant_check(p.tenant_id, ctx.tenant_id) is Err {
                tenant_check(p.tenant_id, ctx.tenant_id)
            } else if p.visibility == Visibility::Public {
                Err(Denial::Validation("Pod is already public"@))
            } else {
                publication_check(s, ctx, pod_id)
            },
        },
        SensitiveChangeModel::ExpandPodVisibility { pod_id, visibility } => match first_match(s.pods@, pod_with_id(pod_id)) {
            None => Err(Denial::NotFound("pod "@ + uuid_text(pod_id))),
            Some(p) => if tenant_check(p.tenant_id, ctx.tenant_id) is Err {
                tenant_check(p.tenant_id, ctx.tenant_id)
            } else if visibility_exposure(visibility) <= visibility_exposure(p.visibility) {
                Err(Denial::Validation("approved visibility must expand exposure"@))
            } else if visibility == Visibility::Public {
                publication_check(s, ctx, pod_id)
            } else {
                Ok(())
            },
        },
        SensitiveChangeModel::RemovePublicSubmissionFromPod { pod_id, submission_id } => match first_match(
            s.pods@,
            pod_with_id(pod_id),
        ) {
            None => Err(Denial::NotFound("pod "@ + uuid_text(pod_id))),
            Some(p) => if tenant_check(p.tenant_id, ctx.tenant_id) is Err {
                tenant_check(p.tenant_id, ctx.tenant_id)
            } else if s.node_for_tenant_spec(ctx.tenant_id) is Err {
                Err(s.node_for_tenant_spec(ctx.tenant_id)->Err_0)
            } else if !any_match(s.submission_pods@, pod_link(pod_id, submission_id)) {
                Err(Denial::Validation("public Pod Placement changed after proposal creation"@))
            } else if any_match(s.accepted_placement_projections@, projection_for(submission_id, pod_id)) && !any_match(
                s.submissions@,
                submission_with_id(submission_id),
            ) {
                Err(Denial::NotFound("Content Reference"@))
            } else {
                Ok(())
            },
        },
    }
}

/// What making a Pod public needs: the tenant's node identity and the Pod's Package.
pub open spec fn publication_check(s: Store, ctx: AuthContext, pod_id: u128) -> Result<(), Denial> {
    match s.node_for_tenant_spec(ctx.tenant_id) {
        Err(d) => Err(d),
        Ok(_) => if any_match(s.pod_skill_packs@, pack_of(pod_id)) {
            Ok(())
        } else {
            Err(Denial::NotFound("Pod Package"@))
        },
    }
}

pub open spec fn lacks_role(pod_id: u128, user_id: u128, role: PodRole) -> spec_fn(PodRoleAssignment) -> bool {
    |a: PodRoleAssignment| !exact_role(pod_id, user_id, role)(a)
}

/// `after` is `before` with an applicable change applied.
pub open spec fn applied(before: Store, after: Store, ctx: AuthContext, change: SensitiveChangeModel) -> bool {
    match change {
        SensitiveChangeModel::ExpandHarnessGrant { harness_id, capabilities, pod_ids } => {
            let i = first_index(before.agent_harnesses@, harness_with_id(harness_id));
            &&& after.agent_harnesses@.len() == before.agent_harnesses@.len()
            &&& after.agent_harnesses@[i]@ == (AgentHarnessModel {
                grant: HarnessGrantModel {
                    capabilities: normalized_capabilities(capabilities),
                    pod_ids: opt_sorted_ids(pod_ids),
                },
                ..before.agent_harnesses@[i]@
            })
            &&& forall|j: int|
                0 <= j < before.agent_harnesses@.len() && j != i ==> after.agent_harnesses@[j] == before.agent_harnesses@[j]
            &&& after == (Store { agent_harnesses: after.agent_harnesses, ..before })
        },
        SensitiveChangeModel::AddTrustedPeer { node_id, display_name, base_url, public_key } => {
            let p = after.trusted_peers@.last();
            &&& after.trusted_peers@.len() == before.trusted_peers@.len() + 1
            &&& after.trusted_peers@.drop_last() == before.trusted_peers@
            &&& p.node_id == node_id && p.tenant_id == ctx.tenant_id && p.display_name == display_name
            &&& p.base_url == base_url && p.public_key == public_key && p.trust_level == TrustLevel::ReadOnly && p.enabled
            &&& after == (Store { trusted_peers: after.trusted_peers, ..before })
        },
        SensitiveChangeModel::RemoveTrustedPeer { peer_id } => {
            let i = first_index(before.trusted_peers@, peer_with_id(peer_id));
            &&& after.trusted_peers@ == before.trusted_peers@.update(i, TrustedPeer { enabled: false, ..before.trusted_peers@[i] })
            &&& after == (Store { trusted_peers: after.trusted_peers, ..before })
        },
        SensitiveChangeModel::GrantPodRole { pod_id, user_id, role } => {
            let a = after.pod_roles@.last();
            &&& after.pod_roles@.len() > 0
            &&& after.pod_roles@.drop_last() == before.pod_roles@.filter(not_user_in_pod(pod_id, user_id))
            &&& a.user_id == user_id && a.pod_id == pod_id && a.role == role
            &&& after == (Store { pod_roles: after.pod_roles, ..before })
        },
        SensitiveChangeModel::RevokePodRole { pod_id, user_id, role } => {
            &&& after.pod_roles@ == before.pod_roles@.filter(lacks_role(pod_id, user_id, role))
            &&& after == (Store { pod_roles: after.pod_roles, ..before })
        },
        SensitiveChangeModel::PublishPod { pod_id } => pod_shown_as(before, after, pod_id, Visibility::Public),
        SensitiveChangeModel::ExpandPodVisibility { pod_id, visibility } => pod_shown_as(before, after, pod_id, visibility),
        SensitiveChangeModel::RemovePublicSubmissionFromPod { pod_id, submission_id } => {
            &&& after.submission_pods@ == before.submission_pods@.filter(unlinked(pod_id, submission_id))
            &&& match first_match(before.accepted_placement_projections@, projection_for(submission_id, pod_id)) {
                Some(o) => {
                    let t = after.placement_tombstones@.last();
                    &&& after.accepted_placement_projections@ == without_projection(
                        before.accepted_placement_projections@,
                        submission_id,
                        pod_id,
                    )
                    &&& after.placement_tombstones@.len() == before.placement_tombstones@.len() + 1
                    &&& after.placement_tombstones@.drop_last() == before.placement_tombstones@
                    &&& t.content_item_id == submission_id && t.origin_placement == o
                },
                None => after.accepted_placement_projections == before.accepted_placement_projections
                    && after.placement_tombstones == before.placement_tombstones,
            }
            &&& after == (Store {
                submission_pods: after.submission_pods,
                accepted_placement_projections: after.accepted_placement_projections,
                placement_tombstones: after.placement_tombstones,
                ..before
            })
        },
    }
}

/// An approved visibility change only ever widens who sees the Pod: applied,
/// publishing or expanding leaves the Pod strictly more exposed than it was,
/// and touches no other Pod.
pub proof fn lemma_visibility_changes_only_widen(
    before: Store,
    after: Store,
    ctx: AuthContext,
    change: SensitiveChangeModel,
    pod_id: u128,
)
    requires
        change == (SensitiveChangeModel::PublishPod { pod_id }) || (change matches SensitiveChangeModel::ExpandPodVisibility {
            pod_id: p,
            ..
        } && p == pod_id),
        apply_check(before, ctx, change) is Ok,
        applied(before, after, ctx, change),
    ensures
        ({
            let i = first_index(before.pods@, pod_with_id(pod_id));
            &&& 0 <= i < after.pods@.len()
            &&& after.pods@[i].id == pod_id
            &&& visibility_exposure(after.pods@[i].visibility) > visibility_exposure(before.pods@[i].visibility)
            &&& forall|j: int| 0 <= j < before.pods@.len() && j != i ==> after.pods@[j] == before.pods@[j]
        }),
{
    lemma_first_index(before.pods@, pod_with_id(pod_id));
}

/// `after` is `before` with the Pod `pod_id` given `visibility`.
pub open spec fn pod_shown_as(before: Store, after: Store, pod_id: u128, visibility: Visibility) -> bool {
    let i = first_index(before.pods@, pod_with_id(pod_id));
    &&& after.pods@ == before.pods@.update(i, Pod { visibility, ..before.pods@[i] })
    &&& after == (Store { pods: after.pods, ..before })
}

/// Applies an approved change; when it no longer applies, the store is left as it was.
pub fn apply_sensitive_change(store: &mut Store, ctx: &AuthContext, change: &SensitiveChange) -> (r: Result<(), AgentToolsError>)
    ensures
        match apply_check(*old(store), *ctx, change@) {
            Err(d) => r matches Err(e) && denies(e, d) && *final(store) == *old(store),
            Ok(()) => r is Ok && applied(*old(store), *final(store), *ctx, change@),
        },
{
    match change {
        SensitiveChange::ExpandHarnessGrant { harness_id, capabilities, pod_ids } => {
            let i = match store.find_harness(*harness_id) {
                Some(i) => i,
                None => return Err(not_found_for("Agent Harness ", *harness_id)),
            };
            if store.agent_harnesses[i].tenant_id != ctx.tenant_id {
                return Err(AgentToolsError::Store(StoreError::TenantBoundary));
            }
            let requested = capabilities.clone();
            assert(requested@ =~= capabilities@);
            let caps = normalize_capabilities(requested);
            if !keeps_all(&store.agent_harnesses[i].grant.capabilities, &caps) || !grant_scope_expands(
                &store.agent_harnesses[i].grant.pod_ids,
                pod_ids,
            ) {
                return Err(validation("Harness Grant changed after proposal creation"));
            }
            let scope = match pod_ids {
                Some(ids) => {
                    let copy = ids.clone();
                    assert(copy@ =~= ids@);
                    Some(normalize_pod_ids(copy))
                },
                None => None,
            };
            let mut h = store.agent_harnesses[i].clone();
            h.grant = HarnessGrant { capabilities: caps, pod_ids: scope };
            store.agent_harnesses.set(i, h);
            Ok(())
        },
        SensitiveChange::AddTrustedPeer { node_id, display_name, base_url, public_key } => {
            let peers = &store.trusted_peers;
            let mut i: usize = 0;
            while i < peers.len()
                invariant
                    i <= peers@.len(),
                    *store == *old(store),
                    *peers == store.trusted_peers,
                    change@ == (SensitiveChangeModel::AddTrustedPeer {
                        node_id: *node_id,
                        display_name: *display_name,
                        base_url: *base_url,
                        public_key: *public_key,
                    }),
                    forall|j: int| 0 <= j < i ==> !peer_conflict(ctx.tenant_id, base_url@, *node_id)(#[trigger] peers@[j]),
                decreases peers@.len() - i,
            {
                let p = &peers[i];
                if p.tenant_id == ctx.tenant_id && (p.base_url == *base_url || (*node_id != 0 && p.node_id == *node_id)) {
                    assert(peer_conflict(ctx.tenant_id, base_url@, *node_id)(peers@[i as int]));
                    let mut message = String::from_str("trusted peer ");
                    message.append(base_url.as_str());
                    return Err(AgentToolsError::Store(StoreError::Duplicate(message)));
                }
                i = i + 1;
            }
            let peer = TrustedPeer {
                id: new_id(),
                node_id: *node_id,
                tenant_id: ctx.tenant_id,
                display_name: display_name.clone(),
                base_url: base_url.clone(),
                public_key: public_key.clone(),
                trust_level: TrustLevel::ReadOnly,
                enabled: true,
                created_at: now_millis(),
            };
            let ghost before = store.trusted_peers@;
            store.trusted_peers.push(peer);
            assert(store.trusted_peers@.drop_last() =~= before);
            Ok(())
        },
        SensitiveChange::RemoveTrustedPeer { peer_id } => {
            let i = match find_peer(store, *peer_id) {
                Some(i) => i,
                None => return Err(not_found_for("trusted peer ", *peer_id)),
            };
            if store.trusted_peers[i].tenant_id != ctx.tenant_id {
                return Err(AgentToolsError::Store(StoreError::TenantBoundary));
            }
            if !store.trusted_peers[i].enabled {
                return Err(validation("trusted peer is already disabled"));
            }
            let mut p = store.trusted_peers[i].clone();
            p.enabled = false;
            store.trusted_peers.set(i, p);
            Ok(())
        },
        SensitiveChange::GrantPodRole { pod_id, user_id, role } => {
            let mut kept = roles_without_user(&store.pod_roles, *pod_id, *user_id);
            let ghost filtered = kept@;
            kept.push(PodRoleAssignment { user_id: *user_id, pod_id: *pod_id, role: *role, created_at: now_millis() });
            assert(kept@.drop_last() =~= filtered);
            store.pod_roles = kept;
            Ok(())
        },
        SensitiveChange::RevokePodRole { pod_id, user_id, role } => {
            if holds_role(&store.pod_roles, *pod_id, *user_id, *role).is_none() {
                proof { lemma_first_index(store.pod_roles@, exact_role(*pod_id, *user_id, *role)); }
                return Err(not_found_for("Pod Role for User ", *user_id));
            }
            proof { lemma_first_index(store.pod_roles@, exact_role(*pod_id, *user_id, *role)); }
            let kept = roles_lacking(&store.pod_roles, *pod_id, *user_id, *role);
            store.pod_roles = kept;
            Ok(())
        },
        SensitiveChange::PublishPod { pod_id } => {
            let i = match store.find_pod(*pod_id) {
                Some(i) => i,
                None => return Err(not_found_for("pod ", *pod_id)),
            };
            store.assert_tenant(store.pods[i].tenant_id, ctx.tenant_id)?;
            if store.pods[i].visibility == Visibility::Public {
                return Err(validation("Pod is already public"));
            }
            check_publication(store, ctx, *pod_id)?;
            let mut pod = store.pods[i].clone();
            pod.visibility = Visibility::Public;
            store.pods.set(i, pod);
            Ok(())
        },
        SensitiveChange::ExpandPodVisibility { pod_id, visibility } => {
            let i = match store.find_pod(*pod_id) {
                Some(i) => i,
                None => return Err(not_found_for("pod ", *pod_id)),
            };
            store.assert_tenant(store.pods[i].tenant_id, ctx.tenant_id)?;
            if exposure(*visibility) <= exposure(store.pods[i].visibility) {
                return Err(validation("approved visibility must expand exposure"));
            }
            if *visibility == Visibility::Public {
                check_publication(store, ctx, *pod_id)?;
            }
            let mut pod = store.pods[i].clone();
            pod.visibility = *visibility;
            store.pods.set(i, pod);
            Ok(())
        },
        SensitiveChange::RemovePublicSubmissionFromPod { pod_id, submission_id } => withdraw_public_submission(
            store,
            ctx,
            *pod_id,
            *submission_id,
        ),
    }
}

/// Withdraws a Submission from a public Pod, keeping a tombstone of its
/// recorded placement; checks every condition before it changes anything.
fn withdraw_public_submission(store: &mut Store, ctx: &AuthContext, pod_id: u128, submission_id: u128) -> (r: Result<
    (),
    AgentToolsError,
>)
    ensures
        match apply_check(
            *old(store),
            *ctx,
            SensitiveChangeModel::RemovePublicSubmissionFromPod { pod_id, submission_id },
        ) {
            Err(d) => r matches Err(e) && denies(e, d) && *final(store) == *old(store),
            Ok(()) => r is Ok && applied(
                *old(store),
                *final(store),
                *ctx,
                SensitiveChangeModel::RemovePublicSubmissionFromPod { pod_id, submission_id },
            ),
        },
{
    let i = match store.find_pod(pod_id) {
        Some(i) => i,
        None => return Err(not_found_for("pod ", pod_id)),
    };
    store.assert_tenant(store.pods[i].tenant_id, ctx.tenant_id)?;
    store.node_for_tenant(ctx.tenant_id)?;
    if !has_link(&store.submission_pods, pod_id, submission_id) {
        return Err(validation("public Pod Placement changed after proposal creation"));
    }
    let ps = &store.accepted_placement_projections;
    let mut k: usize = 0;
    while k < ps.len() && !(ps[k].content_item_id == submission_id && ps[k].pod_id == pod_id)
        invariant
            k <= ps@.len(),
            forall|j: int| 0 <= j < k ==> !projection_for(submission_id, pod_id)(#[trigger] ps@[j]),
        decreases ps@.len() - k,
    {
        k = k + 1;
    }
    proof {
        lemma_first_index_at(ps@, projection_for(submission_id, pod_id), k as int);
        lemma_first_index(ps@, projection_for(submission_id, pod_id));
    }
    if k < ps.len() {
        let subs = &store.submissions;
        let mut x: usize = 0;
        while x < subs.len() && subs[x].id != submission_id
            invariant
                x <= subs@.len(),
                forall|j: int| 0 <= j < x ==> !submission_with_id(submission_id)(#[trigger] subs@[j]),
            decreases subs@.len() - x,
        {
            x = x + 1;
        }
        proof {
            lemma_first_index_at(subs@, submission_with_id(submission_id), x as int);
            lemma_first_index(subs@, submission_with_id(submission_id));
        }
        if x == subs.len() {
            return Err(not_found("Content Reference"));
        }
    }
    let kept = unlink(&store.submission_pods, pod_id, submission_id);
    store.submission_pods = kept;
    if k < store.accepted_placement_projections.len() {
        let origin = store.accepted_placement_projections[k];
        store.accepted_placement_projections.remove(k);
        let ghost before = store.placement_tombstones@;
        store.placement_tombstones.push(
            PlacementTombstone { content_item_id: submission_id, origin_placement: origin, withdrawn_at: now_millis() },
        );
        assert(store.placement_tombstones@.drop_last() =~= before);
    }
    Ok(())
}

/// Checks that the tenant's node identity and the Pod's Package exist.
fn check_publication(store: &Store, ctx: &AuthContext, pod_id: u128) -> (r: Result<(), AgentToolsError>)
    ensures
        match publication_check(*store, *ctx, pod_id) {
            Err(d) => r matches Err(e) && denies(e, d),
            Ok(()) => r is Ok,
        },
{
    store.node_for_tenant(ctx.tenant_id)?;
    let packs = &store.pod_skill_packs;
    let mut i: usize = 0;
    while i < packs.len()
        invariant
            i <= packs@.len(),
            *packs == store.pod_skill_packs,
            store.node_for_tenant_spec(ctx.tenant_id) is Ok,
            forall|j: int| 0 <= j < i ==> !pack_of(pod_id)(#[trigger] packs@[j]),
        decreases packs@.len() - i,
    {
        if packs[i].pod_id == pod_id {
            assert(pack_of(pod_id)(packs@[i as int]));
            return Ok(());
        }
        i = i + 1;
    }
    Err(not_found("Pod Package"))
}

/// The assignments kept by removing every copy of one role of one User in one Pod.
pub fn roles_lacking(roles: &Vec<PodRoleAssignment>, pod_id: u128, user_id: u128, role: PodRole) -> (r: Vec<PodRoleAssignment>)
    ensures
        r@ == roles@.filter(lacks_role(pod_id, user_id, role)),
{
    let ghost p = lacks_role(pod_id, user_id, role);
    let mut r: Vec<PodRoleAssignment> = Vec::new();
    let mut i: usize = 0;
    while i < roles.len()
        invariant
            p == lacks_role(pod_id, user_id, role),
            i <= roles@.len(),
            r@ == roles@.take(i as int).filter(p),
        decreases roles@.len() - i,
    {
        proof { lemma_filter_take_step(roles@, p, i as int); }
        if !(roles[i].pod_id == pod_id && roles[i].user_id == user_id && roles[i].role == role) {
            r.push(roles[i]);
        }
        i = i + 1;
    }
    assert(roles@.take(roles@.len() as int) =~= roles@);
    r
}

/// The proposal `id` as decided by `actor` at `now`.
pub open spec fn decided(m: PendingProposalModel, status: ProposalStatus, actor: ProposalDecisionActor, now: i64) -> PendingProposalModel {
    PendingProposalModel { status, decided_by: Some(actor), decided_at: Some(now), ..m }
}

/// What approving proposal `id` at `now` does to the store and returns.
pub open spec fn approval_outcome(
    before: Store,
    after: Store,
    r: Result<PendingProposal, AgentToolsError>,
    ctx: AuthContext,
    id: u128,
    now: i64,
) -> bool {
    match approver_check(before, ctx, id) {
        Err(d) => r matches Err(e) && denies(e, d) && after == before,
        Ok(actor) => {
            let i = proposal_index(before, id);
            let m = expired_at(before.pending_proposals@[i]@, now);
            if m.status != ProposalStatus::Pending {
                &&& r matches Err(e) && denies(e, Denial::Validation("Pending Proposal is terminal"@))
                &&& if m == before.pending_proposals@[i]@ {
                    after == before
                } else {
                    proposal_replaced(before, after, i, m)
                }
            } else if !diff_is_fresh(before, m) {
                r matches Err(e) && denies(e, Denial::Validation("proposal structured diff is stale; create a new Pending Proposal"@))
                    && after == before
            } else {
                match apply_check(before, ctx, m.requested_change) {
                    Err(d) => r matches Err(e) && denies(e, d) && after == before,
                    Ok(()) => {
                        let accepted = decided(m, ProposalStatus::Accepted, actor, now);
                        let mid = Store { pending_proposals: before.pending_proposals, ..after };
                        &&& applied(before, mid, ctx, m.requested_change)
                        &&& proposal_replaced(mid, after, i, accepted)
                        &&& r matches Ok(x) && x@ == accepted
                    },
                }
            }
        },
    }
}

/// What proposing `change` at `now`, open until `expires_at`, does to the store and returns.
pub open spec fn proposal_outcome(
    before: Store,
    after: Store,
    r: Result<PendingProposal, AgentToolsError>,
    ctx: AuthContext,
    change: SensitiveChangeModel,
    now: i64,
    expires_at: i64,
) -> bool {
    match proposer_check(before, ctx, now, expires_at) {
        Err(d) => r matches Err(e) && denies(e, d) && after == before,
        Ok(h) => match change_plan(before, ctx, change, now) {
            Err(d) => r matches Err(e) && denies(e, d) && after == before,
            Ok(plan) => r matches Ok(x) && {
                &&& x@ == (PendingProposalModel {
                    id: x.id,
                    requested_change: change,
                    affected_resources: plan.resources,
                    expected_consequences: plan.consequences,
                    structured_diff: plan.diff,
                    proposer: h.id,
                    user_id: h.user_id,
                    tenant_id: h.tenant_id,
                    created_at: now,
                    expires_at,
                    status: ProposalStatus::Pending,
                    decided_by: None,
                    decided_at: None,
                    rejection_reason: None,
                })
                &&& after.pending_proposals@.len() == before.pending_proposals@.len() + 1
                &&& after.pending_proposals@.drop_last() == before.pending_proposals@
                &&& after.pending_proposals@.last()@ == x@
                &&& after == (Store { pending_proposals: after.pending_proposals, ..before })
            },
        },
    }
}

/// A harness never decides its own proposal.
pub proof fn lemma_proposer_cannot_decide(s: Store, ctx: AuthContext, id: u128)
    requires
        proposal_index(s, id) >= 0,
        context_harness(s, ctx) matches Ok(Some(h)) && h.id == s.pending_proposals@[proposal_index(s, id)].proposer,
    ensures
        approver_check(s, ctx, id) is Err,
{
}

/// Only the proposal's own User decides it, directly or through one of
/// their interactive harnesses.
pub proof fn lemma_only_the_proposal_user_decides(s: Store, ctx: AuthContext, id: u128)
    requires
        approver_check(s, ctx, id) is Ok,
    ensures
        proposal_index(s, id) >= 0,
        ctx.user_id == Some(s.pending_proposals@[proposal_index(s, id)].user_id),
        ctx.tenant_id == s.pending_proposals@[proposal_index(s, id)].tenant_id,
        approver_check(s, ctx, id) matches Ok(ProposalDecisionActor::Harness(h)) ==> ctx.harness_id == Some(h)
            && h != s.pending_proposals@[proposal_index(s, id)].proposer,
{
    if ctx.harness_id is Some {
        lemma_first_index(s.agent_harnesses@, harness_with_id(ctx.harness_id->0));
    }
}

/// A decided or expired proposal stays as it is: observing it later changes
/// nothing, so it can be neither approved nor rejected again.
pub proof fn lemma_decisions_are_final(m: PendingProposalModel, now: i64)
    requires
        m.status != ProposalStatus::Pending,
    ensures
        expired_at(m, now) == m,
{
}

/// A pending proposal observed at or after its expiry is expired, and so can
/// no longer be approved or rejected.
pub proof fn lemma_late_proposals_expire(m: PendingProposalModel, now: i64)
    requires
        m.status == ProposalStatus::Pending,
        now >= m.expires_at,
    ensures
        expired_at(m, now).status == ProposalStatus::Expired,
        expired_at(m, now).decided_at == Some(now),
{
}

impl AgentTools {
    /// Proposes a sensitive change, open for decision until `expires_at`
    /// (after `now` and within seven days).
    pub fn create_pending_proposal(
        &mut self,
        ctx: &AuthContext,
        requested_change: SensitiveChange,
        now: i64,
        expires_at: i64,
    ) -> (r: Result<PendingProposal, AgentToolsError>)
        ensures
            proposal_outcome(old(self).store, final(self).store, r, *ctx, requested_change@, now, expires_at),
    {
        if ctx.harness_id.is_none() {
            return Err(forbidden("Pending Proposals require an authenticated Agent Harness"));
        }
        let (proposer, user_id, tenant_id) = match harness_for_context(&self.store, ctx)? {
            Some(h) => (h.id, h.user_id, h.tenant_id),
            None => return Err(forbidden("Pending Proposals require an authenticated Agent Harness")),
        };
        if expires_at <= now || (expires_at as i128) - (now as i128) > 604_800_000i128 {
            return Err(validation("Pending Proposal expiry must be within seven days"));
        }
        let (affected_resources, expected_consequences, structured_diff) = plan_sensitive_change(
            &self.store,
            ctx,
            &requested_change,
            now,
        )?;
        let proposal = PendingProposal {
            id: new_id(),
            requested_change,
            affected_resources,
            expected_consequences,
            structured_diff,
            proposer,
            user_id,
            tenant_id,
            created_at: now,
            expires_at,
            status: ProposalStatus::Pending,
            decided_by: None,
            decided_at: None,
            rejection_reason: None,
        };
        let result = proposal.clone();
        let ghost before = self.store.pending_proposals@;
        self.store.pending_proposals.push(proposal);
        assert(self.store.pending_proposals@.drop_last() =~= before);
        Ok(result)
    }

    /// Independently approves a live proposal and applies its change atomically:
    /// if the change no longer applies, nothing changes.
    pub fn approve_pending_proposal(&mut self, ctx: &AuthContext, proposal_id: u128, now: i64) -> (r: Result<
        PendingProposal,
        AgentToolsError,
    >)
        ensures
            approval_outcome(old(self).store, final(self).store, r, *ctx, proposal_id, now),
    {
        let approver = authorize_independent_approver(&self.store, ctx, proposal_id)?;
        let i = match find_proposal(&self.store, proposal_id) {
            Some(i) => i,
            None => return Err(not_found_for("Pending Proposal ", proposal_id)),
        };
        expire_proposal(&mut self.store, proposal_id, now)?;
        if self.store.pending_proposals[i].status != ProposalStatus::Pending {
            return Err(validation("Pending Proposal is terminal"));
        }
        validate_structured_diff(&self.store, &self.store.pending_proposals[i])?;
        let change = self.store.pending_proposals[i].requested_change.clone();
        let ghost s1 = self.store;
        apply_sensitive_change(&mut self.store, ctx, &change)?;
        let mut p = self.store.pending_proposals[i].clone();
        p.status = ProposalStatus::Accepted;
        p.decided_by = Some(approver);
        p.decided_at = Some(now);
        let result = p.clone();
        self.store.pending_proposals.set(i, p);
        Ok(result)
    }
}

/// How long a proposal requested with the default lifetime stays open, in seconds.
pub const DEFAULT_PENDING_PROPOSAL_SECONDS: u64 = 3_600;

/// A proposal request with an expiry relative to the moment it is made.
#[derive(Debug)]
pub struct CreatePendingProposalRequest {
    pub requested_change: SensitiveChange,
    pub expires_in_seconds: u64,
}

impl AgentTools {
    /// Proposes a change open for `request.expires_in_seconds` seconds from `now`;
    /// a lifetime beyond the signed range of seconds is refused.
    pub fn create_pending_proposal_from_request(
        &mut self,
        ctx: &AuthContext,
        request: CreatePendingProposalRequest,
        now: i64,
    ) -> (r: Result<PendingProposal, AgentToolsError>)
        requires
            request.expires_in_seconds <= i64::MAX ==> 1000 * request.expires_in_seconds <= i64::MAX && now + 1000
                * request.expires_in_seconds <= i64::MAX,
        ensures
            if request.expires_in_seconds > i64::MAX {
                r matches Err(e) && denies(e, Denial::Validation("Pending Proposal expiry is too large"@))
                    && final(self).store == old(self).store
            } else {
                proposal_outcome(
                    old(self).store,
                    final(self).store,
                    r,
                    *ctx,
                    request.requested_change@,
                    now,
                    (now + 1000 * request.expires_in_seconds) as i64,
                )
            },
    {
        if request.expires_in_seconds > 9_223_372_036_854_775_807u64 {
            return Err(validation("Pending Proposal expiry is too large"));
        }
        let expires_at = now + 1000 * (request.expires_in_seconds as i64);
        self.create_pending_proposal(ctx, request.requested_change, now, expires_at)
    }

    /// Requests an expansion of a harness's grant through independent approval, open for a day.
    pub fn request_harness_grant_expansion(
        &mut self,
        ctx: &AuthContext,
        harness_id: u128,
        capabilities: Vec<HarnessCapability>,
        pod_ids: Option<Vec<u128>>,
        now: i64,
    ) -> (r: Result<PendingProposal, AgentToolsError>)
        requires
            now + 86_400_000 <= i64::MAX,
        ensures
            proposal_outcome(
                old(self).store,
                final(self).store,
                r,
                *ctx,
                SensitiveChangeModel::ExpandHarnessGrant { harness_id, capabilities: capabilities@, pod_ids: opt_vec_view(pod_ids) },
                now,
                (now + 86_400_000) as i64,
            ),
    {
        self.create_pending_proposal(
            ctx,
            SensitiveChange::ExpandHarnessGrant { harness_id, capabilities, pod_ids },
            now,
            now + 86_400_000,
        )
    }

    /// Requests an Owner-authorized Pod Role grant through independent approval, open for a day.
    pub fn request_grant_pod_role(&mut self, ctx: &AuthContext, pod_id: u128, user_id: u128, role: PodRole, now: i64) -> (r: Result<
        PendingProposal,
        AgentToolsError,
    >)
        requires
            now + 86_400_000 <= i64::MAX,
        ensures
            proposal_outcome(
                old(self).store,
                final(self).store,
                r,
                *ctx,
                SensitiveChangeModel::GrantPodRole { pod_id, user_id, role },
                now,
                (now + 86_400_000) as i64,
            ),
    {
        self.create_pending_proposal(ctx, SensitiveChange::GrantPodRole { pod_id, user_id, role }, now, now + 86_400_000)
    }

    /// Requests an Owner-authorized Pod Role revocation through independent approval, open for a day.
    pub fn request_revoke_pod_role(&mut self, ctx: &AuthContext, pod_id: u128, user_id: u128, role: PodRole, now: i64) -> (r: Result<
        PendingProposal,
        AgentToolsError,
    >)
        requires
            now + 86_400_000 <= i64::MAX,
        ensures
            proposal_outcome(
                old(self).store,
                final(self).store,
                r,
                *ctx,
                SensitiveChangeModel::RevokePodRole { pod_id, user_id, role },
                now,
                (now + 86_400_000) as i64,
            ),
    {
        self.create_pending_proposal(ctx, SensitiveChange::RevokePodRole { pod_id, user_id, role }, now, now + 86_400_000)
    }

    /// Requests approval to trust a peer not yet known by a node identity, open for an hour.
    pub fn request_add_trusted_peer(
        &mut self,
        ctx: &AuthContext,
        display_name: String,
        base_url: String,
        public_key: String,
        now: i64,
    ) -> (r: Result<PendingProposal, AgentToolsError>)
        requires
            now + 3_600_000 <= i64::MAX,
        ensures
            proposal_outcome(
                old(self).store,
                final(self).store,
                r,
                *ctx,
                SensitiveChangeModel::AddTrustedPeer { node_id: 0, display_name, base_url, public_key },
                now,
                (now + 3_600_000) as i64,
            ),
    {
        self.create_pending_proposal_from_request(
            ctx,
            CreatePendingProposalRequest {
                requested_change: SensitiveChange::AddTrustedPeer { node_id: 0, display_name, base_url, public_key },
                expires_in_seconds: DEFAULT_PENDING_PROPOSAL_SECONDS,
            },
            now,
        )
    }

    /// Requests approval to trust one canonical remote node identity, open for an hour.
    pub fn request_add_trusted_node(&mut self, ctx: &AuthContext, node: NodeInfo, base_url: String, now: i64) -> (r: Result<
        PendingProposal,
        AgentToolsError,
    >)
        requires
            now + 3_600_000 <= i64::MAX,
        ensures
            if node.node_id == 0 {
                r matches Err(e) && denies(e, Denial::Validation("canonical Node ID must not be nil"@))
                    && final(self).store == old(self).store
            } else if node.supported_protocol_version@ != CURRENT_PROTOCOL_VERSION@ {
                r matches Err(e) && denies(e, Denial::Validation("unsupported Node protocol "@ + node.supported_protocol_version@))
                    && final(self).store == old(self).store
            } else {
                proposal_outcome(
                    old(self).store,
                    final(self).store,
                    r,
                    *ctx,
                    SensitiveChangeModel::AddTrustedPeer {
                        node_id: node.node_id,
                        display_name: node.display_name,
                        base_url,
                        public_key: node.public_key,
                    },
                    now,
                    (now + 3_600_000) as i64,
                )
            },
    {
        if node.node_id == 0 {
            return Err(validation("canonical Node ID must not be nil"));
        }
        if node.supported_protocol_version != String::from_str(CURRENT_PROTOCOL_VERSION) {
            let mut message = String::from_str("unsupported Node protocol ");
            message.append(node.supported_protocol_version.as_str());
            return Err(AgentToolsError::Store(StoreError::Validation(message)));
        }
        self.create_pending_proposal_from_request(
            ctx,
            CreatePendingProposalRequest {
                requested_change: SensitiveChange::AddTrustedPeer {
                    node_id: node.node_id,
                    display_name: node.display_name,
                    base_url,
                    public_key: node.public_key,
                },
                expires_in_seconds: DEFAULT_PENDING_PROPOSAL_SECONDS,
            },
            now,
        )
    }

    /// Requests independent approval to disable one trusted peer, open for an hour.
    pub fn request_remove_trusted_peer(&mut self, ctx: &AuthContext, peer_id: u128, now: i64) -> (r: Result<
        PendingProposal,
        AgentToolsError,
    >)
        requires
            now + 3_600_000 <= i64::MAX,
        ensures
            proposal_outcome(
                old(self).store,
                final(self).store,
                r,
                *ctx,
                SensitiveChangeModel::RemoveTrustedPeer { peer_id },
                now,
                (now + 3_600_000) as i64,
            ),
    {
        self.create_pending_proposal_from_request(
            ctx,
            CreatePendingProposalRequest {
                requested_change: SensitiveChange::RemoveTrustedPeer { peer_id },
                expires_in_seconds: DEFAULT_PENDING_PROPOSAL_SECONDS,
            },
            now,
        )
    }
}

/// What asking for a new Pod visibility did.
#[derive(Debug)]
pub enum PodVisibilityOutcome {
    /// A wider audience waits for independent approval.
    PendingApproval(Box<PendingProposal>),
    /// A narrower audience took effect at once.
    Updated(Pod),
}

/// The proposal a visibility request made, if it made one.
pub open spec fn proposal_of(r: Result<PodVisibilityOutcome, AgentToolsError>) -> Result<PendingProposal, AgentToolsError> {
    match r {
        Ok(PodVisibilityOutcome::PendingApproval(b)) => Ok(*b),
        Ok(PodVisibilityOutcome::Updated(_)) => Err(AgentToolsError::LockPoisoned),
        Err(e) => Err(e),
    }
}

/// What asking for a new Pod visibility does: the caller must own a Pod of
/// the tenant and ask for a change; a wider audience becomes a Pending
/// Proposal open for an hour, a narrower one takes effect at once and is
/// attributed to the harness.
pub open spec fn visibility_outcome(
    before: Store,
    after: Store,
    r: Result<PodVisibilityOutcome, AgentToolsError>,
    ctx: AuthContext,
    pod_id: u128,
    visibility: Visibility,
    now: i64,
) -> bool {
    let i = first_index(before.pods@, pod_with_id(pod_id));
    if pod_owner_check(before, ctx, pod_id) is Err {
        r matches Err(e) && denies(e, pod_owner_check(before, ctx, pod_id)->Err_0) && after == before
    } else if i < 0 {
        r matches Err(e) && denies(e, Denial::NotFound("pod "@ + uuid_text(pod_id))) && after == before
    } else if tenant_check(before.pods@[i].tenant_id, ctx.tenant_id) is Err {
        r matches Err(e) && denies(e, tenant_check(before.pods@[i].tenant_id, ctx.tenant_id)->Err_0) && after == before
    } else if before.pods@[i].visibility == visibility {
        r matches Err(e) && denies(e, Denial::Validation("Pod already has that visibility"@)) && after == before
    } else if visibility_exposure(visibility) > visibility_exposure(before.pods@[i].visibility) {
        &&& !(r matches Ok(PodVisibilityOutcome::Updated(_)))
        &&& proposal_outcome(
            before,
            after,
            proposal_of(r),
            ctx,
            SensitiveChangeModel::ExpandPodVisibility { pod_id, visibility },
            now,
            (now + 3_600_000) as i64,
        )
    } else {
        let q = Pod { visibility, ..before.pods@[i] };
        &&& r matches Ok(PodVisibilityOutcome::Updated(x)) && x == q
        &&& after.pods@ == before.pods@.update(i, q)
        &&& audited(before.harness_write_audit@, after.harness_write_audit@, ctx, HarnessWriteOperation::CreatePod, Some(pod_id))
        &&& after == (Store { pods: after.pods, harness_write_audit: after.harness_write_audit, ..before })
    }
}

impl AgentTools {
    /// Asks for Pod `pod_id` to have `visibility`: narrowing takes effect at
    /// once, widening is proposed for independent approval, open for an hour.
    pub fn request_set_pod_visibility(&mut self, ctx: &AuthContext, pod_id: u128, visibility: Visibility, now: i64) -> (r:
        Result<PodVisibilityOutcome, AgentToolsError>)
        requires
            now + 3_600_000 <= i64::MAX,
        ensures
            visibility_outcome(old(self).store, final(self).store, r, *ctx, pod_id, visibility, now),
    {
        authorize_pod_role_owner(&self.store, ctx, pod_id)?;
        let i = match self.store.find_pod(pod_id) {
            Some(i) => i,
            None => return Err(not_found_for("pod ", pod_id)),
        };
        self.store.assert_tenant(self.store.pods[i].tenant_id, ctx.tenant_id)?;
        let current = self.store.pods[i].visibility;
        if current == visibility {
            return Err(validation("Pod already has that visibility"));
        }
        if exposure(visibility) > exposure(current) {
            let proposal = self.create_pending_proposal(
                ctx,
                SensitiveChange::ExpandPodVisibility { pod_id, visibility },
                now,
                now + 3_600_000,
            )?;
            return Ok(PodVisibilityOutcome::PendingApproval(Box::new(proposal)));
        }
        let mut pod = self.store.pods[i].clone();
        pod.visibility = visibility;
        let result = pod.clone();
        self.store.pods.set(i, pod);
        record_harness_write(&mut self.store, ctx, HarnessWriteOperation::CreatePod, Some(pod_id));
        Ok(PodVisibilityOutcome::Updated(result))
    }
}

/// What asking to remove a Submission from a Pod did.
#[derive(Debug)]
pub enum RemoveSubmissionOutcome {
    /// The Submission left the Pod; it was purged when no Pod links it any more.
    Removed { submission_purged: bool },
    /// The Pod is public: the withdrawal waits for independent approval.
    PendingApproval(Box<PendingProposal>),
}

/// The proposal a removal request made, if it made one.
pub open spec fn pending_of(r: Result<RemoveSubmissionOutcome, AgentToolsError>) -> Result<PendingProposal, AgentToolsError> {
    match r {
        Ok(RemoveSubmissionOutcome::PendingApproval(b)) => Ok(*b),
        Ok(RemoveSubmissionOutcome::Removed { .. }) => Err(AgentToolsError::LockPoisoned),
        Err(e) => Err(e),
    }
}

/// Whether a removal request purged the Submission, if it removed it.
pub open spec fn purged_of(r: Result<RemoveSubmissionOutcome, AgentToolsError>) -> Result<bool, AgentToolsError> {
    match r {
        Ok(RemoveSubmissionOutcome::Removed { submission_purged }) => Ok(submission_purged),
        Ok(RemoveSubmissionOutcome::PendingApproval(_)) => Err(AgentToolsError::LockPoisoned),
        Err(e) => Err(e),
    }
}

/// What asking to remove a Submission from a Pod does: from a public Pod it
/// is proposed for independent approval, open for an hour; from any other
/// Pod it is removed at once, as `removal_outcome` says.
pub open spec fn removal_request_outcome(
    before: Store,
    after: Store,
    r: Result<RemoveSubmissionOutcome, AgentToolsError>,
    ctx: AuthContext,
    pod_slug: Seq<char>,
    submission_id: u128,
    now: i64,
) -> bool {
    match before.pod_by_slug_spec(pod_slug, ctx.tenant_id) {
        Err(d) => r matches Err(e) && denies(e, d) && after == before,
        Ok(pod) => if pod.visibility == Visibility::Public {
            &&& !(r matches Ok(RemoveSubmissionOutcome::Removed { .. }))
            &&& proposal_outcome(
                before,
                after,
                pending_of(r),
                ctx,
                SensitiveChangeModel::RemovePublicSubmissionFromPod { pod_id: pod.id, submission_id },
                now,
                (now + 3_600_000) as i64,
            )
        } else {
            &&& !(r matches Ok(RemoveSubmissionOutcome::PendingApproval(_)))
            &&& crate::links::removal_outcome(before, after, purged_of(r), ctx, pod_slug, submission_id)
        },
    }
}

impl AgentTools {
    /// Removes Submission `submission_id` from the Pod with slug `pod_slug`:
    /// at once from a Pod that is not public, through a Pending Proposal open
    /// for an hour from a public one.
    pub fn request_remove_submission_from_pod(&mut self, ctx: &AuthContext, pod_slug: &str, submission_id: u128, now: i64) -> (r:
        Result<RemoveSubmissionOutcome, AgentToolsError>)
        requires
            now + 3_600_000 <= i64::MAX,
        ensures
            removal_request_outcome(old(self).store, final(self).store, r, *ctx, pod_slug@, submission_id, now),
    {
        let pod = self.store.pod_by_slug(pod_slug, ctx.tenant_id)?;
        if pod.visibility == Visibility::Public {
            let pod_id = pod.id;
            let proposal = self.create_pending_proposal(
                ctx,
                SensitiveChange::RemovePublicSubmissionFromPod { pod_id, submission_id },
                now,
                now + 3_600_000,
            )?;
            return Ok(RemoveSubmissionOutcome::PendingApproval(Box::new(proposal)));
        }
        let submission_purged = self.remove_submission_from_pod(ctx, pod_slug, submission_id)?;
        Ok(RemoveSubmissionOutcome::Removed { submission_purged })
    }
}

} // verus!
