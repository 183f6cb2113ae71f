//! The Home Node's in-memory state and its lookups.
//!
//! Every keyed collection is a sequence; a lookup by key yields the first
//! element carrying that key. New records are appended under identifiers
//! drawn from the UUID generator, whose distinctness from the stored ones is
//! the generator's and is not proved here; where the operations themselves
//! key a record (such as the mapping of federated Content Items), writing the
//! key replaces the element that carries it.
use crate::error::{denies, not_found, refuses_as, AgentToolsError, Denial, StoreError};
use crate::candidates::{Candidate, CandidateSubmission};
use crate::proposals::PendingProposal;
use crate::links::CrawlCandidate;
use crate::seqs::{first_index, first_match, lemma_first_index_at};
use crate::types::{
    AcceptedPlacementProjection, FederatedContentItemLink, PlacementTombstone, AgentHarness, CrawlerSource, EventLog, TrustPolicy, ApiToken, AuthenticationNeededNotice, Brief,
    DiscoveryPlan, DiscoveryResultBatch, DiscoveryResultItem, DiscoveryResultsReadyEvent, TasteLearningEvidence, DiscoveryTask, DiscoveryTaskSourceAvailability,
    HarnessWriteAudit, HubRegisteredNode, NodeIdentity, PersonalDiscoverySchedule, Pod,
    PodPlacement, PodRoleAssignment, PodSkillPack, Submission, SubmissionAsset, SubmissionPod,
    Subscription, Tenant, TenantUser, TrustedPeer, User, UserContext, UserPreferences, UserWatch,
};
use vstd::prelude::*;

verus! {

/// All state the agent tool surface reads and writes.
#[derive(Debug)]
pub struct Store {
    pub users: Vec<User>,
    pub node_identities: Vec<NodeIdentity>,
    pub agent_harnesses: Vec<AgentHarness>,
    pub api_tokens: Vec<ApiToken>,
    pub pods: Vec<Pod>,
    pub subscriptions: Vec<Subscription>,
    pub pod_roles: Vec<PodRoleAssignment>,
    pub harness_write_audit: Vec<HarnessWriteAudit>,
    pub user_preferences: Vec<UserPreferences>,
    pub discovery_plans: Vec<DiscoveryPlan>,
    pub discovery_tasks: Vec<DiscoveryTask>,
    pub discovery_result_batches: Vec<DiscoveryResultBatch>,
    pub discovery_results_ready_events: Vec<DiscoveryResultsReadyEvent>,
    pub discovery_result_items: Vec<DiscoveryResultItem>,
    pub taste_learning_evidence: Vec<TasteLearningEvidence>,
    pub user_watches: Vec<UserWatch>,
    pub personal_discovery_schedules: Vec<PersonalDiscoverySchedule>,
    pub authentication_needed_notices: Vec<AuthenticationNeededNotice>,
    pub discovery_task_source_availability: Vec<DiscoveryTaskSourceAvailability>,
    pub trusted_peers: Vec<TrustedPeer>,
    pub hub_nodes: Vec<HubRegisteredNode>,
    pub pod_skill_packs: Vec<PodSkillPack>,
    pub pod_package_versions: Vec<PodSkillPack>,
    pub submissions: Vec<Submission>,
    pub submission_pods: Vec<SubmissionPod>,
    pub submission_assets: Vec<SubmissionAsset>,
    pub accepted_placement_projections: Vec<AcceptedPlacementProjection>,
    pub pod_placements: Vec<PodPlacement>,
    pub briefs: Vec<Brief>,
    pub trust_policies: Vec<TrustPolicy>,
    pub event_log: Vec<EventLog>,
    pub crawler_sources: Vec<CrawlerSource>,
    pub crawl_candidates: Vec<CrawlCandidate>,
    pub pending_proposals: Vec<PendingProposal>,
    pub tenants: Vec<Tenant>,
    pub tenant_users: Vec<TenantUser>,
    pub candidates: Vec<Candidate>,
    pub candidate_submissions: Vec<CandidateSubmission>,
    pub user_contexts: Vec<UserContext>,
    pub federated_content_item_ids: Vec<FederatedContentItemLink>,
    pub placement_tombstones: Vec<PlacementTombstone>,
}

pub open spec fn harness_with_id(id: u128) -> spec_fn(AgentHarness) -> bool {
    |h: AgentHarness| h.id == id
}

pub open spec fn pod_with_id(id: u128) -> spec_fn(Pod) -> bool {
    |p: Pod| p.id == id
}

/// A Pod is visible in a tenant when it belongs to it or is shared by all tenants.
pub open spec fn pod_in_tenant(p: Pod, tenant_id: Option<u128>) -> bool {
    p.tenant_id == tenant_id || p.tenant_id is None
}

pub open spec fn pod_with_slug(slug: Seq<char>, tenant_id: Option<u128>) -> spec_fn(Pod) -> bool {
    |p: Pod| p.slug@ == slug && pod_in_tenant(p, tenant_id)
}

pub open spec fn node_of_tenant(tenant_id: Option<u128>) -> spec_fn(NodeIdentity) -> bool {
    |n: NodeIdentity| n.tenant_id == tenant_id
}

/// The rule that a record owned by `owner` may be used from tenant `tenant_id`.
pub open spec fn tenant_check(owner: Option<u128>, tenant_id: Option<u128>) -> Result<(), Denial> {
    if owner is None || owner == tenant_id {
        Ok(())
    } else {
        Err(Denial::TenantBoundary)
    }
}

impl Store {
    /// The Pod with slug `slug` visible in tenant `tenant_id`.
    pub open spec fn pod_by_slug_spec(self, slug: Seq<char>, tenant_id: Option<u128>) -> Result<Pod, Denial> {
        match first_match(self.pods@, pod_with_slug(slug, tenant_id)) {
            Some(p) => Ok(p),
            None => Err(Denial::NotFound("pod "@ + slug)),
        }
    }

    /// The node identity serving tenant `tenant_id`.
    pub open spec fn node_for_tenant_spec(self, tenant_id: Option<u128>) -> Result<NodeIdentity, Denial> {
        match first_match(self.node_identities@, node_of_tenant(tenant_id)) {
            Some(n) => Ok(n),
            None => Err(Denial::NotFound("node identity"@)),
        }
    }

    /// An empty store.
    pub fn new() -> (s: Store)
        ensures
            s.users@.len() == 0,
            s.node_identities@.len() == 0,
            s.agent_harnesses@.len() == 0,
            s.api_tokens@.len() == 0,
            s.pods@.len() == 0,
            s.subscriptions@.len() == 0,
            s.pod_roles@.len() == 0,
            s.harness_write_audit@.len() == 0,
            s.user_preferences@.len() == 0,
            s.discovery_plans@.len() == 0,
            s.discovery_tasks@.len() == 0,
            s.discovery_result_batches@.len() == 0,
            s.discovery_results_ready_events@.len() == 0,
            s.discovery_result_items@.len() == 0,
            s.taste_learning_evidence@.len() == 0,
            s.user_watches@.len() == 0,
            s.personal_discovery_schedules@.len() == 0,
            s.authentication_needed_notices@.len() == 0,
            s.discovery_task_source_availability@.len() == 0,
            s.trusted_peers@.len() == 0,
            s.hub_nodes@.len() == 0,
            s.pod_skill_packs@.len() == 0,
            s.pod_package_versions@.len() == 0,
            s.submissions@.len() == 0,
            s.submission_pods@.len() == 0,
            s.submission_assets@.len() == 0,
            s.accepted_placement_projections@.len() == 0,
            s.pod_placements@.len() == 0,
            s.briefs@.len() == 0,
            s.trust_policies@.len() == 0,
            s.event_log@.len() == 0,
            s.crawler_sources@.len() == 0,
            s.crawl_candidates@.len() == 0,
            s.pending_proposals@.len() == 0,
            s.tenants@.len() == 0,
            s.tenant_users@.len() == 0,
            s.candidates@.len() == 0,
            s.candidate_submissions@.len() == 0,
            s.user_contexts@.len() == 0,
            s.federated_content_item_ids@.len() == 0,
            s.placement_tombstones@.len() == 0,
    {
        Store {
            users: Vec::new(),
            node_identities: Vec::new(),
            agent_harnesses: Vec::new(),
            api_tokens: Vec::new(),
            pods: Vec::new(),
            subscriptions: Vec::new(),
            pod_roles: Vec::new(),
            harness_write_audit: Vec::new(),
            user_preferences: Vec::new(),
            discovery_plans: Vec::new(),
            discovery_tasks: Vec::new(),
            discovery_result_batches: Vec::new(),
            discovery_results_ready_events: Vec::new(),
            discovery_result_items: Vec::new(),
            taste_learning_evidence: Vec::new(),
            user_watches: Vec::new(),
            personal_discovery_schedules: Vec::new(),
            authentication_needed_notices: Vec::new(),
            discovery_task_source_availability: Vec::new(),
            trusted_peers: Vec::new(),
            hub_nodes: Vec::new(),
            pod_skill_packs: Vec::new(),
            pod_package_versions: Vec::new(),
            submissions: Vec::new(),
            submission_pods: Vec::new(),
            submission_assets: Vec::new(),
            accepted_placement_projections: Vec::new(),
            pod_placements: Vec::new(),
            briefs: Vec::new(),
            trust_policies: Vec::new(),
            event_log: Vec::new(),
            crawler_sources: Vec::new(),
            crawl_candidates: Vec::new(),
            pending_proposals: Vec::new(),
            tenants: Vec::new(),
            tenant_users: Vec::new(),
            candidates: Vec::new(),
            candidate_submissions: Vec::new(),
            user_contexts: Vec::new(),
            federated_content_item_ids: Vec::new(),
            placement_tombstones: Vec::new(),
        }
    }

    /// The position of the harness with identifier `id`.
    pub fn find_harness(&self, id: u128) -> (r: Option<usize>)
        ensures
            match r {
                Some(i) => i < self.agent_harnesses@.len() && i == first_index(self.agent_harnesses@, harness_with_id(id)),
                None => first_index(self.agent_harnesses@, harness_with_id(id)) < 0,
            },
    {
        let mut i: usize = 0;
        while i < self.agent_harnesses.len()
            invariant
                i <= self.agent_harnesses@.len(),
                forall|j: int| 0 <= j < i ==> !harness_with_id(id)(#[trigger] self.agent_harnesses@[j]),
            decreases self.agent_harnesses@.len() - i,
        {
            if self.agent_harnesses[i].id == id {
                proof { lemma_first_index_at(self.agent_harnesses@, harness_with_id(id), i as int); }
                return Some(i);
            }
            i = i + 1;
        }
        proof { lemma_first_index_at(self.agent_harnesses@, harness_with_id(id), i as int); }
        None
    }

    /// The position of the Pod with identifier `id`.
    pub fn find_pod(&self, id: u128) -> (r: Option<usize>)
        ensures
            match r {
                Some(i) => i < self.pods@.len() && i == first_index(self.pods@, pod_with_id(id)),
                None => first_index(self.pods@, pod_with_id(id)) < 0,
            },
    {
        let mut i: usize = 0;
        while i < self.pods.len()
            invariant
                i <= self.pods@.len(),
                forall|j: int| 0 <= j < i ==> !pod_with_id(id)(#[trigger] self.pods@[j]),
            decreases self.pods@.len() - i,
        {
            if self.pods[i].id == id {
                proof { lemma_first_index_at(self.pods@, pod_with_id(id), i as int); }
                return Some(i);
            }
            i = i + 1;
        }
        proof { lemma_first_index_at(self.pods@, pod_with_id(id), i as int); }
        None
    }

    /// Checks that a record owned by tenant `owner` may be used from tenant `tenant_id`.
    pub fn assert_tenant(&self, owner: Option<u128>, tenant_id: Option<u128>) -> (r: Result<(), AgentToolsError>)
        ensures
            refuses_as(r, tenant_check(owner, tenant_id)),
    {
        if owner.is_none() || owner == tenant_id {
            Ok(())
        } else {
            Err(AgentToolsError::Store(StoreError::TenantBoundary))
        }
    }

    /// Looks up a Pod by slug within a tenant.
    pub fn pod_by_slug(&self, slug: &str, tenant_id: Option<u128>) -> (r: Result<&Pod, AgentToolsError>)
        ensures
            match self.pod_by_slug_spec(slug@, tenant_id) {
                Ok(p) => r == Ok::<&Pod, AgentToolsError>(&p),
                Err(d) => r matches Err(e) && denies(e, d),
            },
    {
        let wanted = String::from_str(slug);
        let mut i: usize = 0;
        while i < self.pods.len()
            invariant
                i <= self.pods@.len(),
                wanted@ == slug@,
                forall|j: int| 0 <= j < i ==> !pod_with_slug(slug@, tenant_id)(#[trigger] self.pods@[j]),
            decreases self.pods@.len() - i,
        {
            let pod = &self.pods[i];
            if pod.slug == wanted && (pod.tenant_id == tenant_id || pod.tenant_id.is_none()) {
                proof { lemma_first_index_at(self.pods@, pod_with_slug(slug@, tenant_id), i as int); }
                return Ok(pod);
            }
            i = i + 1;
        }
        proof { lemma_first_index_at(self.pods@, pod_with_slug(slug@, tenant_id), i as int); }
        let mut message = String::from_str("pod ");
        message.append(slug);
        Err(AgentToolsError::Store(StoreError::NotFound(message)))
    }

    /// The node identity serving a tenant.
    pub fn node_for_tenant(&self, tenant_id: Option<u128>) -> (r: Result<&NodeIdentity, AgentToolsError>)
        ensures
            match self.node_for_tenant_spec(tenant_id) {
                Ok(n) => r == Ok::<&NodeIdentity, AgentToolsError>(&n),
                Err(d) => r matches Err(e) && denies(e, d),
            },
    {
        let mut i: usize = 0;
        while i < self.node_identities.len()
            invariant
                i <= self.node_identities@.len(),
                forall|j: int| 0 <= j < i ==> !node_of_tenant(tenant_id)(#[trigger] self.node_identities@[j]),
            decreases self.node_identities@.len() - i,
        {
            if self.node_identities[i].tenant_id == tenant_id {
                proof { lemma_first_index_at(self.node_identities@, node_of_tenant(tenant_id), i as int); }
                return Ok(&self.node_identities[i]);
            }
            i = i + 1;
        }
        proof { lemma_first_index_at(self.node_identities@, node_of_tenant(tenant_id), i as int); }
        Err(not_found("node identity"))
    }
}

} // verus!
