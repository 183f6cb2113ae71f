//! Identifiers, records and enumerations shared by the Home Node model.
//!
//! Identifiers are 128-bit integers (the value of a UUID) and instants are
//! signed milliseconds since the UNIX epoch.
use vstd::prelude::*;

verus! {

/// Who is acting, in which tenant, on which node, and through which harness.
#[derive(Clone, Copy, Debug, PartialEq, Eq, Structural)]
pub struct AuthContext {
    pub user_id: Option<u128>,
    pub tenant_id: Option<u128>,
    pub node_id: u128,
    pub harness_id: Option<u128>,
}

/// One unit of authority an Agent Harness may be granted.
#[derive(Clone, Copy, Debug, PartialEq, Eq, Structural)]
pub enum HarnessCapability {
    FeedRead,
    Feedback,
    SubscriptionManagement,
    PodCuration,
    Administration,
    Approval,
    CandidateSubmission,
    DiscoveryTasks,
    PackageManagement,
    PersonalDiscoveryManagement,
    PersonalDiscoveryExecution,
    PodSimilarityEvidence,
}

/// Whether a harness acts on behalf of a present User or runs unattended.
#[derive(Clone, Copy, Debug, PartialEq, Eq, Structural)]
pub enum AgentHarnessKind {
    Interactive,
    Unattended,
}

/// The authority delegated to one harness: capabilities and an optional Pod scope.
#[derive(Debug)]
pub struct HarnessGrant {
    pub capabilities: Vec<HarnessCapability>,
    pub pod_ids: Option<Vec<u128>>,
}

/// The mathematical value of a [`HarnessGrant`].
pub struct HarnessGrantModel {
    pub capabilities: Seq<HarnessCapability>,
    pub pod_ids: Option<Seq<u128>>,
}

pub open spec fn opt_vec_view(v: Option<Vec<u128>>) -> Option<Seq<u128>> {
    match v {
        Some(v) => Some(v@),
        None => None,
    }
}

impl View for HarnessGrant {
    type V = HarnessGrantModel;

    open spec fn view(&self) -> HarnessGrantModel {
        HarnessGrantModel { capabilities: self.capabilities@, pod_ids: opt_vec_view(self.pod_ids) }
    }
}

impl Clone for HarnessGrant {
    fn clone(&self) -> (res: Self)
        ensures
            res@ == self@,
    {
        let pod_ids = match &self.pod_ids {
            Some(ids) => Some(ids.clone()),
            None => None,
        };
        proof {
            if self.pod_ids is Some {
                assert(pod_ids.unwrap()@ =~= self.pod_ids.unwrap()@);
            }
        }
        let capabilities = self.capabilities.clone();
        assert(capabilities@ =~= self.capabilities@);
        HarnessGrant { capabilities, pod_ids }
    }
}

/// A tenant served by this Home Node.
#[derive(Debug)]
pub struct Tenant {
    pub id: u128,
    pub name: String,
    pub slug: String,
    pub created_at: i64,
}

impl Clone for Tenant {
    fn clone(&self) -> (res: Self)
        ensures
            res == *self,
    {
        Tenant { id: self.id, name: self.name.clone(), slug: self.slug.clone(), created_at: self.created_at }
    }
}

/// A User's standing in a tenant.
#[derive(Clone, Copy, Debug, PartialEq, Eq, Structural)]
pub enum TenantRole {
    Member,
}

/// A User's membership in a tenant.
#[derive(Clone, Copy, Debug, PartialEq, Eq, Structural)]
pub struct TenantUser {
    pub tenant_id: u128,
    pub user_id: u128,
    pub role: TenantRole,
    pub created_at: i64,
}

/// A registered Agent Harness and its grant.
#[derive(Debug)]
pub struct AgentHarness {
    pub id: u128,
    pub user_id: u128,
    pub tenant_id: Option<u128>,
    pub label: String,
    pub kind: AgentHarnessKind,
    pub grant: HarnessGrant,
    pub created_at: i64,
    pub revoked_at: Option<i64>,
}

/// The mathematical value of an [`AgentHarness`].
pub struct AgentHarnessModel {
    pub id: u128,
    pub user_id: u128,
    pub tenant_id: Option<u128>,
    pub label: Seq<char>,
    pub kind: AgentHarnessKind,
    pub grant: HarnessGrantModel,
    pub created_at: i64,
    pub revoked_at: Option<i64>,
}

impl View for AgentHarness {
    type V = AgentHarnessModel;

    open spec fn view(&self) -> AgentHarnessModel {
        AgentHarnessModel {
            id: self.id,
            user_id: self.user_id,
            tenant_id: self.tenant_id,
            label: self.label@,
            kind: self.kind,
            grant: self.grant@,
            created_at: self.created_at,
            revoked_at: self.revoked_at,
        }
    }
}

impl Clone for AgentHarness {
    fn clone(&self) -> (res: Self)
        ensures
            res@ == self@,
    {
        AgentHarness {
            id: self.id,
            user_id: self.user_id,
            tenant_id: self.tenant_id,
            label: self.label.clone(),
            kind: self.kind,
            grant: self.grant.clone(),
            created_at: self.created_at,
            revoked_at: self.revoked_at,
        }
    }
}

/// Whether a harness may still authenticate.
#[derive(Clone, Copy, Debug, PartialEq, Eq, Structural)]
pub enum AgentHarnessStatus {
    Active,
    Revoked,
}

/// Harness metadata safe to show an administrator: no token, only a fingerprint.
#[derive(Debug)]
pub struct AgentHarnessView {
    pub harness: AgentHarness,
    pub credential_fingerprint: String,
    pub status: AgentHarnessStatus,
}

/// The mathematical value of an [`AgentHarnessView`].
pub struct AgentHarnessViewModel {
    pub harness: AgentHarnessModel,
    pub credential_fingerprint: Seq<char>,
    pub status: AgentHarnessStatus,
}

impl View for AgentHarnessView {
    type V = AgentHarnessViewModel;

    open spec fn view(&self) -> AgentHarnessViewModel {
        AgentHarnessViewModel {
            harness: self.harness@,
            credential_fingerprint: self.credential_fingerprint@,
            status: self.status,
        }
    }
}

/// A bearer credential, stored only by its hash.
#[derive(Debug)]
pub struct ApiToken {
    pub id: u128,
    pub user_id: u128,
    pub tenant_id: Option<u128>,
    pub token_hash: String,
    pub label: String,
    pub created_at: i64,
    pub last_used_at: Option<i64>,
    pub revoked_at: Option<i64>,
    pub harness_id: Option<u128>,
}

impl Clone for ApiToken {
    fn clone(&self) -> (res: Self)
        ensures
            res == *self,
    {
        ApiToken {
            id: self.id,
            user_id: self.user_id,
            tenant_id: self.tenant_id,
            token_hash: self.token_hash.clone(),
            label: self.label.clone(),
            created_at: self.created_at,
            last_used_at: self.last_used_at,
            revoked_at: self.revoked_at,
            harness_id: self.harness_id,
        }
    }
}

/// Who may see a Pod.
#[derive(Clone, Copy, Debug, PartialEq, Eq, Structural)]
pub enum Visibility {
    Private,
    InviteOnly,
    Public,
}

/// A curated collection of links, local or projected from a remote origin.
#[derive(Debug)]
pub struct Pod {
    pub id: u128,
    pub tenant_id: Option<u128>,
    pub slug: String,
    pub name: String,
    pub description: String,
    pub visibility: Visibility,
    pub origin_node_id: Option<u128>,
    pub created_at: i64,
}

impl Clone for Pod {
    fn clone(&self) -> (res: Self)
        ensures
            res == *self,
    {
        Pod {
            id: self.id,
            tenant_id: self.tenant_id,
            slug: self.slug.clone(),
            name: self.name.clone(),
            description: self.description.clone(),
            visibility: self.visibility,
            origin_node_id: self.origin_node_id,
            created_at: self.created_at,
        }
    }
}

/// The signing identity of a node (the Home Node or a tenant's managed node).
#[derive(Debug)]
pub struct NodeIdentity {
    pub id: u128,
    pub tenant_id: Option<u128>,
    pub display_name: String,
    pub public_key: String,
    pub created_at: i64,
}

impl Clone for NodeIdentity {
    fn clone(&self) -> (res: Self)
        ensures
            res == *self,
    {
        NodeIdentity {
            id: self.id,
            tenant_id: self.tenant_id,
            display_name: self.display_name.clone(),
            public_key: self.public_key.clone(),
            created_at: self.created_at,
        }
    }
}

/// A person using the Home Node.
#[derive(Debug)]
pub struct User {
    pub id: u128,
    pub display_name: String,
    pub created_at: i64,
}

/// Why the last synchronization of a Subscription failed.
#[derive(Debug)]
pub struct SynchronizationFailure {
    pub code: String,
    pub message: String,
    pub retryable: bool,
    pub occurred_at: i64,
}

impl Clone for SynchronizationFailure {
    fn clone(&self) -> (res: Self)
        ensures
            res == *self,
    {
        SynchronizationFailure {
            code: self.code.clone(),
            message: self.message.clone(),
            retryable: self.retryable,
            occurred_at: self.occurred_at,
        }
    }
}

/// A User's Feed eligibility for one Pod projection.
#[derive(Debug)]
pub struct Subscription {
    pub id: u128,
    pub user_id: u128,
    pub tenant_id: Option<u128>,
    pub public_pod_url: String,
    pub origin_node_id: u128,
    pub origin_public_key: String,
    pub pod_slug: String,
    pub local_pod_id: u128,
    pub is_priority: bool,
    pub last_event_hash: Option<String>,
    pub created_at: i64,
    pub synchronized_at: i64,
    pub last_sync_failure: Option<SynchronizationFailure>,
}

impl Clone for Subscription {
    fn clone(&self) -> (res: Self)
        ensures
            res == *self,
    {
        Subscription {
            id: self.id,
            user_id: self.user_id,
            tenant_id: self.tenant_id,
            public_pod_url: self.public_pod_url.clone(),
            origin_node_id: self.origin_node_id,
            origin_public_key: self.origin_public_key.clone(),
            pod_slug: self.pod_slug.clone(),
            local_pod_id: self.local_pod_id,
            is_priority: self.is_priority,
            last_event_hash: match &self.last_event_hash {
                Some(h) => Some(h.clone()),
                None => None,
            },
            created_at: self.created_at,
            synchronized_at: self.synchronized_at,
            last_sync_failure: match &self.last_sync_failure {
                Some(f) => Some(f.clone()),
                None => None,
            },
        }
    }
}

/// Authority a User holds over one Pod.
#[derive(Clone, Copy, Debug, PartialEq, Eq, Structural)]
pub enum PodRole {
    Owner,
    Curator,
}

/// One User's role in one Pod.
#[derive(Clone, Copy, Debug, PartialEq, Eq, Structural)]
pub struct PodRoleAssignment {
    pub pod_id: u128,
    pub user_id: u128,
    pub role: PodRole,
    pub created_at: i64,
}

/// The kind of write a harness performed, for local attribution.
#[derive(Clone, Copy, Debug, PartialEq, Eq, Structural)]
pub enum HarnessWriteOperation {
    AddContentItemToPod,
    AddSourceToPod,
    AddSubmissionAsset,
    AddUserWatch,
    AttemptDiscoveryResultsReadyNotification,
    BlockSource,
    CompleteDiscoveryResultBatch,
    CreateCrawlCandidate,
    BlockTopic,
    ClaimDiscoveryTask,
    CompleteDiscoveryTask,
    CreateDevToken,
    CreateDiscoveryTask,
    CreatePod,
    CreateTenant,
    DismissDiscoveryResultBatch,
    FailDiscoveryTask,
    JoinPod,
    MarkDiscoveryResultBatchReviewed,
    RegisterAgentHarness,
    RemovePersonalDiscoverySchedule,
    RemoveSubmissionFromPod,
    RemoveUserWatch,
    RenewDiscoveryTaskLease,
    ReviewDiscoveryResultItem,
    SetUserContext,
    RevokeAgentHarness,
    SetPrioritySubscription,
    SubmitCandidate,
    SubmitLinkToPod,
    SubscribePublicPod,
    UpdatePreferences,
}

/// A local-only record that a harness wrote something.
#[derive(Clone, Copy, Debug, PartialEq, Eq, Structural)]
pub struct HarnessWriteAudit {
    pub id: u128,
    pub harness_id: u128,
    pub operation: HarnessWriteOperation,
    pub pod_id: Option<u128>,
    pub occurred_at: i64,
}


/// The Discovery mode a User prefers by default.
#[derive(Clone, Copy, Debug, PartialEq, Eq, Structural)]
pub enum DiscoveryMode {
    DeepMatch,
    Serendipity,
}

/// A User's explicit private preferences within one tenant.
#[derive(Debug)]
pub struct UserPreferences {
    pub user_id: u128,
    pub tenant_id: Option<u128>,
    pub interests: Vec<String>,
    pub blocked_topics: Vec<String>,
    pub blocked_sources: Vec<String>,
    pub preferred_brief_length: u8,
    pub preferred_discovery_mode: DiscoveryMode,
}

/// The texts of a sequence of strings.
pub open spec fn texts(s: Seq<String>) -> Seq<Seq<char>> {
    s.map_values(|x: String| x@)
}

/// The mathematical value of [`UserPreferences`].
pub struct UserPreferencesModel {
    pub user_id: u128,
    pub tenant_id: Option<u128>,
    pub interests: Seq<Seq<char>>,
    pub blocked_topics: Seq<Seq<char>>,
    pub blocked_sources: Seq<Seq<char>>,
    pub preferred_brief_length: u8,
    pub preferred_discovery_mode: DiscoveryMode,
}

impl View for UserPreferences {
    type V = UserPreferencesModel;

    open spec fn view(&self) -> UserPreferencesModel {
        UserPreferencesModel {
            user_id: self.user_id,
            tenant_id: self.tenant_id,
            interests: texts(self.interests@),
            blocked_topics: texts(self.blocked_topics@),
            blocked_sources: texts(self.blocked_sources@),
            preferred_brief_length: self.preferred_brief_length,
            preferred_discovery_mode: self.preferred_discovery_mode,
        }
    }
}

impl Clone for UserPreferences {
    fn clone(&self) -> (res: Self)
        ensures
            res@ == self@,
    {
        let interests = self.interests.clone();
        let blocked_topics = self.blocked_topics.clone();
        let blocked_sources = self.blocked_sources.clone();
        assert(interests@ =~= self.interests@);
        assert(blocked_topics@ =~= self.blocked_topics@);
        assert(blocked_sources@ =~= self.blocked_sources@);
        UserPreferences {
            user_id: self.user_id,
            tenant_id: self.tenant_id,
            interests,
            blocked_topics,
            blocked_sources,
            preferred_brief_length: self.preferred_brief_length,
            preferred_discovery_mode: self.preferred_discovery_mode,
        }
    }
}

/// A private, immutable Personal Discovery plan.
#[derive(Clone, Copy, Debug, PartialEq, Eq, Structural)]
pub struct DiscoveryPlan {
    pub id: u128,
    pub user_id: u128,
    pub tenant_id: Option<u128>,
    pub created_at: i64,
}

/// What a Discovery Task works for: a Pod package version or a personal plan.
#[derive(Clone, Copy, Debug, PartialEq, Eq, Structural)]
pub enum DiscoveryTaskTarget {
    Pod { pod_id: u128, package_version: u64 },
    Personal { plan_id: u128 },
}

/// A time-bounded claim of a task by one harness.
#[derive(Clone, Copy, Debug, PartialEq, Eq, Structural)]
pub struct DiscoveryTaskLease {
    pub harness_id: u128,
    pub claimed_at: i64,
    pub expires_at: i64,
}

/// The lifecycle state of a Discovery Task.
#[derive(Clone, Copy, Debug, PartialEq, Eq, Structural)]
pub enum DiscoveryTaskState {
    Pending,
    Leased(DiscoveryTaskLease),
    Completed,
    TerminalFailure,
}

/// How one attempt at a task ended.
#[derive(Debug)]
pub enum DiscoveryTaskAttemptOutcome {
    Completed,
    Failed { reason: String },
    LeaseExpired,
}

/// One finished attempt at a task.
#[derive(Debug)]
pub struct DiscoveryTaskAttempt {
    pub harness_id: u128,
    pub started_at: i64,
    pub finished_at: i64,
    pub outcome: DiscoveryTaskAttemptOutcome,
}

impl Clone for DiscoveryTaskAttempt {
    fn clone(&self) -> (res: Self)
        ensures
            res == *self,
    {
        DiscoveryTaskAttempt {
            harness_id: self.harness_id,
            started_at: self.started_at,
            finished_at: self.finished_at,
            outcome: match &self.outcome {
                DiscoveryTaskAttemptOutcome::Completed => DiscoveryTaskAttemptOutcome::Completed,
                DiscoveryTaskAttemptOutcome::Failed { reason } => DiscoveryTaskAttemptOutcome::Failed {
                    reason: reason.clone(),
                },
                DiscoveryTaskAttemptOutcome::LeaseExpired => DiscoveryTaskAttemptOutcome::LeaseExpired,
            },
        }
    }
}

/// Why a Discovery Task exists.
#[derive(Debug)]
pub enum DiscoveryTaskOrigin {
    /// Materialized from one source rule of a Pod Package.
    Scheduled { source_rule_index: u64 },
    /// Asked for now by a harness, deduplicated by its idempotency key.
    Immediate { instructions: String, idempotency_key: String, requested_by: u128 },
    /// A Personal Discovery request.
    PersonalRequest { idempotency_key: String, requested_by: Option<u128> },
    /// A run of a Personal Discovery schedule.
    PersonalScheduled { schedule_id: u128 },
}

impl Clone for DiscoveryTaskOrigin {
    fn clone(&self) -> (res: Self)
        ensures
            res == *self,
    {
        match self {
            DiscoveryTaskOrigin::Scheduled { source_rule_index } => DiscoveryTaskOrigin::Scheduled {
                source_rule_index: *source_rule_index,
            },
            DiscoveryTaskOrigin::Immediate { instructions, idempotency_key, requested_by } => DiscoveryTaskOrigin::Immediate {
                instructions: instructions.clone(),
                idempotency_key: idempotency_key.clone(),
                requested_by: *requested_by,
            },
            DiscoveryTaskOrigin::PersonalRequest { idempotency_key, requested_by } => DiscoveryTaskOrigin::PersonalRequest {
                idempotency_key: idempotency_key.clone(),
                requested_by: *requested_by,
            },
            DiscoveryTaskOrigin::PersonalScheduled { schedule_id } => DiscoveryTaskOrigin::PersonalScheduled {
                schedule_id: *schedule_id,
            },
        }
    }
}

/// A unit of discovery work that harnesses claim under a lease.
#[derive(Debug)]
pub struct DiscoveryTask {
    pub id: u128,
    pub target: DiscoveryTaskTarget,
    pub origin: DiscoveryTaskOrigin,
    pub due_at: i64,
    pub state: DiscoveryTaskState,
    pub attempts: Vec<DiscoveryTaskAttempt>,
    pub created_at: i64,
}

/// The mathematical value of a [`DiscoveryTask`].
pub struct DiscoveryTaskModel {
    pub id: u128,
    pub target: DiscoveryTaskTarget,
    pub origin: DiscoveryTaskOrigin,
    pub due_at: i64,
    pub state: DiscoveryTaskState,
    pub attempts: Seq<DiscoveryTaskAttempt>,
    pub created_at: i64,
}

impl View for DiscoveryTask {
    type V = DiscoveryTaskModel;

    open spec fn view(&self) -> DiscoveryTaskModel {
        DiscoveryTaskModel {
            id: self.id,
            target: self.target,
            origin: self.origin,
            due_at: self.due_at,
            state: self.state,
            attempts: self.attempts@,
            created_at: self.created_at,
        }
    }
}

impl Clone for DiscoveryTask {
    fn clone(&self) -> (res: Self)
        ensures
            res@ == self@,
    {
        let attempts = self.attempts.clone();
        assert(attempts@ =~= self.attempts@);
        DiscoveryTask {
            id: self.id,
            target: self.target,
            origin: self.origin.clone(),
            due_at: self.due_at,
            state: self.state,
            attempts,
            created_at: self.created_at,
        }
    }
}

/// Where a Discovery Result Batch stands in its owner's review.
#[derive(Clone, Copy, Debug, PartialEq, Eq, Structural)]
pub enum DiscoveryResultBatchState {
    Ready,
    Reviewed,
    Dismissed,
}

/// What the owner did with one Personal Discovery result.
#[derive(Clone, Copy, Debug, PartialEq, Eq, Structural)]
pub enum DiscoveryResultItemAction {
    Save,
    AddToPod,
    MoreLikeThis,
    NotForMe,
    Ignore,
}

/// The owner's review of one result.
#[derive(Clone, Copy, Debug, PartialEq, Eq, Structural)]
pub struct DiscoveryResultItemReview {
    pub action: DiscoveryResultItemAction,
    pub reviewed_at: i64,
    /// The earlier action this review replaced, if it replaced a different one.
    pub replaced_action: Option<DiscoveryResultItemAction>,
    /// The Pod a review placed the result in, kept across later reviews.
    pub placement_pod_id: Option<u128>,
}

/// Which way a piece of taste evidence pulls.
#[derive(Clone, Copy, Debug, PartialEq, Eq, Structural)]
pub enum TasteEvidenceDirection {
    Supporting,
    Opposing,
}

/// What taught a piece of taste evidence.
#[derive(Clone, Copy, Debug, PartialEq, Eq, Structural)]
pub enum LearnedTasteEvidenceKind {
    MoreLikeThis,
    LessLikeThis,
}

/// Private taste evidence a User's review of one Discovery result taught,
/// linked to that result.
#[derive(Clone, Copy, Debug, PartialEq, Eq, Structural)]
pub struct TasteLearningEvidence {
    pub id: u128,
    pub user_id: u128,
    pub tenant_id: Option<u128>,
    pub batch_id: u128,
    pub candidate_id: u128,
    pub submission_id: u128,
    pub kind: LearnedTasteEvidenceKind,
    pub direction: TasteEvidenceDirection,
    pub created_at: i64,
}

/// One ordered result of a Discovery Result Batch.
#[derive(Clone, Copy, Debug, PartialEq, Eq, Structural)]
pub struct DiscoveryResultItem {
    pub batch_id: u128,
    pub position: u64,
    pub candidate_id: u128,
    pub submission_id: u128,
    pub review: Option<DiscoveryResultItemReview>,
}

/// Whether the owner has been told that a batch is ready.
#[derive(Clone, Copy, Debug, PartialEq, Eq, Structural)]
pub enum DiscoveryResultNotificationState {
    NotDelivered,
    Delivered,
}

/// How a Personal Discovery schedule hands its results to the User.
#[derive(Clone, Copy, Debug, PartialEq, Eq, Structural)]
pub enum PersonalDiscoveryDeliveryMode {
    QueueOnly,
    NotifyWhenSupported,
}

/// The record that a scheduled run's batch is ready, with its one notification attempt.
#[derive(Clone, Copy, Debug, PartialEq, Eq, Structural)]
pub struct DiscoveryResultsReadyEvent {
    pub batch_id: u128,
    pub schedule_id: u128,
    pub user_id: u128,
    pub tenant_id: Option<u128>,
    pub delivery_mode: PersonalDiscoveryDeliveryMode,
    pub created_at: i64,
    pub notification_attempted_at: Option<i64>,
}

/// The private results of one Personal Discovery run.
#[derive(Clone, Copy, Debug, PartialEq, Eq, Structural)]
pub struct DiscoveryResultBatch {
    pub id: u128,
    pub user_id: u128,
    pub tenant_id: Option<u128>,
    pub plan_id: u128,
    pub task_id: u128,
    pub state: DiscoveryResultBatchState,
    pub notification_state: DiscoveryResultNotificationState,
    pub created_at: i64,
    pub reviewed_at: Option<i64>,
    pub dismissed_at: Option<i64>,
}

/// A User's private prose about themselves, read by interactive briefings.
#[derive(Debug)]
pub struct UserContext {
    pub user_id: u128,
    pub tenant_id: Option<u128>,
    pub context_md: String,
    pub created_at: i64,
    pub updated_at: i64,
}

impl Clone for UserContext {
    fn clone(&self) -> (res: Self)
        ensures
            res == *self,
    {
        UserContext {
            user_id: self.user_id,
            tenant_id: self.tenant_id,
            context_md: self.context_md.clone(),
            created_at: self.created_at,
            updated_at: self.updated_at,
        }
    }
}

/// A private source a User asked Personal Discovery to watch.
#[derive(Debug)]
pub struct UserWatch {
    pub id: u128,
    pub user_id: u128,
    pub tenant_id: Option<u128>,
    pub url: String,
    pub created_at: i64,
}

impl Clone for UserWatch {
    fn clone(&self) -> (res: Self)
        ensures
            res == *self,
    {
        UserWatch {
            id: self.id,
            user_id: self.user_id,
            tenant_id: self.tenant_id,
            url: self.url.clone(),
            created_at: self.created_at,
        }
    }
}

/// A recurring Personal Discovery configuration.
#[derive(Clone, Copy, Debug, PartialEq, Eq, Structural)]
pub struct PersonalDiscoverySchedule {
    pub id: u128,
    pub user_id: u128,
    pub tenant_id: Option<u128>,
    pub delivery_mode: PersonalDiscoveryDeliveryMode,
    pub created_at: i64,
}

/// A private notice that a watched source needs the User to sign in.
#[derive(Debug)]
pub struct AuthenticationNeededNotice {
    pub id: u128,
    pub user_id: u128,
    pub tenant_id: Option<u128>,
    pub source: String,
    pub first_emitted_at: i64,
}

impl Clone for AuthenticationNeededNotice {
    fn clone(&self) -> (res: Self)
        ensures
            res == *self,
    {
        AuthenticationNeededNotice {
            id: self.id,
            user_id: self.user_id,
            tenant_id: self.tenant_id,
            source: self.source.clone(),
            first_emitted_at: self.first_emitted_at,
        }
    }
}

/// Lease-scoped availability of the sources of one Personal Discovery task.
#[derive(Clone, Copy, Debug, PartialEq, Eq, Structural)]
pub struct DiscoveryTaskSourceAvailability {
    pub task_id: u128,
    pub user_id: u128,
    pub tenant_id: Option<u128>,
    pub available_sources: u32,
    pub unavailable_sources: u32,
}

/// How far a Home Node trusts a peer.
#[derive(Clone, Copy, Debug, PartialEq, Eq, Structural)]
pub enum TrustLevel {
    /// The peer's signed public data may be read.
    ReadOnly,
}

/// A federation peer an administrator chose to trust.
#[derive(Debug)]
pub struct TrustedPeer {
    pub id: u128,
    pub node_id: u128,
    pub tenant_id: Option<u128>,
    pub display_name: String,
    pub base_url: String,
    pub public_key: String,
    pub trust_level: TrustLevel,
    pub enabled: bool,
    pub created_at: i64,
}

impl Clone for TrustedPeer {
    fn clone(&self) -> (res: Self)
        ensures
            res == *self,
    {
        TrustedPeer {
            id: self.id,
            node_id: self.node_id,
            tenant_id: self.tenant_id,
            display_name: self.display_name.clone(),
            base_url: self.base_url.clone(),
            public_key: self.public_key.clone(),
            trust_level: self.trust_level,
            enabled: self.enabled,
            created_at: self.created_at,
        }
    }
}

/// A node registered with this Home Node acting as a hub.
#[derive(Debug)]
pub struct HubRegisteredNode {
    pub node_id: u128,
    pub base_url: String,
    pub registered_at: i64,
}

impl Clone for HubRegisteredNode {
    fn clone(&self) -> (res: Self)
        ensures
            res == *self,
    {
        HubRegisteredNode {
            node_id: self.node_id,
            base_url: self.base_url.clone(),
            registered_at: self.registered_at,
        }
    }
}

/// The current Pod Package (skill pack) of one Pod.
#[derive(Debug)]
pub struct PodSkillPack {
    pub pod_id: u128,
    pub version: u64,
    pub skill_md: String,
    pub pod_yaml: String,
    pub filters_yaml: String,
    pub sources_yaml: String,
}

impl Clone for PodSkillPack {
    fn clone(&self) -> (res: Self)
        ensures
            res == *self,
    {
        PodSkillPack {
            pod_id: self.pod_id,
            version: self.version,
            skill_md: self.skill_md.clone(),
            pod_yaml: self.pod_yaml.clone(),
            filters_yaml: self.filters_yaml.clone(),
            sources_yaml: self.sources_yaml.clone(),
        }
    }
}

/// A link submitted to the Home Node.
#[derive(Debug)]
pub struct Submission {
    pub id: u128,
    pub tenant_id: Option<u128>,
    pub url: String,
    pub canonical_url: String,
    pub title: String,
    pub description: Option<String>,
    pub domain: String,
    pub submitted_by: Option<u128>,
    pub discovered_by_crawler: bool,
    pub submitter_note: Option<String>,
    pub summary: Option<String>,
    pub tags: Vec<String>,
    pub created_at: i64,
}

/// A Submission's membership in a Pod.
#[derive(Clone, Copy, Debug, PartialEq, Eq, Structural)]
pub struct SubmissionPod {
    pub submission_id: u128,
    pub pod_id: u128,
}

/// A media asset attached to a Submission.
#[derive(Debug)]
pub struct SubmissionAsset {
    pub id: u128,
    pub submission_id: u128,
    pub kind: String,
    pub url: String,
}

impl Clone for SubmissionAsset {
    fn clone(&self) -> (res: Self)
        ensures
            res == *self,
    {
        SubmissionAsset {
            id: self.id,
            submission_id: self.submission_id,
            kind: self.kind.clone(),
            url: self.url.clone(),
        }
    }
}

/// A Content Item accepted into a Pod, as projected for Feed reads.
#[derive(Clone, Copy, Debug, PartialEq, Eq, Structural)]
pub struct AcceptedPlacementProjection {
    pub content_item_id: u128,
    pub pod_id: u128,
    /// The node whose curation accepted it.
    pub origin_node_id: u128,
    pub accepted_at: i64,
}

/// The withdrawal of an accepted placement by the node that accepted it.
#[derive(Clone, Copy, Debug, PartialEq, Eq, Structural)]
pub struct PlacementTombstone {
    /// The Content Item withdrawn.
    pub content_item_id: u128,
    /// The placement withdrawn, as its origin accepted it.
    pub origin_placement: AcceptedPlacementProjection,
    pub withdrawn_at: i64,
}

/// Which local Content Item stands, in one importing tenant, for the Content
/// Item `origin_content_item_id` of node `origin_node_id`.
#[derive(Clone, Copy, Debug, PartialEq, Eq, Structural)]
pub struct FederatedContentItemLink {
    pub tenant_id: Option<u128>,
    pub origin_node_id: u128,
    pub origin_content_item_id: u128,
    pub local_content_item_id: u128,
}

/// The curation state of one proposed Pod Placement.
#[derive(Clone, Copy, Debug, PartialEq, Eq, Structural)]
pub enum PodPlacementStatus {
    Pending,
    Accepted,
    Rejected,
    Reversed,
}

/// A Candidate's proposed or decided placement into one Pod.
#[derive(Clone, Copy, Debug, PartialEq, Eq, Structural)]
pub struct PodPlacement {
    pub candidate_id: u128,
    pub pod_id: u128,
    pub status: PodPlacementStatus,
    pub updated_at: i64,
}

/// One Submission referenced by a Brief.
#[derive(Clone, Copy, Debug, PartialEq, Eq, Structural)]
pub struct BriefItem {
    pub submission_id: u128,
}

/// A private digest of Submissions prepared for a User.
#[derive(Debug)]
pub struct Brief {
    pub id: u128,
    pub tenant_id: Option<u128>,
    pub user_id: Option<u128>,
    pub items: Vec<BriefItem>,
    pub created_at: i64,
}

/// The mathematical value of a [`Brief`].
pub struct BriefModel {
    pub id: u128,
    pub tenant_id: Option<u128>,
    pub user_id: Option<u128>,
    pub items: Seq<BriefItem>,
    pub created_at: i64,
}

impl View for Brief {
    type V = BriefModel;

    open spec fn view(&self) -> BriefModel {
        BriefModel {
            id: self.id,
            tenant_id: self.tenant_id,
            user_id: self.user_id,
            items: self.items@,
            created_at: self.created_at,
        }
    }
}

impl Clone for Brief {
    fn clone(&self) -> (res: Self)
        ensures
            res@ == self@,
    {
        let items = self.items.clone();
        assert(items@ =~= self.items@);
        Brief {
            id: self.id,
            tenant_id: self.tenant_id,
            user_id: self.user_id,
            items,
            created_at: self.created_at,
        }
    }
}

/// A node's public description on the federation surface.
#[derive(Debug)]
pub struct NodeInfo {
    pub node_id: u128,
    pub display_name: String,
    pub public_key: String,
    pub supported_protocol_version: String,
}

/// An Index Node a User trusts for Pod discovery.
#[derive(Debug)]
pub struct IndexNode {
    pub label: String,
    pub base_url: String,
}

impl Clone for IndexNode {
    fn clone(&self) -> (res: Self)
        ensures
            res == *self,
    {
        IndexNode { label: self.label.clone(), base_url: self.base_url.clone() }
    }
}

/// A User's private Trust Policy for federated discovery.
#[derive(Debug)]
pub struct TrustPolicy {
    pub user_id: u128,
    pub tenant_id: Option<u128>,
    pub index_nodes: Vec<IndexNode>,
    pub blocked_nodes: Vec<u128>,
    pub blocked_sources: Vec<String>,
    pub blocked_topics: Vec<String>,
}

/// The mathematical value of a [`TrustPolicy`].
pub struct TrustPolicyModel {
    pub user_id: u128,
    pub tenant_id: Option<u128>,
    pub index_nodes: Seq<IndexNode>,
    pub blocked_nodes: Seq<u128>,
    pub blocked_sources: Seq<Seq<char>>,
    pub blocked_topics: Seq<Seq<char>>,
}

impl View for TrustPolicy {
    type V = TrustPolicyModel;

    open spec fn view(&self) -> TrustPolicyModel {
        TrustPolicyModel {
            user_id: self.user_id,
            tenant_id: self.tenant_id,
            index_nodes: self.index_nodes@,
            blocked_nodes: self.blocked_nodes@,
            blocked_sources: texts(self.blocked_sources@),
            blocked_topics: texts(self.blocked_topics@),
        }
    }
}

impl Clone for TrustPolicy {
    fn clone(&self) -> (res: Self)
        ensures
            res@ == self@,
    {
        let index_nodes = self.index_nodes.clone();
        let blocked_nodes = self.blocked_nodes.clone();
        let blocked_sources = self.blocked_sources.clone();
        let blocked_topics = self.blocked_topics.clone();
        assert(index_nodes@ =~= self.index_nodes@);
        assert(blocked_nodes@ =~= self.blocked_nodes@);
        assert(texts(blocked_sources@) =~= texts(self.blocked_sources@));
        assert(texts(blocked_topics@) =~= texts(self.blocked_topics@));
        TrustPolicy {
            user_id: self.user_id,
            tenant_id: self.tenant_id,
            index_nodes,
            blocked_nodes,
            blocked_sources,
            blocked_topics,
        }
    }
}

/// One signed entry of a Pod's event chain.
#[derive(Debug)]
pub struct EventLog {
    pub event_id: u128,
    pub tenant_id: Option<u128>,
    pub pod_slug: String,
    pub event_type: String,
    pub author_node_id: u128,
    pub previous_event_hash: Option<String>,
    pub content_hash: String,
    pub payload: String,
    pub signature: String,
    pub created_at: i64,
    pub imported_from_peer_id: Option<u128>,
    pub verified: bool,
}

impl Clone for EventLog {
    fn clone(&self) -> (res: Self)
        ensures
            res == *self,
    {
        EventLog {
            event_id: self.event_id,
            tenant_id: self.tenant_id,
            pod_slug: self.pod_slug.clone(),
            event_type: self.event_type.clone(),
            author_node_id: self.author_node_id,
            previous_event_hash: match &self.previous_event_hash {
                Some(h) => Some(h.clone()),
                None => None,
            },
            content_hash: self.content_hash.clone(),
            payload: self.payload.clone(),
            signature: self.signature.clone(),
            created_at: self.created_at,
            imported_from_peer_id: self.imported_from_peer_id,
            verified: self.verified,
        }
    }
}

/// A source a Pod crawls, possibly summarized publicly.
#[derive(Debug)]
pub struct CrawlerSource {
    pub id: u128,
    pub pod_id: u128,
    pub url: String,
    pub enabled: bool,
}

/// What a Pod's federation manifest shows.
#[derive(Debug)]
pub struct PodManifest {
    pub pod: Pod,
    pub latest_known_event_hash: Option<String>,
    pub skill_pack_version: u64,
    pub public_source_summary: Vec<String>,
}

/// A node's well-known discovery document: its protocol, identity and endpoints.
#[derive(Debug)]
pub struct WellKnownNode {
    pub protocol: String,
    pub node: NodeInfo,
    /// Endpoint names and URLs, in ascending order of name.
    pub endpoints: Vec<(String, String)>,
}

/// One public Pod's signed artifacts after an optional cursor.
#[derive(Debug)]
pub struct FederationPodSnapshot {
    pub node: NodeInfo,
    pub manifest: PodManifest,
    pub events: Vec<EventLog>,
}

/// Workflow actions a caller may take on a Pod.
#[derive(Clone, Copy, Debug, PartialEq, Eq, Structural)]
pub enum PodAllowedAction {
    Subscribe,
    Unsubscribe,
    SubscriptionSet,
    RoleList,
    VisibilitySet,
    RoleGrant,
    RoleRevoke,
}

} // verus!
