use stumble_core::agent_tools::AgentTools;
use stumble_core::error::{AgentToolsError, StoreError};
use stumble_core::proposals::{
    CreatePendingProposalRequest, PodVisibilityOutcome, ProposalAllowedAction, ProposalDecisionActor, ProposalResource, ProposalStatus,
    RemoveSubmissionOutcome, ResourceSnapshot, SensitiveChange,
};
use stumble_core::store::Store;
use stumble_core::types::{
    AcceptedPlacementProjection, AgentHarness, AgentHarnessKind, AuthContext, HarnessCapability, HarnessGrant, NodeIdentity, NodeInfo,
    Pod, PodRole, PodRoleAssignment, PodSkillPack, Submission, SubmissionPod, TrustLevel, TrustedPeer, User, Visibility,
};

const OWNER: u128 = 10;
const PROPOSER: u128 = 1;
const APPROVER: u128 = 2;
const UNATTENDED: u128 = 3;
const SCOPED_APPROVER: u128 = 4;
const POD: u128 = 100;
const DAY: i64 = 86_400_000;

fn harness(id: u128, kind: AgentHarnessKind, capabilities: Vec<HarnessCapability>, pod_ids: Option<Vec<u128>>) -> AgentHarness {
    AgentHarness {
        id,
        user_id: OWNER,
        tenant_id: None,
        label: format!("h{id}"),
        kind,
        grant: HarnessGrant { capabilities, pod_ids },
        created_at: 0,
        revoked_at: None,
    }
}

fn tools() -> AgentTools {
    let mut store = Store::new();
    store.users.push(User { id: OWNER, display_name: "Owner".to_string(), created_at: 0 });
    store.users.push(User { id: 20, display_name: "Friend".to_string(), created_at: 1 });
    store.agent_harnesses.push(harness(
        PROPOSER,
        AgentHarnessKind::Interactive,
        vec![HarnessCapability::Administration, HarnessCapability::PodCuration],
        None,
    ));
    store.agent_harnesses.push(harness(APPROVER, AgentHarnessKind::Interactive, vec![HarnessCapability::Approval], None));
    store.agent_harnesses.push(harness(UNATTENDED, AgentHarnessKind::Unattended, vec![HarnessCapability::FeedRead], None));
    store.agent_harnesses.push(harness(
        SCOPED_APPROVER,
        AgentHarnessKind::Interactive,
        vec![HarnessCapability::Approval],
        Some(vec![POD]),
    ));
    store.pods.push(Pod {
        id: POD,
        tenant_id: None,
        slug: "rust".to_string(),
        name: "Rust".to_string(),
        description: String::new(),
        visibility: Visibility::Private,
        origin_node_id: None,
        created_at: 0,
    });
    store.pod_roles.push(PodRoleAssignment { pod_id: POD, user_id: OWNER, role: PodRole::Owner, created_at: 0 });
    AgentTools::new(store)
}

fn ctx(harness_id: Option<u128>) -> AuthContext {
    AuthContext { user_id: Some(OWNER), tenant_id: None, node_id: 1, harness_id }
}

fn expand(tools: &mut AgentTools, now: i64) -> u128 {
    tools
        .request_harness_grant_expansion(
            &ctx(Some(PROPOSER)),
            UNATTENDED,
            vec![HarnessCapability::DiscoveryTasks, HarnessCapability::FeedRead, HarnessCapability::DiscoveryTasks],
            None,
            now,
        )
        .unwrap()
        .id
}

#[test]
fn proposal_records_resources_and_snapshots() {
    let mut tools = tools();
    let id = expand(&mut tools, 1_000);
    let p = tools.pending_proposal(&ctx(None), id, 2_000).unwrap();
    assert_eq!(p.status, ProposalStatus::Pending);
    assert_eq!(p.proposer, PROPOSER);
    assert_eq!(p.expires_at, 1_000 + DAY);
    assert!(matches!(p.affected_resources[..], [ProposalResource::AgentHarness(UNATTENDED)]));
    assert_eq!(p.expected_consequences, vec!["The Harness Grant gains additional authority for future requests.".to_string()]);
    match (&p.structured_diff[0].before, &p.structured_diff[0].after) {
        (ResourceSnapshot::Grant(before), ResourceSnapshot::Grant(after)) => {
            assert_eq!(before.capabilities, vec![HarnessCapability::FeedRead]);
            assert_eq!(after.capabilities, vec![HarnessCapability::FeedRead, HarnessCapability::DiscoveryTasks]);
        },
        _ => panic!("grant snapshots expected"),
    }
}

#[test]
fn proposer_cannot_approve_its_own_proposal() {
    let mut tools = tools();
    tools.store.agent_harnesses[0].grant.capabilities.push(HarnessCapability::Approval);
    let id = expand(&mut tools, 1_000);
    let refused = tools.approve_pending_proposal(&ctx(Some(PROPOSER)), id, 2_000).unwrap_err();
    assert!(matches!(refused, AgentToolsError::Forbidden { reason } if reason == "a harness cannot approve its own Pending Proposal"));
    assert!(tools.pending_proposal_allowed_actions(&ctx(Some(PROPOSER)), id, 2_000).unwrap().is_empty());
}

#[test]
fn independent_approval_applies_the_change() {
    let mut tools = tools();
    let id = expand(&mut tools, 1_000);
    assert_eq!(
        tools.pending_proposal_allowed_actions(&ctx(Some(APPROVER)), id, 2_000).unwrap(),
        vec![ProposalAllowedAction::Approve, ProposalAllowedAction::Reject]
    );
    let expires_at = tools.store.pending_proposals[0].expires_at;
    assert!(tools.pending_proposal_allowed_actions(&ctx(Some(APPROVER)), id, expires_at).unwrap().is_empty());
    let approved = tools.approve_pending_proposal(&ctx(Some(APPROVER)), id, 2_000).unwrap();
    assert_eq!(approved.status, ProposalStatus::Accepted);
    assert_eq!(approved.decided_by, Some(ProposalDecisionActor::Harness(APPROVER)));
    assert_eq!(approved.decided_at, Some(2_000));
    assert_eq!(
        tools.store.agent_harnesses[2].grant.capabilities,
        vec![HarnessCapability::FeedRead, HarnessCapability::DiscoveryTasks]
    );
    let again = tools.approve_pending_proposal(&ctx(Some(APPROVER)), id, 3_000).unwrap_err();
    assert!(matches!(again, AgentToolsError::Store(StoreError::Validation(m)) if m == "Pending Proposal is terminal"));
}

#[test]
fn owner_decides_without_a_harness() {
    let mut tools = tools();
    let id = expand(&mut tools, 1_000);
    let approved = tools.approve_pending_proposal(&ctx(None), id, 2_000).unwrap();
    assert_eq!(approved.decided_by, Some(ProposalDecisionActor::Owner { owner_user_id: OWNER }));
}

#[test]
fn rejection_leaves_resources_untouched() {
    let mut tools = tools();
    let id = expand(&mut tools, 1_000);
    let blank = tools.reject_pending_proposal(&ctx(Some(APPROVER)), id, 2_000, "  ".to_string()).unwrap_err();
    assert!(matches!(blank, AgentToolsError::Store(StoreError::Validation(m)) if m == "rejection reason must not be empty"));
    let rejected = tools.reject_pending_proposal(&ctx(Some(APPROVER)), id, 2_000, "too broad".to_string()).unwrap();
    assert_eq!(rejected.status, ProposalStatus::Rejected);
    assert_eq!(rejected.rejection_reason, Some("too broad".to_string()));
    assert_eq!(tools.store.agent_harnesses[2].grant.capabilities, vec![HarnessCapability::FeedRead]);
}

#[test]
fn late_proposal_expires_and_cannot_be_approved() {
    let mut tools = tools();
    let id = expand(&mut tools, 1_000);
    let refused = tools.approve_pending_proposal(&ctx(Some(APPROVER)), id, 1_000 + DAY).unwrap_err();
    assert!(matches!(refused, AgentToolsError::Store(StoreError::Validation(m)) if m == "Pending Proposal is terminal"));
    let p = tools.pending_proposal(&ctx(None), id, 1_000 + 2 * DAY).unwrap();
    assert_eq!(p.status, ProposalStatus::Expired);
    assert_eq!(p.decided_at, Some(1_000 + DAY));
}

#[test]
fn expiry_must_fall_within_seven_days() {
    let mut tools = tools();
    let change = || SensitiveChange::RemoveTrustedPeer { peer_id: 1 };
    let too_far = tools.create_pending_proposal(&ctx(Some(PROPOSER)), change(), 0, 7 * DAY + 1).unwrap_err();
    assert!(matches!(too_far, AgentToolsError::Store(StoreError::Validation(m)) if m == "Pending Proposal expiry must be within seven days"));
    let past = tools.create_pending_proposal(&ctx(Some(PROPOSER)), change(), 10, 10).unwrap_err();
    assert!(matches!(past, AgentToolsError::Store(StoreError::Validation(_))));
    let owner = tools.create_pending_proposal(&ctx(None), change(), 0, 10).unwrap_err();
    assert!(matches!(owner, AgentToolsError::Forbidden { reason } if reason == "Pending Proposals require an authenticated Agent Harness"));
    let huge = tools
        .create_pending_proposal_from_request(
            &ctx(Some(PROPOSER)),
            CreatePendingProposalRequest { requested_change: change(), expires_in_seconds: u64::MAX },
            0,
        )
        .unwrap_err();
    assert!(matches!(huge, AgentToolsError::Store(StoreError::Validation(m)) if m == "Pending Proposal expiry is too large"));
}

#[test]
fn stale_snapshot_blocks_approval() {
    let mut tools = tools();
    let id = expand(&mut tools, 1_000);
    tools.store.agent_harnesses[2].grant.capabilities.push(HarnessCapability::Feedback);
    let refused = tools.approve_pending_proposal(&ctx(Some(APPROVER)), id, 2_000).unwrap_err();
    assert!(matches!(refused, AgentToolsError::Store(StoreError::Validation(m))
        if m == "proposal structured diff is stale; create a new Pending Proposal"));
    assert_eq!(tools.store.pending_proposals[0].status, ProposalStatus::Pending);
}

#[test]
fn grant_change_must_only_expand_authority() {
    let mut tools = tools();
    let refused = tools
        .request_harness_grant_expansion(&ctx(Some(PROPOSER)), UNATTENDED, vec![HarnessCapability::Feedback], None, 0)
        .unwrap_err();
    assert!(matches!(refused, AgentToolsError::Store(StoreError::Validation(m)) if m == "sensitive grant change must only expand authority"));
    let oversight = tools
        .request_harness_grant_expansion(
            &ctx(Some(PROPOSER)),
            UNATTENDED,
            vec![HarnessCapability::FeedRead, HarnessCapability::Approval],
            None,
            0,
        )
        .unwrap_err();
    assert!(matches!(oversight, AgentToolsError::Forbidden { reason }
        if reason == "unattended harnesses cannot receive administration or approval"));
}

#[test]
fn scoped_approver_covers_only_its_pods() {
    let mut tools = tools();
    let id = expand(&mut tools, 1_000);
    let refused = tools.approve_pending_proposal(&ctx(Some(SCOPED_APPROVER)), id, 2_000).unwrap_err();
    assert!(matches!(refused, AgentToolsError::Forbidden { reason }
        if reason == "approval Harness Grant does not cover the affected resources"));
    let role = tools.request_grant_pod_role(&ctx(Some(PROPOSER)), POD, 20, PodRole::Curator, 1_000).unwrap();
    let approved = tools.approve_pending_proposal(&ctx(Some(SCOPED_APPROVER)), role.id, 2_000).unwrap();
    assert_eq!(approved.status, ProposalStatus::Accepted);
    assert!(tools.store.pod_roles.iter().any(|a| a.user_id == 20 && a.role == PodRole::Curator));
}

#[test]
fn last_owner_cannot_be_revoked() {
    let mut tools = tools();
    let refused = tools.request_revoke_pod_role(&ctx(Some(PROPOSER)), POD, OWNER, PodRole::Owner, 0).unwrap_err();
    assert!(matches!(refused, AgentToolsError::Store(StoreError::Validation(m)) if m == "cannot revoke the last Pod Owner"));
    let demote = tools.request_grant_pod_role(&ctx(Some(PROPOSER)), POD, OWNER, PodRole::Curator, 0).unwrap_err();
    assert!(matches!(demote, AgentToolsError::Store(StoreError::Validation(m)) if m == "cannot replace the last Pod Owner"));
    let missing = tools.request_revoke_pod_role(&ctx(Some(PROPOSER)), POD, 20, PodRole::Curator, 0).unwrap_err();
    assert!(matches!(missing, AgentToolsError::Store(StoreError::NotFound(m)) if m.starts_with("Pod Role for User ")));
}

#[test]
fn role_snapshots_are_ordered_by_user_then_role() {
    let mut tools = tools();
    tools.store.pod_roles.push(PodRoleAssignment { pod_id: POD, user_id: 5, role: PodRole::Curator, created_at: 3 });
    let p = tools.request_grant_pod_role(&ctx(Some(PROPOSER)), POD, 20, PodRole::Owner, 7).unwrap();
    match &p.structured_diff[0].after {
        ResourceSnapshot::Roles(roles) => {
            let users: Vec<u128> = roles.iter().map(|a| a.user_id).collect();
            assert_eq!(users, vec![5, OWNER, 20]);
            assert_eq!(roles[2].created_at, 7);
        },
        _ => panic!("role snapshot expected"),
    }
}

#[test]
fn trusted_peer_proposals_validate_and_apply() {
    let mut tools = tools();
    let bad = tools
        .request_add_trusted_peer(&ctx(Some(PROPOSER)), "Peer".to_string(), "not a url".to_string(), "key".to_string(), 0)
        .unwrap_err();
    assert!(matches!(bad, AgentToolsError::Store(StoreError::Validation(m)) if m == "trusted peer name, URL, and public key must be valid"));
    let p = tools
        .request_add_trusted_peer(
            &ctx(Some(PROPOSER)),
            "Peer".to_string(),
            "https://peer.example".to_string(),
            "key".to_string(),
            0,
        )
        .unwrap();
    assert_eq!(p.expires_at, 3_600_000);
    tools.approve_pending_proposal(&ctx(None), p.id, 10).unwrap();
    assert_eq!(tools.store.trusted_peers.len(), 1);
    let peer = &tools.store.trusted_peers[0];
    assert_eq!(peer.base_url, "https://peer.example");
    assert_eq!(peer.trust_level, TrustLevel::ReadOnly);
    assert!(peer.enabled);
    let duplicate = tools
        .request_add_trusted_peer(
            &ctx(Some(PROPOSER)),
            "Again".to_string(),
            "https://peer.example".to_string(),
            "key".to_string(),
            20,
        )
        .unwrap_err();
    assert!(matches!(duplicate, AgentToolsError::Store(StoreError::Duplicate(m)) if m == "trusted peer https://peer.example"));
    let peer_id = tools.store.trusted_peers[0].id;
    let removal = tools.request_remove_trusted_peer(&ctx(Some(PROPOSER)), peer_id, 30).unwrap();
    tools.approve_pending_proposal(&ctx(Some(APPROVER)), removal.id, 40).unwrap();
    assert!(!tools.store.trusted_peers[0].enabled);
    assert!(tools.trusted_peers(&ctx(None)).unwrap().is_empty());
}

#[test]
fn trusted_node_must_speak_the_current_protocol() {
    let mut tools = tools();
    let node = |version: &str, id: u128| NodeInfo {
        node_id: id,
        display_name: "Remote".to_string(),
        public_key: "pk".to_string(),
        supported_protocol_version: version.to_string(),
    };
    let nil = tools.request_add_trusted_node(&ctx(Some(PROPOSER)), node("stumble-federation/1", 0), "https://a.example".to_string(), 0);
    assert!(matches!(nil.unwrap_err(), AgentToolsError::Store(StoreError::Validation(m)) if m == "canonical Node ID must not be nil"));
    let old = tools.request_add_trusted_node(&ctx(Some(PROPOSER)), node("stumble-federation/0", 7), "https://a.example".to_string(), 0);
    assert!(matches!(old.unwrap_err(), AgentToolsError::Store(StoreError::Validation(m)) if m == "unsupported Node protocol stumble-federation/0"));
    let ok = tools.request_add_trusted_node(&ctx(Some(PROPOSER)), node("stumble-federation/1", 7), "https://a.example".to_string(), 0);
    assert!(matches!(ok.unwrap().requested_change, SensitiveChange::AddTrustedPeer { node_id: 7, .. }));
}

#[test]
fn readers_see_their_own_proposals_oldest_first() {
    let mut tools = tools();
    let second = expand(&mut tools, 5_000);
    let first = tools.request_grant_pod_role(&ctx(Some(PROPOSER)), POD, 20, PodRole::Curator, 1_000).unwrap().id;
    let listed: Vec<u128> = tools.list_pending_proposals(&ctx(None), 6_000).unwrap().iter().map(|p| p.id).collect();
    assert_eq!(listed, vec![first, second]);
    let stranger = AuthContext { user_id: Some(99), tenant_id: None, node_id: 1, harness_id: None };
    assert!(tools.list_pending_proposals(&stranger, 6_000).unwrap().is_empty());
    let refused = tools.pending_proposal(&stranger, first, 6_000).unwrap_err();
    assert!(matches!(refused, AgentToolsError::Forbidden { reason } if reason == "Pending Proposal belongs to another User or tenant"));
}

#[test]
fn trusted_peers_are_listed_by_url() {
    let mut tools = tools();
    for (id, url) in [(1u128, "https://b.example"), (2, "https://a.example"), (3, "https://c.example")] {
        tools.store.trusted_peers.push(TrustedPeer {
            id,
            node_id: 0,
            tenant_id: None,
            display_name: "p".to_string(),
            base_url: url.to_string(),
            public_key: "k".to_string(),
            trust_level: TrustLevel::ReadOnly,
            enabled: id != 3,
            created_at: 0,
        });
    }
    let urls: Vec<String> = tools.trusted_peers(&ctx(None)).unwrap().into_iter().map(|p| p.base_url).collect();
    assert_eq!(urls, vec!["https://a.example".to_string(), "https://b.example".to_string()]);
}

fn publishable(tools: &mut AgentTools) {
    tools.store.node_identities.push(NodeIdentity {
        id: 1,
        tenant_id: None,
        display_name: "home".to_string(),
        public_key: "key".to_string(),
        created_at: 0,
    });
    tools.store.pod_skill_packs.push(PodSkillPack {
        pod_id: POD,
        version: 1,
        skill_md: String::new(),
        pod_yaml: String::new(),
        filters_yaml: String::new(),
        sources_yaml: String::new(),
    });
}

#[test]
fn publishing_a_pod_records_its_visibility_and_applies_on_approval() {
    let mut tools = tools();
    publishable(&mut tools);
    let p = tools
        .create_pending_proposal(&ctx(Some(PROPOSER)), SensitiveChange::PublishPod { pod_id: POD }, 1_000, 1_000 + DAY)
        .unwrap();
    assert!(matches!(p.affected_resources[..], [ProposalResource::Pod(POD)]));
    assert!(matches!(p.structured_diff[0].before, ResourceSnapshot::Visibility(Visibility::Private)));
    assert!(matches!(p.structured_diff[0].after, ResourceSnapshot::Visibility(Visibility::Public)));
    assert_eq!(tools.store.pods[0].visibility, Visibility::Private);
    tools.approve_pending_proposal(&ctx(Some(APPROVER)), p.id, 2_000).unwrap();
    assert_eq!(tools.store.pods[0].visibility, Visibility::Public);
    let again = tools
        .create_pending_proposal(&ctx(Some(PROPOSER)), SensitiveChange::PublishPod { pod_id: POD }, 3_000, 3_000 + DAY)
        .unwrap_err();
    assert!(matches!(again, AgentToolsError::Store(StoreError::Validation(m)) if m == "Pod is already public"));
}

#[test]
fn publishing_needs_the_pod_package() {
    let mut tools = tools();
    let p = tools
        .create_pending_proposal(&ctx(Some(PROPOSER)), SensitiveChange::PublishPod { pod_id: POD }, 1_000, 1_000 + DAY)
        .unwrap();
    let err = tools.approve_pending_proposal(&ctx(Some(APPROVER)), p.id, 2_000).unwrap_err();
    assert!(matches!(err, AgentToolsError::Store(StoreError::NotFound(_))));
    assert_eq!(tools.store.pods[0].visibility, Visibility::Private);
    assert_eq!(tools.store.pending_proposals[0].status, ProposalStatus::Pending);
}

#[test]
fn visibility_may_only_expand() {
    let mut tools = tools();
    let narrower = tools
        .create_pending_proposal(
            &ctx(Some(PROPOSER)),
            SensitiveChange::ExpandPodVisibility { pod_id: POD, visibility: Visibility::Private },
            1_000,
            1_000 + DAY,
        )
        .unwrap_err();
    assert!(
        matches!(narrower, AgentToolsError::Store(StoreError::Validation(m)) if m == "Pending Proposals only apply to visibility expansion")
    );
    let p = tools
        .create_pending_proposal(
            &ctx(Some(PROPOSER)),
            SensitiveChange::ExpandPodVisibility { pod_id: POD, visibility: Visibility::InviteOnly },
            1_000,
            1_000 + DAY,
        )
        .unwrap();
    assert!(matches!(p.structured_diff[0].after, ResourceSnapshot::Visibility(Visibility::InviteOnly)));
    tools.approve_pending_proposal(&ctx(Some(APPROVER)), p.id, 2_000).unwrap();
    assert_eq!(tools.store.pods[0].visibility, Visibility::InviteOnly);
}

#[test]
fn visibility_expansion_needs_a_pod_owner() {
    let mut tools = tools();
    tools.store.pod_roles.clear();
    let err = tools
        .create_pending_proposal(
            &ctx(Some(PROPOSER)),
            SensitiveChange::ExpandPodVisibility { pod_id: POD, visibility: Visibility::Public },
            1_000,
            1_000 + DAY,
        )
        .unwrap_err();
    assert!(matches!(err, AgentToolsError::Forbidden { .. }));
}

#[test]
fn stale_visibility_blocks_approval() {
    let mut tools = tools();
    publishable(&mut tools);
    let p = tools
        .create_pending_proposal(&ctx(Some(PROPOSER)), SensitiveChange::PublishPod { pod_id: POD }, 1_000, 1_000 + DAY)
        .unwrap();
    tools.store.pods[0].visibility = Visibility::InviteOnly;
    let err = tools.approve_pending_proposal(&ctx(Some(APPROVER)), p.id, 2_000).unwrap_err();
    assert!(matches!(err, AgentToolsError::Store(StoreError::Validation(m)) if m.contains("stale")));
}

#[test]
fn narrowing_visibility_takes_effect_and_widening_is_proposed() {
    let mut tools = tools();
    tools.store.pods[0].visibility = Visibility::InviteOnly;
    match tools.request_set_pod_visibility(&ctx(Some(PROPOSER)), POD, Visibility::Private, 1_000).unwrap() {
        PodVisibilityOutcome::Updated(pod) => assert_eq!(pod.visibility, Visibility::Private),
        PodVisibilityOutcome::PendingApproval(_) => panic!("narrowing needs no approval"),
    }
    assert_eq!(tools.store.pods[0].visibility, Visibility::Private);
    assert_eq!(tools.store.harness_write_audit.len(), 1);
    match tools.request_set_pod_visibility(&ctx(Some(PROPOSER)), POD, Visibility::InviteOnly, 2_000).unwrap() {
        PodVisibilityOutcome::PendingApproval(p) => {
            assert_eq!(p.expires_at, 2_000 + 3_600_000);
            assert_eq!(p.status, ProposalStatus::Pending);
        },
        PodVisibilityOutcome::Updated(_) => panic!("widening needs approval"),
    }
    assert_eq!(tools.store.pods[0].visibility, Visibility::Private);
    let same = tools.request_set_pod_visibility(&ctx(Some(PROPOSER)), POD, Visibility::Private, 3_000).unwrap_err();
    assert!(matches!(same, AgentToolsError::Store(StoreError::Validation(m)) if m == "Pod already has that visibility"));
}

fn with_public_link(tools: &mut AgentTools) {
    publishable(tools);
    tools.store.pods[0].visibility = Visibility::Public;
    tools.store.submissions.push(Submission {
        id: 77,
        tenant_id: None,
        url: "https://example.com/a".to_string(),
        canonical_url: "https://example.com/a".to_string(),
        title: "A".to_string(),
        description: None,
        domain: "example.com".to_string(),
        submitted_by: None,
        discovered_by_crawler: false,
        submitter_note: None,
        summary: None,
        tags: Vec::new(),
        created_at: 0,
    });
    tools.store.submission_pods.push(SubmissionPod { submission_id: 77, pod_id: POD });
    tools.store.accepted_placement_projections.push(AcceptedPlacementProjection {
        content_item_id: 77,
        pod_id: POD,
        origin_node_id: 1,
        accepted_at: 5,
    });
}

#[test]
fn public_removal_is_proposed_and_withdraws_with_a_tombstone() {
    let mut tools = tools();
    with_public_link(&mut tools);
    let outcome = tools.request_remove_submission_from_pod(&ctx(Some(PROPOSER)), "rust", 77, 1_000).unwrap();
    let id = match outcome {
        RemoveSubmissionOutcome::PendingApproval(p) => {
            assert!(matches!(p.affected_resources[..], [ProposalResource::SubmissionPlacement { pod_id: POD, submission_id: 77 }]));
            assert!(matches!(p.structured_diff[0].before, ResourceSnapshot::Accepted(true)));
            assert!(matches!(p.structured_diff[0].after, ResourceSnapshot::Accepted(false)));
            assert_eq!(p.expires_at, 1_000 + 3_600_000);
            p.id
        },
        RemoveSubmissionOutcome::Removed { .. } => panic!("public content needs approval"),
    };
    assert_eq!(tools.store.submission_pods.len(), 1);
    tools.approve_pending_proposal(&ctx(Some(APPROVER)), id, 2_000).unwrap();
    assert!(tools.store.submission_pods.is_empty());
    assert!(tools.store.accepted_placement_projections.is_empty());
    assert_eq!(tools.store.placement_tombstones.len(), 1);
    assert_eq!(tools.store.placement_tombstones[0].content_item_id, 77);
    assert_eq!(tools.store.placement_tombstones[0].origin_placement.accepted_at, 5);
    assert_eq!(tools.store.submissions.len(), 1);
}

#[test]
fn private_removal_happens_at_once() {
    let mut tools = tools();
    with_public_link(&mut tools);
    tools.store.pods[0].visibility = Visibility::Private;
    match tools.request_remove_submission_from_pod(&ctx(Some(PROPOSER)), "rust", 77, 1_000).unwrap() {
        RemoveSubmissionOutcome::Removed { submission_purged } => assert!(submission_purged),
        RemoveSubmissionOutcome::PendingApproval(_) => panic!("private content needs no approval"),
    }
    assert!(tools.store.submissions.is_empty());
    assert!(tools.store.pending_proposals.is_empty());
}

#[test]
fn public_removal_needs_a_placed_submission_in_a_public_pod() {
    let mut tools = tools();
    with_public_link(&mut tools);
    let missing = tools
        .create_pending_proposal(
            &ctx(Some(PROPOSER)),
            SensitiveChange::RemovePublicSubmissionFromPod { pod_id: POD, submission_id: 78 },
            1_000,
            1_000 + DAY,
        )
        .unwrap_err();
    assert!(matches!(missing, AgentToolsError::Store(StoreError::NotFound(m)) if m.ends_with(" in pod rust")));
    tools.store.pods[0].visibility = Visibility::InviteOnly;
    let private = tools
        .create_pending_proposal(
            &ctx(Some(PROPOSER)),
            SensitiveChange::RemovePublicSubmissionFromPod { pod_id: POD, submission_id: 77 },
            1_000,
            1_000 + DAY,
        )
        .unwrap_err();
    assert!(matches!(private, AgentToolsError::Store(StoreError::Validation(m)) if m == "this proposal type requires a public Pod"));
}

#[test]
fn a_removed_placement_makes_the_removal_stale() {
    let mut tools = tools();
    with_public_link(&mut tools);
    let p = tools
        .create_pending_proposal(
            &ctx(Some(PROPOSER)),
            SensitiveChange::RemovePublicSubmissionFromPod { pod_id: POD, submission_id: 77 },
            1_000,
            1_000 + DAY,
        )
        .unwrap();
    tools.store.submission_pods.clear();
    let err = tools.approve_pending_proposal(&ctx(Some(APPROVER)), p.id, 2_000).unwrap_err();
    assert!(matches!(err, AgentToolsError::Store(StoreError::Validation(m)) if m.contains("stale")));
    assert_eq!(tools.store.accepted_placement_projections.len(), 1);
}
