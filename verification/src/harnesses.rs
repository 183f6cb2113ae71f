//! Agent Harness administration and the capability checks adapters call.
use crate::agent_tools::{audited, record_harness_write, AgentTools};
use crate::auth::{
    authorize_harness, authorize_interactive_user_action, authorize_personal_discovery_execution,
    authorize_personal_discovery_management, authorize_taste_profile, context_check, execution_check, harness_check,
    interactive_check, management_check, taste_profile_check,
};
use crate::error::{denies, forbidden, not_found_for, refuses_as, validation, AgentToolsError, Denial, StoreError};
use crate::outside::{api_token_hash, new_id, now_millis, sha256_hex, trim, trimmed, uuid_text};
use crate::seqs::{
    any_match, first_index, first_match, lemma_filter_take_step, lemma_first_hit_in_filter, lemma_first_index, lemma_first_index_at,
    lemma_no_hit_in_filter, lemma_stable_sort_elems, payloads, positions, sort_by_key, stable_sort,
};
use crate::store::{harness_with_id, pod_with_id, tenant_check, Store};
use crate::types::{
    AgentHarness, AgentHarnessKind, AgentHarnessModel, AgentHarnessStatus, AgentHarnessView, AgentHarnessViewModel, ApiToken,
    AuthContext, HarnessCapability, HarnessGrant, HarnessWriteAudit, HarnessWriteOperation, Tenant, TenantRole, TenantUser, User,
};
use vstd::prelude::*;

verus! {

/// Every capability, in capability order.
pub open spec fn all_capabilities() -> Seq<HarnessCapability> {
    seq![
        HarnessCapability::FeedRead,
        HarnessCapability::Feedback,
        HarnessCapability::SubscriptionManagement,
        HarnessCapability::PodCuration,
        HarnessCapability::Administration,
        HarnessCapability::Approval,
        HarnessCapability::CandidateSubmission,
        HarnessCapability::DiscoveryTasks,
        HarnessCapability::PackageManagement,
        HarnessCapability::PersonalDiscoveryManagement,
        HarnessCapability::PersonalDiscoveryExecution,
        HarnessCapability::PodSimilarityEvidence,
    ]
}

pub open spec fn member_of(s: Seq<HarnessCapability>) -> spec_fn(HarnessCapability) -> bool {
    |c: HarnessCapability| s.contains(c)
}

/// The capabilities of `s`, each once, in capability order.
pub open spec fn normalized_capabilities(s: Seq<HarnessCapability>) -> Seq<HarnessCapability> {
    all_capabilities().filter(member_of(s))
}

/// `r` holds the identifiers of `s`, each once, in increasing order.
pub open spec fn normalized_ids(r: Seq<u128>, s: Seq<u128>) -> bool {
    &&& forall|i: int, j: int| 0 <= i < j < r.len() ==> r[i] < r[j]
    &&& forall|x: u128| r.contains(x) <==> s.contains(x)
}

/// Increasing sequences with the same members are equal.
pub proof fn lemma_increasing_ids_unique(a: Seq<u128>, b: Seq<u128>)
    requires
        forall|i: int, j: int| 0 <= i < j < a.len() ==> a[i] < a[j],
        forall|i: int, j: int| 0 <= i < j < b.len() ==> b[i] < b[j],
        forall|x: u128| a.contains(x) <==> b.contains(x),
    ensures
        a == b,
    decreases a.len(),
{
    if a.len() == 0 {
        if b.len() > 0 {
            assert(b.contains(b[0]));
        }
        assert(a =~= b);
    } else {
        assert(a.contains(a[0]));
        let j = choose|j: int| 0 <= j < b.len() && b[j] == a[0];
        assert(b.contains(b[0]));
        let k = choose|k: int| 0 <= k < a.len() && a[k] == b[0];
        assert(a[0] == b[0]);
        let a1 = a.drop_first();
        let b1 = b.drop_first();
        assert forall|x: u128| a1.contains(x) <==> b1.contains(x) by {
            if a1.contains(x) {
                let m = choose|m: int| 0 <= m < a1.len() && a1[m] == x;
                assert(a[m + 1] == x);
                assert(a.contains(x));
                let n = choose|n: int| 0 <= n < b.len() && b[n] == x;
                assert(n != 0);
                assert(b1[n - 1] == x);
            }
            if b1.contains(x) {
                let m = choose|m: int| 0 <= m < b1.len() && b1[m] == x;
                assert(b[m + 1] == x);
                assert(b.contains(x));
                let n = choose|n: int| 0 <= n < a.len() && a[n] == x;
                assert(n != 0);
                assert(a1[n - 1] == x);
            }
        }
        lemma_increasing_ids_unique(a1, b1);
        assert(a =~= b) by {
            assert forall|i: int| 0 <= i < a.len() implies a[i] == b[i] by {
                if i > 0 {
                    assert(a[i] == a1[i - 1]);
                    assert(b[i] == b1[i - 1]);
                }
            }
        }
    }
}

/// The identifiers of `s`, each once, in increasing order.
pub open spec fn sorted_ids(s: Seq<u128>) -> Seq<u128> {
    choose|r: Seq<u128>| normalized_ids(r, s)
}

/// Any normalization of `s` is `sorted_ids(s)`.
pub proof fn lemma_sorted_ids(r: Seq<u128>, s: Seq<u128>)
    requires
        normalized_ids(r, s),
    ensures
        r == sorted_ids(s),
{
    let c = sorted_ids(s);
    assert(normalized_ids(c, s));
    lemma_increasing_ids_unique(r, c);
}

/// Whether a capability set confers administration or approval authority.
pub open spec fn confers_oversight(caps: Seq<HarnessCapability>) -> bool {
    caps.contains(HarnessCapability::Administration) || caps.contains(HarnessCapability::Approval)
}

/// The Pod scope check of a grant: each listed Pod, in order, must exist and
/// belong to the tenant.
pub open spec fn scope_pods_check(s: Store, ids: Seq<u128>, tenant_id: Option<u128>) -> Result<(), Denial>
    decreases ids.len(),
{
    if ids.len() == 0 {
        Ok(())
    } else {
        match first_match(s.pods@, pod_with_id(ids[0])) {
            None => Err(Denial::NotFound("pod "@ + uuid_text(ids[0]))),
            Some(p) => match tenant_check(p.tenant_id, tenant_id) {
                Err(d) => Err(d),
                Ok(()) => scope_pods_check(s, ids.drop_first(), tenant_id),
            },
        }
    }
}

/// Checks that each listed Pod exists and belongs to the tenant.
pub fn check_scope_pods(store: &Store, ids: &Vec<u128>, tenant_id: Option<u128>) -> (r: Result<(), AgentToolsError>)
    ensures
        refuses_as(r, scope_pods_check(*store, ids@, tenant_id)),
{
    let mut i: usize = 0;
    assert(ids@.skip(0) =~= ids@);
    while i < ids.len()
        invariant
            i <= ids@.len(),
            scope_pods_check(*store, ids@.skip(i as int), tenant_id) == scope_pods_check(*store, ids@, tenant_id),
        decreases ids@.len() - i,
    {
        assert(ids@.skip(i as int).drop_first() =~= ids@.skip(i + 1));
        assert(ids@.skip(i as int)[0] == ids@[i as int]);
        let index = match store.find_pod(ids[i]) {
            Some(k) => k,
            None => return Err(not_found_for("pod ", ids[i])),
        };
        store.assert_tenant(store.pods[index].tenant_id, tenant_id)?;
        i = i + 1;
    }
    assert(ids@.skip(ids@.len() as int) =~= Seq::<u128>::empty());
    Ok(())
}

/// Whether `c` is one of `caps`.
pub fn capabilities_contain(caps: &Vec<HarnessCapability>, c: HarnessCapability) -> (b: bool)
    ensures
        b == caps@.contains(c),
{
    let mut i: usize = 0;
    while i < caps.len()
        invariant
            i <= caps@.len(),
            forall|j: int| 0 <= j < i ==> caps@[j] != c,
        decreases caps@.len() - i,
    {
        if caps[i] == c {
            assert(caps@[i as int] == c);
            return true;
        }
        i = i + 1;
    }
    false
}

/// The requested capabilities, each once, in capability order.
pub fn normalize_capabilities(capabilities: Vec<HarnessCapability>) -> (r: Vec<HarnessCapability>)
    ensures
        r@ == normalized_capabilities(capabilities@),
{
    let all = vec![
        HarnessCapability::FeedRead,
        HarnessCapability::Feedback,
        HarnessCapability::SubscriptionManagement,
        HarnessCapability::PodCuration,
        HarnessCapability::Administration,
        HarnessCapability::Approval,
        HarnessCapability::CandidateSubmission,
        HarnessCapability::DiscoveryTasks,
        HarnessCapability::PackageManagement,
        HarnessCapability::PersonalDiscoveryManagement,
        HarnessCapability::PersonalDiscoveryExecution,
        HarnessCapability::PodSimilarityEvidence,
    ];
    assert(all@ =~= all_capabilities());
    let ghost p = member_of(capabilities@);
    let mut r: Vec<HarnessCapability> = Vec::new();
    let mut i: usize = 0;
    while i < all.len()
        invariant
            all@ == all_capabilities(),
            p == member_of(capabilities@),
            i <= all@.len(),
            r@ == all@.take(i as int).filter(p),
        decreases all@.len() - i,
    {
        proof { lemma_filter_take_step(all@, p, i as int); }
        if capabilities_contain(&capabilities, all[i]) {
            r.push(all[i]);
        }
        i = i + 1;
    }
    assert(all@.take(all@.len() as int) =~= all@);
    r
}

/// The identifiers, each once, in increasing order.
pub fn normalize_pod_ids(pod_ids: Vec<u128>) -> (r: Vec<u128>)
    ensures
        normalized_ids(r@, pod_ids@),
        r@ == sorted_ids(pod_ids@),
{
    let mut r: Vec<u128> = Vec::new();
    let mut i: usize = 0;
    while i < pod_ids.len()
        invariant
            i <= pod_ids@.len(),
            forall|a: int, b: int| 0 <= a < b < r@.len() ==> r@[a] < r@[b],
            forall|x: u128| r@.contains(x) <==> pod_ids@.take(i as int).contains(x),
        decreases pod_ids@.len() - i,
    {
        let x = pod_ids[i];
        let mut pos: usize = 0;
        while pos < r.len() && r[pos] < x
            invariant
                pos <= r@.len(),
                forall|a: int| 0 <= a < pos ==> r@[a] < x,
            decreases r@.len() - pos,
        {
            pos = pos + 1;
        }
        let ghost before = r@;
        let ghost pre = pod_ids@.take(i as int);
        let ghost pre1 = pod_ids@.take(i + 1);
        assert(pre1 =~= pre.push(x));
        if pos < r.len() && r[pos] == x {
            assert forall|y: u128| r@.contains(y) <==> pre1.contains(y) by {
                if y == x {
                    assert(r@[pos as int] == x);
                }
                if pre1.contains(y) && y != x {
                    let k = choose|k: int| 0 <= k < pre1.len() && pre1[k] == y;
                    assert(pre[k] == y);
                }
            }
        } else {
            r.insert(pos, x);
            assert(r@ =~= before.take(pos as int).push(x) + before.skip(pos as int));
            assert forall|a: int, b: int| 0 <= a < b < r@.len() implies r@[a] < r@[b] by {
                if b < pos {
                } else if a < pos && b == pos {
                } else if a < pos {
                    assert(r@[b] == before[b - 1]);
                    assert(before[a] < before[b - 1]);
                } else if a == pos {
                    assert(r@[b] == before[b - 1]);
                    assert(before[pos as int] >= x);
                    if b - 1 > pos {
                        assert(before[pos as int] < before[b - 1]);
                    }
                    assert(x != before[pos as int] || pos == before.len());
                } else {
                    assert(r@[a] == before[a - 1]);
                    assert(r@[b] == before[b - 1]);
                }
            }
            assert forall|y: u128| r@.contains(y) <==> pre1.contains(y) by {
                if r@.contains(y) {
                    let k = choose|k: int| 0 <= k < r@.len() && r@[k] == y;
                    if k < pos {
                        assert(before.contains(y));
                    } else if k > pos {
                        assert(before[k - 1] == y);
                        assert(before.contains(y));
                    }
                    if y != x {
                        assert(before.contains(y));
                        assert(pre.contains(y));
                        let m = choose|m: int| 0 <= m < pre.len() && pre[m] == y;
                        assert(pre1[m] == y);
                    } else {
                        assert(pre1[i as int] == x);
                    }
                }
                if pre1.contains(y) {
                    if y == x {
                        assert(r@[pos as int] == x);
                    } else {
                        let k = choose|k: int| 0 <= k < pre1.len() && pre1[k] == y;
                        assert(pre[k] == y);
                        assert(before.contains(y));
                        let m = choose|m: int| 0 <= m < before.len() && before[m] == y;
                        if m < pos {
                            assert(r@[m] == y);
                        } else {
                            assert(r@[m + 1] == y);
                        }
                    }
                }
            }
        }
        i = i + 1;
    }
    assert(pod_ids@.take(pod_ids@.len() as int) =~= pod_ids@);
    proof { lemma_sorted_ids(r@, pod_ids@); }
    r
}

} // verus!

verus! {

pub open spec fn token_of(harness_id: u128) -> spec_fn(ApiToken) -> bool {
    |t: ApiToken| t.harness_id == Some(harness_id)
}

pub open spec fn min_len(n: int) -> int {
    if n < 12 {
        n
    } else {
        12
    }
}

/// The administrator's view of a harness: its first credential's fingerprint and its status.
pub open spec fn harness_view_spec(s: Store, h: AgentHarness) -> Result<AgentHarnessViewModel, Denial> {
    match first_match(s.api_tokens@, token_of(h.id)) {
        None => Err(Denial::NotFound("credential for Agent Harness "@ + uuid_text(h.id))),
        Some(t) => Ok(AgentHarnessViewModel {
            harness: h@,
            credential_fingerprint: "sha256:"@ + t.token_hash@.take(min_len(t.token_hash@.len() as int)),
            status: if h.revoked_at is Some {
                AgentHarnessStatus::Revoked
            } else {
                AgentHarnessStatus::Active
            },
        }),
    }
}

pub open spec fn harness_at_in_tenant(s: Store, tenant_id: Option<u128>) -> spec_fn(usize) -> bool {
    |k: usize| s.agent_harnesses@[k as int].tenant_id == tenant_id
}

pub open spec fn harness_at_lacks_credential(s: Store) -> spec_fn(usize) -> bool {
    |k: usize| first_match(s.api_tokens@, token_of(s.agent_harnesses@[k as int].id)) is None
}

pub open spec fn harness_at_created_key(s: Store) -> spec_fn(usize) -> ((i64, u128), usize) {
    |k: usize| ((s.agent_harnesses@[k as int].created_at, 0u128), k)
}

pub open spec fn view_at(s: Store) -> spec_fn(usize) -> AgentHarnessViewModel {
    |k: usize| harness_view_spec(s, s.agent_harnesses@[k as int])->Ok_0
}

/// The positions of the tenant's harnesses.
pub open spec fn tenant_harnesses(s: Store, tenant_id: Option<u128>) -> Seq<usize> {
    positions(s.agent_harnesses@).filter(harness_at_in_tenant(s, tenant_id))
}

/// The tenant's harnesses ordered by creation (ties in stored order), as administrator views.
pub open spec fn harness_listing(s: Store, tenant_id: Option<u128>) -> Result<Seq<AgentHarnessViewModel>, Denial> {
    let ks = tenant_harnesses(s, tenant_id);
    match first_match(ks, harness_at_lacks_credential(s)) {
        Some(k) => Err(Denial::NotFound("credential for Agent Harness "@ + uuid_text(s.agent_harnesses@[k as int].id))),
        None => Ok(payloads(stable_sort(ks.map_values(harness_at_created_key(s)))).map_values(view_at(s))),
    }
}

/// Builds the administrator's view of a harness.
pub fn agent_harness_view(store: &Store, harness: &AgentHarness) -> (r: Result<AgentHarnessView, AgentToolsError>)
    ensures
        match harness_view_spec(*store, *harness) {
            Ok(v) => r matches Ok(x) && x@ == v,
            Err(d) => r matches Err(e) && denies(e, d),
        },
{
    let tokens = &store.api_tokens;
    let mut i: usize = 0;
    while i < tokens.len() && tokens[i].harness_id != Some(harness.id)
        invariant
            i <= tokens@.len(),
            forall|j: int| 0 <= j < i ==> !token_of(harness.id)(#[trigger] tokens@[j]),
        decreases tokens@.len() - i,
    {
        i = i + 1;
    }
    proof { lemma_first_index_at(tokens@, token_of(harness.id), i as int); }
    if i == tokens.len() {
        return Err(not_found_for("credential for Agent Harness ", harness.id));
    }
    let hash = tokens[i].token_hash.as_str();
    let n = hash.unicode_len();
    let take = if n < 12 { n } else { 12 };
    let mut fingerprint = String::from_str("sha256:");
    fingerprint.append(hash.substring_char(0, take));
    assert(hash@.subrange(0, take as int) =~= hash@.take(take as int));
    let status = if harness.revoked_at.is_some() {
        AgentHarnessStatus::Revoked
    } else {
        AgentHarnessStatus::Active
    };
    Ok(AgentHarnessView { harness: harness.clone(), credential_fingerprint: fingerprint, status })
}

/// Normalizing keeps exactly the requested capabilities and lists each once.
pub proof fn lemma_normalized_capabilities(s: Seq<HarnessCapability>)
    ensures
        forall|c: HarnessCapability| normalized_capabilities(s).contains(c) <==> s.contains(c),
        normalized_capabilities(s).no_duplicates(),
{
    let all = all_capabilities();
    let p = member_of(s);
    let n = normalized_capabilities(s);
    assert forall|c: HarnessCapability| n.contains(c) <==> s.contains(c) by {
        if n.contains(c) {
            all.lemma_filter_contains_rev(p, c);
            let k = choose|k: int| 0 <= k < n.len() && n[k] == c;
            all.lemma_filter_pred(p, k);
        }
        if s.contains(c) {
            let i: int = match c {
                HarnessCapability::FeedRead => 0,
                HarnessCapability::Feedback => 1,
                HarnessCapability::SubscriptionManagement => 2,
                HarnessCapability::PodCuration => 3,
                HarnessCapability::Administration => 4,
                HarnessCapability::Approval => 5,
                HarnessCapability::CandidateSubmission => 6,
                HarnessCapability::DiscoveryTasks => 7,
                HarnessCapability::PackageManagement => 8,
                HarnessCapability::PersonalDiscoveryManagement => 9,
                HarnessCapability::PersonalDiscoveryExecution => 10,
                HarnessCapability::PodSimilarityEvidence => 11,
            };
            assert(all[i] == c);
            all.lemma_filter_contains(p, i);
        }
    }
    assert(all.no_duplicates());
    lemma_filter_keeps_no_duplicates(all, p);
}

/// Filtering a sequence without duplicates leaves none.
pub proof fn lemma_filter_keeps_no_duplicates<A>(s: Seq<A>, p: spec_fn(A) -> bool)
    requires
        s.no_duplicates(),
    ensures
        s.filter(p).no_duplicates(),
    decreases s.len(),
{
    reveal(Seq::filter);
    if s.len() > 0 {
        let rest = s.drop_last();
        assert(rest.no_duplicates());
        lemma_filter_keeps_no_duplicates(rest, p);
        if p(s.last()) {
            let f = rest.filter(p);
            assert(s.filter(p) == f.push(s.last()));
            if f.contains(s.last()) {
                rest.lemma_filter_contains_rev(p, s.last());
                let k = choose|k: int| 0 <= k < rest.len() && rest[k] == s.last();
                assert(s[k] == s[s.len() - 1]);
            }
            assert forall|i: int, j: int| 0 <= i < j < f.push(s.last()).len() implies f.push(s.last())[i] != f.push(s.last())[j] by {
                if j == f.len() {
                    assert(f.contains(f[i]));
                }
            }
        } else {
            assert(s.filter(p) == rest.filter(p));
        }
    }
}

/// A request to register an Agent Harness.
#[derive(Debug)]
pub struct RegisterAgentHarnessRequest {
    pub label: String,
    pub kind: AgentHarnessKind,
    pub capabilities: Vec<HarnessCapability>,
    pub pod_ids: Option<Vec<u128>>,
}

/// A registered harness and its bearer token, handed out exactly once.
#[derive(Debug)]
pub struct RegisterAgentHarnessResponse {
    pub harness: AgentHarness,
    pub token: String,
}

/// The User a new harness belongs to: the caller, or else the first User of the Home Node.
pub open spec fn registering_user(s: Store, ctx: AuthContext) -> Option<u128> {
    if ctx.user_id is Some {
        ctx.user_id
    } else if s.users@.len() > 0 {
        Some(s.users@[0].id)
    } else {
        None
    }
}

/// The registration rules, yielding the owning User: only the Home Node Owner
/// (no harness) registers; the label must not be blank; a User must exist;
/// every scoped Pod must exist in the tenant; an unattended harness gets no
/// administration or approval; and a bootstrap administration or approval
/// grant stands alone.
pub open spec fn registration_check(s: Store, ctx: AuthContext, request: RegisterAgentHarnessRequest) -> Result<u128, Denial> {
    let caps = normalized_capabilities(request.capabilities@);
    if ctx.harness_id is Some {
        Err(Denial::Forbidden("only the Home Node Owner may register an Agent Harness directly"@))
    } else if harness_check(s, ctx, HarnessCapability::Administration, None) is Err {
        Err(harness_check(s, ctx, HarnessCapability::Administration, None)->Err_0)
    } else if trimmed(request.label@).len() == 0 {
        Err(Denial::Validation("Agent Harness label must not be empty"@))
    } else if registering_user(s, ctx) is None {
        Err(Denial::Validation("an Agent Harness must belong to a User"@))
    } else if request.pod_ids is Some && scope_pods_check(s, request.pod_ids->0@, ctx.tenant_id) is Err {
        Err(scope_pods_check(s, request.pod_ids->0@, ctx.tenant_id)->Err_0)
    } else if request.kind == AgentHarnessKind::Unattended && confers_oversight(caps) {
        Err(Denial::Forbidden("unattended harnesses cannot receive administration or approval"@))
    } else if caps.len() > 1 && confers_oversight(caps) {
        Err(Denial::Validation("bootstrap administration and approval grants must be isolated"@))
    } else {
        Ok(registering_user(s, ctx)->0)
    }
}

/// `h` is the harness a successful registration of `request` for User `u` creates.
pub open spec fn registered_harness(h: AgentHarness, request: RegisterAgentHarnessRequest, ctx: AuthContext, u: u128) -> bool {
    &&& h.user_id == u
    &&& h.tenant_id == ctx.tenant_id
    &&& h.label@ == request.label@
    &&& h.kind == request.kind
    &&& h.grant.capabilities@ == normalized_capabilities(request.capabilities@)
    &&& match request.pod_ids {
        None => h.grant.pod_ids is None,
        Some(ids) => h.grant.pod_ids matches Some(v) && normalized_ids(v@, ids@),
    }
    &&& h.revoked_at is None
}

/// `t` is the credential a registration stores for harness `h` under `token_hash`.
pub open spec fn registered_credential(t: ApiToken, h: AgentHarness, token_hash: Seq<char>) -> bool {
    &&& t.user_id == h.user_id
    &&& t.tenant_id == h.tenant_id
    &&& t.token_hash@ == token_hash
    &&& t.label@ == "Harness: "@ + h.label@
    &&& t.last_used_at is None
    &&& t.revoked_at is None
    &&& t.harness_id == Some(h.id)
}

/// A harness never registers another harness: registration is the Home Node Owner's.
pub proof fn lemma_harness_cannot_register(s: Store, ctx: AuthContext, request: RegisterAgentHarnessRequest)
    requires
        ctx.harness_id is Some,
    ensures
        registration_check(s, ctx, request) is Err,
{
}

/// A registered unattended harness holds neither administration nor approval,
/// and a registered grant holding either holds nothing else.
pub proof fn lemma_registered_oversight_is_isolated(s: Store, ctx: AuthContext, request: RegisterAgentHarnessRequest)
    requires
        registration_check(s, ctx, request) is Ok,
    ensures
        request.kind == AgentHarnessKind::Unattended ==> !confers_oversight(normalized_capabilities(request.capabilities@)),
        confers_oversight(normalized_capabilities(request.capabilities@)) ==> normalized_capabilities(request.capabilities@).len() == 1,
{
    lemma_normalized_capabilities(request.capabilities@);
    let caps = normalized_capabilities(request.capabilities@);
    if confers_oversight(caps) {
        assert(caps.len() > 0);
    }
}

/// An unrevoked credential whose stored hash is `hash`.
pub open spec fn live_token_with_hash(hash: Seq<char>) -> spec_fn(ApiToken) -> bool {
    |t: ApiToken| t.token_hash@ == hash && t.revoked_at is None
}

/// Whether a credential's harness, if it has one, exists and is not revoked.
pub open spec fn token_harness_live(s: Store, t: ApiToken) -> bool {
    match t.harness_id {
        None => true,
        Some(h) => match first_match(s.agent_harnesses@, harness_with_id(h)) {
            Some(x) => x.revoked_at is None,
            None => false,
        },
    }
}

/// The context a credential authenticates, on node `node_id`.
pub open spec fn token_context(t: ApiToken, node_id: u128) -> AuthContext {
    AuthContext { user_id: Some(t.user_id), tenant_id: t.tenant_id, node_id, harness_id: t.harness_id }
}

/// A request for a development credential.
#[derive(Debug)]
pub struct DevTokenRequest {
    pub tenant_slug: Option<String>,
    pub user_id: Option<u128>,
    pub label: String,
}

/// A development credential: its bearer token and hash, handed out once.
#[derive(Debug)]
pub struct DevTokenResponse {
    pub token: String,
    pub token_hash: String,
    pub user_id: u128,
    pub tenant_id: Option<u128>,
}

pub open spec fn tenant_with_slug(slug: Seq<char>) -> spec_fn(Tenant) -> bool {
    |t: Tenant| t.slug@ == slug
}

pub open spec fn user_with_id(id: u128) -> spec_fn(User) -> bool {
    |u: User| u.id == id
}

pub open spec fn member_of_tenant(tenant_id: u128, user_id: u128) -> spec_fn(TenantUser) -> bool {
    |m: TenantUser| m.tenant_id == tenant_id && m.user_id == user_id
}

/// The rules of a development credential, yielding its tenant: administration
/// authority when acting for a context, and a known tenant slug if one is named.
pub open spec fn dev_token_check(s: Store, ctx: Option<AuthContext>, request: DevTokenRequest) -> Result<Option<u128>, Denial> {
    if ctx is Some && harness_check(s, ctx->0, HarnessCapability::Administration, None) is Err {
        Err(harness_check(s, ctx->0, HarnessCapability::Administration, None)->Err_0)
    } else {
        match request.tenant_slug {
            None => Ok(None),
            Some(slug) => match first_match(s.tenants@, tenant_with_slug(slug@)) {
                None => Err(Denial::NotFound("tenant "@ + slug@)),
                Some(t) => Ok(Some(t.id)),
            },
        }
    }
}

/// What issuing a development credential does to the store and returns.
pub open spec fn dev_token_outcome(
    before: Store,
    after: Store,
    r: Result<DevTokenResponse, AgentToolsError>,
    ctx: Option<AuthContext>,
    request: DevTokenRequest,
    token: String,
    token_hash: Seq<char>,
) -> bool {
    match dev_token_check(before, ctx, request) {
        Err(d) => r matches Err(e) && denies(e, d) && after == before,
        Ok(tenant_id) => r matches Ok(resp) && {
            let u = resp.user_id;
            let h = after.agent_harnesses@.last();
            let t = after.api_tokens@.last();
            &&& resp.token == token && resp.token_hash@ == token_hash && resp.tenant_id == tenant_id
            &&& request.user_id is Some ==> u == request.user_id->0
            &&& if any_match(before.users@, user_with_id(u)) {
                after.users@ == before.users@
            } else {
                &&& after.users@.drop_last() == before.users@
                &&& after.users@.len() == before.users@.len() + 1
                &&& after.users@.last().id == u
                &&& after.users@.last().display_name@ == "Remote Agent User"@
            }
            &&& if tenant_id is Some && !any_match(before.tenant_users@, member_of_tenant(tenant_id->0, u)) {
                &&& after.tenant_users@.drop_last() == before.tenant_users@
                &&& after.tenant_users@.len() == before.tenant_users@.len() + 1
                &&& after.tenant_users@.last().tenant_id == tenant_id->0
                &&& after.tenant_users@.last().user_id == u
                &&& after.tenant_users@.last().role == TenantRole::Member
            } else {
                after.tenant_users@ == before.tenant_users@
            }
            &&& after.agent_harnesses@.len() == before.agent_harnesses@.len() + 1
            &&& after.agent_harnesses@.drop_last() == before.agent_harnesses@
            &&& h.user_id == u && h.tenant_id == tenant_id && h.label@ == request.label@
            &&& h.kind == AgentHarnessKind::Interactive && h.grant.capabilities@.len() == 0 && h.grant.pod_ids is None
            &&& h.revoked_at is None
            &&& after.api_tokens@.len() == before.api_tokens@.len() + 1
            &&& after.api_tokens@.drop_last() == before.api_tokens@
            &&& t.user_id == u && t.tenant_id == tenant_id && t.token_hash@ == token_hash && t.label@ == request.label@
            &&& t.last_used_at is None && t.revoked_at is None && t.harness_id == Some(h.id)
            &&& match ctx {
                None => after.harness_write_audit@ == before.harness_write_audit@,
                Some(c) => audited(before.harness_write_audit@, after.harness_write_audit@, c, HarnessWriteOperation::CreateDevToken, None),
            }
            &&& after == (Store {
                users: after.users,
                tenant_users: after.tenant_users,
                agent_harnesses: after.agent_harnesses,
                api_tokens: after.api_tokens,
                harness_write_audit: after.harness_write_audit,
                ..before
            })
        },
    }
}

/// After a harness is revoked it is reported Revoked: its record carries the
/// revocation instant, and its administrator's view (whenever it can be
/// built) has status `Revoked`.
pub proof fn lemma_revoked_harness_is_reported_revoked(before: Store, after: Store, harness_id: u128, t: Option<i64>)
    requires
        ({
            let i = first_index(before.agent_harnesses@, harness_with_id(harness_id));
            &&& i >= 0
            &&& t is Some
            &&& after.agent_harnesses@ == before.agent_harnesses@.update(
                i,
                AgentHarness { revoked_at: t, ..before.agent_harnesses@[i] },
            )
        }),
    ensures
        first_match(after.agent_harnesses@, harness_with_id(harness_id)) matches Some(h) && h.revoked_at == t && (
        harness_view_spec(after, h) matches Ok(v) ==> v.status == AgentHarnessStatus::Revoked),
{
    let i = first_index(before.agent_harnesses@, harness_with_id(harness_id));
    lemma_first_index(before.agent_harnesses@, harness_with_id(harness_id));
    assert forall|j: int| 0 <= j < i implies !harness_with_id(harness_id)(#[trigger] after.agent_harnesses@[j]) by {
        assert(after.agent_harnesses@[j] == before.agent_harnesses@[j]);
    }
    lemma_first_index_at(after.agent_harnesses@, harness_with_id(harness_id), i);
}

/// Once a harness is revoked, no credential authenticates as it.
pub proof fn lemma_revoked_harness_never_authenticates(s: Store, hash: Seq<char>, h: u128)
    requires
        first_match(s.agent_harnesses@, harness_with_id(h)) matches Some(x) && x.revoked_at is Some,
    ensures
        ({
            let i = first_index(s.api_tokens@, live_token_with_hash(hash));
            i >= 0 && token_harness_live(s, s.api_tokens@[i]) ==> s.api_tokens@[i].harness_id != Some(h)
        }),
{
}

impl AgentTools {
    fn create_dev_token_inner(
        &mut self,
        ctx: Option<&AuthContext>,
        request: DevTokenRequest,
        token: String,
        token_hash: String,
    ) -> (r: Result<DevTokenResponse, AgentToolsError>)
        ensures
            dev_token_outcome(
                old(self).store,
                final(self).store,
                r,
                match ctx {
                    Some(c) => Some(*c),
                    None => None,
                },
                request,
                token,
                token_hash@,
            ),
    {
        if let Some(c) = ctx {
            authorize_harness(&self.store, c, HarnessCapability::Administration, None)?;
        }
        let tenant_id = match &request.tenant_slug {
            None => None,
            Some(slug) => {
                let tenants = &self.store.tenants;
                let mut i: usize = 0;
                while i < tenants.len() && tenants[i].slug != *slug
                    invariant
                        i <= tenants@.len(),
                        forall|j: int| 0 <= j < i ==> !tenant_with_slug(slug@)(#[trigger] tenants@[j]),
                    decreases tenants@.len() - i,
                {
                    i = i + 1;
                }
                proof { lemma_first_index_at(tenants@, tenant_with_slug(slug@), i as int); }
                if i == tenants.len() {
                    let mut message = String::from_str("tenant ");
                    message.append(slug.as_str());
                    return Err(AgentToolsError::Store(StoreError::NotFound(message)));
                }
                Some(tenants[i].id)
            },
        };
        let user_id = match request.user_id {
            Some(u) => u,
            None => new_id(),
        };
        let now = now_millis();
        let users = &self.store.users;
        let mut k: usize = 0;
        while k < users.len() && users[k].id != user_id
            invariant
                k <= users@.len(),
                forall|j: int| 0 <= j < k ==> !user_with_id(user_id)(#[trigger] users@[j]),
            decreases users@.len() - k,
        {
            k = k + 1;
        }
        proof { lemma_first_index_at(users@, user_with_id(user_id), k as int); lemma_first_index(users@, user_with_id(user_id)); }
        if k == self.store.users.len() {
            let ghost before = self.store.users@;
            self.store.users.push(User { id: user_id, display_name: String::from_str("Remote Agent User"), created_at: now });
            assert(self.store.users@.drop_last() =~= before);
        }
        if let Some(t) = tenant_id {
            let members = &self.store.tenant_users;
            let mut m: usize = 0;
            while m < members.len() && !(members[m].tenant_id == t && members[m].user_id == user_id)
                invariant
                    m <= members@.len(),
                    forall|j: int| 0 <= j < m ==> !member_of_tenant(t, user_id)(#[trigger] members@[j]),
                decreases members@.len() - m,
            {
                m = m + 1;
            }
            proof { lemma_first_index_at(members@, member_of_tenant(t, user_id), m as int); lemma_first_index(members@, member_of_tenant(t, user_id)); }
            if m == self.store.tenant_users.len() {
                let ghost before = self.store.tenant_users@;
                self.store.tenant_users.push(TenantUser { tenant_id: t, user_id, role: TenantRole::Member, created_at: now });
                assert(self.store.tenant_users@.drop_last() =~= before);
            }
        }
        let harness = AgentHarness {
            id: new_id(),
            user_id,
            tenant_id,
            label: request.label.clone(),
            kind: AgentHarnessKind::Interactive,
            grant: HarnessGrant { capabilities: Vec::new(), pod_ids: None },
            created_at: now,
            revoked_at: None,
        };
        let api_token = ApiToken {
            id: new_id(),
            user_id,
            tenant_id,
            token_hash: token_hash.clone(),
            label: request.label,
            created_at: now,
            last_used_at: None,
            revoked_at: None,
            harness_id: Some(harness.id),
        };
        let ghost h0 = self.store.agent_harnesses@;
        let ghost t0 = self.store.api_tokens@;
        self.store.agent_harnesses.push(harness);
        self.store.api_tokens.push(api_token);
        assert(self.store.agent_harnesses@.drop_last() =~= h0);
        assert(self.store.api_tokens@.drop_last() =~= t0);
        if let Some(c) = ctx {
            record_harness_write(&mut self.store, c, HarnessWriteOperation::CreateDevToken, None);
        }
        Ok(DevTokenResponse { token, token_hash, user_id, tenant_id })
    }

    /// Issues a development credential (an interactive harness with no
    /// capabilities) for the Home Node Owner; the store keeps only the
    /// token's hash.
    pub fn create_dev_token(&mut self, request: DevTokenRequest, token: String) -> (r: Result<DevTokenResponse, AgentToolsError>)
        ensures
            dev_token_outcome(old(self).store, final(self).store, r, None, request, token, sha256_hex(token@)),
    {
        let token_hash = api_token_hash(token.as_str());
        self.create_dev_token_inner(None, request, token, token_hash)
    }

    /// Issues a development credential under administration authority.
    pub fn create_dev_token_as(&mut self, ctx: &AuthContext, request: DevTokenRequest, token: String) -> (r: Result<
        DevTokenResponse,
        AgentToolsError,
    >)
        ensures
            dev_token_outcome(old(self).store, final(self).store, r, Some(*ctx), request, token, sha256_hex(token@)),
    {
        let token_hash = api_token_hash(token.as_str());
        self.create_dev_token_inner(Some(ctx), request, token, token_hash)
    }

    /// Authenticates a bearer token by its hash: the first unrevoked
    /// credential with that hash, if its harness is live, yields its context
    /// and is marked used; any other token authenticates nothing.
    pub fn authenticate_token(&mut self, token: &str) -> (r: Result<Option<AuthContext>, AgentToolsError>)
        ensures
            ({
                let i = first_index(old(self).store.api_tokens@, live_token_with_hash(sha256_hex(token@)));
                if i < 0 || !token_harness_live(old(self).store, old(self).store.api_tokens@[i]) {
                    r == Ok::<Option<AuthContext>, AgentToolsError>(None) && final(self).store == old(self).store
                } else {
                    let t = old(self).store.api_tokens@[i];
                    match old(self).store.node_for_tenant_spec(t.tenant_id) {
                        Err(d) => r matches Err(e) && denies(e, d) && final(self).store == old(self).store,
                        Ok(n) => {
                            &&& r == Ok::<Option<AuthContext>, AgentToolsError>(Some(token_context(t, n.id)))
                            &&& final(self).store.api_tokens@[i].last_used_at is Some
                            &&& final(self).store.api_tokens@ == old(self).store.api_tokens@.update(
                                i,
                                ApiToken { last_used_at: final(self).store.api_tokens@[i].last_used_at, ..t },
                            )
                            &&& final(self).store == (Store { api_tokens: final(self).store.api_tokens, ..old(self).store })
                        },
                    }
                }
            }),
    {
        let wanted = api_token_hash(token);
        let tokens = &self.store.api_tokens;
        let mut i: usize = 0;
        while i < tokens.len() && !(tokens[i].token_hash == wanted && tokens[i].revoked_at.is_none())
            invariant
                i <= tokens@.len(),
                wanted@ == sha256_hex(token@),
                forall|j: int| 0 <= j < i ==> !live_token_with_hash(sha256_hex(token@))(#[trigger] tokens@[j]),
            decreases tokens@.len() - i,
        {
            i = i + 1;
        }
        proof { lemma_first_index_at(tokens@, live_token_with_hash(sha256_hex(token@)), i as int); }
        if i == tokens.len() {
            return Ok(None);
        }
        if let Some(h) = tokens[i].harness_id {
            match self.store.find_harness(h) {
                Some(k) => {
                    if self.store.agent_harnesses[k].revoked_at.is_some() {
                        return Ok(None);
                    }
                },
                None => return Ok(None),
            }
        }
        let node_id = self.store.node_for_tenant(self.store.api_tokens[i].tenant_id)?.id;
        let mut token = self.store.api_tokens[i].clone();
        let ctx = AuthContext { user_id: Some(token.user_id), tenant_id: token.tenant_id, node_id, harness_id: token.harness_id };
        token.last_used_at = Some(now_millis());
        self.store.api_tokens.set(i, token);
        Ok(Some(ctx))
    }

    /// Registers a harness for the Home Node Owner and returns its bearer
    /// token exactly once; the store keeps only the token's hash.
    pub fn register_agent_harness(
        &mut self,
        ctx: &AuthContext,
        request: RegisterAgentHarnessRequest,
        token: String,
    ) -> (r: Result<RegisterAgentHarnessResponse, AgentToolsError>)
        ensures
            match registration_check(old(self).store, *ctx, request) {
                Err(d) => r matches Err(e) && denies(e, d) && final(self).store == old(self).store,
                Ok(u) => r matches Ok(resp) && {
                    &&& registered_harness(resp.harness, request, *ctx, u)
                    &&& resp.token == token
                    &&& final(self).store.agent_harnesses@.drop_last() == old(self).store.agent_harnesses@
                    &&& final(self).store.agent_harnesses@.len() == old(self).store.agent_harnesses@.len() + 1
                    &&& final(self).store.agent_harnesses@.last()@ == resp.harness@
                    &&& final(self).store.api_tokens@.drop_last() == old(self).store.api_tokens@
                    &&& final(self).store.api_tokens@.len() == old(self).store.api_tokens@.len() + 1
                    &&& registered_credential(final(self).store.api_tokens@.last(), resp.harness, sha256_hex(token@))
                    &&& final(self).store == (Store {
                        agent_harnesses: final(self).store.agent_harnesses,
                        api_tokens: final(self).store.api_tokens,
                        ..old(self).store
                    })
                },
            },
    {
        if ctx.harness_id.is_some() {
            return Err(forbidden("only the Home Node Owner may register an Agent Harness directly"));
        }
        authorize_harness(&self.store, ctx, HarnessCapability::Administration, None)?;
        if trim(request.label.as_str()).unicode_len() == 0 {
            return Err(validation("Agent Harness label must not be empty"));
        }
        let user_id = match ctx.user_id {
            Some(u) => u,
            None => if self.store.users.len() > 0 {
                self.store.users[0].id
            } else {
                return Err(validation("an Agent Harness must belong to a User"));
            },
        };
        if let Some(ids) = &request.pod_ids {
            check_scope_pods(&self.store, ids, ctx.tenant_id)?;
        }
        let ghost req = request;
        let RegisterAgentHarnessRequest { label, kind, capabilities, pod_ids } = request;
        let capabilities = normalize_capabilities(capabilities);
        let oversight = capabilities_contain(&capabilities, HarnessCapability::Administration)
            || capabilities_contain(&capabilities, HarnessCapability::Approval);
        if kind == AgentHarnessKind::Unattended && oversight {
            return Err(forbidden("unattended harnesses cannot receive administration or approval"));
        }
        if capabilities.len() > 1 && oversight {
            return Err(validation("bootstrap administration and approval grants must be isolated"));
        }
        let pod_ids = match pod_ids {
            Some(ids) => Some(normalize_pod_ids(ids)),
            None => None,
        };
        let now = now_millis();
        let harness = AgentHarness {
            id: new_id(),
            user_id,
            tenant_id: ctx.tenant_id,
            label,
            kind,
            grant: HarnessGrant { capabilities, pod_ids },
            created_at: now,
            revoked_at: None,
        };
        let token_hash = api_token_hash(token.as_str());
        let mut token_label = String::from_str("Harness: ");
        token_label.append(harness.label.as_str());
        let api_token = ApiToken {
            id: new_id(),
            user_id,
            tenant_id: ctx.tenant_id,
            token_hash,
            label: token_label,
            created_at: now,
            last_used_at: None,
            revoked_at: None,
            harness_id: Some(harness.id),
        };
        let stored = harness.clone();
        let ghost h0 = self.store.agent_harnesses@;
        let ghost t0 = self.store.api_tokens@;
        self.store.agent_harnesses.push(stored);
        self.store.api_tokens.push(api_token);
        assert(self.store.agent_harnesses@.drop_last() =~= h0);
        assert(self.store.api_tokens@.drop_last() =~= t0);
        record_harness_write(&mut self.store, ctx, HarnessWriteOperation::RegisterAgentHarness, None);
        Ok(RegisterAgentHarnessResponse { harness, token })
    }

    /// Lists the tenant's harnesses in creation order, without credentials.
    pub fn list_agent_harnesses(&self, ctx: &AuthContext) -> (r: Result<Vec<AgentHarnessView>, AgentToolsError>)
        ensures
            match harness_check(self.store, *ctx, HarnessCapability::Administration, None) {
                Err(d) => r matches Err(e) && denies(e, d),
                Ok(()) => match harness_listing(self.store, ctx.tenant_id) {
                    Ok(views) => r matches Ok(v) && v@.map_values(|x: AgentHarnessView| x@) == views,
                    Err(d) => r matches Err(e) && denies(e, d),
                },
            },
    {
        authorize_harness(&self.store, ctx, HarnessCapability::Administration, None)?;
        let store = &self.store;
        let n = store.agent_harnesses.len();
        let ghost all = positions(store.agent_harnesses@);
        let ghost p = harness_at_in_tenant(*store, ctx.tenant_id);
        let ghost q = harness_at_lacks_credential(*store);
        let mut keyed: Vec<((i64, u128), usize)> = Vec::new();
        let mut i: usize = 0;
        while i < n
            invariant
                n == store.agent_harnesses@.len(),
                *store == self.store,
                harness_check(self.store, *ctx, HarnessCapability::Administration, None) is Ok,
                all == positions(store.agent_harnesses@),
                p == harness_at_in_tenant(*store, ctx.tenant_id),
                q == harness_at_lacks_credential(*store),
                i <= n,
                keyed@ == all.take(i as int).filter(p).map_values(harness_at_created_key(*store)),
                forall|j: int| 0 <= j < all.take(i as int).filter(p).len() ==> !q(#[trigger] all.take(i as int).filter(p)[j]),
                forall|j: int| 0 <= j < keyed@.len() ==> (#[trigger] keyed@[j]).1 < n && !q(keyed@[j].1),
            decreases n - i,
        {
            proof { lemma_filter_take_step(all, p, i as int); }
            assert(all[i as int] == i);
            let ghost before = keyed@;
            if store.agent_harnesses[i].tenant_id == ctx.tenant_id {
                match agent_harness_view(store, &store.agent_harnesses[i]) {
                    Err(e) => {
                        proof {
                            assert(p(all[i as int]));
                            assert(q(all[i as int]));
                            lemma_first_hit_in_filter(all, p, q, i as int);
                            assert(first_match(tenant_harnesses(*store, ctx.tenant_id), q) == Some(i));
                        }
                        return Err(e);
                    },
                    Ok(_) => {},
                }
                keyed.push(((store.agent_harnesses[i].created_at, 0u128), i));
                proof {
                    let f = all.take(i as int).filter(p);
                    assert(f.push(i).map_values(harness_at_created_key(*store)) =~= f.map_values(harness_at_created_key(*store)).push(
                        harness_at_created_key(*store)(i)));
                }
            }
            i = i + 1;
        }
        assert(all.take(n as int) =~= all);
        proof { lemma_no_hit_in_filter(all, p, q); }
        let sorted = sort_by_key(keyed);
        let mut views: Vec<AgentHarnessView> = Vec::new();
        let mut k: usize = 0;
        let ghost order = payloads(sorted@);
        proof {
            lemma_stable_sort_elems(keyed@);
            assert forall|j: int| 0 <= j < sorted@.len() implies (#[trigger] sorted@[j]).1 < n && !q(sorted@[j].1) by {
                assert(sorted@.contains(sorted@[j]));
                assert(keyed@.contains(sorted@[j]));
                let m = choose|m: int| 0 <= m < keyed@.len() && keyed@[m] == sorted@[j];
            }
        }
        while k < sorted.len()
            invariant
                k <= sorted@.len(),
                order == payloads(sorted@),
                n == store.agent_harnesses@.len(),
                q == harness_at_lacks_credential(*store),
                forall|j: int| 0 <= j < sorted@.len() ==> (#[trigger] sorted@[j]).1 < n && !q(sorted@[j].1),
                views@.map_values(|x: AgentHarnessView| x@) == order.take(k as int).map_values(view_at(*store)),
            decreases sorted@.len() - k,
        {
            let idx = sorted[k].1;
            let v = agent_harness_view(store, &store.agent_harnesses[idx]);
            let v = match v {
                Ok(v) => v,
                Err(e) => return Err(e),
            };
            let ghost before = views@;
            views.push(v);
            proof {
                assert(views@.map_values(|x: AgentHarnessView| x@) =~= before.map_values(|x: AgentHarnessView| x@).push(v@));
                assert(order.take(k + 1) =~= order.take(k as int).push(order[k as int]));
                assert(order.take(k + 1).map_values(view_at(*store)) =~= order.take(k as int).map_values(view_at(*store)).push(view_at(*store)(order[k as int])));
            }
            k = k + 1;
        }
        assert(order.take(sorted@.len() as int) =~= order);
        Ok(views)
    }

    /// Reads one harness's administrator view within the caller's tenant.
    pub fn agent_harness(&self, ctx: &AuthContext, harness_id: u128) -> (r: Result<AgentHarnessView, AgentToolsError>)
        ensures
            match harness_check(self.store, *ctx, HarnessCapability::Administration, None) {
                Err(d) => r matches Err(e) && denies(e, d),
                Ok(()) => match first_match(self.store.agent_harnesses@, harness_with_id(harness_id)) {
                    None => r matches Err(e) && denies(e, Denial::NotFound("Agent Harness "@ + uuid_text(harness_id))),
                    Some(h) => if h.tenant_id is Some && h.tenant_id != ctx.tenant_id {
                        r matches Err(e) && denies(e, Denial::TenantBoundary)
                    } else {
                        match harness_view_spec(self.store, h) {
                            Ok(v) => r matches Ok(x) && x@ == v,
                            Err(d) => r matches Err(e) && denies(e, d),
                        }
                    },
                },
            },
    {
        authorize_harness(&self.store, ctx, HarnessCapability::Administration, None)?;
        let index = match self.store.find_harness(harness_id) {
            Some(i) => i,
            None => return Err(not_found_for("Agent Harness ", harness_id)),
        };
        let harness = &self.store.agent_harnesses[index];
        self.store.assert_tenant(harness.tenant_id, ctx.tenant_id)?;
        agent_harness_view(&self.store, harness)
    }

    /// Returns the local-only record of every write a harness performed.
    pub fn list_harness_write_audit(&self, ctx: &AuthContext) -> (r: Result<Vec<HarnessWriteAudit>, AgentToolsError>)
        ensures
            match harness_check(self.store, *ctx, HarnessCapability::Administration, None) {
                Err(d) => r matches Err(e) && denies(e, d),
                Ok(()) => r matches Ok(v) && v@ == self.store.harness_write_audit@,
            },
    {
        authorize_harness(&self.store, ctx, HarnessCapability::Administration, None)?;
        let audit = self.store.harness_write_audit.clone();
        assert(audit@ =~= self.store.harness_write_audit@);
        Ok(audit)
    }

    /// Verifies a capability that is not specific to a Pod for the caller.
    pub fn require_harness_capability(&self, ctx: &AuthContext, capability: HarnessCapability) -> (r: Result<(), AgentToolsError>)
        ensures
            refuses_as(r, harness_check(self.store, *ctx, capability, None)),
    {
        authorize_harness(&self.store, ctx, capability, None)
    }

    /// Verifies interactive Feedback authority.
    pub fn require_interactive_feedback(&self, ctx: &AuthContext) -> (r: Result<(), AgentToolsError>)
        ensures
            match harness_check(self.store, *ctx, HarnessCapability::Feedback, None) {
                Err(d) => r matches Err(e) && denies(e, d),
                Ok(()) => refuses_as(r, interactive_check(self.store, *ctx, "Feedback requires an interactive User action"@)),
            },
    {
        authorize_harness(&self.store, ctx, HarnessCapability::Feedback, None)?;
        authorize_interactive_user_action(&self.store, ctx, "Feedback requires an interactive User action")
    }

    /// Verifies unscoped interactive authority, as private Taste Profile adapters need.
    pub fn require_unscoped_interactive_feedback(&self, ctx: &AuthContext) -> (r: Result<(), AgentToolsError>)
        ensures
            refuses_as(r, taste_profile_check(self.store, *ctx)),
    {
        authorize_taste_profile(&self.store, ctx)
    }

    /// Verifies the Personal Discovery management policy.
    pub fn require_personal_discovery_management(&self, ctx: &AuthContext) -> (r: Result<(), AgentToolsError>)
        ensures
            refuses_as(r, management_check(self.store, *ctx)),
    {
        authorize_personal_discovery_management(&self.store, ctx)
    }

    /// Verifies the Personal Discovery execution policy.
    pub fn require_personal_discovery_execution(&self, ctx: &AuthContext) -> (r: Result<(), AgentToolsError>)
        ensures
            refuses_as(r, execution_check(self.store, *ctx)),
    {
        authorize_personal_discovery_execution(&self.store, ctx)
    }

    /// Verifies that the caller may read Discovery Plans: either the management
    /// or the execution policy applies (a refusal reports the execution policy's reason).
    pub fn require_personal_discovery_plan_access(&self, ctx: &AuthContext) -> (r: Result<(), AgentToolsError>)
        ensures
            management_check(self.store, *ctx) is Ok ==> r is Ok,
            management_check(self.store, *ctx) is Err ==> refuses_as(r, execution_check(self.store, *ctx)),
    {
        match authorize_personal_discovery_management(&self.store, ctx) {
            Ok(()) => Ok(()),
            Err(_) => authorize_personal_discovery_execution(&self.store, ctx),
        }
    }

    /// Revokes a harness and every bearer token bound to it, at once.
    /// Only a context without a harness (the Home Node Owner) may do so.
    pub fn revoke_agent_harness(&mut self, ctx: &AuthContext, harness_id: u128) -> (r: Result<(), AgentToolsError>)
        ensures
            ctx.harness_id is Some ==> (r matches Err(e) && denies(e, Denial::Forbidden(
                "only the Home Node Owner may revoke an Agent Harness directly"@)) && final(self).store == old(self).store),
            ctx.harness_id is None ==> {
                let i = first_index(old(self).store.agent_harnesses@, harness_with_id(harness_id));
                if i < 0 {
                    r matches Err(e) && denies(e, Denial::NotFound("agent harness "@ + uuid_text(harness_id)))
                        && final(self).store == old(self).store
                } else {
                    r is Ok && {
                        let before = old(self).store.agent_harnesses@[i];
                        let t = final(self).store.agent_harnesses@[i].revoked_at;
                        &&& t is Some
                        &&& final(self).store.agent_harnesses@ == old(self).store.agent_harnesses@.update(
                            i,
                            AgentHarness { revoked_at: t, ..before },
                        )
                        &&& final(self).store.api_tokens@.len() == old(self).store.api_tokens@.len()
                        &&& forall|j: int| 0 <= j < old(self).store.api_tokens@.len() ==> #[trigger] final(self).store.api_tokens@[j] == (
                            if old(self).store.api_tokens@[j].harness_id == Some(harness_id) {
                                ApiToken { revoked_at: t, ..old(self).store.api_tokens@[j] }
                            } else {
                                old(self).store.api_tokens@[j]
                            })
                    } && final(self).store == (Store {
                        agent_harnesses: final(self).store.agent_harnesses,
                        api_tokens: final(self).store.api_tokens,
                        ..old(self).store
                    })
                }
            },
    {
        if ctx.harness_id.is_some() {
            return Err(forbidden("only the Home Node Owner may revoke an Agent Harness directly"));
        }
        let now = crate::outside::now_millis();
        let index = match self.store.find_harness(harness_id) {
            Some(i) => i,
            None => return Err(not_found_for("agent harness ", harness_id)),
        };
        let ghost harnesses0 = self.store.agent_harnesses@;
        let mut harness = self.store.agent_harnesses.remove(index);
        harness.revoked_at = Some(now);
        self.store.agent_harnesses.insert(index, harness);
        assert(self.store.agent_harnesses@ =~= harnesses0.update(index as int, AgentHarness { revoked_at: Some(now), ..harnesses0[index as int] }));
        let ghost tokens0 = self.store.api_tokens@;
        let ghost s1 = self.store;
        let mut j: usize = 0;
        while j < self.store.api_tokens.len()
            invariant
                self.store == (Store { api_tokens: self.store.api_tokens, ..s1 }),
                j <= self.store.api_tokens@.len(),
                self.store.api_tokens@.len() == tokens0.len(),
                forall|k: int| 0 <= k < tokens0.len() ==> #[trigger] self.store.api_tokens@[k] == (
                    if k < j && tokens0[k].harness_id == Some(harness_id) {
                        ApiToken { revoked_at: Some(now), ..tokens0[k] }
                    } else {
                        tokens0[k]
                    }),
            decreases self.store.api_tokens@.len() - j,
        {
            if self.store.api_tokens[j].harness_id == Some(harness_id) {
                let ghost t1 = self.store.api_tokens@;
                let mut token = self.store.api_tokens.remove(j);
                token.revoked_at = Some(now);
                self.store.api_tokens.insert(j, token);
                assert(self.store.api_tokens@ =~= t1.update(j as int, ApiToken { revoked_at: Some(now), ..t1[j as int] }));
            }
            j = j + 1;
        }
        record_harness_write(&mut self.store, ctx, HarnessWriteOperation::RevokeAgentHarness, None);
        Ok(())
    }
}

} // verus!
