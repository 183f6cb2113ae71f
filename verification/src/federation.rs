//! The federation surface: node identity, manifests and signed event logs of
//! public Pods, trusted peers, hubs and a User's Trust Policy.
use crate::agent_tools::AgentTools;
use crate::auth::{authorize_harness, authorize_harness_pod_scope, context_check, harness_check, harness_for_context, pod_scope_check};
use crate::catalog::pack_of;
use crate::error::{denies, not_found, validation, AgentToolsError, Denial, StoreError};
use crate::seqs::{first_index, first_match, lemma_filter_map_step, lemma_filter_take_step, lemma_first_index_at};
use crate::store::Store;
use crate::text::{text_less, text_lt, trim_end_char, trim_end_matches_char};
use crate::types::{
    texts, AuthContext, CrawlerSource, EventLog, FederationPodSnapshot, HarnessCapability, HubRegisteredNode, NodeInfo, Pod, PodManifest, TrustPolicy,
    TrustPolicyModel, TrustedPeer, Visibility, WellKnownNode,
};
use vstd::prelude::*;

verus! {

/// The federation protocol this node speaks.
pub const CURRENT_PROTOCOL_VERSION: &'static str = "stumble-federation/1";

/// What `node_info` reports: the identity of the node serving the caller's tenant.
pub open spec fn node_info_spec(s: Store, ctx: AuthContext) -> Result<(u128, Seq<char>, Seq<char>), Denial> {
    match context_check(s, ctx) {
        Err(d) => Err(d),
        Ok(()) => match s.node_for_tenant_spec(ctx.tenant_id) {
            Err(d) => Err(d),
            Ok(n) => Ok((n.id, n.display_name@, n.public_key@)),
        },
    }
}

/// `info` describes the node `(id, display name, public key)` at the current protocol.
pub open spec fn describes(info: NodeInfo, node: (u128, Seq<char>, Seq<char>)) -> bool {
    &&& info.node_id == node.0
    &&& info.display_name@ == node.1
    &&& info.public_key@ == node.2
    &&& info.supported_protocol_version@ == CURRENT_PROTOCOL_VERSION@
}

pub open spec fn policy_of(user_id: u128, tenant_id: Option<u128>) -> spec_fn(TrustPolicy) -> bool {
    |p: TrustPolicy| p.user_id == user_id && p.tenant_id == tenant_id
}

/// An empty Trust Policy.
pub open spec fn empty_policy(user_id: u128, tenant_id: Option<u128>) -> TrustPolicyModel {
    TrustPolicyModel {
        user_id,
        tenant_id,
        index_nodes: Seq::empty(),
        blocked_nodes: Seq::empty(),
        blocked_sources: Seq::empty(),
        blocked_topics: Seq::empty(),
    }
}

pub open spec fn peer_with_id(id: u128) -> spec_fn(TrustedPeer) -> bool {
    |p: TrustedPeer| p.id == id
}

pub open spec fn enabled_in_tenant(tenant_id: Option<u128>) -> spec_fn(TrustedPeer) -> bool {
    |p: TrustedPeer| p.tenant_id == tenant_id && p.enabled
}

pub open spec fn url_after(x: TrustedPeer) -> spec_fn(TrustedPeer) -> bool {
    |e: TrustedPeer| text_lt(x.base_url@, e.base_url@)
}

/// Inserts `x` after every peer whose URL does not sort after its URL.
pub open spec fn peer_insert(s: Seq<TrustedPeer>, x: TrustedPeer) -> Seq<TrustedPeer> {
    let i = first_index(s, url_after(x));
    let pos = if i < 0 {
        s.len() as int
    } else {
        i
    };
    s.take(pos).push(x) + s.skip(pos)
}

/// The stable sort of peers by URL.
pub open spec fn sorted_by_url(s: Seq<TrustedPeer>) -> Seq<TrustedPeer>
    decreases s.len(),
{
    if s.len() == 0 {
        s
    } else {
        peer_insert(sorted_by_url(s.drop_last()), s.last())
    }
}

pub open spec fn public_source_of(pod_id: u128) -> spec_fn(CrawlerSource) -> bool {
    |c: CrawlerSource| c.pod_id == pod_id && c.enabled
}

pub open spec fn source_url() -> spec_fn(CrawlerSource) -> Seq<char> {
    |c: CrawlerSource| c.url@
}

pub open spec fn event_of(slug: Seq<char>) -> spec_fn(EventLog) -> bool {
    |e: EventLog| e.pod_slug@ == slug
}

/// The content hash of the latest event in the log for the Pod with slug `slug`.
pub open spec fn latest_event_hash(s: Store, slug: Seq<char>) -> Option<Seq<char>> {
    let events = s.event_log@.filter(event_of(slug));
    if events.len() == 0 {
        None
    } else {
        Some(events.last().content_hash@)
    }
}

/// In a log of events, the hashes of those of Pod `slug`: there are none
/// exactly when no event is of that Pod, and otherwise the latest is the hash
/// of the last event of that Pod in log order, the one no later event of the
/// Pod follows.
pub proof fn lemma_last_event_of_slug(log: Seq<EventLog>, slug: Seq<char>)
    ensures
        log.filter(event_of(slug)).len() == 0 <==> forall|j: int| 0 <= j < log.len() ==> (#[trigger] log[j]).pod_slug@ != slug,
        log.filter(event_of(slug)).len() > 0 ==> exists|i: int|
            0 <= i < log.len() && (#[trigger] log[i]).pod_slug@ == slug && log[i].content_hash@ == log.filter(
                event_of(slug),
            ).last().content_hash@ && forall|j: int| i < j < log.len() ==> (#[trigger] log[j]).pod_slug@ != slug,
    decreases log.len(),
{
    reveal(Seq::filter);
    if log.len() > 0 {
        let d = log.drop_last();
        lemma_last_event_of_slug(d, slug);
        assert forall|j: int| 0 <= j < d.len() implies d[j] == log[j] by {}
        if event_of(slug)(log.last()) {
            assert(log.filter(event_of(slug)) == d.filter(event_of(slug)).push(log.last()));
            let i = log.len() - 1;
            assert(log[i].pod_slug@ == slug);
        } else {
            assert(log.filter(event_of(slug)) == d.filter(event_of(slug)));
            if d.filter(event_of(slug)).len() > 0 {
                let i = choose|i: int|
                    0 <= i < d.len() && (#[trigger] d[i]).pod_slug@ == slug && d[i].content_hash@ == d.filter(
                        event_of(slug),
                    ).last().content_hash@ && forall|j: int| i < j < d.len() ==> (#[trigger] d[j]).pod_slug@ != slug;
                assert(log[i] == d[i]);
                assert forall|j: int| i < j < log.len() implies (#[trigger] log[j]).pod_slug@ != slug by {
                    if j < d.len() {
                        assert(log[j] == d[j]);
                    }
                }
            }
        }
    }
}

/// The latest event hash a Pod's manifest reports is the content hash of the
/// last event of that Pod's slug in the event log: there is none exactly when
/// the log holds no event of the slug, and otherwise it is the hash of an
/// event of the slug that no later event of the slug follows.
pub proof fn lemma_latest_event_hash_is_the_last_of_its_slug(s: Store, slug: Seq<char>)
    ensures
        latest_event_hash(s, slug) is None <==> forall|j: int|
            0 <= j < s.event_log@.len() ==> (#[trigger] s.event_log@[j]).pod_slug@ != slug,
        latest_event_hash(s, slug) matches Some(h) ==> exists|i: int|
            0 <= i < s.event_log@.len() && (#[trigger] s.event_log@[i]).pod_slug@ == slug && s.event_log@[i].content_hash@ == h
                && forall|j: int| i < j < s.event_log@.len() ==> (#[trigger] s.event_log@[j]).pod_slug@ != slug,
{
    lemma_last_event_of_slug(s.event_log@, slug);
}

/// The manifest of the Pod with slug `slug`, as `(pod, latest hash, package version, public sources)`.
pub open spec fn manifest_spec(s: Store, ctx: AuthContext, slug: Seq<char>) -> Result<
    (Pod, Option<Seq<char>>, u64, Seq<Seq<char>>),
    Denial,
> {
    match s.pod_by_slug_spec(slug, ctx.tenant_id) {
        Err(d) => Err(d),
        Ok(pod) => match pod_scope_check(s, ctx, pod.id) {
            Err(d) => Err(d),
            Ok(()) => match first_match(s.pod_skill_packs@, pack_of(pod.id)) {
                None => Err(Denial::NotFound("skill pack"@)),
                Some(pack) => Ok((
                    pod,
                    latest_event_hash(s, pod.slug@),
                    pack.version,
                    s.crawler_sources@.filter(public_source_of(pod.id)).map_values(source_url()),
                )),
            },
        },
    }
}

/// `m` is the manifest `(pod, latest hash, package version, public sources)`.
pub open spec fn manifest_is(m: PodManifest, v: (Pod, Option<Seq<char>>, u64, Seq<Seq<char>>)) -> bool {
    &&& m.pod == v.0
    &&& match m.latest_known_event_hash {
        Some(h) => v.1 == Some(h@),
        None => v.1 is None,
    }
    &&& m.skill_pack_version == v.2
    &&& texts(m.public_source_summary@) == v.3
}

/// The signed events of the Pod with slug `slug` that a caller may export.
pub open spec fn export_spec(s: Store, ctx: AuthContext, slug: Seq<char>) -> Result<Seq<EventLog>, Denial> {
    match s.pod_by_slug_spec(slug, ctx.tenant_id) {
        Err(d) => Err(d),
        Ok(pod) => match pod_scope_check(s, ctx, pod.id) {
            Err(d) => Err(d),
            Ok(()) => Ok(s.event_log@.filter(event_of(pod.slug@))),
        },
    }
}

/// Whether a Pod may appear on this node's federation surface: public and authored here.
pub open spec fn federates(pod: Pod, node_id: u128) -> bool {
    pod.visibility == Visibility::Public && !(pod.origin_node_id is Some && pod.origin_node_id != Some(node_id))
}

/// The endpoints a node advertises under `base`, in ascending order of name.
pub open spec fn endpoints_for(base: Seq<char>) -> Seq<(Seq<char>, Seq<char>)> {
    seq![
        ("hub_search_pods"@, base + "/hub/search-pods"@),
        ("node"@, base + "/federation/node"@),
        ("pod_events_template"@, base + "/federation/pods/{slug}/events"@),
        ("pod_manifest_template"@, base + "/federation/pods/{slug}/manifest"@),
        ("pods"@, base + "/federation/pods"@),
    ]
}

pub open spec fn pair_texts() -> spec_fn((String, String)) -> (Seq<char>, Seq<char>) {
    |p: (String, String)| (p.0@, p.1@)
}

fn endpoint(name: &str, base: &str, path: &str) -> (p: (String, String))
    ensures
        p.0@ == name@,
        p.1@ == base@ + path@,
{
    let mut url = String::from_str(base);
    url.append(path);
    (String::from_str(name), url)
}

pub open spec fn hash_is(hash: Seq<char>) -> spec_fn(EventLog) -> bool {
    |e: EventLog| e.content_hash@ == hash
}

impl AgentTools {
    /// Describes the node serving the caller's tenant.
    pub fn node_info(&self, ctx: &AuthContext) -> (r: Result<NodeInfo, AgentToolsError>)
        ensures
            match node_info_spec(self.store, *ctx) {
                Err(d) => r matches Err(e) && denies(e, d),
                Ok(n) => r matches Ok(info) && describes(info, n),
            },
    {
        harness_for_context(&self.store, ctx)?;
        let node = self.store.node_for_tenant(ctx.tenant_id)?;
        Ok(NodeInfo {
            node_id: node.id,
            display_name: node.display_name.clone(),
            public_key: node.public_key.clone(),
            supported_protocol_version: String::from_str(CURRENT_PROTOCOL_VERSION),
        })
    }

    /// The node's well-known discovery document for the base URL `base_url`
    /// (trailing slashes removed).
    pub fn well_known_node(&self, ctx: &AuthContext, base_url: &str) -> (r: Result<WellKnownNode, AgentToolsError>)
        ensures
            match node_info_spec(self.store, *ctx) {
                Err(d) => r matches Err(e) && denies(e, d),
                Ok(n) => r matches Ok(w) && describes(w.node, n) && w.protocol@ == CURRENT_PROTOCOL_VERSION@
                    && w.endpoints@.map_values(pair_texts()) == endpoints_for(trim_end_char(base_url@, '/')),
            },
    {
        let node = self.node_info(ctx)?;
        let base = trim_end_matches_char(base_url, '/');
        let mut endpoints: Vec<(String, String)> = Vec::new();
        endpoints.push(endpoint("hub_search_pods", base, "/hub/search-pods"));
        endpoints.push(endpoint("node", base, "/federation/node"));
        endpoints.push(endpoint("pod_events_template", base, "/federation/pods/{slug}/events"));
        endpoints.push(endpoint("pod_manifest_template", base, "/federation/pods/{slug}/manifest"));
        endpoints.push(endpoint("pods", base, "/federation/pods"));
        assert(endpoints@.map_values(pair_texts()) =~= endpoints_for(base@));
        Ok(WellKnownNode { protocol: String::from_str(CURRENT_PROTOCOL_VERSION), node, endpoints })
    }

    /// Reads the caller's Trust Policy, or an empty one.
    pub fn trust_policy(&self, ctx: &AuthContext) -> (r: Result<TrustPolicy, AgentToolsError>)
        ensures
            match harness_check(self.store, *ctx, HarnessCapability::FeedRead, None) {
                Err(d) => r matches Err(e) && denies(e, d),
                Ok(()) => match ctx.user_id {
                    None => r matches Err(e) && denies(e, Denial::Validation("Trust Policy requires an authenticated User"@)),
                    Some(u) => r matches Ok(p) && p@ == match first_match(self.store.trust_policies@, policy_of(u, ctx.tenant_id)) {
                        Some(found) => found@,
                        None => empty_policy(u, ctx.tenant_id),
                    },
                },
            },
    {
        authorize_harness(&self.store, ctx, HarnessCapability::FeedRead, None)?;
        let user_id = match ctx.user_id {
            Some(u) => u,
            None => return Err(validation("Trust Policy requires an authenticated User")),
        };
        let all = &self.store.trust_policies;
        let mut i: usize = 0;
        while i < all.len() && !(all[i].user_id == user_id && all[i].tenant_id == ctx.tenant_id)
            invariant
                i <= all@.len(),
                forall|j: int| 0 <= j < i ==> !policy_of(user_id, ctx.tenant_id)(#[trigger] all@[j]),
            decreases all@.len() - i,
        {
            i = i + 1;
        }
        proof { lemma_first_index_at(all@, policy_of(user_id, ctx.tenant_id), i as int); }
        if i < all.len() {
            Ok(all[i].clone())
        } else {
            let p = TrustPolicy {
                user_id,
                tenant_id: ctx.tenant_id,
                index_nodes: Vec::new(),
                blocked_nodes: Vec::new(),
                blocked_sources: Vec::new(),
                blocked_topics: Vec::new(),
            };
            assert(texts(p.blocked_sources@) =~= Seq::<Seq<char>>::empty());
            assert(texts(p.blocked_topics@) =~= Seq::<Seq<char>>::empty());
            assert(p@ =~= empty_policy(user_id, ctx.tenant_id));
            Ok(p)
        }
    }

    /// Lists the enabled peers of the caller's tenant, ordered by URL.
    pub fn trusted_peers(&self, ctx: &AuthContext) -> (r: Result<Vec<TrustedPeer>, AgentToolsError>)
        ensures
            match harness_check(self.store, *ctx, HarnessCapability::Administration, None) {
                Err(d) => r matches Err(e) && denies(e, d),
                Ok(()) => r matches Ok(v) && v@ == sorted_by_url(self.store.trusted_peers@.filter(enabled_in_tenant(ctx.tenant_id))),
            },
    {
        authorize_harness(&self.store, ctx, HarnessCapability::Administration, None)?;
        let all = &self.store.trusted_peers;
        let ghost p = enabled_in_tenant(ctx.tenant_id);
        let mut kept: Vec<TrustedPeer> = Vec::new();
        let mut i: usize = 0;
        while i < all.len()
            invariant
                p == enabled_in_tenant(ctx.tenant_id),
                i <= all@.len(),
                kept@ == all@.take(i as int).filter(p),
            decreases all@.len() - i,
        {
            proof { lemma_filter_take_step(all@, p, i as int); }
            if all[i].tenant_id == ctx.tenant_id && all[i].enabled {
                kept.push(all[i].clone());
            }
            i = i + 1;
        }
        assert(all@.take(all@.len() as int) =~= all@);
        let mut out: Vec<TrustedPeer> = Vec::new();
        let mut k: usize = 0;
        assert(kept@.take(0) =~= Seq::<TrustedPeer>::empty());
        while k < kept.len()
            invariant
                k <= kept@.len(),
                out@ == sorted_by_url(kept@.take(k as int)),
            decreases kept@.len() - k,
        {
            let x = kept[k].clone();
            let mut pos: usize = 0;
            while pos < out.len() && !text_less(x.base_url.as_str(), out[pos].base_url.as_str())
                invariant
                    pos <= out@.len(),
                    forall|j: int| 0 <= j < pos ==> !url_after(x)(#[trigger] out@[j]),
                decreases out@.len() - pos,
            {
                pos = pos + 1;
            }
            proof {
                lemma_first_index_at(out@, url_after(x), pos as int);
                assert(kept@.take(k + 1).drop_last() =~= kept@.take(k as int));
                assert(kept@.take(k + 1).last() == x);
            }
            let ghost before = out@;
            out.insert(pos, x);
            assert(out@ =~= before.take(pos as int).push(x) + before.skip(pos as int));
            k = k + 1;
        }
        assert(kept@.take(kept@.len() as int) =~= kept@);
        Ok(out)
    }

    /// Resolves one enabled peer within the caller's tenant.
    pub fn trusted_peer(&self, ctx: &AuthContext, peer_id: u128) -> (r: Result<TrustedPeer, AgentToolsError>)
        ensures
            match harness_check(self.store, *ctx, HarnessCapability::Administration, None) {
                Err(d) => r matches Err(e) && denies(e, d),
                Ok(()) => match first_match(self.store.trusted_peers@, peer_with_id(peer_id)) {
                    Some(p) => if p.tenant_id == ctx.tenant_id && p.enabled {
                        r == Ok::<TrustedPeer, AgentToolsError>(p)
                    } else {
                        r matches Err(e) && denies(e, Denial::UntrustedPeer)
                    },
                    None => r matches Err(e) && denies(e, Denial::UntrustedPeer),
                },
            },
    {
        authorize_harness(&self.store, ctx, HarnessCapability::Administration, None)?;
        let all = &self.store.trusted_peers;
        let mut i: usize = 0;
        while i < all.len() && all[i].id != peer_id
            invariant
                i <= all@.len(),
                forall|j: int| 0 <= j < i ==> !peer_with_id(peer_id)(#[trigger] all@[j]),
            decreases all@.len() - i,
        {
            i = i + 1;
        }
        proof { lemma_first_index_at(all@, peer_with_id(peer_id), i as int); }
        if i < all.len() && all[i].tenant_id == ctx.tenant_id && all[i].enabled {
            Ok(all[i].clone())
        } else {
            Err(AgentToolsError::Store(StoreError::UntrustedPeer))
        }
    }

    /// Lists the nodes registered with this hub.
    pub fn list_hub_nodes(&self) -> (r: Result<Vec<HubRegisteredNode>, AgentToolsError>)
        ensures
            r matches Ok(v) && v@ == self.store.hub_nodes@,
    {
        let all = &self.store.hub_nodes;
        let mut out: Vec<HubRegisteredNode> = Vec::new();
        let mut i: usize = 0;
        while i < all.len()
            invariant
                i <= all@.len(),
                out@ == all@.take(i as int),
            decreases all@.len() - i,
        {
            out.push(all[i].clone());
            assert(out@ =~= all@.take(i + 1));
            i = i + 1;
        }
        assert(all@.take(all@.len() as int) =~= all@);
        Ok(out)
    }

    /// The manifest of a Pod within the caller's scope.
    pub fn pod_manifest(&self, ctx: &AuthContext, pod_slug: &str) -> (r: Result<PodManifest, AgentToolsError>)
        ensures
            match manifest_spec(self.store, *ctx, pod_slug@) {
                Err(d) => r matches Err(e) && denies(e, d),
                Ok(v) => r matches Ok(m) && manifest_is(m, v),
            },
    {
        let pod = self.store.pod_by_slug(pod_slug, ctx.tenant_id)?;
        authorize_harness_pod_scope(&self.store, ctx, pod.id)?;
        let pod_id = pod.id;
        let packs = &self.store.pod_skill_packs;
        let mut i: usize = 0;
        while i < packs.len() && packs[i].pod_id != pod_id
            invariant
                i <= packs@.len(),
                forall|j: int| 0 <= j < i ==> !pack_of(pod_id)(#[trigger] packs@[j]),
            decreases packs@.len() - i,
        {
            i = i + 1;
        }
        proof { lemma_first_index_at(packs@, pack_of(pod_id), i as int); }
        if i == packs.len() {
            return Err(not_found("skill pack"));
        }
        let version = packs[i].version;
        let sources = &self.store.crawler_sources;
        let mut summary: Vec<String> = Vec::new();
        let mut k: usize = 0;
        while k < sources.len()
            invariant
                k <= sources@.len(),
                texts(summary@) == sources@.take(k as int).filter(public_source_of(pod_id)).map_values(source_url()),
            decreases sources@.len() - k,
        {
            proof { lemma_filter_map_step(sources@, public_source_of(pod_id), source_url(), k as int); }
            let ghost before = summary@;
            if sources[k].pod_id == pod_id && sources[k].enabled {
                summary.push(sources[k].url.clone());
                assert(texts(summary@) =~= texts(before).push(sources@[k as int].url@));
            }
            k = k + 1;
        }
        assert(sources@.take(sources@.len() as int) =~= sources@);
        let latest = self.latest_federated_event_hash(pod.slug.as_str());
        Ok(PodManifest { pod: pod.clone(), latest_known_event_hash: latest, skill_pack_version: version, public_source_summary: summary })
    }

    /// The content hash of the latest logged event of the Pod with slug `slug`.
    pub fn latest_federated_event_hash(&self, slug: &str) -> (h: Option<String>)
        ensures
            match h {
                Some(x) => latest_event_hash(self.store, slug@) == Some(x@),
                None => latest_event_hash(self.store, slug@) is None,
            },
    {
        let wanted = String::from_str(slug);
        let events = &self.store.event_log;
        let mut latest: Option<String> = None;
        let mut i: usize = 0;
        while i < events.len()
            invariant
                i <= events@.len(),
                wanted@ == slug@,
                match latest {
                    Some(x) => events@.take(i as int).filter(event_of(slug@)).len() > 0
                        && events@.take(i as int).filter(event_of(slug@)).last().content_hash@ == x@,
                    None => events@.take(i as int).filter(event_of(slug@)).len() == 0,
                },
            decreases events@.len() - i,
        {
            proof { lemma_filter_take_step(events@, event_of(slug@), i as int); }
            if events[i].pod_slug == wanted {
                latest = Some(events[i].content_hash.clone());
            }
            i = i + 1;
        }
        assert(events@.take(events@.len() as int) =~= events@);
        latest
    }

    /// Exports the signed event log of a Pod within the caller's scope.
    pub fn export_pod_events(&self, ctx: &AuthContext, pod_slug: &str) -> (r: Result<Vec<EventLog>, AgentToolsError>)
        ensures
            match export_spec(self.store, *ctx, pod_slug@) {
                Err(d) => r matches Err(e) && denies(e, d),
                Ok(events) => r matches Ok(v) && v@ == events,
            },
    {
        let pod = self.store.pod_by_slug(pod_slug, ctx.tenant_id)?;
        authorize_harness_pod_scope(&self.store, ctx, pod.id)?;
        let slug = &pod.slug;
        let events = &self.store.event_log;
        let mut out: Vec<EventLog> = Vec::new();
        let mut i: usize = 0;
        while i < events.len()
            invariant
                i <= events@.len(),
                out@ == events@.take(i as int).filter(event_of(slug@)),
            decreases events@.len() - i,
        {
            proof { lemma_filter_take_step(events@, event_of(slug@), i as int); }
            if events[i].pod_slug == *slug {
                out.push(events[i].clone());
            }
            i = i + 1;
        }
        assert(events@.take(events@.len() as int) =~= events@);
        Ok(out)
    }

    /// The manifest of a Pod on the federation surface: a Pod that is not
    /// public, or not authored by this node, is reported exactly as a missing one.
    pub fn federation_pod_manifest(&self, ctx: &AuthContext, pod_slug: &str) -> (r: Result<PodManifest, AgentToolsError>)
        ensures
            match self.store.node_for_tenant_spec(ctx.tenant_id) {
                Err(d) => r matches Err(e) && denies(e, d),
                Ok(node) => match self.store.pod_by_slug_spec(pod_slug@, ctx.tenant_id) {
                    Err(d) => r matches Err(e) && denies(e, d),
                    Ok(pod) => if !federates(pod, node.id) {
                        r matches Err(e) && denies(e, Denial::NotFound("pod "@ + pod_slug@))
                    } else {
                        match manifest_spec(self.store, *ctx, pod_slug@) {
                            Err(d) => r matches Err(e) && denies(e, d),
                            Ok(v) => r matches Ok(m) && manifest_is(m, v),
                        }
                    },
                },
            },
    {
        let node_id = self.store.node_for_tenant(ctx.tenant_id)?.id;
        let pod = self.store.pod_by_slug(pod_slug, ctx.tenant_id)?;
        let authored_elsewhere = match pod.origin_node_id {
            Some(origin) => origin != node_id,
            None => false,
        };
        if pod.visibility != Visibility::Public || authored_elsewhere {
            let mut message = String::from_str("pod ");
            message.append(pod_slug);
            return Err(AgentToolsError::Store(StoreError::NotFound(message)));
        }
        self.pod_manifest(ctx, pod_slug)
    }

    /// The event log of a Pod on the federation surface; a Pod that is not
    /// public, or not authored by this node, is reported as missing.
    pub fn federation_pod_events(&self, ctx: &AuthContext, pod_slug: &str) -> (r: Result<Vec<EventLog>, AgentToolsError>)
        ensures
            match self.store.node_for_tenant_spec(ctx.tenant_id) {
                Err(d) => r matches Err(e) && denies(e, d),
                Ok(node) => match self.store.pod_by_slug_spec(pod_slug@, ctx.tenant_id) {
                    Err(d) => r matches Err(e) && denies(e, d),
                    Ok(pod) => if !federates(pod, node.id) {
                        r matches Err(e) && denies(e, Denial::NotFound("pod "@ + pod_slug@))
                    } else {
                        match export_spec(self.store, *ctx, pod_slug@) {
                            Err(d) => r matches Err(e) && denies(e, d),
                            Ok(events) => r matches Ok(v) && v@ == events,
                        }
                    },
                },
            },
    {
        let node_id = self.store.node_for_tenant(ctx.tenant_id)?.id;
        let pod = self.store.pod_by_slug(pod_slug, ctx.tenant_id)?;
        let authored_elsewhere = match pod.origin_node_id {
            Some(origin) => origin != node_id,
            None => false,
        };
        if pod.visibility != Visibility::Public || authored_elsewhere {
            let mut message = String::from_str("pod ");
            message.append(pod_slug);
            return Err(AgentToolsError::Store(StoreError::NotFound(message)));
        }
        self.export_pod_events(ctx, pod_slug)
    }

    /// One public Pod's node, manifest and the events after an optional cursor
    /// (the content hash of the last event the caller holds).
    pub fn federation_pod_snapshot(&self, ctx: &AuthContext, pod_slug: &str, after_event_hash: Option<&str>) -> (r: Result<
        FederationPodSnapshot,
        AgentToolsError,
    >)
        ensures
            r is Ok ==> node_info_spec(self.store, *ctx) is Ok,
            r matches Ok(snap) ==> describes(snap.node, node_info_spec(self.store, *ctx)->Ok_0),
            match node_info_spec(self.store, *ctx) {
                Err(d) => r matches Err(e) && denies(e, d),
                Ok(_) => match self.store.node_for_tenant_spec(ctx.tenant_id) {
                    Err(d) => r matches Err(e) && denies(e, d),
                    Ok(node) => if self.store.pod_by_slug_spec(pod_slug@, ctx.tenant_id) is Err {
                        r matches Err(e) && denies(e, self.store.pod_by_slug_spec(pod_slug@, ctx.tenant_id)->Err_0)
                    } else if !federates(self.store.pod_by_slug_spec(pod_slug@, ctx.tenant_id)->Ok_0, node.id) {
                        r matches Err(e) && denies(e, Denial::NotFound("pod "@ + pod_slug@))
                    } else {
                        match manifest_spec(self.store, *ctx, pod_slug@) {
                        Err(d) => r matches Err(e) && denies(e, d),
                        Ok(v) => {
                            let all = export_spec(self.store, *ctx, pod_slug@)->Ok_0;
                            match after_event_hash {
                                None => r matches Ok(snap) && manifest_is(snap.manifest, v) && snap.events@ == all,
                                Some(cursor) => {
                                    let i = first_index(all, hash_is(cursor@));
                                    if i < 0 {
                                        r matches Err(e) && denies(e, Denial::Validation("synchronization cursor is unknown"@))
                                    } else {
                                        r matches Ok(snap) && manifest_is(snap.manifest, v) && snap.events@ == all.skip(i + 1)
                                    }
                                },
                            }
                        },
                        }
                    },
                },
            },
    {
        let node = self.node_info(ctx)?;
        let manifest = self.federation_pod_manifest(ctx, pod_slug)?;
        let all_events = self.federation_pod_events(ctx, pod_slug)?;
        let events = match after_event_hash {
            None => all_events,
            Some(cursor) => {
                let wanted = String::from_str(cursor);
                let mut i: usize = 0;
                while i < all_events.len() && all_events[i].content_hash != wanted
                    invariant
                        i <= all_events@.len(),
                        wanted@ == cursor@,
                        forall|j: int| 0 <= j < i ==> !hash_is(cursor@)(#[trigger] all_events@[j]),
                    decreases all_events@.len() - i,
                {
                    i = i + 1;
                }
                proof { lemma_first_index_at(all_events@, hash_is(cursor@), i as int); }
                if i == all_events.len() {
                    return Err(validation("synchronization cursor is unknown"));
                }
                let mut rest = all_events;
                let ghost orig = rest@;
                rest.remove(0);
                assert(rest@ =~= orig.skip(1));
                let mut k: usize = 0;
                while k < i
                    invariant
                        k <= i,
                        i < orig.len(),
                        rest@ == orig.skip(k + 1),
                    decreases i - k,
                {
                    assert(rest@.len() > 0);
                    rest.remove(0);
                    assert(rest@ =~= orig.skip(k + 2));
                    k = k + 1;
                }
                rest
            },
        };
        Ok(FederationPodSnapshot { node, manifest, events })
    }
}

} // verus!
