//! A User's explicit private preferences: blocked sources and topics,
//! interests, and Brief and Discovery settings.
use crate::agent_tools::{audited, record_harness_write, AgentTools};
use crate::auth::{authorize_taste_profile, taste_profile_check};
use crate::error::{denies, validation, AgentToolsError, Denial};
use crate::outside::{lowercase, to_lowercase, trim, trimmed};
use crate::seqs::{first_index, lemma_first_index_at};
use crate::store::Store;
use crate::types::{texts, AuthContext, DiscoveryMode, HarnessWriteOperation, UserPreferences, UserPreferencesModel};
use vstd::prelude::*;

verus! {

/// The fields of a preferences update; each supplied field replaces the stored one.
#[derive(Debug)]
pub struct UpdatePreferencesRequest {
    pub interests: Option<Vec<String>>,
    pub blocked_topics: Option<Vec<String>>,
    pub blocked_sources: Option<Vec<String>>,
    pub preferred_brief_length: Option<u8>,
    pub preferred_discovery_mode: Option<DiscoveryMode>,
}

pub open spec fn prefs_of(user_id: u128, tenant_id: Option<u128>) -> spec_fn(UserPreferences) -> bool {
    |p: UserPreferences| p.user_id == user_id && p.tenant_id == tenant_id
}

pub open spec fn prefs_model() -> spec_fn(UserPreferences) -> UserPreferencesModel {
    |p: UserPreferences| p@
}

/// The preferences a User starts with.
pub open spec fn default_prefs(user_id: u128, tenant_id: Option<u128>) -> UserPreferencesModel {
    UserPreferencesModel {
        user_id,
        tenant_id,
        interests: Seq::empty(),
        blocked_topics: Seq::empty(),
        blocked_sources: Seq::empty(),
        preferred_brief_length: 7,
        preferred_discovery_mode: DiscoveryMode::DeepMatch,
    }
}

/// The User's current preferences in the tenant, or the defaults.
pub open spec fn current_prefs(s: Store, user_id: u128, tenant_id: Option<u128>) -> UserPreferencesModel {
    let i = first_index(s.user_preferences@, prefs_of(user_id, tenant_id));
    if i < 0 {
        default_prefs(user_id, tenant_id)
    } else {
        s.user_preferences@[i]@
    }
}

/// The stored preferences after the User's entry becomes `p`.
pub open spec fn prefs_after(s: Store, user_id: u128, tenant_id: Option<u128>, p: UserPreferencesModel) -> Seq<UserPreferencesModel> {
    let models = s.user_preferences@.map_values(prefs_model());
    let i = first_index(s.user_preferences@, prefs_of(user_id, tenant_id));
    if i < 0 {
        models.push(p)
    } else {
        models.update(i, p)
    }
}

/// `list` with `x` added unless already present.
pub open spec fn add_once(list: Seq<Seq<char>>, x: Seq<char>) -> Seq<Seq<char>> {
    if list.contains(x) {
        list
    } else {
        list.push(x)
    }
}

/// Trims and lower-cases each value, dropping empty ones and repeats, keeping first occurrences in order.
pub open spec fn normalized_unique(values: Seq<Seq<char>>) -> Seq<Seq<char>>
    decreases values.len(),
{
    if values.len() == 0 {
        Seq::empty()
    } else {
        let prev = normalized_unique(values.drop_last());
        let v = lowercase(trimmed(values.last()));
        if v.len() > 0 && !prev.contains(v) {
            prev.push(v)
        } else {
            prev
        }
    }
}

pub open spec fn clamp_length(n: u8) -> u8 {
    if n < 1 {
        1
    } else if n > 10 {
        10
    } else {
        n
    }
}

/// Applies an update to preferences.
pub open spec fn updated_prefs(p: UserPreferencesModel, request: UpdatePreferencesRequest) -> UserPreferencesModel {
    UserPreferencesModel {
        interests: match request.interests {
            Some(v) => normalized_unique(texts(v@)),
            None => p.interests,
        },
        blocked_topics: match request.blocked_topics {
            Some(v) => normalized_unique(texts(v@)),
            None => p.blocked_topics,
        },
        blocked_sources: match request.blocked_sources {
            Some(v) => normalized_unique(texts(v@)),
            None => p.blocked_sources,
        },
        preferred_brief_length: match request.preferred_brief_length {
            Some(n) => clamp_length(n),
            None => p.preferred_brief_length,
        },
        preferred_discovery_mode: match request.preferred_discovery_mode {
            Some(m) => m,
            None => p.preferred_discovery_mode,
        },
        ..p
    }
}


/// Whether a list of strings holds one with the text of `x`.
pub fn strings_contain(list: &Vec<String>, x: &String) -> (b: bool)
    ensures
        b == texts(list@).contains(x@),
{
    let mut i: usize = 0;
    while i < list.len()
        invariant
            i <= list@.len(),
            forall|j: int| 0 <= j < i ==> list@[j]@ != x@,
        decreases list@.len() - i,
    {
        if list[i] == *x {
            assert(texts(list@)[i as int] == x@);
            return true;
        }
        i = i + 1;
    }
    assert forall|j: int| 0 <= j < texts(list@).len() implies texts(list@)[j] != x@ by {
        assert(texts(list@)[j] == list@[j]@);
    }
    false
}

/// Trims and lower-cases each value, dropping empty ones and repeats.
pub fn normalize_unique(values: Vec<String>) -> (out: Vec<String>)
    ensures
        texts(out@) == normalized_unique(texts(values@)),
{
    let mut out: Vec<String> = Vec::new();
    let mut i: usize = 0;
    while i < values.len()
        invariant
            i <= values@.len(),
            texts(out@) == normalized_unique(texts(values@).take(i as int)),
        decreases values@.len() - i,
    {
        let value = to_lowercase(trim(values[i].as_str()));
        let ghost prefix = texts(values@).take(i + 1);
        assert(prefix.drop_last() =~= texts(values@).take(i as int));
        assert(prefix.last() == values@[i as int]@);
        let ghost before = out@;
        if value.unicode_len() > 0 && !strings_contain(&out, &value) {
            out.push(value);
            assert(texts(out@) =~= texts(before).push(value@));
        }
        i = i + 1;
    }
    assert(texts(values@).take(values@.len() as int) =~= texts(values@));
    out
}

/// The position of the User's preferences in the tenant, creating defaults when absent.
fn prefs_entry(store: &mut Store, user_id: u128, tenant_id: Option<u128>) -> (i: usize)
    ensures
        i < final(store).user_preferences@.len(),
        final(store).user_preferences@[i as int]@ == current_prefs(*old(store), user_id, tenant_id),
        final(store).user_preferences@.map_values(prefs_model()) == prefs_after(*old(store), user_id, tenant_id,
            current_prefs(*old(store), user_id, tenant_id)),
        forall|p: UserPreferencesModel| #[trigger] prefs_after(*final(store), user_id, tenant_id, p) == prefs_after(*old(store), user_id, tenant_id, p),
        *final(store) == (Store { user_preferences: final(store).user_preferences, ..*old(store) }),
        first_index(final(store).user_preferences@, prefs_of(user_id, tenant_id)) == i,
{
    let mut i: usize = 0;
    while i < store.user_preferences.len() && !(store.user_preferences[i].user_id == user_id
        && store.user_preferences[i].tenant_id == tenant_id)
        invariant
            i <= store.user_preferences@.len(),
            forall|j: int| 0 <= j < i ==> !prefs_of(user_id, tenant_id)(#[trigger] store.user_preferences@[j]),
        decreases store.user_preferences@.len() - i,
    {
        i = i + 1;
    }
    proof { lemma_first_index_at(store.user_preferences@, prefs_of(user_id, tenant_id), i as int); }
    if i < store.user_preferences.len() {
        assert(store.user_preferences@.map_values(prefs_model()) =~= prefs_after(*old(store), user_id, tenant_id,
            current_prefs(*old(store), user_id, tenant_id)));
        return i;
    }
    let ghost before = store.user_preferences@;
    store.user_preferences.push(UserPreferences {
        user_id,
        tenant_id,
        interests: Vec::new(),
        blocked_topics: Vec::new(),
        blocked_sources: Vec::new(),
        preferred_brief_length: 7,
        preferred_discovery_mode: DiscoveryMode::DeepMatch,
    });
    proof {
        assert(texts(Seq::<String>::empty()) =~= Seq::<Seq<char>>::empty());
        assert(store.user_preferences@[i as int]@ =~= default_prefs(user_id, tenant_id));
        assert(store.user_preferences@.map_values(prefs_model()) =~= before.map_values(prefs_model()).push(
            default_prefs(user_id, tenant_id),
        ));
        assert forall|j: int| 0 <= j < i implies !prefs_of(user_id, tenant_id)(#[trigger] store.user_preferences@[j]) by {
            assert(store.user_preferences@[j] == before[j]);
        }
        lemma_first_index_at(store.user_preferences@, prefs_of(user_id, tenant_id), i as int);
        assert forall|p: UserPreferencesModel| #[trigger] prefs_after(*store, user_id, tenant_id, p) == prefs_after(*old(store), user_id, tenant_id, p) by {
            assert(store.user_preferences@.map_values(prefs_model()).update(i as int, p) =~= before.map_values(prefs_model()).push(p));
        }
    }
    i
}


/// The preferences with one more blocked source or topic.
pub open spec fn with_blocked(p: UserPreferencesModel, value: Seq<char>, topic: bool) -> UserPreferencesModel {
    if topic {
        UserPreferencesModel { blocked_topics: add_once(p.blocked_topics, value), ..p }
    } else {
        UserPreferencesModel { blocked_sources: add_once(p.blocked_sources, value), ..p }
    }
}

/// What blocking `value` (a topic or a source) does to the store for a context.
pub open spec fn block_outcome(s: Store, ctx: AuthContext, value: Seq<char>, topic: bool, after: Store) -> bool {
    match ctx.user_id {
        None => after == s,
        Some(u) => {
            &&& after.user_preferences@.map_values(prefs_model()) == prefs_after(s, u, ctx.tenant_id,
                with_blocked(current_prefs(s, u, ctx.tenant_id), value, topic))
            &&& audited(s.harness_write_audit@, after.harness_write_audit@, ctx,
                if topic { HarnessWriteOperation::BlockTopic } else { HarnessWriteOperation::BlockSource }, None)
            &&& after == (Store { user_preferences: after.user_preferences, harness_write_audit: after.harness_write_audit, ..s })
        },
    }
}

impl AgentTools {
    fn block(&mut self, ctx: &AuthContext, value: String, topic: bool) -> (r: Result<(), AgentToolsError>)
        ensures
            match taste_profile_check(old(self).store, *ctx) {
                Err(d) => r matches Err(e) && denies(e, d) && final(self).store == old(self).store,
                Ok(()) => r is Ok && block_outcome(old(self).store, *ctx, value@, topic, final(self).store),
            },
    {
        authorize_taste_profile(&self.store, ctx)?;
        let user_id = match ctx.user_id {
            None => return Ok(()),
            Some(u) => u,
        };
        let ghost s0 = self.store;
        let i = prefs_entry(&mut self.store, user_id, ctx.tenant_id);
        let ghost s1 = self.store;
        let mut prefs = self.store.user_preferences.remove(i);
        if topic {
            if !strings_contain(&prefs.blocked_topics, &value) {
                prefs.blocked_topics.push(value);
            }
        } else {
            if !strings_contain(&prefs.blocked_sources, &value) {
                prefs.blocked_sources.push(value);
            }
        }
        self.store.user_preferences.insert(i, prefs);
        proof {
            let cur = current_prefs(s0, user_id, ctx.tenant_id);
            let want = with_blocked(cur, value@, topic);
            assert(texts(prefs.blocked_topics@) =~= want.blocked_topics);
            assert(texts(prefs.blocked_sources@) =~= want.blocked_sources);
            assert(prefs@ =~= want);
            assert(self.store.user_preferences@.map_values(prefs_model()) =~= s1.user_preferences@.map_values(prefs_model()).update(i as int, want));
            assert(prefs_after(s1, user_id, ctx.tenant_id, want) == prefs_after(s0, user_id, ctx.tenant_id, want));
        }
        record_harness_write(&mut self.store, ctx, if topic { HarnessWriteOperation::BlockTopic } else { HarnessWriteOperation::BlockSource }, None);
        Ok(())
    }

    /// Blocks a source for the caller's User (a context without a User changes nothing).
    pub fn block_source(&mut self, ctx: &AuthContext, source: String) -> (r: Result<(), AgentToolsError>)
        ensures
            match taste_profile_check(old(self).store, *ctx) {
                Err(d) => r matches Err(e) && denies(e, d) && final(self).store == old(self).store,
                Ok(()) => r is Ok && block_outcome(old(self).store, *ctx, source@, false, final(self).store),
            },
    {
        self.block(ctx, source, false)
    }

    /// Blocks a topic for the caller's User (a context without a User changes nothing).
    pub fn block_topic(&mut self, ctx: &AuthContext, topic: String) -> (r: Result<(), AgentToolsError>)
        ensures
            match taste_profile_check(old(self).store, *ctx) {
                Err(d) => r matches Err(e) && denies(e, d) && final(self).store == old(self).store,
                Ok(()) => r is Ok && block_outcome(old(self).store, *ctx, topic@, true, final(self).store),
            },
    {
        self.block(ctx, topic, true)
    }

    /// Replaces each supplied preference of the caller's User: lists are trimmed,
    /// lower-cased and de-duplicated, and the Brief length is clamped to 1..=10.
    pub fn update_preferences(&mut self, ctx: &AuthContext, request: UpdatePreferencesRequest) -> (r: Result<UserPreferences, AgentToolsError>)
        ensures
            match ctx.user_id {
                None => r matches Err(e) && denies(e, Denial::Validation("preferences require an authenticated user"@))
                    && final(self).store == old(self).store,
                Some(u) => match taste_profile_check(old(self).store, *ctx) {
                    Err(d) => r matches Err(e) && denies(e, d) && final(self).store == old(self).store,
                    Ok(()) => {
                        let want = updated_prefs(current_prefs(old(self).store, u, ctx.tenant_id), request);
                        &&& r matches Ok(p) && p@ == want
                        &&& final(self).store.user_preferences@.map_values(prefs_model()) == prefs_after(old(self).store, u, ctx.tenant_id, want)
                        &&& audited(old(self).store.harness_write_audit@, final(self).store.harness_write_audit@, *ctx,
                            HarnessWriteOperation::UpdatePreferences, None)
                        &&& final(self).store == (Store {
                            user_preferences: final(self).store.user_preferences,
                            harness_write_audit: final(self).store.harness_write_audit,
                            ..old(self).store
                        })
                    },
                },
            },
    {
        let user_id = match ctx.user_id {
            None => return Err(validation("preferences require an authenticated user")),
            Some(u) => u,
        };
        authorize_taste_profile(&self.store, ctx)?;
        let ghost s0 = self.store;
        let ghost req = request;
        let i = prefs_entry(&mut self.store, user_id, ctx.tenant_id);
        let ghost s1 = self.store;
        let mut prefs = self.store.user_preferences.remove(i);
        let UpdatePreferencesRequest { interests, blocked_topics, blocked_sources, preferred_brief_length, preferred_discovery_mode } = request;
        if let Some(values) = interests {
            prefs.interests = normalize_unique(values);
        }
        if let Some(values) = blocked_topics {
            prefs.blocked_topics = normalize_unique(values);
        }
        if let Some(values) = blocked_sources {
            prefs.blocked_sources = normalize_unique(values);
        }
        if let Some(length) = preferred_brief_length {
            prefs.preferred_brief_length = if length < 1 { 1 } else if length > 10 { 10 } else { length };
        }
        if let Some(mode) = preferred_discovery_mode {
            prefs.preferred_discovery_mode = mode;
        }
        let result = prefs.clone();
        self.store.user_preferences.insert(i, prefs);
        proof {
            let want = updated_prefs(current_prefs(s0, user_id, ctx.tenant_id), req);
            assert(prefs@ =~= want);
            assert(self.store.user_preferences@.map_values(prefs_model()) =~= s1.user_preferences@.map_values(prefs_model()).update(i as int, want));
            assert(prefs_after(s1, user_id, ctx.tenant_id, want) == prefs_after(s0, user_id, ctx.tenant_id, want));
        }
        record_harness_write(&mut self.store, ctx, HarnessWriteOperation::UpdatePreferences, None);
        Ok(result)
    }
}

} // verus!
