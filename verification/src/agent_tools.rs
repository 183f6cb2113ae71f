//! The agent tool surface of a Home Node: its state, how it is persisted,
//! and the contexts it hands out.
use crate::error::{denies, not_found, AgentToolsError, Denial};
use crate::seqs::{first_match, lemma_first_index_at};
use crate::store::Store;
use crate::types::{AuthContext, HarnessWriteAudit, HarnessWriteOperation, NodeIdentity, User};
use vstd::prelude::*;

verus! {

/// Where the Home Node keeps its state: the place the tools were opened on.
/// The tools record it; writing to it is left to the service around them.
#[derive(Debug)]
pub enum Persistence {
    /// A JSON snapshot file.
    Json(String),
    /// A SQLite database.
    Sqlite(String),
}

/// The tools an agent (or the local User) uses against one Home Node.
#[derive(Debug)]
pub struct AgentTools {
    pub store: Store,
    pub persistence: Option<Persistence>,
}

pub open spec fn node_without_tenant() -> spec_fn(NodeIdentity) -> bool {
    |n: NodeIdentity| n.tenant_id is None
}

/// The Home Node's own identity: the first node identity not bound to a tenant.
pub open spec fn default_node_spec(s: Store) -> Result<NodeIdentity, Denial> {
    match first_match(s.node_identities@, node_without_tenant()) {
        Some(n) => Ok(n),
        None => Err(Denial::NotFound("node identity"@)),
    }
}

/// `a` sorts strictly before `b` by creation instant, then identifier.
pub open spec fn user_before(a: User, b: User) -> bool {
    a.created_at < b.created_at || (a.created_at == b.created_at && a.id < b.id)
}

/// The earliest-created User (the first among equals).
pub open spec fn earliest_user(s: Seq<User>) -> Option<User>
    decreases s.len(),
{
    if s.len() == 0 {
        None
    } else {
        match earliest_user(s.drop_last()) {
            None => Some(s.last()),
            Some(u) => if user_before(s.last(), u) {
                Some(s.last())
            } else {
                Some(u)
            },
        }
    }
}

/// The attribution trail after a write: a harness context appends one record
/// naming the harness, the operation and the Pod; other contexts leave it as is.
pub open spec fn audited(
    before: Seq<HarnessWriteAudit>,
    after: Seq<HarnessWriteAudit>,
    ctx: AuthContext,
    operation: HarnessWriteOperation,
    pod_id: Option<u128>,
) -> bool {
    match ctx.harness_id {
        None => after == before,
        Some(h) => {
            &&& after.len() == before.len() + 1
            &&& after.take(before.len() as int) == before
            &&& after.last().harness_id == h
            &&& after.last().operation == operation
            &&& after.last().pod_id == pod_id
        },
    }
}

/// `audited`, with the record also stamped at `at`.
pub open spec fn audited_at(
    before: Seq<HarnessWriteAudit>,
    after: Seq<HarnessWriteAudit>,
    ctx: AuthContext,
    operation: HarnessWriteOperation,
    pod_id: Option<u128>,
    at: i64,
) -> bool {
    &&& audited(before, after, ctx, operation, pod_id)
    &&& ctx.harness_id is Some ==> after.last().occurred_at == at
}

/// Records that the context's harness, if any, performed a write at `at`.
pub fn record_harness_write_at(
    store: &mut Store,
    ctx: &AuthContext,
    operation: HarnessWriteOperation,
    pod_id: Option<u128>,
    at: i64,
)
    ensures
        audited_at(old(store).harness_write_audit@, final(store).harness_write_audit@, *ctx, operation, pod_id, at),
        *final(store) == (Store { harness_write_audit: final(store).harness_write_audit, ..*old(store) }),
        ctx.harness_id is None ==> *final(store) == *old(store),
{
    if let Some(harness_id) = ctx.harness_id {
        let id = crate::outside::new_id();
        let ghost before = store.harness_write_audit@;
        store.harness_write_audit.push(HarnessWriteAudit { id, harness_id, operation, pod_id, occurred_at: at });
        assert(store.harness_write_audit@.take(before.len() as int) =~= before);
    }
}

/// Records that the context's harness, if any, performed a write now.
pub fn record_harness_write(store: &mut Store, ctx: &AuthContext, operation: HarnessWriteOperation, pod_id: Option<u128>)
    ensures
        audited(old(store).harness_write_audit@, final(store).harness_write_audit@, *ctx, operation, pod_id),
        *final(store) == (Store { harness_write_audit: final(store).harness_write_audit, ..*old(store) }),
        ctx.harness_id is None ==> *final(store) == *old(store),
{
    let now = crate::outside::now_millis();
    record_harness_write_at(store, ctx, operation, pod_id, now);
}

impl AgentTools {
    /// Tools over `store` that keep state only in memory.
    pub fn new(store: Store) -> (tools: Self)
        ensures
            tools.store == store,
            tools.persistence is None,
    {
        AgentTools { store, persistence: None }
    }

    /// Tools over `store` whose changes are written to a JSON snapshot at `path`.
    pub fn new_persistent(store: Store, path: String) -> (tools: Self)
        ensures
            tools.store == store,
            tools.persistence == Some(Persistence::Json(path)),
    {
        AgentTools { store, persistence: Some(Persistence::Json(path)) }
    }

    /// Tools over `store` whose changes are written to the SQLite database at `path`.
    pub fn new_sqlite_persistent(store: Store, path: String) -> (tools: Self)
        ensures
            tools.store == store,
            tools.persistence == Some(Persistence::Sqlite(path)),
    {
        AgentTools { store, persistence: Some(Persistence::Sqlite(path)) }
    }

    /// The state these tools act on.
    pub fn store(&self) -> (s: &Store)
        ensures
            *s == self.store,
    {
        &self.store
    }

    /// Where changes are written, if anywhere.
    pub fn persistence_path(&self) -> (p: Option<&String>)
        ensures
            match self.persistence {
                Some(Persistence::Json(path)) => p == Some(&path),
                Some(Persistence::Sqlite(path)) => p == Some(&path),
                None => p is None,
            },
    {
        match &self.persistence {
            Some(Persistence::Json(path)) => Some(path),
            Some(Persistence::Sqlite(path)) => Some(path),
            None => None,
        }
    }

    /// The Home Node's own identity.
    pub fn default_node(&self) -> (r: Result<&NodeIdentity, AgentToolsError>)
        ensures
            match default_node_spec(self.store) {
                Ok(n) => r == Ok::<&NodeIdentity, AgentToolsError>(&n),
                Err(d) => r matches Err(e) && denies(e, d),
            },
    {
        let nodes = &self.store.node_identities;
        let mut i: usize = 0;
        while i < nodes.len()
            invariant
                i <= nodes@.len(),
                *nodes == self.store.node_identities,
                forall|j: int| 0 <= j < i ==> !node_without_tenant()(#[trigger] nodes@[j]),
            decreases nodes@.len() - i,
        {
            if nodes[i].tenant_id.is_none() {
                proof { lemma_first_index_at(nodes@, node_without_tenant(), i as int); }
                return Ok(&nodes[i]);
            }
            i = i + 1;
        }
        proof { lemma_first_index_at(nodes@, node_without_tenant(), i as int); }
        Err(not_found("node identity"))
    }

    /// An anonymous context on the Home Node.
    pub fn default_auth_context(&self) -> (r: Result<AuthContext, AgentToolsError>)
        ensures
            match default_node_spec(self.store) {
                Ok(n) => r == Ok::<AuthContext, AgentToolsError>(AuthContext {
                    user_id: None,
                    tenant_id: n.tenant_id,
                    node_id: n.id,
                    harness_id: None,
                }),
                Err(d) => r matches Err(e) && denies(e, d),
            },
    {
        let node = self.default_node()?;
        Ok(AuthContext { user_id: None, tenant_id: node.tenant_id, node_id: node.id, harness_id: None })
    }

    /// The context of the Home Node Owner: the earliest-created User on the Home Node.
    pub fn local_owner_auth_context(&self) -> (r: Result<AuthContext, AgentToolsError>)
        ensures
            match default_node_spec(self.store) {
                Ok(n) => r == Ok::<AuthContext, AgentToolsError>(AuthContext {
                    user_id: match earliest_user(self.store.users@) {
                        Some(u) => Some(u.id),
                        None => None,
                    },
                    tenant_id: n.tenant_id,
                    node_id: n.id,
                    harness_id: None,
                }),
                Err(d) => r matches Err(e) && denies(e, d),
            },
    {
        let node = self.default_node()?;
        let users = &self.store.users;
        let mut best: Option<usize> = None;
        let mut i: usize = 0;
        while i < users.len()
            invariant
                i <= users@.len(),
                match best {
                    None => earliest_user(users@.take(i as int)) is None,
                    Some(b) => b < i && earliest_user(users@.take(i as int)) == Some(users@[b as int]),
                },
            decreases users@.len() - i,
        {
            assert(users@.take(i + 1).drop_last() =~= users@.take(i as int));
            let replace = match best {
                None => true,
                Some(b) => users[i].created_at < users[b].created_at
                    || (users[i].created_at == users[b].created_at && users[i].id < users[b].id),
            };
            if replace {
                best = Some(i);
            }
            i = i + 1;
        }
        assert(users@.take(users@.len() as int) =~= users@);
        let user_id = match best {
            Some(b) => Some(users[b].id),
            None => None,
        };
        Ok(AuthContext { user_id, tenant_id: node.tenant_id, node_id: node.id, harness_id: None })
    }
}

} // verus!
