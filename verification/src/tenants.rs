//! Tenants served by a Home Node, each with its own managed node identity.
use crate::agent_tools::{audited, record_harness_write, AgentTools};
use crate::auth::{authorize_harness, harness_check};
use crate::error::{denies, AgentToolsError, Denial, StoreError};
use crate::harnesses::tenant_with_slug;
use crate::outside::{new_id, now_millis};
use crate::seqs::{any_match, lemma_first_index, lemma_first_index_at};
use crate::store::Store;
use crate::types::{AuthContext, HarnessCapability, HarnessWriteOperation, NodeIdentity, Tenant};
use vstd::prelude::*;

verus! {

/// A request to create a tenant.
#[derive(Debug)]
pub struct CreateTenantRequest {
    pub name: String,
    pub slug: String,
}

/// The rules of tenant creation: administration authority when acting for a
/// context, and a slug no tenant has yet.
pub open spec fn tenant_creation_check(s: Store, ctx: Option<AuthContext>, request: CreateTenantRequest) -> Result<(), Denial> {
    if ctx is Some && harness_check(s, ctx->0, HarnessCapability::Administration, None) is Err {
        Err(harness_check(s, ctx->0, HarnessCapability::Administration, None)->Err_0)
    } else if any_match(s.tenants@, tenant_with_slug(request.slug@)) {
        Err(Denial::Duplicate("tenant "@ + request.slug@))
    } else {
        Ok(())
    }
}

/// No two tenants share a slug.
pub open spec fn tenant_slugs_unique(tenants: Seq<Tenant>) -> bool {
    forall|i: int, j: int| 0 <= i < j < tenants.len() ==> #[trigger] tenants[i].slug@ != #[trigger] tenants[j].slug@
}

/// What creating a tenant does to the store and returns. The new tenant is
/// appended with the requested name and slug; a node identity bound to it,
/// named after it and carrying `public_key`, is appended beside it.
pub open spec fn tenant_outcome(
    before: Store,
    after: Store,
    r: Result<Tenant, AgentToolsError>,
    ctx: Option<AuthContext>,
    request: CreateTenantRequest,
    public_key: String,
) -> bool {
    match tenant_creation_check(before, ctx, request) {
        Err(d) => r matches Err(e) && denies(e, d) && after == before,
        Ok(()) => r matches Ok(t) && {
            let n = after.node_identities@.last();
            &&& t.name@ == request.name@ && t.slug@ == request.slug@
            &&& after.tenants@ == before.tenants@.push(t)
            &&& after.node_identities@.len() == before.node_identities@.len() + 1
            &&& after.node_identities@.drop_last() == before.node_identities@
            &&& n.tenant_id == Some(t.id)
            &&& n.display_name@ == t.name@ + " managed node"@
            &&& n.public_key@ == public_key@
            &&& match ctx {
                None => after.harness_write_audit@ == before.harness_write_audit@,
                Some(c) => audited(before.harness_write_audit@, after.harness_write_audit@, c, HarnessWriteOperation::CreateTenant, None),
            }
            &&& after == (Store {
                tenants: after.tenants,
                node_identities: after.node_identities,
                harness_write_audit: after.harness_write_audit,
                ..before
            })
        },
    }
}

/// Creating a tenant never gives two tenants the same slug.
pub proof fn lemma_tenant_slugs_stay_unique(
    before: Store,
    after: Store,
    r: Result<Tenant, AgentToolsError>,
    ctx: Option<AuthContext>,
    request: CreateTenantRequest,
    public_key: String,
)
    requires
        tenant_slugs_unique(before.tenants@),
        tenant_outcome(before, after, r, ctx, request, public_key),
    ensures
        tenant_slugs_unique(after.tenants@),
{
    if tenant_creation_check(before, ctx, request) is Ok {
        let t = r->Ok_0;
        let n = before.tenants@.len() as int;
        assert(!any_match(before.tenants@, tenant_with_slug(request.slug@)));
        assert(t.slug@ == request.slug@);
        assert(after.tenants@ == before.tenants@.push(t));
        assert forall|i: int, j: int| 0 <= i < j < after.tenants@.len() implies
            #[trigger] after.tenants@[i].slug@ != #[trigger] after.tenants@[j].slug@ by {
            if j == n {
                assert(after.tenants@[i] == before.tenants@[i]);
                assert(after.tenants@[j] == t);
                if after.tenants@[i].slug@ == t.slug@ {
                    assert(tenant_with_slug(request.slug@)(before.tenants@[i]));
                    assert(any_match(before.tenants@, tenant_with_slug(request.slug@)));
                }
            } else {
                assert(after.tenants@[i] == before.tenants@[i]);
                assert(after.tenants@[j] == before.tenants@[j]);
                assert(before.tenants@[i].slug@ != before.tenants@[j].slug@);
            }
        }
    }
}

impl AgentTools {
    fn create_tenant_inner(
        &mut self,
        ctx: Option<&AuthContext>,
        request: CreateTenantRequest,
        public_key: String,
    ) -> (r: Result<Tenant, AgentToolsError>)
        ensures
            tenant_outcome(
                old(self).store,
                final(self).store,
                r,
                match ctx {
                    Some(c) => Some(*c),
                    None => None,
                },
                request,
                public_key,
            ),
    {
        if let Some(c) = ctx {
            authorize_harness(&self.store, c, HarnessCapability::Administration, None)?;
        }
        let tenants = &self.store.tenants;
        let mut i: usize = 0;
        while i < tenants.len() && tenants[i].slug != request.slug
            invariant
                i <= tenants@.len(),
                forall|j: int| 0 <= j < i ==> !tenant_with_slug(request.slug@)(#[trigger] tenants@[j]),
            decreases tenants@.len() - i,
        {
            i = i + 1;
        }
        proof {
            lemma_first_index_at(tenants@, tenant_with_slug(request.slug@), i as int);
            lemma_first_index(tenants@, tenant_with_slug(request.slug@));
        }
        if i < tenants.len() {
            let mut message = String::from_str("tenant ");
            message.append(request.slug.as_str());
            return Err(AgentToolsError::Store(StoreError::Duplicate(message)));
        }
        let now = now_millis();
        let tenant = Tenant { id: new_id(), name: request.name, slug: request.slug, created_at: now };
        let mut display_name = tenant.name.clone();
        display_name.append(" managed node");
        let node = NodeIdentity {
            id: new_id(),
            tenant_id: Some(tenant.id),
            display_name,
            public_key,
            created_at: now_millis(),
        };
        let ghost n0 = self.store.node_identities@;
        self.store.tenants.push(tenant.clone());
        self.store.node_identities.push(node);
        assert(self.store.node_identities@.drop_last() =~= n0);
        if let Some(c) = ctx {
            record_harness_write(&mut self.store, c, HarnessWriteOperation::CreateTenant, None);
        }
        Ok(tenant)
    }

    /// Creates a tenant and its managed node identity, which carries
    /// `public_key`; a slug already in use is refused.
    pub fn create_tenant(&mut self, request: CreateTenantRequest, public_key: String) -> (r: Result<Tenant, AgentToolsError>)
        ensures
            tenant_outcome(old(self).store, final(self).store, r, None, request, public_key),
    {
        self.create_tenant_inner(None, request, public_key)
    }

    /// Creates a tenant on behalf of an authorized administrative harness.
    pub fn create_tenant_as(&mut self, ctx: &AuthContext, request: CreateTenantRequest, public_key: String) -> (r: Result<
        Tenant,
        AgentToolsError,
    >)
        ensures
            tenant_outcome(old(self).store, final(self).store, r, Some(*ctx), request, public_key),
    {
        self.create_tenant_inner(Some(ctx), request, public_key)
    }
}

} // verus!
