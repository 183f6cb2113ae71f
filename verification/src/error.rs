//! Errors reported by the Home Node store and the agent tool surface.
use vstd::prelude::*;

verus! {

/// A failure of a store-level rule.
#[derive(Debug)]
pub enum StoreError {
    Validation(String),
    NotFound(String),
    Duplicate(String),
    TenantBoundary,
    UntrustedPeer,
    InvalidSignature,
}

/// Every failure the agent tool surface reports.
#[derive(Debug)]
pub enum AgentToolsError {
    /// The Explore request's bounds are invalid.
    ExploreRequest,
    CurationRationale(String),
    Store(StoreError),
    Signing(String),
    Persistence(String),
    LockPoisoned,
    BadUrl(String),
    Forbidden { reason: String },
    TaskLeaseConflict,
    TaskTerminal,
    TaskLeaseRequired,
    CandidateHarnessRequired,
    CandidateTaskRequired,
    CandidateTaskLeaseRequired,
    CandidatePackageVersionMismatch,
    CandidateIdempotencyConflict,
    PersonalDiscoveryNotReady,
    PersonalDiscoveryIdempotencyConflict,
    NodeNotInitialized,
    NodeAlreadyInitialized,
    /// A remote node advertises a protocol this node cannot safely interpret.
    IncompatibleProtocol { received: String, supported: String },
}

/// The mathematical value of a failure: which rule refused, and its message.
pub enum Denial {
    Forbidden(Seq<char>),
    NotFound(Seq<char>),
    Validation(Seq<char>),
    Duplicate(Seq<char>),
    TenantBoundary,
    UntrustedPeer,
    TaskLeaseConflict,
    TaskTerminal,
    TaskLeaseRequired,
    CandidateHarnessRequired,
    CandidateTaskRequired,
    CandidateTaskLeaseRequired,
    CandidatePackageVersionMismatch,
    CandidateIdempotencyConflict,
    /// A URL that does not parse, with the parser's message.
    UnparsableUrl,
    /// A URL refused for the given reason.
    BadUrl(Seq<char>),
}

/// `e` is the failure that `d` describes.
pub open spec fn denies(e: AgentToolsError, d: Denial) -> bool {
    match d {
        Denial::Forbidden(m) => is_forbidden(e, m),
        Denial::NotFound(m) => is_not_found(e, m),
        Denial::Validation(m) => is_validation(e, m),
        Denial::Duplicate(m) => e matches AgentToolsError::Store(StoreError::Duplicate(x)) && x@ == m,
        Denial::TenantBoundary => e matches AgentToolsError::Store(StoreError::TenantBoundary),
        Denial::UntrustedPeer => e matches AgentToolsError::Store(StoreError::UntrustedPeer),
        Denial::TaskLeaseConflict => e matches AgentToolsError::TaskLeaseConflict,
        Denial::TaskTerminal => e matches AgentToolsError::TaskTerminal,
        Denial::TaskLeaseRequired => e matches AgentToolsError::TaskLeaseRequired,
        Denial::CandidateHarnessRequired => e matches AgentToolsError::CandidateHarnessRequired,
        Denial::CandidateTaskRequired => e matches AgentToolsError::CandidateTaskRequired,
        Denial::CandidateTaskLeaseRequired => e matches AgentToolsError::CandidateTaskLeaseRequired,
        Denial::CandidatePackageVersionMismatch => e matches AgentToolsError::CandidatePackageVersionMismatch,
        Denial::CandidateIdempotencyConflict => e matches AgentToolsError::CandidateIdempotencyConflict,
        Denial::UnparsableUrl => e is BadUrl,
        Denial::BadUrl(m) => e matches AgentToolsError::BadUrl(x) && x@ == m,
    }
}

/// `r` failed exactly as `outcome` says, or succeeded when `outcome` does.
pub open spec fn refuses_as<T>(r: Result<T, AgentToolsError>, outcome: Result<(), Denial>) -> bool {
    match outcome {
        Ok(()) => r is Ok,
        Err(d) => r matches Err(e) && denies(e, d),
    }
}

/// `r` is the value `outcome` gives, or fails as it says.
pub open spec fn yields<T>(r: Result<T, AgentToolsError>, outcome: Result<T, Denial>) -> bool {
    match outcome {
        Ok(v) => r == Ok::<T, AgentToolsError>(v),
        Err(d) => r matches Err(e) && denies(e, d),
    }
}

/// `e` is a denial whose reason reads `msg`.
pub open spec fn is_forbidden(e: AgentToolsError, msg: Seq<char>) -> bool {
    e matches AgentToolsError::Forbidden { reason } && reason@ == msg
}

/// `e` is a store validation failure whose message reads `msg`.
pub open spec fn is_validation(e: AgentToolsError, msg: Seq<char>) -> bool {
    e matches AgentToolsError::Store(StoreError::Validation(m)) && m@ == msg
}

/// `e` is a store "not found" failure whose message reads `msg`.
pub open spec fn is_not_found(e: AgentToolsError, msg: Seq<char>) -> bool {
    e matches AgentToolsError::Store(StoreError::NotFound(m)) && m@ == msg
}

/// A denial with the given reason.
pub fn forbidden(reason: &str) -> (e: AgentToolsError)
    ensures
        is_forbidden(e, reason@),
{
    AgentToolsError::Forbidden { reason: String::from_str(reason) }
}

/// A validation failure with the given message.
pub fn validation(message: &str) -> (e: AgentToolsError)
    ensures
        is_validation(e, message@),
{
    AgentToolsError::Store(StoreError::Validation(String::from_str(message)))
}

/// A denial whose reason is a prefix followed by an identifier's text.
pub fn forbidden_for(prefix: &str, id: u128) -> (e: AgentToolsError)
    ensures
        is_forbidden(e, prefix@ + crate::outside::uuid_text(id)),
{
    let mut reason = String::from_str(prefix);
    let text = crate::outside::id_text(id);
    reason.append(text.as_str());
    AgentToolsError::Forbidden { reason }
}

/// A denial whose reason is an identifier's text between a prefix and a suffix.
pub fn forbidden_around(prefix: &str, id: u128, suffix: &str) -> (e: AgentToolsError)
    ensures
        is_forbidden(e, prefix@ + crate::outside::uuid_text(id) + suffix@),
{
    let mut reason = String::from_str(prefix);
    let text = crate::outside::id_text(id);
    reason.append(text.as_str());
    reason.append(suffix);
    AgentToolsError::Forbidden { reason }
}

/// A "not found" failure whose message is a prefix followed by an identifier's text.
pub fn not_found_for(prefix: &str, id: u128) -> (e: AgentToolsError)
    ensures
        is_not_found(e, prefix@ + crate::outside::uuid_text(id)),
{
    let mut message = String::from_str(prefix);
    let text = crate::outside::id_text(id);
    message.append(text.as_str());
    AgentToolsError::Store(StoreError::NotFound(message))
}

/// A "not found" failure with the given message.
pub fn not_found(message: &str) -> (e: AgentToolsError)
    ensures
        is_not_found(e, message@),
{
    AgentToolsError::Store(StoreError::NotFound(String::from_str(message)))
}

} // verus!
