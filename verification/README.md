# stumble_core

The agent-facing tool surface of a Stumble Home Node, written in Verus: every
operation in `src/` carries a contract over a mathematical model of the
store, and Verus proves each body against it.

## Layout

- `src/store.rs`, `src/types.rs`: the Home Node state. Keyed collections are
  sequences; a lookup by key yields the first element with that key.
- `src/auth.rs`: Agent Harness grants and the authorization rules every
  operation goes through.
- `src/harnesses.rs`, `src/tenants.rs`: harness registration, credentials,
  revocation and tenants.
- `src/tasks.rs`: the Discovery Task lease lifecycle (claim, renew, complete,
  fail) and its laws.
- `src/proposals.rs`: Pending Proposals for sensitive changes (harness
  grants, trusted peers, Pod roles, publishing and widening a Pod's
  visibility), their independent approval and application.
- `src/personal_discovery.rs`, `src/result_completion.rs`,
  `src/result_batches.rs`, `src/result_review.rs`, `src/candidates.rs`:
  private Personal Discovery state, completing a task into its result batch,
  batch and item review (Save into the private Inbox Pod, Add to Pod, taste
  evidence), and Candidate inspection.
- `src/candidate_submission.rs`, `src/links.rs`: Candidate submission with
  evidence and placement proposals, crawler candidates, links submitted to
  Pods and their removal.
- `src/federated_import.rs`: projecting imported public Pod events
  (Pods, Content Items, accepted placements, Placement Tombstones) into the
  importing tenant, never touching another tenant's records.
- `src/urls.rs`: URL canonicalization and Explore request bounds.
- `src/pods.rs`, `src/subscriptions.rs`, `src/preferences.rs`,
  `src/catalog.rs`, `src/federation.rs`: Pods, Subscriptions, preferences,
  briefs and the federation read surface.
- `src/outside.rs`: the calls into `uuid`, `chrono`, `url`, `sha2` and `std`
  text handling, each with the contract it is trusted to meet.
- `app/`: the shared, lock-guarded service face of the tools, with `chrono`
  instants and `thiserror` errors at the edge.
- `tests/`: executable scenarios for the operations and their laws.

Laws that relate several operations are public proof functions named
`lemma_*`, next to the operations they speak of.
