//! Verified core of a Home Node's agent-facing tool surface: authorization of
//! Agent Harnesses, Pod and Subscription bookkeeping, Personal Discovery
//! access, and the Discovery Task lease lifecycle.

pub mod outside;

pub mod error;
pub mod seqs;
pub mod types;
pub mod store;
pub mod auth;
pub mod agent_tools;
pub mod pods;
pub mod subscriptions;
pub mod harnesses;
pub mod personal_discovery;
pub mod candidates;
pub mod proposals;
pub mod tasks;
pub mod text;
pub mod catalog;
pub mod preferences;
pub mod federation;
pub mod tenants;
pub mod result_batches;
pub mod urls;
pub mod links;
pub mod candidate_submission;
pub mod result_completion;
pub mod result_review;
pub mod federated_import;
