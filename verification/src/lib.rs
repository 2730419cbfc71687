//! A security invariant verification core.
//!
//! Given two snapshots of the observable state of an application, one taken
//! before an action and one after it, the library decides which of a catalog
//! of security invariants the transition violates, attributes the changes
//! of state to the action, writes instructions that replay the transition,
//! and binds the evidence gathered to the hash of its content. A ledger
//! keeps every transition in a chain of hashes.
//!
//! - [`types`]: identifiers, balances, severities, confidences, instants.
//! - [`collections`] and [`text`]: mappings and sets ordered by the bytes of
//!   their keys.
//! - [`canonical`]: the canonical JSON encoding that hashes are taken of.
//! - [`state`]: the state model, the ledger and the state tracker.
//! - [`invariants`]: the predicates, the catalog, the validator and the
//!   coverage tracker.
//! - [`proofs`]: causal attribution, replay instructions, evidence, and the
//!   proof that bundles them.
//! - [`trusted`]: the calls into outside crates, whose contracts are
//!   believed and not proved.

pub mod canonical;
pub mod collections;
pub mod invariants;
pub mod proofs;
pub mod state;
pub mod text;
pub mod trusted;
pub mod types;
