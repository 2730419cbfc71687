//! The invariant catalog, the validator and the coverage tracker.

pub mod catalog;
pub mod coverage;
pub mod predicates;
pub mod standard;
pub mod validator;

pub use catalog::{
    ConstantPredicate, CustomPredicate, InvariantCatalog, InvariantProvenance,
    SecurityInvariant, TransitionPredicate, Validator,
};
pub use coverage::{
    CategoryCoverage, CoverageGap, CoverageReport, CoverageTracker, GapSeverity, TransitionType,
};
pub use standard::{InvariantCategory, StandardPredicate};
pub use validator::{InvariantValidator, ValidationResult, ViolationDetails};
