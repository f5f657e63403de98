//! Decides, for a catalog of declared foreign types, which of them may be
//! represented by value: copied, moved and embedded inline rather than held
//! behind an opaque handle.
//!
//! A type is by-value-safe only if every field it transitively contains is
//! itself by-value-safe, it carries no virtual dispatch table, and it is not
//! forbidden by policy. The [`checker::ByValueChecker`] holds the verdict for
//! every identifier seen so far; [`resolve`] gives the mathematical model of
//! the worklist algorithm that turns tentative verdicts into terminal ones,
//! and [`laws`] proves what seeding, confirmation and failure guarantee.

pub mod identifier;
pub mod verdict;
pub mod resolve;
pub mod store;
pub mod confirm;
pub mod ingest;
pub mod known;
pub mod catalog;
pub mod laws;
pub mod render;

pub use identifier::TypeIdentifier;
pub use ingest::{DeclKind, Declaration};
pub use store::ByValueChecker;
pub use verdict::{SafetyRecord, UnsafeReason, Verdict};
