//! Recursive filesystem-entry discovery and filtering.
//!
//! The crate walks the directory tree beneath one or more root paths and
//! selects the visited entries that satisfy two independent predicate
//! groups: a set of name patterns (regular expressions, OR'd together) and
//! a set of entry kinds (OR'd together); the two groups are AND'd. An
//! empty group places no constraint. A companion module counts lines,
//! words and bytes of a text.

pub mod counts;
pub mod engine;
pub mod entry;
pub mod pattern;
pub mod predicate;
pub mod walk;
