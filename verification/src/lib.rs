//! A property-based testing engine: properties are predicates over randomly
//! generated inputs; the runner searches for a counterexample and, when it
//! finds one, shrinks it to a locally minimal failing case.
//!
//! The pieces: [`generate`] produces size-bounded random values, [`shrink`]
//! proposes smaller candidates deterministically, [`rose`] pairs a value
//! with its candidates as a lazy tree, [`property`] binds a generator, a
//! shrinker and a predicate into one testable unit, and [`quick_check`]
//! runs the adaptive trial loop and the shrink search.

pub mod arbitrary;
pub mod call;
pub mod dup;
pub mod generate;
pub mod property;
pub mod quick_check;
pub mod quick_fn;
pub mod random;
pub mod rose;
pub mod shrink;
pub mod testable;

pub use quick_check::{quicktest, QuickCheck, QuickCheckError};
