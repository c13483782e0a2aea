//! Scoped, precedence-aware control of whether a garbage collector may run.
//!
//! Users can control whether the collector will run, and whether deeper
//! scopes can even re-enable it: once a setting has been recorded under a
//! given strength, only a request of equal-or-greater strength may change
//! it, and the value itself can only move in the safer direction.

pub mod laws;
pub mod settings;
