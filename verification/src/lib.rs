//! Verified core of an N-body gravity sandbox.
//!
//! The crate owns every decision of the simulation that is not arithmetic on
//! real numbers: which bodies exist and under which identity, which edits are
//! admissible, when integration and look-ahead run, in which order body pairs
//! exchange force within a step, and how predicted paths are collected.
//! Physical quantities are carried as IEEE 754 single-precision bit patterns
//! that the crate stores, copies, classifies and compares but never combines;
//! the host performs the arithmetic between two calls into the crate.

pub mod names;
pub mod planets;
pub mod scalar;
pub mod schedule;
pub mod trajectory;
pub mod world;
