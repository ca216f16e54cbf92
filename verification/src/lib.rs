//! Verified construction of xtask command plans.
//!
//! Each task of the crate (continuous integration, feature-powerset testing,
//! coverage collection, and a few single-command helpers) is described here as
//! a plan: the exact sequence of external commands, with their argument lists
//! and environment variables, that the task issues. The plan construction is
//! verified; an unverified front end executes the plans.

pub mod decimal;
pub mod plan;
pub mod tasks;
