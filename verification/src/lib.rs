//! A deterministic test-execution harness.
//!
//! The library generates reproducible seed sequences, aggregates the
//! outcomes of running each configured command once per seed, and renders
//! a human-readable summary of the results.

use vstd::prelude::*;

pub mod runner;
pub mod seeds;
pub mod summary;

pub use crate::runner::Config;
pub use crate::runner::RunOutcome;
pub use crate::runner::TestResult;
pub use crate::runner::TestSpec;
pub use crate::runner::collect_result;
pub use crate::runner::run_results;
pub use crate::seeds::generate_seeds;
pub use crate::seeds::seed_at;
pub use crate::summary::format_summary;

verus! {

/// Name of the environment variable through which the active seed is
/// handed to a spawned test command.
pub fn seed_env_var() -> (s: &'static str)
    ensures
        s@ == "DUST_SEED"@,
{
    "DUST_SEED"
}

} // verus!
