//! Aggregation of per-seed command outcomes into per-test results.
//!
//! Spawning a subprocess is an effect the verifier cannot see, so the
//! caller performs each spawn and reports what happened as a
//! [`RunOutcome`]. Everything that follows the spawn — classifying the
//! outcome, combining the captured streams, tallying successes and
//! failing seeds — is verified here.

use vstd::prelude::*;
use vstd::string::StringExecFns;

verus! {

/// A test specification: a name and an opaque shell command string.
/// Names need not be unique.
#[derive(Debug, Clone)]
pub struct TestSpec {
    /// Name of the test.
    pub name: String,
    /// Shell command to run for this test.
    pub cmd: String,
}

/// Top-level configuration: the list of tests to run.
#[derive(Debug)]
pub struct Config {
    pub tests: Vec<TestSpec>,
}

/// What happened when one command was run under one seed.
#[derive(Debug)]
pub enum RunOutcome {
    /// The process ran to completion; `success` is whether it exited
    /// with code zero, and the two streams were captured separately.
    Exited { success: bool, stdout: String, stderr: String },
    /// The process could not even be spawned; `error` describes why.
    SpawnFailed { error: String },
}

/// Result of running a single test across multiple seeds.
#[derive(Debug)]
pub struct TestResult {
    pub name: String,
    pub successes: usize,
    pub total_runs: usize,
    pub failing_seeds: Vec<u64>,
    pub outputs: Vec<(u64, String)>,
}

/// An outcome counts as a pass exactly when the process ran and exited
/// with code zero; a spawn failure is a failure.
pub open spec fn outcome_passes(o: RunOutcome) -> bool {
    match o {
        RunOutcome::Exited { success, .. } => success,
        RunOutcome::SpawnFailed { .. } => false,
    }
}

/// The text retained for one run when verbose: stdout followed by stderr
/// if stderr is non-empty, else stdout alone; for a spawn failure, a
/// synthesized diagnostic.
pub open spec fn combined_output(o: RunOutcome) -> Seq<char> {
    match o {
        RunOutcome::Exited { success: _, stdout, stderr } => if stderr@.len() == 0 {
            stdout@
        } else {
            stdout@ + "\n"@ + stderr@
        },
        RunOutcome::SpawnFailed { error } => "error invoking command: "@ + error@,
    }
}

/// How many of the outcomes count as passes.
pub open spec fn success_count(os: Seq<RunOutcome>) -> int
    decreases os.len(),
{
    if os.len() == 0 {
        0
    } else {
        success_count(os.drop_last()) + if outcome_passes(os.last()) {
            1int
        } else {
            0int
        }
    }
}

/// The seeds whose outcome was a failure, in seed-invocation order;
/// a seed value appearing twice in `seeds` may appear twice here.
pub open spec fn failing_seeds_of(seeds: Seq<u64>, os: Seq<RunOutcome>) -> Seq<u64>
    decreases os.len(),
{
    if os.len() == 0 || seeds.len() != os.len() {
        Seq::empty()
    } else if outcome_passes(os.last()) {
        failing_seeds_of(seeds.drop_last(), os.drop_last())
    } else {
        failing_seeds_of(seeds.drop_last(), os.drop_last()).push(seeds.last())
    }
}

/// What a correct result for one test looks like, given the seeds it ran
/// under and the outcome of each run.
pub open spec fn result_matches(
    r: TestResult,
    name: Seq<char>,
    seeds: Seq<u64>,
    os: Seq<RunOutcome>,
    verbose: bool,
) -> bool {
    &&& r.name@ == name
    &&& r.total_runs == seeds.len()
    &&& r.successes == success_count(os)
    &&& r.failing_seeds@ == failing_seeds_of(seeds, os)
    &&& r.outputs@.len() == (if verbose {
        seeds.len()
    } else {
        0
    })
    &&& (verbose ==> forall|i: int|
        0 <= i < seeds.len() ==> (#[trigger] r.outputs@[i]).0 == seeds[i]
            && r.outputs@[i].1@ == combined_output(os[i]))
}

/// Combine the two captured streams into the retained text: stdout,
/// then stderr on a fresh line if stderr is non-empty.
fn combine_streams(stdout: &String, stderr: &String) -> (r: String)
    ensures
        r@ == (if stderr@.len() == 0 {
            stdout@
        } else {
            stdout@ + "\n"@ + stderr@
        }),
{
    if stderr.as_str().is_empty() {
        stdout.clone()
    } else {
        let mut r = stdout.clone();
        r.append("\n");
        r.append(stderr.as_str());
        r
    }
}

/// The text retained for one run, as [`combined_output`] describes it.
fn render_outcome(o: &RunOutcome) -> (r: String)
    ensures
        r@ == combined_output(*o),
{
    match o {
        RunOutcome::Exited { success: _, stdout, stderr } => combine_streams(stdout, stderr),
        RunOutcome::SpawnFailed { error } => {
            let mut r = "error invoking command: ".to_owned();
            r.append(error.as_str());
            r
        },
    }
}

/// Aggregate the outcomes of one test's runs into its result.
///
/// `outcomes[k]` is what happened when the command ran under `seeds[k]`.
/// Successes are tallied, failing seeds recorded in invocation order,
/// and per-run text retained only when `verbose`.
pub fn collect_result(name: &String, seeds: &Vec<u64>, outcomes: &Vec<RunOutcome>, verbose: bool) -> (r:
    TestResult)
    requires
        outcomes@.len() == seeds@.len(),
    ensures
        result_matches(r, name@, seeds@, outcomes@, verbose),
{
    let n = seeds.len();
    let mut successes: usize = 0;
    let mut failing_seeds: Vec<u64> = Vec::new();
    let mut outputs: Vec<(u64, String)> = Vec::new();
    let mut k: usize = 0;
    while k < n
        invariant
            n == seeds@.len(),
            outcomes@.len() == seeds@.len(),
            k <= n,
            successes <= k,
            successes == success_count(outcomes@.take(k as int)),
            failing_seeds@ == failing_seeds_of(seeds@.take(k as int), outcomes@.take(k as int)),
            outputs@.len() == (if verbose {
                k as int
            } else {
                0
            }),
            verbose ==> forall|i: int|
                0 <= i < k ==> (#[trigger] outputs@[i]).0 == seeds@[i]
                    && outputs@[i].1@ == combined_output(outcomes@[i]),
        decreases n - k,
    {
        let o = &outcomes[k];
        proof {
            assert(outcomes@.take(k + 1).drop_last() =~= outcomes@.take(k as int));
            assert(seeds@.take(k + 1).drop_last() =~= seeds@.take(k as int));
            assert(outcomes@.take(k + 1).last() == outcomes@[k as int]);
            assert(seeds@.take(k + 1).last() == seeds@[k as int]);
        }
        let passed = match o {
            RunOutcome::Exited { success, .. } => *success,
            RunOutcome::SpawnFailed { .. } => false,
        };
        if passed {
            successes = successes + 1;
        } else {
            failing_seeds.push(seeds[k]);
        }
        if verbose {
            outputs.push((seeds[k], render_outcome(o)));
        }
        k = k + 1;
    }
    proof {
        assert(outcomes@.take(n as int) =~= outcomes@);
        assert(seeds@.take(n as int) =~= seeds@);
    }
    TestResult { name: name.clone(), successes, total_runs: n, failing_seeds, outputs }
}

/// Aggregate a whole run: one result per test, in input order, each
/// built from that test's row of outcomes.
pub fn run_results(
    tests: &Vec<TestSpec>,
    seeds: &Vec<u64>,
    outcomes: &Vec<Vec<RunOutcome>>,
    verbose: bool,
) -> (rs: Vec<TestResult>)
    requires
        outcomes@.len() == tests@.len(),
        forall|t: int| 0 <= t < tests@.len() ==> (#[trigger] outcomes@[t])@.len() == seeds@.len(),
    ensures
        rs@.len() == tests@.len(),
        forall|t: int|
            0 <= t < tests@.len() ==> result_matches(
                #[trigger] rs@[t],
                tests@[t].name@,
                seeds@,
                outcomes@[t]@,
                verbose,
            ),
{
    let mut rs: Vec<TestResult> = Vec::new();
    let mut t: usize = 0;
    while t < tests.len()
        invariant
            outcomes@.len() == tests@.len(),
            forall|j: int| 0 <= j < tests@.len() ==> (#[trigger] outcomes@[j])@.len() == seeds@.len(),
            t <= tests@.len(),
            rs@.len() == t,
            forall|j: int|
                0 <= j < t ==> result_matches(
                    #[trigger] rs@[j],
                    tests@[j].name@,
                    seeds@,
                    outcomes@[j]@,
                    verbose,
                ),
        decreases tests@.len() - t,
    {
        let r = collect_result(&tests[t].name, seeds, &outcomes[t], verbose);
        rs.push(r);
        t = t + 1;
    }
    rs
}

proof fn lemma_spawn_failures_all_fail(seeds: Seq<u64>, os: Seq<RunOutcome>)
    requires
        os.len() == seeds.len(),
        forall|i: int| 0 <= i < os.len() ==> (#[trigger] os[i]) is SpawnFailed,
    ensures
        failing_seeds_of(seeds, os) == seeds,
        success_count(os) == 0,
    decreases os.len(),
{
    if os.len() == 0 {
        assert(failing_seeds_of(seeds, os) =~= seeds);
    } else {
        lemma_spawn_failures_all_fail(seeds.drop_last(), os.drop_last());
        assert(failing_seeds_of(seeds, os) =~= seeds);
    }
}

/// When every run of a test failed to spawn, every one of its seeds is a
/// failing seed, in order, no run counts as a success, and in verbose
/// mode each retained text is the synthesized diagnostic.
pub proof fn lemma_spawn_failures_fail_every_seed(
    r: TestResult,
    name: Seq<char>,
    seeds: Seq<u64>,
    os: Seq<RunOutcome>,
    verbose: bool,
)
    requires
        result_matches(r, name, seeds, os, verbose),
        os.len() == seeds.len(),
        forall|i: int| 0 <= i < os.len() ==> (#[trigger] os[i]) is SpawnFailed,
    ensures
        r.failing_seeds@ == seeds,
        r.successes == 0,
        verbose ==> forall|i: int|
            0 <= i < seeds.len() ==> ((#[trigger] os[i]) matches RunOutcome::SpawnFailed { error }
                && r.outputs@[i].1@ == "error invoking command: "@ + error@),
{
    lemma_spawn_failures_all_fail(seeds, os);
}

} // verus!
