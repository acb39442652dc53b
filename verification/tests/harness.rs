use dusttest::Config;
use dusttest::RunOutcome;
use dusttest::TestSpec;
use dusttest::collect_result;
use dusttest::format_summary;
use dusttest::generate_seeds;
use dusttest::run_results;
use dusttest::seed_env_var;

// Seed sequences start at the supplied base and count up from it.
#[test]
fn seeds_generation() {
    let (base, seeds) = generate_seeds(Some(100), 5);
    assert_eq!(base, 100);
    assert_eq!(seeds, vec![100, 101, 102, 103, 104]);
}

// A count of zero yields no seeds and the supplied (or default) base.
#[test]
fn seeds_zero_count() {
    let (base, seeds) = generate_seeds(Some(7), 0);
    assert_eq!(base, 7);
    assert!(seeds.is_empty());
    let (base, seeds) = generate_seeds(None, 0);
    assert_eq!(base, 0);
    assert!(seeds.is_empty());
}

// Without an explicit base, the seeds still count up from whatever base
// was drawn.
#[test]
fn seeds_random_base() {
    let (base, seeds) = generate_seeds(None, 4);
    assert_eq!(seeds.len(), 4);
    for (i, &s) in seeds.iter().enumerate() {
        assert_eq!(s, base.wrapping_add(i as u64));
    }
}

// Seed generation wraps around the 64-bit boundary instead of faulting.
#[test]
fn seeds_wrap_around() {
    let (base, seeds) = generate_seeds(Some(u64::MAX), 3);
    assert_eq!(base, u64::MAX);
    assert_eq!(seeds, vec![u64::MAX, 0, 1]);
}

fn exited(success: bool, stdout: &str, stderr: &str) -> RunOutcome {
    RunOutcome::Exited {
        success,
        stdout: stdout.to_string(),
        stderr: stderr.to_string(),
    }
}

// A command that succeeds iff the seed equals 1, run under seeds [1, 2, 1]:
// two successes, three runs, seed 2 recorded as failing.
#[test]
fn tally_seed_sensitive_command() {
    let seeds: Vec<u64> = vec![1, 2, 1];
    let outcomes: Vec<RunOutcome> = seeds.iter().map(|&s| exited(s == 1, "", "")).collect();
    let name = String::from("dummy");
    let result = collect_result(&name, &seeds, &outcomes, false);
    assert_eq!(result.name, "dummy");
    assert_eq!(result.successes, 2);
    assert_eq!(result.total_runs, 3);
    assert_eq!(result.failing_seeds, vec![2]);
}

// Verbose mode retains one (seed, text) pair per run; non-verbose retains
// nothing. Stderr is appended on a fresh line only when non-empty.
#[test]
fn verbose_retains_outputs() {
    let seeds: Vec<u64> = vec![5, 6];
    let outcomes = vec![exited(true, "out", ""), exited(false, "out", "err")];
    let name = String::from("v");
    let verbose = collect_result(&name, &seeds, &outcomes, true);
    assert_eq!(verbose.outputs.len(), 2);
    assert_eq!(verbose.outputs[0], (5, "out".to_string()));
    assert_eq!(verbose.outputs[1], (6, "out\nerr".to_string()));
    let quiet = collect_result(&name, &seeds, &outcomes, false);
    assert_eq!(quiet.outputs.len(), 0);
}

// With no seeds there are no runs and no successes, and the summary
// reports the test as skipped.
#[test]
fn empty_seeds_skipped() {
    let seeds: Vec<u64> = Vec::new();
    let outcomes: Vec<RunOutcome> = Vec::new();
    let name = String::from("idle");
    let result = collect_result(&name, &seeds, &outcomes, true);
    assert_eq!(result.successes, 0);
    assert_eq!(result.total_runs, 0);
    assert!(result.failing_seeds.is_empty());
    assert!(result.outputs.is_empty());
    let summary = format_summary(&vec![result], 3);
    assert_eq!(
        summary,
        "Running 1 tests with base seed 3\nTest idle: SKIPPED (no seeds)\nAll tests passed!\n"
    );
}

// One result per test, in input order, named after its test.
#[test]
fn results_follow_test_order() {
    let tests = vec![
        TestSpec { name: "first".to_string(), cmd: "true".to_string() },
        TestSpec { name: "second".to_string(), cmd: "false".to_string() },
    ];
    let seeds: Vec<u64> = vec![10];
    let outcomes = vec![vec![exited(true, "", "")], vec![exited(false, "", "")]];
    let results = run_results(&tests, &seeds, &outcomes, false);
    assert_eq!(results.len(), 2);
    assert_eq!(results[0].name, "first");
    assert_eq!(results[1].name, "second");
    assert_eq!(results[0].successes, 1);
    assert_eq!(results[1].failing_seeds, vec![10]);
}

// A spawn failure marks every seed as failing and, when verbose,
// substitutes a diagnostic for the captured output.
#[test]
fn spawn_failure_fails_every_seed() {
    let seeds: Vec<u64> = vec![8, 9];
    let outcomes: Vec<RunOutcome> = seeds
        .iter()
        .map(|_| RunOutcome::SpawnFailed { error: "no such interpreter".to_string() })
        .collect();
    let name = String::from("broken");
    let result = collect_result(&name, &seeds, &outcomes, true);
    assert_eq!(result.successes, 0);
    assert_eq!(result.total_runs, 2);
    assert_eq!(result.failing_seeds, vec![8, 9]);
    assert_eq!(result.outputs.len(), 2);
    assert_eq!(
        result.outputs[0].1,
        "error invoking command: no such interpreter"
    );
}

// The summary reports an overall pass exactly when no test that ran had a
// failing seed, and lists the failing seeds of each test that did.
#[test]
fn summary_reports_overall_outcome() {
    let seeds: Vec<u64> = vec![1, 2, 1];
    let good = collect_result(
        &"good".to_string(),
        &seeds,
        &seeds.iter().map(|_| exited(true, "", "")).collect(),
        false,
    );
    let bad = collect_result(
        &"bad".to_string(),
        &seeds,
        &seeds.iter().map(|&s| exited(s == 1, "", "")).collect(),
        false,
    );
    let summary = format_summary(&vec![good, bad], 1);
    assert_eq!(
        summary,
        "Running 2 tests with base seed 1\n\
         Test good: pass on 3/3 seeds\n\
         Test bad: pass on 2/3 seeds (failures on seeds: [2])\n\
         Some tests failed.\n"
    );

    let all_good = collect_result(
        &"good".to_string(),
        &seeds,
        &seeds.iter().map(|_| exited(true, "", "")).collect(),
        false,
    );
    let summary = format_summary(&vec![all_good], 42);
    assert_eq!(
        summary,
        "Running 1 tests with base seed 42\nTest good: pass on 3/3 seeds\nAll tests passed!\n"
    );
}

// Several failing seeds are listed separated by commas, duplicates kept
// in invocation order.
#[test]
fn summary_lists_failing_seeds() {
    let seeds: Vec<u64> = vec![3, 4, 3];
    let outcomes: Vec<RunOutcome> = seeds.iter().map(|_| exited(false, "", "")).collect();
    let result = collect_result(&"flaky".to_string(), &seeds, &outcomes, false);
    assert_eq!(result.failing_seeds, vec![3, 4, 3]);
    let summary = format_summary(&vec![result], 3);
    assert_eq!(
        summary,
        "Running 1 tests with base seed 3\n\
         Test flaky: pass on 0/3 seeds (failures on seeds: [3, 4, 3])\n\
         Some tests failed.\n"
    );
}

// An empty run still gets a header and a vacuously passing closing line,
// with larger numbers rendered in full.
#[test]
fn summary_of_no_results() {
    let summary = format_summary(&Vec::new(), 12345);
    assert_eq!(
        summary,
        "Running 0 tests with base seed 12345\nAll tests passed!\n"
    );
    let summary = format_summary(&Vec::new(), u64::MAX);
    assert_eq!(
        summary,
        "Running 0 tests with base seed 18446744073709551615\nAll tests passed!\n"
    );
}

// The configuration holds the test list, and the seed variable name is a
// fixed contract.
#[test]
fn config_and_env_var() {
    let config = Config {
        tests: vec![TestSpec { name: "a".to_string(), cmd: "true".to_string() }],
    };
    assert_eq!(config.tests.len(), 1);
    assert_eq!(config.tests[0].cmd, "true");
    assert_eq!(seed_env_var(), "DUST_SEED");
}
