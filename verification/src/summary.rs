//! Rendering of test results as human-readable summary text.
//!
//! The whole summary string is pinned down character by character:
//! numbers are printed through a verified decimal formatter, and the
//! closing line reflects whether any test had a failing seed.

use vstd::prelude::*;
use vstd::string::StringExecFns;

use crate::runner::RunOutcome;
use crate::runner::TestResult;
use crate::runner::result_matches;

verus! {

/// The character for one decimal digit.
pub open spec fn dec_digit(d: int) -> char {
    if d == 0 {
        '0'
    } else if d == 1 {
        '1'
    } else if d == 2 {
        '2'
    } else if d == 3 {
        '3'
    } else if d == 4 {
        '4'
    } else if d == 5 {
        '5'
    } else if d == 6 {
        '6'
    } else if d == 7 {
        '7'
    } else if d == 8 {
        '8'
    } else {
        '9'
    }
}

/// The decimal rendering of a non-negative integer, without leading
/// zeros (a single zero for 0).
pub open spec fn dec_str(n: int) -> Seq<char>
    decreases n,
{
    if n < 10 {
        seq![dec_digit(n)]
    } else {
        dec_str(n / 10).push(dec_digit(n % 10))
    }
}

/// The one-character string for a decimal digit.
fn digit_str(d: u64) -> (s: &'static str)
    requires
        d < 10,
    ensures
        s@ == seq![dec_digit(d as int)],
{
    proof {
        reveal_strlit("0");
        reveal_strlit("1");
        reveal_strlit("2");
        reveal_strlit("3");
        reveal_strlit("4");
        reveal_strlit("5");
        reveal_strlit("6");
        reveal_strlit("7");
        reveal_strlit("8");
        reveal_strlit("9");
    }
    let s: &'static str = if d == 0 {
        "0"
    } else if d == 1 {
        "1"
    } else if d == 2 {
        "2"
    } else if d == 3 {
        "3"
    } else if d == 4 {
        "4"
    } else if d == 5 {
        "5"
    } else if d == 6 {
        "6"
    } else if d == 7 {
        "7"
    } else if d == 8 {
        "8"
    } else {
        "9"
    };
    proof {
        assert(s@ =~= seq![dec_digit(d as int)]);
    }
    s
}

/// Render an integer in decimal.
pub fn u64_to_string(n: u64) -> (s: String)
    ensures
        s@ == dec_str(n as int),
    decreases n,
{
    if n < 10 {
        digit_str(n).to_owned()
    } else {
        let mut s = u64_to_string(n / 10);
        s.append(digit_str(n % 10));
        s
    }
}

/// The seed values separated by `", "`.
pub open spec fn seeds_list_str(seeds: Seq<u64>) -> Seq<char>
    decreases seeds.len(),
{
    if seeds.len() == 0 {
        Seq::empty()
    } else if seeds.len() == 1 {
        dec_str(seeds[0] as int)
    } else {
        seeds_list_str(seeds.drop_last()) + ", "@ + dec_str(seeds.last() as int)
    }
}

/// The seed list between brackets, as the summary prints it.
pub open spec fn seeds_debug_str(seeds: Seq<u64>) -> Seq<char> {
    "["@ + seeds_list_str(seeds) + "]"@
}

/// The summary line for one test: skipped when it ran under no seed,
/// otherwise its pass ratio, with the failing seeds when there are any.
pub open spec fn result_line(r: TestResult) -> Seq<char> {
    if r.total_runs == 0 {
        "Test "@ + r.name@ + ": SKIPPED (no seeds)\n"@
    } else if r.failing_seeds@.len() == 0 {
        "Test "@ + r.name@ + ": pass on "@ + dec_str(r.successes as int) + "/"@ + dec_str(
            r.total_runs as int,
        ) + " seeds\n"@
    } else {
        "Test "@ + r.name@ + ": pass on "@ + dec_str(r.successes as int) + "/"@ + dec_str(
            r.total_runs as int,
        ) + " seeds (failures on seeds: "@ + seeds_debug_str(r.failing_seeds@) + ")\n"@
    }
}

/// The per-test lines, in result order.
pub open spec fn results_lines(results: Seq<TestResult>) -> Seq<char>
    decreases results.len(),
{
    if results.len() == 0 {
        Seq::empty()
    } else {
        results_lines(results.drop_last()) + result_line(results.last())
    }
}

/// A result blocks the overall pass when it actually ran and had
/// a failing seed; a result with zero runs never blocks it.
pub open spec fn blocks_pass(r: TestResult) -> bool {
    r.total_runs != 0 && r.failing_seeds@.len() != 0
}

/// The run passes overall when no result blocks it.
pub open spec fn all_pass(results: Seq<TestResult>) -> bool {
    forall|i: int| 0 <= i < results.len() ==> !blocks_pass(#[trigger] results[i])
}

/// The summary's opening line.
pub open spec fn header_line(n_results: int, base_seed: u64) -> Seq<char> {
    "Running "@ + dec_str(n_results) + " tests with base seed "@ + dec_str(base_seed as int)
        + "\n"@
}

/// The summary's closing line.
pub open spec fn closing_line(pass: bool) -> Seq<char> {
    if pass {
        "All tests passed!\n"@
    } else {
        "Some tests failed.\n"@
    }
}

/// The whole summary text.
pub open spec fn summary_text(results: Seq<TestResult>, base_seed: u64) -> Seq<char> {
    header_line(results.len() as int, base_seed) + results_lines(results) + closing_line(
        all_pass(results),
    )
}

/// The failing seeds between brackets, separated by `", "`.
fn seeds_debug_string(seeds: &Vec<u64>) -> (s: String)
    ensures
        s@ == seeds_debug_str(seeds@),
{
    let mut s = "[".to_owned();
    let mut i: usize = 0;
    while i < seeds.len()
        invariant
            i <= seeds@.len(),
            s@ == "["@ + seeds_list_str(seeds@.take(i as int)),
        decreases seeds@.len() - i,
    {
        proof {
            assert(seeds@.take(i + 1).drop_last() =~= seeds@.take(i as int));
            assert(seeds@.take(i + 1).last() == seeds@[i as int]);
        }
        if i > 0 {
            s.append(", ");
        }
        let d = u64_to_string(seeds[i]);
        s.append(d.as_str());
        proof {
            assert(s@ =~= "["@ + seeds_list_str(seeds@.take(i + 1)));
        }
        i = i + 1;
    }
    proof {
        assert(seeds@.take(seeds@.len() as int) =~= seeds@);
    }
    s.append("]");
    proof {
        assert(s@ =~= seeds_debug_str(seeds@));
    }
    s
}

/// Format the summary of test results into a human readable string,
/// exactly as [`summary_text`] describes it.
pub fn format_summary(results: &Vec<TestResult>, base_seed: u64) -> (summary: String)
    ensures
        summary@ == summary_text(results@, base_seed),
{
    let mut summary = "Running ".to_owned();
    let n = u64_to_string(results.len() as u64);
    summary.append(n.as_str());
    summary.append(" tests with base seed ");
    let b = u64_to_string(base_seed);
    summary.append(b.as_str());
    summary.append("\n");
    proof {
        assert(summary@ =~= header_line(results@.len() as int, base_seed));
    }
    let mut all_ok = true;
    let mut i: usize = 0;
    while i < results.len()
        invariant
            i <= results@.len(),
            summary@ == header_line(results@.len() as int, base_seed) + results_lines(
                results@.take(i as int),
            ),
            all_ok == all_pass(results@.take(i as int)),
        decreases results@.len() - i,
    {
        proof {
            assert(results@.take(i + 1).drop_last() =~= results@.take(i as int));
            assert(results@.take(i + 1).last() == results@[i as int]);
        }
        let r = &results[i];
        summary.append("Test ");
        summary.append(r.name.as_str());
        if r.total_runs == 0 {
            summary.append(": SKIPPED (no seeds)\n");
        } else {
            summary.append(": pass on ");
            let sc = u64_to_string(r.successes as u64);
            summary.append(sc.as_str());
            summary.append("/");
            let tr = u64_to_string(r.total_runs as u64);
            summary.append(tr.as_str());
            if r.failing_seeds.len() == 0 {
                summary.append(" seeds\n");
            } else {
                all_ok = false;
                summary.append(" seeds (failures on seeds: ");
                let fs = seeds_debug_string(&r.failing_seeds);
                summary.append(fs.as_str());
                summary.append(")\n");
            }
        }
        proof {
            assert(summary@ =~= header_line(results@.len() as int, base_seed) + results_lines(
                results@.take(i + 1),
            ));
            assert(all_pass(results@.take(i + 1)) == (all_pass(results@.take(i as int)) && !blocks_pass(
                results@[i as int],
            ))) by {
                if all_pass(results@.take(i as int)) && !blocks_pass(results@[i as int]) {
                    assert forall|j: int| 0 <= j < i + 1 implies !blocks_pass(
                        #[trigger] results@.take(i + 1)[j],
                    ) by {
                        if j < i {
                            assert(results@.take(i + 1)[j] == results@.take(i as int)[j]);
                        }
                    }
                }
            }
        }
        i = i + 1;
    }
    proof {
        assert(results@.take(results@.len() as int) =~= results@);
    }
    if all_ok {
        summary.append("All tests passed!\n");
    } else {
        summary.append("Some tests failed.\n");
    }
    proof {
        assert(summary@ =~= summary_text(results@, base_seed));
    }
    summary
}

/// A test that ran under no seed counts no runs and no successes, and its
/// summary line reports it as skipped.
pub proof fn lemma_empty_seeds_skipped(
    r: TestResult,
    name: Seq<char>,
    os: Seq<RunOutcome>,
    verbose: bool,
)
    requires
        result_matches(r, name, Seq::<u64>::empty(), os, verbose),
        os.len() == 0,
    ensures
        r.successes == 0,
        r.total_runs == 0,
        r.failing_seeds@ == Seq::<u64>::empty(),
        result_line(r) == "Test "@ + name + ": SKIPPED (no seeds)\n"@,
{
    assert(r.failing_seeds@ =~= Seq::<u64>::empty());
}

/// The summary's closing line reports an overall pass exactly when no
/// result that ran had a failing seed, and an overall failure otherwise.
pub proof fn lemma_summary_closing_line(results: Seq<TestResult>, base_seed: u64)
    ensures
        all_pass(results) <==> "All tests passed!\n"@.is_suffix_of(
            summary_text(results, base_seed),
        ),
        !all_pass(results) <==> "Some tests failed.\n"@.is_suffix_of(
            summary_text(results, base_seed),
        ),
{
    reveal_strlit("All tests passed!\n");
    reveal_strlit("Some tests failed.\n");
    let t = summary_text(results, base_seed);
    let p = header_line(results.len() as int, base_seed) + results_lines(results);
    let v = closing_line(all_pass(results));
    assert(t =~= p + v);
    assert(v.is_suffix_of(t)) by {
        assert(v =~= t.subrange(t.len() - v.len(), t.len() as int));
    }
    assert(t[p.len() as int] == v[0]);
    if all_pass(results) {
        if "Some tests failed.\n"@.is_suffix_of(t) {
            assert("Some tests failed.\n"@[1] == t[t.len() - 18]);
            assert(t[t.len() - 18] == v[0]);
            assert(false);
        }
    } else {
        if "All tests passed!\n"@.is_suffix_of(t) {
            assert("All tests passed!\n"@[0] == t[t.len() - 18]);
            assert(t[t.len() - 18] == v[1]);
            assert(false);
        }
    }
}

} // verus!
