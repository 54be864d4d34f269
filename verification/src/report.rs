//! What a run amounts to: the counts, the exit code and the lines of the
//! console report.

use vstd::prelude::*;
use crate::model::{
    borrowed_checks_view, failed_among, ValidationCheckView, ValidationResult,
    ValidationResultView,
};
use crate::orchestrator::results_view;

verus! {

/// The results that passed, in their order.
pub open spec fn passed_among(results: Seq<ValidationResultView>) -> Seq<ValidationResultView> {
    results.filter(|r: ValidationResultView| r.passed)
}

/// The results that did not pass, in their order.
pub open spec fn failures_among(results: Seq<ValidationResultView>) -> Seq<ValidationResultView> {
    results.filter(|r: ValidationResultView| !r.passed)
}

/// The text of one decimal digit.
pub open spec fn digit_text(d: nat) -> Seq<char> {
    if d == 0 {
        "0"@
    } else if d == 1 {
        "1"@
    } else if d == 2 {
        "2"@
    } else if d == 3 {
        "3"@
    } else if d == 4 {
        "4"@
    } else if d == 5 {
        "5"@
    } else if d == 6 {
        "6"@
    } else if d == 7 {
        "7"@
    } else if d == 8 {
        "8"@
    } else {
        "9"@
    }
}

/// A number in decimal, without leading zeros.
pub open spec fn decimal_text(n: nat) -> Seq<char>
    decreases n,
{
    if n < 10 {
        digit_text(n)
    } else {
        decimal_text(n / 10) + digit_text(n % 10)
    }
}

/// A text written `times` times in a row.
pub open spec fn repeated_text(unit: Seq<char>, times: nat) -> Seq<char>
    decreases times,
{
    if times == 0 {
        Seq::empty()
    } else {
        repeated_text(unit, (times - 1) as nat) + unit
    }
}

/// The summary line: how many of the validated atoms passed.
pub open spec fn summary_text(passed: nat, total: nat) -> Seq<char> {
    "CVXRUST Validation Results: "@ + decimal_text(passed) + "/"@ + decimal_text(total)
        + " atoms passed"@
}

/// The line that reports one failing check.
pub open spec fn failure_text(check: ValidationCheckView) -> Seq<char> {
    "    FAIL "@ + check.name + ": "@ + check.message
}

/// One line for each of the given checks.
pub open spec fn failure_texts(checks: Seq<ValidationCheckView>) -> Seq<Seq<char>> {
    checks.map_values(|c: ValidationCheckView| failure_text(c))
}

/// The lines for one failing atom: an empty line, the atom's name, and one
/// line for each of its failing checks.
pub open spec fn failure_block(result: ValidationResultView) -> Seq<Seq<char>> {
    seq![Seq::empty(), "  "@ + result.atom_name + ":"@] + failure_texts(
        failed_among(result.checks),
    )
}

/// The blocks of the failing atoms, in the order of the results.
pub open spec fn failure_lines(results: Seq<ValidationResultView>) -> Seq<Seq<char>>
    decreases results.len(),
{
    if results.len() == 0 {
        Seq::empty()
    } else if results.last().passed {
        failure_lines(results.drop_last())
    } else {
        failure_lines(results.drop_last()) + failure_block(results.last())
    }
}

/// One line with the name of each passing atom, in the order of the
/// results.
pub open spec fn passed_lines(results: Seq<ValidationResultView>) -> Seq<Seq<char>>
    decreases results.len(),
{
    if results.len() == 0 {
        Seq::empty()
    } else if results.last().passed {
        passed_lines(results.drop_last()).push("  "@ + results.last().atom_name)
    } else {
        passed_lines(results.drop_last())
    }
}

/// The head of the report: the summary line between two rules.
pub open spec fn header_lines(results: Seq<ValidationResultView>) -> Seq<Seq<char>> {
    seq![
        Seq::empty(),
        repeated_text("="@, 60),
        summary_text(passed_among(results).len(), results.len()),
        repeated_text("="@, 60),
        Seq::empty(),
    ]
}

/// The section of the failing atoms; it is left out where none failed.
pub open spec fn failures_section(results: Seq<ValidationResultView>) -> Seq<Seq<char>> {
    if failures_among(results).len() == 0 {
        Seq::empty()
    } else {
        seq!["FAILURES:"@, repeated_text("-"@, 40)] + failure_lines(results)
    }
}

/// The section of the passing atoms; it is left out where none passed.
pub open spec fn passed_section(results: Seq<ValidationResultView>) -> Seq<Seq<char>> {
    if passed_among(results).len() == 0 {
        Seq::empty()
    } else {
        seq![
            Seq::empty(),
            "PASSED ("@ + decimal_text(passed_among(results).len()) + "):"@,
            repeated_text("-"@, 40),
        ] + passed_lines(results)
    }
}

/// The console report, line by line: the head, the failures, the passing
/// atoms, and an empty line at the end.
pub open spec fn report_text(results: Seq<ValidationResultView>) -> Seq<Seq<char>> {
    header_lines(results) + failures_section(results) + passed_section(results) + seq![
        Seq::empty(),
    ]
}

/// The lines of a list by their values.
pub open spec fn lines_view(lines: Seq<String>) -> Seq<Seq<char>> {
    lines.map_values(|l: String| l@)
}

/// The number of atoms that passed.
pub fn count_passed(results: &Vec<ValidationResult>) -> (count: usize)
    ensures
        count == passed_among(results_view(results@)).len(),
        count <= results.len(),
{
    let ghost all = results_view(results@);
    let mut count: usize = 0;
    let mut i: usize = 0;
    while i < results.len()
        invariant
            i <= results.len(),
            all == results_view(results@),
            count <= i,
            count == passed_among(all.take(i as int)).len(),
        decreases results.len() - i,
    {
        proof {
            let next = all.take(i + 1);
            assert(next.drop_last() == all.take(i as int));
            assert(next.last() == results[i as int]@);
            reveal(Seq::filter);
        }
        if results[i].passed {
            count += 1;
        }
        i += 1;
    }
    assert(all.take(i as int) == all);
    count
}

/// The number of atoms that failed.
pub fn count_failed(results: &Vec<ValidationResult>) -> (count: usize)
    ensures
        count == failures_among(results_view(results@)).len(),
        count <= results.len(),
{
    let ghost all = results_view(results@);
    let mut count: usize = 0;
    let mut i: usize = 0;
    while i < results.len()
        invariant
            i <= results.len(),
            all == results_view(results@),
            count <= i,
            count == failures_among(all.take(i as int)).len(),
        decreases results.len() - i,
    {
        proof {
            let next = all.take(i + 1);
            assert(next.drop_last() == all.take(i as int));
            assert(next.last() == results[i as int]@);
            reveal(Seq::filter);
        }
        if !results[i].passed {
            count += 1;
        }
        i += 1;
    }
    assert(all.take(i as int) == all);
    count
}

/// The exit code of a run: the number of failed atoms, cut to the width of
/// the code. It is zero where every atom passed, and it is the number
/// itself wherever that fits.
pub fn exit_code(results: &Vec<ValidationResult>) -> (code: i32)
    ensures
        code == failures_among(results_view(results@)).len() as i32,
        failures_among(results_view(results@)).len() <= i32::MAX ==> code == failures_among(
            results_view(results@),
        ).len(),
{
    let failures = count_failed(results);
    #[verifier::truncate]
    (failures as i32)
}

fn digit_str(d: usize) -> (text: &'static str)
    requires
        d < 10,
    ensures
        text@ == digit_text(d as nat),
{
    if d == 0 {
        "0"
    } else if d == 1 {
        "1"
    } else if d == 2 {
        "2"
    } else if d == 3 {
        "3"
    } else if d == 4 {
        "4"
    } else if d == 5 {
        "5"
    } else if d == 6 {
        "6"
    } else if d == 7 {
        "7"
    } else if d == 8 {
        "8"
    } else {
        "9"
    }
}

/// Writes a number in decimal.
pub fn decimal(n: usize) -> (text: String)
    ensures
        text@ == decimal_text(n as nat),
    decreases n,
{
    if n < 10 {
        String::from_str(digit_str(n))
    } else {
        let mut text = decimal(n / 10);
        text.append(digit_str(n % 10));
        text
    }
}

/// Writes a text `times` times in a row.
pub fn repeated(unit: &str, times: usize) -> (text: String)
    ensures
        text@ == repeated_text(unit@, times as nat),
{
    let mut text = String::new();
    let mut i: usize = 0;
    while i < times
        invariant
            i <= times,
            text@ == repeated_text(unit@, i as nat),
        decreases times - i,
    {
        text.append(unit);
        i += 1;
    }
    text
}

/// The summary line for the given counts.
pub fn summary_line(passed: usize, total: usize) -> (line: String)
    ensures
        line@ == summary_text(passed as nat, total as nat),
{
    let mut line = String::from_str("CVXRUST Validation Results: ");
    line.append(decimal(passed).as_str());
    line.append("/");
    line.append(decimal(total).as_str());
    line.append(" atoms passed");
    line
}

fn push_line(lines: &mut Vec<String>, line: String)
    ensures
        lines_view(final(lines)@) == lines_view(old(lines)@).push(line@),
{
    lines.push(line);
    assert(lines_view(lines@) =~= lines_view(old(lines)@).push(line@));
}

fn push_failure_block(lines: &mut Vec<String>, result: &ValidationResult)
    ensures
        lines_view(final(lines)@) == lines_view(old(lines)@) + failure_block(result@),
{
    let ghost base = lines_view(lines@);
    push_line(lines, String::new());
    let mut title = String::from_str("  ");
    title.append(result.atom_name.as_str());
    title.append(":");
    push_line(lines, title);
    let failed = result.failed_checks();
    let ghost failed_views = failed_among(result@.checks);
    let ghost head = base + seq![Seq::<char>::empty(), "  "@ + result@.atom_name + ":"@];
    assert(lines_view(lines@) =~= head);
    let mut i: usize = 0;
    while i < failed.len()
        invariant
            i <= failed.len(),
            borrowed_checks_view(failed@) == failed_views,
            lines_view(lines@) == head + failure_texts(failed_views.take(i as int)),
        decreases failed.len() - i,
    {
        let check = failed[i];
        let mut line = String::from_str("    FAIL ");
        line.append(check.name.as_str());
        line.append(": ");
        line.append(check.message.as_str());
        push_line(lines, line);
        proof {
            assert(failed_views[i as int] == borrowed_checks_view(failed@)[i as int]);
            assert(failed_views[i as int] == check@);
            assert(failed_views.take(i + 1) =~= failed_views.take(i as int).push(check@));
            assert(failure_texts(failed_views.take(i + 1)) =~= failure_texts(
                failed_views.take(i as int),
            ).push(failure_text(check@)));
            assert(lines_view(lines@) =~= head + failure_texts(failed_views.take(i + 1)));
        }
        i += 1;
    }
    proof {
        assert(failed_views.take(i as int) == failed_views);
        assert(head + failure_texts(failed_views) =~= base + failure_block(result@));
    }
}

/// The console report of a run, line by line. Each line is to be printed
/// followed by a line break.
pub fn report_lines(results: &Vec<ValidationResult>) -> (lines: Vec<String>)
    ensures
        lines_view(lines@) == report_text(results_view(results@)),
{
    let ghost all = results_view(results@);
    let passed = count_passed(results);
    let failed = count_failed(results);
    let mut lines: Vec<String> = Vec::new();
    push_line(&mut lines, String::new());
    push_line(&mut lines, repeated("=", 60));
    push_line(&mut lines, summary_line(passed, results.len()));
    push_line(&mut lines, repeated("=", 60));
    push_line(&mut lines, String::new());
    assert(lines_view(lines@) =~= header_lines(all));

    if failed > 0 {
        push_line(&mut lines, String::from_str("FAILURES:"));
        push_line(&mut lines, repeated("-", 40));
        let ghost head = lines_view(lines@);
        let mut i: usize = 0;
        while i < results.len()
            invariant
                i <= results.len(),
                all == results_view(results@),
                lines_view(lines@) == head + failure_lines(all.take(i as int)),
            decreases results.len() - i,
        {
            proof {
                let next = all.take(i + 1);
                assert(next.drop_last() == all.take(i as int));
                assert(next.last() == results[i as int]@);
            }
            if !results[i].passed {
                push_failure_block(&mut lines, &results[i]);
                assert(lines_view(lines@) =~= head + failure_lines(all.take(i + 1)));
            }
            i += 1;
        }
        assert(all.take(i as int) == all);
        assert(lines_view(lines@) =~= header_lines(all) + failures_section(all));
    }
    assert(lines_view(lines@) == header_lines(all) + failures_section(all));

    if passed > 0 {
        let ghost before = lines_view(lines@);
        push_line(&mut lines, String::new());
        let mut title = String::from_str("PASSED (");
        title.append(decimal(passed).as_str());
        title.append("):");
        push_line(&mut lines, title);
        push_line(&mut lines, repeated("-", 40));
        let ghost head = lines_view(lines@);
        let mut i: usize = 0;
        while i < results.len()
            invariant
                i <= results.len(),
                all == results_view(results@),
                lines_view(lines@) == head + passed_lines(all.take(i as int)),
            decreases results.len() - i,
        {
            proof {
                let next = all.take(i + 1);
                assert(next.drop_last() == all.take(i as int));
                assert(next.last() == results[i as int]@);
            }
            if results[i].passed {
                let mut line = String::from_str("  ");
                line.append(results[i].atom_name.as_str());
                push_line(&mut lines, line);
                assert(lines_view(lines@) =~= head + passed_lines(all.take(i + 1)));
            }
            i += 1;
        }
        assert(all.take(i as int) == all);
        assert(lines_view(lines@) =~= before + passed_section(all));
    }
    assert(lines_view(lines@) == header_lines(all) + failures_section(all) + passed_section(all));
    push_line(&mut lines, String::new());
    assert(lines_view(lines@) =~= report_text(all));
    lines
}

/// Every result of a run is counted once: as passed or as failed.
pub proof fn lemma_counts_add_up(results: Seq<ValidationResultView>)
    ensures
        passed_among(results).len() + failures_among(results).len() == results.len(),
    decreases results.len(),
{
    reveal(Seq::filter);
    if results.len() > 0 {
        lemma_counts_add_up(results.drop_last());
    }
}

} // verus!
