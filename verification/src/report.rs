//! The text of a run's report: one line per item, the failures, the summary.

use vstd::prelude::*;
use crate::item::{ItemView, WorkItem};
use crate::results::{ResultData, Tally, failure_views};
use crate::text::{decimal, push_decimal, push_signed_decimal, signed_decimal};
use crate::verdict::{BuildVerdict, VerdictView};

verus! {

/// How a run as a whole came out.
#[derive(Debug, Clone, Copy, PartialEq, Eq, Structural)]
pub enum RunOutcome {
    /// No item failed and the run was not cancelled.
    Passed,
    /// At least one item failed.
    Failed,
    /// No item failed, but the run was cancelled.
    Aborted,
}

/// The outcome of a run with this tally: a failure outweighs a
/// cancellation.
pub open spec fn outcome_of(tally: Tally, cancelled: bool) -> RunOutcome {
    if tally.failed > 0 {
        RunOutcome::Failed
    } else if cancelled {
        RunOutcome::Aborted
    } else {
        RunOutcome::Passed
    }
}

/// The word that the summary uses for an outcome.
pub open spec fn outcome_label(outcome: RunOutcome) -> Seq<char> {
    match outcome {
        RunOutcome::Passed => "PASS"@,
        RunOutcome::Failed => "FAILED"@,
        RunOutcome::Aborted => "ABORTED"@,
    }
}

/// The word that an item's line uses for its verdict.
pub open spec fn verdict_label(verdict: VerdictView) -> Seq<char> {
    match verdict {
        VerdictView::Pass => "ok"@,
        VerdictView::Fail(_) => "FAILED"@,
        VerdictView::Aborted => "ABORTED"@,
    }
}

/// The line that announces a run: one test for a single item, else about as
/// many as the feed has announced.
pub open spec fn banner(single: bool, announced: nat) -> Seq<char> {
    if single {
        "Running 1 test\n"@
    } else {
        "Running ~"@ + decimal(announced) + " tests\n"@
    }
}

/// The start of an item's line, written before the item is built.
pub open spec fn item_line_start(item: ItemView) -> Seq<char> {
    "test "@ + decimal(item.id as nat) + " ("@ + item.created_at + ") ... "@
}

/// An item's whole line, with `label` for its verdict.
pub open spec fn item_line(item: ItemView, label: Seq<char>) -> Seq<char> {
    item_line_start(item) + label + "\n"@
}

/// What the report says of one failure: a heading with the item's
/// identifier, then the compiler's diagnostic.
pub open spec fn failure_entry(failure: (u64, Seq<char>)) -> Seq<char> {
    "---- "@ + decimal(failure.0 as nat) + " stderr ----\n"@ + failure.1 + "\n"@
}

/// The entries of all failures, in the order in which they were recorded.
pub open spec fn failure_entries(failures: Seq<(u64, Seq<char>)>) -> Seq<char>
    decreases failures.len(),
{
    if failures.len() == 0 {
        Seq::empty()
    } else {
        failure_entries(failures.drop_last()) + failure_entry(failures.last())
    }
}

/// The line that lists one failing item.
pub open spec fn failure_id_line(failure: (u64, Seq<char>)) -> Seq<char> {
    "    "@ + decimal(failure.0 as nat) + "\n"@
}

/// The compact list of the failing items, one line each.
pub open spec fn failure_id_lines(failures: Seq<(u64, Seq<char>)>) -> Seq<char>
    decreases failures.len(),
{
    if failures.len() == 0 {
        Seq::empty()
    } else {
        failure_id_lines(failures.drop_last()) + failure_id_line(failures.last())
    }
}

/// The block of the report that tells of the failures: nothing if there are
/// none, else each failure with its diagnostic and then the list of the
/// failing items.
pub open spec fn failures_block(failures: Seq<(u64, Seq<char>)>) -> Seq<char> {
    if failures.len() == 0 {
        Seq::empty()
    } else {
        "\nfailures:\n\n"@ + failure_entries(failures) + "failures:\n"@ + failure_id_lines(failures)
    }
}

/// The end of the summary line: the count of aborted items if the run was
/// cancelled, then the line break.
pub open spec fn aborted_clause(tally: Tally, cancelled: bool) -> Seq<char> {
    if cancelled {
        "; "@ + signed_decimal(tally.aborted_remainder()) + " aborted\n"@
    } else {
        "\n"@
    }
}

/// The summary line, with `label` for the outcome.
pub open spec fn summary_line(tally: Tally, cancelled: bool, label: Seq<char>) -> Seq<char> {
    "\ntest result: "@ + label + ". "@ + decimal(tally.passed) + " passed; "@ + decimal(
        tally.failed,
    ) + " failed; "@ + decimal(tally.ignored) + " ignored"@ + aborted_clause(tally, cancelled)
}

/// The whole final report, with `label` for the outcome.
pub open spec fn report_text(tally: Tally, cancelled: bool, label: Seq<char>) -> Seq<char> {
    failures_block(tally.failures) + summary_line(tally, cancelled, label)
}

/// Whether `text` holds no escape character, so that no colour code can be
/// hidden in it.
pub open spec fn free_of_escapes(text: Seq<char>) -> bool {
    forall|i: int| 0 <= i < text.len() ==> #[trigger] text[i] != '\u{1b}'
}

/// Whether `painted` is what colouring may make of `text` in the colour
/// with code `code`. With colours switched off the text comes back as it is;
/// with colours switched on it comes back between the colour's code and the
/// reset code. The switch is read anew for each part, so if it is thrown
/// while the text is rendered the reset code may stand alone at the end.
pub open spec fn painted_as(painted: Seq<char>, text: Seq<char>, code: Seq<char>) -> bool {
    ||| painted == text
    ||| painted == "\u{1b}["@ + code + "m"@ + text + "\u{1b}[0m"@
    ||| painted == text + "\u{1b}[0m"@
}

/// The code of the colour in which an outcome is shown: green for a pass,
/// red for a failure, yellow for a cancelled run.
pub open spec fn outcome_colour(outcome: RunOutcome) -> Seq<char> {
    match outcome {
        RunOutcome::Passed => "32"@,
        RunOutcome::Failed => "31"@,
        RunOutcome::Aborted => "33"@,
    }
}

/// The code of the colour in which a verdict is shown: green for a pass,
/// red for a failure, yellow for an aborted attempt.
pub open spec fn verdict_colour(verdict: VerdictView) -> Seq<char> {
    match verdict {
        VerdictView::Pass => "32"@,
        VerdictView::Fail(_) => "31"@,
        VerdictView::Aborted => "33"@,
    }
}

/// `Colorize::red` of the `colored` crate, rendered to a string: the text
/// as it is, or with the codes for red around it, as the crate's switch
/// stands (see [`painted_as`]). Which of them comes back depends on the
/// terminal and the environment.
#[verifier::external_body]
fn paint_red(text: &str) -> (painted: String)
    requires
        free_of_escapes(text@),
    ensures
        painted_as(painted@, text@, "31"@),
{
    colored::Colorize::red(text).to_string()
}

/// `Colorize::yellow` of the `colored` crate, rendered to a string: the
/// text as it is, or with the codes for yellow around it, as the crate's
/// switch stands (see [`painted_as`]). Which of them comes back depends on the
/// terminal and the environment.
#[verifier::external_body]
fn paint_yellow(text: &str) -> (painted: String)
    requires
        free_of_escapes(text@),
    ensures
        painted_as(painted@, text@, "33"@),
{
    colored::Colorize::yellow(text).to_string()
}

/// `Colorize::green` of the `colored` crate, rendered to a string: the
/// text as it is, or with the codes for green around it, as the crate's
/// switch stands (see [`painted_as`]). Which of them comes back depends on the
/// terminal and the environment.
#[verifier::external_body]
fn paint_green(text: &str) -> (painted: String)
    requires
        free_of_escapes(text@),
    ensures
        painted_as(painted@, text@, "32"@),
{
    colored::Colorize::green(text).to_string()
}

/// Computes [`outcome_of`].
pub fn run_outcome(results: &ResultData, cancelled: bool) -> (outcome: RunOutcome)
    ensures
        outcome == outcome_of(results@, cancelled),
{
    if results.fail_count() > 0 {
        RunOutcome::Failed
    } else if cancelled {
        RunOutcome::Aborted
    } else {
        RunOutcome::Passed
    }
}

/// The plain word for an outcome.
pub fn outcome_word(outcome: RunOutcome) -> (word: &'static str)
    ensures
        word@ == outcome_label(outcome),
        free_of_escapes(word@),
{
    proof {
        reveal_strlit("PASS");
        reveal_strlit("FAILED");
        reveal_strlit("ABORTED");
    }
    match outcome {
        RunOutcome::Passed => "PASS",
        RunOutcome::Failed => "FAILED",
        RunOutcome::Aborted => "ABORTED",
    }
}

/// The plain word for a verdict.
pub fn verdict_word(verdict: &BuildVerdict) -> (word: &'static str)
    ensures
        word@ == verdict_label(verdict@),
        free_of_escapes(word@),
{
    proof {
        reveal_strlit("ok");
        reveal_strlit("FAILED");
        reveal_strlit("ABORTED");
    }
    match verdict {
        BuildVerdict::Pass => "ok",
        BuildVerdict::Fail(_) => "FAILED",
        BuildVerdict::Aborted => "ABORTED",
    }
}

/// Writes the line that announces a run.
pub fn write_banner(single: bool, announced: u64) -> (line: String)
    ensures
        line@ == banner(single, announced as nat),
{
    if single {
        String::from_str("Running 1 test\n")
    } else {
        let mut line = String::from_str("Running ~");
        push_decimal(&mut line, announced as u128);
        line.append(" tests\n");
        line
    }
}

/// Writes the start of an item's line.
pub fn write_item_line_start(item: &WorkItem) -> (line: String)
    ensures
        line@ == item_line_start(item@),
{
    let mut line = String::from_str("test ");
    push_decimal(&mut line, item.id as u128);
    line.append(" (");
    line.append(item.created_at.as_str());
    line.append(") ... ");
    line
}

/// Writes an item's whole line with the given word for its verdict.
pub fn write_item_line(item: &WorkItem, label: &str) -> (line: String)
    ensures
        line@ == item_line(item@, label@),
{
    let mut line = write_item_line_start(item);
    line.append(label);
    line.append("\n");
    line
}

/// Writes an item's whole line, the verdict in the colour that goes with it:
/// green for a pass, red for a failure, yellow for an aborted attempt. The
/// line is [`item_line`] around what the colouring made of the verdict's
/// word.
pub fn render_item_line(item: &WorkItem, verdict: &BuildVerdict) -> (line: String)
    ensures
        exists|label: Seq<char>|
            painted_as(label, verdict_label(verdict@), verdict_colour(verdict@)) && line@
                == item_line(item@, label),
{
    let word = verdict_word(verdict);
    let label = match verdict {
        BuildVerdict::Pass => paint_green(word),
        BuildVerdict::Fail(_) => paint_red(word),
        BuildVerdict::Aborted => paint_yellow(word),
    };
    write_item_line(item, label.as_str())
}

fn write_failures_block(out: &mut String, failures: &Vec<(u64, String)>)
    ensures
        final(out)@ == old(out)@ + failures_block(failure_views(failures@)),
{
    let ghost views = failure_views(failures@);
    if failures.len() == 0 {
        return ;
    }
    out.append("\nfailures:\n\n");
    let mut i: usize = 0;
    while i < failures.len()
        invariant
            i <= failures.len(),
            views == failure_views(failures@),
            out@ == old(out)@ + "\nfailures:\n\n"@ + failure_entries(views.take(i as int)),
        decreases failures.len() - i,
    {
        out.append("---- ");
        push_decimal(out, failures[i].0 as u128);
        out.append(" stderr ----\n");
        out.append(failures[i].1.as_str());
        out.append("\n");
        proof {
            assert(views.take(i + 1).drop_last() =~= views.take(i as int));
        }
        i = i + 1;
    }
    out.append("failures:\n");
    let ghost head = out@;
    let mut j: usize = 0;
    while j < failures.len()
        invariant
            j <= failures.len(),
            views == failure_views(failures@),
            out@ == head + failure_id_lines(views.take(j as int)),
        decreases failures.len() - j,
    {
        out.append("    ");
        push_decimal(out, failures[j].0 as u128);
        out.append("\n");
        proof {
            assert(views.take(j + 1).drop_last() =~= views.take(j as int));
        }
        j = j + 1;
    }
    assert(views.take(j as int) =~= views);
}

fn write_summary_line(out: &mut String, results: &ResultData, cancelled: bool, label: &str)
    ensures
        final(out)@ == old(out)@ + summary_line(results@, cancelled, label@),
{
    out.append("\ntest result: ");
    out.append(label);
    out.append(". ");
    push_decimal(out, results.pass_count() as u128);
    out.append(" passed; ");
    push_decimal(out, results.fail_count() as u128);
    out.append(" failed; ");
    push_decimal(out, results.ignore_count() as u128);
    out.append(" ignored");
    if cancelled {
        let settled: u128 = results.pass_count() as u128 + results.fail_count() as u128
            + results.ignore_count() as u128;
        let total: u128 = results.total_count() as u128;
        out.append("; ");
        if total >= settled {
            push_signed_decimal(out, false, total - settled);
        } else {
            push_signed_decimal(out, true, settled - total);
        }
        out.append(" aborted\n");
    } else {
        out.append("\n");
    }
}

/// Writes the final report with the given word for the outcome.
pub fn write_report(results: &ResultData, cancelled: bool, label: &str) -> (report: String)
    ensures
        report@ == report_text(results@, cancelled, label@),
{
    let mut report = String::new();
    write_failures_block(&mut report, results.failures());
    write_summary_line(&mut report, results, cancelled, label);
    report
}

/// Writes the final report in plain text: the failures, if there are any,
/// then the summary line with the outcome, the counts and, for a cancelled
/// run, the number of items that were expected and neither passed, failed nor
/// were ignored.
pub fn plain_report(results: &ResultData, cancelled: bool) -> (report: String)
    ensures
        report@ == report_text(
            results@,
            cancelled,
            outcome_label(outcome_of(results@, cancelled)),
        ),
{
    write_report(results, cancelled, outcome_word(run_outcome(results, cancelled)))
}

/// Writes the final report, the outcome in the colour that goes with it:
/// green for a pass, red for a failure, yellow for a cancelled run. The report
/// is [`report_text`] around what the colouring made of the outcome's word.
pub fn render_report(results: &ResultData, cancelled: bool) -> (report: String)
    ensures
        exists|label: Seq<char>|
            painted_as(
                label,
                outcome_label(outcome_of(results@, cancelled)),
                outcome_colour(outcome_of(results@, cancelled)),
            ) && report@ == report_text(results@, cancelled, label),
{
    let outcome = run_outcome(results, cancelled);
    let word = outcome_word(outcome);
    let label = match outcome {
        RunOutcome::Passed => paint_green(word),
        RunOutcome::Failed => paint_red(word),
        RunOutcome::Aborted => paint_yellow(word),
    };
    write_report(results, cancelled, label.as_str())
}

} // verus!
