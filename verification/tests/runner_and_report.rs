use snippet_harness::item::WorkItem;
use snippet_harness::report::{
    outcome_word, plain_report, run_outcome, verdict_word, write_banner, write_item_line,
    write_item_line_start, write_report, RunOutcome,
};
use snippet_harness::results::ResultData;
use snippet_harness::runner::{
    artifact_paths, cleanup_order, compiler_arguments, determine_verdict, judge_removal,
    normalize_source, plan_build, verdict_of_output, Artifact, BuildOutput, CleanupError,
    Removal, INTERRUPT_EXIT_CODE,
};
use snippet_harness::verdict::BuildVerdict;

fn item(id: u64, text: &str) -> WorkItem {
    WorkItem {
        id,
        text: String::from(text),
        created_at: String::from("2015-03-07 20:39:51 UTC"),
        author: Some(String::from("everyrust")),
    }
}

fn tally(pass: u64, fail: &[(u64, &str)], ignored: u64, total: u64) -> ResultData {
    let mut r = ResultData::new();
    r.set_total(total);
    for _ in 0..pass {
        r.record(1, BuildVerdict::Pass);
    }
    for (id, diagnostic) in fail {
        r.record(*id, BuildVerdict::Fail(String::from(*diagnostic)));
    }
    for _ in 0..ignored {
        r.record_ignored();
    }
    r
}

#[test]
fn escaped_ampersands_are_turned_back() {
    assert_eq!(normalize_source("a &amp;&amp; b"), "a && b");
    assert_eq!(normalize_source("fn f(x: &amp;str) {}"), "fn f(x: &str) {}");
    assert_eq!(normalize_source("&amp;"), "&");
    assert_eq!(normalize_source(""), "");
    assert_eq!(normalize_source("no entity"), "no entity");
}

#[test]
fn only_the_whole_entity_is_turned_back() {
    assert_eq!(normalize_source("&amp"), "&amp");
    assert_eq!(normalize_source("&am;"), "&am;");
    assert_eq!(normalize_source("&AMP;"), "&AMP;");
    assert_eq!(normalize_source("&lt;T&gt;"), "&lt;T&gt;");
    assert_eq!(normalize_source("&&amp;amp;"), "&&amp;");
    assert_eq!(normalize_source("&amp;amp;"), "&amp;");
    assert_eq!(normalize_source("x&amp"), "x&amp");
    assert_eq!(normalize_source("é &amp; →"), "é & →");
}

#[test]
fn normalizing_agrees_with_the_standard_replace() {
    let samples = [
        "", "&", "&amp;", "&amp;&amp;", "&&amp;", "&amp;amp;", "a&amp;b&amp;c", "&am&amp;p;",
        "&a&am&amp&amp;", "amp;&amp", "let x = a &amp;&amp; b || c &amp; d;",
    ];
    for s in samples {
        assert_eq!(normalize_source(s), s.replace("&amp;", "&"), "on {:?}", s);
    }
}

#[test]
fn artifacts_are_named_after_the_item() {
    let paths = artifact_paths("./output", 574310847759040512);
    assert_eq!(paths.source, "./output/574310847759040512.rs");
    assert_eq!(paths.output, "./output/574310847759040512.output");
    assert_eq!(paths.symbols, "./output/574310847759040512.pdb");
    let zero = artifact_paths("scratch", 0);
    assert_eq!(zero.source, "scratch/0.rs");
}

#[test]
fn different_items_have_different_artifacts() {
    let a = artifact_paths("./output", 12);
    let b = artifact_paths("./output", 120);
    let c = artifact_paths("./output", 21);
    assert_ne!(a.source, b.source);
    assert_ne!(a.source, c.source);
    assert_ne!(a.output, b.output);
    assert_ne!(a.symbols, c.symbols);
}

#[test]
fn the_compiler_is_asked_for_a_library_with_three_warnings_off() {
    let paths = artifact_paths("./output", 7);
    assert_eq!(
        compiler_arguments(&paths),
        vec![
            "-A",
            "dead_code",
            "-A",
            "non_camel_case_types",
            "-A",
            "const_err",
            "--crate-type=lib",
            "./output/7.rs",
            "-o",
            "./output/7.output",
        ]
    );
}

#[test]
fn a_build_plan_holds_text_paths_and_arguments() {
    let plan = plan_build("./output", &item(31, "fn f(a: &amp;u8) {}"));
    assert_eq!(plan.source_text, "fn f(a: &u8) {}");
    assert_eq!(plan.paths.source, "./output/31.rs");
    assert_eq!(plan.paths.output, "./output/31.output");
    assert_eq!(plan.paths.symbols, "./output/31.pdb");
    assert_eq!(plan.arguments.len(), 10);
    assert_eq!(plan.arguments[7], "./output/31.rs");
    assert_eq!(plan.arguments[9], "./output/31.output");
}

#[test]
fn a_missing_artifact_is_never_an_error() {
    for artifact in [Artifact::Source, Artifact::Output, Artifact::Symbols] {
        assert_eq!(judge_removal(artifact, Removal::Missing, false), Ok(()));
        assert_eq!(judge_removal(artifact, Removal::Missing, true), Ok(()));
        assert_eq!(judge_removal(artifact, Removal::Removed, false), Ok(()));
        assert_eq!(judge_removal(artifact, Removal::Removed, true), Ok(()));
    }
}

#[test]
fn a_failed_removal_is_fatal_unless_the_run_is_being_cancelled() {
    assert_eq!(
        judge_removal(Artifact::Source, Removal::Failed, false),
        Err(CleanupError { artifact: Artifact::Source })
    );
    assert_eq!(
        judge_removal(Artifact::Output, Removal::Failed, false),
        Err(CleanupError { artifact: Artifact::Output })
    );
    assert_eq!(
        judge_removal(Artifact::Symbols, Removal::Failed, false),
        Err(CleanupError { artifact: Artifact::Symbols })
    );
    assert_eq!(judge_removal(Artifact::Source, Removal::Failed, true), Ok(()));
    assert_eq!(judge_removal(Artifact::Symbols, Removal::Failed, true), Ok(()));
}

#[test]
fn a_second_cleanup_finds_nothing_to_do() {
    // What the first pass removed or did not find is missing on the second.
    for cancelling in [false, true] {
        for first in [Removal::Missing, Removal::Removed] {
            assert_eq!(judge_removal(Artifact::Output, first, cancelling), Ok(()));
            assert_eq!(judge_removal(Artifact::Output, Removal::Missing, cancelling), Ok(()));
        }
    }
}

#[test]
fn a_cancelled_attempt_is_aborted_whatever_the_compiler_said() {
    assert!(matches!(
        determine_verdict(true, Some(0), true, String::new()),
        BuildVerdict::Aborted
    ));
    assert!(matches!(
        determine_verdict(true, Some(1), false, String::from("error")),
        BuildVerdict::Aborted
    ));
    assert!(matches!(determine_verdict(true, None, false, String::new()), BuildVerdict::Aborted));
}

#[test]
fn an_interrupted_compiler_means_an_aborted_attempt() {
    assert_eq!(INTERRUPT_EXIT_CODE, -1073741510);
    assert!(matches!(
        determine_verdict(false, Some(INTERRUPT_EXIT_CODE), false, String::from("^C")),
        BuildVerdict::Aborted
    ));
    assert!(matches!(
        determine_verdict(false, Some(INTERRUPT_EXIT_CODE), true, String::new()),
        BuildVerdict::Aborted
    ));
}

#[test]
fn success_passes_and_anything_else_fails_with_the_diagnostic() {
    assert!(matches!(determine_verdict(false, Some(0), true, String::from("warning")), BuildVerdict::Pass));
    match determine_verdict(false, Some(1), false, String::from("error[E0425]")) {
        BuildVerdict::Fail(d) => assert_eq!(d, "error[E0425]"),
        other => panic!("expected a failure, got {:?}", other),
    }
    match determine_verdict(false, None, false, String::from("killed")) {
        BuildVerdict::Fail(d) => assert_eq!(d, "killed"),
        other => panic!("expected a failure, got {:?}", other),
    }
    match determine_verdict(false, Some(-1073741509), false, String::new()) {
        BuildVerdict::Fail(d) => assert_eq!(d, ""),
        other => panic!("expected a failure, got {:?}", other),
    }
}

#[test]
fn the_diagnostic_is_standard_error_read_as_text() {
    let output = BuildOutput {
        exit_code: Some(1),
        success: false,
        stderr: vec![b'e', b'r', b'r', 0xff, b'!', 0xc3, 0xa9],
    };
    match verdict_of_output(false, &output) {
        BuildVerdict::Fail(d) => assert_eq!(d, "err\u{fffd}!é"),
        other => panic!("expected a failure, got {:?}", other),
    }
    assert!(matches!(verdict_of_output(true, &output), BuildVerdict::Aborted));
    let fine = BuildOutput { exit_code: Some(0), success: true, stderr: vec![] };
    assert!(matches!(verdict_of_output(false, &fine), BuildVerdict::Pass));
    let killed = BuildOutput { exit_code: Some(INTERRUPT_EXIT_CODE), success: false, stderr: vec![] };
    assert!(matches!(verdict_of_output(false, &killed), BuildVerdict::Aborted));
}

#[test]
fn the_words_for_verdicts_and_outcomes() {
    assert_eq!(verdict_word(&BuildVerdict::Pass), "ok");
    assert_eq!(verdict_word(&BuildVerdict::Fail(String::from("x"))), "FAILED");
    assert_eq!(verdict_word(&BuildVerdict::Aborted), "ABORTED");
    assert_eq!(outcome_word(RunOutcome::Passed), "PASS");
    assert_eq!(outcome_word(RunOutcome::Failed), "FAILED");
    assert_eq!(outcome_word(RunOutcome::Aborted), "ABORTED");
}

#[test]
fn a_failure_outweighs_a_cancellation() {
    assert_eq!(run_outcome(&tally(3, &[], 1, 4), false), RunOutcome::Passed);
    assert_eq!(run_outcome(&tally(3, &[], 1, 9), true), RunOutcome::Aborted);
    assert_eq!(run_outcome(&tally(3, &[(5, "x")], 1, 9), true), RunOutcome::Failed);
    assert_eq!(run_outcome(&tally(0, &[(5, "x")], 0, 1), false), RunOutcome::Failed);
    assert_eq!(run_outcome(&tally(0, &[], 0, 0), false), RunOutcome::Passed);
}

#[test]
fn the_banner_announces_the_run() {
    assert_eq!(write_banner(true, 0), "Running 1 test\n");
    assert_eq!(write_banner(true, 3200), "Running 1 test\n");
    assert_eq!(write_banner(false, 3200), "Running ~3200 tests\n");
    assert_eq!(write_banner(false, 0), "Running ~0 tests\n");
}

#[test]
fn an_item_line_names_the_item_and_its_verdict() {
    let it = item(574310847759040512, "fn main() {}");
    assert_eq!(write_item_line_start(&it), "test 574310847759040512 (2015-03-07 20:39:51 UTC) ... ");
    assert_eq!(
        write_item_line(&it, "ok"),
        "test 574310847759040512 (2015-03-07 20:39:51 UTC) ... ok\n"
    );
    assert_eq!(
        write_item_line(&it, verdict_word(&BuildVerdict::Aborted)),
        "test 574310847759040512 (2015-03-07 20:39:51 UTC) ... ABORTED\n"
    );
}

#[test]
fn a_clean_run_reports_a_pass_and_no_failures_block() {
    assert_eq!(
        plain_report(&tally(12, &[], 2, 14), false),
        "\ntest result: PASS. 12 passed; 0 failed; 2 ignored\n"
    );
    assert_eq!(
        plain_report(&ResultData::new(), false),
        "\ntest result: PASS. 0 passed; 0 failed; 0 ignored\n"
    );
}

#[test]
fn failures_are_listed_with_their_diagnostics_and_then_by_id() {
    let r = tally(1, &[(98, "error: one\n"), (7, "error: two")], 0, 3);
    assert_eq!(
        plain_report(&r, false),
        "\nfailures:\n\n\
         ---- 98 stderr ----\nerror: one\n\n\
         ---- 7 stderr ----\nerror: two\n\
         failures:\n    98\n    7\n\
         \ntest result: FAILED. 1 passed; 2 failed; 0 ignored\n"
    );
}

#[test]
fn a_cancelled_run_reports_what_was_left() {
    assert_eq!(
        plain_report(&tally(1, &[], 0, 2), true),
        "\ntest result: ABORTED. 1 passed; 0 failed; 0 ignored; 1 aborted\n"
    );
    assert_eq!(
        plain_report(&tally(2, &[], 3, 100), true),
        "\ntest result: ABORTED. 2 passed; 0 failed; 3 ignored; 95 aborted\n"
    );
    assert_eq!(
        plain_report(&tally(1, &[], 1, 2), true),
        "\ntest result: ABORTED. 1 passed; 0 failed; 1 ignored; 0 aborted\n"
    );
}

#[test]
fn a_feed_that_delivered_more_than_it_announced_gives_a_negative_remainder() {
    assert_eq!(
        plain_report(&tally(3, &[], 0, 1), true),
        "\ntest result: ABORTED. 3 passed; 0 failed; 0 ignored; -2 aborted\n"
    );
}

#[test]
fn the_report_takes_any_word_for_the_outcome() {
    assert_eq!(
        write_report(&tally(1, &[], 0, 1), false, "\u{1b}[32mPASS\u{1b}[0m"),
        "\ntest result: \u{1b}[32mPASS\u{1b}[0m. 1 passed; 0 failed; 0 ignored\n"
    );
}

#[test]
fn the_tally_counts_each_verdict_once() {
    let mut r = ResultData::new();
    assert!(r.has_room());
    r.set_total(5);
    r.record(10, BuildVerdict::Pass);
    r.record(9, BuildVerdict::Fail(String::from("a")));
    r.record(8, BuildVerdict::Aborted);
    r.record_ignored();
    r.record(7, BuildVerdict::Fail(String::from("b")));
    assert_eq!(r.pass_count(), 1);
    assert_eq!(r.fail_count(), 2);
    assert_eq!(r.ignore_count(), 1);
    assert_eq!(r.total_count(), 5);
    assert_eq!(r.failures().len(), 2);
    assert_eq!(r.failures()[0], (9, String::from("a")));
    assert_eq!(r.failures()[1], (7, String::from("b")));
    assert!(r.has_room());
}

#[test]
fn every_artifact_is_cleared_source_first() {
    assert_eq!(cleanup_order(), [Artifact::Source, Artifact::Output, Artifact::Symbols]);
    let paths = artifact_paths("./output", 3);
    assert_eq!(paths.path_of(Artifact::Source), "./output/3.rs");
    assert_eq!(paths.path_of(Artifact::Output), "./output/3.output");
    assert_eq!(paths.path_of(Artifact::Symbols), "./output/3.pdb");
}
