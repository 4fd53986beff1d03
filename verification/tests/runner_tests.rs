use test_runner::runner::{
    editor_args, judge, summarize, Summary, TestOutcome, Verdict, EXIT_HARNESS_ERROR,
    EXIT_SUCCESS, EXIT_TESTS_FAILED,
};

fn strings(items: &[&str]) -> Vec<String> {
    items.iter().map(|s| s.to_string()).collect()
}

fn outcome(test: &str, verdict: Verdict) -> TestOutcome {
    TestOutcome { test: test.to_string(), verdict, diagnostics: String::new() }
}

#[test]
fn editor_args_without_dependencies() {
    assert_eq!(
        editor_args(&vec![], &vec![], "tests/a_spec.lua"),
        strings(&[
            "--noplugin",
            "--headless",
            "--cmd",
            "set nobackup nowritebackup noswapfile",
            "--cmd",
            "set shada=\"NONE\"",
            "-i",
            "NONE",
            "--cmd",
            "set rtp+=.",
            "--cmd",
            "set rtp+=.test",
            "--cmd",
            "lua require(\"test-utils\")",
            "-u",
            "tests/a_spec.lua",
            "+qa",
        ])
    );
}

#[test]
fn editor_args_list_remote_dependencies_before_local_ones() {
    let external = strings(&[".test/external-dep/a", ".test/external-dep/b"]);
    let local = strings(&["/home/me/c"]);
    assert_eq!(
        editor_args(&external, &local, "t.lua"),
        strings(&[
            "--noplugin",
            "--headless",
            "--cmd",
            "set nobackup nowritebackup noswapfile",
            "--cmd",
            "set shada=\"NONE\"",
            "-i",
            "NONE",
            "--cmd",
            "set rtp+=.",
            "--cmd",
            "set rtp+=.test/external-dep/a",
            "--cmd",
            "set rtp+=.test/external-dep/b",
            "--cmd",
            "set rtp+=/home/me/c",
            "--cmd",
            "set rtp+=.test",
            "--cmd",
            "lua require(\"test-utils\")",
            "-u",
            "t.lua",
            "+qa",
        ])
    );
}

#[test]
fn editor_args_always_end_with_quit() {
    let args = editor_args(&strings(&["x"]), &strings(&["y", "z"]), "t.lua");
    assert_eq!(args.last(), Some(&"+qa".to_string()));
    assert_eq!(args.len(), 10 + 2 + 4 + 7);
}

#[test]
fn failure_status_fails_the_test() {
    let o = judge("t.lua".to_string(), false, String::new());
    assert_eq!(o.verdict, Verdict::ExitFailure);
    assert!(!o.passed());
    assert_eq!(o.test, "t.lua");
}

#[test]
fn failure_status_fails_the_test_whatever_was_written() {
    let o = judge("t.lua".to_string(), false, "Error detected while processing x".to_string());
    assert_eq!(o.verdict, Verdict::ExitFailure);
    assert_eq!(o.diagnostics, "Error detected while processing x");
}

#[test]
fn clean_success_passes() {
    let o = judge("t.lua".to_string(), true, String::new());
    assert_eq!(o.verdict, Verdict::Passed);
    assert!(o.passed());
}

#[test]
fn noise_on_the_diagnostic_output_is_tolerated() {
    let o = judge("t.lua".to_string(), true, "warning: deprecated\n".to_string());
    assert_eq!(o.verdict, Verdict::Passed);
    assert_eq!(o.diagnostics, "warning: deprecated\n");
}

#[test]
fn error_marker_fails_the_test() {
    let o = judge(
        "t.lua".to_string(),
        true,
        "\nError detected while processing /tmp/t.lua:\nE5108".to_string(),
    );
    assert_eq!(o.verdict, Verdict::ErrorReported);
    assert!(!o.passed());
}

#[test]
fn error_marker_alone_fails_the_test() {
    let o = judge("t.lua".to_string(), true, "Error detected while processing".to_string());
    assert_eq!(o.verdict, Verdict::ErrorReported);
}

#[test]
fn error_marker_must_be_whole_and_in_the_same_case() {
    assert_eq!(
        judge("t".to_string(), true, "Error detected while processin".to_string()).verdict,
        Verdict::Passed
    );
    assert_eq!(
        judge("t".to_string(), true, "error detected while processing".to_string()).verdict,
        Verdict::Passed
    );
    assert_eq!(
        judge("t".to_string(), true, "Error detected  while processing".to_string()).verdict,
        Verdict::Passed
    );
}

#[test]
fn two_of_five_tests_fail() {
    let outcomes = vec![
        judge("a".to_string(), true, String::new()),
        judge("b".to_string(), false, String::new()),
        judge("c".to_string(), true, String::new()),
        judge("d".to_string(), false, "boom".to_string()),
        judge("e".to_string(), true, String::new()),
    ];
    let summary = summarize(&outcomes);
    assert_eq!(summary, Summary { total: 5, failed: 2 });
    assert!(!summary.success());
    assert_eq!(summary.exit_code(), 1);
}

#[test]
fn failures_by_marker_count_too() {
    let outcomes = vec![
        outcome("a", Verdict::ErrorReported),
        outcome("b", Verdict::Passed),
        outcome("c", Verdict::ExitFailure),
    ];
    assert_eq!(summarize(&outcomes), Summary { total: 3, failed: 2 });
}

#[test]
fn all_passing_is_success() {
    let outcomes = vec![outcome("a", Verdict::Passed), outcome("b", Verdict::Passed)];
    let summary = summarize(&outcomes);
    assert_eq!(summary, Summary { total: 2, failed: 0 });
    assert!(summary.success());
    assert_eq!(summary.exit_code(), 0);
}

#[test]
fn no_tests_is_success() {
    let summary = summarize(&Vec::new());
    assert_eq!(summary, Summary { total: 0, failed: 0 });
    assert!(summary.success());
    assert_eq!(summary.exit_code(), EXIT_SUCCESS);
}

#[test]
fn all_failing_counts_all() {
    let outcomes = vec![outcome("a", Verdict::ExitFailure), outcome("b", Verdict::ErrorReported)];
    assert_eq!(summarize(&outcomes), Summary { total: 2, failed: 2 });
}

#[test]
fn exit_codes_are_told_apart() {
    assert_eq!(EXIT_SUCCESS, 0);
    assert_eq!(EXIT_TESTS_FAILED, 1);
    assert_eq!(EXIT_HARNESS_ERROR, 2);
    assert_eq!(Summary { total: 9, failed: 9 }.exit_code(), EXIT_TESTS_FAILED);
    assert_ne!(Summary { total: 9, failed: 1 }.exit_code(), EXIT_HARNESS_ERROR);
}
