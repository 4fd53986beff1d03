use test_runner::report::Notice;
use test_runner::resolve::ResolveError;
use test_runner::runner::{Summary, TestOutcome, Verdict};

fn s(text: &str) -> String {
    text.to_string()
}

#[test]
fn invalid_uri_message() {
    assert_eq!(ResolveError::InvalidUri { uri: s("..") }.message(), "Invalid uri: ..");
}

#[test]
fn git_missing_message() {
    assert_eq!(ResolveError::GitMissing.message(), "git is not installed");
}

#[test]
fn not_a_repository_message() {
    assert_eq!(
        ResolveError::NotARepository { uri: s("https://h/a") }.message(),
        "https://h/a is not a valid git repository"
    );
}

#[test]
fn branch_missing_message() {
    assert_eq!(
        ResolveError::BranchMissing { ref_name: s("refs/heads/dev"), uri: s("https://h/a") }
            .message(),
        "Branch refs/heads/dev does not exist in repository https://h/a"
    );
}

#[test]
fn clone_failed_message_carries_what_the_tool_said() {
    assert_eq!(
        ResolveError::CloneFailed { uri: s("https://h/a"), detail: s("fatal: not found\n") }
            .message(),
        "Failed to clone repository https://h/a:\nfatal: not found\n"
    );
}

#[test]
fn reset_failed_message() {
    assert_eq!(
        ResolveError::ResetFailed { uri: s("https://h/a"), revision: s("abc") }.message(),
        "Failed to reset repository https://h/a to revision abc"
    );
}

#[test]
fn state_missing_message_names_the_branch_or_head() {
    assert_eq!(
        ResolveError::StateMissing { uri: s("https://h/a"), branch: Some(s("dev")) }.message(),
        "State does not exist for test dependency https://h/a @ branch dev"
    );
    assert_eq!(
        ResolveError::StateMissing { uri: s("https://h/a"), branch: None }.message(),
        "State does not exist for test dependency https://h/a @ branch HEAD"
    );
}

#[test]
fn failures_are_shown_in_red() {
    assert_eq!(
        ResolveError::GitMissing.render(),
        "\u{1b}[31mgit is not installed\u{1b}[0m"
    );
}

#[test]
fn notices_without_data() {
    assert_eq!(Notice::ConfigMissing.message(), "Config file not found, using default config");
    assert_eq!(Notice::StateMissing.message(), "State file not found, creating new state");
    assert_eq!(Notice::UtilsDownload.message(), "Downloading test-utils.lua into .test/");
}

#[test]
fn utils_upgrade_notice() {
    assert_eq!(
        Notice::UtilsUpgrade { from: s("0.1.0"), to: s("0.2.0") }.message(),
        "Upgrading test-utils from version 0.1.0 to version 0.2.0"
    );
}

#[test]
fn skipped_local_dependency_notices() {
    assert_eq!(
        Notice::PathMissing { uri: s("file:../x") }.message(),
        "Path file:../x does not exist, skipping"
    );
    assert_eq!(
        Notice::NotDirectory { uri: s("file:../x") }.message(),
        "file:../x does not point to a directory, skipping"
    );
}

#[test]
fn overwriting_notice() {
    assert_eq!(
        Notice::Overwriting { path: s(".test/external-dep/a") }.message(),
        "Overwriting existing test dependency at path .test/external-dep/a"
    );
}

#[test]
fn cloning_notice_with_and_without_branch_and_pin() {
    assert_eq!(
        Notice::Cloning {
            uri: s("https://h/a"),
            branch: Some(s("dev")),
            sha: Some(s("abc")),
            path: s(".test/external-dep/a"),
        }
        .message(),
        "Cloning repo https://h/a @ dev-abc into path .test/external-dep/a..."
    );
    assert_eq!(
        Notice::Cloning {
            uri: s("https://h/a"),
            branch: None,
            sha: None,
            path: s(".test/external-dep/a"),
        }
        .message(),
        "Cloning repo https://h/a @ HEAD-<none> into path .test/external-dep/a..."
    );
}

#[test]
fn notices_are_shown_in_yellow() {
    assert_eq!(
        Notice::UtilsDownload.render(),
        "\u{1b}[33mDownloading test-utils.lua into .test/\u{1b}[0m"
    );
}

#[test]
fn passed_test_is_named_tersely_in_blue() {
    let o = TestOutcome { test: s("tests/a.lua"), verdict: Verdict::Passed, diagnostics: s("noise") };
    assert_eq!(o.message(), "\u{2713} tests/a.lua");
    assert_eq!(o.render(), "\u{1b}[34m\u{2713} tests/a.lua\u{1b}[0m");
}

#[test]
fn failed_test_is_named_with_its_diagnostics_in_red() {
    let o = TestOutcome {
        test: s("tests/a.lua"),
        verdict: Verdict::ErrorReported,
        diagnostics: s("Error detected while processing a"),
    };
    assert_eq!(o.message(), "x tests/a.lua\nError detected while processing a");
    assert_eq!(
        o.render(),
        "\u{1b}[31mx tests/a.lua\nError detected while processing a\u{1b}[0m"
    );
}

#[test]
fn test_that_did_not_run_is_named_with_its_diagnostics_in_red() {
    let o = TestOutcome {
        test: s("tests/a.lua"),
        verdict: Verdict::ExitFailure,
        diagnostics: s("E492"),
    };
    assert_eq!(o.message(), "Failed to run test tests/a.lua\nE492");
    assert_eq!(o.render(), "\u{1b}[31mFailed to run test tests/a.lua\nE492\u{1b}[0m");
}

#[test]
fn summary_without_failures_says_nothing() {
    assert_eq!(Summary { total: 4, failed: 0 }.render(), None);
    assert_eq!(Summary { total: 0, failed: 0 }.render(), None);
}

#[test]
fn summary_counts_the_failures_in_red() {
    assert_eq!(
        Summary { total: 5, failed: 2 }.render(),
        Some(s("\u{1b}[31m2 test(s) failed\u{1b}[0m"))
    );
    assert_eq!(
        Summary { total: 2000, failed: 1030 }.render(),
        Some(s("\u{1b}[31m1030 test(s) failed\u{1b}[0m"))
    );
}

#[test]
fn test_that_did_not_run_and_wrote_nothing_is_named_alone() {
    let o = TestOutcome { test: s("tests/a.lua"), verdict: Verdict::ExitFailure, diagnostics: s("") };
    assert_eq!(o.message(), "Failed to run test tests/a.lua");
    assert_eq!(o.render(), "\u{1b}[31mFailed to run test tests/a.lua\u{1b}[0m");
}
