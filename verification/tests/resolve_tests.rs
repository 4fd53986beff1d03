use test_runner::config::TestDepedency;
use test_runner::resolve::{
    branch_head, fetched, judge_local, plan_remote, resolve_offline, revision, source,
    target_for, target_path, FetchReport, Listing, LocalVerdict, Plan, ResolveError, Source,
};
use test_runner::state::{State, TestDepedencyState};

fn dep(uri: &str, branch: Option<&str>, sha: Option<&str>) -> TestDepedency {
    TestDepedency {
        uri: uri.to_string(),
        branch: branch.map(|b| b.to_string()),
        sha: sha.map(|s| s.to_string()),
    }
}

fn entry(uri: &str, hash: &str, branch: Option<&str>, sha: Option<&str>) -> TestDepedencyState {
    TestDepedencyState {
        uri: uri.to_string(),
        hash: hash.to_string(),
        branch: branch.map(|b| b.to_string()),
        sha: sha.map(|s| s.to_string()),
    }
}

fn state_of(entries: Vec<TestDepedencyState>) -> State {
    State { test_dependencies: entries, lua_test_utils: None }
}

#[test]
fn file_uri_with_two_slashes_is_an_absolute_directory() {
    assert_eq!(
        source(&dep("file:///home/me/plugin", None, None)),
        Source::Directory { path: "/home/me/plugin".to_string(), absolute: true }
    );
}

#[test]
fn file_uri_without_slashes_is_a_relative_directory() {
    assert_eq!(
        source(&dep("file:../plugin", None, None)),
        Source::Directory { path: "../plugin".to_string(), absolute: false }
    );
    assert_eq!(
        source(&dep("file:/x", None, None)),
        Source::Directory { path: "/x".to_string(), absolute: false }
    );
}

#[test]
fn bare_file_prefixes_name_empty_paths() {
    assert_eq!(
        source(&dep("file:", None, None)),
        Source::Directory { path: String::new(), absolute: false }
    );
    assert_eq!(
        source(&dep("file://", None, None)),
        Source::Directory { path: String::new(), absolute: true }
    );
}

#[test]
fn other_uris_are_repositories() {
    assert_eq!(source(&dep("https://github.com/a/b", None, None)), Source::Repository);
    assert_eq!(source(&dep("git@github.com:a/b.git", None, None)), Source::Repository);
    assert_eq!(source(&dep("fil", None, None)), Source::Repository);
    assert_eq!(source(&dep("", None, None)), Source::Repository);
    assert_eq!(source(&dep("x/file:y", None, None)), Source::Repository);
}

#[test]
fn local_directory_is_used() {
    assert_eq!(judge_local(true, true), LocalVerdict::Use);
}

#[test]
fn missing_local_path_is_passed_over() {
    assert_eq!(judge_local(false, false), LocalVerdict::Missing);
    assert_eq!(judge_local(false, true), LocalVerdict::Missing);
}

#[test]
fn local_file_is_passed_over() {
    assert_eq!(judge_local(true, false), LocalVerdict::NotDirectory);
}

#[test]
fn target_for_puts_the_name_under_the_directory_of_copies() {
    assert_eq!(
        target_for("https://h/a/plug.nvim", Some("plug.nvim".to_string())),
        Ok(".test/external-dep/plug.nvim".to_string())
    );
}

#[test]
fn target_for_without_a_name_refuses_the_uri() {
    assert_eq!(
        target_for("..", None),
        Err(ResolveError::InvalidUri { uri: "..".to_string() })
    );
}

#[test]
fn target_path_ends_in_the_last_component_of_the_uri() {
    assert_eq!(
        target_path(&dep("https://github.com/someone/plug.nvim", None, None)),
        Ok(".test/external-dep/plug.nvim".to_string())
    );
    assert_eq!(
        target_path(&dep("https://github.com/someone/plug.nvim/", None, None)),
        Ok(".test/external-dep/plug.nvim".to_string())
    );
    assert_eq!(
        target_path(&dep("plain", None, None)),
        Ok(".test/external-dep/plain".to_string())
    );
}

#[test]
fn target_path_refuses_a_uri_without_a_last_component() {
    assert_eq!(
        target_path(&dep("", None, None)),
        Err(ResolveError::InvalidUri { uri: String::new() })
    );
    assert_eq!(
        target_path(&dep("https://h/a/..", None, None)),
        Err(ResolveError::InvalidUri { uri: "https://h/a/..".to_string() })
    );
    assert_eq!(
        target_path(&dep("/", None, None)),
        Err(ResolveError::InvalidUri { uri: "/".to_string() })
    );
}

#[test]
fn offline_accepts_a_remembered_dependency() {
    let state = state_of(vec![entry("https://h/a", "111", Some("dev"), None)]);
    assert_eq!(resolve_offline(&state, &dep("https://h/a", Some("dev"), None)), Ok(()));
}

#[test]
fn offline_refuses_an_unknown_dependency() {
    let state = state_of(vec![entry("https://h/a", "111", Some("dev"), None)]);
    assert_eq!(
        resolve_offline(&state, &dep("https://h/a", None, None)),
        Err(ResolveError::StateMissing { uri: "https://h/a".to_string(), branch: None })
    );
    assert_eq!(
        resolve_offline(&State::new(), &dep("https://h/b", Some("main"), None)),
        Err(ResolveError::StateMissing {
            uri: "https://h/b".to_string(),
            branch: Some("main".to_string())
        })
    );
}

#[test]
fn offline_refuses_another_pin() {
    let state = state_of(vec![entry("https://h/a", "111", None, Some("abc"))]);
    assert_eq!(resolve_offline(&state, &dep("https://h/a", None, Some("abc"))), Ok(()));
    assert_eq!(
        resolve_offline(&state, &dep("https://h/a", None, Some("def"))),
        Err(ResolveError::StateMissing { uri: "https://h/a".to_string(), branch: None })
    );
}

#[test]
fn branch_head_without_the_tool() {
    assert_eq!(
        branch_head(&dep("https://h/a", None, None), &Listing::NoTool),
        Err(ResolveError::GitMissing)
    );
}

#[test]
fn branch_head_of_a_remote_that_refused() {
    assert_eq!(
        branch_head(&dep("https://h/a", None, None), &Listing::Refused),
        Err(ResolveError::NotARepository { uri: "https://h/a".to_string() })
    );
}

#[test]
fn branch_head_of_the_default_head() {
    let listing = Listing::Listed("aaa\tHEAD\nbbb\trefs/heads/dev\n".to_string());
    assert_eq!(branch_head(&dep("https://h/a", None, None), &listing), Ok("aaa".to_string()));
}

#[test]
fn branch_head_of_a_named_branch() {
    let listing = Listing::Listed("aaa\tHEAD\nbbb\trefs/heads/dev\n".to_string());
    assert_eq!(
        branch_head(&dep("https://h/a", Some("dev"), None), &listing),
        Ok("bbb".to_string())
    );
}

#[test]
fn branch_head_of_a_branch_that_is_not_listed() {
    let listing = Listing::Listed("aaa\tHEAD\nbbb\trefs/heads/dev\n".to_string());
    assert_eq!(
        branch_head(&dep("https://h/a", Some("gone"), None), &listing),
        Err(ResolveError::BranchMissing {
            ref_name: "refs/heads/gone".to_string(),
            uri: "https://h/a".to_string()
        })
    );
    assert_eq!(
        branch_head(&dep("https://h/a", None, None), &Listing::Listed(String::new())),
        Err(ResolveError::BranchMissing {
            ref_name: "HEAD".to_string(),
            uri: "https://h/a".to_string()
        })
    );
}

#[test]
fn revision_is_the_pin_or_else_the_head() {
    assert_eq!(revision(&dep("u", None, Some("abc")), "111"), "abc");
    assert_eq!(revision(&dep("u", Some("dev"), None), "111"), "111");
}

#[test]
fn plan_reuses_a_fresh_copy() {
    let state = state_of(vec![entry("https://h/a", "111", None, None)]);
    assert_eq!(plan_remote(&state, &dep("https://h/a", None, None), "111", true), Plan::Reuse);
    assert_eq!(plan_remote(&state, &dep("https://h/a", None, None), "111", false), Plan::Reuse);
}

#[test]
fn plan_fetches_what_is_not_remembered() {
    assert_eq!(
        plan_remote(&State::new(), &dep("https://h/a", None, None), "111", false),
        Plan::Fetch { remove_existing: false, revision: "111".to_string() }
    );
}

#[test]
fn plan_removes_a_stale_copy_before_fetching() {
    let state = state_of(vec![entry("https://h/a", "111", None, None)]);
    assert_eq!(
        plan_remote(&state, &dep("https://h/a", None, None), "222", true),
        Plan::Fetch { remove_existing: true, revision: "222".to_string() }
    );
}

#[test]
fn plan_resets_to_the_pin() {
    assert_eq!(
        plan_remote(&State::new(), &dep("https://h/a", Some("dev"), Some("abc")), "222", true),
        Plan::Fetch { remove_existing: true, revision: "abc".to_string() }
    );
}

#[test]
fn fetched_remembers_a_fetch_that_succeeded() {
    let mut next = state_of(vec![
        entry("https://h/a", "111", None, None),
        entry("https://h/b", "5", None, None),
    ]);
    let d = dep("https://h/a", Some("dev"), None);
    assert_eq!(fetched(&mut next, &d, "222", FetchReport::Done), Ok(()));
    assert_eq!(
        next.test_dependencies,
        vec![entry("https://h/b", "5", None, None), entry("https://h/a", "222", Some("dev"), None)]
    );
}

#[test]
fn fetched_reports_a_failed_clone() {
    let mut next = state_of(vec![entry("https://h/a", "111", None, None)]);
    let before = next.clone();
    let d = dep("https://h/a", None, None);
    assert_eq!(
        fetched(&mut next, &d, "222", FetchReport::CloneFailed { detail: "fatal: no".to_string() }),
        Err(ResolveError::CloneFailed {
            uri: "https://h/a".to_string(),
            detail: "fatal: no".to_string()
        })
    );
    assert_eq!(next, before);
}

#[test]
fn fetched_reports_a_failed_reset_with_the_revision() {
    let mut next = State::new();
    assert_eq!(
        fetched(&mut next, &dep("https://h/a", None, Some("abc")), "222", FetchReport::ResetFailed),
        Err(ResolveError::ResetFailed {
            uri: "https://h/a".to_string(),
            revision: "abc".to_string()
        })
    );
    assert_eq!(
        fetched(&mut next, &dep("https://h/a", None, None), "222", FetchReport::ResetFailed),
        Err(ResolveError::ResetFailed {
            uri: "https://h/a".to_string(),
            revision: "222".to_string()
        })
    );
    assert_eq!(next, State::new());
}

#[test]
fn target_path_of_one_uri_is_always_the_same() {
    let d = dep("https://github.com/someone/plug.nvim", Some("dev"), None);
    let again = dep("https://github.com/someone/plug.nvim", None, Some("abc"));
    assert_eq!(target_path(&d), target_path(&d));
    assert_eq!(target_path(&d), target_path(&again));
    assert_eq!(target_path(&dep("..", None, None)), target_path(&dep("..", None, None)));
}
