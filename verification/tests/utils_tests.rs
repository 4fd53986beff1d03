use test_runner::state::{LuaTestUtilsState, State};
use test_runner::utils::{utils_plan, utils_uri, UtilsPlan};
use test_runner::vcs::{clone_args, listing_args, reset_args};

fn with_utils(version: &str) -> State {
    State {
        test_dependencies: vec![],
        lua_test_utils: Some(LuaTestUtilsState { version: version.to_string() }),
    }
}

#[test]
fn utils_are_downloaded_when_none_are_remembered() {
    assert_eq!(utils_plan(&State::new(), "0.2.0"), UtilsPlan::Download);
}

#[test]
fn utils_are_kept_at_the_same_version() {
    assert_eq!(utils_plan(&with_utils("0.2.0"), "0.2.0"), UtilsPlan::Keep);
}

#[test]
fn utils_are_upgraded_from_another_version() {
    assert_eq!(
        utils_plan(&with_utils("0.1.9"), "0.2.0"),
        UtilsPlan::Upgrade { from: "0.1.9".to_string() }
    );
    assert_eq!(
        utils_plan(&with_utils("0.3.0"), "0.2.0"),
        UtilsPlan::Upgrade { from: "0.3.0".to_string() }
    );
}

#[test]
fn utils_uri_holds_the_version() {
    assert_eq!(
        utils_uri("0.2.0"),
        "https://raw.githubusercontent.com/samsze0/test.nvim/0.2.0/lua/test/init.lua"
    );
}

#[test]
fn listing_arguments() {
    assert_eq!(listing_args("https://h/a"), vec!["ls-remote".to_string(), "https://h/a".to_string()]);
}

#[test]
fn clone_arguments() {
    assert_eq!(
        clone_args("https://h/a", ".test/external-dep/a"),
        vec!["clone".to_string(), "https://h/a".to_string(), ".test/external-dep/a".to_string()]
    );
}

#[test]
fn reset_arguments() {
    assert_eq!(
        reset_args("abc123"),
        vec!["reset".to_string(), "--hard".to_string(), "abc123".to_string()]
    );
}
