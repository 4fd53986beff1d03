use test_runner::config::{TestConfig, TestDepedency};

#[test]
fn default_config_declares_nothing() {
    let config = TestConfig::default();
    assert!(config.test_dependencies.is_none());
    assert!(config.test_paths.is_none());
}

#[test]
fn default_trait_agrees_with_default() {
    let by_trait: TestConfig = Default::default();
    assert_eq!(by_trait, TestConfig::default());
}

#[test]
fn no_patterns_means_the_four_conventional_ones() {
    let config = TestConfig::default();
    assert_eq!(
        config.patterns(),
        vec![
            "tests/**/*.lua".to_string(),
            "test/**/*.lua".to_string(),
            "lua/tests/**/*.lua".to_string(),
            "lua/test/**/*.lua".to_string(),
        ]
    );
}

#[test]
fn declared_patterns_are_used_as_they_are() {
    let config = TestConfig {
        test_dependencies: None,
        test_paths: Some(vec!["spec/*.lua".to_string(), "a/b.lua".to_string()]),
    };
    assert_eq!(config.patterns(), vec!["spec/*.lua".to_string(), "a/b.lua".to_string()]);
}

#[test]
fn declared_empty_list_stays_empty() {
    let config = TestConfig { test_dependencies: None, test_paths: Some(vec![]) };
    assert!(config.patterns().is_empty());
}

#[test]
fn dependency_clone_keeps_every_field() {
    let dep = TestDepedency {
        uri: "https://h/a".to_string(),
        branch: Some("dev".to_string()),
        sha: None,
    };
    assert_eq!(dep.clone(), dep);
}
