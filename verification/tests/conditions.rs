use rolldown_resolver::conditions::condition_lists;
use rolldown_resolver::Platform;

fn words(list: &[&str]) -> Vec<String> {
    list.iter().map(|s| s.to_string()).collect()
}

#[test]
fn node_platform_adds_node() {
    let lists = condition_lists(&None, Platform::Node);
    assert_eq!(lists.default_list, words(&["default", "node"]));
    assert_eq!(lists.import_list, words(&["import", "default", "node"]));
    assert_eq!(lists.require_list, words(&["require", "default", "node"]));
}

#[test]
fn browser_platform_adds_browser() {
    let lists = condition_lists(&None, Platform::Browser);
    assert_eq!(lists.default_list, words(&["default", "browser"]));
    assert!(!lists.default_list.contains(&"node".to_string()));
}

#[test]
fn neutral_platform_adds_nothing() {
    let lists = condition_lists(&None, Platform::Neutral);
    assert_eq!(lists.default_list, words(&["default"]));
    assert_eq!(lists.import_list, words(&["import", "default"]));
    assert_eq!(lists.require_list, words(&["require", "default"]));
}

#[test]
fn every_platform_has_default() {
    for platform in [Platform::Node, Platform::Browser, Platform::Neutral] {
        let lists = condition_lists(&Some(words(&["production"])), platform);
        assert!(lists.default_list.contains(&"default".to_string()));
        assert!(lists.import_list.contains(&"default".to_string()));
        assert!(lists.require_list.contains(&"default".to_string()));
    }
}

#[test]
fn user_conditions_come_before_default_and_platform() {
    let lists = condition_lists(&Some(words(&["production", "style"])), Platform::Node);
    assert_eq!(lists.default_list, words(&["production", "style", "default", "node"]));
    assert_eq!(lists.import_list, words(&["import", "production", "style", "default", "node"]));
    assert_eq!(lists.require_list, words(&["require", "production", "style", "default", "node"]));
}

#[test]
fn one_user_condition_on_node() {
    let lists = condition_lists(&Some(words(&["custom"])), Platform::Node);
    assert_eq!(lists.default_list, words(&["custom", "default", "node"]));
}

#[test]
fn repeated_conditions_are_kept_once_where_first_named() {
    let named = words(&["node", "a", "default", "a", "b", "node"]);
    let lists = condition_lists(&Some(named), Platform::Node);
    assert_eq!(lists.default_list, words(&["node", "a", "default", "b"]));
    assert_eq!(lists.import_list, words(&["import", "node", "a", "default", "b"]));
    assert_eq!(lists.require_list, words(&["require", "node", "a", "default", "b"]));
}

#[test]
fn import_named_by_user_is_not_repeated() {
    let lists = condition_lists(&Some(words(&["import", "require"])), Platform::Neutral);
    assert_eq!(lists.default_list, words(&["import", "require", "default"]));
    assert_eq!(lists.import_list, words(&["import", "require", "default"]));
    assert_eq!(lists.require_list, words(&["require", "import", "default"]));
    assert_ne!(lists.import_list, lists.require_list);
}

#[test]
fn import_and_require_lists_hold_the_default_list() {
    let lists = condition_lists(&Some(words(&["x", "y", "x"])), Platform::Browser);
    for token in &lists.default_list {
        assert!(lists.import_list.contains(token));
        assert!(lists.require_list.contains(token));
    }
    assert_eq!(lists.import_list.len(), lists.default_list.len() + 1);
    assert_eq!(lists.require_list.len(), lists.default_list.len() + 1);
}

#[test]
fn user_naming_another_platform_keeps_that_token() {
    let lists = condition_lists(&Some(words(&["node"])), Platform::Browser);
    assert_eq!(lists.default_list, words(&["node", "default", "browser"]));
}

#[test]
fn empty_user_list_is_like_none() {
    let lists = condition_lists(&Some(vec![]), Platform::Node);
    assert_eq!(lists.default_list, words(&["default", "node"]));
}
