use scruters::test_item::Test;
use scruters::test_name::TestName;
use scruters::test_results::{same_test, TestResult, TestResults};

fn named(name: &str) -> Test {
    Test::Named(TestName::new(name))
}

#[test]
fn a_result_starts_empty_and_is_reset() {
    let mut result = TestResult::default();
    assert_eq!(result.passed, None);
    assert!(result.output.is_empty());
    result.passed = Some(true);
    result.output.push("line".to_string());
    result.reset();
    assert_eq!(result.passed, None);
    assert!(result.output.is_empty());
}

#[test]
fn tests_are_the_same_by_kind_and_names() {
    let example = Test::Example { package_name: "p".into(), target_name: "e".into() };
    let examples = Test::Examples { package_name: "p".into(), target_name: "e".into() };
    assert!(same_test(&named("a"), &named("a")));
    assert!(!same_test(&named("a"), &named("b")));
    assert!(same_test(&example, &example.clone()));
    assert!(!same_test(&example, &examples));
    let other = Test::Example { package_name: "p".into(), target_name: "f".into() };
    assert!(!same_test(&example, &other));
    let integration = Test::IntegrationTarget { package_name: "p".into(), target_name: "t".into() };
    assert!(same_test(&integration, &integration.clone()));
    assert!(!same_test(&integration, &named("p::t [auto]")));
}

#[test]
fn lines_reach_the_result_of_their_test() {
    let mut results = TestResults::default();
    assert!(results.as_inner().is_empty());
    assert!(!results.push_output(&named("a"), "early".to_string()));
    assert!(results.get(&named("a")).is_none());
    results.start(named("a"));
    results.start(named("b"));
    assert!(results.push_output(&named("a"), "one".to_string()));
    assert!(results.push_output(&named("b"), "other".to_string()));
    assert!(results.push_output(&named("a"), "two".to_string()));
    assert_eq!(results.get(&named("a")).expect("started").output, vec!["one", "two"]);
    assert_eq!(results.get(&named("b")).expect("started").output, vec!["other"]);
    results.start(named("a"));
    assert!(results.get(&named("a")).expect("started").output.is_empty());
    assert_eq!(results.as_inner().len(), 2);
}

#[test]
fn the_results_can_be_changed_from_outside() {
    let mut results = TestResults::default();
    results.start(named("a"));
    results.as_inner_mut()[0].1.passed = Some(false);
    assert_eq!(results.get(&named("a")).expect("started").passed, Some(false));
    results.as_inner_mut().clear();
    assert!(results.as_inner().is_empty());
}
