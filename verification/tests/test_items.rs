use scruters::test_item::Test;
use scruters::test_list::sort_tests;
use scruters::test_name::TestName;
use scruters::text::Order;

fn named(name: &str) -> Test {
    Test::Named(TestName::new(name))
}

fn integration(package: &str, target: &str) -> Test {
    Test::IntegrationTarget { package_name: package.to_string(), target_name: target.to_string() }
}

fn names(tests: &[Test]) -> Vec<String> {
    tests.iter().map(|t| t.name().as_str().to_string()).collect()
}

#[test]
fn each_kind_of_test_has_its_name() {
    assert_eq!(named("a::b").name().as_str(), "a::b");
    assert_eq!(integration("p", "it").name().as_str(), "p::it [auto]");
    let examples = Test::Examples { package_name: "p".into(), target_name: "e".into() };
    assert_eq!(examples.name().as_str(), "p::e::main");
    let example = Test::Example { package_name: "p".into(), target_name: "e".into() };
    assert_eq!(example.name().as_str(), "main [auto]");
}

#[test]
fn tests_compare_by_their_names() {
    assert_eq!(integration("z", "z").compare(&named("a")), Order::Less);
    assert!(integration("z", "z") < named("a"));
    assert_eq!(named("a").compare(&named("b")), Order::Less);
    assert_eq!(named("p::it [auto]").compare(&integration("p", "it")), Order::Equal);
    assert_eq!(named("b").compare(&named("a")), Order::Greater);
}

#[test]
fn a_named_test_is_run_by_its_exact_name() {
    let test = named("module::case");
    let args = test.to_cargo_test_args();
    assert_eq!(
        args.to_args(),
        vec![
            "test",
            "--no-fail-fast",
            "--color",
            "always",
            "module::case",
            "--",
            "--color",
            "always",
            "--exact"
        ]
    );
    assert_eq!(args.cargo_program, "cargo");
    assert_eq!(args.test_args, Some(&["--exact"][..]));
}

#[test]
fn a_test_for_a_target_is_run_by_its_scope() {
    let head = ["test", "--no-fail-fast", "--color", "always"];
    let tail = ["--", "--color", "always"];
    let expect = |scope: &[&str]| -> Vec<String> {
        head.iter().chain(scope.iter()).chain(tail.iter()).map(|s| s.to_string()).collect()
    };
    let integration = integration("p", "it");
    assert_eq!(integration.to_cargo_test_args().to_args(), expect(&["--package", "p", "--test", "it"]));
    assert!(integration.to_cargo_test_args().test_args.is_none());
    let examples = Test::Examples { package_name: "p".into(), target_name: "e".into() };
    assert_eq!(examples.to_cargo_test_args().to_args(), expect(&["--package", "p", "--examples"]));
    assert!(examples.to_cargo_test_args().test_args.is_none());
    let example = Test::Example { package_name: "p".into(), target_name: "e".into() };
    assert_eq!(
        example.to_cargo_test_args().to_args(),
        expect(&["--package", "p", "--example", "e"])
    );
    assert!(example.to_cargo_test_args().test_args.is_none());
}

#[test]
fn sorting_keeps_the_first_of_each_name() {
    let tests = vec![
        named("b"),
        named("a"),
        integration("z", "z"),
        named("b"),
        named("z::z [auto]"),
        named("c"),
    ];
    let sorted = sort_tests(&tests);
    assert_eq!(names(&sorted), vec!["z::z [auto]", "a", "b", "c"]);
    assert!(matches!(sorted[0], Test::IntegrationTarget { .. }));
}

#[test]
fn sorting_nothing_gives_nothing() {
    assert!(sort_tests(&Vec::new()).is_empty());
}

#[test]
fn a_clone_is_the_same_test() {
    let test = integration("p", "it");
    assert_eq!(test.clone(), test);
    assert_ne!(test, named("p::it [auto]"));
}
