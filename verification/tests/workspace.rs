use scruters::metadata::AutoGeneratedGroupMetadata;
use scruters::target_kind::TargetKind;
use scruters::workspace::{
    aggregate_entries, all_from_metadata, classify_target, single_target_entries, Package, Target,
    WorkspaceMetadata,
};

fn target(name: &str, kinds: &[&str]) -> Target {
    Target { name: name.to_string(), kind: kinds.iter().map(|k| k.to_string()).collect() }
}

fn package(name: &str, targets: Vec<Target>) -> Package {
    Package { name: name.to_string(), targets }
}

fn describe(entry: &AutoGeneratedGroupMetadata) -> String {
    let kind = match &entry.target_kind {
        TargetKind::Bin(name) => format!("Bin({name})"),
        TargetKind::Lib(name) => format!("Lib({name})"),
        TargetKind::Test(name) => format!("Test({name})"),
        TargetKind::Example(name) => format!("Example({name})"),
        TargetKind::Tests(names) => format!("Tests({})", names.join(",")),
        TargetKind::Examples(names) => format!("Examples({})", names.join(",")),
    };
    format!("{}/{}", entry.package_name, kind)
}

fn described(entries: &[AutoGeneratedGroupMetadata]) -> Vec<String> {
    entries.iter().map(describe).collect()
}

#[test]
fn library_and_test_target_give_three_identities() {
    let metadata = WorkspaceMetadata {
        packages: vec![package("p", vec![target("p", &["lib"]), target("it", &["test"])])],
    };
    assert_eq!(
        described(&all_from_metadata(&metadata)),
        vec!["p/Lib(p)", "p/Test(it)", "p/Tests(it)"]
    );
}

#[test]
fn targets_of_other_kinds_give_nothing() {
    let metadata = WorkspaceMetadata {
        packages: vec![package(
            "p",
            vec![target("b", &["bench"]), target("build-script-build", &["custom-build"])],
        )],
    };
    assert!(all_from_metadata(&metadata).is_empty());
    assert!(classify_target("bench", "b").is_none());
    assert!(classify_target("", "b").is_none());
    assert!(classify_target("Bin", "b").is_none());
}

#[test]
fn kinds_are_classified() {
    assert!(matches!(classify_target("bin", "x"), Some(TargetKind::Bin(name)) if name == "x"));
    assert!(matches!(classify_target("lib", "x"), Some(TargetKind::Lib(name)) if name == "x"));
    assert!(matches!(classify_target("test", "x"), Some(TargetKind::Test(name)) if name == "x"));
    assert!(
        matches!(classify_target("example", "x"), Some(TargetKind::Example(name)) if name == "x")
    );
}

#[test]
fn an_empty_workspace_gives_nothing() {
    assert!(all_from_metadata(&WorkspaceMetadata { packages: vec![] }).is_empty());
    let metadata = WorkspaceMetadata { packages: vec![package("p", vec![])] };
    assert!(all_from_metadata(&metadata).is_empty());
}

#[test]
fn test_and_example_targets_are_gathered_by_package() {
    let metadata = WorkspaceMetadata {
        packages: vec![
            package(
                "a",
                vec![
                    target("a", &["bin"]),
                    target("t1", &["test"]),
                    target("e1", &["example"]),
                    target("t2", &["test"]),
                ],
            ),
            package("b", vec![target("e2", &["example"]), target("e3", &["example"])]),
        ],
    };
    assert_eq!(
        described(&all_from_metadata(&metadata)),
        vec![
            "a/Bin(a)",
            "a/Test(t1)",
            "a/Example(e1)",
            "a/Test(t2)",
            "b/Example(e2)",
            "b/Example(e3)",
            "a/Tests(t1,t2)",
            "a/Examples(e1)",
            "b/Examples(e2,e3)",
        ]
    );
}

#[test]
fn a_target_of_several_kinds_gives_one_identity_for_each() {
    let metadata =
        WorkspaceMetadata { packages: vec![package("p", vec![target("x", &["lib", "bench", "bin"])])] };
    assert_eq!(described(&all_from_metadata(&metadata)), vec!["p/Lib(x)", "p/Bin(x)"]);
}

#[test]
fn a_target_named_twice_is_one_member() {
    let metadata = WorkspaceMetadata {
        packages: vec![package("p", vec![target("t", &["test"]), target("t", &["test"])])],
    };
    let singles = single_target_entries(&metadata);
    assert_eq!(described(&singles), vec!["p/Test(t)", "p/Test(t)"]);
    assert_eq!(described(&aggregate_entries(&singles)), vec!["p/Tests(t)"]);
}
