use scruters::metadata::AutoGeneratedGroupMetadata;
use scruters::target_kind::TargetKind;
use scruters::text::Order;

fn metadata(package: &str, target_kind: TargetKind) -> AutoGeneratedGroupMetadata {
    AutoGeneratedGroupMetadata { package_name: package.to_string(), target_kind }
}

fn strs(args: Option<Vec<std::borrow::Cow<'static, str>>>) -> Vec<String> {
    args.expect("the scope is always there").into_iter().map(|a| a.into_owned()).collect()
}

#[test]
fn classifications_follow_the_precedence() {
    let kinds = [
        TargetKind::Bin("z".to_string()),
        TargetKind::Lib("y".to_string()),
        TargetKind::Tests(vec!["x".to_string()]),
        TargetKind::Test("w".to_string()),
        TargetKind::Examples(vec!["v".to_string()]),
        TargetKind::Example("u".to_string()),
    ];
    for i in 0..kinds.len() {
        for j in 0..kinds.len() {
            let expected = if i < j {
                Order::Less
            } else if i == j {
                Order::Equal
            } else {
                Order::Greater
            };
            assert_eq!(kinds[i].compare(&kinds[j]), expected);
        }
    }
}

#[test]
fn classifications_of_one_variant_compare_by_name() {
    assert_eq!(TargetKind::Bin("a".into()).compare(&TargetKind::Bin("b".into())), Order::Less);
    assert_eq!(TargetKind::Test("b".into()).compare(&TargetKind::Test("a".into())), Order::Greater);
    assert!(TargetKind::Example("a".into()) < TargetKind::Example("b".into()));
    assert!(TargetKind::Lib("a".into()) == TargetKind::Lib("a".into()));
    assert!(TargetKind::Lib("a".into()) != TargetKind::Lib("b".into()));
    assert!(TargetKind::Lib("a".into()) != TargetKind::Bin("a".into()));
}

#[test]
fn aggregates_are_equal_whatever_their_members() {
    let one = TargetKind::Tests(vec!["a".to_string()]);
    let two = TargetKind::Tests(vec!["b".to_string(), "c".to_string()]);
    assert!(one == two);
    assert_eq!(one.compare(&two), Order::Equal);
    let examples = TargetKind::Examples(vec![]);
    assert!(examples == TargetKind::Examples(vec!["x".to_string()]));
    assert!(one != examples);
    assert!(metadata("p", one) == metadata("p", two));
}

#[test]
fn classifications_are_written_for_group_names() {
    assert_eq!(TargetKind::Bin("b".into()).to_string(), "bin::b");
    assert_eq!(TargetKind::Lib("l".into()).to_string(), "lib");
    assert_eq!(TargetKind::Test("t".into()).to_string(), "test::t");
    assert_eq!(TargetKind::Tests(vec!["t".into()]).to_string(), "tests");
    assert_eq!(TargetKind::Example("e".into()).to_string(), "example::e");
    assert_eq!(TargetKind::Examples(vec![]).to_string(), "examples");
}

#[test]
fn group_names_carry_package_classification_and_marker() {
    assert_eq!(metadata("p", TargetKind::Lib("p".into())).group_name().as_str(), "p::lib [auto]");
    assert_eq!(
        metadata("p", TargetKind::Test("it".into())).group_name().as_str(),
        "p::test::it [auto]"
    );
    assert_eq!(
        metadata("p", TargetKind::Tests(vec!["it".into()])).group_name().as_str(),
        "p::tests [auto]"
    );
    assert!(metadata("p", TargetKind::Bin("b".into())).group_name().is_auto_generated());
}

#[test]
fn scope_arguments_select_package_and_target() {
    assert_eq!(
        strs(metadata("p", TargetKind::Bin("b".into())).to_args()),
        vec!["--package", "p", "--bin", "b"]
    );
    assert_eq!(
        strs(metadata("p", TargetKind::Lib("l".into())).to_args()),
        vec!["--package", "p", "--lib"]
    );
    assert_eq!(
        strs(metadata("p", TargetKind::Test("t".into())).to_args()),
        vec!["--package", "p", "--test", "t"]
    );
    assert_eq!(
        strs(metadata("p", TargetKind::Tests(vec!["t".into()])).to_args()),
        vec!["--package", "p", "--test", "*"]
    );
    assert_eq!(
        strs(metadata("p", TargetKind::Example("e".into())).to_args()),
        vec!["--package", "p", "--example", "e"]
    );
    assert_eq!(
        strs(metadata("p", TargetKind::Examples(vec!["e".into()])).to_args()),
        vec!["--package", "p", "--examples"]
    );
}

#[test]
fn identities_compare_by_package_first() {
    let a_example = metadata("a", TargetKind::Example("z".into()));
    let b_bin = metadata("b", TargetKind::Bin("a".into()));
    assert_eq!(a_example.compare(&b_bin), Order::Less);
    assert!(a_example < b_bin);
    let a_bin = metadata("a", TargetKind::Bin("a".into()));
    assert_eq!(a_bin.compare(&a_example), Order::Less);
    assert_eq!(a_bin.compare(&a_bin.clone()), Order::Equal);
    // a marker in the package name plays no part here
    let marked = metadata("z [auto]", TargetKind::Lib("l".into()));
    assert_eq!(a_bin.compare(&marked), Order::Less);
}
