use scruters::auto_group::AutoGeneratedGroup;
use scruters::custom_group::CustomGroup;
use scruters::group::Group;
use scruters::group_key::GroupKey;
use scruters::group_name::GroupName;
use scruters::groups::Groups;
use scruters::metadata::AutoGeneratedGroupMetadata;
use scruters::target_kind::TargetKind;
use scruters::test_item::Test;
use scruters::test_name::TestName;
use scruters::text::Order;

fn metadata(package: &str, target_kind: TargetKind) -> AutoGeneratedGroupMetadata {
    AutoGeneratedGroupMetadata { package_name: package.to_string(), target_kind }
}

fn named(name: &str) -> Test {
    Test::Named(TestName::new(name))
}

fn auto(package: &str, target_kind: TargetKind, tests: &[&str]) -> Group {
    Group::AutoGenerated(AutoGeneratedGroup::new(
        metadata(package, target_kind),
        tests.iter().map(|t| named(t)).collect(),
    ))
}

fn custom(name: &str, tests: &[&str]) -> Group {
    Group::Custom(CustomGroup::new(GroupName::new(name), tests.iter().map(|t| named(t)).collect()))
}

fn group_names(groups: &Groups) -> Vec<String> {
    groups.as_slice().iter().map(|g| g.name().as_str().to_string()).collect()
}

fn test_names(group: &Group) -> Vec<String> {
    group.tests().iter().map(|t| t.name().as_str().to_string()).collect()
}

fn is_sorted(groups: &Groups) -> bool {
    groups.as_slice().windows(2).all(|pair| pair[0].compare(&pair[1]) == Order::Less)
}

fn sample() -> Groups {
    let mut groups = Groups::new();
    groups.upsert(custom("mine", &["x"]));
    groups.upsert(auto("p", TargetKind::Test("it".into()), &["b", "a"]));
    groups.upsert(custom("again [auto]", &[]));
    groups.upsert(auto("p", TargetKind::Lib("p".into()), &[]));
    groups.upsert(auto("a", TargetKind::Example("e".into()), &[]));
    groups.upsert(auto("p", TargetKind::Tests(vec!["it".into()]), &[]));
    groups
}

#[test]
fn a_new_collection_is_empty() {
    let groups = Groups::new();
    assert!(groups.is_empty());
    assert_eq!(groups.len(), 0);
    assert!(groups.get(0).is_none());
    assert!(Groups::default().is_empty());
}

#[test]
fn groups_stay_sorted_after_each_upsert() {
    let mut groups = Groups::new();
    let arriving = vec![
        custom("zeta", &[]),
        auto("p", TargetKind::Example("e".into()), &[]),
        custom("alpha", &[]),
        auto("p", TargetKind::Bin("b".into()), &[]),
        auto("a", TargetKind::Example("e".into()), &[]),
        custom("first [auto]", &[]),
        auto("p", TargetKind::Tests(vec![]), &[]),
        auto("p", TargetKind::Test("t".into()), &[]),
        auto("p", TargetKind::Bin("b".into()), &["again"]),
    ];
    for group in arriving {
        groups.upsert(group);
        assert!(is_sorted(&groups));
    }
    assert_eq!(
        group_names(&groups),
        vec![
            "a::example::e [auto]",
            "p::bin::b [auto]",
            "p::tests [auto]",
            "p::test::t [auto]",
            "p::example::e [auto]",
            "first [auto]",
            "alpha",
            "zeta",
        ]
    );
}

#[test]
fn upserting_an_identity_that_is_there_replaces_its_tests_only() {
    let mut groups = sample();
    let key = GroupKey::AutoGenerated(metadata("p", TargetKind::Test("it".into())));
    assert!(groups.push_output(&key, "first line".to_string()));
    let before = groups.len();
    let place = groups.binary_search(&key).expect("the group is there");

    groups.upsert(auto("p", TargetKind::Test("it".into()), &["c"]));

    assert_eq!(groups.len(), before);
    assert_eq!(groups.binary_search(&key), Ok(place));
    let group = groups.get(place).expect("the place is within the collection");
    assert_eq!(group.name().as_str(), "p::test::it [auto]");
    assert_eq!(test_names(group), vec!["c"]);
    assert_eq!(group.output(), Some(&["first line".to_string()][..]));
    assert!(is_sorted(&groups));
}

#[test]
fn upserting_twice_is_upserting_once() {
    let mut once = sample();
    once.upsert(auto("q", TargetKind::Lib("q".into()), &["t"]));
    let mut twice = sample();
    twice.upsert(auto("q", TargetKind::Lib("q".into()), &["t"]));
    twice.upsert(auto("q", TargetKind::Lib("q".into()), &["t"]));
    assert_eq!(group_names(&once), group_names(&twice));
    for (a, b) in once.as_slice().iter().zip(twice.as_slice()) {
        assert_eq!(test_names(a), test_names(b));
    }
}

#[test]
fn an_aggregate_is_one_identity_whatever_its_members() {
    let mut groups = sample();
    let before = groups.len();
    groups.upsert(auto("p", TargetKind::Tests(vec!["it".into(), "more".into()]), &["t"]));
    assert_eq!(groups.len(), before);
    let key = GroupKey::AutoGenerated(metadata("p", TargetKind::Tests(vec![])));
    let place = groups.binary_search(&key).expect("the aggregate is there");
    assert_eq!(test_names(groups.get(place).expect("in range")), vec!["t"]);
}

#[test]
fn retaining_no_name_leaves_the_custom_groups() {
    let mut groups = sample();
    groups.retain_auto_generated(&Vec::new());
    assert_eq!(group_names(&groups), vec!["again [auto]", "mine"]);
    assert_eq!(test_names(groups.get(1).expect("in range")), vec!["x"]);
    assert!(is_sorted(&groups));
    let mut empty = Groups::new();
    empty.retain_auto_generated(&Vec::new());
    assert!(empty.is_empty());
}

#[test]
fn retaining_keeps_the_named_auto_generated_groups() {
    let mut groups = sample();
    let keep = vec![
        GroupName::new("p::lib [auto]"),
        GroupName::new("gone::lib [auto]"),
        GroupName::new("p::tests [auto]"),
    ];
    groups.retain_auto_generated(&keep);
    assert_eq!(
        group_names(&groups),
        vec!["p::lib [auto]", "p::tests [auto]", "again [auto]", "mine"]
    );
    assert!(is_sorted(&groups));
}

#[test]
fn a_custom_group_stays_though_it_is_named_like_a_dropped_one() {
    let mut groups = Groups::new();
    groups.upsert(custom("p::lib [auto]", &[]));
    groups.upsert(auto("p", TargetKind::Lib("p".into()), &[]));
    groups.retain_auto_generated(&Vec::new());
    assert_eq!(groups.len(), 1);
    assert!(matches!(groups.get(0), Some(Group::Custom(_))));
}

#[test]
fn binary_search_finds_a_place_or_where_to_insert() {
    let groups = sample();
    let lib = GroupKey::AutoGenerated(metadata("p", TargetKind::Lib("x".into())));
    assert_eq!(groups.binary_search(&lib), Err(2));
    let bin = GroupKey::AutoGenerated(metadata("p", TargetKind::Bin("x".into())));
    assert_eq!(groups.binary_search(&bin), Err(1));
    let first = GroupKey::AutoGenerated(metadata("a", TargetKind::Example("e".into())));
    assert_eq!(groups.binary_search(&first), Ok(0));
    let mine = GroupKey::Custom(GroupName::new("mine"));
    assert_eq!(groups.binary_search(&mine), Ok(5));
    let last = GroupKey::Custom(GroupName::new("zzz"));
    assert_eq!(groups.binary_search(&last), Err(6));
    let before_all = GroupKey::AutoGenerated(metadata("", TargetKind::Bin("".into())));
    assert_eq!(groups.binary_search(&before_all), Err(0));
    assert_eq!(Groups::new().binary_search(&mine), Err(0));
}

#[test]
fn a_search_by_name_finds_every_name_that_is_there() {
    let mut groups = Groups::new();
    for name in ["d", "b", "a [auto]", "c"] {
        groups.upsert(custom(name, &[]));
    }
    assert_eq!(group_names(&groups), vec!["a [auto]", "b", "c", "d"]);
    assert_eq!(groups.binary_search_by_name(&GroupName::new("a [auto]")), Some(0));
    assert_eq!(groups.binary_search_by_name(&GroupName::new("b")), Some(1));
    assert_eq!(groups.binary_search_by_name(&GroupName::new("c")), Some(2));
    assert_eq!(groups.binary_search_by_name(&GroupName::new("d")), Some(3));
    assert_eq!(groups.binary_search_by_name(&GroupName::new("e")), None);
    assert_eq!(groups.binary_search_by_name(&GroupName::new("")), None);
    assert_eq!(Groups::new().binary_search_by_name(&GroupName::new("a")), None);
}

#[test]
fn a_search_by_name_finds_groups_that_stand_out_of_name_order() {
    let groups = sample();
    assert_eq!(
        group_names(&groups),
        vec![
            "a::example::e [auto]",
            "p::lib [auto]",
            "p::tests [auto]",
            "p::test::it [auto]",
            "again [auto]",
            "mine",
        ]
    );
    for (place, name) in group_names(&groups).iter().enumerate() {
        assert_eq!(groups.binary_search_by_name(&GroupName::new(name)), Some(place));
        assert_eq!(groups.first_place_of_name(&GroupName::new(name)), place);
    }
    assert_eq!(groups.binary_search_by_name(&GroupName::new("missing")), None);
    assert_eq!(groups.binary_search_by_name(&GroupName::new("p::bin::b [auto]")), None);
    assert_eq!(groups.first_place_of_name(&GroupName::new("missing")), 6);
}

#[test]
fn a_search_by_name_for_a_name_held_twice_finds_one_of_the_two() {
    let mut groups = Groups::new();
    groups.upsert(custom("p::lib [auto]", &[]));
    groups.upsert(auto("p", TargetKind::Lib("p".into()), &[]));
    let found = groups.binary_search_by_name(&GroupName::new("p::lib [auto]"));
    assert!(found == Some(0) || found == Some(1));
    assert_eq!(groups.first_place_of_name(&GroupName::new("p::lib [auto]")), 0);
}

#[test]
fn a_line_reaches_the_group_that_owns_it_and_no_other() {
    let mut groups = sample();
    let a = GroupKey::AutoGenerated(metadata("p", TargetKind::Lib("p".into())));
    let b = GroupKey::AutoGenerated(metadata("p", TargetKind::Test("it".into())));
    assert!(groups.push_output(&a, "from a".to_string()));
    assert!(groups.push_output(&b, "from b".to_string()));
    assert!(groups.push_output(&a, "late from a".to_string()));
    let place_a = groups.binary_search(&a).expect("a is there");
    let place_b = groups.binary_search(&b).expect("b is there");
    assert_eq!(
        groups.get(place_a).expect("in range").output(),
        Some(&["from a".to_string(), "late from a".to_string()][..])
    );
    assert_eq!(groups.get(place_b).expect("in range").output(), Some(&["from b".to_string()][..]));
    for (place, group) in groups.as_slice().iter().enumerate() {
        if place != place_a && place != place_b {
            assert!(group.output().is_none());
        }
    }
}

#[test]
fn a_line_for_a_group_that_is_gone_is_dropped() {
    let mut groups = sample();
    let gone = GroupKey::AutoGenerated(metadata("gone", TargetKind::Lib("gone".into())));
    assert!(!groups.push_output(&gone, "stale".to_string()));
    assert!(groups.as_slice().iter().all(|g| g.output().is_none()));
    assert_eq!(groups.len(), 6);
}

#[test]
fn output_is_reset_by_place() {
    let mut groups = sample();
    let mine = GroupKey::Custom(GroupName::new("mine"));
    assert!(groups.push_output(&mine, "line".to_string()));
    groups.reset_output(5);
    assert!(groups.get(5).expect("in range").output().is_none());
    groups.reset_output(99);
    assert_eq!(groups.len(), 6);
}

#[test]
fn a_group_is_inserted_only_where_its_identity_is_new() {
    let mut groups = sample();
    assert!(!groups.insert_new(auto("p", TargetKind::Test("it".into()), &[])));
    let key = GroupKey::AutoGenerated(metadata("p", TargetKind::Test("it".into())));
    let place = groups.binary_search(&key).expect("the group is there");
    assert_eq!(test_names(groups.get(place).expect("in range")), vec!["a", "b"]);
    assert!(groups.insert_new(auto("q", TargetKind::Lib("q".into()), &[])));
    assert_eq!(groups.len(), 7);
    assert!(is_sorted(&groups));
}

#[test]
fn a_collection_is_made_from_groups_in_any_order() {
    let groups = Groups::from_groups(vec![
        custom("b", &["1"]),
        custom("a", &[]),
        custom("b", &["2"]),
        auto("p", TargetKind::Lib("p".into()), &[]),
    ]);
    assert_eq!(group_names(&groups), vec!["p::lib [auto]", "a", "b"]);
    assert_eq!(test_names(groups.get(2).expect("in range")), vec!["2"]);
    assert_eq!(groups.custom_group_places(), vec![1, 2]);
    assert!(Groups::from_groups(Vec::new()).is_empty());
}

#[test]
fn a_group_knows_its_identity_and_command() {
    let group = auto("p", TargetKind::Lib("p".into()), &[]);
    assert!(matches!(group.as_group_key(), GroupKey::AutoGenerated(_)));
    let args = group.to_cargo_test_args().expect("an auto-generated group has a command");
    assert_eq!(
        args.to_args(),
        vec![
            "test",
            "--no-fail-fast",
            "--color",
            "always",
            "--package",
            "p",
            "--lib",
            "--",
            "--color",
            "always"
        ]
    );
    let mine = custom("mine", &[]);
    assert!(mine.to_cargo_test_args().is_none());
    assert!(matches!(mine.as_group_key(), GroupKey::Custom(name) if name.as_str() == "mine"));
    assert_eq!(group.compare(&mine), Order::Less);
    assert_eq!(mine.compare(&group), Order::Greater);
}

#[test]
fn a_group_takes_the_tests_of_another_and_keeps_its_output() {
    let mut group = auto("p", TargetKind::Lib("p".into()), &["old"]);
    group.push_output("seen".to_string());
    group.update_group(auto("p", TargetKind::Lib("p".into()), &["new", "newer"]));
    assert_eq!(test_names(&group), vec!["new", "newer"]);
    assert_eq!(group.output(), Some(&["seen".to_string()][..]));
    group.reset_output();
    assert!(group.output().is_none());
    let taken = group.replace_output(Some(vec!["put".to_string()]));
    assert!(taken.is_none());
    assert_eq!(group.output(), Some(&["put".to_string()][..]));

    let mut mine = custom("mine", &["b", "a", "b"]);
    assert_eq!(test_names(&mine), vec!["a", "b"]);
    mine.push_output("one".to_string());
    mine.push_output("two".to_string());
    mine.update_group(custom("mine", &["c"]));
    assert_eq!(test_names(&mine), vec!["c"]);
    assert_eq!(mine.output(), Some(&["one".to_string(), "two".to_string()][..]));
}
