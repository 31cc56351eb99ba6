//! Finding the tests of a group: the listing command and what its output means.

use std::borrow::Cow;
use vstd::prelude::*;
use crate::auto_group::{target_tests, AutoGeneratedGroup, AutoGroupView};
use crate::cargo::{scope_arguments, CargoTestArgs};
use crate::group::Group;
use crate::metadata::{AutoGeneratedGroupMetadata, MetadataView};
use crate::target_kind::TargetKind;
use crate::test_item::{Test, TestView};
use crate::test_list::sorted_tests;
use crate::test_name::TestName;
use crate::text::{contains_whitespace, drop_last_chars, str_ends_with};
use crate::text::{has_suffix, has_whitespace, without_last};

verus! {

/// What a line of the listing ends with when it names a test.
pub const TEST_LINE_SUFFIX: &'static str = ": test";

/// The characters of [`TEST_LINE_SUFFIX`].
pub open spec fn test_line_suffix() -> Seq<char> {
    seq![':', ' ', 't', 'e', 's', 't']
}

/// The test that a line of the listing names: the line ends with the suffix, and what
/// stands before it is not empty and holds no white space. Any other line names none.
pub open spec fn listed_test(line: Seq<char>) -> Option<Seq<char>> {
    if has_suffix(line, test_line_suffix()) {
        let name = without_last(line, test_line_suffix().len());
        if name.len() > 0 && !has_whitespace(name) {
            Some(name)
        } else {
            None
        }
    } else {
        None
    }
}

/// The tests that the lines of a listing name, in the order of the lines.
pub open spec fn listed_tests(lines: Seq<Seq<char>>) -> Seq<Seq<char>>
    decreases lines.len(),
{
    if lines.len() == 0 {
        seq![]
    } else {
        let before = listed_tests(lines.drop_last());
        match listed_test(lines.last()) {
            Some(name) => before.push(name),
            None => before,
        }
    }
}

/// The tests of a group whose listing printed `lines`: the named tests of the listing,
/// then the tests that stand for whole targets.
pub open spec fn discovered_tests(metadata: MetadataView, lines: Seq<Seq<char>>) -> Seq<TestView> {
    listed_tests(lines).map_values(|name: Seq<char>| TestView::Named(name)) + target_tests(
        metadata,
    )
}

/// The suffix of a line that names a test.
pub fn test_line_suffix_str() -> (r: &'static str)
    ensures
        r@ == test_line_suffix(),
{
    proof {
        reveal_strlit(": test");
        assert(": test"@ =~= test_line_suffix());
    }
    TEST_LINE_SUFFIX
}

/// The test that a line of the listing names, if it names one.
pub fn parse_test_line(line: &str) -> (r: Option<String>)
    ensures
        r.deep_view() == listed_test(line@),
{
    if str_ends_with(line, test_line_suffix_str()) {
        match drop_last_chars(line, 6) {
            Some(name) => {
                if name.as_str().is_empty() || contains_whitespace(name.as_str()) {
                    None
                } else {
                    Some(name)
                }
            },
            None => None,
        }
    } else {
        None
    }
}

/// The tests that the lines of a listing name, in the order of the lines.
pub fn parse_test_lines(lines: &Vec<String>) -> (r: Vec<String>)
    ensures
        r.deep_view() == listed_tests(lines.deep_view()),
{
    let mut names: Vec<String> = Vec::new();
    let ghost all = lines.deep_view();
    assert(names.deep_view() =~= listed_tests(all.take(0)));
    for i in 0..lines.len()
        invariant
            all == lines.deep_view(),
            names.deep_view() == listed_tests(all.take(i as int)),
    {
        assert(all.take(i + 1).drop_last() =~= all.take(i as int));
        assert(all.take(i + 1).last() == lines[i as int]@);
        let ghost before = names.deep_view();
        match parse_test_line(lines[i].as_str()) {
            Some(name) => {
                names.push(name);
                assert(names.deep_view() =~= before.push(name@));
            },
            None => {},
        }
    }
    assert(all.take(all.len() as int) =~= all);
    names
}

/// What decides the arguments of the command that lists the tests of an identity: its
/// scope, no colour, and the demand to list.
pub fn listing_args(metadata: &AutoGeneratedGroupMetadata) -> (r: CargoTestArgs<'static>)
    ensures
        r.cargo_program@ == "cargo"@,
        !r.color,
        r.list,
        !r.fail_fast,
        r.args is Some,
        scope_arguments(r.args) == metadata@.scope(),
        r.test_args is None,
{
    let args = match metadata.to_args() {
        Some(args) => Some(Cow::Owned(args)),
        None => None,
    };
    CargoTestArgs {
        cargo_program: "cargo",
        color: false,
        list: true,
        fail_fast: false,
        args,
        test_args: None,
    }
}

fn push_test(tests: &mut Vec<Test>, test: Test)
    ensures
        final(tests).deep_view() == old(tests).deep_view().push(test@),
        final(tests).len() == old(tests).len() + 1,
{
    tests.push(test);
    assert(tests.deep_view() =~= old(tests).deep_view().push(test@));
}

/// The tests that stand for whole targets of an identity.
pub fn tests_of_targets(metadata: &AutoGeneratedGroupMetadata) -> (r: Vec<Test>)
    ensures
        r.deep_view() == target_tests(metadata@),
{
    let mut tests: Vec<Test> = Vec::new();
    match &metadata.target_kind {
        TargetKind::Tests(names) => {
            for i in 0..names.len()
                invariant
                    tests.len() == i,
                    forall|k: int|
                        0 <= k < i ==> tests.deep_view()[k] == (TestView::IntegrationTarget {
                            package_name: metadata@.package_name,
                            target_name: names.deep_view()[k],
                        }),
            {
                push_test(
                    &mut tests,
                    Test::IntegrationTarget {
                        package_name: metadata.package_name.clone(),
                        target_name: names[i].clone(),
                    },
                );
            }
            assert(tests.deep_view() =~= target_tests(metadata@));
        },
        TargetKind::Examples(names) => {
            for i in 0..names.len()
                invariant
                    tests.len() == i,
                    forall|k: int|
                        0 <= k < i ==> tests.deep_view()[k] == (TestView::Examples {
                            package_name: metadata@.package_name,
                            target_name: names.deep_view()[k],
                        }),
            {
                push_test(
                    &mut tests,
                    Test::Examples {
                        package_name: metadata.package_name.clone(),
                        target_name: names[i].clone(),
                    },
                );
            }
            assert(tests.deep_view() =~= target_tests(metadata@));
        },
        TargetKind::Example(target_name) => {
            push_test(
                &mut tests,
                Test::Example {
                    package_name: metadata.package_name.clone(),
                    target_name: target_name.clone(),
                },
            );
            assert(tests.deep_view() =~= target_tests(metadata@));
        },
        _ => {
            assert(tests.deep_view() =~= target_tests(metadata@));
        },
    }
    tests
}

/// The group of an identity whose listing printed `lines`: its tests are the tests that
/// the lines name and the tests that stand for whole targets, sorted, the first of each
/// name.
pub fn from_listing(metadata: AutoGeneratedGroupMetadata, lines: &Vec<String>) -> (r:
    AutoGeneratedGroup)
    ensures
        r@ == (AutoGroupView {
            name: metadata@.group_name(),
            metadata: metadata@,
            tests: sorted_tests(discovered_tests(metadata@, lines.deep_view())),
            output: None,
        }),
        r@.well_formed(),
{
    let names = parse_test_lines(lines);
    let mut tests: Vec<Test> = Vec::new();
    let ghost listed = names.deep_view();
    for i in 0..names.len()
        invariant
            listed == names.deep_view(),
            tests.len() == i,
            forall|k: int| 0 <= k < i ==> tests.deep_view()[k] == TestView::Named(listed[k]),
    {
        push_test(&mut tests, Test::Named(TestName(names[i].clone())));
    }
    let mut targets = tests_of_targets(&metadata);
    let ghost named = tests.deep_view();
    let ghost synthesized = targets.deep_view();
    assert(named =~= listed.map_values(|name: Seq<char>| TestView::Named(name)));
    tests.append(&mut targets);
    assert(tests.deep_view() =~= named + synthesized);
    AutoGeneratedGroup::new(metadata, tests)
}

/// What a discovery gives when it ends: nothing where it was cancelled, else the group
/// that the listing gives.
pub fn finish_discovery(
    metadata: AutoGeneratedGroupMetadata,
    lines: &Vec<String>,
    cancelled: bool,
) -> (r: Option<Group>)
    ensures
        cancelled ==> r is None,
        !cancelled ==> r is Some && r->0@ == crate::group::GroupView::AutoGenerated(
            AutoGroupView {
                name: metadata@.group_name(),
                metadata: metadata@,
                tests: sorted_tests(discovered_tests(metadata@, lines.deep_view())),
                output: None,
            },
        ),
{
    if cancelled {
        None
    } else {
        Some(Group::AutoGenerated(from_listing(metadata, lines)))
    }
}

} // verus!
