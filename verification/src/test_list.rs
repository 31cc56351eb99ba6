//! Lists of tests in ascending order of their names, no name twice.

use vstd::prelude::*;
use crate::name::{by_name, name_order};
use crate::name::{lemma_by_name_is_order, lemma_name_order_equal, lemma_name_order_transitive};
use crate::sorted::{lower_bound, strictly_sorted};
use crate::sorted::{lemma_holds, lemma_insert_sorted, lemma_lower_bound, lemma_lower_bound_is};
use crate::test_item::{test_name, Test, TestView};
use crate::test_name::TestName;
use crate::text::Order;

verus! {

/// The names of the tests, in order.
pub open spec fn test_names(tests: Seq<TestView>) -> Seq<Seq<char>> {
    tests.map_values(|t: TestView| t.name())
}

/// The tests stand in strictly ascending order of their names.
pub open spec fn tests_sorted(tests: Seq<TestView>) -> bool {
    strictly_sorted(test_names(tests), by_name())
}

/// The place of the test named `name` in a sorted list, or the place to insert it.
pub open spec fn test_place(tests: Seq<TestView>, name: Seq<char>) -> int {
    lower_bound(test_names(tests), name, by_name())
}

/// `tests` with `test` inserted at the place that its name gives it; unchanged where a
/// test of that name is there.
pub open spec fn with_test(tests: Seq<TestView>, test: TestView) -> Seq<TestView> {
    if test_names(tests).contains(test.name()) {
        tests
    } else {
        tests.insert(test_place(tests, test.name()), test)
    }
}

/// `tests` with each test of `more` inserted in turn.
pub open spec fn with_tests(tests: Seq<TestView>, more: Seq<TestView>) -> Seq<TestView>
    decreases more.len(),
{
    if more.len() == 0 {
        tests
    } else {
        with_test(with_tests(tests, more.drop_last()), more.last())
    }
}

/// The sorted list of the given tests: the first of each name, in ascending order of the
/// names.
pub open spec fn sorted_tests(tests: Seq<TestView>) -> Seq<TestView> {
    with_tests(seq![], tests)
}

/// Inserting a test keeps a list sorted.
pub proof fn lemma_with_test_sorted(tests: Seq<TestView>, test: TestView)
    requires
        tests_sorted(tests),
    ensures
        tests_sorted(with_test(tests, test)),
{
    let names = test_names(tests);
    let name = test.name();
    if !names.contains(name) {
        lemma_by_name_is_order();
        assert forall|i: int| 0 <= i < names.len() implies by_name()(#[trigger] names[i], name)
            != Order::Equal by {
            lemma_name_order_equal(names[i], name);
        }
        lemma_insert_sorted(names, name, by_name());
        lemma_lower_bound(names, name, by_name());
        assert(test_names(tests.insert(test_place(tests, name), test)) =~= names.insert(
            test_place(tests, name),
            name,
        ));
    }
}

/// Inserting tests one after another keeps a list sorted.
pub proof fn lemma_with_tests_sorted(tests: Seq<TestView>, more: Seq<TestView>)
    requires
        tests_sorted(tests),
    ensures
        tests_sorted(with_tests(tests, more)),
    decreases more.len(),
{
    if more.len() > 0 {
        lemma_with_tests_sorted(tests, more.drop_last());
        lemma_with_test_sorted(with_tests(tests, more.drop_last()), more.last());
    }
}

/// After a test has been inserted, a test of its name is in the list, and so is every test
/// that was there.
pub proof fn lemma_with_test_holds(tests: Seq<TestView>, test: TestView)
    ensures
        test_names(with_test(tests, test)).contains(test.name()),
        forall|i: int|
            0 <= i < tests.len() ==> with_test(tests, test).contains(#[trigger] tests[i]),
        with_test(tests, test).len() == tests.len() + (if test_names(tests).contains(
            test.name(),
        ) {
            0int
        } else {
            1int
        }),
{
    let names = test_names(tests);
    let name = test.name();
    if !names.contains(name) {
        let place = test_place(tests, name);
        lemma_lower_bound(names, name, by_name());
        let after = tests.insert(place, test);
        assert(test_names(after)[place] == name);
        assert forall|i: int| 0 <= i < tests.len() implies after.contains(
            #[trigger] tests[i],
        ) by {
            if i < place {
                assert(after[i] == tests[i]);
            } else {
                assert(after[i + 1] == tests[i]);
            }
        }
    } else {
        assert forall|i: int| 0 <= i < tests.len() implies tests.contains(#[trigger] tests[i]) by {
        }
    }
}

/// The place of `name` in the list, and whether a test of that name is there.
pub(crate) fn find_test(tests: &Vec<Test>, name: &TestName) -> (r: (usize, bool))
    requires
        tests_sorted(tests.deep_view()),
    ensures
        r.0 == test_place(tests.deep_view(), name@),
        r.0 <= tests.len(),
        r.1 == test_names(tests.deep_view()).contains(name@),
        r.1 ==> r.0 < tests.len() && tests[r.0 as int]@.name() == name@,
{
    let ghost names = test_names(tests.deep_view());
    let mut lo: usize = 0;
    let mut hi: usize = tests.len();
    while lo < hi
        invariant
            0 <= lo <= hi <= tests.len(),
            names == test_names(tests.deep_view()),
            strictly_sorted(names, by_name()),
            forall|j: int| 0 <= j < lo ==> name_order(#[trigger] names[j], name@) == Order::Less,
            forall|j: int|
                hi <= j < names.len() ==> name_order(#[trigger] names[j], name@) != Order::Less,
        decreases hi - lo,
    {
        let mid = lo + (hi - lo) / 2;
        let mid_name = tests[mid].name();
        assert(names[mid as int] == mid_name@);
        match test_name(&mid_name).compare(name) {
            Order::Less => {
                assert forall|j: int| 0 <= j < mid + 1 implies name_order(
                    #[trigger] names[j],
                    name@,
                ) == Order::Less by {
                    if j < mid {
                        assert(by_name()(names[j], names[mid as int]) == Order::Less);
                        lemma_name_order_transitive(names[j], names[mid as int], name@);
                    }
                }
                lo = mid + 1;
            },
            _ => {
                assert forall|j: int| mid <= j < names.len() implies name_order(
                    #[trigger] names[j],
                    name@,
                ) != Order::Less by {
                    if j > mid {
                        assert(by_name()(names[mid as int], names[j]) == Order::Less);
                        if name_order(names[j], name@) == Order::Less {
                            lemma_name_order_transitive(names[mid as int], names[j], name@);
                        }
                    }
                }
                hi = mid;
            },
        }
    }
    proof {
        assert forall|j: int| 0 <= j < lo implies by_name()(#[trigger] names[j], name@)
            == Order::Less by {
            assert(name_order(names[j], name@) == Order::Less);
        }
        lemma_lower_bound_is(names, name@, by_name(), lo as int);
        lemma_by_name_is_order();
        lemma_holds(names, name@, by_name());
        assert forall|i: int| 0 <= i < names.len() implies (by_name()(#[trigger] names[i], name@)
            == Order::Equal <==> names[i] == name@) by {
            lemma_name_order_equal(names[i], name@);
        }
    }
    if lo < tests.len() {
        let found_name = tests[lo].name();
        let found = match test_name(&found_name).compare(name) {
            Order::Equal => true,
            _ => false,
        };
        proof {
            lemma_name_order_equal(names[lo as int], name@);
            if found {
                assert(names[lo as int] == name@);
            }
        }
        (lo, found)
    } else {
        (lo, false)
    }
}

/// Inserts `test` at the place that its name gives it, unless a test of that name is there.
pub(crate) fn insert_test(tests: &mut Vec<Test>, test: Test)
    requires
        tests_sorted(old(tests).deep_view()),
    ensures
        final(tests).deep_view() == with_test(old(tests).deep_view(), test@),
        tests_sorted(final(tests).deep_view()),
{
    proof {
        lemma_with_test_sorted(tests.deep_view(), test@);
    }
    let name = test.name();
    let (place, found) = find_test(tests, test_name(&name));
    if !found {
        tests.insert(place, test);
        assert(tests.deep_view() =~= old(tests).deep_view().insert(place as int, test@));
    }
}

/// Inserts a copy of each test of `more`, in turn.
pub(crate) fn insert_tests(tests: &mut Vec<Test>, more: &Vec<Test>)
    requires
        tests_sorted(old(tests).deep_view()),
    ensures
        final(tests).deep_view() == with_tests(old(tests).deep_view(), more.deep_view()),
        tests_sorted(final(tests).deep_view()),
{
    let ghost all = more.deep_view();
    assert(all.take(0) =~= seq![]);
    for i in 0..more.len()
        invariant
            all == more.deep_view(),
            tests.deep_view() == with_tests(old(tests).deep_view(), all.take(i as int)),
            tests_sorted(tests.deep_view()),
    {
        assert(all.take(i + 1).drop_last() =~= all.take(i as int));
        assert(all.take(i + 1).last() == more[i as int]@);
        insert_test(tests, more[i].clone());
    }
    assert(all.take(all.len() as int) =~= all);
}

/// The sorted list of the given tests.
pub fn sort_tests(tests: &Vec<Test>) -> (r: Vec<Test>)
    ensures
        r.deep_view() == sorted_tests(tests.deep_view()),
        tests_sorted(r.deep_view()),
{
    let mut sorted: Vec<Test> = Vec::new();
    assert(sorted.deep_view() =~= seq![]);
    assert(test_names(seq![]) =~= seq![]);
    insert_tests(&mut sorted, tests);
    sorted
}

} // verus!
