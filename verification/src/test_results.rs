//! What the runs of single tests have given.

use vstd::prelude::*;
use crate::test_item::{Test, TestView};
use crate::text::str_eq;

verus! {

/// What the last run of a test has given: whether it passed, as far as known, and what it
/// printed.
#[derive(Debug)]
pub struct TestResult {
    pub passed: Option<bool>,
    pub output: Vec<String>,
}

/// The mathematical value of a [`TestResult`].
pub struct TestResultView {
    pub passed: Option<bool>,
    pub output: Seq<Seq<char>>,
}

impl View for TestResult {
    type V = TestResultView;

    open spec fn view(&self) -> TestResultView {
        TestResultView { passed: self.passed, output: self.output.deep_view() }
    }
}

impl DeepView for TestResult {
    type V = TestResultView;

    open spec fn deep_view(&self) -> TestResultView {
        self@
    }
}

impl Default for TestResult {
    fn default() -> (r: Self)
        ensures
            r@ == (TestResultView { passed: None, output: seq![] }),
    {
        let output: Vec<String> = Vec::new();
        assert(output.deep_view() =~= seq![]);
        TestResult { passed: None, output }
    }
}

impl TestResult {
    /// Forgets the result: not known to have passed, nothing printed.
    pub fn reset(&mut self)
        ensures
            final(self)@ == (TestResultView { passed: None, output: seq![] }),
    {
        self.passed = None;
        self.output.clear();
        assert(self.output.deep_view() =~= seq![]);
    }
}

/// Whether two tests are the same: of one variant, with the same names.
pub fn same_test(a: &Test, b: &Test) -> (r: bool)
    ensures
        r == (a@ == b@),
{
    match (a, b) {
        (Test::Named(x), Test::Named(y)) => str_eq(x.as_str(), y.as_str()),
        (
            Test::IntegrationTarget { package_name: p, target_name: t },
            Test::IntegrationTarget { package_name: q, target_name: u },
        ) => str_eq(p.as_str(), q.as_str()) && str_eq(t.as_str(), u.as_str()),
        (
            Test::Examples { package_name: p, target_name: t },
            Test::Examples { package_name: q, target_name: u },
        ) => str_eq(p.as_str(), q.as_str()) && str_eq(t.as_str(), u.as_str()),
        (
            Test::Example { package_name: p, target_name: t },
            Test::Example { package_name: q, target_name: u },
        ) => str_eq(p.as_str(), q.as_str()) && str_eq(t.as_str(), u.as_str()),
        _ => false,
    }
}

/// The place of the first result of `test`, or the number of results where there is none.
pub open spec fn result_place(results: Seq<(TestView, TestResultView)>, test: TestView) -> int
    decreases results.len(),
{
    if results.len() == 0 || results[0].0 == test {
        0
    } else {
        1 + result_place(results.drop_first(), test)
    }
}

/// The results after a run of `test` has started: its result is forgotten, or a new, empty
/// one is added at the end.
pub open spec fn with_started(results: Seq<(TestView, TestResultView)>, test: TestView) -> Seq<
    (TestView, TestResultView),
> {
    let place = result_place(results, test);
    let fresh = (test, TestResultView { passed: None, output: seq![] });
    if place < results.len() {
        results.update(place, fresh)
    } else {
        results.push(fresh)
    }
}

/// The results after the run of `test` has printed `line`; unchanged where `test` has no
/// result.
pub open spec fn with_test_line(
    results: Seq<(TestView, TestResultView)>,
    test: TestView,
    line: Seq<char>,
) -> Seq<(TestView, TestResultView)> {
    let place = result_place(results, test);
    if place < results.len() {
        results.update(
            place,
            (
                test,
                TestResultView {
                    passed: results[place].1.passed,
                    output: results[place].1.output.push(line),
                },
            ),
        )
    } else {
        results
    }
}

/// What `result_place` gives: a place with no result of `test` before it, and with one at
/// it unless it is the end.
pub proof fn lemma_result_place(results: Seq<(TestView, TestResultView)>, test: TestView, i: int)
    requires
        0 <= i <= results.len(),
        forall|k: int| 0 <= k < i ==> (#[trigger] results[k]).0 != test,
        i < results.len() ==> results[i].0 == test,
    ensures
        result_place(results, test) == i,
    decreases i,
{
    if i > 0 {
        let rest = results.drop_first();
        assert(results[0].0 != test);
        assert forall|k: int| 0 <= k < i - 1 implies (#[trigger] rest[k]).0 != test by {
            assert(rest[k] == results[k + 1]);
        }
        lemma_result_place(rest, test, i - 1);
    }
}

fn reset_entry(entry: &mut (Test, TestResult))
    ensures
        final(entry).0 == old(entry).0,
        final(entry).1@ == (TestResultView { passed: None, output: seq![] }),
{
    entry.1.reset();
}

fn push_entry_line(entry: &mut (Test, TestResult), line: String)
    ensures
        final(entry).0 == old(entry).0,
        final(entry).1@ == (TestResultView {
            passed: old(entry).1@.passed,
            output: old(entry).1@.output.push(line@),
        }),
{
    let ghost lines = entry.1.output.deep_view();
    entry.1.output.push(line);
    assert(entry.1.output.deep_view() =~= lines.push(line@));
}

/// The results of the runs of single tests, each test with what its last run gave.
#[derive(Debug)]
pub struct TestResults(Vec<(Test, TestResult)>);

impl View for TestResults {
    type V = Seq<(TestView, TestResultView)>;

    closed spec fn view(&self) -> Seq<(TestView, TestResultView)> {
        self.0.deep_view()
    }
}

impl Default for TestResults {
    fn default() -> (r: Self)
        ensures
            r@ == Seq::<(TestView, TestResultView)>::empty(),
    {
        let inner: Vec<(Test, TestResult)> = Vec::new();
        assert(inner.deep_view() =~= Seq::<(TestView, TestResultView)>::empty());
        TestResults(inner)
    }
}

impl TestResults {
    /// The tests and their results.
    pub fn as_inner(&self) -> (r: &Vec<(Test, TestResult)>)
        ensures
            r.deep_view() == self@,
    {
        &self.0
    }

    /// The tests and their results, to change them.
    pub fn as_inner_mut(&mut self) -> (r: &mut Vec<(Test, TestResult)>)
        ensures
            r.deep_view() == old(self)@,
            final(self)@ == final(r).deep_view(),
    {
        &mut self.0
    }

    fn find(&self, test: &Test) -> (r: usize)
        ensures
            r == result_place(self@, test@),
            r <= self@.len(),
            r < self@.len() ==> self@[r as int].0 == test@,
    {
        let mut i: usize = 0;
        while i < self.0.len() && !same_test(&self.0[i].0, test)
            invariant
                i <= self.0.len(),
                forall|k: int| 0 <= k < i ==> (#[trigger] self@[k]).0 != test@,
            decreases self.0.len() - i,
        {
            assert(self@[i as int].0 == self.0@[i as int].0@);
            i += 1;
        }
        proof {
            if i < self.0.len() {
                assert(self@[i as int].0 == self.0@[i as int].0@);
            }
            lemma_result_place(self@, test@, i as int);
        }
        i
    }

    /// The result of `test`, if it has one.
    pub fn get(&self, test: &Test) -> (r: Option<&TestResult>)
        ensures
            result_place(self@, test@) < self@.len() ==> r is Some && r->0@
                == self@[result_place(self@, test@)].1,
            result_place(self@, test@) >= self@.len() ==> r is None,
    {
        let place = self.find(test);
        if place < self.0.len() {
            Some(&self.0[place].1)
        } else {
            None
        }
    }

    /// Notes that a run of `test` starts: what its last run gave is forgotten.
    pub fn start(&mut self, test: Test)
        ensures
            final(self)@ == with_started(old(self)@, test@),
    {
        let place = self.find(&test);
        let ghost before = self@;
        if place < self.0.len() {
            let ghost entries = self.0@;
            assert(before[place as int] == entries[place as int].deep_view());
            assert(entries[place as int].0@ == test@);
            reset_entry(&mut self.0[place]);
            assert(self.0@[place as int].0 == entries[place as int].0);
            assert(self.0@[place as int].deep_view() == (
                test@,
                TestResultView { passed: None, output: seq![] },
            ));
            assert forall|k: int| 0 <= k < self.0@.len() && k != place implies self.0@[k]
                == entries[k] by {}
            assert(self@ =~= before.update(
                place as int,
                (test@, TestResultView { passed: None, output: seq![] }),
            ));
        } else {
            let fresh = TestResult::default();
            self.0.push((test, fresh));
            assert(self@ =~= before.push((test@, TestResultView { passed: None, output: seq![] })));
        }
    }

    /// Adds `line` to what the run of `test` has printed, and says whether `test` has a
    /// result. A line for a test without one changes nothing.
    pub fn push_output(&mut self, test: &Test, line: String) -> (r: bool)
        ensures
            r == (result_place(old(self)@, test@) < old(self)@.len()),
            final(self)@ == with_test_line(old(self)@, test@, line@),
    {
        let place = self.find(test);
        let ghost before = self@;
        if place < self.0.len() {
            let ghost entries = self.0@;
            assert(before[place as int] == entries[place as int].deep_view());
            assert(entries[place as int].0@ == test@);
            push_entry_line(&mut self.0[place], line);
            assert(self.0@[place as int].0 == entries[place as int].0);
            assert forall|k: int| 0 <= k < self.0@.len() && k != place implies self.0@[k]
                == entries[k] by {}
            assert(self.0@[place as int].deep_view() == (
                test@,
                TestResultView {
                    passed: before[place as int].1.passed,
                    output: before[place as int].1.output.push(line@),
                },
            ));
            assert(self@ =~= with_test_line(before, test@, line@));
            true
        } else {
            false
        }
    }
}

} // verus!
