//! The single job of a session: whose it is, and the command that it runs.

use vstd::prelude::*;
use crate::cargo::{color_arguments, CargoTestArgs};
use crate::group::{Group, GroupView};
use crate::group_key::{GroupKey, GroupKeyView};
use crate::test_item::{Test, TestView};

verus! {

/// For whom a job runs: every line that the job prints is attributed to its owner.
#[derive(Debug)]
pub enum JobOwner {
    Group(GroupKey),
    Test(Test),
}

/// The mathematical value of a [`JobOwner`].
pub enum JobOwnerView {
    Group(GroupKeyView),
    Test(TestView),
}

impl View for JobOwner {
    type V = JobOwnerView;

    open spec fn view(&self) -> JobOwnerView {
        match self {
            JobOwner::Group(key) => JobOwnerView::Group(key@),
            JobOwner::Test(test) => JobOwnerView::Test(test@),
        }
    }
}

impl DeepView for JobOwner {
    type V = JobOwnerView;

    open spec fn deep_view(&self) -> JobOwnerView {
        self@
    }
}

impl Clone for JobOwner {
    fn clone(&self) -> (r: Self)
        ensures
            r@ == self@,
    {
        match self {
            JobOwner::Group(key) => JobOwner::Group(key.clone()),
            JobOwner::Test(test) => JobOwner::Test(test.clone()),
        }
    }
}

/// A job to start: its owner, the program and the program's arguments.
#[derive(Debug)]
pub struct JobRequest {
    pub owner: JobOwner,
    pub program: String,
    pub args: Vec<String>,
}

/// The mathematical value of a [`JobRequest`].
pub struct JobRequestView {
    pub owner: JobOwnerView,
    pub program: Seq<char>,
    pub args: Seq<Seq<char>>,
}

impl View for JobRequest {
    type V = JobRequestView;

    open spec fn view(&self) -> JobRequestView {
        JobRequestView {
            owner: self.owner@,
            program: self.program@,
            args: self.args.deep_view(),
        }
    }
}

impl DeepView for JobRequest {
    type V = JobRequestView;

    open spec fn deep_view(&self) -> JobRequestView {
        self@
    }
}

/// The arguments of a run of the tests in `scope`: all tests are run though one fails,
/// the output is coloured, and `options` go to the test binaries.
pub open spec fn run_arguments(scope: Seq<Seq<char>>, options: Seq<Seq<char>>) -> Seq<Seq<char>> {
    seq!["test"@, "--no-fail-fast"@, "--color"@, "always"@] + scope + seq![
        "--"@,
        "--color"@,
        "always"@,
    ] + options
}

/// The job that runs the whole group, none for a custom group.
pub open spec fn group_job_of(group: GroupView) -> Option<JobRequestView> {
    match group {
        GroupView::AutoGenerated(auto) => Some(
            JobRequestView {
                owner: JobOwnerView::Group(group.key()),
                program: "cargo"@,
                args: run_arguments(auto.metadata.scope(), seq![]),
            },
        ),
        GroupView::Custom(_) => None,
    }
}

/// The job that runs one test.
pub open spec fn test_job_of(test: TestView) -> JobRequestView {
    JobRequestView {
        owner: JobOwnerView::Test(test),
        program: "cargo"@,
        args: run_arguments(test.scope(), test.binary_options()),
    }
}

/// A copy of each argument, owned.
pub fn owned_args(args: &Vec<&str>) -> (r: Vec<String>)
    ensures
        r.deep_view() == args.deep_view(),
{
    let mut owned: Vec<String> = Vec::new();
    for i in 0..args.len()
        invariant
            owned.deep_view() == args.deep_view().take(i as int),
    {
        let ghost before = owned.deep_view();
        owned.push(args[i].to_owned());
        assert(owned.deep_view() =~= before.push(args[i as int]@));
        assert(args.deep_view().take(i + 1) =~= args.deep_view().take(i as int).push(
            args[i as int]@,
        ));
    }
    assert(args.deep_view().take(args.len() as int) =~= args.deep_view());
    owned
}

/// The arguments are those of a run, where the command is the default one but for its
/// scope and the options of the test binaries.
pub proof fn lemma_run_arguments(args: CargoTestArgs)
    requires
        args.color,
        !args.list,
        !args.fail_fast,
    ensures
        args.arguments() == run_arguments(
            crate::cargo::scope_arguments(args.args),
            crate::cargo::binary_arguments(args.test_args),
        ),
{
    assert(color_arguments(true) =~= seq!["--color"@, "always"@]);
    assert(args.arguments() =~= run_arguments(
        crate::cargo::scope_arguments(args.args),
        crate::cargo::binary_arguments(args.test_args),
    ));
}

/// The job that runs the whole group, none for a custom group.
pub fn group_job(group: &Group) -> (r: Option<JobRequest>)
    ensures
        r.deep_view() == group_job_of(group@),
{
    match group.to_cargo_test_args() {
        Some(command) => {
            proof {
                lemma_run_arguments(command);
            }
            let args = command.to_args();
            Some(
                JobRequest {
                    owner: JobOwner::Group(group.as_group_key()),
                    program: command.cargo_program.to_owned(),
                    args: owned_args(&args),
                },
            )
        },
        None => None,
    }
}

/// The job that runs one test.
pub fn test_job(test: &Test) -> (r: JobRequest)
    ensures
        r@ == test_job_of(test@),
{
    let command = test.to_cargo_test_args();
    proof {
        lemma_run_arguments(command);
    }
    let args = command.to_args();
    JobRequest {
        owner: JobOwner::Test(test.clone()),
        program: command.cargo_program.to_owned(),
        args: owned_args(&args),
    }
}

} // verus!
