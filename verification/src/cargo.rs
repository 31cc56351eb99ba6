//! The command line of the build tool's test command.

use std::borrow::Cow;
use vstd::prelude::*;

verus! {

/// What decides the arguments of one run of the test command.
pub struct CargoTestArgs<'a> {
    /// The program to run.
    pub cargo_program: &'a str,
    /// Ask for coloured output, of the build and of the tests.
    pub color: bool,
    /// List the tests instead of running them.
    pub list: bool,
    /// Stop at the first failing test.
    pub fail_fast: bool,
    /// What selects the packages and targets.
    pub args: Option<Cow<'static, [Cow<'static, str>]>>,
    /// What is handed to the test binaries.
    pub test_args: Option<&'a [&'a str]>,
}

/// The arguments that select packages and targets, none where there is no list.
pub open spec fn scope_arguments(args: Option<Cow<'static, [Cow<'static, str>]>>) -> Seq<
    Seq<char>,
> {
    match args {
        Some(list) => list.deep_view(),
        None => seq![],
    }
}

/// The arguments for the test binaries, none where there is no list.
pub open spec fn binary_arguments(test_args: Option<&[&str]>) -> Seq<Seq<char>> {
    match test_args {
        Some(list) => list.deep_view(),
        None => seq![],
    }
}

/// The two arguments that ask for coloured output, or none.
pub open spec fn color_arguments(color: bool) -> Seq<Seq<char>> {
    if color {
        seq!["--color"@, "always"@]
    } else {
        seq![]
    }
}

impl<'a> CargoTestArgs<'a> {
    /// The arguments after the program's name: the subcommand, the build tool's options, the
    /// scope, `--`, and the options of the test binaries.
    pub open spec fn arguments(&self) -> Seq<Seq<char>> {
        seq!["test"@] + (if self.fail_fast {
            seq![]
        } else {
            seq!["--no-fail-fast"@]
        }) + color_arguments(self.color) + scope_arguments(self.args) + seq!["--"@]
            + color_arguments(self.color) + (if self.list {
            seq!["--list"@, "--format"@, "terse"@]
        } else {
            seq![]
        }) + binary_arguments(self.test_args)
    }

    /// The arguments after the program's name.
    pub fn to_args(&self) -> (r: Vec<&str>)
        ensures
            r.deep_view() == self.arguments(),
    {
        let mut cargo_args: Vec<&str> = Vec::new();
        push_arg(&mut cargo_args, "test");
        assert(cargo_args.deep_view() == seq!["test"@]);
        if !self.fail_fast {
            push_arg(&mut cargo_args, "--no-fail-fast");
            assert(cargo_args.deep_view() == seq!["test"@] + seq!["--no-fail-fast"@]);
        } else {
            assert(cargo_args.deep_view() == seq!["test"@] + Seq::<Seq<char>>::empty());
        }
        push_color(&mut cargo_args, self.color);
        if let Some(args) = &self.args {
            push_args(&mut cargo_args, borrowed_slice(args));
        } else {
            assert(cargo_args.deep_view() == cargo_args.deep_view() + scope_arguments(self.args));
        }
        let ghost scoped = cargo_args.deep_view();
        push_arg(&mut cargo_args, "--");
        assert(cargo_args.deep_view() == scoped + seq!["--"@]);
        push_color(&mut cargo_args, self.color);
        let ghost colored = cargo_args.deep_view();
        if self.list {
            push_arg(&mut cargo_args, "--list");
            push_arg(&mut cargo_args, "--format");
            push_arg(&mut cargo_args, "terse");
            assert(cargo_args.deep_view() == colored + seq!["--list"@, "--format"@, "terse"@]);
        } else {
            assert(cargo_args.deep_view() == colored + Seq::<Seq<char>>::empty());
        }
        if let Some(list) = self.test_args {
            push_strs(&mut cargo_args, list);
        } else {
            assert(cargo_args.deep_view() == cargo_args.deep_view() + binary_arguments(
                self.test_args,
            ));
        }
        cargo_args
    }
}

impl<'a> Default for CargoTestArgs<'a> {
    fn default() -> (r: Self)
        ensures
            r.cargo_program@ == "cargo"@,
            r.color,
            !r.list,
            !r.fail_fast,
            r.args is None,
            r.test_args is None,
    {
        CargoTestArgs {
            cargo_program: "cargo",
            color: true,
            list: false,
            fail_fast: false,
            args: None,
            test_args: None,
        }
    }
}

/// The test command run under the build tool's file watcher.
pub struct CargoWatchTestArgs<'a> {
    test_args: CargoTestArgs<'a>,
}

impl<'a> CargoWatchTestArgs<'a> {
    /// The test command that is watched.
    pub closed spec fn test_args(&self) -> CargoTestArgs<'a> {
        self.test_args
    }

    /// Watches the test command that `test_args` describes.
    pub fn new(test_args: CargoTestArgs<'a>) -> (r: Self)
        ensures
            r.test_args() == test_args,
    {
        Self { test_args }
    }

    /// The program to run.
    pub fn cargo_program(&self) -> (r: &'a str)
        ensures
            r@ == self.test_args().cargo_program@,
    {
        self.test_args.cargo_program
    }

    /// The arguments after the program's name: the watcher's subcommand and its `-x`, then
    /// the test command's own arguments.
    pub fn to_args(&self) -> (r: Vec<&str>)
        ensures
            r.deep_view() == seq!["watch"@, "-x"@] + self.test_args().arguments(),
    {
        let mut watch_args: Vec<&str> = Vec::new();
        push_arg(&mut watch_args, "watch");
        push_arg(&mut watch_args, "-x");
        assert(watch_args.deep_view() == seq!["watch"@, "-x"@]);
        let test_args = self.test_args.to_args();
        push_strs(&mut watch_args, test_args.as_slice());
        watch_args
    }
}

/// The string that a borrowed-or-owned string holds.
pub fn borrowed_str<'b>(c: &'b Cow<'static, str>) -> (r: &'b str)
    ensures
        r@ == c@,
{
    match c {
        Cow::Borrowed(b) => b,
        Cow::Owned(o) => o.as_str(),
    }
}

/// The list that a borrowed-or-owned list holds.
pub fn borrowed_slice<'b>(c: &'b Cow<'static, [Cow<'static, str>]>) -> (r: &'b [Cow<
    'static,
    str,
>])
    ensures
        r.deep_view() == c.deep_view(),
{
    match c {
        Cow::Borrowed(b) => b,
        Cow::Owned(o) => o.as_slice(),
    }
}

fn push_arg<'b>(args: &mut Vec<&'b str>, arg: &'b str)
    ensures
        final(args).deep_view() == old(args).deep_view().push(arg@),
{
    args.push(arg);
    assert(args.deep_view() =~= old(args).deep_view().push(arg@));
}

fn push_color(args: &mut Vec<&str>, color: bool)
    ensures
        final(args).deep_view() == old(args).deep_view() + color_arguments(color),
{
    if color {
        push_arg(args, "--color");
        push_arg(args, "always");
    }
    assert(args.deep_view() =~= old(args).deep_view() + color_arguments(color));
}

fn push_strs<'b>(args: &mut Vec<&'b str>, list: &[&'b str])
    ensures
        final(args).deep_view() == old(args).deep_view() + list.deep_view(),
{
    for i in 0..list.len()
        invariant
            args.deep_view() == old(args).deep_view() + list.deep_view().take(i as int),
    {
        push_arg(args, list[i]);
        assert(list.deep_view().take(i + 1) == list.deep_view().take(i as int).push(
            list[i as int]@,
        ));
    }
    assert(list.deep_view().take(list.len() as int) == list.deep_view());
}

fn push_args<'b>(args: &mut Vec<&'b str>, list: &'b [Cow<'static, str>])
    ensures
        final(args).deep_view() == old(args).deep_view() + list.deep_view(),
{
    for i in 0..list.len()
        invariant
            args.deep_view() == old(args).deep_view() + list.deep_view().take(i as int),
    {
        push_arg(args, borrowed_str(&list[i]));
        assert(list.deep_view().take(i + 1) == list.deep_view().take(i as int).push(
            list[i as int]@,
        ));
    }
    assert(list.deep_view().take(list.len() as int) == list.deep_view());
}

} // verus!
