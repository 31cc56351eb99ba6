//! The packages and targets of a workspace, and the identities of the groups that stand
//! for them.

use vstd::prelude::*;
use crate::metadata::{AutoGeneratedGroupMetadata, MetadataView};
use crate::target_kind::{TargetKind, TargetKindView};
use crate::text::{contains_string, str_eq};

verus! {

/// A build target of a package: its name and the kinds it is built as (`bin`, `lib`,
/// `test`, `example`, and others that do not count here).
#[derive(Debug)]
pub struct Target {
    pub name: String,
    pub kind: Vec<String>,
}

/// A package of the workspace.
#[derive(Debug)]
pub struct Package {
    pub name: String,
    pub targets: Vec<Target>,
}

/// What the build tool reports of a workspace, as far as groups are made from it.
#[derive(Debug)]
pub struct WorkspaceMetadata {
    pub packages: Vec<Package>,
}

/// The mathematical value of a [`Target`].
pub struct TargetView {
    pub name: Seq<char>,
    pub kind: Seq<Seq<char>>,
}

/// The mathematical value of a [`Package`].
pub struct PackageView {
    pub name: Seq<char>,
    pub targets: Seq<TargetView>,
}

/// The mathematical value of a [`WorkspaceMetadata`].
pub struct WorkspaceView {
    pub packages: Seq<PackageView>,
}

impl View for Target {
    type V = TargetView;

    open spec fn view(&self) -> TargetView {
        TargetView { name: self.name@, kind: self.kind.deep_view() }
    }
}

impl DeepView for Target {
    type V = TargetView;

    open spec fn deep_view(&self) -> TargetView {
        self@
    }
}

impl View for Package {
    type V = PackageView;

    open spec fn view(&self) -> PackageView {
        PackageView { name: self.name@, targets: self.targets.deep_view() }
    }
}

impl DeepView for Package {
    type V = PackageView;

    open spec fn deep_view(&self) -> PackageView {
        self@
    }
}

impl View for WorkspaceMetadata {
    type V = WorkspaceView;

    open spec fn view(&self) -> WorkspaceView {
        WorkspaceView { packages: self.packages.deep_view() }
    }
}

/// The classification of a target of the given kind, none for a kind that makes no group.
pub open spec fn classify(kind: Seq<char>, target_name: Seq<char>) -> Option<TargetKindView> {
    if kind == "bin"@ {
        Some(TargetKindView::Bin(target_name))
    } else if kind == "lib"@ {
        Some(TargetKindView::Lib(target_name))
    } else if kind == "test"@ {
        Some(TargetKindView::Test(target_name))
    } else if kind == "example"@ {
        Some(TargetKindView::Example(target_name))
    } else {
        None
    }
}

/// The identities that one target gives: one for each of its kinds that makes a group, in
/// the order of the kinds.
pub open spec fn target_entries(
    package_name: Seq<char>,
    target_name: Seq<char>,
    kinds: Seq<Seq<char>>,
) -> Seq<MetadataView>
    decreases kinds.len(),
{
    if kinds.len() == 0 {
        seq![]
    } else {
        let before = target_entries(package_name, target_name, kinds.drop_last());
        match classify(kinds.last(), target_name) {
            Some(target_kind) => before.push(MetadataView { package_name, target_kind }),
            None => before,
        }
    }
}

/// The identities that the targets of one package give, target after target.
pub open spec fn package_entries(package_name: Seq<char>, targets: Seq<TargetView>) -> Seq<
    MetadataView,
>
    decreases targets.len(),
{
    if targets.len() == 0 {
        seq![]
    } else {
        package_entries(package_name, targets.drop_last()) + target_entries(
            package_name,
            targets.last().name,
            targets.last().kind,
        )
    }
}

/// The identities that the single targets of a workspace give, package after package.
pub open spec fn workspace_entries(packages: Seq<PackageView>) -> Seq<MetadataView>
    decreases packages.len(),
{
    if packages.len() == 0 {
        seq![]
    } else {
        workspace_entries(packages.drop_last()) + package_entries(
            packages.last().name,
            packages.last().targets,
        )
    }
}

/// `m` stands for all the test targets (`tests`) or all the example targets (`!tests`) of
/// the package `package_name`.
pub open spec fn is_aggregate_of(m: MetadataView, package_name: Seq<char>, tests: bool) -> bool {
    m.package_name == package_name && if tests {
        m.target_kind is Tests
    } else {
        m.target_kind is Examples
    }
}

/// The place of the first identity in `acc` that stands for all the test targets, or all
/// the example targets, of the package; the length of `acc` where there is none.
pub open spec fn aggregate_index(acc: Seq<MetadataView>, package_name: Seq<char>, tests: bool) -> int
    decreases acc.len(),
{
    if acc.len() == 0 {
        0
    } else if is_aggregate_of(acc[0], package_name, tests) {
        0
    } else {
        1 + aggregate_index(acc.drop_first(), package_name, tests)
    }
}

/// `members` with `name` added at the end, unless it is among them.
pub open spec fn with_member(members: Seq<Seq<char>>, name: Seq<char>) -> Seq<Seq<char>> {
    if members.contains(name) {
        members
    } else {
        members.push(name)
    }
}

/// `m` with the target `name` among its members, where `m` is a `Tests` or an `Examples`.
pub open spec fn joined_by(m: MetadataView, name: Seq<char>) -> MetadataView {
    MetadataView {
        package_name: m.package_name,
        target_kind: match m.target_kind {
            TargetKindView::Tests(members) => TargetKindView::Tests(with_member(members, name)),
            TargetKindView::Examples(members) => TargetKindView::Examples(
                with_member(members, name),
            ),
            other => other,
        },
    }
}

/// `acc` after the target `name` of the package has been put with the package's test
/// targets (`tests`) or example targets (`!tests`): into the identity that stands for them
/// where `acc` holds one, else into a new one at the end.
pub open spec fn add_to_aggregate(
    acc: Seq<MetadataView>,
    package_name: Seq<char>,
    tests: bool,
    name: Seq<char>,
) -> Seq<MetadataView> {
    let i = aggregate_index(acc, package_name, tests);
    if i < acc.len() {
        acc.update(i, joined_by(acc[i], name))
    } else {
        acc.push(
            MetadataView {
                package_name,
                target_kind: if tests {
                    TargetKindView::Tests(seq![name])
                } else {
                    TargetKindView::Examples(seq![name])
                },
            },
        )
    }
}

/// `acc` after one more identity of a single target has been looked at: a test target
/// joins the test targets of its package, an example target the example targets, and
/// any other changes nothing.
pub open spec fn absorb(acc: Seq<MetadataView>, entry: MetadataView) -> Seq<MetadataView> {
    match entry.target_kind {
        TargetKindView::Test(name) => add_to_aggregate(acc, entry.package_name, true, name),
        TargetKindView::Example(name) => add_to_aggregate(acc, entry.package_name, false, name),
        _ => acc,
    }
}

/// The identities that stand for all the test targets, and for all the example targets,
/// of each package that has any, in the order in which `entries` first names one.
pub open spec fn aggregates(entries: Seq<MetadataView>) -> Seq<MetadataView>
    decreases entries.len(),
{
    if entries.len() == 0 {
        seq![]
    } else {
        absorb(aggregates(entries.drop_last()), entries.last())
    }
}

/// All the identities that a workspace gives: those of its single targets, then those that
/// stand for all the test targets and all the example targets of a package.
pub open spec fn all_entries(packages: Seq<PackageView>) -> Seq<MetadataView> {
    workspace_entries(packages) + aggregates(workspace_entries(packages))
}

/// Where no identity before `i` stands for the targets in question, and the one at `i`
/// does or `i` is the end, `i` is the place that `aggregate_index` gives.
pub proof fn lemma_aggregate_index(
    acc: Seq<MetadataView>,
    package_name: Seq<char>,
    tests: bool,
    i: int,
)
    requires
        0 <= i <= acc.len(),
        forall|k: int| 0 <= k < i ==> !is_aggregate_of(#[trigger] acc[k], package_name, tests),
        i < acc.len() ==> is_aggregate_of(acc[i], package_name, tests),
    ensures
        aggregate_index(acc, package_name, tests) == i,
    decreases i,
{
    if i > 0 {
        let rest = acc.drop_first();
        assert forall|k: int| 0 <= k < i - 1 implies !is_aggregate_of(
            #[trigger] rest[k],
            package_name,
            tests,
        ) by {
            assert(rest[k] == acc[k + 1]);
        }
        lemma_aggregate_index(rest, package_name, tests, i - 1);
    }
}

/// What `aggregate_index` gives: nothing before it stands for the targets in question, and
/// what stands at it does, unless it is the end.
pub proof fn lemma_aggregate_index_found(
    acc: Seq<MetadataView>,
    package_name: Seq<char>,
    tests: bool,
)
    ensures
        0 <= aggregate_index(acc, package_name, tests) <= acc.len(),
        forall|k: int|
            0 <= k < aggregate_index(acc, package_name, tests) ==> !is_aggregate_of(
                #[trigger] acc[k],
                package_name,
                tests,
            ),
        aggregate_index(acc, package_name, tests) < acc.len() ==> is_aggregate_of(
            acc[aggregate_index(acc, package_name, tests)],
            package_name,
            tests,
        ),
    decreases acc.len(),
{
    if acc.len() > 0 && !is_aggregate_of(acc[0], package_name, tests) {
        let rest = acc.drop_first();
        lemma_aggregate_index_found(rest, package_name, tests);
        assert forall|k: int| 0 <= k < aggregate_index(acc, package_name, tests) implies
            !is_aggregate_of(#[trigger] acc[k], package_name, tests) by {
            if k > 0 {
                assert(acc[k] == rest[k - 1]);
            }
        }
    }
}

/// Each identity stands for all the test targets or all the example targets of a package,
/// names no target twice, and no two stand for the same targets of the same package.
pub open spec fn one_per_package(acc: Seq<MetadataView>) -> bool {
    &&& forall|i: int|
        0 <= i < acc.len() ==> match (#[trigger] acc[i]).target_kind {
            TargetKindView::Tests(members) => members.no_duplicates(),
            TargetKindView::Examples(members) => members.no_duplicates(),
            _ => false,
        }
    &&& forall|i: int, j: int|
        0 <= i < j < acc.len() ==> !((#[trigger] acc[i]).package_name == (#[trigger] acc[j]).package_name
            && (acc[i].target_kind is Tests) == (acc[j].target_kind is Tests))
}

/// The identities that stand for all the test targets, and for all the example targets,
/// are one for each package and kind, whatever the workspace.
pub proof fn lemma_aggregates_one_per_package(entries: Seq<MetadataView>)
    ensures
        one_per_package(aggregates(entries)),
    decreases entries.len(),
{
    if entries.len() > 0 {
        let acc = aggregates(entries.drop_last());
        let entry = entries.last();
        lemma_aggregates_one_per_package(entries.drop_last());
        match entry.target_kind {
            TargetKindView::Test(name) => {
                lemma_add_one_per_package(acc, entry.package_name, true, name);
            },
            TargetKindView::Example(name) => {
                lemma_add_one_per_package(acc, entry.package_name, false, name);
            },
            _ => {},
        }
    }
}

/// Putting a target with the targets of its package keeps the identities one for each
/// package and kind.
pub proof fn lemma_add_one_per_package(
    acc: Seq<MetadataView>,
    package_name: Seq<char>,
    tests: bool,
    name: Seq<char>,
)
    requires
        one_per_package(acc),
    ensures
        one_per_package(add_to_aggregate(acc, package_name, tests, name)),
{
    let i = aggregate_index(acc, package_name, tests);
    let after = add_to_aggregate(acc, package_name, tests, name);
    lemma_aggregate_index_found(acc, package_name, tests);
    if i < acc.len() {
        let joined = joined_by(acc[i], name);
        assert(joined.package_name == acc[i].package_name);
        assert((joined.target_kind is Tests) == (acc[i].target_kind is Tests));
        assert forall|k: int| 0 <= k < after.len() implies match (#[trigger] after[k]).target_kind {
            TargetKindView::Tests(members) => members.no_duplicates(),
            TargetKindView::Examples(members) => members.no_duplicates(),
            _ => false,
        } by {
            if k != i {
                assert(after[k] == acc[k]);
            }
        }
        assert forall|a: int, b: int| 0 <= a < b < after.len() implies !((#[trigger] after[a]).package_name
            == (#[trigger] after[b]).package_name && (after[a].target_kind is Tests) == (
        after[b].target_kind is Tests)) by {
            assert(!(acc[a].package_name == acc[b].package_name && (acc[a].target_kind is Tests)
                == (acc[b].target_kind is Tests)));
        }
    } else {
        assert(seq![name].no_duplicates());
        assert forall|k: int| 0 <= k < after.len() implies match (#[trigger] after[k]).target_kind {
            TargetKindView::Tests(members) => members.no_duplicates(),
            TargetKindView::Examples(members) => members.no_duplicates(),
            _ => false,
        } by {
            if k < acc.len() {
                assert(after[k] == acc[k]);
            }
        }
        assert forall|a: int, b: int| 0 <= a < b < after.len() implies !((#[trigger] after[a]).package_name
            == (#[trigger] after[b]).package_name && (after[a].target_kind is Tests) == (
        after[b].target_kind is Tests)) by {
            if b < acc.len() {
                assert(after[a] == acc[a] && after[b] == acc[b]);
            } else {
                assert(after[a] == acc[a]);
                assert(!is_aggregate_of(acc[a], package_name, tests));
            }
        }
    }
}

/// The classification of a target of the given kind, none for a kind that makes no group.
pub fn classify_target(kind: &str, target_name: &str) -> (r: Option<TargetKind>)
    ensures
        r.deep_view() == classify(kind@, target_name@),
{
    if str_eq(kind, "bin") {
        Some(TargetKind::Bin(target_name.to_owned()))
    } else if str_eq(kind, "lib") {
        Some(TargetKind::Lib(target_name.to_owned()))
    } else if str_eq(kind, "test") {
        Some(TargetKind::Test(target_name.to_owned()))
    } else if str_eq(kind, "example") {
        Some(TargetKind::Example(target_name.to_owned()))
    } else {
        None
    }
}

fn push_target_entries(
    out: &mut Vec<AutoGeneratedGroupMetadata>,
    package_name: &String,
    target: &Target,
)
    ensures
        final(out).deep_view() == old(out).deep_view() + target_entries(
            package_name@,
            target@.name,
            target@.kind,
        ),
{
    let ghost kinds = target@.kind;
    assert(target_entries(package_name@, target@.name, kinds.take(0)) =~= seq![]);
    for k in 0..target.kind.len()
        invariant
            kinds == target@.kind,
            out.deep_view() == old(out).deep_view() + target_entries(
                package_name@,
                target@.name,
                kinds.take(k as int),
            ),
    {
        assert(kinds.take(k + 1).drop_last() =~= kinds.take(k as int));
        assert(kinds.take(k + 1).last() == target.kind[k as int]@);
        let ghost before = out.deep_view();
        match classify_target(target.kind[k].as_str(), target.name.as_str()) {
            Some(target_kind) => {
                let entry = AutoGeneratedGroupMetadata {
                    package_name: package_name.clone(),
                    target_kind,
                };
                out.push(entry);
                assert(out.deep_view() =~= before.push(entry@));
            },
            None => {},
        }
    }
    assert(kinds.take(kinds.len() as int) =~= kinds);
}

fn push_package_entries(out: &mut Vec<AutoGeneratedGroupMetadata>, package: &Package)
    ensures
        final(out).deep_view() == old(out).deep_view() + package_entries(
            package@.name,
            package@.targets,
        ),
{
    let ghost targets = package@.targets;
    assert(package_entries(package@.name, targets.take(0)) =~= seq![]);
    for t in 0..package.targets.len()
        invariant
            targets == package@.targets,
            out.deep_view() == old(out).deep_view() + package_entries(
                package@.name,
                targets.take(t as int),
            ),
    {
        assert(targets.take(t + 1).drop_last() =~= targets.take(t as int));
        assert(targets.take(t + 1).last() == package.targets[t as int]@);
        push_target_entries(out, &package.name, &package.targets[t]);
    }
    assert(targets.take(targets.len() as int) =~= targets);
}

/// The identities that the single targets of the workspace give.
pub fn single_target_entries(metadata: &WorkspaceMetadata) -> (r: Vec<AutoGeneratedGroupMetadata>)
    ensures
        r.deep_view() == workspace_entries(metadata@.packages),
{
    let mut out: Vec<AutoGeneratedGroupMetadata> = Vec::new();
    let ghost packages = metadata@.packages;
    assert(out.deep_view() =~= workspace_entries(packages.take(0)));
    for p in 0..metadata.packages.len()
        invariant
            packages == metadata@.packages,
            out.deep_view() == workspace_entries(packages.take(p as int)),
    {
        assert(packages.take(p + 1).drop_last() =~= packages.take(p as int));
        assert(packages.take(p + 1).last() == metadata.packages[p as int]@);
        push_package_entries(&mut out, &metadata.packages[p]);
    }
    assert(packages.take(packages.len() as int) =~= packages);
    out
}

fn is_aggregate(entry: &AutoGeneratedGroupMetadata, package_name: &str, tests: bool) -> (r: bool)
    ensures
        r == is_aggregate_of(entry@, package_name@, tests),
{
    let of_kind = match &entry.target_kind {
        TargetKind::Tests(_) => tests,
        TargetKind::Examples(_) => !tests,
        _ => false,
    };
    of_kind && str_eq(entry.package_name.as_str(), package_name)
}

fn add_member(members: &mut Vec<String>, name: &str)
    ensures
        final(members).deep_view() == with_member(old(members).deep_view(), name@),
{
    if !contains_string(members, name) {
        members.push(name.to_owned());
        assert(members.deep_view() =~= old(members).deep_view().push(name@));
    }
}

fn join(entry: &mut AutoGeneratedGroupMetadata, name: &str)
    ensures
        final(entry)@ == joined_by(old(entry)@, name@),
{
    match &mut entry.target_kind {
        TargetKind::Tests(members) => {
            add_member(members, name);
        },
        TargetKind::Examples(members) => {
            add_member(members, name);
        },
        _ => {},
    }
}

fn put_with_aggregate(
    acc: &mut Vec<AutoGeneratedGroupMetadata>,
    package_name: &String,
    tests: bool,
    name: &String,
)
    ensures
        final(acc).deep_view() == add_to_aggregate(
            old(acc).deep_view(),
            package_name@,
            tests,
            name@,
        ),
{
    let mut i: usize = 0;
    while i < acc.len() && !is_aggregate(&acc[i], package_name.as_str(), tests)
        invariant
            i <= acc.len(),
            *acc == *old(acc),
            forall|k: int|
                0 <= k < i ==> !is_aggregate_of(
                    #[trigger] acc.deep_view()[k],
                    package_name@,
                    tests,
                ),
        decreases acc.len() - i,
    {
        i += 1;
    }
    proof {
        lemma_aggregate_index(acc.deep_view(), package_name@, tests, i as int);
    }
    if i < acc.len() {
        join(&mut acc[i], name.as_str());
        assert(acc.deep_view() =~= old(acc).deep_view().update(
            i as int,
            joined_by(old(acc).deep_view()[i as int], name@),
        ));
    } else {
        let members = vec![name.clone()];
        assert(members.deep_view() =~= seq![name@]);
        let entry = AutoGeneratedGroupMetadata {
            package_name: package_name.clone(),
            target_kind: if tests {
                TargetKind::Tests(members)
            } else {
                TargetKind::Examples(members)
            },
        };
        acc.push(entry);
        assert(acc.deep_view() =~= old(acc).deep_view().push(entry@));
    }
}

/// The identities that stand for all the test targets, and for all the example targets,
/// of each package of which `entries` names one.
pub fn aggregate_entries(entries: &Vec<AutoGeneratedGroupMetadata>) -> (r: Vec<
    AutoGeneratedGroupMetadata,
>)
    ensures
        r.deep_view() == aggregates(entries.deep_view()),
{
    let mut acc: Vec<AutoGeneratedGroupMetadata> = Vec::new();
    let ghost all = entries.deep_view();
    assert(acc.deep_view() =~= aggregates(all.take(0)));
    for e in 0..entries.len()
        invariant
            all == entries.deep_view(),
            acc.deep_view() == aggregates(all.take(e as int)),
    {
        assert(all.take(e + 1).drop_last() =~= all.take(e as int));
        assert(all.take(e + 1).last() == entries[e as int]@);
        let entry = &entries[e];
        match &entry.target_kind {
            TargetKind::Test(name) => {
                put_with_aggregate(&mut acc, &entry.package_name, true, name);
            },
            TargetKind::Example(name) => {
                put_with_aggregate(&mut acc, &entry.package_name, false, name);
            },
            _ => {},
        }
    }
    assert(all.take(all.len() as int) =~= all);
    acc
}

/// All the identities that the workspace gives, one for each package and classification:
/// those of the single targets in the order of the packages, targets and kinds, then those
/// that stand for all the test targets and for all the example targets of a package. A
/// target of another kind gives none.
pub fn all_from_metadata(metadata: &WorkspaceMetadata) -> (r: Vec<AutoGeneratedGroupMetadata>)
    ensures
        r.deep_view() == all_entries(metadata@.packages),
{
    let mut entries = single_target_entries(metadata);
    let mut additional = aggregate_entries(&entries);
    let ghost singles = entries.deep_view();
    let ghost added = additional.deep_view();
    entries.append(&mut additional);
    assert(entries.deep_view() =~= singles + added);
    entries
}

} // verus!
