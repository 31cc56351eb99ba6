//! What follows a change of the workspace: which groups stay, and which are looked for.

use vstd::prelude::*;
use crate::auto_group::{AutoGeneratedGroup, AutoGroupView};
use crate::group::{Group, GroupView};
use crate::group_name::GroupName;
use crate::groups::{with_new, Groups};
use crate::metadata::{AutoGeneratedGroupMetadata, MetadataView};
use crate::workspace::{all_entries, all_from_metadata, WorkspaceMetadata};

verus! {

/// What is to be done after the workspace has changed.
#[derive(Debug)]
pub struct RefreshPlan {
    /// The names of the auto-generated groups that stay; the others are dropped at once.
    pub retain: Vec<GroupName>,
    /// The identities whose tests are to be discovered, each by a task of its own. The
    /// tasks of an earlier plan are cancelled first.
    pub discover: Vec<AutoGeneratedGroupMetadata>,
}

/// The names of the groups that stand for the identities, in order.
pub open spec fn names_of(entries: Seq<MetadataView>) -> Seq<Seq<char>> {
    entries.map_values(|m: MetadataView| m.group_name())
}

/// The group of an identity before its tests are known.
pub open spec fn empty_group(metadata: MetadataView) -> GroupView {
    GroupView::AutoGenerated(
        AutoGroupView { name: metadata.group_name(), metadata, tests: seq![], output: None },
    )
}

/// The collection after the empty group of each identity that has no group yet has been
/// inserted, in turn.
pub open spec fn with_empty_groups(groups: Seq<GroupView>, entries: Seq<MetadataView>) -> Seq<
    GroupView,
>
    decreases entries.len(),
{
    if entries.len() == 0 {
        groups
    } else {
        with_new(with_empty_groups(groups, entries.drop_last()), empty_group(entries.last()))
    }
}

/// The names of the groups that stand for the identities.
pub fn names_to_retain(entries: &Vec<AutoGeneratedGroupMetadata>) -> (r: Vec<GroupName>)
    ensures
        r.deep_view() == names_of(entries.deep_view()),
{
    let mut names: Vec<GroupName> = Vec::new();
    for i in 0..entries.len()
        invariant
            names.len() == i,
            forall|k: int|
                0 <= k < i ==> names.deep_view()[k] == entries.deep_view()[k].group_name(),
    {
        let ghost before = names.deep_view();
        let name = entries[i].group_name();
        names.push(name);
        assert(names.deep_view() =~= before.push(name@));
    }
    assert(names.deep_view() =~= names_of(entries.deep_view()));
    names
}

/// What is to be done after the workspace has changed to `metadata`: the groups of its
/// identities stay, and the tests of each identity are discovered anew.
pub fn plan_refresh(metadata: &WorkspaceMetadata) -> (r: RefreshPlan)
    ensures
        r.discover.deep_view() == all_entries(metadata@.packages),
        r.retain.deep_view() == names_of(all_entries(metadata@.packages)),
{
    let discover = all_from_metadata(metadata);
    let retain = names_to_retain(&discover);
    RefreshPlan { retain, discover }
}

/// Inserts the empty group of each identity of the workspace that has no group yet, so
/// that the groups are there before their tests are known.
pub fn add_auto_generated_groups(groups: &mut Groups, metadata: &WorkspaceMetadata)
    ensures
        final(groups)@ == with_empty_groups(old(groups)@, all_entries(metadata@.packages)),
{
    let entries = all_from_metadata(metadata);
    let ghost all = entries.deep_view();
    assert(all.take(0) =~= seq![]);
    for i in 0..entries.len()
        invariant
            all == entries.deep_view(),
            groups@ == with_empty_groups(old(groups)@, all.take(i as int)),
    {
        assert(all.take(i + 1).drop_last() =~= all.take(i as int));
        assert(all.take(i + 1).last() == entries[i as int]@);
        let group = AutoGeneratedGroup::empty_from_metadata(entries[i].clone());
        let _ = groups.insert_new(Group::AutoGenerated(group));
    }
    assert(all.take(all.len() as int) =~= all);
}

} // verus!
