//! The collection of groups, kept in the order on groups, no identity twice.

use vstd::prelude::*;
use crate::auto_group::pushed_line;
use crate::group::{group_name, Group, GroupView};
use crate::group_key::{by_key, group_order, GroupKey, GroupKeyView};
use crate::group_key::{lemma_by_key_is_order, lemma_group_order_equal, lemma_group_order_transitive};
use crate::group_name::GroupName;
use crate::name::lemma_name_order_equal;
use crate::sorted::{holds, lower_bound, strictly_sorted};
use crate::sorted::{
    lemma_found_at_lower_bound,
    lemma_holds,
    lemma_insert_sorted,
    lemma_lower_bound,
    lemma_lower_bound_is,
    lemma_update_sorted,
};
use crate::text::Order;

verus! {

/// The identities of the groups, in order.
pub open spec fn group_keys(groups: Seq<GroupView>) -> Seq<GroupKeyView> {
    groups.map_values(|g: GroupView| g.key())
}

/// The names of the groups, in order.
pub open spec fn group_names(groups: Seq<GroupView>) -> Seq<Seq<char>> {
    groups.map_values(|g: GroupView| g.name())
}

/// The groups stand in strictly ascending order of their identities.
pub open spec fn is_sorted(groups: Seq<GroupView>) -> bool {
    strictly_sorted(group_keys(groups), by_key())
}

/// The place of the identity `key` in a sorted collection, or the place to insert it.
pub open spec fn group_place(groups: Seq<GroupView>, key: GroupKeyView) -> int {
    lower_bound(group_keys(groups), key, by_key())
}

/// A group of the identity `key` is in the collection.
pub open spec fn holds_group(groups: Seq<GroupView>, key: GroupKeyView) -> bool {
    holds(group_keys(groups), key, by_key())
}

/// The collection after `group` has been put into it: where a group of its identity is
/// there, that group takes the identity and tests of `group` and keeps what it has
/// printed; else `group` is inserted at the place that its identity gives it.
pub open spec fn upserted(groups: Seq<GroupView>, group: GroupView) -> Seq<GroupView> {
    let place = group_place(groups, group.key());
    if holds_group(groups, group.key()) {
        groups.update(place, group.with_output(groups[place].output()))
    } else {
        groups.insert(place, group)
    }
}

/// The group stays when only the auto-generated groups named in `names` are kept: a custom
/// group always, an auto-generated group when its name is among `names`.
pub open spec fn is_retained(group: GroupView, names: Seq<Seq<char>>) -> bool {
    group is Custom || names.contains(group.name())
}

/// The collection without the auto-generated groups whose names are not among `names`.
pub open spec fn retained(groups: Seq<GroupView>, names: Seq<Seq<char>>) -> Seq<GroupView> {
    groups.filter(|g: GroupView| is_retained(g, names))
}

/// Putting a group into a sorted collection leaves it sorted.
pub proof fn lemma_upserted_sorted(groups: Seq<GroupView>, group: GroupView)
    requires
        is_sorted(groups),
    ensures
        is_sorted(upserted(groups, group)),
{
    let keys = group_keys(groups);
    let key = group.key();
    let place = group_place(groups, key);
    lemma_by_key_is_order();
    lemma_lower_bound(keys, key, by_key());
    lemma_holds(keys, key, by_key());
    if holds_group(groups, key) {
        let updated = group.with_output(groups[place].output());
        assert(updated.key() == key);
        lemma_update_sorted(keys, place, key, by_key());
        assert(group_keys(groups.update(place, updated)) =~= keys.update(place, key));
    } else {
        lemma_insert_sorted(keys, key, by_key());
        assert(group_keys(groups.insert(place, group)) =~= keys.insert(place, key));
    }
}

/// Putting in a group whose identity is there changes no identity's place and not the
/// number of groups: the group of that identity takes the tests of the new one and keeps
/// its name and what it has printed, and every other group stays as it is.
pub proof fn lemma_upserted_existing(groups: Seq<GroupView>, group: GroupView, i: int)
    requires
        is_sorted(groups),
        0 <= i < groups.len(),
        groups[i].key().same(group.key()),
        groups[i].well_formed(),
        group.well_formed(),
    ensures
        upserted(groups, group).len() == groups.len(),
        upserted(groups, group)[i].tests() == group.tests(),
        upserted(groups, group)[i].output() == groups[i].output(),
        upserted(groups, group)[i].key().same(groups[i].key()),
        groups[i] is AutoGenerated ==> upserted(groups, group)[i].name() == groups[i].name(),
        groups[i] is Custom ==> upserted(groups, group)[i].name() == groups[i].name(),
        forall|j: int| 0 <= j < groups.len() && j != i ==> upserted(groups, group)[j] == groups[j],
{
    let keys = group_keys(groups);
    let key = group.key();
    lemma_by_key_is_order();
    lemma_group_order_equal(groups[i].key(), key);
    assert(by_key()(keys[i], key) == Order::Equal);
    lemma_found_at_lower_bound(keys, key, by_key(), i);
    lemma_group_order_equal(key, groups[i].key());
    crate::group_key::lemma_group_order_reverse(groups[i].key(), key);
    match (groups[i], group) {
        (GroupView::AutoGenerated(a), GroupView::AutoGenerated(b)) => {
            crate::auto_group::lemma_same_identity_same_name(a.metadata, b.metadata);
        },
        _ => {},
    }
}

/// Putting the same group in twice is the same as putting it in once.
pub proof fn lemma_upserted_twice(groups: Seq<GroupView>, group: GroupView)
    requires
        is_sorted(groups),
    ensures
        upserted(upserted(groups, group), group) == upserted(groups, group),
{
    let keys = group_keys(groups);
    let key = group.key();
    let place = group_place(groups, key);
    let once = upserted(groups, group);
    lemma_by_key_is_order();
    lemma_lower_bound(keys, key, by_key());
    lemma_holds(keys, key, by_key());
    lemma_upserted_sorted(groups, group);
    crate::group_key::lemma_group_order_reverse(key, key);
    assert(by_key()(key, key) == Order::Equal);
    assert(group_keys(once)[place] == key);
    lemma_found_at_lower_bound(group_keys(once), key, by_key(), place);
    assert(once.update(place, group.with_output(once[place].output())) =~= once);
}

/// Keeping no auto-generated group by name leaves exactly the custom groups, each as it was.
pub proof fn lemma_retained_none(groups: Seq<GroupView>)
    ensures
        retained(groups, seq![]) == groups.filter(|g: GroupView| g is Custom),
        forall|i: int|
            0 <= i < groups.len() && groups[i] is Custom ==> retained(groups, seq![]).contains(
                #[trigger] groups[i],
            ),
        forall|j: int|
            0 <= j < retained(groups, seq![]).len() ==> (#[trigger] retained(
                groups,
                seq![],
            )[j]) is Custom,
    decreases groups.len(),
{
    let names = Seq::<Seq<char>>::empty();
    let keep = |g: GroupView| is_retained(g, names);
    let custom = |g: GroupView| g is Custom;
    assert forall|g: GroupView| #[trigger] keep(g) == custom(g) by {}
    lemma_same_filter(groups, keep, custom);
    broadcast use vstd::seq_lib::group_filter_ensures;
    assert forall|i: int| 0 <= i < groups.len() && groups[i] is Custom implies groups.filter(
        custom,
    ).contains(#[trigger] groups[i]) by {
        assert(custom(groups[i]));
    }
    assert forall|j: int| 0 <= j < groups.filter(custom).len() implies (#[trigger] groups.filter(
        custom,
    )[j]) is Custom by {
        assert(custom(groups.filter(custom)[j]));
    }
}

/// Predicates that agree on every value filter alike.
pub proof fn lemma_same_filter<A>(s: Seq<A>, p: spec_fn(A) -> bool, q: spec_fn(A) -> bool)
    requires
        forall|a: A| #[trigger] p(a) == q(a),
    ensures
        s.filter(p) == s.filter(q),
    decreases s.len(),
{
    reveal(Seq::filter);
    if s.len() > 0 {
        lemma_same_filter(s.drop_last(), p, q);
    }
}

/// The groups of a session, in the order on groups: the auto-generated groups first, by
/// package and classification, then the custom groups by name. No two are of one identity.
#[derive(Debug)]
pub struct Groups {
    items: Vec<Group>,
}

impl View for Groups {
    type V = Seq<GroupView>;

    closed spec fn view(&self) -> Seq<GroupView> {
        self.items.deep_view()
    }
}

impl Groups {
    #[verifier::type_invariant]
    spec fn inv(&self) -> bool {
        is_sorted(self@)
    }

    /// The empty collection.
    pub fn new() -> (r: Self)
        ensures
            r@ == Seq::<GroupView>::empty(),
    {
        let items: Vec<Group> = Vec::new();
        assert(items.deep_view() =~= Seq::<GroupView>::empty());
        assert(group_keys(Seq::<GroupView>::empty()) =~= Seq::<GroupKeyView>::empty());
        Groups { items }
    }

    /// The number of groups.
    pub fn len(&self) -> (r: usize)
        ensures
            r == self@.len(),
            is_sorted(self@),
    {
        proof {
            use_type_invariant(self);
        }
        self.items.len()
    }

    /// Whether there is no group.
    pub fn is_empty(&self) -> (r: bool)
        ensures
            r == (self@.len() == 0),
    {
        self.items.len() == 0
    }

    /// The group at `index`, none past the end.
    pub fn get(&self, index: usize) -> (r: Option<&Group>)
        ensures
            index < self@.len() ==> r is Some && r->0@ == self@[index as int],
            index >= self@.len() ==> r is None,
    {
        if index < self.items.len() {
            Some(&self.items[index])
        } else {
            None
        }
    }

    /// The groups, in order.
    pub fn as_slice(&self) -> (r: &[Group])
        ensures
            r.deep_view() == self@,
            is_sorted(self@),
    {
        proof {
            use_type_invariant(self);
        }
        self.items.as_slice()
    }

    /// Finds the group of the identity `key`: `Ok` with its place where it is there, else
    /// `Err` with the place at which a group of that identity would be inserted.
    pub fn binary_search(&self, key: &GroupKey) -> (r: Result<usize, usize>)
        ensures
            holds_group(self@, key@) <==> r is Ok,
            r matches Ok(i) ==> i == group_place(self@, key@) && i < self@.len()
                && self@[i as int].key().same(key@),
            r matches Err(i) ==> i == group_place(self@, key@) && i <= self@.len(),
            r is Err ==> forall|j: int| 0 <= j < self@.len() ==> !self@[j].key().same(key@),
    {
        proof {
            use_type_invariant(self);
        }
        let ghost keys = group_keys(self@);
        let mut lo: usize = 0;
        let mut hi: usize = self.items.len();
        while lo < hi
            invariant
                0 <= lo <= hi <= self.items.len(),
                keys == group_keys(self@),
                keys.len() == self.items.len(),
                strictly_sorted(keys, by_key()),
                forall|j: int|
                    0 <= j < lo ==> group_order(#[trigger] keys[j], key@) == Order::Less,
                forall|j: int|
                    hi <= j < keys.len() ==> group_order(#[trigger] keys[j], key@)
                        != Order::Less,
            decreases hi - lo,
        {
            let mid = lo + (hi - lo) / 2;
            assert(keys[mid as int] == self.items[mid as int]@.key());
            match self.items[mid].compare_key(key) {
                Order::Less => {
                    assert forall|j: int| 0 <= j < mid + 1 implies group_order(
                        #[trigger] keys[j],
                        key@,
                    ) == Order::Less by {
                        if j < mid {
                            assert(by_key()(keys[j], keys[mid as int]) == Order::Less);
                            lemma_group_order_transitive(keys[j], keys[mid as int], key@);
                        }
                    }
                    lo = mid + 1;
                },
                _ => {
                    assert forall|j: int| mid <= j < keys.len() implies group_order(
                        #[trigger] keys[j],
                        key@,
                    ) != Order::Less by {
                        if j > mid {
                            assert(by_key()(keys[mid as int], keys[j]) == Order::Less);
                            if group_order(keys[j], key@) == Order::Less {
                                lemma_group_order_transitive(keys[mid as int], keys[j], key@);
                            }
                        }
                    }
                    hi = mid;
                },
            }
        }
        proof {
            assert forall|j: int| 0 <= j < lo implies by_key()(#[trigger] keys[j], key@)
                == Order::Less by {
                assert(group_order(keys[j], key@) == Order::Less);
            }
            lemma_lower_bound_is(keys, key@, by_key(), lo as int);
            lemma_by_key_is_order();
            lemma_holds(keys, key@, by_key());
            assert forall|j: int| 0 <= j < self@.len() implies (#[trigger] self@[j]).key().same(
                key@,
            ) == (by_key()(keys[j], key@) == Order::Equal) by {
                lemma_group_order_equal(self@[j].key(), key@);
                assert(keys[j] == self@[j].key());
            }
        }
        if lo < self.items.len() {
            match self.items[lo].compare_key(key) {
                Order::Equal => Ok(lo),
                _ => Err(lo),
            }
        } else {
            Err(lo)
        }
    }
}

/// The collection after the group of the identity `key` has printed `line`; unchanged
/// where no group is of that identity.
pub open spec fn with_line(groups: Seq<GroupView>, key: GroupKeyView, line: Seq<char>) -> Seq<
    GroupView,
> {
    let place = group_place(groups, key);
    if holds_group(groups, key) {
        groups.update(
            place,
            groups[place].with_output(Some(pushed_line(groups[place].output(), line))),
        )
    } else {
        groups
    }
}

/// The collection after the group at `index` has forgotten what it printed; unchanged
/// where `index` is past the end.
pub open spec fn with_output_reset(groups: Seq<GroupView>, index: int) -> Seq<GroupView> {
    if 0 <= index < groups.len() {
        groups.update(index, groups[index].with_output(None))
    } else {
        groups
    }
}

/// Replacing a group by one of the same identity leaves a sorted collection sorted.
pub proof fn lemma_same_key_sorted(groups: Seq<GroupView>, i: int, group: GroupView)
    requires
        is_sorted(groups),
        0 <= i < groups.len(),
        group.key() == groups[i].key(),
    ensures
        is_sorted(groups.update(i, group)),
{
    assert(group_keys(groups.update(i, group)) =~= group_keys(groups));
}

impl Groups {
    /// Puts `group` into the collection: where a group of its identity is there, that group
    /// takes the tests of `group` and keeps what it has printed; else `group` is inserted
    /// at the place that its identity gives it.
    pub fn upsert(&mut self, group: Group)
        ensures
            final(self)@ == upserted(old(self)@, group@),
            is_sorted(final(self)@),
            final(self)@.len() == old(self)@.len() + (if holds_group(old(self)@, group@.key()) {
                0int
            } else {
                1int
            }),
    {
        proof {
            use_type_invariant(&*self);
            lemma_upserted_sorted(self@, group@);
            lemma_lower_bound(group_keys(self@), group@.key(), by_key());
        }
        let key = group.as_group_key();
        let found = self.binary_search(&key);
        let mut items: Vec<Group> = Vec::new();
        proof {
            lemma_empty_sorted();
            assert(items.deep_view() =~= Seq::<GroupView>::empty());
        }
        core::mem::swap(&mut self.items, &mut items);
        let ghost before = items.deep_view();
        match found {
            Ok(place) => {
                items[place].update_group(group);
                assert(items.deep_view() =~= before.update(
                    place as int,
                    group@.with_output(before[place as int].output()),
                ));
            },
            Err(place) => {
                items.insert(place, group);
                assert(items.deep_view() =~= before.insert(place as int, group@));
            },
        }
        core::mem::swap(&mut self.items, &mut items);
    }

    /// Adds `line` to what the group of the identity `key` has printed, and says whether
    /// there is such a group. A line for a group that is gone changes nothing.
    pub fn push_output(&mut self, key: &GroupKey, line: String) -> (r: bool)
        ensures
            r == holds_group(old(self)@, key@),
            final(self)@ == with_line(old(self)@, key@, line@),
            final(self)@.len() == old(self)@.len(),
            is_sorted(final(self)@),
    {
        proof {
            use_type_invariant(&*self);
        }
        match self.binary_search(key) {
            Ok(place) => {
                let mut items: Vec<Group> = Vec::new();
                proof {
                    lemma_empty_sorted();
                    assert(items.deep_view() =~= Seq::<GroupView>::empty());
                }
                core::mem::swap(&mut self.items, &mut items);
                let ghost before = items.deep_view();
                items[place].push_output(line);
                proof {
                    let after = before[place as int].with_output(
                        Some(pushed_line(before[place as int].output(), line@)),
                    );
                    assert(items.deep_view() =~= before.update(place as int, after));
                    lemma_same_key_sorted(before, place as int, after);
                }
                core::mem::swap(&mut self.items, &mut items);
                true
            },
            Err(_) => false,
        }
    }

    /// Makes the group at `index` forget what it printed. An index past the end changes
    /// nothing.
    pub fn reset_output(&mut self, index: usize)
        ensures
            final(self)@ == with_output_reset(old(self)@, index as int),
            is_sorted(final(self)@),
    {
        proof {
            use_type_invariant(&*self);
        }
        if index < self.items.len() {
            let mut items: Vec<Group> = Vec::new();
            proof {
                lemma_empty_sorted();
                assert(items.deep_view() =~= Seq::<GroupView>::empty());
            }
            core::mem::swap(&mut self.items, &mut items);
            let ghost before = items.deep_view();
            items[index].reset_output();
            proof {
                let after = before[index as int].with_output(None);
                assert(items.deep_view() =~= before.update(index as int, after));
                lemma_same_key_sorted(before, index as int, after);
            }
            core::mem::swap(&mut self.items, &mut items);
        }
    }
}

/// The empty collection is sorted.
pub proof fn lemma_empty_sorted()
    ensures
        is_sorted(Seq::<GroupView>::empty()),
{
    assert(group_keys(Seq::<GroupView>::empty()) =~= Seq::<GroupKeyView>::empty());
}

/// The place of the first group named `name`, or the number of groups where none is.
pub open spec fn first_named(names: Seq<Seq<char>>, name: Seq<char>) -> int
    decreases names.len(),
{
    if names.len() == 0 || names[0] == name {
        0
    } else {
        1 + first_named(names.drop_first(), name)
    }
}

/// What `first_named` gives: a place with no group of that name before it, and with one at
/// it unless it is the end.
pub proof fn lemma_first_named(names: Seq<Seq<char>>, name: Seq<char>, i: int)
    requires
        0 <= i <= names.len(),
        forall|k: int| 0 <= k < i ==> #[trigger] names[k] != name,
        i < names.len() ==> names[i] == name,
    ensures
        first_named(names, name) == i,
        names.contains(name) <==> i < names.len(),
    decreases i,
{
    if i > 0 {
        let rest = names.drop_first();
        assert(names[0] != name);
        assert forall|k: int| 0 <= k < i - 1 implies #[trigger] rest[k] != name by {
            assert(rest[k] == names[k + 1]);
        }
        lemma_first_named(rest, name, i - 1);
    }
    if i < names.len() {
        assert(names[i] == name);
    }
}

impl Groups {
    /// Finds a group named `name`: `Some` with the place of one whenever a group of that
    /// name is there, else `None`. A binary search by the order on names comes first; as
    /// the collection stands in the order of the identities, which is not that of the
    /// names, a name that it misses is then looked for group by group, and found at its
    /// first place.
    pub fn binary_search_by_name(&self, name: &GroupName) -> (r: Option<usize>)
        ensures
            r is Some <==> group_names(self@).contains(name@),
            r matches Some(i) ==> i < self@.len() && self@[i as int].name() == name@,
    {
        let ghost names = group_names(self@);
        let mut lo: usize = 0;
        let mut hi: usize = self.items.len();
        while lo < hi
            invariant
                0 <= lo <= hi <= self.items.len(),
                names == group_names(self@),
                names.len() == self.items.len(),
            decreases hi - lo,
        {
            let mid = lo + (hi - lo) / 2;
            let mid_name = self.items[mid].name();
            assert(names[mid as int] == mid_name@);
            match group_name(&mid_name).compare(name) {
                Order::Equal => {
                    proof {
                        lemma_name_order_equal(mid_name@, name@);
                    }
                    return Some(mid);
                },
                Order::Less => {
                    lo = mid + 1;
                },
                Order::Greater => {
                    hi = mid;
                },
            }
        }
        let place = self.first_place_of_name(name);
        if place < self.items.len() {
            Some(place)
        } else {
            None
        }
    }

    /// The place of the first group named `name`, or the number of groups where none is.
    pub fn first_place_of_name(&self, name: &GroupName) -> (r: usize)
        ensures
            r == first_named(group_names(self@), name@),
            r <= self@.len(),
            r < self@.len() <==> group_names(self@).contains(name@),
            r < self@.len() ==> self@[r as int].name() == name@,
    {
        let ghost names = group_names(self@);
        let mut i: usize = 0;
        while i < self.items.len()
            invariant
                0 <= i <= self.items.len(),
                names == group_names(self@),
                names.len() == self.items.len(),
                forall|k: int| 0 <= k < i ==> #[trigger] names[k] != name@,
            decreases self.items.len() - i,
        {
            let group_name_here = self.items[i].name();
            assert(names[i as int] == group_name_here@);
            if *group_name(&group_name_here) == *name {
                proof {
                    lemma_first_named(names, name@, i as int);
                }
                return i;
            }
            i += 1;
        }
        proof {
            lemma_first_named(names, name@, i as int);
        }
        i
    }

    /// Drops every auto-generated group whose name is not among `names`. Custom groups
    /// stay, and so does the order.
    pub fn retain_auto_generated(&mut self, names: &Vec<GroupName>)
        ensures
            final(self)@ == retained(old(self)@, names.deep_view()),
            is_sorted(final(self)@),
    {
        proof {
            use_type_invariant(&*self);
        }
        let mut items: Vec<Group> = Vec::new();
        proof {
            lemma_empty_sorted();
            assert(items.deep_view() =~= Seq::<GroupView>::empty());
        }
        core::mem::swap(&mut self.items, &mut items);
        let ghost all = items.deep_view();
        let ghost keep = |g: GroupView| is_retained(g, names.deep_view());
        let mut kept: Vec<Group> = Vec::new();
        let mut rest: Vec<Group> = Vec::new();
        // the groups leave `items` from the end, into `rest`; from there they come in order
        while items.len() > 0
            invariant
                items.deep_view() + rest.deep_view().reverse() == all,
            decreases items.len(),
        {
            let ghost before_items = items.deep_view();
            let ghost before_rest = rest.deep_view();
            let group = items.pop().unwrap();
            rest.push(group);
            assert(items.deep_view() =~= before_items.drop_last());
            assert(rest.deep_view() =~= before_rest.push(group@));
            assert(items.deep_view() + rest.deep_view().reverse() =~= before_items
                + before_rest.reverse());
        }
        assert(rest.deep_view().reverse() =~= all);
        assert(kept.deep_view() =~= all.take(0).filter(keep));
        let ghost mut done: int = 0;
        while rest.len() > 0
            invariant
                0 <= done <= all.len(),
                is_sorted(all),
                keep == (|g: GroupView| is_retained(g, names.deep_view())),
                rest.deep_view().reverse() == all.skip(done),
                kept.deep_view() == all.take(done).filter(keep),
                is_sorted(kept.deep_view()),
                forall|a: int, b: int|
                    0 <= a < kept.len() && done <= b < all.len() ==> group_order(
                        #[trigger] kept.deep_view()[a].key(),
                        #[trigger] all[b].key(),
                    ) == Order::Less,
            decreases rest.len(),
        {
            let ghost before_rest = rest.deep_view();
            let ghost before_kept = kept.deep_view();
            let group = rest.pop().unwrap();
            proof {
                assert(rest.deep_view() =~= before_rest.drop_last());
                assert(before_rest.reverse().len() == all.skip(done).len());
                assert(done < all.len());
                assert(before_rest.reverse()[0] == before_rest.last());
                assert(all.skip(done)[0] == all[done]);
                assert(group@ == all[done]);
                assert(before_rest.drop_last().reverse() =~= before_rest.reverse().skip(1));
                assert(all.skip(done).skip(1) =~= all.skip(done + 1));
                assert(rest.deep_view().reverse() =~= all.skip(done + 1));
                assert(all.take(done + 1).drop_last() =~= all.take(done));
                assert(all.take(done + 1).last() == all[done]);
                reveal(Seq::filter);
            }
            let stays = match &group {
                Group::Custom(_) => true,
                Group::AutoGenerated(auto) => {
                    let name = auto.name();
                    contains_name(names, group_name(&name))
                },
            };
            if stays {
                proof {
                    let keys = group_keys(before_kept);
                    assert forall|j: int| 0 <= j < keys.len() implies by_key()(
                        #[trigger] keys[j],
                        group@.key(),
                    ) == Order::Less by {
                        assert(group_order(before_kept[j].key(), all[done].key()) == Order::Less);
                    }
                    crate::sorted::lemma_push_sorted(keys, group@.key(), by_key());
                    assert(group_keys(before_kept.push(group@)) =~= keys.push(group@.key()));
                }
                kept.push(group);
                assert(kept.deep_view() =~= before_kept.push(group@));
                assert forall|a: int, b: int|
                    0 <= a < kept.len() && done + 1 <= b < all.len() implies group_order(
                    #[trigger] kept.deep_view()[a].key(),
                    #[trigger] all[b].key(),
                ) == Order::Less by {
                    if a == kept.len() - 1 {
                        assert(by_key()(group_keys(all)[done], group_keys(all)[b]) == Order::Less);
                    }
                }
            }
            proof {
                done = done + 1;
            }
        }
        assert(all.take(all.len() as int) =~= all);
        core::mem::swap(&mut self.items, &mut kept);
    }
}

fn contains_name(names: &Vec<GroupName>, name: &GroupName) -> (r: bool)
    ensures
        r == names.deep_view().contains(name@),
{
    for i in 0..names.len()
        invariant
            forall|k: int| 0 <= k < i ==> names.deep_view()[k] != name@,
    {
        if names[i] == *name {
            assert(names.deep_view()[i as int] == name@);
            return true;
        }
    }
    false
}

/// The collection with `group` inserted at the place that its identity gives it;
/// unchanged where a group of that identity is there.
pub open spec fn with_new(groups: Seq<GroupView>, group: GroupView) -> Seq<GroupView> {
    if holds_group(groups, group.key()) {
        groups
    } else {
        groups.insert(group_place(groups, group.key()), group)
    }
}

/// The collection after each of `more` has been put into it, in turn.
pub open spec fn upserted_all(groups: Seq<GroupView>, more: Seq<GroupView>) -> Seq<GroupView>
    decreases more.len(),
{
    if more.len() == 0 {
        groups
    } else {
        upserted(upserted_all(groups, more.drop_last()), more.last())
    }
}

/// The custom groups among `groups`, in order: the groups that are the user's own, and
/// so are worth writing down.
pub open spec fn custom_groups(groups: Seq<GroupView>) -> Seq<GroupView> {
    groups.filter(|g: GroupView| g is Custom)
}

/// Putting groups in one after another, in any number, leaves a sorted collection sorted.
pub proof fn lemma_upserted_all_sorted(groups: Seq<GroupView>, more: Seq<GroupView>)
    requires
        is_sorted(groups),
    ensures
        is_sorted(upserted_all(groups, more)),
    decreases more.len(),
{
    if more.len() > 0 {
        lemma_upserted_all_sorted(groups, more.drop_last());
        lemma_upserted_sorted(upserted_all(groups, more.drop_last()), more.last());
    }
}

/// Inserting a group keeps a sorted collection sorted.
pub proof fn lemma_with_new_sorted(groups: Seq<GroupView>, group: GroupView)
    requires
        is_sorted(groups),
    ensures
        is_sorted(with_new(groups, group)),
{
    if !holds_group(groups, group.key()) {
        lemma_upserted_sorted(groups, group);
    }
}

/// A line that a job prints reaches the group that owns the job and no other: every group
/// of another identity stays as it is, whatever job has been started since.
pub proof fn lemma_line_reaches_owner_only(
    groups: Seq<GroupView>,
    key: GroupKeyView,
    line: Seq<char>,
    j: int,
)
    requires
        is_sorted(groups),
        0 <= j < groups.len(),
    ensures
        with_line(groups, key, line).len() == groups.len(),
        !groups[j].key().same(key) ==> with_line(groups, key, line)[j] == groups[j],
        groups[j].key().same(key) ==> with_line(groups, key, line)[j] == groups[j].with_output(
            Some(pushed_line(groups[j].output(), line)),
        ),
{
    let keys = group_keys(groups);
    lemma_by_key_is_order();
    lemma_lower_bound(keys, key, by_key());
    lemma_holds(keys, key, by_key());
    lemma_group_order_equal(groups[j].key(), key);
    assert(keys[j] == groups[j].key());
    if groups[j].key().same(key) {
        lemma_found_at_lower_bound(keys, key, by_key(), j);
    } else if holds_group(groups, key) {
        let place = group_place(groups, key);
        assert(keys[place] == groups[place].key());
        lemma_group_order_equal(groups[place].key(), key);
    }
}

impl Groups {
    /// Inserts `group` unless a group of its identity is there, and says whether it did.
    pub fn insert_new(&mut self, group: Group) -> (r: bool)
        ensures
            r == !holds_group(old(self)@, group@.key()),
            final(self)@ == with_new(old(self)@, group@),
            is_sorted(final(self)@),
    {
        proof {
            use_type_invariant(&*self);
            lemma_with_new_sorted(self@, group@);
        }
        let key = group.as_group_key();
        match self.binary_search(&key) {
            Ok(_) => false,
            Err(place) => {
                let mut items: Vec<Group> = Vec::new();
                proof {
                    lemma_empty_sorted();
                    assert(items.deep_view() =~= Seq::<GroupView>::empty());
                }
                core::mem::swap(&mut self.items, &mut items);
                let ghost before = items.deep_view();
                items.insert(place, group);
                assert(items.deep_view() =~= before.insert(place as int, group@));
                core::mem::swap(&mut self.items, &mut items);
                true
            },
        }
    }

    /// The collection of the given groups: each is put in, in turn, so that among groups
    /// of one identity a later one gives its tests to the one that is there.
    pub fn from_groups(groups: Vec<Group>) -> (r: Self)
        ensures
            r@ == upserted_all(seq![], groups.deep_view()),
            is_sorted(r@),
    {
        let mut collection = Groups::new();
        let mut rest: Vec<Group> = Vec::new();
        let mut groups = groups;
        let ghost all = groups.deep_view();
        while groups.len() > 0
            invariant
                groups.deep_view() + rest.deep_view().reverse() == all,
            decreases groups.len(),
        {
            let ghost before_groups = groups.deep_view();
            let ghost before_rest = rest.deep_view();
            let group = groups.pop().unwrap();
            rest.push(group);
            assert(groups.deep_view() =~= before_groups.drop_last());
            assert(rest.deep_view() =~= before_rest.push(group@));
            assert(groups.deep_view() + rest.deep_view().reverse() =~= before_groups
                + before_rest.reverse());
        }
        assert(rest.deep_view().reverse() =~= all);
        assert(all.take(0) =~= seq![]);
        let ghost mut done: int = 0;
        while rest.len() > 0
            invariant
                0 <= done <= all.len(),
                rest.deep_view().reverse() == all.skip(done),
                collection@ == upserted_all(seq![], all.take(done)),
            decreases rest.len(),
        {
            let ghost before_rest = rest.deep_view();
            let group = rest.pop().unwrap();
            proof {
                assert(rest.deep_view() =~= before_rest.drop_last());
                assert(before_rest.reverse().len() == all.skip(done).len());
                assert(before_rest.reverse()[0] == before_rest.last());
                assert(all.skip(done)[0] == all[done]);
                assert(before_rest.drop_last().reverse() =~= before_rest.reverse().skip(1));
                assert(all.skip(done).skip(1) =~= all.skip(done + 1));
                assert(all.take(done + 1).drop_last() =~= all.take(done));
                assert(all.take(done + 1).last() == all[done]);
            }
            collection.upsert(group);
            proof {
                done = done + 1;
            }
        }
        assert(all.take(all.len() as int) =~= all);
        proof {
            use_type_invariant(&collection);
        }
        collection
    }

    /// The places of the custom groups, in order: the groups that are worth writing down.
    pub fn custom_group_places(&self) -> (r: Vec<usize>)
        ensures
            r@.len() == custom_groups(self@).len(),
            forall|k: int|
                0 <= k < r@.len() ==> (#[trigger] r@[k]) < self@.len() && self@[r@[k] as int]
                    == custom_groups(self@)[k],
            forall|k: int, l: int| 0 <= k < l < r@.len() ==> r@[k] < r@[l],
    {
        let mut places: Vec<usize> = Vec::new();
        let ghost keep = |g: GroupView| g is Custom;
        assert(self@.take(0) =~= seq![]);
        for i in 0..self.items.len()
            invariant
                keep == (|g: GroupView| g is Custom),
                places@.len() == self@.take(i as int).filter(keep).len(),
                forall|k: int|
                    0 <= k < places@.len() ==> (#[trigger] places@[k]) < i && self@[places@[k] as int]
                        == self@.take(i as int).filter(keep)[k],
                forall|k: int, l: int| 0 <= k < l < places@.len() ==> places@[k] < places@[l],
        {
            proof {
                assert(self@.take(i + 1).drop_last() =~= self@.take(i as int));
                assert(self@.take(i + 1).last() == self@[i as int]);
                reveal(Seq::filter);
            }
            let is_custom = match &self.items[i] {
                Group::Custom(_) => true,
                Group::AutoGenerated(_) => false,
            };
            if is_custom {
                places.push(i);
            }
        }
        assert(self@.take(self@.len() as int) =~= self@);
        places
    }
}

impl Default for Groups {
    fn default() -> (r: Self)
        ensures
            r@ == Seq::<GroupView>::empty(),
    {
        Groups::new()
    }
}

} // verus!
