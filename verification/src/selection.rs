//! Which item of a list is selected.

use ratatui::widgets::ListState;
use vstd::prelude::*;

verus! {

/// The selection of a list: the index of the selected item, if any. The index may lie past
/// the end of the list until the list is next drawn; drawing brings it back to the last
/// item.
#[derive(Debug, Clone, Copy, PartialEq, Eq, Structural)]
pub struct ListSelection {
    pub selected: Option<usize>,
}

/// The selection after a step to the next item: the first item where none was selected.
pub open spec fn next_selection(selected: Option<usize>) -> Option<usize> {
    match selected {
        None => Some(0usize),
        Some(i) => if i == usize::MAX {
            Some(i)
        } else {
            Some((i + 1) as usize)
        },
    }
}

/// The selection after a step to the previous item: the last item where none was selected.
pub open spec fn previous_selection(selected: Option<usize>) -> Option<usize> {
    match selected {
        None => Some(usize::MAX),
        Some(i) => if i == 0 {
            Some(i)
        } else {
            Some((i - 1) as usize)
        },
    }
}

/// `ratatui::widgets::ListState::select_first`, on a list state with the given selection:
/// the source sets the selection to index 0.
#[verifier::external_body]
fn list_state_select_first(selected: Option<usize>) -> (r: Option<usize>)
    ensures
        r == Some(0usize),
{
    let mut state = ListState::default().with_selected(selected);
    state.select_first();
    state.selected()
}

/// `ratatui::widgets::ListState::select_last`, on a list state with the given selection:
/// the source sets the selection to `usize::MAX`, which stands for the last item until the
/// list is drawn.
#[verifier::external_body]
fn list_state_select_last(selected: Option<usize>) -> (r: Option<usize>)
    ensures
        r == Some(usize::MAX),
{
    let mut state = ListState::default().with_selected(selected);
    state.select_last();
    state.selected()
}

/// `ratatui::widgets::ListState::select_next`, on a list state with the given selection:
/// the source selects index 0 where nothing was selected, else the index plus one,
/// saturating.
#[verifier::external_body]
fn list_state_select_next(selected: Option<usize>) -> (r: Option<usize>)
    ensures
        r == next_selection(selected),
{
    let mut state = ListState::default().with_selected(selected);
    state.select_next();
    state.selected()
}

/// `ratatui::widgets::ListState::select_previous`, on a list state with the given
/// selection: the source selects `usize::MAX` where nothing was selected, else the index
/// minus one, saturating.
#[verifier::external_body]
fn list_state_select_previous(selected: Option<usize>) -> (r: Option<usize>)
    ensures
        r == previous_selection(selected),
{
    let mut state = ListState::default().with_selected(selected);
    state.select_previous();
    state.selected()
}

impl ListSelection {
    /// The index of the selected item, if any.
    pub fn selected(&self) -> (r: Option<usize>)
        ensures
            r == self.selected,
    {
        self.selected
    }

    /// Selects the item at `index`, or none.
    pub fn select(&mut self, index: Option<usize>)
        ensures
            final(self).selected == index,
    {
        self.selected = index;
    }

    /// Selects the first item.
    pub fn select_first(&mut self)
        ensures
            final(self).selected == Some(0usize),
    {
        self.selected = list_state_select_first(self.selected);
    }

    /// Selects the last item.
    pub fn select_last(&mut self)
        ensures
            final(self).selected == Some(usize::MAX),
    {
        self.selected = list_state_select_last(self.selected);
    }

    /// Selects the next item, or the first where none is selected.
    pub fn select_next(&mut self)
        ensures
            final(self).selected == next_selection(old(self).selected),
    {
        self.selected = list_state_select_next(self.selected);
    }

    /// Selects the previous item, or the last where none is selected.
    pub fn select_previous(&mut self)
        ensures
            final(self).selected == previous_selection(old(self).selected),
    {
        self.selected = list_state_select_previous(self.selected);
    }
}

/// The selection of a list at start-up: the first item.
pub fn default_list_state() -> (r: ListSelection)
    ensures
        r.selected == Some(0usize),
{
    let mut list_state = ListSelection { selected: None };
    list_state.select_first();
    list_state
}

} // verus!
