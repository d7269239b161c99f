//! A list with an optional selection.

use vstd::prelude::*;
use crate::cursor::{next_stays_inside, spec_next, spec_previous};

verus! {

/// Items in a fixed order, and the index of the selected one where one is selected.
pub struct StatefulList<T> {
    state: Option<usize>,
    items: Vec<T>,
}

impl<T> StatefulList<T> {
    /// The items, in order.
    pub closed spec fn spec_items(&self) -> Seq<T> {
        self.items@
    }

    /// The selection.
    pub closed spec fn spec_state(&self) -> Option<usize> {
        self.state
    }

    /// The selected index, or 0 where nothing is selected.
    pub open spec fn spec_selected_index(&self) -> int {
        match self.spec_state() {
            Some(i) => i as int,
            None => 0,
        }
    }

    /// A selection is the index of an item, or 0 in a list without items.
    pub open spec fn wf(&self) -> bool {
        self.spec_state() is Some ==> self.spec_state()->Some_0 < self.spec_items().len() || (
        self.spec_items().len() == 0 && self.spec_state()->Some_0 == 0)
    }

    /// A list of `value` with the first item selected.
    pub fn from(value: Vec<T>) -> (list: StatefulList<T>)
        ensures
            list.spec_items() == value@,
            list.spec_state() == Some(0usize),
            list.wf(),
    {
        StatefulList { state: Some(0), items: value }
    }

    /// Selects the following item, the first after the last; with nothing selected,
    /// the first item.
    pub fn next(&mut self)
        requires
            old(self).wf(),
            old(self).spec_items().len() > 0,
        ensures
            final(self).wf(),
            final(self).spec_items() == old(self).spec_items(),
            final(self).spec_state() is Some,
            final(self).spec_selected_index() == (match old(self).spec_state() {
                Some(i) => spec_next(i as int, old(self).spec_items().len() as int),
                None => 0,
            }),
    {
        let i = match self.state {
            Some(i) => {
                proof {
                    next_stays_inside(i as int, self.items@.len() as int);
                }
                if i < self.items.len() - 1 {
                    i + 1
                } else {
                    0
                }
            },
            None => 0,
        };
        self.state = Some(i);
    }

    /// Selects the preceding item, the last before the first; with nothing selected,
    /// the first item.
    pub fn previous(&mut self)
        requires
            old(self).wf(),
            old(self).spec_items().len() > 0,
        ensures
            final(self).wf(),
            final(self).spec_items() == old(self).spec_items(),
            final(self).spec_state() is Some,
            final(self).spec_selected_index() == (match old(self).spec_state() {
                Some(i) => spec_previous(i as int, old(self).spec_items().len() as int),
                None => 0,
            }),
    {
        let i = match self.state {
            Some(i) => if i == 0 {
                self.items.len() - 1
            } else {
                i - 1
            },
            None => 0,
        };
        self.state = Some(i);
    }

    /// The selected item, or the first where nothing is selected.
    pub fn selected(&self) -> (item: &T)
        requires
            self.wf(),
            self.spec_items().len() > 0,
        ensures
            *item == self.spec_items()[self.spec_selected_index()],
    {
        let i = self.selected_index();
        &self.items[i]
    }

    /// The selected index, or 0 where nothing is selected.
    pub fn selected_index(&self) -> (i: usize)
        ensures
            i == self.spec_selected_index(),
    {
        match self.state {
            Some(i) => i,
            None => 0,
        }
    }

    /// The selection.
    pub fn state(&self) -> (state: Option<usize>)
        ensures
            state == self.spec_state(),
    {
        self.state
    }

    /// The items, in order.
    pub fn items(&self) -> (items: &[T])
        ensures
            items@ == self.spec_items(),
    {
        self.items.as_slice()
    }
}

} // verus!
