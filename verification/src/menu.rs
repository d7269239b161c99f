//! A list of items with one of them selected.

use vstd::prelude::*;
use crate::cursor::{next_stays_inside, spec_next, spec_previous};
use crate::key::{HandleSuccess, Key};
use crate::text::views;

verus! {

/// Something that a menu can list.
pub trait MenuItem {
    /// The lines that stand for the item.
    spec fn lines(&self) -> Seq<Seq<char>>;

    /// The lines that stand for the item.
    fn render(&self) -> (out: Vec<String>)
        ensures
            views(out@) == self.lines(),
    ;

    /// The lines that stand for the item while it is selected: the same, unless an
    /// item says otherwise.
    fn render_highlighted(&self) -> (out: Vec<String>)
        ensures
            views(out@) == self.lines(),
    {
        self.render()
    }
}

/// Items in a fixed order and the index of the selected one.
pub struct Menu<T> {
    idx: usize,
    items: Vec<T>,
}

impl<T> Menu<T> {
    /// The items, in order.
    pub closed spec fn items(&self) -> Seq<T> {
        self.items@
    }

    /// The index of the selected item.
    pub closed spec fn spec_idx(&self) -> int {
        self.idx as int
    }

    /// The selection is an index of an item; an empty menu selects index 0.
    pub open spec fn wf(&self) -> bool {
        0 <= self.spec_idx() && (self.spec_idx() < self.items().len() || (self.items().len() == 0
            && self.spec_idx() == 0))
    }

    /// A menu of `items` with the first one selected.
    pub fn new(items: Vec<T>) -> (menu: Menu<T>)
        ensures
            menu.wf(),
            menu.items() == items@,
            menu.spec_idx() == 0,
    {
        Menu { idx: 0, items }
    }

    /// Selects the following item; after the last comes the first.
    pub fn next(&mut self)
        requires
            old(self).wf(),
            old(self).items().len() > 0,
        ensures
            final(self).wf(),
            final(self).items() == old(self).items(),
            final(self).spec_idx() == spec_next(
                old(self).spec_idx(),
                old(self).items().len() as int,
            ),
    {
        proof {
            next_stays_inside(self.idx as int, self.items@.len() as int);
        }
        self.idx = if self.idx < self.items.len() - 1 {
            self.idx + 1
        } else {
            0
        };
    }

    /// Selects the preceding item; before the first comes the last.
    pub fn previous(&mut self)
        requires
            old(self).wf(),
            old(self).items().len() > 0,
        ensures
            final(self).wf(),
            final(self).items() == old(self).items(),
            final(self).spec_idx() == spec_previous(
                old(self).spec_idx(),
                old(self).items().len() as int,
            ),
    {
        self.idx = if self.idx == 0 {
            self.items.len() - 1
        } else {
            self.idx - 1
        };
    }

    /// The selected item.
    pub fn selected(&self) -> (item: &T)
        requires
            self.wf(),
            self.items().len() > 0,
        ensures
            *item == self.items()[self.spec_idx()],
    {
        &self.items[self.idx]
    }

    /// The index of the selected item.
    pub fn idx(&self) -> (i: usize)
        ensures
            i == self.spec_idx(),
    {
        self.idx
    }

    /// The number of items.
    pub fn len(&self) -> (n: usize)
        ensures
            n == self.items().len(),
    {
        self.items.len()
    }

    /// The item at `i`.
    pub fn item(&self, i: usize) -> (item: &T)
        requires
            i < self.items().len(),
        ensures
            *item == self.items()[i as int],
    {
        &self.items[i]
    }

    /// The selection that a key leaves: `j` and the down arrow move it forward, `k`
    /// and the up arrow move it backward, every other key leaves it where it is.
    pub open spec fn idx_after(i: int, n: int, key: Key) -> int {
        if key.is_down() {
            spec_next(i, n)
        } else if key.is_up() {
            spec_previous(i, n)
        } else {
            i
        }
    }

    /// Moves the selection on `j`, `k` and the arrows, and says whether the key was
    /// one of them.
    pub fn on_event(&mut self, key: Key) -> (handled: HandleSuccess)
        requires
            old(self).wf(),
            old(self).items().len() > 0,
        ensures
            final(self).wf(),
            final(self).items() == old(self).items(),
            final(self).spec_idx() == Self::idx_after(
                old(self).spec_idx(),
                old(self).items().len() as int,
                key,
            ),
            handled == (if key.is_down() || key.is_up() {
                HandleSuccess::Consumed
            } else {
                HandleSuccess::Ignored
            }),
    {
        if key.is_down() {
            self.next();
            HandleSuccess::Consumed
        } else if key.is_up() {
            self.previous();
            HandleSuccess::Consumed
        } else {
            HandleSuccess::Ignored
        }
    }
}

impl<T: MenuItem> Menu<T> {
    /// The lines of every item, in order; the selected item is asked for its
    /// highlighted form.
    pub fn render(&self) -> (out: Vec<Vec<String>>)
        ensures
            out@.len() == self.items().len(),
            forall|i: int|
                0 <= i < out@.len() ==> views((#[trigger] out@[i])@) == self.items()[i].lines(),
    {
        let mut out: Vec<Vec<String>> = Vec::new();
        let mut i: usize = 0;
        while i < self.items.len()
            invariant
                i <= self.items.len(),
                out@.len() == i,
                forall|j: int|
                    0 <= j < i ==> views((#[trigger] out@[j])@) == self.items@[j].lines(),
            decreases self.items.len() - i,
        {
            let lines = if i == self.idx {
                self.items[i].render_highlighted()
            } else {
                self.items[i].render()
            };
            out.push(lines);
            i = i + 1;
        }
        out
    }
}

} // verus!
