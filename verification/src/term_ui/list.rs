//! A list whose items can be selected one at a time, moving forwards and backwards with
//! wrap-around.
use vstd::prelude::*;

verus! {

/// A list of items with at most one selected.
pub struct StatefulList<T> {
    selected: Option<usize>,
    items: Vec<T>,
}

impl<T> StatefulList<T> {
    /// The index of the selected item, if any.
    pub closed spec fn selection(&self) -> Option<usize> {
        self.selected
    }

    /// The items.
    pub closed spec fn item_seq(&self) -> Seq<T> {
        self.items@
    }

    /// A list of the given items with none selected.
    pub fn with_items(items: Vec<T>) -> (l: StatefulList<T>)
        ensures
            l.item_seq() == items@,
            l.selection() is None,
    {
        StatefulList { selected: None, items }
    }

    /// The items.
    pub fn items(&self) -> (s: &[T])
        ensures
            s@ == self.item_seq(),
    {
        self.items.as_slice()
    }

    /// The index of the selected item, if any.
    pub fn selected(&self) -> (r: Option<usize>)
        ensures
            r == self.selection(),
    {
        self.selected
    }

    /// Selects the next item, the first after the last; the first where none is selected.
    pub fn next(&mut self)
        requires
            old(self).selection() is Some ==> old(self).item_seq().len() > 0,
        ensures
            final(self).item_seq() == old(self).item_seq(),
            final(self).selection() == Some(
                match old(self).selection() {
                    Some(i) => if i + 1 >= old(self).item_seq().len() {
                        0usize
                    } else {
                        (i + 1) as usize
                    },
                    None => 0usize,
                },
            ),
    {
        let i = match self.selected {
            Some(i) => {
                if i >= self.items.len() - 1 {
                    0
                } else {
                    i + 1
                }
            },
            None => 0,
        };
        self.selected = Some(i);
    }

    /// Selects the previous item, the last before the first; the first where none is
    /// selected.
    pub fn previous(&mut self)
        requires
            old(self).selection() is Some ==> old(self).item_seq().len() > 0,
        ensures
            final(self).item_seq() == old(self).item_seq(),
            final(self).selection() == Some(
                match old(self).selection() {
                    Some(i) => if i == 0 {
                        (old(self).item_seq().len() - 1) as usize
                    } else {
                        (i - 1) as usize
                    },
                    None => 0usize,
                },
            ),
    {
        let i = match self.selected {
            Some(i) => {
                if i == 0 {
                    self.items.len() - 1
                } else {
                    i - 1
                }
            },
            None => 0,
        };
        self.selected = Some(i);
    }

    /// Selects no item.
    pub fn unselect(&mut self)
        ensures
            final(self).item_seq() == old(self).item_seq(),
            final(self).selection() is None,
    {
        self.selected = None;
    }
}

} // verus!
