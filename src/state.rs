//! The list of secrets shown by the front end, with the selected row.

use vstd::prelude::*;

use crate::tomb::AES256Secret;

verus! {

/// Secrets with an optional selected position.
pub struct StatefulList {
    pub selected: Option<usize>,
    pub items: Vec<AES256Secret>,
}

impl StatefulList {
    /// The list of `items`, nothing selected.
    pub fn with_items(items: Vec<AES256Secret>) -> (r: StatefulList)
        ensures
            r.items == items,
            r.selected is None,
    {
        StatefulList { selected: None, items }
    }

    pub fn empty() -> (r: StatefulList)
        ensures
            r.items@.len() == 0,
            r.selected is None,
    {
        StatefulList::with_items(Vec::new())
    }

    /// Replaces the items and keeps the selection.
    pub fn update(&mut self, items: Vec<AES256Secret>)
        ensures
            final(self).items == items,
            final(self).selected == old(self).selected,
    {
        self.items = items;
    }

    /// Selects the next row, wrapping from the last to the first; with
    /// nothing selected, the first.
    pub fn next(&mut self)
        requires
            old(self).selected is Some ==> old(self).items@.len() > 0,
        ensures
            final(self).items == old(self).items,
            final(self).selected == Some(
                match old(self).selected {
                    Some(i) => if i >= old(self).items@.len() - 1 {
                        0
                    } else {
                        (i + 1) as usize
                    },
                    None => 0,
                },
            ),
    {
        let i = match self.selected {
            Some(i) => {
                if i >= self.items.len() - 1 {
                    0
                } else {
                    i + 1
                }
            },
            None => 0,
        };
        self.selected = Some(i);
    }

    /// Selects the previous row, wrapping from the first to the last; with
    /// nothing selected, the first.
    pub fn previous(&mut self)
        requires
            old(self).selected is Some ==> old(self).items@.len() > 0,
        ensures
            final(self).items == old(self).items,
            final(self).selected == Some(
                match old(self).selected {
                    Some(i) => if i == 0 {
                        (old(self).items@.len() - 1) as usize
                    } else {
                        (i - 1) as usize
                    },
                    None => 0,
                },
            ),
    {
        let i = match self.selected {
            Some(i) => {
                if i == 0 {
                    self.items.len() - 1
                } else {
                    i - 1
                }
            },
            None => 0,
        };
        self.selected = Some(i);
    }

    /// A copy of the selected secret, if a row within the list is selected.
    pub fn current(&self) -> (r: Option<AES256Secret>)
        ensures
            match self.selected {
                Some(i) => if i < self.items@.len() {
                    r is Some && r->Some_0@ == self.items@[i as int]@
                } else {
                    r is None
                },
                None => r is None,
            },
    {
        match self.selected {
            Some(index) => {
                if self.items.len() <= index {
                    return None;
                }
                Some(self.items[index].duplicate())
            },
            None => None,
        }
    }

    pub fn unselect(&mut self)
        ensures
            final(self).items == old(self).items,
            final(self).selected is None,
    {
        self.selected = None;
    }
}

} // verus!
