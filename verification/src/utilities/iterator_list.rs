//! A growable list with a forward-only read cursor.

use vstd::prelude::*;
use vstd::slice::slice_subrange;

verus! {

/// A list of items together with a cursor that marks how many of them have
/// been handed out by [`IteratorList::next`].
///
/// The cursor only moves forward, one item at a time, until
/// [`IteratorList::reset`] puts it back at the start. It never passes the end
/// of the list.
pub struct IteratorList<T> {
    list: Vec<T>,
    current_index: usize,
}

impl<T> IteratorList<T> {
    /// The items held, in the order in which they were added.
    pub closed spec fn items(&self) -> Seq<T> {
        self.list@
    }

    /// The number of items that the cursor has passed.
    pub closed spec fn position(&self) -> nat {
        self.current_index as nat
    }

    /// The items that the cursor has not passed yet.
    pub open spec fn remaining(&self) -> Seq<T> {
        self.items().skip(self.position() as int)
    }

    /// The cursor has not passed the end of the list. Every constructor
    /// establishes this and every method keeps it.
    pub closed spec fn well_formed(&self) -> bool {
        self.current_index <= self.list.len()
    }

    /// In a well-formed list the cursor lies within the items.
    pub proof fn lemma_position_in_bounds(self)
        requires
            self.well_formed(),
        ensures
            self.position() <= self.items().len(),
    {
    }

    /// An empty list with the cursor at the start.
    pub fn new() -> (list: IteratorList<T>)
        ensures
            list.well_formed(),
            list.items() == Seq::<T>::empty(),
            list.position() == 0,
    {
        IteratorList { list: Vec::new(), current_index: 0 }
    }

    /// A list that holds the items of `list`, in order, with the cursor at
    /// the start.
    pub fn with_vec(list: Vec<T>) -> (made: IteratorList<T>)
        ensures
            made.well_formed(),
            made.items() == list@,
            made.position() == 0,
    {
        IteratorList { list, current_index: 0 }
    }

    /// Hands out the item under the cursor and moves the cursor past it.
    /// At the end of the list it returns `None` and leaves the cursor where
    /// it is.
    pub fn next(&mut self) -> (item: Option<&T>)
        requires
            old(self).well_formed(),
        ensures
            final(self).well_formed(),
            final(self).items() == old(self).items(),
            old(self).position() < old(self).items().len() ==> {
                &&& item == Some(&old(self).items()[old(self).position() as int])
                &&& final(self).position() == old(self).position() + 1
            },
            old(self).position() >= old(self).items().len() ==> {
                &&& item is None
                &&& final(self).position() == old(self).position()
            },
    {
        if self.current_index < self.list.len() {
            let index: usize = self.current_index;
            self.current_index = index + 1;
            Some(&self.list[index])
        } else {
            None
        }
    }

    /// The next `window` items under and after the cursor, without moving
    /// it; `None` where fewer than `window` items remain.
    pub fn peek(&self, window: usize) -> (ahead: Option<&[T]>)
        requires
            self.well_formed(),
        ensures
            self.position() + window <= self.items().len() ==> {
                &&& ahead is Some
                &&& ahead->0@ == self.items().subrange(
                    self.position() as int,
                    self.position() + window,
                )
            },
            self.position() + window > self.items().len() ==> ahead is None,
    {
        let current_index: usize = self.current_index;
        if window <= self.list.len() - current_index {
            let to_index: usize = current_index + window;
            Some(slice_subrange(self.list.as_slice(), current_index, to_index))
        } else {
            None
        }
    }

    /// Adds `item` at the end. The cursor stays where it is.
    pub fn push(&mut self, item: T)
        requires
            old(self).well_formed(),
        ensures
            final(self).well_formed(),
            final(self).items() == old(self).items().push(item),
            final(self).position() == old(self).position(),
    {
        self.list.push(item);
    }

    /// Puts the cursor back at the start.
    pub fn reset(&mut self)
        ensures
            final(self).well_formed(),
            final(self).items() == old(self).items(),
            final(self).position() == 0,
    {
        self.current_index = 0;
    }

    /// The number of items held, passed or not.
    pub fn len(&self) -> (n: usize)
        ensures
            n == self.items().len(),
    {
        self.list.len()
    }

    /// The number of items that the cursor has passed.
    pub fn get_current_position(&self) -> (position: usize)
        ensures
            position == self.position(),
    {
        self.current_index
    }
}

} // verus!
