//! The ordered, capacity-bounded set of movies the user has chosen.

use vstd::prelude::*;

use crate::errors::ErrorKind;
use crate::movie::Movie;

verus! {

/// Mathematical image of [`SelectionSet`]: the chosen movies in the
/// order they were accepted, and the fixed capacity.
pub struct SelectionView {
    pub items: Seq<Movie>,
    pub capacity: nat,
}

impl SelectionView {
    /// The selection never outgrows its capacity.
    pub open spec fn wf(self) -> bool {
        self.items.len() <= self.capacity
    }

    /// No further movie can be accepted.
    pub open spec fn is_full(self) -> bool {
        self.items.len() >= self.capacity
    }
}

/// The user's selection: an append-only sequence of movies with a fixed
/// capacity. Once it is full, `accept` refuses everything until `reset`.
pub struct SelectionSet {
    items: Vec<Movie>,
    capacity: usize,
}

impl View for SelectionSet {
    type V = SelectionView;

    closed spec fn view(&self) -> SelectionView {
        SelectionView { items: self.items@, capacity: self.capacity as nat }
    }
}

impl SelectionSet {
    /// An empty selection that will hold at most `capacity` movies.
    pub fn new(capacity: usize) -> (r: Self)
        ensures
            r@ == (SelectionView { items: Seq::<Movie>::empty(), capacity: capacity as nat }),
            r@.wf(),
    {
        SelectionSet { items: Vec::new(), capacity }
    }

    /// Appends `m`, unless the selection is already at capacity; in that
    /// case nothing changes and the caller learns why.
    pub fn accept(&mut self, m: Movie) -> (r: Result<(), ErrorKind>)
        ensures
            old(self)@.is_full() ==> r == Result::<(), ErrorKind>::Err(
                ErrorKind::CapacityExceeded,
            ) && final(self)@ == old(self)@,
            !old(self)@.is_full() ==> r is Ok && final(self)@ == (SelectionView {
                items: old(self)@.items.push(m),
                capacity: old(self)@.capacity,
            }),
            old(self)@.wf() ==> final(self)@.wf(),
    {
        if self.items.len() >= self.capacity {
            Err(ErrorKind::CapacityExceeded)
        } else {
            self.items.push(m);
            Ok(())
        }
    }

    /// Whether the selection has reached its capacity.
    pub fn is_full(&self) -> (r: bool)
        ensures
            r == self@.is_full(),
    {
        self.items.len() >= self.capacity
    }

    /// How many movies have been accepted.
    pub fn len(&self) -> (r: usize)
        ensures
            r as nat == self@.items.len(),
    {
        self.items.len()
    }

    /// The capacity the selection was created with.
    pub fn capacity(&self) -> (r: usize)
        ensures
            r as nat == self@.capacity,
    {
        self.capacity
    }

    /// The accepted movies, first-accepted first.
    pub fn items(&self) -> (r: &Vec<Movie>)
        ensures
            r@ == self@.items,
    {
        &self.items
    }

    /// Empties the selection; the capacity is kept.
    pub fn reset(&mut self)
        ensures
            final(self)@ == (SelectionView {
                items: Seq::<Movie>::empty(),
                capacity: old(self)@.capacity,
            }),
    {
        self.items.clear();
    }
}

} // verus!
