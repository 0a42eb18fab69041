//! The working set of currently-offered, not-yet-chosen movies.
//!
//! The pool deduplicates arrivals against itself and against the user's
//! selection, and keeps count of the fetches still in flight so that it
//! converges toward its target size: a duplicate arrival is discarded
//! and paid for with exactly one compensating fetch.

use vstd::prelude::*;

use crate::errors::ErrorKind;
use crate::movie::{
    contains_id, duplicates_into, find_by_id, first_index_with_id, has_id, ids_unique,
    lemma_push_fresh_keeps_unique, lemma_remove_keeps_unique, Movie,
};
use crate::selection::SelectionSet;

verus! {

/// Mathematical image of [`CandidatePool`]: the offered movies in
/// arrival order, the target size, and how many fetches are in flight.
pub struct PoolView {
    pub items: Seq<Movie>,
    pub target: nat,
    pub pending: nat,
}

impl PoolView {
    /// No identity occurs twice among the offered movies.
    pub open spec fn wf(self) -> bool {
        ids_unique(self.items)
    }

    /// Offered movies and in-flight fetches together never exceed the
    /// target, so the pool cannot overshoot once everything lands.
    pub open spec fn within_budget(self) -> bool {
        self.items.len() + self.pending <= self.target
    }

    /// How many fetches a replenishment round must issue to bring
    /// offered plus in-flight up to the target.
    pub open spec fn deficit(self) -> nat {
        if self.items.len() + self.pending <= self.target {
            (self.target - self.items.len() - self.pending) as nat
        } else {
            0
        }
    }

    /// `self` after an arrival of `m`, dedup-checked against the pool
    /// itself and against `chosen`: a fresh movie is inserted, a
    /// duplicate is discarded and one compensating fetch is issued.
    pub open spec fn arrive(self, m: Movie, chosen: Seq<Movie>) -> PoolView {
        if duplicates_into(m, self.items) || duplicates_into(m, chosen) {
            self
        } else {
            PoolView { items: self.items.push(m), pending: dec1(self.pending), ..self }
        }
    }

    /// The number of compensating fetches the same arrival asks for.
    pub open spec fn arrive_fetches(self, m: Movie, chosen: Seq<Movie>) -> nat {
        if duplicates_into(m, self.items) || duplicates_into(m, chosen) {
            1
        } else {
            0
        }
    }
}

/// One less, stopping at zero.
pub open spec fn dec1(n: nat) -> nat {
    if n > 0 {
        (n - 1) as nat
    } else {
        0
    }
}

/// The candidate pool: the movies currently on offer, in the order they
/// arrived, plus the bookkeeping of in-flight fetches.
pub struct CandidatePool {
    items: Vec<Movie>,
    target: usize,
    pending: usize,
}

impl View for CandidatePool {
    type V = PoolView;

    closed spec fn view(&self) -> PoolView {
        PoolView { items: self.items@, target: self.target as nat, pending: self.pending as nat }
    }
}

impl CandidatePool {
    /// An empty pool aiming at `target` offered movies.
    pub fn new(target: usize) -> (r: Self)
        ensures
            r@ == (PoolView { items: Seq::<Movie>::empty(), target: target as nat, pending: 0 }),
            r@.wf(),
            r@.within_budget(),
    {
        CandidatePool { items: Vec::new(), target, pending: 0 }
    }

    /// Accounts for one replenishment round: the caller must issue
    /// exactly the returned number of concurrent fetches, which tops
    /// offered plus in-flight up to the target.
    pub fn replenish(&mut self) -> (issued: usize)
        ensures
            issued as nat == old(self)@.deficit(),
            final(self)@ == (PoolView {
                pending: old(self)@.pending + old(self)@.deficit(),
                ..old(self)@
            }),
            old(self)@.within_budget() ==> final(self)@.items.len() + final(self)@.pending
                == final(self)@.target,
    {
        let len = self.items.len();
        if len < self.target && self.pending < self.target - len {
            let issued = self.target - len - self.pending;
            self.pending = self.pending + issued;
            issued
        } else {
            0
        }
    }

    /// Handles one resolved fetch. A movie whose identity is already on
    /// offer or already in `chosen` is discarded and the returned count
    /// (then `1`) of compensating fetches must be issued by the caller;
    /// otherwise the movie joins the pool. Movies without an id are
    /// never duplicates and always join.
    pub fn on_arrival(&mut self, m: Movie, chosen: &SelectionSet) -> (compensate: usize)
        ensures
            final(self)@ == old(self)@.arrive(m, chosen@.items),
            compensate as nat == old(self)@.arrive_fetches(m, chosen@.items),
            old(self)@.wf() ==> final(self)@.wf(),
            old(self)@.within_budget() && old(self)@.pending > 0 ==> final(self)@.within_budget(),
    {
        let duplicate = match &m.id {
            Some(key) => {
                find_by_id(&self.items, key).is_some() || find_by_id(chosen.items(), key).is_some()
            },
            None => false,
        };
        if duplicate {
            1
        } else {
            proof {
                if old(self)@.wf() {
                    lemma_push_fresh_keeps_unique(old(self)@.items, m);
                }
            }
            self.items.push(m);
            if self.pending > 0 {
                self.pending = self.pending - 1;
            }
            0
        }
    }

    /// Accounts for one failed fetch: the round simply ends one short.
    pub fn on_fetch_failed(&mut self)
        ensures
            final(self)@ == (PoolView { pending: dec1(old(self)@.pending), ..old(self)@ }),
    {
        if self.pending > 0 {
            self.pending = self.pending - 1;
        }
    }

    /// Removes and returns the movie with identity `id`, or reports
    /// that no offered movie carries it. The remaining movies keep
    /// their relative order.
    pub fn take(&mut self, id: &String) -> (r: Result<Movie, ErrorKind>)
        ensures
            contains_id(old(self)@.items, id@) ==> {
                let i = first_index_with_id(old(self)@.items, id@);
                &&& r == Result::<Movie, ErrorKind>::Ok(old(self)@.items[i])
                &&& has_id(old(self)@.items[i], id@)
                &&& final(self)@ == (PoolView { items: old(self)@.items.remove(i), ..old(self)@ })
            },
            !contains_id(old(self)@.items, id@) ==> r == Result::<Movie, ErrorKind>::Err(
                ErrorKind::NotFoundError,
            ) && final(self)@ == old(self)@,
            old(self)@.wf() ==> final(self)@.wf(),
            final(self)@.items.len() <= old(self)@.items.len(),
            final(self)@.pending == old(self)@.pending,
            final(self)@.target == old(self)@.target,
    {
        match find_by_id(&self.items, id) {
            Some(i) => {
                let m = self.items.remove(i);
                proof {
                    if old(self)@.wf() {
                        lemma_remove_keeps_unique(old(self)@.items, i as int);
                    }
                }
                Ok(m)
            },
            None => Err(ErrorKind::NotFoundError),
        }
    }

    /// Empties the pool without touching in-flight fetches: arrivals
    /// after a clear are dedup-checked against the new contents.
    pub fn clear(&mut self)
        ensures
            final(self)@ == (PoolView { items: Seq::<Movie>::empty(), ..old(self)@ }),
    {
        self.items.clear();
    }

    /// How many movies are on offer.
    pub fn len(&self) -> (r: usize)
        ensures
            r as nat == self@.items.len(),
    {
        self.items.len()
    }

    /// How many fetches are still in flight.
    pub fn pending(&self) -> (r: usize)
        ensures
            r as nat == self@.pending,
    {
        self.pending
    }

    /// The target number of offered movies.
    pub fn target(&self) -> (r: usize)
        ensures
            r as nat == self@.target,
    {
        self.target
    }

    /// The offered movies, first-arrived first.
    pub fn items(&self) -> (r: &Vec<Movie>)
        ensures
            r@ == self@.items,
    {
        &self.items
    }
}

} // verus!
