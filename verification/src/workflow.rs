//! The session state machine tying pool, selection and constraints
//! together.
//!
//! A session moves through three phases: candidates are acquired and
//! selected in `Acquiring`, filters are gathered in
//! `CollectingPreferences`, and the final recommendation list lives in
//! `Results`. Every mutation of the session is one of the events of
//! [`SessionEvent`], and every event handler is proved to implement the
//! mathematical transition [`session_step`] exactly. Some handlers
//! return a number of fetches: the caller must start exactly that many
//! concurrent candidate requests and feed each outcome back through
//! `on_arrival` or `on_fetch_failed`.

use vstd::prelude::*;

use crate::constraints::{ConstraintsView, PreferenceConstraints};
use crate::errors::ErrorKind;
use crate::movie::{
    contains_id, duplicates_into, first_index_with_id, has_id, ids_disjoint, ids_unique,
    lemma_first_index_with_id, lemma_push_fresh_keeps_unique, lemma_take_insert_disjoint,
    shares_id, Movie,
};
use crate::pool::{dec1, CandidatePool, PoolView};
use crate::selection::{SelectionSet, SelectionView};

verus! {

/// How many movies the pool keeps on offer unless told otherwise.
pub const DEFAULT_POOL_TARGET: usize = 5;

/// How many movies a selection holds unless told otherwise.
pub const DEFAULT_SELECTION_CAPACITY: usize = 10;

/// The mutually exclusive stages of one session, in the order they are
/// reached.
#[derive(Clone, Copy, Debug, PartialEq, Eq, Structural)]
pub enum Phase {
    /// Candidates are being fetched and picked.
    Acquiring,
    /// The selection is complete; numeric filters are being gathered.
    CollectingPreferences,
    /// The final recommendation list has arrived.
    Results,
}

/// Mathematical image of [`SessionWorkflow`].
#[verifier::ext_equal]
pub struct SessionView {
    pub phase: Phase,
    pub pool: PoolView,
    pub selection: SelectionView,
    pub constraints: ConstraintsView,
    pub results: Seq<Movie>,
    pub highlighted: Option<Movie>,
    pub last_error: Option<ErrorKind>,
}

/// Everything that can happen to a session after it starts. The
/// identity in `Select` and the movies in `Arrival` and
/// `SubmitSuccess` are the data the corresponding handler receives.
pub enum SessionEvent {
    /// Top offered-plus-in-flight candidates up to the target.
    Replenish,
    /// Throw the current offers away and fetch a fresh round.
    RefreshPool,
    /// One candidate fetch resolved with this movie.
    Arrival(Movie),
    /// One candidate fetch failed with this error.
    FetchFailed(ErrorKind),
    /// The user picked the offered movie with this identity.
    Select(Seq<char>),
    /// The user moved the year filter.
    SetYearRange(int, int),
    /// The user moved the runtime filter.
    SetRuntimeRange(int, int),
    /// The user moved the rating threshold (tenths of a point).
    SetMinRating(int),
    /// The final recommendation request returned this list.
    SubmitSuccess(Seq<Movie>),
    /// The final recommendation request failed with this error.
    SubmitFailed(ErrorKind),
    /// The user opened the detail view of this movie.
    Highlight(Movie),
    /// The user closed the detail view.
    CloseHighlight,
}

impl SessionView {
    /// The state a session starts from: everything empty, default
    /// constraints, acquiring.
    pub open spec fn initial(target: nat, capacity: nat) -> SessionView {
        SessionView {
            phase: Phase::Acquiring,
            pool: PoolView { items: Seq::<Movie>::empty(), target, pending: 0 },
            selection: SelectionView { items: Seq::<Movie>::empty(), capacity },
            constraints: ConstraintsView::initial(),
            results: Seq::<Movie>::empty(),
            highlighted: None,
            last_error: None,
        }
    }

    /// The state after a session restart: as initial, except that
    /// fetches already in flight stay in flight (their arrivals will be
    /// dedup-checked against the fresh pool).
    pub open spec fn after_reset(self) -> SessionView {
        SessionView {
            pool: PoolView { items: Seq::<Movie>::empty(), ..self.pool },
            ..SessionView::initial(self.pool.target, self.selection.capacity)
        }
    }

    /// What one submission sends: the selected movies and the filters.
    pub open spec fn submit_payload(self) -> (Seq<Movie>, ConstraintsView) {
        (self.selection.items, self.constraints)
    }

    /// Everything the session promises between events: no identity
    /// twice in the pool, none shared between pool and selection, none
    /// twice in the selection; the selection within its capacity; the
    /// constraints valid; pool plus in-flight fetches within the
    /// target; and pool and results empty in the phases that do not own
    /// them.
    pub open spec fn inv(self) -> bool {
        &&& self.pool.wf()
        &&& self.selection.wf()
        &&& ids_unique(self.selection.items)
        &&& ids_disjoint(self.pool.items, self.selection.items)
        &&& self.pool.within_budget()
        &&& self.constraints.wf()
        &&& !(self.phase is Acquiring) ==> self.pool.items.len() == 0
        &&& !(self.phase is Results) ==> self.results.len() == 0
    }
}

/// The transition for a `Select` event: a no-op outside `Acquiring` or
/// once the selection is full; an error note when the identity is not
/// on offer; otherwise the movie moves from pool to selection, and
/// either the phase advances (selection now full, pool dropped) or the
/// pool is replenished back toward its target.
pub open spec fn session_select(s: SessionView, key: Seq<char>) -> (SessionView, nat) {
    if !(s.phase is Acquiring) || s.selection.is_full() {
        (s, 0)
    } else if !contains_id(s.pool.items, key) {
        (SessionView { last_error: Some(ErrorKind::NotFoundError), ..s }, 0)
    } else {
        let i = first_index_with_id(s.pool.items, key);
        let chosen = SelectionView {
            items: s.selection.items.push(s.pool.items[i]),
            ..s.selection
        };
        let drained = PoolView { items: s.pool.items.remove(i), ..s.pool };
        if chosen.is_full() {
            (
                SessionView {
                    phase: Phase::CollectingPreferences,
                    pool: PoolView { items: Seq::<Movie>::empty(), ..drained },
                    selection: chosen,
                    ..s
                },
                0,
            )
        } else {
            (
                SessionView {
                    pool: PoolView { pending: drained.pending + drained.deficit(), ..drained },
                    selection: chosen,
                    ..s
                },
                drained.deficit(),
            )
        }
    }
}

/// The session transition relation: the state after `e`, and how many
/// candidate fetches the event asks the caller to start.
pub open spec fn session_step(s: SessionView, e: SessionEvent) -> (SessionView, nat) {
    match e {
        SessionEvent::Replenish => {
            if s.phase is Acquiring {
                (
                    SessionView {
                        pool: PoolView { pending: s.pool.pending + s.pool.deficit(), ..s.pool },
                        ..s
                    },
                    s.pool.deficit(),
                )
            } else {
                (s, 0)
            }
        },
        SessionEvent::RefreshPool => {
            if s.phase is Acquiring {
                let cleared = PoolView { items: Seq::<Movie>::empty(), ..s.pool };
                (
                    SessionView {
                        pool: PoolView {
                            pending: cleared.pending + cleared.deficit(),
                            ..cleared
                        },
                        ..s
                    },
                    cleared.deficit(),
                )
            } else {
                (s, 0)
            }
        },
        SessionEvent::Arrival(m) => {
            if s.phase is Acquiring && s.pool.pending > 0 {
                (
                    SessionView { pool: s.pool.arrive(m, s.selection.items), ..s },
                    s.pool.arrive_fetches(m, s.selection.items),
                )
            } else {
                (
                    SessionView {
                        pool: PoolView { pending: dec1(s.pool.pending), ..s.pool },
                        ..s
                    },
                    0,
                )
            }
        },
        SessionEvent::FetchFailed(k) => {
            (
                SessionView {
                    pool: PoolView { pending: dec1(s.pool.pending), ..s.pool },
                    last_error: Some(k),
                    ..s
                },
                0,
            )
        },
        SessionEvent::Select(key) => session_select(s, key),
        SessionEvent::SetYearRange(lo, hi) => {
            if s.phase is CollectingPreferences {
                (SessionView { constraints: s.constraints.with_year_range(lo, hi), ..s }, 0)
            } else {
                (s, 0)
            }
        },
        SessionEvent::SetRuntimeRange(lo, hi) => {
            if s.phase is CollectingPreferences {
                (SessionView { constraints: s.constraints.with_runtime_range(lo, hi), ..s }, 0)
            } else {
                (s, 0)
            }
        },
        SessionEvent::SetMinRating(t) => {
            if s.phase is CollectingPreferences {
                (SessionView { constraints: s.constraints.with_min_rating(t), ..s }, 0)
            } else {
                (s, 0)
            }
        },
        SessionEvent::SubmitSuccess(ms) => {
            if s.phase is CollectingPreferences {
                (SessionView { phase: Phase::Results, results: ms, ..s }, 0)
            } else {
                (s, 0)
            }
        },
        SessionEvent::SubmitFailed(k) => (SessionView { last_error: Some(k), ..s }, 0),
        SessionEvent::Highlight(m) => (SessionView { highlighted: Some(m), ..s }, 0),
        SessionEvent::CloseHighlight => (SessionView { highlighted: None, ..s }, 0),
    }
}

/// One recommendation session: the state machine the shell dispatches
/// every user event and every network outcome into.
pub struct SessionWorkflow {
    phase: Phase,
    pool: CandidatePool,
    selection: SelectionSet,
    constraints: PreferenceConstraints,
    results: Vec<Movie>,
    highlighted: Option<Movie>,
    last_error: Option<ErrorKind>,
}

impl View for SessionWorkflow {
    type V = SessionView;

    closed spec fn view(&self) -> SessionView {
        SessionView {
            phase: self.phase,
            pool: self.pool@,
            selection: self.selection@,
            constraints: self.constraints@,
            results: self.results@,
            highlighted: self.highlighted,
            last_error: self.last_error,
        }
    }
}

impl SessionWorkflow {
    /// A fresh session with the given pool target and selection
    /// capacity. Call [`Self::replenish`] next and start the fetches it
    /// asks for.
    pub fn with_limits(target: usize, capacity: usize) -> (w: Self)
        ensures
            w@ == SessionView::initial(target as nat, capacity as nat),
            w@.inv(),
    {
        SessionWorkflow {
            phase: Phase::Acquiring,
            pool: CandidatePool::new(target),
            selection: SelectionSet::new(capacity),
            constraints: PreferenceConstraints::default(),
            results: Vec::new(),
            highlighted: None,
            last_error: None,
        }
    }

    /// A fresh session with the default limits.
    pub fn new() -> (w: Self)
        ensures
            w@ == SessionView::initial(DEFAULT_POOL_TARGET as nat, DEFAULT_SELECTION_CAPACITY as nat),
            w@.inv(),
    {
        Self::with_limits(DEFAULT_POOL_TARGET, DEFAULT_SELECTION_CAPACITY)
    }

    /// Tops the pool up toward its target while acquiring: the caller
    /// must start exactly `issued` concurrent candidate fetches.
    pub fn replenish(&mut self) -> (issued: usize)
        ensures
            final(self)@ == session_step(old(self)@, SessionEvent::Replenish).0,
            issued as nat == session_step(old(self)@, SessionEvent::Replenish).1,
            old(self)@.inv() ==> final(self)@.inv(),
    {
        if self.phase == Phase::Acquiring {
            self.pool.replenish()
        } else {
            0
        }
    }

    /// Empties the pool and starts a fresh round of offers, for a user
    /// who wants different candidates: the caller must start exactly
    /// `issued` concurrent fetches. Fetches already in flight stay in
    /// flight and count against the new round.
    pub fn refresh_pool(&mut self) -> (issued: usize)
        ensures
            final(self)@ == session_step(old(self)@, SessionEvent::RefreshPool).0,
            issued as nat == session_step(old(self)@, SessionEvent::RefreshPool).1,
            old(self)@.inv() ==> final(self)@.inv(),
    {
        if self.phase == Phase::Acquiring {
            self.pool.clear();
            self.pool.replenish()
        } else {
            0
        }
    }

    /// Feeds one fetched movie in. While acquiring, a duplicate of the
    /// pool or the selection is discarded and `compensate` (then `1`)
    /// further fetches must be started; a fresh movie joins the pool.
    /// Outside `Acquiring`, or when no fetch is outstanding, the movie
    /// is dropped on the floor.
    pub fn on_arrival(&mut self, m: Movie) -> (compensate: usize)
        ensures
            final(self)@ == session_step(old(self)@, SessionEvent::Arrival(m)).0,
            compensate as nat == session_step(old(self)@, SessionEvent::Arrival(m)).1,
            old(self)@.inv() ==> final(self)@.inv(),
    {
        if self.phase == Phase::Acquiring && self.pool.pending() > 0 {
            self.pool.on_arrival(m, &self.selection)
        } else {
            self.pool.on_fetch_failed();
            0
        }
    }

    /// Notes one failed candidate fetch. The error is recorded for the
    /// shell to display, but acquisition goes on: the round merely ends
    /// one fetch short.
    pub fn on_fetch_failed(&mut self, kind: ErrorKind)
        ensures
            final(self)@ == session_step(old(self)@, SessionEvent::FetchFailed(kind)).0,
            old(self)@.inv() ==> final(self)@.inv(),
    {
        self.pool.on_fetch_failed();
        self.last_error = Some(kind);
    }

    /// Moves the offered movie with identity `id` into the selection.
    /// Saturating: once the selection is full (or outside `Acquiring`)
    /// this is a no-op, not an error. `Ok(n)` asks the caller to start
    /// `n` replacement fetches; `Err` reports an identity that is not
    /// on offer, which is also recorded in the error note.
    pub fn select(&mut self, id: &String) -> (r: Result<usize, ErrorKind>)
        ensures
            final(self)@ == session_step(old(self)@, SessionEvent::Select(id@)).0,
            r matches Ok(n) ==> n as nat == session_step(old(self)@, SessionEvent::Select(id@)).1,
            !(old(self)@.phase is Acquiring) || old(self)@.selection.is_full() ==> r
                == Result::<usize, ErrorKind>::Ok(0),
            old(self)@.phase is Acquiring && !old(self)@.selection.is_full() && !contains_id(
                old(self)@.pool.items,
                id@,
            ) ==> r == Result::<usize, ErrorKind>::Err(ErrorKind::NotFoundError),
            old(self)@.phase is Acquiring && !old(self)@.selection.is_full() && contains_id(
                old(self)@.pool.items,
                id@,
            ) ==> r is Ok,
            old(self)@.inv() ==> final(self)@.inv(),
    {
        if self.phase != Phase::Acquiring || self.selection.is_full() {
            return Ok(0);
        }
        match self.pool.take(id) {
            Err(e) => {
                self.last_error = Some(e);
                Err(e)
            },
            Ok(m) => {
                proof {
                    if old(self)@.inv() {
                        let p = old(self)@.pool.items;
                        let sel = old(self)@.selection.items;
                        let i = first_index_with_id(p, id@);
                        lemma_first_index_with_id(p, id@);
                        if duplicates_into(m, sel) {
                            let j = choose|j: int|
                                0 <= j < sel.len() && has_id(#[trigger] sel[j], m.id->0@);
                            assert(shares_id(p[i], sel[j]));
                        }
                        lemma_push_fresh_keeps_unique(sel, m);
                        lemma_take_insert_disjoint(p, sel, id@, i);
                    }
                }
                match self.selection.accept(m) {
                    Ok(_) => {},
                    Err(_) => {
                        proof {
                            assert(false);
                        }
                    },
                }
                if self.selection.is_full() {
                    self.phase = Phase::CollectingPreferences;
                    self.pool.clear();
                    Ok(0)
                } else {
                    let issued = self.pool.replenish();
                    Ok(issued)
                }
            },
        }
    }

    /// Replaces the year filter; listened to only while collecting
    /// preferences.
    pub fn update_year_range(&mut self, lo: i32, hi: i32)
        ensures
            final(self)@ == session_step(
                old(self)@,
                SessionEvent::SetYearRange(lo as int, hi as int),
            ).0,
            old(self)@.inv() ==> final(self)@.inv(),
    {
        if self.phase == Phase::CollectingPreferences {
            self.constraints.set_year_range(lo, hi);
        }
    }

    /// Replaces the runtime filter; listened to only while collecting
    /// preferences.
    pub fn update_runtime_range(&mut self, lo: i32, hi: i32)
        ensures
            final(self)@ == session_step(
                old(self)@,
                SessionEvent::SetRuntimeRange(lo as int, hi as int),
            ).0,
            old(self)@.inv() ==> final(self)@.inv(),
    {
        if self.phase == Phase::CollectingPreferences {
            self.constraints.set_runtime_range(lo, hi);
        }
    }

    /// Replaces the rating threshold (tenths of a point); listened to
    /// only while collecting preferences.
    pub fn update_min_rating_tenths(&mut self, tenths: i32)
        ensures
            final(self)@ == session_step(
                old(self)@,
                SessionEvent::SetMinRating(tenths as int),
            ).0,
            old(self)@.inv() ==> final(self)@.inv(),
    {
        if self.phase == Phase::CollectingPreferences {
            self.constraints.set_min_rating_tenths(tenths);
        }
    }

    /// Whether a submission may be sent now: exactly while collecting
    /// preferences, before and after any number of failed attempts.
    pub fn can_submit(&self) -> (r: bool)
        ensures
            r == (self@.phase is CollectingPreferences),
    {
        self.phase == Phase::CollectingPreferences
    }

    /// Stores the recommendation list a successful submission returned
    /// and moves to `Results`; ignored in any other phase.
    pub fn on_submit_success(&mut self, movies: Vec<Movie>)
        ensures
            final(self)@ == session_step(old(self)@, SessionEvent::SubmitSuccess(movies@)).0,
            old(self)@.inv() ==> final(self)@.inv(),
    {
        if self.phase == Phase::CollectingPreferences {
            self.results = movies;
            self.phase = Phase::Results;
        }
    }

    /// Notes a failed submission. The phase, the selection and the
    /// constraints are untouched, so the very same payload may simply
    /// be submitted again.
    pub fn on_submit_failure(&mut self, kind: ErrorKind)
        ensures
            final(self)@ == session_step(old(self)@, SessionEvent::SubmitFailed(kind)).0,
            old(self)@.inv() ==> final(self)@.inv(),
    {
        self.last_error = Some(kind);
    }

    /// Opens the detail view on `m`; allowed in every phase and never a
    /// phase transition.
    pub fn highlight(&mut self, m: Movie)
        ensures
            final(self)@ == session_step(old(self)@, SessionEvent::Highlight(m)).0,
            old(self)@.inv() ==> final(self)@.inv(),
    {
        self.highlighted = Some(m);
    }

    /// Closes the detail view; allowed in every phase and never a phase
    /// transition.
    pub fn close_highlight(&mut self)
        ensures
            final(self)@ == session_step(old(self)@, SessionEvent::CloseHighlight).0,
            old(self)@.inv() ==> final(self)@.inv(),
    {
        self.highlighted = None;
    }

    /// Starts the session over: everything is emptied and the phase
    /// returns to `Acquiring`. Fetches still in flight stay counted;
    /// their arrivals will be checked against the fresh pool.
    pub fn reset(&mut self)
        ensures
            final(self)@ == old(self)@.after_reset(),
            old(self)@.inv() ==> final(self)@.inv(),
    {
        self.phase = Phase::Acquiring;
        self.pool.clear();
        self.selection.reset();
        self.constraints = PreferenceConstraints::default();
        self.results = Vec::new();
        self.highlighted = None;
        self.last_error = None;
    }

    /// The phase the session is in.
    pub fn phase(&self) -> (r: Phase)
        ensures
            r == self@.phase,
    {
        self.phase
    }

    /// The movies currently on offer, first-arrived first.
    pub fn pool_items(&self) -> (r: &Vec<Movie>)
        ensures
            r@ == self@.pool.items,
    {
        self.pool.items()
    }

    /// How many candidate fetches are outstanding.
    pub fn pending_fetches(&self) -> (r: usize)
        ensures
            r as nat == self@.pool.pending,
    {
        self.pool.pending()
    }

    /// The selected movies, first-accepted first.
    pub fn selection_items(&self) -> (r: &Vec<Movie>)
        ensures
            r@ == self@.selection.items,
    {
        self.selection.items()
    }

    /// How many movies have been selected.
    pub fn selection_len(&self) -> (r: usize)
        ensures
            r as nat == self@.selection.items.len(),
    {
        self.selection.len()
    }

    /// Whether the selection has reached its capacity.
    pub fn is_selection_full(&self) -> (r: bool)
        ensures
            r == self@.selection.is_full(),
    {
        self.selection.is_full()
    }

    /// The current filter values, for bound widgets and for the
    /// submission body.
    pub fn constraints(&self) -> (r: PreferenceConstraints)
        ensures
            r@ == self@.constraints,
    {
        self.constraints
    }

    /// The final recommendation list; empty before `Results`.
    pub fn results(&self) -> (r: &Vec<Movie>)
        ensures
            r@ == self@.results,
    {
        &self.results
    }

    /// The movie under detail inspection, if any.
    pub fn highlighted(&self) -> (r: &Option<Movie>)
        ensures
            r == self@.highlighted,
    {
        &self.highlighted
    }

    /// The most recent error, if any; `None` until something fails.
    pub fn last_error(&self) -> (r: Option<ErrorKind>)
        ensures
            r == self@.last_error,
    {
        self.last_error
    }
}

} // verus!
