//! Session-wide guarantees, proved over the transition relation.
//!
//! Each event handler of [`crate::SessionWorkflow`] is proved to
//! implement [`session_step`] exactly, so whatever holds of every
//! `session_step` run holds of every sequence of handler calls. The
//! proofs here cover the dedup invariant, the one-way flow of phases,
//! the convergence of replenishment under a duplicate-free source, and
//! the stability of the submission payload across failed submissions.

use vstd::prelude::*;

use crate::errors::ErrorKind;
use crate::movie::{
    contains_id, duplicates_into, first_index_with_id, has_id, ids_disjoint, ids_unique,
    lemma_first_index_with_id, lemma_push_fresh_keeps_disjoint, lemma_push_fresh_keeps_unique,
    lemma_remove_keeps_unique, lemma_take_insert_disjoint, shares_id, Movie,
};
use crate::workflow::{session_step, Phase, SessionEvent, SessionView};

verus! {

/// The state after dispatching the events of `es` in order, starting
/// from `s`.
pub open spec fn session_run(s: SessionView, es: Seq<SessionEvent>) -> SessionView
    decreases es.len(),
{
    if es.len() == 0 {
        s
    } else {
        session_run(session_step(s, es[0]).0, es.subrange(1, es.len() as int))
    }
}

/// One event preserves the session invariant.
pub proof fn lemma_step_preserves_inv(s: SessionView, e: SessionEvent)
    requires
        s.inv(),
    ensures
        session_step(s, e).0.inv(),
{
    match e {
        SessionEvent::Arrival(m) => {
            if s.phase is Acquiring && s.pool.pending > 0 && !(duplicates_into(m, s.pool.items)
                || duplicates_into(m, s.selection.items)) {
                lemma_push_fresh_keeps_unique(s.pool.items, m);
                lemma_push_fresh_keeps_disjoint(s.pool.items, s.selection.items, m);
            }
        },
        SessionEvent::Select(key) => {
            if s.phase is Acquiring && !s.selection.is_full() && contains_id(s.pool.items, key) {
                let p = s.pool.items;
                let sel = s.selection.items;
                let i = first_index_with_id(p, key);
                lemma_first_index_with_id(p, key);
                if duplicates_into(p[i], sel) {
                    let j = choose|j: int|
                        0 <= j < sel.len() && has_id(#[trigger] sel[j], p[i].id->0@);
                    assert(shares_id(p[i], sel[j]));
                }
                lemma_push_fresh_keeps_unique(sel, p[i]);
                lemma_take_insert_disjoint(p, sel, key, i);
                lemma_remove_keeps_unique(p, i);
            }
        },
        _ => {},
    }
}

/// *No duplicates, ever*: a session that starts in a valid state stays
/// valid through any sequence of events.
pub proof fn lemma_run_preserves_inv(s: SessionView, es: Seq<SessionEvent>)
    requires
        s.inv(),
    ensures
        session_run(s, es).inv(),
    decreases es.len(),
{
    if es.len() > 0 {
        lemma_step_preserves_inv(s, es[0]);
        lemma_run_preserves_inv(session_step(s, es[0]).0, es.subrange(1, es.len() as int));
    }
}

/// However arrivals and selections interleave, no identity is ever
/// offered twice, held twice, or both offered and already selected.
pub proof fn lemma_no_duplicates(s: SessionView, es: Seq<SessionEvent>)
    requires
        s.inv(),
    ensures
        ids_unique(session_run(s, es).pool.items),
        ids_unique(session_run(s, es).selection.items),
        ids_disjoint(session_run(s, es).pool.items, session_run(s, es).selection.items),
{
    lemma_run_preserves_inv(s, es);
}

/// The position of a phase along the one-way flow of a session.
pub open spec fn phase_rank(p: Phase) -> int {
    match p {
        Phase::Acquiring => 0,
        Phase::CollectingPreferences => 1,
        Phase::Results => 2,
    }
}

/// One event moves the phase forward by at most one step and never
/// backward. (Only `reset`, which begins a new session, returns to
/// `Acquiring`.)
pub proof fn lemma_step_phase_monotonic(s: SessionView, e: SessionEvent)
    ensures
        phase_rank(s.phase) <= phase_rank(session_step(s, e).0.phase),
        phase_rank(session_step(s, e).0.phase) <= phase_rank(s.phase) + 1,
{
}

/// Over any sequence of events within one session, the phase only ever
/// flows `Acquiring` to `CollectingPreferences` to `Results`.
pub proof fn lemma_run_phase_monotonic(s: SessionView, es: Seq<SessionEvent>)
    ensures
        phase_rank(s.phase) <= phase_rank(session_run(s, es).phase),
    decreases es.len(),
{
    if es.len() > 0 {
        lemma_step_phase_monotonic(s, es[0]);
        lemma_run_phase_monotonic(session_step(s, es[0]).0, es.subrange(1, es.len() as int));
    }
}

/// The events describing `ms` arriving one by one.
pub open spec fn arrivals(ms: Seq<Movie>) -> Seq<SessionEvent> {
    ms.map_values(|m: Movie| SessionEvent::Arrival(m))
}

/// `ms` is what a duplicate-free source delivers: every movie carries
/// an identity, no two share one, and none repeats an identity already
/// offered or selected in `s`.
pub open spec fn fresh_distinct_arrivals(ms: Seq<Movie>, s: SessionView) -> bool {
    &&& forall|i: int| 0 <= i < ms.len() ==> (#[trigger] ms[i]).id is Some
    &&& forall|i: int, j: int|
        0 <= i < j < ms.len() ==> !shares_id(#[trigger] ms[i], #[trigger] ms[j])
    &&& forall|i: int|
        0 <= i < ms.len() ==> !duplicates_into(#[trigger] ms[i], s.pool.items)
            && !duplicates_into(ms[i], s.selection.items)
}

/// *Replenishment converges*: while acquiring with every issued fetch
/// accounted for (offered plus in-flight equals the target), once a
/// duplicate-free source has answered every outstanding fetch, the pool
/// holds exactly its target size and nothing is left in flight.
pub proof fn lemma_replenishment_converges(s: SessionView, ms: Seq<Movie>)
    requires
        s.inv(),
        s.phase is Acquiring,
        s.pool.items.len() + s.pool.pending == s.pool.target,
        ms.len() == s.pool.pending,
        fresh_distinct_arrivals(ms, s),
    ensures
        session_run(s, arrivals(ms)).pool.items.len() == s.pool.target,
        session_run(s, arrivals(ms)).pool.pending == 0,
    decreases ms.len(),
{
    if ms.len() > 0 {
        let m0 = ms[0];
        let e = SessionEvent::Arrival(m0);
        let s1 = session_step(s, e).0;
        assert(!duplicates_into(m0, s.pool.items) && !duplicates_into(m0, s.selection.items));
        assert(s1.pool.items == s.pool.items.push(m0));
        lemma_step_preserves_inv(s, e);
        let rest = ms.subrange(1, ms.len() as int);
        assert forall|i: int| 0 <= i < rest.len() implies !duplicates_into(
            #[trigger] rest[i],
            s1.pool.items,
        ) && !duplicates_into(rest[i], s1.selection.items) by {
            assert(rest[i] == ms[i + 1]);
            if duplicates_into(rest[i], s1.pool.items) {
                let key = rest[i].id->0@;
                let j = choose|j: int|
                    0 <= j < s1.pool.items.len() && has_id(#[trigger] s1.pool.items[j], key);
                if j < s.pool.items.len() {
                    assert(contains_id(s.pool.items, key));
                } else {
                    assert(s1.pool.items[j] == m0);
                    assert(shares_id(ms[0], ms[i + 1]));
                }
            }
        }
        assert(fresh_distinct_arrivals(rest, s1));
        lemma_replenishment_converges(s1, rest);
        assert(arrivals(ms).subrange(1, arrivals(ms).len() as int) =~= arrivals(rest));
        assert(session_run(s, arrivals(ms)) == session_run(s1, arrivals(rest)));
    }
}

/// *Resubmission is idempotent*: a failed submission records the error
/// and nothing else, so a second submission reads the very same
/// selection and constraints as the first, and may be sent from the
/// same phase.
pub proof fn lemma_failed_submit_keeps_payload(s: SessionView, k: ErrorKind)
    ensures
        session_step(s, SessionEvent::SubmitFailed(k)).0.submit_payload() == s.submit_payload(),
        session_step(s, SessionEvent::SubmitFailed(k)).0.phase == s.phase,
        session_step(s, SessionEvent::SubmitFailed(k)).0.last_error == Some(k),
{
}

} // verus!
