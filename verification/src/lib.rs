//! Core engine of a movie-recommendation session: a deduplicated,
//! continuously replenished pool of candidate movies, a capacity-bounded
//! user selection, numeric preference constraints, and the state machine
//! that ties them together across the acquisition, preference-collection
//! and results phases of one session.
//!
//! All network traffic (fetching random candidates, submitting the final
//! request) happens outside this crate; callers feed the outcomes back in
//! as plain events (`on_arrival`, `on_fetch_failed`, `on_submit_success`,
//! `on_submit_failure`) and perform the number of fetches each event
//! handler asks for.

mod auth;
mod config;
mod constraints;
mod errors;
mod laws;
mod movie;
mod pool;
mod selection;
mod workflow;

pub use auth::AuthContext;
pub use config::{api_base, api_base_spec, logo_src, logo_src_spec};
pub use constraints::{ConstraintsView, PreferenceConstraints};
pub use errors::{description, ErrorKind};
pub use laws::{
    arrivals, fresh_distinct_arrivals, lemma_failed_submit_keeps_payload, lemma_no_duplicates,
    lemma_replenishment_converges, lemma_run_phase_monotonic, lemma_run_preserves_inv,
    lemma_step_phase_monotonic, lemma_step_preserves_inv, phase_rank, session_run,
};
pub use movie::{
    contains_id, duplicates_into, first_index_with_id, has_id, ids_disjoint, ids_unique,
    lemma_first_index_is, lemma_first_index_with_id, lemma_push_fresh_keeps_disjoint,
    lemma_push_fresh_keeps_unique, lemma_remove_keeps_unique, lemma_take_insert_disjoint,
    shares_id, Movie,
};
pub use pool::{dec1, CandidatePool, PoolView};
pub use selection::{SelectionSet, SelectionView};
pub use workflow::{
    session_select, session_step, Phase, SessionEvent, SessionView, SessionWorkflow,
    DEFAULT_POOL_TARGET, DEFAULT_SELECTION_CAPACITY,
};
