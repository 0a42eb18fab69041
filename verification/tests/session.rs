use movienight::{ErrorKind, Movie, Phase, SessionWorkflow};

fn movie(id: &str) -> Movie {
    Movie {
        id: Some(id.to_string()),
        title: Some(format!("Title of {}", id)),
        description: None,
        imdb_rating: None,
        stars: None,
        image_url: None,
        released_year: None,
        runtime: None,
        metadata: None,
        director: None,
        genres: None,
    }
}

/// Drives a fresh session to the point where the selection is full:
/// feeds distinct candidates and selects the requested number of them.
fn fill_selection(w: &mut SessionWorkflow, count: usize) {
    let mut next_id = 0;
    while w.selection_len() < count {
        while w.pending_fetches() > 0 {
            w.on_arrival(movie(&format!("f{}", next_id)));
            next_id += 1;
        }
        let id = w.pool_items()[0].id.clone().unwrap();
        w.select(&id).unwrap();
    }
}

#[test]
fn example_scenario() {
    let mut w = SessionWorkflow::new();
    assert_eq!(w.phase(), Phase::Acquiring);
    assert_eq!(w.replenish(), 5);
    for id in ["m1", "m2", "m3", "m4", "m5"] {
        assert_eq!(w.on_arrival(movie(id)), 0);
    }
    assert_eq!(w.pool_items().len(), 5);
    assert_eq!(w.pending_fetches(), 0);

    // Selecting m2 moves it over and triggers one replenishing fetch.
    let issued = w.select(&"m2".to_string()).unwrap();
    assert_eq!(issued, 1);
    let selected: Vec<_> = w
        .selection_items()
        .iter()
        .map(|m| m.id.clone().unwrap())
        .collect();
    assert_eq!(selected, vec!["m2"]);
    let offered: Vec<_> = w.pool_items().iter().map(|m| m.id.clone().unwrap()).collect();
    assert_eq!(offered, vec!["m1", "m3", "m4", "m5"]);

    assert_eq!(w.on_arrival(movie("m6")), 0);
    let offered: Vec<_> = w.pool_items().iter().map(|m| m.id.clone().unwrap()).collect();
    assert_eq!(offered, vec!["m1", "m3", "m4", "m5", "m6"]);

    // Nine more selections fill the ten-movie selection.
    fill_selection(&mut w, 10);
    assert_eq!(w.phase(), Phase::CollectingPreferences);
    assert_eq!(w.selection_len(), 10);
    assert_eq!(w.pool_items().len(), 0);

    w.update_year_range(1995, 2020);
    w.update_min_rating_tenths(75);
    let c = w.constraints();
    assert_eq!((c.year_min(), c.year_max()), (1995, 2020));
    assert_eq!(c.min_rating_tenths(), 75);

    // A stubbed client returns five fixed movies.
    let fixed: Vec<Movie> = ["r1", "r2", "r3", "r4", "r5"].iter().map(|id| movie(id)).collect();
    assert!(w.can_submit());
    w.on_submit_success(fixed.clone());
    assert_eq!(w.phase(), Phase::Results);
    assert_eq!(w.results(), &fixed);
}

#[test]
fn duplicate_scenario() {
    let mut w = SessionWorkflow::new();
    w.replenish();
    assert_eq!(w.on_arrival(movie("m1")), 0);
    // The source returns m1 again: discarded, one compensating fetch.
    assert_eq!(w.on_arrival(movie("m1")), 1);
    let copies = w
        .pool_items()
        .iter()
        .filter(|m| m.id.as_deref() == Some("m1"))
        .count();
    assert_eq!(copies, 1);
}

#[test]
fn no_duplicates_across_pool_and_selection() {
    let mut w = SessionWorkflow::new();
    w.replenish();
    for id in ["a", "b", "c", "d", "e"] {
        w.on_arrival(movie(id));
    }
    w.select(&"c".to_string()).unwrap();
    // An in-flight fetch resolving to an already-selected id is dropped.
    assert_eq!(w.on_arrival(movie("c")), 1);
    let mut seen = Vec::new();
    for m in w.pool_items().iter().chain(w.selection_items().iter()) {
        let id = m.id.clone().unwrap();
        assert!(!seen.contains(&id), "{} appeared twice", id);
        seen.push(id);
    }
}

#[test]
fn replenishment_convergence() {
    let mut w = SessionWorkflow::new();
    assert_eq!(w.replenish(), 5);
    // A source that never repeats ids settles the pool at its target.
    for id in ["u1", "u2", "u3", "u4", "u5"] {
        assert_eq!(w.on_arrival(movie(id)), 0);
    }
    assert_eq!(w.pool_items().len(), 5);
    assert_eq!(w.pending_fetches(), 0);
}

#[test]
fn phase_flows_one_way() {
    let mut w = SessionWorkflow::new();
    assert_eq!(w.phase(), Phase::Acquiring);
    w.replenish();
    // Constraint edits and submissions are ignored while acquiring.
    w.update_year_range(1980, 1990);
    assert_eq!((w.constraints().year_min(), w.constraints().year_max()), (2000, 2023));
    w.on_submit_success(vec![movie("early")]);
    assert_eq!(w.phase(), Phase::Acquiring);
    assert!(w.results().is_empty());

    fill_selection(&mut w, 10);
    assert_eq!(w.phase(), Phase::CollectingPreferences);

    // Selecting once preferences are being collected is a quiet no-op.
    assert_eq!(w.select(&"f1".to_string()), Ok(0));
    assert_eq!(w.phase(), Phase::CollectingPreferences);

    w.on_submit_success(vec![movie("r1")]);
    assert_eq!(w.phase(), Phase::Results);

    // Nothing moves the phase backward within the session.
    w.on_arrival(movie("late"));
    w.on_submit_failure(ErrorKind::NetworkError);
    w.highlight(movie("r1"));
    w.close_highlight();
    assert_eq!(w.phase(), Phase::Results);
}

#[test]
fn idempotent_resubmission() {
    let mut w = SessionWorkflow::new();
    w.replenish();
    fill_selection(&mut w, 10);
    assert!(w.can_submit());
    let selection_before = w.selection_items().clone();
    let constraints_before = w.constraints();

    w.on_submit_failure(ErrorKind::NetworkError);
    assert_eq!(w.last_error(), Some(ErrorKind::NetworkError));
    assert!(w.can_submit());
    assert_eq!(w.selection_items(), &selection_before);
    assert_eq!(w.constraints(), constraints_before);

    // A second failed attempt reads the very same payload again.
    w.on_submit_failure(ErrorKind::DecodeError);
    assert!(w.can_submit());
    assert_eq!(w.selection_items(), &selection_before);
    assert_eq!(w.constraints(), constraints_before);

    w.on_submit_success(vec![movie("r1")]);
    assert_eq!(w.phase(), Phase::Results);
}

#[test]
fn select_missing_id_reports_not_found() {
    let mut w = SessionWorkflow::new();
    w.replenish();
    w.on_arrival(movie("m1"));
    assert_eq!(w.select(&"nope".to_string()), Err(ErrorKind::NotFoundError));
    assert_eq!(w.last_error(), Some(ErrorKind::NotFoundError));
    // Acquisition goes on regardless.
    assert_eq!(w.phase(), Phase::Acquiring);
    assert_eq!(w.select(&"m1".to_string()), Ok(1));
}

#[test]
fn select_when_full_is_a_no_op() {
    let mut w = SessionWorkflow::new();
    w.replenish();
    fill_selection(&mut w, 10);
    let before = w.selection_items().clone();
    assert_eq!(w.select(&"f2".to_string()), Ok(0));
    assert_eq!(w.selection_items(), &before);
}

#[test]
fn failed_fetch_is_recorded_but_not_fatal() {
    let mut w = SessionWorkflow::new();
    assert_eq!(w.replenish(), 5);
    w.on_fetch_failed(ErrorKind::NetworkError);
    assert_eq!(w.last_error(), Some(ErrorKind::NetworkError));
    w.on_fetch_failed(ErrorKind::DecodeError);
    assert_eq!(w.last_error(), Some(ErrorKind::DecodeError));
    assert_eq!(w.pending_fetches(), 3);
    // The round simply ended short; the next round tops it back up.
    assert_eq!(w.replenish(), 2);
}

#[test]
fn late_arrivals_after_phase_change_are_dropped() {
    let mut w = SessionWorkflow::new();
    w.replenish();
    fill_selection(&mut w, 9);
    // The ninth selection triggered a replacement fetch that is still
    // in flight when the tenth selection completes the phase change.
    assert_eq!(w.pending_fetches(), 1);
    let id = w.pool_items()[0].id.clone().unwrap();
    w.select(&id).unwrap();
    assert_eq!(w.phase(), Phase::CollectingPreferences);
    assert_eq!(w.pending_fetches(), 1);
    // The in-flight arrival lands after the transition: dropped, no
    // compensation.
    assert_eq!(w.on_arrival(movie("straggler")), 0);
    assert_eq!(w.pool_items().len(), 0);
    assert_eq!(w.pending_fetches(), 0);
}

#[test]
fn refresh_pool_offers_a_new_round() {
    let mut w = SessionWorkflow::new();
    w.replenish();
    for id in ["a", "b", "c", "d", "e"] {
        w.on_arrival(movie(id));
    }
    assert_eq!(w.pool_items().len(), 5);
    // The user asks for different candidates: the offers are thrown
    // away and a full round of fetches starts.
    assert_eq!(w.refresh_pool(), 5);
    assert_eq!(w.pool_items().len(), 0);
    assert_eq!(w.pending_fetches(), 5);
    // The previous ids may be offered again: they are gone from the pool.
    assert_eq!(w.on_arrival(movie("a")), 0);
    assert_eq!(w.pool_items().len(), 1);
    // Outside the acquiring phase, refreshing does nothing.
    fill_selection(&mut w, 10);
    assert_eq!(w.refresh_pool(), 0);
}

#[test]
fn highlight_is_orthogonal_to_phase() {
    let mut w = SessionWorkflow::new();
    w.replenish();
    w.highlight(movie("h1"));
    assert_eq!(w.highlighted().as_ref().and_then(|m| m.id.as_deref()), Some("h1"));
    assert_eq!(w.phase(), Phase::Acquiring);
    w.close_highlight();
    assert!(w.highlighted().is_none());

    fill_selection(&mut w, 10);
    w.highlight(movie("h2"));
    assert_eq!(w.phase(), Phase::CollectingPreferences);
    w.on_submit_success(vec![movie("r1")]);
    w.highlight(movie("r1"));
    assert_eq!(w.phase(), Phase::Results);
    assert_eq!(w.highlighted().as_ref().and_then(|m| m.id.as_deref()), Some("r1"));
}

#[test]
fn reset_starts_a_fresh_session() {
    let mut w = SessionWorkflow::new();
    w.replenish();
    fill_selection(&mut w, 10);
    w.update_year_range(1950, 1960);
    w.on_submit_success(vec![movie("r1")]);
    assert_eq!(w.phase(), Phase::Results);

    w.reset();
    assert_eq!(w.phase(), Phase::Acquiring);
    assert_eq!(w.selection_len(), 0);
    assert_eq!(w.pool_items().len(), 0);
    assert!(w.results().is_empty());
    assert_eq!(w.last_error(), None);
    assert_eq!((w.constraints().year_min(), w.constraints().year_max()), (2000, 2023));
}

#[test]
fn custom_limits_transition_at_capacity() {
    let mut w = SessionWorkflow::with_limits(2, 3);
    assert_eq!(w.replenish(), 2);
    w.on_arrival(movie("a"));
    w.on_arrival(movie("b"));
    w.select(&"a".to_string()).unwrap();
    assert_eq!(w.phase(), Phase::Acquiring);
    while w.pending_fetches() > 0 {
        w.on_arrival(movie("c"));
        w.on_arrival(movie("d"));
    }
    w.select(&"b".to_string()).unwrap();
    assert_eq!(w.phase(), Phase::Acquiring);
    let id = w.pool_items()[0].id.clone().unwrap();
    w.select(&id).unwrap();
    assert_eq!(w.phase(), Phase::CollectingPreferences);
    assert_eq!(w.selection_len(), 3);
}
