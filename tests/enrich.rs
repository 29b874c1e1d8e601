use tmdb_search::matching::{decide_match, starts_with, MatchDecision, SkipReason};
use tmdb_search::pipeline::{Action, Enricher, Event, Phase};
use tmdb_search::records::{merge, InputRecord, MovieDetails, OutputRecord, SearchCandidate};

fn entry(title: &str, year: &str, watched: &str) -> InputRecord {
    InputRecord {
        title: title.to_string(),
        year: year.to_string(),
        watched_date: watched.to_string(),
    }
}

fn candidate(id: u64, title: &str, release: &str) -> SearchCandidate {
    SearchCandidate {
        external_id: id,
        title: title.to_string(),
        release_date: release.to_string(),
    }
}

fn details(id: u64, title: &str, release: &str, runtime: u64) -> MovieDetails {
    MovieDetails {
        external_id: id,
        title: title.to_string(),
        release_date: release.to_string(),
        runtime_minutes: runtime,
    }
}

fn expect_search(a: Action, title: &str, year: &str) {
    match a {
        Action::Search { title: t, year: y } => {
            assert_eq!(t, title);
            assert_eq!(y, year);
        }
        _ => panic!("expected a search"),
    }
}

fn expect_fetch(a: Action, id: u64) {
    match a {
        Action::FetchDetails(i) => assert_eq!(i, id),
        _ => panic!("expected a details fetch"),
    }
}

fn expect_emit(a: Action) -> OutputRecord {
    match a {
        Action::Emit(out) => out,
        _ => panic!("expected a row"),
    }
}

fn expect_skip(a: Action) -> SkipReason {
    match a {
        Action::Skip(reason) => reason,
        _ => panic!("expected a skip"),
    }
}

fn csv_row(out: &OutputRecord) -> String {
    let mut w = csv::Writer::from_writer(Vec::new());
    w.write_record([
        out.external_id.to_string(),
        out.release_date.clone(),
        out.runtime_minutes.to_string(),
        out.title.clone(),
        out.watched_date.clone(),
    ])
    .unwrap();
    String::from_utf8(w.into_inner().unwrap()).unwrap()
}

#[test]
fn heat_and_alien_scenario() {
    let mut m = Enricher::new(vec![
        entry("Heat", "1995", "2023-01-01"),
        entry("Alien", "1979", "2023-01-02"),
    ]);
    expect_search(m.step(Event::Proceed), "Heat", "1995");
    let a = m.step(Event::SearchResults(vec![candidate(1, "Heat", "1995-12-15")]));
    expect_fetch(a, 1);
    let out = expect_emit(m.step(Event::Details(details(1, "Heat", "1995-12-15", 170))));
    assert_eq!(csv_row(&out), "1,1995-12-15,170,Heat,2023-01-01\n");
    expect_search(m.step(Event::Proceed), "Alien", "1979");
    let a = m.step(Event::SearchResults(vec![
        candidate(348, "Alien", "1979-05-25"),
        candidate(999, "Alien", "1979-01-01"),
    ]));
    assert!(matches!(expect_skip(a), SkipReason::ResultCount(2)));
    assert!(matches!(m.step(Event::Proceed), Action::Finished));
    assert!(m.phase() == Phase::Finished);
    assert_eq!(m.position(), 2);
}

#[test]
fn empty_input_finishes_at_once() {
    let mut m = Enricher::new(Vec::new());
    assert!(matches!(m.step(Event::Proceed), Action::Finished));
    assert!(matches!(m.step(Event::Proceed), Action::Finished));
    assert_eq!(m.position(), 0);
}

#[test]
fn unique_match_copies_details_and_watched_date() {
    let mut m = Enricher::new(vec![entry("Heat", "1995", "2023-01-01")]);
    expect_search(m.step(Event::Proceed), "Heat", "1995");
    expect_fetch(m.step(Event::SearchResults(vec![candidate(7, "Heat", "1995-12-15")])), 7);
    // The row takes its fields from the details, not from the candidate.
    let out = expect_emit(m.step(Event::Details(details(8, "Heat (1995)", "1995-12-16", 171))));
    assert_eq!(out.external_id, 8);
    assert_eq!(out.title, "Heat (1995)");
    assert_eq!(out.release_date, "1995-12-16");
    assert_eq!(out.runtime_minutes, 171);
    assert_eq!(out.watched_date, "2023-01-01");
    assert!(matches!(m.step(Event::Proceed), Action::Finished));
}

#[test]
fn no_candidate_is_skipped_and_run_goes_on() {
    let mut m = Enricher::new(vec![
        entry("Nothing", "2001", "2023-02-01"),
        entry("Heat", "1995", "2023-02-02"),
    ]);
    expect_search(m.step(Event::Proceed), "Nothing", "2001");
    let a = m.step(Event::SearchResults(Vec::new()));
    assert!(matches!(expect_skip(a), SkipReason::ResultCount(0)));
    expect_search(m.step(Event::Proceed), "Heat", "1995");
    expect_fetch(m.step(Event::SearchResults(vec![candidate(1, "Heat", "1995-12-15")])), 1);
    let out = expect_emit(m.step(Event::Details(details(1, "Heat", "1995-12-15", 170))));
    assert_eq!(out.watched_date, "2023-02-02");
}

#[test]
fn title_mismatch_is_skipped() {
    let mut m = Enricher::new(vec![entry("heat", "1995", "2023-01-01")]);
    expect_search(m.step(Event::Proceed), "heat", "1995");
    let a = m.step(Event::SearchResults(vec![candidate(1, "Heat", "1995-12-15")]));
    match expect_skip(a) {
        SkipReason::Mismatch { title, release_date } => {
            assert_eq!(title, "Heat");
            assert_eq!(release_date, "1995-12-15");
        }
        _ => panic!("expected a mismatch"),
    }
    assert!(matches!(m.step(Event::Proceed), Action::Finished));
}

#[test]
fn year_mismatch_is_skipped() {
    let r = entry("Heat", "1995", "2023-01-01");
    let d = decide_match(&r, &vec![candidate(1, "Heat", "1986-07-18")]);
    assert!(matches!(d, MatchDecision::Skipped(SkipReason::Mismatch { .. })));
    let d = decide_match(&r, &vec![candidate(1, "Heat", "")]);
    assert!(matches!(d, MatchDecision::Skipped(SkipReason::Mismatch { .. })));
    let d = decide_match(&r, &vec![candidate(1, "Heat", "1995-12-15")]);
    assert!(matches!(d, MatchDecision::Matched(1)));
}

#[test]
fn several_fitting_candidates_are_not_ranked() {
    let r = entry("Heat", "1995", "2023-01-01");
    let d = decide_match(
        &r,
        &vec![candidate(1, "Heat", "1995-12-15"), candidate(2, "Heat", "1995-01-01")],
    );
    assert!(matches!(d, MatchDecision::Skipped(SkipReason::ResultCount(2))));
}

#[test]
fn prefix_is_bytewise() {
    assert!(starts_with("1995-12-15", "1995"));
    assert!(starts_with("1995", "1995"));
    assert!(starts_with("anything", ""));
    assert!(!starts_with("199", "1995"));
    assert!(!starts_with("1996-01-01", "1995"));
    assert!(starts_with("Amélie", "Amé"));
    assert!(!starts_with("Amelie", "Amé"));
}

#[test]
fn output_keeps_input_order() {
    let mut m = Enricher::new(vec![
        entry("A", "2000", "d1"),
        entry("B", "2001", "d2"),
        entry("C", "2002", "d3"),
    ]);
    let mut watched = Vec::new();
    let answers = [("A", "2000-01-01", 1u64), ("B", "1999-01-01", 2u64), ("C", "2002-03-03", 3u64)];
    let mut i = 0;
    let mut a = m.step(Event::Proceed);
    loop {
        a = match a {
            Action::Search { .. } => {
                let (t, rel, id) = answers[i];
                i += 1;
                m.step(Event::SearchResults(vec![candidate(id, t, rel)]))
            }
            Action::FetchDetails(id) => {
                let (t, rel, _) = answers[(id - 1) as usize];
                m.step(Event::Details(details(id, t, rel, 100)))
            }
            Action::Emit(out) => {
                watched.push(out.watched_date);
                m.step(Event::Proceed)
            }
            Action::Skip(_) => m.step(Event::Proceed),
            Action::Finished | Action::Stopped => break,
        };
    }
    assert_eq!(watched, vec!["d1".to_string(), "d3".to_string()]);
}

#[test]
fn failure_stops_the_run() {
    let mut m = Enricher::new(vec![
        entry("Heat", "1995", "2023-01-01"),
        entry("Alien", "1979", "2023-01-02"),
        entry("Ran", "1985", "2023-01-03"),
    ]);
    expect_search(m.step(Event::Proceed), "Heat", "1995");
    expect_fetch(m.step(Event::SearchResults(vec![candidate(1, "Heat", "1995-12-15")])), 1);
    expect_emit(m.step(Event::Details(details(1, "Heat", "1995-12-15", 170))));
    expect_search(m.step(Event::Proceed), "Alien", "1979");
    assert!(matches!(m.step(Event::Failure), Action::Stopped));
    assert!(m.phase() == Phase::Failed);
    assert_eq!(m.position(), 1);
    assert!(matches!(m.step(Event::Proceed), Action::Stopped));
    assert!(matches!(
        m.step(Event::SearchResults(vec![candidate(2, "Alien", "1979-05-25")])),
        Action::Stopped
    ));
    assert_eq!(m.position(), 1);
}

#[test]
fn out_of_turn_event_is_fatal() {
    let mut m = Enricher::new(vec![entry("Heat", "1995", "2023-01-01")]);
    let a = m.step(Event::Details(details(1, "Heat", "1995-12-15", 170)));
    assert!(matches!(a, Action::Stopped));
    assert!(m.phase() == Phase::Failed);
}

#[test]
fn merge_takes_watched_date_from_entry() {
    let r = entry("Heat", "1995", "2024-05-05");
    let out = merge(details(1, "Heat", "1995-12-15", 170), &r);
    assert_eq!(out.external_id, 1);
    assert_eq!(out.title, "Heat");
    assert_eq!(out.release_date, "1995-12-15");
    assert_eq!(out.runtime_minutes, 170);
    assert_eq!(out.watched_date, "2024-05-05");
}
