//! Tests of the session lifecycle: voting, revealing, polling, advancing and
//! resetting.

use corpoclicker::session::AppState;
use corpoclicker::situation::{make_answers, AnswerMap, Situation};

fn two_situation_catalog() -> Vec<Situation> {
    vec![
        Situation {
            title: "First prompt".to_owned(),
            description: "The opening question".to_owned(),
            answers: make_answers("first a", "first b", "first c"),
        },
        Situation {
            title: "Second prompt".to_owned(),
            description: "The follow-up question".to_owned(),
            answers: make_answers("second a", "second b", "second c"),
        },
    ]
}

#[test]
fn a_fresh_session_starts_clean() {
    let st = AppState::new(two_situation_catalog());
    assert_eq!(st.current_index, 0);
    assert_eq!(st.counts, [0, 0, 0]);
    assert!(st.last_result.is_none());
    assert_eq!(st.result_version, 0);
    let cur = st.current_situation();
    assert_eq!(cur.title, "First prompt");
    assert_eq!(cur.description, "The opening question");
}

#[test]
fn tally_counts_each_accepted_vote() {
    let mut st = AppState::new(two_situation_catalog());
    assert!(st.accept_vote("lie"));
    assert!(st.accept_vote("lie"));
    assert!(st.accept_vote("delay"));
    assert!(st.accept_vote("freeze"));
    assert_eq!(st.counts, [2, 1, 1]);
}

#[test]
fn unrecognized_token_changes_nothing_and_still_acknowledges() {
    let mut st = AppState::new(two_situation_catalog());
    assert!(st.accept_vote("lie"));
    assert!(st.accept_vote("xyz"));
    assert!(st.accept_vote(""));
    assert!(st.accept_vote("Lie"));
    assert_eq!(st.counts, [1, 0, 0]);
    assert!(st.last_result.is_none());
    assert_eq!(st.result_version, 0);
}

#[test]
fn show_answer_publishes_a_versioned_snapshot() {
    let mut st = AppState::new(two_situation_catalog());
    st.accept_vote("freeze");
    st.accept_vote("freeze");
    st.accept_vote("lie");
    let shown = st.show_answer();
    assert_eq!(shown.situation_title, "First prompt");
    // counts [1, 0, 2]: Freeze leads, Lie is second; the pair {Lie, Freeze}.
    assert_eq!(shown.answer, "first b");
    assert_eq!(shown.counts, [1, 0, 2]);
    assert_eq!(shown.version, 1);
    // The tally and the pointer are untouched by a reveal.
    assert_eq!(st.counts, [1, 0, 2]);
    assert_eq!(st.current_index, 0);
}

#[test]
fn show_answer_strictly_increments_the_version_every_call() {
    let mut st = AppState::new(two_situation_catalog());
    let first = st.show_answer();
    let second = st.show_answer();
    assert_eq!(first.version, 1);
    assert_eq!(second.version, 2);
    assert_eq!(first.answer, second.answer);
    assert_eq!(first.counts, second.counts);
    assert_eq!(st.result_version, 2);
}

#[test]
fn polling_returns_the_last_published_snapshot() {
    let mut st = AppState::new(two_situation_catalog());
    assert!(st.current_result().is_none());
    st.accept_vote("delay");
    let shown = st.show_answer();
    let polled = st.current_result().expect("a reveal happened");
    assert_eq!(polled.situation_title, shown.situation_title);
    assert_eq!(polled.answer, shown.answer);
    assert_eq!(polled.counts, shown.counts);
    assert_eq!(polled.version, shown.version);
}

#[test]
fn advance_moves_on_and_opens_a_fresh_round() {
    let mut st = AppState::new(two_situation_catalog());
    st.accept_vote("lie");
    st.show_answer();
    st.advance();
    assert_eq!(st.current_index, 1);
    assert_eq!(st.counts, [0, 0, 0]);
    assert!(st.last_result.is_none());
    assert_eq!(st.result_version, 1);
    assert_eq!(st.current_situation().title, "Second prompt");
}

#[test]
fn advance_wraps_from_the_last_situation_to_the_first() {
    let mut st = AppState::new(two_situation_catalog());
    st.advance();
    assert_eq!(st.current_index, 1);
    st.advance();
    assert_eq!(st.current_index, 0);
    assert_eq!(st.current_situation().title, "First prompt");
}

#[test]
fn reset_round_clears_the_round_but_keeps_the_place_and_version() {
    let mut st = AppState::new(two_situation_catalog());
    st.advance();
    st.accept_vote("freeze");
    st.show_answer();
    st.reset_round();
    assert_eq!(st.current_index, 1);
    assert_eq!(st.counts, [0, 0, 0]);
    assert!(st.last_result.is_none());
    assert_eq!(st.result_version, 1);
}

#[test]
fn votes_after_a_clear_boundary_start_from_zero() {
    let mut st = AppState::new(two_situation_catalog());
    st.accept_vote("lie");
    st.accept_vote("lie");
    st.advance();
    st.accept_vote("delay");
    assert_eq!(st.counts, [0, 1, 0]);
    st.reset_round();
    st.accept_vote("freeze");
    assert_eq!(st.counts, [0, 0, 1]);
}

#[test]
fn a_missing_pair_falls_back_to_the_sentinel() {
    let situations = vec![Situation {
        title: "Gap".to_owned(),
        description: "A mapping with a hole".to_owned(),
        answers: AnswerMap {
            lie_delay: None,
            lie_freeze: Some("present".to_owned()),
            delay_freeze: Some("present too".to_owned()),
        },
    }];
    let mut st = AppState::new(situations);
    // Zero counts resolve to the pair {Lie, Delay}, whose entry is missing.
    let shown = st.show_answer();
    assert_eq!(shown.answer, "No answer found for this combination");
    assert_eq!(shown.version, 1);
    // A pair that is present is still served.
    st.accept_vote("freeze");
    let shown = st.show_answer();
    assert_eq!(shown.answer, "present");
    assert_eq!(shown.version, 2);
}

#[test]
fn reveal_after_tie_votes_uses_priority_order() {
    let mut st = AppState::new(two_situation_catalog());
    st.accept_vote("lie");
    st.accept_vote("delay");
    // Tie [1, 1, 0]: the pair {Lie, Delay}.
    let shown = st.show_answer();
    assert_eq!(shown.answer, "first a");
}
