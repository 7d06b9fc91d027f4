//! Tests of the authored catalog: every situation answers every canonical
//! pair of strategies with a real scripted text, never the sentinel.

use corpoclicker::catalog::build_situations;
use corpoclicker::reaction::Reaction;
use corpoclicker::session::AppState;

const SENTINEL: &str = "No answer found for this combination";

#[test]
fn the_catalog_is_not_empty() {
    assert!(!build_situations().is_empty());
}

#[test]
fn every_situation_answers_every_canonical_pair() {
    let pairs = [
        (Reaction::Lie, Reaction::Delay),
        (Reaction::Lie, Reaction::Freeze),
        (Reaction::Delay, Reaction::Freeze),
    ];
    for situation in build_situations() {
        for (a, b) in pairs {
            let answer = situation
                .answers
                .answer_for(a, b)
                .expect("the authored mapping covers every pair");
            assert!(!answer.is_empty());
            assert_ne!(answer, SENTINEL);
        }
    }
}

#[test]
fn pair_lookup_ignores_argument_order() {
    for situation in build_situations() {
        let one = situation.answers.answer_for(Reaction::Freeze, Reaction::Lie);
        let other = situation.answers.answer_for(Reaction::Lie, Reaction::Freeze);
        assert_eq!(one, other);
        assert!(one.is_some());
    }
}

#[test]
fn a_session_over_the_authored_catalog_never_shows_the_sentinel() {
    let situations = build_situations();
    let rounds = situations.len();
    let mut st = AppState::new(situations);
    let tallies: [&[&str]; 3] = [&[], &["lie", "freeze", "freeze"], &["delay", "delay", "lie"]];
    for round in 0..rounds {
        for token in tallies[round % tallies.len()] {
            st.accept_vote(token);
        }
        let shown = st.show_answer();
        assert_ne!(shown.answer, SENTINEL);
        assert!(!shown.answer.is_empty());
        st.advance();
    }
    // The pointer has wrapped back to the start.
    assert_eq!(st.current_index, 0);
}
