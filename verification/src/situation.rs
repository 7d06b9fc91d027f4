//! Situations: a scripted prompt together with its answer mapping, one
//! scripted answer per unordered pair of distinct strategies.

use vstd::prelude::*;

use crate::reaction::Reaction;
use crate::reaction::ordered_tuple;
use crate::reaction::spec_ordered_tuple;

verus! {

/// The view of an optional string: the character sequence it holds, if any.
pub open spec fn opt_view(o: Option<String>) -> Option<Seq<char>> {
    match o {
        Some(s) => Some(s@),
        None => None,
    }
}

/// The scripted answers of one situation: one optional entry per unordered
/// pair of two distinct strategies, stored under the canonical
/// ascending-priority order of the pair. A missing entry is tolerated at
/// lookup time and answered with the sentinel text; see
/// [`crate::session::AppState::reveal`].
pub struct AnswerMap {
    pub lie_delay: Option<String>,
    pub lie_freeze: Option<String>,
    pub delay_freeze: Option<String>,
}

impl AnswerMap {
    /// The entry for the unordered pair of strategies {a, b}; nothing when
    /// the entry is missing or the two strategies are equal.
    pub open spec fn spec_answer(self, a: Reaction, b: Reaction) -> Option<Seq<char>> {
        let p = spec_ordered_tuple(a, b);
        if p == (Reaction::Lie, Reaction::Delay) {
            opt_view(self.lie_delay)
        } else if p == (Reaction::Lie, Reaction::Freeze) {
            opt_view(self.lie_freeze)
        } else if p == (Reaction::Delay, Reaction::Freeze) {
            opt_view(self.delay_freeze)
        } else {
            None
        }
    }

    /// The mapping holds an answer for each of the three unordered pairs of
    /// distinct strategies.
    pub open spec fn is_complete(self) -> bool {
        &&& self.lie_delay is Some
        &&& self.lie_freeze is Some
        &&& self.delay_freeze is Some
    }

    /// Looks up the answer for the unordered pair of strategies {a, b}.
    pub fn answer_for(&self, a: Reaction, b: Reaction) -> (r: Option<String>)
        ensures
            opt_view(r) == self.spec_answer(a, b),
    {
        let (x, y) = ordered_tuple(a, b);
        match (x, y) {
            (Reaction::Lie, Reaction::Delay) => clone_opt_string(&self.lie_delay),
            (Reaction::Lie, Reaction::Freeze) => clone_opt_string(&self.lie_freeze),
            (Reaction::Delay, Reaction::Freeze) => clone_opt_string(&self.delay_freeze),
            _ => None,
        }
    }
}

/// Clones an optional string, keeping its contents.
fn clone_opt_string(o: &Option<String>) -> (r: Option<String>)
    ensures
        opt_view(r) == opt_view(*o),
{
    match o {
        Some(s) => Some(s.clone()),
        None => None,
    }
}

/// A scripted discussion prompt: its title, its description, and the mapping
/// from each unordered pair of strategies to a scripted answer.
pub struct Situation {
    pub title: String,
    pub description: String,
    pub answers: AnswerMap,
}

/// Builds a complete answer mapping from the three scripted answers, one per
/// unordered pair of strategies, given in canonical pair order.
pub fn make_answers(lie_delay: &str, lie_freeze: &str, delay_freeze: &str) -> (m: AnswerMap)
    ensures
        m.is_complete(),
        m.spec_answer(Reaction::Lie, Reaction::Delay) == Some(lie_delay@),
        m.spec_answer(Reaction::Lie, Reaction::Freeze) == Some(lie_freeze@),
        m.spec_answer(Reaction::Delay, Reaction::Freeze) == Some(delay_freeze@),
{
    AnswerMap {
        lie_delay: Some(lie_delay.to_owned()),
        lie_freeze: Some(lie_freeze.to_owned()),
        delay_freeze: Some(delay_freeze.to_owned()),
    }
}

/// The sentinel text substituted when a situation's answer mapping is
/// missing the resolved pair.
pub open spec fn spec_sentinel() -> Seq<char> {
    "No answer found for this combination"@
}

/// The sentinel text substituted when a situation's answer mapping is
/// missing the resolved pair.
pub fn sentinel_answer() -> (r: String)
    ensures
        r@ == spec_sentinel(),
{
    "No answer found for this combination".to_owned()
}

} // verus!
