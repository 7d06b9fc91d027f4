//! The mutable session aggregate: the catalog of situations, the current
//! situation pointer, the live vote tally, the last revealed result, and the
//! strictly increasing reveal-version counter.
//!
//! Every operation here reads or writes plain in-memory state and is meant to
//! run atomically with respect to the others: the shell around the library
//! keeps one exclusive lock per [`AppState`] value and holds it exactly for
//! the duration of one call, never across I/O.

use vstd::prelude::*;

use crate::reaction::Reaction;
use crate::reaction::ordered_tuple;
use crate::reaction::spec_idx_to_reaction;
use crate::reaction::spec_priority;
use crate::resolver::spec_resolved_answer;
use crate::resolver::top_two;
use crate::situation::Situation;
use crate::situation::sentinel_answer;

verus! {

/// The tally of a fresh round: zero votes for each of the three strategies.
pub open spec fn zero_counts() -> Seq<u64> {
    seq![0u64, 0u64, 0u64]
}

/// A published reveal: a snapshot of the situation title, the resolved
/// answer, the tally at reveal time, and the reveal version. Immutable once
/// created; a later reveal supersedes it wholesale.
#[derive(Debug)]
pub struct ShownResult {
    pub situation_title: String,
    pub answer: String,
    pub counts: [u64; 3],
    pub version: u64,
}

impl ShownResult {
    /// Mathematical content of a revealed result: title, answer, counts and
    /// version.
    pub open spec fn model(self) -> (Seq<char>, Seq<char>, Seq<u64>, u64) {
        (self.situation_title@, self.answer@, self.counts@, self.version)
    }
}

impl Clone for ShownResult {
    /// A clone carries the same title, answer, counts and version.
    fn clone(&self) -> (r: Self)
        ensures
            r.model() == self.model(),
    {
        ShownResult {
            situation_title: self.situation_title.clone(),
            answer: self.answer.clone(),
            counts: self.counts,
            version: self.version,
        }
    }
}

/// The read-only projection of the current situation handed to participants:
/// its title and description.
pub struct CurrentSituationResponse {
    pub title: String,
    pub description: String,
}

/// The tally after one vote: a recognized token bumps the counter of its
/// strategy by one, an unrecognized token changes nothing.
pub open spec fn counts_after_vote(c: Seq<u64>, token: Seq<char>) -> Seq<u64>
    recommends
        c.len() == 3,
{
    match Reaction::spec_from_str(token) {
        Some(r) => c.update(spec_priority(r), (c[spec_priority(r)] + 1) as u64),
        None => c,
    }
}

/// The session state: the immutable catalog, the current situation pointer,
/// the live tally, the last revealed result, and the reveal-version counter.
pub struct AppState {
    pub situations: Vec<Situation>,
    pub current_index: usize,
    pub counts: [u64; 3],
    pub last_result: Option<ShownResult>,
    pub result_version: u64,
}

impl AppState {
    /// The catalog is non-empty and the current situation pointer stays
    /// inside it.
    pub open spec fn wf(self) -> bool {
        &&& self.situations@.len() > 0
        &&& self.current_index < self.situations@.len()
    }

    /// The situation currently shown.
    pub open spec fn spec_current_situation(self) -> Situation
        recommends
            self.wf(),
    {
        self.situations@[self.current_index as int]
    }

    /// A fresh session over a catalog: first situation, empty tally, no
    /// revealed result, version zero.
    pub fn new(situations: Vec<Situation>) -> (st: AppState)
        requires
            situations@.len() > 0,
        ensures
            st.wf(),
            st.situations == situations,
            st.current_index == 0,
            st.counts@ == zero_counts(),
            st.last_result is None,
            st.result_version == 0,
    {
        let st = AppState {
            situations,
            current_index: 0,
            counts: [0, 0, 0],
            last_result: None,
            result_version: 0,
        };
        proof {
            assert(st.counts@ =~= zero_counts());
        }
        st
    }

    /// The title and description of the situation currently shown.
    pub fn current_situation(&self) -> (r: CurrentSituationResponse)
        requires
            self.wf(),
        ensures
            r.title@ == self.spec_current_situation().title@,
            r.description@ == self.spec_current_situation().description@,
    {
        let s = &self.situations[self.current_index];
        CurrentSituationResponse { title: s.title.clone(), description: s.description.clone() }
    }

    /// Accepts a vote. A recognized token increments its strategy's counter
    /// by exactly one; an unrecognized token is silently dropped. Either way
    /// the call acknowledges success, so the caller cannot distinguish the
    /// two. Nothing else of the session changes.
    pub fn accept_vote(&mut self, token: &str) -> (ok: bool)
        requires
            match Reaction::spec_from_str(token@) {
                Some(r) => old(self).counts@[spec_priority(r)] < u64::MAX,
                None => true,
            },
        ensures
            ok,
            final(self).counts@ == counts_after_vote(old(self).counts@, token@),
            final(self).situations == old(self).situations,
            final(self).current_index == old(self).current_index,
            final(self).last_result == old(self).last_result,
            final(self).result_version == old(self).result_version,
            old(self).wf() ==> final(self).wf(),
    {
        if let Some(r) = Reaction::from_str(token) {
            let i = r.priority();
            let c = self.counts[i];
            self.counts[i] = c + 1;
            proof {
                assert(self.counts@ =~= counts_after_vote(old(self).counts@, token@));
            }
        }
        true
    }

    /// Reveals the scripted answer for the current tally: ranks the
    /// strategies, looks the leading pair up in the current situation's
    /// answers (falling back to the sentinel text), bumps the version, and
    /// stores the published snapshot as the last result. The tally and the
    /// situation pointer stay untouched, so revealing again without an
    /// intervening vote reproduces the same content under a fresh version.
    pub fn show_answer(&mut self) -> (r: ShownResult)
        requires
            old(self).wf(),
            old(self).result_version < u64::MAX,
        ensures
            final(self).wf(),
            final(self).situations == old(self).situations,
            final(self).current_index == old(self).current_index,
            final(self).counts == old(self).counts,
            final(self).result_version == old(self).result_version + 1,
            r.model() == (
                old(self).spec_current_situation().title@,
                spec_resolved_answer(old(self).counts@, old(self).spec_current_situation()),
                old(self).counts@,
                (old(self).result_version + 1) as u64,
            ),
            final(self).last_result is Some,
            final(self).last_result->0.model() == r.model(),
    {
        let situation = &self.situations[self.current_index];
        let (r1, r2) = top_two(&self.counts);
        let key = ordered_tuple(r1, r2);
        let answer = match situation.answers.answer_for(key.0, key.1) {
            Some(a) => a,
            None => sentinel_answer(),
        };
        let situation_title = situation.title.clone();
        let counts = self.counts;
        self.result_version = self.result_version + 1;
        let shown = ShownResult { situation_title, answer, counts, version: self.result_version };
        self.last_result = Some(shown.clone());
        shown
    }

    /// The last revealed result, if a reveal has happened since the last
    /// clear. A pure read: nothing of the session changes.
    pub fn current_result(&self) -> (r: Option<ShownResult>)
        ensures
            match (r, self.last_result) {
                (Some(a), Some(b)) => a.model() == b.model(),
                (None, None) => true,
                _ => false,
            },
    {
        match &self.last_result {
            Some(s) => Some(s.clone()),
            None => None,
        }
    }

    /// Moves to the next situation, cyclically, and opens a fresh round:
    /// the tally is cleared and the last result is dropped. The version is
    /// not touched.
    pub fn advance(&mut self)
        requires
            old(self).wf(),
        ensures
            final(self).wf(),
            final(self).situations == old(self).situations,
            final(self).current_index as int == (old(self).current_index + 1) % (
            old(self).situations@.len() as int),
            final(self).counts@ == zero_counts(),
            final(self).last_result is None,
            final(self).result_version == old(self).result_version,
    {
        let n = self.situations.len();
        self.current_index = (self.current_index + 1) % n;
        self.counts = [0, 0, 0];
        self.last_result = None;
        proof {
            assert(self.counts@ =~= zero_counts());
        }
    }

    /// Opens a fresh round on the same situation: the tally is cleared and
    /// the last result is dropped. Neither the situation pointer nor the
    /// version is touched.
    pub fn reset_round(&mut self)
        ensures
            final(self).situations == old(self).situations,
            final(self).current_index == old(self).current_index,
            final(self).counts@ == zero_counts(),
            final(self).last_result is None,
            final(self).result_version == old(self).result_version,
            old(self).wf() ==> final(self).wf(),
    {
        self.counts = [0, 0, 0];
        self.last_result = None;
        proof {
            assert(self.counts@ =~= zero_counts());
        }
    }
}

/// Advancing cyclically from the last situation of a catalog wraps the
/// pointer back to the first: with a catalog of n situations and the pointer
/// on position n - 1, the advanced pointer is 0.
pub proof fn lemma_advance_wraps(i: int, n: int)
    requires
        0 < n,
        i == n - 1,
    ensures
        (i + 1) % n == 0,
{
    vstd::arithmetic::div_mod::lemma_mod_self_0(n);
}

/// How many of a sequence of vote tokens denote the strategy at tally
/// position i.
pub open spec fn accepted_votes(tokens: Seq<Seq<char>>, i: int) -> nat
    decreases tokens.len(),
{
    if tokens.len() == 0 {
        0
    } else {
        accepted_votes(tokens.drop_last(), i) + (if Reaction::spec_from_str(tokens.last())
            == Some(spec_idx_to_reaction(i)) {
            1nat
        } else {
            0nat
        })
    }
}

/// The tally after a whole sequence of vote-accept calls, in order.
pub open spec fn counts_after_votes(c: Seq<u64>, tokens: Seq<Seq<char>>) -> Seq<u64>
    recommends
        c.len() == 3,
    decreases tokens.len(),
{
    if tokens.len() == 0 {
        c
    } else {
        counts_after_vote(counts_after_votes(c, tokens.drop_last()), tokens.last())
    }
}

/// No counter of a vote token sequence exceeds the sequence's length.
pub proof fn lemma_accepted_votes_le_len(tokens: Seq<Seq<char>>, i: int)
    ensures
        accepted_votes(tokens, i) <= tokens.len(),
    decreases tokens.len(),
{
    if tokens.len() > 0 {
        lemma_accepted_votes_le_len(tokens.drop_last(), i);
    }
}

/// Across any sequence of vote-accept calls, each tally counter is
/// monotonically non-decreasing and grows by exactly the number of accepted
/// votes for its strategy, as long as no counter outgrows its machine word.
pub proof fn lemma_tally_counts_accepted_votes(c: Seq<u64>, tokens: Seq<Seq<char>>)
    requires
        c.len() == 3,
        forall|j: int| 0 <= j < 3 ==> c[j] + accepted_votes(tokens, j) <= u64::MAX,
    ensures
        counts_after_votes(c, tokens).len() == 3,
        forall|j: int|
            0 <= j < 3 ==> #[trigger] counts_after_votes(c, tokens)[j] == c[j] + accepted_votes(
                tokens,
                j,
            ),
        forall|j: int| 0 <= j < 3 ==> c[j] <= #[trigger] counts_after_votes(c, tokens)[j],
    decreases tokens.len(),
{
    if tokens.len() > 0 {
        let pre = tokens.drop_last();
        let t = tokens.last();
        assert forall|j: int| 0 <= j < 3 implies c[j] + accepted_votes(pre, j) <= u64::MAX by {
            assert(accepted_votes(pre, j) <= accepted_votes(tokens, j));
        }
        lemma_tally_counts_accepted_votes(c, pre);
        let mid = counts_after_votes(c, pre);
        if let Some(r) = Reaction::spec_from_str(t) {
            let p = spec_priority(r);
            assert(spec_idx_to_reaction(p) == r);
            assert(accepted_votes(tokens, p) == accepted_votes(pre, p) + 1);
            assert forall|j: int| 0 <= j < 3 && j != p implies accepted_votes(tokens, j)
                == accepted_votes(pre, j) by {
                assert(spec_idx_to_reaction(j) != r);
            }
        }
    }
}

/// From a clear boundary — startup, advance, or reset, all of which leave
/// the tally at zero — each tally counter equals the number of accepted
/// votes for its strategy over the round, whatever order the votes came in.
pub proof fn lemma_round_tally_equals_votes(tokens: Seq<Seq<char>>)
    requires
        tokens.len() <= u64::MAX,
    ensures
        counts_after_votes(zero_counts(), tokens).len() == 3,
        forall|j: int|
            0 <= j < 3 ==> #[trigger] counts_after_votes(zero_counts(), tokens)[j]
                == accepted_votes(tokens, j),
{
    assert forall|j: int| 0 <= j < 3 implies zero_counts()[j] + accepted_votes(tokens, j)
        <= u64::MAX by {
        lemma_accepted_votes_le_len(tokens, j);
    }
    lemma_tally_counts_accepted_votes(zero_counts(), tokens);
}

} // verus!
