//! The resolution algorithm: rank the three strategies by vote count,
//! descending, breaking ties by ascending fixed priority; take the top two
//! and look up their scripted answer.

use vstd::prelude::*;

use crate::reaction::Reaction;
use crate::reaction::idx_to_reaction;
use crate::reaction::spec_idx_to_reaction;
use crate::reaction::spec_ordered_tuple;
use crate::situation::Situation;
use crate::situation::spec_sentinel;

verus! {

/// Tally position of the strategy ranked first: the highest count, ties
/// going to the lower priority.
pub open spec fn spec_first(c: Seq<u64>) -> int
    recommends
        c.len() == 3,
{
    if c[1] > c[0] {
        if c[2] > c[1] {
            2
        } else {
            1
        }
    } else {
        if c[2] > c[0] {
            2
        } else {
            0
        }
    }
}

/// Tally position of the strategy ranked second: among the two positions
/// left once the first is taken, the higher count, ties going to the lower
/// priority.
pub open spec fn spec_second(c: Seq<u64>) -> int
    recommends
        c.len() == 3,
{
    let f = spec_first(c);
    if f == 0 {
        if c[2] > c[1] {
            2
        } else {
            1
        }
    } else if f == 1 {
        if c[2] > c[0] {
            2
        } else {
            0
        }
    } else {
        if c[1] > c[0] {
            1
        } else {
            0
        }
    }
}

/// The two leading positions rank the tally by count, descending, with ties
/// broken by ascending priority: the first holds a maximal count and is the
/// lowest such position; the second holds a maximal count among the rest,
/// again at the lowest such position.
pub proof fn lemma_top_two_ranks(c: Seq<u64>)
    requires
        c.len() == 3,
    ensures
        0 <= spec_first(c) < 3,
        0 <= spec_second(c) < 3,
        spec_first(c) != spec_second(c),
        c[spec_second(c)] <= c[spec_first(c)],
        forall|j: int| 0 <= j < 3 ==> #[trigger] c[j] <= c[spec_first(c)],
        forall|j: int| 0 <= j < spec_first(c) ==> #[trigger] c[j] < c[spec_first(c)],
        forall|j: int|
            0 <= j < 3 && j != spec_first(c) && j != spec_second(c) ==> #[trigger] c[j]
                <= c[spec_second(c)],
        forall|j: int|
            0 <= j < spec_second(c) && j != spec_first(c) ==> #[trigger] c[j] < c[spec_second(c)],
{
}

/// The two leading strategies, ranked by count descending with ties broken
/// by ascending fixed priority.
pub fn top_two(counts: &[u64; 3]) -> (r: (Reaction, Reaction))
    ensures
        r.0 == spec_idx_to_reaction(spec_first(counts@)),
        r.1 == spec_idx_to_reaction(spec_second(counts@)),
{
    let first: usize = if counts[1] > counts[0] {
        if counts[2] > counts[1] {
            2
        } else {
            1
        }
    } else {
        if counts[2] > counts[0] {
            2
        } else {
            0
        }
    };
    let second: usize = if first == 0 {
        if counts[2] > counts[1] {
            2
        } else {
            1
        }
    } else if first == 1 {
        if counts[2] > counts[0] {
            2
        } else {
            0
        }
    } else {
        if counts[1] > counts[0] {
            1
        } else {
            0
        }
    };
    (idx_to_reaction(first), idx_to_reaction(second))
}

/// The unordered pair of the two leading strategies, under its canonical
/// ascending-priority order.
pub open spec fn spec_top_pair(c: Seq<u64>) -> (Reaction, Reaction)
    recommends
        c.len() == 3,
{
    spec_ordered_tuple(
        spec_idx_to_reaction(spec_first(c)),
        spec_idx_to_reaction(spec_second(c)),
    )
}

/// The answer a reveal publishes for a tally and a situation: the scripted
/// answer of the two leading strategies' pair, or the sentinel text when the
/// mapping misses that pair.
pub open spec fn spec_resolved_answer(c: Seq<u64>, s: Situation) -> Seq<char>
    recommends
        c.len() == 3,
{
    let p = spec_top_pair(c);
    match s.answers.spec_answer(p.0, p.1) {
        Some(a) => a,
        None => spec_sentinel(),
    }
}

/// A complete answer mapping is never answered with the sentinel fallback:
/// whatever the tally, the resolved pair's entry is present and is what the
/// resolution returns.
pub proof fn lemma_complete_map_resolves(c: Seq<u64>, s: Situation)
    requires
        c.len() == 3,
        s.answers.is_complete(),
    ensures
        s.answers.spec_answer(spec_top_pair(c).0, spec_top_pair(c).1) is Some,
        spec_resolved_answer(c, s) == s.answers.spec_answer(
            spec_top_pair(c).0,
            spec_top_pair(c).1,
        )->0,
{
}

} // verus!
