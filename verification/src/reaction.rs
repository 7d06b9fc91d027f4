//! The three response strategies, their fixed tie-break priorities, and the
//! parsing of vote tokens.

use vstd::prelude::*;
use vstd::string::StrSliceExecFns;

verus! {

/// One of the three canned response strategies a participant can vote for.
///
/// Each strategy carries a fixed tie-break priority, held as data by
/// [`spec_priority`] and [`Reaction::priority`] rather than as an implicit
/// language-level ordinal: Lie is 0, Delay is 1, Freeze is 2.
#[derive(Clone, Copy, Debug, PartialEq, Eq, Structural)]
pub enum Reaction {
    Lie,
    Delay,
    Freeze,
}

/// Fixed tie-break priority of a strategy: Lie 0, Delay 1, Freeze 2.
pub open spec fn spec_priority(r: Reaction) -> int {
    match r {
        Reaction::Lie => 0,
        Reaction::Delay => 1,
        Reaction::Freeze => 2,
    }
}

/// Character-by-character equality of two string slices.
pub fn str_eq(a: &str, b: &str) -> (r: bool)
    ensures
        r == (a@ == b@),
{
    let alen = a.unicode_len();
    let blen = b.unicode_len();
    if alen != blen {
        return false;
    }
    let mut i: usize = 0;
    while i < alen
        invariant
            alen == a@.len(),
            blen == b@.len(),
            alen == blen,
            i <= alen,
            forall|j: int| 0 <= j < i ==> a@[j] == b@[j],
        decreases alen - i,
    {
        if a.get_char(i) != b.get_char(i) {
            return false;
        }
        i = i + 1;
    }
    proof {
        assert(a@ =~= b@);
    }
    true
}

impl Reaction {
    /// Fixed tie-break priority as an index into the tally: 0, 1 or 2.
    pub fn priority(&self) -> (p: usize)
        ensures
            p == spec_priority(*self),
    {
        match self {
            Reaction::Lie => 0,
            Reaction::Delay => 1,
            Reaction::Freeze => 2,
        }
    }

    /// What a vote token denotes: one of the three recognized identifiers,
    /// matched case-sensitively, or nothing.
    pub open spec fn spec_from_str(s: Seq<char>) -> Option<Reaction> {
        if s == "lie"@ {
            Some(Reaction::Lie)
        } else if s == "delay"@ {
            Some(Reaction::Delay)
        } else if s == "freeze"@ {
            Some(Reaction::Freeze)
        } else {
            None
        }
    }

    /// Case-sensitive match of a vote token against the three recognized
    /// strategy identifiers.
    pub fn from_str(s: &str) -> (r: Option<Reaction>)
        ensures
            r == Self::spec_from_str(s@),
    {
        if str_eq(s, "lie") {
            Some(Reaction::Lie)
        } else if str_eq(s, "delay") {
            Some(Reaction::Delay)
        } else if str_eq(s, "freeze") {
            Some(Reaction::Freeze)
        } else {
            None
        }
    }
}

/// Strategy sitting at a given tally position: 0 is Lie, 1 is Delay, any
/// other index is Freeze.
pub open spec fn spec_idx_to_reaction(i: int) -> Reaction {
    if i == 0 {
        Reaction::Lie
    } else if i == 1 {
        Reaction::Delay
    } else {
        Reaction::Freeze
    }
}

/// Strategy sitting at a given tally position: 0 is Lie, 1 is Delay, any
/// other index is Freeze.
pub fn idx_to_reaction(i: usize) -> (r: Reaction)
    ensures
        r == spec_idx_to_reaction(i as int),
{
    match i {
        0 => Reaction::Lie,
        1 => Reaction::Delay,
        _ => Reaction::Freeze,
    }
}

/// Canonical key of an unordered pair of strategies: the two ordered by
/// ascending priority.
pub open spec fn spec_ordered_tuple(a: Reaction, b: Reaction) -> (Reaction, Reaction) {
    if spec_priority(a) <= spec_priority(b) {
        (a, b)
    } else {
        (b, a)
    }
}

/// Orders a pair of strategies by ascending priority, yielding the canonical
/// key of their unordered pair.
pub fn ordered_tuple(a: Reaction, b: Reaction) -> (r: (Reaction, Reaction))
    ensures
        r == spec_ordered_tuple(a, b),
{
    if a.priority() <= b.priority() {
        (a, b)
    } else {
        (b, a)
    }
}

} // verus!
