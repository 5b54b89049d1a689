//! The places at which one sequence stands in another, and the search for
//! the first of them.

use vstd::prelude::*;

verus! {

/// Whether `pattern` stands in `text` at the place `at`.
pub open spec fn matches_at<A>(text: Seq<A>, pattern: Seq<A>, at: int) -> bool {
    0 <= at && at + pattern.len() <= text.len() && text.subrange(at, at + pattern.len())
        == pattern
}

/// Whether `pattern` stands somewhere in `text`.
pub open spec fn occurs_in<A>(text: Seq<A>, pattern: Seq<A>) -> bool {
    exists|at: int| matches_at(text, pattern, at)
}

/// Whether `pattern` stands in `text` at `at` and nowhere before.
pub open spec fn is_first_match<A>(text: Seq<A>, pattern: Seq<A>, at: int) -> bool {
    matches_at(text, pattern, at) && forall|before: int|
        0 <= before < at ==> !matches_at(text, pattern, before)
}

/// The first place at which `pattern` stands in `text`, if there is one.
pub open spec fn first_match<A>(text: Seq<A>, pattern: Seq<A>) -> Option<int> {
    if exists|at: int| matches_at(text, pattern, at) {
        Some(choose|at: int| is_first_match(text, pattern, at))
    } else {
        None
    }
}

/// A place at which the pattern stands, with none before it, is the first
/// match.
pub proof fn lemma_first_match_is<A>(text: Seq<A>, pattern: Seq<A>, at: int)
    requires
        is_first_match(text, pattern, at),
    ensures
        first_match(text, pattern) == Some(at),
{
    let chosen = choose|at: int| is_first_match(text, pattern, at);
    assert(is_first_match(text, pattern, chosen));
    if chosen < at {
        assert(!matches_at(text, pattern, chosen));
    }
    if at < chosen {
        assert(!matches_at(text, pattern, at));
    }
}

/// The first match, where there is one, is a match with none before it;
/// where there is none, the pattern stands nowhere in the text.
pub proof fn lemma_first_match<A>(text: Seq<A>, pattern: Seq<A>)
    ensures
        match first_match(text, pattern) {
            Some(at) => is_first_match(text, pattern, at),
            None => forall|at: int| !matches_at(text, pattern, at),
        },
{
    if exists|at: int| matches_at(text, pattern, at) {
        let some = choose|at: int| matches_at(text, pattern, at);
        lemma_least_match(text, pattern, some);
    }
}

/// Below any match there is a first one.
proof fn lemma_least_match<A>(text: Seq<A>, pattern: Seq<A>, at: int)
    requires
        matches_at(text, pattern, at),
    ensures
        exists|first: int| is_first_match(text, pattern, first),
    decreases at,
{
    if exists|before: int| 0 <= before < at && matches_at(text, pattern, before) {
        let before = choose|before: int| 0 <= before < at && matches_at(text, pattern, before);
        lemma_least_match(text, pattern, before);
    } else {
        assert(is_first_match(text, pattern, at));
    }
}

/// Finds the first place at which `pattern` stands in `text`.
pub fn find(text: &[u8], pattern: &[u8]) -> (found: Option<usize>)
    ensures
        match found {
            Some(at) => first_match(text@, pattern@) == Some(at as int),
            None => first_match(text@, pattern@) is None,
        },
{
    let n = text.len();
    let m = pattern.len();
    if m > n {
        return None;
    }
    let mut at: usize = 0;
    while at <= n - m
        invariant
            n == text.len(),
            m == pattern.len(),
            m <= n,
            forall|before: int| 0 <= before < at ==> !matches_at(text@, pattern@, before),
        decreases n - m + 1 - at,
    {
        let mut k: usize = 0;
        while k < m && text[at + k] == pattern[k]
            invariant
                n == text.len(),
                m == pattern.len(),
                at + m <= n,
                k <= m,
                forall|j: int| 0 <= j < k ==> text@[at + j] == pattern@[j],
            decreases m - k,
        {
            k += 1;
        }
        if k == m {
            proof {
                assert(text@.subrange(at as int, at + m) =~= pattern@);
                lemma_first_match_is(text@, pattern@, at as int);
            }
            return Some(at);
        }
        proof {
            if matches_at(text@, pattern@, at as int) {
                assert(text@.subrange(at as int, at + m)[k as int] == pattern@[k as int]);
            }
        }
        at += 1;
    }
    None
}

} // verus!
