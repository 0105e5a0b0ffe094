//! The first element of a sequence that meets a condition.
//!
//! Every lookup of the configuration is a search for the first entry with a
//! given key or id, so all of them are stated over [`first_index`].

use vstd::prelude::*;

verus! {

/// The least index at or after `from` whose element meets `p`, if there is one.
pub open spec fn first_index_from<T>(s: Seq<T>, p: spec_fn(T) -> bool, from: int) -> Option<int>
    decreases s.len() - from,
{
    if from < 0 || from >= s.len() {
        None
    } else if p(s[from]) {
        Some(from)
    } else {
        first_index_from(s, p, from + 1)
    }
}

/// The least index whose element meets `p`, if there is one.
pub open spec fn first_index<T>(s: Seq<T>, p: spec_fn(T) -> bool) -> Option<int> {
    first_index_from(s, p, 0)
}

/// The first element that meets `p`, if there is one.
pub open spec fn first_match<T>(s: Seq<T>, p: spec_fn(T) -> bool) -> Option<T> {
    match first_index(s, p) {
        Some(i) => Some(s[i]),
        None => None,
    }
}

/// A search that starts at `from` skips every element before `at` that fails `p`.
pub proof fn lemma_first_index_skips<T>(s: Seq<T>, p: spec_fn(T) -> bool, from: int, at: int)
    requires
        0 <= from <= at <= s.len(),
        forall|j: int| from <= j < at ==> !p(#[trigger] s[j]),
    ensures
        first_index_from(s, p, from) == first_index_from(s, p, at),
    decreases at - from,
{
    if from < at {
        lemma_first_index_skips(s, p, from + 1, at);
    }
}

/// An index is the first match if its element meets `p` and none before it does.
pub proof fn lemma_first_index_is<T>(s: Seq<T>, p: spec_fn(T) -> bool, at: int)
    requires
        0 <= at < s.len(),
        p(s[at]),
        forall|j: int| 0 <= j < at ==> !p(#[trigger] s[j]),
    ensures
        first_index(s, p) == Some(at),
{
    lemma_first_index_skips(s, p, 0, at);
}

/// There is no match if no element meets `p`.
pub proof fn lemma_first_index_none<T>(s: Seq<T>, p: spec_fn(T) -> bool)
    requires
        forall|j: int| 0 <= j < s.len() ==> !p(#[trigger] s[j]),
    ensures
        first_index(s, p) is None,
{
    lemma_first_index_skips(s, p, 0, s.len() as int);
}

/// What a search result says of the sequence: a match meets `p` and is the
/// first to do so; without a match nothing meets `p`.
pub proof fn lemma_first_index_found<T>(s: Seq<T>, p: spec_fn(T) -> bool, from: int)
    requires
        0 <= from <= s.len(),
    ensures
        match first_index_from(s, p, from) {
            Some(i) => from <= i < s.len() && p(s[i]) && forall|j: int|
                from <= j < i ==> !p(#[trigger] s[j]),
            None => forall|j: int| from <= j < s.len() ==> !p(#[trigger] s[j]),
        },
    decreases s.len() - from,
{
    if from < s.len() && !p(s[from]) {
        lemma_first_index_found(s, p, from + 1);
    }
}

} // verus!
