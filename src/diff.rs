//! The additive diff: which expected tracks the destination lacks.

use vstd::prelude::*;
use crate::ledger::texts;

verus! {

broadcast use vstd::seq_lib::group_seq_properties;

/// The expected tracks that `actual` does not hold, in expected order.
/// Nothing in `actual` that is not expected takes part: the diff only ever
/// asks for additions.
pub open spec fn missing(expected: Seq<Seq<char>>, actual: Seq<Seq<char>>) -> Seq<Seq<char>> {
    expected.filter(absent_from(actual))
}

/// Holds of the texts that `actual` does not contain.
pub open spec fn absent_from(actual: Seq<Seq<char>>) -> spec_fn(Seq<char>) -> bool {
    |t: Seq<char>| !actual.contains(t)
}

/// Whether `v` holds a string with the text of `s`.
pub fn contains_text(v: &Vec<String>, s: &String) -> (r: bool)
    ensures
        r == texts(v@).contains(s@),
{
    let mut i: usize = 0;
    while i < v.len()
        invariant
            i <= v.len(),
            forall|j: int| 0 <= j < i ==> #[trigger] v@[j]@ != s@,
        decreases v.len() - i,
    {
        if v[i] == *s {
            assert(texts(v@)[i as int] == s@);
            return true;
        }
        i = i + 1;
    }
    assert forall|j: int| 0 <= j < texts(v@).len() implies #[trigger] texts(v@)[j] != s@ by {
        assert(v@[j]@ != s@);
    }
    false
}

/// Whether two lists of strings hold the same texts in the same order.
pub fn same_texts(a: &Vec<String>, b: &Vec<String>) -> (r: bool)
    ensures
        r == (texts(a@) == texts(b@)),
{
    if a.len() != b.len() {
        assert(texts(a@).len() != texts(b@).len());
        return false;
    }
    let mut i: usize = 0;
    while i < a.len()
        invariant
            i <= a.len(),
            a.len() == b.len(),
            forall|j: int| 0 <= j < i ==> #[trigger] a@[j]@ == b@[j]@,
        decreases a.len() - i,
    {
        if a[i] != b[i] {
            assert(texts(a@)[i as int] != texts(b@)[i as int]);
            return false;
        }
        i = i + 1;
    }
    assert(texts(a@) =~= texts(b@));
    true
}

/// The tracks of `expected` that `actual` lacks, in expected order.
pub fn missing_tracks(expected: &Vec<String>, actual: &Vec<String>) -> (r: Vec<String>)
    ensures
        texts(r@) == missing(texts(expected@), texts(actual@)),
{
    let ghost e = texts(expected@);
    let ghost a = texts(actual@);
    let mut r: Vec<String> = Vec::new();
    let mut i: usize = 0;
    assert(e.subrange(0, 0).filter(absent_from(a)) =~= Seq::empty()) by {
        reveal(Seq::filter);
    }
    while i < expected.len()
        invariant
            i <= expected.len(),
            e == texts(expected@),
            a == texts(actual@),
            texts(r@) == missing(e.subrange(0, i as int), a),
        decreases expected.len() - i,
    {
        let ghost before = r@;
        assert(e.subrange(0, i + 1) =~= e.subrange(0, i as int).push(e[i as int]));
        proof {
            e.subrange(0, i as int).lemma_filter_push(e[i as int], absent_from(a));
        }
        if !contains_text(actual, &expected[i]) {
            r.push(expected[i].clone());
            assert(texts(r@) =~= texts(before).push(e[i as int]));
        } else {
            assert(texts(r@) =~= texts(before));
        }
        i = i + 1;
    }
    assert(e.subrange(0, expected.len() as int) =~= e);
    r
}

} // verus!
