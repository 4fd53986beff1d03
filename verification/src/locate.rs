//! Putting the test files that the patterns matched into one list in which
//! each file stands once.

use vstd::prelude::*;
use crate::text::{same_text, texts};

verus! {

/// The items of `s` without repetitions: each stands where it first occurs.
pub open spec fn first_occurrences(s: Seq<Seq<char>>) -> Seq<Seq<char>>
    decreases s.len(),
{
    if s.len() == 0 {
        Seq::empty()
    } else if s.drop_last().contains(s.last()) {
        first_occurrences(s.drop_last())
    } else {
        first_occurrences(s.drop_last()).push(s.last())
    }
}

/// `first_occurrences` keeps exactly the items that occur.
pub proof fn lemma_first_occurrences_same_items(s: Seq<Seq<char>>, x: Seq<char>)
    ensures
        first_occurrences(s).contains(x) == s.contains(x),
    decreases s.len(),
{
    if s.len() > 0 {
        let front = s.drop_last();
        let kept = first_occurrences(front);
        lemma_first_occurrences_same_items(front, x);
        lemma_first_occurrences_same_items(front, s.last());
        if s.contains(x) {
            let i = choose|i: int| 0 <= i < s.len() && s[i] == x;
            if i < s.len() - 1 {
                assert(front[i] == x);
            }
            if !front.contains(s.last()) {
                if i < s.len() - 1 {
                    let k = choose|k: int| 0 <= k < kept.len() && kept[k] == x;
                    assert(kept.push(s.last())[k] == x);
                } else {
                    assert(kept.push(s.last())[kept.len() as int] == x);
                }
            }
        }
        if first_occurrences(s).contains(x) {
            let k = choose|k: int| 0 <= k < first_occurrences(s).len() && first_occurrences(s)[k] == x;
            if !front.contains(s.last()) && k == kept.len() {
                assert(s[s.len() - 1] == x);
            } else {
                assert(kept[k] == x);
                let i = choose|i: int| 0 <= i < front.len() && front[i] == x;
                assert(s[i] == x);
            }
        }
    }
}

/// No item stands twice in `first_occurrences`.
pub proof fn lemma_first_occurrences_distinct(s: Seq<Seq<char>>)
    ensures
        first_occurrences(s).no_duplicates(),
    decreases s.len(),
{
    if s.len() > 0 {
        let front = s.drop_last();
        lemma_first_occurrences_distinct(front);
        lemma_first_occurrences_same_items(front, s.last());
    }
}

/// Whether `path` is among `seen`.
fn is_among(seen: &Vec<String>, path: &str) -> (r: bool)
    ensures
        r == texts(seen@).contains(path@),
{
    let mut i: usize = 0;
    while i < seen.len()
        invariant
            i <= seen@.len(),
            forall|k: int| 0 <= k < i ==> texts(seen@)[k] != path@,
        decreases seen@.len() - i,
    {
        if same_text(seen[i].as_str(), path) {
            assert(texts(seen@)[i as int] == path@);
            return true;
        }
        i = i + 1;
    }
    false
}

/// The matched files with each one listed once, at the place of its first
/// match: no file is lost, none is added, and the order of first matches
/// stays.
pub fn unique_paths(matched: Vec<String>) -> (r: Vec<String>)
    ensures
        texts(r@) == first_occurrences(texts(matched@)),
        texts(r@).no_duplicates(),
        forall|p: Seq<char>| texts(r@).contains(p) == texts(matched@).contains(p),
{
    let mut out: Vec<String> = Vec::new();
    let mut i: usize = 0;
    assert(texts(matched@).take(0) =~= Seq::<Seq<char>>::empty());
    assert(texts(out@) =~= Seq::<Seq<char>>::empty());
    while i < matched.len()
        invariant
            i <= matched@.len(),
            texts(out@) == first_occurrences(texts(matched@).take(i as int)),
        decreases matched@.len() - i,
    {
        let ghost shown = texts(out@);
        let ghost upto = texts(matched@).take(i + 1);
        proof {
            assert(upto.drop_last() =~= texts(matched@).take(i as int));
            assert(upto.last() == matched@[i as int]@);
            lemma_first_occurrences_same_items(upto.drop_last(), upto.last());
        }
        if !is_among(&out, matched[i].as_str()) {
            out.push(matched[i].clone());
            assert(texts(out@) =~= shown.push(matched@[i as int]@));
        }
        i = i + 1;
    }
    proof {
        assert(texts(matched@).take(i as int) =~= texts(matched@));
        lemma_first_occurrences_distinct(texts(matched@));
        assert forall|p: Seq<char>| texts(out@).contains(p) == texts(matched@).contains(p) by {
            lemma_first_occurrences_same_items(texts(matched@), p);
        }
    }
    out
}

} // verus!
