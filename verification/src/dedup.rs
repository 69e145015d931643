use vstd::prelude::*;
use crate::strings::contains_string;
use crate::strings::strings_view;

verus! {

/// The candidates that are not known, each once, in the order of their
/// first occurrence.
pub open spec fn fresh_ids(candidates: Seq<Seq<char>>, known: Set<Seq<char>>) -> Seq<Seq<char>>
    decreases candidates.len(),
{
    if candidates.len() == 0 {
        Seq::empty()
    } else {
        let rest = fresh_ids(candidates.drop_last(), known);
        let id = candidates.last();
        if known.contains(id) || rest.contains(id) {
            rest
        } else {
            rest.push(id)
        }
    }
}

/// As a set, the fresh ids are the candidates without the known ids, and
/// none of them is listed twice.
pub proof fn lemma_fresh_ids_are_the_difference(candidates: Seq<Seq<char>>, known: Set<Seq<char>>)
    ensures
        fresh_ids(candidates, known).to_set() == candidates.to_set().difference(known),
        fresh_ids(candidates, known).no_duplicates(),
    decreases candidates.len(),
{
    let fresh = fresh_ids(candidates, known);
    if candidates.len() == 0 {
        assert(fresh.to_set() =~= candidates.to_set().difference(known));
    } else {
        let front = candidates.drop_last();
        let id = candidates.last();
        let rest = fresh_ids(front, known);
        lemma_fresh_ids_are_the_difference(front, known);
        assert(candidates =~= front.push(id));
        assert forall|x: Seq<char>| fresh.to_set().contains(x) <==> candidates.to_set().difference(
            known,
        ).contains(x) by {
            if fresh.contains(x) {
                let k = choose|k: int| 0 <= k < fresh.len() && fresh[k] == x;
                if k < rest.len() {
                    assert(rest.contains(x));
                    assert(rest.to_set().contains(x));
                    assert(front.contains(x));
                    let m = choose|m: int| 0 <= m < front.len() && front[m] == x;
                    assert(candidates[m] == x);
                } else {
                    assert(x == id);
                    assert(candidates[candidates.len() - 1] == x);
                }
            }
            if candidates.contains(x) && !known.contains(x) {
                let m = choose|m: int| 0 <= m < candidates.len() && candidates[m] == x;
                if m < front.len() {
                    assert(front[m] == x);
                    assert(front.to_set().difference(known).contains(x));
                    assert(rest.to_set().contains(x));
                    let k = choose|k: int| 0 <= k < rest.len() && rest[k] == x;
                    assert(fresh[k] == x);
                } else {
                    assert(x == id);
                    if rest.contains(id) {
                    } else {
                        assert(fresh[rest.len() as int] == id);
                    }
                }
            }
        }
        assert(fresh.to_set() =~= candidates.to_set().difference(known));
    }
}

/// With no candidates there are no fresh ids, whatever is known.
pub proof fn lemma_no_candidates_no_fresh_ids(known: Set<Seq<char>>)
    ensures
        fresh_ids(Seq::<Seq<char>>::empty(), known) == Seq::<Seq<char>>::empty(),
{
}

/// Only the known ids that are candidates matter.
pub proof fn lemma_fresh_ids_known_among_candidates(
    candidates: Seq<Seq<char>>,
    known: Set<Seq<char>>,
    found: Set<Seq<char>>,
)
    requires
        forall|x: Seq<char>| candidates.contains(x) ==> (known.contains(x) <==> found.contains(x)),
    ensures
        fresh_ids(candidates, known) == fresh_ids(candidates, found),
    decreases candidates.len(),
{
    if candidates.len() > 0 {
        let front = candidates.drop_last();
        assert forall|x: Seq<char>| front.contains(x) implies (known.contains(x)
            <==> found.contains(x)) by {
            let m = choose|m: int| 0 <= m < front.len() && front[m] == x;
            assert(candidates[m] == x);
        }
        lemma_fresh_ids_known_among_candidates(front, known, found);
        assert(candidates[candidates.len() - 1] == candidates.last());
    }
}

/// Filtering what has been filtered changes nothing.
pub proof fn lemma_fresh_ids_idempotent(candidates: Seq<Seq<char>>, known: Set<Seq<char>>)
    ensures
        fresh_ids(fresh_ids(candidates, known), known) == fresh_ids(candidates, known),
    decreases candidates.len(),
{
    if candidates.len() > 0 {
        let front = candidates.drop_last();
        let id = candidates.last();
        let rest = fresh_ids(front, known);
        lemma_fresh_ids_idempotent(front, known);
        if !(known.contains(id) || rest.contains(id)) {
            assert(rest.push(id).drop_last() =~= rest);
        }
    }
}

/// The candidates that are not among the known ids, each once, in the order
/// of their first occurrence.
pub fn new_match_ids(candidates: &Vec<String>, known: &Vec<String>) -> (fresh: Vec<String>)
    ensures
        strings_view(fresh@) == fresh_ids(
            strings_view(candidates@),
            strings_view(known@).to_set(),
        ),
{
    let ghost cv = strings_view(candidates@);
    let ghost ks = strings_view(known@).to_set();
    let mut fresh: Vec<String> = Vec::new();
    let mut i: usize = 0;
    assert(strings_view(fresh@) =~= fresh_ids(cv.take(0), ks));
    while i < candidates.len()
        invariant
            i <= candidates.len(),
            cv == strings_view(candidates@),
            ks == strings_view(known@).to_set(),
            strings_view(fresh@) == fresh_ids(cv.take(i as int), ks),
        decreases candidates.len() - i,
    {
        let id = &candidates[i];
        proof {
            assert(cv.take(i + 1).drop_last() =~= cv.take(i as int));
            assert(cv.take(i + 1).last() == id@);
        }
        let is_known = contains_string(known, id);
        let is_listed = contains_string(&fresh, id);
        if !is_known && !is_listed {
            let ghost before = strings_view(fresh@);
            fresh.push(id.clone());
            assert(strings_view(fresh@) =~= before.push(id@));
        }
        i += 1;
    }
    assert(cv.take(candidates.len() as int) =~= cv);
    fresh
}

} // verus!
