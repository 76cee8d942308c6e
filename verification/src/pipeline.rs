//! Assigning events to a pipeline: the links to drop and to add so that the
//! pipeline ends up linked to exactly the requested events.
use std::collections::HashSet;
use vstd::prelude::*;

verus! {

broadcast use vstd::std_specs::hash::group_hash_axioms;

/// The set of the ids in `v`.
pub fn id_set(v: &Vec<u128>) -> (s: HashSet<u128>)
    ensures
        s@ == v@.to_set(),
{
    let mut s: HashSet<u128> = HashSet::new();
    let mut i: usize = 0;
    while i < v.len()
        invariant
            i <= v@.len(),
            s@ == v@.subrange(0, i as int).to_set(),
        decreases v@.len() - i,
    {
        proof {
            assert(v@.subrange(0, i + 1) =~= v@.subrange(0, i as int).push(v@[i as int]));
            v@.subrange(0, i as int).lemma_push_to_set_commute(v@[i as int]);
        }
        s.insert(v[i]);
        i = i + 1;
    }
    assert(v@.subrange(0, v@.len() as int) =~= v@);
    s
}

/// The ids of `a` that are not in `b`, each once, in the order `a` is walked.
pub fn set_difference(a: &HashSet<u128>, b: &HashSet<u128>) -> (d: Vec<u128>)
    ensures
        d@.to_set() == a@.difference(b@),
        d@.no_duplicates(),
{
    let mut d: Vec<u128> = Vec::new();
    for x in it: a.iter()
        invariant
            it.seq().unref().to_set() == a@,
            it.seq().unref().no_duplicates(),
            d@.to_set() == it.seq().unref().take(it.index() as int).to_set().difference(b@),
            d@.no_duplicates(),
            it.index() == it.seq().len() ==> d@.to_set() == a@.difference(b@),
    {
        let ghost s = it.seq().unref();
        let ghost i = it.index() as int;
        proof {
            assert(s.take(i + 1) =~= s.take(i).push(*x));
            s.take(i).lemma_push_to_set_commute(*x);
            assert(!s.take(i).contains(*x)) by {
                if s.take(i).contains(*x) {
                    let k = choose|k: int| 0 <= k < i && s.take(i)[k] == *x;
                    assert(s[k] == s[i]);
                }
            }
        }
        if !b.contains(x) {
            proof {
                assert(!d@.to_set().contains(*x));
                d@.lemma_push_to_set_commute(*x);
            }
            d.push(*x);
        }
        proof {
            assert(d@.to_set() =~= s.take(i + 1).to_set().difference(b@));
            assert(s.take(s.len() as int) =~= s);
        }
    }
    d
}

/// The links to delete (currently linked, not requested) and to add
/// (requested, not yet linked).
pub fn assignment_changes(current: &Vec<u128>, requested: &Vec<u128>) -> (changes: (Vec<u128>, Vec<u128>))
    ensures
        changes.0@.to_set() == current@.to_set().difference(requested@.to_set()),
        changes.1@.to_set() == requested@.to_set().difference(current@.to_set()),
        changes.0@.no_duplicates(),
        changes.1@.no_duplicates(),
{
    let current_ids = id_set(current);
    let new_ids = id_set(requested);
    (set_difference(&current_ids, &new_ids), set_difference(&new_ids, &current_ids))
}

/// Dropping the links to delete and adding the links to add leaves exactly
/// the requested events linked.
pub proof fn lemma_assignment_reaches_request(current: Set<u128>, requested: Set<u128>)
    ensures
        current.difference(current.difference(requested)).union(requested.difference(current))
            == requested,
{
    assert(current.difference(current.difference(requested)).union(requested.difference(current))
        =~= requested);
}

} // verus!
