//! Listing evidence: a listing matches what was prepared when it names the
//! same entries the same number of times, in whatever order it returned
//! them.
use vstd::prelude::*;
use vstd::seq_lib::group_to_multiset_ensures;
use vstd::seq_lib::lemma_multiset_commutative;
use vstd::seq_lib::to_multiset_build;
use vstd::seq_lib::to_multiset_contains;
use vstd::multiset::group_multiset_axioms;

verus! {

/// The texts of a sequence of strings.
pub open spec fn texts(entries: Seq<String>) -> Seq<Seq<char>> {
    entries.map_values(|entry: String| entry@)
}

/// Whether two listings name the same entries the same number of times,
/// whatever their order.
pub open spec fn same_entries_spec(actual: Seq<Seq<char>>, expected: Seq<Seq<char>>) -> bool {
    actual.to_multiset() =~= expected.to_multiset()
}

/// A prefix of a sequence holds each element at most as often as the
/// whole sequence.
proof fn lemma_prefix_count(s: Seq<Seq<char>>, n: int, x: Seq<char>)
    requires
        0 <= n <= s.len(),
    ensures
        s.subrange(0, n).to_multiset().count(x) <= s.to_multiset().count(x),
{
    broadcast use group_multiset_axioms;

    assert(s =~= s.subrange(0, n) + s.subrange(n, s.len() as int));
    lemma_multiset_commutative(s.subrange(0, n), s.subrange(n, s.len() as int));
}

/// Returns whether `actual` names the same entries as `expected`, each the
/// same number of times, in any order.
pub fn same_entries(actual: &Vec<String>, expected: &Vec<String>) -> (same: bool)
    ensures
        same == same_entries_spec(texts(actual@), texts(expected@)),
{
    broadcast use group_to_multiset_ensures;
    broadcast use group_multiset_axioms;

    let ghost all = texts(actual@);
    let ghost wanted = texts(expected@);
    let mut remaining: Vec<String> = Vec::new();
    let mut k: usize = 0;
    while k < expected.len()
        invariant
            k <= expected.len(),
            wanted == texts(expected@),
            texts(remaining@) =~= wanted.subrange(0, k as int),
        decreases expected.len() - k,
    {
        remaining.push(expected[k].clone());
        k = k + 1;
        proof {
            assert(wanted.subrange(0, k as int) =~= wanted.subrange(0, k - 1).push(wanted[k - 1]));
        }
    }
    proof {
        assert(wanted.subrange(0, expected.len() as int) =~= wanted);
    }
    let mut i: usize = 0;
    while i < actual.len()
        invariant
            i <= actual.len(),
            all == texts(actual@),
            wanted == texts(expected@),
            all.subrange(0, i as int).to_multiset().add(texts(remaining@).to_multiset()) =~= wanted.to_multiset(),
        decreases actual.len() - i,
    {
        let mut j: usize = 0;
        let mut found = false;
        while j < remaining.len()
            invariant
                j <= remaining.len(),
                i < actual.len(),
                all == texts(actual@),
                !found ==> forall|m: int| 0 <= m < j ==> texts(remaining@)[m] != all[i as int],
                found ==> j < remaining.len() && texts(remaining@)[j as int] == all[i as int],
            ensures
                found ==> j < remaining.len() && texts(remaining@)[j as int] == all[i as int],
                !found ==> forall|m: int| 0 <= m < remaining.len() ==> texts(remaining@)[m] != all[i as int],
            decreases remaining.len() - j,
        {
            if remaining[j] == actual[i] {
                found = true;
                break;
            }
            proof {
                assert(texts(remaining@)[j as int] != all[i as int]);
            }
            j = j + 1;
        }
        if !found {
            proof {
                let x = all[i as int];
                let rest = texts(remaining@);
                assert(!rest.contains(x));
                to_multiset_contains(rest, x);
                assert(rest.to_multiset().count(x) == 0);
                let before = all.subrange(0, i as int);
                assert(all.subrange(0, i + 1) =~= before.push(x));
                to_multiset_build(before, x);
                assert(before.push(x).to_multiset().count(x) == before.to_multiset().count(x) + 1);
                lemma_prefix_count(all, i + 1, x);
                assert(wanted.to_multiset().count(x) == before.to_multiset().count(x) + rest.to_multiset().count(x));
                assert(all.to_multiset().count(x) > wanted.to_multiset().count(x));
            }
            return false;
        }
        let ghost x = all[i as int];
        let ghost rest = texts(remaining@);
        let ghost before = all.subrange(0, i as int);
        proof {
            assert(rest.contains(x)) by {
                assert(rest[j as int] == x);
            }
            to_multiset_contains(rest, x);
            to_multiset_build(before, x);
            vstd::seq_lib::to_multiset_remove(rest, j as int);
        }
        remaining.remove(j);
        proof {
            assert(texts(remaining@) =~= rest.remove(j as int));
            assert(all.subrange(0, i + 1) =~= before.push(x));
            assert(before.push(x).to_multiset().add(rest.remove(j as int).to_multiset()) =~= before.to_multiset().insert(
                x,
            ).add(rest.to_multiset().remove(x)));
            assert(before.to_multiset().insert(x).add(rest.to_multiset().remove(x)) =~= before.to_multiset().add(
                rest.to_multiset(),
            ));
        }
        i = i + 1;
    }
    proof {
        assert(all.subrange(0, actual.len() as int) =~= all);
    }
    if remaining.len() == 0 {
        proof {
            assert(texts(remaining@) =~= Seq::<Seq<char>>::empty());
        }
        true
    } else {
        proof {
            assert(wanted.to_multiset().len() > all.to_multiset().len());
        }
        false
    }
}

} // verus!
