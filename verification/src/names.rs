//! Lists of names compared without regard to order.

use crate::text::texts;
use vstd::prelude::*;

verus! {

/// Whether two lists hold the same names, each as often in one as in the
/// other: the lists are equal once both are sorted.
pub open spec fn same_names(a: Seq<Seq<char>>, b: Seq<Seq<char>>) -> bool {
    a.to_multiset() == b.to_multiset()
}

/// Lists with the same names are equally long and hold the same names:
/// neither holds a name that the other lacks.
pub proof fn lemma_same_names_is_exact(a: Seq<Seq<char>>, b: Seq<Seq<char>>)
    requires
        same_names(a, b),
    ensures
        a.len() == b.len(),
        forall|name: Seq<char>| a.contains(name) <==> b.contains(name),
{
    a.to_multiset_ensures();
    b.to_multiset_ensures();
    assert forall|name: Seq<char>| a.contains(name) <==> b.contains(name) by {
        assert(a.to_multiset().count(name) == b.to_multiset().count(name));
    }
}

/// How often `name` occurs in `names`.
pub fn occurrences(names: &Vec<String>, name: &String) -> (n: usize)
    ensures
        n == texts(names@).to_multiset().count(name@),
{
    let mut n: usize = 0;
    let mut i: usize = 0;
    proof {
        assert(texts(names@).take(0) =~= Seq::<Seq<char>>::empty());
        Seq::<Seq<char>>::empty().to_multiset_ensures();
    }
    while i < names.len()
        invariant
            i <= names.len(),
            n <= i,
            n == texts(names@).take(i as int).to_multiset().count(name@),
        decreases names.len() - i,
    {
        proof {
            let before = texts(names@).take(i as int);
            assert(texts(names@).take(i + 1) =~= before.push(names[i as int]@));
            vstd::seq_lib::to_multiset_build(before, names[i as int]@);
        }
        if names[i] == *name {
            n += 1;
        }
        i += 1;
    }
    assert(texts(names@).take(names.len() as int) =~= texts(names@));
    n
}

/// Whether every name of `a` occurs in `b` as often as in `a`.
fn counted_alike(a: &Vec<String>, b: &Vec<String>) -> (alike: bool)
    ensures
        alike == (forall|k: int|
            0 <= k < a.len() ==> texts(a@).to_multiset().count(#[trigger] a[k]@) == texts(
                b@,
            ).to_multiset().count(a[k]@)),
{
    let mut i: usize = 0;
    while i < a.len()
        invariant
            i <= a.len(),
            forall|k: int|
                0 <= k < i ==> texts(a@).to_multiset().count(#[trigger] a[k]@) == texts(
                    b@,
                ).to_multiset().count(a[k]@),
        decreases a.len() - i,
    {
        if occurrences(a, &a[i]) != occurrences(b, &a[i]) {
            return false;
        }
        i += 1;
    }
    true
}

/// Decides `same_names` of the two lists.
pub fn have_same_names(a: &Vec<String>, b: &Vec<String>) -> (same: bool)
    ensures
        same == same_names(texts(a@), texts(b@)),
{
    let same = counted_alike(a, b) && counted_alike(b, a);
    proof {
        let ma = texts(a@).to_multiset();
        let mb = texts(b@).to_multiset();
        texts(a@).to_multiset_ensures();
        texts(b@).to_multiset_ensures();
        if same {
            assert forall|name: Seq<char>| ma.count(name) == mb.count(name) by {
                if texts(a@).contains(name) {
                    let k = choose|k: int| 0 <= k < a.len() && texts(a@)[k] == name;
                    assert(a[k]@ == name);
                } else if texts(b@).contains(name) {
                    let k = choose|k: int| 0 <= k < b.len() && texts(b@)[k] == name;
                    assert(b[k]@ == name);
                }
            }
            assert(ma =~= mb);
        }
    }
    same
}

} // verus!
