//! Ordering of listing results: an in-place sort by container id, with
//! the permutation stated as multiset equality of the models.

use vstd::prelude::*;
use vstd::seq_lib::group_to_multiset_ensures;
use crate::container::Container;
use crate::container::ContainerModel;
use crate::container::models;

verus! {

/// Ascending order by container id.
pub open spec fn sorted_by_vmid(s: Seq<ContainerModel>) -> bool {
    forall|i: int, j: int| 0 <= i < j < s.len() ==> s[i].vmid <= s[j].vmid
}

proof fn lemma_models_remove(s: Seq<Container>, i: int)
    requires
        0 <= i < s.len(),
    ensures
        models(s.remove(i)) =~= models(s).remove(i),
{
}

proof fn lemma_models_insert(s: Seq<Container>, i: int, c: Container)
    requires
        0 <= i <= s.len(),
    ensures
        models(s.insert(i, c)) =~= models(s).insert(i, c@),
{
}

/// Two sequences with the same multiset of elements satisfy the same
/// pointwise predicates.
pub proof fn lemma_multiset_pointwise(
    p: spec_fn(ContainerModel) -> bool,
    a: Seq<ContainerModel>,
    b: Seq<ContainerModel>,
)
    requires
        a.to_multiset() == b.to_multiset(),
        forall|i: int| 0 <= i < a.len() ==> #[trigger] p(a[i]),
    ensures
        forall|j: int| 0 <= j < b.len() ==> #[trigger] p(b[j]),
{
    broadcast use group_to_multiset_ensures;

    assert forall|j: int| 0 <= j < b.len() implies #[trigger] p(b[j]) by {
        assert(b.contains(b[j]));
        assert(a.to_multiset().count(b[j]) > 0);
        assert(a.contains(b[j]));
        let i = choose|i: int| 0 <= i < a.len() && a[i] == b[j];
        assert(p(a[i]));
    }
}

/// Sorts the containers in place, ascending by vmid.  The result holds
/// exactly the entries that went in: duplicate vmids keep their count.
pub fn sort_by_vmid(v: &mut Vec<Container>)
    ensures
        final(v)@.len() == old(v)@.len(),
        models(final(v)@).to_multiset() == models(old(v)@).to_multiset(),
        sorted_by_vmid(models(final(v)@)),
{
    broadcast use group_to_multiset_ensures;

    if v.len() == 0 {
        return ;
    }
    let mut i: usize = 1;
    while i < v.len()
        invariant
            1 <= i <= v@.len(),
            v@.len() == old(v)@.len(),
            models(v@).to_multiset() == models(old(v)@).to_multiset(),
            sorted_by_vmid(models(v@).take(i as int)),
        decreases v@.len() - i,
    {
        let ghost s0 = v@;
        let x = v.remove(i);
        let ghost s1 = v@;
        let mut p: usize = 0;
        while p < i && v[p].vmid <= x.vmid
            invariant
                p <= i,
                i < s0.len(),
                v@ == s1,
                s1 == s0.remove(i as int),
                forall|q: int| 0 <= q < p ==> models(s1)[q].vmid <= x@.vmid,
            decreases i - p,
        {
            p += 1;
        }
        v.insert(p, x);
        proof {
            let ghost s2 = v@;
            lemma_models_remove(s0, i as int);
            lemma_models_insert(s1, p as int, x);
            broadcast use vstd::multiset::group_multiset_axioms;

            assert(models(s0)[i as int] == x@);
            assert(models(s0).contains(x@));
            vstd::seq_lib::to_multiset_remove(models(s0), i as int);
            vstd::seq_lib::to_multiset_insert(models(s1), p as int, x@);
            assert(models(s1).to_multiset() == models(s0).to_multiset().remove(x@));
            assert(models(s2).to_multiset() == models(s0).to_multiset().remove(x@).insert(x@));
            vstd::seq_lib::to_multiset_contains(models(s0), x@);
            assert(models(s0).to_multiset().count(x@) > 0);
            assert forall|y: ContainerModel|
                models(s2).to_multiset().count(y) == models(s0).to_multiset().count(y) by {}
            assert(models(s2).to_multiset() =~= models(s0).to_multiset());
            // the freshly placed element fits between its neighbours
            assert forall|a: int, b: int| 0 <= a < b <= i implies models(s2)[a].vmid <= models(
                s2,
            )[b].vmid by {
                if b < p {
                    assert(models(s2)[a] == models(s1)[a]);
                    assert(models(s2)[b] == models(s1)[b]);
                    assert(models(s1)[a] == models(s0)[a]);
                    assert(models(s1)[b] == models(s0)[b]);
                } else if b == p {
                    assert(models(s2)[a] == models(s1)[a]);
                    assert(models(s2)[b] == x@);
                } else {
                    assert(models(s2)[b] == models(s1)[b - 1]);
                    assert(p < i ==> models(s1)[p as int].vmid > x@.vmid);
                    if a < p {
                        assert(models(s2)[a] == models(s1)[a]);
                        assert(models(s1)[a] == models(s0)[a]);
                        assert(models(s1)[b - 1] == models(s0)[b - 1]);
                    } else if a == p {
                        assert(models(s2)[a] == x@);
                        assert(models(s1)[b - 1] == models(s0)[b - 1]);
                        assert(models(s1)[p as int] == models(s0)[p as int]);
                    } else {
                        assert(models(s2)[a] == models(s1)[a - 1]);
                        assert(models(s1)[a - 1] == models(s0)[a - 1]);
                        assert(models(s1)[b - 1] == models(s0)[b - 1]);
                    }
                }
            }
            assert(sorted_by_vmid(models(s2).take(i as int + 1)));
        }
        i += 1;
    }
    proof {
        assert(models(v@).take(v@.len() as int) =~= models(v@));
    }
}

} // verus!
