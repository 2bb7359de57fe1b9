//! Putting things in order.

use vstd::prelude::*;

verus! {

/// Something with a place in an order; what has the lower rank goes first.
pub trait Ranked: Sized {
    spec fn rank(&self) -> int;

    fn goes_before(&self, other: &Self) -> (yes: bool)
        ensures
            yes == (self.rank() < other.rank()),
    ;
}

/// The items of one rank.
pub open spec fn alike<T: Ranked>(items: Seq<T>, rank: int) -> Seq<T> {
    items.filter(|c: T| c.rank() == rank)
}

/// Whether no item stands behind one of higher rank.
pub open spec fn in_order<T: Ranked>(items: Seq<T>) -> bool {
    forall|i: int, j: int|
        0 <= i < j < items.len() ==> (#[trigger] items[i]).rank() <= (#[trigger] items[j]).rank()
}

/// Whether `sorted` holds the items in the order of their ranks, those of one
/// rank as they stood.
pub open spec fn ranked<T: Ranked>(sorted: Seq<T>, items: Seq<T>) -> bool {
    &&& in_order(sorted)
    &&& sorted.len() == items.len()
    &&& forall|rank: int| #[trigger] alike(sorted, rank) == alike(items, rank)
}

proof fn lemma_alike_add<T: Ranked>(a: Seq<T>, b: Seq<T>, rank: int)
    ensures
        alike(a + b, rank) == alike(a, rank) + alike(b, rank),
{
    Seq::filter_distributes_over_add(a, b, |c: T| c.rank() == rank);
}

proof fn lemma_alike_one<T: Ranked>(c: T, rank: int)
    ensures
        alike(seq![c], rank) == if c.rank() == rank {
            seq![c]
        } else {
            Seq::<T>::empty()
        },
{
    reveal_with_fuel(Seq::filter, 2);
    assert(seq![c].drop_last() =~= Seq::<T>::empty());
    assert(alike(seq![c], rank) =~= if c.rank() == rank {
        seq![c]
    } else {
        Seq::<T>::empty()
    });
}

proof fn lemma_none_alike<T: Ranked>(s: Seq<T>, rank: int)
    requires
        forall|i: int| 0 <= i < s.len() ==> (#[trigger] s[i]).rank() != rank,
    ensures
        alike(s, rank) == Seq::<T>::empty(),
    decreases s.len(),
{
    reveal(Seq::filter);
    if s.len() > 0 {
        let rest = s.drop_last();
        assert forall|i: int| 0 <= i < rest.len() implies (#[trigger] rest[i]).rank() != rank by {
            assert(rest[i] == s[i]);
        }
        lemma_none_alike(rest, rank);
        assert(s.last() == s[s.len() - 1]);
    }
}

/// Putting `c` into items in order, behind those of lower rank, puts it in front
/// of all that are alike.
proof fn lemma_inserted<T: Ranked>(sorted: Seq<T>, rest: Seq<T>, c: T, k: int)
    requires
        ranked(sorted, rest),
        0 <= k <= sorted.len(),
        forall|i: int| 0 <= i < k ==> (#[trigger] sorted[i]).rank() < c.rank(),
        k < sorted.len() ==> sorted[k].rank() >= c.rank(),
    ensures
        ranked(sorted.insert(k, c), seq![c] + rest),
{
    let front = sorted.take(k);
    let back = sorted.skip(k);
    let after = sorted.insert(k, c);
    assert(sorted =~= front + back);
    assert(after =~= front + (seq![c] + back));
    assert forall|rank: int| #[trigger] alike(after, rank) == alike(seq![c] + rest, rank) by {
        lemma_alike_add(front, seq![c] + back, rank);
        lemma_alike_add(seq![c], back, rank);
        lemma_alike_add(seq![c], rest, rank);
        lemma_alike_add(front, back, rank);
        lemma_alike_one(c, rank);
        assert(alike(sorted, rank) == alike(rest, rank));
        if c.rank() == rank {
            assert forall|i: int| 0 <= i < front.len() implies (#[trigger] front[i]).rank()
                != rank by {
                assert(front[i] == sorted[i]);
            }
            lemma_none_alike(front, rank);
            assert(alike(after, rank) =~= seq![c] + alike(back, rank));
            assert(alike(sorted, rank) =~= alike(back, rank));
        } else {
            assert(alike(after, rank) =~= alike(front, rank) + alike(back, rank));
            assert(alike(seq![c] + rest, rank) =~= alike(rest, rank));
        }
    }
    assert forall|i: int, j: int| 0 <= i < j < after.len() implies (#[trigger] after[i]).rank() <= (
    #[trigger] after[j]).rank() by {
        let a = if i < k {
            i
        } else {
            i - 1
        };
        let b = if j < k {
            j
        } else {
            j - 1
        };
        if i != k && j != k {
            assert(after[i] == sorted[a] && after[j] == sorted[b]);
        } else if j == k {
            assert(after[i] == sorted[i]);
        } else {
            assert(after[j] == sorted[b]);
            if b > k {
                assert(sorted[k].rank() <= sorted[b].rank());
            }
        }
    }
}

/// Put items into the order of their ranks; those of one rank stay as they stood.
pub fn sort_ranked<T: Ranked>(items: Vec<T>) -> (sorted: Vec<T>)
    ensures
        ranked(sorted@, items@),
{
    let ghost all = items@;
    let mut left = items;
    let mut sorted: Vec<T> = Vec::new();
    assert(all.skip(all.len() as int) =~= Seq::<T>::empty());
    while left.len() > 0
        invariant
            left@.len() <= all.len(),
            left@ == all.take(left@.len() as int),
            ranked(sorted@, all.skip(left@.len() as int)),
        decreases left@.len(),
    {
        let ghost n = left@.len() as int;
        let c = match left.pop() {
            Some(c) => c,
            None => {
                return sorted;
            },
        };
        assert(left@ =~= all.take(n - 1));
        assert(c == all[n - 1]);
        let mut k: usize = 0;
        while k < sorted.len() && sorted[k].goes_before(&c)
            invariant
                k <= sorted@.len(),
                forall|i: int| 0 <= i < k ==> (#[trigger] sorted@[i]).rank() < c.rank(),
            decreases sorted@.len() - k,
        {
            k = k + 1;
        }
        proof {
            lemma_inserted(sorted@, all.skip(n), c, k as int);
            assert(seq![c] + all.skip(n) =~= all.skip(n - 1));
        }
        sorted.insert(k, c);
    }
    assert(all.skip(0) =~= all);
    sorted
}

/// There is one such order: the first item is the first of the lowest rank.
pub proof fn order_is_unique<T: Ranked>(one: Seq<T>, other: Seq<T>, items: Seq<T>)
    requires
        ranked(one, items),
        ranked(other, items),
    ensures
        one == other,
    decreases items.len(),
{
    lemma_same_groups_same_order(one, other);
}

proof fn lemma_last_of_group<T: Ranked>(s: Seq<T>, rank: int)
    requires
        s.len() > 0,
        s.last().rank() == rank,
    ensures
        alike(s, rank).len() > 0,
        alike(s, rank).last() == s.last(),
        alike(s.drop_last(), rank) == alike(s, rank).drop_last(),
{
    reveal(Seq::filter);
    assert(alike(s, rank) =~= alike(s.drop_last(), rank).push(s.last()));
    assert(alike(s, rank).drop_last() =~= alike(s.drop_last(), rank));
}

proof fn lemma_in_group<T: Ranked>(s: Seq<T>, i: int)
    requires
        0 <= i < s.len(),
    ensures
        alike(s, s[i].rank()).len() > 0,
    decreases s.len(),
{
    reveal(Seq::filter);
    let rank = s[i].rank();
    if i == s.len() - 1 {
        lemma_last_of_group(s, rank);
    } else {
        lemma_in_group(s.drop_last(), i);
    }
}

proof fn lemma_group_has_member<T: Ranked>(s: Seq<T>, rank: int) -> (i: int)
    requires
        alike(s, rank).len() > 0,
    ensures
        0 <= i < s.len(),
        s[i].rank() == rank,
    decreases s.len(),
{
    reveal(Seq::filter);
    if s.last().rank() == rank {
        s.len() - 1
    } else {
        lemma_group_has_member(s.drop_last(), rank)
    }
}

proof fn lemma_same_groups_same_order<T: Ranked>(one: Seq<T>, other: Seq<T>)
    requires
        in_order(one),
        in_order(other),
        one.len() == other.len(),
        forall|rank: int| #[trigger] alike(one, rank) == alike(other, rank),
    ensures
        one == other,
    decreases one.len(),
{
    if one.len() > 0 {
        let a = one.last().rank();
        let b = other.last().rank();
        lemma_in_group(one, one.len() - 1);
        lemma_in_group(other, other.len() - 1);
        assert(alike(one, a) == alike(other, a));
        assert(alike(one, b) == alike(other, b));
        let i = lemma_group_has_member(other, a);
        let j = lemma_group_has_member(one, b);
        assert(a <= b) by {
            if i < other.len() - 1 {
                assert(other[i].rank() <= other[other.len() - 1].rank());
            }
        }
        assert(b <= a) by {
            if j < one.len() - 1 {
                assert(one[j].rank() <= one[one.len() - 1].rank());
            }
        }
        lemma_last_of_group(one, a);
        lemma_last_of_group(other, a);
        let x = one.drop_last();
        let y = other.drop_last();
        assert forall|rank: int| #[trigger] alike(x, rank) == alike(y, rank) by {
            assert(alike(one, rank) == alike(other, rank));
            if rank != a {
                reveal(Seq::filter);
            }
        }
        assert(in_order(x)) by {
            assert forall|p: int, q: int| 0 <= p < q < x.len() implies (#[trigger] x[p]).rank() <= (
            #[trigger] x[q]).rank() by {
                assert(x[p] == one[p] && x[q] == one[q]);
            }
        }
        assert(in_order(y)) by {
            assert forall|p: int, q: int| 0 <= p < q < y.len() implies (#[trigger] y[p]).rank() <= (
            #[trigger] y[q]).rank() by {
                assert(y[p] == other[p] && y[q] == other[q]);
            }
        }
        lemma_same_groups_same_order(x, y);
        assert(one =~= x.push(one.last()));
        assert(other =~= y.push(other.last()));
    } else {
        assert(one =~= other);
    }
}

} // verus!
