//! Putting things in order.

use vstd::prelude::*;

verus! {

/// Whether the thing at `a` comes before the thing at `b`: by the keys, from
/// the smallest on or from the largest, and by the positions where the keys
/// are the same.
pub open spec fn precedes(keys: Seq<u128>, largest_first: bool, a: int, b: int) -> bool {
    if keys[a] == keys[b] {
        a < b
    } else if largest_first {
        keys[a] > keys[b]
    } else {
        keys[a] < keys[b]
    }
}

/// Whether positions are in order.
pub open spec fn in_order(keys: Seq<u128>, largest_first: bool, r: Seq<usize>) -> bool {
    forall|i: int, j: int|
        0 <= i < j < r.len() ==> precedes(
            keys,
            largest_first,
            #[trigger] r[i] as int,
            #[trigger] r[j] as int,
        )
}

/// Puts the positions of keys in order; every position is listed.
pub fn order_by(keys: &[u128], largest_first: bool) -> (r: Vec<usize>)
    ensures
        in_order(keys@, largest_first, r@),
        r@.len() == keys@.len(),
        forall|i: int| 0 <= i < r@.len() ==> (#[trigger] r@[i]) < keys@.len(),
        forall|k: usize| k < keys@.len() ==> r@.contains(k),
{
    let mut r: Vec<usize> = Vec::new();
    let mut k: usize = 0;
    while k < keys.len()
        invariant
            k <= keys@.len(),
            r@.len() == k,
            in_order(keys@, largest_first, r@),
            forall|i: int| 0 <= i < r@.len() ==> (#[trigger] r@[i]) < k,
            forall|x: usize| x < k ==> r@.contains(x),
        decreases keys@.len() - k,
    {
        let key: u128 = keys[k];
        let mut i: usize = r.len();
        while i > 0 && ((largest_first && keys[r[i - 1]] < key) || (!largest_first
            && keys[r[i - 1]] > key))
            invariant
                i <= r@.len(),
                k < keys@.len(),
                key == keys@[k as int],
                forall|j: int| 0 <= j < r@.len() ==> (#[trigger] r@[j]) < k,
                forall|j: int|
                    i <= j < r@.len() ==> precedes(
                        keys@,
                        largest_first,
                        k as int,
                        #[trigger] r@[j] as int,
                    ),
            decreases i,
        {
            i = i - 1;
        }
        let ghost before = r@;
        r.insert(i, k);
        proof {
            assert(r@ =~= before.insert(i as int, k));
            assert forall|a: int, b: int| 0 <= a < b < r@.len() implies precedes(
                keys@,
                largest_first,
                #[trigger] r@[a] as int,
                #[trigger] r@[b] as int,
            ) by {
                if b == i {
                    assert(r@[a] == before[a]);
                    assert(precedes(keys@, largest_first, before[i - 1] as int, k as int));
                    if a < i - 1 {
                        assert(precedes(
                            keys@,
                            largest_first,
                            before[a] as int,
                            before[i - 1] as int,
                        ));
                    }
                } else if a == i {
                    assert(r@[b] == before[b - 1]);
                } else {
                    let a0 = if a < i {
                        a
                    } else {
                        a - 1
                    };
                    let b0 = if b < i {
                        b
                    } else {
                        b - 1
                    };
                    assert(r@[a] == before[a0] && r@[b] == before[b0]);
                }
            }
            assert forall|x: usize| x < k + 1 implies r@.contains(x) by {
                if x == k {
                    assert(r@[i as int] == k);
                } else {
                    assert(before.contains(x));
                    let j = choose|j: int| 0 <= j < before.len() && before[j] == x;
                    if j < i {
                        assert(r@[j] == x);
                    } else {
                        assert(r@[j + 1] == x);
                    }
                }
            }
        }
        k = k + 1;
    }
    r
}

} // verus!
