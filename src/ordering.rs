//! A stable ordering of items by an integer key.

use vstd::prelude::*;

verus! {

/// Item `a` comes before item `b` when ordered by key: a smaller key, or the
/// same key and an earlier index.
pub open spec fn precedes(keys: Seq<u64>, a: usize, b: usize) -> bool {
    keys[a as int] < keys[b as int] || (keys[a as int] == keys[b as int] && a < b)
}

/// Read through `order`, the items come in ascending order of key, and items
/// with equal keys keep their original order.
pub open spec fn ordered_by(keys: Seq<u64>, order: Seq<usize>) -> bool {
    forall|a: int, b: int| 0 <= a < b < order.len() ==> precedes(keys, #[trigger] order[a], #[trigger] order[b])
}

/// `order` lists each index below `n` exactly once.
pub open spec fn lists_each_index(order: Seq<usize>, n: nat) -> bool {
    &&& order.len() == n
    &&& forall|k: int| 0 <= k < n ==> #[trigger] order[k] < n
    &&& forall|a: int, b: int| 0 <= a < b < n ==> #[trigger] order[a] != #[trigger] order[b]
}

/// The first position of `order`, from `from` on, whose item has a key
/// above `key`; the length of `order` if there is none.
pub open spec fn insertion_point(keys: Seq<u64>, order: Seq<usize>, key: u64, from: nat) -> nat
    decreases order.len() - from,
{
    if from >= order.len() {
        order.len()
    } else if keys[order[from as int] as int] > key {
        from
    } else {
        insertion_point(keys, order, key, from + 1)
    }
}

/// The first `n` indices of `keys` sorted by insertion: each index in turn
/// goes after every earlier index whose key is at most its own.
pub open spec fn stable_order(keys: Seq<u64>, n: nat) -> Seq<usize>
    decreases n,
{
    if n == 0 {
        Seq::empty()
    } else {
        let earlier = stable_order(keys, (n - 1) as nat);
        earlier.insert(insertion_point(keys, earlier, keys[n - 1], 0) as int, (n - 1) as usize)
    }
}

/// The indices of `keys` in ascending order of key, ties in their original
/// order.
pub fn sorted_order(keys: &Vec<u64>) -> (r: Vec<usize>)
    ensures
        r@ == stable_order(keys@, keys@.len()),
        lists_each_index(r@, keys@.len()),
        ordered_by(keys@, r@),
{
    let n = keys.len();
    let mut order: Vec<usize> = Vec::new();
    let mut next: usize = 0;
    while next < n
        invariant
            n == keys@.len(),
            next <= n,
            order@ == stable_order(keys@, next as nat),
            lists_each_index(order@, next as nat),
            ordered_by(keys@, order@),
        decreases n - next,
    {
        let key = keys[next];
        let mut pos: usize = 0;
        while pos < order.len() && keys[order[pos]] <= key
            invariant
                n == keys@.len(),
                next < n,
                pos <= order@.len(),
                lists_each_index(order@, next as nat),
                forall|k: int| 0 <= k < pos ==> keys@[#[trigger] order@[k] as int] <= key,
                insertion_point(keys@, order@, key, 0) == insertion_point(keys@, order@, key, pos as nat),
            decreases order@.len() - pos,
        {
            pos += 1;
        }
        assert(pos == insertion_point(keys@, order@, key, 0));
        let ghost old_order = order@;
        proof {
            assert forall|k: int| pos <= k < old_order.len() implies key < keys@[#[trigger] old_order[k] as int] by {
                assert(key < keys@[old_order[pos as int] as int]);
                if k > pos {
                    assert(precedes(keys@, old_order[pos as int], old_order[k]));
                }
            }
            old_order.insert_ensures(pos as int, next);
        }
        order.insert(pos, next);
        assert(order@ == stable_order(keys@, (next + 1) as nat)) by {
            assert(keys@[next as int] == key);
        }
        proof {
            let s = order@;
            assert forall|k: int| 0 <= k < next + 1 implies #[trigger] s[k] < next + 1 by {
                if k > pos {
                    assert(s[k] == old_order[k - 1]);
                }
            }
            assert forall|a: int, b: int| 0 <= a < b < next + 1 implies #[trigger] s[a] != #[trigger] s[b] by {
                if b > pos {
                    assert(s[b] == old_order[b - 1]);
                }
                if a > pos {
                    assert(s[a] == old_order[a - 1]);
                }
            }
            assert forall|a: int, b: int| 0 <= a < b < s.len() implies precedes(keys@, #[trigger] s[a], #[trigger] s[b]) by {
                if b > pos {
                    assert(s[b] == old_order[b - 1]);
                }
                if a > pos {
                    assert(s[a] == old_order[a - 1]);
                }
            }
        }
        next += 1;
    }
    order
}

} // verus!
