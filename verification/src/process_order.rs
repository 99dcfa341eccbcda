//! The order in which a snapshot lists its processes: highest CPU usage
//! first, processes of equal usage in the order in which they were collected.
//!
//! A usage is a 32-bit float, handed over here by its bit pattern; the key
//! below orders bit patterns as the float comparison orders the values they
//! encode (negative zero and positive zero alike), and places NaN patterns
//! beyond the infinities.

use vstd::prelude::*;

verus! {

/// The sort key of a usage given by its bit pattern: the magnitude bits, with
/// the sign of the sign bit.
pub open spec fn cpu_key(bits: u32) -> int {
    if bits >= 0x8000_0000 {
        -((bits - 0x8000_0000) as int)
    } else {
        bits as int
    }
}

/// True when process `a` is listed before process `b`: it uses more CPU, or
/// the same and was collected earlier.
pub open spec fn ranks_before(keys: Seq<u32>, a: usize, b: usize) -> bool {
    cpu_key(keys[a as int]) > cpu_key(keys[b as int]) || (cpu_key(keys[a as int]) == cpu_key(
        keys[b as int],
    ) && a < b)
}

/// True when `order` lists every index of `keys` once, by descending usage and
/// stably.
pub open spec fn is_cpu_order(keys: Seq<u32>, order: Seq<usize>) -> bool {
    &&& order.len() == keys.len()
    &&& forall|i: int| 0 <= i < order.len() ==> #[trigger] order[i] < keys.len()
    &&& forall|k: usize| k < keys.len() ==> order.contains(k)
    &&& forall|i: int, j: int|
        0 <= i < j < order.len() ==> ranks_before(keys, #[trigger] order[i], #[trigger] order[j])
}

/// The sort key of a usage given by its bit pattern.
pub fn cpu_key_of(bits: u32) -> (k: i64)
    ensures
        k == cpu_key(bits),
{
    if bits >= 0x8000_0000 {
        0i64 - ((bits - 0x8000_0000) as i64)
    } else {
        bits as i64
    }
}

/// The indices of the processes whose usages have the bit patterns
/// `cpu_bits`, in the order of the snapshot.
pub fn order_by_cpu_desc(cpu_bits: &[u32]) -> (order: Vec<usize>)
    ensures
        is_cpu_order(cpu_bits@, order@),
{
    let n = cpu_bits.len();
    let mut order: Vec<usize> = Vec::new();
    let mut i: usize = 0;
    while i < n
        invariant
            n == cpu_bits@.len(),
            i <= n,
            order@.len() == i,
            forall|q: int| 0 <= q < order@.len() ==> #[trigger] order@[q] < i,
            forall|k: usize| k < i ==> order@.contains(k),
            forall|a: int, b: int|
                0 <= a < b < order@.len() ==> ranks_before(
                    cpu_bits@,
                    #[trigger] order@[a],
                    #[trigger] order@[b],
                ),
        decreases n - i,
    {
        let key = cpu_key_of(cpu_bits[i]);
        let mut p: usize = 0;
        let mut hi: usize = order.len();
        while p < hi
            invariant
                n == cpu_bits@.len(),
                i < n,
                key == cpu_key(cpu_bits@[i as int]),
                p <= hi <= order@.len(),
                forall|q: int| 0 <= q < order@.len() ==> #[trigger] order@[q] < i,
                forall|a: int, b: int|
                    0 <= a < b < order@.len() ==> ranks_before(
                        cpu_bits@,
                        #[trigger] order@[a],
                        #[trigger] order@[b],
                    ),
                forall|q: int|
                    0 <= q < p ==> cpu_key(cpu_bits@[#[trigger] order@[q] as int]) >= key,
                forall|q: int|
                    hi <= q < order@.len() ==> cpu_key(cpu_bits@[#[trigger] order@[q] as int])
                        < key,
            decreases hi - p,
        {
            let mid = p + (hi - p) / 2;
            if cpu_key_of(cpu_bits[order[mid]]) >= key {
                assert forall|q: int| 0 <= q < mid + 1 implies cpu_key(
                    cpu_bits@[#[trigger] order@[q] as int],
                ) >= key by {
                    if q < mid {
                        assert(ranks_before(cpu_bits@, order@[q], order@[mid as int]));
                    }
                }
                p = mid + 1;
            } else {
                assert forall|q: int| mid <= q < order@.len() implies cpu_key(
                    cpu_bits@[#[trigger] order@[q] as int],
                ) < key by {
                    if q > mid {
                        assert(ranks_before(cpu_bits@, order@[mid as int], order@[q]));
                    }
                }
                hi = mid;
            }
        }
        let ghost before = order@;
        order.insert(p, i);
        proof {
            let keys = cpu_bits@;
            let after = order@;
            assert(after =~= before.insert(p as int, i));
            assert forall|a: int, b: int| 0 <= a < b < after.len() implies ranks_before(
                keys,
                #[trigger] after[a],
                #[trigger] after[b],
            ) by {
                if b < p {
                    assert(after[a] == before[a] && after[b] == before[b]);
                } else if b == p {
                    assert(after[a] == before[a]);
                    assert(cpu_key(keys[before[a] as int]) >= key);
                } else if a < p {
                    assert(after[a] == before[a] && after[b] == before[b - 1]);
                    assert(ranks_before(keys, before[a], before[b - 1]));
                } else if a == p {
                    assert(after[b] == before[b - 1]);
                    assert(cpu_key(keys[before[p as int] as int]) < key);
                    if b - 1 > p {
                        assert(ranks_before(keys, before[p as int], before[b - 1]));
                    }
                } else {
                    assert(after[a] == before[a - 1] && after[b] == before[b - 1]);
                    assert(ranks_before(keys, before[a - 1], before[b - 1]));
                }
            }
            assert forall|q: int| 0 <= q < after.len() implies #[trigger] after[q] < i + 1 by {
                if q < p {
                    assert(after[q] == before[q]);
                } else if q > p {
                    assert(after[q] == before[q - 1]);
                }
            }
            assert forall|k: usize| k < i + 1 implies after.contains(k) by {
                if k == i {
                    assert(after[p as int] == i);
                } else {
                    assert(before.contains(k));
                    let j = choose|j: int| 0 <= j < before.len() && before[j] == k;
                    if j < p {
                        assert(after[j] == k);
                    } else {
                        assert(after[j + 1] == k);
                    }
                }
            }
        }
        i = i + 1;
    }
    order
}

} // verus!
