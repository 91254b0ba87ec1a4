//! Picking the processes that use the most memory.

use vstd::prelude::*;
use vstd::set_lib::{lemma_int_range, lemma_len_subset, set_int_range};

verus! {

/// Whether entry `i` comes before entry `j` when entries are listed by
/// decreasing memory, equal amounts keeping their order (a stable sort).
pub open spec fn ranks_before(mem: Seq<u64>, i: int, j: int) -> bool {
    mem[i] > mem[j] || (mem[i] == mem[j] && i < j)
}

/// Whether `r` lists, best first, the `min(n, mem.len())` entries that come
/// first when `mem` is sorted stably by decreasing memory.
pub open spec fn is_top_by_memory(mem: Seq<u64>, n: nat, r: Seq<usize>) -> bool {
    &&& r.len() == (if n < mem.len() { n } else { mem.len() })
    &&& forall|a: int| 0 <= a < r.len() ==> (#[trigger] r[a]) < mem.len()
    &&& forall|a: int, b: int| 0 <= a < b < r.len() ==> ranks_before(mem, #[trigger] r[a] as int, #[trigger] r[b] as int)
    &&& forall|a: int, j: int| 0 <= a < r.len() && 0 <= j < mem.len() && !r.contains(j as usize)
        ==> #[trigger] ranks_before(mem, r[a] as int, j)
}

/// Lists the positions of the `n` entries of `mem` with the most memory, most
/// first; equal amounts keep their order. This is the first `n` entries of a
/// stable sort by decreasing memory.
pub fn largest_by_memory(mem: &Vec<u64>, n: usize) -> (r: Vec<usize>)
    ensures
        is_top_by_memory(mem@, n as nat, r@),
{
    let len = mem.len();
    let want = if n < len { n } else { len };
    let mut r: Vec<usize> = Vec::new();
    let mut taken: Vec<bool> = Vec::new();
    let mut t: usize = 0;
    while t < len
        invariant
            t <= len,
            len == mem@.len(),
            taken@.len() == t,
            forall|j: int| 0 <= j < t ==> !taken@[j],
        decreases len - t,
    {
        taken.push(false);
        t = t + 1;
    }
    while r.len() < want
        invariant
            len == mem@.len(),
            want <= len,
            want == (if n < len { n } else { len }),
            r@.len() <= want,
            taken@.len() == len,
            forall|j: int| 0 <= j < len ==> (taken@[j] <==> r@.contains(j as usize)),
            forall|a: int| 0 <= a < r@.len() ==> (#[trigger] r@[a]) < len,
            forall|a: int, b: int| 0 <= a < b < r@.len() ==> ranks_before(mem@, #[trigger] r@[a] as int, #[trigger] r@[b] as int),
            forall|a: int, j: int| 0 <= a < r@.len() && 0 <= j < len && !r@.contains(j as usize)
                ==> #[trigger] ranks_before(mem@, r@[a] as int, j),
        decreases want - r@.len(),
    {
        proof {
            lemma_some_free(r@, len as nat);
        }
        let ghost free = choose|j: int| 0 <= j < len && #[trigger] is_free(r@, j);
        let mut best: usize = len;
        let mut j: usize = 0;
        while j < len
            invariant
                len == mem@.len(),
                taken@.len() == len,
                forall|i: int| 0 <= i < len ==> (taken@[i] <==> r@.contains(i as usize)),
                0 <= free < len,
                !r@.contains(free as usize),
                j <= len,
                best == len || (best < j && !taken@[best as int]),
                best == len ==> forall|i: int| 0 <= i < j ==> taken@[i],
                best < len ==> forall|i: int| 0 <= i < j && !taken@[i] && i != best ==> ranks_before(mem@, best as int, i),
            decreases len - j,
        {
            if !taken[j] {
                if best == len || mem[j] > mem[best] {
                    best = j;
                }
            }
            j = j + 1;
        }
        assert(best < len) by {
            if best == len {
                assert(taken@[free]);
            }
        }
        let ghost old_r = r@;
        r.push(best);
        taken.set(best, true);
        proof {
            assert forall|i: int| 0 <= i < len implies (taken@[i] <==> r@.contains(i as usize)) by {
                if r@.contains(i as usize) && i != best {
                    let k = choose|k: int| 0 <= k < r@.len() && r@[k] == i as usize;
                    assert(old_r[k] == i as usize);
                }
                if old_r.contains(i as usize) {
                    let k = choose|k: int| 0 <= k < old_r.len() && old_r[k] == i as usize;
                    assert(r@[k] == i as usize);
                }
                if i == best {
                    assert(r@[old_r.len() as int] == best);
                }
            }
            assert forall|a: int, b: int| 0 <= a < b < r@.len() implies ranks_before(mem@, #[trigger] r@[a] as int, #[trigger] r@[b] as int) by {
                if b == old_r.len() {
                    assert(r@[a] == old_r[a]);
                    assert(!old_r.contains(best));
                }
            }
            assert forall|a: int, i: int| 0 <= a < r@.len() && 0 <= i < len && !r@.contains(i as usize)
                implies #[trigger] ranks_before(mem@, r@[a] as int, i) by {
                assert(i != best) by {
                    assert(r@[old_r.len() as int] == best);
                }
                if old_r.contains(i as usize) {
                    let k = choose|k: int| 0 <= k < old_r.len() && old_r[k] == i as usize;
                    assert(r@[k] == i as usize);
                }
                if a == old_r.len() {
                    assert(!taken@[i]);
                } else {
                    assert(r@[a] == old_r[a]);
                }
            }
        }
    }
    r
}

/// Position `j` is not in the list `r`.
pub open spec fn is_free(r: Seq<usize>, j: int) -> bool {
    !r.contains(j as usize)
}

/// A list of fewer than `len` positions, all below `len`, misses one of them.
proof fn lemma_some_free(r: Seq<usize>, len: nat)
    requires
        r.len() < len,
        len <= usize::MAX,
    ensures
        exists|j: int| 0 <= j < len && #[trigger] is_free(r, j),
{
    let s = r.map_values(|x: usize| x as int);
    let listed = s.to_set();
    s.lemma_cardinality_of_set();
    lemma_int_range(0, len as int);
    if forall|j: int| 0 <= j < len ==> !#[trigger] is_free(r, j) {
        assert(set_int_range(0, len as int).subset_of(listed)) by {
            assert forall|j: int| set_int_range(0, len as int).contains(j) implies listed.contains(j) by {
                assert(!is_free(r, j));
                let k = choose|k: int| 0 <= k < r.len() && r[k] == j as usize;
                assert(s[k] == j);
            }
        }
        lemma_len_subset(set_int_range(0, len as int), listed);
        assert(false);
    }
}

} // verus!
