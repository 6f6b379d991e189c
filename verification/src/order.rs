//! The `order` property: children are laid out by ascending `order`, and
//! children with equal `order` keep their place in the source (a stable
//! sort).

use vstd::prelude::*;
use crate::config::{leaves, leaves_of, size, sizes_of, NodeConfig};

verus! {

/// Inserts child index `j` into `s`, after every index whose child has an
/// `order` no greater than child `j`'s.
pub open spec fn insert_by_order(s: Seq<usize>, j: usize, kids: Seq<NodeConfig>) -> Seq<usize>
    decreases s.len(),
{
    if s.len() == 0 {
        seq![j]
    } else if kids[s[s.len() - 1] as int].order <= kids[j as int].order {
        s.push(j)
    } else {
        insert_by_order(s.subrange(0, s.len() - 1), j, kids).push(s[s.len() - 1])
    }
}

/// The first `n` child indices, sorted by `order` (stable).
pub open spec fn order_sorted(kids: Seq<NodeConfig>, n: nat) -> Seq<usize>
    decreases n,
{
    if n == 0 {
        Seq::empty()
    } else {
        insert_by_order(order_sorted(kids, (n - 1) as nat), (n - 1) as usize, kids)
    }
}

/// All child indices, in the order in which the children are laid out.
pub open spec fn sorted_indices(kids: Seq<NodeConfig>) -> Seq<usize> {
    order_sorted(kids, kids.len())
}

/// Whether `s` lists child indices by ascending `order`, equal orders by
/// ascending index.
pub open spec fn is_order_sorted(s: Seq<usize>, kids: Seq<NodeConfig>) -> bool {
    forall|a: int, b: int|
        0 <= a < b < s.len() ==> {
            ||| kids[s[a] as int].order < kids[s[b] as int].order
            ||| kids[s[a] as int].order == kids[s[b] as int].order && s[a] < s[b]
        }
}

/// Whether `s` lists each of the indices `0..n` exactly once.
pub open spec fn is_index_permutation(s: Seq<usize>, n: nat) -> bool {
    &&& s.len() == n
    &&& forall|a: int| 0 <= a < s.len() ==> #[trigger] s[a] < n
    &&& forall|a: int, b: int| 0 <= a < b < s.len() ==> s[a] != s[b]
}

/// Inserting at the position found by scanning from the end: `p` is past
/// every index whose child's `order` exceeds child `j`'s.
proof fn lemma_insert_at(s: Seq<usize>, j: usize, kids: Seq<NodeConfig>, p: int)
    requires
        0 <= p <= s.len(),
        forall|q: int|
            p <= q < s.len() ==> kids[#[trigger] s[q] as int].order > kids[j as int].order,
        p == 0 || kids[s[p - 1] as int].order <= kids[j as int].order,
    ensures
        insert_by_order(s, j, kids) == s.subrange(0, p).push(j) + s.subrange(p, s.len() as int),
    decreases s.len(),
{
    if s.len() == 0 {
        assert(s.subrange(0, p).push(j) + s.subrange(p, s.len() as int) =~= seq![j]);
    } else if p == s.len() {
        assert(s.subrange(0, p) =~= s);
        assert(s.subrange(0, p).push(j) + s.subrange(p, s.len() as int) =~= s.push(j));
    } else {
        let t = s.subrange(0, s.len() - 1);
        assert forall|q: int| p <= q < t.len() implies kids[#[trigger] t[q] as int].order
            > kids[j as int].order by {
            assert(t[q] == s[q]);
        }
        lemma_insert_at(t, j, kids, p);
        assert(t.subrange(0, p) =~= s.subrange(0, p));
        assert((t.subrange(0, p).push(j) + t.subrange(p, t.len() as int)).push(s[s.len() - 1])
            =~= s.subrange(0, p).push(j) + s.subrange(p, s.len() as int));
    }
}

/// The sorted indices of the first `n` children are all below `n`, each
/// once.
pub proof fn lemma_order_sorted_permutation(kids: Seq<NodeConfig>, n: nat)
    requires
        n <= kids.len() <= usize::MAX,
    ensures
        is_index_permutation(order_sorted(kids, n), n),
    decreases n,
{
    if n > 0 {
        let s = order_sorted(kids, (n - 1) as nat);
        lemma_order_sorted_permutation(kids, (n - 1) as nat);
        lemma_insert_members(s, (n - 1) as usize, kids);
        let r = order_sorted(kids, n);
        assert(!s.contains((n - 1) as usize));
        assert forall|a: int, b: int| 0 <= a < b < r.len() implies r[a] != r[b] by {
            lemma_insert_distinct(s, (n - 1) as usize, kids, a, b);
        }
    }
}

/// Inserting keeps the old indices and adds `j`.
proof fn lemma_insert_members(s: Seq<usize>, j: usize, kids: Seq<NodeConfig>)
    ensures
        insert_by_order(s, j, kids).len() == s.len() + 1,
        forall|a: int|
            0 <= a < insert_by_order(s, j, kids).len() ==> (#[trigger] insert_by_order(
                s,
                j,
                kids,
            )[a] == j || s.contains(insert_by_order(s, j, kids)[a])),
        forall|a: int| 0 <= a < s.len() ==> insert_by_order(s, j, kids).contains(#[trigger] s[a]),
        insert_by_order(s, j, kids).contains(j),
    decreases s.len(),
{
    let r = insert_by_order(s, j, kids);
    if s.len() == 0 {
        assert(r[0] == j);
    } else if kids[s[s.len() - 1] as int].order <= kids[j as int].order {
        assert forall|a: int| 0 <= a < s.len() implies r.contains(#[trigger] s[a]) by {
            assert(r[a] == s[a]);
        }
        assert(r[s.len() as int] == j);
        assert forall|a: int| 0 <= a < r.len() implies (#[trigger] r[a] == j || s.contains(r[a])) by {
            if a < s.len() {
                assert(r[a] == s[a]);
            }
        }
    } else {
        let t = s.subrange(0, s.len() - 1);
        lemma_insert_members(t, j, kids);
        let u = insert_by_order(t, j, kids);
        assert forall|a: int| 0 <= a < s.len() implies r.contains(#[trigger] s[a]) by {
            if a == s.len() - 1 {
                assert(r[r.len() - 1] == s[a]);
            } else {
                assert(t[a] == s[a]);
                let w = choose|w: int| 0 <= w < u.len() && u[w] == t[a];
                assert(r[w] == s[a]);
            }
        }
        let w = choose|w: int| 0 <= w < u.len() && u[w] == j;
        assert(r[w] == j);
        assert forall|a: int| 0 <= a < r.len() implies (#[trigger] r[a] == j || s.contains(r[a])) by {
            if a == r.len() - 1 {
                assert(r[a] == s[s.len() - 1]);
            } else {
                assert(r[a] == u[a]);
                if u[a] != j {
                    let w = choose|w: int| 0 <= w < t.len() && t[w] == u[a];
                    assert(s[w] == u[a]);
                }
            }
        }
    }
}

/// Inserting an index that is not yet present keeps the indices distinct.
proof fn lemma_insert_distinct(s: Seq<usize>, j: usize, kids: Seq<NodeConfig>, a: int, b: int)
    requires
        forall|x: int, y: int| 0 <= x < y < s.len() ==> s[x] != s[y],
        !s.contains(j),
        0 <= a < b < insert_by_order(s, j, kids).len(),
    ensures
        insert_by_order(s, j, kids)[a] != insert_by_order(s, j, kids)[b],
    decreases s.len(),
{
    lemma_insert_members(s, j, kids);
    let r = insert_by_order(s, j, kids);
    if s.len() == 0 {
    } else if kids[s[s.len() - 1] as int].order <= kids[j as int].order {
        if b == s.len() {
            assert(r[a] == s[a]);
        } else {
            assert(r[a] == s[a] && r[b] == s[b]);
        }
    } else {
        let t = s.subrange(0, s.len() - 1);
        assert forall|x: int, y: int| 0 <= x < y < t.len() implies t[x] != t[y] by {
            assert(t[x] == s[x] && t[y] == s[y]);
        }
        assert(!t.contains(j)) by {
            if t.contains(j) {
                let w = choose|w: int| 0 <= w < t.len() && t[w] == j;
                assert(s[w] == j);
            }
        }
        lemma_insert_members(t, j, kids);
        let u = insert_by_order(t, j, kids);
        if b == r.len() - 1 {
            assert(r[b] == s[s.len() - 1]);
            assert(r[a] == u[a]);
            if u[a] == j {
                assert(s[s.len() - 1] != j);
            } else {
                let w = choose|w: int| 0 <= w < t.len() && t[w] == u[a];
                assert(s[w] == u[a]);
                assert(w < s.len() - 1);
            }
        } else {
            lemma_insert_distinct(t, j, kids, a, b);
        }
    }
}

/// The sorted indices list children by ascending `order`, ties by position.
pub proof fn lemma_sorted_indices_sorted(kids: Seq<NodeConfig>, n: nat)
    requires
        n <= kids.len() <= usize::MAX,
    ensures
        is_order_sorted(order_sorted(kids, n), kids),
    decreases n,
{
    if n > 0 {
        let s = order_sorted(kids, (n - 1) as nat);
        lemma_sorted_indices_sorted(kids, (n - 1) as nat);
        lemma_order_sorted_permutation(kids, (n - 1) as nat);
        lemma_insert_sorted(s, (n - 1) as usize, kids);
    }
}

/// Inserting an index larger than all present keeps the sequence sorted.
proof fn lemma_insert_sorted(s: Seq<usize>, j: usize, kids: Seq<NodeConfig>)
    requires
        is_order_sorted(s, kids),
        forall|a: int| 0 <= a < s.len() ==> #[trigger] s[a] < j,
    ensures
        is_order_sorted(insert_by_order(s, j, kids), kids),
    decreases s.len(),
{
    let r = insert_by_order(s, j, kids);
    if s.len() == 0 {
    } else if kids[s[s.len() - 1] as int].order <= kids[j as int].order {
        assert forall|a: int, b: int| 0 <= a < b < r.len() implies {
            ||| kids[r[a] as int].order < kids[r[b] as int].order
            ||| kids[r[a] as int].order == kids[r[b] as int].order && r[a] < r[b]
        } by {
            if b == s.len() {
                assert(r[a] == s[a]);
                if a < s.len() - 1 {
                    assert(kids[s[a] as int].order <= kids[s[s.len() - 1] as int].order);
                }
            } else {
                assert(r[a] == s[a] && r[b] == s[b]);
            }
        }
    } else {
        let t = s.subrange(0, s.len() - 1);
        assert forall|a: int| 0 <= a < t.len() implies #[trigger] t[a] < j by {
            assert(t[a] == s[a]);
        }
        assert(is_order_sorted(t, kids)) by {
            assert forall|a: int, b: int| 0 <= a < b < t.len() implies {
                ||| kids[t[a] as int].order < kids[t[b] as int].order
                ||| kids[t[a] as int].order == kids[t[b] as int].order && t[a] < t[b]
            } by {
                assert(t[a] == s[a] && t[b] == s[b]);
            }
        }
        lemma_insert_sorted(t, j, kids);
        lemma_insert_members(t, j, kids);
        let u = insert_by_order(t, j, kids);
        let last = s[s.len() - 1];
        assert forall|a: int, b: int| 0 <= a < b < r.len() implies {
            ||| kids[r[a] as int].order < kids[r[b] as int].order
            ||| kids[r[a] as int].order == kids[r[b] as int].order && r[a] < r[b]
        } by {
            if b == r.len() - 1 {
                assert(r[b] == last);
                assert(r[a] == u[a]);
                if u[a] == j {
                } else {
                    let w = choose|w: int| 0 <= w < t.len() && t[w] == u[a];
                    assert(s[w] == u[a]);
                }
            } else {
                assert(r[a] == u[a] && r[b] == u[b]);
            }
        }
    }
}

/// The order in which children are laid out lists every child exactly once,
/// by ascending `order`, and children with equal `order` in source order.
pub proof fn lemma_layout_order(kids: Seq<NodeConfig>)
    requires
        kids.len() <= usize::MAX,
    ensures
        is_index_permutation(sorted_indices(kids), kids.len()),
        is_order_sorted(sorted_indices(kids), kids),
{
    lemma_order_sorted_permutation(kids, kids.len());
    lemma_sorted_indices_sorted(kids, kids.len());
}

/// The total number of leaves of the children listed in `s`.
pub open spec fn sum_leaves(kids: Seq<NodeConfig>, s: Seq<usize>) -> nat
    decreases s.len(),
{
    if s.len() == 0 {
        0
    } else {
        sum_leaves(kids, s.subrange(0, s.len() - 1)) + leaves(kids[s[s.len() - 1] as int])
    }
}

/// Inserting index `j` adds the leaves of child `j`.
proof fn lemma_insert_sum(s: Seq<usize>, j: usize, kids: Seq<NodeConfig>)
    ensures
        sum_leaves(kids, insert_by_order(s, j, kids)) == sum_leaves(kids, s) + leaves(
            kids[j as int],
        ),
    decreases s.len(),
{
    let r = insert_by_order(s, j, kids);
    if s.len() == 0 {
        assert(r.subrange(0, 0) =~= Seq::<usize>::empty());
        assert(sum_leaves(kids, r.subrange(0, 0)) == 0);
        assert(r[0] == j);
    } else if kids[s[s.len() - 1] as int].order <= kids[j as int].order {
        assert(r.subrange(0, r.len() - 1) =~= s);
        assert(r[r.len() - 1] == j);
    } else {
        let t = s.subrange(0, s.len() - 1);
        lemma_insert_sum(t, j, kids);
        assert(r.subrange(0, r.len() - 1) =~= insert_by_order(t, j, kids));
        assert(r[r.len() - 1] == s[s.len() - 1]);
    }
}

/// The first `n` children, in layout order, have as many leaves as in
/// source order.
proof fn lemma_order_sorted_sum(kids: Seq<NodeConfig>, n: nat)
    requires
        n <= kids.len() <= usize::MAX,
    ensures
        sum_leaves(kids, order_sorted(kids, n)) == leaves_of(kids.subrange(0, n as int)),
    decreases n,
{
    if n == 0 {
        assert(kids.subrange(0, 0) =~= Seq::<NodeConfig>::empty());
    } else {
        lemma_order_sorted_sum(kids, (n - 1) as nat);
        lemma_insert_sum(order_sorted(kids, (n - 1) as nat), (n - 1) as usize, kids);
        let p = kids.subrange(0, n as int);
        assert(p.subrange(0, p.len() - 1) =~= kids.subrange(0, n - 1));
    }
}

/// Children in layout order have as many leaves as in source order.
pub proof fn lemma_sorted_sum(kids: Seq<NodeConfig>)
    requires
        kids.len() <= usize::MAX,
    ensures
        sum_leaves(kids, sorted_indices(kids)) == leaves_of(kids),
{
    lemma_order_sorted_sum(kids, kids.len());
    assert(kids.subrange(0, kids.len() as int) =~= kids);
}

/// The leaves of the children listed from position `k` on are those of the
/// child at `k` and those listed after it.
pub proof fn lemma_sum_front(kids: Seq<NodeConfig>, s: Seq<usize>, k: int)
    requires
        0 <= k < s.len(),
    ensures
        sum_leaves(kids, s.subrange(k, s.len() as int)) == leaves(kids[s[k] as int])
            + sum_leaves(kids, s.subrange(k + 1, s.len() as int)),
    decreases s.len(),
{
    let t = s.subrange(k, s.len() as int);
    if k == s.len() - 1 {
        assert(t.subrange(0, 0) =~= Seq::<usize>::empty());
        assert(s.subrange(k + 1, s.len() as int) =~= Seq::<usize>::empty());
    } else {
        let u = s.subrange(0, s.len() - 1);
        lemma_sum_front(kids, u, k);
        assert(t.subrange(0, t.len() - 1) =~= u.subrange(k, u.len() as int));
        let v = s.subrange(k + 1, s.len() as int);
        assert(v.subrange(0, v.len() - 1) =~= u.subrange(k + 1, u.len() as int));
    }
}

/// The leaves of the children listed before position `p + 1` are those
/// listed before `p` and those of the child at `p`, and no more than those
/// of all the children listed.
pub proof fn lemma_sum_prefix(kids: Seq<NodeConfig>, s: Seq<usize>, p: int)
    requires
        0 <= p < s.len(),
    ensures
        sum_leaves(kids, s.subrange(0, p + 1)) == sum_leaves(kids, s.subrange(0, p)) + leaves(
            kids[s[p] as int],
        ),
        sum_leaves(kids, s.subrange(0, p + 1)) <= sum_leaves(kids, s),
    decreases s.len() - p,
{
    assert(s.subrange(0, p + 1).subrange(0, p) =~= s.subrange(0, p));
    if p + 1 < s.len() {
        lemma_sum_prefix(kids, s, p + 1);
    } else {
        assert(s.subrange(0, p + 1) =~= s);
    }
}

/// The total number of nodes of the children listed in `s`.
pub open spec fn sum_sizes(kids: Seq<NodeConfig>, s: Seq<usize>) -> nat
    decreases s.len(),
{
    if s.len() == 0 {
        0
    } else {
        sum_sizes(kids, s.subrange(0, s.len() - 1)) + size(kids[s[s.len() - 1] as int])
    }
}

/// Inserting index `j` adds the nodes of child `j`.
proof fn lemma_insert_size_sum(s: Seq<usize>, j: usize, kids: Seq<NodeConfig>)
    ensures
        sum_sizes(kids, insert_by_order(s, j, kids)) == sum_sizes(kids, s) + size(
            kids[j as int],
        ),
    decreases s.len(),
{
    let r = insert_by_order(s, j, kids);
    if s.len() == 0 {
        assert(r.subrange(0, 0) =~= Seq::<usize>::empty());
        assert(sum_sizes(kids, r.subrange(0, 0)) == 0);
        assert(r[0] == j);
    } else if kids[s[s.len() - 1] as int].order <= kids[j as int].order {
        assert(r.subrange(0, r.len() - 1) =~= s);
        assert(r[r.len() - 1] == j);
    } else {
        let t = s.subrange(0, s.len() - 1);
        lemma_insert_size_sum(t, j, kids);
        assert(r.subrange(0, r.len() - 1) =~= insert_by_order(t, j, kids));
        assert(r[r.len() - 1] == s[s.len() - 1]);
    }
}

/// The first `n` children, in layout order, have as many nodes as in
/// source order.
proof fn lemma_order_sorted_size_sum(kids: Seq<NodeConfig>, n: nat)
    requires
        n <= kids.len() <= usize::MAX,
    ensures
        sum_sizes(kids, order_sorted(kids, n)) == sizes_of(kids.subrange(0, n as int)),
    decreases n,
{
    if n == 0 {
        assert(kids.subrange(0, 0) =~= Seq::<NodeConfig>::empty());
    } else {
        lemma_order_sorted_size_sum(kids, (n - 1) as nat);
        lemma_insert_size_sum(order_sorted(kids, (n - 1) as nat), (n - 1) as usize, kids);
        let p = kids.subrange(0, n as int);
        assert(p.subrange(0, p.len() - 1) =~= kids.subrange(0, n - 1));
    }
}

/// Children in layout order have as many nodes as in source order.
pub proof fn lemma_sorted_size_sum(kids: Seq<NodeConfig>)
    requires
        kids.len() <= usize::MAX,
    ensures
        sum_sizes(kids, sorted_indices(kids)) == sizes_of(kids),
{
    lemma_order_sorted_size_sum(kids, kids.len());
    assert(kids.subrange(0, kids.len() as int) =~= kids);
}

/// The nodes of the children listed from position `k` on are those of the
/// child at `k` and those listed after it.
pub proof fn lemma_size_sum_front(kids: Seq<NodeConfig>, s: Seq<usize>, k: int)
    requires
        0 <= k < s.len(),
    ensures
        sum_sizes(kids, s.subrange(k, s.len() as int)) == size(kids[s[k] as int])
            + sum_sizes(kids, s.subrange(k + 1, s.len() as int)),
    decreases s.len(),
{
    let t = s.subrange(k, s.len() as int);
    if k == s.len() - 1 {
        assert(t.subrange(0, 0) =~= Seq::<usize>::empty());
        assert(s.subrange(k + 1, s.len() as int) =~= Seq::<usize>::empty());
    } else {
        let u = s.subrange(0, s.len() - 1);
        lemma_size_sum_front(kids, u, k);
        assert(t.subrange(0, t.len() - 1) =~= u.subrange(k, u.len() as int));
        let v = s.subrange(k + 1, s.len() as int);
        assert(v.subrange(0, v.len() - 1) =~= u.subrange(k + 1, u.len() as int));
    }
}

/// The child indices in source order.
pub open spec fn source_indices(n: nat) -> Seq<usize> {
    Seq::new(n, |i: int| i as usize)
}

/// Children in source order have as many leaves as the sequence.
pub proof fn lemma_source_sum(kids: Seq<NodeConfig>, n: nat)
    requires
        n <= kids.len() <= usize::MAX,
    ensures
        sum_leaves(kids, source_indices(n)) == leaves_of(kids.subrange(0, n as int)),
    decreases n,
{
    if n == 0 {
        assert(kids.subrange(0, 0) =~= Seq::<NodeConfig>::empty());
    } else {
        lemma_source_sum(kids, (n - 1) as nat);
        let s = source_indices(n);
        assert(s.subrange(0, s.len() - 1) =~= source_indices((n - 1) as nat));
        let p = kids.subrange(0, n as int);
        assert(p.subrange(0, p.len() - 1) =~= kids.subrange(0, n - 1));
    }
}

/// The indices of `kids`, sorted by `order` (stable).
pub fn sort_by_order(kids: &Vec<NodeConfig>) -> (r: Vec<usize>)
    ensures
        r@ == sorted_indices(kids@),
{
    let mut r: Vec<usize> = Vec::new();
    let mut j: usize = 0;
    while j < kids.len()
        invariant
            j <= kids@.len(),
            r@ == order_sorted(kids@, j as nat),
        decreases kids@.len() - j,
    {
        proof {
            lemma_order_sorted_permutation(kids@, j as nat);
        }
        let key = kids[j].order;
        let mut p: usize = r.len();
        while p > 0 && kids[r[p - 1]].order > key
            invariant
                p <= r@.len(),
                j < kids@.len(),
                key == kids@[j as int].order,
                r@ == order_sorted(kids@, j as nat),
                is_index_permutation(r@, j as nat),
                forall|q: int|
                    p <= q < r@.len() ==> kids@[#[trigger] r@[q] as int].order > key,
            decreases p,
        {
            p = p - 1;
        }
        proof {
            lemma_insert_at(r@, j, kids@, p as int);
        }
        r.insert(p, j);
        assert(r@ =~= order_sorted(kids@, (j + 1) as nat));
        j = j + 1;
    }
    r
}

} // verus!
