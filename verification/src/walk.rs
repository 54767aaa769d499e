//! Depth-first search over a graph given as adjacency lists: either it finds a
//! node that lies on a cycle, or it proves that no cycle can be reached and
//! marks exactly the nodes that can be reached.

use vstd::prelude::*;

verus! {

/// An edge `a -> b` of the graph whose adjacency lists are `adj`.
pub open spec fn edge(adj: Seq<Vec<usize>>, a: int, b: int) -> bool {
    0 <= a < adj.len() && 0 <= b < adj.len() && adj[a]@.contains(b as usize)
}

/// Every adjacency list names nodes of the graph.
pub open spec fn adjacency_ok(adj: Seq<Vec<usize>>) -> bool {
    forall|a: int, k: int| 0 <= a < adj.len() && 0 <= k < adj[a]@.len() ==> #[trigger] adj[a]@[k] < adj.len()
}

/// The step into position `k` of `p` follows an edge.
pub open spec fn step(adj: Seq<Vec<usize>>, p: Seq<int>, k: int) -> bool {
    edge(adj, p[k - 1], p[k])
}

/// `p` is a non-empty walk along edges.
pub open spec fn is_path(adj: Seq<Vec<usize>>, p: Seq<int>) -> bool {
    &&& p.len() > 0
    &&& forall|k: int| 0 <= k < p.len() ==> 0 <= #[trigger] p[k] < adj.len()
    &&& forall|k: int| 0 < k < p.len() ==> #[trigger] step(adj, p, k)
}

/// Some walk leads from `a` to `b` (every node reaches itself).
pub open spec fn reaches(adj: Seq<Vec<usize>>, a: int, b: int) -> bool {
    exists|p: Seq<int>| #[trigger] is_path(adj, p) && p[0] == a && p.last() == b
}

/// Some walk of at least one edge leads from `v` back to `v`.
pub open spec fn on_cycle(adj: Seq<Vec<usize>>, v: int) -> bool {
    exists|p: Seq<int>| #[trigger] is_path(adj, p) && p.len() > 1 && p[0] == v && p.last() == v
}

/// The number of nodes not yet marked.
pub open spec fn unmarked(s: Seq<bool>) -> nat
    decreases s.len(),
{
    if s.len() == 0 {
        0
    } else {
        unmarked(s.drop_last()) + if s.last() { 0nat } else { 1nat }
    }
}

proof fn lemma_unmarked_mark(s: Seq<bool>, i: int)
    requires
        0 <= i < s.len(),
        !s[i],
    ensures
        unmarked(s.update(i, true)) + 1 == unmarked(s),
    decreases s.len(),
{
    let t = s.update(i, true);
    if i < s.len() - 1 {
        assert(t.drop_last() =~= s.drop_last().update(i, true));
        lemma_unmarked_mark(s.drop_last(), i);
    } else {
        assert(t.drop_last() =~= s.drop_last());
    }
}

proof fn lemma_unmarked_monotone(a: Seq<bool>, b: Seq<bool>)
    requires
        a.len() == b.len(),
        forall|k: int| 0 <= k < a.len() && #[trigger] a[k] ==> b[k],
    ensures
        unmarked(b) <= unmarked(a),
    decreases a.len(),
{
    if a.len() > 0 {
        lemma_unmarked_monotone(a.drop_last(), b.drop_last());
    }
}

proof fn lemma_path_push(adj: Seq<Vec<usize>>, p: Seq<int>, x: int)
    requires
        is_path(adj, p),
        edge(adj, p.last(), x),
    ensures
        is_path(adj, p.push(x)),
        p.push(x).last() == x,
        p.push(x)[0] == p[0],
{
    let q = p.push(x);
    assert forall|k: int| 0 < k < q.len() implies #[trigger] step(adj, q, k) by {
        if k < p.len() {
            assert(step(adj, p, k));
        }
    }
}

proof fn lemma_path_slice(adj: Seq<Vec<usize>>, p: Seq<int>, i: int, j: int)
    requires
        is_path(adj, p),
        0 <= i < j <= p.len(),
    ensures
        is_path(adj, p.subrange(i, j)),
{
    let q = p.subrange(i, j);
    assert forall|k: int| 0 <= k < q.len() implies 0 <= #[trigger] q[k] < adj.len() by {
        assert(q[k] == p[i + k]);
    }
    assert forall|k: int| 0 < k < q.len() implies #[trigger] step(adj, q, k) by {
        assert(step(adj, p, i + k));
    }
}

/// Whatever is closed under edges keeps everything reachable from its members.
proof fn lemma_closed_reaches(adj: Seq<Vec<usize>>, marked: Seq<bool>, p: Seq<int>)
    requires
        is_path(adj, p),
        marked.len() == adj.len(),
        marked[p[0]],
        forall|v: int, x: int| #[trigger] edge(adj, v, x) && marked[v] ==> marked[x],
    ensures
        marked[p.last()],
    decreases p.len(),
{
    if p.len() > 1 {
        let q = p.drop_last();
        lemma_path_slice(adj, p, 0, p.len() - 1);
        assert(q =~= p.subrange(0, p.len() - 1));
        lemma_closed_reaches(adj, marked, q);
        assert(step(adj, p, p.len() - 1));
    }
}

/// The state of a search: the nodes on the current walk, the nodes seen, and
/// (for the proof) the order in which the seen nodes were finished.
pub struct Walk {
    pub visiting: Vec<bool>,
    pub visited: Vec<bool>,
    pub finish: Ghost<Seq<int>>,
    pub next: Ghost<int>,
}

impl Walk {
    /// Seen, and no longer on the current walk.
    pub open spec fn done(&self, v: int) -> bool {
        self.visited@[v] && !self.visiting@[v]
    }

    /// The invariant of the search from `start`, with `stack` the current walk.
    pub open spec fn inv(&self, adj: Seq<Vec<usize>>, start: int, stack: Seq<int>) -> bool {
        let n = adj.len();
        &&& adjacency_ok(adj)
        &&& self.visiting@.len() == n
        &&& self.visited@.len() == n
        &&& self.finish@.len() == n
        &&& 0 <= start < n
        &&& stack.len() > 0 ==> is_path(adj, stack) && stack[0] == start
        &&& forall|v: int| 0 <= v < n ==> (#[trigger] self.visiting@[v] <==> stack.contains(v))
        &&& forall|v: int| 0 <= v < n && #[trigger] self.visiting@[v] ==> self.visited@[v]
        &&& forall|v: int| 0 <= v < n && #[trigger] self.visited@[v] ==> reaches(adj, start, v)
        &&& forall|v: int, x: int| #[trigger] self.done(v) && #[trigger] edge(adj, v, x)
            ==> self.done(x) && self.finish@[x] < self.finish@[v]
        &&& forall|v: int| 0 <= v < n && #[trigger] self.done(v) ==> self.finish@[v] < self.next@
    }
}

/// Finished nodes only lead to finished nodes finished earlier.
proof fn lemma_done_descends(adj: Seq<Vec<usize>>, w: &Walk, start: int, stack: Seq<int>, p: Seq<int>)
    requires
        w.inv(adj, start, stack),
        is_path(adj, p),
        w.done(p[0]),
    ensures
        w.done(p.last()),
        p.len() > 1 ==> w.finish@[p.last()] < w.finish@[p[0]],
    decreases p.len(),
{
    if p.len() > 1 {
        let q = p.drop_last();
        lemma_path_slice(adj, p, 0, p.len() - 1);
        assert(q =~= p.subrange(0, p.len() - 1));
        lemma_done_descends(adj, w, start, stack, q);
        assert(step(adj, p, p.len() - 1));
        assert(edge(adj, q.last(), p.last()));
    }
}

/// Searches from `node`, reached from the top of `stack`. On success `node` is
/// finished and the nodes on the walk are as before; otherwise the node returned
/// lies on a cycle that the start reaches.
pub fn visit_node(
    node: usize,
    adj: &Vec<Vec<usize>>,
    walk: &mut Walk,
    Ghost(start): Ghost<int>,
    Ghost(stack): Ghost<Seq<int>>,
) -> (result: Result<(), usize>)
    requires
        old(walk).inv(adj@, start, stack),
        node < adj@.len(),
        stack.len() == 0 ==> node == start,
        stack.len() > 0 ==> edge(adj@, stack.last(), node as int),
    ensures
        match result {
            Ok(()) => {
                &&& final(walk).inv(adj@, start, stack)
                &&& final(walk).visiting@ == old(walk).visiting@
                &&& final(walk).done(node as int)
                &&& forall|v: int| 0 <= v < adj@.len() && #[trigger] old(walk).visited@[v] ==> final(walk).visited@[v]
                &&& forall|v: int| 0 <= v < adj@.len() && #[trigger] old(walk).done(v)
                    ==> final(walk).finish@[v] == old(walk).finish@[v]
                &&& old(walk).next@ <= final(walk).next@
            },
            Err(v) => v < adj@.len() && reaches(adj@, start, v as int) && on_cycle(adj@, v as int),
        },
    decreases unmarked(old(walk).visited@),
{
    let ghost n = adj@.len();
    if walk.visiting[node] {
        let ghost k = stack.index_of(node as int);
        proof {
            assert(stack.contains(node as int));
            let cycle = stack.subrange(k, stack.len() as int).push(node as int);
            lemma_path_slice(adj@, stack, k, stack.len() as int);
            assert(stack.subrange(k, stack.len() as int).last() == stack.last());
            lemma_path_push(adj@, stack.subrange(k, stack.len() as int), node as int);
            assert(is_path(adj@, cycle) && cycle.len() > 1 && cycle[0] == node && cycle.last() == node);
            lemma_path_slice(adj@, stack, 0, k + 1);
            let lead = stack.subrange(0, k + 1);
            assert(is_path(adj@, lead) && lead[0] == start && lead.last() == node);
        }
        return Err(node);
    }
    if walk.visited[node] {
        return Ok(());
    }
    proof {
        if stack.len() > 0 {
            let p = choose|p: Seq<int>| #[trigger] is_path(adj@, p) && p[0] == start && p.last() == stack.last();
            lemma_path_push(adj@, p, node as int);
            assert(is_path(adj@, p.push(node as int)));
        } else {
            assert(is_path(adj@, seq![start]));
        }
        lemma_unmarked_mark(walk.visited@, node as int);
    }
    let ghost entry = *walk;
    assert(adj@.len() == adj.len());
    assert(unmarked(entry.visited@) == unmarked(old(walk).visited@));
    walk.visited.set(node, true);
    walk.visiting.set(node, true);
    let ghost inner = stack.push(node as int);
    proof {
        if stack.len() > 0 {
            lemma_path_push(adj@, stack, node as int);
        } else {
            assert(is_path(adj@, inner));
        }
        assert forall|v: int| 0 <= v < n implies (#[trigger] walk.visiting@[v] <==> inner.contains(v)) by {
            if v == node as int {
                assert(inner[inner.len() - 1] == v);
            } else if stack.contains(v) {
                let j = stack.index_of(v);
                assert(inner[j] == v);
            } else if inner.contains(v) {
                let j = inner.index_of(v);
                assert(stack[j] == v);
            }
        }
        assert forall|v: int, x: int| #[trigger] walk.done(v) && #[trigger] edge(adj@, v, x)
            implies walk.done(x) && walk.finish@[x] < walk.finish@[v] by {
            assert(entry.done(v));
            assert(entry.done(x));
        }
        assert forall|v: int| 0 <= v < n && #[trigger] walk.done(v) implies walk.finish@[v] < walk.next@ by {
            assert(entry.done(v));
        }
    }
    let successors = &adj[node];
    let mut k: usize = 0;
    while k < successors.len()
        invariant
            successors@ == adj@[node as int]@,
            node < adj@.len(),
            n == adj@.len(),
            walk.inv(adj@, start, inner),
            inner == stack.push(node as int),
            walk.visiting@ == entry.visiting@.update(node as int, true),
            walk.visited@[node as int],
            !entry.visited@[node as int],
            entry.visiting@.len() == n,
            entry.visited@.len() == n,
            entry.finish@.len() == n,
            adj@.len() <= usize::MAX,
            unmarked(walk.visited@) < unmarked(entry.visited@),
            unmarked(entry.visited@) == unmarked(old(walk).visited@),
            forall|v: int| 0 <= v < n && #[trigger] entry.visited@[v] ==> walk.visited@[v],
            forall|v: int| 0 <= v < n && #[trigger] entry.done(v) ==> walk.finish@[v] == entry.finish@[v],
            entry.next@ <= walk.next@,
            k <= successors@.len(),
            forall|m: int| 0 <= m < k ==> walk.done(#[trigger] successors@[m] as int),
        decreases successors@.len() - k,
    {
        let next_node = successors[k];
        let ghost before = *walk;
        proof {
            assert(adj@[node as int]@[k as int] == next_node);
            assert(next_node < n);
            assert(inner.last() == node as int);
            assert(edge(adj@, inner.last(), next_node as int));
        }
        match visit_node(next_node, adj, walk, Ghost(start), Ghost(inner)) {
            Ok(()) => {},
            Err(v) => { return Err(v); },
        }
        proof {
            lemma_unmarked_monotone(before.visited@, walk.visited@);
            assert forall|v: int| 0 <= v < n && #[trigger] entry.done(v) implies walk.finish@[v] == entry.finish@[v] by {
                assert(v != node as int);
                assert(entry.visited@[v]);
                assert(before.visited@[v]);
                assert(before.visiting@[v] == entry.visiting@[v]);
                assert(before.done(v));
            }
            assert forall|m: int| 0 <= m <= k implies walk.done(#[trigger] successors@[m] as int) by {
                if m < k {
                    assert(before.done(successors@[m] as int));
                }
            }
        }
        k = k + 1;
    }
    let ghost last = *walk;
    walk.visiting.set(node, false);
    walk.finish = Ghost(walk.finish@.update(node as int, walk.next@));
    walk.next = Ghost(walk.next@ + 1);
    proof {
        assert(walk.visiting@ =~= entry.visiting@);
        assert forall|v: int, x: int| #[trigger] walk.done(v) && #[trigger] edge(adj@, v, x)
            implies walk.done(x) && walk.finish@[x] < walk.finish@[v] by {
            if v == node as int {
                assert(successors@.contains(x as usize));
                let m = successors@.index_of(x as usize);
                assert(successors@[m] as int == x);
                assert(last.done(x));
            } else {
                assert(last.done(v));
                if x == node as int {
                    assert(last.done(x));
                }
                assert(last.done(x));
            }
        }
        assert forall|v: int| 0 <= v < n && #[trigger] walk.done(v) implies walk.finish@[v] < walk.next@ by {
            if v != node as int {
                assert(last.done(v));
            }
        }
        assert forall|v: int| 0 <= v < n implies (#[trigger] walk.visiting@[v] <==> stack.contains(v)) by {
            assert(entry.visiting@[v] <==> stack.contains(v));
        }
        assert forall|v: int| 0 <= v < n && #[trigger] entry.done(v) implies walk.finish@[v] == entry.finish@[v] by {
            assert(v != node as int);
        }
    }
    Ok(())
}

/// Searches the whole graph from `start`.
pub fn search(adj: &Vec<Vec<usize>>, start: usize) -> (result: Result<Vec<bool>, usize>)
    requires
        adjacency_ok(adj@),
        start < adj@.len(),
    ensures
        match result {
            Ok(seen) => {
                &&& seen@.len() == adj@.len()
                &&& forall|v: int| 0 <= v < adj@.len() ==> (#[trigger] seen@[v] <==> reaches(adj@, start as int, v))
                &&& forall|v: int| 0 <= v < adj@.len() && reaches(adj@, start as int, v) ==> !on_cycle(adj@, v)
            },
            Err(v) => v < adj@.len() && reaches(adj@, start as int, v as int) && on_cycle(adj@, v as int),
        },
{
    let n = adj.len();
    let mut visiting: Vec<bool> = Vec::new();
    let mut visited: Vec<bool> = Vec::new();
    let mut i: usize = 0;
    while i < n
        invariant
            n == adj@.len(),
            i <= n,
            visiting@.len() == i,
            visited@.len() == i,
            forall|v: int| 0 <= v < i ==> !(#[trigger] visiting@[v]),
            forall|v: int| 0 <= v < i ==> !(#[trigger] visited@[v]),
        decreases n - i,
    {
        visiting.push(false);
        visited.push(false);
        i = i + 1;
    }
    let mut walk = Walk {
        visiting,
        visited,
        finish: Ghost(Seq::new(n as nat, |v: int| 0int)),
        next: Ghost(0int),
    };
    let ghost empty = Seq::<int>::empty();
    assert(walk.finish@.len() == n);
    assert forall|v: int| 0 <= v < n implies (#[trigger] walk.visiting@[v] <==> empty.contains(v)) by {
        assert(!walk.visiting@[v]);
        assert(!empty.contains(v));
    }
    assert forall|v: int| 0 <= v < n implies !(#[trigger] walk.done(v)) by {
        assert(!walk.visited@[v]);
    }
    assert(walk.inv(adj@, start as int, empty));
    match visit_node(start, adj, &mut walk, Ghost(start as int), Ghost(empty)) {
        Err(v) => Err(v),
        Ok(()) => {
            proof {
                assert forall|v: int| 0 <= v < n implies !(#[trigger] walk.visiting@[v]) by {
                    assert(!empty.contains(v));
                }
                assert forall|v: int, x: int| #[trigger] edge(adj@, v, x) && walk.visited@[v] implies walk.visited@[x] by {
                    assert(walk.done(v));
                }
                assert forall|v: int| 0 <= v < n implies (#[trigger] walk.visited@[v] <==> reaches(adj@, start as int, v)) by {
                    if reaches(adj@, start as int, v) {
                        let p = choose|p: Seq<int>| #[trigger] is_path(adj@, p) && p[0] == start && p.last() == v;
                        lemma_closed_reaches(adj@, walk.visited@, p);
                    }
                }
                assert forall|v: int| 0 <= v < n && reaches(adj@, start as int, v) implies !on_cycle(adj@, v) by {
                    if on_cycle(adj@, v) {
                        let p = choose|p: Seq<int>| #[trigger] is_path(adj@, p) && p.len() > 1 && p[0] == v && p.last() == v;
                        assert(walk.done(v));
                        lemma_done_descends(adj@, &walk, start as int, empty, p);
                    }
                }
            }
            Ok(walk.visited)
        },
    }
}

} // verus!
