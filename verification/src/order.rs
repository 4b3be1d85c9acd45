//! Topological ordering: a postorder traversal seeded at the active (root)
//! node. Every node reachable through connected input sockets is emitted
//! before the node that consumes it, each node at most once (first discovery
//! wins), and the root comes last. Nodes unreachable from the root are left
//! out. Acyclicity is a caller obligation, stated as the existence of a rank
//! that strictly drops along every connection from consumer to producer.

use vstd::prelude::*;

use crate::graph::MyGraph;

verus! {

/// Input `j` of node `m` is connected, and the producing output slot belongs
/// to node `p`; all ids involved are in range.
pub open spec fn edge_via(g: MyGraph, m: usize, j: int, p: usize) -> bool {
    &&& m < g.nodes@.len()
    &&& p < g.nodes@.len()
    &&& 0 <= j < g.nodes@[m as int].inputs@.len()
    &&& g.nodes@[m as int].inputs@[j].connection is Some
    &&& g.nodes@[m as int].inputs@[j].connection->0 < g.output_owner@.len()
    &&& g.output_owner@[g.nodes@[m as int].inputs@[j].connection->0 as int] == p
}

/// Node `m` depends directly on node `p` through some connected input.
pub open spec fn edge(g: MyGraph, m: usize, p: usize) -> bool {
    exists|j: int| edge_via(g, m, j, p)
}

/// A rank witness for acyclicity: along every connection the producer ranks
/// strictly below the consumer.
pub open spec fn valid_rank(g: MyGraph, r: Map<usize, nat>) -> bool {
    forall|m: usize, p: usize| #[trigger] edge(g, m, p) ==> r[p] < r[m]
}

/// The graph has no directed cycle through connections.
pub open spec fn is_acyclic(g: MyGraph) -> bool {
    exists|r: Map<usize, nat>| valid_rank(g, r)
}

/// Some rank witness for an acyclic graph (arbitrary but fixed per graph).
pub open spec fn the_rank(g: MyGraph) -> Map<usize, nat> {
    choose|r: Map<usize, nat>| valid_rank(g, r)
}

/// Consecutive elements are joined by connection edges.
pub open spec fn is_path(g: MyGraph, p: Seq<usize>) -> bool {
    forall|i: int| 0 <= i < p.len() - 1 ==> edge(g, #[trigger] p[i], p[i + 1])
}

/// `b` is reachable from `a` by following connected inputs (including `a`
/// itself, by the one-element path).
pub open spec fn reaches(g: MyGraph, a: usize, b: usize) -> bool {
    exists|p: Seq<usize>|
        {
            &&& p.len() >= 1
            &&& p.first() == a
            &&& p.last() == b
            &&& is_path(g, p)
        }
}

/// Membership in `s` is closed under following connections.
pub open spec fn closed(g: MyGraph, s: Seq<usize>) -> bool {
    forall|x: usize, p: usize|
        s.contains(x) && #[trigger] edge(g, x, p) ==> #[trigger] s.contains(p)
}

/// Every prefix of `s` is connection-closed: a node enters the sequence
/// only after everything it depends on. This is what makes the sequence a
/// dependency-respecting emission order.
pub open spec fn prefix_closed(g: MyGraph, s: Seq<usize>) -> bool {
    forall|t: int| 0 <= t <= s.len() ==> closed(g, #[trigger] s.take(t))
}

/// Every element of `s` is a valid node id.
pub open spec fn all_valid(g: MyGraph, s: Seq<usize>) -> bool {
    forall|i: int| 0 <= i < s.len() ==> (#[trigger] s[i]) < g.nodes@.len()
}

/// Whether input `j` of node `nid` is connected.
pub open spec fn has_conn(g: MyGraph, nid: usize, j: int) -> bool {
    g.nodes@[nid as int].inputs@[j].connection is Some
}

/// The producer node of the connection on input `j` of node `nid`.
pub open spec fn producer_at(g: MyGraph, nid: usize, j: int) -> usize {
    g.output_owner@[g.nodes@[nid as int].inputs@[j].connection->0 as int]
}

pub proof fn lemma_reaches_refl(g: MyGraph, a: usize)
    ensures
        reaches(g, a, a),
{
    let p = seq![a];
    assert(p.len() >= 1 && p.first() == a && p.last() == a);
    assert(is_path(g, p));
}

pub proof fn lemma_reaches_step(g: MyGraph, a: usize, b: usize, c: usize)
    requires
        edge(g, a, b),
        reaches(g, b, c),
    ensures
        reaches(g, a, c),
{
    let p = choose|p: Seq<usize>|
        {
            &&& p.len() >= 1
            &&& p.first() == b
            &&& p.last() == c
            &&& is_path(g, p)
        };
    let q = seq![a] + p;
    assert(q.first() == a);
    assert(q.last() == c);
    assert forall|i: int| 0 <= i < q.len() - 1 implies edge(g, #[trigger] q[i], q[i + 1]) by {
        if i == 0 {
            assert(q[0] == a && q[1] == p[0]);
        } else {
            assert(q[i] == p[i - 1] && q[i + 1] == p[i]);
            assert(edge(g, p[i - 1], p[i]));
        }
    }
    assert(q.len() >= 1 && q.first() == a && q.last() == c && is_path(g, q));
}

proof fn lemma_path_rank(g: MyGraph, r: Map<usize, nat>, p: Seq<usize>)
    requires
        valid_rank(g, r),
        p.len() >= 1,
        is_path(g, p),
    ensures
        r[p.last()] <= r[p.first()],
    decreases p.len(),
{
    if p.len() > 1 {
        assert(edge(g, p[0], p[1]));
        let q = p.skip(1);
        assert forall|i: int| 0 <= i < q.len() - 1 implies edge(g, #[trigger] q[i], q[i + 1]) by {
            assert(q[i] == p[i + 1] && q[i + 1] == p[i + 2]);
        }
        lemma_path_rank(g, r, q);
        assert(q.first() == p[1] && q.last() == p.last());
    }
}

/// Reachability can only descend in rank.
pub proof fn lemma_reaches_rank(g: MyGraph, r: Map<usize, nat>, a: usize, b: usize)
    requires
        valid_rank(g, r),
        reaches(g, a, b),
    ensures
        r[b] <= r[a],
{
    let p = choose|p: Seq<usize>|
        {
            &&& p.len() >= 1
            &&& p.first() == a
            &&& p.last() == b
            &&& is_path(g, p)
        };
    lemma_path_rank(g, r, p);
}

proof fn lemma_path_closed(g: MyGraph, s: Seq<usize>, p: Seq<usize>)
    requires
        closed(g, s),
        p.len() >= 1,
        s.contains(p.first()),
        is_path(g, p),
    ensures
        s.contains(p.last()),
    decreases p.len(),
{
    if p.len() > 1 {
        assert(edge(g, p[0], p[1]));
        assert(s.contains(p[1]));
        let q = p.skip(1);
        assert forall|i: int| 0 <= i < q.len() - 1 implies edge(g, #[trigger] q[i], q[i + 1]) by {
            assert(q[i] == p[i + 1] && q[i + 1] == p[i + 2]);
        }
        lemma_path_closed(g, s, q);
        assert(q.first() == p[1] && q.last() == p.last());
    }
}

/// A connection-closed set that contains `a` contains everything reachable
/// from `a`.
pub proof fn lemma_closed_complete(g: MyGraph, s: Seq<usize>, a: usize, b: usize)
    requires
        closed(g, s),
        s.contains(a),
        reaches(g, a, b),
    ensures
        s.contains(b),
{
    let p = choose|p: Seq<usize>|
        {
            &&& p.len() >= 1
            &&& p.first() == a
            &&& p.last() == b
            &&& is_path(g, p)
        };
    lemma_path_closed(g, s, p);
}

/// The empty collection is trivially prefix-closed.
pub proof fn lemma_prefix_closed_empty(g: MyGraph)
    ensures
        prefix_closed(g, Seq::<usize>::empty()),
{
    assert forall|t: int|
        0 <= t <= Seq::<usize>::empty().len() implies closed(
        g,
        #[trigger] Seq::<usize>::empty().take(t),
    ) by {
        assert(Seq::<usize>::empty().take(t) =~= Seq::<usize>::empty());
        assert(forall|x: usize| !Seq::<usize>::empty().contains(x));
    }
}

/// A fully prefix-closed sequence lists every dependency of an element at
/// a strictly earlier position.
pub proof fn lemma_prefix_closed_ordering(g: MyGraph, s: Seq<usize>)
    requires
        is_acyclic(g),
        prefix_closed(g, s),
    ensures
        forall|i: int, p: usize|
            0 <= i < s.len() && #[trigger] edge(g, s[i], p) ==> exists|t: int|
                0 <= t < i && s[t] == p,
{
    assert forall|i: int, p: usize|
        0 <= i < s.len() && #[trigger] edge(g, s[i], p) implies exists|t: int|
        0 <= t < i && s[t] == p by {
        let pre = s.take(i + 1);
        assert(closed(g, pre));
        assert(pre[i] == s[i]);
        assert(pre.contains(s[i]));
        assert(pre.contains(p));
        let t = choose|t: int| 0 <= t < pre.len() && pre[t] == p;
        assert(valid_rank(g, the_rank(g)));
        assert(the_rank(g)[p] < the_rank(g)[s[i]]);
        if t == i {
            assert(p == s[i]);
            assert(false);
        }
        assert(s[t] == p);
    }
}

/// The postorder emission sequence for one node: first everything its
/// connected inputs reach (in input order, suppressing revisits), then the
/// node itself.
pub open spec fn spec_post_node(g: MyGraph, nid: usize, acc: Seq<usize>) -> Seq<usize>
    decreases the_rank(g)[nid], g.nodes@[nid as int].inputs@.len() + 1,
        when g.wf() && is_acyclic(g) && nid < g.nodes@.len()
{
    spec_post_inputs(g, nid, 0, acc).push(nid)
}

/// Folds the traversal over inputs `j..` of node `nid`, starting from the
/// already-collected sequence `acc`.
pub open spec fn spec_post_inputs(g: MyGraph, nid: usize, j: int, acc: Seq<usize>) -> Seq<
    usize,
>
    decreases the_rank(g)[nid], g.nodes@[nid as int].inputs@.len() - j,
        when g.wf() && is_acyclic(g) && nid < g.nodes@.len() && 0 <= j
    via spec_post_inputs_decreases
{
    if j >= g.nodes@[nid as int].inputs@.len() {
        acc
    } else {
        let acc2 = if has_conn(g, nid, j) {
            let p = producer_at(g, nid, j);
            if acc.contains(p) {
                acc
            } else {
                spec_post_node(g, p, acc)
            }
        } else {
            acc
        };
        spec_post_inputs(g, nid, j + 1, acc2)
    }
}

#[via_fn]
proof fn spec_post_inputs_decreases(g: MyGraph, nid: usize, j: int, acc: Seq<usize>) {
    if j < g.nodes@[nid as int].inputs@.len() {
        if has_conn(g, nid, j) {
            let p = producer_at(g, nid, j);
            if !acc.contains(p) {
                lemma_edge_at(g, nid, j);
            }
        }
    }
}

/// From well-formedness: a connected input yields a real edge, whose
/// producer ranks strictly below the consumer.
pub proof fn lemma_edge_at(g: MyGraph, nid: usize, j: int)
    requires
        g.wf(),
        is_acyclic(g),
        nid < g.nodes@.len(),
        0 <= j < g.nodes@[nid as int].inputs@.len(),
        has_conn(g, nid, j),
    ensures
        edge(g, nid, producer_at(g, nid, j)),
        producer_at(g, nid, j) < g.nodes@.len(),
        valid_rank(g, the_rank(g)),
        the_rank(g)[producer_at(g, nid, j)] < the_rank(g)[nid],
{
    assert(g.wf_node(nid as int));
    let oid = g.nodes@[nid as int].inputs@[j].connection->0;
    assert(g.nodes@[nid as int].inputs@[j].connection is Some);
    assert(oid < g.output_owner@.len());
    assert(g.wf_owner(oid as int));
    let p = producer_at(g, nid, j);
    assert(edge_via(g, nid, j, p));
    assert(edge(g, nid, p));
    assert(valid_rank(g, the_rank(g)));
}

/// All structural properties of the postorder sequence, proved by the same
/// recursion that defines it: the old prefix is kept, the node lands last,
/// nothing is duplicated, the result is connection-closed, and every new
/// element is reachable from (and ranks at or below) the seed node.
#[verifier::rlimit(100)]
pub proof fn lemma_post_node_props(g: MyGraph, nid: usize, acc: Seq<usize>)
    requires
        g.wf(),
        is_acyclic(g),
        nid < g.nodes@.len(),
        all_valid(g, acc),
        acc.no_duplicates(),
        prefix_closed(g, acc),
        !acc.contains(nid),
    ensures
        ({
            let r = spec_post_node(g, nid, acc);
            &&& acc.is_prefix_of(r)
            &&& r.len() > acc.len()
            &&& r.last() == nid
            &&& r.contains(nid)
            &&& all_valid(g, r)
            &&& r.no_duplicates()
            &&& closed(g, r)
            &&& prefix_closed(g, r)
            &&& (forall|x: usize| acc.contains(x) ==> #[trigger] r.contains(x))
            &&& (forall|x: usize|
                #[trigger] r.contains(x) ==> acc.contains(x) || reaches(g, nid, x))
            &&& (forall|x: usize|
                #[trigger] r.contains(x) && x != nid ==> acc.contains(x) || the_rank(g)[x]
                    < the_rank(g)[nid])
        }),
    decreases the_rank(g)[nid], g.nodes@[nid as int].inputs@.len() + 1,
{
    let rin = spec_post_inputs(g, nid, 0, acc);
    lemma_post_inputs_props(g, nid, 0, acc);
    let r = spec_post_node(g, nid, acc);
    assert(r == rin.push(nid));
    assert(r.last() == nid);
    assert(forall|i: int| 0 <= i < rin.len() ==> r[i] == rin[i]);
    assert(acc.is_prefix_of(rin));
    assert(acc.is_prefix_of(r));
    assert forall|x: usize| acc.contains(x) implies #[trigger] r.contains(x) by {
        let i = choose|i: int| 0 <= i < acc.len() && acc[i] == x;
        assert(r[i] == x);
    }
    // no new element equals nid, so the push keeps distinctness
    assert forall|i: int| 0 <= i < rin.len() implies rin[i] != nid by {
        assert(rin.contains(rin[i]));
        if !acc.contains(rin[i]) {
            assert(the_rank(g)[rin[i]] < the_rank(g)[nid]);
        }
    }
    assert(r.no_duplicates());
    assert(all_valid(g, r)) by {
        assert(forall|i: int| 0 <= i < rin.len() ==> r[i] == rin[i] && rin.contains(rin[i]));
    }
    // closure: members of rin keep their closure; nid's producers are in rin
    assert forall|x: usize, p: usize|
        r.contains(x) && #[trigger] edge(g, x, p) implies #[trigger] r.contains(p) by {
        let i = choose|i: int| 0 <= i < r.len() && r[i] == x;
        if i < rin.len() {
            assert(rin.contains(x));
            assert(rin.contains(p));
            let t = choose|t: int| 0 <= t < rin.len() && rin[t] == p;
            assert(r[t] == p);
        } else {
            assert(x == nid);
            let j = choose|j: int| edge_via(g, nid, j, p);
            assert(has_conn(g, nid, j));
            assert(producer_at(g, nid, j) == p);
            assert(rin.contains(p));
            let t = choose|t: int| 0 <= t < rin.len() && rin[t] == p;
            assert(r[t] == p);
        }
    }
    // reachability and rank bound for everything new
    assert forall|x: usize| #[trigger]
        r.contains(x) implies acc.contains(x) || reaches(g, nid, x) by {
        let i = choose|i: int| 0 <= i < r.len() && r[i] == x;
        if i < rin.len() {
            assert(rin.contains(x));
        } else {
            lemma_reaches_refl(g, nid);
        }
    }
    assert forall|x: usize|
        #[trigger] r.contains(x) && x != nid implies acc.contains(x) || the_rank(g)[x]
        < the_rank(g)[nid] by {
        let i = choose|i: int| 0 <= i < r.len() && r[i] == x;
        assert(i < rin.len());
        assert(rin.contains(x));
    }
    assert forall|t: int| 0 <= t <= r.len() implies closed(g, #[trigger] r.take(t)) by {
        if t <= rin.len() {
            assert(r.take(t) =~= rin.take(t));
            assert(closed(g, rin.take(t)));
        } else {
            assert(t == r.len());
            assert(r.take(t) =~= r);
        }
    }
}

/// The inputs-fold version of [`lemma_post_node_props`], additionally
/// recording that the producer of every connected input from position `j` on
/// ends up collected.
pub proof fn lemma_post_inputs_props(g: MyGraph, nid: usize, j: int, acc: Seq<usize>)
    requires
        g.wf(),
        is_acyclic(g),
        nid < g.nodes@.len(),
        0 <= j,
        all_valid(g, acc),
        acc.no_duplicates(),
        prefix_closed(g, acc),
    ensures
        ({
            let r = spec_post_inputs(g, nid, j, acc);
            &&& acc.is_prefix_of(r)
            &&& all_valid(g, r)
            &&& r.no_duplicates()
            &&& closed(g, r)
            &&& prefix_closed(g, r)
            &&& (forall|x: usize| acc.contains(x) ==> #[trigger] r.contains(x))
            &&& (forall|x: usize|
                #[trigger] r.contains(x) ==> acc.contains(x) || (reaches(g, nid, x)
                    && the_rank(g)[x] < the_rank(g)[nid]))
            &&& (forall|jj: int|
                j <= jj < g.nodes@[nid as int].inputs@.len() && #[trigger] has_conn(
                    g,
                    nid,
                    jj,
                ) ==> r.contains(producer_at(g, nid, jj)))
        }),
    decreases the_rank(g)[nid], g.nodes@[nid as int].inputs@.len() - j,
{
    let len = g.nodes@[nid as int].inputs@.len();
    if j >= len {
        assert(spec_post_inputs(g, nid, j, acc) == acc);
        assert(acc.is_prefix_of(acc));
        assert(acc.take(acc.len() as int) =~= acc);
        assert(closed(g, acc));
    } else {
        let acc2 = if has_conn(g, nid, j) {
            let p = producer_at(g, nid, j);
            if acc.contains(p) {
                acc
            } else {
                spec_post_node(g, p, acc)
            }
        } else {
            acc
        };
        if has_conn(g, nid, j) {
            let p = producer_at(g, nid, j);
            lemma_edge_at(g, nid, j);
            if !acc.contains(p) {
                lemma_post_node_props(g, p, acc);
                // everything new in acc2 is reachable from nid and below it
                assert forall|x: usize| #[trigger]
                    acc2.contains(x) implies acc.contains(x) || (reaches(g, nid, x)
                    && the_rank(g)[x] < the_rank(g)[nid]) by {
                    if !acc.contains(x) {
                        assert(reaches(g, p, x));
                        lemma_reaches_step(g, nid, p, x);
                        lemma_reaches_rank(g, the_rank(g), p, x);
                        if x != p {
                            assert(the_rank(g)[x] < the_rank(g)[p]);
                        }
                        assert(the_rank(g)[x] < the_rank(g)[nid]);
                    }
                }
            }
        }
        // induct over the remaining inputs from the grown accumulator
        lemma_post_inputs_props(g, nid, j + 1, acc2);
        let r = spec_post_inputs(g, nid, j, acc);
        assert(r == spec_post_inputs(g, nid, j + 1, acc2));
        assert(acc.is_prefix_of(acc2));
        assert(acc.is_prefix_of(r));
        assert forall|x: usize| acc.contains(x) implies #[trigger] r.contains(x) by {
            assert(acc2.contains(x));
        }
        assert forall|x: usize| #[trigger]
            r.contains(x) implies acc.contains(x) || (reaches(g, nid, x) && the_rank(g)[x]
            < the_rank(g)[nid]) by {
            assert(acc2.contains(x) || reaches(g, nid, x));
        }
        assert forall|jj: int|
            j <= jj < g.nodes@[nid as int].inputs@.len() && #[trigger] has_conn(g, nid, jj)
            implies r.contains(producer_at(g, nid, jj)) by {
            if jj == j {
                assert(acc2.contains(producer_at(g, nid, j)));
                assert(r.contains(producer_at(g, nid, j)));
            }
        }
    }
}


/// The full emission order for root `root`: its postorder sequence from an
/// empty collection.
pub open spec fn spec_order(g: MyGraph, root: usize) -> Seq<usize> {
    spec_post_node(g, root, Seq::empty())
}

/// Socket names that belong to the vertex stage rather than the pixel stage.
pub open spec fn is_vertex_socket(name: Seq<char>) -> bool {
    name == "posWS"@ || name == "nrmWS"@
}

/// Folds the traversal over inputs `j..` of `nid`, but only through sockets
/// whose vertex-stage role equals `vertex_role`; the nodes discovered behind
/// a kept socket are collected by the unfiltered postorder.
pub open spec fn spec_role_inputs(
    g: MyGraph,
    nid: usize,
    j: int,
    acc: Seq<usize>,
    vertex_role: bool,
) -> Seq<usize>
    decreases the_rank(g)[nid], g.nodes@[nid as int].inputs@.len() - j,
        when g.wf() && is_acyclic(g) && nid < g.nodes@.len() && 0 <= j
    via spec_role_inputs_decreases
{
    if j >= g.nodes@[nid as int].inputs@.len() {
        acc
    } else {
        let keep = is_vertex_socket(g.nodes@[nid as int].inputs@[j].name@) == vertex_role;
        let acc2 = if keep && has_conn(g, nid, j) {
            let p = producer_at(g, nid, j);
            if acc.contains(p) {
                acc
            } else {
                spec_post_node(g, p, acc)
            }
        } else {
            acc
        };
        spec_role_inputs(g, nid, j + 1, acc2, vertex_role)
    }
}

#[via_fn]
proof fn spec_role_inputs_decreases(
    g: MyGraph,
    nid: usize,
    j: int,
    acc: Seq<usize>,
    vertex_role: bool,
) {
    if j < g.nodes@[nid as int].inputs@.len() {
        if has_conn(g, nid, j) {
            let p = producer_at(g, nid, j);
            if !acc.contains(p) {
                lemma_edge_at(g, nid, j);
            }
        }
    }
}

/// The pixel-stage emission order for root `root`: vertex-role sockets of
/// the root do not contribute dependencies.
pub open spec fn spec_px_order(g: MyGraph, root: usize) -> Seq<usize> {
    spec_role_inputs(g, root, 0, Seq::empty(), false).push(root)
}

/// The vertex-stage emission order for root `root`: only vertex-role sockets
/// of the root contribute dependencies.
pub open spec fn spec_vs_order(g: MyGraph, root: usize) -> Seq<usize> {
    spec_role_inputs(g, root, 0, Seq::empty(), true).push(root)
}

/// The filtered analogue of [`lemma_post_inputs_props`].
pub proof fn lemma_role_inputs_props(
    g: MyGraph,
    nid: usize,
    j: int,
    acc: Seq<usize>,
    vertex_role: bool,
)
    requires
        g.wf(),
        is_acyclic(g),
        nid < g.nodes@.len(),
        0 <= j,
        all_valid(g, acc),
        acc.no_duplicates(),
        prefix_closed(g, acc),
    ensures
        ({
            let r = spec_role_inputs(g, nid, j, acc, vertex_role);
            &&& acc.is_prefix_of(r)
            &&& all_valid(g, r)
            &&& r.no_duplicates()
            &&& closed(g, r)
            &&& prefix_closed(g, r)
            &&& (forall|x: usize| acc.contains(x) ==> #[trigger] r.contains(x))
            &&& (forall|x: usize|
                #[trigger] r.contains(x) ==> acc.contains(x) || (reaches(g, nid, x)
                    && the_rank(g)[x] < the_rank(g)[nid]))
            &&& (forall|jj: int|
                j <= jj < g.nodes@[nid as int].inputs@.len() && (is_vertex_socket(
                    g.nodes@[nid as int].inputs@[jj].name@,
                ) == vertex_role) && #[trigger] has_conn(g, nid, jj) ==> r.contains(
                    producer_at(g, nid, jj),
                ))
        }),
    decreases the_rank(g)[nid], g.nodes@[nid as int].inputs@.len() - j,
{
    let len = g.nodes@[nid as int].inputs@.len();
    if j >= len {
        assert(spec_role_inputs(g, nid, j, acc, vertex_role) == acc);
        assert(acc.is_prefix_of(acc));
        assert(acc.take(acc.len() as int) =~= acc);
        assert(closed(g, acc));
    } else {
        let keep = is_vertex_socket(g.nodes@[nid as int].inputs@[j].name@) == vertex_role;
        let acc2 = if keep && has_conn(g, nid, j) {
            let p = producer_at(g, nid, j);
            if acc.contains(p) {
                acc
            } else {
                spec_post_node(g, p, acc)
            }
        } else {
            acc
        };
        if keep && has_conn(g, nid, j) {
            let p = producer_at(g, nid, j);
            lemma_edge_at(g, nid, j);
            if !acc.contains(p) {
                lemma_post_node_props(g, p, acc);
                assert forall|x: usize| #[trigger]
                    acc2.contains(x) implies acc.contains(x) || (reaches(g, nid, x)
                    && the_rank(g)[x] < the_rank(g)[nid]) by {
                    if !acc.contains(x) {
                        assert(reaches(g, p, x));
                        lemma_reaches_step(g, nid, p, x);
                        lemma_reaches_rank(g, the_rank(g), p, x);
                        if x != p {
                            assert(the_rank(g)[x] < the_rank(g)[p]);
                        }
                        assert(the_rank(g)[x] < the_rank(g)[nid]);
                    }
                }
            }
        }
        lemma_role_inputs_props(g, nid, j + 1, acc2, vertex_role);
        let r = spec_role_inputs(g, nid, j, acc, vertex_role);
        assert(r == spec_role_inputs(g, nid, j + 1, acc2, vertex_role));
        assert(acc.is_prefix_of(acc2));
        assert(acc.is_prefix_of(r));
        assert forall|x: usize| acc.contains(x) implies #[trigger] r.contains(x) by {
            assert(acc2.contains(x));
        }
        assert forall|x: usize| #[trigger]
            r.contains(x) implies acc.contains(x) || (reaches(g, nid, x) && the_rank(g)[x]
            < the_rank(g)[nid]) by {
            assert(acc2.contains(x) || reaches(g, nid, x));
        }
        assert forall|jj: int|
            j <= jj < g.nodes@[nid as int].inputs@.len() && (is_vertex_socket(
                g.nodes@[nid as int].inputs@[jj].name@,
            ) == vertex_role) && #[trigger] has_conn(g, nid, jj) implies r.contains(
            producer_at(g, nid, jj),
        ) by {
            if jj == j {
                assert(acc2.contains(producer_at(g, nid, j)));
                assert(r.contains(producer_at(g, nid, j)));
            }
        }
    }
}

/// Properties of a role-filtered order: the root lands last and exactly
/// once, everything is a reachable valid node, every non-root member keeps
/// all its dependencies inside the order, and the root keeps those behind
/// sockets of the selected role.
pub proof fn lemma_role_order_props(g: MyGraph, root: usize, vertex_role: bool)
    requires
        g.wf(),
        is_acyclic(g),
        root < g.nodes@.len(),
    ensures
        ({
            let r = spec_role_inputs(g, root, 0, Seq::empty(), vertex_role).push(root);
            &&& r.len() >= 1
            &&& r.last() == root
            &&& all_valid(g, r)
            &&& r.no_duplicates()
            &&& (forall|x: usize| #[trigger] r.contains(x) ==> reaches(g, root, x))
            &&& (forall|x: usize, p: usize|
                r.contains(x) && x != root && #[trigger] edge(g, x, p)
                    ==> #[trigger] r.contains(p))
            &&& (forall|jj: int|
                0 <= jj < g.nodes@[root as int].inputs@.len() && (is_vertex_socket(
                    g.nodes@[root as int].inputs@[jj].name@,
                ) == vertex_role) && #[trigger] has_conn(g, root, jj) ==> r.contains(
                    producer_at(g, root, jj),
                ))
            &&& (forall|i: int, p: usize|
                0 <= i < r.len() - 1 && #[trigger] edge(g, r[i], p) ==> exists|t: int|
                    0 <= t < i && r[t] == p)
        }),
{
    let acc = Seq::<usize>::empty();
    lemma_prefix_closed_empty(g);
    lemma_role_inputs_props(g, root, 0, acc, vertex_role);
    let rin = spec_role_inputs(g, root, 0, acc, vertex_role);
    let r = rin.push(root);
    assert(r.last() == root);
    assert(forall|i: int| 0 <= i < rin.len() ==> r[i] == rin[i]);
    assert forall|i: int| 0 <= i < rin.len() implies rin[i] != root by {
        assert(rin.contains(rin[i]));
        assert(!acc.contains(rin[i]));
        assert(the_rank(g)[rin[i]] < the_rank(g)[root]);
    }
    assert(r.no_duplicates());
    assert(all_valid(g, r)) by {
        assert(forall|i: int|
            0 <= i < rin.len() ==> r[i] == rin[i] && rin.contains(rin[i]));
    }
    assert forall|x: usize| #[trigger] r.contains(x) implies reaches(g, root, x) by {
        let i = choose|i: int| 0 <= i < r.len() && r[i] == x;
        if i < rin.len() {
            assert(rin.contains(x));
        } else {
            lemma_reaches_refl(g, root);
        }
    }
    assert forall|x: usize, p: usize|
        r.contains(x) && x != root && #[trigger] edge(g, x, p) implies #[trigger] r.contains(
        p,
    ) by {
        let i = choose|i: int| 0 <= i < r.len() && r[i] == x;
        assert(i < rin.len());
        assert(rin.contains(x));
        assert(rin.contains(p));
        let t = choose|t: int| 0 <= t < rin.len() && rin[t] == p;
        assert(r[t] == p);
    }
    assert forall|jj: int|
        0 <= jj < g.nodes@[root as int].inputs@.len() && (is_vertex_socket(
            g.nodes@[root as int].inputs@[jj].name@,
        ) == vertex_role) && #[trigger] has_conn(g, root, jj) implies r.contains(
        producer_at(g, root, jj),
    ) by {
        assert(rin.contains(producer_at(g, root, jj)));
        let t = choose|t: int| 0 <= t < rin.len() && rin[t] == producer_at(g, root, jj);
        assert(r[t] == producer_at(g, root, jj));
    }
    lemma_prefix_closed_ordering(g, rin);
    assert forall|i: int, p: usize|
        0 <= i < r.len() - 1 && #[trigger] edge(g, r[i], p) implies exists|t: int|
        0 <= t < i && r[t] == p by {
        assert(r[i] == rin[i]);
        assert(edge(g, rin[i], p));
        let t = choose|t: int| 0 <= t < i && rin[t] == p;
        assert(r[t] == p);
    }
}

fn vec_contains(v: &Vec<usize>, x: usize) -> (b: bool)
    ensures
        b == v@.contains(x),
{
    let mut i: usize = 0;
    while i < v.len()
        invariant
            i <= v@.len(),
            forall|t: int| 0 <= t < i ==> v@[t] != x,
        decreases v@.len() - i,
    {
        if v[i] == x {
            assert(v@[i as int] == x);
            return true;
        }
        i = i + 1;
    }
    assert(!v@.contains(x));
    false
}

/// Postorder traversal from `node_id`: recurse into each connected input's
/// producer unless it was already collected, then emit `node_id` itself.
pub fn postorder_traversal(graph: &MyGraph, node_id: usize, collect: &mut Vec<usize>)
    requires
        graph.wf(),
        is_acyclic(*graph),
        node_id < graph.nodes@.len(),
    ensures
        final(collect)@ == spec_post_node(*graph, node_id, old(collect)@),
    decreases the_rank(*graph)[node_id],
{
    let ghost collect0 = collect@;
    let num_inputs = graph.nodes[node_id].inputs.len();
    let mut j: usize = 0;
    while j < num_inputs
        invariant
            graph.wf(),
            is_acyclic(*graph),
            node_id < graph.nodes@.len(),
            num_inputs == graph.nodes@[node_id as int].inputs@.len(),
            j <= num_inputs,
            spec_post_inputs(*graph, node_id, j as int, collect@) == spec_post_inputs(
                *graph,
                node_id,
                0,
                collect0,
            ),
        decreases num_inputs - j,
    {
        let conn = graph.nodes[node_id].inputs[j].connection;
        if let Some(oid) = conn {
            proof {
                assert(has_conn(*graph, node_id, j as int));
                lemma_edge_at(*graph, node_id, j as int);
                assert(graph.wf_node(node_id as int));
            }
            let next = graph.output_owner[oid];
            proof {
                assert(next == producer_at(*graph, node_id, j as int));
            }
            if !vec_contains(collect, next) {
                postorder_traversal(graph, next, collect);
            }
        }
        j = j + 1;
    }
    collect.push(node_id);
}

/// Traversal seeding the pixel-shader order: vertex-role sockets of the seed
/// node are ignored.
pub fn postorder_traversal_pixel_shader(
    graph: &MyGraph,
    node_id: usize,
    collect: &mut Vec<usize>,
)
    requires
        graph.wf(),
        is_acyclic(*graph),
        node_id < graph.nodes@.len(),
    ensures
        final(collect)@ == spec_role_inputs(*graph, node_id, 0, old(collect)@, false).push(
            node_id,
        ),
{
    role_traversal(graph, node_id, collect, false);
}

/// Traversal seeding the vertex-shader order: only vertex-role sockets of
/// the seed node are followed.
pub fn postorder_traversal_vertex_shader(
    graph: &MyGraph,
    node_id: usize,
    collect: &mut Vec<usize>,
)
    requires
        graph.wf(),
        is_acyclic(*graph),
        node_id < graph.nodes@.len(),
    ensures
        final(collect)@ == spec_role_inputs(*graph, node_id, 0, old(collect)@, true).push(
            node_id,
        ),
{
    role_traversal(graph, node_id, collect, true);
}

fn role_traversal(
    graph: &MyGraph,
    node_id: usize,
    collect: &mut Vec<usize>,
    vertex_role: bool,
)
    requires
        graph.wf(),
        is_acyclic(*graph),
        node_id < graph.nodes@.len(),
    ensures
        final(collect)@ == spec_role_inputs(*graph, node_id, 0, old(collect)@, vertex_role).push(
            node_id,
        ),
{
    let ghost collect0 = collect@;
    let posws = String::from_str("posWS");
    let nrmws = String::from_str("nrmWS");
    let num_inputs = graph.nodes[node_id].inputs.len();
    let mut j: usize = 0;
    while j < num_inputs
        invariant
            graph.wf(),
            is_acyclic(*graph),
            node_id < graph.nodes@.len(),
            num_inputs == graph.nodes@[node_id as int].inputs@.len(),
            posws@ == "posWS"@,
            nrmws@ == "nrmWS"@,
            j <= num_inputs,
            spec_role_inputs(*graph, node_id, j as int, collect@, vertex_role)
                == spec_role_inputs(*graph, node_id, 0, collect0, vertex_role),
        decreases num_inputs - j,
    {
        let name = &graph.nodes[node_id].inputs[j].name;
        let is_vs_socket = *name == posws || *name == nrmws;
        proof {
            assert(is_vs_socket == is_vertex_socket(
                graph.nodes@[node_id as int].inputs@[j as int].name@,
            ));
        }
        if is_vs_socket == vertex_role {
            let conn = graph.nodes[node_id].inputs[j].connection;
            if let Some(oid) = conn {
                proof {
                    assert(has_conn(*graph, node_id, j as int));
                    lemma_edge_at(*graph, node_id, j as int);
                    assert(graph.wf_node(node_id as int));
                }
                let next = graph.output_owner[oid];
                proof {
                    assert(next == producer_at(*graph, node_id, j as int));
                }
                if !vec_contains(collect, next) {
                    postorder_traversal(graph, next, collect);
                }
            }
        }
        j = j + 1;
    }
    collect.push(node_id);
}

/// The dependency-respecting emission order seeded at `root`: every node
/// reachable through connected inputs appears exactly once, dependencies
/// before their consumers, unreachable nodes not at all, and `root` last.
pub fn order(graph: &MyGraph, root: usize) -> (o: Vec<usize>)
    requires
        graph.wf(),
        is_acyclic(*graph),
        root < graph.nodes@.len(),
    ensures
        o@ == spec_order(*graph, root),
        o@.len() >= 1,
        o@.last() == root,
        o@.no_duplicates(),
        all_valid(*graph, o@),
        closed(*graph, o@),
        forall|x: usize| #[trigger] o@.contains(x) <==> reaches(*graph, root, x),
        forall|i: int, p: usize|
            0 <= i < o@.len() && #[trigger] edge(*graph, o@[i], p) ==> exists|t: int|
                0 <= t < i && o@[t] == p,
{
    let mut o: Vec<usize> = Vec::new();
    postorder_traversal(graph, root, &mut o);
    proof {
        lemma_prefix_closed_empty(*graph);
        lemma_post_node_props(*graph, root, Seq::empty());
        lemma_prefix_closed_ordering(*graph, o@);
        assert(o@.last() == root);
        assert(o@.contains(root));
        assert forall|x: usize| #[trigger] o@.contains(x) implies reaches(*graph, root, x) by {
            assert(!Seq::<usize>::empty().contains(x));
        }
        assert forall|x: usize| reaches(*graph, root, x) implies #[trigger] o@.contains(
            x,
        ) by {
            lemma_closed_complete(*graph, o@, root, x);
        }
    }
    o
}


/// From well-formedness alone: a connected input yields a real edge to an
/// in-range producer.
pub proof fn lemma_conn_edge(g: MyGraph, nid: usize, j: int)
    requires
        g.wf(),
        nid < g.nodes@.len(),
        0 <= j < g.nodes@[nid as int].inputs@.len(),
        has_conn(g, nid, j),
    ensures
        edge_via(g, nid, j, producer_at(g, nid, j)),
        edge(g, nid, producer_at(g, nid, j)),
        producer_at(g, nid, j) < g.nodes@.len(),
{
    assert(g.wf_node(nid as int));
    let oid = g.nodes@[nid as int].inputs@[j].connection->0;
    assert(oid < g.output_owner@.len());
    assert(g.wf_owner(oid as int));
    assert(edge_via(g, nid, j, producer_at(g, nid, j)));
}


/// A duplicate-free sequence of node ids drawn from `0..bound` cannot be
/// longer than `bound`.
pub proof fn lemma_no_dup_len_bound(s: Seq<usize>, bound: nat)
    requires
        s.no_duplicates(),
        forall|i: int| 0 <= i < s.len() ==> (#[trigger] s[i]) < bound,
    ensures
        s.len() <= bound,
{
    let si = s.map_values(|x: usize| x as int);
    assert(si.len() == s.len());
    assert forall|i: int, j: int|
        0 <= i < si.len() && 0 <= j < si.len() && i != j implies si[i] != si[j] by {
        assert(s[i] != s[j]);
    }
    assert(si.no_duplicates());
    si.unique_seq_to_set();
    let range = vstd::set_lib::set_int_range(0, bound as int);
    vstd::set_lib::lemma_int_range(0, bound as int);
    assert forall|x: int| si.to_set().contains(x) implies range.contains(x) by {
        let i = choose|i: int| 0 <= i < si.len() && si[i] == x;
        assert(s[i] < bound);
    }
    assert(range.finite());
    assert(si.to_set().subset_of(range));
    vstd::set_lib::lemma_len_subset(si.to_set(), range);
    assert(si.to_set().len() <= range.len());
}

} // verus!
