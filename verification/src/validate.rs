//! The validator: per-node structural invariants over neighbor kinds.
//!
//! A User must have exactly one Server neighbor and at least one Room
//! neighbor; a Room at least one User and one Server; a Server at least one
//! User and one Room. The checks are diagnostics, not guards: a graph may be
//! malformed, and the validator only classifies it.

use vstd::prelude::*;

use crate::graph::edge_neighbor;
use crate::graph::NetworkGraph;
use crate::graph::Node;
use crate::graph::NodeType;

verus! {

/// How many neighbors of kind `k` node `i` has: one for each edge incident to
/// `i` whose other endpoint is a valid handle of kind `k`. Duplicate edges
/// count once each.
pub open spec fn kind_count(
    nodes: Seq<Node>,
    edges: Seq<(usize, usize)>,
    i: usize,
    k: NodeType,
) -> nat
    decreases edges.len(),
{
    if edges.len() == 0 {
        0
    } else {
        kind_count(nodes, edges.drop_last(), i, k) + match edge_neighbor(edges.last(), i) {
            Some(j) => if j < nodes.len() && nodes[j as int].kind == k {
                1nat
            } else {
                0nat
            },
            None => 0nat,
        }
    }
}

pub proof fn lemma_kind_count_le_edges(
    nodes: Seq<Node>,
    edges: Seq<(usize, usize)>,
    i: usize,
    k: NodeType,
)
    ensures
        kind_count(nodes, edges, i, k) <= edges.len(),
    decreases edges.len(),
{
    if edges.len() > 0 {
        lemma_kind_count_le_edges(nodes, edges.drop_last(), i, k);
    }
}

/// The counting spec agrees with the neighbor list of the graph model:
/// node `i`'s count for kind `k` is the number of entries of its neighbor
/// sequence that name a valid handle of that kind.
pub proof fn lemma_kind_count_is_neighbor_count(
    nodes: Seq<Node>,
    edges: Seq<(usize, usize)>,
    i: usize,
    k: NodeType,
)
    ensures
        kind_count(nodes, edges, i, k) == crate::graph::neighbor_seq(edges, i).filter(
            |j: usize| j < nodes.len() && nodes[j as int].kind == k,
        ).len(),
    decreases edges.len(),
{
    broadcast use vstd::seq_lib::group_seq_properties;

    let pred = |j: usize| j < nodes.len() && nodes[j as int].kind == k;
    if edges.len() == 0 {
        assert(crate::graph::neighbor_seq(edges, i).filter(pred) =~= Seq::<usize>::empty());
    } else {
        lemma_kind_count_is_neighbor_count(nodes, edges.drop_last(), i, k);
        let prefix = crate::graph::neighbor_seq(edges.drop_last(), i);
        let tail = match edge_neighbor(edges.last(), i) {
            Some(j) => seq![j],
            None => Seq::<usize>::empty(),
        };
        Seq::filter_distributes_over_add(prefix, tail, pred);
        match edge_neighbor(edges.last(), i) {
            Some(j) => {
                assert(tail.drop_last() =~= Seq::<usize>::empty());
                reveal_with_fuel(Seq::filter, 2);
                assert(tail.filter(pred).len() == if pred(j) {
                    1int
                } else {
                    0int
                });
            },
            None => {
                assert(tail.filter(pred) =~= Seq::<usize>::empty());
            },
        }
    }
}

/// The structural invariant of node `i`, by its kind.
pub open spec fn node_wellformed(nodes: Seq<Node>, edges: Seq<(usize, usize)>, i: usize) -> bool
    recommends
        i < nodes.len(),
{
    match nodes[i as int].kind {
        NodeType::User => kind_count(nodes, edges, i, NodeType::Server) == 1 && kind_count(
            nodes,
            edges,
            i,
            NodeType::Room,
        ) >= 1,
        NodeType::Room => kind_count(nodes, edges, i, NodeType::User) >= 1 && kind_count(
            nodes,
            edges,
            i,
            NodeType::Server,
        ) >= 1,
        NodeType::Server => kind_count(nodes, edges, i, NodeType::User) >= 1 && kind_count(
            nodes,
            edges,
            i,
            NodeType::Room,
        ) >= 1,
    }
}

/// A whole graph is well-formed exactly when every one of its nodes is.
pub open spec fn graph_wellformed(nodes: Seq<Node>, edges: Seq<(usize, usize)>) -> bool {
    forall|i: usize| i < nodes.len() ==> #[trigger] node_wellformed(nodes, edges, i)
}

/// One malformed node makes the whole graph malformed, and a graph with no
/// malformed node is well-formed: the graph predicate is exactly the
/// conjunction of the per-node invariants.
pub proof fn lemma_graph_wellformed_iff_each_node(nodes: Seq<Node>, edges: Seq<(usize, usize)>)
    ensures
        graph_wellformed(nodes, edges) <==> (forall|i: usize|
            i < nodes.len() ==> #[trigger] node_wellformed(nodes, edges, i)),
{
}

/// Counts node `i`'s neighbors of each kind, as `(users, rooms, servers)`.
/// This triple is also the structured record a diagnostic about a malformed
/// node reports.
pub fn neighbor_kind_counts(graph: &NetworkGraph, i: usize) -> (c: (usize, usize, usize))
    ensures
        c.0 == kind_count(graph.nodes(), graph.edges(), i, NodeType::User),
        c.1 == kind_count(graph.nodes(), graph.edges(), i, NodeType::Room),
        c.2 == kind_count(graph.nodes(), graph.edges(), i, NodeType::Server),
{
    let node_count = graph.node_count();
    let edge_count = graph.edge_count();
    let mut users: usize = 0;
    let mut rooms: usize = 0;
    let mut servers: usize = 0;
    let mut e: usize = 0;
    while e < edge_count
        invariant
            e <= edge_count,
            edge_count == graph.edges().len(),
            node_count == graph.nodes().len(),
            users == kind_count(graph.nodes(), graph.edges().take(e as int), i, NodeType::User),
            rooms == kind_count(graph.nodes(), graph.edges().take(e as int), i, NodeType::Room),
            servers == kind_count(graph.nodes(), graph.edges().take(e as int), i, NodeType::Server),
        decreases edge_count - e,
    {
        proof {
            lemma_kind_count_le_edges(graph.nodes(), graph.edges().take(e as int), i, NodeType::User);
            lemma_kind_count_le_edges(graph.nodes(), graph.edges().take(e as int), i, NodeType::Room);
            lemma_kind_count_le_edges(
                graph.nodes(),
                graph.edges().take(e as int),
                i,
                NodeType::Server,
            );
            assert(graph.edges().take(e as int + 1).drop_last() =~= graph.edges().take(e as int));
        }
        let edge = graph.edge(e);
        let neighbor: Option<usize> = if edge.0 == i {
            Some(edge.1)
        } else if edge.1 == i {
            Some(edge.0)
        } else {
            None
        };
        match neighbor {
            Some(j) => {
                if j < node_count {
                    match graph.node(j).kind {
                        NodeType::User => users = users + 1,
                        NodeType::Room => rooms = rooms + 1,
                        NodeType::Server => servers = servers + 1,
                    }
                }
            },
            None => {},
        }
        e = e + 1;
    }
    proof {
        assert(graph.edges().take(edge_count as int) =~= graph.edges());
    }
    (users, rooms, servers)
}

/// Whether node `i` satisfies the invariant of its kind.
pub fn is_wellformed_node(graph: &NetworkGraph, i: usize) -> (r: bool)
    requires
        i < graph.nodes().len(),
    ensures
        r == node_wellformed(graph.nodes(), graph.edges(), i),
{
    let counts = neighbor_kind_counts(graph, i);
    match graph.node(i).kind {
        NodeType::User => counts.2 == 1 && counts.1 >= 1,
        NodeType::Room => counts.0 >= 1 && counts.2 >= 1,
        NodeType::Server => counts.0 >= 1 && counts.1 >= 1,
    }
}

/// Whether every node of the graph satisfies its invariant. The check is
/// exhaustive: every node is visited, never an early exit, so the handles
/// `malformed_nodes` reports are complete diagnostics for the same pass.
pub fn is_wellformed_graph(graph: &NetworkGraph) -> (r: bool)
    ensures
        r == graph_wellformed(graph.nodes(), graph.edges()),
{
    let node_count = graph.node_count();
    let mut all_ok = true;
    let mut i: usize = 0;
    while i < node_count
        invariant
            i <= node_count,
            node_count == graph.nodes().len(),
            all_ok == (forall|j: usize|
                j < i ==> #[trigger] node_wellformed(graph.nodes(), graph.edges(), j)),
        decreases node_count - i,
    {
        let ok = is_wellformed_node(graph, i);
        all_ok = ok && all_ok;
        i = i + 1;
    }
    all_ok
}

/// The handles of the malformed nodes, in ascending order: the prefix for
/// node count `n`.
pub open spec fn malformed_seq(nodes: Seq<Node>, edges: Seq<(usize, usize)>, n: int) -> Seq<usize>
    decreases n,
{
    if n <= 0 {
        Seq::empty()
    } else {
        malformed_seq(nodes, edges, n - 1) + if !node_wellformed(nodes, edges, (n - 1) as usize) {
            seq![(n - 1) as usize]
        } else {
            Seq::empty()
        }
    }
}

/// The diagnostics are complete: for a node count `n`, the report of the
/// first `n` nodes is empty exactly when each of those nodes is well-formed,
/// and every malformed handle below `n` appears in it.
pub proof fn lemma_malformed_seq_complete(nodes: Seq<Node>, edges: Seq<(usize, usize)>, n: int)
    requires
        0 <= n,
    ensures
        malformed_seq(nodes, edges, n).len() == 0 <==> (forall|i: usize|
            i < n ==> #[trigger] node_wellformed(nodes, edges, i)),
        forall|i: usize|
            i < n && !(#[trigger] node_wellformed(nodes, edges, i)) ==> malformed_seq(
                nodes,
                edges,
                n,
            ).contains(i),
    decreases n,
{
    if n > 0 {
        lemma_malformed_seq_complete(nodes, edges, n - 1);
        assert forall|i: usize|
            i < n && !(#[trigger] node_wellformed(nodes, edges, i)) implies malformed_seq(
            nodes,
            edges,
            n,
        ).contains(i) by {
            if i < n - 1 {
                let s = malformed_seq(nodes, edges, n - 1);
                let k = choose|k: int| 0 <= k < s.len() && s[k] == i;
                assert(malformed_seq(nodes, edges, n)[k] == i);
            } else {
                let s = malformed_seq(nodes, edges, n);
                assert(s[s.len() - 1] == i);
            }
        }
    }
}

/// One malformed node makes `is_wellformed_graph` false while still being
/// reported: an empty report coincides with a well-formed graph.
pub proof fn lemma_report_empty_iff_wellformed(nodes: Seq<Node>, edges: Seq<(usize, usize)>)
    ensures
        malformed_seq(nodes, edges, nodes.len() as int).len() == 0 <==> graph_wellformed(
            nodes,
            edges,
        ),
{
    lemma_malformed_seq_complete(nodes, edges, nodes.len() as int);
}

/// The handles of every node that fails its invariant, in ascending order.
/// A caller that wants the full diagnostic record pairs each handle with the
/// node's value and its `neighbor_kind_counts`.
pub fn malformed_nodes(graph: &NetworkGraph) -> (r: Vec<usize>)
    ensures
        r@ == malformed_seq(graph.nodes(), graph.edges(), graph.nodes().len() as int),
{
    let node_count = graph.node_count();
    let mut r: Vec<usize> = Vec::new();
    let mut i: usize = 0;
    while i < node_count
        invariant
            i <= node_count,
            node_count == graph.nodes().len(),
            r@ == malformed_seq(graph.nodes(), graph.edges(), i as int),
        decreases node_count - i,
    {
        if !is_wellformed_node(graph, i) {
            r.push(i);
            proof {
                assert(r@ =~= malformed_seq(graph.nodes(), graph.edges(), i as int + 1));
            }
        } else {
            proof {
                assert(r@ =~= malformed_seq(graph.nodes(), graph.edges(), i as int + 1));
            }
        }
        i = i + 1;
    }
    r
}

} // verus!
