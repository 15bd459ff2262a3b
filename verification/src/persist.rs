//! The persisted form of a graph: its node list and its edge list, as plain
//! values. Writing a graph means taking these two lists and rendering them in
//! the on-disk format; reading means parsing the two lists back and rebuilding
//! the graph from them. Both directions here are exact, so a write followed
//! by a read reproduces the node list and the edge list identically.

use vstd::prelude::*;

use crate::graph::lists_valid;
use crate::graph::NetworkGraph;
use crate::graph::Node;
use crate::graph::MAX_INDEX;

verus! {

/// The two lists a graph is persisted as: its nodes in handle order, and its
/// edges as endpoint-handle pairs in insertion order.
pub fn graph_parts(graph: &NetworkGraph) -> (p: (Vec<Node>, Vec<(usize, usize)>))
    ensures
        p.0@ == graph.nodes(),
        p.1@ == graph.edges(),
{
    let node_count = graph.node_count();
    let edge_count = graph.edge_count();
    let mut nodes: Vec<Node> = Vec::new();
    let mut i: usize = 0;
    while i < node_count
        invariant
            i <= node_count,
            node_count == graph.nodes().len(),
            nodes@ == graph.nodes().take(i as int),
        decreases node_count - i,
    {
        nodes.push(graph.node(i));
        proof {
            assert(nodes@ =~= graph.nodes().take(i as int + 1));
        }
        i = i + 1;
    }
    let mut edges: Vec<(usize, usize)> = Vec::new();
    let mut e: usize = 0;
    while e < edge_count
        invariant
            e <= edge_count,
            edge_count == graph.edges().len(),
            edges@ == graph.edges().take(e as int),
        decreases edge_count - e,
    {
        edges.push(graph.edge(e));
        proof {
            assert(edges@ =~= graph.edges().take(e as int + 1));
        }
        e = e + 1;
    }
    proof {
        assert(graph.nodes().take(node_count as int) =~= graph.nodes());
        assert(graph.edges().take(edge_count as int) =~= graph.edges());
    }
    (nodes, edges)
}

/// Rebuilds a graph from a persisted node list and edge list. Returns `None`
/// exactly when the lists do not describe a representable graph: a list
/// longer than the index space, or an edge endpoint that is no valid handle.
/// On success the rebuilt graph holds exactly the given lists.
pub fn graph_from_parts(nodes: &Vec<Node>, edges: &Vec<(usize, usize)>) -> (r: Option<
    NetworkGraph,
>)
    ensures
        r is Some <==> lists_valid(nodes@, edges@),
        r is Some ==> {
            &&& r->Some_0.wf()
            &&& r->Some_0.nodes() == nodes@
            &&& r->Some_0.edges() == edges@
        },
{
    if nodes.len() > MAX_INDEX || edges.len() > MAX_INDEX {
        return None;
    }
    let mut graph = NetworkGraph::new();
    let mut i: usize = 0;
    while i < nodes.len()
        invariant
            i <= nodes@.len() <= MAX_INDEX,
            graph.wf(),
            graph.nodes() == nodes@.take(i as int),
            graph.edges().len() == 0,
        decreases nodes@.len() - i,
    {
        graph.add_node(nodes[i].kind, nodes[i].id);
        proof {
            assert(graph.nodes() =~= nodes@.take(i as int + 1));
        }
        i = i + 1;
    }
    proof {
        assert(nodes@.take(nodes@.len() as int) =~= nodes@);
    }
    let mut e: usize = 0;
    while e < edges.len()
        invariant
            e <= edges@.len() <= MAX_INDEX,
            graph.wf(),
            graph.nodes() == nodes@,
            graph.edges() == edges@.take(e as int),
        decreases edges@.len() - e,
    {
        let edge = edges[e];
        if edge.0 >= nodes.len() || edge.1 >= nodes.len() {
            return None;
        }
        graph.add_edge(edge.0, edge.1);
        proof {
            assert(graph.edges() =~= edges@.take(e as int + 1));
        }
        e = e + 1;
    }
    proof {
        assert(edges@.take(edges@.len() as int) =~= edges@);
        assert forall|k: int| 0 <= k < edges@.len() implies (#[trigger] edges@[k]).0 < nodes@.len()
            && edges@[k].1 < nodes@.len() by {
            assert(graph.edges()[k] == edges@[k]);
        }
    }
    Some(graph)
}

/// The directory a run's output goes under, for a timestamp rendered to the
/// second: `data/graphs/graph_<timestamp>`.
pub fn graph_dir_name(timestamp: &str) -> (s: String)
    ensures
        s@ == "data/graphs/graph_"@ + timestamp@,
{
    let mut s = String::from_str("data/graphs/graph_");
    s.append(timestamp);
    s
}

/// Round trip: the parts a graph is persisted as are always representable, so
/// `graph_from_parts` accepts what `graph_parts` produced and — by the two
/// functions' contracts — rebuilds a graph with an identical node list and an
/// identical edge list.
pub proof fn lemma_parts_round_trip(graph: NetworkGraph)
    requires
        graph.wf(),
    ensures
        lists_valid(graph.nodes(), graph.edges()),
{
}

} // verus!
