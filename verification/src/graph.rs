//! The graph model: typed nodes with a domain id, undirected unlabeled edges.
//!
//! The container is `petgraph::Graph<Node, (), Undirected>`, held in a private
//! field. Its contents are named by two uninterpreted functions, `pg_nodes`
//! and `pg_edges`; the trusted wrappers around the petgraph calls state what
//! each call does in terms of those names, and everything else is verified
//! against them. A node handle is the node's position in insertion order; an
//! edge is the (unordered in meaning, stored as given) pair of its endpoint
//! handles.

use vstd::prelude::*;

verus! {

/// The kind of a vertex in the federation graph.
#[derive(Copy, Clone, Debug, PartialEq, Eq, Structural, Hash)]
pub enum NodeType {
    Room,
    User,
    Server,
}

/// A vertex: a kind together with a domain identifier. The id is meaningful
/// to the caller (and is what the anonymizer remaps); it is distinct from the
/// positional handle a `NetworkGraph` assigns on insertion.
#[derive(Copy, Clone, Debug, PartialEq, Eq, Structural, Hash)]
pub struct Node {
    pub kind: NodeType,
    pub id: u64,
}

/// Node and edge handles are stored by petgraph as `u32` indices; a graph can
/// hold at most this many nodes and at most this many edges.
pub const MAX_INDEX: usize = 0xffff_ffff;

#[verifier::external_type_specification]
#[verifier::external_body]
#[verifier::reject_recursive_types(N)]
#[verifier::reject_recursive_types(E)]
#[verifier::reject_recursive_types(Ty)]
#[verifier::reject_recursive_types(Ix)]
pub struct ExPetgraphGraph<N, E, Ty, Ix>(petgraph::graph::Graph<N, E, Ty, Ix>);

#[verifier::external_type_specification]
#[verifier::external_body]
pub struct ExUndirected(petgraph::Undirected);

/// The nodes a petgraph graph holds, in insertion order.
pub uninterp spec fn pg_nodes(g: petgraph::graph::Graph<Node, (), petgraph::Undirected>) -> Seq<
    Node,
>;

/// The edges a petgraph graph holds, in insertion order, each as the pair of
/// endpoint handles it was added with.
pub uninterp spec fn pg_edges(g: petgraph::graph::Graph<Node, (), petgraph::Undirected>) -> Seq<
    (usize, usize),
>;

/// Relies on petgraph's `Graph::new_undirected`: an empty graph.
#[verifier::external_body]
fn pg_new() -> (g: petgraph::graph::Graph<Node, (), petgraph::Undirected>)
    ensures
        pg_nodes(g) == Seq::<Node>::empty(),
        pg_edges(g) == Seq::<(usize, usize)>::empty(),
{
    petgraph::graph::Graph::new_undirected()
}

/// Relies on petgraph's `Graph::node_count`: the length of the node list.
#[verifier::external_body]
fn pg_node_count(g: &petgraph::graph::Graph<Node, (), petgraph::Undirected>) -> (n: usize)
    ensures
        n == pg_nodes(*g).len(),
{
    g.node_count()
}

/// Relies on petgraph's `Graph::edge_count`: the length of the edge list.
#[verifier::external_body]
fn pg_edge_count(g: &petgraph::graph::Graph<Node, (), petgraph::Undirected>) -> (n: usize)
    ensures
        n == pg_edges(*g).len(),
{
    g.edge_count()
}

/// Relies on petgraph's `Graph::add_node`: appends the weight to the node
/// list and returns its index. Panics only when the index space (`u32` here)
/// is exhausted, which the precondition rules out.
#[verifier::external_body]
fn pg_add_node(g: &mut petgraph::graph::Graph<Node, (), petgraph::Undirected>, n: Node) -> (i:
    usize)
    requires
        pg_nodes(*old(g)).len() < MAX_INDEX,
    ensures
        pg_nodes(*final(g)) == pg_nodes(*old(g)).push(n),
        pg_edges(*final(g)) == pg_edges(*old(g)),
        i == pg_nodes(*old(g)).len(),
{
    g.add_node(n).index()
}

/// Relies on petgraph's `Graph::add_edge`: appends an edge between the two
/// handles to the edge list (duplicates and self-loops are kept as given).
/// Panics only on an out-of-bounds handle or an exhausted `u32` index space,
/// which the preconditions rule out.
#[verifier::external_body]
fn pg_add_edge(g: &mut petgraph::graph::Graph<Node, (), petgraph::Undirected>, a: usize, b: usize)
    requires
        a < pg_nodes(*old(g)).len(),
        b < pg_nodes(*old(g)).len(),
        pg_edges(*old(g)).len() < MAX_INDEX,
    ensures
        pg_nodes(*final(g)) == pg_nodes(*old(g)),
        pg_edges(*final(g)) == pg_edges(*old(g)).push((a, b)),
{
    g.add_edge(
        petgraph::graph::NodeIndex::new(a),
        petgraph::graph::NodeIndex::new(b),
        (),
    );
}

/// Relies on petgraph's `Graph::node_weight`: the weight stored at a valid
/// handle.
#[verifier::external_body]
fn pg_node_at(g: &petgraph::graph::Graph<Node, (), petgraph::Undirected>, i: usize) -> (n: Node)
    requires
        i < pg_nodes(*g).len(),
    ensures
        n == pg_nodes(*g)[i as int],
{
    *g.node_weight(petgraph::graph::NodeIndex::new(i)).expect("handle in bounds")
}

/// Relies on petgraph's `Graph::edge_endpoints`: the pair of endpoint handles
/// of a valid edge index, in the order the edge was added with.
#[verifier::external_body]
fn pg_edge_at(g: &petgraph::graph::Graph<Node, (), petgraph::Undirected>, e: usize) -> (p: (
    usize,
    usize,
))
    requires
        e < pg_edges(*g).len(),
    ensures
        p == pg_edges(*g)[e as int],
{
    let (a, b) = g.edge_endpoints(petgraph::graph::EdgeIndex::new(e)).expect("edge in bounds");
    (a.index(), b.index())
}

/// The neighbor that edge `e` gives node `i`, if any: an edge yields its
/// other endpoint once for each end that equals `i`, except that a self-loop
/// yields `i` only once.
pub open spec fn edge_neighbor(e: (usize, usize), i: usize) -> Option<usize> {
    if e.0 == i {
        Some(e.1)
    } else if e.1 == i {
        Some(e.0)
    } else {
        None
    }
}

/// The neighbor handles of node `i`, one per incident edge, in edge insertion
/// order. A duplicate edge contributes its endpoint once more; a self-loop
/// contributes `i` once.
pub open spec fn neighbor_seq(edges: Seq<(usize, usize)>, i: usize) -> Seq<usize>
    decreases edges.len(),
{
    if edges.len() == 0 {
        Seq::empty()
    } else {
        neighbor_seq(edges.drop_last(), i) + match edge_neighbor(edges.last(), i) {
            Some(j) => seq![j],
            None => Seq::empty(),
        }
    }
}

/// Whether a node list and an edge list together describe a representable
/// graph: both fit the `u32` index space and every edge endpoint is a valid
/// handle into the node list.
pub open spec fn lists_valid(nodes: Seq<Node>, edges: Seq<(usize, usize)>) -> bool {
    &&& nodes.len() <= MAX_INDEX
    &&& edges.len() <= MAX_INDEX
    &&& forall|e: int|
        0 <= e < edges.len() ==> (#[trigger] edges[e]).0 < nodes.len() && edges[e].1 < nodes.len()
}

/// An undirected multigraph of typed nodes. Handles are insertion positions;
/// edges carry no payload.
pub struct NetworkGraph {
    inner: petgraph::graph::Graph<Node, (), petgraph::Undirected>,
}

impl NetworkGraph {
    /// The node list, in insertion order; a handle is an index into it.
    pub closed spec fn nodes(self) -> Seq<Node> {
        pg_nodes(self.inner)
    }

    /// The edge list, in insertion order, each edge as its endpoint handles.
    pub closed spec fn edges(self) -> Seq<(usize, usize)> {
        pg_edges(self.inner)
    }

    /// Every graph built through this interface satisfies this: both lists
    /// fit the `u32` index space and every edge endpoint is a valid handle.
    pub open spec fn wf(self) -> bool {
        lists_valid(self.nodes(), self.edges())
    }

    /// An empty graph.
    pub fn new() -> (g: NetworkGraph)
        ensures
            g.wf(),
            g.nodes() == Seq::<Node>::empty(),
            g.edges() == Seq::<(usize, usize)>::empty(),
    {
        NetworkGraph { inner: pg_new() }
    }

    pub fn node_count(&self) -> (n: usize)
        ensures
            n == self.nodes().len(),
    {
        pg_node_count(&self.inner)
    }

    pub fn edge_count(&self) -> (n: usize)
        ensures
            n == self.edges().len(),
    {
        pg_edge_count(&self.inner)
    }

    /// Appends a node and returns its handle.
    pub fn add_node(&mut self, kind: NodeType, id: u64) -> (i: usize)
        requires
            old(self).wf(),
            old(self).nodes().len() < MAX_INDEX,
        ensures
            final(self).wf(),
            final(self).nodes() == old(self).nodes().push(Node { kind, id }),
            final(self).edges() == old(self).edges(),
            i == old(self).nodes().len(),
    {
        pg_add_node(&mut self.inner, Node { kind, id })
    }

    /// Appends an undirected edge between two valid handles. Duplicate edges
    /// and self-loops are permitted and kept.
    pub fn add_edge(&mut self, a: usize, b: usize)
        requires
            old(self).wf(),
            a < old(self).nodes().len(),
            b < old(self).nodes().len(),
            old(self).edges().len() < MAX_INDEX,
        ensures
            final(self).wf(),
            final(self).nodes() == old(self).nodes(),
            final(self).edges() == old(self).edges().push((a, b)),
    {
        pg_add_edge(&mut self.inner, a, b)
    }

    /// The node stored at a valid handle.
    pub fn node(&self, i: usize) -> (n: Node)
        requires
            i < self.nodes().len(),
        ensures
            n == self.nodes()[i as int],
    {
        pg_node_at(&self.inner, i)
    }

    /// The endpoint handles of a valid edge index.
    pub fn edge(&self, e: usize) -> (p: (usize, usize))
        requires
            e < self.edges().len(),
        ensures
            p == self.edges()[e as int],
    {
        pg_edge_at(&self.inner, e)
    }

    /// The neighbor handles of node `i`, one per incident edge.
    pub fn neighbors(&self, i: usize) -> (r: Vec<usize>)
        ensures
            r@ == neighbor_seq(self.edges(), i),
    {
        let edge_count = self.edge_count();
        let mut r: Vec<usize> = Vec::new();
        let mut e: usize = 0;
        while e < edge_count
            invariant
                e <= edge_count,
                edge_count == self.edges().len(),
                r@ == neighbor_seq(self.edges().take(e as int), i),
            decreases edge_count - e,
        {
            proof {
                assert(self.edges().take(e as int + 1).drop_last() =~= self.edges().take(e as int));
            }
            let edge = self.edge(e);
            if edge.0 == i {
                r.push(edge.1);
            } else if edge.1 == i {
                r.push(edge.0);
            }
            proof {
                assert(r@ =~= neighbor_seq(self.edges().take(e as int + 1), i));
            }
            e = e + 1;
        }
        proof {
            assert(self.edges().take(edge_count as int) =~= self.edges());
        }
        r
    }
}

} // verus!
