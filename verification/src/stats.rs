//! The aggregators: three read-only distributions over the graph, each a map
//! keyed by domain id (not by handle). Where two nodes of the selected kind
//! share a domain id, the one with the higher handle wins, matching a plain
//! insertion pass in handle order.

use vstd::prelude::*;

use crate::graph::NetworkGraph;
use crate::graph::Node;
use crate::graph::NodeType;
use crate::validate::kind_count;
use crate::validate::neighbor_kind_counts;

verus! {

broadcast use vstd::std_specs::hash::group_hash_axioms;

/// For the first `n` nodes: each Server node's id, mapped to its number of
/// User neighbors and number of Room neighbors; later nodes overwrite earlier
/// ones with the same id.
pub open spec fn server_distribution(nodes: Seq<Node>, edges: Seq<(usize, usize)>, n: int) -> Map<
    u64,
    (usize, usize),
>
    decreases n,
{
    if n <= 0 {
        Map::empty()
    } else {
        let m = server_distribution(nodes, edges, n - 1);
        if nodes[n - 1].kind == NodeType::Server {
            m.insert(
                nodes[n - 1].id,
                (
                    kind_count(nodes, edges, (n - 1) as usize, NodeType::User) as usize,
                    kind_count(nodes, edges, (n - 1) as usize, NodeType::Room) as usize,
                ),
            )
        } else {
            m
        }
    }
}

/// For the first `n` nodes: each Room node's id, mapped to its number of User
/// neighbors and number of Server neighbors; later nodes overwrite earlier
/// ones with the same id.
pub open spec fn room_distribution(nodes: Seq<Node>, edges: Seq<(usize, usize)>, n: int) -> Map<
    u64,
    (usize, usize),
>
    decreases n,
{
    if n <= 0 {
        Map::empty()
    } else {
        let m = room_distribution(nodes, edges, n - 1);
        if nodes[n - 1].kind == NodeType::Room {
            m.insert(
                nodes[n - 1].id,
                (
                    kind_count(nodes, edges, (n - 1) as usize, NodeType::User) as usize,
                    kind_count(nodes, edges, (n - 1) as usize, NodeType::Server) as usize,
                ),
            )
        } else {
            m
        }
    }
}

/// For the first `n` nodes: each User node's id, mapped to its number of Room
/// neighbors; later nodes overwrite earlier ones with the same id. No server
/// count: a well-formed user has exactly one server.
pub open spec fn user_distribution(nodes: Seq<Node>, edges: Seq<(usize, usize)>, n: int) -> Map<
    u64,
    usize,
>
    decreases n,
{
    if n <= 0 {
        Map::empty()
    } else {
        let m = user_distribution(nodes, edges, n - 1);
        if nodes[n - 1].kind == NodeType::User {
            m.insert(
                nodes[n - 1].id,
                kind_count(nodes, edges, (n - 1) as usize, NodeType::Room) as usize,
            )
        } else {
            m
        }
    }
}

/// An id is a key of the server distribution exactly when some Server node
/// among the first `n` carries it.
pub proof fn lemma_server_distribution_keys(
    nodes: Seq<Node>,
    edges: Seq<(usize, usize)>,
    n: int,
    id: u64,
)
    requires
        0 <= n <= nodes.len(),
    ensures
        server_distribution(nodes, edges, n).contains_key(id) <==> exists|i: int|
            0 <= i < n && (#[trigger] nodes[i]).kind == NodeType::Server && nodes[i].id == id,
    decreases n,
{
    if n > 0 {
        lemma_server_distribution_keys(nodes, edges, n - 1, id);
    }
}

/// Where several Server nodes share an id, the one with the highest handle
/// wins: the distribution maps the id to the neighbor counts of the last
/// Server node that carries it.
pub proof fn lemma_server_distribution_value(
    nodes: Seq<Node>,
    edges: Seq<(usize, usize)>,
    n: int,
    i: int,
)
    requires
        0 <= i < n <= nodes.len(),
        nodes[i].kind == NodeType::Server,
        forall|j: int|
            i < j < n ==> !((#[trigger] nodes[j]).kind == NodeType::Server && nodes[j].id
                == nodes[i].id),
    ensures
        server_distribution(nodes, edges, n).contains_key(nodes[i].id),
        server_distribution(nodes, edges, n)[nodes[i].id] == (
            kind_count(nodes, edges, i as usize, NodeType::User) as usize,
            kind_count(nodes, edges, i as usize, NodeType::Room) as usize,
        ),
    decreases n,
{
    if i < n - 1 {
        lemma_server_distribution_value(nodes, edges, n - 1, i);
    }
}

/// An id is a key of the room distribution exactly when some Room node among
/// the first `n` carries it.
pub proof fn lemma_room_distribution_keys(
    nodes: Seq<Node>,
    edges: Seq<(usize, usize)>,
    n: int,
    id: u64,
)
    requires
        0 <= n <= nodes.len(),
    ensures
        room_distribution(nodes, edges, n).contains_key(id) <==> exists|i: int|
            0 <= i < n && (#[trigger] nodes[i]).kind == NodeType::Room && nodes[i].id == id,
    decreases n,
{
    if n > 0 {
        lemma_room_distribution_keys(nodes, edges, n - 1, id);
    }
}

/// The room distribution maps a shared id to the counts of the last Room
/// node that carries it.
pub proof fn lemma_room_distribution_value(
    nodes: Seq<Node>,
    edges: Seq<(usize, usize)>,
    n: int,
    i: int,
)
    requires
        0 <= i < n <= nodes.len(),
        nodes[i].kind == NodeType::Room,
        forall|j: int|
            i < j < n ==> !((#[trigger] nodes[j]).kind == NodeType::Room && nodes[j].id
                == nodes[i].id),
    ensures
        room_distribution(nodes, edges, n).contains_key(nodes[i].id),
        room_distribution(nodes, edges, n)[nodes[i].id] == (
            kind_count(nodes, edges, i as usize, NodeType::User) as usize,
            kind_count(nodes, edges, i as usize, NodeType::Server) as usize,
        ),
    decreases n,
{
    if i < n - 1 {
        lemma_room_distribution_value(nodes, edges, n - 1, i);
    }
}

/// An id is a key of the user distribution exactly when some User node among
/// the first `n` carries it.
pub proof fn lemma_user_distribution_keys(
    nodes: Seq<Node>,
    edges: Seq<(usize, usize)>,
    n: int,
    id: u64,
)
    requires
        0 <= n <= nodes.len(),
    ensures
        user_distribution(nodes, edges, n).contains_key(id) <==> exists|i: int|
            0 <= i < n && (#[trigger] nodes[i]).kind == NodeType::User && nodes[i].id == id,
    decreases n,
{
    if n > 0 {
        lemma_user_distribution_keys(nodes, edges, n - 1, id);
    }
}

/// The user distribution maps a shared id to the room count of the last User
/// node that carries it.
pub proof fn lemma_user_distribution_value(
    nodes: Seq<Node>,
    edges: Seq<(usize, usize)>,
    n: int,
    i: int,
)
    requires
        0 <= i < n <= nodes.len(),
        nodes[i].kind == NodeType::User,
        forall|j: int|
            i < j < n ==> !((#[trigger] nodes[j]).kind == NodeType::User && nodes[j].id
                == nodes[i].id),
    ensures
        user_distribution(nodes, edges, n).contains_key(nodes[i].id),
        user_distribution(nodes, edges, n)[nodes[i].id] == kind_count(
            nodes,
            edges,
            i as usize,
            NodeType::Room,
        ) as usize,
    decreases n,
{
    if i < n - 1 {
        lemma_user_distribution_value(nodes, edges, n - 1, i);
    }
}

/// Maps every Server node's domain id to its (User neighbor count, Room
/// neighbor count).
pub fn users_rooms_per_server_distribution(graph: &NetworkGraph) -> (r: std::collections::HashMap<
    u64,
    (usize, usize),
>)
    ensures
        r@ == server_distribution(graph.nodes(), graph.edges(), graph.nodes().len() as int),
{
    let node_count = graph.node_count();
    let mut r: std::collections::HashMap<u64, (usize, usize)> = std::collections::HashMap::new();
    let mut i: usize = 0;
    while i < node_count
        invariant
            i <= node_count,
            node_count == graph.nodes().len(),
            r@ == server_distribution(graph.nodes(), graph.edges(), i as int),
        decreases node_count - i,
    {
        let node = graph.node(i);
        match node.kind {
            NodeType::Server => {
                let counts = neighbor_kind_counts(graph, i);
                r.insert(node.id, (counts.0, counts.1));
            },
            _ => {},
        }
        i = i + 1;
    }
    r
}

/// Maps every Room node's domain id to its (User neighbor count, Server
/// neighbor count).
pub fn users_servers_per_room_distribution(graph: &NetworkGraph) -> (r: std::collections::HashMap<
    u64,
    (usize, usize),
>)
    ensures
        r@ == room_distribution(graph.nodes(), graph.edges(), graph.nodes().len() as int),
{
    let node_count = graph.node_count();
    let mut r: std::collections::HashMap<u64, (usize, usize)> = std::collections::HashMap::new();
    let mut i: usize = 0;
    while i < node_count
        invariant
            i <= node_count,
            node_count == graph.nodes().len(),
            r@ == room_distribution(graph.nodes(), graph.edges(), i as int),
        decreases node_count - i,
    {
        let node = graph.node(i);
        match node.kind {
            NodeType::Room => {
                let counts = neighbor_kind_counts(graph, i);
                r.insert(node.id, (counts.0, counts.2));
            },
            _ => {},
        }
        i = i + 1;
    }
    r
}

/// Maps every User node's domain id to its Room neighbor count.
pub fn rooms_per_user_distribution(graph: &NetworkGraph) -> (r: std::collections::HashMap<
    u64,
    usize,
>)
    ensures
        r@ == user_distribution(graph.nodes(), graph.edges(), graph.nodes().len() as int),
{
    let node_count = graph.node_count();
    let mut r: std::collections::HashMap<u64, usize> = std::collections::HashMap::new();
    let mut i: usize = 0;
    while i < node_count
        invariant
            i <= node_count,
            node_count == graph.nodes().len(),
            r@ == user_distribution(graph.nodes(), graph.edges(), i as int),
        decreases node_count - i,
    {
        let node = graph.node(i);
        match node.kind {
            NodeType::User => {
                let counts = neighbor_kind_counts(graph, i);
                r.insert(node.id, counts.1);
            },
            _ => {},
        }
        i = i + 1;
    }
    r
}

} // verus!
