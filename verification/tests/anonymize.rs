use matrixgraph::anon::anonymize_graph;
use matrixgraph::graph::NetworkGraph;
use matrixgraph::graph::NodeType;
use matrixgraph::persist::graph_parts;

fn sample_graph() -> NetworkGraph {
    let mut g = NetworkGraph::new();
    let user_a = g.add_node(NodeType::User, 1);
    let user_b = g.add_node(NodeType::User, 2);
    let server = g.add_node(NodeType::Server, 3);
    let room = g.add_node(NodeType::Room, 4);
    g.add_edge(user_a, server);
    g.add_edge(user_b, server);
    g.add_edge(user_a, room);
    g.add_edge(user_b, room);
    g.add_edge(room, server);
    g
}

#[test]
fn anonymize_preserves_counts_kinds_and_edges() {
    let original = sample_graph();
    let (orig_nodes, orig_edges) = graph_parts(&original);
    let anon = anonymize_graph(original);
    let (anon_nodes, anon_edges) = graph_parts(&anon);
    assert_eq!(anon_nodes.len(), orig_nodes.len());
    assert_eq!(anon_edges, orig_edges);
    for (before, after) in orig_nodes.iter().zip(anon_nodes.iter()) {
        assert_eq!(before.kind, after.kind);
    }
}

#[test]
fn anonymize_changes_every_id() {
    let original = sample_graph();
    let (orig_nodes, _) = graph_parts(&original);
    let anon = anonymize_graph(original);
    let (anon_nodes, _) = graph_parts(&anon);
    // A fresh salted 64-bit hash collides with a small fixed id only with
    // negligible probability.
    for (before, after) in orig_nodes.iter().zip(anon_nodes.iter()) {
        assert_ne!(before.id, after.id);
    }
}

#[test]
fn anonymize_twice_is_unlinkable_across_calls() {
    let first = anonymize_graph(sample_graph());
    let second = anonymize_graph(sample_graph());
    let (first_nodes, _) = graph_parts(&first);
    let (second_nodes, _) = graph_parts(&second);
    let mut first_ids: Vec<u64> = first_nodes.iter().map(|n| n.id).collect();
    let mut second_ids: Vec<u64> = second_nodes.iter().map(|n| n.id).collect();
    first_ids.sort();
    second_ids.sort();
    // Fresh key and salt per call: the two id sets agree only with
    // negligible probability.
    assert_ne!(first_ids, second_ids);
}

#[test]
fn anonymize_keeps_same_id_nodes_equal_within_one_call() {
    let mut g = NetworkGraph::new();
    let user_a = g.add_node(NodeType::User, 5);
    let user_b = g.add_node(NodeType::User, 5);
    let server = g.add_node(NodeType::Server, 6);
    let room = g.add_node(NodeType::Room, 7);
    g.add_edge(user_a, server);
    g.add_edge(user_b, server);
    g.add_edge(user_a, room);
    let anon = anonymize_graph(g);
    let (nodes, _) = graph_parts(&anon);
    // Within one call the remapping is a function of the original id.
    assert_eq!(nodes[0].id, nodes[1].id);
    assert_ne!(nodes[0].id, nodes[2].id);
}
