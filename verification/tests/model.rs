use matrixgraph::graph::NetworkGraph;
use matrixgraph::graph::Node;
use matrixgraph::graph::NodeType;
use matrixgraph::persist::graph_dir_name;
use matrixgraph::persist::graph_from_parts;
use matrixgraph::persist::graph_parts;

#[test]
fn empty_graph_has_no_nodes_or_edges() {
    let g = NetworkGraph::new();
    assert_eq!(g.node_count(), 0);
    assert_eq!(g.edge_count(), 0);
}

#[test]
fn add_node_returns_positional_handles() {
    let mut g = NetworkGraph::new();
    let a = g.add_node(NodeType::Room, 10);
    let b = g.add_node(NodeType::User, 20);
    let c = g.add_node(NodeType::Server, 30);
    assert_eq!((a, b, c), (0, 1, 2));
    assert_eq!(g.node_count(), 3);
    assert_eq!(g.node(0), Node { kind: NodeType::Room, id: 10 });
    assert_eq!(g.node(1), Node { kind: NodeType::User, id: 20 });
    assert_eq!(g.node(2), Node { kind: NodeType::Server, id: 30 });
}

#[test]
fn add_edge_keeps_duplicates_and_order() {
    let mut g = NetworkGraph::new();
    g.add_node(NodeType::User, 1);
    g.add_node(NodeType::Room, 2);
    g.add_edge(0, 1);
    g.add_edge(0, 1);
    g.add_edge(1, 0);
    assert_eq!(g.edge_count(), 3);
    assert_eq!(g.edge(0), (0, 1));
    assert_eq!(g.edge(1), (0, 1));
    assert_eq!(g.edge(2), (1, 0));
}

#[test]
fn neighbors_come_from_both_edge_ends() {
    let mut g = NetworkGraph::new();
    g.add_node(NodeType::User, 1);
    g.add_node(NodeType::Server, 2);
    g.add_node(NodeType::Room, 3);
    g.add_edge(0, 1);
    g.add_edge(2, 0);
    assert_eq!(g.neighbors(0), vec![1, 2]);
    assert_eq!(g.neighbors(1), vec![0]);
    assert_eq!(g.neighbors(2), vec![0]);
}

#[test]
fn neighbors_self_loop_counts_once_duplicates_twice() {
    let mut g = NetworkGraph::new();
    g.add_node(NodeType::Room, 1);
    g.add_node(NodeType::User, 2);
    g.add_edge(0, 0);
    g.add_edge(0, 1);
    g.add_edge(0, 1);
    assert_eq!(g.neighbors(0), vec![0, 1, 1]);
    assert_eq!(g.neighbors(1), vec![0, 0]);
}

#[test]
fn labels_render_kind_prefix_and_decimal_id() {
    assert_eq!(Node { kind: NodeType::Room, id: 7 }.label(), "room_7");
    assert_eq!(Node { kind: NodeType::User, id: 42 }.label(), "user_42");
    assert_eq!(Node { kind: NodeType::Server, id: 0 }.label(), "server_0");
    assert_eq!(
        Node { kind: NodeType::User, id: 18446744073709551615 }.label(),
        "user_18446744073709551615"
    );
    assert_eq!(Node { kind: NodeType::Server, id: 1000 }.label(), "server_1000");
}

#[test]
fn dir_name_uses_timestamp() {
    assert_eq!(
        graph_dir_name("2020-01-02T03-04-05"),
        "data/graphs/graph_2020-01-02T03-04-05"
    );
}

#[test]
fn parts_round_trip_reproduces_nodes_and_edges() {
    let mut g = NetworkGraph::new();
    g.add_node(NodeType::User, 11);
    g.add_node(NodeType::Server, 22);
    g.add_node(NodeType::Room, 33);
    g.add_edge(0, 1);
    g.add_edge(0, 2);
    g.add_edge(2, 1);
    let (nodes, edges) = graph_parts(&g);
    assert_eq!(
        nodes,
        vec![
            Node { kind: NodeType::User, id: 11 },
            Node { kind: NodeType::Server, id: 22 },
            Node { kind: NodeType::Room, id: 33 },
        ]
    );
    assert_eq!(edges, vec![(0, 1), (0, 2), (2, 1)]);
    let g2 = graph_from_parts(&nodes, &edges).expect("parts of a graph are valid");
    let (nodes2, edges2) = graph_parts(&g2);
    assert_eq!(nodes2, nodes);
    assert_eq!(edges2, edges);
}

#[test]
fn from_parts_rejects_edge_with_invalid_handle() {
    let nodes = vec![Node { kind: NodeType::User, id: 1 }, Node { kind: NodeType::Room, id: 2 }];
    let edges = vec![(0, 1), (0, 2)];
    assert!(graph_from_parts(&nodes, &edges).is_none());
    let ok_edges = vec![(0, 1), (1, 1)];
    assert!(graph_from_parts(&nodes, &ok_edges).is_some());
}

#[test]
fn from_parts_accepts_empty_lists() {
    let nodes: Vec<Node> = vec![];
    let edges: Vec<(usize, usize)> = vec![];
    let g = graph_from_parts(&nodes, &edges).expect("empty lists are valid");
    assert_eq!(g.node_count(), 0);
    assert_eq!(g.edge_count(), 0);
}
