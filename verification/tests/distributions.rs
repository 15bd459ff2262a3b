use matrixgraph::graph::NetworkGraph;
use matrixgraph::graph::NodeType;
use matrixgraph::stats::rooms_per_user_distribution;
use matrixgraph::stats::users_rooms_per_server_distribution;
use matrixgraph::stats::users_servers_per_room_distribution;

#[test]
fn server_distribution_counts_users_and_rooms() {
    let mut g = NetworkGraph::new();
    let server = g.add_node(NodeType::Server, 100);
    let user_a = g.add_node(NodeType::User, 1);
    let user_b = g.add_node(NodeType::User, 2);
    let room = g.add_node(NodeType::Room, 3);
    g.add_edge(server, user_a);
    g.add_edge(server, user_b);
    g.add_edge(server, room);
    let dist = users_rooms_per_server_distribution(&g);
    assert_eq!(dist.len(), 1);
    assert_eq!(dist[&100], (2, 1));
}

#[test]
fn room_distribution_counts_users_and_servers() {
    let mut g = NetworkGraph::new();
    let room = g.add_node(NodeType::Room, 200);
    let user = g.add_node(NodeType::User, 1);
    let server_a = g.add_node(NodeType::Server, 2);
    let server_b = g.add_node(NodeType::Server, 3);
    g.add_edge(room, user);
    g.add_edge(room, server_a);
    g.add_edge(room, server_b);
    let dist = users_servers_per_room_distribution(&g);
    assert_eq!(dist.len(), 1);
    assert_eq!(dist[&200], (1, 2));
}

#[test]
fn user_distribution_counts_rooms_only() {
    let mut g = NetworkGraph::new();
    let user = g.add_node(NodeType::User, 300);
    let room_a = g.add_node(NodeType::Room, 1);
    let room_b = g.add_node(NodeType::Room, 2);
    let server = g.add_node(NodeType::Server, 3);
    g.add_edge(user, room_a);
    g.add_edge(user, room_b);
    g.add_edge(user, server);
    let dist = rooms_per_user_distribution(&g);
    assert_eq!(dist.len(), 1);
    assert_eq!(dist[&300], 2);
}

#[test]
fn distributions_key_every_node_of_the_kind() {
    let mut g = NetworkGraph::new();
    let server_a = g.add_node(NodeType::Server, 10);
    let server_b = g.add_node(NodeType::Server, 20);
    let user = g.add_node(NodeType::User, 30);
    let room = g.add_node(NodeType::Room, 40);
    g.add_edge(server_a, user);
    g.add_edge(server_a, room);
    let dist = users_rooms_per_server_distribution(&g);
    assert_eq!(dist.len(), 2);
    assert_eq!(dist[&10], (1, 1));
    assert_eq!(dist[&20], (0, 0));
    assert!(!dist.contains_key(&30));
    assert!(!dist.contains_key(&40));
}

#[test]
fn duplicate_domain_id_last_node_wins() {
    let mut g = NetworkGraph::new();
    let server_a = g.add_node(NodeType::Server, 7);
    let server_b = g.add_node(NodeType::Server, 7);
    let user = g.add_node(NodeType::User, 1);
    let room = g.add_node(NodeType::Room, 2);
    g.add_edge(server_a, user);
    g.add_edge(server_b, room);
    let dist = users_rooms_per_server_distribution(&g);
    assert_eq!(dist.len(), 1);
    // The node with the higher handle overwrites the earlier one.
    assert_eq!(dist[&7], (0, 1));
}

#[test]
fn distributions_of_empty_graph_are_empty() {
    let g = NetworkGraph::new();
    assert!(users_rooms_per_server_distribution(&g).is_empty());
    assert!(users_servers_per_room_distribution(&g).is_empty());
    assert!(rooms_per_user_distribution(&g).is_empty());
}
