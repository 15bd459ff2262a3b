//! A typed, undirected graph of a federated messaging network (rooms, users,
//! servers), with structural validation, neighbor-count statistics, and a
//! topology-preserving anonymizer. The graph itself is stored in a
//! `petgraph::Graph`; everything this crate states about one is phrased over
//! its node list and edge list.

pub mod anon;
pub mod graph;
pub mod label;
pub mod persist;
pub mod stats;
pub mod validate;

pub use anon::anonymize_graph;
pub use graph::NetworkGraph;
pub use graph::Node;
pub use graph::NodeType;
pub use persist::graph_from_parts;
pub use persist::graph_parts;
pub use stats::rooms_per_user_distribution;
pub use stats::users_rooms_per_server_distribution;
pub use stats::users_servers_per_room_distribution;
pub use validate::is_wellformed_graph;
pub use validate::is_wellformed_node;
