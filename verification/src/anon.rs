//! The anonymizer: remaps every node's domain id through a salted, keyed hash
//! while preserving the graph's topology and every node's kind.
//!
//! Both sources of randomness — the hash key and the salt — are drawn fresh
//! on every call, so repeated anonymization of one graph is unlinkable across
//! calls; within one call the remapping is a single function of the original
//! id. Nothing is (or can be) promised about the hash values themselves.

use vstd::prelude::*;

use std::collections::hash_map::DefaultHasher;
use std::collections::hash_map::RandomState;

use crate::graph::NetworkGraph;

verus! {

broadcast use vstd::std_specs::hash::group_hash_axioms;

/// Relies on `RandomState::new`: a freshly and randomly keyed hasher factory.
/// Nothing can be promised of it.
#[verifier::external_body]
fn new_hash_key() -> RandomState {
    RandomState::new()
}

/// Relies on `BuildHasher::build_hasher` for `RandomState`: a `DefaultHasher`
/// seeded by the key. Nothing can be promised of its state.
#[verifier::external_body]
fn build_keyed_hasher(key: &RandomState) -> DefaultHasher {
    std::hash::BuildHasher::build_hasher(key)
}

/// Relies on `Hasher::write_u64` for `DefaultHasher`: feeds the value into
/// the hasher. Nothing is promised of the state it leaves behind.
#[verifier::external_body]
fn hash_u64_into(h: &mut DefaultHasher, x: u64) {
    std::hash::Hasher::write_u64(h, x);
}

/// Relies on `Hasher::finish` for `DefaultHasher`: the 64-bit digest of what
/// was fed in. Nothing is promised of its value.
#[verifier::external_body]
fn hasher_finish(h: &DefaultHasher) -> u64 {
    std::hash::Hasher::finish(h)
}

/// Hashes `x` and then `salt` with a hasher built from `key`. The result is a
/// function of `(key, x, salt)` alone, but the key is process randomness, so
/// no contract pins the value down.
fn hash_with_salt(key: &RandomState, x: u64, salt: u64) -> u64 {
    let mut hasher = build_keyed_hasher(key);
    hash_u64_into(&mut hasher, x);
    hash_u64_into(&mut hasher, salt);
    hasher_finish(&hasher)
}

/// Relies on `rand::random`: one uniformly random `u64` from the thread-local
/// generator. Nothing can be promised of it.
#[verifier::external_body]
fn random_u64() -> u64 {
    rand::random::<u64>()
}

/// Builds a new graph with the same node count, the same kinds in the same
/// positions, and exactly the same edge list, where every node's id has been
/// replaced by a salted keyed hash of the id it had. The key and the salt
/// are drawn fresh on each call, so nothing is promised about the new id
/// values themselves; but within one call the remapping is a single function
/// of the old id, so nodes that shared an id still share one. The input is
/// consumed; every graph built through this crate's interface satisfies the
/// required `wf`.
pub fn anonymize_graph(graph: NetworkGraph) -> (out: NetworkGraph)
    requires
        graph.wf(),
    ensures
        out.wf(),
        out.nodes().len() == graph.nodes().len(),
        out.edges() == graph.edges(),
        forall|j: int|
            0 <= j < graph.nodes().len() ==> (#[trigger] out.nodes()[j]).kind
                == graph.nodes()[j].kind,
        forall|a: int, b: int|
            #![trigger out.nodes()[a].id, out.nodes()[b].id]
            0 <= a < graph.nodes().len() && 0 <= b < graph.nodes().len() && graph.nodes()[a].id
                == graph.nodes()[b].id ==> out.nodes()[a].id == out.nodes()[b].id,
{
    let key = new_hash_key();
    let salt = random_u64();
    let node_count = graph.node_count();
    let edge_count = graph.edge_count();
    let mut out = NetworkGraph::new();
    // The remap computed so far, old id to new id: hashing an id again would
    // give the same digest, so the memo only saves work, but it is also what
    // makes "equal old ids get equal new ids" provable.
    let mut memo: std::collections::HashMap<u64, u64> = std::collections::HashMap::new();
    let mut i: usize = 0;
    while i < node_count
        invariant
            i <= node_count,
            node_count == graph.nodes().len(),
            graph.wf(),
            out.wf(),
            out.nodes().len() == i,
            out.edges().len() == 0,
            forall|j: int|
                0 <= j < i ==> (#[trigger] out.nodes()[j]).kind == graph.nodes()[j].kind,
            forall|j: int|
                0 <= j < i ==> memo@.contains_key((#[trigger] graph.nodes()[j]).id)
                    && out.nodes()[j].id == memo@[graph.nodes()[j].id],
        decreases node_count - i,
    {
        let node = graph.node(i);
        let hashed: u64 = match memo.get(&node.id) {
            Some(h) => *h,
            None => {
                let h = hash_with_salt(&key, node.id, salt);
                memo.insert(node.id, h);
                h
            },
        };
        out.add_node(node.kind, hashed);
        i = i + 1;
    }
    let mut e: usize = 0;
    while e < edge_count
        invariant
            e <= edge_count,
            edge_count == graph.edges().len(),
            node_count == graph.nodes().len(),
            graph.wf(),
            out.wf(),
            out.nodes().len() == node_count,
            out.edges() == graph.edges().take(e as int),
            forall|j: int|
                0 <= j < node_count ==> (#[trigger] out.nodes()[j]).kind == graph.nodes()[j].kind,
            forall|j: int|
                0 <= j < node_count ==> memo@.contains_key((#[trigger] graph.nodes()[j]).id)
                    && out.nodes()[j].id == memo@[graph.nodes()[j].id],
        decreases edge_count - e,
    {
        let edge = graph.edge(e);
        out.add_edge(edge.0, edge.1);
        proof {
            assert(out.edges() =~= graph.edges().take(e as int + 1));
        }
        e = e + 1;
    }
    proof {
        assert(graph.edges().take(edge_count as int) =~= graph.edges());
        assert forall|a: int, b: int|
            0 <= a < graph.nodes().len() && 0 <= b < graph.nodes().len() && graph.nodes()[a].id
                == graph.nodes()[b].id implies out.nodes()[a].id == out.nodes()[b].id by {
            assert(out.nodes()[a].id == memo@[graph.nodes()[a].id]);
            assert(out.nodes()[b].id == memo@[graph.nodes()[b].id]);
        }
    }
    out
}

} // verus!
