//! The board's adjacency graph, kept in a petgraph `Graph` with byte-sized indices.
use itertools::Itertools;
use petgraph::graph::{Graph, NodeIndex};
use petgraph::Undirected;
use vstd::prelude::*;

verus! {

#[verifier::external_type_specification]
#[verifier::external_body]
#[verifier::reject_recursive_types(N)]
#[verifier::reject_recursive_types(E)]
#[verifier::reject_recursive_types(Ty)]
#[verifier::reject_recursive_types(Ix)]
pub struct ExGraph<N, E, Ty, Ix>(Graph<N, E, Ty, Ix>);

#[verifier::external_type_specification]
#[verifier::external_body]
pub struct ExUndirected(Undirected);

/// The edges of a graph, as endpoint pairs in the order they were added.
pub uninterp spec fn graph_edges(g: Graph<(), (), Undirected, u8>) -> Seq<(nat, nat)>;

/// The number of nodes of a graph.
pub uninterp spec fn graph_node_count(g: Graph<(), (), Undirected, u8>) -> nat;

/// Whether some edge joins `a` and `b`, in either direction.
pub open spec fn joined(edges: Seq<(nat, nat)>, a: nat, b: nat) -> bool {
    exists|i: int| 0 <= i < edges.len() && (edges[i] == (a, b) || edges[i] == (b, a))
}

/// An edge list with byte-sized endpoints, as pairs of naturals.
pub open spec fn edge_seq(pairs: Seq<(u8, u8)>) -> Seq<(nat, nat)> {
    pairs.map_values(|p: (u8, u8)| (p.0 as nat, p.1 as nat))
}

/// Relies on petgraph's `Graph::default`: a graph with no nodes and no edges.
#[verifier::external_body]
pub(crate) fn empty_graph() -> (g: Graph<(), (), Undirected, u8>)
    ensures
        graph_node_count(g) == 0,
        graph_edges(g) == Seq::<(nat, nat)>::empty(),
{
    Graph::default()
}

/// Relies on petgraph's `Graph::add_node`: the new node's index is the old node
/// count and the edges stay as they were. It panics once a byte index would
/// reach `u8::MAX`, which the bound leaves out.
#[verifier::external_body]
pub(crate) fn add_node(g: &mut Graph<(), (), Undirected, u8>) -> (r: usize)
    requires
        graph_node_count(*old(g)) < u8::MAX,
    ensures
        r as nat == graph_node_count(*old(g)),
        graph_node_count(*final(g)) == graph_node_count(*old(g)) + 1,
        graph_edges(*final(g)) == graph_edges(*old(g)),
{
    g.add_node(()).index()
}

/// Relies on petgraph's `Graph::extend_with_edges`: each pair is appended as an
/// edge, in order, and no node is added while every endpoint already exists.
/// `add_edge` panics once an edge index would reach `u8::MAX`, which the bound
/// leaves out.
#[verifier::external_body]
pub(crate) fn extend_with_edges(g: &mut Graph<(), (), Undirected, u8>, pairs: &Vec<(u8, u8)>)
    requires
        forall|i: int|
            0 <= i < pairs@.len() ==> (pairs@[i].0 as nat) < graph_node_count(*old(g)) && (
            pairs@[i].1 as nat) < graph_node_count(*old(g)),
        graph_edges(*old(g)).len() + pairs@.len() < u8::MAX,
    ensures
        graph_node_count(*final(g)) == graph_node_count(*old(g)),
        graph_edges(*final(g)) == graph_edges(*old(g)) + edge_seq(pairs@),
{
    g.extend_with_edges(pairs.iter())
}

/// Relies on petgraph's `Graph::neighbors_undirected`: every node that an edge
/// joins to `a`, in either direction, and no other.
#[verifier::external_body]
pub(crate) fn neighbors(g: &Graph<(), (), Undirected, u8>, a: usize) -> (r: Vec<usize>)
    requires
        (a as nat) < graph_node_count(*g),
    ensures
        forall|x: usize| r@.contains(x) <==> joined(graph_edges(*g), a as nat, x as nat),
{
    g.neighbors_undirected(NodeIndex::new(a)).map(|n| n.index()).collect()
}

/// Relies on petgraph's `Graph::node_indices`, collected with itertools'
/// `collect_vec`: the node indices from zero up to the node count, ascending.
#[verifier::external_body]
pub(crate) fn node_ids(g: &Graph<(), (), Undirected, u8>) -> (r: Vec<usize>)
    ensures
        r@.len() == graph_node_count(*g),
        forall|i: int| 0 <= i < r@.len() ==> r@[i] == i,
{
    g.node_indices().map(|n| n.index()).collect_vec()
}

} // verus!
