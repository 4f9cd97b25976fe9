//! The directed graph of `petgraph` that carries the shape of a call graph:
//! which nodes exist and which edges join them. The declarations in this file
//! state what the library relies on from `petgraph::stable_graph::StableGraph`;
//! Verus takes them as given.

use vstd::prelude::*;
use petgraph::stable_graph::EdgeIndex;
use petgraph::stable_graph::NodeIndex;
use petgraph::stable_graph::StableGraph;
use petgraph::visit::EdgeRef;
use petgraph::Directed;
use petgraph::Direction;

verus! {

/// `petgraph::stable_graph::StableGraph`, of which Verus sees no more than
/// the declarations of this file say.
#[verifier::external_type_specification]
#[verifier::external_body]
#[verifier::reject_recursive_types(N)]
#[verifier::reject_recursive_types(E)]
#[verifier::reject_recursive_types(Ty)]
#[verifier::reject_recursive_types(Ix)]
pub struct ExStableGraph<N, E, Ty, Ix>(StableGraph<N, E, Ty, Ix>);

/// `petgraph::Directed`, the marker of graphs whose edges have a direction.
#[verifier::external_type_specification]
#[verifier::external_body]
pub struct ExDirected(Directed);

/// The node slots of a graph, by index: `true` where the slot holds a node,
/// `false` where a removal left it vacant.
pub uninterp spec fn graph_nodes(g: StableGraph<(), (), Directed, u32>) -> Seq<bool>;

/// The edge slots of a graph, by index: the source and the target of the edge
/// that the slot holds, or `None` where a removal left it vacant.
pub uninterp spec fn graph_edges(g: StableGraph<(), (), Directed, u32>) -> Seq<Option<(int, int)>>;

/// No node slot of the graph is vacant.
pub open spec fn nodes_dense(g: StableGraph<(), (), Directed, u32>) -> bool {
    forall|i: int| 0 <= i < graph_nodes(g).len() ==> #[trigger] graph_nodes(g)[i]
}

/// No edge slot of the graph is vacant.
pub open spec fn edges_dense(g: StableGraph<(), (), Directed, u32>) -> bool {
    forall|i: int| 0 <= i < graph_edges(g).len() ==> (#[trigger] graph_edges(g)[i]) is Some
}

/// The edge in slot `e` leaves node `n`.
pub open spec fn leaves(g: StableGraph<(), (), Directed, u32>, e: int, n: int) -> bool {
    0 <= e < graph_edges(g).len() && (graph_edges(g)[e] matches Some(ends) && ends.0 == n)
}

/// The edge in slot `e` enters node `n`.
pub open spec fn enters(g: StableGraph<(), (), Directed, u32>, e: int, n: int) -> bool {
    0 <= e < graph_edges(g).len() && (graph_edges(g)[e] matches Some(ends) && ends.1 == n)
}

/// `StableGraph::new`: a graph without node or edge slots.
#[verifier::external_body]
pub(crate) fn graph_new() -> (g: StableGraph<(), (), Directed, u32>)
    ensures
        graph_nodes(g) == Seq::<bool>::empty(),
        graph_edges(g) == Seq::<Option<(int, int)>>::empty(),
{
    StableGraph::new()
}

/// `StableGraph::add_node`: with no vacant slot to fill, the node goes into a
/// new slot behind the others, and the method returns that slot's index. The
/// method panics when the index would be `u32::MAX`, so the graph must hold
/// fewer slots than that.
#[verifier::external_body]
pub(crate) fn graph_add_node(g: &mut StableGraph<(), (), Directed, u32>) -> (i: usize)
    requires
        nodes_dense(*old(g)),
        graph_nodes(*old(g)).len() < u32::MAX,
    ensures
        i == graph_nodes(*old(g)).len(),
        graph_nodes(*final(g)) == graph_nodes(*old(g)).push(true),
        graph_edges(*final(g)) == graph_edges(*old(g)),
{
    g.add_node(()).index()
}

/// `StableGraph::add_edge`: with no vacant slot to fill, the edge from `a` to
/// `b` goes into a new slot behind the others, and the method returns that
/// slot's index. The method panics when an end is not a node of the graph or
/// when the index would be `u32::MAX`.
#[verifier::external_body]
pub(crate) fn graph_add_edge(g: &mut StableGraph<(), (), Directed, u32>, a: usize, b: usize) -> (e:
    usize)
    requires
        edges_dense(*old(g)),
        graph_edges(*old(g)).len() < u32::MAX,
        graph_nodes(*old(g)).len() <= u32::MAX,
        a < graph_nodes(*old(g)).len() && graph_nodes(*old(g))[a as int],
        b < graph_nodes(*old(g)).len() && graph_nodes(*old(g))[b as int],
    ensures
        e == graph_edges(*old(g)).len(),
        graph_edges(*final(g)) == graph_edges(*old(g)).push(Some((a as int, b as int))),
        graph_nodes(*final(g)) == graph_nodes(*old(g)),
{
    g.add_edge(NodeIndex::new(a), NodeIndex::new(b), ()).index()
}

/// `StableGraph::edge_endpoints`: the source and the target of the edge in
/// slot `e`, or `None` where the slot is vacant.
#[verifier::external_body]
pub(crate) fn graph_edge_endpoints(g: &StableGraph<(), (), Directed, u32>, e: usize) -> (r: Option<
    (usize, usize),
>)
    requires
        e < graph_edges(*g).len() <= u32::MAX,
    ensures
        match r {
            Some((a, b)) => graph_edges(*g)[e as int] == Some((a as int, b as int)),
            None => graph_edges(*g)[e as int] is None,
        },
{
    g.edge_endpoints(EdgeIndex::new(e)).map(|(a, b)| (a.index(), b.index()))
}

/// `StableGraph::edges_directed` with `Direction::Outgoing`: the indices of
/// the edges that leave node `n`, each once.
#[verifier::external_body]
pub(crate) fn graph_outgoing(g: &StableGraph<(), (), Directed, u32>, n: usize) -> (r: Vec<usize>)
    requires
        n < graph_nodes(*g).len() <= u32::MAX,
    ensures
        r@.no_duplicates(),
        forall|e: usize| r@.contains(e) <==> leaves(*g, e as int, n as int),
{
    g.edges_directed(NodeIndex::new(n), Direction::Outgoing).map(|e| e.id().index()).collect()
}

/// `StableGraph::edges_directed` with `Direction::Incoming`: the indices of
/// the edges that enter node `n`, each once.
#[verifier::external_body]
pub(crate) fn graph_incoming(g: &StableGraph<(), (), Directed, u32>, n: usize) -> (r: Vec<usize>)
    requires
        n < graph_nodes(*g).len() <= u32::MAX,
    ensures
        r@.no_duplicates(),
        forall|e: usize| r@.contains(e) <==> enters(*g, e as int, n as int),
{
    g.edges_directed(NodeIndex::new(n), Direction::Incoming).map(|e| e.id().index()).collect()
}

} // verus!
