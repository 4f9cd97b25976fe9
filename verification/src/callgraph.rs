//! The call graph: procedures as nodes, invocations as edges, two indices
//! from binary addresses to nodes, and the record of the calls that no
//! finder could resolve.
//!
//! Nodes and edges are numbered in the order in which they were added, and a
//! number once given stays valid: nothing is ever removed. The shape of the
//! graph is kept in a `petgraph` graph; the records of the nodes and edges
//! stand beside it under the same numbers.

use vstd::prelude::*;
use std::collections::HashMap;
use std::collections::HashSet;
use petgraph::stable_graph::StableGraph;
use petgraph::Directed;
use crate::graph_view::lemma_with_invocation_attributes_valid;
use crate::graph_view::lemma_with_invocation_to_valid;
use crate::graph_view::lemma_with_invocation_valid;
use crate::graph_view::lemma_with_unresolved_valid;
use crate::graph_view::CallGraphView;
use crate::graph_view::Edge;
use crate::model::Instruction;
use crate::model::Invocation;
use crate::model::InvocationAttributes;
use crate::model::Procedure;
use crate::model::ProcedureAttributes;
use crate::topology::edges_dense;
use crate::topology::enters;
use crate::topology::graph_add_edge;
use crate::topology::graph_add_node;
use crate::topology::graph_edge_endpoints;
use crate::topology::graph_edges;
use crate::topology::graph_incoming;
use crate::topology::graph_new;
use crate::topology::graph_nodes;
use crate::topology::graph_outgoing;
use crate::topology::leaves;
use crate::topology::nodes_dense;

verus! {

broadcast use vstd::std_specs::hash::group_hash_axioms;

/// A directed graph of procedures and invocations with its two address
/// indices.
pub struct CallGraph<P, I, F> {
    graph: StableGraph<(), (), Directed, u32>,
    procedures: Vec<Procedure<P>>,
    invocations: Vec<Invocation<I, F>>,
    proc_index: HashMap<u64, usize>,
    call_index: HashMap<u64, usize>,
    unresolved: HashSet<u64>,
}

impl<P, I, F> View for CallGraph<P, I, F> {
    type V = CallGraphView;

    closed spec fn view(&self) -> CallGraphView {
        CallGraphView {
            nodes: self.procedures@.map_values(|p: Procedure<P>| p@),
            edges: Seq::new(
                self.invocations@.len(),
                |e: int|
                    Edge {
                        source: graph_edges(self.graph)[e].unwrap().0,
                        target: graph_edges(self.graph)[e].unwrap().1,
                        invocation: self.invocations@[e]@,
                    },
            ),
            proc_index: self.proc_index@,
            call_index: self.call_index@,
            unresolved: self.unresolved@,
        }
    }
}

impl<P, I, F> CallGraph<P, I, F> {
    /// The records and the graph of `petgraph` agree: slot by slot, each
    /// record has its node or edge.
    pub closed spec fn coherent(&self) -> bool {
        &&& graph_nodes(self.graph).len() == self.procedures@.len()
        &&& graph_edges(self.graph).len() == self.invocations@.len()
        &&& nodes_dense(self.graph)
        &&& edges_dense(self.graph)
        &&& self.procedures@.len() <= u32::MAX
        &&& self.invocations@.len() <= u32::MAX
    }

    /// The graph is well formed: its parts agree, and its view is valid.
    pub open spec fn wf(&self) -> bool {
        self.coherent() && self@.valid()
    }

    /// The record of node `n` as the graph holds it, the caller's data
    /// included.
    pub closed spec fn procedure_record(&self, n: int) -> Procedure<P> {
        self.procedures@[n]
    }

    /// The record of edge `e` as the graph holds it, the caller's data
    /// included.
    pub closed spec fn invocation_record(&self, e: int) -> Invocation<I, F> {
        self.invocations@[e]
    }

    /// This graph holds the records of `earlier` as they were, the caller's
    /// data included.
    pub open spec fn keeps_records_of(&self, earlier: &Self) -> bool {
        &&& forall|n: int|
            0 <= n < earlier@.nodes.len() ==> #[trigger] self.procedure_record(n)
                == earlier.procedure_record(n)
        &&& forall|e: int|
            0 <= e < earlier@.edges.len() ==> #[trigger] self.invocation_record(e)
                == earlier.invocation_record(e)
    }

    /// A graph without nodes and edges.
    pub fn new() -> (g: Self)
        ensures
            g.wf(),
            g@ == CallGraphView::empty(),
    {
        let g = CallGraph {
            graph: graph_new(),
            procedures: Vec::new(),
            invocations: Vec::new(),
            proc_index: HashMap::new(),
            call_index: HashMap::new(),
            unresolved: HashSet::new(),
        };
        assert(g@.nodes =~= Seq::empty());
        assert(g@.edges =~= Seq::empty());
        g
    }

    /// The number of nodes.
    pub fn node_count(&self) -> (n: usize)
        ensures
            n == self@.nodes.len(),
    {
        self.procedures.len()
    }

    /// The number of edges.
    pub fn edge_count(&self) -> (n: usize)
        ensures
            n == self@.edges.len(),
    {
        self.invocations.len()
    }

    /// The procedure at node `n`.
    pub fn procedure(&self, n: usize) -> (r: Option<&Procedure<P>>)
        ensures
            match r {
                Some(p) => n < self@.nodes.len() && p@ == self@.nodes[n as int] && *p
                    == self.procedure_record(n as int),
                None => n >= self@.nodes.len(),
            },
    {
        if n < self.procedures.len() {
            Some(&self.procedures[n])
        } else {
            None
        }
    }

    /// The invocation at edge `e`.
    pub fn invocation(&self, e: usize) -> (r: Option<&Invocation<I, F>>)
        ensures
            match r {
                Some(i) => e < self@.edges.len() && i@ == self@.edges[e as int].invocation && *i
                    == self.invocation_record(e as int),
                None => e >= self@.edges.len(),
            },
    {
        if e < self.invocations.len() {
            Some(&self.invocations[e])
        } else {
            None
        }
    }

    /// The source and the target of edge `e`.
    pub fn endpoints(&self, e: usize) -> (r: Option<(usize, usize)>)
        requires
            self.wf(),
        ensures
            match r {
                Some((a, b)) => e < self@.edges.len() && a == self@.edges[e as int].source && b
                    == self@.edges[e as int].target,
                None => e >= self@.edges.len(),
            },
    {
        if e < self.invocations.len() {
            graph_edge_endpoints(&self.graph, e)
        } else {
            None
        }
    }

    /// The procedure index: from a start address to the node of the
    /// procedure that starts there.
    pub fn proc_index(&self) -> (index: &HashMap<u64, usize>)
        ensures
            index@ == self@.proc_index,
    {
        &self.proc_index
    }

    /// The call index: from the address of a call or jump instruction to the
    /// node of the procedure that holds it.
    pub fn call_index(&self) -> (index: &HashMap<u64, usize>)
        ensures
            index@ == self@.call_index,
    {
        &self.call_index
    }

    /// The node of the procedure that starts at `address`.
    pub fn node_at(&self, address: u64) -> (r: Option<usize>)
        ensures
            match r {
                Some(n) => self@.proc_index.contains_key(address) && self@.proc_index[address] == n,
                None => !self@.proc_index.contains_key(address),
            },
    {
        match self.proc_index.get(&address) {
            Some(n) => Some(*n),
            None => None,
        }
    }

    /// The node of the procedure that holds the call or jump instruction at
    /// `address`.
    pub fn enclosing(&self, address: u64) -> (r: Option<usize>)
        ensures
            match r {
                Some(n) => self@.call_index.contains_key(address) && self@.call_index[address] == n,
                None => !self@.call_index.contains_key(address),
            },
    {
        match self.call_index.get(&address) {
            Some(n) => Some(*n),
            None => None,
        }
    }
}

/// Some call or jump instruction among the first `k` of `d` stands at `address`.
pub open spec fn call_site_among(d: Seq<Instruction>, k: int, address: u64) -> bool {
    exists|j: int| 0 <= j < k && (#[trigger] d[j]).address == address && d[j].call_site()
}

impl<P, I, F> CallGraph<P, I, F> {
    /// Makes `procedure` the next node of a graph that has no edges yet, and
    /// enters its start address and its call and jump instructions in the
    /// indices. Returns the node's number.
    pub fn add_procedure(&mut self, procedure: Procedure<P>) -> (n: usize)
        requires
            old(self).wf(),
            old(self)@.edges.len() == 0,
            old(self)@.nodes.len() < u32::MAX,
            !procedure@.placeholder,
        ensures
            final(self).wf(),
            final(self)@ == old(self)@.with_procedure(procedure@),
            n == old(self)@.nodes.len(),
            final(self).procedure_record(n as int) == procedure,
            final(self).keeps_records_of(old(self)),
    {
        let n = graph_add_node(&mut self.graph);
        let ghost before = self.call_index@;
        let ghost d = procedure.disassembly@;
        let mut k: usize = 0;
        while k < procedure.disassembly.len()
            invariant
                k <= procedure.disassembly.len(),
                d == procedure.disassembly@,
                self.call_index@.dom() =~= Set::new(
                    |a: u64| before.contains_key(a) || call_site_among(d, k as int, a),
                ),
                forall|a: u64| #[trigger]
                    self.call_index@.contains_key(a) ==> self.call_index@[a] == (if call_site_among(
                        d,
                        k as int,
                        a,
                    ) {
                        n
                    } else {
                        before[a]
                    }),
                self.procedures == old(self).procedures,
                self.invocations == old(self).invocations,
                self.proc_index == old(self).proc_index,
                self.unresolved == old(self).unresolved,
                graph_nodes(self.graph) == graph_nodes(old(self).graph).push(true),
                graph_edges(self.graph) == graph_edges(old(self).graph),
            decreases procedure.disassembly.len() - k,
        {
            let instruction = procedure.disassembly[k];
            if instruction.is_call_site() {
                self.call_index.insert(instruction.address, n);
            }
            k += 1;
        }
        self.proc_index.insert(procedure.start_address, n);
        let ghost record = procedure@;
        self.procedures.push(procedure);
        proof {
            let g = old(self)@;
            let h = g.with_procedure(record);
            assert(self@.call_index =~= h.call_index);
            assert(self@.nodes =~= h.nodes);
        }
        n
    }
}

impl<P, I, F> CallGraph<P, I, F> {
    /// The edges that leave node `n`, each once, in no stated order.
    pub fn outgoing(&self, n: usize) -> (r: Vec<usize>)
        requires
            self.wf(),
        ensures
            r@.no_duplicates(),
            forall|e: usize|
                r@.contains(e) <==> (e < self@.edges.len() && self@.edges[e as int].source == n),
    {
        if n < self.procedures.len() {
            graph_outgoing(&self.graph, n)
        } else {
            Vec::new()
        }
    }

    /// The edges that enter node `n`, each once, in no stated order.
    pub fn incoming(&self, n: usize) -> (r: Vec<usize>)
        requires
            self.wf(),
        ensures
            r@.no_duplicates(),
            forall|e: usize|
                r@.contains(e) <==> (e < self@.edges.len() && self@.edges[e as int].target == n),
    {
        if n < self.procedures.len() {
            graph_incoming(&self.graph, n)
        } else {
            Vec::new()
        }
    }

    /// Whether an edge leaves node `n` from the instruction at `site`.
    pub fn has_invocation_from(&self, n: usize, site: u64) -> (r: bool)
        requires
            self.wf(),
        ensures
            r == self@.has_invocation_from(n as int, site),
    {
        let edges = self.outgoing(n);
        let mut k: usize = 0;
        while k < edges.len()
            invariant
                k <= edges.len(),
                self.wf(),
                forall|e: usize|
                    edges@.contains(e) <==> (e < self@.edges.len() && self@.edges[e as int].source
                        == n),
                forall|j: int|
                    0 <= j < k ==> self@.edges[(#[trigger] edges@[j]) as int].invocation.instruction_address
                        != site,
            decreases edges.len() - k,
        {
            let e = edges[k];
            assert(edges@.contains(e));
            if self.invocations[e].instruction_address == site {
                return true;
            }
            k += 1;
        }
        proof {
            if self@.has_invocation_from(n as int, site) {
                let e = choose|e: int|
                    0 <= e < self@.edges.len() && (#[trigger] self@.edges[e]).source == n
                        && self@.edges[e].invocation.instruction_address == site;
                assert(edges@.contains(e as usize));
            }
        }
        false
    }

    /// Whether the graph takes an edge that leaves `source` from `site`.
    fn admits(&self, source: usize, site: u64) -> (r: bool)
        requires
            self.wf(),
        ensures
            r == self@.admits(source as int, site),
    {
        if source >= self.procedures.len() || self.invocations.len() >= u32::MAX as usize {
            return false;
        }
        if self.has_invocation_from(source, site) {
            return false;
        }
        match self.call_index.get(&site) {
            Some(n) => *n == source,
            None => true,
        }
    }

    /// Offers the graph an edge from `source` to `target`. The graph takes it
    /// as its next edge and returns the edge's number if both are nodes, the
    /// graph has room, no edge leaves `source` from the same instruction yet,
    /// and the call index, where it knows the instruction, names `source`.
    /// Else the graph stays as it is.
    pub fn add_invocation(&mut self, source: usize, target: usize, invocation: Invocation<I, F>) -> (r:
        Option<usize>)
        requires
            old(self).wf(),
        ensures
            final(self).wf(),
            final(self)@ == old(self)@.with_invocation(source as int, target as int, invocation@),
            r == (if old(self)@.accepts(
                source as int,
                target as int,
                invocation@.instruction_address,
            ) {
                Some(old(self)@.edges.len() as usize)
            } else {
                None
            }),
            r matches Some(e) ==> final(self).invocation_record(e as int) == invocation,
            final(self).keeps_records_of(old(self)),
    {
        if target >= self.procedures.len() || !self.admits(source, invocation.instruction_address) {
            return None;
        }
        let e = graph_add_edge(&mut self.graph, source, target);
        let ghost record = invocation@;
        self.unresolved.remove(&invocation.instruction_address);
        self.invocations.push(invocation);
        proof {
            let g = old(self)@;
            let h = g.with_invocation(source as int, target as int, record);
            assert(self@.edges =~= h.edges);
            lemma_with_invocation_valid(g, source as int, target as int, record);
        }
        Some(e)
    }

    /// Sets the flags of node `n`; `false` where the graph has no such node.
    pub fn set_procedure_attributes(&mut self, n: usize, attributes: ProcedureAttributes) -> (r: bool)
        requires
            old(self).wf(),
        ensures
            final(self).wf(),
            r == (n < old(self)@.nodes.len()),
            final(self)@ == (if r {
                old(self)@.with_procedure_attributes(n as int, attributes)
            } else {
                old(self)@
            }),
            r ==> final(self).procedure_record(n as int) == (Procedure {
                attributes,
                ..old(self).procedure_record(n as int)
            }),
            forall|m: int|
                0 <= m < old(self)@.nodes.len() && m != n ==> #[trigger] final(self).procedure_record(m)
                    == old(self).procedure_record(m),
            forall|e: int|
                0 <= e < old(self)@.edges.len() ==> #[trigger] final(self).invocation_record(e)
                    == old(self).invocation_record(e),
    {
        if n >= self.procedures.len() {
            return false;
        }
        let slot = &mut self.procedures[n];
        slot.attributes = attributes;
        proof {
            let g = old(self)@;
            let h = g.with_procedure_attributes(n as int, attributes);
            assert(self@.nodes =~= h.nodes);
        }
        true
    }

    /// Sets the flags of edge `e`; `false` where the graph has no such edge.
    pub fn set_invocation_attributes(&mut self, e: usize, attributes: InvocationAttributes) -> (r:
        bool)
        requires
            old(self).wf(),
        ensures
            final(self).wf(),
            r == (e < old(self)@.edges.len()),
            final(self)@ == (if r {
                old(self)@.with_invocation_attributes(e as int, attributes)
            } else {
                old(self)@
            }),
            r ==> final(self).invocation_record(e as int) == (Invocation {
                attributes,
                ..old(self).invocation_record(e as int)
            }),
            forall|n: int|
                0 <= n < old(self)@.nodes.len() ==> #[trigger] final(self).procedure_record(n)
                    == old(self).procedure_record(n),
            forall|d: int|
                0 <= d < old(self)@.edges.len() && d != e ==> #[trigger] final(self).invocation_record(d)
                    == old(self).invocation_record(d),
    {
        if e >= self.invocations.len() {
            return false;
        }
        let slot = &mut self.invocations[e];
        slot.attributes = attributes;
        proof {
            let g = old(self)@;
            let h = g.with_invocation_attributes(e as int, attributes);
            assert(self@.edges =~= h.edges);
            lemma_with_invocation_attributes_valid(g, e as int, attributes);
        }
        true
    }
}

impl<P, I, F> CallGraph<P, I, F> {
    /// Puts the caller's data into the slot of node `n`; `false` where the
    /// graph has no such node. The view of the graph stays as it is.
    pub fn set_procedure_metadata(&mut self, n: usize, metadata: P) -> (r: bool)
        requires
            old(self).wf(),
        ensures
            final(self).wf(),
            final(self)@ == old(self)@,
            r == (n < old(self)@.nodes.len()),
            r ==> final(self).procedure_record(n as int) == (Procedure {
                metadata,
                ..old(self).procedure_record(n as int)
            }),
            forall|m: int|
                0 <= m < old(self)@.nodes.len() && m != n ==> #[trigger] final(self).procedure_record(m)
                    == old(self).procedure_record(m),
            forall|e: int|
                0 <= e < old(self)@.edges.len() ==> #[trigger] final(self).invocation_record(e)
                    == old(self).invocation_record(e),
    {
        if n >= self.procedures.len() {
            return false;
        }
        let slot = &mut self.procedures[n];
        slot.metadata = metadata;
        proof {
            assert(self@.nodes =~= old(self)@.nodes);
        }
        true
    }

    /// Puts the caller's data into the slot of edge `e`; `false` where the
    /// graph has no such edge. The view of the graph stays as it is.
    pub fn set_invocation_metadata(&mut self, e: usize, metadata: I) -> (r: bool)
        requires
            old(self).wf(),
        ensures
            final(self).wf(),
            final(self)@ == old(self)@,
            r == (e < old(self)@.edges.len()),
            r ==> final(self).invocation_record(e as int) == (Invocation {
                metadata,
                ..old(self).invocation_record(e as int)
            }),
            forall|n: int|
                0 <= n < old(self)@.nodes.len() ==> #[trigger] final(self).procedure_record(n)
                    == old(self).procedure_record(n),
            forall|d: int|
                0 <= d < old(self)@.edges.len() && d != e ==> #[trigger] final(self).invocation_record(d)
                    == old(self).invocation_record(d),
    {
        if e >= self.invocations.len() {
            return false;
        }
        let slot = &mut self.invocations[e];
        slot.metadata = metadata;
        proof {
            assert(self@.edges =~= old(self)@.edges);
        }
        true
    }
}

impl<P: Default, I, F> CallGraph<P, I, F> {
    /// Offers the graph an edge from `source` to the procedure that starts at
    /// `address`. Where no node starts there, a placeholder for the address
    /// becomes the next node, but only if the edge is then taken. Returns the
    /// edge's number, or `None` where the graph stays as it is.
    pub fn add_invocation_to(&mut self, source: usize, address: u64, invocation: Invocation<I, F>) -> (r:
        Option<usize>)
        requires
            old(self).wf(),
        ensures
            final(self).wf(),
            final(self)@ == old(self)@.with_invocation_to(source as int, address, invocation@),
            r is Some <==> final(self)@.edges.len() == old(self)@.edges.len() + 1,
            r is Some ==> r == Some(old(self)@.edges.len() as usize),
            r matches Some(e) ==> final(self).invocation_record(e as int) == invocation,
            final(self).keeps_records_of(old(self)),
    {
        match self.node_at(address) {
            Some(target) => self.add_invocation(source, target, invocation),
            None => {
                if self.procedures.len() >= u32::MAX as usize || !self.admits(
                    source,
                    invocation.instruction_address,
                ) {
                    return None;
                }
                let target = graph_add_node(&mut self.graph);
                self.proc_index.insert(address, target);
                self.procedures.push(Procedure::placeholder(address));
                let e = graph_add_edge(&mut self.graph, source, target);
                let ghost record = invocation@;
                self.unresolved.remove(&invocation.instruction_address);
                self.invocations.push(invocation);
                proof {
                    let g = old(self)@;
                    let h = g.with_invocation_to(source as int, address, record);
                    assert(self@.edges =~= h.edges);
                    assert(self@.nodes =~= h.nodes);
                    lemma_with_invocation_to_valid(g, source as int, address, record);
                }
                Some(e)
            },
        }
    }
}

impl<P, I, F> CallGraph<P, I, F> {
    /// Whether an edge leaves the instruction at `site`, from whichever node.
    pub fn has_invocation_at(&self, site: u64) -> (r: bool)
        requires
            self.wf(),
        ensures
            r == self@.has_invocation_at(site),
    {
        match self.enclosing(site) {
            Some(n) => {
                let taken = self.has_invocation_from(n, site);
                proof {
                    if self@.has_invocation_at(site) {
                        let e = choose|e: int|
                            0 <= e < self@.edges.len() && (
                            #[trigger] self@.edges[e]).invocation.instruction_address == site;
                        assert(self@.edges[e].source == n);
                    }
                }
                taken
            },
            None => {
                let mut e: usize = 0;
                while e < self.invocations.len()
                    invariant
                        e <= self.invocations.len(),
                        forall|d: int|
                            0 <= d < e ==> (#[trigger] self@.edges[d]).invocation.instruction_address
                                != site,
                    decreases self.invocations.len() - e,
                {
                    if self.invocations[e].instruction_address == site {
                        assert(self@.edges[e as int].invocation.instruction_address == site);
                        return true;
                    }
                    e += 1;
                }
                false
            },
        }
    }

    /// Whether the call at `address` is marked as unresolved: a finder looked
    /// at it and could not give it a target, and it has got no edge since.
    pub fn is_unresolved(&self, address: u64) -> (r: bool)
        ensures
            r == self@.unresolved.contains(address),
    {
        self.unresolved.contains(&address)
    }

    /// Marks the call at `site` in node `source` as unresolved, if the call
    /// index gives `source` for the call and no edge leaves it; `false` where
    /// the graph stays as it is.
    pub fn mark_unresolved(&mut self, source: usize, site: u64) -> (r: bool)
        requires
            old(self).wf(),
        ensures
            final(self).wf(),
            r == old(self)@.can_mark(source as int, site),
            final(self)@ == old(self)@.with_unresolved(source as int, site),
            final(self).keeps_records_of(old(self)),
    {
        match self.enclosing(site) {
            Some(n) => {
                if n != source || self.has_invocation_from(n, site) {
                    proof {
                        if n == source && self@.has_invocation_from(n as int, site) {
                            let e = choose|e: int|
                                0 <= e < self@.edges.len() && (#[trigger] self@.edges[e]).source == n
                                    && self@.edges[e].invocation.instruction_address == site;
                            assert(self@.edges[e].invocation.instruction_address == site);
                        }
                    }
                    return false;
                }
                proof {
                    if self@.has_invocation_at(site) {
                        let e = choose|e: int|
                            0 <= e < self@.edges.len() && (
                            #[trigger] self@.edges[e]).invocation.instruction_address == site;
                        assert(self@.edges[e].source == n);
                    }
                }
                self.unresolved.insert(site);
                proof {
                    let g = old(self)@;
                    let h = g.with_unresolved(source as int, site);
                    assert(self@.nodes =~= h.nodes);
                    assert(self@.edges =~= h.edges);
                    assert(self@ == h);
                    lemma_with_unresolved_valid(g, source as int, site);
                }
                true
            },
            None => false,
        }
    }

    /// The targets of the edges that leave node `n`: one entry for each edge,
    /// in the order of `outgoing`.
    pub fn successors(&self, n: usize) -> (r: Vec<usize>)
        requires
            self.wf(),
        ensures
            forall|t: usize| r@.contains(t) <==> self@.calls(n as int, t as int),
            exists|edges: Seq<usize>|
                {
                    &&& edges.no_duplicates()
                    &&& forall|e: usize|
                        edges.contains(e) <==> (e < self@.edges.len() && self@.edges[e as int].source
                            == n)
                    &&& r@.len() == edges.len()
                    &&& forall|j: int|
                        0 <= j < r@.len() ==> (#[trigger] r@[j]) == self@.edges[edges[j] as int].target
                },
    {
        let edges = self.outgoing(n);
        let mut r: Vec<usize> = Vec::new();
        let mut k: usize = 0;
        while k < edges.len()
            invariant
                k <= edges.len(),
                self.wf(),
                r@.len() == k,
                forall|e: usize|
                    edges@.contains(e) <==> (e < self@.edges.len() && self@.edges[e as int].source
                        == n),
                forall|j: int|
                    0 <= j < k ==> (#[trigger] r@[j]) == self@.edges[edges@[j] as int].target,
            decreases edges.len() - k,
        {
            assert(edges@.contains(edges@[k as int]));
            match self.endpoints(edges[k]) {
                Some((_, target)) => r.push(target),
                None => {},
            }
            k += 1;
        }
        proof {
            assert forall|t: usize| r@.contains(t) <==> self@.calls(n as int, t as int) by {
                if r@.contains(t) {
                    let j = choose|j: int| 0 <= j < r@.len() && r@[j] == t;
                    assert(edges@.contains(edges@[j]));
                }
                if self@.calls(n as int, t as int) {
                    let e = choose|e: int|
                        0 <= e < self@.edges.len() && (#[trigger] self@.edges[e]).source == n
                            && self@.edges[e].target == t;
                    assert(edges@.contains(e as usize));
                    let j = choose|j: int| 0 <= j < edges@.len() && edges@[j] == e as usize;
                    assert(r@[j] == t);
                }
            }
        }
        r
    }

    /// The sources of the edges that enter node `n`: one entry for each edge,
    /// in the order of `incoming`.
    pub fn predecessors(&self, n: usize) -> (r: Vec<usize>)
        requires
            self.wf(),
        ensures
            forall|t: usize| r@.contains(t) <==> self@.calls(t as int, n as int),
            exists|edges: Seq<usize>|
                {
                    &&& edges.no_duplicates()
                    &&& forall|e: usize|
                        edges.contains(e) <==> (e < self@.edges.len() && self@.edges[e as int].target
                            == n)
                    &&& r@.len() == edges.len()
                    &&& forall|j: int|
                        0 <= j < r@.len() ==> (#[trigger] r@[j]) == self@.edges[edges[j] as int].source
                },
    {
        let edges = self.incoming(n);
        let mut r: Vec<usize> = Vec::new();
        let mut k: usize = 0;
        while k < edges.len()
            invariant
                k <= edges.len(),
                self.wf(),
                r@.len() == k,
                forall|e: usize|
                    edges@.contains(e) <==> (e < self@.edges.len() && self@.edges[e as int].target
                        == n),
                forall|j: int|
                    0 <= j < k ==> (#[trigger] r@[j]) == self@.edges[edges@[j] as int].source,
            decreases edges.len() - k,
        {
            assert(edges@.contains(edges@[k as int]));
            match self.endpoints(edges[k]) {
                Some((source, _)) => r.push(source),
                None => {},
            }
            k += 1;
        }
        proof {
            assert forall|t: usize| r@.contains(t) <==> self@.calls(t as int, n as int) by {
                if r@.contains(t) {
                    let j = choose|j: int| 0 <= j < r@.len() && r@[j] == t;
                    assert(edges@.contains(edges@[j]));
                }
                if self@.calls(t as int, n as int) {
                    let e = choose|e: int|
                        0 <= e < self@.edges.len() && (#[trigger] self@.edges[e]).source == t
                            && self@.edges[e].target == n;
                    assert(edges@.contains(e as usize));
                    let j = choose|j: int| 0 <= j < edges@.len() && edges@[j] == e as usize;
                    assert(r@[j] == t);
                }
            }
        }
        r
    }
}

} // verus!
