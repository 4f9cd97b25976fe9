//! What a call graph holds, as plain mathematics: the view of a graph, what
//! makes a view valid, and how a view changes when a node or an edge is
//! added.

use vstd::prelude::*;
use crate::model::InvocationAttributes;
use crate::model::InvocationView;
use crate::model::ProcedureAttributes;
use crate::model::ProcedureView;

verus! {


/// An edge of the graph: the invocation and the nodes that it joins.
pub struct Edge {
    pub source: int,
    pub target: int,
    pub invocation: InvocationView,
}

/// What a call graph holds, as plain mathematics.
pub struct CallGraphView {
    /// The procedures, by node number.
    pub nodes: Seq<ProcedureView>,
    /// The invocations with their ends, by edge number.
    pub edges: Seq<Edge>,
    /// From a start address to the node of the procedure that starts there.
    pub proc_index: Map<u64, usize>,
    /// From the address of a call or jump instruction to the node of the
    /// procedure that holds the instruction.
    pub call_index: Map<u64, usize>,
    /// The addresses of the calls that a finder looked at and could not give
    /// a target: calls whose target is only known at run time.
    pub unresolved: Set<u64>,
}

impl CallGraphView {
    /// The graph without nodes, edges and index entries.
    pub open spec fn empty() -> CallGraphView {
        CallGraphView {
            nodes: Seq::empty(),
            edges: Seq::empty(),
            proc_index: Map::empty(),
            call_index: Map::empty(),
            unresolved: Set::empty(),
        }
    }

    /// Every entry of the procedure index leads to a node that starts at the
    /// entry's address.
    pub open spec fn proc_index_sound(self) -> bool {
        forall|a: u64| #[trigger]
            self.proc_index.contains_key(a) ==> self.proc_index[a] < self.nodes.len()
                && self.nodes[self.proc_index[a] as int].start_address == a
    }

    /// The start address of every node has an entry in the procedure index.
    pub open spec fn proc_index_total(self) -> bool {
        forall|n: int|
            0 <= n < self.nodes.len() ==> self.proc_index.contains_key(
                (#[trigger] self.nodes[n]).start_address,
            )
    }

    /// Every entry of the call index leads to a node that holds a call or
    /// jump instruction at the entry's address.
    pub open spec fn call_index_sound(self) -> bool {
        forall|a: u64| #[trigger]
            self.call_index.contains_key(a) ==> self.call_index[a] < self.nodes.len()
                && self.nodes[self.call_index[a] as int].has_call_site(a)
    }

    /// Every call or jump instruction of every node has an entry in the call
    /// index.
    pub open spec fn call_index_total(self) -> bool {
        forall|n: int, a: u64|
            0 <= n < self.nodes.len() && (#[trigger] self.nodes[n]).has_call_site(a)
                ==> #[trigger] self.call_index.contains_key(a)
    }

    /// Every edge joins two nodes of the graph.
    pub open spec fn edges_joined(self) -> bool {
        forall|e: int|
            0 <= e < self.edges.len() ==> 0 <= (#[trigger] self.edges[e]).source < self.nodes.len()
                && 0 <= self.edges[e].target < self.nodes.len()
    }

    /// No two edges leave one node from the same instruction address.
    pub open spec fn sites_distinct(self) -> bool {
        forall|d: int, e: int|
            0 <= d < self.edges.len() && 0 <= e < self.edges.len() && d != e && (
            #[trigger] self.edges[d]).source == (#[trigger] self.edges[e]).source
                ==> self.edges[d].invocation.instruction_address
                != self.edges[e].invocation.instruction_address
    }

    /// An edge from an indexed call or jump instruction leaves the node that
    /// the call index gives for the instruction.
    pub open spec fn sites_enclosed(self) -> bool {
        forall|e: int|
            0 <= e < self.edges.len() && self.call_index.contains_key(
                (#[trigger] self.edges[e]).invocation.instruction_address,
            ) ==> self.edges[e].source
                == self.call_index[self.edges[e].invocation.instruction_address]
    }

    /// Some edge enters node `n`.
    pub open spec fn entered(self, n: int) -> bool {
        exists|e: int| 0 <= e < self.edges.len() && (#[trigger] self.edges[e]).target == n
    }

    /// Every placeholder is the target of an edge.
    pub open spec fn placeholders_entered(self) -> bool {
        forall|n: int|
            0 <= n < self.nodes.len() && (#[trigger] self.nodes[n]).placeholder ==> self.entered(n)
    }

    /// No placeholder starts where a node before it starts.
    pub open spec fn placeholders_fresh(self) -> bool {
        forall|m: int, n: int|
            0 <= m < n < self.nodes.len() && (#[trigger] self.nodes[n]).placeholder ==> (
            #[trigger] self.nodes[m]).start_address != self.nodes[n].start_address
    }

    /// Every call that is marked as unresolved is an indexed call or jump
    /// instruction that no edge leaves.
    pub open spec fn unresolved_open(self) -> bool {
        forall|a: u64| #[trigger]
            self.unresolved.contains(a) ==> self.call_index.contains_key(a)
                && !self.has_invocation_at(a)
    }

    /// What holds of every call graph that this library hands out.
    pub open spec fn valid(self) -> bool {
        &&& self.proc_index_sound()
        &&& self.proc_index_total()
        &&& self.call_index_sound()
        &&& self.call_index_total()
        &&& self.edges_joined()
        &&& self.sites_distinct()
        &&& self.sites_enclosed()
        &&& self.placeholders_entered()
        &&& self.placeholders_fresh()
        &&& self.unresolved_open()
    }

    /// The procedure index leads from the start address of every node back to
    /// that node: no two nodes start at one address.
    pub open spec fn addresses_distinct(self) -> bool {
        forall|n: int|
            0 <= n < self.nodes.len() ==> self.proc_index.contains_key(
                (#[trigger] self.nodes[n]).start_address,
            ) && self.proc_index[self.nodes[n].start_address] == n
    }

    /// Some edge leaves node `n` from the instruction at `site`.
    pub open spec fn has_invocation_from(self, n: int, site: u64) -> bool {
        exists|e: int|
            0 <= e < self.edges.len() && (#[trigger] self.edges[e]).source == n
                && self.edges[e].invocation.instruction_address == site
    }

    /// An edge leads from node `n` to node `t`.
    pub open spec fn calls(self, n: int, t: int) -> bool {
        exists|e: int|
            0 <= e < self.edges.len() && (#[trigger] self.edges[e]).source == n
                && self.edges[e].target == t
    }

    /// Some edge leaves the instruction at `site`, from whichever node.
    pub open spec fn has_invocation_at(self, site: u64) -> bool {
        exists|e: int|
            0 <= e < self.edges.len() && (#[trigger] self.edges[e]).invocation.instruction_address
                == site
    }

    /// The call index after the call and jump instructions of node `n`, whose
    /// record is `p`, have been entered.
    pub open spec fn indexed_sites(self, p: ProcedureView, n: usize) -> Map<u64, usize> {
        Map::new(
            |a: u64| self.call_index.contains_key(a) || p.has_call_site(a),
            |a: u64|
                if p.has_call_site(a) {
                    n
                } else {
                    self.call_index[a]
                },
        )
    }

    /// The graph after the procedure `p` has become its next node.
    pub open spec fn with_procedure(self, p: ProcedureView) -> CallGraphView {
        CallGraphView {
            nodes: self.nodes.push(p),
            edges: self.edges,
            proc_index: self.proc_index.insert(p.start_address, self.nodes.len() as usize),
            call_index: self.indexed_sites(p, self.nodes.len() as usize),
            unresolved: self.unresolved,
        }
    }

    /// Whether the graph takes an edge that leaves `source` from the
    /// instruction at `site`: `source` is a node, there is room for an edge,
    /// no edge leaves `source` from `site` yet, and if `site` is an indexed
    /// call or jump instruction, `source` is the node that holds it.
    pub open spec fn admits(self, source: int, site: u64) -> bool {
        &&& 0 <= source < self.nodes.len()
        &&& self.edges.len() < u32::MAX
        &&& !self.has_invocation_from(source, site)
        &&& self.call_index.contains_key(site) ==> self.call_index[site] == source
    }

    /// Whether the graph takes an edge from `source` to `target` that leaves
    /// the instruction at `site`.
    pub open spec fn accepts(self, source: int, target: int, site: u64) -> bool {
        0 <= target < self.nodes.len() && self.admits(source, site)
    }

    /// The graph after `invocation` has become its next edge, from `source`
    /// to `target`, and the instruction that it leaves is unresolved no more;
    /// the graph itself where it does not take the edge.
    pub open spec fn with_invocation(
        self,
        source: int,
        target: int,
        invocation: InvocationView,
    ) -> CallGraphView {
        if self.accepts(source, target, invocation.instruction_address) {
            CallGraphView {
                edges: self.edges.push(Edge { source, target, invocation }),
                unresolved: self.unresolved.remove(invocation.instruction_address),
                ..self
            }
        } else {
            self
        }
    }

    /// Whether the call at `site` can be marked as unresolved for node
    /// `source`: the call index gives `source` for it, and no edge leaves it.
    pub open spec fn can_mark(self, source: int, site: u64) -> bool {
        &&& self.call_index.contains_key(site)
        &&& self.call_index[site] == source
        &&& !self.has_invocation_at(site)
    }

    /// The graph after the call at `site` in node `source` has been marked as
    /// unresolved; the graph itself where the call cannot be marked.
    pub open spec fn with_unresolved(self, source: int, site: u64) -> CallGraphView {
        if self.can_mark(source, site) {
            CallGraphView { unresolved: self.unresolved.insert(site), ..self }
        } else {
            self
        }
    }

    /// The graph after `invocation` has become its next edge, from `source`
    /// to the node that starts at `address`. Where no node starts there, a
    /// placeholder becomes the next node first, if the graph has room for it
    /// and takes the edge; else the graph stays as it is.
    pub open spec fn with_invocation_to(
        self,
        source: int,
        address: u64,
        invocation: InvocationView,
    ) -> CallGraphView {
        if self.proc_index.contains_key(address) {
            self.with_invocation(source, self.proc_index[address] as int, invocation)
        } else if self.nodes.len() < u32::MAX && self.admits(
            source,
            invocation.instruction_address,
        ) {
            CallGraphView {
                nodes: self.nodes.push(ProcedureView::placeholder_at(address)),
                edges: self.edges.push(
                    Edge { source, target: self.nodes.len() as int, invocation },
                ),
                proc_index: self.proc_index.insert(address, self.nodes.len() as usize),
                call_index: self.call_index,
                unresolved: self.unresolved.remove(invocation.instruction_address),
            }
        } else {
            self
        }
    }

    /// This graph grew out of `earlier` by new edges and new placeholders
    /// alone: what `earlier` held is still there, under the same numbers.
    pub open spec fn extends(self, earlier: CallGraphView) -> bool {
        &&& earlier.nodes.len() <= self.nodes.len()
        &&& forall|n: int| 0 <= n < earlier.nodes.len() ==> self.nodes[n] == earlier.nodes[n]
        &&& forall|n: int|
            earlier.nodes.len() <= n < self.nodes.len() ==> (#[trigger] self.nodes[n])
                == ProcedureView::placeholder_at(self.nodes[n].start_address)
        &&& earlier.edges.len() <= self.edges.len()
        &&& forall|e: int| 0 <= e < earlier.edges.len() ==> self.edges[e] == earlier.edges[e]
        &&& self.call_index == earlier.call_index
        &&& earlier.proc_index.submap_of(self.proc_index)
    }

    /// The graph with other flags on node `n`.
    pub open spec fn with_procedure_attributes(
        self,
        n: int,
        attributes: ProcedureAttributes,
    ) -> CallGraphView {
        CallGraphView { nodes: self.nodes.update(n, self.nodes[n].with_attributes(attributes)), ..self }
    }

    /// The graph with other flags on edge `e`.
    pub open spec fn with_invocation_attributes(
        self,
        e: int,
        attributes: InvocationAttributes,
    ) -> CallGraphView {
        CallGraphView {
            edges: self.edges.update(
                e,
                Edge { invocation: self.edges[e].invocation.with_attributes(attributes), ..self.edges[e] },
            ),
            ..self
        }
    }
}

/// A graph stays valid when it is offered an edge between two of its nodes.
pub proof fn lemma_with_invocation_valid(
    g: CallGraphView,
    source: int,
    target: int,
    invocation: InvocationView,
)
    requires
        g.valid(),
    ensures
        g.with_invocation(source, target, invocation).valid(),
{
    let h = g.with_invocation(source, target, invocation);
    if g.accepts(source, target, invocation.instruction_address) {
        assert forall|e: int| 0 <= e < g.edges.len() implies h.edges[e] == g.edges[e] by {}
    }
}

/// A graph stays valid when it is offered an edge to an address, with a
/// placeholder for the address where no node starts there.
pub proof fn lemma_with_invocation_to_valid(
    g: CallGraphView,
    source: int,
    address: u64,
    invocation: InvocationView,
)
    requires
        g.valid(),
    ensures
        g.with_invocation_to(source, address, invocation).valid(),
{
    let h = g.with_invocation_to(source, address, invocation);
    if g.proc_index.contains_key(address) {
        lemma_with_invocation_valid(g, source, g.proc_index[address] as int, invocation);
    } else if g.nodes.len() < u32::MAX && g.admits(source, invocation.instruction_address) {
        let last = g.edges.len() as int;
        let n = g.nodes.len() as int;
        assert(h.edges[last] == Edge { source, target: n, invocation });
        assert forall|e: int| 0 <= e < g.edges.len() implies h.edges[e] == g.edges[e] by {}
    }
}

/// A graph stays valid when the flags of an edge change.
pub proof fn lemma_with_invocation_attributes_valid(
    g: CallGraphView,
    e: int,
    attributes: InvocationAttributes,
)
    requires
        g.valid(),
        0 <= e < g.edges.len(),
    ensures
        g.with_invocation_attributes(e, attributes).valid(),
{
    let h = g.with_invocation_attributes(e, attributes);
    assert(h.placeholders_entered()) by {
        assert forall|m: int| 0 <= m < h.nodes.len() && (#[trigger] h.nodes[m]).placeholder implies h.entered(
            m,
        ) by {
            let d = choose|d: int| 0 <= d < g.edges.len() && (#[trigger] g.edges[d]).target == m;
            assert(h.edges[d].target == m);
        }
    }
}

/// A graph stays valid when a call without an edge is marked as unresolved.
pub proof fn lemma_with_unresolved_valid(g: CallGraphView, source: int, site: u64)
    requires
        g.valid(),
    ensures
        g.with_unresolved(source, site).valid(),
{
    let h = g.with_unresolved(source, site);
    if g.can_mark(source, site) {
        assert forall|a: u64| #[trigger] h.unresolved.contains(a) implies h.call_index.contains_key(a)
            && !h.has_invocation_at(a) by {
            if a != site {
                assert(g.unresolved.contains(a));
            }
        }
        assert forall|n: int| 0 <= n < h.nodes.len() && (#[trigger] h.nodes[n]).placeholder implies h.entered(
            n,
        ) by {
            assert(g.entered(n));
        }
    }
}

/// Growth composes.
pub proof fn lemma_extends_transitive(a: CallGraphView, b: CallGraphView, c: CallGraphView)
    requires
        b.extends(a),
        c.extends(b),
    ensures
        c.extends(a),
{
    assert(a.proc_index.submap_of(c.proc_index)) by {
        assert forall|k: u64| #[trigger] a.proc_index.contains_key(k) implies c.proc_index.contains_key(k)
            && a.proc_index[k] == c.proc_index[k] by {
            assert(b.proc_index.contains_key(k));
        }
    }
}

} // verus!
