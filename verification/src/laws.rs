//! What holds of every call graph that the builder returns, stated over the
//! graph's view and proved from the contracts of the library.

use vstd::prelude::*;
use crate::builder::built;
use crate::builder::populated;
use crate::builder::lemma_populated;
use crate::builder::X86CallGraphBuilder;
use crate::callgraph::CallGraph;
use crate::context::lemma_records_defined;
use crate::context::Context;
use crate::text::pow10;
use crate::text::width_for;

verus! {

/// The procedure index is injective: two different addresses never lead to
/// the same node.
pub proof fn law_procedure_index_injective<P, I, F>(graph: CallGraph<P, I, F>, a: u64, b: u64)
    requires
        graph.wf(),
        graph@.proc_index.contains_key(a),
        graph@.proc_index.contains_key(b),
        a != b,
    ensures
        graph@.proc_index[a] != graph@.proc_index[b],
{
}

/// In a graph that grew out of the nodes of a binary, as the builder returns
/// it, no two nodes start at the same address, and the procedure index leads
/// from the start address of every node back to that node. This holds for a
/// binary of which no two procedures start at the same address.
pub proof fn law_start_addresses_unique<P, I, F>(
    ctx: Context,
    graph: CallGraph<P, I, F>,
    m: int,
    n: int,
)
    requires
        ctx@.procedures().len() < u32::MAX,
        ctx@.start_addresses_distinct(),
        graph.wf(),
        graph@.extends(populated(ctx@.procedures(), ctx@.procedures().len())),
        0 <= m < graph@.nodes.len(),
        0 <= n < graph@.nodes.len(),
        m != n,
    ensures
        graph@.nodes[m].start_address != graph@.nodes[n].start_address,
        graph@.proc_index.contains_key(graph@.nodes[m].start_address),
        graph@.proc_index[graph@.nodes[m].start_address] == m,
{
    let records = ctx@.procedures();
    lemma_records_defined(ctx@.units, ctx@.units.len());
    lemma_populated(records, records.len());
}

/// Every entry of the call index leads to a node that holds a call or jump
/// instruction at the entry's address, so the address lies within the span
/// of that procedure's instruction addresses.
pub proof fn law_call_sites_contained<P, I, F>(graph: CallGraph<P, I, F>, address: u64)
    requires
        graph.wf(),
        graph@.call_index.contains_key(address),
    ensures
        graph@.call_index[address] < graph@.nodes.len(),
        graph@.nodes[graph@.call_index[address] as int].has_call_site(address),
        graph@.nodes[graph@.call_index[address] as int].in_range(address),
{
}

/// At most one edge leaves a call or jump instruction: two edges from the
/// same indexed instruction address are one edge.
pub proof fn law_one_edge_per_call_site<P, I, F>(graph: CallGraph<P, I, F>, d: int, e: int)
    requires
        graph.wf(),
        0 <= d < graph@.edges.len(),
        0 <= e < graph@.edges.len(),
        graph@.call_index.contains_key(graph@.edges[d].invocation.instruction_address),
        graph@.edges[d].invocation.instruction_address
            == graph@.edges[e].invocation.instruction_address,
    ensures
        d == e,
{
}

/// At most one edge leaves a node from any one instruction address, whether
/// the instruction calls, jumps or does neither.
pub proof fn law_one_edge_per_instruction<P, I, F>(graph: CallGraph<P, I, F>, d: int, e: int)
    requires
        graph.wf(),
        0 <= d < graph@.edges.len(),
        0 <= e < graph@.edges.len(),
        graph@.edges[d].source == graph@.edges[e].source,
        graph@.edges[d].invocation.instruction_address
            == graph@.edges[e].invocation.instruction_address,
    ensures
        d == e,
{
}

/// A call that is marked as unresolved has no edge: it is never matched to a
/// node.
pub proof fn law_unresolved_calls_have_no_edge<P, I, F>(graph: CallGraph<P, I, F>, e: int)
    requires
        graph.wf(),
        0 <= e < graph@.edges.len(),
    ensures
        !graph@.unresolved.contains(graph@.edges[e].invocation.instruction_address),
{
    let site = graph@.edges[e].invocation.instruction_address;
    if graph@.unresolved.contains(site) {
        assert(graph@.has_invocation_at(site));
    }
}

/// Two graphs that the same builder makes of the same binary are equal in
/// nodes, edges, edge types and indices.
pub proof fn law_rebuild_equal<P, I, F>(
    builder: X86CallGraphBuilder<P, I, F>,
    ctx: Context,
    first: CallGraph<P, I, F>,
    second: CallGraph<P, I, F>,
)
    requires
        first@ == built(builder.invocation_finders@, ctx@),
        second@ == built(builder.invocation_finders@, ctx@),
    ensures
        first@.nodes == second@.nodes,
        first@.edges == second@.edges,
        first@.proc_index == second@.proc_index,
        first@.call_index == second@.call_index,
        first@.unresolved == second@.unresolved,
{
}

/// A placeholder is the target of an edge, and it starts at an address at
/// which no node before it starts.
pub proof fn law_placeholders_referenced<P, I, F>(graph: CallGraph<P, I, F>, n: int)
    requires
        graph.wf(),
        0 <= n < graph@.nodes.len(),
        graph@.nodes[n].placeholder,
    ensures
        graph@.entered(n),
        forall|m: int| 0 <= m < n ==> (#[trigger] graph@.nodes[m]).start_address != graph@.nodes[n].start_address,
{
}

/// In a graph that grew out of the nodes of a binary, as the builder returns
/// it, the placeholders are just the nodes behind the binary's procedures.
pub proof fn law_placeholders_behind_procedures<P, I, F>(
    ctx: Context,
    graph: CallGraph<P, I, F>,
    n: int,
)
    requires
        ctx@.procedures().len() < u32::MAX,
        graph@.extends(populated(ctx@.procedures(), ctx@.procedures().len())),
        0 <= n < graph@.nodes.len(),
    ensures
        graph@.nodes[n].placeholder <==> n >= ctx@.procedures().len(),
        n < ctx@.procedures().len() ==> graph@.nodes[n] == ctx@.procedures()[n],
{
    let records = ctx@.procedures();
    lemma_records_defined(ctx@.units, ctx@.units.len());
    lemma_populated(records, records.len());
}

/// The width to which the numbers of `count` traces are padded is the least
/// exponent whose power of ten reaches `count`.
pub proof fn law_label_width_is_least(count: nat)
    ensures
        pow10(width_for(count)) >= count,
        width_for(count) > 0 ==> pow10((width_for(count) - 1) as nat) < count,
    decreases count,
{
    if count > 1 {
        let rest = (count + 9) / 10;
        law_label_width_is_least(rest);
        if width_for(rest) > 0 {
            let below = pow10((width_for(rest) - 1) as nat);
            assert(10 * below < count) by {
                assert(below + 1 <= rest);
                assert(10 * rest <= count + 9);
            }
        }
    }
}

} // verus!
