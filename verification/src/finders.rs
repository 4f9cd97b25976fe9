//! The strategies that find invocations. Each one knows one mechanism by
//! which control passes between procedures, walks the disassembly of every
//! procedure of the graph, and offers the graph an edge for each instruction
//! that uses the mechanism.

use vstd::prelude::*;
use crate::graph_view::lemma_extends_transitive;
use crate::callgraph::CallGraph;
use crate::graph_view::CallGraphView;
use crate::context::get_inline_frames;
use crate::context::get_slot_target;
use crate::context::CompilationInfo;
use crate::context::CompilationInfoView;
use crate::context::Context;
use crate::context::ContextView;
use crate::model::Instruction;
use crate::model::Invocation;
use crate::model::InvocationAttributes;
use crate::model::InvocationType;
use crate::model::InvocationView;
use crate::model::Operand;

verus! {

/// A strategy that finds the invocations of one mechanism and adds them to the
/// graph as edges.
pub trait InvocationFinder<P, I, F> {
    /// The graph that the finder makes of `graph`, given the binary and what
    /// it is told about the compilation.
    spec fn found(
        &self,
        graph: CallGraphView,
        ctx: ContextView,
        info: CompilationInfoView,
    ) -> CallGraphView;

    /// Adds the edges that the finder detects, with a placeholder for each
    /// callee that the binary does not define. What the graph held stays as
    /// it was, and no instruction gets a second edge.
    fn find_invocations(
        &self,
        graph: &mut CallGraph<P, I, F>,
        ctx: &Context,
        info: CompilationInfo<'_>,
    )
        requires
            old(graph).wf(),
        ensures
            final(graph).wf(),
            final(graph)@ == self.found(old(graph)@, ctx@, info@),
            final(graph)@.extends(old(graph)@),
            final(graph).keeps_records_of(old(graph)),
    ;
}

/// The invocation of mechanism `kind` that leaves the instruction at `site`.
pub open spec fn invocation_at(ctx: ContextView, kind: InvocationType, site: u64) -> InvocationView {
    InvocationView {
        instruction_address: site,
        invocation_type: kind,
        frames: ctx.frames_at(site),
        attributes: InvocationAttributes { whitelisted: false },
    }
}

/// What the finder of mechanism `kind` makes of the graph at one instruction
/// of node `n`.
///
/// - Direct: a call to an encoded address gets an edge to the procedure that
///   starts there, or to a placeholder for it.
/// - Jump: a jump to an encoded address outside the procedure's own span of
///   addresses gets an edge in the same way; a jump within the span is a
///   branch and gets none.
/// - ProcedureReference: an instruction that neither calls nor jumps and
///   holds the start address of a known procedure gets an edge to it.
/// - VTable: a call through a dispatch slot gets an edge to the known
///   procedure whose address the slot holds; where the slot or the procedure
///   is unknown, the call gets no edge and is marked as unresolved.
pub open spec fn step(
    g: CallGraphView,
    ctx: ContextView,
    kind: InvocationType,
    n: int,
    ins: Instruction,
) -> CallGraphView {
    let invocation = invocation_at(ctx, kind, ins.address);
    match (kind, ins.operand) {
        (InvocationType::Direct, Operand::Address(t)) => if ins.is_call {
            g.with_invocation_to(n, t, invocation)
        } else {
            g
        },
        (InvocationType::Jump, Operand::Address(t)) => if ins.is_jump && !g.nodes[n].in_range(t) {
            g.with_invocation_to(n, t, invocation)
        } else {
            g
        },
        (InvocationType::ProcedureReference, Operand::Address(t)) => if !ins.call_site()
            && g.proc_index.contains_key(t) {
            g.with_invocation(n, g.proc_index[t] as int, invocation)
        } else {
            g
        },
        (InvocationType::VTable, Operand::Slot(s)) => if !ins.is_call {
            g
        } else if ctx.slot_target(s) matches Some(t) && g.proc_index.contains_key(t) {
            g.with_invocation(n, g.proc_index[ctx.slot_target(s).unwrap()] as int, invocation)
        } else {
            g.with_unresolved(n, ins.address)
        },
        _ => g,
    }
}

/// What the finder makes of the graph at the first `k` instructions of `d`,
/// the disassembly of node `n`.
pub open spec fn scan_procedure(
    g: CallGraphView,
    ctx: ContextView,
    kind: InvocationType,
    n: int,
    d: Seq<Instruction>,
    k: nat,
) -> CallGraphView
    decreases k,
{
    if k == 0 {
        g
    } else {
        step(scan_procedure(g, ctx, kind, n, d, (k - 1) as nat), ctx, kind, n, d[k - 1])
    }
}

/// What the finder makes of the graph at the first `n` nodes of `g`, node
/// after node and instruction after instruction.
pub open spec fn scan_nodes(g: CallGraphView, ctx: ContextView, kind: InvocationType, n: nat) -> CallGraphView
    decreases n,
{
    if n == 0 {
        g
    } else {
        scan_procedure(
            scan_nodes(g, ctx, kind, (n - 1) as nat),
            ctx,
            kind,
            n - 1,
            g.nodes[n - 1].disassembly,
            g.nodes[n - 1].disassembly.len(),
        )
    }
}

/// What the finder of mechanism `kind` makes of the graph.
pub open spec fn scan(g: CallGraphView, ctx: ContextView, kind: InvocationType) -> CallGraphView {
    scan_nodes(g, ctx, kind, g.nodes.len())
}

/// Offers the graph the edge, if any, that the finder of mechanism `kind`
/// sees in the instruction `ins` of node `n`.
fn apply<P: Default, I: Default, F: Default>(
    graph: &mut CallGraph<P, I, F>,
    ctx: &Context,
    kind: InvocationType,
    n: usize,
    ins: Instruction,
)
    requires
        old(graph).wf(),
        n < old(graph)@.nodes.len(),
    ensures
        final(graph).wf(),
        final(graph)@ == step(old(graph)@, ctx@, kind, n as int, ins),
        final(graph)@.extends(old(graph)@),
        final(graph).keeps_records_of(old(graph)),
{
    match (kind, ins.operand) {
        (InvocationType::Direct, Operand::Address(t)) => {
            if ins.is_call {
                graph.add_invocation_to(n, t, found(ctx, kind, ins.address));
            }
        },
        (InvocationType::Jump, Operand::Address(t)) => {
            if ins.is_jump && !graph.procedure(n).unwrap().contains_address(t) {
                graph.add_invocation_to(n, t, found(ctx, kind, ins.address));
            }
        },
        (InvocationType::ProcedureReference, Operand::Address(t)) => {
            if !ins.is_call_site() {
                match graph.node_at(t) {
                    Some(target) => {
                        graph.add_invocation(n, target, found(ctx, kind, ins.address));
                    },
                    None => {},
                }
            }
        },
        (InvocationType::VTable, Operand::Slot(s)) => {
            if ins.is_call {
                let target = match get_slot_target(ctx, s) {
                    Some(t) => graph.node_at(t),
                    None => None,
                };
                match target {
                    Some(target) => {
                        graph.add_invocation(n, target, found(ctx, kind, ins.address));
                    },
                    None => {
                        graph.mark_unresolved(n, ins.address);
                    },
                }
            }
        },
        _ => {},
    }
}

/// The record of an invocation of mechanism `kind` that leaves the
/// instruction at `site`, with the inlined calls that the debug information
/// has for it.
fn found<I: Default, F: Default>(ctx: &Context, kind: InvocationType, site: u64) -> (r: Invocation<
    I,
    F,
>)
    ensures
        r@ == invocation_at(ctx@, kind, site),
{
    Invocation {
        instruction_address: site,
        invocation_type: kind,
        frames: get_inline_frames(ctx, site),
        attributes: InvocationAttributes { whitelisted: false },
        metadata: I::default(),
    }
}

/// Walks the disassembly of every node that the graph holds on entry and
/// offers the graph the edges that the finder of mechanism `kind` sees.
pub fn scan_graph<P: Default, I: Default, F: Default>(
    graph: &mut CallGraph<P, I, F>,
    ctx: &Context,
    kind: InvocationType,
)
    requires
        old(graph).wf(),
    ensures
        final(graph).wf(),
        final(graph)@ == scan(old(graph)@, ctx@, kind),
        final(graph)@.extends(old(graph)@),
        final(graph).keeps_records_of(old(graph)),
{
    let ghost start = graph@;
    let count = graph.node_count();
    let mut n: usize = 0;
    while n < count
        invariant
            n <= count,
            count == start.nodes.len(),
            graph.wf(),
            graph@ == scan_nodes(start, ctx@, kind, n as nat),
            graph@.extends(start),
            start == old(graph)@,
            graph.keeps_records_of(old(graph)),
        decreases count - n,
    {
        let ghost before = graph@;
        let ghost d = start.nodes[n as int].disassembly;
        let length = graph.procedure(n).unwrap().disassembly.len();
        let mut k: usize = 0;
        while k < length
            invariant
                k <= length,
                n < count,
                count == start.nodes.len(),
                length == d.len(),
                d == start.nodes[n as int].disassembly,
                graph.wf(),
                graph@ == scan_procedure(before, ctx@, kind, n as int, d, k as nat),
                graph@.extends(start),
                start == old(graph)@,
                graph.keeps_records_of(old(graph)),
            decreases length - k,
        {
            let ghost earlier = *graph;
            let ins = graph.procedure(n).unwrap().disassembly[k];
            apply(graph, ctx, kind, n, ins);
            proof {
                lemma_extends_transitive(start, earlier@, graph@);
            }
            k += 1;
        }
        n += 1;
    }
}

/// Finds the calls whose target is encoded in the instruction.
#[derive(Clone, Copy, Debug)]
pub struct DirectCallFinder {}

/// Finds the instructions that take the address of a procedure.
#[derive(Clone, Copy, Debug)]
pub struct ProcedureReferenceFinder {}

/// Finds the calls through the slots of dispatch tables.
#[derive(Clone, Copy, Debug)]
pub struct VTableFinder {}

/// Finds the jumps that leave their procedure: tail calls.
#[derive(Clone, Copy, Debug)]
pub struct JumpFinder {}

impl<P: Default, I: Default, F: Default> InvocationFinder<P, I, F> for DirectCallFinder {
    open spec fn found(
        &self,
        graph: CallGraphView,
        ctx: ContextView,
        info: CompilationInfoView,
    ) -> CallGraphView {
        scan(graph, ctx, InvocationType::Direct)
    }

    fn find_invocations(
        &self,
        graph: &mut CallGraph<P, I, F>,
        ctx: &Context,
        _info: CompilationInfo<'_>,
    ) {
        scan_graph(graph, ctx, InvocationType::Direct);
    }
}

impl<P: Default, I: Default, F: Default> InvocationFinder<P, I, F> for ProcedureReferenceFinder {
    open spec fn found(
        &self,
        graph: CallGraphView,
        ctx: ContextView,
        info: CompilationInfoView,
    ) -> CallGraphView {
        scan(graph, ctx, InvocationType::ProcedureReference)
    }

    fn find_invocations(
        &self,
        graph: &mut CallGraph<P, I, F>,
        ctx: &Context,
        _info: CompilationInfo<'_>,
    ) {
        scan_graph(graph, ctx, InvocationType::ProcedureReference);
    }
}

impl<P: Default, I: Default, F: Default> InvocationFinder<P, I, F> for VTableFinder {
    open spec fn found(
        &self,
        graph: CallGraphView,
        ctx: ContextView,
        info: CompilationInfoView,
    ) -> CallGraphView {
        scan(graph, ctx, InvocationType::VTable)
    }

    fn find_invocations(
        &self,
        graph: &mut CallGraph<P, I, F>,
        ctx: &Context,
        _info: CompilationInfo<'_>,
    ) {
        scan_graph(graph, ctx, InvocationType::VTable);
    }
}

impl<P: Default, I: Default, F: Default> InvocationFinder<P, I, F> for JumpFinder {
    open spec fn found(
        &self,
        graph: CallGraphView,
        ctx: ContextView,
        info: CompilationInfoView,
    ) -> CallGraphView {
        scan(graph, ctx, InvocationType::Jump)
    }

    fn find_invocations(
        &self,
        graph: &mut CallGraph<P, I, F>,
        ctx: &Context,
        _info: CompilationInfo<'_>,
    ) {
        scan_graph(graph, ctx, InvocationType::Jump);
    }
}

} // verus!
