//! The builder of call graphs: it makes a node of every procedure of the
//! binary, then lets its finders add the edges, one finder after the other.

use vstd::prelude::*;
use crate::graph_view::lemma_extends_transitive;
use crate::callgraph::CallGraph;
use crate::graph_view::CallGraphView;
use crate::context::get_compilation_unit_directories;
use crate::context::get_procedures;
use crate::context::get_rust_version;
use crate::context::lemma_records_defined;
use crate::context::procedure_views;
use crate::context::CompilationInfo;
use crate::context::CompilationInfoView;
use crate::context::CompilationUnitView;
use crate::context::Context;
use crate::context::ContextView;
use crate::context::RustVersion;
use crate::finders::scan;
use crate::finders::DirectCallFinder;
use crate::finders::InvocationFinder;
use crate::finders::JumpFinder;
use crate::finders::ProcedureReferenceFinder;
use crate::finders::VTableFinder;
use crate::model::InvocationType;
use crate::model::Procedure;
use crate::model::ProcedureView;

verus! {

/// The graph whose nodes are the first `n` of `procedures`, in order, with
/// both indices filled and no edge.
pub open spec fn populated(procedures: Seq<ProcedureView>, n: nat) -> CallGraphView
    decreases n,
{
    if n == 0 {
        CallGraphView::empty()
    } else {
        populated(procedures, (n - 1) as nat).with_procedure(procedures[n - 1])
    }
}

/// What the first `n` of `finders`, one after the other, make of `graph`.
pub open spec fn searched<P, I, F>(
    finders: Seq<Box<dyn InvocationFinder<P, I, F>>>,
    graph: CallGraphView,
    ctx: ContextView,
    n: nat,
) -> CallGraphView
    decreases n,
{
    if n == 0 {
        graph
    } else {
        finders[n - 1].found(
            searched(finders, graph, ctx, (n - 1) as nat),
            ctx,
            ctx.compilation_info(),
        )
    }
}

/// The call graph of a binary: a node for each procedure, then what the
/// finders make of it, in their order.
pub open spec fn built<P, I, F>(
    finders: Seq<Box<dyn InvocationFinder<P, I, F>>>,
    ctx: ContextView,
) -> CallGraphView {
    searched(finders, populated(ctx.procedures(), ctx.procedures().len()), ctx, finders.len())
}

/// The graph of the first `n` procedures is valid and holds just them; where
/// no two of them start at one address, the procedure index leads back from
/// each to its node.
pub proof fn lemma_populated(procedures: Seq<ProcedureView>, n: nat)
    requires
        n <= procedures.len(),
        n <= usize::MAX,
        forall|i: int| 0 <= i < procedures.len() ==> !(#[trigger] procedures[i]).placeholder,
    ensures
        populated(procedures, n).valid(),
        populated(procedures, n).nodes == procedures.take(n as int),
        populated(procedures, n).edges.len() == 0,
        (forall|i: int, j: int|
            0 <= i < j < n ==> (#[trigger] procedures[i]).start_address != (
            #[trigger] procedures[j]).start_address) ==> populated(procedures, n).addresses_distinct(),
    decreases n,
{
    if n > 0 {
        lemma_populated(procedures, (n - 1) as nat);
    }
}

/// A builder of call graphs.
pub trait CallGraphBuilder<P, I, F> {
    /// Builds the call graph of the binary that `ctx` describes. The nodes
    /// of a graph are numbered below `u32::MAX`, so the binary must hold
    /// fewer procedures than that.
    fn build_call_graph(&self, ctx: &Context) -> (graph: CallGraph<P, I, F>)
        requires
            ctx@.procedures().len() < u32::MAX,
        ensures
            graph.wf(),
    ;
}

/// Builds call graphs of x86 binaries with the finders that it was given.
#[verifier::reject_recursive_types(P)]
#[verifier::reject_recursive_types(I)]
#[verifier::reject_recursive_types(F)]
pub struct X86CallGraphBuilder<P, I, F> {
    /// The finders, in the order in which they run.
    pub invocation_finders: Vec<Box<dyn InvocationFinder<P, I, F>>>,
}

impl<P: Default, I: Default, F: Default> X86CallGraphBuilder<P, I, F> {
    /// A builder with the four finders of this library in the one order that
    /// is meant for use: direct calls, procedure references, dispatch
    /// tables, jumps.
    pub fn new() -> (builder: Self)
        ensures
            builder.invocation_finders@.len() == 4,
            forall|g: CallGraphView, c: ContextView, i: CompilationInfoView| #[trigger]
                builder.invocation_finders@[0].found(g, c, i) == scan(g, c, InvocationType::Direct),
            forall|g: CallGraphView, c: ContextView, i: CompilationInfoView| #[trigger]
                builder.invocation_finders@[1].found(g, c, i) == scan(
                    g,
                    c,
                    InvocationType::ProcedureReference,
                ),
            forall|g: CallGraphView, c: ContextView, i: CompilationInfoView| #[trigger]
                builder.invocation_finders@[2].found(g, c, i) == scan(g, c, InvocationType::VTable),
            forall|g: CallGraphView, c: ContextView, i: CompilationInfoView| #[trigger]
                builder.invocation_finders@[3].found(g, c, i) == scan(g, c, InvocationType::Jump),
    {
        let invocation_finders: Vec<Box<dyn InvocationFinder<P, I, F>>> = vec![
            Box::new(DirectCallFinder {}),
            Box::new(ProcedureReferenceFinder {}),
            Box::new(VTableFinder {}),
            Box::new(JumpFinder {}),
        ];
        X86CallGraphBuilder { invocation_finders }
    }
}

impl<P: Default, I: Default, F: Default> CallGraphBuilder<P, I, F> for X86CallGraphBuilder<P, I, F> {
    /// The graph holds a node for each procedure of the binary, in the
    /// binary's order, and behind them the placeholders that the finders
    /// added; its edges are those that the finders added, in their order.
    fn build_call_graph(&self, ctx: &Context) -> (graph: CallGraph<P, I, F>)
        ensures
            graph@ == built(self.invocation_finders@, ctx@),
            graph@.extends(populated(ctx@.procedures(), ctx@.procedures().len())),
            ctx@.start_addresses_distinct() ==> graph@.addresses_distinct(),
    {
        let mut graph: CallGraph<P, I, F> = CallGraph::new();
        let compilation_unit_dirs = get_compilation_unit_directories(ctx);
        let rust_version = match get_rust_version(ctx) {
            Some(version) => version,
            None => RustVersion::default(),
        };
        let procedures: Vec<Procedure<P>> = get_procedures(ctx);
        let ghost records = ctx@.procedures();
        let ghost all = procedures@;
        assert(forall|i: int| 0 <= i < records.len() ==> !(#[trigger] records[i]).placeholder) by {
            lemma_records_defined(ctx@.units, ctx@.units.len());
        }
        for procedure in iter: procedures
            invariant
                iter.seq() == all,
                procedure_views(all) == records,
                records.len() < u32::MAX,
                forall|i: int| 0 <= i < records.len() ==> !(#[trigger] records[i]).placeholder,
                graph.wf(),
                graph@ == populated(records, iter.index() as nat),
        {
            proof {
                lemma_populated(records, iter.index() as nat);
                assert(procedure@ == records[iter.index() as int]);
            }
            graph.add_procedure(procedure);
        }
        proof {
            lemma_populated(records, records.len());
        }
        let ghost nodes_only = graph@;
        assert(compilation_unit_dirs@.map_values(|d: String| d@) =~= ctx@.units.map_values(
            |u: CompilationUnitView| u.directory,
        ));
        let mut i: usize = 0;
        while i < self.invocation_finders.len()
            invariant
                i <= self.invocation_finders.len(),
                compilation_unit_dirs@.map_values(|d: String| d@)
                    == ctx@.compilation_info().compilation_dirs,
                rust_version == ctx@.compilation_info().rust_version,
                graph.wf(),
                graph@ == searched(self.invocation_finders@, nodes_only, ctx@, i as nat),
                graph@.extends(nodes_only),
            decreases self.invocation_finders.len() - i,
        {
            let ghost earlier = graph@;
            self.invocation_finders[i].find_invocations(
                &mut graph,
                ctx,
                CompilationInfo {
                    compilation_dirs: &compilation_unit_dirs,
                    rust_version: &rust_version,
                },
            );
            proof {
                lemma_extends_transitive(nodes_only, earlier, graph@);
            }
            i += 1;
        }
        graph
    }
}

} // verus!
