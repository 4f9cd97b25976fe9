//! The findings of the analysis that walks a finished call graph: the traces
//! that lead from the analysed code to a panic.

use vstd::prelude::*;
use crate::model::Invocation;
use crate::model::InvocationView;
use crate::model::Procedure;
use crate::model::ProcedureView;

verus! {

/// The cause of a panic, as far as the analysis recognised it.
#[derive(Clone, Copy, Debug, PartialEq, Eq, Structural)]
pub enum PanicPattern {
    Unrecognized,
    DirectCall,
    Unwrap,
    Indexing,
    Arithmetic,
}

/// One step of a trace: a procedure, and the invocation by which the trace
/// leaves it; the last step has none.
#[derive(Debug)]
pub struct BackTraceEntry {
    pub procedure: Procedure<()>,
    pub outgoing_invocation: Option<Invocation<(), ()>>,
}

pub struct BackTraceEntryView {
    pub procedure: ProcedureView,
    pub outgoing_invocation: Option<InvocationView>,
}

impl View for BackTraceEntry {
    type V = BackTraceEntryView;

    open spec fn view(&self) -> BackTraceEntryView {
        BackTraceEntryView {
            procedure: self.procedure@,
            outgoing_invocation: match self.outgoing_invocation {
                Some(i) => Some(i@),
                None => None,
            },
        }
    }
}

impl BackTraceEntry {
    /// The step of a trace that stands at `procedure` and goes on by
    /// `invocation`, copied without the caller's data.
    pub fn of<P, I, F>(procedure: &Procedure<P>, invocation: Option<&Invocation<I, F>>) -> (entry: Self)
        ensures
            entry@.procedure == procedure@,
            entry@.outgoing_invocation == (match invocation {
                Some(i) => Some(i@),
                None => None,
            }),
    {
        BackTraceEntry {
            procedure: procedure.with_metadata(()),
            outgoing_invocation: match invocation {
                Some(i) => Some(i.without_metadata()),
                None => None,
            },
        }
    }
}

/// A trace from the analysed code to a panic.
#[derive(Debug)]
pub struct PanicCall {
    pub backtrace: Vec<BackTraceEntry>,
    pub pattern: PanicPattern,
    /// The trace passes through a call whose target is only known at run
    /// time, so it may not be a real one.
    pub contains_dynamic_invocation: bool,
    pub message: Option<String>,
}

pub struct PanicCallView {
    pub backtrace: Seq<BackTraceEntryView>,
    pub pattern: PanicPattern,
    pub contains_dynamic_invocation: bool,
    pub message: Option<Seq<char>>,
}

impl View for PanicCall {
    type V = PanicCallView;

    open spec fn view(&self) -> PanicCallView {
        PanicCallView {
            backtrace: self.backtrace@.map_values(|e: BackTraceEntry| e@),
            pattern: self.pattern,
            contains_dynamic_invocation: self.contains_dynamic_invocation,
            message: match self.message {
                Some(m) => Some(m@),
                None => None,
            },
        }
    }
}

/// All traces that an analysis found.
#[derive(Debug)]
pub struct PanicCallsCollection {
    pub calls: Vec<PanicCall>,
}

impl View for PanicCallsCollection {
    type V = Seq<PanicCallView>;

    open spec fn view(&self) -> Seq<PanicCallView> {
        self.calls@.map_values(|c: PanicCall| c@)
    }
}

} // verus!
