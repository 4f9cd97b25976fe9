//! The records that a call graph holds: procedures, their instructions, and
//! the invocations between procedures.

use vstd::prelude::*;

verus! {

/// What an instruction refers to, as far as its encoding shows it.
#[derive(Clone, Copy, Debug, PartialEq, Eq, Structural)]
pub enum Operand {
    /// Nothing that names a code address.
    Opaque,
    /// A code address encoded in the instruction itself.
    Address(u64),
    /// A memory location, at a known address, from which a code address is loaded.
    Slot(u64),
}

/// One disassembled instruction with the classes that the disassembler gave it.
#[derive(Clone, Copy, Debug, PartialEq, Eq, Structural)]
pub struct Instruction {
    pub address: u64,
    /// The instruction belongs to the disassembler's class of calls.
    pub is_call: bool,
    /// The instruction belongs to the disassembler's class of jumps.
    pub is_jump: bool,
    pub operand: Operand,
}

impl Instruction {
    /// A call site is an instruction of the call class or of the jump class.
    pub open spec fn call_site(self) -> bool {
        self.is_call || self.is_jump
    }

    pub fn is_call_site(&self) -> (r: bool)
        ensures
            r == self.call_site(),
    {
        self.is_call || self.is_jump
    }
}

/// The compilation unit that a procedure or frame comes from.
#[derive(Debug)]
pub struct Crate {
    pub name: String,
    pub version: Option<String>,
}

pub struct CrateView {
    pub name: Seq<char>,
    pub version: Option<Seq<char>>,
}

impl View for Crate {
    type V = CrateView;

    open spec fn view(&self) -> CrateView {
        CrateView {
            name: self.name@,
            version: match self.version {
                Some(v) => Some(v@),
                None => None,
            },
        }
    }
}

impl Clone for Crate {
    fn clone(&self) -> (r: Self)
        ensures
            r@ == self@,
    {
        let version = match &self.version {
            Some(v) => Some(v.clone()),
            None => None,
        };
        Crate { name: self.name.clone(), version }
    }
}

/// A place in a source file.
#[derive(Debug)]
pub struct Location {
    pub file: String,
    pub line: u64,
}

pub struct LocationView {
    pub file: Seq<char>,
    pub line: u64,
}

impl View for Location {
    type V = LocationView;

    open spec fn view(&self) -> LocationView {
        LocationView { file: self.file@, line: self.line }
    }
}

impl Clone for Location {
    fn clone(&self) -> (r: Self)
        ensures
            r@ == self@,
    {
        Location { file: self.file.clone(), line: self.line }
    }
}

/// The flags of a procedure. Construction leaves them all unset; the analyses
/// that run on a finished graph set them.
#[derive(Clone, Copy, Debug, PartialEq, Eq, Structural)]
pub struct ProcedureAttributes {
    pub entry_point: bool,
    pub reachable_from_entry_point: bool,
    pub is_panic: bool,
    pub is_panic_origin: bool,
    pub whitelisted: bool,
}

impl ProcedureAttributes {
    pub open spec fn unset() -> ProcedureAttributes {
        ProcedureAttributes {
            entry_point: false,
            reachable_from_entry_point: false,
            is_panic: false,
            is_panic_origin: false,
            whitelisted: false,
        }
    }
}

impl Default for ProcedureAttributes {
    fn default() -> (r: Self)
        ensures
            r == ProcedureAttributes::unset(),
    {
        ProcedureAttributes {
            entry_point: false,
            reachable_from_entry_point: false,
            is_panic: false,
            is_panic_origin: false,
            whitelisted: false,
        }
    }
}

/// One function of the binary, or a placeholder for a callee that the binary
/// does not define.
#[derive(Debug)]
pub struct Procedure<P> {
    pub start_address: u64,
    pub name: String,
    pub linkage_name: String,
    pub linkage_name_demangled: String,
    pub defining_crate: Crate,
    pub location: Option<Location>,
    pub disassembly: Vec<Instruction>,
    pub attributes: ProcedureAttributes,
    /// Set on a node that stands for a callee outside the binary.
    pub placeholder: bool,
    /// A slot for the caller's own data; the library never reads it.
    pub metadata: P,
}

pub struct ProcedureView {
    pub start_address: u64,
    pub name: Seq<char>,
    pub linkage_name: Seq<char>,
    pub linkage_name_demangled: Seq<char>,
    pub defining_crate: CrateView,
    pub location: Option<LocationView>,
    pub disassembly: Seq<Instruction>,
    pub attributes: ProcedureAttributes,
    pub placeholder: bool,
}

impl ProcedureView {
    /// Some instruction of the procedure stands at `address`.
    pub open spec fn has_instruction(self, address: u64) -> bool {
        exists|k: int|
            0 <= k < self.disassembly.len() && (#[trigger] self.disassembly[k]).address == address
    }

    /// Some call or jump instruction of the procedure stands at `address`.
    pub open spec fn has_call_site(self, address: u64) -> bool {
        exists|k: int|
            0 <= k < self.disassembly.len() && (#[trigger] self.disassembly[k]).address == address
                && self.disassembly[k].call_site()
    }

    /// Some instruction of the procedure stands at or below `address`.
    pub open spec fn starts_by(self, address: u64) -> bool {
        exists|k: int|
            0 <= k < self.disassembly.len() && (#[trigger] self.disassembly[k]).address <= address
    }

    /// Some instruction of the procedure stands at or above `address`.
    pub open spec fn ends_from(self, address: u64) -> bool {
        exists|k: int|
            0 <= k < self.disassembly.len() && (#[trigger] self.disassembly[k]).address >= address
    }

    /// `address` lies between the lowest and the highest instruction address
    /// of the procedure, both included.
    pub open spec fn in_range(self, address: u64) -> bool {
        self.starts_by(address) && self.ends_from(address)
    }

    /// The record of a callee at `address` that the binary does not define.
    pub open spec fn placeholder_at(address: u64) -> ProcedureView {
        ProcedureView {
            start_address: address,
            name: Seq::empty(),
            linkage_name: Seq::empty(),
            linkage_name_demangled: Seq::empty(),
            defining_crate: CrateView { name: Seq::empty(), version: None },
            location: None,
            disassembly: Seq::empty(),
            attributes: ProcedureAttributes::unset(),
            placeholder: true,
        }
    }

    /// The same record with other flags.
    pub open spec fn with_attributes(self, attributes: ProcedureAttributes) -> ProcedureView {
        ProcedureView { attributes, ..self }
    }
}

impl<P> View for Procedure<P> {
    type V = ProcedureView;

    open spec fn view(&self) -> ProcedureView {
        ProcedureView {
            start_address: self.start_address,
            name: self.name@,
            linkage_name: self.linkage_name@,
            linkage_name_demangled: self.linkage_name_demangled@,
            defining_crate: self.defining_crate@,
            location: match self.location {
                Some(l) => Some(l@),
                None => None,
            },
            disassembly: self.disassembly@,
            attributes: self.attributes,
            placeholder: self.placeholder,
        }
    }
}

impl<P> Procedure<P> {
    /// Whether `address` lies within the span of the procedure's instruction
    /// addresses.
    pub fn contains_address(&self, address: u64) -> (r: bool)
        ensures
            r == self@.in_range(address),
    {
        let mut below = false;
        let mut above = false;
        let mut k: usize = 0;
        while k < self.disassembly.len()
            invariant
                k <= self.disassembly.len(),
                below == exists|j: int|
                    0 <= j < k && (#[trigger] self.disassembly@[j]).address <= address,
                above == exists|j: int|
                    0 <= j < k && (#[trigger] self.disassembly@[j]).address >= address,
            decreases self.disassembly.len() - k,
        {
            if self.disassembly[k].address <= address {
                below = true;
            }
            if self.disassembly[k].address >= address {
                above = true;
            }
            k += 1;
        }
        below && above
    }
}

impl<P: Default> Procedure<P> {
    /// The record of a callee at `address` that the binary does not define.
    pub fn placeholder(address: u64) -> (r: Self)
        ensures
            r@ == ProcedureView::placeholder_at(address),
    {
        Procedure {
            start_address: address,
            name: String::new(),
            linkage_name: String::new(),
            linkage_name_demangled: String::new(),
            defining_crate: Crate { name: String::new(), version: None },
            location: None,
            disassembly: Vec::new(),
            attributes: ProcedureAttributes::default(),
            placeholder: true,
            metadata: P::default(),
        }
    }
}

/// The mechanism by which control passes from one procedure to another.
#[derive(Clone, Copy, Debug, PartialEq, Eq, Structural)]
pub enum InvocationType {
    /// A call whose target is encoded in the instruction.
    Direct,
    /// The address of a procedure is taken, so it may be called through it.
    ProcedureReference,
    /// A call through a slot of a dispatch table.
    VTable,
    /// A jump that leaves the procedure: a tail call.
    Jump,
}

/// The flags of an invocation.
#[derive(Clone, Copy, Debug, PartialEq, Eq, Structural)]
pub struct InvocationAttributes {
    pub whitelisted: bool,
}

/// A call that the compiler inlined between the call site and the
/// instruction that stands for it.
#[derive(Debug)]
pub struct InlineFunctionFrame<F> {
    pub function_name: String,
    pub location: Location,
    pub defining_crate: Crate,
    /// A slot for the caller's own data; the library never reads it.
    pub metadata: F,
}

pub struct FrameView {
    pub function_name: Seq<char>,
    pub location: LocationView,
    pub defining_crate: CrateView,
}

impl<F> View for InlineFunctionFrame<F> {
    type V = FrameView;

    open spec fn view(&self) -> FrameView {
        FrameView {
            function_name: self.function_name@,
            location: self.location@,
            defining_crate: self.defining_crate@,
        }
    }
}

/// One detected transfer of control, from the instruction at
/// `instruction_address` to another procedure.
#[derive(Debug)]
pub struct Invocation<I, F> {
    pub instruction_address: u64,
    pub invocation_type: InvocationType,
    pub frames: Vec<InlineFunctionFrame<F>>,
    pub attributes: InvocationAttributes,
    /// A slot for the caller's own data; the library never reads it.
    pub metadata: I,
}

pub struct InvocationView {
    pub instruction_address: u64,
    pub invocation_type: InvocationType,
    pub frames: Seq<FrameView>,
    pub attributes: InvocationAttributes,
}

impl InvocationView {
    /// The same record with other flags.
    pub open spec fn with_attributes(self, attributes: InvocationAttributes) -> InvocationView {
        InvocationView { attributes, ..self }
    }
}

/// The views of a list of frames, in order.
pub open spec fn frame_views<F>(frames: Seq<InlineFunctionFrame<F>>) -> Seq<FrameView> {
    frames.map_values(|f: InlineFunctionFrame<F>| f@)
}

impl<I, F> View for Invocation<I, F> {
    type V = InvocationView;

    open spec fn view(&self) -> InvocationView {
        InvocationView {
            instruction_address: self.instruction_address,
            invocation_type: self.invocation_type,
            frames: frame_views(self.frames@),
            attributes: self.attributes,
        }
    }
}

impl<P> Procedure<P> {
    /// The same record with another value in the slot for the caller's data.
    pub fn with_metadata<Q>(&self, metadata: Q) -> (r: Procedure<Q>)
        ensures
            r@ == self@,
            r.metadata == metadata,
    {
        let location = match &self.location {
            Some(l) => Some(l.clone()),
            None => None,
        };
        let disassembly = self.disassembly.clone();
        Procedure {
            start_address: self.start_address,
            name: self.name.clone(),
            linkage_name: self.linkage_name.clone(),
            linkage_name_demangled: self.linkage_name_demangled.clone(),
            defining_crate: self.defining_crate.clone(),
            location,
            disassembly,
            attributes: self.attributes,
            placeholder: self.placeholder,
            metadata,
        }
    }
}

impl<F> InlineFunctionFrame<F> {
    /// The same record with another value in the slot for the caller's data.
    pub fn with_metadata<G>(&self, metadata: G) -> (r: InlineFunctionFrame<G>)
        ensures
            r@ == self@,
            r.metadata == metadata,
    {
        InlineFunctionFrame {
            function_name: self.function_name.clone(),
            location: self.location.clone(),
            defining_crate: self.defining_crate.clone(),
            metadata,
        }
    }
}

impl<I, F> Invocation<I, F> {
    /// The same record, frames included, with nothing in the slots for the
    /// caller's data.
    pub fn without_metadata(&self) -> (r: Invocation<(), ()>)
        ensures
            r@ == self@,
    {
        let mut frames: Vec<InlineFunctionFrame<()>> = Vec::new();
        let mut k: usize = 0;
        while k < self.frames.len()
            invariant
                k <= self.frames.len(),
                frames@.len() == k,
                forall|j: int| 0 <= j < k ==> (#[trigger] frames@[j])@ == self.frames@[j]@,
            decreases self.frames.len() - k,
        {
            frames.push(self.frames[k].with_metadata(()));
            k += 1;
        }
        assert(frame_views(frames@) =~= frame_views(self.frames@));
        Invocation {
            instruction_address: self.instruction_address,
            invocation_type: self.invocation_type,
            frames,
            attributes: self.attributes,
            metadata: (),
        }
    }
}

} // verus!
