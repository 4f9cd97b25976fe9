//! What the loader of a binary hands to the construction of a call graph: the
//! compilation units with their procedures and disassembly, the inlining
//! records and the dispatch tables of the debug information, and the version
//! of the toolchain that produced the binary.

use vstd::prelude::*;
use fallible_iterator::FallibleIterator;
use crate::model::Crate;
use crate::model::FrameView;
use crate::model::InlineFunctionFrame;
use crate::model::Instruction;
use crate::model::Location;
use crate::model::Procedure;
use crate::model::ProcedureAttributes;
use crate::model::ProcedureView;
use crate::model::frame_views;

verus! {

/// The version of the toolchain that compiled the binary.
#[derive(Clone, Copy, Debug, PartialEq, Eq, Structural)]
pub struct RustVersion {
    pub major: u32,
    pub minor: u32,
    pub patch: u32,
}

impl RustVersion {
    /// The version that stands in where none was detected.
    pub open spec fn unknown() -> RustVersion {
        RustVersion { major: 0, minor: 0, patch: 0 }
    }
}

impl Default for RustVersion {
    fn default() -> (r: Self)
        ensures
            r == RustVersion::unknown(),
    {
        RustVersion { major: 0, minor: 0, patch: 0 }
    }
}

/// One slot of a dispatch table: the address of the slot and the code
/// address that it holds.
#[derive(Clone, Copy, Debug, PartialEq, Eq, Structural)]
pub struct TableSlot {
    pub location: u64,
    pub target: u64,
}

/// An inlined call as the debug information records it.
#[derive(Debug)]
pub struct FrameRecord {
    pub function_name: String,
    pub location: Location,
    pub defining_crate: Crate,
}

impl View for FrameRecord {
    type V = FrameView;

    open spec fn view(&self) -> FrameView {
        FrameView {
            function_name: self.function_name@,
            location: self.location@,
            defining_crate: self.defining_crate@,
        }
    }
}

/// The inlined calls that end in the instruction at `address`, outermost
/// first.
#[derive(Debug)]
pub struct InlinedCallSite {
    pub address: u64,
    pub frames: Vec<FrameRecord>,
}

pub struct InlinedCallSiteView {
    pub address: u64,
    pub frames: Seq<FrameView>,
}

impl View for InlinedCallSite {
    type V = InlinedCallSiteView;

    open spec fn view(&self) -> InlinedCallSiteView {
        InlinedCallSiteView {
            address: self.address,
            frames: self.frames@.map_values(|f: FrameRecord| f@),
        }
    }
}

/// A procedure as the debug information and the disassembler describe it.
#[derive(Debug)]
pub struct ProcedureRecord {
    pub start_address: u64,
    pub name: String,
    pub linkage_name: String,
    pub linkage_name_demangled: String,
    pub defining_crate: Crate,
    pub location: Option<Location>,
    pub disassembly: Vec<Instruction>,
}

impl View for ProcedureRecord {
    type V = ProcedureView;

    /// The procedure that the record describes, with no flag set.
    open spec fn view(&self) -> ProcedureView {
        ProcedureView {
            start_address: self.start_address,
            name: self.name@,
            linkage_name: self.linkage_name@,
            linkage_name_demangled: self.linkage_name_demangled@,
            defining_crate: self.defining_crate@,
            location: match self.location {
                Some(l) => Some(l@),
                None => None,
            },
            disassembly: self.disassembly@,
            attributes: ProcedureAttributes::unset(),
            placeholder: false,
        }
    }
}

/// One compilation unit of the binary.
#[derive(Debug)]
pub struct CompilationUnit {
    /// The directory in which the unit was compiled.
    pub directory: String,
    pub procedures: Vec<ProcedureRecord>,
}

pub struct CompilationUnitView {
    pub directory: Seq<char>,
    pub procedures: Seq<ProcedureView>,
}

impl View for CompilationUnit {
    type V = CompilationUnitView;

    open spec fn view(&self) -> CompilationUnitView {
        CompilationUnitView {
            directory: self.directory@,
            procedures: self.procedures@.map_values(|p: ProcedureRecord| p@),
        }
    }
}

/// A binary with its debug information, decoded.
#[derive(Debug)]
pub struct Context {
    pub units: Vec<CompilationUnit>,
    pub rust_version: Option<RustVersion>,
    pub inlined: Vec<InlinedCallSite>,
    pub dispatch_tables: Vec<TableSlot>,
}

pub struct ContextView {
    pub units: Seq<CompilationUnitView>,
    pub rust_version: Option<RustVersion>,
    pub inlined: Seq<InlinedCallSiteView>,
    pub dispatch_tables: Seq<TableSlot>,
}

impl View for Context {
    type V = ContextView;

    open spec fn view(&self) -> ContextView {
        ContextView {
            units: self.units@.map_values(|u: CompilationUnit| u@),
            rust_version: self.rust_version,
            inlined: self.inlined@.map_values(|s: InlinedCallSite| s@),
            dispatch_tables: self.dispatch_tables@,
        }
    }
}

/// The procedures of the first `n` units, unit after unit.
pub open spec fn procedures_of(units: Seq<CompilationUnitView>, n: nat) -> Seq<ProcedureView>
    decreases n,
{
    if n == 0 {
        Seq::empty()
    } else {
        procedures_of(units, (n - 1) as nat) + units[n - 1].procedures
    }
}

/// The frames of the first of the records `inlined[from..]` that speaks of `address`; none where
/// no record does.
pub open spec fn frames_from(inlined: Seq<InlinedCallSiteView>, from: int, address: u64) -> Seq<
    FrameView,
>
    decreases inlined.len() - from,
{
    if from < 0 || from >= inlined.len() {
        Seq::empty()
    } else if inlined[from].address == address {
        inlined[from].frames
    } else {
        frames_from(inlined, from + 1, address)
    }
}

/// The code address in the first of the slots `slots[from..]` that lies at `location`.
pub open spec fn target_from(slots: Seq<TableSlot>, from: int, location: u64) -> Option<u64>
    decreases slots.len() - from,
{
    if from < 0 || from >= slots.len() {
        None
    } else if slots[from].location == location {
        Some(slots[from].target)
    } else {
        target_from(slots, from + 1, location)
    }
}

impl ContextView {
    /// All procedures of the binary, unit after unit.
    pub open spec fn procedures(self) -> Seq<ProcedureView> {
        procedures_of(self.units, self.units.len())
    }

    /// The inlined calls that end in the instruction at `address`.
    pub open spec fn frames_at(self, address: u64) -> Seq<FrameView> {
        frames_from(self.inlined, 0, address)
    }

    /// The code address that the dispatch tables hold at `location`.
    pub open spec fn slot_target(self, location: u64) -> Option<u64> {
        target_from(self.dispatch_tables, 0, location)
    }

    /// No two procedures of the binary start at one address.
    pub open spec fn start_addresses_distinct(self) -> bool {
        forall|i: int, j: int|
            0 <= i < j < self.procedures().len() ==> (#[trigger] self.procedures()[i]).start_address
                != (#[trigger] self.procedures()[j]).start_address
    }
}

/// What every finder is told about the compilation: the directories of the
/// units and the version of the toolchain.
#[derive(Debug)]
pub struct CompilationInfo<'a> {
    pub compilation_dirs: &'a Vec<String>,
    pub rust_version: &'a RustVersion,
}

pub struct CompilationInfoView {
    pub compilation_dirs: Seq<Seq<char>>,
    pub rust_version: RustVersion,
}

impl<'a> View for CompilationInfo<'a> {
    type V = CompilationInfoView;

    open spec fn view(&self) -> CompilationInfoView {
        CompilationInfoView {
            compilation_dirs: self.compilation_dirs@.map_values(|d: String| d@),
            rust_version: *self.rust_version,
        }
    }
}

impl ContextView {
    /// What the finders are told about the compilation of this binary: the
    /// directories of its units, unit after unit, and the version of the
    /// toolchain, or the version that stands for an unknown one.
    pub open spec fn compilation_info(self) -> CompilationInfoView {
        CompilationInfoView {
            compilation_dirs: self.units.map_values(|u: CompilationUnitView| u.directory),
            rust_version: match self.rust_version {
                Some(version) => version,
                None => RustVersion::unknown(),
            },
        }
    }
}

/// The views of a list of procedures, in order.
pub open spec fn procedure_views<P>(procedures: Seq<Procedure<P>>) -> Seq<ProcedureView> {
    procedures.map_values(|p: Procedure<P>| p@)
}

impl ProcedureRecord {
    /// The procedure that the record describes, with no flag set.
    pub fn instantiate<P: Default>(&self) -> (r: Procedure<P>)
        ensures
            r@ == self@,
    {
        let location = match &self.location {
            Some(l) => Some(l.clone()),
            None => None,
        };
        let disassembly = self.disassembly.clone();
        Procedure {
            start_address: self.start_address,
            name: self.name.clone(),
            linkage_name: self.linkage_name.clone(),
            linkage_name_demangled: self.linkage_name_demangled.clone(),
            defining_crate: self.defining_crate.clone(),
            location,
            disassembly,
            attributes: ProcedureAttributes::default(),
            placeholder: false,
            metadata: P::default(),
        }
    }
}

impl FrameRecord {
    /// The frame that the record describes.
    pub fn instantiate<F: Default>(&self) -> (r: InlineFunctionFrame<F>)
        ensures
            r@ == self@,
    {
        InlineFunctionFrame {
            function_name: self.function_name.clone(),
            location: self.location.clone(),
            defining_crate: self.defining_crate.clone(),
            metadata: F::default(),
        }
    }
}

/// The directories of the compilation units, unit after unit.
pub fn get_compilation_unit_directories(ctx: &Context) -> (dirs: Vec<String>)
    ensures
        dirs@.len() == ctx@.units.len(),
        forall|i: int| 0 <= i < dirs@.len() ==> (#[trigger] dirs@[i])@ == ctx@.units[i].directory,
{
    let mut dirs: Vec<String> = Vec::new();
    let mut i: usize = 0;
    while i < ctx.units.len()
        invariant
            i <= ctx.units.len(),
            dirs@.len() == i,
            forall|j: int| 0 <= j < i ==> (#[trigger] dirs@[j])@ == ctx.units@[j].directory@,
        decreases ctx.units.len() - i,
    {
        dirs.push(ctx.units[i].directory.clone());
        i += 1;
    }
    dirs
}

/// The version of the toolchain, where the loader detected one.
pub fn get_rust_version(ctx: &Context) -> (version: Option<RustVersion>)
    ensures
        version == ctx@.rust_version,
{
    ctx.rust_version
}

/// The procedures of unit number `unit`, in the unit's order, with no flag
/// set; none where the binary has no such unit.
pub fn get_procedures_for_compilation_unit<P: Default>(ctx: &Context, unit: usize) -> (procedures:
    Vec<Procedure<P>>)
    ensures
        procedure_views(procedures@) == (if unit < ctx@.units.len() {
            ctx@.units[unit as int].procedures
        } else {
            Seq::empty()
        }),
{
    let mut procedures: Vec<Procedure<P>> = Vec::new();
    if unit >= ctx.units.len() {
        return procedures;
    }
    let records = &ctx.units[unit].procedures;
    let mut i: usize = 0;
    while i < records.len()
        invariant
            i <= records.len(),
            procedures@.len() == i,
            forall|j: int| 0 <= j < i ==> (#[trigger] procedures@[j])@ == records@[j]@,
        decreases records.len() - i,
    {
        procedures.push(records[i].instantiate());
        i += 1;
    }
    procedures
}

/// `unit` behind `all`.
pub fn append_unit<P>(all: Vec<Procedure<P>>, unit: Vec<Procedure<P>>) -> (joined: Vec<Procedure<P>>)
    ensures
        joined@ == all@ + unit@,
{
    let mut joined = all;
    let mut unit = unit;
    joined.append(&mut unit);
    joined
}

/// The first `n` of `lists`, one behind the other.
pub open spec fn joined<P>(lists: Seq<Vec<Procedure<P>>>, n: nat) -> Seq<Procedure<P>>
    decreases n,
{
    if n == 0 {
        Seq::empty()
    } else {
        joined(lists, (n - 1) as nat) + lists[n - 1]@
    }
}

/// `fallible_iterator::convert` and `FallibleIterator::fold`: the fold starts
/// from an empty list, hands each of `lists`, from first to last, to
/// `append_unit` together with what the step before returned, and returns
/// what the last step returned. No step fails, so the fold does not either.
#[verifier::external_body]
fn fold_units<P>(lists: Vec<Vec<Procedure<P>>>) -> (all: Vec<Procedure<P>>)
    ensures
        all@ == joined(lists@, lists@.len()),
{
    let units = lists.into_iter().map(Ok::<Vec<Procedure<P>>, core::convert::Infallible>);
    let folded = fallible_iterator::convert(units).fold(
        Vec::new(),
        |all, unit| Ok(append_unit(all, unit)),
    );
    match folded {
        Ok(all) => all,
        Err(never) => match never {},
    }
}

proof fn lemma_joined_views<P>(lists: Seq<Vec<Procedure<P>>>, units: Seq<CompilationUnitView>, n: nat)
    requires
        n <= lists.len(),
        lists.len() == units.len(),
        forall|i: int|
            0 <= i < lists.len() ==> procedure_views((#[trigger] lists[i])@) == units[i].procedures,
    ensures
        procedure_views(joined(lists, n)) == procedures_of(units, n),
    decreases n,
{
    if n > 0 {
        lemma_joined_views(lists, units, (n - 1) as nat);
        assert(procedure_views(joined(lists, (n - 1) as nat) + lists[n - 1]@) =~= procedure_views(
            joined(lists, (n - 1) as nat),
        ) + procedure_views(lists[n - 1]@));
    }
}

/// All procedures of the binary, unit after unit, with no flag set.
pub fn get_procedures<P: Default>(ctx: &Context) -> (all: Vec<Procedure<P>>)
    ensures
        procedure_views(all@) == ctx@.procedures(),
{
    let mut lists: Vec<Vec<Procedure<P>>> = Vec::new();
    let mut i: usize = 0;
    while i < ctx.units.len()
        invariant
            i <= ctx.units.len(),
            lists@.len() == i,
            forall|j: int|
                0 <= j < i ==> procedure_views((#[trigger] lists@[j])@) == ctx@.units[j].procedures,
        decreases ctx.units.len() - i,
    {
        lists.push(get_procedures_for_compilation_unit(ctx, i));
        i += 1;
    }
    proof {
        lemma_joined_views(lists@, ctx@.units, lists@.len());
    }
    fold_units(lists)
}

/// The inlined calls that end in the instruction at `address`, outermost
/// first; none where the debug information records none.
pub fn get_inline_frames<F: Default>(ctx: &Context, address: u64) -> (frames: Vec<
    InlineFunctionFrame<F>,
>)
    ensures
        frame_views(frames@) == ctx@.frames_at(address),
{
    let mut frames: Vec<InlineFunctionFrame<F>> = Vec::new();
    let mut i: usize = 0;
    while i < ctx.inlined.len()
        invariant
            i <= ctx.inlined.len(),
            frames@.len() == 0,
            ctx@.frames_at(address) == frames_from(ctx@.inlined, i as int, address),
        decreases ctx.inlined.len() - i,
    {
        if ctx.inlined[i].address == address {
            let records = &ctx.inlined[i].frames;
            let mut k: usize = 0;
            while k < records.len()
                invariant
                    k <= records.len(),
                    frames@.len() == k,
                    forall|j: int| 0 <= j < k ==> (#[trigger] frames@[j])@ == records@[j]@,
                decreases records.len() - k,
            {
                frames.push(records[k].instantiate());
                k += 1;
            }
            return frames;
        }
        i += 1;
    }
    frames
}

/// The code address that the dispatch tables hold at `location`.
pub fn get_slot_target(ctx: &Context, location: u64) -> (target: Option<u64>)
    ensures
        target == ctx@.slot_target(location),
{
    let mut i: usize = 0;
    while i < ctx.dispatch_tables.len()
        invariant
            i <= ctx.dispatch_tables.len(),
            ctx@.slot_target(location) == target_from(ctx@.dispatch_tables, i as int, location),
        decreases ctx.dispatch_tables.len() - i,
    {
        if ctx.dispatch_tables[i].location == location {
            return Some(ctx.dispatch_tables[i].target);
        }
        i += 1;
    }
    None
}

/// No procedure of a binary is a placeholder.
pub proof fn lemma_records_defined(units: Seq<CompilationUnitView>, n: nat)
    requires
        n <= units.len(),
        forall|u: int, i: int|
            0 <= u < units.len() && 0 <= i < units[u].procedures.len() ==> !(
            #[trigger] units[u].procedures[i]).placeholder,
    ensures
        forall|i: int|
            0 <= i < procedures_of(units, n).len() ==> !(#[trigger] procedures_of(
                units,
                n,
            )[i]).placeholder,
    decreases n,
{
    if n > 0 {
        lemma_records_defined(units, (n - 1) as nat);
    }
}

/// The procedures of more units are no fewer.
proof fn lemma_procedures_grow(units: Seq<CompilationUnitView>, m: nat, n: nat)
    requires
        m <= n,
    ensures
        procedures_of(units, m).len() <= procedures_of(units, n).len(),
    decreases n,
{
    if m < n {
        lemma_procedures_grow(units, m, (n - 1) as nat);
    }
}

/// Whether a graph can number the procedures of the binary: whether they
/// are fewer than `u32::MAX`.
pub fn within_node_limit(ctx: &Context) -> (r: bool)
    ensures
        r == (ctx@.procedures().len() < u32::MAX),
{
    let mut total: u64 = 0;
    let mut i: usize = 0;
    while i < ctx.units.len()
        invariant
            i <= ctx.units.len(),
            total == procedures_of(ctx@.units, i as nat).len(),
            total < u32::MAX,
        decreases ctx.units.len() - i,
    {
        let count = ctx.units[i].procedures.len() as u64;
        if count >= u32::MAX as u64 - total {
            proof {
                lemma_procedures_grow(ctx@.units, (i + 1) as nat, ctx@.units.len());
            }
            return false;
        }
        total += count;
        i += 1;
    }
    true
}

} // verus!
