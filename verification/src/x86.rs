//! Disassembly of x86-64 code with `capstone`, and the step from what
//! `capstone` reports of an instruction to the record that the finders read.
//! The declarations at the top of this file state what the library relies on
//! from `capstone`; Verus takes them as given.

use vstd::prelude::*;
use capstone::arch::ArchOperand;
use capstone::arch::BuildsCapstone;
use capstone::arch::x86::X86OperandType;
use capstone::Capstone;
use crate::model::Instruction;
use crate::model::Operand;

verus! {

/// `capstone::arch::ArchOperand`, which Verus only carries through.
#[verifier::external_type_specification]
#[verifier::external_body]
pub struct ExArchOperand(ArchOperand);

/// An operand as `capstone` reports it. Registers are given by the numbers
/// that `capstone` has for them.
#[derive(Clone, Copy, Debug, PartialEq, Eq, Structural)]
pub enum RawOperand {
    Register(u16),
    Immediate(i64),
    /// The memory at `base + index * scale + displacement`; the scale is
    /// left out.
    Memory { base: u16, index: u16, displacement: i64 },
    Other,
}

/// An instruction as `capstone` reports it.
#[derive(Debug)]
pub struct RawInstruction {
    pub address: u64,
    /// The number of bytes of the instruction.
    pub length: usize,
    /// The numbers of the groups to which the instruction belongs.
    pub groups: Vec<u8>,
    pub operands: Vec<RawOperand>,
}

pub struct RawInstructionView {
    pub address: u64,
    pub length: usize,
    pub groups: Seq<u8>,
    pub operands: Seq<RawOperand>,
}

impl View for RawInstruction {
    type V = RawInstructionView;

    open spec fn view(&self) -> RawInstructionView {
        RawInstructionView {
            address: self.address,
            length: self.length,
            groups: self.groups@,
            operands: self.operands@,
        }
    }
}

/// The numbers that `capstone` gives to the groups and registers that the
/// library asks about.
#[derive(Clone, Copy, Debug, PartialEq, Eq, Structural)]
pub struct Taxonomy {
    /// The group of all call instructions.
    pub call_group: u8,
    /// The group of all jump instructions.
    pub jump_group: u8,
    /// The 64-bit instruction pointer.
    pub instruction_pointer: u16,
    /// What stands in the place of a register where there is none.
    pub no_register: u16,
}

/// The views of a list of raw instructions, in order.
pub open spec fn raw_views(instructions: Seq<RawInstruction>) -> Seq<RawInstructionView> {
    instructions.map_values(|i: RawInstruction| i@)
}

/// What `capstone` decodes, in 64-bit mode and with details, from `code`
/// loaded at `address`: the instructions in order, or `None` where it
/// reports an error.
pub uninterp spec fn x86_decoding(code: Seq<u8>, address: u64) -> Option<Seq<RawInstructionView>>;

/// `capstone`'s `X86OperandType`, variant by variant, with the fields of its
/// `X86OpMem`; an operand of another architecture is `Other`.
#[verifier::external_body]
fn raw_operand(operand: &ArchOperand) -> RawOperand {
    match operand {
        ArchOperand::X86Operand(x86) => match x86.op_type {
            X86OperandType::Reg(register) => RawOperand::Register(register.0),
            X86OperandType::Imm(value) => RawOperand::Immediate(value),
            X86OperandType::Mem(memory) => RawOperand::Memory {
                base: memory.base().0,
                index: memory.index().0,
                displacement: memory.disp(),
            },
            X86OperandType::Invalid => RawOperand::Other,
        },
        _ => RawOperand::Other,
    }
}

/// `Capstone::disasm_all` and `Capstone::insn_detail` of an engine built for
/// x86 in 64-bit mode with details: for each instruction its address, its
/// length, its groups and its operands, as `capstone` reports them.
#[verifier::external_body]
fn capstone_decode(code: &Vec<u8>, address: u64) -> (decoded: Option<Vec<RawInstruction>>)
    ensures
        match decoded {
            Some(instructions) => x86_decoding(code@, address) == Some(raw_views(instructions@)),
            None => x86_decoding(code@, address) is None,
        },
{
    let engine = Capstone::new().x86().mode(capstone::arch::x86::ArchMode::Mode64).detail(true).build().ok()?;
    let instructions = engine.disasm_all(code, address).ok()?;
    let mut decoded = Vec::new();
    for instruction in instructions.iter() {
        let detail = engine.insn_detail(instruction).ok()?;
        decoded.push(RawInstruction {
            address: instruction.address(),
            length: instruction.len(),
            groups: detail.groups().iter().map(|group| group.0).collect(),
            operands: detail.arch_detail().operands().iter().map(raw_operand).collect(),
        });
    }
    Some(decoded)
}

/// The numbers of `capstone`: `CS_GRP_CALL` is 2, `CS_GRP_JUMP` is 1,
/// `X86_REG_RIP` is 41 and `X86_REG_INVALID` is 0.
#[verifier::external_body]
fn capstone_taxonomy() -> (taxonomy: Taxonomy)
    ensures
        taxonomy == x86_taxonomy(),
{
    Taxonomy {
        call_group: capstone::InsnGroupType::CS_GRP_CALL as u8,
        jump_group: capstone::InsnGroupType::CS_GRP_JUMP as u8,
        instruction_pointer: capstone::arch::x86::X86Reg::X86_REG_RIP as u16,
        no_register: capstone::arch::x86::X86Reg::X86_REG_INVALID as u16,
    }
}

/// The numbers that `capstone` uses for x86.
pub open spec fn x86_taxonomy() -> Taxonomy {
    Taxonomy { call_group: 2, jump_group: 1, instruction_pointer: 41, no_register: 0 }
}

/// The address that the first immediate or memory operand among
/// `operands[from..]` names, for an instruction whose successor stands at
/// `next`.
///
/// - An immediate names the address that it holds.
/// - A memory operand without index names its location where that is known
///   from the encoding alone: the displacement from `next` where the base is
///   the instruction pointer, the displacement itself where there is no
///   base. A call or jump loads its target from that slot; another
///   instruction refers to the location itself.
/// - Any other memory operand names nothing, and neither does an
///   instruction without immediate and memory operands.
pub open spec fn reference_from(
    operands: Seq<RawOperand>,
    from: int,
    next: u64,
    transfers: bool,
    taxonomy: Taxonomy,
) -> Operand
    decreases operands.len() - from,
{
    if from < 0 || from >= operands.len() {
        Operand::Opaque
    } else {
        match operands[from] {
            RawOperand::Immediate(value) => Operand::Address(0u64.wrapping_add_signed(value)),
            RawOperand::Memory { base, index, displacement } => {
                if index != taxonomy.no_register {
                    Operand::Opaque
                } else if base == taxonomy.instruction_pointer {
                    located(next.wrapping_add_signed(displacement), transfers)
                } else if base == taxonomy.no_register {
                    located(0u64.wrapping_add_signed(displacement), transfers)
                } else {
                    Operand::Opaque
                }
            },
            _ => reference_from(operands, from + 1, next, transfers, taxonomy),
        }
    }
}

/// A known memory location as an operand: a slot for a call or jump, an
/// address for another instruction.
pub open spec fn located(location: u64, transfers: bool) -> Operand {
    if transfers {
        Operand::Slot(location)
    } else {
        Operand::Address(location)
    }
}

/// The record that the finders read, made of what `capstone` reports of an
/// instruction: its classes by its groups, and what its operands name.
pub open spec fn classified(raw: RawInstructionView, taxonomy: Taxonomy) -> Instruction {
    let is_call = raw.groups.contains(taxonomy.call_group);
    let is_jump = raw.groups.contains(taxonomy.jump_group);
    Instruction {
        address: raw.address,
        is_call,
        is_jump,
        operand: reference_from(
            raw.operands,
            0,
            raw.address.wrapping_add(raw.length as u64),
            is_call || is_jump,
            taxonomy,
        ),
    }
}

fn has_group(groups: &Vec<u8>, group: u8) -> (r: bool)
    ensures
        r == groups@.contains(group),
{
    let mut i: usize = 0;
    while i < groups.len()
        invariant
            i <= groups.len(),
            forall|j: int| 0 <= j < i ==> groups@[j] != group,
        decreases groups.len() - i,
    {
        if groups[i] == group {
            return true;
        }
        i += 1;
    }
    false
}

fn reference(operands: &Vec<RawOperand>, next: u64, transfers: bool, taxonomy: &Taxonomy) -> (operand:
    Operand)
    ensures
        operand == reference_from(operands@, 0, next, transfers, *taxonomy),
{
    let mut i: usize = 0;
    while i < operands.len()
        invariant
            i <= operands.len(),
            reference_from(operands@, 0, next, transfers, *taxonomy) == reference_from(
                operands@,
                i as int,
                next,
                transfers,
                *taxonomy,
            ),
        decreases operands.len() - i,
    {
        match operands[i] {
            RawOperand::Immediate(value) => {
                return Operand::Address(0u64.wrapping_add_signed(value));
            },
            RawOperand::Memory { base, index, displacement } => {
                if index != taxonomy.no_register {
                    return Operand::Opaque;
                }
                let location = if base == taxonomy.instruction_pointer {
                    next.wrapping_add_signed(displacement)
                } else if base == taxonomy.no_register {
                    0u64.wrapping_add_signed(displacement)
                } else {
                    return Operand::Opaque;
                };
                return if transfers {
                    Operand::Slot(location)
                } else {
                    Operand::Address(location)
                };
            },
            _ => {},
        }
        i += 1;
    }
    Operand::Opaque
}

/// Makes the record that the finders read of what `capstone` reports of an
/// instruction.
pub fn classify(raw: &RawInstruction, taxonomy: &Taxonomy) -> (instruction: Instruction)
    ensures
        instruction == classified(raw@, *taxonomy),
{
    let is_call = has_group(&raw.groups, taxonomy.call_group);
    let is_jump = has_group(&raw.groups, taxonomy.jump_group);
    let next = raw.address.wrapping_add(raw.length as u64);
    let operand = reference(&raw.operands, next, is_call || is_jump, taxonomy);
    Instruction { address: raw.address, is_call, is_jump, operand }
}

/// The records of a list of raw instructions, in order.
pub open spec fn classified_all(raw: Seq<RawInstructionView>, taxonomy: Taxonomy) -> Seq<Instruction> {
    raw.map_values(|r: RawInstructionView| classified(r, taxonomy))
}

/// Disassembles `code`, loaded at `address`, as x86-64 code, and makes the
/// records that the finders read; `None` where `capstone` reports an error.
pub fn disassemble(code: &Vec<u8>, address: u64) -> (disassembly: Option<Vec<Instruction>>)
    ensures
        disassembly matches Some(d) ==> x86_decoding(code@, address) matches Some(raw) && d@
            == classified_all(raw, x86_taxonomy()),
        disassembly is None ==> x86_decoding(code@, address) is None,
{
    let taxonomy = capstone_taxonomy();
    match capstone_decode(code, address) {
        Some(raw) => {
            let mut disassembly: Vec<Instruction> = Vec::new();
            let mut i: usize = 0;
            while i < raw.len()
                invariant
                    i <= raw.len(),
                    taxonomy == x86_taxonomy(),
                    disassembly@ == classified_all(raw_views(raw@).take(i as int), taxonomy),
                decreases raw.len() - i,
            {
                disassembly.push(classify(&raw[i], &taxonomy));
                i += 1;
            }
            Some(disassembly)
        },
        None => None,
    }
}

} // verus!
