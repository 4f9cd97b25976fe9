use rustig::builder::CallGraphBuilder;
use rustig::builder::X86CallGraphBuilder;
use rustig::context::CompilationUnit;
use rustig::context::Context;
use rustig::context::ProcedureRecord;
use rustig::context::TableSlot;
use rustig::model::Crate;
use rustig::model::Instruction;
use rustig::model::InvocationType;
use rustig::model::Operand;
use rustig::x86::classify;
use rustig::x86::disassemble;
use rustig::x86::RawInstruction;
use rustig::x86::RawOperand;
use rustig::x86::Taxonomy;

fn taxonomy() -> Taxonomy {
    Taxonomy { call_group: 2, jump_group: 1, instruction_pointer: 41, no_register: 0 }
}

fn procedure(name: &str, start_address: u64, code: &[u8]) -> ProcedureRecord {
    ProcedureRecord {
        start_address,
        name: name.to_string(),
        linkage_name: name.to_string(),
        linkage_name_demangled: name.to_string(),
        defining_crate: Crate { name: "demo".to_string(), version: Some("0.1.0".to_string()) },
        location: None,
        disassembly: disassemble(&code.to_vec(), start_address).unwrap(),
    }
}

fn binary(procedures: Vec<ProcedureRecord>) -> Context {
    Context {
        units: vec![CompilationUnit { directory: "/src".to_string(), procedures }],
        rust_version: None,
        inlined: vec![],
        dispatch_tables: vec![],
    }
}

#[test]
fn direct_call_is_decoded() {
    // push rbp; call 0x2000; ret
    let code = vec![0x55, 0xe8, 0xfa, 0x0f, 0x00, 0x00, 0xc3];
    let decoded = disassemble(&code, 0x1000).unwrap();
    assert_eq!(
        decoded,
        vec![
            Instruction { address: 0x1000, is_call: false, is_jump: false, operand: Operand::Opaque },
            Instruction {
                address: 0x1001,
                is_call: true,
                is_jump: false,
                operand: Operand::Address(0x2000),
            },
            Instruction { address: 0x1006, is_call: false, is_jump: false, operand: Operand::Opaque },
        ]
    );
}

#[test]
fn jumps_are_decoded() {
    // jmp 0x1004; nop; nop; jmp 0x2000
    let code = vec![0xeb, 0x02, 0x90, 0x90, 0xe9, 0xf7, 0x0f, 0x00, 0x00];
    let decoded = disassemble(&code, 0x1000).unwrap();
    assert_eq!(decoded.len(), 4);
    assert_eq!(
        decoded[0],
        Instruction { address: 0x1000, is_call: false, is_jump: true, operand: Operand::Address(0x1004) }
    );
    assert_eq!(
        decoded[3],
        Instruction { address: 0x1004, is_call: false, is_jump: true, operand: Operand::Address(0x2000) }
    );
}

#[test]
fn backward_jump_wraps_to_the_lower_address() {
    // nop; jmp 0x1000
    let code = vec![0x90, 0xeb, 0xfd];
    let decoded = disassemble(&code, 0x1000).unwrap();
    assert_eq!(decoded[1].operand, Operand::Address(0x1000));
}

#[test]
fn address_taking_and_table_calls_are_decoded() {
    // lea rax, [rip + 0xff9]; call qword ptr [rip + 0x7ff3]; call rax; call qword ptr [rax + 0x18]
    let code = vec![
        0x48, 0x8d, 0x05, 0xf9, 0x0f, 0x00, 0x00, 0xff, 0x15, 0xf3, 0x7f, 0x00, 0x00, 0xff, 0xd0,
        0xff, 0x50, 0x18,
    ];
    let decoded = disassemble(&code, 0x1000).unwrap();
    assert_eq!(
        decoded,
        vec![
            Instruction {
                address: 0x1000,
                is_call: false,
                is_jump: false,
                operand: Operand::Address(0x2000),
            },
            Instruction { address: 0x1007, is_call: true, is_jump: false, operand: Operand::Slot(0x9000) },
            Instruction { address: 0x100d, is_call: true, is_jump: false, operand: Operand::Opaque },
            Instruction { address: 0x100f, is_call: true, is_jump: false, operand: Operand::Opaque },
        ]
    );
}

#[test]
fn empty_code_has_no_instructions() {
    assert_eq!(disassemble(&vec![], 0x1000), Some(vec![]));
}

#[test]
fn classes_follow_the_groups() {
    let raw = RawInstruction {
        address: 0x10,
        length: 5,
        groups: vec![7, 2, 145],
        operands: vec![RawOperand::Immediate(0x40)],
    };
    let instruction = classify(&raw, &taxonomy());
    assert_eq!(
        instruction,
        Instruction { address: 0x10, is_call: true, is_jump: false, operand: Operand::Address(0x40) }
    );
    let swapped = Taxonomy { call_group: 1, jump_group: 2, instruction_pointer: 41, no_register: 0 };
    let instruction = classify(&raw, &swapped);
    assert!(!instruction.is_call);
    assert!(instruction.is_jump);
}

#[test]
fn first_immediate_or_memory_operand_decides() {
    let at = |operands: Vec<RawOperand>, groups: Vec<u8>| {
        classify(&RawInstruction { address: 0x1000, length: 7, groups, operands }, &taxonomy()).operand
    };
    let relative = RawOperand::Memory { base: 41, index: 0, displacement: 0x10 };
    let absolute = RawOperand::Memory { base: 0, index: 0, displacement: 0x5000 };
    let indexed = RawOperand::Memory { base: 41, index: 3, displacement: 0x10 };
    let based = RawOperand::Memory { base: 35, index: 0, displacement: 0x10 };
    assert_eq!(at(vec![], vec![]), Operand::Opaque);
    assert_eq!(at(vec![RawOperand::Register(35)], vec![2]), Operand::Opaque);
    assert_eq!(at(vec![RawOperand::Other, RawOperand::Immediate(9)], vec![]), Operand::Address(9));
    assert_eq!(at(vec![RawOperand::Register(35), relative], vec![]), Operand::Address(0x1017));
    assert_eq!(at(vec![relative], vec![2]), Operand::Slot(0x1017));
    assert_eq!(at(vec![relative], vec![1]), Operand::Slot(0x1017));
    assert_eq!(at(vec![absolute], vec![2]), Operand::Slot(0x5000));
    assert_eq!(at(vec![absolute], vec![]), Operand::Address(0x5000));
    assert_eq!(at(vec![indexed, RawOperand::Immediate(9)], vec![]), Operand::Opaque);
    assert_eq!(at(vec![based, RawOperand::Immediate(9)], vec![2]), Operand::Opaque);
    assert_eq!(
        at(vec![RawOperand::Immediate(-1)], vec![]),
        Operand::Address(0xffff_ffff_ffff_ffff)
    );
    assert_eq!(
        at(vec![RawOperand::Memory { base: 41, index: 0, displacement: -0x1008 }], vec![]),
        Operand::Address(0xffff_ffff_ffff_ffff)
    );
}

#[test]
fn successor_address_wraps() {
    let raw = RawInstruction {
        address: 0xffff_ffff_ffff_fffe,
        length: 2,
        groups: vec![],
        operands: vec![RawOperand::Memory { base: 41, index: 0, displacement: 0x20 }],
    };
    assert_eq!(classify(&raw, &taxonomy()).operand, Operand::Address(0x20));
}

#[test]
fn graph_of_machine_code() {
    let mut ctx = binary(vec![
        // push rbp; call 0x2000; lea rax, [rip + 0x1ff3]; call [rip + 0x7fed]; jmp 0x1016; nop; jmp 0x2000
        procedure(
            "f",
            0x1000,
            &[
                0x55, 0xe8, 0xfa, 0x0f, 0x00, 0x00, 0x48, 0x8d, 0x05, 0xf3, 0x1f, 0x00, 0x00, 0xff,
                0x15, 0xed, 0x7f, 0x00, 0x00, 0xeb, 0x01, 0x90, 0xe9, 0xe5, 0x0f, 0x00, 0x00,
            ],
        ),
        // call 0x7000; ret
        procedure("g", 0x2000, &[0xe8, 0xfb, 0x4f, 0x00, 0x00, 0xc3]),
        procedure("h", 0x3000, &[0xc3]),
    ]);
    ctx.dispatch_tables = vec![TableSlot { location: 0x9000, target: 0x3000 }];
    let builder: X86CallGraphBuilder<(), (), ()> = X86CallGraphBuilder::new();
    let graph = builder.build_call_graph(&ctx);
    assert_eq!(graph.node_count(), 4);
    assert!(graph.procedure(3).unwrap().placeholder);
    assert_eq!(graph.procedure(3).unwrap().start_address, 0x7000);
    let edges: Vec<(usize, usize, InvocationType, u64)> = (0..graph.edge_count())
        .map(|e| {
            let (source, target) = graph.endpoints(e).unwrap();
            let invocation = graph.invocation(e).unwrap();
            (source, target, invocation.invocation_type, invocation.instruction_address)
        })
        .collect();
    assert_eq!(
        edges,
        vec![
            (0, 1, InvocationType::Direct, 0x1001),
            (1, 3, InvocationType::Direct, 0x2000),
            (0, 2, InvocationType::ProcedureReference, 0x1006),
            (0, 2, InvocationType::VTable, 0x100d),
            (0, 1, InvocationType::Jump, 0x1016),
        ]
    );
    assert_eq!(graph.enclosing(0x1013), Some(0));
    assert!(!graph.has_invocation_at(0x1013));
    assert!(graph.has_invocation_at(0x1001));
    assert!(!graph.is_unresolved(0x100d));
}
