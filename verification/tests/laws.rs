use rustig::builder::CallGraphBuilder;
use rustig::builder::X86CallGraphBuilder;
use rustig::callgraph::CallGraph;
use rustig::context::get_compilation_unit_directories;
use rustig::context::get_inline_frames;
use rustig::context::get_procedures;
use rustig::context::get_procedures_for_compilation_unit;
use rustig::context::get_rust_version;
use rustig::context::get_slot_target;
use rustig::context::within_node_limit;
use rustig::context::CompilationUnit;
use rustig::context::Context;
use rustig::context::FrameRecord;
use rustig::context::InlinedCallSite;
use rustig::context::ProcedureRecord;
use rustig::context::RustVersion;
use rustig::context::TableSlot;
use rustig::model::Crate;
use rustig::model::InlineFunctionFrame;
use rustig::model::Instruction;
use rustig::model::InvocationType;
use rustig::model::Location;
use rustig::model::Operand;
use rustig::model::Procedure;

fn plain(address: u64) -> Instruction {
    Instruction { address, is_call: false, is_jump: false, operand: Operand::Opaque }
}

fn call(address: u64, target: u64) -> Instruction {
    Instruction { address, is_call: true, is_jump: false, operand: Operand::Address(target) }
}

fn jump(address: u64, target: u64) -> Instruction {
    Instruction { address, is_call: false, is_jump: true, operand: Operand::Address(target) }
}

fn reference(address: u64, target: u64) -> Instruction {
    Instruction { address, is_call: false, is_jump: false, operand: Operand::Address(target) }
}

fn table_call(address: u64, slot: u64) -> Instruction {
    Instruction { address, is_call: true, is_jump: false, operand: Operand::Slot(slot) }
}

fn record(name: &str, start_address: u64, disassembly: Vec<Instruction>) -> ProcedureRecord {
    ProcedureRecord {
        start_address,
        name: name.to_string(),
        linkage_name: format!("_ZN4demo{}E", name),
        linkage_name_demangled: format!("demo::{}", name),
        defining_crate: Crate { name: "demo".to_string(), version: Some("1.2.3".to_string()) },
        location: Some(Location { file: format!("/src/{}.rs", name), line: start_address }),
        disassembly,
    }
}

fn frame(name: &str, line: u64) -> FrameRecord {
    FrameRecord {
        function_name: name.to_string(),
        location: Location { file: "/src/inline.rs".to_string(), line },
        defining_crate: Crate { name: "core".to_string(), version: None },
    }
}

fn sample() -> Context {
    Context {
        units: vec![
            CompilationUnit {
                directory: "/work/a".to_string(),
                procedures: vec![
                    record(
                        "main",
                        0x1000,
                        vec![
                            plain(0x1000),
                            call(0x1004, 0x2000),
                            call(0x1009, 0x7000),
                            reference(0x100e, 0x3000),
                            table_call(0x1015, 0x9008),
                            table_call(0x101b, 0x9010),
                            jump(0x1021, 0x1000),
                            jump(0x1023, 0x3000),
                        ],
                    ),
                    record("helper", 0x2000, vec![call(0x2000, 0x7000), jump(0x2005, 0x7100)]),
                ],
            },
            CompilationUnit { directory: "/work/empty".to_string(), procedures: vec![] },
            CompilationUnit {
                directory: "/work/b".to_string(),
                procedures: vec![record("callee", 0x3000, vec![plain(0x3000)])],
            },
        ],
        rust_version: Some(RustVersion { major: 1, minor: 26, patch: 2 }),
        inlined: vec![
            InlinedCallSite { address: 0x1004, frames: vec![frame("outer", 10), frame("inner", 20)] },
            InlinedCallSite { address: 0x1004, frames: vec![frame("shadowed", 30)] },
            InlinedCallSite { address: 0x2000, frames: vec![] },
        ],
        dispatch_tables: vec![
            TableSlot { location: 0x9000, target: 0x1000 },
            TableSlot { location: 0x9008, target: 0x2000 },
            TableSlot { location: 0x9008, target: 0x3000 },
        ],
    }
}

fn build(ctx: &Context) -> CallGraph<(), (), ()> {
    let builder: X86CallGraphBuilder<(), (), ()> = X86CallGraphBuilder::new();
    builder.build_call_graph(ctx)
}

fn edges(graph: &CallGraph<(), (), ()>) -> Vec<(usize, usize, InvocationType, u64)> {
    (0..graph.edge_count())
        .map(|e| {
            let (source, target) = graph.endpoints(e).unwrap();
            let invocation = graph.invocation(e).unwrap();
            (source, target, invocation.invocation_type, invocation.instruction_address)
        })
        .collect()
}

#[test]
fn built_graph_holds_what_the_finders_found() {
    let graph = build(&sample());
    assert_eq!(graph.node_count(), 5);
    assert_eq!(
        edges(&graph),
        vec![
            (0, 1, InvocationType::Direct, 0x1004),
            (0, 3, InvocationType::Direct, 0x1009),
            (1, 3, InvocationType::Direct, 0x2000),
            (0, 2, InvocationType::ProcedureReference, 0x100e),
            (0, 1, InvocationType::VTable, 0x1015),
            (0, 2, InvocationType::Jump, 0x1023),
            (1, 4, InvocationType::Jump, 0x2005),
        ]
    );
    assert_eq!(graph.procedure(0).unwrap().name, "main");
    assert_eq!(graph.procedure(1).unwrap().name, "helper");
    assert_eq!(graph.procedure(2).unwrap().name, "callee");
    assert_eq!(graph.procedure(2).unwrap().linkage_name, "_ZN4democalleeE");
    assert_eq!(graph.procedure(2).unwrap().linkage_name_demangled, "demo::callee");
    assert_eq!(graph.procedure(2).unwrap().defining_crate.version.as_deref(), Some("1.2.3"));
    assert_eq!(graph.procedure(2).unwrap().location.as_ref().unwrap().file, "/src/callee.rs");
    assert_eq!(graph.procedure(2).unwrap().location.as_ref().unwrap().line, 0x3000);
    assert_eq!(graph.procedure(3).unwrap().start_address, 0x7000);
    assert_eq!(graph.procedure(4).unwrap().start_address, 0x7100);
    assert!(graph.is_unresolved(0x101b));
    assert!(!graph.is_unresolved(0x1015));
    assert!(!graph.is_unresolved(0x1021));
    assert!(!graph.has_invocation_at(0x1021));
}

#[test]
fn inlined_calls_come_with_the_edge() {
    let graph = build(&sample());
    let frames: Vec<(&str, u64)> = graph
        .invocation(0)
        .unwrap()
        .frames
        .iter()
        .map(|f| (f.function_name.as_str(), f.location.line))
        .collect();
    assert_eq!(frames, vec![("outer", 10), ("inner", 20)]);
    assert_eq!(graph.invocation(0).unwrap().frames[0].location.file, "/src/inline.rs");
    assert_eq!(graph.invocation(0).unwrap().frames[0].defining_crate.name, "core");
    assert!(graph.invocation(1).unwrap().frames.is_empty());
    assert!(graph.invocation(2).unwrap().frames.is_empty());
    assert!(!graph.invocation(0).unwrap().attributes.whitelisted);
}

#[test]
fn start_addresses_are_unique() {
    let graph = build(&sample());
    for m in 0..graph.node_count() {
        let address = graph.procedure(m).unwrap().start_address;
        assert_eq!(graph.node_at(address), Some(m));
        for n in 0..graph.node_count() {
            if m != n {
                assert_ne!(address, graph.procedure(n).unwrap().start_address);
            }
        }
    }
}

#[test]
fn call_sites_lie_within_their_procedure() {
    let ctx = sample();
    let graph = build(&ctx);
    let mut sites = 0;
    for unit in &ctx.units {
        for procedure in &unit.procedures {
            for instruction in &procedure.disassembly {
                let node = graph.enclosing(instruction.address);
                if instruction.is_call || instruction.is_jump {
                    sites += 1;
                    let enclosing = graph.procedure(node.unwrap()).unwrap();
                    assert_eq!(enclosing.start_address, procedure.start_address);
                    assert!(enclosing.contains_address(instruction.address));
                    assert!(enclosing
                        .disassembly
                        .iter()
                        .any(|i| i.address == instruction.address && i.is_call_site()));
                } else {
                    assert_eq!(node, None);
                }
            }
        }
    }
    assert_eq!(sites, 8);
}

#[test]
fn no_call_site_has_two_edges() {
    let graph = build(&sample());
    let all = edges(&graph);
    for (d, first) in all.iter().enumerate() {
        for (e, second) in all.iter().enumerate() {
            if d != e {
                assert_ne!(first.3, second.3);
            }
        }
        if let Some(node) = graph.enclosing(first.3) {
            assert_eq!(node, first.0);
        }
    }
}

#[test]
fn rebuilding_gives_the_same_graph() {
    let ctx = sample();
    let first = build(&ctx);
    let second = build(&ctx);
    assert_eq!(first.node_count(), second.node_count());
    assert_eq!(edges(&first), edges(&second));
    for n in 0..first.node_count() {
        let (a, b) = (first.procedure(n).unwrap(), second.procedure(n).unwrap());
        assert_eq!(a.start_address, b.start_address);
        assert_eq!(a.name, b.name);
        assert_eq!(a.disassembly, b.disassembly);
        assert_eq!(a.placeholder, b.placeholder);
        assert_eq!(first.node_at(a.start_address), second.node_at(a.start_address));
    }
    for e in 0..first.edge_count() {
        assert_eq!(
            first.invocation(e).unwrap().frames.len(),
            second.invocation(e).unwrap().frames.len()
        );
    }
}

#[test]
fn placeholders_are_referenced_and_stand_behind_the_procedures() {
    let graph = build(&sample());
    for n in 0..graph.node_count() {
        let procedure = graph.procedure(n).unwrap();
        assert_eq!(procedure.placeholder, n >= 3);
        if procedure.placeholder {
            assert!(!graph.incoming(n).is_empty());
            assert!(graph.outgoing(n).is_empty());
        }
    }
}

#[test]
fn procedures_at_one_address_both_become_nodes() {
    let ctx = Context {
        units: vec![
            CompilationUnit {
                directory: "/a".to_string(),
                procedures: vec![record("first", 0x1000, vec![call(0x1000, 0x1000)])],
            },
            CompilationUnit {
                directory: "/b".to_string(),
                procedures: vec![record("second", 0x1000, vec![call(0x1000, 0x1000)])],
            },
        ],
        rust_version: None,
        inlined: vec![],
        dispatch_tables: vec![],
    };
    let graph = build(&ctx);
    assert_eq!(graph.node_count(), 2);
    assert_eq!(graph.node_at(0x1000), Some(1));
    assert_eq!(graph.enclosing(0x1000), Some(1));
    assert_eq!(edges(&graph), vec![(1, 1, InvocationType::Direct, 0x1000)]);
}

#[test]
fn context_is_read_unit_after_unit() {
    let ctx = sample();
    assert_eq!(get_compilation_unit_directories(&ctx), vec!["/work/a", "/work/empty", "/work/b"]);
    assert_eq!(get_rust_version(&ctx), Some(RustVersion { major: 1, minor: 26, patch: 2 }));
    assert_eq!(RustVersion::default(), RustVersion { major: 0, minor: 0, patch: 0 });
    let names = |procedures: Vec<Procedure<u8>>| -> Vec<String> {
        procedures.into_iter().map(|p| p.name).collect()
    };
    assert_eq!(names(get_procedures_for_compilation_unit(&ctx, 0)), vec!["main", "helper"]);
    assert_eq!(names(get_procedures_for_compilation_unit(&ctx, 1)), Vec::<String>::new());
    assert_eq!(names(get_procedures_for_compilation_unit(&ctx, 2)), vec!["callee"]);
    assert_eq!(names(get_procedures_for_compilation_unit(&ctx, 3)), Vec::<String>::new());
    assert_eq!(names(get_procedures(&ctx)), vec!["main", "helper", "callee"]);
    let all: Vec<Procedure<u8>> = get_procedures(&ctx);
    assert_eq!(all[1].start_address, 0x2000);
    assert_eq!(all[1].disassembly, vec![call(0x2000, 0x7000), jump(0x2005, 0x7100)]);
    assert!(!all[1].placeholder);
    assert_eq!(all[1].metadata, 0);
    assert!(within_node_limit(&ctx));
}

#[test]
fn first_record_of_an_address_counts() {
    let ctx = sample();
    let frames: Vec<InlineFunctionFrame<u8>> = get_inline_frames(&ctx, 0x1004);
    assert_eq!(frames.len(), 2);
    assert_eq!(frames[1].function_name, "inner");
    assert_eq!(get_inline_frames::<u8>(&ctx, 0x2000).len(), 0);
    assert_eq!(get_inline_frames::<u8>(&ctx, 0x5555).len(), 0);
    assert_eq!(get_slot_target(&ctx, 0x9000), Some(0x1000));
    assert_eq!(get_slot_target(&ctx, 0x9008), Some(0x2000));
    assert_eq!(get_slot_target(&ctx, 0x9010), None);
}

#[test]
fn empty_binary_gives_an_empty_graph() {
    let ctx = Context { units: vec![], rust_version: None, inlined: vec![], dispatch_tables: vec![] };
    let graph = build(&ctx);
    assert_eq!(graph.node_count(), 0);
    assert_eq!(graph.edge_count(), 0);
    assert_eq!(get_procedures::<u8>(&ctx).len(), 0);
    assert!(within_node_limit(&ctx));
}

#[test]
fn unresolved_calls_have_no_edge() {
    let graph = build(&sample());
    let all = edges(&graph);
    assert!(all.iter().all(|edge| !graph.is_unresolved(edge.3)));
    let marked: Vec<u64> = [0x1004u64, 0x1009, 0x100e, 0x1015, 0x101b, 0x1021, 0x1023, 0x2000, 0x2005]
        .iter()
        .copied()
        .filter(|site| graph.is_unresolved(*site))
        .collect();
    assert_eq!(marked, vec![0x101b]);
}
