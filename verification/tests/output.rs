use rustig::document::trace_value;
use rustig::model::Crate;
use rustig::model::InlineFunctionFrame;
use rustig::model::Invocation;
use rustig::model::InvocationAttributes;
use rustig::model::InvocationType;
use rustig::model::Location;
use rustig::model::Procedure;
use rustig::model::ProcedureAttributes;
use rustig::output::get_output_streams;
use rustig::output::print_results;
use rustig::output::JsonConsoleOutputStream;
use rustig::output::OutputOptions;
use rustig::output::OutputStream;
use rustig::output::OutputStreamsCollection;
use rustig::output::SimpleConsoleOutputStream;
use rustig::output::VerboseConsoleOutputStream;
use rustig::panic_calls::BackTraceEntry;
use rustig::panic_calls::PanicCall;
use rustig::panic_calls::PanicCallsCollection;
use rustig::panic_calls::PanicPattern;
use rustig::text::decimal_text;
use rustig::text::label_width;
use rustig::text::padded_text;

fn procedure(name: &str, krate: &str, version: Option<&str>, place: Option<(&str, u64)>) -> Procedure<()> {
    Procedure {
        start_address: 0x1000,
        name: name.rsplit("::").next().unwrap().to_string(),
        linkage_name: format!("_ZN{}E", name.len()),
        linkage_name_demangled: name.to_string(),
        defining_crate: Crate { name: krate.to_string(), version: version.map(str::to_string) },
        location: place.map(|(file, line)| Location { file: file.to_string(), line }),
        disassembly: vec![],
        attributes: ProcedureAttributes::default(),
        placeholder: false,
        metadata: (),
    }
}

fn frame(name: &str, file: &str, line: u64) -> InlineFunctionFrame<()> {
    InlineFunctionFrame {
        function_name: name.to_string(),
        location: Location { file: file.to_string(), line },
        defining_crate: Crate { name: "core".to_string(), version: None },
        metadata: (),
    }
}

fn invocation(invocation_type: InvocationType, frames: Vec<InlineFunctionFrame<()>>) -> Invocation<(), ()> {
    Invocation {
        instruction_address: 0x1004,
        invocation_type,
        frames,
        attributes: InvocationAttributes { whitelisted: false },
        metadata: (),
    }
}

fn unwrap_trace() -> PanicCall {
    let mut caller = procedure("cli::run", "rustig", None, Some(("/home/pc/rustig/main.rs", 141)));
    caller.attributes.entry_point = true;
    caller.attributes.reachable_from_entry_point = true;
    let mut handler = procedure(
        "core::panicking::panic",
        "stdlib",
        Some("1.26.2"),
        Some(("/checkout/src/libcore/panicking.rs", 51)),
    );
    handler.attributes.is_panic = true;
    PanicCall {
        backtrace: vec![
            BackTraceEntry {
                procedure: caller,
                outgoing_invocation: Some(invocation(
                    InvocationType::Direct,
                    vec![
                        frame("core::option::Option<T>::unwrap", "/checkout/src/libcore/option.rs", 500),
                        frame("cli::run::{{closure}}", "/home/pc/rustig/main.rs", 60),
                    ],
                )),
            },
            BackTraceEntry { procedure: handler, outgoing_invocation: None },
        ],
        pattern: PanicPattern::Unwrap,
        contains_dynamic_invocation: false,
        message: None,
    }
}

fn bare_trace(pattern: PanicPattern) -> PanicCall {
    PanicCall {
        backtrace: vec![],
        pattern,
        contains_dynamic_invocation: true,
        message: Some("boom".to_string()),
    }
}

fn single_step_trace() -> PanicCall {
    PanicCall {
        backtrace: vec![BackTraceEntry {
            procedure: procedure("lonely", "demo", Some("0.1.0"), None),
            outgoing_invocation: Some(invocation(InvocationType::VTable, vec![])),
        }],
        pattern: PanicPattern::Indexing,
        contains_dynamic_invocation: true,
        message: None,
    }
}

fn options(silent: bool, verbose: bool, json: bool) -> OutputOptions {
    OutputOptions { silent, verbose, json }
}

#[test]
fn simple_report_has_a_line_for_each_trace() {
    let results = PanicCallsCollection {
        calls: vec![unwrap_trace(), bare_trace(PanicPattern::Arithmetic), single_step_trace()],
    };
    let text = print_results(&options(false, false, false), &results).unwrap();
    assert_eq!(
        text,
        "cli::run calls core::panicking::panic (stdlib@1.26.2) at /home/pc/rustig/main.rs:141\n\
         \n\
         lonely\n"
    );
    assert_eq!(SimpleConsoleOutputStream {}.print_output(&results).unwrap(), text);
}

#[test]
fn simple_report_without_version_and_place() {
    let mut trace = unwrap_trace();
    trace.backtrace[0].procedure.location = None;
    trace.backtrace[1].procedure.defining_crate.version = None;
    let results = PanicCallsCollection { calls: vec![trace] };
    let text = print_results(&options(false, false, false), &results).unwrap();
    assert_eq!(text, "cli::run calls core::panicking::panic (stdlib)\n");
}

#[test]
fn verbose_report_shows_each_trace_in_full() {
    let results = PanicCallsCollection { calls: vec![unwrap_trace()] };
    let text = print_results(&options(false, true, false), &results).unwrap();
    assert_eq!(
        text,
        "1 calls found that lead to panic!\n\
         --#1 --Pattern: Unwrap\n\
         \n\
         \x200: cli::run (rustig)\n\
         \x20        at /home/pc/rustig/main.rs:141\n\
         \x20        <inline core::option::Option<T>::unwrap at /checkout/src/libcore/option.rs:500 >\n\
         \x20        <inline cli::run::{{closure}} at /home/pc/rustig/main.rs:60 >\n\
         \x201: core::panicking::panic (stdlib@1.26.2)\n\
         \x20        at /checkout/src/libcore/panicking.rs:51\n\
         \n"
    );
    assert_eq!(VerboseConsoleOutputStream {}.print_output(&results).unwrap(), text);
}

#[test]
fn verbose_report_warns_and_tells_the_message() {
    let results = PanicCallsCollection {
        calls: vec![bare_trace(PanicPattern::DirectCall), single_step_trace()],
    };
    let text = print_results(&options(false, true, false), &results).unwrap();
    assert_eq!(
        text,
        "2 calls found that lead to panic!\n\
         --#1 --Pattern: DirectCall\n\
         --Contains dynamic invocation: this may be a false positive\n\
         --Message: boom\n\
         \n\
         \n\
         --#2 --Pattern: Indexing\n\
         --Contains dynamic invocation: this may be a false positive\n\
         \n\
         \x200: lonely (demo@0.1.0)\n\
         \n"
    );
}

#[test]
fn verbose_report_of_nothing() {
    let results = PanicCallsCollection { calls: vec![] };
    let text = print_results(&options(false, true, false), &results).unwrap();
    assert_eq!(text, "0 calls found that lead to panic!\n");
}

#[test]
fn verbose_numbers_are_padded_to_the_width_of_the_count() {
    let patterns = [
        PanicPattern::Unrecognized,
        PanicPattern::DirectCall,
        PanicPattern::Unwrap,
        PanicPattern::Indexing,
        PanicPattern::Arithmetic,
    ];
    let collection = |count: usize| PanicCallsCollection {
        calls: (0..count)
            .map(|i| PanicCall {
                backtrace: vec![],
                pattern: patterns[i % 5],
                contains_dynamic_invocation: false,
                message: None,
            })
            .collect(),
    };
    let ten = print_results(&options(false, true, false), &collection(10)).unwrap();
    assert!(ten.starts_with("10 calls found that lead to panic!\n--#1 --Pattern: Unrecognized\n\n\n--#2 --Pattern: DirectCall\n"));
    assert!(ten.ends_with("--#9 --Pattern: Indexing\n\n\n--#10 --Pattern: Arithmetic\n\n\n"));
    let eleven = print_results(&options(false, true, false), &collection(11)).unwrap();
    assert!(eleven.starts_with("11 calls found that lead to panic!\n--#01 --Pattern: Unrecognized\n\n\n--#02 "));
    assert!(eleven.ends_with("--#10 --Pattern: Arithmetic\n\n\n--#11 --Pattern: Unrecognized\n\n\n"));
    let many = print_results(&options(false, true, false), &collection(101)).unwrap();
    assert!(many.starts_with("101 calls found that lead to panic!\n--#001 --Pattern: Unrecognized\n"));
    assert!(many.contains("\n--#099 --Pattern: Indexing\n"));
    assert!(many.ends_with("--#101 --Pattern: Unrecognized\n\n\n"));
}

#[test]
fn json_report_of_a_bare_trace() {
    let results = PanicCallsCollection {
        calls: vec![bare_trace(PanicPattern::Arithmetic), bare_trace(PanicPattern::Unrecognized)],
    };
    let text = print_results(&options(false, false, true), &results).unwrap();
    let first = "{\n  \"backtrace\": [],\n  \"dynamic_invocation\": true,\n  \"index\": 0,\n  \"message\": \"boom\",\n  \"pattern\": \"arithmetic\"\n}";
    let second = "{\n  \"backtrace\": [],\n  \"dynamic_invocation\": true,\n  \"index\": 1,\n  \"message\": \"boom\",\n  \"pattern\": \"unrecognized\"\n}";
    assert_eq!(text, format!("\n\n{}\n\n\n\n{}\n\n", first, second));
    assert_eq!(JsonConsoleOutputStream {}.print_output(&results).unwrap(), text);
}

#[test]
fn json_document_of_a_full_trace() {
    let value = trace_value(3, &unwrap_trace());
    let expected: serde_json::Value = serde_json::from_str(
        r#"{
            "index": 3,
            "pattern": "unwrap",
            "message": null,
            "dynamic_invocation": false,
            "backtrace": [
                {
                    "index": 0,
                    "procedure": {
                        "name": "run",
                        "linkage_name": "_ZN8E",
                        "linkage_name_demangled": "cli::run",
                        "crate": { "name": "rustig", "version": null },
                        "location": { "file": "/home/pc/rustig/main.rs", "line": 141 },
                        "is_entry": true,
                        "is_reachable": true,
                        "is_panic": false,
                        "is_panic_origin": false,
                        "is_whitelisted": false
                    },
                    "invocation": {
                        "type": "direct",
                        "is_whitelisted": false,
                        "frames": [
                            {
                                "index": 0,
                                "function": "core::option::Option<T>::unwrap",
                                "location": { "file": "/checkout/src/libcore/option.rs", "line": 500 },
                                "crate": { "name": "core", "version": null }
                            },
                            {
                                "index": 1,
                                "function": "cli::run::{{closure}}",
                                "location": { "file": "/home/pc/rustig/main.rs", "line": 60 },
                                "crate": { "name": "core", "version": null }
                            }
                        ]
                    }
                },
                {
                    "index": 1,
                    "procedure": {
                        "name": "panic",
                        "linkage_name": "_ZN22E",
                        "linkage_name_demangled": "core::panicking::panic",
                        "crate": { "name": "stdlib", "version": "1.26.2" },
                        "location": { "file": "/checkout/src/libcore/panicking.rs", "line": 51 },
                        "is_entry": false,
                        "is_reachable": false,
                        "is_panic": true,
                        "is_panic_origin": false,
                        "is_whitelisted": false
                    },
                    "invocation": null
                }
            ]
        }"#,
    )
    .unwrap();
    assert_eq!(value, expected);
}

#[test]
fn json_names_of_patterns_and_mechanisms() {
    let pattern = |p: PanicPattern| trace_value(0, &bare_trace(p))["pattern"].clone();
    assert_eq!(pattern(PanicPattern::Unrecognized), "unrecognized");
    assert_eq!(pattern(PanicPattern::DirectCall), "direct_call");
    assert_eq!(pattern(PanicPattern::Unwrap), "unwrap");
    assert_eq!(pattern(PanicPattern::Indexing), "indexing");
    assert_eq!(pattern(PanicPattern::Arithmetic), "arithmetic");
    let mechanism = |t: InvocationType| {
        let mut trace = single_step_trace();
        trace.backtrace[0].outgoing_invocation = Some(invocation(t, vec![]));
        trace.backtrace[0].outgoing_invocation.as_mut().unwrap().attributes.whitelisted = true;
        trace_value(0, &trace)["backtrace"][0]["invocation"].clone()
    };
    assert_eq!(mechanism(InvocationType::Direct)["type"], "direct");
    assert_eq!(mechanism(InvocationType::ProcedureReference)["type"], "procedure");
    assert_eq!(mechanism(InvocationType::VTable)["type"], "vtable");
    assert_eq!(mechanism(InvocationType::Jump)["type"], "jump");
    assert_eq!(mechanism(InvocationType::Jump)["is_whitelisted"], true);
    assert_eq!(mechanism(InvocationType::Jump)["frames"], serde_json::Value::Array(vec![]));
    let lonely = trace_value(0, &single_step_trace());
    assert_eq!(lonely["backtrace"][0]["procedure"]["location"], serde_json::Value::Null);
    assert_eq!(lonely["backtrace"][0]["procedure"]["crate"]["version"], "0.1.0");
    assert_eq!(lonely["dynamic_invocation"], true);
}

#[test]
fn silence_reports_nothing() {
    let results = PanicCallsCollection { calls: vec![unwrap_trace()] };
    for verbose in [false, true] {
        for json in [false, true] {
            assert_eq!(print_results(&options(true, verbose, json), &results).unwrap(), "");
            assert!(get_output_streams(&options(true, verbose, json)).streams.is_empty());
        }
    }
}

#[test]
fn json_goes_before_verbose() {
    let results = PanicCallsCollection { calls: vec![bare_trace(PanicPattern::Unwrap)] };
    let json = JsonConsoleOutputStream {}.print_output(&results).unwrap();
    let verbose = VerboseConsoleOutputStream {}.print_output(&results).unwrap();
    let simple = SimpleConsoleOutputStream {}.print_output(&results).unwrap();
    assert_ne!(json, verbose);
    assert_ne!(verbose, simple);
    assert_eq!(print_results(&options(false, true, true), &results).unwrap(), json);
    assert_eq!(print_results(&options(false, false, true), &results).unwrap(), json);
    assert_eq!(print_results(&options(false, true, false), &results).unwrap(), verbose);
    assert_eq!(print_results(&options(false, false, false), &results).unwrap(), simple);
    for (verbose_flag, json_flag) in [(false, false), (true, false), (false, true), (true, true)] {
        let collection = get_output_streams(&options(false, verbose_flag, json_flag));
        assert_eq!(collection.streams.len(), 1);
        assert_eq!(
            collection.print_output(&results).unwrap(),
            print_results(&options(false, verbose_flag, json_flag), &results).unwrap()
        );
    }
}

#[test]
fn streams_report_one_behind_the_other() {
    let results = PanicCallsCollection { calls: vec![single_step_trace()] };
    let collection = OutputStreamsCollection {
        streams: vec![
            Box::new(SimpleConsoleOutputStream {}),
            Box::new(JsonConsoleOutputStream {}),
            Box::new(SimpleConsoleOutputStream {}),
        ],
    };
    let json = JsonConsoleOutputStream {}.print_output(&results).unwrap();
    assert_eq!(collection.print_output(&results).unwrap(), format!("lonely\n{}lonely\n", json));
    let none = OutputStreamsCollection { streams: vec![] };
    assert_eq!(none.print_output(&results).unwrap(), "");
}

#[test]
fn numbers_as_text() {
    assert_eq!(decimal_text(0), "0");
    assert_eq!(decimal_text(7), "7");
    assert_eq!(decimal_text(10), "10");
    assert_eq!(decimal_text(1234567890), "1234567890");
    assert_eq!(decimal_text(u64::MAX), "18446744073709551615");
    assert_eq!(padded_text(7, 3, "0"), "007");
    assert_eq!(padded_text(7, 1, "0"), "7");
    assert_eq!(padded_text(7, 0, "0"), "7");
    assert_eq!(padded_text(1234, 2, "0"), "1234");
    assert_eq!(padded_text(0, 2, " "), " 0");
    assert_eq!(padded_text(12, 5, " "), "   12");
}

#[test]
fn label_width_is_the_rounded_up_logarithm() {
    let expected = [
        (0, 0),
        (1, 0),
        (2, 1),
        (9, 1),
        (10, 1),
        (11, 2),
        (99, 2),
        (100, 2),
        (101, 3),
        (1000, 3),
        (1001, 4),
        (1_000_000, 6),
        (1_000_001, 7),
    ];
    for (count, width) in expected {
        assert_eq!(label_width(count), width, "count {}", count);
    }
    for count in 1usize..5000 {
        assert_eq!(label_width(count), (count as f64).log10().ceil() as usize, "count {}", count);
    }
}
