use rustig::errors::ErrorKind;
use rustig::options::analysis_options;
use rustig::options::config_file;
use rustig::options::contains_word;
use rustig::options::exit_code;
use rustig::options::output_options;
use rustig::options::ArgumentFailure;
use rustig::options::FunctionWhiteListEntry;
use rustig::options::ParsedArguments;

fn arguments(callgraph: &[&str], config: Option<&str>) -> ParsedArguments {
    ParsedArguments {
        binary: "target/debug/demo".to_string(),
        crates: vec!["demo".to_string(), "other".to_string()],
        callgraph: callgraph.iter().map(|s| s.to_string()).collect(),
        config: config.map(str::to_string),
        verbose: true,
        silent: false,
        json_stream: true,
        full_crate_analysis: true,
    }
}

#[test]
fn analysis_options_follow_the_arguments() {
    let whitelist = vec![FunctionWhiteListEntry {
        function_name: "demo::allowed".to_string(),
        crate_name: Some("demo".to_string()),
        crate_version: None,
    }];
    let options = analysis_options(arguments(&["filtered"], None), whitelist);
    assert_eq!(options.binary_path.as_deref(), Some("target/debug/demo"));
    assert_eq!(options.crate_names, vec!["demo", "other"]);
    assert_eq!(options.whitelisted_functions.len(), 1);
    assert_eq!(options.whitelisted_functions[0].function_name, "demo::allowed");
    assert!(options.output_filtered_callgraph);
    assert!(!options.output_full_callgraph);
    assert!(options.full_crate_analysis);

    let options = analysis_options(arguments(&["full", "filtered", "full"], None), vec![]);
    assert!(options.output_filtered_callgraph);
    assert!(options.output_full_callgraph);

    let mut plain = arguments(&[], None);
    plain.full_crate_analysis = false;
    let options = analysis_options(plain, vec![]);
    assert!(!options.output_filtered_callgraph);
    assert!(!options.output_full_callgraph);
    assert!(!options.full_crate_analysis);
    assert!(options.whitelisted_functions.is_empty());
}

#[test]
fn callgraph_kinds_are_whole_words() {
    let options = analysis_options(arguments(&["fullest", "Filtered", ""], None), vec![]);
    assert!(!options.output_filtered_callgraph);
    assert!(!options.output_full_callgraph);
    let words = vec!["a".to_string(), "bc".to_string()];
    assert!(contains_word(&words, "a"));
    assert!(contains_word(&words, "bc"));
    assert!(!contains_word(&words, "b"));
    assert!(!contains_word(&words, ""));
    assert!(!contains_word(&vec![], "a"));
}

#[test]
fn output_options_follow_the_flags() {
    let options = output_options(&arguments(&[], None));
    assert!(options.verbose);
    assert!(!options.silent);
    assert!(options.json);
    let mut quiet = arguments(&[], None);
    quiet.verbose = false;
    quiet.json_stream = false;
    quiet.silent = true;
    let options = output_options(&quiet);
    assert!(!options.verbose);
    assert!(options.silent);
    assert!(!options.json);
}

#[test]
fn named_config_file_is_required() {
    assert_eq!(config_file(&arguments(&[], None)), ("rustig.toml".to_string(), false));
    assert_eq!(
        config_file(&arguments(&[], Some("conf/custom.toml"))),
        ("conf/custom.toml".to_string(), true)
    );
}

#[test]
fn rejected_arguments_end_with_101() {
    assert_eq!(exit_code(ArgumentFailure::Rejected), 101);
    assert_eq!(exit_code(ArgumentFailure::HelpDisplayed), 0);
    assert_eq!(exit_code(ArgumentFailure::VersionDisplayed), 0);
}

#[test]
fn errors_in_words() {
    let error = ErrorKind::NotSupported("a 32-bit header".to_string());
    assert_eq!(error.message(), "Analysis aborted: binary contains a 32-bit header, which is not supported. ");
    assert_eq!(error.description(), "A binary was passed that requires unimplemented functionality.");
    let error = ErrorKind::ParseError("bad unit header".to_string());
    assert_eq!(error.message(), "Unable to parse file: bad unit header");
    assert_eq!(error.description(), "A file could not be parsed correctly.");
    let error = ErrorKind::ReadError("/tmp/core".to_string());
    assert_eq!(error.message(), "Unable to read file `/tmp/core`");
    assert_eq!(error.description(), "A file could not be read correctly.");
    let error = ErrorKind::IOError("/bin/missing".to_string());
    assert_eq!(error.message(), "File not found `/bin/missing`");
    assert_eq!(error.description(), "Binary file not found.");
    let error = ErrorKind::ConfigLoad("rustig.toml".to_string(), None);
    assert_eq!(error.message(), "Unable to read config file `rustig.toml`");
    assert_eq!(error.description(), "Config file not found");
    let error = ErrorKind::ConfigLoad("rustig.toml".to_string(), Some("no such file".to_string()));
    assert_eq!(error.message(), "Unable to read config file `rustig.toml`: no such file");
}
