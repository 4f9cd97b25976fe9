//! The options of an analysis run, put together from what the command line
//! and the configuration file gave.

use vstd::prelude::*;
use vstd::string::StringExecFns;
use crate::output::OutputOptions;

verus! {

/// What the command line gave, argument by argument.
#[derive(Debug)]
pub struct ParsedArguments {
    /// The path of the binary to analyse.
    pub binary: String,
    /// The crates to analyse; none to take the crate of the entry points.
    pub crates: Vec<String>,
    /// The call graphs to write out: `full`, `filtered`, or both.
    pub callgraph: Vec<String>,
    /// The path of the configuration file, where one was named.
    pub config: Option<String>,
    pub verbose: bool,
    pub silent: bool,
    pub json_stream: bool,
    pub full_crate_analysis: bool,
}

/// A function that may panic without being reported.
#[derive(Debug)]
pub struct FunctionWhiteListEntry {
    pub function_name: String,
    pub crate_name: Option<String>,
    pub crate_version: Option<String>,
}

/// What the analysis is to do.
#[derive(Debug)]
pub struct AnalysisOptions {
    pub binary_path: Option<String>,
    pub crate_names: Vec<String>,
    pub whitelisted_functions: Vec<FunctionWhiteListEntry>,
    /// Write out the call graph of the paths that may lead to a panic.
    pub output_filtered_callgraph: bool,
    /// Write out the whole call graph.
    pub output_full_callgraph: bool,
    /// Analyse every function of the target, not its entry points alone.
    pub full_crate_analysis: bool,
}

/// How the reading of the command line ended when it gave no arguments to
/// work with.
#[derive(Clone, Copy, Debug, PartialEq, Eq, Structural)]
pub enum ArgumentFailure {
    /// The user asked for the help text, and got it.
    HelpDisplayed,
    /// The user asked for the version, and got it.
    VersionDisplayed,
    /// The arguments were not acceptable.
    Rejected,
}

/// One of `words` is `word`.
pub open spec fn names(words: Seq<String>, word: Seq<char>) -> bool {
    exists|i: int| 0 <= i < words.len() && (#[trigger] words[i])@ == word
}

/// The path of the configuration file that is read where the command line
/// names none.
pub open spec fn default_config() -> Seq<char> {
    "rustig.toml"@
}

/// Whether one of `words` is `word`.
pub fn contains_word(words: &Vec<String>, word: &str) -> (r: bool)
    ensures
        r == names(words@, word@),
{
    let wanted = String::from_str(word);
    let mut i: usize = 0;
    while i < words.len()
        invariant
            i <= words.len(),
            wanted@ == word@,
            forall|j: int| 0 <= j < i ==> (#[trigger] words@[j])@ != word@,
        decreases words.len() - i,
    {
        if words[i] == wanted {
            return true;
        }
        i += 1;
    }
    false
}

/// The status with which the program ends after a failure to read the
/// command line: success where the user only asked for help or for the
/// version, 101 else.
pub fn exit_code(failure: ArgumentFailure) -> (code: i32)
    ensures
        code == (if failure == ArgumentFailure::Rejected {
            101i32
        } else {
            0i32
        }),
{
    match failure {
        ArgumentFailure::HelpDisplayed => 0,
        ArgumentFailure::VersionDisplayed => 0,
        ArgumentFailure::Rejected => 101,
    }
}

/// The configuration file to read, and whether it must exist: the file that
/// the command line names must, the default one need not.
pub fn config_file(arguments: &ParsedArguments) -> (r: (String, bool))
    ensures
        r.1 == arguments.config is Some,
        r.0@ == (match arguments.config {
            Some(path) => path@,
            None => default_config(),
        }),
{
    match &arguments.config {
        Some(path) => (path.clone(), true),
        None => (String::from_str("rustig.toml"), false),
    }
}

/// The form of the report that the command line asks for.
pub fn output_options(arguments: &ParsedArguments) -> (options: OutputOptions)
    ensures
        options.verbose == arguments.verbose,
        options.silent == arguments.silent,
        options.json == arguments.json_stream,
{
    OutputOptions {
        verbose: arguments.verbose,
        silent: arguments.silent,
        json: arguments.json_stream,
    }
}

/// The options of the analysis: the binary, the crates and the flag of the
/// command line, the whitelist of the configuration file, and a call graph
/// to write out for each kind that the command line names.
pub fn analysis_options(
    arguments: ParsedArguments,
    whitelisted_functions: Vec<FunctionWhiteListEntry>,
) -> (options: AnalysisOptions)
    ensures
        options.binary_path == Some(arguments.binary),
        options.crate_names == arguments.crates,
        options.whitelisted_functions == whitelisted_functions,
        options.output_filtered_callgraph == names(arguments.callgraph@, "filtered"@),
        options.output_full_callgraph == names(arguments.callgraph@, "full"@),
        options.full_crate_analysis == arguments.full_crate_analysis,
{
    let output_filtered_callgraph = contains_word(&arguments.callgraph, "filtered");
    let output_full_callgraph = contains_word(&arguments.callgraph, "full");
    AnalysisOptions {
        binary_path: Some(arguments.binary),
        crate_names: arguments.crates,
        whitelisted_functions,
        output_filtered_callgraph,
        output_full_callgraph,
        full_crate_analysis: arguments.full_crate_analysis,
    }
}

} // verus!
