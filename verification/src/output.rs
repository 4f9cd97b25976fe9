//! The text that reports the traces of an analysis, in one of three forms.
//!
//! - Simple: one line for each trace, with the first two procedures of the
//!   trace and the place of the first.
//! - Verbose: the number of traces, then each trace in full, with its
//!   pattern, its steps and the calls that were inlined into them.
//! - JSON: one document for each trace.
//!
//! The functions of this file make the text; to write it out is the
//! caller's part.

use vstd::prelude::*;
use vstd::string::StringExecFns;
use crate::document::trace_document;
use crate::document::trace_value;
use crate::json::json_error_text;
use crate::json::json_pretty;
use crate::json::pretty_text;
use crate::model::Crate;
use crate::model::CrateView;
use crate::model::FrameView;
use crate::model::InlineFunctionFrame;
use crate::model::Location;
use crate::model::LocationView;
use crate::panic_calls::BackTraceEntry;
use crate::panic_calls::BackTraceEntryView;
use crate::panic_calls::PanicCall;
use crate::panic_calls::PanicCallView;
use crate::panic_calls::PanicCallsCollection;
use crate::panic_calls::PanicPattern;
use crate::text::decimal;
use crate::text::decimal_text;
use crate::text::label_width;
use crate::text::padded;
use crate::text::padded_text;
use crate::text::width_for;

verus! {

/// How the traces are to be reported.
#[derive(Clone, Copy, Debug)]
pub struct OutputOptions {
    /// Nothing is reported.
    pub silent: bool,
    /// Each trace is reported in full.
    pub verbose: bool,
    /// Each trace is reported as a JSON document.
    pub json: bool,
}

/// Why a report could not be made.
#[derive(Debug)]
pub enum OutputError {
    /// The JSON serializer failed; the text is its message.
    Json(String),
}

/// `name`, or `name@version` where the version is known.
pub open spec fn crate_label(c: CrateView) -> Seq<char> {
    match c.version {
        Some(v) => c.name + "@"@ + v,
        None => c.name,
    }
}

/// `file:line`.
pub open spec fn location_label(l: LocationView) -> Seq<char> {
    l.file + ":"@ + decimal(l.line as nat)
}

/// The line of a trace in the simple form, without its line end: the first
/// procedure, the second with its crate where there is one, and the place
/// of the first where it is known. A trace without steps gives an empty
/// line.
pub open spec fn simple_line(t: PanicCallView) -> Seq<char> {
    if t.backtrace.len() == 0 {
        Seq::empty()
    } else {
        let first = t.backtrace[0].procedure;
        let head = if t.backtrace.len() >= 2 {
            let second = t.backtrace[1].procedure;
            first.linkage_name_demangled + " calls "@ + second.linkage_name_demangled + " ("@
                + crate_label(second.defining_crate) + ")"@
        } else {
            first.linkage_name_demangled
        };
        match first.location {
            Some(l) => head + " at "@ + location_label(l),
            None => head,
        }
    }
}

/// The simple report of the first `n` traces: a line for each.
pub open spec fn simple_text(calls: Seq<PanicCallView>, n: nat) -> Seq<char>
    decreases n,
{
    if n == 0 {
        Seq::empty()
    } else {
        simple_text(calls, (n - 1) as nat) + simple_line(calls[n - 1]) + "\n"@
    }
}

/// The name of a pattern in the verbose form.
pub open spec fn pattern_label(pattern: PanicPattern) -> Seq<char> {
    match pattern {
        PanicPattern::Unrecognized => "Unrecognized"@,
        PanicPattern::DirectCall => "DirectCall"@,
        PanicPattern::Unwrap => "Unwrap"@,
        PanicPattern::Indexing => "Indexing"@,
        PanicPattern::Arithmetic => "Arithmetic"@,
    }
}

/// The line of an inlined call below a step.
pub open spec fn frame_line(f: FrameView) -> Seq<char> {
    "         <inline "@ + f.function_name + " at "@ + location_label(f.location) + " >\n"@
}

/// The lines of the first `n` of `frames`.
pub open spec fn frame_lines(frames: Seq<FrameView>, n: nat) -> Seq<char>
    decreases n,
{
    if n == 0 {
        Seq::empty()
    } else {
        frame_lines(frames, (n - 1) as nat) + frame_line(frames[n - 1])
    }
}

/// The lines of step number `index` of a trace: the procedure with its
/// crate, its place where that is known, and the calls that were inlined
/// into the invocation by which the trace goes on.
pub open spec fn entry_block(index: nat, e: BackTraceEntryView) -> Seq<char> {
    let head = padded(index, 2, ' ') + ": "@ + e.procedure.linkage_name_demangled + " ("@
        + crate_label(e.procedure.defining_crate) + ")\n"@;
    let placed = match e.procedure.location {
        Some(l) => head + "         at "@ + location_label(l) + "\n"@,
        None => head,
    };
    match e.outgoing_invocation {
        Some(i) => placed + frame_lines(i.frames, i.frames.len()),
        None => placed,
    }
}

/// The lines of the first `n` steps of a trace.
pub open spec fn entry_blocks(entries: Seq<BackTraceEntryView>, n: nat) -> Seq<char>
    decreases n,
{
    if n == 0 {
        Seq::empty()
    } else {
        entry_blocks(entries, (n - 1) as nat) + entry_block((n - 1) as nat, entries[n - 1])
    }
}

/// A trace in the verbose form: its pattern, a warning where it holds a
/// call that is resolved at run time, its message where it has one, an
/// empty line, and its steps.
pub open spec fn verbose_block(t: PanicCallView) -> Seq<char> {
    let pattern = "--Pattern: "@ + pattern_label(t.pattern) + "\n"@;
    let warned = if t.contains_dynamic_invocation {
        pattern + "--Contains dynamic invocation: this may be a false positive\n"@
    } else {
        pattern
    };
    let told = match t.message {
        Some(m) => warned + "--Message: "@ + m + "\n"@,
        None => warned,
    };
    told + "\n"@ + entry_blocks(t.backtrace, t.backtrace.len())
}

/// The numbered blocks of the first `n` traces. The numbers start at one
/// and are padded with zeros to `width` characters.
pub open spec fn verbose_blocks(calls: Seq<PanicCallView>, width: nat, n: nat) -> Seq<char>
    decreases n,
{
    if n == 0 {
        Seq::empty()
    } else {
        verbose_blocks(calls, width, (n - 1) as nat) + "--#"@ + padded(n, width, '0') + " "@
            + verbose_block(calls[n - 1]) + "\n"@
    }
}

/// The verbose report: the number of traces, then each trace in full. The
/// numbers of the traces are as wide as the logarithm of their count to base
/// ten, rounded up.
pub open spec fn verbose_text(calls: Seq<PanicCallView>) -> Seq<char> {
    decimal(calls.len()) + " calls found that lead to panic!\n"@ + verbose_blocks(
        calls,
        width_for(calls.len()),
        calls.len(),
    )
}

/// The JSON report of the first `n` traces: for each trace two line ends,
/// the document of the trace as the serializer writes it, and two line
/// ends. `None` where the serializer fails on one of them.
pub open spec fn json_text(calls: Seq<PanicCallView>, n: nat) -> Option<Seq<char>>
    decreases n,
{
    if n == 0 {
        Some(Seq::empty())
    } else {
        match (json_text(calls, (n - 1) as nat), pretty_text(trace_document(n - 1, calls[n - 1]))) {
            (Some(head), Some(document)) => Some(head + "\n\n"@ + document + "\n\n"@),
            _ => None,
        }
    }
}

/// Once the JSON report of some traces fails, that of more traces fails too.
proof fn lemma_json_text_fails(calls: Seq<PanicCallView>, k: nat, n: nat)
    requires
        k <= n,
        json_text(calls, k) is None,
    ensures
        json_text(calls, n) is None,
    decreases n,
{
    if k < n {
        lemma_json_text_fails(calls, k, (n - 1) as nat);
    }
}

fn crate_label_text(c: &Crate) -> (text: String)
    ensures
        text@ == crate_label(c@),
{
    let mut text = c.name.clone();
    match &c.version {
        Some(v) => {
            text.append("@");
            text.append(v.as_str());
        },
        None => {},
    }
    text
}

fn location_label_text(l: &Location) -> (text: String)
    ensures
        text@ == location_label(l@),
{
    let mut text = l.file.clone();
    text.append(":");
    text.append(decimal_text(l.line).as_str());
    text
}

fn simple_line_text(t: &PanicCall) -> (text: String)
    ensures
        text@ == simple_line(t@),
{
    if t.backtrace.len() == 0 {
        return String::new();
    }
    let first = &t.backtrace[0].procedure;
    let mut text = first.linkage_name_demangled.clone();
    if t.backtrace.len() >= 2 {
        let second = &t.backtrace[1].procedure;
        text.append(" calls ");
        text.append(second.linkage_name_demangled.as_str());
        text.append(" (");
        text.append(crate_label_text(&second.defining_crate).as_str());
        text.append(")");
    }
    match &first.location {
        Some(l) => {
            text.append(" at ");
            text.append(location_label_text(l).as_str());
        },
        None => {},
    }
    text
}

fn frame_line_text<F>(f: &InlineFunctionFrame<F>) -> (text: String)
    ensures
        text@ == frame_line(f@),
{
    let mut text = String::from_str("         <inline ");
    text.append(f.function_name.as_str());
    text.append(" at ");
    text.append(location_label_text(&f.location).as_str());
    text.append(" >\n");
    text
}

fn entry_block_text(index: usize, e: &BackTraceEntry) -> (text: String)
    ensures
        text@ == entry_block(index as nat, e@),
{
    proof {
        reveal_strlit(" ");
    }
    let mut text = padded_text(index as u64, 2, " ");
    text.append(": ");
    text.append(e.procedure.linkage_name_demangled.as_str());
    text.append(" (");
    text.append(crate_label_text(&e.procedure.defining_crate).as_str());
    text.append(")\n");
    match &e.procedure.location {
        Some(l) => {
            text.append("         at ");
            text.append(location_label_text(l).as_str());
            text.append("\n");
        },
        None => {},
    }
    match &e.outgoing_invocation {
        Some(i) => {
            let ghost placed = text@;
            let mut k: usize = 0;
            while k < i.frames.len()
                invariant
                    k <= i.frames.len(),
                    text@ == placed + frame_lines(i@.frames, k as nat),
                decreases i.frames.len() - k,
            {
                text.append(frame_line_text(&i.frames[k]).as_str());
                k += 1;
            }
        },
        None => {},
    }
    text
}

fn pattern_label_text(pattern: PanicPattern) -> (text: &'static str)
    ensures
        text@ == pattern_label(pattern),
{
    match pattern {
        PanicPattern::Unrecognized => "Unrecognized",
        PanicPattern::DirectCall => "DirectCall",
        PanicPattern::Unwrap => "Unwrap",
        PanicPattern::Indexing => "Indexing",
        PanicPattern::Arithmetic => "Arithmetic",
    }
}

fn verbose_block_text(t: &PanicCall) -> (text: String)
    ensures
        text@ == verbose_block(t@),
{
    let mut text = String::from_str("--Pattern: ");
    text.append(pattern_label_text(t.pattern));
    text.append("\n");
    if t.contains_dynamic_invocation {
        text.append("--Contains dynamic invocation: this may be a false positive\n");
    }
    match &t.message {
        Some(m) => {
            text.append("--Message: ");
            text.append(m.as_str());
            text.append("\n");
        },
        None => {},
    }
    text.append("\n");
    let ghost told = text@;
    let mut k: usize = 0;
    while k < t.backtrace.len()
        invariant
            k <= t.backtrace.len(),
            text@ == told + entry_blocks(t@.backtrace, k as nat),
        decreases t.backtrace.len() - k,
    {
        text.append(entry_block_text(k, &t.backtrace[k]).as_str());
        k += 1;
    }
    text
}

/// A form in which the traces of an analysis can be reported.
pub trait OutputStream {
    /// The report of `calls` in this form, or `None` where it cannot be made.
    spec fn rendered(&self, calls: Seq<PanicCallView>) -> Option<Seq<char>>;

    /// Makes the text that reports `panic_calls`.
    fn print_output(&self, panic_calls: &PanicCallsCollection) -> (out: Result<String, OutputError>)
        ensures
            match out {
                Ok(text) => self.rendered(panic_calls@) == Some(text@),
                Err(_) => self.rendered(panic_calls@) is None,
            },
    ;
}

/// The simple form: a line for each trace.
#[derive(Clone, Copy, Debug)]
pub struct SimpleConsoleOutputStream {}

/// The verbose form: each trace in full.
#[derive(Clone, Copy, Debug)]
pub struct VerboseConsoleOutputStream {}

/// The JSON form: a document for each trace.
#[derive(Clone, Copy, Debug)]
pub struct JsonConsoleOutputStream {}

impl OutputStream for SimpleConsoleOutputStream {
    open spec fn rendered(&self, calls: Seq<PanicCallView>) -> Option<Seq<char>> {
        Some(simple_text(calls, calls.len()))
    }

    fn print_output(&self, panic_calls: &PanicCallsCollection) -> (out: Result<String, OutputError>) {
        let mut text = String::new();
        let mut k: usize = 0;
        while k < panic_calls.calls.len()
            invariant
                k <= panic_calls.calls.len(),
                text@ == simple_text(panic_calls@, k as nat),
            decreases panic_calls.calls.len() - k,
        {
            text.append(simple_line_text(&panic_calls.calls[k]).as_str());
            text.append("\n");
            k += 1;
        }
        Ok(text)
    }
}

impl OutputStream for VerboseConsoleOutputStream {
    open spec fn rendered(&self, calls: Seq<PanicCallView>) -> Option<Seq<char>> {
        Some(verbose_text(calls))
    }

    fn print_output(&self, panic_calls: &PanicCallsCollection) -> (out: Result<String, OutputError>) {
        proof {
            reveal_strlit("0");
        }
        let count = panic_calls.calls.len();
        let width = label_width(count);
        let mut text = decimal_text(count as u64);
        text.append(" calls found that lead to panic!\n");
        let ghost head = text@;
        let mut k: usize = 0;
        while k < count
            invariant
                k <= count,
                count == panic_calls.calls.len(),
                "0"@.len() == 1 && "0"@[0] == '0',
                text@ == head + verbose_blocks(panic_calls@, width as nat, k as nat),
            decreases count - k,
        {
            text.append("--#");
            text.append(padded_text((k + 1) as u64, width, "0").as_str());
            text.append(" ");
            text.append(verbose_block_text(&panic_calls.calls[k]).as_str());
            text.append("\n");
            k += 1;
        }
        Ok(text)
    }
}

impl OutputStream for JsonConsoleOutputStream {
    open spec fn rendered(&self, calls: Seq<PanicCallView>) -> Option<Seq<char>> {
        json_text(calls, calls.len())
    }

    fn print_output(&self, panic_calls: &PanicCallsCollection) -> (out: Result<String, OutputError>) {
        let mut text = String::new();
        let mut k: usize = 0;
        while k < panic_calls.calls.len()
            invariant
                k <= panic_calls.calls.len(),
                json_text(panic_calls@, k as nat) == Some(text@),
            decreases panic_calls.calls.len() - k,
        {
            let value = trace_value(k, &panic_calls.calls[k]);
            match json_pretty(&value) {
                Ok(document) => {
                    text.append("\n\n");
                    text.append(document.as_str());
                    text.append("\n\n");
                },
                Err(error) => {
                    proof {
                        lemma_json_text_fails(
                            panic_calls@,
                            (k + 1) as nat,
                            panic_calls@.len(),
                        );
                    }
                    return Err(OutputError::Json(json_error_text(&error)));
                },
            }
            k += 1;
        }
        Ok(text)
    }
}

/// The forms in which a report is made, in order.
pub struct OutputStreamsCollection {
    pub streams: Vec<Box<dyn OutputStream>>,
}

/// The report that the options ask for: none where they ask for silence,
/// else the JSON form where they ask for it, else the verbose form where
/// they ask for it, else the simple form.
pub open spec fn printed(options: OutputOptions, calls: Seq<PanicCallView>) -> Option<Seq<char>> {
    if options.silent {
        Some(Seq::empty())
    } else if options.json {
        json_text(calls, calls.len())
    } else if options.verbose {
        Some(verbose_text(calls))
    } else {
        Some(simple_text(calls, calls.len()))
    }
}

/// The forms that the options ask for: none for silence, else one.
pub fn get_output_streams(options: &OutputOptions) -> (collection: Box<OutputStreamsCollection>)
    ensures
        options.silent ==> collection.streams@.len() == 0,
        !options.silent ==> collection.streams@.len() == 1 && forall|calls: Seq<PanicCallView>|
            #[trigger] collection.streams@[0].rendered(calls) == printed(*options, calls),
{
    if options.silent {
        let streams: Vec<Box<dyn OutputStream>> = vec![];
        return Box::new(OutputStreamsCollection { streams });
    }
    let streams: Vec<Box<dyn OutputStream>> = if options.json {
        vec![Box::new(JsonConsoleOutputStream {})]
    } else if options.verbose {
        vec![Box::new(VerboseConsoleOutputStream {})]
    } else {
        vec![Box::new(SimpleConsoleOutputStream {})]
    };
    Box::new(OutputStreamsCollection { streams })
}

/// The reports of the first `n` of `streams`, one behind the other; `None`
/// where one of them cannot be made.
pub open spec fn streamed(
    streams: Seq<Box<dyn OutputStream>>,
    calls: Seq<PanicCallView>,
    n: nat,
) -> Option<Seq<char>>
    decreases n,
{
    if n == 0 {
        Some(Seq::empty())
    } else {
        match (streamed(streams, calls, (n - 1) as nat), streams[n - 1].rendered(calls)) {
            (Some(head), Some(report)) => Some(head + report),
            _ => None,
        }
    }
}

/// Once the reports of some streams fail, those of more streams fail too.
proof fn lemma_streamed_fails(
    streams: Seq<Box<dyn OutputStream>>,
    calls: Seq<PanicCallView>,
    k: nat,
    n: nat,
)
    requires
        k <= n,
        streamed(streams, calls, k) is None,
    ensures
        streamed(streams, calls, n) is None,
    decreases n,
{
    if k < n {
        lemma_streamed_fails(streams, calls, k, (n - 1) as nat);
    }
}

impl OutputStreamsCollection {
    /// Makes the reports of all streams, one behind the other.
    pub fn print_output(&self, panic_calls: &PanicCallsCollection) -> (out: Result<
        String,
        OutputError,
    >)
        ensures
            match out {
                Ok(text) => streamed(self.streams@, panic_calls@, self.streams@.len()) == Some(
                    text@,
                ),
                Err(_) => streamed(self.streams@, panic_calls@, self.streams@.len()) is None,
            },
    {
        let mut text = String::new();
        let mut k: usize = 0;
        while k < self.streams.len()
            invariant
                k <= self.streams.len(),
                streamed(self.streams@, panic_calls@, k as nat) == Some(text@),
            decreases self.streams.len() - k,
        {
            match self.streams[k].print_output(panic_calls) {
                Ok(report) => {
                    text.append(report.as_str());
                },
                Err(error) => {
                    proof {
                        lemma_streamed_fails(
                            self.streams@,
                            panic_calls@,
                            (k + 1) as nat,
                            self.streams@.len(),
                        );
                    }
                    return Err(error);
                },
            }
            k += 1;
        }
        Ok(text)
    }
}

/// Makes the report of `results` in the form that `options` asks for. The
/// caller writes the text to the standard output.
pub fn print_results(options: &OutputOptions, results: &PanicCallsCollection) -> (out: Result<
    String,
    OutputError,
>)
    ensures
        match out {
            Ok(text) => printed(*options, results@) == Some(text@),
            Err(_) => printed(*options, results@) is None,
        },
{
    let output_streams = get_output_streams(options);
    let out = output_streams.print_output(results);
    proof {
        let streams = output_streams.streams@;
        if !options.silent {
            assert(streamed(streams, results@, 0) == Some(Seq::<char>::empty()));
            match streams[0].rendered(results@) {
                Some(report) => {
                    assert(Seq::<char>::empty() + report =~= report);
                },
                None => {},
            }
        }
    }
    out
}

} // verus!
