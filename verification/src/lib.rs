//! Call graphs of compiled binaries, and the report of the panics that an
//! analysis finds in them.
//!
//! - `model`: the records of procedures, instructions and invocations.
//! - `topology`, `graph_view`, `callgraph`: the graph that holds the records,
//!   with its two address indices, and what holds of every such graph.
//! - `context`: what the loader of a binary hands over.
//! - `x86`: disassembly of x86-64 code into instruction records.
//! - `finders`, `builder`: the strategies that find invocations, and the
//!   builder that runs them over a binary.
//! - `laws`: what holds of every graph that the builder returns.
//! - `panic_calls`, `document`, `json`, `text`, `output`: the findings of an
//!   analysis and their report as text.
//! - `options`, `errors`: the options of a run, and the ways in which it
//!   fails.

pub mod model;
pub mod topology;
pub mod graph_view;
pub mod callgraph;
pub mod context;
pub mod x86;
pub mod finders;
pub mod builder;
pub mod laws;
pub mod panic_calls;
pub mod json;
pub mod text;
pub mod document;
pub mod output;
pub mod options;
pub mod errors;
