//! The JSON document of a trace: what the JSON output writes for each
//! finding.

use vstd::prelude::*;
use crate::json::documents_of;
use crate::json::json_array;
use crate::json::json_bool;
use crate::json::json_null;
use crate::json::json_number;
use crate::json::json_object;
use crate::json::json_of;
use crate::json::json_text;
use crate::json::members_insert;
use crate::json::members_new;
use crate::json::Json;
use crate::model::Crate;
use crate::model::CrateView;
use crate::model::FrameView;
use crate::model::InlineFunctionFrame;
use crate::model::Invocation;
use crate::model::InvocationType;
use crate::model::InvocationView;
use crate::model::Location;
use crate::model::LocationView;
use crate::model::Procedure;
use crate::model::ProcedureView;
use crate::panic_calls::BackTraceEntry;
use crate::panic_calls::BackTraceEntryView;
use crate::panic_calls::PanicCall;
use crate::panic_calls::PanicCallView;
use crate::panic_calls::PanicPattern;

verus! {

/// A text, or `null` where there is none.
pub open spec fn optional_text(text: Option<Seq<char>>) -> Json {
    match text {
        Some(t) => Json::Text(t),
        None => Json::Null,
    }
}

/// The name of a pattern in the JSON output.
pub open spec fn pattern_name(pattern: PanicPattern) -> Seq<char> {
    match pattern {
        PanicPattern::Unrecognized => "unrecognized"@,
        PanicPattern::DirectCall => "direct_call"@,
        PanicPattern::Unwrap => "unwrap"@,
        PanicPattern::Indexing => "indexing"@,
        PanicPattern::Arithmetic => "arithmetic"@,
    }
}

/// The name of an invocation type in the JSON output.
pub open spec fn mechanism_name(invocation_type: InvocationType) -> Seq<char> {
    match invocation_type {
        InvocationType::Direct => "direct"@,
        InvocationType::ProcedureReference => "procedure"@,
        InvocationType::VTable => "vtable"@,
        InvocationType::Jump => "jump"@,
    }
}

/// `{"name": .., "version": ..}`, the version `null` where it is unknown.
pub open spec fn crate_document(c: CrateView) -> Json {
    Json::Object(
        Map::empty().insert("name"@, Json::Text(c.name)).insert("version"@, optional_text(c.version)),
    )
}

/// `{"file": .., "line": ..}`.
pub open spec fn location_document(l: LocationView) -> Json {
    Json::Object(
        Map::empty().insert("file"@, Json::Text(l.file)).insert("line"@, Json::Number(l.line as int)),
    )
}

/// A location's document, or `null` where there is none.
pub open spec fn optional_location(l: Option<LocationView>) -> Json {
    match l {
        Some(l) => location_document(l),
        None => Json::Null,
    }
}

/// The document of the inlined frame number `index`.
pub open spec fn frame_document(index: int, f: FrameView) -> Json {
    Json::Object(
        Map::empty().insert("index"@, Json::Number(index)).insert(
            "function"@,
            Json::Text(f.function_name),
        ).insert("location"@, location_document(f.location)).insert(
            "crate"@,
            crate_document(f.defining_crate),
        ),
    )
}

/// The documents of a list of frames, each with its number.
pub open spec fn frame_documents(frames: Seq<FrameView>) -> Seq<Json> {
    Seq::new(frames.len(), |i: int| frame_document(i, frames[i]))
}

/// The document of an invocation.
pub open spec fn invocation_document(i: InvocationView) -> Json {
    Json::Object(
        Map::empty().insert("type"@, Json::Text(mechanism_name(i.invocation_type))).insert(
            "is_whitelisted"@,
            Json::Bool(i.attributes.whitelisted),
        ).insert("frames"@, Json::Array(frame_documents(i.frames))),
    )
}

/// An invocation's document, or `null` where there is none.
pub open spec fn optional_invocation(i: Option<InvocationView>) -> Json {
    match i {
        Some(i) => invocation_document(i),
        None => Json::Null,
    }
}

/// The document of a procedure.
pub open spec fn procedure_document(p: ProcedureView) -> Json {
    Json::Object(
        Map::empty().insert("name"@, Json::Text(p.name)).insert(
            "linkage_name"@,
            Json::Text(p.linkage_name),
        ).insert("linkage_name_demangled"@, Json::Text(p.linkage_name_demangled)).insert(
            "crate"@,
            crate_document(p.defining_crate),
        ).insert("location"@, optional_location(p.location)).insert(
            "is_entry"@,
            Json::Bool(p.attributes.entry_point),
        ).insert("is_reachable"@, Json::Bool(p.attributes.reachable_from_entry_point)).insert(
            "is_panic"@,
            Json::Bool(p.attributes.is_panic),
        ).insert("is_panic_origin"@, Json::Bool(p.attributes.is_panic_origin)).insert(
            "is_whitelisted"@,
            Json::Bool(p.attributes.whitelisted),
        ),
    )
}

/// The document of step number `index` of a trace.
pub open spec fn entry_document(index: int, e: BackTraceEntryView) -> Json {
    Json::Object(
        Map::empty().insert("index"@, Json::Number(index)).insert(
            "procedure"@,
            procedure_document(e.procedure),
        ).insert("invocation"@, optional_invocation(e.outgoing_invocation)),
    )
}

/// The documents of the steps of a trace, each with its number.
pub open spec fn entry_documents(entries: Seq<BackTraceEntryView>) -> Seq<Json> {
    Seq::new(entries.len(), |i: int| entry_document(i, entries[i]))
}

/// The document of trace number `index`.
pub open spec fn trace_document(index: int, t: PanicCallView) -> Json {
    Json::Object(
        Map::empty().insert("index"@, Json::Number(index)).insert(
            "pattern"@,
            Json::Text(pattern_name(t.pattern)),
        ).insert("message"@, optional_text(t.message)).insert(
            "dynamic_invocation"@,
            Json::Bool(t.contains_dynamic_invocation),
        ).insert("backtrace"@, Json::Array(entry_documents(t.backtrace))),
    )
}

fn optional_text_value(text: &Option<String>) -> (value: serde_json::Value)
    ensures
        json_of(value) == optional_text(
            match *text {
                Some(t) => Some(t@),
                None => None,
            },
        ),
{
    match text {
        Some(t) => json_text(t.as_str()),
        None => json_null(),
    }
}

fn crate_value(c: &Crate) -> (value: serde_json::Value)
    ensures
        json_of(value) == crate_document(c@),
{
    let mut members = members_new();
    members_insert(&mut members, "name", json_text(c.name.as_str()));
    members_insert(&mut members, "version", optional_text_value(&c.version));
    json_object(members)
}

fn location_value(l: &Location) -> (value: serde_json::Value)
    ensures
        json_of(value) == location_document(l@),
{
    let mut members = members_new();
    members_insert(&mut members, "file", json_text(l.file.as_str()));
    members_insert(&mut members, "line", json_number(l.line));
    json_object(members)
}

fn frame_value<F>(index: usize, f: &InlineFunctionFrame<F>) -> (value: serde_json::Value)
    ensures
        json_of(value) == frame_document(index as int, f@),
{
    let mut members = members_new();
    members_insert(&mut members, "index", json_number(index as u64));
    members_insert(&mut members, "function", json_text(f.function_name.as_str()));
    members_insert(&mut members, "location", location_value(&f.location));
    members_insert(&mut members, "crate", crate_value(&f.defining_crate));
    json_object(members)
}

fn mechanism_text(invocation_type: InvocationType) -> (text: &'static str)
    ensures
        text@ == mechanism_name(invocation_type),
{
    match invocation_type {
        InvocationType::Direct => "direct",
        InvocationType::ProcedureReference => "procedure",
        InvocationType::VTable => "vtable",
        InvocationType::Jump => "jump",
    }
}

fn pattern_text(pattern: PanicPattern) -> (text: &'static str)
    ensures
        text@ == pattern_name(pattern),
{
    match pattern {
        PanicPattern::Unrecognized => "unrecognized",
        PanicPattern::DirectCall => "direct_call",
        PanicPattern::Unwrap => "unwrap",
        PanicPattern::Indexing => "indexing",
        PanicPattern::Arithmetic => "arithmetic",
    }
}

fn invocation_value<I, F>(i: &Invocation<I, F>) -> (value: serde_json::Value)
    ensures
        json_of(value) == invocation_document(i@),
{
    let mut frames: Vec<serde_json::Value> = Vec::new();
    let mut k: usize = 0;
    while k < i.frames.len()
        invariant
            k <= i.frames.len(),
            documents_of(frames@) == frame_documents(i@.frames.take(k as int)),
        decreases i.frames.len() - k,
    {
        let ghost before = frames@;
        let value = frame_value(k, &i.frames[k]);
        frames.push(value);
        assert(documents_of(frames@) =~= documents_of(before).push(json_of(value)));
        k += 1;
    }
    assert(i@.frames.take(k as int) =~= i@.frames);
    let mut members = members_new();
    members_insert(&mut members, "type", json_text(mechanism_text(i.invocation_type)));
    members_insert(&mut members, "is_whitelisted", json_bool(i.attributes.whitelisted));
    members_insert(&mut members, "frames", json_array(frames));
    json_object(members)
}

fn procedure_value<P>(p: &Procedure<P>) -> (value: serde_json::Value)
    ensures
        json_of(value) == procedure_document(p@),
{
    let location = match &p.location {
        Some(l) => location_value(l),
        None => json_null(),
    };
    let mut members = members_new();
    members_insert(&mut members, "name", json_text(p.name.as_str()));
    members_insert(&mut members, "linkage_name", json_text(p.linkage_name.as_str()));
    members_insert(
        &mut members,
        "linkage_name_demangled",
        json_text(p.linkage_name_demangled.as_str()),
    );
    members_insert(&mut members, "crate", crate_value(&p.defining_crate));
    members_insert(&mut members, "location", location);
    members_insert(&mut members, "is_entry", json_bool(p.attributes.entry_point));
    members_insert(
        &mut members,
        "is_reachable",
        json_bool(p.attributes.reachable_from_entry_point),
    );
    members_insert(&mut members, "is_panic", json_bool(p.attributes.is_panic));
    members_insert(&mut members, "is_panic_origin", json_bool(p.attributes.is_panic_origin));
    members_insert(&mut members, "is_whitelisted", json_bool(p.attributes.whitelisted));
    json_object(members)
}

fn entry_value(index: usize, e: &BackTraceEntry) -> (value: serde_json::Value)
    ensures
        json_of(value) == entry_document(index as int, e@),
{
    let invocation = match &e.outgoing_invocation {
        Some(i) => invocation_value(i),
        None => json_null(),
    };
    let mut members = members_new();
    members_insert(&mut members, "index", json_number(index as u64));
    members_insert(&mut members, "procedure", procedure_value(&e.procedure));
    members_insert(&mut members, "invocation", invocation);
    json_object(members)
}

/// The JSON value of trace number `index`.
pub fn trace_value(index: usize, t: &PanicCall) -> (value: serde_json::Value)
    ensures
        json_of(value) == trace_document(index as int, t@),
{
    let mut entries: Vec<serde_json::Value> = Vec::new();
    let mut k: usize = 0;
    while k < t.backtrace.len()
        invariant
            k <= t.backtrace.len(),
            documents_of(entries@) == entry_documents(t@.backtrace.take(k as int)),
        decreases t.backtrace.len() - k,
    {
        let ghost before = entries@;
        let value = entry_value(k, &t.backtrace[k]);
        entries.push(value);
        assert(documents_of(entries@) =~= documents_of(before).push(json_of(value)));
        k += 1;
    }
    assert(t@.backtrace.take(k as int) =~= t@.backtrace);
    let mut members = members_new();
    members_insert(&mut members, "index", json_number(index as u64));
    members_insert(&mut members, "pattern", json_text(pattern_text(t.pattern)));
    members_insert(&mut members, "message", optional_text_value(&t.message));
    members_insert(
        &mut members,
        "dynamic_invocation",
        json_bool(t.contains_dynamic_invocation),
    );
    members_insert(&mut members, "backtrace", json_array(entries));
    json_object(members)
}

} // verus!
