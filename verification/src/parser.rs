//! The dialect dispatcher: sniffs the header, looks the declared
//! dialect up in the registry, and hands the body to the matching
//! reducer.  Also the event-stream entry points.
use vstd::prelude::*;
use crate::error::{Error, SpecError};
use crate::header::{parse_header, sp_parse_header};
use crate::model::{Proto, SpecProto, Syntax};
use crate::proto3::{sp_proto3_parse_body, Proto3};
use crate::text::str_eq;
use crate::visitor::{events_of, sp_events, Node, ProtoVisitor};

verus! {

/// Whether a reducer is registered for the dialect name.
pub open spec fn sp_dialect_known(name: Seq<char>) -> bool {
    name == "proto3"@
}

/// The registry: maps a declared dialect name to its reducer.  It is
/// queried, never mutated, during parsing.
pub fn resolve_syntax(name: &str) -> (r: Option<Proto3>)
    ensures
        r is Some <==> sp_dialect_known(name@),
{
    if str_eq(name, "proto3") {
        Some(Proto3)
    } else {
        None
    }
}

/// What parsing a whole file through the dispatcher yields: the header
/// is sniffed, the declared dialect's reducer parses the body, and the
/// sniffed syntax declaration (with its comments) stands in the root.
pub open spec fn sp_parse(s: Seq<char>) -> Result<SpecProto, SpecError> {
    match sp_parse_header(s) {
        Err(e) => Err(e),
        Ok((syn, off)) => if !sp_dialect_known(syn.value) {
            Err(SpecError::UndefinedParser(syn.value))
        } else {
            match sp_proto3_parse_body(s.subrange(off, s.len() as int)) {
                Err(e) => Err(e),
                Ok(p) => Ok(SpecProto { syntax: syn, ..p }),
            }
        },
    }
}

/// Whether an executable outcome is the one the model prescribes for
/// the input.
pub open spec fn parse_matches(r: Result<Proto, Error>, s: Result<SpecProto, SpecError>) -> bool {
    match (r, s) {
        (Ok(p), Ok(sp)) => p@ == sp,
        (Err(e), Err(se)) => e@ == se,
        _ => false,
    }
}

/// Parses one file: header sniffing, dialect lookup, body reduction.
/// A file whose declared dialect has no registered reducer fails with
/// `UndefinedParser` naming that dialect.
pub fn parse(input: &str) -> (r: Result<Proto, Error>)
    ensures
        parse_matches(r, sp_parse(input@)),
        (sp_parse_header(input@) matches Ok((syn, off)) && !sp_dialect_known(syn.value)) ==> (
        r matches Err(e) && e@ == SpecError::UndefinedParser(
            sp_parse_header(input@)->Ok_0.0.value,
        )),
{
    match parse_header(input) {
        Err(e) => Err(e),
        Ok((syn, body)) => match resolve_syntax(syn.value()) {
            None => Err(Error::UndefinedParser(syn.value)),
            Some(dialect) => match dialect.parse_body(body) {
                Err(e) => Err(e),
                Ok(p) => {
                    let mut p = p;
                    p.syntax = syn;
                    Ok(p)
                },
            },
        },
    }
}

/// What parsing with a caller-supplied expected dialect yields: a
/// declared dialect that differs from the expected one is a mismatch
/// carrying both names, expected first.
pub open spec fn sp_parse_with_syntax(s: Seq<char>, expected: Seq<char>) -> Result<
    SpecProto,
    SpecError,
> {
    match sp_parse_header(s) {
        Err(e) => Err(e),
        Ok((syn, off)) => if syn.value != expected {
            Err(SpecError::InvalidSyntax(expected, syn.value))
        } else if !sp_dialect_known(syn.value) {
            Err(SpecError::UndefinedParser(syn.value))
        } else {
            match sp_proto3_parse_body(s.subrange(off, s.len() as int)) {
                Err(e) => Err(e),
                Ok(p) => Ok(SpecProto { syntax: syn, ..p }),
            }
        },
    }
}

/// Parses one file, first checking that its declared dialect is the
/// expected one.
pub fn parse_with_syntax(input: &str, expected: &Syntax) -> (r: Result<Proto, Error>)
    ensures
        parse_matches(r, sp_parse_with_syntax(input@, expected@.value)),
        (sp_parse_header(input@) matches Ok((syn, off)) && syn.value != expected@.value) ==> (
        r matches Err(e) && e@ == SpecError::InvalidSyntax(
            expected@.value,
            sp_parse_header(input@)->Ok_0.0.value,
        )),
{
    match parse_header(input) {
        Err(e) => Err(e),
        Ok((syn, body)) => if !str_eq(syn.value(), expected.value()) {
            Err(Error::InvalidSyntax(expected.value.clone(), syn.value))
        } else {
            match resolve_syntax(syn.value()) {
                None => Err(Error::UndefinedParser(syn.value)),
                Some(dialect) => match dialect.parse_body(body) {
                    Err(e) => Err(e),
                    Ok(p) => {
                        let mut p = p;
                        p.syntax = syn;
                        Ok(p)
                    },
                },
            }
        },
    }
}

/// Parsing is deterministic: two outcomes for the same input are
/// structurally identical, values and errors alike, including the
/// order of every sequence.
pub proof fn lemma_parse_deterministic(
    r1: Result<Proto, Error>,
    r2: Result<Proto, Error>,
    s: Seq<char>,
)
    requires
        parse_matches(r1, sp_parse(s)),
        parse_matches(r2, sp_parse(s)),
    ensures
        r1 is Ok <==> r2 is Ok,
        (r1 is Ok && r2 is Ok) ==> r1->Ok_0@ == r2->Ok_0@,
        (r1 is Err && r2 is Err) ==> r1->Err_0@ == r2->Err_0@,
{
}

/// Parses one file into its event stream: the same content as the
/// tree-returning mode, element for element, in the same order.
pub fn parse_events(input: &str) -> (r: Result<Vec<Node>, Error>)
    ensures
        match (r, sp_parse(input@)) {
            (Ok(evs), Ok(sp)) => evs.deep_view() == sp_events(sp),
            (Err(e), Err(se)) => e@ == se,
            _ => false,
        },
{
    match parse(input) {
        Err(e) => Err(e),
        Ok(p) => Ok(events_of(p)),
    }
}

/// Parses one file, handing each top-level node event to the sink in
/// source order, `Start` first and `End` last.
pub fn parse_visit<V: ProtoVisitor>(input: &str, visitor: &mut V) -> (r: Result<(), Error>)
    ensures
        r is Ok <==> sp_parse(input@) is Ok,
        (r is Err && sp_parse(input@) is Err) ==> r->Err_0@ == sp_parse(input@)->Err_0,
{
    match parse_events(input) {
        Err(e) => Err(e),
        Ok(evs) => {
            let mut evs = evs;
            while evs.len() > 0
                decreases evs@.len(),
            {
                let n = evs.remove(0);
                visitor.on(n);
            }
            Ok(())
        },
    }
}

} // verus!
