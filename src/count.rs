//! The count fetcher's decisions: how one upstream reply, whatever became of
//! it, turns into a count of items and, where something went wrong, a failure
//! worth reporting.

use vstd::prelude::*;

verus! {

/// serde_json::Value, carried through opaque: a decoded JSON document.
#[verifier::external_type_specification]
#[verifier::external_body]
pub struct ExValue(serde_json::Value);

/// serde_json::Error, carried through opaque: why a body did not decode.
#[verifier::external_type_specification]
#[verifier::external_body]
pub struct ExJsonError(serde_json::Error);

/// What a body decodes to, as far as counting reads it: no JSON document at
/// all, an array with some number of elements, or any other document.
pub enum Shape {
    Malformed,
    Array { len: nat },
    Other,
}

/// The shape of the JSON document that a body decodes to.
pub uninterp spec fn json_shape(body: Seq<u8>) -> Shape;

/// A decoded JSON document, told apart by whether its top level is an array.
pub enum Document {
    Array(Vec<serde_json::Value>),
    Other(serde_json::Value),
}

/// The shape of the outcome of decoding a body.
pub open spec fn shape_of(parsed: &Result<Document, serde_json::Error>) -> Shape {
    match parsed {
        Ok(Document::Array(items)) => Shape::Array { len: items@.len() },
        Ok(Document::Other(_)) => Shape::Other,
        Err(_) => Shape::Malformed,
    }
}

/// Relies on serde_json::from_slice, decoding into serde_json::Value: it
/// yields one JSON document or an error, and which, and the document's
/// top-level shape, depend on the bytes alone.
#[verifier::external_body]
fn decode(body: &[u8]) -> (r: Result<Document, serde_json::Error>)
    ensures
        shape_of(&r) == json_shape(body@),
{
    match serde_json::from_slice::<serde_json::Value>(body) {
        Ok(serde_json::Value::Array(items)) => Ok(Document::Array(items)),
        Ok(other) => Ok(Document::Other(other)),
        Err(e) => Err(e),
    }
}

/// What became of one GET against an upstream collection endpoint.
pub enum Reply {
    /// The request failed in transport (refused, DNS, timeout); the text
    /// describes why.
    Unreachable(String),
    /// The service answered but its body could not be read in full.
    Unreadable(String),
    /// The service answered with this body.
    Body(Vec<u8>),
}

/// A failure that is reported to the operator; the text describes it.
#[derive(Clone, Debug)]
pub enum Failure {
    Transport(String),
    Decode(String),
}

/// The count taken from one reply, and the failure to report, if any.
#[derive(Clone, Debug)]
pub struct Tally {
    pub count: usize,
    pub failure: Option<Failure>,
}

/// The number of items a decoded document holds: the length of a top-level
/// array, and zero for anything else.
pub open spec fn shape_count(s: Shape) -> nat {
    match s {
        Shape::Array { len } => len,
        _ => 0,
    }
}

/// The count that a reply yields.
pub open spec fn reply_count(r: Reply) -> nat {
    match r {
        Reply::Body(body) => shape_count(json_shape(body@)),
        _ => 0,
    }
}

/// Whether a reply yields a failure to report: a transport failure, or a
/// body that could not be read or decoded. A document that decodes but is
/// not an array is not reported.
pub open spec fn reply_fails(r: Reply) -> bool {
    match r {
        Reply::Body(body) => json_shape(body@) is Malformed,
        _ => true,
    }
}

/// Counts the items of a decoded body. A decode error is reported; any
/// document that is not an array counts zero, silently.
pub fn count_document(parsed: Result<Document, serde_json::Error>) -> (t: Tally)
    ensures
        t.count == shape_count(shape_of(&parsed)),
        parsed is Err <==> t.failure matches Some(Failure::Decode(_)),
        parsed is Ok <==> t.failure is None,
{
    match parsed {
        Ok(Document::Array(items)) => Tally { count: items.len(), failure: None },
        Ok(Document::Other(_)) => Tally { count: 0, failure: None },
        Err(e) => Tally { count: 0, failure: Some(Failure::Decode(e.to_string())) },
    }
}

/// Turns what became of one upstream request into a count: the length of
/// the array the body holds, or zero on any failure. Failures are absorbed
/// here, never passed on; transport and decode failures come back to be
/// reported, the first with the text it came with.
pub fn count_reply(reply: Reply) -> (t: Tally)
    ensures
        t.count == reply_count(reply),
        reply_fails(reply) <==> t.failure is Some,
        reply matches Reply::Unreachable(m) ==> t.failure == Some(Failure::Transport(m)),
        reply matches Reply::Unreadable(m) ==> t.failure == Some(Failure::Decode(m)),
        reply is Body ==> (t.failure is None || t.failure matches Some(Failure::Decode(_))),
{
    match reply {
        Reply::Unreachable(m) => Tally { count: 0, failure: Some(Failure::Transport(m)) },
        Reply::Unreadable(m) => Tally { count: 0, failure: Some(Failure::Decode(m)) },
        Reply::Body(body) => count_document(decode(body.as_slice())),
    }
}

} // verus!
