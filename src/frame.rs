//! Inbound frames: a text payload parsed as one JSON document, and the
//! layout of that document that routing reads.

use vstd::prelude::*;
use crate::key::names;

verus! {

#[verifier::external_type_specification]
#[verifier::external_body]
pub struct ExValue(serde_json::Value);

#[verifier::external_type_specification]
#[verifier::external_body]
pub struct ExJsonError(serde_json::Error);

/// What serde_json makes of a text: `None` when it is not one valid JSON
/// document; else whether the document is an array, and the top-level field
/// names of each element (of each array item, or of the document itself),
/// empty for an element that is not an object.
pub uninterp spec fn json_layout(text: Seq<char>) -> Option<(bool, Seq<Seq<Seq<char>>>)>;

/// The layout of a parsed document, as plain values.
pub enum Shape {
    /// The document is an array; one list of field names per item.
    Sequence(Vec<Vec<String>>),
    /// The document is not an array; the field names of its top level.
    Single(Vec<String>),
}

impl Shape {
    pub open spec fn is_sequence(&self) -> bool {
        self is Sequence
    }

    /// The field names of each element that routing visits, in order.
    pub open spec fn elements(&self) -> Seq<Seq<Seq<char>>> {
        match self {
            Shape::Sequence(items) => items@.map_values(|f: Vec<String>| names(f@)),
            Shape::Single(fields) => seq![names(fields@)],
        }
    }
}

/// A parsed inbound frame: the whole document, and its layout.
pub struct Frame {
    pub document: serde_json::Value,
    pub shape: Shape,
}

/// An inbound frame that is not valid JSON.
pub struct ParseError;

/// Relies on serde_json::from_str::<Value>: it fails exactly on text that
/// is not one JSON document, and the document it returns, read back as
/// array-or-not and field names, depends on the text alone.
#[verifier::external_body]
fn parse_json(text: &str) -> (r: Result<(serde_json::Value, Shape), serde_json::Error>)
    ensures
        r is Ok <==> json_layout(text@) is Some,
        r matches Ok((_, s)) ==> json_layout(text@) == Some((s.is_sequence(), s.elements())),
{
    let doc: serde_json::Value = serde_json::from_str(text)?;
    let fields = |v: &serde_json::Value| match v.as_object() {
        Some(m) => m.keys().cloned().collect(),
        None => Vec::new(),
    };
    let shape = match &doc {
        serde_json::Value::Array(items) => Shape::Sequence(items.iter().map(fields).collect()),
        other => Shape::Single(fields(other)),
    };
    Ok((doc, shape))
}

/// Parses an inbound text frame. Fails with `ParseError` exactly when the
/// text is not valid JSON.
pub fn parse_frame(text: &str) -> (r: Result<Frame, ParseError>)
    ensures
        r is Err <==> json_layout(text@) is None,
        r matches Ok(f) ==> json_layout(text@) == Some((f.shape.is_sequence(), f.shape.elements())),
{
    match parse_json(text) {
        Ok((document, shape)) => Ok(Frame { document, shape }),
        Err(_) => Err(ParseError),
    }
}

} // verus!
