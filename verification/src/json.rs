//! JSON documents as the node sends them: what a document holds at a
//! place, read through serde_json.

use vstd::prelude::*;
use vstd::string::*;
use serde_json::Value;

verus! {

/// A JSON document of serde_json.
#[verifier::external_type_specification]
#[verifier::external_body]
pub struct ExValue(serde_json::Value);

/// What stands at one place of a document, as far as the explorer reads
/// it.
#[derive(Debug, Clone, PartialEq, Eq)]
pub enum Leaf {
    /// The value `null`.
    Null,
    /// A whole number that fits in 64 bits without a sign.
    Number(u64),
    /// A string.
    Text(String),
    /// An array of so many items.
    List(usize),
    /// Any other number, in the text in which serde_json writes it.
    Decimal(String),
    /// Anything else: a boolean or an object.
    Other,
}

/// A `Leaf` as plain values.
pub enum LeafView {
    Null,
    Number(u64),
    Text(Seq<char>),
    List(usize),
    Decimal(Seq<char>),
    Other,
}

impl View for Leaf {
    type V = LeafView;

    open spec fn view(&self) -> LeafView {
        match self {
            Leaf::Null => LeafView::Null,
            Leaf::Number(n) => LeafView::Number(*n),
            Leaf::Text(s) => LeafView::Text(s@),
            Leaf::List(n) => LeafView::List(*n),
            Leaf::Decimal(s) => LeafView::Decimal(s@),
            Leaf::Other => LeafView::Other,
        }
    }
}

/// What a document holds: for every JSON Pointer that finds a value in
/// it, what stands there.
pub uninterp spec fn json_leaves(value: Value) -> Map<Seq<char>, LeafView>;

/// `serde_json::Value::pointer`, which looks a value up by a JSON
/// Pointer, with what it finds told apart by the variants of `Value`; a
/// number goes through `Number::as_u64`, and one that is no `u64` is
/// written out with `to_string`. A pointer that finds nothing gives
/// `None`.
#[verifier::external_body]
pub(crate) fn leaf_at(value: &Value, pointer: &str) -> (leaf: Option<Leaf>)
    ensures
        match leaf {
            Some(found) => json_leaves(*value).contains_key(pointer@) && json_leaves(
                *value,
            )[pointer@] == found@,
            None => !json_leaves(*value).contains_key(pointer@),
        },
{
    match value.pointer(pointer) {
        None => None,
        Some(Value::Null) => Some(Leaf::Null),
        Some(Value::Number(n)) => match n.as_u64() {
            Some(whole) => Some(Leaf::Number(whole)),
            None => Some(Leaf::Decimal(n.to_string())),
        },
        Some(Value::String(s)) => Some(Leaf::Text(s.clone())),
        Some(Value::Array(items)) => Some(Leaf::List(items.len())),
        Some(_) => Some(Leaf::Other),
    }
}

/// The text in which serde_json writes a document out with indentation.
pub uninterp spec fn json_pretty(value: Value) -> Seq<char>;

/// `serde_json::to_string_pretty` on a document, with an empty text where
/// it reports an error.
#[verifier::external_body]
pub(crate) fn pretty_text(value: &Value) -> (text: String)
    ensures
        text@ == json_pretty(*value),
{
    match serde_json::to_string_pretty(value) {
        Ok(text) => text,
        Err(_) => String::new(),
    }
}

/// What a document holds, by JSON Pointer.
pub type Doc = Map<Seq<char>, LeafView>;

/// The number at `pointer`; nothing where no number stands there.
pub open spec fn number_at(doc: Doc, pointer: Seq<char>) -> Option<u64> {
    if doc.contains_key(pointer) {
        match doc[pointer] {
            LeafView::Number(n) => Some(n),
            _ => None,
        }
    } else {
        None
    }
}

/// The string at `pointer`; nothing where no string stands there.
pub open spec fn text_at(doc: Doc, pointer: Seq<char>) -> Option<Seq<char>> {
    if doc.contains_key(pointer) {
        match doc[pointer] {
            LeafView::Text(s) => Some(s),
            _ => None,
        }
    } else {
        None
    }
}

/// The length of the array at `pointer`; nothing where no array stands
/// there.
pub open spec fn length_at(doc: Doc, pointer: Seq<char>) -> Option<usize> {
    if doc.contains_key(pointer) {
        match doc[pointer] {
            LeafView::List(n) => Some(n),
            _ => None,
        }
    } else {
        None
    }
}

/// Whether something other than `null` stands at `pointer`.
pub open spec fn present_at(doc: Doc, pointer: Seq<char>) -> bool {
    doc.contains_key(pointer) && doc[pointer] != LeafView::Null
}

/// Reads the number at `pointer`.
pub fn read_number(value: &Value, pointer: &str) -> (number: Option<u64>)
    ensures
        number == number_at(json_leaves(*value), pointer@),
{
    match leaf_at(value, pointer) {
        Some(Leaf::Number(n)) => Some(n),
        _ => None,
    }
}

/// Reads the string at `pointer`.
pub fn read_text(value: &Value, pointer: &str) -> (text: Option<String>)
    ensures
        crate::data::text_of(text) == text_at(json_leaves(*value), pointer@),
{
    match leaf_at(value, pointer) {
        Some(Leaf::Text(s)) => Some(s),
        _ => None,
    }
}

/// Reads the length of the array at `pointer`.
pub fn read_length(value: &Value, pointer: &str) -> (length: Option<usize>)
    ensures
        length == length_at(json_leaves(*value), pointer@),
{
    match leaf_at(value, pointer) {
        Some(Leaf::List(n)) => Some(n),
        _ => None,
    }
}

/// Tells whether something other than `null` stands at `pointer`.
pub fn is_present(value: &Value, pointer: &str) -> (present: bool)
    ensures
        present == present_at(json_leaves(*value), pointer@),
{
    match leaf_at(value, pointer) {
        Some(Leaf::Null) => false,
        Some(_) => true,
        None => false,
    }
}

/// Tells whether `pointer` finds anything at all, `null` included.
pub fn is_there(value: &Value, pointer: &str) -> (there: bool)
    ensures
        there == json_leaves(*value).contains_key(pointer@),
{
    match leaf_at(value, pointer) {
        Some(_) => true,
        None => false,
    }
}

} // verus!
