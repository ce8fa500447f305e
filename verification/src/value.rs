//! The structured value attached to one event attribute.
//!
//! Every supported attribute kind has a total, panic-free representation
//! here: numbers keep their exact payload (a float travels as its IEEE-754
//! bit pattern, so the whole pipeline stays free of float arithmetic),
//! strings are kept verbatim, and complex values arrive already
//! debug-formatted as an opaque text.

use vstd::prelude::*;

verus! {

/// Mathematical model of a [`FieldValue`].
pub enum ValueView {
    /// A 64-bit float, carried as its IEEE-754 bit pattern.
    Float(u64),
    /// A signed 64-bit integer.
    Int(i64),
    /// An unsigned 64-bit integer.
    UInt(u64),
    /// A boolean.
    Bool(bool),
    /// A string supplied directly by the instrumentation framework.
    Str(Seq<char>),
    /// The debug-formatted fallback text of a complex value.
    Debug(Seq<char>),
}

/// One attribute value, as captured on the producer thread.
#[derive(Debug, Clone, PartialEq, Eq)]
pub enum FieldValue {
    /// A 64-bit float, carried as its IEEE-754 bit pattern.
    Float(u64),
    /// A signed 64-bit integer.
    Int(i64),
    /// An unsigned 64-bit integer.
    UInt(u64),
    /// A boolean.
    Bool(bool),
    /// A string supplied directly by the instrumentation framework.
    Str(String),
    /// The debug-formatted fallback text of a complex value.
    Debug(String),
}

impl View for FieldValue {
    type V = ValueView;

    open spec fn view(&self) -> ValueView {
        match self {
            FieldValue::Float(b) => ValueView::Float(*b),
            FieldValue::Int(i) => ValueView::Int(*i),
            FieldValue::UInt(u) => ValueView::UInt(*u),
            FieldValue::Bool(b) => ValueView::Bool(*b),
            FieldValue::Str(s) => ValueView::Str(s@),
            FieldValue::Debug(s) => ValueView::Debug(s@),
        }
    }
}

/// The JSON type a value serializes to.
pub enum JsonKind {
    Number,
    Boolean,
    Text,
}

/// The JSON type of each value kind: floats and integers become JSON
/// numbers, booleans become JSON booleans, direct strings and the
/// debug-formatted fallback both become JSON strings.
pub open spec fn json_kind_of(v: ValueView) -> JsonKind {
    match v {
        ValueView::Float(_) => JsonKind::Number,
        ValueView::Int(_) => JsonKind::Number,
        ValueView::UInt(_) => JsonKind::Number,
        ValueView::Bool(_) => JsonKind::Boolean,
        ValueView::Str(_) => JsonKind::Text,
        ValueView::Debug(_) => JsonKind::Text,
    }
}

/// Strips one pair of surrounding double quotes, as produced by default
/// debug formatting of a string; any other shape is returned unchanged.
pub open spec fn spec_strip_quotes(s: Seq<char>) -> Seq<char> {
    if s.len() >= 2 && s[0] == '"' && s[s.len() - 1] == '"' {
        s.subrange(1, s.len() - 1)
    } else {
        s
    }
}

/// The string a value contributes when it arrives under the reserved
/// message key: a direct string is taken as is, the debug-formatted
/// fallback has its surrounding quotes stripped, and the remaining kinds
/// contribute no message text.
pub open spec fn spec_message_of(v: ValueView) -> Option<Seq<char>> {
    match v {
        ValueView::Str(s) => Some(s),
        ValueView::Debug(s) => Some(spec_strip_quotes(s)),
        ValueView::Float(_) => None,
        ValueView::Int(_) => None,
        ValueView::UInt(_) => None,
        ValueView::Bool(_) => None,
    }
}

/// Strips one pair of surrounding double quotes from a string slice.
pub fn strip_quotes(s: &str) -> (r: String)
    ensures
        r@ == spec_strip_quotes(s@),
{
    let len = s.unicode_len();
    if len >= 2 && s.get_char(0) == '"' && s.get_char(len - 1) == '"' {
        s.substring_char(1, len - 1).to_owned()
    } else {
        s.to_owned()
    }
}

/// The message text a value contributes, per [`spec_message_of`].
pub fn message_of(value: &FieldValue) -> (r: Option<String>)
    ensures
        r.deep_view() == spec_message_of(value@),
{
    match value {
        FieldValue::Str(s) => Some(s.clone()),
        FieldValue::Debug(s) => Some(strip_quotes(s.as_str())),
        FieldValue::Float(_) => None,
        FieldValue::Int(_) => None,
        FieldValue::UInt(_) => None,
        FieldValue::Bool(_) => None,
    }
}

} // verus!
