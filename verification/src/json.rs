//! Reading one member of a JSON reply from the daemon.
use vstd::prelude::*;

verus! {

/// What a JSON text holds under one key of its top-level object.
pub enum JsonMember {
    /// The text is not JSON.
    Unparseable,
    /// The text is JSON but has no such member (or is not an object).
    Absent,
    /// A string member.
    Text(String),
    /// A boolean member.
    Flag(bool),
    /// An array member: each item's text when it is a string.
    Items(Vec<Option<String>>),
    /// A member of another JSON type.
    Other,
}

pub enum JsonMemberView {
    Unparseable,
    Absent,
    Text(Seq<char>),
    Flag(bool),
    Items(Seq<Option<Seq<char>>>),
    Other,
}

/// The text of each array item that is a string.
pub open spec fn item_views(items: Seq<Option<String>>) -> Seq<Option<Seq<char>>> {
    items.map_values(|o: Option<String>| match o {
        Some(s) => Some(s@),
        None => None,
    })
}

impl View for JsonMember {
    type V = JsonMemberView;

    open spec fn view(&self) -> JsonMemberView {
        match self {
            JsonMember::Unparseable => JsonMemberView::Unparseable,
            JsonMember::Absent => JsonMemberView::Absent,
            JsonMember::Text(s) => JsonMemberView::Text(s@),
            JsonMember::Flag(b) => JsonMemberView::Flag(*b),
            JsonMember::Items(items) => JsonMemberView::Items(item_views(items@)),
            JsonMember::Other => JsonMemberView::Other,
        }
    }
}

/// The member under `key` of the JSON text `text`, as `serde_json` parses it.
pub uninterp spec fn json_member_of(text: Seq<char>, key: Seq<char>) -> JsonMemberView;

/// The member under `key` of the JSON text `text`, when the text parses, is
/// an object, and the member is a number that fits an unsigned 64-bit
/// integer.
pub uninterp spec fn json_u64_member_of(text: Seq<char>, key: Seq<char>) -> Option<u64>;

/// `serde_json::from_str::<serde_json::Value>` on `text`, then
/// `Value::get(key)` and `Value::as_u64` on the member. The contract names
/// what comes back (`json_u64_member_of`); it claims nothing about JSON
/// syntax.
#[verifier::external_body]
pub(crate) fn json_u64_member(text: &str, key: &str) -> (r: Option<u64>)
    ensures
        r == json_u64_member_of(text@, key@),
{
    serde_json::from_str::<serde_json::Value>(text).ok().and_then(|value| value.get(key).and_then(|m| m.as_u64()))
}

/// The string member under `key`, if there is one.
pub open spec fn text_member(text: Seq<char>, key: Seq<char>) -> Option<Seq<char>> {
    match json_member_of(text, key) {
        JsonMemberView::Text(s) => Some(s),
        _ => None,
    }
}

/// `serde_json::from_str::<serde_json::Value>` on `text`, then
/// `Value::get(key)` on the result. The contract names what comes back
/// (`json_member_of`), sorted by the JSON type of the member, an array as
/// the text of each item that is a string; it claims
/// nothing about JSON syntax.
#[verifier::external_body]
pub(crate) fn json_member(text: &str, key: &str) -> (r: JsonMember)
    ensures
        r@ == json_member_of(text@, key@),
{
    match serde_json::from_str::<serde_json::Value>(text) {
        Err(_) => JsonMember::Unparseable,
        Ok(value) => match value.get(key) {
            None => JsonMember::Absent,
            Some(serde_json::Value::String(s)) => JsonMember::Text(s.clone()),
            Some(serde_json::Value::Bool(b)) => JsonMember::Flag(*b),
            Some(serde_json::Value::Array(items)) => JsonMember::Items(
                items.iter().map(|item| item.as_str().map(String::from)).collect(),
            ),
            Some(_) => JsonMember::Other,
        },
    }
}

/// The string member under `key`, if there is one.
pub fn text_member_of(text: &str, key: &str) -> (r: Option<String>)
    ensures
        match r {
            Some(s) => text_member(text@, key@) == Some(s@),
            None => text_member(text@, key@).is_none(),
        },
{
    match json_member(text, key) {
        JsonMember::Text(s) => Some(s),
        _ => None,
    }
}

/// What a JSON text is at its top level.
pub enum JsonShape {
    /// Not JSON, with `serde_json`'s description of the error.
    Invalid(String),
    /// JSON, but not an object.
    NotObject,
    /// A JSON object.
    Object,
}

pub enum JsonShapeView {
    Invalid(Seq<char>),
    NotObject,
    Object,
}

impl View for JsonShape {
    type V = JsonShapeView;

    open spec fn view(&self) -> JsonShapeView {
        match self {
            JsonShape::Invalid(e) => JsonShapeView::Invalid(e@),
            JsonShape::NotObject => JsonShapeView::NotObject,
            JsonShape::Object => JsonShapeView::Object,
        }
    }
}

/// The top-level shape of `text` as `serde_json` parses it.
pub uninterp spec fn json_shape_of(text: Seq<char>) -> JsonShapeView;

/// `serde_json::from_str::<serde_json::Value>` on `text`: the error's
/// `Display` text when it fails, otherwise whether the value is an object.
/// The contract names what comes back (`json_shape_of`); it claims nothing
/// about JSON syntax.
#[verifier::external_body]
pub(crate) fn json_shape(text: &str) -> (r: JsonShape)
    ensures
        r@ == json_shape_of(text@),
{
    match serde_json::from_str::<serde_json::Value>(text) {
        Err(e) => JsonShape::Invalid(e.to_string()),
        Ok(serde_json::Value::Object(_)) => JsonShape::Object,
        Ok(_) => JsonShape::NotObject,
    }
}

} // verus!
