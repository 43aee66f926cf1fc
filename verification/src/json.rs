//! Reading JSON text, as far as the rest of the library needs it: whether a
//! text parses, and what one member of a top-level object holds.

use vstd::prelude::*;

verus! {

/// What a member of a JSON object holds, reduced to the cases that matter here.
#[derive(Debug)]
pub enum JsonItem {
    /// The text is no JSON object, or the object has no such member.
    Missing,
    /// The member is `null`.
    Null,
    /// The member is a string.
    Text(String),
    /// The member is an integer that fits in 64 unsigned bits.
    Number(u64),
    /// The member is anything else: a boolean, a negative or fractional number,
    /// an array, an object.
    Other,
}

/// `JsonItem` over character sequences.
pub enum JsonItemView {
    Missing,
    Null,
    Text(Seq<char>),
    Number(u64),
    Other,
}

impl View for JsonItem {
    type V = JsonItemView;

    open spec fn view(&self) -> JsonItemView {
        match self {
            JsonItem::Missing => JsonItemView::Missing,
            JsonItem::Null => JsonItemView::Null,
            JsonItem::Text(s) => JsonItemView::Text(s@),
            JsonItem::Number(n) => JsonItemView::Number(*n),
            JsonItem::Other => JsonItemView::Other,
        }
    }
}

/// What is written as a member of a JSON object: `null`, a string, or an
/// integer that fits in 64 unsigned bits.
#[derive(Debug)]
pub enum JsonScalar {
    Null,
    Text(String),
    Number(u64),
}

/// `JsonScalar` over character sequences.
pub enum JsonScalarView {
    Null,
    Text(Seq<char>),
    Number(u64),
}

impl View for JsonScalar {
    type V = JsonScalarView;

    open spec fn view(&self) -> JsonScalarView {
        match self {
            JsonScalar::Null => JsonScalarView::Null,
            JsonScalar::Text(s) => JsonScalarView::Text(s@),
            JsonScalar::Number(n) => JsonScalarView::Number(*n),
        }
    }
}

/// What a written member reads as.
pub open spec fn as_item(written: JsonScalarView) -> JsonItemView {
    match written {
        JsonScalarView::Null => JsonItemView::Null,
        JsonScalarView::Text(s) => JsonItemView::Text(s),
        JsonScalarView::Number(n) => JsonItemView::Number(n),
    }
}

/// The members of an object, as pairs of name and value, over character
/// sequences.
pub open spec fn members_view(members: Seq<(String, JsonScalar)>) -> Seq<(Seq<char>, JsonScalarView)> {
    members.map_values(|member: (String, JsonScalar)| (member.0@, member.1@))
}

/// What a list of written members holds under a name: the value of the first
/// member so named, as it reads, and `Missing` where none is so named.
pub open spec fn member_named(members: Seq<(Seq<char>, JsonScalarView)>, name: Seq<char>) -> JsonItemView
    decreases members.len(),
{
    if members.len() == 0 {
        JsonItemView::Missing
    } else if members[0].0 == name {
        as_item(members[0].1)
    } else {
        member_named(members.drop_first(), name)
    }
}

/// Whether `serde_json` parses the text as one JSON value.
pub uninterp spec fn json_is_valid(text: Seq<char>) -> bool;

/// What `serde_json` finds under `key` at the top level of the text.
pub uninterp spec fn json_member_of(text: Seq<char>, key: Seq<char>) -> JsonItemView;

/// `serde_json::from_str::<Value>`, reduced to whether it succeeds.
#[verifier::external_body]
pub(crate) fn json_parses(text: &str) -> (valid: bool)
    ensures
        valid == json_is_valid(text@),
{
    serde_json::from_str::<serde_json::Value>(text).is_ok()
}

/// `serde_json::from_str::<Value>` followed by `Value::get`: the member of the
/// top-level object under `key`, told apart by its JSON type.
#[verifier::external_body]
pub(crate) fn json_member(text: &str, key: &str) -> (item: JsonItem)
    ensures
        item@ == json_member_of(text@, key@),
{
    let parsed = serde_json::from_str::<serde_json::Value>(text).ok();
    match parsed.as_ref().and_then(|value| value.get(key)) {
        None => JsonItem::Missing,
        Some(serde_json::Value::Null) => JsonItem::Null,
        Some(serde_json::Value::String(s)) => JsonItem::Text(s.clone()),
        Some(serde_json::Value::Number(n)) => n.as_u64().map_or(JsonItem::Other, JsonItem::Number),
        Some(_) => JsonItem::Other,
    }
}

} // verus!
