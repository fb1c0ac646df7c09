//! Reading JSON text through the `serde_json` crate.
//!
//! A parsed text is identified by the text itself, a value inside it by that
//! text and the path of steps that reached it: each step is a member of an
//! object, by its key, or an element of an array, by its position.

use vstd::prelude::*;

verus! {

#[verifier::external_type_specification]
#[verifier::external_body]
pub struct ExJsonValue(serde_json::Value);

/// One step into a JSON value.
pub enum JsonStep {
    /// The member of an object with this key.
    Member(Seq<char>),
    /// The element of an array at this position.
    Element(nat),
}

/// What identifies a value inside a JSON text: the text and the path of
/// steps from the whole value. The empty path stands for the whole value.
pub struct JsonId {
    pub source: Seq<char>,
    pub path: Seq<JsonStep>,
}

/// Whether `serde_json::from_str` reads `text` as a JSON value.
pub uninterp spec fn json_parses(text: Seq<char>) -> bool;

/// Whether `Value::get` finds `step` in the value reached by `path` in the
/// JSON text `source`: a member with the key where that value is an object,
/// an element at the position where it is an array.
pub uninterp spec fn json_has(source: Seq<char>, path: Seq<JsonStep>, step: JsonStep) -> bool;

/// The string that the value reached by `path` in the JSON text `source`
/// is, where it is a string (`Value::as_str`).
pub uninterp spec fn json_string(source: Seq<char>, path: Seq<JsonStep>) -> Option<Seq<char>>;

/// The whole value of the JSON text `text`.
pub open spec fn json_root(text: Seq<char>) -> JsonId {
    JsonId { source: text, path: Seq::empty() }
}

/// What identifies the value one `step` below `v`.
pub open spec fn json_child(v: JsonId, step: JsonStep) -> JsonId {
    JsonId { source: v.source, path: v.path.push(step) }
}

/// The value one `step` below `v`, where there is one.
pub open spec fn json_step(v: JsonId, step: JsonStep) -> Option<JsonId> {
    if json_has(v.source, v.path, step) {
        Some(json_child(v, step))
    } else {
        None
    }
}

/// The string that `v` is, where it is one.
pub open spec fn string_of(v: JsonId) -> Option<Seq<char>> {
    json_string(v.source, v.path)
}

/// A parsed JSON text.
pub struct JsonDocument {
    value: serde_json::Value,
    source: Ghost<Seq<char>>,
}

impl View for JsonDocument {
    type V = Seq<char>;

    closed spec fn view(&self) -> Seq<char> {
        self.source@
    }
}

/// A value inside a parsed JSON text.
pub struct JsonRef<'a> {
    value: &'a serde_json::Value,
    source: Ghost<Seq<char>>,
    path: Ghost<Seq<JsonStep>>,
}

impl<'a> View for JsonRef<'a> {
    type V = JsonId;

    closed spec fn view(&self) -> JsonId {
        JsonId { source: self.source@, path: self.path@ }
    }
}

/// Parses `text` as JSON (`serde_json::from_str` into a `serde_json::Value`).
/// Claimed: it succeeds exactly where `json_parses` holds of `text`, and the
/// result is the value of `text`.
#[verifier::external_body]
fn parse_json(text: &str) -> (res: Option<JsonDocument>)
    ensures
        res is Some <==> json_parses(text@),
        res matches Some(d) ==> d@ == text@,
{
    serde_json::from_str::<serde_json::Value>(text).ok().map(
        |value| JsonDocument { value, source: Ghost(text@) },
    )
}

/// The member `key` of `v` (`serde_json::Value::get` with a key).
/// Claimed: it is there exactly where `json_has` holds of `v` and the member
/// step, and it is identified by `v`'s path extended by that step.
#[verifier::external_body]
fn value_member<'a>(v: &JsonRef<'a>, key: &str) -> (res: Option<JsonRef<'a>>)
    ensures
        res is Some <==> json_has(v@.source, v@.path, JsonStep::Member(key@)),
        res matches Some(r) ==> r@ == json_child(v@, JsonStep::Member(key@)),
{
    v.value.get(key).map(
        |value|
            JsonRef {
                value,
                source: Ghost(v@.source),
                path: Ghost(v@.path.push(JsonStep::Member(key@))),
            },
    )
}

/// The element at `index` of `v` (`serde_json::Value::get` with a position).
/// Claimed: it is there exactly where `json_has` holds of `v` and the element
/// step, and it is identified by `v`'s path extended by that step.
#[verifier::external_body]
fn value_element<'a>(v: &JsonRef<'a>, index: usize) -> (res: Option<JsonRef<'a>>)
    ensures
        res is Some <==> json_has(v@.source, v@.path, JsonStep::Element(index as nat)),
        res matches Some(r) ==> r@ == json_child(v@, JsonStep::Element(index as nat)),
{
    v.value.get(index).map(
        |value|
            JsonRef {
                value,
                source: Ghost(v@.source),
                path: Ghost(v@.path.push(JsonStep::Element(index as nat))),
            },
    )
}

/// The string that `v` is (`serde_json::Value::as_str`).
/// Claimed: it is `json_string` of `v`.
#[verifier::external_body]
fn value_str(v: &JsonRef) -> (res: Option<String>)
    ensures
        res matches Some(s) ==> json_string(v@.source, v@.path) == Some(s@),
        res is None ==> json_string(v@.source, v@.path) is None,
{
    v.value.as_str().map(|s| s.to_string())
}

impl JsonDocument {
    /// Parses `text` as JSON; `None` where it is not JSON.
    pub fn parse(text: &str) -> (res: Option<JsonDocument>)
        ensures
            res is Some <==> json_parses(text@),
            res matches Some(d) ==> d@ == text@,
    {
        parse_json(text)
    }

    /// The whole value of the text.
    pub fn root(&self) -> (res: JsonRef<'_>)
        ensures
            res@ == json_root(self@),
    {
        JsonRef { value: &self.value, source: Ghost(self.source@), path: Ghost(Seq::empty()) }
    }
}

impl<'a> JsonRef<'a> {
    /// The member `key` of this value, where it is an object that has one.
    pub fn member(&self, key: &str) -> (res: Option<JsonRef<'a>>)
        ensures
            res matches Some(r) ==> json_step(self@, JsonStep::Member(key@)) == Some(r@),
            res is None ==> json_step(self@, JsonStep::Member(key@)) is None,
    {
        value_member(self, key)
    }

    /// The element at `index` of this value, where it is an array that long.
    pub fn element(&self, index: usize) -> (res: Option<JsonRef<'a>>)
        ensures
            res matches Some(r) ==> json_step(self@, JsonStep::Element(index as nat)) == Some(r@),
            res is None ==> json_step(self@, JsonStep::Element(index as nat)) is None,
    {
        value_element(self, index)
    }

    /// The string that this value is, where it is one.
    pub fn as_str(&self) -> (res: Option<String>)
        ensures
            res matches Some(s) ==> string_of(self@) == Some(s@),
            res is None ==> string_of(self@) is None,
    {
        value_str(self)
    }
}

} // verus!
