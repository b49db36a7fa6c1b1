//! JSON documents as `serde_json` holds them, and what this library relies
//! on of the calls it makes on them.
//!
//! A document is a JSON object. Nothing here looks inside one: the contracts
//! speak of what a document holds through two maps, `document_members` and
//! `document_texts`, and every statement made about them is an assumption
//! about `serde_json`, not something proved.

use vstd::prelude::*;

verus! {

/// `serde_json::Value`, carried but never inspected by verified code.
#[verifier::external_type_specification]
#[verifier::external_body]
pub struct ExJsonValue(serde_json::Value);

/// `serde_json::Map`, the object type of `serde_json`.
#[verifier::external_type_specification]
#[verifier::external_body]
#[verifier::reject_recursive_types(K)]
#[verifier::reject_recursive_types(V)]
pub struct ExJsonMap<K, V>(serde_json::Map<K, V>);

/// `serde_json::Error`, what parsing and encoding fail with.
#[verifier::external_type_specification]
#[verifier::external_body]
pub struct ExJsonError(serde_json::Error);

/// A JSON object: member names with their values.
pub type Document = serde_json::Map<String, serde_json::Value>;

/// What a document holds: each member's name with the compact JSON text of
/// its value.
pub uninterp spec fn document_members(d: serde_json::Map<String, serde_json::Value>) -> Map<
    Seq<char>,
    Seq<char>,
>;

/// The members of a document whose value is a JSON string, each name with
/// the string itself (unquoted, unescaped).
pub uninterp spec fn document_texts(d: serde_json::Map<String, serde_json::Value>) -> Map<
    Seq<char>,
    Seq<char>,
>;

/// The compact JSON text of a string value: quoted and escaped as
/// `serde_json` writes it.
pub uninterp spec fn json_string(text: Seq<char>) -> Seq<char>;

/// What encoding the object with these members gives: its compact JSON
/// text in UTF-8, or `None` where the encoder gives no bytes.
pub uninterp spec fn object_json(members: Map<Seq<char>, Seq<char>>) -> Option<Seq<u8>>;

/// What the bytes hold when read as one JSON object: its members and its
/// string members, or `None` where the bytes are no such text.
pub uninterp spec fn parsed_object(bytes: Seq<u8>) -> Option<
    (Map<Seq<char>, Seq<char>>, Map<Seq<char>, Seq<char>>),
>;

/// The map without entries.
pub open spec fn no_members() -> Map<Seq<char>, Seq<char>> {
    Map::empty()
}

/// The two maps a contract can see of a document.
pub struct DocumentView {
    pub members: Map<Seq<char>, Seq<char>>,
    pub texts: Map<Seq<char>, Seq<char>>,
}

/// A document as contracts see it.
pub open spec fn view_of(d: Document) -> DocumentView {
    DocumentView { members: document_members(d), texts: document_texts(d) }
}

/// The view of the document without members.
pub open spec fn empty_view() -> DocumentView {
    DocumentView { members: no_members(), texts: no_members() }
}

/// The view after member `key` is set to the string `text`.
pub open spec fn with_text(v: DocumentView, key: Seq<char>, text: Seq<char>) -> DocumentView {
    DocumentView {
        members: v.members.insert(key, json_string(text)),
        texts: v.texts.insert(key, text),
    }
}

/// The view after member `key` is taken out.
pub open spec fn without(v: DocumentView, key: Seq<char>) -> DocumentView {
    DocumentView { members: v.members.remove(key), texts: v.texts.remove(key) }
}

/// The string held by member `key`, where it holds one.
pub open spec fn text_at(v: DocumentView, key: Seq<char>) -> Option<Seq<char>> {
    if v.texts.contains_key(key) {
        Some(v.texts[key])
    } else {
        None
    }
}

/// Whether the document has no member.
pub open spec fn has_no_member(v: DocumentView) -> bool {
    v.members.dom() == Set::<Seq<char>>::empty()
}

/// Calls `serde_json::Map::new`. Assumed: the new map has no member.
#[verifier::external_body]
pub(crate) fn empty_document() -> (d: Document)
    ensures
        document_members(d) == no_members(),
        document_texts(d) == no_members(),
{
    serde_json::Map::new()
}

/// Calls `serde_json::Map::is_empty`. Assumed: true exactly when the map
/// has no member.
#[verifier::external_body]
pub(crate) fn is_empty(d: &Document) -> (empty: bool)
    ensures
        empty == (document_members(*d).dom() == Set::<Seq<char>>::empty()),
{
    d.is_empty()
}

/// Calls `serde_json::Map::get` and tells a `serde_json::Value::String`
/// from the other values. Assumed: the string of member `key` comes back
/// where that member exists and is a JSON string, `None` otherwise.
#[verifier::external_body]
pub(crate) fn text_member(d: &Document, key: &str) -> (text: Option<String>)
    ensures
        match text {
            Some(s) => document_texts(*d).contains_key(key@) && document_texts(*d)[key@] == s@,
            None => !document_texts(*d).contains_key(key@),
        },
{
    match d.get(key) {
        Some(serde_json::Value::String(s)) => Some(s.clone()),
        _ => None,
    }
}

/// Calls `serde_json::Map::insert` with a string value. Assumed: member `key`
/// then holds the string `text`, whatever it held before, and the other
/// members are as they were.
#[verifier::external_body]
pub(crate) fn set_text_member(d: &mut Document, key: &str, text: &str)
    ensures
        document_members(*final(d)) == document_members(*old(d)).insert(
            key@,
            json_string(text@),
        ),
        document_texts(*final(d)) == document_texts(*old(d)).insert(key@, text@),
{
    d.insert(key.to_string(), serde_json::Value::String(text.to_string()));
}

/// Calls `serde_json::Map::remove`. Assumed: member `key` is gone, if it was
/// there, and the other members are as they were.
#[verifier::external_body]
pub(crate) fn remove_member(d: &mut Document, key: &str)
    ensures
        document_members(*final(d)) == document_members(*old(d)).remove(key@),
        document_texts(*final(d)) == document_texts(*old(d)).remove(key@),
{
    d.remove(key);
}

/// `Clone::clone` of `serde_json::Map`. Assumed: the copy holds what the
/// map it was made from holds.
pub assume_specification[ <serde_json::Map<String, serde_json::Value> as Clone>::clone ](
    d: &serde_json::Map<String, serde_json::Value>,
) -> (copy: serde_json::Map<String, serde_json::Value>)
    ensures
        document_members(copy) == document_members(*d),
        document_texts(copy) == document_texts(*d),
;

/// Calls `serde_json::to_vec` on a map. Assumed: the outcome, bytes or
/// failure, is a function of the members of the map alone (the map keeps
/// its members ordered by name, so the order in which they were put in
/// leaves no trace). Nothing is assumed about when it succeeds.
#[verifier::external_body]
pub(crate) fn encode_document(d: &Document) -> (bytes: Result<Vec<u8>, serde_json::Error>)
    ensures
        match bytes {
            Ok(b) => object_json(document_members(*d)) == Some(b@),
            Err(_) => object_json(document_members(*d)).is_none(),
        },
{
    serde_json::to_vec(d)
}

/// Calls `serde_json::from_slice` for a map. Assumed: the outcome is a
/// function of the bytes alone; a document comes back exactly when the bytes
/// are the text of one JSON object, and it holds what that text says.
#[verifier::external_body]
pub(crate) fn parse_document(bytes: &[u8]) -> (parsed: Result<Document, serde_json::Error>)
    ensures
        match parsed {
            Ok(d) => parsed_object(bytes@) == Some((document_members(d), document_texts(d))),
            Err(_) => parsed_object(bytes@).is_none(),
        },
{
    serde_json::from_slice(bytes)
}

/// Calls `ToString::to_string` on a `serde_json::Error`: the message of the
/// error. Nothing is assumed about the text.
#[verifier::external_body]
pub(crate) fn error_text(e: &serde_json::Error) -> (text: String) {
    e.to_string()
}

} // verus!
