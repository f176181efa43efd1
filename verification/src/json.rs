//! Members of JSON documents, read with `serde_json`.

use crate::text::same_text;
use vstd::prelude::*;

verus! {

/// The characters of an optional text.
pub open spec fn text_in(value: Option<String>) -> Option<Seq<char>> {
    match value {
        Some(text) => Some(text@),
        None => None,
    }
}

/// The keys of the object in `document`, in the order of its map, each with the
/// document that it holds; nothing where there is no object.
pub uninterp spec fn json_members(document: Seq<char>) -> Option<Seq<(Seq<char>, Seq<char>)>>;

/// The text that `document` is, if it is one.
pub uninterp spec fn json_string(document: Seq<char>) -> Option<Seq<char>>;

/// The unsigned number that `document` is, if it is one that fits in 64 bits.
pub uninterp spec fn json_count(document: Seq<char>) -> Option<u64>;

/// The truth value that `document` is, if it is one.
pub uninterp spec fn json_truth(document: Seq<char>) -> Option<bool>;

/// The UTC instant that `document` is, as seconds since the epoch and
/// nanoseconds within the second, if it is one.
pub uninterp spec fn json_instant(document: Seq<char>) -> Option<(i64, u32)>;

/// The characters of the keys and of what they hold.
pub open spec fn members_of(members: Seq<(String, String)>) -> Seq<(Seq<char>, Seq<char>)> {
    members.map_values(|member: (String, String)| (member.0@, member.1@))
}

/// The characters of the keys and of what they hold, where there are any.
pub open spec fn members_in(members: Option<Vec<(String, String)>>) -> Option<
    Seq<(Seq<char>, Seq<char>)>,
> {
    match members {
        Some(found) => Some(members_of(found@)),
        None => None,
    }
}

/// Reads `document` with `serde_json::from_str` as a `serde_json::Map`, and
/// hands out each key with the document of its value. What comes out is named.
#[verifier::external_body]
fn members(document: &str) -> (r: Option<Vec<(String, String)>>)
    ensures
        members_in(r) == json_members(document@),
{
    let object = serde_json::from_str::<serde_json::Map<String, serde_json::Value>>(document);
    Some(object.ok()?.into_iter().map(|(key, held)| (key, held.to_string())).collect())
}

/// Reads `document` with `serde_json::from_str` as a `String`. What comes out
/// is named.
#[verifier::external_body]
fn string_document(document: &str) -> (r: Option<String>)
    ensures
        text_in(r) == json_string(document@),
{
    serde_json::from_str::<String>(document).ok()
}

/// Reads `document` with `serde_json::from_str` as a `u64`. What comes out is
/// named.
#[verifier::external_body]
fn count_document(document: &str) -> (r: Option<u64>)
    ensures
        r == json_count(document@),
{
    serde_json::from_str::<u64>(document).ok()
}

/// Reads `document` with `serde_json::from_str` as a `bool`. What comes out is
/// named.
#[verifier::external_body]
fn truth_document(document: &str) -> (r: Option<bool>)
    ensures
        r == json_truth(document@),
{
    serde_json::from_str::<bool>(document).ok()
}

/// Reads `document` with `serde_json::from_str` as a `chrono::DateTime<Utc>`,
/// handed out as its `timestamp` and its `timestamp_subsec_nanos`. What comes
/// out is named.
#[verifier::external_body]
pub(crate) fn instant_document(document: &str) -> (r: Option<(i64, u32)>)
    ensures
        r == json_instant(document@),
{
    let at = serde_json::from_str::<chrono::DateTime<chrono::Utc>>(document).ok()?;
    Some((at.timestamp(), at.timestamp_subsec_nanos()))
}

/// What stands under `key`.
pub open spec fn held_under(members: Seq<(Seq<char>, Seq<char>)>, key: Seq<char>) -> Option<
    Seq<char>,
>
    decreases members.len(),
{
    if members.len() == 0 {
        None
    } else if members[0].0 == key {
        Some(members[0].1)
    } else {
        held_under(members.skip(1), key)
    }
}

/// The document that the object in `document` holds under `key`, if it holds
/// anything there.
#[verifier::opaque]
pub open spec fn json_member(document: Seq<char>, key: Seq<char>) -> Option<Seq<char>> {
    match json_members(document) {
        Some(members) => held_under(members, key),
        None => None,
    }
}

/// The text that the object in `document` holds under `key`, if it holds a
/// text there.
#[verifier::opaque]
pub open spec fn json_text(document: Seq<char>, key: Seq<char>) -> Option<Seq<char>> {
    match json_member(document, key) {
        Some(held) => json_string(held),
        None => None,
    }
}

/// The unsigned number that the object in `document` holds under `key`, if it
/// holds one there that fits in 64 bits.
#[verifier::opaque]
pub open spec fn json_number(document: Seq<char>, key: Seq<char>) -> Option<u64> {
    match json_member(document, key) {
        Some(held) => json_count(held),
        None => None,
    }
}

/// The truth value that the object in `document` holds under `key`, if it
/// holds one there.
#[verifier::opaque]
pub open spec fn json_flag(document: Seq<char>, key: Seq<char>) -> Option<bool> {
    match json_member(document, key) {
        Some(held) => json_truth(held),
        None => None,
    }
}

/// What the object in `document` holds under `key`.
pub fn document_member(document: &str, key: &str) -> (r: Option<String>)
    ensures
        text_in(r) == json_member(document@, key@),
{
    reveal(json_member);
    let found: Vec<(String, String)> = members(document)?;
    let ghost all = members_of(found@);
    let mut place: usize = 0;
    assert(all.skip(0) =~= all);
    while place < found.len()
        invariant
            place <= found@.len(),
            all == members_of(found@),
            json_member(document@, key@) == held_under(all, key@),
            held_under(all.skip(place as int), key@) == held_under(all, key@),
        decreases found.len() - place,
    {
        let ghost rest = all.skip(place as int);
        assert(rest[0] == (found@[place as int].0@, found@[place as int].1@));
        if same_text(found[place].0.as_str(), key) {
            return Some(found[place].1.as_str().to_owned());
        }
        assert(rest.skip(1) =~= all.skip(place + 1));
        place = place + 1;
    }
    assert(all.skip(place as int).len() == 0);
    None
}

/// The text that the object in `document` holds under `key`.
pub fn text_member(document: &str, key: &str) -> (r: Option<String>)
    ensures
        text_in(r) == json_text(document@, key@),
{
    reveal(json_text);
    let held: String = document_member(document, key)?;
    string_document(held.as_str())
}

/// The unsigned number that the object in `document` holds under `key`.
pub fn number_member(document: &str, key: &str) -> (r: Option<u64>)
    ensures
        r == json_number(document@, key@),
{
    reveal(json_number);
    let held: String = document_member(document, key)?;
    count_document(held.as_str())
}

/// The truth value that the object in `document` holds under `key`.
pub fn flag_member(document: &str, key: &str) -> (r: Option<bool>)
    ensures
        r == json_flag(document@, key@),
{
    reveal(json_flag);
    let held: String = document_member(document, key)?;
    truth_document(held.as_str())
}

} // verus!
