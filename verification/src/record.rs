//! Records, the requests about them, and how they lie in the backend.

use crate::fields::Fields;
use vstd::prelude::*;
use vstd::string::StringExecFns;

verus! {

/// The name of the field that holds a record's id.
pub const ID_ATTRIBUTE: &'static str = "id";

/// The name of the field that holds a record's status.
pub const STATUS_ATTRIBUTE: &'static str = "status";

/// What every backend key of a record starts with.
pub const KEY_PREFIX: &'static str = "status_";

/// A request for the record with this id.
#[derive(Clone, Debug, PartialEq, Eq)]
pub struct GetRequest {
    pub id: String,
}

/// The record that was asked for; a field that the backend does not hold
/// is empty.
#[derive(Clone, Debug, PartialEq, Eq)]
pub struct GetResponse {
    pub id: String,
    pub status: String,
}

/// A request to store this status under this id.
#[derive(Clone, Debug, PartialEq, Eq)]
pub struct SetRequest {
    pub id: String,
    pub status: String,
}

/// The acknowledgement of a stored record.
#[derive(Clone, Copy, Debug, PartialEq, Eq, Structural)]
pub struct SetResponse {}

/// The backend key of the record with this id: the prefix, then the id as
/// it is.
pub open spec fn key_of(id: Seq<char>) -> Seq<char> {
    KEY_PREFIX@ + id
}

/// The value of `name` in `fields`, or the empty string where `fields` has
/// no such name.
pub open spec fn field_or_empty(fields: Map<Seq<char>, Seq<char>>, name: Seq<char>) -> Seq<char> {
    if fields.contains_key(name) {
        fields[name]
    } else {
        Seq::empty()
    }
}

/// The names and values that storing `status` under `id` writes, in the
/// order in which they are written.
pub open spec fn pairs_of(id: Seq<char>, status: Seq<char>) -> Seq<(Seq<char>, Seq<char>)> {
    seq![(ID_ATTRIBUTE@, id), (STATUS_ATTRIBUTE@, status)]
}

/// The names that a record is read by.
pub open spec fn names() -> Seq<Seq<char>> {
    seq![ID_ATTRIBUTE@, STATUS_ATTRIBUTE@]
}

/// The views of a list of name/value pairs.
pub open spec fn pairs_view(pairs: Seq<(String, String)>) -> Seq<(Seq<char>, Seq<char>)> {
    pairs.map_values(|p: (String, String)| (p.0@, p.1@))
}

/// The views of a list of strings.
pub open spec fn strings_view(strings: Seq<String>) -> Seq<Seq<char>> {
    strings.map_values(|s: String| s@)
}

/// The backend key of the record with this id.
pub fn record_key(id: &str) -> (key: String)
    ensures
        key@ == key_of(id@),
{
    let mut key = String::from_str(KEY_PREFIX);
    key.append(id);
    key
}

/// The names of the fields that a record is read by.
pub fn record_names() -> (wanted: Vec<String>)
    ensures
        strings_view(wanted@) == names(),
{
    let mut wanted: Vec<String> = Vec::new();
    wanted.push(String::from_str(ID_ATTRIBUTE));
    wanted.push(String::from_str(STATUS_ATTRIBUTE));
    wanted
}

/// The fields that storing `request` writes.
pub fn record_pairs(request: &SetRequest) -> (pairs: Vec<(String, String)>)
    ensures
        pairs_view(pairs@) == pairs_of(request.id@, request.status@),
{
    let mut pairs: Vec<(String, String)> = Vec::new();
    pairs.push((String::from_str(ID_ATTRIBUTE), request.id.clone()));
    pairs.push((String::from_str(STATUS_ATTRIBUTE), request.status.clone()));
    pairs
}

/// The response that the fields read from the backend come to. A field
/// that is missing, as both are where the record does not exist, is the
/// empty string.
pub fn response_from_fields(fields: &Fields) -> (response: GetResponse)
    ensures
        response.id@ == field_or_empty(fields@, ID_ATTRIBUTE@),
        response.status@ == field_or_empty(fields@, STATUS_ATTRIBUTE@),
{
    let id = match fields.get(ID_ATTRIBUTE) {
        Some(value) => value,
        None => String::new(),
    };
    let status = match fields.get(STATUS_ATTRIBUTE) {
        Some(value) => value,
        None => String::new(),
    };
    GetResponse { id, status }
}

} // verus!
