//! JSON text of string lists, through `serde_json`.
use vstd::prelude::*;
use crate::agent::texts;

verus! {

#[verifier::external_type_specification]
#[verifier::external_body]
pub struct ExJsonError(serde_json::Error);

/// What `serde_json::from_str::<Vec<String>>` reads from `text`: the list,
/// or `None` where the text is no JSON array of strings.
pub uninterp spec fn json_string_list(text: Seq<char>) -> Option<Seq<Seq<char>>>;

/// What `serde_json::from_str::<Vec<Vec<String>>>` reads from `text`.
pub uninterp spec fn json_string_groups(text: Seq<char>) -> Option<Seq<Seq<Seq<char>>>>;

/// What `serde_json::to_string` writes for a list of strings.
pub uninterp spec fn json_of_strings(items: Seq<Seq<char>>) -> Seq<char>;

/// The texts of a list of string lists.
pub open spec fn group_texts(v: Seq<Vec<String>>) -> Seq<Seq<Seq<char>>> {
    v.map_values(|g: Vec<String>| texts(g@))
}

/// `serde_json::from_str::<Vec<String>>(text)`: `Some` with the list read,
/// exactly where the library reads one, `None` where it reports an error.
#[verifier::external_body]
fn read_string_list(text: &str) -> (r: Option<Vec<String>>)
    ensures
        match r {
            Some(v) => json_string_list(text@) == Some(texts(v@)),
            None => json_string_list(text@) is None,
        },
{
    serde_json::from_str::<Vec<String>>(text).ok()
}

/// `serde_json::from_str::<Vec<Vec<String>>>(text)`, as above.
#[verifier::external_body]
fn read_string_groups(text: &str) -> (r: Option<Vec<Vec<String>>>)
    ensures
        match r {
            Some(v) => json_string_groups(text@) == Some(group_texts(v@)),
            None => json_string_groups(text@) is None,
        },
{
    serde_json::from_str::<Vec<Vec<String>>>(text).ok()
}

/// `serde_json::to_string` of a list of strings.  It succeeds: the encoder
/// fails only for a failing `Serialize` impl or a map with non-string keys,
/// and a list of strings has neither.  The text is the name's value.
#[verifier::external_body]
fn write_string_list(items: &Vec<String>) -> (r: Result<String, serde_json::Error>)
    ensures
        r is Ok,
        r matches Ok(t) ==> t@ == json_of_strings(texts(items@)),
{
    serde_json::to_string(items)
}

/// What `serde_json::to_string` writes for a list of string lists.
pub uninterp spec fn json_of_groups(groups: Seq<Seq<Seq<char>>>) -> Seq<char>;

/// `serde_json::to_string` of a list of string lists; it succeeds, for the
/// same reason as above, with the name's value.
#[verifier::external_body]
fn write_string_groups(groups: &Vec<Vec<String>>) -> (r: Result<String, serde_json::Error>)
    ensures
        r is Ok,
        r matches Ok(t) ==> t@ == json_of_groups(group_texts(groups@)),
{
    serde_json::to_string(groups)
}

/// The list that `text` holds, or an empty list where it holds none.
pub open spec fn string_list_or_empty(text: Seq<char>) -> Seq<Seq<char>> {
    match json_string_list(text) {
        Some(v) => v,
        None => Seq::empty(),
    }
}

/// The groups that `text` holds, or no group where it holds none.
pub open spec fn string_groups_or_empty(text: Seq<char>) -> Seq<Seq<Seq<char>>> {
    match json_string_groups(text) {
        Some(v) => v,
        None => Seq::empty(),
    }
}

/// `parse_string_list`: the JSON list of strings in `json`, or an empty list.
pub fn parse_string_list(json: &str) -> (r: Vec<String>)
    ensures
        texts(r@) == string_list_or_empty(json@),
{
    match read_string_list(json) {
        Some(v) => v,
        None => {
            let v: Vec<String> = Vec::new();
            assert(texts(v@) =~= Seq::<Seq<char>>::empty());
            v
        },
    }
}

/// `parse_string_groups`: the JSON list of string lists in `json`, or none.
pub fn parse_string_groups(json: &str) -> (r: Vec<Vec<String>>)
    ensures
        group_texts(r@) == string_groups_or_empty(json@),
{
    match read_string_groups(json) {
        Some(v) => v,
        None => {
            let v: Vec<Vec<String>> = Vec::new();
            assert(group_texts(v@) =~= Seq::<Seq<Seq<char>>>::empty());
            v
        },
    }
}

/// The JSON text of a list of strings (the encoder's error, which it never
/// reports for such a list, would be an internal error).
pub fn strings_to_json(items: &Vec<String>) -> (r: Result<String, crate::error::AppError>)
    ensures
        r matches Ok(t) && t@ == json_of_strings(texts(items@)),
{
    match write_string_list(items) {
        Ok(t) => Ok(t),
        Err(_) => Err(crate::error::AppError::Internal(crate::text::owned("json encoding failed"))),
    }
}

/// The JSON text of a list of string lists.
pub fn groups_to_json(groups: &Vec<Vec<String>>) -> (r: Result<String, crate::error::AppError>)
    ensures
        r matches Ok(t) && t@ == json_of_groups(group_texts(groups@)),
{
    match write_string_groups(groups) {
        Ok(t) => Ok(t),
        Err(_) => Err(crate::error::AppError::Internal(crate::text::owned("json encoding failed"))),
    }
}

} // verus!
