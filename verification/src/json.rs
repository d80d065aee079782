use vstd::prelude::*;

verus! {

/// `serde_json::Value`, a parsed JSON document or a part of one. Nothing
/// inside it is visible to the proofs; it is read through the functions
/// below.
#[verifier::external_type_specification]
#[verifier::external_body]
pub struct ExJsonValue(serde_json::Value);

/// The document that `serde_json::from_str` reads from `text`; `None` where it
/// reports an error.
pub uninterp spec fn json_document(text: Seq<char>) -> Option<serde_json::Value>;

/// What indexing `value` with the string `key` gives: the member of that name
/// if `value` is an object that has one, and JSON `null` otherwise.
pub uninterp spec fn json_member(value: serde_json::Value, key: Seq<char>) -> serde_json::Value;

/// The text of `value` if it is a JSON string, as `Value::as_str` gives it.
pub uninterp spec fn json_string(value: serde_json::Value) -> Option<Seq<char>>;

/// The elements of `value` if it is a JSON array, as `Value::as_array` gives
/// them.
pub uninterp spec fn json_elements(value: serde_json::Value) -> Option<Seq<serde_json::Value>>;

/// Calls `serde_json::from_str` for a `serde_json::Value`. The contract only
/// names the outcome; that the call is a function of the text alone is what
/// is taken on trust.
#[verifier::external_body]
pub(crate) fn parse(text: &str) -> (document: Option<serde_json::Value>)
    ensures
        document == json_document(text@),
{
    match serde_json::from_str::<serde_json::Value>(text) {
        Ok(document) => Some(document),
        Err(_) => None,
    }
}

/// Indexes a `serde_json::Value` with a string key (`&value[key]`), which
/// never panics on a shared value. The contract only names the result.
#[verifier::external_body]
pub(crate) fn member<'a>(value: &'a serde_json::Value, key: &str) -> (found: &'a serde_json::Value)
    ensures
        *found == json_member(*value, key@),
{
    &value[key]
}

/// Calls `serde_json::Value::as_str`. The contract only names the result.
#[verifier::external_body]
pub(crate) fn string_of<'a>(value: &'a serde_json::Value) -> (text: Option<&'a str>)
    ensures
        match text {
            Some(text) => json_string(*value) == Some(text@),
            None => json_string(*value).is_none(),
        },
{
    value.as_str()
}

/// Calls `serde_json::Value::as_array`. The contract only names the result.
#[verifier::external_body]
pub(crate) fn elements_of<'a>(value: &'a serde_json::Value) -> (elements: Option<
    &'a Vec<serde_json::Value>,
>)
    ensures
        match elements {
            Some(elements) => json_elements(*value) == Some(elements@),
            None => json_elements(*value).is_none(),
        },
{
    value.as_array()
}

/// Calls `Clone::clone` of `serde_json::Value`, which copies the whole tree.
#[verifier::external_body]
pub(crate) fn duplicate(value: &serde_json::Value) -> (copy: serde_json::Value)
    ensures
        copy == *value,
{
    value.clone()
}

/// The elements of the `items` of a JSON document, if that is an array, and
/// none otherwise.
pub open spec fn items_of(document: serde_json::Value) -> Seq<serde_json::Value> {
    match json_elements(json_member(document, "items"@)) {
        Some(elements) => elements,
        None => Seq::empty(),
    }
}

/// The first element of the `items` of a JSON document, if there is one.
pub open spec fn first_item_of(document: serde_json::Value) -> Option<serde_json::Value> {
    if items_of(document).len() > 0 {
        Some(items_of(document)[0])
    } else {
        None
    }
}

/// The `nextPageToken` of a JSON document, if that is a string.
pub open spec fn next_page_token_of(document: serde_json::Value) -> Option<Seq<char>> {
    json_string(json_member(document, "nextPageToken"@))
}

/// Finds the first element of the `items` of a JSON document.
pub(crate) fn first_item<'a>(document: &'a serde_json::Value) -> (first: Option<
    &'a serde_json::Value,
>)
    ensures
        match first {
            Some(first) => first_item_of(*document) == Some(*first),
            None => first_item_of(*document).is_none(),
        },
{
    match elements_of(member(document, "items")) {
        Some(elements) => if elements.len() > 0 {
            Some(&elements[0])
        } else {
            None
        },
        None => None,
    }
}

} // verus!
