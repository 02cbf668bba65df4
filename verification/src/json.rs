//! JSON text, as far as the core reads and writes it: string literals, and
//! the string fields of objects.

use crate::error::HolochainError;
use std::collections::BTreeMap;
use vstd::prelude::*;

verus! {

/// Serialized content: JSON text.
pub type Content = String;

/// The error of serde_json, carried through and never looked into.
#[verifier::external_type_specification]
#[verifier::external_body]
pub struct ExJsonError(serde_json::Error);

/// The JSON string literal that `serde_json::to_string` writes for a text,
/// quotes and escapes included.
pub uninterp spec fn json_string(text: Seq<char>) -> Seq<char>;

/// What `serde_json::from_str` reads from a text as a JSON object: its
/// fields, key by key in ascending order, each with its value where that is
/// a string and with `None` where it is anything else; `None` for the whole
/// where it reports an error. A key that the text holds more than once is one
/// field, with the value that the text gives it last: so serde_json fills
/// every map.
pub uninterp spec fn json_object_fields(text: Seq<char>) -> Option<
    Seq<(Seq<char>, Option<Seq<char>>)>,
>;

/// The fields as mathematical pairs.
pub open spec fn fields_view(fields: Seq<(String, Option<String>)>) -> Seq<
    (Seq<char>, Option<Seq<char>>),
> {
    fields.map_values(
        |field: (String, Option<String>)| (field.0@, crate::model::option_view(field.1)),
    )
}

/// Calls `serde_json::to_string` on a string slice. Trusted: writing a string
/// into memory does not fail, and the literal is the same for the same text.
#[verifier::external_body]
fn to_json_string(text: &str) -> (literal: Result<String, serde_json::Error>)
    ensures
        literal is Ok,
        literal matches Ok(written) ==> written@ == json_string(text@),
{
    serde_json::to_string(text)
}

/// Calls `serde_json::from_str` for a map from strings to JSON values and
/// hands its items out in the map's order, each value as its text where it
/// is a string (`Value::as_str`). Trusted: the outcome is the same for the
/// same text.
#[verifier::external_body]
fn from_json_object(text: &str) -> (parsed: Result<
    Vec<(String, Option<String>)>,
    serde_json::Error,
>)
    ensures
        match parsed {
            Ok(fields) => json_object_fields(text@) == Some(fields_view(fields@)),
            Err(_) => json_object_fields(text@) is None,
        },
{
    let fields: BTreeMap<String, serde_json::Value> = serde_json::from_str(text)?;
    Ok(fields.into_iter().map(|(key, value)| (key, value.as_str().map(String::from))).collect())
}

/// The JSON string literal for `text`.
pub fn quote(text: &str) -> (literal: String)
    ensures
        literal@ == json_string(text@),
{
    match to_json_string(text) {
        Ok(written) => written,
        Err(_) => unreached(),
    }
}

/// The text that the field named `key` holds, if there is such a field and
/// it holds a string.
pub open spec fn field_value(fields: Seq<(Seq<char>, Option<Seq<char>>)>, key: Seq<char>)
    -> Option<Seq<char>>
    decreases fields.len(),
{
    if fields.len() == 0 {
        None
    } else if fields[0].0 == key {
        fields[0].1
    } else {
        field_value(fields.skip(1), key)
    }
}

/// The fields of a JSON object, each with its text where it holds a string,
/// or the error for content that is no JSON object.
pub fn parse_object_fields(text: &str) -> (parsed: Result<
    Vec<(String, Option<String>)>,
    HolochainError,
>)
    ensures
        match parsed {
            Ok(fields) => json_object_fields(text@) == Some(fields_view(fields@)),
            Err(error) => json_object_fields(text@) is None && error@
                == crate::error::ErrorView::Serialization("content is not a JSON object"@),
        },
{
    match from_json_object(text) {
        Ok(fields) => Ok(fields),
        Err(_) => Err(
            HolochainError::SerializationError(String::from_str("content is not a JSON object")),
        ),
    }
}

/// Looks up the text of a field by the field's name.
pub fn find_field<'a>(fields: &'a Vec<(String, Option<String>)>, key: &str) -> (value: Option<
    &'a String,
>)
    ensures
        match value {
            Some(found) => field_value(fields_view(fields@), key@) == Some(found@),
            None => field_value(fields_view(fields@), key@) is None,
        },
{
    let wanted = String::from_str(key);
    let mut index: usize = 0;
    assert(fields_view(fields@).skip(0) =~= fields_view(fields@));
    while index < fields.len()
        invariant
            index <= fields.len(),
            wanted@ == key@,
            field_value(fields_view(fields@), key@) == field_value(
                fields_view(fields@).skip(index as int),
                key@,
            ),
        decreases fields.len() - index,
    {
        let ghost rest = fields_view(fields@).skip(index as int);
        assert(rest[0] == (
            fields@[index as int].0@,
            crate::model::option_view(fields@[index as int].1),
        ));
        assert(rest.skip(1) =~= fields_view(fields@).skip(index + 1));
        if fields[index].0 == wanted {
            return match &fields[index].1 {
                Some(text) => Some(text),
                None => None,
            };
        }
        index += 1;
    }
    None
}

} // verus!
