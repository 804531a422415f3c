//! JSON values, as far as the account reads, builds and signs them.
//!
//! A JSON value is known by its text: the compact form in which `serde_json`
//! writes it. Two values with the same text are the same value.
use std::collections::BTreeMap;
use vstd::prelude::*;

use crate::identifiers::valid_user_id;
use crate::string_map::{in_key_order, lemma_key_order_unique};

verus! {

/// A JSON value of `serde_json`.
#[verifier::external_type_specification]
#[verifier::external_body]
pub struct ExValue(serde_json::Value);

/// The error with which `serde_json` refuses a text or a value.
#[verifier::external_type_specification]
#[verifier::external_body]
pub struct ExError(serde_json::Error);

/// The error with which `ruma` refuses a value that has no canonical form.
#[verifier::external_type_specification]
#[verifier::external_body]
pub struct ExCanonicalJsonError(ruma::serde::CanonicalJsonError);

/// The compact text of a JSON value.
pub uninterp spec fn json_text(value: serde_json::Value) -> Seq<char>;

/// The message of an error of `serde_json`.
pub uninterp spec fn json_error_text(error: serde_json::Error) -> Seq<char>;

/// What `serde_json::from_str` makes of a text: the text of the value that it
/// reads, or the message of the error where the text is no JSON.
pub uninterp spec fn parsed_json(text: Seq<char>) -> Result<Seq<char>, Seq<char>>;

/// What `serde_json::Value::get` finds in a value under a name.
pub uninterp spec fn json_field(value: Seq<char>, name: Seq<char>) -> Option<Seq<char>>;

/// The user ID that `serde_json::from_value` reads from a value, or the message
/// of the error.
pub uninterp spec fn json_user_id(value: Seq<char>) -> Result<Seq<char>, Seq<char>>;

/// The table from key algorithms to keys that `serde_json::from_value` reads
/// from a value, or the message of the error.
pub uninterp spec fn json_key_table(value: Seq<char>) -> Result<Map<Seq<char>, Seq<char>>, Seq<char>>;

/// The text of the to-device event that `serde_json::from_value` reads from a
/// value, or the message of the error.
pub uninterp spec fn json_to_device_event(value: Seq<char>) -> Result<Seq<char>, Seq<char>>;

/// A hexadecimal digit in lower case.
pub open spec fn hex_digit(digit: int) -> char {
    "0123456789abcdef"@[digit]
}

/// A character as it stands in a JSON string.
pub open spec fn escaped_char(c: char) -> Seq<char> {
    if c == '"' || c == '\\' {
        seq!['\\', c]
    } else if c == '\u{8}' {
        seq!['\\', 'b']
    } else if c == '\t' {
        seq!['\\', 't']
    } else if c == '\n' {
        seq!['\\', 'n']
    } else if c == '\u{c}' {
        seq!['\\', 'f']
    } else if c == '\r' {
        seq!['\\', 'r']
    } else if (c as int) < 32 {
        seq!['\\', 'u', '0', '0', hex_digit(c as int / 16), hex_digit(c as int % 16)]
    } else {
        seq![c]
    }
}

/// A text as it stands in a JSON string.
pub open spec fn escaped_text(content: Seq<char>) -> Seq<char>
    decreases content.len(),
{
    if content.len() == 0 {
        Seq::empty()
    } else {
        escaped_text(content.drop_last()) + escaped_char(content.last())
    }
}

/// The JSON value of a string.
pub open spec fn json_string(content: Seq<char>) -> Seq<char> {
    seq!['"'] + escaped_text(content) + seq!['"']
}

/// Texts with commas between them.
pub open spec fn comma_separated(texts: Seq<Seq<char>>) -> Seq<char>
    decreases texts.len(),
{
    if texts.len() == 0 {
        Seq::empty()
    } else if texts.len() == 1 {
        texts[0]
    } else {
        comma_separated(texts.drop_last()) + seq![','] + texts.last()
    }
}

/// The JSON value of an array, from those of its elements.
pub open spec fn json_array(elements: Seq<Seq<char>>) -> Seq<char> {
    seq!['['] + comma_separated(elements) + seq![']']
}

/// A field of a JSON object.
pub open spec fn json_member(name: Seq<char>, value: Seq<char>) -> Seq<char> {
    json_string(name) + seq![':'] + value
}

/// The fields of a JSON object, in the order of some names.
pub open spec fn json_members(
    names: Seq<Seq<char>>,
    fields: Map<Seq<char>, Seq<char>>,
) -> Seq<Seq<char>> {
    Seq::new(names.len(), |i: int| json_member(names[i], fields[names[i]]))
}

/// The JSON value of an object, from those of its fields. The fields stand in
/// the order of their names.
pub open spec fn json_object(fields: Map<Seq<char>, Seq<char>>) -> Seq<char> {
    let names = choose|names: Seq<Seq<char>>| in_key_order(names, fields);
    seq!['{'] + comma_separated(json_members(names, fields)) + seq!['}']
}

/// The text of an object whose names are known in their order.
pub proof fn lemma_json_object(names: Seq<Seq<char>>, fields: Map<Seq<char>, Seq<char>>)
    requires
        in_key_order(names, fields),
    ensures
        json_object(fields) == seq!['{'] + comma_separated(json_members(names, fields)) + seq!['}'],
{
    let chosen = choose|names: Seq<Seq<char>>| in_key_order(names, fields);
    lemma_key_order_unique(names, chosen, fields);
}

/// Whether `ruma::serde::CanonicalJsonValue::try_from` takes a value: it does
/// unless there is a number in it that is no integer or too large a one.
pub uninterp spec fn has_canonical_form(value: Seq<char>) -> bool;

/// The table that pairs make up. Of pairs with the same key the last counts.
pub open spec fn pair_table(pairs: Seq<(String, String)>) -> Map<Seq<char>, Seq<char>>
    decreases pairs.len(),
{
    if pairs.len() == 0 {
        Map::empty()
    } else {
        pair_table(pairs.drop_last()).insert(pairs.last().0@, pairs.last().1@)
    }
}

/// The fields that pairs of a name and a value make up. Of pairs with the same
/// name the last counts.
pub open spec fn field_table(fields: Seq<(String, serde_json::Value)>) -> Map<Seq<char>, Seq<char>>
    decreases fields.len(),
{
    if fields.len() == 0 {
        Map::empty()
    } else {
        field_table(fields.drop_last()).insert(fields.last().0@, json_text(fields.last().1))
    }
}

/// `serde_json::from_str`, asked for a `Value`: the text decides whether it is
/// read, what value it is, and what the error says where it is not.
#[verifier::external_body]
pub(crate) fn parse_json(text: &str) -> (r: Result<serde_json::Value, serde_json::Error>)
    ensures
        match r {
            Ok(value) => parsed_json(text@) == Ok::<Seq<char>, Seq<char>>(json_text(value)),
            Err(error) => parsed_json(text@) == Err::<Seq<char>, Seq<char>>(
                json_error_text(error),
            ),
        },
{
    serde_json::from_str(text)
}

/// `serde_json::Value::get` with a string, and a clone of what it finds: the
/// value and the name decide what that is.
#[verifier::external_body]
pub(crate) fn get_field(value: &serde_json::Value, name: &str) -> (r: Option<serde_json::Value>)
    ensures
        match r {
            Some(field) => json_field(json_text(*value), name@) == Some(json_text(field)),
            None => json_field(json_text(*value), name@) is None,
        },
{
    value.get(name).cloned()
}

/// `serde_json::from_value`, asked for a `ruma::UserId`: it reads a JSON string
/// that is a valid user ID, and nothing else. The value decides what the error
/// says.
#[verifier::external_body]
pub(crate) fn user_id_from_value(value: serde_json::Value) -> (r: Result<String, serde_json::Error>)
    ensures
        match r {
            Ok(id) => {
                &&& json_user_id(json_text(value)) == Ok::<Seq<char>, Seq<char>>(id@)
                &&& valid_user_id(id@)
                &&& json_text(value) == json_string(id@)
            },
            Err(error) => {
                &&& json_user_id(json_text(value)) == Err::<Seq<char>, Seq<char>>(
                    json_error_text(error),
                )
                &&& forall|id: Seq<char>|
                    valid_user_id(id) ==> json_text(value) != #[trigger] json_string(id)
            },
        },
{
    serde_json::from_value::<ruma::UserId>(value).map(|id| id.to_string())
}

/// `serde_json::from_value`, asked for a map from `ruma::DeviceKeyAlgorithm` to
/// strings: the value decides whether it is read, what the map holds, and what
/// the error says. The pairs are those of the map.
#[verifier::external_body]
pub(crate) fn key_table_from_value(value: serde_json::Value) -> (r: Result<
    Vec<(String, String)>,
    serde_json::Error,
>)
    ensures
        match r {
            Ok(pairs) => json_key_table(json_text(value)) == Ok::<
                Map<Seq<char>, Seq<char>>,
                Seq<char>,
            >(pair_table(pairs@)),
            Err(error) => json_key_table(json_text(value)) == Err::<
                Map<Seq<char>, Seq<char>>,
                Seq<char>,
            >(json_error_text(error)),
        },
{
    serde_json::from_value::<BTreeMap<ruma::DeviceKeyAlgorithm, String>>(value)
        .map(|table| table.into_iter().map(|(k, v)| (k.to_string(), v)).collect())
}

/// `serde_json::from_value`, asked for a `ruma::events::AnyToDeviceEvent`, and
/// the text of the `ruma::serde::Raw` that is made of the event: the value
/// decides whether it is read, what that text is, and what the error says. An
/// event that was read can always be written.
#[verifier::external_body]
pub(crate) fn to_device_event_from_value(value: serde_json::Value) -> (r: Result<
    String,
    serde_json::Error,
>)
    ensures
        match r {
            Ok(event) => json_to_device_event(json_text(value)) == Ok::<Seq<char>, Seq<char>>(
                event@,
            ),
            Err(error) => json_to_device_event(json_text(value)) == Err::<Seq<char>, Seq<char>>(
                json_error_text(error),
            ),
        },
{
    serde_json::from_value::<ruma::events::AnyToDeviceEvent>(value)
        .map(|event| ruma::serde::Raw::from(event).json().get().to_owned())
}

/// `serde_json::Value::from` on a string: its text is the content in quotes, with
/// the characters escaped that JSON asks for, and it has a canonical form.
#[verifier::external_body]
pub(crate) fn string_value(content: &str) -> (r: serde_json::Value)
    ensures
        json_text(r) == json_string(content@),
        has_canonical_form(json_text(r)),
{
    serde_json::Value::from(content)
}

/// `serde_json::Value::from` on a vector of values: its text is that of the
/// elements in square brackets, with commas between them, and it has a canonical
/// form where all of them have one.
#[verifier::external_body]
pub(crate) fn array_value(elements: Vec<serde_json::Value>) -> (r: serde_json::Value)
    ensures
        json_text(r) == json_array(Seq::new(elements@.len(), |i: int| json_text(elements@[i]))),
        (forall|i: int|
            0 <= i < elements@.len() ==> has_canonical_form(json_text(#[trigger] elements@[i]))) ==> has_canonical_form(json_text(r)),
{
    serde_json::Value::from(elements)
}

/// `serde_json::Value::from_iter` on pairs of a name and a value: its text is
/// that of the fields in curly brackets, in the order of their names, and it has
/// a canonical form where all of them have one. Of fields with the same name the
/// last counts.
#[verifier::external_body]
pub(crate) fn object_value(fields: Vec<(String, serde_json::Value)>) -> (r: serde_json::Value)
    ensures
        json_text(r) == json_object(field_table(fields@)),
        (forall|i: int|
            0 <= i < fields@.len() ==> has_canonical_form(json_text((#[trigger] fields@[i]).1))) ==> has_canonical_form(json_text(r)),
{
    serde_json::Value::from_iter(fields)
}

/// `ruma::serde::CanonicalJsonValue::try_from` and the text of what it makes:
/// the value decides whether there is a canonical form. It is the compact text
/// of the value, whose objects are in the order of their names already.
#[verifier::external_body]
pub(crate) fn canonicalize(value: serde_json::Value) -> (r: Result<
    String,
    ruma::serde::CanonicalJsonError,
>)
    ensures
        match r {
            Ok(text) => has_canonical_form(json_text(value)) && text@ == json_text(value),
            Err(_) => !has_canonical_form(json_text(value)),
        },
{
    ruma::serde::CanonicalJsonValue::try_from(value).map(|canonical| canonical.to_string())
}

} // verus!
