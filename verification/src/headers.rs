//! The header collection of a message, as `http::HeaderMap` holds it.
//!
//! A `HeaderMap` is a multimap: each field name, in lower case, has one or more values, in the
//! order in which they were appended. Its model is a `Map` from the name to the sequence of its
//! values; a value is a sequence of bytes.

use http::header::{HeaderMap, HeaderValue, ToStrError};
use vstd::prelude::*;

verus! {

/// `http::HeaderMap`, opaque: its contents are `header_values`.
#[verifier::external_type_specification]
#[verifier::external_body]
#[verifier::reject_recursive_types(T)]
pub struct ExHeaderMap<T>(HeaderMap<T>);

/// `http::HeaderValue`, opaque: its contents are `value_bytes`.
#[verifier::external_type_specification]
#[verifier::external_body]
pub struct ExHeaderValue(HeaderValue);

/// `http::header::ToStrError`, which carries nothing.
#[verifier::external_type_specification]
#[verifier::external_body]
pub struct ExToStrError(ToStrError);

/// Header fields: each name that occurs, with its values in order.
pub type Fields = Map<Seq<char>, Seq<Seq<u8>>>;

/// The bytes that a header value holds.
pub uninterp spec fn value_bytes(value: HeaderValue) -> Seq<u8>;

/// The fields that a header map holds.
pub uninterp spec fn header_values(map: HeaderMap<HeaderValue>) -> Map<Seq<char>, Seq<Seq<u8>>>;

/// A byte that prints in ASCII, or a tab.
pub open spec fn is_visible_byte(b: u8) -> bool {
    32 <= b < 127 || b == 9
}

/// Every byte of `bytes` is visible.
pub open spec fn is_visible(bytes: Seq<u8>) -> bool {
    forall|i: int| 0 <= i < bytes.len() ==> is_visible_byte(#[trigger] bytes[i])
}

/// ASCII bytes read as characters.
pub open spec fn ascii_text(bytes: Seq<u8>) -> Seq<char> {
    bytes.map_values(|b: u8| b as char)
}

/// A character of a token: a letter, a digit, or one of the marks that a token may hold.
pub open spec fn is_token_char(c: char) -> bool {
    ||| 'a' <= c <= 'z'
    ||| 'A' <= c <= 'Z'
    ||| '0' <= c <= '9'
    ||| c == '!'
    ||| '#' <= c <= '\''
    ||| c == '*'
    ||| c == '+'
    ||| c == '-'
    ||| c == '.'
    ||| '^' <= c <= '`'
    ||| c == '|'
    ||| c == '~'
}

/// A name that a header map can hold: lower case, from 1 to 65535 characters, each of them a
/// token character, a double quote or a NUL. The last stands where a long name that was given as
/// a static text has a character that no name may hold.
pub open spec fn is_stored_name(name: Seq<char>) -> bool {
    &&& 0 < name.len() <= 65535
    &&& forall|i: int|
        0 <= i < name.len() ==> (is_token_char(#[trigger] name[i]) || name[i] == '"' || name[i]
            == '\0') && !('A' <= name[i] <= 'Z')
}

/// A name that a header map can hold and that also reads back as a header name: a stored name
/// without a double quote and without a NUL.
pub open spec fn is_field_name(name: Seq<char>) -> bool {
    is_stored_name(name) && !name.contains('"') && !name.contains('\0')
}

/// `fields` with one more value of `name`, behind those it has.
pub open spec fn append_field(fields: Fields, name: Seq<char>, value: Seq<u8>) -> Fields {
    fields.insert(
        name,
        if fields.contains_key(name) {
            fields[name].push(value)
        } else {
            seq![value]
        },
    )
}

/// The fields that come of appending `entries` one by one.
pub open spec fn collect_fields(entries: Seq<(Seq<char>, Seq<u8>)>) -> Fields
    decreases entries.len(),
{
    if entries.len() == 0 {
        Map::empty()
    } else {
        append_field(collect_fields(entries.drop_last()), entries.last().0, entries.last().1)
    }
}

/// Names and values as plain data.
pub open spec fn entries_view(entries: Seq<(String, HeaderValue)>) -> Seq<(Seq<char>, Seq<u8>)> {
    entries.map_values(|entry: (String, HeaderValue)| (entry.0@, value_bytes(entry.1)))
}

/// `HeaderValue::to_str` yields the value as text exactly when all of its bytes are visible.
pub assume_specification[ HeaderValue::to_str ](value: &HeaderValue) -> (text: Result<
    &str,
    ToStrError,
>)
    ensures
        text is Ok <==> is_visible(value_bytes(*value)),
        text matches Ok(s) ==> s@ == ascii_text(value_bytes(*value)),
;

/// Calls `HeaderMap::get`: the first value of `name`, if the map has the name. A name that the
/// map has comes with at least one value.
#[verifier::external_body]
pub(crate) fn header_get<'a>(map: &'a HeaderMap<HeaderValue>, name: &str) -> (found: Option<
    &'a HeaderValue,
>)
    requires
        is_field_name(name@),
    ensures
        found is Some <==> header_values(*map).contains_key(name@),
        found matches Some(value) ==> {
            &&& header_values(*map)[name@].len() > 0
            &&& value_bytes(*value) == header_values(*map)[name@][0]
        },
{
    map.get(name)
}

/// Calls `HeaderMap::remove`: takes `name` with all of its values out of the map and hands back
/// the first of them.
#[verifier::external_body]
pub(crate) fn header_remove(map: &mut HeaderMap<HeaderValue>, name: &str) -> (removed: Option<
    HeaderValue,
>)
    requires
        is_field_name(name@),
    ensures
        header_values(*final(map)) == header_values(*old(map)).remove(name@),
        removed is Some <==> header_values(*old(map)).contains_key(name@),
        removed matches Some(value) ==> {
            &&& header_values(*old(map))[name@].len() > 0
            &&& value_bytes(value) == header_values(*old(map))[name@][0]
        },
{
    map.remove(name)
}

/// Calls `HeaderMap::iter` and lists what it yields: one entry for each value, under its name.
/// The values of one name come in their order; nothing is said of the order of the names.
#[verifier::external_body]
pub(crate) fn header_entries(map: &HeaderMap<HeaderValue>) -> (entries: Vec<(String, HeaderValue)>)
    ensures
        collect_fields(entries_view(entries@)) == header_values(*map),
        forall|i: int| 0 <= i < entries@.len() ==> is_stored_name((#[trigger] entries@[i]).0@),
{
    map.iter().map(|(name, value)| (name.as_str().to_string(), value.clone())).collect()
}

/// Appending keeps the names that are there and adds no other than `name`.
pub proof fn lemma_append_field_names(fields: Fields, name: Seq<char>, value: Seq<u8>)
    ensures
        append_field(fields, name, value).dom() == fields.dom().insert(name),
{
    assert(append_field(fields, name, value).dom() =~= fields.dom().insert(name));
}

/// The fields that come of a list of entries have finitely many names.
pub proof fn lemma_collect_fields_finite(entries: Seq<(Seq<char>, Seq<u8>)>)
    ensures
        collect_fields(entries).dom().finite(),
    decreases entries.len(),
{
    if entries.len() > 0 {
        lemma_collect_fields_finite(entries.drop_last());
        lemma_append_field_names(
            collect_fields(entries.drop_last()),
            entries.last().0,
            entries.last().1,
        );
    }
}

/// Visible bytes that are read as text and encoded again come out unchanged.
pub proof fn lemma_visible_round_trip(bytes: Seq<u8>)
    requires
        is_visible(bytes),
    ensures
        vstd::utf8::encode_utf8(ascii_text(bytes)) == bytes,
{
    let text = ascii_text(bytes);
    assert forall|i: int| 0 <= i < text.len() implies 0 <= #[trigger] text[i] as u32 <= 127 by {
        assert(is_visible_byte(bytes[i]));
    }
    assert(vstd::utf8::is_ascii_chars(text));
    vstd::utf8::is_ascii_chars_encode_utf8(text);
    assert(vstd::utf8::encode_utf8(text) =~= bytes) by {
        assert forall|i: int| 0 <= i < bytes.len() implies text[i] as u8 == bytes[i] by {
            assert(is_visible_byte(bytes[i]));
        }
    }
}

/// A token is made of letters, digits and fifteen marks, and of nothing else.
pub proof fn law_token_characters(c: char)
    ensures
        is_token_char(c) <==> {
            ||| 'a' <= c <= 'z' || 'A' <= c <= 'Z' || '0' <= c <= '9'
            ||| c == '!' || c == '#' || c == '$' || c == '%' || c == '&' || c == '\''
            ||| c == '*' || c == '+' || c == '-' || c == '.' || c == '^' || c == '_'
            ||| c == '`' || c == '|' || c == '~'
        },
{
}

/// A name reads back as a header name exactly when it has from 1 to 65535 characters, all of them
/// token characters, and none in upper case.
pub proof fn law_field_names(name: Seq<char>)
    ensures
        is_field_name(name) <==> 0 < name.len() <= 65535 && forall|i: int|
            0 <= i < name.len() ==> is_token_char(#[trigger] name[i]) && !('A' <= name[i] <= 'Z'),
{
    if is_field_name(name) {
        assert forall|i: int| 0 <= i < name.len() implies is_token_char(#[trigger] name[i]) && !(
        'A' <= name[i] <= 'Z') by {
            assert(name.contains(name[i]));
        }
    }
}

/// A value reads as text exactly when each of its bytes prints in ASCII or is a tab, and each
/// byte is then the character with its number.
pub proof fn law_visible_values_read_as_text(bytes: Seq<u8>)
    ensures
        is_visible(bytes) <==> forall|k: int|
            0 <= k < bytes.len() ==> (#[trigger] bytes[k] == 9 || 32 <= bytes[k] <= 126),
        ascii_text(bytes).len() == bytes.len(),
        forall|k: int|
            0 <= k < bytes.len() ==> #[trigger] ascii_text(bytes)[k] == bytes[k] as char,
{
    if is_visible(bytes) {
        assert forall|k: int| 0 <= k < bytes.len() implies (#[trigger] bytes[k] == 9 || 32
            <= bytes[k] <= 126) by {
            assert(is_visible_byte(bytes[k]));
        }
    }
}

/// A value that is appended stands behind the values that its name has, and no other name
/// changes.
pub proof fn law_appending_adds_one_value(
    fields: Fields,
    name: Seq<char>,
    value: Seq<u8>,
    other: Seq<char>,
)
    ensures
        ({
            let more = append_field(fields, name, value);
            &&& more.contains_key(name)
            &&& more[name].last() == value
            &&& fields.contains_key(name) ==> more[name].drop_last() == fields[name]
            &&& !fields.contains_key(name) ==> more[name].len() == 1
            &&& other != name ==> (more.contains_key(other) <==> fields.contains_key(other))
            &&& other != name && fields.contains_key(other) ==> more[other] == fields[other]
        }),
{
    let more = append_field(fields, name, value);
    if fields.contains_key(name) {
        assert(more[name].drop_last() =~= fields[name]);
    }
}

} // verus!
