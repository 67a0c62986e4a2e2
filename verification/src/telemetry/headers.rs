//! Read-only view of the request headers for W3C context extraction.

use http::{HeaderMap, HeaderValue};
use vstd::prelude::*;
use vstd::utf8::{encode_scalar, encode_utf8, is_ascii_chars, is_ascii_chars_encode_utf8};

verus! {

/// Request headers.
#[verifier::external_type_specification]
#[verifier::external_body]
#[verifier::reject_recursive_types(T)]
pub struct ExHeaderMap<T>(HeaderMap<T>);

/// The value of a header: bytes, not all of which need be text.
#[verifier::external_type_specification]
#[verifier::external_body]
pub struct ExHeaderValue(HeaderValue);

/// The headers held by a map: for each name, in lower case, its first value.
pub uninterp spec fn first_values(headers: HeaderMap<HeaderValue>) -> Map<Seq<char>, Seq<u8>>;

/// The bytes of a header value.
pub uninterp spec fn value_bytes(value: HeaderValue) -> Seq<u8>;

pub open spec fn ascii_lower(c: char) -> char {
    if 'A' <= c <= 'Z' {
        (c as u32 + 32) as char
    } else {
        c
    }
}

pub open spec fn lower_name(key: Seq<char>) -> Seq<char> {
    key.map_values(|c: char| ascii_lower(c))
}

/// Whether a character may stand in a header name.
pub open spec fn is_name_char(c: char) -> bool {
    ||| 'a' <= c <= 'z'
    ||| 'A' <= c <= 'Z'
    ||| '0' <= c <= '9'
    ||| c == '!' || c == '#' || c == '$' || c == '%' || c == '&' || c == '\'' || c == '*'
    ||| c == '+' || c == '-' || c == '.' || c == '^' || c == '_' || c == '`' || c == '|'
    ||| c == '~'
}

/// Whether a text is made of the characters of header names.
pub open spec fn is_header_name(key: Seq<char>) -> bool {
    forall|i: int| 0 <= i < key.len() ==> is_name_char(#[trigger] key[i])
}

/// A byte of a name as it is held: letters in lower case, and zero in place of
/// what does not stand in header names.
pub open spec fn held_char(byte: u8) -> char {
    if is_name_char(byte as char) {
        ascii_lower(byte as char)
    } else {
        '\0'
    }
}

/// The name that a key is looked up under.
pub open spec fn held_name(key: Seq<char>) -> Seq<char> {
    encode_utf8(key).map_values(|byte: u8| held_char(byte))
}

/// `HeaderMap::get`: the first value under a name, whatever its case.
///
/// Keys that are no header names find nothing, except that a key of more than 64
/// bytes is not checked: each of its bytes that does not stand in header names is
/// looked up as zero, and so it is held where such a key was inserted.
#[verifier::external_body]
fn first_value<'a>(headers: &'a HeaderMap<HeaderValue>, key: &str) -> (value: Option<
    &'a HeaderValue,
>)
    ensures
        match value {
            Some(value) => first_values(*headers).contains_key(held_name(key@)) && value_bytes(
                *value,
            ) == first_values(*headers)[held_name(key@)],
            None => !first_values(*headers).contains_key(held_name(key@)),
        },
{
    headers.get(key)
}

/// Whether a byte is printable ASCII or a tab.
pub open spec fn is_visible(byte: u8) -> bool {
    32 <= byte < 127 || byte == 9
}

pub open spec fn all_visible(bytes: Seq<u8>) -> bool {
    forall|i: int| 0 <= i < bytes.len() ==> is_visible(#[trigger] bytes[i])
}

pub open spec fn ascii_text(bytes: Seq<u8>) -> Seq<char> {
    bytes.map_values(|byte: u8| byte as char)
}

/// `HeaderValue::to_str`: the value as text, where all of it is visible ASCII.
#[verifier::external_body]
fn visible_text(value: &HeaderValue) -> (text: Option<&str>)
    ensures
        match text {
            Some(text) => all_visible(value_bytes(*value)) && text@ == ascii_text(
                value_bytes(*value),
            ),
            None => !all_visible(value_bytes(*value)),
        },
{
    value.to_str().ok()
}

/// `HeaderMap::keys`: each name once. In which order is left open.
#[verifier::external_body]
fn names<'a>(headers: &'a HeaderMap<HeaderValue>) -> (names: Vec<&'a str>)
    ensures
        forall|i: int, j: int| 0 <= i < j < names@.len() ==> names@[i]@ != names@[j]@,
        forall|name: Seq<char>|
            first_values(*headers).contains_key(name) <==> exists|i: int|
                0 <= i < names@.len() && #[trigger] names@[i]@ == name,
{
    headers.keys().map(http::HeaderName::as_str).collect()
}

/// Read-only view of the request headers for W3C context extraction.
pub struct HeaderCarrier<'a> {
    pub headers: &'a HeaderMap<HeaderValue>,
}

impl<'a> HeaderCarrier<'a> {
    /// The first value of a header, where there is one and it is visible ASCII.
    pub fn get(&self, key: &str) -> (text: Option<&'a str>)
        ensures
            ({
                let values = first_values(*self.headers);
                let name = held_name(key@);
                match text {
                    Some(text) => values.contains_key(name) && all_visible(values[name]) && text@
                        == ascii_text(values[name]),
                    None => values.contains_key(name) ==> !all_visible(values[name]),
                }
            }),
            text matches Some(text) ==> ({
                let value = first_values(*self.headers)[held_name(key@)];
                &&& text@.len() == value.len()
                &&& forall|i: int|
                    0 <= i < value.len() ==> (#[trigger] text@[i]) as int == value[i] as int
                &&& forall|i: int|
                    0 <= i < value.len() ==> 32 <= #[trigger] value[i] <= 126 || value[i] == 9
            }),
            text is None && first_values(*self.headers).contains_key(held_name(key@)) ==> exists|
                i: int,
            |
                0 <= i < first_values(*self.headers)[held_name(key@)].len() && (
                #[trigger] first_values(*self.headers)[held_name(key@)][i] < 9
                    || 9 < first_values(*self.headers)[held_name(key@)][i] < 32 || first_values(
                    *self.headers,
                )[held_name(key@)][i] > 126),
    {
        match first_value(self.headers, key) {
            Some(value) => visible_text(value),
            None => None,
        }
    }

    /// The name of each header, once.
    pub fn keys(&self) -> (keys: Vec<&'a str>)
        ensures
            forall|i: int, j: int| 0 <= i < j < keys@.len() ==> keys@[i]@ != keys@[j]@,
            forall|name: Seq<char>|
                first_values(*self.headers).contains_key(name) <==> exists|i: int|
                    0 <= i < keys@.len() && #[trigger] keys@[i]@ == name,
    {
        names(self.headers)
    }
}

/// A header name is looked up in lower case.
pub proof fn names_are_looked_up_in_lower_case(key: Seq<char>)
    requires
        is_header_name(key),
    ensures
        held_name(key) == lower_name(key),
        held_name(key).len() == key.len(),
        forall|i: int|
            0 <= i < key.len() ==> (#[trigger] held_name(key)[i]) as int == if 'A' <= key[i]
                <= 'Z' {
                key[i] as int + 32
            } else {
                key[i] as int
            },
{
    assert(is_ascii_chars(key));
    is_ascii_chars_encode_utf8(key);
    assert forall|i: int| 0 <= i < key.len() implies #[trigger] held_name(key)[i]
        == lower_name(key)[i] by {
        assert(is_name_char(key[i]));
        assert(encode_utf8(key)[i] as char == key[i]);
    }
    assert(held_name(key) =~= lower_name(key));
}

/// A header is read the same whatever the case of the name it is asked for by.
pub proof fn names_are_read_in_any_case(key: Seq<char>)
    ensures
        held_name(lower_name(key)) == held_name(key),
    decreases key.len(),
{
    let lower = lower_name(key);
    if key.len() > 0 {
        let c = key[0];
        let rest = key.drop_first();
        names_are_read_in_any_case(rest);
        assert(lower.drop_first() =~= lower_name(rest));
        let first = seq![c];
        let first_lower = seq![ascii_lower(c)];
        if 'A' <= c <= 'Z' {
            is_ascii_chars_encode_utf8(first);
            is_ascii_chars_encode_utf8(first_lower);
            assert(encode_utf8(first)[0] as char == c);
            assert(encode_utf8(first_lower)[0] as char == ascii_lower(c));
            assert(held_name(first) =~= held_name(first_lower));
        }
        first_is_looked_up_first(key);
        first_is_looked_up_first(lower);
        assert(lower[0] == ascii_lower(c));
    } else {
        assert(lower =~= key);
    }
}

proof fn first_is_looked_up_first(key: Seq<char>)
    requires
        key.len() > 0,
    ensures
        held_name(key) == held_name(seq![key[0]]) + held_name(key.drop_first()),
{
    let first = seq![key[0]];
    assert(first.drop_first() =~= Seq::<char>::empty());
    assert(encode_utf8(first.drop_first()) =~= Seq::<u8>::empty());
    assert(encode_utf8(first) =~= encode_scalar(key[0] as u32));
    assert(encode_utf8(key) == encode_utf8(first) + encode_utf8(key.drop_first()));
    assert(held_name(key) =~= held_name(first) + held_name(key.drop_first()));
}

} // verus!
