//! What the library reads from and writes to a `HeaderMap`.
//!
//! The map itself stays the one of the HTTP stack. Its contents are spoken
//! of through `header_values`: for each header name, in lower case, the
//! values kept under it, each as its bytes, in the order in which the map
//! gives them out.

use reqwest::header::{HeaderMap, HeaderName, HeaderValue};
use vstd::prelude::*;
use vstd::utf8::{
    decode_utf8, encode_utf8, encode_utf8_decode_utf8, is_ascii_chars, is_ascii_chars_encode_utf8,
};

verus! {

/// `http::HeaderMap`, as `reqwest` hands it on: opaque here.
#[verifier::external_type_specification]
#[verifier::external_body]
#[verifier::reject_recursive_types(T)]
pub struct ExHeaderMap<T>(HeaderMap<T>);

/// `http::HeaderValue`, the value type of a `HeaderMap`: opaque here.
#[verifier::external_type_specification]
#[verifier::external_body]
pub struct ExHeaderValue(HeaderValue);

/// The headers a map holds: under each name, in lower case, all the values
/// that the map keeps for it, each as its bytes, the first one first.
pub uninterp spec fn header_values(headers: HeaderMap) -> Map<Seq<char>, Seq<Seq<u8>>>;

/// `c`, or its lower-case form where `c` is an ASCII capital.
pub open spec fn ascii_lower(c: char) -> char {
    if 'A' <= c && c <= 'Z' {
        ((c as u8) + 32) as char
    } else {
        c
    }
}

/// The form under which a header name is kept and looked up: names differ
/// in case only where they differ as headers.
pub open spec fn header_key(name: Seq<char>) -> Seq<char> {
    name.map_values(|c: char| ascii_lower(c))
}

/// Whether every byte is a tab or a printable ASCII character, as a header
/// value must be to be read as text.
pub open spec fn visible_ascii(bytes: Seq<u8>) -> bool {
    forall|i: int| 0 <= i < bytes.len() ==> (32 <= #[trigger] bytes[i] < 127 || bytes[i] == 9)
}

/// The text of the header `name`: that of its first value, where the header
/// is present and that value is visible ASCII.
pub open spec fn header_text(values: Map<Seq<char>, Seq<Seq<u8>>>, name: Seq<char>) -> Option<
    Seq<char>,
> {
    let key = header_key(name);
    if values.contains_key(key) && values[key].len() > 0 && visible_ascii(values[key][0]) {
        Some(decode_utf8(values[key][0]))
    } else {
        None
    }
}

/// The headers `values` with the header `name` set to `text`: the text is
/// then the one value under that name, whatever stood there before.
pub open spec fn with_header(
    values: Map<Seq<char>, Seq<Seq<u8>>>,
    name: Seq<char>,
    text: Seq<char>,
) -> Map<Seq<char>, Seq<Seq<u8>>> {
    values.insert(header_key(name), seq![encode_utf8(text)])
}

/// Whether every character is a tab or a printable ASCII character.
pub open spec fn visible_text(text: Seq<char>) -> bool {
    forall|i: int|
        0 <= i < text.len() ==> (' ' <= #[trigger] text[i] && text[i] <= '~' || text[i] == '\t')
}

/// A header reads back as the text it was set to, where that text is
/// visible ASCII.
pub proof fn lemma_header_reads_back(
    values: Map<Seq<char>, Seq<Seq<u8>>>,
    name: Seq<char>,
    text: Seq<char>,
)
    requires
        visible_text(text),
    ensures
        header_text(with_header(values, name, text), name) == Some(text),
{
    let bytes = encode_utf8(text);
    assert(is_ascii_chars(text));
    is_ascii_chars_encode_utf8(text);
    encode_utf8_decode_utf8(text);
    assert forall|i: int| 0 <= i < bytes.len() implies (32 <= #[trigger] bytes[i] < 127 || bytes[i]
        == 9) by {
        assert(text[i] as u8 == bytes[i]);
    }
}

/// Setting a header leaves the headers of other names as they were, with
/// all their values.
pub proof fn lemma_other_header_kept(
    values: Map<Seq<char>, Seq<Seq<u8>>>,
    name: Seq<char>,
    text: Seq<char>,
    other: Seq<char>,
)
    requires
        header_key(other) != header_key(name),
    ensures
        header_text(with_header(values, name, text), other) == header_text(values, other),
        with_header(values, name, text).contains_key(header_key(other)) == values.contains_key(
            header_key(other),
        ),
        with_header(values, name, text)[header_key(other)] == values[header_key(other)],
{
}

/// A header that was set has one value and no other.
pub proof fn lemma_header_set_alone(
    values: Map<Seq<char>, Seq<Seq<u8>>>,
    name: Seq<char>,
    text: Seq<char>,
)
    ensures
        with_header(values, name, text).contains_key(header_key(name)),
        with_header(values, name, text)[header_key(name)] == seq![encode_utf8(text)],
{
}

/// `HeaderMap::get` with a text key, then `HeaderValue::to_str`: the lookup
/// ignores the case of the name and gives the first of the values under it;
/// the value is text only where all its bytes are visible ASCII.
#[verifier::external_body]
pub(crate) fn read_header(headers: &HeaderMap, name: &str) -> (text: Option<String>)
    ensures
        text is Some <==> header_text(header_values(*headers), name@) is Some,
        text is Some ==> header_text(header_values(*headers), name@) == Some(text->0@),
{
    headers.get(name).and_then(|value| value.to_str().ok()).map(String::from)
}

/// The fewest names that a header map holds when it refuses another header:
/// its table grows up to 32768 slots, and it asks for more only when at
/// least a fifth of them are taken.
pub const FEWEST_NAMES_OF_A_FULL_MAP: usize = 6554;

/// Whether a character is a letter, a digit or a hyphen.
pub open spec fn plain_header_char(c: char) -> bool {
    ('a' <= c && c <= 'z') || ('A' <= c && c <= 'Z') || ('0' <= c && c <= '9') || c == '-'
}

/// Whether a text is a header name of the plainest kind: 1 to 64
/// characters, each a letter, a digit or a hyphen.
pub open spec fn plain_header_name(name: Seq<char>) -> bool {
    &&& 1 <= name.len() <= 64
    &&& forall|i: int| 0 <= i < name.len() ==> plain_header_char(#[trigger] name[i])
}

/// Whether headers are so few that their map takes another one.
pub open spec fn has_room(values: Map<Seq<char>, Seq<Seq<u8>>>) -> bool {
    values.dom().finite() && values.dom().len() < FEWEST_NAMES_OF_A_FULL_MAP
}

/// `HeaderName::from_bytes` and `HeaderValue::from_str`, then
/// `HeaderMap::try_insert`: where the header is written, the value is the
/// only one that the map then holds under that name, and the values under
/// every other name stay; where the name or the value is refused, or the
/// map takes no more, the map holds what it held. A map
/// holds finitely many names. A plain name and a visible value are never
/// refused, and the map takes the header as long as it holds fewer than
/// 6554 names.
#[verifier::external_body]
pub(crate) fn write_header(headers: &mut HeaderMap, name: &str, value: &str) -> (written: bool)
    ensures
        header_values(*final(headers)) == (if written {
            with_header(header_values(*old(headers)), name@, value@)
        } else {
            header_values(*old(headers))
        }),
        header_values(*old(headers)).dom().finite(),
        (plain_header_name(name@) && visible_text(value@) && has_room(
            header_values(*old(headers)),
        )) ==> written,
{
    match (HeaderName::from_bytes(name.as_bytes()), HeaderValue::from_str(value)) {
        (Ok(name), Ok(value)) => headers.try_insert(name, value).is_ok(),
        _ => false,
    }
}

} // verus!
