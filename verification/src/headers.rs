//! Request headers: which texts the HTTP layer accepts as header values, and
//! the header set that every request of a client carries.

use vstd::prelude::*;
use vstd::string::StringSliceAdditionalSpecFns;
use vstd::utf8::encode_scalar;
use vstd::utf8::encode_utf8;
use vstd::utf8::has_width_1_encoding;
use vstd::utf8::is_ascii_chars;
use vstd::utf8::is_ascii_chars_encode_utf8;
use vstd::utf8::last_continuation_byte;
use vstd::utf8::leading_byte_width_1;
use vstd::utf8::leading_byte_width_2;
use vstd::utf8::leading_byte_width_3;
use vstd::utf8::leading_byte_width_4;
use vstd::utf8::second_last_continuation_byte;
use vstd::utf8::third_last_continuation_byte;

use reqwest::header::HeaderMap;
use reqwest::header::HeaderValue;
use reqwest::header::InvalidHeaderValue;

verus! {

/// `reqwest::header::HeaderValue`: a header value, known here only by the
/// bytes it holds.
#[verifier::external_type_specification]
#[verifier::external_body]
pub struct ExHeaderValue(HeaderValue);

/// `reqwest::header::InvalidHeaderValue`: the refusal of a text as a header
/// value. It is only passed on.
#[verifier::external_type_specification]
#[verifier::external_body]
pub struct ExInvalidHeaderValue(InvalidHeaderValue);

/// `reqwest::header::HeaderMap`: a set of headers, known here only by the
/// names and values it holds.
#[verifier::external_type_specification]
#[verifier::external_body]
#[verifier::reject_recursive_types(T)]
pub struct ExHeaderMap<T>(HeaderMap<T>);

/// The bytes that a header value holds.
pub uninterp spec fn header_value_bytes(value: HeaderValue) -> Seq<u8>;

/// What a header map holds: for each header name in it, written in lower
/// case, the values stored under that name, oldest first.
pub uninterp spec fn header_entries(headers: HeaderMap<HeaderValue>) -> Map<Seq<char>, Seq<Seq<u8>>>;

/// The contents of a header map that holds nothing.
pub open spec fn no_headers() -> Map<Seq<char>, Seq<Seq<u8>>> {
    Map::empty()
}

/// Whether a byte may stand in a header value: the horizontal tab and every
/// byte from the space upwards except DEL.
pub open spec fn is_value_byte(b: u8) -> bool {
    (b >= 32 && b != 127) || b == 9
}

/// Whether a byte string is accepted as a header value.
pub open spec fn is_header_value(bytes: Seq<u8>) -> bool {
    forall|i: int| 0 <= i < bytes.len() ==> is_value_byte(#[trigger] bytes[i])
}

/// Whether a character may stand in a header value: anything but a control
/// character, with the horizontal tab allowed.
pub open spec fn is_value_char(c: char) -> bool {
    (c as u32 >= 32 && c as u32 != 127) || c == '\t'
}

/// Whether a text may stand in a header: none of its characters is a
/// control character other than the tab.
pub open spec fn is_header_text(text: Seq<char>) -> bool {
    forall|i: int| 0 <= i < text.len() ==> is_value_char(#[trigger] text[i])
}

/// Whether a character is an ASCII letter, a digit or a hyphen.
pub open spec fn is_name_char(c: char) -> bool {
    ('a' <= c && c <= 'z') || ('A' <= c && c <= 'Z') || ('0' <= c && c <= '9') || c == '-'
}

/// The header names this library writes: between 1 and 64 ASCII letters,
/// digits and hyphens.
pub open spec fn is_header_name(name: Seq<char>) -> bool {
    &&& 1 <= name.len() <= 64
    &&& forall|i: int| 0 <= i < name.len() ==> is_name_char(#[trigger] name[i])
}

/// A character with an ASCII capital letter turned into its small letter.
pub open spec fn lower_char(c: char) -> char {
    if 'A' <= c && c <= 'Z' {
        ((c as u8) + 32) as char
    } else {
        c
    }
}

/// A text with its ASCII capital letters turned into small letters.
pub open spec fn lower_case(name: Seq<char>) -> Seq<char> {
    Seq::new(name.len(), |i: int| lower_char(name[i]))
}

/// Whether a header map holds few enough names that one more always fits.
pub open spec fn has_room(entries: Map<Seq<char>, Seq<Seq<u8>>>) -> bool {
    entries.dom().finite() && entries.dom().len() < 4096
}

/// `HeaderValue::from_str`: accepts a text exactly when each byte of its
/// UTF-8 form is a tab or is at least 32 and not 127, and then holds those
/// bytes.
#[verifier::external_body]
fn parse_header_value(text: &str) -> (parsed: Result<HeaderValue, InvalidHeaderValue>)
    ensures
        parsed is Ok <==> is_header_value(text.spec_bytes()),
        parsed is Ok ==> header_value_bytes(parsed->Ok_0) == text.spec_bytes(),
{
    HeaderValue::from_str(text)
}

/// `HeaderMap::new`: a map that holds nothing.
#[verifier::external_body]
fn empty_header_map() -> (headers: HeaderMap<HeaderValue>)
    ensures
        header_entries(headers) == no_headers(),
{
    HeaderMap::new()
}

/// `HeaderMap::insert` with a literal name: the name is stored in lower
/// case, and the value replaces whatever stood under that name. The map
/// panics on a text that is no header name and when it would have to grow
/// past 32768 slots, which a map of fewer than 4096 names never asks for.
#[verifier::external_body]
fn insert_header(headers: &mut HeaderMap<HeaderValue>, name: &'static str, value: HeaderValue)
    requires
        is_header_name(name@),
        has_room(header_entries(*old(headers))),
    ensures
        header_entries(*final(headers)) == header_entries(*old(headers)).insert(
            lower_case(name@),
            seq![header_value_bytes(value)],
        ),
{
    headers.insert(name, value);
}

/// The headers of every request: JSON is asked for and sent, and the two
/// credentials go along under `api-key` and `username`.
pub open spec fn client_headers(api_key: Seq<char>, username: Seq<char>) -> Map<
    Seq<char>,
    Seq<Seq<u8>>,
> {
    no_headers().insert("accept"@, seq![encode_utf8("application/json"@)]).insert(
        "content-type"@,
        seq![encode_utf8("application/json"@)],
    ).insert("api-key"@, seq![encode_utf8(api_key)]).insert(
        "username"@,
        seq![encode_utf8(username)],
    )
}

/// The bytes of one character are accepted in a header value exactly when
/// the character is.
proof fn lemma_scalar_bytes(c: char)
    ensures
        is_header_value(encode_scalar(c as u32)) <==> is_value_char(c),
{
    let v = c as u32;
    let bytes = encode_scalar(v);
    if has_width_1_encoding(v) {
        assert(leading_byte_width_1(v) == v as u8) by (bit_vector)
            requires
                v <= 0x7f,
        ;
        assert(bytes[0] == v as u8);
        if is_value_char(c) {
            assert forall|i: int| 0 <= i < bytes.len() implies is_value_byte(
                #[trigger] bytes[i],
            ) by {
                assert(i == 0);
            }
        } else {
            assert(!is_value_byte(bytes[0]));
        }
    } else {
        assert(leading_byte_width_2(v) >= 0x80 && leading_byte_width_3(v) >= 0x80
            && leading_byte_width_4(v) >= 0x80 && last_continuation_byte(v) >= 0x80
            && second_last_continuation_byte(v) >= 0x80 && third_last_continuation_byte(v)
            >= 0x80) by (bit_vector);
        assert forall|i: int| 0 <= i < bytes.len() implies is_value_byte(#[trigger] bytes[i]) by {
            assert(bytes[i] >= 0x80);
        }
    }
}

/// A text is accepted as a header value, byte by byte in its UTF-8 form,
/// exactly when none of its characters is a control character other than
/// the tab.
pub proof fn lemma_header_text(text: Seq<char>)
    ensures
        is_header_value(encode_utf8(text)) <==> is_header_text(text),
    decreases text.len(),
{
    if text.len() > 0 {
        let head = encode_scalar(text[0] as u32);
        let rest = text.drop_first();
        let tail = encode_utf8(rest);
        let bytes = encode_utf8(text);
        assert(bytes == head + tail);
        lemma_scalar_bytes(text[0]);
        lemma_header_text(rest);
        if is_header_text(text) {
            assert forall|i: int| 0 <= i < rest.len() implies is_value_char(#[trigger] rest[i]) by {
                assert(rest[i] == text[i + 1]);
            }
            assert forall|i: int| 0 <= i < bytes.len() implies is_value_byte(
                #[trigger] bytes[i],
            ) by {
                if i < head.len() {
                    assert(bytes[i] == head[i]);
                } else {
                    assert(bytes[i] == tail[i - head.len()]);
                }
            }
        }
        if is_header_value(bytes) {
            assert forall|i: int| 0 <= i < head.len() implies is_value_byte(#[trigger] head[i]) by {
                assert(head[i] == bytes[i]);
            }
            assert forall|i: int| 0 <= i < tail.len() implies is_value_byte(#[trigger] tail[i]) by {
                assert(tail[i] == bytes[i + head.len()]);
            }
            assert forall|i: int| 0 <= i < text.len() implies is_value_char(#[trigger] text[i]) by {
                if i > 0 {
                    assert(text[i] == rest[i - 1]);
                }
            }
        }
    }
}

proof fn lemma_media_type_is_value()
    ensures
        is_header_value(encode_utf8("application/json"@)),
{
    reveal_strlit("application/json");
    let chars = "application/json"@;
    assert(is_ascii_chars(chars));
    is_ascii_chars_encode_utf8(chars);
    let bytes = encode_utf8(chars);
    assert forall|i: int| 0 <= i < bytes.len() implies is_value_byte(#[trigger] bytes[i]) by {
        assert(bytes[i] == chars[i] as u8);
    }
}

proof fn lemma_header_names()
    ensures
        is_header_name("Accept"@),
        is_header_name("Content-type"@),
        is_header_name("api-key"@),
        is_header_name("username"@),
        lower_case("Accept"@) == "accept"@,
        lower_case("Content-type"@) == "content-type"@,
        lower_case("api-key"@) == "api-key"@,
        lower_case("username"@) == "username"@,
{
    reveal_strlit("Accept");
    reveal_strlit("accept");
    reveal_strlit("Content-type");
    reveal_strlit("content-type");
    reveal_strlit("api-key");
    reveal_strlit("username");
    assert(lower_case("Accept"@) =~= "accept"@);
    assert(lower_case("Content-type"@) =~= "content-type"@);
    assert(lower_case("api-key"@) =~= "api-key"@);
    assert(lower_case("username"@) =~= "username"@);
}

/// Builds the header set of a client from its two credentials. A credential
/// that the HTTP layer refuses as a header value is the only cause of
/// failure.
pub fn default_headers(api_key: &str, username: &str) -> (made: Result<
    HeaderMap<HeaderValue>,
    InvalidHeaderValue,
>)
    ensures
        made is Ok <==> is_header_text(api_key@) && is_header_text(username@),
        made is Ok ==> header_entries(made->Ok_0) == client_headers(api_key@, username@),
{
    proof {
        lemma_media_type_is_value();
        lemma_header_names();
        lemma_header_text(api_key@);
        lemma_header_text(username@);
    }
    let mut headers = empty_header_map();
    let accept = match parse_header_value("application/json") {
        Ok(value) => value,
        Err(refused) => {
            return Err(refused);
        },
    };
    insert_header(&mut headers, "Accept", accept);
    let content_type = match parse_header_value("application/json") {
        Ok(value) => value,
        Err(refused) => {
            return Err(refused);
        },
    };
    insert_header(&mut headers, "Content-type", content_type);
    let key = match parse_header_value(api_key) {
        Ok(value) => value,
        Err(refused) => {
            return Err(refused);
        },
    };
    insert_header(&mut headers, "api-key", key);
    let user = match parse_header_value(username) {
        Ok(value) => value,
        Err(refused) => {
            return Err(refused);
        },
    };
    insert_header(&mut headers, "username", user);
    Ok(headers)
}

} // verus!
