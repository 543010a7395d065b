//! Decoding of request and response bodies into JSON values.

use crate::json::{
    lemma_object_view, model_of_option, object_view, parse_json, parsed_json, Json, JsonValue,
};
use crate::text::{eq_ignore_ascii_case, same_ignoring_ascii_case};
use vstd::prelude::*;
use vstd::utf8::{decode_utf8, encode_utf8, encode_utf8_decode_utf8, valid_utf8};

verus! {

/// The only content type under which a request body is decoded.
pub const JSON_CONTENT_TYPE: &'static str = "application/json";

/// The key under which a request body that is text, not JSON, is reported.
pub const AS_STRING: &'static str = "request_as_a_string";

/// The key under which a request body that is not even text is reported.
pub const AS_RAW_BYTES: &'static str = "request_as_raw_bytes";

/// The lower-case hexadecimal digit of `n`, for `n` below sixteen.
pub open spec fn hex_digit(n: int) -> char {
    if n < 10 {
        (('0' as u8) + n) as char
    } else {
        (('a' as u8) + n - 10) as char
    }
}

/// One byte as `bytes::Bytes` writes it for debugging: an escape for a line
/// feed, a carriage return, a tab, a backslash, a quote and the zero byte,
/// the character itself for any other printable ASCII byte, and `\x` with two
/// hexadecimal digits for the rest.
pub open spec fn escaped_byte(b: u8) -> Seq<char> {
    if b == 0x0a {
        seq!['\\', 'n']
    } else if b == 0x0d {
        seq!['\\', 'r']
    } else if b == 0x09 {
        seq!['\\', 't']
    } else if b == 0x5c || b == 0x22 {
        seq!['\\', b as char]
    } else if b == 0 {
        seq!['\\', '0']
    } else if 0x20 <= b < 0x7f {
        seq![b as char]
    } else {
        seq!['\\', 'x', hex_digit(b as int / 16), hex_digit(b as int % 16)]
    }
}

/// The bytes of `bytes`, each as `escaped_byte` writes it, in order.
pub open spec fn escaped_bytes(bytes: Seq<u8>) -> Seq<char>
    decreases bytes.len(),
{
    if bytes.len() == 0 {
        Seq::empty()
    } else {
        escaped_bytes(bytes.drop_last()) + escaped_byte(bytes.last())
    }
}

/// A byte string as `bytes::Bytes` writes it for debugging: `b"`, the escaped
/// bytes, and a closing quote.
pub open spec fn debug_text(bytes: Seq<u8>) -> Seq<char> {
    seq!['b', '"'] + escaped_bytes(bytes) + seq!['"']
}

/// Calls `String::from_utf8` on a copy of `bytes`: the text whose UTF-8
/// encoding the bytes are, and `None` where they are not valid UTF-8.
#[verifier::external_body]
pub(crate) fn utf8_text(bytes: &[u8]) -> (text: Option<String>)
    ensures
        match text {
            Some(t) => valid_utf8(bytes@) && encode_utf8(t@) == bytes@,
            None => !valid_utf8(bytes@),
        },
{
    String::from_utf8(bytes.to_vec()).ok()
}

/// Copies `bytes` into a `bytes::Bytes` and formats it with `{:?}`. The
/// `Debug` impl of `Bytes` writes `b"`, then each byte escaped as
/// `escaped_byte` says, then `"`.
#[verifier::external_body]
pub(crate) fn bytes_debug(bytes: &[u8]) -> (text: String)
    ensures
        text@ == debug_text(bytes@),
{
    format!("{:?}", actix_web::web::Bytes::copy_from_slice(bytes))
}

/// Whether a request with this content type has its body decoded: the type
/// is `application/json`, whatever the case of its ASCII letters.
pub open spec fn is_json(content_type: Seq<char>) -> bool {
    same_ignoring_ascii_case(content_type, JSON_CONTENT_TYPE@)
}

/// An object with the one member `key`, a string.
pub open spec fn wrapped(key: Seq<char>, text: Seq<char>) -> Json {
    Json::Object(seq![(key, Json::String(text))])
}

/// The body of a JSON request, given what the parser made of its bytes: null
/// for no bytes, the document where the bytes are one, else the bytes as text
/// under `request_as_a_string`, and where they are no text, their debug form
/// under `request_as_raw_bytes`.
pub open spec fn request_body_from(parsed: Option<Json>, bytes: Seq<u8>) -> Json {
    if bytes.len() == 0 {
        Json::Null
    } else {
        match parsed {
            Some(document) => document,
            None => if valid_utf8(bytes) {
                wrapped(AS_STRING@, decode_utf8(bytes))
            } else {
                wrapped(AS_RAW_BYTES@, debug_text(bytes))
            },
        }
    }
}

/// The body of a request as it is reported: null unless the content type is
/// JSON, and then what `request_body_from` makes of the bytes.
pub open spec fn request_body(content_type: Seq<char>, bytes: Seq<u8>) -> Json {
    if is_json(content_type) {
        request_body_from(parsed_json(bytes), bytes)
    } else {
        Json::Null
    }
}

/// The body of a response, given what the parser made of its bytes: null for
/// no bytes, the document where the bytes are one, else the bytes as a
/// string, and where they are no text, their debug form as a string.
pub open spec fn response_body_from(parsed: Option<Json>, bytes: Seq<u8>) -> Json {
    if bytes.len() == 0 {
        Json::Null
    } else {
        match parsed {
            Some(document) => document,
            None => if valid_utf8(bytes) {
                Json::String(decode_utf8(bytes))
            } else {
                Json::String(debug_text(bytes))
            },
        }
    }
}

/// The body of a response as it is reported, whatever its content type.
pub open spec fn response_body(bytes: Seq<u8>) -> Json {
    response_body_from(parsed_json(bytes), bytes)
}

/// The text that stands for bytes that are no JSON document: the bytes as
/// text where they are valid UTF-8, and their debug form where they are not.
/// The flag says which.
pub fn text_of_bytes(bytes: &[u8]) -> (result: (String, bool))
    ensures
        result.1 == valid_utf8(bytes@),
        result.1 ==> result.0@ == decode_utf8(bytes@),
        !result.1 ==> result.0@ == debug_text(bytes@),
{
    match utf8_text(bytes) {
        Some(text) => {
            proof {
                encode_utf8_decode_utf8(text@);
            }
            (text, true)
        },
        None => (bytes_debug(bytes), false),
    }
}

/// An object with the one member `key`, the string `text`.
fn wrap(key: &str, text: String) -> (value: JsonValue)
    ensures
        value@ == wrapped(key@, text@),
{
    let mut members: Vec<(String, JsonValue)> = Vec::new();
    members.push((key.to_owned(), JsonValue::String(text)));
    proof {
        lemma_object_view(members);
        assert(object_view(members@) =~= seq![(key@, Json::String(text@))]);
    }
    JsonValue::Object(members)
}

/// Whether a request with this content type has its body decoded.
pub fn is_json_content_type(content_type: &str) -> (json: bool)
    ensures
        json == is_json(content_type@),
{
    eq_ignore_ascii_case(content_type, JSON_CONTENT_TYPE)
}

/// The body of a JSON request with the bytes `bytes`, of which the parser
/// made `parsed`.
pub fn request_body_of(parsed: Option<JsonValue>, bytes: &[u8]) -> (body: JsonValue)
    ensures
        body@ == request_body_from(model_of_option(parsed), bytes@),
{
    if bytes.len() == 0 {
        return JsonValue::Null;
    }
    match parsed {
        Some(document) => document,
        None => {
            let (text, is_text) = text_of_bytes(bytes);
            if is_text {
                wrap(AS_STRING, text)
            } else {
                wrap(AS_RAW_BYTES, text)
            }
        },
    }
}

/// The body of a request with the bytes `bytes` under the content type
/// `content_type`, as it is reported.
pub fn get_request_body(content_type: &str, bytes: &[u8]) -> (body: JsonValue)
    ensures
        body@ == request_body(content_type@, bytes@),
{
    if !is_json_content_type(content_type) {
        return JsonValue::Null;
    }
    if bytes.len() == 0 {
        return JsonValue::Null;
    }
    let parsed = parse_json(bytes);
    request_body_of(parsed, bytes)
}

/// The body of a response with the bytes `bytes`, of which the parser made
/// `parsed`.
pub fn response_body_of(parsed: Option<JsonValue>, bytes: &[u8]) -> (body: JsonValue)
    ensures
        body@ == response_body_from(model_of_option(parsed), bytes@),
{
    if bytes.len() == 0 {
        return JsonValue::Null;
    }
    match parsed {
        Some(document) => document,
        None => {
            let (text, _is_text) = text_of_bytes(bytes);
            JsonValue::String(text)
        },
    }
}

/// The body of a response with the bytes `bytes`, as it is reported.
pub fn decode_response_body(bytes: &[u8]) -> (body: JsonValue)
    ensures
        body@ == response_body(bytes@),
{
    if bytes.len() == 0 {
        return JsonValue::Null;
    }
    let parsed = parse_json(bytes);
    response_body_of(parsed, bytes)
}

/// A request body under the JSON content type whose bytes are a JSON document
/// is reported as that document.
pub proof fn lemma_request_body_parsed(content_type: Seq<char>, bytes: Seq<u8>)
    requires
        is_json(content_type),
        bytes.len() > 0,
        parsed_json(bytes) is Some,
    ensures
        request_body(content_type, bytes) == parsed_json(bytes)->0,
{
}

/// A response body whose bytes are a JSON document is reported as that
/// document, and a body without bytes as null.
pub proof fn lemma_response_body_parsed(bytes: Seq<u8>)
    ensures
        bytes.len() == 0 ==> response_body(bytes) == Json::Null,
        bytes.len() > 0 && parsed_json(bytes) is Some ==> response_body(bytes) == parsed_json(
            bytes,
        )->0,
{
}

/// However the request's bytes read, a body under another content type than
/// JSON is reported as null, and so is a body without bytes.
pub proof fn lemma_request_body_null(content_type: Seq<char>, bytes: Seq<u8>)
    requires
        !is_json(content_type) || bytes.len() == 0,
    ensures
        request_body(content_type, bytes) == Json::Null,
{
}

/// The debug form of a byte string is never empty.
pub proof fn lemma_debug_text_nonempty(bytes: Seq<u8>)
    ensures
        debug_text(bytes).len() >= 3,
{
}

/// A response body that is no JSON document is reported as a string: the
/// text itself where the bytes are text, and a non-empty text where they are
/// not.
pub proof fn lemma_response_body_text(bytes: Seq<u8>)
    requires
        bytes.len() > 0,
        parsed_json(bytes) is None,
    ensures
        response_body(bytes) is String,
        valid_utf8(bytes) ==> response_body(bytes) == Json::String(decode_utf8(bytes)),
        !valid_utf8(bytes) ==> response_body(bytes)->String_0.len() > 0,
{
    lemma_debug_text_nonempty(bytes);
}

} // verus!
