//! What is read from one request/response pair, and the descriptive values
//! drawn from it.

use crate::body::{decode_response_body, response_body};
use crate::clock::{utc_now, utc_text, Timestamp};
use crate::headers::Headers;
use crate::json::{lemma_object_view, object_view, Json, JsonValue};
use crate::text::{
    eq_ignore_ascii_case, head_before, head_of, same_ignoring_ascii_case, to_uppercase, trim,
    trimmed, upper_case,
};
use vstd::prelude::*;
use vstd::string::*;

verus! {

/// One header line: its name, and its value where that is text.
#[derive(Clone, Debug, PartialEq, Eq)]
pub struct Header {
    pub name: String,
    pub value: Option<String>,
}

/// What is known of the size of a response body.
#[derive(Clone, Copy, Debug, PartialEq, Eq)]
pub enum BodySize {
    /// There is no body.
    Empty,
    /// The body has this many bytes.
    Sized(u64),
    /// The body is a stream of unknown length.
    Stream,
}

/// One request and the response to it, as plain values.
#[derive(Clone, Debug, PartialEq, Eq)]
pub struct Exchange {
    /// The scheme of the connection, such as `https`.
    pub scheme: String,
    /// The host that the request named.
    pub host: String,
    /// The address of the client, honouring proxies, where it is known.
    pub realip_remote_addr: Option<String>,
    /// The path and query of the request.
    pub uri: String,
    /// The method of the request.
    pub method: String,
    /// The header lines of the request, in the order in which they are read.
    pub request_headers: Vec<Header>,
    /// The status code of the response.
    pub status: u16,
    /// The header lines of the response, in the order in which they are read.
    pub response_headers: Vec<Header>,
    /// The size of the response body.
    pub body_size: BodySize,
    /// The debug text of the error that the response carries, if it carries
    /// one.
    pub error: Option<String>,
    /// The bytes of the response body, where they can be had.
    pub body: Option<Vec<u8>>,
}

/// What ends the protocol name.
pub const PROTOCOL_SUFFIX: &'static str = "/x";

/// The address reported where none is known.
pub const LOOPBACK: &'static str = "127.0.0.1";

/// What stands between scheme and host in a URL.
pub const SCHEME_SEPARATOR: &'static str = "://";

/// The name of the header that holds the user agent.
pub const USER_AGENT: &'static str = "user-agent";

/// Where the type of an error ends in its debug text, for a tuple struct.
pub const PARENTHESIS: &'static str = "(";

/// Where the type of an error ends in its debug text, for a struct with
/// fields.
pub const BRACES: &'static str = " {{";

/// The source reported with every error.
pub const ON_ERROR: &'static str = "onError";

/// The key of an error descriptor under which its source stands.
pub const SOURCE_KEY: &'static str = "source";

/// The key of an error descriptor under which the debug text of the error
/// stands.
pub const MESSAGE_KEY: &'static str = "message";

/// The key of an error descriptor under which the type of the error stands.
pub const TYPE_KEY: &'static str = "type";

/// The value of a header as it is reported: its text, and the empty text
/// where it has none.
pub open spec fn header_text(line: Header) -> Seq<char> {
    match line.value {
        Some(text) => text@,
        None => Seq::empty(),
    }
}

/// The map that header lines spell: each name with the text of the last line
/// that bears it.
pub open spec fn header_map(lines: Seq<Header>) -> Map<Seq<char>, Seq<char>>
    decreases lines.len(),
{
    if lines.len() == 0 {
        Map::empty()
    } else {
        header_map(lines.drop_last()).insert(lines.last().name@, header_text(lines.last()))
    }
}

/// The index of the first of `lines` from `from` on that bears the name
/// `name`, whatever the case of its ASCII letters; the number of lines where
/// none does.
pub open spec fn first_named(lines: Seq<Header>, name: Seq<char>, from: int) -> int
    decreases lines.len() - from,
{
    if from >= lines.len() {
        lines.len() as int
    } else if same_ignoring_ascii_case(lines[from].name@, name) {
        from
    } else {
        first_named(lines, name, from + 1)
    }
}

/// The user agent that the header lines name: the text of the first line
/// named `user-agent`, and nothing where there is no such line.
pub open spec fn user_agent_of(lines: Seq<Header>) -> Option<Seq<char>> {
    if first_named(lines, USER_AGENT@, 0) < lines.len() {
        Some(header_text(lines[first_named(lines, USER_AGENT@, 0)]))
    } else {
        None
    }
}

/// The type of an error, read off its debug text: what stands before the
/// first parenthesis, of that what stands before the first ` {{`, and of that
/// what is left when the white space at its two ends is removed.
pub open spec fn error_type(message: Seq<char>) -> Seq<char> {
    trimmed(head_before(head_before(message, PARENTHESIS@), BRACES@))
}

/// The descriptor of an error with the debug text `message`.
pub open spec fn error_descriptor(message: Seq<char>) -> Json {
    Json::Object(
        seq![
            (SOURCE_KEY@, Json::String(ON_ERROR@)),
            (MESSAGE_KEY@, Json::String(message)),
            (TYPE_KEY@, Json::String(error_type(message))),
        ],
    )
}

/// The URL of a request.
pub open spec fn url_of(exchange: Exchange) -> Seq<char> {
    exchange.scheme@ + SCHEME_SEPARATOR@ + exchange.host@ + exchange.uri@
}

/// The size of a body in bytes, zero where it is not known.
pub open spec fn size_of(size: BodySize) -> u64 {
    match size {
        BodySize::Sized(n) => n,
        _ => 0,
    }
}

/// Of several lines that bear one name, the last gives the value: a line
/// after which its name does not come again is what the map holds for that
/// name.
pub proof fn lemma_header_map_last_wins(lines: Seq<Header>, i: int)
    requires
        0 <= i < lines.len(),
        forall|j: int| i < j < lines.len() ==> lines[j].name@ != lines[i].name@,
    ensures
        header_map(lines).contains_key(lines[i].name@),
        header_map(lines)[lines[i].name@] == header_text(lines[i]),
    decreases lines.len(),
{
    if i < lines.len() - 1 {
        lemma_header_map_last_wins(lines.drop_last(), i);
    }
}

/// The protocol name made of the upper-case scheme `upper`.
pub fn protocol_from(upper: String) -> (protocol: String)
    ensures
        protocol@ == upper@ + PROTOCOL_SUFFIX@,
{
    let mut protocol = upper;
    protocol.append(PROTOCOL_SUFFIX);
    protocol
}

/// The map that `lines` spell.
pub fn headermap_into_hashmap(lines: &Vec<Header>) -> (map: Headers)
    ensures
        map@ == header_map(lines@),
{
    let mut map = Headers::new();
    let mut i: usize = 0;
    while i < lines.len()
        invariant
            i <= lines@.len(),
            map@ == header_map(lines@.take(i as int)),
        decreases lines@.len() - i,
    {
        let value = match &lines[i].value {
            Some(text) => text.clone(),
            None => String::new(),
        };
        map.insert(lines[i].name.clone(), value);
        proof {
            assert(lines@.take(i + 1).drop_last() =~= lines@.take(i as int));
        }
        i += 1;
    }
    proof {
        assert(lines@.take(lines@.len() as int) =~= lines@);
    }
    map
}

/// The descriptor of an error with the debug text `message`.
pub fn describe_error(message: &String) -> (descriptor: JsonValue)
    ensures
        descriptor@ == error_descriptor(message@),
{
    let before_parenthesis = head_of(message.as_str(), PARENTHESIS);
    let before_braces = head_of(before_parenthesis.as_str(), BRACES);
    let kind = trim(before_braces.as_str());
    let mut members: Vec<(String, JsonValue)> = Vec::new();
    members.push((SOURCE_KEY.to_owned(), JsonValue::String(ON_ERROR.to_owned())));
    members.push((MESSAGE_KEY.to_owned(), JsonValue::String(message.clone())));
    members.push((TYPE_KEY.to_owned(), JsonValue::String(kind)));
    proof {
        lemma_object_view(members);
        assert(object_view(members@) =~= error_descriptor(message@)->Object_0);
    }
    JsonValue::Object(members)
}

/// Draws the descriptive values from one exchange.
#[derive(Clone, Debug)]
pub struct Extractor {
    /// The exchange that is described.
    pub sr: Exchange,
}

impl Extractor {
    /// The extractor of the exchange `sr`.
    pub fn new(sr: Exchange) -> (extractor: Extractor)
        ensures
            extractor.sr == sr,
    {
        Extractor { sr }
    }

    /// The protocol of the request: the scheme in upper case, and `/x`.
    pub fn get_protocol(&self) -> (protocol: String)
        ensures
            protocol@ == upper_case(self.sr.scheme@) + PROTOCOL_SUFFIX@,
    {
        protocol_from(to_uppercase(self.sr.scheme.as_str()))
    }

    /// The status code of the response.
    pub fn get_code(&self) -> (code: u16)
        ensures
            code == self.sr.status,
    {
        self.sr.status
    }

    /// The size of the response body in bytes, zero where it is not known.
    pub fn get_size(&self) -> (size: u64)
        ensures
            size == size_of(self.sr.body_size),
    {
        match self.sr.body_size {
            BodySize::Sized(n) => n,
            _ => 0,
        }
    }

    /// The headers of the response as a map.
    pub fn get_response_headers(&self) -> (map: Headers)
        ensures
            map@ == header_map(self.sr.response_headers@),
    {
        headermap_into_hashmap(&self.sr.response_headers)
    }

    /// The errors of the exchange: one descriptor where the response carries
    /// an error, none where it does not.
    pub fn get_errors(&self) -> (errors: Vec<JsonValue>)
        ensures
            match self.sr.error {
                Some(message) => errors@.len() == 1 && errors@[0]@ == error_descriptor(message@),
                None => errors@.len() == 0,
            },
    {
        let mut errors: Vec<JsonValue> = Vec::new();
        match &self.sr.error {
            Some(message) => {
                errors.push(describe_error(message));
            },
            None => {},
        }
        errors
    }

    /// The current date and time of day in UTC, to the second.
    pub fn get_timestamp(&self) -> (text: String)
        ensures
            exists|secs: int| utc_text(secs) == Some(text@),
    {
        let now: Timestamp = utc_now();
        now.text().unwrap()
    }

    /// The address of the client, and the loopback address where none is
    /// known.
    pub fn get_ip(&self) -> (ip: String)
        ensures
            ip@ == match self.sr.realip_remote_addr {
                Some(addr) => addr@,
                None => LOOPBACK@,
            },
    {
        match &self.sr.realip_remote_addr {
            Some(addr) => addr.clone(),
            None => LOOPBACK.to_owned(),
        }
    }

    /// The URL of the request: scheme, `://`, host, and path with query.
    pub fn get_url(&self) -> (url: String)
        ensures
            url@ == url_of(self.sr),
    {
        let mut url = self.sr.scheme.clone();
        url.append(SCHEME_SEPARATOR);
        url.append(self.sr.host.as_str());
        url.append(self.sr.uri.as_str());
        url
    }

    /// The headers of the request as a map.
    pub fn get_request_headers(&self) -> (map: Headers)
        ensures
            map@ == header_map(self.sr.request_headers@),
    {
        headermap_into_hashmap(&self.sr.request_headers)
    }

    /// The user agent of the request, where it names one.
    pub fn get_user_agent(&self) -> (agent: Option<String>)
        ensures
            match agent {
                Some(text) => user_agent_of(self.sr.request_headers@) == Some(text@),
                None => user_agent_of(self.sr.request_headers@) is None,
            },
    {
        let lines = &self.sr.request_headers;
        let mut i: usize = 0;
        while i < lines.len()
            invariant
                *lines == self.sr.request_headers,
                i <= lines@.len(),
                first_named(lines@, USER_AGENT@, 0) == first_named(lines@, USER_AGENT@, i as int),
            decreases lines@.len() - i,
        {
            if eq_ignore_ascii_case(lines[i].name.as_str(), USER_AGENT) {
                return match &lines[i].value {
                    Some(text) => Some(text.clone()),
                    None => Some(String::new()),
                };
            }
            i += 1;
        }
        None
    }

    /// The method of the request.
    pub fn get_method(&self) -> (method: String)
        ensures
            method@ == self.sr.method@,
    {
        self.sr.method.clone()
    }

    /// Gives the exchange back as it was, with the body of the response as a
    /// JSON value: null where the bytes of the body cannot be had.
    pub fn get_response_body(self) -> (result: (Exchange, JsonValue))
        ensures
            result.0 == self.sr,
            result.1@ == match self.sr.body {
                Some(bytes) => response_body(bytes@),
                None => Json::Null,
            },
    {
        let body = match &self.sr.body {
            Some(bytes) => decode_response_body(bytes.as_slice()),
            None => JsonValue::Null,
        };
        (self.sr, body)
    }
}

} // verus!
