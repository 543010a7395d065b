//! The record of one exchange: what it holds, how it is filled, masked and
//! addressed to the collector.

use crate::clock::{
    elapsed_micros, local_timezone, seconds_text, seconds_with_micro, timestamp_text, utc_now,
    utc_text, Timestamp,
};
use crate::extractors::{
    error_descriptor, header_map, size_of, url_of, user_agent_of, Exchange, Extractor, LOOPBACK,
    PROTOCOL_SUFFIX,
};
use crate::body::response_body;
use crate::headers::Headers;
use crate::json::{model_of_option, Json, JsonValue};
use crate::masking::{
    clear_hashmap, clear_value, lemma_mask_headers_idempotent, lemma_mask_json_idempotent,
    lemma_mask_redacts, mask_headers, mask_json, redacted,
};
use crate::text::upper_case;
use vstd::prelude::*;

verus! {

/// The name under which this library reports itself and its language.
pub const SDK: &'static str = "rust";

/// The version under which this library reports itself.
pub const VERSION: &'static str = "4.0.0";

/// Where records are sent.
pub const COLLECTOR_URL: &'static str = "https://rocknrolla.treblle.com";

/// The header that carries the API key to the collector.
pub const API_KEY_HEADER: &'static str = "x-api-key";

/// The seconds after which a send is given up.
pub const SEND_TIMEOUT_SECS: u64 = 2;

/// The two states of a record.
#[derive(Clone, Copy, Debug, PartialEq, Eq)]
pub enum Phase {
    /// The record takes what belongs to the request.
    Open,
    /// The response has been merged in; the record is ready to be masked and
    /// sent.
    Finalized,
}

/// What a record holds of the response.
#[derive(Debug)]
pub struct TreblleResponseData {
    pub headers: Headers,
    pub code: Option<u16>,
    pub size: Option<u64>,
    pub load_time: Option<String>,
    pub body: Option<JsonValue>,
}

/// What a record holds of the request.
#[derive(Debug)]
pub struct TreblleRequestData {
    pub timestamp: Option<String>,
    pub ip: Option<String>,
    pub url: Option<String>,
    pub user_agent: Option<String>,
    pub method: Option<String>,
    pub headers: Headers,
    pub body: Option<JsonValue>,
}

/// The language of the application: its name, and the version of its
/// compiler.
#[derive(Debug)]
pub struct TreblleLanguageData {
    pub name: String,
    pub version: String,
}

/// The operating system of the server.
#[derive(Debug)]
pub struct TreblleServerOsData {
    pub name: String,
    pub release: String,
    pub architecture: String,
}

/// What a record holds of the server.
#[derive(Debug)]
pub struct TreblleServerData {
    pub timezone: String,
    pub os: TreblleServerOsData,
    pub software: Option<String>,
    pub signature: Option<String>,
    pub protocol: Option<String>,
}

/// What a record holds of one exchange.
#[derive(Debug)]
pub struct TreblleDataInner {
    pub server: TreblleServerData,
    pub language: TreblleLanguageData,
    pub request: TreblleRequestData,
    pub response: TreblleResponseData,
    pub errors: Vec<JsonValue>,
}

/// The record of one exchange.
#[derive(Debug)]
pub struct TreblleData {
    /// When the record was made; it is not sent.
    pub start: Timestamp,
    /// Whether the response has been merged in; it is not sent.
    pub phase: Phase,
    pub api_key: String,
    pub project_id: String,
    pub version: String,
    pub sdk: String,
    pub data: TreblleDataInner,
}

/// The model of an optional text.
pub open spec fn text_of(text: Option<String>) -> Option<Seq<char>> {
    match text {
        Some(t) => Some(t@),
        None => None,
    }
}

/// The models of a list of values, in order.
pub open spec fn models_of(values: Seq<JsonValue>) -> Seq<Json> {
    values.map_values(|v: JsonValue| v@)
}

/// The model of the response part of a record.
pub ghost struct ResponseModel {
    pub headers: Map<Seq<char>, Seq<char>>,
    pub code: Option<u16>,
    pub size: Option<u64>,
    pub load_time: Option<Seq<char>>,
    pub body: Option<Json>,
}

/// The model of the request part of a record.
pub ghost struct RequestModel {
    pub timestamp: Option<Seq<char>>,
    pub ip: Option<Seq<char>>,
    pub url: Option<Seq<char>>,
    pub user_agent: Option<Seq<char>>,
    pub method: Option<Seq<char>>,
    pub headers: Map<Seq<char>, Seq<char>>,
    pub body: Option<Json>,
}

/// The model of a record.
pub ghost struct RecordModel {
    pub start: Timestamp,
    pub phase: Phase,
    pub api_key: Seq<char>,
    pub project_id: Seq<char>,
    pub version: Seq<char>,
    pub sdk: Seq<char>,
    pub timezone: Seq<char>,
    pub os_name: Seq<char>,
    pub os_release: Seq<char>,
    pub os_architecture: Seq<char>,
    pub software: Option<Seq<char>>,
    pub signature: Option<Seq<char>>,
    pub protocol: Option<Seq<char>>,
    pub language_name: Seq<char>,
    pub language_version: Seq<char>,
    pub request: RequestModel,
    pub response: ResponseModel,
    pub errors: Seq<Json>,
}

impl View for TreblleResponseData {
    type V = ResponseModel;

    open spec fn view(&self) -> ResponseModel {
        ResponseModel {
            headers: self.headers@,
            code: self.code,
            size: self.size,
            load_time: text_of(self.load_time),
            body: model_of_option(self.body),
        }
    }
}

impl View for TreblleRequestData {
    type V = RequestModel;

    open spec fn view(&self) -> RequestModel {
        RequestModel {
            timestamp: text_of(self.timestamp),
            ip: text_of(self.ip),
            url: text_of(self.url),
            user_agent: text_of(self.user_agent),
            method: text_of(self.method),
            headers: self.headers@,
            body: model_of_option(self.body),
        }
    }
}

impl View for TreblleData {
    type V = RecordModel;

    open spec fn view(&self) -> RecordModel {
        RecordModel {
            start: self.start,
            phase: self.phase,
            api_key: self.api_key@,
            project_id: self.project_id@,
            version: self.version@,
            sdk: self.sdk@,
            timezone: self.data.server.timezone@,
            os_name: self.data.server.os.name@,
            os_release: self.data.server.os.release@,
            os_architecture: self.data.server.os.architecture@,
            software: text_of(self.data.server.software),
            signature: text_of(self.data.server.signature),
            protocol: text_of(self.data.server.protocol),
            language_name: self.data.language.name@,
            language_version: self.data.language.version@,
            request: self.data.request@,
            response: self.data.response@,
            errors: models_of(self.data.errors@),
        }
    }
}

/// The request part of a record before anything is known of the request.
pub open spec fn empty_request() -> RequestModel {
    RequestModel {
        timestamp: None,
        ip: None,
        url: None,
        user_agent: None,
        method: None,
        headers: Map::empty(),
        body: None,
    }
}

/// The response part of a record before anything is known of the response.
pub open spec fn empty_response() -> ResponseModel {
    ResponseModel { headers: Map::empty(), code: None, size: None, load_time: None, body: None }
}

/// Whether `record` is the record of an exchange that has just begun, made
/// for the project `project_id` with the key `api_key` on the operating
/// system `os`: open, stamped with an instant of the calendar as its start,
/// named after this library and its version, and with nothing known yet of
/// request or response. Nothing is said of the time zone or of the compiler's
/// version.
pub open spec fn fresh(
    record: RecordModel,
    api_key: Seq<char>,
    project_id: Seq<char>,
    os: TreblleServerOsData,
) -> bool {
    &&& record.phase == Phase::Open
    &&& utc_text(record.start.secs as int) is Some
    &&& record.api_key == api_key
    &&& record.project_id == project_id
    &&& record.sdk == SDK@
    &&& record.version == VERSION@
    &&& record.language_name == SDK@
    &&& record.os_name == os.name@
    &&& record.os_release == os.release@
    &&& record.os_architecture == os.architecture@
    &&& record.software is None
    &&& record.signature is None
    &&& record.protocol is None
    &&& record.request == empty_request()
    &&& record.response == empty_response()
    &&& record.errors == Seq::<Json>::empty()
}

/// An optional body, masked under the policy `fields`.
pub open spec fn mask_body(fields: Seq<Seq<char>>, body: Option<Json>) -> Option<Json> {
    match body {
        Some(value) => Some(mask_json(fields, value)),
        None => None,
    }
}

/// A record masked under the policy `fields`: both bodies and both header
/// maps are masked, and nothing else changes.
pub open spec fn mask_record(fields: Seq<Seq<char>>, record: RecordModel) -> RecordModel {
    RecordModel {
        request: RequestModel {
            headers: mask_headers(fields, record.request.headers),
            body: mask_body(fields, record.request.body),
            ..record.request
        },
        response: ResponseModel {
            headers: mask_headers(fields, record.response.headers),
            body: mask_body(fields, record.response.body),
            ..record.response
        },
        ..record
    }
}

/// What the exchange `sr` adds to a record while the clock still runs: all
/// that is drawn from request and response, with `timestamp` as the time of
/// the request.
pub open spec fn gathered(record: RecordModel, sr: Exchange, timestamp: Option<Seq<char>>) -> RecordModel {
    RecordModel {
        protocol: Some(upper_case(sr.scheme@) + PROTOCOL_SUFFIX@),
        request: RequestModel {
            timestamp,
            ip: Some(
                match sr.realip_remote_addr {
                    Some(addr) => addr@,
                    None => LOOPBACK@,
                },
            ),
            url: Some(url_of(sr)),
            user_agent: user_agent_of(sr.request_headers@),
            method: Some(sr.method@),
            headers: header_map(sr.request_headers@),
            body: record.request.body,
        },
        response: ResponseModel {
            headers: header_map(sr.response_headers@),
            code: Some(sr.status),
            size: Some(size_of(sr.body_size)),
            load_time: record.response.load_time,
            body: Some(
                match sr.body {
                    Some(bytes) => response_body(bytes@),
                    None => Json::Null,
                },
            ),
        },
        errors: match sr.error {
            Some(message) => seq![error_descriptor(message@)],
            None => Seq::empty(),
        },
        ..record
    }
}

/// A record with the clock stopped: finalized, with `load_time` as the load
/// time.
pub open spec fn stopped(record: RecordModel, load_time: Seq<char>) -> RecordModel {
    RecordModel {
        phase: Phase::Finalized,
        response: ResponseModel { load_time: Some(load_time), ..record.response },
        ..record
    }
}

/// What the exchange `sr` makes of an open record: all that is drawn from
/// request and response, with `timestamp` as the time of the request and
/// `load_time` as the load time.
pub open spec fn collected(
    record: RecordModel,
    sr: Exchange,
    timestamp: Option<Seq<char>>,
    load_time: Seq<char>,
) -> RecordModel {
    stopped(gathered(record, sr, timestamp), load_time)
}

/// The version of the compiler that built this library, as
/// `rustc_version_runtime::version` gives it, written out. Nothing is known
/// of the text.
#[verifier::external_body]
pub(crate) fn compiler_version() -> String {
    rustc_version_runtime::version().to_string()
}

impl Default for TreblleRequestData {
    fn default() -> (request: TreblleRequestData)
        ensures
            request@ == empty_request(),
    {
        TreblleRequestData {
            timestamp: None,
            ip: None,
            url: None,
            user_agent: None,
            method: None,
            headers: Headers::new(),
            body: None,
        }
    }
}

impl Default for TreblleResponseData {
    fn default() -> (response: TreblleResponseData)
        ensures
            response@ == empty_response(),
    {
        TreblleResponseData {
            headers: Headers::new(),
            code: None,
            size: None,
            load_time: None,
            body: None,
        }
    }
}

impl Default for TreblleLanguageData {
    fn default() -> (language: TreblleLanguageData)
        ensures
            language.name@ == SDK@,
    {
        TreblleLanguageData { name: SDK.to_owned(), version: compiler_version() }
    }
}

impl TreblleServerData {
    /// What is reported of the server on the operating system `os`: its time
    /// zone, and no software, signature or protocol yet.
    pub fn new(os: TreblleServerOsData) -> (server: TreblleServerData)
        ensures
            server.os == os,
            server.software is None,
            server.signature is None,
            server.protocol is None,
    {
        TreblleServerData {
            timezone: local_timezone(),
            os,
            software: None,
            signature: None,
            protocol: None,
        }
    }
}

/// How a record is addressed to the collector.
#[derive(Clone, Debug, PartialEq, Eq)]
pub struct Dispatch {
    /// Where the record is posted.
    pub url: String,
    /// The name of the header that carries the API key.
    pub header_name: String,
    /// The API key.
    pub header_value: String,
    /// The seconds after which the send is given up.
    pub timeout_secs: u64,
}

impl TreblleData {
    /// Starts the clock and makes the record of an exchange that has just
    /// begun, on the operating system `os`: open, with nothing known yet of
    /// request or response.
    pub fn new(api_key: String, project_id: String, os: TreblleServerOsData) -> (record:
        TreblleData)
        ensures
            fresh(record@, api_key@, project_id@, os),
    {
        let record = TreblleData {
            start: utc_now(),
            phase: Phase::Open,
            api_key,
            project_id,
            sdk: SDK.to_owned(),
            version: VERSION.to_owned(),
            data: TreblleDataInner {
                server: TreblleServerData::new(os),
                language: TreblleLanguageData::default(),
                request: TreblleRequestData::default(),
                response: TreblleResponseData::default(),
                errors: Vec::new(),
            },
        };
        assert(record@.errors =~= Seq::<Json>::empty());
        record
    }

    /// Whether the record still takes what belongs to the request.
    pub fn is_open(&self) -> (open: bool)
        ensures
            open == (self.phase == Phase::Open),
    {
        match self.phase {
            Phase::Open => true,
            Phase::Finalized => false,
        }
    }

    /// Sets the body of the request.
    pub fn add_request_body(&mut self, body: JsonValue)
        requires
            old(self).phase == Phase::Open,
        ensures
            final(self)@ == (RecordModel {
                request: RequestModel { body: Some(body@), ..old(self)@.request },
                ..old(self)@
            }),
    {
        self.data.request.body = Some(body);
    }

    /// Merges what the exchange `sr` shows into the record, with `at` as the
    /// time of the request, and gives the exchange back as it was. The clock
    /// still runs.
    fn gather(self, sr: Exchange, at: Timestamp) -> (result: (Exchange, TreblleData))
        ensures
            result.0 == sr,
            result.1@ == gathered(self@, sr, timestamp_text(at)),
    {
        let mut record = self;
        let extractor = Extractor::new(sr);
        record.data.server.protocol = Some(extractor.get_protocol());
        record.data.request.timestamp = at.text();
        record.data.request.ip = Some(extractor.get_ip());
        record.data.request.url = Some(extractor.get_url());
        record.data.request.user_agent = extractor.get_user_agent();
        record.data.request.method = Some(extractor.get_method());
        record.data.request.headers = extractor.get_request_headers();
        record.data.response.headers = extractor.get_response_headers();
        record.data.response.code = Some(extractor.get_code());
        record.data.response.size = Some(extractor.get_size());
        record.data.errors = extractor.get_errors();
        let (sr, body) = extractor.get_response_body();
        record.data.response.body = Some(body);
        proof {
            assert(record@.errors =~= gathered(self@, sr, timestamp_text(at)).errors);
        }
        (sr, record)
    }

    /// Stops the clock at `end`: the load time is the time elapsed since the
    /// record was made, and the record is finalized.
    fn stop(self, end: Timestamp) -> (record: TreblleData)
        ensures
            record@ == stopped(self@, seconds_text(elapsed_micros(self.start, end))),
    {
        let mut record = self;
        record.data.response.load_time = Some(seconds_with_micro(record.start, end));
        record.phase = Phase::Finalized;
        record
    }

    /// Merges what the exchange `sr` shows into the record, with `at` as the
    /// time of the request and `end` as the time at which the clock stops,
    /// and gives the exchange back as it was.
    pub fn collect_at(self, sr: Exchange, at: Timestamp, end: Timestamp) -> (result: (
        Exchange,
        TreblleData,
    ))
        requires
            self.phase == Phase::Open,
        ensures
            result.0 == sr,
            result.1@ == collected(
                self@,
                sr,
                timestamp_text(at),
                seconds_text(elapsed_micros(self.start, end)),
            ),
    {
        let (sr, record) = self.gather(sr, at);
        (sr, record.stop(end))
    }

    /// Merges what the exchange `sr` shows into the record and stops the
    /// clock, and gives the exchange back as it was. The time of the request
    /// is read off the clock before request and response are looked at, the
    /// load time after; all else is drawn from `sr`.
    pub fn collect_data(self, sr: Exchange) -> (result: (Exchange, TreblleData))
        requires
            self.phase == Phase::Open,
        ensures
            result.0 == sr,
            result.1@.request.timestamp is Some,
            result.1@.response.load_time is Some,
            result.1@ == collected(
                self@,
                sr,
                result.1@.request.timestamp,
                result.1@.response.load_time->0,
            ),
            exists|secs: int| utc_text(secs) == Some(result.1@.request.timestamp->0),
            exists|end: Timestamp|
                result.1@.response.load_time->0 == seconds_text(elapsed_micros(self.start, end)),
    {
        let at = utc_now();
        let (sr, record) = self.gather(sr, at);
        let end = utc_now();
        let record = record.stop(end);
        proof {
            assert(utc_text(at.secs as int) == Some(record@.request.timestamp->0));
        }
        (sr, record)
    }

    /// Masks both bodies and both header maps under the policy `fields`.
    pub fn mask_fields(&mut self, fields: Vec<String>)
        ensures
            final(self)@ == mask_record(fields.deep_view(), old(self)@),
    {
        let policy = fields.as_slice();
        assert(policy.deep_view() =~= fields.deep_view());
        match &mut self.data.request.body {
            Some(body) => {
                clear_value(body, policy);
            },
            None => {},
        }
        match &mut self.data.response.body {
            Some(body) => {
                clear_value(body, policy);
            },
            None => {},
        }
        clear_hashmap(&mut self.data.request.headers, policy);
        clear_hashmap(&mut self.data.response.headers, policy);
    }

    /// How this record is addressed to the collector: posted to the
    /// collector's URL, with the API key in the header `x-api-key`, and given
    /// up after two seconds.
    pub fn dispatch(&self) -> (dispatch: Dispatch)
        ensures
            dispatch.url@ == COLLECTOR_URL@,
            dispatch.header_name@ == API_KEY_HEADER@,
            dispatch.header_value@ == self.api_key@,
            dispatch.timeout_secs == SEND_TIMEOUT_SECS,
    {
        Dispatch {
            url: COLLECTOR_URL.to_owned(),
            header_name: API_KEY_HEADER.to_owned(),
            header_value: self.api_key.clone(),
            timeout_secs: SEND_TIMEOUT_SECS,
        }
    }
}

/// After masking, both bodies of a record are masked through and through,
/// and each header of either map is masked.
pub proof fn lemma_mask_record_redacts(fields: Seq<Seq<char>>, record: RecordModel)
    ensures
        record.request.body is Some ==> redacted(
            fields,
            mask_record(fields, record).request.body->0,
        ),
        record.response.body is Some ==> redacted(
            fields,
            mask_record(fields, record).response.body->0,
        ),
        mask_record(fields, record).request.headers == mask_headers(
            fields,
            record.request.headers,
        ),
        mask_record(fields, record).response.headers == mask_headers(
            fields,
            record.response.headers,
        ),
{
    if record.request.body is Some {
        lemma_mask_redacts(fields, record.request.body->0);
    }
    if record.response.body is Some {
        lemma_mask_redacts(fields, record.response.body->0);
    }
}

/// Masking a record twice is masking it once.
pub proof fn lemma_mask_record_idempotent(fields: Seq<Seq<char>>, record: RecordModel)
    ensures
        mask_record(fields, mask_record(fields, record)) == mask_record(fields, record),
{
    lemma_mask_headers_idempotent(fields, record.request.headers);
    lemma_mask_headers_idempotent(fields, record.response.headers);
    if record.request.body is Some {
        lemma_mask_json_idempotent(fields, record.request.body->0);
    }
    if record.response.body is Some {
        lemma_mask_json_idempotent(fields, record.response.body->0);
    }
}

} // verus!
