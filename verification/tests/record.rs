use actix_treblle::payload::Phase;
use actix_treblle::{
    get_request_body, BodySize, Delivery, Exchange, Header, JsonValue, Timestamp, Treblle,
    TreblleData, TreblleServerOsData,
};

fn header(name: &str, value: &str) -> Header {
    Header { name: name.to_string(), value: Some(value.to_string()) }
}

fn os() -> TreblleServerOsData {
    TreblleServerOsData {
        name: "unix".to_string(),
        release: "linux".to_string(),
        architecture: "x86_64".to_string(),
    }
}

fn exchange() -> Exchange {
    Exchange {
        scheme: "http".to_string(),
        host: "localhost:8080".to_string(),
        realip_remote_addr: None,
        uri: "/login".to_string(),
        method: "POST".to_string(),
        request_headers: vec![
            header("content-type", "application/json"),
            header("authorization", "Bearer abc123"),
            header("user-agent", "tester"),
        ],
        status: 201,
        response_headers: vec![header("set-cookie", "id=1"), header("x-trace", "t")],
        body_size: BodySize::Sized(15),
        error: None,
        body: Some(b"{\"token\":\"xyz\"}".to_vec()),
    }
}

fn text(s: &str) -> JsonValue {
    JsonValue::String(s.to_string())
}

fn names(list: &[&str]) -> Vec<String> {
    list.iter().map(|s| s.to_string()).collect()
}

#[test]
fn configuration_starts_with_the_default_policy() {
    let treblle = Treblle::new("project".to_string(), "key".to_string());
    assert_eq!(treblle.project_id, "project");
    assert_eq!(treblle.api_key, "key");
    assert!(!treblle.debug);
    assert_eq!(
        treblle.masking_fields,
        names(&[
            "password",
            "pwd",
            "secret",
            "password_confirmation",
            "passwordConfirmation",
            "cc",
            "card_number",
            "cardNumber",
            "ccv",
            "ssn",
            "credit_score",
            "creditScore",
        ])
    );
    assert!(treblle.ignored_routes.is_empty());
}

#[test]
fn configuration_builders_change_one_thing() {
    let treblle = Treblle::new("p".to_string(), "k".to_string()).debug();
    assert!(treblle.debug);
    assert_eq!(treblle.masking_fields.len(), 12);

    let treblle = treblle.clear_masking_fields();
    assert!(treblle.masking_fields.is_empty());
    assert!(treblle.debug);

    let treblle = treblle
        .add_masking_fields(names(&["password", "ssl_key"]))
        .add_masking_fields(names(&["password"]));
    assert_eq!(treblle.masking_fields, names(&["password", "ssl_key", "password"]));

    let treblle = treblle
        .add_ignored_routes(names(&["/users/{user_id}"]))
        .add_ignored_routes(names(&["/health", "/users/{user_id}"]));
    assert_eq!(treblle.ignored_routes, names(&["/users/{user_id}", "/health", "/users/{user_id}"]));
    assert_eq!(treblle.project_id, "p");
    assert_eq!(treblle.api_key, "k");
}

#[test]
fn middleware_takes_over_the_configuration() {
    let treblle = Treblle::new("p".to_string(), "k".to_string())
        .debug()
        .add_ignored_routes(names(&["/health"]));
    let middleware = treblle.new_transform();
    assert_eq!(middleware.project_id, "p");
    assert_eq!(middleware.api_key, "k");
    assert!(middleware.debug);
    assert_eq!(middleware.masking_fields, treblle.masking_fields);
    assert_eq!(middleware.ignored_routes, names(&["/health"]));
    assert_eq!(middleware.delivery(), Delivery::Debug);
    let quiet = Treblle::new("p".to_string(), "k".to_string()).new_transform();
    assert_eq!(quiet.delivery(), Delivery::FireAndForget);
}

#[test]
fn ignored_routes_are_not_observed() {
    let middleware = Treblle::new("p".to_string(), "k".to_string())
        .add_ignored_routes(names(&["/health", "/users/{id}"]))
        .new_transform();
    assert!(middleware.skips(Some("/health")));
    assert!(middleware.skips(Some("/users/{id}")));
    assert!(!middleware.skips(Some("/users/7")));
    assert!(!middleware.skips(Some("/Health")));
    assert!(!middleware.skips(None));
    assert!(middleware.begin(Some("/health"), os()).is_none());
    assert!(middleware.begin(Some("/users/{id}"), os()).is_none());
    assert!(middleware.begin(Some("/login"), os()).is_some());
    assert!(middleware.begin(None, os()).is_some());
}

#[test]
fn requests_without_a_pattern_match_the_empty_route() {
    let middleware = Treblle::new("p".to_string(), "k".to_string())
        .add_ignored_routes(names(&[""]))
        .new_transform();
    assert!(middleware.skips(None));
    assert!(middleware.skips(Some("")));
    assert!(middleware.begin(None, os()).is_none());
    assert!(middleware.begin(Some("/login"), os()).is_some());
}

#[test]
fn new_record_is_open_and_empty() {
    let record = TreblleData::new("key".to_string(), "project".to_string(), os());
    assert!(record.is_open());
    assert_eq!(record.phase, Phase::Open);
    assert_eq!(record.api_key, "key");
    assert_eq!(record.project_id, "project");
    assert_eq!(record.sdk, "rust");
    assert_eq!(record.version, "4.0.0");
    assert_eq!(record.data.language.name, "rust");
    assert!(record.data.language.version.chars().next().unwrap().is_ascii_digit());
    assert_eq!(record.data.server.os.name, "unix");
    assert_eq!(record.data.server.os.release, "linux");
    assert_eq!(record.data.server.os.architecture, "x86_64");
    assert_eq!(record.data.server.software, None);
    assert_eq!(record.data.server.signature, None);
    assert_eq!(record.data.server.protocol, None);
    assert_eq!(record.data.request.timestamp, None);
    assert_eq!(record.data.request.body, None);
    assert_eq!(record.data.request.headers.len(), 0);
    assert_eq!(record.data.response.code, None);
    assert_eq!(record.data.response.load_time, None);
    assert_eq!(record.data.response.headers.len(), 0);
    assert!(record.data.errors.is_empty());
    assert!(record.start.secs > 1_500_000_000);
    assert!(record.start.text().is_some());
}

#[test]
fn request_body_is_attached() {
    let mut record = TreblleData::new("k".to_string(), "p".to_string(), os());
    record.add_request_body(JsonValue::Bool(true));
    assert_eq!(record.data.request.body, Some(JsonValue::Bool(true)));
    assert!(record.is_open());
}

#[test]
fn collecting_fills_the_record() {
    let mut record = TreblleData::new("k".to_string(), "p".to_string(), os());
    record.start = Timestamp::new(1431648000, 250_000);
    record.add_request_body(text("body"));
    let (sr, record) = record.collect_at(
        exchange(),
        Timestamp::new(1431648001, 0),
        Timestamp::new(1431648002, 500_000),
    );
    assert_eq!(sr, exchange());
    assert!(!record.is_open());
    assert_eq!(record.data.server.protocol, Some("HTTP/x".to_string()));
    assert_eq!(record.data.request.timestamp, Some("2015-05-15 00:00:01".to_string()));
    assert_eq!(record.data.request.ip, Some("127.0.0.1".to_string()));
    assert_eq!(record.data.request.url, Some("http://localhost:8080/login".to_string()));
    assert_eq!(record.data.request.user_agent, Some("tester".to_string()));
    assert_eq!(record.data.request.method, Some("POST".to_string()));
    assert_eq!(record.data.request.headers.len(), 3);
    assert_eq!(record.data.request.headers.get("authorization"), Some(&"Bearer abc123".to_string()));
    assert_eq!(record.data.request.body, Some(text("body")));
    assert_eq!(record.data.response.headers.get("x-trace"), Some(&"t".to_string()));
    assert_eq!(record.data.response.code, Some(201));
    assert_eq!(record.data.response.size, Some(15));
    assert_eq!(record.data.response.load_time, Some("2.25000".to_string()));
    assert_eq!(record.data.response.body.as_ref().unwrap().get("token"), Some(&text("xyz")));
    assert!(record.data.errors.is_empty());
    assert_eq!(record.api_key, "k");
    assert_eq!(record.project_id, "p");
}

#[test]
fn collecting_reads_the_clock() {
    let record = TreblleData::new("k".to_string(), "p".to_string(), os());
    let (sr, record) = record.collect_data(exchange());
    assert_eq!(sr, exchange());
    assert!(!record.is_open());
    assert_eq!(record.data.request.timestamp.as_ref().unwrap().len(), 19);
    let load_time = record.data.response.load_time.unwrap();
    assert!(load_time.starts_with("0."));
    assert_eq!(load_time.len(), 7);
    assert_eq!(record.data.response.code, Some(201));
}

#[test]
fn collecting_reports_the_error_of_the_response() {
    let mut failing = exchange();
    failing.error = Some("InternalError {{ cause: Timeout }}".to_string());
    failing.status = 500;
    failing.body = None;
    failing.body_size = BodySize::Stream;
    let record = TreblleData::new("k".to_string(), "p".to_string(), os());
    let (_, record) = record.collect_data(failing);
    assert_eq!(record.data.errors.len(), 1);
    assert_eq!(record.data.errors[0].get("type"), Some(&text("InternalError")));
    assert_eq!(record.data.response.code, Some(500));
    assert_eq!(record.data.response.size, Some(0));
    assert_eq!(record.data.response.body, Some(JsonValue::Null));
}

#[test]
fn masking_a_record_masks_bodies_and_headers() {
    let mut record = TreblleData::new("k".to_string(), "p".to_string(), os());
    record.add_request_body(get_request_body(
        "application/json",
        b"{\"password\":\"secret1\",\"name\":\"Al\"}",
    ));
    let mut sr = exchange();
    sr.body = Some(b"{\"token\":\"xyz\",\"user\":{\"ssn\":\"1\",\"set-cookie\":1}}".to_vec());
    let (_, mut record) = record.collect_data(sr);
    record.mask_fields(names(&["password", "ssn", "set-cookie"]));

    let request = record.data.request.body.as_ref().unwrap();
    assert_eq!(request.get("password"), Some(&text("******")));
    assert_eq!(request.get("name"), Some(&text("Al")));
    let response = record.data.response.body.as_ref().unwrap();
    assert_eq!(response.get("token"), Some(&text("xyz")));
    assert_eq!(response.get("user").unwrap().get("ssn"), Some(&text("******")));
    assert_eq!(response.get("user").unwrap().get("set-cookie"), Some(&JsonValue::Null));
    assert_eq!(record.data.request.headers.get("authorization"), Some(&"Bearer ******".to_string()));
    assert_eq!(record.data.request.headers.get("user-agent"), Some(&"tester".to_string()));
    assert_eq!(record.data.response.headers.get("set-cookie"), Some(&"******".to_string()));
    assert_eq!(record.data.response.headers.get("x-trace"), Some(&"t".to_string()));
    assert_eq!(record.data.response.code, Some(201));
    assert_eq!(record.data.request.url, Some("http://localhost:8080/login".to_string()));

    let body_once = record.data.request.body.clone();
    let headers_once = record.data.request.headers.clone();
    record.mask_fields(names(&["password", "ssn", "set-cookie"]));
    assert_eq!(record.data.request.body, body_once);
    assert_eq!(record.data.request.headers.get("authorization"), headers_once.get("authorization"));
    assert_eq!(record.data.response.headers.get("set-cookie"), Some(&"******".to_string()));
}

#[test]
fn masking_a_record_without_bodies() {
    let mut record = TreblleData::new("k".to_string(), "p".to_string(), os());
    record.mask_fields(names(&["password"]));
    assert_eq!(record.data.request.body, None);
    assert_eq!(record.data.response.body, None);
    assert!(record.is_open());
}

#[test]
fn end_to_end() {
    let middleware = Treblle::new("project".to_string(), "key".to_string())
        .clear_masking_fields()
        .add_masking_fields(names(&["password"]))
        .new_transform();
    let mut record = middleware.begin(Some("/login"), os()).unwrap();
    record.add_request_body(get_request_body(
        "application/json",
        b"{\"password\":\"secret1\",\"name\":\"Al\"}",
    ));
    let (sr, record, delivery) = middleware.complete(record, exchange());
    assert_eq!(sr, exchange());
    assert_eq!(delivery, Delivery::FireAndForget);
    let request = record.data.request.body.as_ref().unwrap();
    assert_eq!(request.get("password"), Some(&text("******")));
    assert_eq!(request.get("name"), Some(&text("Al")));
    assert_eq!(record.data.response.code, Some(201));
    assert_eq!(record.data.response.body.as_ref().unwrap().get("token"), Some(&text("xyz")));
    assert_eq!(record.data.request.headers.get("authorization"), Some(&"Bearer ******".to_string()));
    assert_eq!(record.api_key, "key");
    assert_eq!(record.project_id, "project");
    assert!(!record.is_open());
}

#[test]
fn record_is_addressed_to_the_collector() {
    let record = TreblleData::new("secret-key".to_string(), "p".to_string(), os());
    let dispatch = record.dispatch();
    assert_eq!(dispatch.url, "https://rocknrolla.treblle.com");
    assert_eq!(dispatch.header_name, "x-api-key");
    assert_eq!(dispatch.header_value, "secret-key");
    assert_eq!(dispatch.timeout_secs, 2);
}

#[test]
fn server_reports_a_time_zone() {
    let record = TreblleData::new("k".to_string(), "p".to_string(), os());
    assert!(!record.data.server.timezone.is_empty());
}
