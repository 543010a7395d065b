use actix_treblle::masking::{contains, masked_header_value};
use actix_treblle::{clear_hashmap, clear_map, clear_value, Headers, JsonNumber, JsonValue};

fn text(s: &str) -> JsonValue {
    JsonValue::String(s.to_string())
}

fn object(members: Vec<(&str, JsonValue)>) -> JsonValue {
    JsonValue::Object(members.into_iter().map(|(k, v)| (k.to_string(), v)).collect())
}

fn names(list: &[&str]) -> Vec<String> {
    list.iter().map(|s| s.to_string()).collect()
}

#[test]
fn clear_test_map() {
    let mut value = object(vec![
        ("password", text("password")),
        (
            "child",
            object(vec![
                ("description", text("description")),
                ("ccv", JsonValue::Number(JsonNumber::PosInt(123))),
            ]),
        ),
        ("message", text("message")),
    ]);

    clear_value(&mut value, &vec!["password".to_string(), "ccv".to_string()]);

    assert_eq!(value.get("password"), Some(&text("******")));
    assert_eq!(value.get("child").unwrap().get("ccv"), Some(&JsonValue::Null));
    assert_eq!(value.get("child").unwrap().get("description"), Some(&text("description")));
    assert_eq!(value.get("message"), Some(&text("message")));
}

#[test]
fn masking_redacts_every_kind_of_value() {
    let mut value = object(vec![
        ("a", text("x")),
        ("b", JsonValue::Number(JsonNumber::NegInt(-4))),
        ("c", JsonValue::Bool(true)),
        ("d", JsonValue::Null),
        ("e", JsonValue::Array(vec![text("x")])),
        ("f", object(vec![("inner", text("x"))])),
        ("g", text("kept")),
    ]);
    clear_value(&mut value, &names(&["a", "b", "c", "d", "e", "f"]));
    let expected = object(vec![
        ("a", text("******")),
        ("b", JsonValue::Null),
        ("c", JsonValue::Null),
        ("d", JsonValue::Null),
        ("e", JsonValue::Null),
        ("f", JsonValue::Null),
        ("g", text("kept")),
    ]);
    assert_eq!(value, expected);
}

#[test]
fn masking_descends_into_nested_objects() {
    let mut value = object(vec![(
        "outer",
        object(vec![("middle", object(vec![("secret", text("deep")), ("other", text("o"))]))]),
    )]);
    clear_value(&mut value, &names(&["secret"]));
    let expected = object(vec![(
        "outer",
        object(vec![("middle", object(vec![("secret", text("******")), ("other", text("o"))]))]),
    )]);
    assert_eq!(value, expected);
}

#[test]
fn masking_does_not_descend_into_arrays() {
    let inside = JsonValue::Array(vec![object(vec![("password", text("p"))])]);
    let mut value = object(vec![("list", inside.clone())]);
    clear_value(&mut value, &names(&["password"]));
    assert_eq!(value, object(vec![("list", inside.clone())]));

    let mut root = inside.clone();
    clear_value(&mut root, &names(&["password"]));
    assert_eq!(root, inside);
}

#[test]
fn masking_leaves_a_root_that_is_no_object() {
    let mut value = text("password");
    clear_value(&mut value, &names(&["password"]));
    assert_eq!(value, text("password"));

    let mut number = JsonValue::Number(JsonNumber::Float(0x3ff8_0000_0000_0000));
    clear_value(&mut number, &names(&["password"]));
    assert_eq!(number, JsonValue::Number(JsonNumber::Float(0x3ff8_0000_0000_0000)));
}

#[test]
fn masking_matches_keys_by_case() {
    let mut value = object(vec![("Password", text("p")), ("password", text("q"))]);
    clear_value(&mut value, &names(&["password"]));
    assert_eq!(value, object(vec![("Password", text("p")), ("password", text("******"))]));
}

#[test]
fn masking_with_an_empty_policy_changes_nothing() {
    let original = object(vec![("password", text("p")), ("n", object(vec![("ssn", text("1"))]))]);
    let mut value = original.clone();
    clear_value(&mut value, &[]);
    assert_eq!(value, original);
}

#[test]
fn masking_twice_is_masking_once() {
    let fields = names(&["password", "ccv", "password"]);
    let mut once = object(vec![
        ("password", text("******")),
        ("ccv", object(vec![("password", text("x"))])),
        ("child", object(vec![("ccv", JsonValue::Bool(false)), ("password", text("y"))])),
    ]);
    clear_value(&mut once, &fields);
    let mut twice = once.clone();
    clear_value(&mut twice, &fields);
    assert_eq!(once, twice);
    assert_eq!(once.get("ccv"), Some(&JsonValue::Null));
}

#[test]
fn clear_map_masks_members_in_place() {
    let mut members = vec![
        ("pwd".to_string(), text("a")),
        ("keep".to_string(), JsonValue::Bool(true)),
        ("in".to_string(), object(vec![("pwd", JsonValue::Bool(true))])),
    ];
    clear_map(&mut members, &names(&["pwd"]));
    assert_eq!(
        members,
        vec![
            ("pwd".to_string(), text("******")),
            ("keep".to_string(), JsonValue::Bool(true)),
            ("in".to_string(), object(vec![("pwd", JsonValue::Null)])),
        ]
    );
}

#[test]
fn policy_lookup_is_exact() {
    let fields = names(&["password", "ssn"]);
    assert!(contains(&fields, "ssn"));
    assert!(!contains(&fields, "SSN"));
    assert!(!contains(&fields, "ss"));
    assert!(!contains(&[], "ssn"));
}

#[test]
fn authorization_keeps_the_scheme() {
    let mut map = Headers::new();
    map.insert("authorization".to_string(), "Bearer abc123".to_string());
    clear_hashmap(&mut map, &[]);
    assert_eq!(map.get("authorization"), Some(&"Bearer ******".to_string()));
}

#[test]
fn authorization_without_a_space_is_kept_whole() {
    let mut map = Headers::new();
    map.insert("authorization".to_string(), "abc123".to_string());
    clear_hashmap(&mut map, &[]);
    assert_eq!(map.get("authorization"), Some(&"abc123 ******".to_string()));
}

#[test]
fn authorization_edge_values() {
    assert_eq!(masked_header_value("authorization", "", &[]), Some(" ******".to_string()));
    assert_eq!(masked_header_value("authorization", " x", &[]), Some(" ******".to_string()));
    assert_eq!(
        masked_header_value("authorization", "Basic dXNlcg== trailing", &[]),
        Some("Basic ******".to_string())
    );
}

#[test]
fn authorization_is_found_whatever_its_case() {
    let mut map = Headers::new();
    map.insert("Authorization".to_string(), "Basic dXNlcg==".to_string());
    map.insert("AUTHORIZATION".to_string(), "Digest x y".to_string());
    map.insert("authorizatio".to_string(), "Bearer z".to_string());
    clear_hashmap(&mut map, &[]);
    assert_eq!(map.get("Authorization"), Some(&"Basic ******".to_string()));
    assert_eq!(map.get("AUTHORIZATION"), Some(&"Digest ******".to_string()));
    assert_eq!(map.get("authorizatio"), Some(&"Bearer z".to_string()));
}

#[test]
fn authorization_goes_before_the_policy() {
    let mut map = Headers::new();
    map.insert("authorization".to_string(), "Bearer abc".to_string());
    clear_hashmap(&mut map, &names(&["authorization"]));
    assert_eq!(map.get("authorization"), Some(&"Bearer ******".to_string()));
}

#[test]
fn headers_named_by_the_policy_are_masked_whole() {
    let mut map = Headers::new();
    map.insert("x-secret".to_string(), "one two".to_string());
    map.insert("X-Secret".to_string(), "three".to_string());
    map.insert("accept".to_string(), "*/*".to_string());
    clear_hashmap(&mut map, &names(&["x-secret"]));
    assert_eq!(map.get("x-secret"), Some(&"******".to_string()));
    assert_eq!(map.get("X-Secret"), Some(&"three".to_string()));
    assert_eq!(map.get("accept"), Some(&"*/*".to_string()));
    assert_eq!(map.len(), 3);
}

#[test]
fn header_masking_twice_is_masking_once() {
    let fields = names(&["cookie"]);
    let mut map = Headers::new();
    map.insert("authorization".to_string(), "Bearer abc123".to_string());
    map.insert("cookie".to_string(), "a=b".to_string());
    map.insert("host".to_string(), "example.org".to_string());
    clear_hashmap(&mut map, &fields);
    let once = map.clone();
    clear_hashmap(&mut map, &fields);
    let mut i = 0;
    while i < map.len() {
        assert_eq!(map.key_at(i), once.key_at(i));
        assert_eq!(map.value_at(i), once.value_at(i));
        i += 1;
    }
    assert_eq!(map.get("authorization"), Some(&"Bearer ******".to_string()));
    assert_eq!(map.get("cookie"), Some(&"******".to_string()));
}

#[test]
fn header_map_keeps_one_value_per_name() {
    let mut map = Headers::new();
    assert_eq!(map.len(), 0);
    assert_eq!(map.get("a"), None);
    map.insert("a".to_string(), "1".to_string());
    map.insert("b".to_string(), "2".to_string());
    map.insert("a".to_string(), "3".to_string());
    assert_eq!(map.len(), 2);
    assert_eq!(map.get("a"), Some(&"3".to_string()));
    assert_eq!(map.get("b"), Some(&"2".to_string()));
    assert_eq!(map.key_at(0), "a");
    assert_eq!(map.key_at(1), "b");
    assert_eq!(map.position("b"), Some(1));
    assert_eq!(map.position("c"), None);
    map.set_value_at(1, "4".to_string());
    assert_eq!(map.value_at(1), "4");
}

#[test]
fn value_clone_is_equal() {
    let value = object(vec![
        ("a", JsonValue::Array(vec![JsonValue::Null, JsonValue::Bool(false)])),
        ("b", object(vec![("c", JsonValue::Number(JsonNumber::PosInt(7)))])),
    ]);
    assert_eq!(value.clone(), value);
    assert_eq!(value.get("b").unwrap().get("c"), Some(&JsonValue::Number(JsonNumber::PosInt(7))));
    assert_eq!(value.get("z"), None);
    assert_eq!(JsonValue::Null.get("a"), None);
}
