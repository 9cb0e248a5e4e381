use codex_dialects::api::{ApiError, TransportError};
use codex_dialects::fields::StringMap;
use codex_dialects::json::{parse_json, parse_json_bytes, sort_json, Json, JsonNumber};
use codex_dialects::protocol::{InferenceDialect, ReasoningEffort};

#[test]
fn names_of_objects_are_put_in_order_and_the_last_value_stands() {
    let parsed = parse_json(r#"{"b":1,"a":{"d":2,"c":3},"b":4}"#).expect("object");
    assert_eq!(
        parsed,
        Json::Object(vec![
            (
                "a".to_string(),
                Json::Object(vec![
                    ("c".to_string(), Json::Number(JsonNumber::Unsigned(3))),
                    ("d".to_string(), Json::Number(JsonNumber::Unsigned(2))),
                ]),
            ),
            ("b".to_string(), Json::Number(JsonNumber::Unsigned(4))),
        ])
    );
    assert_eq!(parse_json_bytes(br#"{"b":4,"a":{"c":3,"d":2}}"#), Ok(parsed));
}

#[test]
fn printed_values_are_read_back() {
    let text = r#"{"a":[null,true,-7,18446744073709551615,"x\"\\\n\u0001é"],"b":{}}"#;
    let value = parse_json(text).expect("value");
    assert_eq!(value.print(), text);
    assert_eq!(parse_json(&value.print()), Ok(value));
}

#[test]
fn printing_keeps_the_given_order() {
    let value = Json::Object(vec![
        ("z".to_string(), Json::Null),
        ("a".to_string(), Json::Number(JsonNumber::Float("0.5".to_string()))),
    ]);
    assert_eq!(value.print(), r#"{"z":null,"a":0.5}"#);
    assert_eq!(sort_json(&value).print(), r#"{"a":0.5,"z":null}"#);
}

#[test]
fn text_that_is_no_json_says_why() {
    assert_eq!(
        parse_json("nope"),
        Err("expected ident at line 1 column 2".to_string())
    );
    assert_eq!(parse_json(""), Err("EOF while parsing a value at line 1 column 0".to_string()));
    assert!(parse_json_bytes(b"\"\xff\"").is_err());
}

#[test]
fn a_map_keeps_its_names_in_order() {
    let mut map = StringMap::new();
    map.insert("b".to_string(), 1);
    map.insert("a".to_string(), 2);
    map.insert("b".to_string(), 3);
    assert_eq!(map.len(), 2);
    assert_eq!(map.get("b"), Some(&3));
    assert_eq!(map.get("c"), None);
    assert!(map.contains_key("a"));
    assert_eq!(map.entry(0), &("a".to_string(), 2));
    assert_eq!(map.pop_first(), Some(("a".to_string(), 2)));
    assert_eq!(map.pop_first(), Some(("b".to_string(), 3)));
    assert_eq!(map.pop_first(), None);
    assert!(map.is_empty());
}

#[test]
fn errors_have_messages() {
    let http = |status: u16, body: Option<&str>| {
        TransportError::Http { status, url: None, headers: None, body: body.map(|text| text.to_string()) }.message()
    };
    assert_eq!(http(404, None), "http 404 Not Found");
    assert_eq!(http(418, Some("tea\n")), "http 418 I'm a teapot: \"tea\\n\"");
    assert_eq!(
        ApiError::InvalidRequest { message: "no".to_string() }.message(),
        "invalid request: no"
    );
}

#[test]
fn dialects_and_efforts_have_names() {
    assert_eq!(InferenceDialect::ClaudeCode.name(), "claude_code");
    assert_eq!(InferenceDialect::OpenAi.name(), "open_ai");
    assert_eq!(ReasoningEffort::Off.name(), "none");
    assert_eq!(ReasoningEffort::XHigh.name(), "xhigh");
}
