use ollama_tool::json::{parse_json, Json};

fn text(s: &str) -> Json {
    Json::Text(s.to_string())
}

fn object(members: Vec<(&str, Json)>) -> Json {
    Json::Object(members.into_iter().map(|(k, v)| (k.to_string(), v)).collect())
}

#[test]
fn parses_the_simple_values() {
    assert_eq!(parse_json(b"null"), Ok(Json::Null));
    assert_eq!(parse_json(b"true"), Ok(Json::Bool(true)));
    assert_eq!(parse_json(b"false"), Ok(Json::Bool(false)));
    assert_eq!(parse_json(b"\"hi\""), Ok(text("hi")));
}

#[test]
fn parses_unsigned_numbers_with_their_value() {
    assert_eq!(parse_json(b"0"), Ok(Json::Number(Some(0))));
    assert_eq!(parse_json(b"123"), Ok(Json::Number(Some(123))));
    assert_eq!(parse_json(b"18446744073709551615"), Ok(Json::Number(Some(u64::MAX))));
}

#[test]
fn parses_other_numbers_without_a_value() {
    assert_eq!(parse_json(b"-1"), Ok(Json::Number(None)));
    assert_eq!(parse_json(b"1.5"), Ok(Json::Number(None)));
    assert_eq!(parse_json(b"1.0"), Ok(Json::Number(None)));
    assert_eq!(parse_json(b"1e3"), Ok(Json::Number(None)));
    assert_eq!(parse_json(b"18446744073709551616"), Ok(Json::Number(None)));
}

#[test]
fn parses_text_with_escapes_and_other_scripts() {
    assert_eq!(parse_json(b"\"a\\n\\\"b\\\"\\u00e9\""), Ok(text("a\n\"b\"\u{00e9}")));
    assert_eq!(parse_json("\"\u{4e2d}\u{6587}\"".as_bytes()), Ok(text("\u{4e2d}\u{6587}")));
}

#[test]
fn parses_arrays_in_order() {
    assert_eq!(
        parse_json(b"[1, \"two\", null, [true]]"),
        Ok(Json::Array(vec![
            Json::Number(Some(1)),
            text("two"),
            Json::Null,
            Json::Array(vec![Json::Bool(true)]),
        ]))
    );
    assert_eq!(parse_json(b"[]"), Ok(Json::Array(Vec::new())));
}

#[test]
fn parses_objects_with_their_members() {
    assert_eq!(
        parse_json(b"{\"a\": {\"b\": [\"c\"]}, \"d\": 4}"),
        Ok(object(vec![
            ("a", object(vec![("b", Json::Array(vec![text("c")]))])),
            ("d", Json::Number(Some(4))),
        ]))
    );
    assert_eq!(parse_json(b"{}"), Ok(Json::Object(Vec::new())));
}

#[test]
fn parses_surrounding_space() {
    assert_eq!(parse_json(b" \n\t{ \"a\" : 1 } \r\n"), Ok(object(vec![("a", Json::Number(Some(1)))])));
}

#[test]
fn a_key_that_stands_twice_is_kept_once() {
    let parsed = parse_json(b"{\"a\": 1, \"a\": 2}").unwrap();
    match parsed {
        Json::Object(members) => {
            assert_eq!(members.len(), 1);
            assert_eq!(members[0].0, "a");
        }
        other => panic!("not an object: {:?}", other),
    }
}

#[test]
fn refuses_what_is_not_json() {
    assert!(parse_json(b"").is_err());
    assert!(parse_json(b"Ollama is running").is_err());
    assert!(parse_json(b"{\"a\": }").is_err());
    assert!(parse_json(b"[1, 2").is_err());
    assert!(parse_json(b"{\"a\": 1} trailing").is_err());
    assert!(parse_json(b"\"\xff\"").is_err());
}

#[test]
fn a_refusal_carries_the_parser_complaint() {
    let complaint = parse_json(b"[1, 2").unwrap_err();
    let direct = serde_json::from_slice::<serde_json::Value>(b"[1, 2").unwrap_err();
    assert_eq!(complaint, direct.to_string());
    assert!(!complaint.is_empty());
}

#[test]
fn the_same_text_parses_to_the_same_tree() {
    let body = b"{\"models\": [{\"name\": \"x\", \"size\": 5}]}";
    assert_eq!(parse_json(body), parse_json(body));
}

#[test]
fn nesting_beyond_the_parser_limit_is_refused() {
    let deep = "[".repeat(200) + &"]".repeat(200);
    assert!(parse_json(deep.as_bytes()).is_err());
    let fine = "[".repeat(100) + &"]".repeat(100);
    assert!(parse_json(fine.as_bytes()).is_ok());
}

#[test]
fn a_number_beyond_all_range_is_refused() {
    assert!(parse_json(b"1e400").is_err());
}
