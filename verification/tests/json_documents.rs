use exchange_rate_bot::json::{parse, JsonMember, JsonNumber, JsonValue};

fn number(signed: Option<i64>, unsigned: Option<u64>, real: f64) -> JsonValue {
    JsonValue::Number(JsonNumber { signed, unsigned, real_bits: Some(real.to_bits()) })
}

#[test]
fn reads_the_six_kinds_of_value() {
    assert_eq!(parse("null"), Ok(JsonValue::Null));
    assert_eq!(parse("true"), Ok(JsonValue::Bool(true)));
    assert_eq!(parse("false"), Ok(JsonValue::Bool(false)));
    assert_eq!(parse("\"a\\nb\""), Ok(JsonValue::Text("a\nb".to_string())));
    assert_eq!(parse("[]"), Ok(JsonValue::Array(vec![])));
    assert_eq!(parse("{}"), Ok(JsonValue::Object(vec![])));
    assert_eq!(parse("7"), Ok(number(Some(7), Some(7), 7.0)));
}

#[test]
fn reads_a_number_in_three_ways() {
    assert_eq!(parse("-3"), Ok(number(Some(-3), None, -3.0)));
    assert_eq!(parse("0.92"), Ok(number(None, None, 0.92)));
    assert_eq!(parse("1e3"), Ok(number(None, None, 1000.0)));
    assert_eq!(
        parse("18446744073709551615"),
        Ok(number(None, Some(u64::MAX), 18446744073709551615.0))
    );
    assert_eq!(
        parse("9223372036854775807"),
        Ok(number(Some(i64::MAX), Some(9223372036854775807), 9223372036854775807.0))
    );
}

#[test]
fn reads_nested_documents() {
    let document = parse("{\"a\":[1,{\"b\":null}],\"c\":\"d\"}").unwrap();
    let expected = JsonValue::Object(vec![
        JsonMember {
            key: "a".to_string(),
            value: JsonValue::Array(vec![
                number(Some(1), Some(1), 1.0),
                JsonValue::Object(vec![JsonMember { key: "b".to_string(), value: JsonValue::Null }]),
            ]),
        },
        JsonMember { key: "c".to_string(), value: JsonValue::Text("d".to_string()) },
    ]);
    assert_eq!(document, expected);
}

#[test]
fn a_repeated_key_is_read_once() {
    let document = parse("{\"a\":1,\"a\":2}").unwrap();
    assert_eq!(document.as_object().map(|m| m.len()), Some(1));
    assert_eq!(document.get("a").and_then(|v| v.as_i64()), Some(2));
}

#[test]
fn reports_what_is_no_document() {
    assert!(parse("").is_err());
    assert!(parse("{").is_err());
    assert!(parse("{\"a\":}").is_err());
    assert!(parse("nul").is_err());
    assert!(parse("1 2").is_err());
    let message = parse("{\"a\":}").unwrap_err();
    assert_eq!(message, "expected value at line 1 column 6");
}

#[test]
fn the_same_text_reads_the_same() {
    let text = "{\"rates\":{\"EUR\":0.9,\"JPY\":[1,2,3]},\"x\":-1.5e-3}";
    assert_eq!(parse(text), parse(text));
}

#[test]
fn looks_up_members_of_objects_only() {
    let document = parse("{\"a\":1,\"b\":\"x\"}").unwrap();
    assert_eq!(document.get("a"), Some(&number(Some(1), Some(1), 1.0)));
    assert_eq!(document.get("b"), Some(&JsonValue::Text("x".to_string())));
    assert_eq!(document.get("c"), None);
    assert_eq!(document.get(""), None);
    assert_eq!(parse("[1]").unwrap().get("a"), None);
    assert_eq!(parse("\"a\"").unwrap().get("a"), None);
}

#[test]
fn lookup_takes_the_first_member_of_a_key() {
    let document = JsonValue::Object(vec![
        JsonMember { key: "k".to_string(), value: JsonValue::Bool(true) },
        JsonMember { key: "k".to_string(), value: JsonValue::Bool(false) },
    ]);
    assert_eq!(document.get("k"), Some(&JsonValue::Bool(true)));
}

#[test]
fn projections_answer_for_their_own_kind_only() {
    let text = JsonValue::Text("t".to_string());
    let truth = JsonValue::Bool(true);
    let seven = number(Some(7), Some(7), 7.0);
    let list = JsonValue::Array(vec![JsonValue::Null]);
    let object = JsonValue::Object(vec![]);
    assert_eq!(text.as_str(), Some("t"));
    assert_eq!(truth.as_str(), None);
    assert_eq!(truth.as_bool(), Some(true));
    assert_eq!(text.as_bool(), None);
    assert_eq!(seven.as_i64(), Some(7));
    assert_eq!(seven.as_u64(), Some(7));
    assert_eq!(seven.as_real_bits(), Some(7.0f64.to_bits()));
    assert_eq!(text.as_i64(), None);
    assert_eq!(text.as_u64(), None);
    assert_eq!(text.as_real_bits(), None);
    assert_eq!(list.as_array().map(|a| a.len()), Some(1));
    assert_eq!(object.as_array(), None);
    assert_eq!(object.as_object().map(|m| m.len()), Some(0));
    assert_eq!(list.as_object(), None);
    assert_eq!(JsonValue::Null.as_str(), None);
}
