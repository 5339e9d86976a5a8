use spider_rs::conversions::{object_to_u8, FieldValue, ObjectConvert, ObjectField};

fn field(key: &str, value: FieldValue) -> ObjectField {
    ObjectField { key: key.to_string(), value }
}

fn convert(fields: Vec<ObjectField>) -> String {
    String::from_utf8(object_to_u8(ObjectConvert::Obj(fields)).unwrap()).unwrap()
}

#[test]
fn empty_object_is_braces() {
    assert_eq!(convert(vec![]), "{}");
}

#[test]
fn strings_numbers_and_null() {
    let text = convert(vec![
        field("a", FieldValue::Text("x".to_string())),
        field("n", FieldValue::Unsigned(5)),
        field("s", FieldValue::Signed(-42)),
        field("z", FieldValue::Null),
    ]);
    assert_eq!(text, r#"{"a":"x","n":"5","s":"-42","z":null}"#);
}

#[test]
fn number_extremes() {
    let text = convert(vec![
        field("max", FieldValue::Unsigned(u32::MAX)),
        field("min", FieldValue::Signed(i32::MIN)),
        field("zero", FieldValue::Signed(0)),
    ]);
    assert_eq!(text, r#"{"max":"4294967295","min":"-2147483648","zero":"0"}"#);
}

#[test]
fn unsupported_value_leaves_no_comma() {
    let text = convert(vec![
        field("a", FieldValue::Text("x".to_string())),
        field("b", FieldValue::Other),
        field("c", FieldValue::Text("y".to_string())),
    ]);
    assert_eq!(text, r#"{"a":"x","c":"y"}"#);
}

#[test]
fn unsupported_last_value_leaves_no_trailing_comma() {
    let text = convert(vec![field("a", FieldValue::Text("x".to_string())), field("b", FieldValue::Other)]);
    assert_eq!(text, r#"{"a":"x"}"#);
}

#[test]
fn undefined_value_drops_its_comma() {
    let text = convert(vec![field("a", FieldValue::Undefined), field("b", FieldValue::Text("y".to_string()))]);
    assert_eq!(text, r#"{"b":"y"}"#);
    let text = convert(vec![field("a", FieldValue::Text("x".to_string())), field("b", FieldValue::Undefined)]);
    assert_eq!(text, r#"{"a":"x"}"#);
}

#[test]
fn buffer_is_written_as_json_string() {
    let text = convert(vec![field("k", FieldValue::Bytes(b"he\"llo\n".to_vec()))]);
    assert_eq!(text, r#"{"k":"he\"llo\n"}"#);
}

#[test]
fn invalid_utf8_buffer_is_empty_string() {
    let text = convert(vec![field("k", FieldValue::Bytes(vec![0xff, 0xfe]))]);
    assert_eq!(text, r#"{"k":""}"#);
}

#[test]
fn unicode_key_and_text_are_utf8() {
    let bytes = object_to_u8(ObjectConvert::Obj(vec![field("é", FieldValue::Text("ü".to_string()))])).unwrap();
    assert_eq!(bytes, "{\"é\":\"ü\"}".as_bytes().to_vec());
}

#[test]
fn json_value_is_written_as_its_text() {
    let value: serde_json::Value = serde_json::from_str(r#"{"a":1,"b":[true,null]}"#).unwrap();
    let bytes = object_to_u8(ObjectConvert::Val(value)).unwrap();
    assert_eq!(String::from_utf8(bytes).unwrap(), r#"{"a":1,"b":[true,null]}"#);
}

#[test]
fn unsupported_boolean_between_fields_gives_json() {
    let text = convert(vec![
        field("a", FieldValue::Text("x".to_string())),
        field("b", FieldValue::Other),
        field("c", FieldValue::Null),
    ]);
    assert_eq!(text, r#"{"a":"x","c":null}"#);
    let parsed: serde_json::Value = serde_json::from_str(&text).unwrap();
    assert_eq!(parsed["a"], "x");
}

#[test]
fn buffer_is_written_as_escaped_json_string() {
    let text = convert(vec![field("b", FieldValue::Bytes(b"a\"b\\\n\x01".to_vec()))]);
    assert_eq!(text, "{\"b\":\"a\\\"b\\\\\\n\\u0001\"}");
}
