use js_sandbox::call_args::{encode_args, join_arg_fragments};
use js_sandbox::JsValue;

#[test]
fn no_fragment_joins_to_empty_text() {
    assert_eq!(join_arg_fragments(&Vec::new()), "");
}

#[test]
fn one_fragment_is_left_as_it_is() {
    assert_eq!(join_arg_fragments(&vec!["5".to_string()]), "5");
}

#[test]
fn fragments_are_joined_by_single_commas() {
    let fragments = vec!["1".to_string(), "\"two\"".to_string(), "[3]".to_string()];
    assert_eq!(join_arg_fragments(&fragments), "1,\"two\",[3]");
}

#[test]
fn empty_fragments_still_get_their_commas() {
    let fragments = vec![String::new(), String::new(), "x".to_string()];
    assert_eq!(join_arg_fragments(&fragments), ",,x");
}

#[test]
fn no_argument_encodes_to_empty_text() {
    assert_eq!(encode_args(&Vec::new()), "");
}

#[test]
fn a_number_encodes_to_its_digits() {
    assert_eq!(encode_args(&vec![JsValue::from(5)]), "5");
}

#[test]
fn a_string_is_quoted_and_escaped() {
    assert_eq!(encode_args(&vec![JsValue::from("a\"b\n")]), "\"a\\\"b\\n\"");
}

#[test]
fn arguments_are_not_wrapped_in_an_array() {
    let values = vec![
        JsValue::from(1),
        JsValue::from("secret"),
        JsValue::Null,
        JsValue::from(true),
        JsValue::Array(vec![JsValue::from(2), JsValue::from(-3)]),
    ];
    assert_eq!(encode_args(&values), "1,\"secret\",null,true,[2,-3]");
}

#[test]
fn an_object_is_printed_compactly() {
    let mut object = serde_json::Map::new();
    object.insert("text".to_string(), JsValue::from("hi"));
    let values = vec![JsValue::Object(object), JsValue::from(4)];
    assert_eq!(encode_args(&values), "{\"text\":\"hi\"},4");
}

#[test]
fn encoded_arguments_parse_back_as_the_elements_of_an_array() {
    let values = vec![JsValue::from(7), JsValue::from("x,y"), JsValue::Null];
    let text = format!("[{}]", encode_args(&values));
    let parsed: JsValue = serde_json::from_str(&text).unwrap();
    assert_eq!(parsed, JsValue::Array(values));
}
