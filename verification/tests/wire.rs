use error_translator::args::Args;
use error_translator::catalog::Catalog;
use error_translator::error_node::{ErrorNode, TranslatedError};
use error_translator::json::{JsonMember, JsonValue};
use error_translator::translate::{translate, TranslationConfig};
use error_translator::wire::{
    decode_node, encode_node, encode_translated, node_from_bytes, node_to_bytes,
    translated_to_bytes,
};

fn args_of(pairs: &[(&str, &str)]) -> Args {
    let mut args = Args::new();
    for (key, value) in pairs {
        args.insert(key.to_string(), value.to_string());
    }
    args
}

fn text(value: &str) -> JsonValue {
    JsonValue::Text(value.to_string())
}

fn object(members: Vec<(&str, JsonValue)>) -> JsonValue {
    JsonValue::Object(
        members.into_iter().map(|(key, value)| JsonMember { key: key.to_string(), value }).collect(),
    )
}

#[test]
fn reads_a_full_node() {
    let body = br#"{"code":"error.bad_request","args":{"min":"1","max":"10"},"children":[{"code":"a"},{"code":"b","children":[{"code":"c"}]}]}"#;
    let node = node_from_bytes(body).expect("a node");
    assert_eq!(node.code, "error.bad_request");
    let args = node.args.expect("arguments");
    assert_eq!(args.len(), 2);
    assert_eq!(args.get("min").map(String::as_str), Some("1"));
    assert_eq!(args.get("max").map(String::as_str), Some("10"));
    assert_eq!(node.children.len(), 2);
    assert_eq!(node.children[0].code, "a");
    assert!(node.children[0].args.is_none());
    assert!(node.children[0].children.is_empty());
    assert_eq!(node.children[1].code, "b");
    assert_eq!(node.children[1].children.len(), 1);
    assert_eq!(node.children[1].children[0].code, "c");
}

#[test]
fn reads_a_bare_code() {
    let node = node_from_bytes(br#"{"code":"error.internal_error"}"#).expect("a node");
    assert_eq!(node.code, "error.internal_error");
    assert!(node.args.is_none());
    assert!(node.children.is_empty());
}

#[test]
fn null_members_count_as_missing() {
    let node = node_from_bytes(br#"{"code":"x","args":null,"children":null}"#).expect("a node");
    assert!(node.args.is_none());
    assert!(node.children.is_empty());
}

#[test]
fn unknown_members_are_ignored() {
    let node = node_from_bytes(br#"{"status":400,"code":"x","msg":"","extra":[1,2]}"#).expect("a node");
    assert_eq!(node.code, "x");
}

#[test]
fn rejects_what_is_no_json() {
    assert!(node_from_bytes(b"").is_none());
    assert!(node_from_bytes(b"not json").is_none());
    assert!(node_from_bytes(b"{\"code\":\"x\"").is_none());
    assert!(node_from_bytes(&[0xff, 0xfe, 0x00]).is_none());
}

#[test]
fn rejects_documents_that_are_no_node() {
    assert!(node_from_bytes(b"null").is_none());
    assert!(node_from_bytes(b"[]").is_none());
    assert!(node_from_bytes(b"\"error.bad_request\"").is_none());
    assert!(node_from_bytes(b"{}").is_none());
    assert!(node_from_bytes(br#"{"code":7}"#).is_none());
    assert!(node_from_bytes(br#"{"code":null}"#).is_none());
    assert!(node_from_bytes(br#"{"code":""}"#).is_none());
    assert!(node_from_bytes(br#"{"code":"x","args":[]}"#).is_none());
    assert!(node_from_bytes(br#"{"code":"x","args":{"min":1}}"#).is_none());
    assert!(node_from_bytes(br#"{"code":"x","children":{}}"#).is_none());
    assert!(node_from_bytes(br#"{"code":"x","children":[{"code":"y"},{"msg":"z"}]}"#).is_none());
    assert!(node_from_bytes(br#"{"code":"x","children":[{"code":"y","children":[{"code":""}]}]}"#).is_none());
}

#[test]
fn decode_reads_the_first_member_of_a_key() {
    let value = object(vec![("code", text("first")), ("code", text("second"))]);
    assert_eq!(decode_node(&value).expect("a node").code, "first");
}

#[test]
fn decode_takes_the_last_value_of_an_argument() {
    let value = object(vec![
        ("code", text("x")),
        ("args", object(vec![("a", text("1")), ("b", text("2")), ("a", text("3"))])),
    ]);
    let args = decode_node(&value).expect("a node").args.expect("arguments");
    assert_eq!(args.len(), 2);
    assert_eq!(args.key_at(0), "a");
    assert_eq!(args.value_at(0), "3");
    assert_eq!(args.key_at(1), "b");
}

#[test]
fn encode_writes_code_args_children() {
    let node = ErrorNode::with_args("x", args_of(&[("min", "1")]));
    match encode_node(&node) {
        JsonValue::Object(members) => {
            assert_eq!(members.len(), 3);
            assert_eq!(members[0].key, "code");
            assert!(matches!(&members[0].value, JsonValue::Text(code) if code == "x"));
            assert_eq!(members[1].key, "args");
            match &members[1].value {
                JsonValue::Object(args) => {
                    assert_eq!(args.len(), 1);
                    assert_eq!(args[0].key, "min");
                    assert!(matches!(&args[0].value, JsonValue::Text(v) if v == "1"));
                }
                other => panic!("unexpected args: {:?}", other),
            }
            assert_eq!(members[2].key, "children");
            assert!(matches!(&members[2].value, JsonValue::Array(items) if items.is_empty()));
        }
        other => panic!("unexpected document: {:?}", other),
    }
    match encode_node(&ErrorNode::leaf("y")) {
        JsonValue::Object(members) => assert!(matches!(members[1].value, JsonValue::Null)),
        other => panic!("unexpected document: {:?}", other),
    }
}

#[test]
fn node_bytes_are_json() {
    let node = ErrorNode::with_children("p", vec![ErrorNode::leaf("c")]);
    let value: serde_json::Value = serde_json::from_slice(&node_to_bytes(&node)).expect("json");
    assert_eq!(value["code"], "p");
    assert!(value["args"].is_null());
    assert_eq!(value["children"].as_array().expect("array").len(), 1);
    assert_eq!(value["children"][0]["code"], "c");
}

#[test]
fn round_trip_keeps_the_tree() {
    let node = ErrorNode {
        code: "error.bad_request".to_string(),
        args: Some(args_of(&[("z", "26"), ("a", "1")])),
        children: vec![
            ErrorNode::with_args("first", args_of(&[("min", "1"), ("max", "10")])),
            ErrorNode::with_children("second", vec![ErrorNode::leaf("third")]),
        ],
    };
    let back = decode_node(&encode_node(&node)).expect("a node");
    assert_eq!(back.code, "error.bad_request");
    let args = back.args.expect("arguments");
    assert_eq!(args.key_at(0), "z");
    assert_eq!(args.key_at(1), "a");
    assert_eq!(back.children.len(), 2);
    assert_eq!(back.children[0].code, "first");
    assert_eq!(back.children[0].args.as_ref().unwrap().get("max").map(String::as_str), Some("10"));
    assert_eq!(back.children[1].code, "second");
    assert_eq!(back.children[1].children[0].code, "third");
}

#[test]
fn round_trip_through_bytes_then_translation_keeps_children() {
    let node = ErrorNode::with_children(
        "error.bad_request",
        vec![ErrorNode::leaf("error.first"), ErrorNode::leaf("error.second")],
    );
    let bytes = node_to_bytes(&node);
    let back = node_from_bytes(&bytes).expect("a node");
    let mut catalog = Catalog::new("en");
    catalog.add("en", "error.second", "Second");
    let config = TranslationConfig {
        requested_locales: vec!["en".to_string()],
        fallback_locale: "en".to_string(),
        args: None,
    };
    let translated = translate(&back, &catalog, &config);
    assert_eq!(translated.code, "error.bad_request");
    assert_eq!(translated.children.len(), 2);
    assert_eq!(translated.children[0].code, "error.first");
    assert_eq!(translated.children[0].message, "error.first");
    assert_eq!(translated.children[1].code, "error.second");
    assert_eq!(translated.children[1].message, "Second");
}

#[test]
fn translated_document_has_code_message_children() {
    let error = TranslatedError {
        code: "error.bad_request".to_string(),
        message: "Bad \"request\"".to_string(),
        children: vec![TranslatedError {
            code: "error.business.name_limit".to_string(),
            message: "名称".to_string(),
            children: vec![],
        }],
    };
    match encode_translated(&error) {
        JsonValue::Object(members) => {
            let keys: Vec<&str> = members.iter().map(|m| m.key.as_str()).collect();
            assert_eq!(keys, vec!["code", "message", "children"]);
        }
        other => panic!("unexpected document: {:?}", other),
    }
    let value: serde_json::Value = serde_json::from_slice(&translated_to_bytes(&error)).expect("json");
    assert_eq!(value.as_object().expect("object").len(), 3);
    assert_eq!(value["code"], "error.bad_request");
    assert_eq!(value["message"], "Bad \"request\"");
    assert_eq!(value["children"][0]["code"], "error.business.name_limit");
    assert_eq!(value["children"][0]["message"], "名称");
    assert_eq!(value["children"][0]["children"].as_array().expect("array").len(), 0);
}
