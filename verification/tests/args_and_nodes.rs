use error_translator::args::Args;
use error_translator::error_node::ErrorNode;
use error_translator::response::{response_action, ResponseAction};

fn args_of(pairs: &[(&str, &str)]) -> Args {
    let mut args = Args::new();
    for (key, value) in pairs {
        args.insert(key.to_string(), value.to_string());
    }
    args
}

#[test]
fn success_statuses_pass_through() {
    assert_eq!(response_action(200), ResponseAction::PassThrough);
    assert_eq!(response_action(204), ResponseAction::PassThrough);
    assert_eq!(response_action(299), ResponseAction::PassThrough);
}

#[test]
fn other_statuses_are_translated() {
    assert_eq!(response_action(0), ResponseAction::Translate);
    assert_eq!(response_action(199), ResponseAction::Translate);
    assert_eq!(response_action(300), ResponseAction::Translate);
    assert_eq!(response_action(400), ResponseAction::Translate);
    assert_eq!(response_action(404), ResponseAction::Translate);
    assert_eq!(response_action(500), ResponseAction::Translate);
    assert_eq!(response_action(u16::MAX), ResponseAction::Translate);
}

#[test]
fn new_args_are_empty() {
    let args = Args::new();
    assert_eq!(args.len(), 0);
    assert!(args.get("min").is_none());
}

#[test]
fn insert_then_get() {
    let args = args_of(&[("min", "1"), ("max", "10")]);
    assert_eq!(args.len(), 2);
    assert_eq!(args.get("min").map(String::as_str), Some("1"));
    assert_eq!(args.get("max").map(String::as_str), Some("10"));
    assert!(args.get("mid").is_none());
}

#[test]
fn insert_replaces_in_place() {
    let args = args_of(&[("min", "1"), ("max", "10"), ("min", "2")]);
    assert_eq!(args.len(), 2);
    assert_eq!(args.key_at(0), "min");
    assert_eq!(args.value_at(0), "2");
    assert_eq!(args.key_at(1), "max");
    assert_eq!(args.value_at(1), "10");
}

#[test]
fn merged_over_prefers_own_values() {
    let own = args_of(&[("name", "node"), ("min", "1")]);
    let base = args_of(&[("name", "root"), ("max", "10")]);
    let merged = own.merged_over(&base);
    assert_eq!(merged.len(), 3);
    assert_eq!(merged.get("name").map(String::as_str), Some("node"));
    assert_eq!(merged.get("min").map(String::as_str), Some("1"));
    assert_eq!(merged.get("max").map(String::as_str), Some("10"));
}

#[test]
fn merged_over_empty_is_a_copy() {
    let own = args_of(&[("a", "1")]);
    let merged = own.merged_over(&Args::new());
    assert_eq!(merged.len(), 1);
    assert_eq!(merged.get("a").map(String::as_str), Some("1"));
    let merged = Args::new().merged_over(&own);
    assert_eq!(merged.len(), 1);
    assert_eq!(merged.get("a").map(String::as_str), Some("1"));
}

#[test]
fn clone_keeps_entries_and_order() {
    let args = args_of(&[("b", "2"), ("a", "1")]);
    let copy = args.clone();
    assert_eq!(copy.len(), 2);
    assert_eq!(copy.key_at(0), "b");
    assert_eq!(copy.key_at(1), "a");
    assert_eq!(copy.get("a").map(String::as_str), Some("1"));
}

#[test]
fn node_constructors() {
    let leaf = ErrorNode::leaf("error.business.name_limit");
    assert_eq!(leaf.code, "error.business.name_limit");
    assert!(leaf.args.is_none());
    assert!(leaf.children.is_empty());

    let with_args = ErrorNode::with_args("error.range", args_of(&[("min", "1")]));
    assert_eq!(with_args.code, "error.range");
    assert_eq!(with_args.args.as_ref().unwrap().get("min").map(String::as_str), Some("1"));
    assert!(with_args.children.is_empty());

    let parent = ErrorNode::with_children("error.bad_request", vec![leaf, with_args]);
    assert_eq!(parent.code, "error.bad_request");
    assert!(parent.args.is_none());
    assert_eq!(parent.children.len(), 2);
    assert_eq!(parent.children[0].code, "error.business.name_limit");
    assert_eq!(parent.children[1].code, "error.range");
}
