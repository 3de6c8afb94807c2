use error_translator::validation::{flatten, single_failure, Failure, ListItem};

fn field(name: &str, codes: &[&str]) -> Failure {
    Failure::Field { field: name.to_string(), codes: codes.iter().map(|c| c.to_string()).collect() }
}

fn codes_of(failures: &Vec<Failure>) -> Vec<String> {
    flatten(failures).into_iter().map(|node| node.code).collect()
}

#[test]
fn no_failures_give_no_nodes() {
    assert!(flatten(&Vec::new()).is_empty());
}

#[test]
fn fields_keep_their_declared_order() {
    let failures = vec![field("name", &["name-violation"]), field("age", &["age-violation"])];
    assert_eq!(codes_of(&failures), vec!["name-violation", "age-violation"]);
}

#[test]
fn rules_of_one_field_keep_their_order() {
    let failures = vec![field("name", &["length", "format"])];
    let nodes = flatten(&failures);
    assert_eq!(nodes.len(), 2);
    assert_eq!(nodes[0].code, "length");
    assert_eq!(nodes[1].code, "format");
}

#[test]
fn flat_nodes_are_leaves() {
    let failures = vec![
        field("name", &["length", "format"]),
        Failure::Struct { field: "address".to_string(), nested: vec![field("zip", &["zip"])] },
    ];
    for node in flatten(&failures) {
        assert!(node.args.is_none());
        assert!(node.children.is_empty());
    }
}

#[test]
fn nested_structs_are_flattened_in_place() {
    let failures = vec![
        field("name", &["a"]),
        Failure::Struct {
            field: "address".to_string(),
            nested: vec![
                field("street", &["b", "c"]),
                Failure::Struct { field: "geo".to_string(), nested: vec![field("lat", &["d"])] },
            ],
        },
        field("age", &["e"]),
    ];
    assert_eq!(codes_of(&failures), vec!["a", "b", "c", "d", "e"]);
}

#[test]
fn lists_are_flattened_element_by_element() {
    let failures = vec![
        Failure::List {
            field: "tags".to_string(),
            items: vec![
                ListItem { index: 0, nested: vec![field("label", &["a"])] },
                ListItem { index: 3, nested: vec![field("label", &["b"]), field("color", &["c"])] },
            ],
        },
        field("name", &["d"]),
    ];
    assert_eq!(codes_of(&failures), vec!["a", "b", "c", "d"]);
}

#[test]
fn length_is_the_number_of_broken_rules() {
    let failures = vec![
        field("a", &["1", "2", "3"]),
        field("b", &[]),
        Failure::Struct { field: "c".to_string(), nested: vec![] },
        Failure::List {
            field: "d".to_string(),
            items: vec![
                ListItem { index: 1, nested: vec![] },
                ListItem { index: 2, nested: vec![field("x", &["4", "5"])] },
            ],
        },
    ];
    assert_eq!(flatten(&failures).len(), 5);
}

#[test]
fn flattening_follows_concatenation() {
    let first = vec![field("a", &["1", "2"])];
    let second = vec![field("b", &["3"]), field("c", &["4"])];
    let mut both_codes = codes_of(&first);
    both_codes.extend(codes_of(&second));
    let both = vec![field("a", &["1", "2"]), field("b", &["3"]), field("c", &["4"])];
    assert_eq!(codes_of(&both), both_codes);
}

#[test]
fn single_failure_names_field_and_code() {
    match single_failure("name", "error.business.name_limit") {
        Failure::Field { field, codes } => {
            assert_eq!(field, "name");
            assert_eq!(codes, vec!["error.business.name_limit"]);
        }
        other => panic!("unexpected failure: {:?}", other),
    }
}
