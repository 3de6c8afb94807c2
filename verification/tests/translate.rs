use error_translator::args::Args;
use error_translator::catalog::Catalog;
use error_translator::error_node::ErrorNode;
use error_translator::locale::{has_suspect_weight, parse_accept_language};
use error_translator::translate::{render_message, resolve_template, translate, TranslationConfig};

fn catalog() -> Catalog {
    let mut catalog = Catalog::new("en");
    catalog.add("en", "demo.hello", "Hello, {{name}}!");
    catalog.add("zh", "demo.hello", "你好，{{name}}！");
    catalog.add("en", "error.bad_request", "Bad request");
    catalog.add("zh", "error.bad_request", "请求错误");
    catalog.add("en", "error.business.name_limit", "Name must have {{min}} to {{max}} characters");
    catalog.add("zh", "error.business.name_limit", "名称长度必须在 {{min}} 到 {{max}} 之间");
    catalog.add("en", "error.only_english", "Only English");
    catalog.add("de", "error.only_german", "Nur Deutsch");
    catalog
}

fn config(locales: &[&str], args: Option<Args>) -> TranslationConfig {
    TranslationConfig {
        requested_locales: locales.iter().map(|l| l.to_string()).collect(),
        fallback_locale: "en".to_string(),
        args,
    }
}

fn args_of(pairs: &[(&str, &str)]) -> Args {
    let mut args = Args::new();
    for (key, value) in pairs {
        args.insert(key.to_string(), value.to_string());
    }
    args
}

#[test]
fn catalog_lookup_finds_by_code_and_locale() {
    let catalog = catalog();
    assert_eq!(catalog.len(), 8);
    assert_eq!(catalog.default_locale(), "en");
    assert_eq!(catalog.lookup("demo.hello", "zh").map(String::as_str), Some("你好，{{name}}！"));
    assert_eq!(catalog.lookup("demo.hello", "en").map(String::as_str), Some("Hello, {{name}}!"));
    assert!(catalog.lookup("demo.hello", "fr").is_none());
    assert!(catalog.lookup("demo.bye", "en").is_none());
    assert!(catalog.lookup("en", "demo.hello").is_none());
}

#[test]
fn catalog_first_entry_wins() {
    let mut catalog = Catalog::new("en");
    catalog.add("en", "a", "first");
    catalog.add("en", "a", "second");
    assert_eq!(catalog.lookup("a", "en").map(String::as_str), Some("first"));
}

#[test]
fn template_of_requested_locale_is_rendered_exactly() {
    let catalog = catalog();
    let config = config(&["zh"], None);
    let args = args_of(&[("min", "1"), ("max", "10")]);
    let message = render_message(&catalog, &config, "error.business.name_limit", Some(&args));
    assert_eq!(message, "名称长度必须在 1 到 10 之间");
}

#[test]
fn missing_locale_falls_back() {
    let catalog = catalog();
    let config = config(&["fr"], None);
    let args = args_of(&[("min", "1"), ("max", "10")]);
    let message = render_message(&catalog, &config, "error.business.name_limit", Some(&args));
    assert_eq!(message, "Name must have 1 to 10 characters");
}

#[test]
fn missing_code_is_its_own_message() {
    let catalog = catalog();
    let config = config(&["zh", "fr"], Some(args_of(&[("name", "x")])));
    assert!(resolve_template(&catalog, &config, "error.unknown.{{name}}").is_none());
    let message = render_message(&catalog, &config, "error.unknown.{{name}}", None);
    assert_eq!(message, "error.unknown.{{name}}");
}

#[test]
fn locales_are_tried_in_order_for_every_code() {
    let catalog = catalog();
    let config = config(&["zh", "de"], None);
    assert_eq!(
        resolve_template(&catalog, &config, "error.bad_request").map(String::as_str),
        Some("请求错误")
    );
    assert_eq!(
        resolve_template(&catalog, &config, "error.only_german").map(String::as_str),
        Some("Nur Deutsch")
    );
    assert_eq!(
        resolve_template(&catalog, &config, "error.only_english").map(String::as_str),
        Some("Only English")
    );
}

#[test]
fn no_requested_locale_uses_fallback() {
    let catalog = catalog();
    let config = config(&[], Some(args_of(&[("name", "world")])));
    assert_eq!(render_message(&catalog, &config, "demo.hello", None), "Hello, world!");
}

#[test]
fn node_args_win_over_root_args() {
    let catalog = catalog();
    let config = config(&["en"], Some(args_of(&[("name", "root"), ("min", "0")])));
    let own = args_of(&[("name", "node")]);
    assert_eq!(render_message(&catalog, &config, "demo.hello", Some(&own)), "Hello, node!");
    let limits = args_of(&[("max", "10")]);
    assert_eq!(
        render_message(&catalog, &config, "error.business.name_limit", Some(&limits)),
        "Name must have 0 to 10 characters"
    );
}

#[test]
fn placeholder_without_value_stays() {
    let catalog = catalog();
    let config = config(&["en"], None);
    assert_eq!(render_message(&catalog, &config, "demo.hello", None), "Hello, {{name}}!");
}

#[test]
fn translation_keeps_codes_and_order() {
    let catalog = catalog();
    let config = config(&["zh"], None);
    let tree = ErrorNode::with_children(
        "error.bad_request",
        vec![
            ErrorNode::with_args(
                "error.business.name_limit",
                args_of(&[("min", "1"), ("max", "10")]),
            ),
            ErrorNode::leaf("error.only_english"),
            ErrorNode::with_children("error.unknown", vec![ErrorNode::leaf("error.only_german")]),
        ],
    );
    let translated = translate(&tree, &catalog, &config);
    assert_eq!(translated.code, "error.bad_request");
    assert_eq!(translated.message, "请求错误");
    assert_eq!(translated.children.len(), 3);
    assert_eq!(translated.children[0].code, "error.business.name_limit");
    assert_eq!(translated.children[0].message, "名称长度必须在 1 到 10 之间");
    assert_eq!(translated.children[1].code, "error.only_english");
    assert_eq!(translated.children[1].message, "Only English");
    assert_eq!(translated.children[2].code, "error.unknown");
    assert_eq!(translated.children[2].message, "error.unknown");
    assert_eq!(translated.children[2].children.len(), 1);
    assert_eq!(translated.children[2].children[0].code, "error.only_german");
    assert_eq!(translated.children[2].children[0].message, "error.only_german");
}

#[test]
fn header_is_ordered_by_weight() {
    assert_eq!(parse_accept_language("zh-CN,zh;q=0.9,en;q=0.8"), vec!["zh-CN", "zh", "en"]);
    assert_eq!(parse_accept_language("en;q=0.8, zh;q=0.9"), vec!["zh", "en"]);
    assert_eq!(parse_accept_language("zh;q=0.9,en;q=0.8,en;q=1.0"), vec!["en", "zh", "en"]);
    assert_eq!(parse_accept_language("zh"), vec!["zh"]);
    assert_eq!(parse_accept_language("en-US, de;q=0.7, jp;q=0.1"), vec!["en-US", "de", "jp"]);
}

#[test]
fn empty_header_gives_no_locale() {
    assert!(parse_accept_language("").is_empty());
}

#[test]
fn header_with_suspect_weight_gives_no_locale() {
    assert!(has_suspect_weight("en;q=NaN"));
    assert!(has_suspect_weight("zh, en;q = nan"));
    assert!(has_suspect_weight("en;q=0.5;x=n"));
    assert!(parse_accept_language("en;q=NaN, zh;q=0.5, de;q=0.9").is_empty());
}

#[test]
fn header_with_plain_weights_is_not_suspect() {
    assert!(!has_suspect_weight(""));
    assert!(!has_suspect_weight("en"));
    assert!(!has_suspect_weight("en-US,en;q=0.9,zh-CN;q=0.8"));
    assert!(!has_suspect_weight("q=0.9,nan"));
    assert!(!has_suspect_weight("nan;q=0.9"));
}
