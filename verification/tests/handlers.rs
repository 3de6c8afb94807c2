use error_translator::args::Args;
use error_translator::catalog::Catalog;
use error_translator::dto::{
    CreateUserReq, DeleteUserRspDto, PaginationParams, SetRedisValueReq, UpdateUserReq, UserRspDto,
};
use error_translator::error::{
    ServerError, BAD_REQUEST, INTERNAL_SERVER_ERROR, INVALID_PARAMS, USER_NOT_FOUND,
};
use error_translator::extractors::ValidatedJson;
use error_translator::handlers::{
    delete_user, get_user, get_user_list, i18n_demo, update_user, I18nParams,
};
use error_translator::validation::{Failure, Validate};
use error_translator::wire::node_from_bytes;

fn catalog() -> Catalog {
    let mut catalog = Catalog::new("en");
    catalog.add("en", "demo.hello", "Hello, {{name}}!");
    catalog.add("zh", "demo.hello", "你好，{{name}}！");
    catalog
}

#[test]
fn test_i18n() {
    let catalog = catalog();
    let greeting = i18n_demo(I18nParams::new(Some("world".to_string())), "", &catalog);
    assert_eq!(greeting.expect("a greeting"), "Hello, world!");
    let greeting = i18n_demo(I18nParams::new(Some("世界".to_string())), "zh", &catalog);
    assert_eq!(greeting.expect("a greeting"), "你好，世界！");
}

#[test]
fn greeting_without_name_is_a_bad_request() {
    match i18n_demo(I18nParams::new(None), "zh", &catalog()) {
        Err(ServerError::BusinessError { status, code, args }) => {
            assert_eq!(status, 400);
            assert_eq!(code, "error.invalid_params");
            assert!(args.is_none());
        }
        other => panic!("unexpected answer: {:?}", other),
    }
}

#[test]
fn greeting_follows_weights() {
    let catalog = catalog();
    let greeting = i18n_demo(I18nParams::new(Some("x".to_string())), "en;q=0.5, zh;q=0.9", &catalog);
    assert_eq!(greeting.expect("a greeting"), "你好，x！");
    let greeting = i18n_demo(I18nParams::new(Some("x".to_string())), "fr, de", &catalog);
    assert_eq!(greeting.expect("a greeting"), "Hello, x!");
}

#[test]
fn name_length_is_counted_in_characters() {
    assert!(CreateUserReq { name: "".to_string() }.validate().is_err());
    assert!(CreateUserReq { name: "1".to_string() }.validate().is_ok());
    assert!(CreateUserReq { name: "1234567890".to_string() }.validate().is_ok());
    assert!(CreateUserReq { name: "12345678901".to_string() }.validate().is_err());
    assert!(CreateUserReq { name: "世界世界世界世界世界".to_string() }.validate().is_ok());
    assert!(CreateUserReq { name: "世界世界世界世界世界世".to_string() }.validate().is_err());
    assert!(UpdateUserReq { name: "2".to_string() }.validate().is_ok());
    assert!(UpdateUserReq { name: "".to_string() }.validate().is_err());
    assert!(SetRedisValueReq { value: "".to_string() }.validate().is_ok());
}

#[test]
fn name_failure_names_the_field_and_the_code() {
    let found = UpdateUserReq { name: "".to_string() }.validate().expect_err("a failure");
    assert_eq!(found.len(), 1);
    match &found[0] {
        Failure::Field { field, codes } => {
            assert_eq!(field, "name");
            assert_eq!(codes, &vec!["error.business.name_limit".to_string()]);
        }
        other => panic!("unexpected failure: {:?}", other),
    }
}

#[test]
fn validated_json_accepts_and_rejects() {
    let accepted = ValidatedJson::new(CreateUserReq { name: "1".to_string() }).expect("accepted");
    assert_eq!(accepted.0.name, "1");
    match ValidatedJson::new(CreateUserReq { name: "".to_string() }) {
        Err(ServerError::ValidationFailed(found)) => assert_eq!(found.len(), 1),
        other => panic!("unexpected answer: {:?}", other.map(|v| v.0)),
    }
}

#[test]
fn every_kind_has_its_status_and_code() {
    let mut args = Args::new();
    args.insert("id".to_string(), "7".to_string());
    let cases: Vec<(ServerError, u16, &str)> = vec![
        (ServerError::MalformedBody, 400, "error.bad_request"),
        (ServerError::ValidationFailed(vec![]), 400, "error.bad_request"),
        (
            ServerError::BusinessError { status: 409, code: "error.business.taken".to_string(), args: Some(args) },
            409,
            "error.business.taken",
        ),
        (ServerError::DependencyFailed, 500, "error.internal_error"),
        (ServerError::TimedOut, 500, "error.internal_error"),
        (ServerError::Overloaded, 500, "error.internal_error"),
        (ServerError::Internal, 500, "error.internal_error"),
    ];
    for (error, status, code) in cases {
        assert_eq!(error.status(), status);
        assert_eq!(error.code(), code);
        let node = error.to_error_node();
        assert_eq!(node.code, code);
        assert!(node.children.is_empty());
        assert_eq!(node.args.is_some(), status == 409);
        let (sent_status, body) = error.into_response();
        assert_eq!(sent_status, status);
        assert_eq!(node_from_bytes(&body).expect("a node").code, code);
    }
    assert_eq!(BAD_REQUEST, "error.bad_request");
    assert_eq!(INTERNAL_SERVER_ERROR, "error.internal_error");
    assert_eq!(INVALID_PARAMS, "error.invalid_params");
    assert_eq!(USER_NOT_FOUND, "error.business.user_not_found");
}

#[test]
fn validation_error_has_a_child_for_every_broken_rule() {
    let error = ServerError::ValidationFailed(vec![
        Failure::Field { field: "name".to_string(), codes: vec!["a".to_string(), "b".to_string()] },
        Failure::Field { field: "age".to_string(), codes: vec!["c".to_string()] },
    ]);
    let node = error.to_error_node();
    assert_eq!(node.code, "error.bad_request");
    let codes: Vec<&str> = node.children.iter().map(|c| c.code.as_str()).collect();
    assert_eq!(codes, vec!["a", "b", "c"]);
}

#[test]
fn users_are_found_or_missing() {
    let user = get_user(Some(UserRspDto { id: 7, name: "1".to_string() })).expect("a user");
    assert_eq!(user.id, 7);
    assert_eq!(user.name, "1");
    match get_user(None) {
        Err(ServerError::BusinessError { status, code, .. }) => {
            assert_eq!(status, 404);
            assert_eq!(code, "error.business.user_not_found");
        }
        other => panic!("unexpected answer: {:?}", other),
    }
    let renamed = update_user(
        Some(UserRspDto { id: 7, name: "1".to_string() }),
        UpdateUserReq { name: "2".to_string() },
    )
    .expect("a user");
    assert_eq!(renamed.id, 7);
    assert_eq!(renamed.name, "2");
    assert!(update_user(None, UpdateUserReq { name: "2".to_string() }).is_err());
}

#[test]
fn deleted_rows_are_reported() {
    assert_eq!(delete_user(None), DeleteUserRspDto { affected_rows: 0 });
    assert_eq!(delete_user(Some(1)), DeleteUserRspDto { affected_rows: 1 });
}

#[test]
fn pages_are_counted_from_zero_in_answers() {
    let params = PaginationParams { page_size: Some(10), page: 1 };
    let users = vec![UserRspDto { id: 1, name: "a".to_string() }];
    let page = get_user_list(&params, 21, 3, users);
    assert_eq!(page.page, 0);
    assert_eq!(page.page_size, 10);
    assert_eq!(page.total_num, 21);
    assert_eq!(page.total_page, 3);
    assert_eq!(page.items.len(), 1);
    let params = PaginationParams { page_size: None, page: 4 };
    assert_eq!(params.effective_page_size(), 10);
    assert_eq!(params.page_index(), Some(3));
    assert_eq!(PaginationParams { page_size: Some(5), page: 0 }.page_index(), None);
    assert_eq!(PaginationParams { page_size: Some(5), page: 0 }.effective_page_size(), 5);
}
