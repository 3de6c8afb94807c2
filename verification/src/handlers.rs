//! What the demo handlers decide.
//!
//! A handler reads a request, asks the store, and answers. The reading and
//! the asking are left to the caller; the functions here take what was read
//! and found, and give the answer.

use crate::args::{pairs_insert, Args, Pairs};
use crate::catalog::{Catalog, CatalogView};
use crate::dto::{DeleteUserRspDto, Paginated, PaginationParams, UpdateUserReq, UserRspDto};
use crate::error::{ServerError, ServerErrorView, INVALID_PARAMS, USER_NOT_FOUND};
use crate::locale::{parse_accept_language, requested_locales};
use crate::translate::{message_for, render_message, ConfigView, TranslationConfig};
use vstd::prelude::*;

verus! {

/// The code of the greeting.
pub const HELLO: &'static str = "demo.hello";

/// The parameters of the greeting.
#[derive(Debug)]
pub struct I18nParams {
    name: Option<String>,
}

impl I18nParams {
    /// The name to greet, if the request gives one.
    pub closed spec fn name(self) -> Option<Seq<char>> {
        match self.name {
            Some(name) => Some(name@),
            None => None,
        }
    }

    /// The parameters of a request.
    pub fn new(name: Option<String>) -> (params: I18nParams)
        ensures
            params.name() == match name {
                Some(name) => Some(name@),
                None => None,
            },
    {
        I18nParams { name }
    }
}

/// The arguments of the greeting of `name`.
pub open spec fn hello_args(name: Seq<char>) -> Pairs {
    pairs_insert(Seq::empty(), "name"@, name)
}

/// What the greeting is rendered by: the locales of the language header,
/// the catalog's default locale, and the name.
pub open spec fn hello_config(name: Seq<char>, header: Seq<char>, catalog: CatalogView)
    -> ConfigView {
    ConfigView {
        requested_locales: requested_locales(header),
        fallback_locale: catalog.default_locale,
        args: Some(hello_args(name)),
    }
}

/// Greets the caller by name in the caller's language. A request without a
/// name is answered with status 400 and the code for bad parameters.
pub fn i18n_demo(params: I18nParams, accept_language: &str, catalog: &Catalog) -> (result: Result<
    String,
    ServerError,
>)
    ensures
        params.name() is None ==> result is Err && result->Err_0@
            == (ServerErrorView::BusinessError { status: 400, code: INVALID_PARAMS@, args: None }),
        params.name() matches Some(name) ==> result is Ok && result->Ok_0@ == message_for(
            catalog@,
            hello_config(name, accept_language@, catalog@),
            HELLO@,
            None,
        ),
{
    match params.name {
        None => Err(ServerError::business(400, INVALID_PARAMS)),
        Some(name) => {
            let mut args = Args::new();
            args.insert("name".to_owned(), name);
            let config = TranslationConfig {
                requested_locales: parse_accept_language(accept_language),
                fallback_locale: catalog.default_locale().clone(),
                args: Some(args),
            };
            Ok(render_message(catalog, &config, HELLO, None))
        },
    }
}

/// Answers a request for one user: the user that was found, or status 404
/// and the code for a missing user.
pub fn get_user(found: Option<UserRspDto>) -> (result: Result<UserRspDto, ServerError>)
    ensures
        found matches Some(user) ==> result == Ok::<UserRspDto, ServerError>(user),
        found is None ==> result is Err && result->Err_0@ == (ServerErrorView::BusinessError {
            status: 404,
            code: USER_NOT_FOUND@,
            args: None,
        }),
{
    match found {
        Some(user) => Ok(user),
        None => Err(ServerError::business(404, USER_NOT_FOUND)),
    }
}

/// Answers a request to rename a user: the user that was found under its
/// new name, or status 404 and the code for a missing user.
pub fn update_user(found: Option<UserRspDto>, update: UpdateUserReq) -> (result: Result<
    UserRspDto,
    ServerError,
>)
    ensures
        found matches Some(user) ==> result == Ok::<UserRspDto, ServerError>(
            UserRspDto { id: user.id, name: update.name },
        ),
        found is None ==> result is Err && result->Err_0@ == (ServerErrorView::BusinessError {
            status: 404,
            code: USER_NOT_FOUND@,
            args: None,
        }),
{
    match found {
        Some(user) => Ok(UserRspDto { id: user.id, name: update.name }),
        None => Err(ServerError::business(404, USER_NOT_FOUND)),
    }
}

/// Answers a request to delete a user with the number of rows that the
/// store removed: none where there was no such user.
pub fn delete_user(removed: Option<u64>) -> (answer: DeleteUserRspDto)
    ensures
        removed is None ==> answer.affected_rows == 0,
        removed matches Some(rows) ==> answer.affected_rows == rows as usize,
{
    match removed {
        Some(rows) => DeleteUserRspDto { affected_rows: #[verifier::truncate] (rows as usize) },
        None => DeleteUserRspDto { affected_rows: 0 },
    }
}

/// Answers a request for a page of users with the users on that page and
/// the size of the whole list. Pages are asked for by a number from 1 on
/// and answered by their position counted from 0.
pub fn get_user_list(
    params: &PaginationParams,
    total_num: u64,
    total_page: u64,
    items: Vec<UserRspDto>,
) -> (page: Paginated<UserRspDto>)
    requires
        params.page >= 1,
    ensures
        page.page == params.page - 1,
        page.page_size == params.spec_page_size(),
        page.total_num == total_num,
        page.total_page == total_page,
        page.items == items,
{
    Paginated {
        page: params.page - 1,
        page_size: params.effective_page_size(),
        total_num,
        total_page,
        items,
    }
}

} // verus!
