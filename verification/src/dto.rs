//! What the demo handlers take and give.

use crate::validation::{
    failure_views, field_failure, length_within, single_failure, Failure, FailureView, Validate,
};
use vstd::prelude::*;

verus! {

/// The code of a user name that is too short or too long.
pub const NAME_LIMIT: &'static str = "error.business.name_limit";

/// The number of users on a page where the request names none.
pub const DEFAULT_PAGE_SIZE: u64 = 10;

/// What a user name breaks: nothing where it has from 1 to 10 characters,
/// else the length rule of the field `name`.
pub open spec fn name_failures(name: Seq<char>) -> Seq<FailureView> {
    if 1 <= name.len() && name.len() <= 10 {
        Seq::empty()
    } else {
        seq![field_failure("name"@, NAME_LIMIT@)]
    }
}

/// Checks a user name against the length rule.
fn validate_name(name: &String) -> (result: Result<(), Vec<Failure>>)
    ensures
        result is Ok <==> name_failures(name@).len() == 0,
        result matches Err(found) ==> failure_views(found@) == name_failures(name@),
{
    if length_within(name, 1, 10) {
        Ok(())
    } else {
        let mut found: Vec<Failure> = Vec::new();
        found.push(single_failure("name", NAME_LIMIT));
        assert(failure_views(found@) =~= name_failures(name@));
        Err(found)
    }
}

/// A request to create a user.
#[derive(Debug)]
pub struct CreateUserReq {
    /// The user's name, of 1 to 10 characters.
    pub name: String,
}

impl Validate for CreateUserReq {
    open spec fn failures(&self) -> Seq<FailureView> {
        name_failures(self.name@)
    }

    fn validate(&self) -> (result: Result<(), Vec<Failure>>) {
        validate_name(&self.name)
    }
}

/// A user, as the handlers answer with it.
#[derive(Debug)]
pub struct UserRspDto {
    /// The user's identifier, a UUID as a number.
    pub id: u128,
    pub name: String,
}

/// A request to rename a user.
#[derive(Debug)]
pub struct UpdateUserReq {
    /// The user's new name, of 1 to 10 characters.
    pub name: String,
}

impl Validate for UpdateUserReq {
    open spec fn failures(&self) -> Seq<FailureView> {
        name_failures(self.name@)
    }

    fn validate(&self) -> (result: Result<(), Vec<Failure>>) {
        validate_name(&self.name)
    }
}

/// The answer to a request to delete a user.
#[derive(Clone, Copy, Debug, PartialEq, Eq, Structural)]
pub struct DeleteUserRspDto {
    pub affected_rows: usize,
}

/// Which page of a list a request asks for.
#[derive(Clone, Copy, Debug)]
pub struct PaginationParams {
    /// The number of items on a page, if the request names one.
    pub page_size: Option<u64>,
    /// The number of the page, counted from 1.
    pub page: u64,
}

impl PaginationParams {
    /// The number of items on a page: the request's, or the default.
    pub open spec fn spec_page_size(self) -> u64 {
        match self.page_size {
            Some(size) => size,
            None => DEFAULT_PAGE_SIZE,
        }
    }

    /// The number of items on a page: the request's, or the default.
    pub fn effective_page_size(&self) -> (size: u64)
        ensures
            size == self.spec_page_size(),
    {
        match self.page_size {
            Some(size) => size,
            None => DEFAULT_PAGE_SIZE,
        }
    }

    /// The position of the page counted from 0, as the store counts, or
    /// nothing for the page number 0, which names no page.
    pub fn page_index(&self) -> (index: Option<u64>)
        ensures
            self.page >= 1 ==> index == Some((self.page - 1) as u64),
            self.page == 0 ==> index is None,
    {
        if self.page >= 1 {
            Some(self.page - 1)
        } else {
            None
        }
    }
}

/// One page of a list, with the size of the whole list.
#[derive(Debug)]
pub struct Paginated<T> {
    /// The position of the page, counted from 0.
    pub page: u64,
    pub page_size: u64,
    pub total_num: u64,
    pub total_page: u64,
    pub items: Vec<T>,
}

/// A request to store a value in the cache.
#[derive(Debug)]
pub struct SetRedisValueReq {
    pub value: String,
}

impl Validate for SetRedisValueReq {
    /// No rule is declared for a cache value.
    open spec fn failures(&self) -> Seq<FailureView> {
        Seq::empty()
    }

    fn validate(&self) -> (result: Result<(), Vec<Failure>>) {
        Ok(())
    }
}

} // verus!
