//! The kinds of failure a request can end in.
//!
//! Every kind has one HTTP status and one root code. Only a business error
//! brings its own code, and only a failed validation has children.

use crate::args::{Args, Pairs};
use crate::error_node::{ErrorNode, ErrorNodeView};
use crate::json::json_rendered;
use crate::validation::{
    failure_views, flatten, flattened, lemma_flat_length_all, violation_count_all, Failure,
    FailureView,
};
use crate::wire::{node_to_bytes, wire_form};
use vstd::prelude::*;

verus! {

/// The code of a fault that the client can do nothing about.
pub const INTERNAL_SERVER_ERROR: &'static str = "error.internal_error";

/// The code of a request that could not be accepted as it was sent.
pub const BAD_REQUEST: &'static str = "error.bad_request";

/// The code of a request that lacks a parameter or gives a bad one.
pub const INVALID_PARAMS: &'static str = "error.invalid_params";

/// The code of a request for a user that does not exist.
pub const USER_NOT_FOUND: &'static str = "error.business.user_not_found";

/// A failed request.
#[derive(Debug)]
pub enum ServerError {
    /// The request body could not be read as what the handler expects.
    MalformedBody,
    /// The request body was read and broke validation rules.
    ValidationFailed(Vec<Failure>),
    /// A rule of the application was broken; the handler names the status
    /// and the code.
    BusinessError { status: u16, code: String, args: Option<Args> },
    /// The database or the cache failed.
    DependencyFailed,
    /// The request took longer than it may.
    TimedOut,
    /// The service is overloaded and turned the request away.
    Overloaded,
    /// Any other fault.
    Internal,
}

/// A [`ServerError`] as a mathematical value.
pub enum ServerErrorView {
    MalformedBody,
    ValidationFailed(Seq<FailureView>),
    BusinessError { status: u16, code: Seq<char>, args: Option<Pairs> },
    DependencyFailed,
    TimedOut,
    Overloaded,
    Internal,
}

impl ServerErrorView {
    /// The HTTP status of the failure: 400 where the request was at fault,
    /// the handler's choice for a business error, 500 for every fault of
    /// the service.
    pub open spec fn status(self) -> u16 {
        match self {
            ServerErrorView::MalformedBody => 400,
            ServerErrorView::ValidationFailed(_) => 400,
            ServerErrorView::BusinessError { status, .. } => status,
            ServerErrorView::DependencyFailed => 500,
            ServerErrorView::TimedOut => 500,
            ServerErrorView::Overloaded => 500,
            ServerErrorView::Internal => 500,
        }
    }

    /// The root code of the failure.
    pub open spec fn code(self) -> Seq<char> {
        match self {
            ServerErrorView::MalformedBody => BAD_REQUEST@,
            ServerErrorView::ValidationFailed(_) => BAD_REQUEST@,
            ServerErrorView::BusinessError { code, .. } => code,
            ServerErrorView::DependencyFailed => INTERNAL_SERVER_ERROR@,
            ServerErrorView::TimedOut => INTERNAL_SERVER_ERROR@,
            ServerErrorView::Overloaded => INTERNAL_SERVER_ERROR@,
            ServerErrorView::Internal => INTERNAL_SERVER_ERROR@,
        }
    }

    /// The error tree of the failure: the root code, the arguments of a
    /// business error, and for a failed validation one leaf for every
    /// broken rule.
    pub open spec fn node(self) -> ErrorNodeView {
        ErrorNodeView {
            code: self.code(),
            args: match self {
                ServerErrorView::BusinessError { args, .. } => args,
                _ => None,
            },
            children: match self {
                ServerErrorView::ValidationFailed(failures) => flattened(failures),
                _ => Seq::empty(),
            },
        }
    }
}

impl View for ServerError {
    type V = ServerErrorView;

    open spec fn view(&self) -> ServerErrorView {
        match self {
            ServerError::MalformedBody => ServerErrorView::MalformedBody,
            ServerError::ValidationFailed(failures) => ServerErrorView::ValidationFailed(
                failure_views(failures@),
            ),
            ServerError::BusinessError { status, code, args } => ServerErrorView::BusinessError {
                status: *status,
                code: code@,
                args: match args {
                    Some(args) => Some(args.pairs()),
                    None => None,
                },
            },
            ServerError::DependencyFailed => ServerErrorView::DependencyFailed,
            ServerError::TimedOut => ServerErrorView::TimedOut,
            ServerError::Overloaded => ServerErrorView::Overloaded,
            ServerError::Internal => ServerErrorView::Internal,
        }
    }
}

impl ServerError {
    /// A business error without arguments.
    pub fn business(status: u16, code: &str) -> (error: ServerError)
        ensures
            error@ == (ServerErrorView::BusinessError { status, code: code@, args: None }),
    {
        ServerError::BusinessError { status, code: code.to_owned(), args: None }
    }

    /// The HTTP status of the failure.
    pub fn status(&self) -> (status: u16)
        ensures
            status == self@.status(),
    {
        match self {
            ServerError::MalformedBody => 400,
            ServerError::ValidationFailed(_) => 400,
            ServerError::BusinessError { status, .. } => *status,
            ServerError::DependencyFailed => 500,
            ServerError::TimedOut => 500,
            ServerError::Overloaded => 500,
            ServerError::Internal => 500,
        }
    }

    /// The root code of the failure.
    pub fn code(&self) -> (code: String)
        ensures
            code@ == self@.code(),
    {
        match self {
            ServerError::MalformedBody => BAD_REQUEST.to_owned(),
            ServerError::ValidationFailed(_) => BAD_REQUEST.to_owned(),
            ServerError::BusinessError { code, .. } => code.clone(),
            ServerError::DependencyFailed => INTERNAL_SERVER_ERROR.to_owned(),
            ServerError::TimedOut => INTERNAL_SERVER_ERROR.to_owned(),
            ServerError::Overloaded => INTERNAL_SERVER_ERROR.to_owned(),
            ServerError::Internal => INTERNAL_SERVER_ERROR.to_owned(),
        }
    }

    /// The error tree of the failure.
    pub fn to_error_node(&self) -> (node: ErrorNode)
        ensures
            node@ == self@.node(),
    {
        let code = self.code();
        let args = match self {
            ServerError::BusinessError { args: Some(args), .. } => Some(args.clone()),
            _ => None,
        };
        let children = match self {
            ServerError::ValidationFailed(failures) => flatten(failures),
            _ => Vec::new(),
        };
        let node = ErrorNode { code, args, children };
        assert(node@.children =~= self@.node().children);
        node
    }

    /// The status and the body that a handler answers the failure with,
    /// before translation.
    pub fn into_response(self) -> (response: (u16, Vec<u8>))
        ensures
            response.0 == self@.status(),
            response.1@ == json_rendered(wire_form(self@.node())),
    {
        let node = self.to_error_node();
        let body = node_to_bytes(&node);
        (self.status(), body)
    }
}

/// A failure of the request's own making has a status from 400 to 499, and a
/// fault of the service one from 500 to 599.
pub proof fn lemma_status_families(error: ServerErrorView)
    ensures
        error is MalformedBody || error is ValidationFailed ==> 400 <= error.status() < 500,
        error is DependencyFailed || error is TimedOut || error is Overloaded || error is Internal
            ==> 500 <= error.status() < 600,
{
}

/// Only a failed validation has children, and it has one for every broken
/// rule.
pub proof fn lemma_only_validation_has_children(error: ServerErrorView)
    ensures
        !(error is ValidationFailed) ==> error.node().children.len() == 0,
        error matches ServerErrorView::ValidationFailed(failures) ==> error.node().children.len()
            == violation_count_all(failures),
{
    match error {
        ServerErrorView::ValidationFailed(failures) => {
            lemma_flat_length_all(failures);
        },
        _ => {},
    }
}

} // verus!
