//! What to do with a response, decided from its status code alone.

use vstd::prelude::*;

verus! {

/// Whether an HTTP status code reports success: the codes 200 to 299.
pub open spec fn is_success(status: u16) -> bool {
    200 <= status && status < 300
}

/// The two ways a response leaves the translation layer.
#[derive(Clone, Copy, Debug, PartialEq, Eq, Structural)]
pub enum ResponseAction {
    /// Hand the response on as it is; its body is not to be touched.
    PassThrough,
    /// Collect the body and replace it by the translated error document.
    Translate,
}

/// Decides, before the body is looked at, whether a response is handed on
/// untouched or has its body rewritten.
pub fn response_action(status: u16) -> (action: ResponseAction)
    ensures
        is_success(status) ==> action == ResponseAction::PassThrough,
        !is_success(status) ==> action == ResponseAction::Translate,
{
    if 200 <= status && status < 300 {
        ResponseAction::PassThrough
    } else {
        ResponseAction::Translate
    }
}

} // verus!
