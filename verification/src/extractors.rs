//! Values that have passed validation.

use crate::error::{ServerError, ServerErrorView};
use crate::validation::Validate;
use vstd::prelude::*;

verus! {

/// A request body that was read as a `T` and met the rules of `T`.
#[derive(Debug, Clone, Copy, Default)]
pub struct ValidatedJson<T>(pub T);

impl<T: Validate> ValidatedJson<T> {
    /// Accepts a value that breaks no rule, and turns away any other with
    /// the failed validation that lists what it breaks.
    pub fn new(value: T) -> (result: Result<ValidatedJson<T>, ServerError>)
        ensures
            value.failures().len() == 0 ==> result == Ok::<ValidatedJson<T>, ServerError>(
                ValidatedJson(value),
            ),
            value.failures().len() > 0 ==> result is Err && result->Err_0@
                == ServerErrorView::ValidationFailed(value.failures()),
    {
        match value.validate() {
            Ok(()) => Ok(ValidatedJson(value)),
            Err(found) => Err(ServerError::ValidationFailed(found)),
        }
    }
}

} // verus!
