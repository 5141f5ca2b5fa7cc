//! Helpers for stating contracts over mathematical models.

use vstd::prelude::*;

verus! {

/// The model of a result whose error is a plain value: the model of the
/// success value, or the error itself.
pub open spec fn ok_view<T: DeepView, E>(result: Result<T, E>) -> Result<T::V, E> {
    match result {
        Ok(value) => Ok(value.deep_view()),
        Err(error) => Err(error),
    }
}

} // verus!
