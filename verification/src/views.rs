//! The views of what the operations return.

use crate::error::Error;
use vstd::prelude::*;

verus! {

/// An operation's result, with the view taken of what it returned.
pub open spec fn outcome<T: View>(result: Result<T, Error>) -> Result<T::V, Error> {
    match result {
        Ok(value) => Ok(value@),
        Err(e) => Err(e),
    }
}

/// What may be absent, with the view taken of what is there.
pub open spec fn optional<T: View>(value: Option<T>) -> Option<T::V> {
    match value {
        Some(value) => Some(value@),
        None => None,
    }
}

} // verus!
