use crate::error::Error;
use vstd::prelude::*;

verus! {

/// What `get_or_error` gives: the value where there is one, else the error.
pub open spec fn or_error<T>(value: Option<T>, e: Error) -> Result<T, Error> {
    match value {
        Some(value) => Ok(value),
        None => Err(e),
    }
}

pub trait GetOrError<T> {
    fn get_or_error(self, e: Error) -> Result<T, Error>;
}

impl<T> GetOrError<T> for Option<T> {
    fn get_or_error(self, e: Error) -> (r: Result<T, Error>)
        ensures
            r == or_error(self, e),
    {
        match self {
            Some(value) => Ok(value),
            None => Err(e),
        }
    }
}

} // verus!
