//! What a backing store outside this process reports for one statement, and
//! the failure that each report stands for.

use crate::error::Error;
use vstd::prelude::*;

verus! {

/// The number of connections that a pool to a backing store is made with.
/// A caller that needs a connection while all are in use waits for one.
pub const POOL_SIZE: u32 = 5;

/// What a backing store reported for one statement.
#[derive(Debug)]
pub enum Outcome<T> {
    /// The statement ran and gave a value.
    Done(T),
    /// The statement ran, and no question matched its id.
    NoMatch,
    /// The backing store could not run the statement.
    Failed,
}

impl<T> Outcome<T> {
    /// The result that the report stands for. What the backing store could
    /// not do is one failure, whatever the reason.
    pub open spec fn result_spec(self) -> Result<T, Error> {
        match self {
            Outcome::Done(value) => Ok(value),
            Outcome::NoMatch => Err(Error::QuestionNotFound),
            Outcome::Failed => Err(Error::DatabaseQueryError),
        }
    }

    /// The result that the report stands for.
    pub fn into_result(self) -> (r: Result<T, Error>)
        ensures
            r == self.result_spec(),
    {
        match self {
            Outcome::Done(value) => Ok(value),
            Outcome::NoMatch => Err(Error::QuestionNotFound),
            Outcome::Failed => Err(Error::DatabaseQueryError),
        }
    }
}

} // verus!
