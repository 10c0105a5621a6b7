use vstd::prelude::*;
use crate::record::{ApiError, Row};

verus! {

/// What the store answered to one statement.
#[derive(Debug)]
pub enum Outcome {
    /// A write went through and touched this many rows.
    Written(u64),
    /// A query went through and returned these rows.
    Rows(Vec<Row>),
    /// The store could not run the statement (connection lost, constraint
    /// broken, malformed statement).
    Failed,
}

/// The response to a create: the stored record when the insert wrote exactly
/// one row, a storage error otherwise.
pub fn finish_create(row: Row, outcome: Outcome) -> (r: Result<Row, ApiError>)
    ensures
        outcome == Outcome::Written(1) ==> r == Ok::<Row, ApiError>(row),
        outcome != Outcome::Written(1) ==> r == Err::<Row, ApiError>(ApiError::Storage),
{
    match outcome {
        Outcome::Written(n) => {
            if n == 1 {
                Ok(row)
            } else {
                Err(ApiError::Storage)
            }
        },
        _ => Err(ApiError::Storage),
    }
}

/// The response to a lookup by id: the first row that the query returned, or
/// `NotFound` when it returned none. A failed or mismatched answer is a
/// storage error, never a crash.
pub fn finish_read_one(outcome: Outcome) -> (r: Result<Row, ApiError>)
    ensures
        match outcome {
            Outcome::Rows(v) => if v@.len() == 0 {
                r == Err::<Row, ApiError>(ApiError::NotFound)
            } else {
                r is Ok && r->Ok_0 == v@[0]
            },
            _ => r == Err::<Row, ApiError>(ApiError::Storage),
        },
{
    match outcome {
        Outcome::Rows(mut v) => {
            if v.len() == 0 {
                Err(ApiError::NotFound)
            } else {
                Ok(v.swap_remove(0))
            }
        },
        _ => Err(ApiError::Storage),
    }
}

/// The response to a listing: every row that the query returned, in the
/// order it returned them.
pub fn finish_read_all(outcome: Outcome) -> (r: Result<Vec<Row>, ApiError>)
    ensures
        match outcome {
            Outcome::Rows(v) => r == Ok::<Vec<Row>, ApiError>(v),
            _ => r == Err::<Vec<Row>, ApiError>(ApiError::Storage),
        },
{
    match outcome {
        Outcome::Rows(v) => Ok(v),
        _ => Err(ApiError::Storage),
    }
}

/// The response to an update: success when the statement touched a row,
/// `NotFound` when it touched none, a storage error otherwise.
pub fn finish_update(outcome: Outcome) -> (r: Result<(), ApiError>)
    ensures
        match outcome {
            Outcome::Written(n) => if n == 0 {
                r == Err::<(), ApiError>(ApiError::NotFound)
            } else {
                r == Ok::<(), ApiError>(())
            },
            _ => r == Err::<(), ApiError>(ApiError::Storage),
        },
{
    match outcome {
        Outcome::Written(n) => {
            if n == 0 {
                Err(ApiError::NotFound)
            } else {
                Ok(())
            }
        },
        _ => Err(ApiError::Storage),
    }
}

} // verus!
