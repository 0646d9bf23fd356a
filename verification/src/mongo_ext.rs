use vstd::prelude::*;

use crate::errors::{AppError, AppResult, ErrorKind};

verus! {

/// The outcome of a query that must match at most one document, given the
/// first document read (if any) and whether the cursor held another one.
pub fn single_or_none_result<T>(first: Option<T>, more: bool) -> (res: AppResult<Option<T>>)
    ensures
        match first {
            None => res == Ok::<Option<T>, AppError>(None),
            Some(item) => if more {
                res matches Err(e) && e@ == (ErrorKind::Database, "More than 1 result found for query."@)
            } else {
                res == Ok::<Option<T>, AppError>(Some(item))
            },
        },
{
    match first {
        None => Ok(None),
        Some(item) => {
            if more {
                Err(AppError::DatabaseError(String::from_str("More than 1 result found for query.")))
            } else {
                Ok(Some(item))
            }
        },
    }
}

/// The outcome of a query that must match exactly one document, given the
/// outcome of reading at most one.
pub fn single_result<T>(found: AppResult<Option<T>>) -> (res: AppResult<T>)
    ensures
        match found {
            Ok(Some(item)) => res == Ok::<T, AppError>(item),
            Ok(None) => res matches Err(e) && e@ == (ErrorKind::Database, "No result found for query."@),
            Err(e) => res matches Err(e2) && e2 == e,
        },
{
    match found {
        Ok(Some(item)) => Ok(item),
        Ok(None) => Err(AppError::DatabaseError(String::from_str("No result found for query."))),
        Err(e) => Err(e),
    }
}

} // verus!
