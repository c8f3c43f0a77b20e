use vstd::prelude::*;

use crate::error::{AppError, Failure};

verus! {

/// The answer to a request body that was checked: 400 with the checker's message when it
/// failed.
pub fn validate_request(outcome: Result<(), String>) -> (r: Result<(), AppError>)
    ensures
        match outcome {
            Ok(()) => r is Ok,
            Err(m) => r matches Err(e) && e@ == Failure::BadRequest(m@),
        },
{
    match outcome {
        Ok(()) => Ok(()),
        Err(m) => Err(AppError::BadRequest(m)),
    }
}

} // verus!
