//! Error records carried in route status reports.

use vstd::prelude::*;

use crate::config::VORAppIdentifier;
use crate::config::VORAppStatus;

verus! {

/// A route-level failure: a numeric error code and a human-readable message.
pub struct VORAppError {
    pub id: i32,
    pub msg: String,
}

/// Builds the status record that reports error `err_id` with message `msg`
/// for the route (or engine, when `ai` is -1) identified by `ai`.
pub fn app_error(ai: i64, err_id: i32, msg: String) -> (r: VORAppIdentifier)
    ensures
        r == (VORAppIdentifier {
            index: ai,
            status: VORAppStatus::AppError(VORAppError { id: err_id, msg }),
        }),
{
    VORAppIdentifier {
        index: ai,
        status: VORAppStatus::AppError(VORAppError { id: err_id, msg }),
    }
}

} // verus!
