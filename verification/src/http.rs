//! What the status of an HTTP response means.

use vstd::prelude::*;

verus! {

/// Whether an HTTP status reports success: it lies from 200 to 299.
pub open spec fn is_success(status: u16) -> bool {
    200 <= status <= 299
}

/// Decides whether an HTTP status reports success.
pub fn status_is_success(status: u16) -> (success: bool)
    ensures
        success == is_success(status),
{
    200 <= status && status <= 299
}

} // verus!
