//! The body of a refused HTTP request.

use vstd::prelude::*;

verus! {

/// Why a request was refused, as the body of the response.
#[derive(Clone, Copy, Debug)]
pub struct ApiError {
    pub error: &'static str,
}

} // verus!
