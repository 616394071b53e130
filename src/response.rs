//! The success shape of the response envelope.

use vstd::prelude::*;

verus! {

/// A success envelope: `success` is true and `data` is the payload.
#[derive(Clone, Debug)]
pub struct ApiResponse<T> {
    pub success: bool,
    pub data: T,
}

impl<T> ApiResponse<T> {
    /// Wraps a payload.
    pub fn new(data: T) -> (r: ApiResponse<T>)
        ensures
            r.success,
            r.data == data,
    {
        ApiResponse { success: true, data }
    }
}

} // verus!
