//! How a failed store operation is answered over HTTP.
use vstd::prelude::*;
use crate::store::StoreError;
use crate::text::{push_str, string_from_chars};

verus! {

/// Unified error type for route handlers.
pub struct ApiError(pub StoreError);

/// The HTTP status that answers `e`.
pub open spec fn spec_status(e: StoreError) -> u16 {
    match e {
        StoreError::NotFound => 404,
        StoreError::Conflict(_) => 409,
        StoreError::Validation(_) => 422,
        StoreError::Io(_) => 500,
        StoreError::Json(_) => 500,
    }
}

/// The `detail` text of the answer to `e`: the error's message, except that
/// file and JSON errors are not disclosed.
pub open spec fn spec_detail(e: StoreError) -> Seq<char> {
    match e {
        StoreError::NotFound => "not found"@,
        StoreError::Conflict(m) => "conflict: "@ + m@,
        StoreError::Validation(m) => "validation: "@ + m@,
        StoreError::Io(_) => "internal server error"@,
        StoreError::Json(_) => "internal server error"@,
    }
}

impl ApiError {
    /// Wrap a store error.
    pub fn from(e: StoreError) -> (r: Self)
        ensures
            r.0 == e,
    {
        ApiError(e)
    }

    /// The HTTP status of the answer.
    pub fn status_code(&self) -> (r: u16)
        ensures
            r == spec_status(self.0),
    {
        match &self.0 {
            StoreError::NotFound => 404,
            StoreError::Conflict(_) => 409,
            StoreError::Validation(_) => 422,
            StoreError::Io(_) => 500,
            StoreError::Json(_) => 500,
        }
    }

    /// The `detail` text of the answer.
    pub fn detail(&self) -> (r: String)
        ensures
            r@ == spec_detail(self.0),
    {
        let mut out: Vec<char> = Vec::new();
        match &self.0 {
            StoreError::NotFound => push_str(&mut out, "not found"),
            StoreError::Conflict(m) => {
                push_str(&mut out, "conflict: ");
                push_str(&mut out, m.as_str());
            },
            StoreError::Validation(m) => {
                push_str(&mut out, "validation: ");
                push_str(&mut out, m.as_str());
            },
            StoreError::Io(_) => push_str(&mut out, "internal server error"),
            StoreError::Json(_) => push_str(&mut out, "internal server error"),
        }
        assert(out@ =~= spec_detail(self.0));
        string_from_chars(&out)
    }
}

} // verus!
