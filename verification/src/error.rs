//! Classification of the native return codes.
//!
//! The native middleware reports outcomes as small signed integers: a fixed,
//! closed set of codes means failure, and every other value (the generic
//! success code as well as positive entity handles) means success.

use vstd::prelude::*;

verus! {

/// The generic success code of the native middleware.
pub const RETCODE_OK: i32 = 0;

/// Generic, unspecified failure.
pub const RETCODE_ERROR: i32 = -1;

/// The requested operation is not supported.
pub const RETCODE_UNSUPPORTED: i32 = -2;

/// An argument to the native call was invalid.
pub const RETCODE_BAD_PARAMETER: i32 = -3;

/// A precondition of the native call did not hold.
pub const RETCODE_PRECONDITION_NOT_MET: i32 = -4;

/// The middleware ran out of resources.
pub const RETCODE_OUT_OF_RESOURCES: i32 = -5;

/// The entity has not been enabled.
pub const RETCODE_NOT_ENABLED: i32 = -6;

/// An attempt to change a policy that is immutable after creation.
pub const RETCODE_IMMUTABLE_POLICY: i32 = -7;

/// The requested policy combination is inconsistent.
pub const RETCODE_INCONSISTENT_POLICY: i32 = -8;

/// The entity has already been deleted.
pub const RETCODE_ALREADY_DELETED: i32 = -9;

/// The operation timed out.
pub const RETCODE_TIMEOUT: i32 = -10;

/// No data was available.
pub const RETCODE_NO_DATA: i32 = -11;

/// The operation is illegal in the entity's current state.
pub const RETCODE_ILLEGAL_OPERATION: i32 = -12;

/// The operation was denied by the security subsystem.
pub const RETCODE_NOT_ALLOWED_BY_SECURITY: i32 = -13;

/// A failure reported by the native middleware, carrying the return code
/// that caused it. Built only by [`retcode_to_result`]; compared and hashed
/// by that code.
#[derive(Debug, Clone, Copy, PartialEq, Eq, Structural, Hash)]
pub struct Error {
    code: i32,
}

impl Error {
    /// The native return code this failure carries.
    pub closed spec fn spec_code(&self) -> i32 {
        self.code
    }

    /// Returns the native return code this failure carries.
    pub fn code(&self) -> (c: i32)
        ensures
            c == self.spec_code(),
    {
        self.code
    }
}

/// True exactly on the closed set of native return codes that mean failure.
pub open spec fn is_failure_code(code: i32) -> bool {
    ||| code == RETCODE_ERROR
    ||| code == RETCODE_UNSUPPORTED
    ||| code == RETCODE_BAD_PARAMETER
    ||| code == RETCODE_PRECONDITION_NOT_MET
    ||| code == RETCODE_OUT_OF_RESOURCES
    ||| code == RETCODE_NOT_ENABLED
    ||| code == RETCODE_IMMUTABLE_POLICY
    ||| code == RETCODE_INCONSISTENT_POLICY
    ||| code == RETCODE_ALREADY_DELETED
    ||| code == RETCODE_TIMEOUT
    ||| code == RETCODE_NO_DATA
    ||| code == RETCODE_ILLEGAL_OPERATION
    ||| code == RETCODE_NOT_ALLOWED_BY_SECURITY
}

/// Classifies a native return code: a member of the closed failure set
/// becomes a typed [`Error`] carrying the code, and any other value —
/// including all entity handles and the generic success code — is returned
/// unchanged as success.
pub fn retcode_to_result(code: i32) -> (r: Result<i32, Error>)
    ensures
        r is Err <==> is_failure_code(code),
        match r {
            Ok(c) => c == code,
            Err(e) => e.spec_code() == code,
        },
{
    if RETCODE_NOT_ALLOWED_BY_SECURITY <= code && code <= RETCODE_ERROR {
        Err(Error { code })
    } else {
        Ok(code)
    }
}

} // verus!
