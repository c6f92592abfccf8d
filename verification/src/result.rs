//! The result type used across the embedding boundary.
//!
//! The runtime reports success or failure through a bare result code with no
//! error payload; this type is the host-side image of that convention, and
//! the functions here are the one place where the code is translated to and
//! from its raw integer encodings.

use vstd::prelude::*;

use crate::zend::ZendResultCode;

verus! {

/// Outcome of one call across the embedding boundary: either a value, or a
/// bare failure with no further detail (the runtime reports none).
#[derive(Copy, Clone)]
pub enum PhpResult<T> {
    Success(T),
    Failure,
}

impl<T> PhpResult<T> {
    /// True when the call produced a value.
    pub open spec fn is_success(self) -> bool {
        self matches PhpResult::Success(_)
    }

    /// The value produced by a successful call.
    pub open spec fn value(self) -> T
        recommends
            self.is_success(),
    {
        self->Success_0
    }

    /// Takes the value out of a successful result.  A failed result has no
    /// value to hand out, so callers must rule that case out first.
    pub fn unwrap(self) -> (v: T)
        requires
            self.is_success(),
        ensures
            v == self.value(),
    {
        match self {
            PhpResult::Success(v) => v,
            PhpResult::Failure => unreached(),
        }
    }

    /// The raw integer encoding the runtime expects from a hook: zero for
    /// success, one for failure.
    pub fn to_raw_int(&self) -> (code: i32)
        ensures
            code == 0 <==> self.is_success(),
            code == 0 || code == 1,
    {
        match self {
            PhpResult::Success(_) => 0,
            PhpResult::Failure => 1,
        }
    }

    /// The same encoding as an unsigned code, for hooks declared that way.
    pub fn to_raw_uint(&self) -> (code: u32)
        ensures
            code == 0 <==> self.is_success(),
            code == 0 || code == 1,
    {
        match self {
            PhpResult::Success(_) => 0,
            PhpResult::Failure => 1,
        }
    }

    /// The runtime's own result code for this outcome.
    pub fn to_result_code(&self) -> (code: ZendResultCode)
        ensures
            code is Success <==> self.is_success(),
    {
        match self {
            PhpResult::Success(_) => ZendResultCode::Success,
            PhpResult::Failure => ZendResultCode::Failure,
        }
    }
}

impl PhpResult<()> {
    /// Reads the runtime's result code: `Success` is the only code that
    /// stands for a completed call.
    pub fn from_result_code(code: ZendResultCode) -> (r: PhpResult<()>)
        ensures
            r.is_success() <==> code is Success,
    {
        match code {
            ZendResultCode::Success => PhpResult::Success(()),
            ZendResultCode::Failure => PhpResult::Failure,
        }
    }

    /// Reads the raw integer convention used by the runtime's C entry
    /// points: zero reports success, every other value reports failure.
    pub fn from_raw_int(code: i32) -> (r: PhpResult<()>)
        ensures
            r.is_success() <==> code == 0,
    {
        if code == 0 {
            PhpResult::Success(())
        } else {
            PhpResult::Failure
        }
    }
}

} // verus!
