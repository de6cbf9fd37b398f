//! Unwrapping results whose other side the caller has ruled out.
//!
//! Firmware sometimes holds a `Result` whose error (or success) case cannot
//! occur at a given call site. These helpers take that impossible case off
//! the code path; the caller's obligation to rule it out is a precondition
//! here, not a runtime check.

use vstd::prelude::*;

verus! {

/// Unwraps a `Result` whose other side is unreachable at the call site.
pub trait ResultExt<T, E>: Sized {
    /// The value is a success.
    spec fn ok_spec(&self) -> bool;

    /// The carried success value.
    spec fn ok_value(&self) -> T;

    /// The carried error value.
    spec fn err_value(&self) -> E;

    /// The success value of a result whose error case cannot occur.
    fn unreach_err(self) -> (r: T)
        requires
            self.ok_spec(),
        ensures
            r == self.ok_value(),
    ;

    /// The error value of a result whose success case cannot occur.
    fn unreach_ok(self) -> (r: E)
        requires
            !self.ok_spec(),
        ensures
            r == self.err_value(),
    ;
}

impl<T, E> ResultExt<T, E> for Result<T, E> {
    open spec fn ok_spec(&self) -> bool {
        self is Ok
    }

    open spec fn ok_value(&self) -> T {
        self->Ok_0
    }

    open spec fn err_value(&self) -> E {
        self->Err_0
    }

    fn unreach_err(self) -> (r: T) {
        match self {
            Ok(res) => res,
            Err(_) => vstd::pervasive::unreached(),
        }
    }

    fn unreach_ok(self) -> (r: E) {
        match self {
            Err(res) => res,
            Ok(_) => vstd::pervasive::unreached(),
        }
    }
}

} // verus!
