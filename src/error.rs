use vstd::prelude::*;

use crate::status::{NtStatus, STATUS_NOT_FOUND, STATUS_SUCCESS};

verus! {

/// What a framework call through the function table can report.
#[derive(Clone, Copy, Debug, PartialEq, Eq)]
pub enum WdfError {
    /// The entry point is absent from the loaded framework version; holds its name.
    WdfFunctionNotAvailable(&'static str),
    /// The framework function ran and reported a failing status.
    CallFailed(NtStatus),
    /// Not an error: stands for the result of an entry point that returns nothing.
    Success,
}

/// The status that an error turns back into for the framework.
pub open spec fn status_of(e: WdfError) -> NtStatus {
    match e {
        WdfError::WdfFunctionNotAvailable(_) => NtStatus(STATUS_NOT_FOUND),
        WdfError::CallFailed(s) => s,
        WdfError::Success => NtStatus(STATUS_SUCCESS),
    }
}

impl From<()> for WdfError {
    fn from(u: ()) -> (r: WdfError)
        ensures
            r == WdfError::Success,
    {
        WdfError::Success
    }
}

impl vstd::std_specs::convert::FromSpecImpl<()> for WdfError {
    open spec fn obeys_from_spec() -> bool {
        true
    }

    open spec fn from_spec(u: ()) -> WdfError {
        WdfError::Success
    }
}

impl From<NtStatus> for WdfError {
    fn from(value: NtStatus) -> (r: WdfError)
        ensures
            r == WdfError::CallFailed(value),
    {
        WdfError::CallFailed(value)
    }
}

impl vstd::std_specs::convert::FromSpecImpl<NtStatus> for WdfError {
    open spec fn obeys_from_spec() -> bool {
        true
    }

    open spec fn from_spec(value: NtStatus) -> WdfError {
        WdfError::CallFailed(value)
    }
}

impl From<WdfError> for NtStatus {
    fn from(value: WdfError) -> (r: NtStatus)
        ensures
            r == status_of(value),
    {
        match value {
            WdfError::WdfFunctionNotAvailable(_) => NtStatus(STATUS_NOT_FOUND),
            WdfError::CallFailed(status) => status,
            WdfError::Success => NtStatus(STATUS_SUCCESS),
        }
    }
}

impl vstd::std_specs::convert::FromSpecImpl<WdfError> for NtStatus {
    open spec fn obeys_from_spec() -> bool {
        true
    }

    open spec fn from_spec(value: WdfError) -> NtStatus {
        status_of(value)
    }
}

/// The outcome of a status-returning call, with a failing status turned into an error.
pub open spec fn checked_spec(r: Result<NtStatus, WdfError>) -> Result<NtStatus, WdfError> {
    match r {
        Ok(s) => if s.is_success() {
            Ok(s)
        } else {
            Err(WdfError::CallFailed(s))
        },
        Err(e) => Err(e),
    }
}

/// Turns a failing status returned by a call into `CallFailed`; passes the rest on.
pub fn into_result(r: Result<NtStatus, WdfError>) -> (out: Result<NtStatus, WdfError>)
    ensures
        out == checked_spec(r),
{
    match r {
        Ok(s) => if s.nt_success() {
            Ok(s)
        } else {
            Err(WdfError::from(s))
        },
        Err(e) => Err(e),
    }
}

} // verus!
