use vstd::prelude::*;

verus! {

/// A framework status code: non-negative values report success.
#[derive(Clone, Copy, Debug, PartialEq, Eq, Structural)]
pub struct NtStatus(pub i32);

/// The status the framework uses for an object or entry point that cannot be found.
pub const STATUS_NOT_FOUND: i32 = -1073741275;

/// The plain success status.
pub const STATUS_SUCCESS: i32 = 0;

impl NtStatus {
    /// True when the code reports success.
    pub open spec fn is_success(self) -> bool {
        self.0 >= 0
    }

    pub fn nt_success(&self) -> (r: bool)
        ensures
            r == self.is_success(),
    {
        self.0 >= 0
    }
}

} // verus!
