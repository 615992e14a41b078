use vstd::prelude::*;

use crate::error::{checked_spec, WdfError};
use crate::status::NtStatus;

verus! {

/// One named framework function: its position in the function table and its name.
#[derive(Clone, Copy, Debug, PartialEq, Eq)]
pub struct EntryPoint {
    pub index: usize,
    pub name: &'static str,
}

/// The process-wide handle that every framework function takes first.
#[derive(Clone, Copy, Debug, PartialEq, Eq, Structural)]
pub struct DriverGlobals(pub u64);

/// The loaded framework's function table: one slot per entry point, of which the
/// first `count` are populated by the framework version that is loaded.
pub struct FunctionTable<F> {
    slots: Vec<Option<F>>,
    count: usize,
    globals: DriverGlobals,
}

impl<F> FunctionTable<F> {
    #[verifier::type_invariant]
    closed spec fn populated(self) -> bool {
        &&& self.count <= self.slots@.len()
        &&& forall|i: int| 0 <= i < self.count ==> (#[trigger] self.slots@[i]) is Some
    }

    /// The slots as they were loaded.
    pub closed spec fn slots(self) -> Seq<Option<F>> {
        self.slots@
    }

    /// How many entry points the loaded framework version provides.
    pub closed spec fn count(self) -> nat {
        self.count as nat
    }

    /// The handle that is passed first to every function called through the table.
    pub closed spec fn globals(self) -> DriverGlobals {
        self.globals
    }

    /// The availability predicate: the index lies in the populated range.
    pub open spec fn available(self, index: usize) -> bool {
        index < self.count()
    }

    /// The function in slot `index`.
    pub open spec fn function(self, index: usize) -> F {
        self.slots()[index as int]->Some_0
    }

    /// The populated range is the longest run of filled slots at the start of the table.
    pub open spec fn populated_prefix(slots: Seq<Option<F>>, n: nat) -> bool {
        &&& n <= slots.len()
        &&& forall|i: int| 0 <= i < n ==> (#[trigger] slots[i]) is Some
        &&& n < slots.len() ==> slots[n as int] is None
    }

    /// Loads a table; the populated range ends at the first empty slot.
    pub fn new(slots: Vec<Option<F>>, globals: DriverGlobals) -> (r: Self)
        ensures
            r.slots() == slots@,
            r.globals() == globals,
            Self::populated_prefix(slots@, r.count()),
    {
        let mut count: usize = 0;
        while count < slots.len()
            invariant
                count <= slots@.len(),
                forall|i: int| 0 <= i < count ==> (#[trigger] slots@[i]) is Some,
            ensures
                count <= slots@.len(),
                forall|i: int| 0 <= i < count ==> (#[trigger] slots@[i]) is Some,
                count < slots@.len() ==> slots@[count as int] is None,
            decreases slots@.len() - count,
        {
            if slots[count].is_none() {
                break;
            }
            count = count + 1;
        }
        FunctionTable { slots, count, globals }
    }

    /// How many entry points the loaded framework version provides.
    pub fn function_count(&self) -> (r: usize)
        ensures
            r == self.count(),
    {
        self.count
    }

    /// Whether the entry point can be called in the loaded framework version.
    pub fn is_function_available(&self, entry: EntryPoint) -> (r: bool)
        ensures
            r == self.available(entry.index),
    {
        entry.index < self.count
    }

    /// What a call of `entry` with `args` may return: `FunctionNotAvailable` with the
    /// entry point's name when it is absent, else whatever the function in its slot
    /// returns when given the globals first and then `args`.
    pub open spec fn invoke_outcome<A, R>(self, entry: EntryPoint, args: A, r: Result<R, WdfError>) -> bool
        where F: Fn(DriverGlobals, A) -> R,
    {
        if self.available(entry.index) {
            r is Ok && call_ensures(self.function(entry.index), (self.globals(), args), r->Ok_0)
        } else {
            r == Err::<R, WdfError>(WdfError::WdfFunctionNotAvailable(entry.name))
        }
    }

    /// Calls `entry` with the globals prepended to `args`, after checking that it is
    /// available; an absent entry point is never read.
    pub fn invoke<A, R>(&self, entry: EntryPoint, args: A) -> (r: Result<R, WdfError>)
        where F: Fn(DriverGlobals, A) -> R,
        requires
            self.available(entry.index) ==> call_requires(
                self.function(entry.index),
                (self.globals(), args),
            ),
        ensures
            self.invoke_outcome(entry, args, r),
    {
        proof {
            use_type_invariant(self);
        }
        if entry.index < self.count {
            match &self.slots[entry.index] {
                Some(f) => Ok(f(self.globals, args)),
                None => Err(WdfError::WdfFunctionNotAvailable(entry.name)),
            }
        } else {
            Err(WdfError::WdfFunctionNotAvailable(entry.name))
        }
    }
}

} // verus!
