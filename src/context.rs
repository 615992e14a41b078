use vstd::prelude::*;

use crate::dispatch::{DriverGlobals, EntryPoint, FunctionTable};
use crate::calls::WdfObjectGetTypedContextWorker;
use crate::error::WdfError;
use crate::status::{NtStatus, STATUS_NOT_FOUND};
use crate::slot::{Access, ContextSlot, ExclusiveGuard, SharedGuard, SlotView};

verus! {

/// The opaque handle of a framework object.
#[derive(Clone, Copy, Debug, PartialEq, Eq, Structural)]
pub struct ObjectHandle(pub u64);

/// The descriptor of one context type. `unique_type` is its identity: descriptors
/// are told apart by it alone.
#[derive(Clone, Copy, Debug, PartialEq, Eq)]
pub struct ContextTypeInfo {
    pub unique_type: u64,
    pub type_key: u64,
    pub name: &'static str,
    pub context_size: usize,
}

/// A shared access to the context of one object.
#[derive(Debug)]
pub struct SharedAccess {
    at: usize,
    guard: SharedGuard,
}

/// The exclusive access to the context of one object.
#[derive(Debug)]
pub struct ExclusiveAccess {
    at: usize,
    guard: ExclusiveGuard,
}

impl SharedAccess {
    pub closed spec fn at(self) -> usize {
        self.at
    }
}

impl ExclusiveAccess {
    pub closed spec fn at(self) -> usize {
        self.at
    }
}

/// The context storage of every object created with one context type. The
/// framework's typed-context lookup names a location in it.
pub struct ObjectContexts<T> {
    info: ContextTypeInfo,
    slots: Vec<ContextSlot<T>>,
}

impl<T> ObjectContexts<T> {
    pub closed spec fn info(self) -> ContextTypeInfo {
        self.info
    }

    pub closed spec fn slots(self) -> Seq<SlotView<T>> {
        self.slots@.map_values(|s: ContextSlot<T>| s@)
    }

    pub fn new(info: ContextTypeInfo) -> (r: Self)
        ensures
            r.info() == info,
            r.slots() == Seq::<SlotView<T>>::empty(),
    {
        let r = ObjectContexts { info, slots: Vec::new() };
        assert(r.slots() =~= Seq::<SlotView<T>>::empty());
        r
    }

    /// The storage of a newly created object: fresh slot memory at a new location.
    pub fn add_object(&mut self) -> (at: usize)
        requires
            old(self).slots().len() < usize::MAX,
        ensures
            at == old(self).slots().len(),
            final(self).info() == old(self).info(),
            final(self).slots() == old(self).slots().push(
                SlotView::<T> { value: None, readers: 0, writer: false },
            ),
    {
        let at = self.slots.len();
        self.slots.push(ContextSlot::new());
        assert(self.slots() =~= old(self).slots().push(
            SlotView::<T> { value: None, readers: 0, writer: false },
        ));
        at
    }

    pub fn type_info(&self) -> (r: ContextTypeInfo)
        ensures
            r == self.info(),
    {
        self.info
    }

    /// A location answered by the framework, as a location in this storage: one
    /// outside it names no context of this type.
    pub open spec fn in_storage(self, c: Result<usize, WdfError>) -> Result<usize, WdfError> {
        match c {
            Ok(at) => if at < self.slots().len() {
                Ok(at)
            } else {
                Err(WdfError::CallFailed(NtStatus(STATUS_NOT_FOUND)))
            },
            Err(e) => Err(e),
        }
    }

    /// Checks a location answered by the framework against this storage.
    pub fn resolve(&self, c: Result<usize, WdfError>) -> (r: Result<usize, WdfError>)
        ensures
            r == self.in_storage(c),
            self.names_slot(r),
    {
        match c {
            Ok(at) => if at < self.slots.len() {
                Ok(at)
            } else {
                Err(WdfError::CallFailed(NtStatus(STATUS_NOT_FOUND)))
            },
            Err(e) => Err(e),
        }
    }

    /// Finds the context of the object `handle` by the framework's typed-context
    /// lookup, called through the function table with this type's identity.
    pub fn locate<F>(&self, table: &FunctionTable<F>, entry: EntryPoint, handle: ObjectHandle) -> (r: Result<usize, WdfError>)
        where F: Fn(DriverGlobals, (ObjectHandle, u64)) -> usize,
        requires
            table.available(entry.index) ==> call_requires(
                table.function(entry.index),
                (table.globals(), (handle, self.info().unique_type)),
            ),
        ensures
            self.names_slot(r),
            exists|c: Result<usize, WdfError>|
                table.invoke_outcome(entry, (handle, self.info().unique_type), c) && r == self.in_storage(c),
    {
        let c = WdfObjectGetTypedContextWorker(table, entry, handle, &self.info);
        self.resolve(c)
    }

    /// A location handed back by the typed-context lookup names a slot of this storage.
    pub open spec fn names_slot(self, located: Result<usize, WdfError>) -> bool {
        located is Ok ==> located->Ok_0 < self.slots().len()
    }

    /// The storage after slot `at` takes the state `s`.
    pub open spec fn with_slot(self, at: usize, s: SlotView<T>) -> Seq<SlotView<T>> {
        self.slots().update(at as int, s)
    }

    /// The state of slot `at`.
    pub open spec fn slot(self, at: usize) -> SlotView<T> {
        self.slots()[at as int]
    }

    /// Places `payload` into the located object's context; a failed lookup is
    /// returned unchanged and nothing is touched.
    pub fn init(&mut self, located: Result<usize, WdfError>, payload: T) -> (r: Result<(), WdfError>)
        requires
            old(self).names_slot(located),
        ensures
            final(self).info() == old(self).info(),
            match located {
                Ok(at) => r is Ok && final(self).slots() == old(self).with_slot(
                    at,
                    old(self).slot(at).with_value(Some(payload)),
                ),
                Err(e) => r == Err::<(), WdfError>(e) && final(self).slots() == old(self).slots(),
            },
    {
        match located {
            Ok(at) => {
                self.slots[at].init(payload);
                assert(self.slots() =~= old(self).with_slot(
                    at,
                    old(self).slot(at).with_value(Some(payload)),
                ));
                Ok(())
            },
            Err(e) => Err(e),
        }
    }

    /// Clears the located object's context. No access to it may be held.
    pub fn drop(&mut self, located: Result<usize, WdfError>) -> (r: Result<(), WdfError>)
        requires
            old(self).names_slot(located),
            located is Ok ==> old(self).slot(located->Ok_0).idle(),
        ensures
            final(self).info() == old(self).info(),
            match located {
                Ok(at) => r is Ok && final(self).slots() == old(self).with_slot(
                    at,
                    old(self).slot(at).with_value(None),
                ),
                Err(e) => r == Err::<(), WdfError>(e) && final(self).slots() == old(self).slots(),
            },
    {
        match located {
            Ok(at) => {
                self.slots[at].drop();
                assert(self.slots() =~= old(self).with_slot(
                    at,
                    old(self).slot(at).with_value(None),
                ));
                Ok(())
            },
            Err(e) => Err(e),
        }
    }

    /// Shared access to the located context without waiting.
    pub fn try_get(&mut self, located: Result<usize, WdfError>) -> (r: Option<SharedAccess>)
        requires
            old(self).names_slot(located),
            located is Ok ==> old(self).slot(located->Ok_0).readers < usize::MAX,
        ensures
            final(self).info() == old(self).info(),
            r is Some <==> (located is Ok && old(self).slot(located->Ok_0).can_share()),
            r is Some ==> r->Some_0.at() == located->Ok_0 && final(self).slots() == old(self).with_slot(
                located->Ok_0,
                old(self).slot(located->Ok_0).shared_taken(),
            ),
            r is None ==> final(self).slots() == old(self).slots(),
    {
        match located {
            Ok(at) => {
                let g = self.slots[at].try_get();
                match g {
                    Some(guard) => {
                        assert(self.slots() =~= old(self).with_slot(
                            at,
                            old(self).slot(at).shared_taken(),
                        ));
                        Some(SharedAccess { at, guard })
                    },
                    None => {
                        assert(self.slots() =~= old(self).slots());
                        None
                    },
                }
            },
            Err(_) => None,
        }
    }

    /// Exclusive access to the located context without waiting.
    pub fn try_get_mut(&mut self, located: Result<usize, WdfError>) -> (r: Option<ExclusiveAccess>)
        requires
            old(self).names_slot(located),
        ensures
            final(self).info() == old(self).info(),
            r is Some <==> (located is Ok && old(self).slot(located->Ok_0).can_take()),
            r is Some ==> r->Some_0.at() == located->Ok_0 && final(self).slots() == old(self).with_slot(
                located->Ok_0,
                old(self).slot(located->Ok_0).exclusive_taken(),
            ),
            r is None ==> final(self).slots() == old(self).slots(),
    {
        match located {
            Ok(at) => {
                let g = self.slots[at].try_get_mut();
                match g {
                    Some(guard) => {
                        assert(self.slots() =~= old(self).with_slot(
                            at,
                            old(self).slot(at).exclusive_taken(),
                        ));
                        Some(ExclusiveAccess { at, guard })
                    },
                    None => {
                        assert(self.slots() =~= old(self).slots());
                        None
                    },
                }
            },
            Err(_) => None,
        }
    }

    /// Shared access to the located context: `Wait` while an exclusive access is
    /// held, `NoValue` when the lookup failed or the context is empty.
    pub fn get(&mut self, located: Result<usize, WdfError>) -> (r: Access<SharedAccess>)
        requires
            old(self).names_slot(located),
            located is Ok ==> old(self).slot(located->Ok_0).readers < usize::MAX,
        ensures
            final(self).info() == old(self).info(),
            located is Err ==> r is NoValue,
            located is Ok ==> old(self).slot(located->Ok_0).share_answer(r),
            r is Granted ==> r->Granted_0.at() == located->Ok_0 && final(self).slots() == old(self).with_slot(
                located->Ok_0,
                old(self).slot(located->Ok_0).shared_taken(),
            ),
            !(r is Granted) ==> final(self).slots() == old(self).slots(),
    {
        match located {
            Ok(at) => {
                let a = self.slots[at].get();
                match a {
                    Access::Granted(guard) => {
                        assert(self.slots() =~= old(self).with_slot(
                            at,
                            old(self).slot(at).shared_taken(),
                        ));
                        Access::Granted(SharedAccess { at, guard })
                    },
                    Access::Wait => {
                        assert(self.slots() =~= old(self).slots());
                        Access::Wait
                    },
                    Access::NoValue => {
                        assert(self.slots() =~= old(self).slots());
                        Access::NoValue
                    },
                }
            },
            Err(_) => Access::NoValue,
        }
    }

    /// Exclusive access to the located context: `Wait` while any access is held,
    /// `NoValue` when the lookup failed or the context is empty.
    pub fn get_mut(&mut self, located: Result<usize, WdfError>) -> (r: Access<ExclusiveAccess>)
        requires
            old(self).names_slot(located),
        ensures
            final(self).info() == old(self).info(),
            located is Err ==> r is NoValue,
            located is Ok ==> old(self).slot(located->Ok_0).take_answer(r),
            r is Granted ==> r->Granted_0.at() == located->Ok_0 && final(self).slots() == old(self).with_slot(
                located->Ok_0,
                old(self).slot(located->Ok_0).exclusive_taken(),
            ),
            !(r is Granted) ==> final(self).slots() == old(self).slots(),
    {
        match located {
            Ok(at) => {
                let a = self.slots[at].get_mut();
                match a {
                    Access::Granted(guard) => {
                        assert(self.slots() =~= old(self).with_slot(
                            at,
                            old(self).slot(at).exclusive_taken(),
                        ));
                        Access::Granted(ExclusiveAccess { at, guard })
                    },
                    Access::Wait => {
                        assert(self.slots() =~= old(self).slots());
                        Access::Wait
                    },
                    Access::NoValue => {
                        assert(self.slots() =~= old(self).slots());
                        Access::NoValue
                    },
                }
            },
            Err(_) => Access::NoValue,
        }
    }

    /// Ends a shared access.
    pub fn release_shared(&mut self, access: SharedAccess)
        requires
            access.at() < old(self).slots().len(),
            old(self).slot(access.at()).readers > 0,
        ensures
            final(self).info() == old(self).info(),
            final(self).slots() == old(self).with_slot(
                access.at(),
                old(self).slot(access.at()).shared_released(),
            ),
    {
        let SharedAccess { at, guard } = access;
        self.slots[at].release_shared(guard);
        assert(self.slots() =~= old(self).with_slot(at, old(self).slot(at).shared_released()));
    }

    /// Ends the exclusive access.
    pub fn release_exclusive(&mut self, access: ExclusiveAccess)
        requires
            access.at() < old(self).slots().len(),
            old(self).slot(access.at()).writer,
        ensures
            final(self).info() == old(self).info(),
            final(self).slots() == old(self).with_slot(
                access.at(),
                old(self).slot(access.at()).exclusive_released(),
            ),
    {
        let ExclusiveAccess { at, guard } = access;
        self.slots[at].release_exclusive(guard);
        assert(self.slots() =~= old(self).with_slot(at, old(self).slot(at).exclusive_released()));
    }

    /// The payload, read under a shared access.
    pub fn read(&self, access: &SharedAccess) -> (r: &T)
        requires
            access.at() < self.slots().len(),
            self.slot(access.at()).readers > 0,
        ensures
            self.slot(access.at()).value == Some(*r),
    {
        self.slots[access.at].read(&access.guard)
    }

    /// The payload, read under the exclusive access.
    pub fn read_exclusive(&self, access: &ExclusiveAccess) -> (r: &T)
        requires
            access.at() < self.slots().len(),
            self.slot(access.at()).writer,
        ensures
            self.slot(access.at()).value == Some(*r),
    {
        self.slots[access.at].read_exclusive(&access.guard)
    }

    /// Replaces the payload under the exclusive access.
    pub fn write(&mut self, access: &ExclusiveAccess, value: T)
        requires
            access.at() < old(self).slots().len(),
            old(self).slot(access.at()).writer,
        ensures
            final(self).info() == old(self).info(),
            final(self).slots() == old(self).with_slot(
                access.at(),
                old(self).slot(access.at()).with_value(Some(value)),
            ),
    {
        self.slots[access.at].write(&access.guard, value);
        assert(self.slots() =~= old(self).with_slot(
            access.at,
            old(self).slot(access.at).with_value(Some(value)),
        ));
    }
}

} // verus!
