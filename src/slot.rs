use vstd::prelude::*;

verus! {

/// The state of one object's context slot: the payload, if any, and the accesses held.
pub struct SlotView<T> {
    pub value: Option<T>,
    pub readers: nat,
    pub writer: bool,
}

/// The outcome of a request for access that may have to wait.
#[derive(Debug)]
pub enum Access<G> {
    /// Access is granted; the guard stands for it until it is released.
    Granted(G),
    /// Access conflicts with an access that is held; ask again after a release.
    Wait,
    /// The slot holds no payload.
    NoValue,
}

/// Shared access to a slot's payload, handed out by the slot.
#[derive(Debug)]
pub struct SharedGuard {
    held: (),
}

/// Exclusive access to a slot's payload, handed out by the slot.
#[derive(Debug)]
pub struct ExclusiveGuard {
    held: (),
}

impl<T> SlotView<T> {
    /// A slot that holds a payload and whose accesses never alias an exclusive one.
    pub open spec fn consistent(self) -> bool {
        &&& self.writer ==> self.readers == 0
        &&& (self.readers > 0 || self.writer) ==> self.value is Some
    }

    /// No access is held.
    pub open spec fn idle(self) -> bool {
        self.readers == 0 && !self.writer
    }

    pub open spec fn with_value(self, value: Option<T>) -> SlotView<T> {
        SlotView { value, ..self }
    }

    /// Shared access can be granted now.
    pub open spec fn can_share(self) -> bool {
        self.value is Some && !self.writer
    }

    /// Exclusive access can be granted now.
    pub open spec fn can_take(self) -> bool {
        self.value is Some && self.idle()
    }

    pub open spec fn shared_taken(self) -> SlotView<T> {
        SlotView { readers: self.readers + 1, ..self }
    }

    pub open spec fn shared_released(self) -> SlotView<T> {
        SlotView { readers: (self.readers - 1) as nat, ..self }
    }

    pub open spec fn exclusive_taken(self) -> SlotView<T> {
        SlotView { writer: true, ..self }
    }

    pub open spec fn exclusive_released(self) -> SlotView<T> {
        SlotView { writer: false, ..self }
    }

    /// What a request for shared access answers in this state.
    pub open spec fn share_answer<G>(self, a: Access<G>) -> bool {
        if self.value is None {
            a is NoValue
        } else if self.writer {
            a is Wait
        } else {
            a is Granted
        }
    }

    /// What a request for exclusive access answers in this state.
    pub open spec fn take_answer<G>(self, a: Access<G>) -> bool {
        if self.value is None {
            a is NoValue
        } else if !self.idle() {
            a is Wait
        } else {
            a is Granted
        }
    }
}

/// A payload placed by `init` is what the next `get` grants and reads, as long as
/// no exclusive access is held.
pub proof fn lemma_init_then_get<T>(s: SlotView<T>, payload: T)
    requires
        !s.writer,
    ensures
        s.with_value(Some(payload)).can_share(),
        s.with_value(Some(payload)).shared_taken().value == Some(payload),
        s.with_value(Some(payload)).shared_taken().readers > 0,
{
}

/// After `drop`, every request for access answers that there is no value.
pub proof fn lemma_drop_then_get<T, G>(s: SlotView<T>, a: Access<G>)
    ensures
        s.with_value(None).share_answer(a) <==> a is NoValue,
        s.with_value(None).take_answer(a) <==> a is NoValue,
        !s.with_value(None).can_share(),
        !s.with_value(None).can_take(),
{
}

/// Shared accesses coexist: while one is held another is granted as well.
pub proof fn lemma_shared_coexist<T>(s: SlotView<T>)
    requires
        s.can_share(),
    ensures
        s.shared_taken().can_share(),
        s.shared_taken().consistent() <== s.consistent(),
{
}

/// While any access is held, exclusive access is refused without waiting and
/// waited for otherwise; once the last access is released it is granted.
pub proof fn lemma_exclusive_excludes<T, G>(s: SlotView<T>, a: Access<G>)
    requires
        s.consistent(),
        !s.idle(),
    ensures
        !s.can_take(),
        s.take_answer(a) <==> a is Wait,
        s.readers == 1 && !s.writer ==> s.shared_released().can_take(),
        s.writer ==> s.exclusive_released().can_take(),
{
}

/// The storage that a framework object keeps for one context type: at most one
/// payload, with reader/writer bookkeeping of the accesses handed out.
pub struct ContextSlot<T> {
    value: Option<T>,
    readers: usize,
    writer: bool,
}

impl<T> ContextSlot<T> {
    #[verifier::type_invariant]
    closed spec fn inv(self) -> bool {
        self@.consistent()
    }

    pub closed spec fn view(self) -> SlotView<T> {
        SlotView { value: self.value, readers: self.readers as nat, writer: self.writer }
    }

    /// Fresh slot memory: no payload, no access held.
    pub fn new() -> (r: Self)
        ensures
            r@ == (SlotView::<T> { value: None, readers: 0, writer: false }),
    {
        ContextSlot { value: None, readers: 0, writer: false }
    }

    pub fn is_initialized(&self) -> (r: bool)
        ensures
            r == self@.value is Some,
    {
        self.value.is_some()
    }

    /// Places `payload` into the slot, discarding a previous payload without any
    /// teardown of it. The accesses held are left as they are.
    pub fn init(&mut self, payload: T)
        ensures
            final(self)@ == old(self)@.with_value(Some(payload)),
    {
        proof {
            use_type_invariant(&*self);
        }
        self.value = Some(payload);
    }

    /// Clears the slot; the payload is released. No access may be held.
    pub fn drop(&mut self)
        requires
            old(self)@.idle(),
        ensures
            final(self)@ == old(self)@.with_value(None),
    {
        self.value = None;
    }

    /// Shared access without waiting: granted when there is a payload and no
    /// exclusive access is held.
    pub fn try_get(&mut self) -> (r: Option<SharedGuard>)
        requires
            old(self)@.readers < usize::MAX,
        ensures
            r is Some <==> old(self)@.can_share(),
            final(self)@ == if r is Some {
                old(self)@.shared_taken()
            } else {
                old(self)@
            },
    {
        proof {
            use_type_invariant(&*self);
        }
        if self.value.is_some() && !self.writer {
            self.readers = self.readers + 1;
            Some(SharedGuard { held: () })
        } else {
            None
        }
    }

    /// Exclusive access without waiting: granted when there is a payload and no
    /// access at all is held.
    pub fn try_get_mut(&mut self) -> (r: Option<ExclusiveGuard>)
        ensures
            r is Some <==> old(self)@.can_take(),
            final(self)@ == if r is Some {
                old(self)@.exclusive_taken()
            } else {
                old(self)@
            },
    {
        proof {
            use_type_invariant(&*self);
        }
        if self.value.is_some() && self.readers == 0 && !self.writer {
            self.writer = true;
            Some(ExclusiveGuard { held: () })
        } else {
            None
        }
    }

    /// Shared access that waits: `Wait` while an exclusive access is held, which the
    /// caller answers by asking again once it has been released.
    pub fn get(&mut self) -> (r: Access<SharedGuard>)
        requires
            old(self)@.readers < usize::MAX,
        ensures
            old(self)@.share_answer(r),
            final(self)@ == if r is Granted {
                old(self)@.shared_taken()
            } else {
                old(self)@
            },
    {
        if self.value.is_none() {
            Access::NoValue
        } else {
            match self.try_get() {
                Some(g) => Access::Granted(g),
                None => Access::Wait,
            }
        }
    }

    /// Exclusive access that waits: `Wait` while any access is held.
    pub fn get_mut(&mut self) -> (r: Access<ExclusiveGuard>)
        ensures
            old(self)@.take_answer(r),
            final(self)@ == if r is Granted {
                old(self)@.exclusive_taken()
            } else {
                old(self)@
            },
    {
        if self.value.is_none() {
            Access::NoValue
        } else {
            match self.try_get_mut() {
                Some(g) => Access::Granted(g),
                None => Access::Wait,
            }
        }
    }

    /// Ends a shared access.
    pub fn release_shared(&mut self, guard: SharedGuard)
        requires
            old(self)@.readers > 0,
        ensures
            final(self)@ == old(self)@.shared_released(),
    {
        proof {
            use_type_invariant(&*self);
        }
        self.readers = self.readers - 1;
    }

    /// Ends the exclusive access.
    pub fn release_exclusive(&mut self, guard: ExclusiveGuard)
        requires
            old(self)@.writer,
        ensures
            final(self)@ == old(self)@.exclusive_released(),
    {
        proof {
            use_type_invariant(&*self);
        }
        self.writer = false;
    }

    /// The payload, read under a shared access.
    pub fn read(&self, guard: &SharedGuard) -> (r: &T)
        requires
            self@.readers > 0,
        ensures
            self@.value == Some(*r),
    {
        proof {
            use_type_invariant(self);
        }
        self.value.as_ref().unwrap()
    }

    /// The payload, read under the exclusive access.
    pub fn read_exclusive(&self, guard: &ExclusiveGuard) -> (r: &T)
        requires
            self@.writer,
        ensures
            self@.value == Some(*r),
    {
        proof {
            use_type_invariant(self);
        }
        self.value.as_ref().unwrap()
    }

    /// Replaces the payload under the exclusive access.
    pub fn write(&mut self, guard: &ExclusiveGuard, value: T)
        requires
            old(self)@.writer,
        ensures
            final(self)@ == old(self)@.with_value(Some(value)),
    {
        proof {
            use_type_invariant(&*self);
        }
        self.value = Some(value);
    }
}

} // verus!
