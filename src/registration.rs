//! The registration: a slot for at most one wakeup handle.
//!
//! The registration takes no lock of its own. The resource that embeds it
//! serialises `register` and `wake`, for instance by keeping it under the
//! same mutex as the rest of its state.
use core::task::Waker;
use vstd::pervasive::cloned;
use vstd::prelude::*;

verus! {

/// What `register` does with the handle it is given, decided by whether a
/// handle is held and whether that handle resumes the same task.
#[derive(PartialEq, Eq, Structural, Debug, Clone, Copy)]
pub enum RegisterStep {
    /// Nothing was held: store a clone of the new handle.
    Store,
    /// The held handle resumes the same task: keep it and clone nothing.
    Keep,
    /// Another task's handle was held: store a clone of the new handle and
    /// invoke the evicted one at once, so that its task is not left waiting.
    Displace,
}

/// The step that `register` takes.
pub open spec fn step_for(occupied: bool, same_task: bool) -> RegisterStep {
    if !occupied {
        RegisterStep::Store
    } else if same_task {
        RegisterStep::Keep
    } else {
        RegisterStep::Displace
    }
}

/// Decides the step that `register` takes, from whether a handle is held and
/// whether it was recognised as resuming the same task as the new one.
pub fn register_step(occupied: bool, same_task: bool) -> (r: RegisterStep)
    ensures
        r == step_for(occupied, same_task),
{
    if !occupied {
        RegisterStep::Store
    } else if same_task {
        RegisterStep::Keep
    } else {
        RegisterStep::Displace
    }
}

/// `Waker::will_wake` on `w` and `other` may return `b`.
pub open spec fn will_wake_gives(w: Waker, other: Waker, b: bool) -> bool {
    call_ensures(Waker::will_wake, (&w, &other), b)
}

/// Holds at most one wakeup handle: that of the task to resume next.
///
/// A second task that registers displaces the first, whose handle is invoked
/// on the spot. Where several tasks wait on one thing at once, they keep
/// waking each other; such a resource needs a primitive with room for many.
pub struct WakerRegistration {
    waker: Option<Waker>,
    /// The handles this registration has invoked, oldest first.
    woken: Ghost<Seq<Waker>>,
}

impl WakerRegistration {
    /// The handle currently held, if any.
    pub closed spec fn stored(self) -> Option<Waker> {
        self.waker
    }

    /// Every handle this registration has invoked so far, oldest first.
    pub closed spec fn invoked(self) -> Seq<Waker> {
        self.woken@
    }

    /// Whether a handle is held.
    pub open spec fn is_occupied(self) -> bool {
        self.stored() is Some
    }

    /// Holds a handle made by cloning `h`.
    pub open spec fn holds_clone_of(self, h: Waker) -> bool {
        self.stored() matches Some(w) && cloned(h, w)
    }

    /// `after` is what `wake` leaves of `self`: empty, with the held handle,
    /// if any, added to the invoked ones.
    pub open spec fn wakes(self, after: Self) -> bool {
        &&& after.stored() is None
        &&& after.invoked() == match self.stored() {
            Some(w) => self.invoked().push(w),
            None => self.invoked(),
        }
    }

    /// `after` is what `register(new)` leaves of `self`, where `same_task` is
    /// what `Waker::will_wake` returned on the held handle, if any, and `new`.
    pub open spec fn registers(self, after: Self, new: Waker, same_task: bool) -> bool {
        &&& self.stored() matches Some(p) ==> will_wake_gives(p, new, same_task)
        &&& match step_for(self.is_occupied(), same_task) {
            RegisterStep::Store => after.invoked() == self.invoked() && after.holds_clone_of(new),
            RegisterStep::Keep => after == self,
            RegisterStep::Displace => {
                &&& after.invoked() == self.invoked().push(self.stored()->0)
                &&& after.holds_clone_of(new)
            },
        }
    }

    /// `after` is what `register(new)` leaves of `self`, for one of the
    /// results that `Waker::will_wake` may give.
    pub open spec fn registered(self, after: Self, new: Waker) -> bool {
        exists|same_task: bool| #[trigger] self.registers(after, new, same_task)
    }

    /// Two registrations that hold the same handle and have invoked the same
    /// ones are equal.
    pub proof fn lemma_eq(a: Self, b: Self)
        requires
            a.stored() == b.stored(),
            a.invoked() == b.invoked(),
        ensures
            a == b,
    {
    }

    /// Creates a registration that holds no handle and has invoked none.
    pub fn new() -> (r: Self)
        ensures
            r.stored() is None,
            r.invoked() == Seq::<Waker>::empty(),
    {
        WakerRegistration { waker: None, woken: Ghost(Seq::empty()) }
    }

    /// Invokes `w`, recording it among the invoked handles.
    fn invoke(&mut self, w: Waker)
        ensures
            final(self).stored() == old(self).stored(),
            final(self).invoked() == old(self).invoked().push(w),
    {
        proof {
            self.woken@ = self.woken@.push(w);
        }
        w.wake();
    }

    /// Registers interest of the task that `new` resumes.
    ///
    /// If the held handle resumes the same task, it is kept and `new` is not
    /// cloned. Otherwise a clone of `new` is stored, and a handle it evicts is
    /// invoked before this returns: `register` may thus run another task's
    /// wakeup inline, which is as cheap or as costly as that handle makes it.
    pub fn register(&mut self, new: &Waker)
        ensures
            final(self).is_occupied(),
            old(self).registered(*final(self), *new),
    {
        let same_task = match &self.waker {
            Some(prev) => prev.will_wake(new),
            None => false,
        };
        let step = register_step(self.waker.is_some(), same_task);
        match step {
            RegisterStep::Keep => {},
            RegisterStep::Store => {
                self.waker = Some(new.clone());
            },
            RegisterStep::Displace => {
                let evicted = self.waker.take();
                self.waker = Some(new.clone());
                if let Some(evicted) = evicted {
                    self.invoke(evicted);
                }
            },
        }
        assert(old(self).registers(*self, *new, same_task));
    }

    /// Invokes the held handle, if any, and leaves the registration empty.
    pub fn wake(&mut self)
        ensures
            old(self).wakes(*final(self)),
    {
        if let Some(w) = self.waker.take() {
            self.invoke(w);
        }
    }

    /// Returns whether a handle is currently held.
    pub fn occupied(&self) -> (r: bool)
        ensures
            r == self.is_occupied(),
    {
        self.waker.is_some()
    }
}

impl Default for WakerRegistration {
    /// Same as `new`.
    fn default() -> (r: Self)
        ensures
            r.stored() is None,
            r.invoked() == Seq::<Waker>::empty(),
    {
        Self::new()
    }
}

} // verus!
