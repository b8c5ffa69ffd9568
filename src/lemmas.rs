//! Laws of the registration over whole sequences of calls, stated over the
//! same spec functions as the operations' own contracts.
use core::task::Waker;
use crate::registration::{will_wake_gives, WakerRegistration};
use vstd::prelude::*;

verus! {

/// An empty registration is not occupied, and waking it changes nothing:
/// no handle is invoked.
pub proof fn lemma_empty_wake_is_noop(r: WakerRegistration, after: WakerRegistration)
    requires
        r.stored() is None,
        r.wakes(after),
    ensures
        !r.is_occupied(),
        after == r,
{
    WakerRegistration::lemma_eq(after, r);
}

/// Registering a handle on an empty registration invokes nothing and leaves
/// it occupied by a clone of that handle; waking then invokes that clone
/// once and empties the registration.
pub proof fn lemma_register_then_wake(
    r0: WakerRegistration,
    r1: WakerRegistration,
    r2: WakerRegistration,
    h: Waker,
)
    requires
        r0.stored() is None,
        r0.registered(r1, h),
        r1.wakes(r2),
    ensures
        r1.is_occupied(),
        r1.holds_clone_of(h),
        r1.invoked() == r0.invoked(),
        r2.invoked() == r0.invoked().push(r1.stored()->0),
        !r2.is_occupied(),
{
}

/// When `Waker::will_wake` recognises the second handle as resuming the same
/// task as the held clone of the first, the second `register` changes nothing
/// and invokes nothing; the following `wake` invokes the held clone once.
pub proof fn lemma_same_task_keeps_handle(
    r0: WakerRegistration,
    r1: WakerRegistration,
    r2: WakerRegistration,
    r3: WakerRegistration,
    h1: Waker,
    h2: Waker,
)
    requires
        r0.stored() is None,
        r0.registered(r1, h1),
        r1.registered(r2, h2),
        forall|b: bool| #[trigger] will_wake_gives(r1.stored()->0, h2, b) ==> b,
        r2.wakes(r3),
    ensures
        r1.holds_clone_of(h1),
        r2 == r1,
        r2.invoked() == r0.invoked(),
        r3.invoked() == r0.invoked().push(r1.stored()->0),
        !r3.is_occupied(),
{
    let s = choose|s: bool| r1.registers(r2, h2, s);
    assert(will_wake_gives(r1.stored()->0, h2, s));
}

/// When `Waker::will_wake` does not recognise the second handle as resuming
/// the task of the held clone of the first, the second `register` invokes
/// that clone once and stores a clone of the second handle; the following
/// `wake` invokes that one once, and the first no more.
pub proof fn lemma_displacement_rewakes(
    r0: WakerRegistration,
    r1: WakerRegistration,
    r2: WakerRegistration,
    r3: WakerRegistration,
    h1: Waker,
    h2: Waker,
)
    requires
        r0.stored() is None,
        r0.registered(r1, h1),
        r1.registered(r2, h2),
        forall|b: bool| #[trigger] will_wake_gives(r1.stored()->0, h2, b) ==> !b,
        r2.wakes(r3),
    ensures
        r1.holds_clone_of(h1),
        r2.holds_clone_of(h2),
        r2.invoked() == r0.invoked().push(r1.stored()->0),
        r3.invoked() == r0.invoked().push(r1.stored()->0).push(r2.stored()->0),
        !r3.is_occupied(),
{
    let s = choose|s: bool| r1.registers(r2, h2, s);
    assert(will_wake_gives(r1.stored()->0, h2, s));
}

/// Whatever was held before, the `wake` that follows a `register(h)` invokes
/// one handle, once: a clone of `h`, or the handle that was held before and
/// that `Waker::will_wake` recognised as resuming `h`'s task.
pub proof fn lemma_wake_after_register(
    r0: WakerRegistration,
    r1: WakerRegistration,
    r2: WakerRegistration,
    h: Waker,
)
    requires
        r0.registered(r1, h),
        r1.wakes(r2),
    ensures
        r1.is_occupied(),
        r2.invoked() == r1.invoked().push(r1.stored()->0),
        !r2.is_occupied(),
        r1.holds_clone_of(h) || (r1 == r0 && will_wake_gives(r0.stored()->0, h, true)),
{
}

/// Waking twice is waking once: the second `wake` invokes nothing.
pub proof fn lemma_wake_idempotent(
    r0: WakerRegistration,
    r1: WakerRegistration,
    r2: WakerRegistration,
)
    requires
        r0.wakes(r1),
        r1.wakes(r2),
    ensures
        r2 == r1,
{
    lemma_empty_wake_is_noop(r1, r2);
}

/// A registration is reused across cycles: `register(h1); wake();
/// register(h2); wake()` invokes a clone of `h1` in the first `wake` and a
/// clone of `h2` in the second, each once, while the registration goes from
/// empty to occupied and back, twice.
pub proof fn lemma_reuse_across_cycles(
    r0: WakerRegistration,
    r1: WakerRegistration,
    r2: WakerRegistration,
    r3: WakerRegistration,
    r4: WakerRegistration,
    h1: Waker,
    h2: Waker,
)
    requires
        r0.stored() is None,
        r0.registered(r1, h1),
        r1.wakes(r2),
        r2.registered(r3, h2),
        r3.wakes(r4),
    ensures
        !r0.is_occupied(),
        r1.is_occupied(),
        !r2.is_occupied(),
        r3.is_occupied(),
        !r4.is_occupied(),
        r1.holds_clone_of(h1),
        r3.holds_clone_of(h2),
        r1.invoked() == r0.invoked(),
        r2.invoked() == r0.invoked().push(r1.stored()->0),
        r3.invoked() == r2.invoked(),
        r4.invoked() == r0.invoked().push(r1.stored()->0).push(r3.stored()->0),
{
}

} // verus!
