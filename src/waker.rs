//! What the library assumes of `core::task::Waker`.
use core::task::Waker;
use vstd::prelude::*;

verus! {

/// `core::task::Waker` is opaque here: the library only stores, compares,
/// clones and consumes such handles.
#[verifier::external_type_specification]
#[verifier::external_body]
pub struct ExWaker(Waker);

/// Relies on `Waker::will_wake`, which compares two handles on a best-effort
/// basis: `true` means both resume the same task, `false` promises nothing.
/// Its result depends on where the handles' data lives, so nothing is stated.
pub assume_specification[ Waker::will_wake ](w: &Waker, other: &Waker) -> bool;

/// Relies on `Waker::clone`, which makes a further handle for the same task.
/// Nothing is stated of the new handle beyond being a clone of the argument.
pub assume_specification[ <Waker as Clone>::clone ](w: &Waker) -> Waker;

/// Relies on `Waker::wake`, which consumes the handle and schedules its task.
/// It returns nothing, so nothing is stated.
pub assume_specification[ Waker::wake ](w: Waker);

} // verus!
