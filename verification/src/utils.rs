//! The calls into `core::any` on which every cast rests.
use core::any::{Any, TypeId};
use vstd::prelude::*;

verus! {

/// Calls `core::any::TypeId::of` for `T` and for `U` and compares the two
/// identifiers with `==`. Nothing is claimed of the result: which types are
/// the same is not a fact that a contract here can express.
#[verifier::external_body]
pub(crate) fn type_eq<T: ?Sized + 'static, U: ?Sized + 'static>() -> bool {
    TypeId::of::<T>() == TypeId::of::<U>()
}

/// Calls `<dyn Any>::downcast_mut::<Option<U>>` on a slot that holds `value`.
/// Claimed: a failed cast hands `value` back as it was. Of a successful cast
/// nothing is claimed: that the result is `value` read as a `U` is a fact
/// about types that no contract here can express.
#[verifier::external_body]
pub(crate) fn downcast_owned<T: 'static, U: 'static>(value: T) -> (r: Result<U, T>)
    ensures
        r matches Err(v) ==> v == value,
{
    let mut slot = Some(value);
    match (&mut slot as &mut dyn Any).downcast_mut::<Option<U>>() {
        Some(target) => Ok(target.take().unwrap()),
        None => Err(slot.unwrap()),
    }
}

/// Calls `<dyn Any>::downcast_ref::<U>` on `value`.
/// Claimed: a failed cast hands back the reference it was given. Of a
/// successful cast nothing is claimed (see `downcast_owned`).
#[verifier::external_body]
pub(crate) fn downcast_ref<'a, T: 'static, U: 'static>(value: &'a T) -> (r: Result<&'a U, &'a T>)
    ensures
        r matches Err(v) ==> v == value,
{
    match (value as &dyn Any).downcast_ref::<U>() {
        Some(target) => Ok(target),
        None => Err(value),
    }
}

/// Calls `<dyn Any>::downcast_mut::<U>` on `value`, after `<dyn Any>::is::<U>`
/// has said whether it succeeds.
/// Claimed: a failed cast hands back the reference it was given, pointing at
/// the value as it was, and what is written through it is what the referent
/// ends as. Of a successful cast nothing is claimed (see `downcast_owned`).
#[verifier::external_body]
pub(crate) fn downcast_mut<'a, T: 'static, U: 'static>(value: &'a mut T) -> (r: Result<&'a mut U, &'a mut T>)
    ensures
        r matches Err(v) ==> *v == *old(value) && *final(v) == *final(value),
{
    if (&*value as &dyn Any).is::<U>() {
        Ok((value as &mut dyn Any).downcast_mut::<U>().unwrap())
    } else {
        Err(value)
    }
}

} // verus!
