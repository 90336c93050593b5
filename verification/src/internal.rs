//! Tokens that capture a type, the methods by which a cast is reported, and
//! the casts between `'static` types. The casts whose source type need not be
//! `'static` (to a lifetime-free target) and the slice casts reinterpret
//! memory with `unsafe` code, so they are not part of this library.
use crate::utils::{downcast_mut, downcast_owned, downcast_ref, type_eq};
use core::marker::PhantomData;
use vstd::prelude::*;

verus! {

/// A token struct used to capture a type without taking ownership of any
/// values. Used to select a cast implementation.
pub struct CastToken<T: ?Sized>(PhantomData<T>);

/// The way in which a cast is carried out.
#[derive(Debug, Clone, Copy, PartialEq, Eq, Structural)]
pub enum CastMethod {
    Owned,
    Ref,
    Mut,
    SliceRef,
    SliceMut,
    OwnedLifetimeFree,
    RefLifetimeFree,
    MutLifetimeFree,
}

impl<T: ?Sized> CastToken<T> {
    /// The one value of a token for `T`.
    pub closed spec fn spec_token() -> Self {
        CastToken(PhantomData)
    }

    /// Create a cast token for the given type of value.
    pub fn of_val(_value: &T) -> (r: Self)
        ensures
            r == Self::spec_token(),
    {
        Self::of()
    }

    /// Create a new cast token of the specified type.
    pub fn of() -> (r: Self)
        ensures
            r == Self::spec_token(),
    {
        CastToken(PhantomData)
    }
}

impl CastMethod {
    /// What a cast by this method reports once its type test has come out
    /// `castable`: the method itself where the cast goes through, else nothing.
    pub fn if_castable(self, castable: bool) -> (r: Option<CastMethod>)
        ensures
            r == (if castable { Some(self) } else { None }),
            r is Some <==> castable,
    {
        if castable {
            Some(self)
        } else {
            None
        }
    }
}

/// Supporting trait for autoderef specialization on mutable references.
pub trait TryCastMut<'a, T: 'static, U: 'static> {
    /// Attempt to cast a mutable reference to the given type if the types are equal.
    /// Where the types differ, the reference is handed back unchanged.
    fn try_cast(&self, value: &'a mut T) -> (r: Result<&'a mut U, &'a mut T>)
        ensures
            r matches Err(v) ==> *v == *old(value) && *final(v) == *final(value),
    {
        downcast_mut::<T, U>(value)
    }

    /// Whether the two types are the same, so that `try_cast` succeeds.
    fn can_cast(&self) -> bool {
        type_eq::<T, U>()
    }

    /// The method of this cast where the types are the same, else nothing.
    fn cast_method(&self) -> (r: Option<CastMethod>)
        ensures
            r matches Some(m) ==> m == CastMethod::Mut,
    {
        CastMethod::Mut.if_castable(self.can_cast())
    }
}

impl<'a, T: 'static, U: 'static> TryCastMut<'a, T, U> for &&(CastToken<&'a mut T>, CastToken<&'a mut U>) {
}

/// Supporting trait for autoderef specialization on references.
pub trait TryCastRef<'a, T: 'static, U: 'static> {
    /// Attempt to cast a reference to the given type if the types are equal.
    /// Where the types differ, the reference is handed back unchanged.
    fn try_cast(&self, value: &'a T) -> (r: Result<&'a U, &'a T>)
        ensures
            r matches Err(v) ==> v == value,
    {
        downcast_ref::<T, U>(value)
    }

    /// Whether the two types are the same, so that `try_cast` succeeds.
    fn can_cast(&self) -> bool {
        type_eq::<T, U>()
    }

    /// The method of this cast where the types are the same, else nothing.
    fn cast_method(&self) -> (r: Option<CastMethod>)
        ensures
            r matches Some(m) ==> m == CastMethod::Ref,
    {
        CastMethod::Ref.if_castable(self.can_cast())
    }
}

impl<'a, T: 'static, U: 'static> TryCastRef<'a, T, U> for &(CastToken<&'a T>, CastToken<&'a U>) {
}

/// Supporting trait for autoderef specialization on owned values (the default).
pub trait TryCastOwned<T: 'static, U: 'static> {
    /// Attempt to cast a value to the given type if the types are equal.
    /// Where the types differ, the value is handed back unchanged.
    fn try_cast(&self, value: T) -> (r: Result<U, T>)
        ensures
            r matches Err(v) ==> v == value,
    {
        downcast_owned::<T, U>(value)
    }

    /// Whether the two types are the same, so that `try_cast` succeeds.
    fn can_cast(&self) -> bool {
        type_eq::<T, U>()
    }

    /// The method of this cast where the types are the same, else nothing.
    fn cast_method(&self) -> (r: Option<CastMethod>)
        ensures
            r matches Some(m) ==> m == CastMethod::Owned,
    {
        CastMethod::Owned.if_castable(self.can_cast())
    }
}

impl<T: 'static, U: 'static> TryCastOwned<T, U> for (CastToken<T>, CastToken<U>) {
}

} // verus!
