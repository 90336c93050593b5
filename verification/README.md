# castaway

Casting a value of a generic type to a concrete type when the two types are
the same, selected by "autoderef specialization" over pairs of `CastToken`s.

The verified library holds only the casts between `'static` types: owned
values, references and mutable references. The casts that need `unsafe`
code stay outside it, in `app/`: the slice casts, and the three casts whose
source type need not be `'static` because the target is `LifetimeFree`
(together with the `LifetimeFree` marker trait itself).

- `src/internal.rs`: `CastToken`, `CastMethod` and the `'static` cast traits.
- `src/utils.rs`: the calls into `core::any` on which those casts rest.
- `app/lib.rs`: the slice casts and the lifetime-free casts.
- `app/lifetime_free.rs`: the `LifetimeFree` marker trait.
- `app/tests.rs`: the slice and lifetime-free parts of the cast test, beside
  the traits they exercise.
