//! Casting a value of a generic `'static` type to a concrete type when the
//! two types are one and the same, with the test of that sameness left to
//! `TypeId`.
pub mod internal;
mod utils;
