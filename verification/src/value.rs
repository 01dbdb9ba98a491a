//! A type-erased holder of exactly one concrete value.
//!
//! A [`Value`] owns one value of some concrete type, chosen at construction
//! and fixed for the holder's whole lifetime. The concrete type is recovered
//! later by an exact runtime type check: no numeric widening, no trait-object
//! matching, no subtype matching — type identity only.
//!
//! The erasure itself rests on the standard library's `Any` machinery, which
//! keys on runtime type identity. That identity has no counterpart in the
//! verifier's logic, so a holder is opaque to it: the operations here are
//! trusted, each a thin call into `std`, and their exact-identity behaviour
//! is exercised by the test suite. Everything the map proves about storing
//! and retrieving holders treats them as indivisible values, which the map
//! hands back exactly as they were put in.

use vstd::prelude::*;
use std::any::Any;

verus! {

/// A type-erased holder of exactly one concrete value, created once and
/// immutable thereafter. Reading it back requires naming the expected
/// concrete type, and succeeds exactly when that type is the one the holder
/// was constructed with.
#[verifier::external_body]
pub struct Value {
    inner: Box<dyn Any>,
}

/// The still-type-erased payload taken out of a [`Value`] by
/// [`Value::into_inner`]. It can be read with the same exact type check as a
/// holder ([`Erased::is`], [`Erased::as_type`]) or re-wrapped into a fresh
/// [`Value`] with [`Value::from_erased`], for callers who want to move the
/// payload elsewhere or handle a type mismatch their own way.
#[verifier::external_body]
pub struct Erased {
    inner: Box<dyn Any>,
}

impl Erased {
    /// Relies on `<dyn Any>::is`: true exactly when the erased payload was
    /// stored with concrete type `T` — exact type identity, as for a
    /// [`Value`].
    #[verifier::external_body]
    pub fn is<T: 'static>(&self) -> bool {
        (*self.inner).is::<T>()
    }

    /// Relies on `<dyn Any>::downcast_ref`: a reference to the erased payload
    /// when its stored type is exactly `T`, and nothing otherwise.
    #[verifier::external_body]
    pub fn as_type<T: 'static>(&self) -> Option<&T> {
        (*self.inner).downcast_ref::<T>()
    }
}

impl Value {
    /// Relies on `Box::new` and unsizing to `dyn Any`: the new holder records
    /// the concrete type `T` and owns exactly `value`. Which concrete type a
    /// holder was built with is runtime type information that the verifier's
    /// logic cannot name, so no more is stated here; the exact-identity
    /// behaviour of the type check is exercised by the tests.
    #[verifier::external_body]
    pub fn new<T: 'static>(value: T) -> Value {
        Value { inner: Box::new(value) }
    }

    /// Relies on `<dyn Any>::is`: true exactly when the payload was stored
    /// with concrete type `T` — exact type identity, no widening and no
    /// subtype matching.
    #[verifier::external_body]
    pub fn is<T: 'static>(&self) -> bool {
        (*self.inner).is::<T>()
    }

    /// Relies on `<dyn Any>::downcast_ref`: a reference to the payload when
    /// the stored type is exactly `T`, and nothing otherwise. This is the
    /// single fallible-but-nonpanicking way to read a mistyped access; it has
    /// no side effect.
    #[verifier::external_body]
    pub fn as_type<T: 'static>(&self) -> Option<&T> {
        (*self.inner).downcast_ref::<T>()
    }

    /// Relies on moving the owned box out of the holder: consumes the holder
    /// and returns its erased payload, untouched, for callers who want to
    /// re-wrap it elsewhere or perform their own downcast with custom error
    /// handling.
    #[verifier::external_body]
    pub fn into_inner(self) -> Erased {
        Erased { inner: self.inner }
    }

    /// Relies on moving the owned box back into a holder: wraps an erased
    /// payload again, keeping its concrete type and contents untouched, so it
    /// can be stored anew (for instance through `insert_val`).
    #[verifier::external_body]
    pub fn from_erased(erased: Erased) -> Value {
        Value { inner: erased.inner }
    }
}

} // verus!
