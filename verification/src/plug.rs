//! The slot-plug engine: emulated higher-kinded types.
//!
//! A *form* is a zero-sized marker standing for a type constructor whose
//! generic arguments have not all been supplied yet. Each unfilled argument
//! position is a *slot*. Filling a slot is expressed through one of two
//! traits: [`PlugLifetime`] substitutes a lifetime into a form's lifetime
//! slot, [`PlugType`] substitutes a type into a form's type slot. The
//! associated type `T` of either trait is the result of the substitution:
//! either a form with one slot fewer, or, when the last slot was filled, the
//! concrete type the form stood for.
//!
//! By convention a form's name is `H<n><t>`, where `<n>` counts the slots
//! still open and `<t>` names the concrete type the form denotes. Slots are
//! filled left to right, lifetimes before types; a form filled out of that
//! order carries a descriptive prefix instead (see `TypedH1Reference`).
//!
//! Both traits may also be implemented by an already-concrete type, whose
//! substitution returns the type itself unchanged. [`H0`] wraps any concrete
//! type in exactly this way, so that ordinary types and constructor-shaped
//! types can be handled by the same generic machinery.

use vstd::prelude::*;
use core::marker::PhantomData;

verus! {

/// Fills the lifetime slot of a form with the lifetime `'a`.
///
/// Substitution is total: an implementation must be well-defined for every
/// lifetime, and plugging the same lifetime twice into the same form yields
/// the same associated type, so substitution is referentially transparent.
pub trait PlugLifetime<'a> {
    /// The type the form denotes once `'a` fills its lifetime slot.
    type T;
}

/// Fills the type slot of a form with the type `T`.
///
/// Substitution is total: an implementation must be well-defined for every
/// argument type, and plugging the same type twice into the same form yields
/// the same associated type, so substitution is referentially transparent.
pub trait PlugType<T> where T: ?Sized {
    /// The type the form denotes once `T` fills its type slot.
    type T;
}

/// The identity form: a concrete type carried where a form is expected.
///
/// Both substitutions are no-ops that yield `T` unchanged whatever argument
/// is supplied, so applying either any number of times is idempotent. This
/// lets an ordinary iterator, whose item type does not depend on a borrow
/// scope, satisfy the borrowing-iteration protocol with no further code.
pub struct H0<T>(PhantomData<T>);

impl<'dummy, T> PlugLifetime<'dummy> for H0<T> {
    type T = T;
}

impl<Dummy, T> PlugType<Dummy> for H0<T> {
    type T = T;
}

/// The value behind an item of [`H0`] form: plugging any lifetime into the
/// identity form yields the wrapped type itself, unchanged.
pub open spec fn identity_value<'a, T>(v: <H0<T> as PlugLifetime<'a>>::T) -> T {
    v
}

/// Wraps a value as the item the identity form [`H0`] denotes once any
/// lifetime fills its slot: the value itself, unchanged.
pub fn plug_identity<'a, T>(v: T) -> (r: <H0<T> as PlugLifetime<'a>>::T)
    ensures
        identity_value(r) == v,
{
    v
}

} // verus!
