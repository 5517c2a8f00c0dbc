//! Forms for borrowed views: `&'a T` with its slots still open.

use vstd::prelude::*;
use core::marker::PhantomData;

verus! {

use crate::plug::{PlugLifetime, PlugType};

/// Form of `&'a T` with both its lifetime slot and its type slot open.
/// Filling the lifetime slot first, as the convention asks, yields
/// [`H1Reference`].
pub struct H2Reference;

impl<'a> PlugLifetime<'a> for H2Reference {
    type T = H1Reference<'a>;
}

/// Form of `&'a T` with only its type slot open.
pub struct H1Reference<'a>(PhantomData<&'a ()>);

impl<'a, T> PlugType<T> for H1Reference<'a> where T: 'a + ?Sized {
    type T = &'a T;
}

/// Form of `&'a T` with only its lifetime slot open: the type slot was
/// filled before the lifetime slot, out of the conventional order, hence
/// the descriptive prefix instead of a bare `H1`.
///
/// The form must accept every lifetime, so it cannot promise that `T`
/// outlives any particular one; `T` is restricted to `'static` instead.
pub struct TypedH1Reference<T>(PhantomData<T>) where T: 'static + ?Sized;

impl<'a, T> PlugLifetime<'a> for TypedH1Reference<T> where T: 'static + ?Sized {
    type T = &'a T;
}

/// The value behind an item of [`TypedH1Reference`] form: plugging any
/// lifetime into the form yields a reference, and this reads through it.
pub open spec fn plugged_value<'a, T: 'static>(
    v: <TypedH1Reference<T> as PlugLifetime<'a>>::T,
) -> T {
    *v
}

/// Wraps a reference as the item the [`TypedH1Reference`] form denotes once
/// the reference's own lifetime fills the slot.
pub fn plug_item<'a, T: 'static>(v: &'a T) -> (r: <TypedH1Reference<T> as PlugLifetime<'a>>::T)
    ensures
        plugged_value(r) == *v,
{
    v
}

} // verus!
