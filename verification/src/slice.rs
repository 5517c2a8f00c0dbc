//! A borrowing iterator over a contiguous borrowed view, `&'a [T]`.

use vstd::prelude::*;
use core::marker::PhantomData;

verus! {

use crate::plug::PlugLifetime;
use crate::reference::{plug_item, plugged_value, TypedH1Reference};
use crate::StreamingIterator;

/// Form of the slice iterator [`SliceCursor`] with only its lifetime slot
/// open: its element type was filled first, out of the conventional order.
pub struct TypedH1Iter<T>(PhantomData<T>) where T: 'static;

impl<'a, T> PlugLifetime<'a> for TypedH1Iter<T> where T: 'static {
    type T = SliceCursor<'a, T>;
}

/// The cursor the [`TypedH1Iter`] form denotes once a lifetime fills its
/// slot.
pub open spec fn plugged_cursor<'a, T: 'static>(
    r: <TypedH1Iter<T> as PlugLifetime<'a>>::T,
) -> SliceCursor<'a, T> {
    r
}

/// Wraps a cursor as the iterator the [`TypedH1Iter`] form denotes once the
/// cursor's borrow fills the slot.
pub fn plug_cursor<'a, T: 'static>(c: SliceCursor<'a, T>) -> (r: <TypedH1Iter<
    T,
> as PlugLifetime<'a>>::T)
    ensures
        plugged_cursor(r) == c,
{
    c
}

/// A borrowing iterator over a slice: walks `&'a [T]` front to back and
/// lends a reference to each element in turn.
pub struct SliceCursor<'a, T> {
    slice: &'a [T],
    pos: usize,
}

impl<'a, T> SliceCursor<'a, T> {
    /// The elements the cursor walks, in order.
    pub closed spec fn elements(&self) -> Seq<T> {
        self.slice@
    }

    /// How many elements have been handed out so far.
    pub closed spec fn position(&self) -> int {
        self.pos as int
    }

    /// A cursor over `slice`, positioned before its first element.
    pub fn new(slice: &'a [T]) -> (r: Self)
        ensures
            r.elements() == slice@,
            r.position() == 0,
    {
        SliceCursor { slice, pos: 0 }
    }
}

impl<'a, T> StreamingIterator for SliceCursor<'a, T> where T: 'static {
    /// Plugging the borrow of a `next` call yields the item `&T`. The item
    /// form cannot be told that `T` outlives any particular caller-chosen
    /// borrow, so the elements must outlive every borrow: `T` is restricted
    /// to `'static`.
    type H1Item = TypedH1Reference<T>;

    open spec fn tracks_exhaustion(&self) -> bool {
        true
    }

    open spec fn exhausted(&self) -> bool {
        self.position() >= self.elements().len()
    }

    fn next<'b>(&'b mut self) -> (r: Option<<Self::H1Item as PlugLifetime<'b>>::T>) where
        Self::H1Item: PlugLifetime<'b>,

        ensures
            final(self).elements() == old(self).elements(),
            old(self).position() < old(self).elements().len() ==> (r matches Some(v)
                && plugged_value(v) == old(self).elements()[old(self).position()]
                && final(self).position() == old(self).position() + 1),
            old(self).position() >= old(self).elements().len() ==> (r is None && *final(self)
                == *old(self)),
    {
        let s: &'a [T] = self.slice;
        if self.pos < s.len() {
            let v: &'b T = &s[self.pos];
            self.pos = self.pos + 1;
            Some(plug_item(v))
        } else {
            None
        }
    }
}

} // verus!
