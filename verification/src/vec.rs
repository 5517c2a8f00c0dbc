//! The growable-array adapter: `Vec<T>` wired into the sequence protocols.

use vstd::prelude::*;

verus! {

use crate::plug::{PlugLifetime, PlugType};
use crate::slice::{plug_cursor, plugged_cursor, SliceCursor, TypedH1Iter};
use crate::{Sequence, SequenceMut, SequenceSpec, StreamingIterator, WithCapacity};

/// Form of `Vec` with its type slot open.
pub struct H1Vec;

impl<T> PlugType<T> for H1Vec {
    type T = Vec<T>;
}

impl<T> WithCapacity for Vec<T> {
    fn with_capacity(capacity: usize) -> (r: Self)
        ensures
            r@ == Seq::<T>::empty(),
    {
        Vec::<T>::with_capacity(capacity)
    }
}

impl<T> SequenceSpec<T> for Vec<T> {
    open spec fn contents(&self) -> Seq<T> {
        self@
    }
}

impl<T> Sequence<T> for Vec<T> where T: 'static {
    /// The iterator form cannot be told that the elements outlive any
    /// particular caller-chosen borrow, so the elements must outlive every
    /// borrow: `T` is restricted to `'static`.
    type H1Iterator = TypedH1Iter<T>;

    fn len(&self) -> (n: usize)
        ensures
            n == self.contents().len(),
    {
        Vec::<T>::len(self)
    }

    fn is_empty(&self) -> (b: bool)
        ensures
            b == (self.contents().len() == 0),
    {
        Vec::<T>::len(self) == 0
    }

    fn contains(&self, x: &T) -> (b: bool) where T: PartialEq
        ensures
            vstd::laws_eq::obeys_concrete_eq::<T>() ==> b == self.contents().contains(*x),
    {
        let n = self.len();
        let mut i: usize = 0;
        while i < n
            invariant
                n == self@.len(),
                i <= n,
                vstd::laws_eq::obeys_concrete_eq::<T>() ==> forall|j: int|
                    0 <= j < i ==> self@[j] != *x,
            decreases n - i,
        {
            proof {
                reveal(vstd::laws_eq::obeys_concrete_eq);
            }
            if self[i] == *x {
                return true;
            }
            i = i + 1;
        }
        proof {
            reveal(vstd::laws_eq::obeys_concrete_eq);
        }
        false
    }

    fn get(&self, index: usize) -> (r: Option<&T>)
        ensures
            index < self.contents().len() ==> (r matches Some(v) && *v == self.contents()[
                index as int
            ]),
            index >= self.contents().len() ==> r is None,
    {
        if index < self.len() {
            Some(&self[index])
        } else {
            None
        }
    }

    fn first(&self) -> (r: Option<&T>)
        ensures
            self.contents().len() == 0 ==> r is None,
            self.contents().len() > 0 ==> (r matches Some(v) && *v == self.contents().first()),
    {
        <[T]>::first(self.as_slice())
    }

    fn last(&self) -> (r: Option<&T>)
        ensures
            self.contents().len() == 0 ==> r is None,
            self.contents().len() > 0 ==> (r matches Some(v) && *v == self.contents().last()),
    {
        <[T]>::last(self.as_slice())
    }

    fn iter<'a>(&'a self) -> (r: <Self::H1Iterator as PlugLifetime<'a>>::T) where
        Self::H1Iterator: PlugLifetime<'a>,

        ensures
            plugged_cursor(r).elements() == self.contents(),
            plugged_cursor(r).position() == 0,
    {
        plug_cursor(SliceCursor::new(self.as_slice()))
    }
}

impl<T> SequenceMut<T> for Vec<T> {
    fn capacity(&self) -> (n: usize)
        ensures
            n >= self.contents().len(),
    {
        vec_capacity(self)
    }

    fn clear(&mut self)
        ensures
            final(self).contents() == Seq::<T>::empty(),
    {
        Vec::<T>::clear(self)
    }

    fn reserve(&mut self, additional: usize)
        ensures
            final(self).contents() == old(self).contents(),
    {
        Vec::<T>::reserve(self, additional)
    }

    fn reserve_exact(&mut self, additional: usize)
        ensures
            final(self).contents() == old(self).contents(),
    {
        vec_reserve_exact(self, additional)
    }

    fn shrink_to_fit(&mut self)
        ensures
            final(self).contents() == old(self).contents(),
    {
        vec_shrink_to_fit(self)
    }

    fn push(&mut self, x: T)
        ensures
            final(self).contents() == old(self).contents().push(x),
    {
        Vec::<T>::push(self, x)
    }

    fn pop(&mut self) -> (r: Option<T>)
        ensures
            old(self).contents().len() == 0 ==> r is None && final(self).contents() == old(
                self,
            ).contents(),
            old(self).contents().len() > 0 ==> (r matches Some(v) && v == old(
                self,
            ).contents().last() && final(self).contents() == old(self).contents().drop_last()),
    {
        Vec::<T>::pop(self)
    }

    fn insert(&mut self, index: usize, x: T)
        ensures
            final(self).contents() == old(self).contents().insert(index as int, x),
    {
        Vec::<T>::insert(self, index, x)
    }

    fn remove(&mut self, index: usize) -> (r: T)
        ensures
            r == old(self).contents()[index as int],
            final(self).contents() == old(self).contents().remove(index as int),
    {
        Vec::<T>::remove(self, index)
    }
}

/// Relies on `std::vec::Vec::capacity`: the number of elements the vector
/// can hold without reallocating, never below its length.
#[verifier::external_body]
fn vec_capacity<T>(v: &Vec<T>) -> (n: usize)
    ensures
        n >= v@.len(),
{
    v.capacity()
}

/// Relies on `std::vec::Vec::reserve_exact`: reserves capacity and moves no
/// element.
#[verifier::external_body]
fn vec_reserve_exact<T>(v: &mut Vec<T>, additional: usize)
    ensures
        final(v)@ == old(v)@,
{
    v.reserve_exact(additional)
}

/// Relies on `std::vec::Vec::shrink_to_fit`: drops excess capacity and
/// moves no element.
#[verifier::external_body]
fn vec_shrink_to_fit<T>(v: &mut Vec<T>)
    ensures
        final(v)@ == old(v)@,
{
    v.shrink_to_fit()
}

} // verus!
