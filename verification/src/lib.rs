//! Generic capability protocols over emulated higher-kinded types.
//!
//! Stable Rust cannot abstract over a type constructor that still awaits an
//! argument (`Vec` without its element type, `&'a _` without its lifetime).
//! This crate emulates such constructors with zero-sized marker types, the
//! *forms* of the [`plug`] module, and builds three protocol families on top
//! of them:
//!
//! - linearly indexed sequences ([`Sequence`], [`SequenceMut`]), whose
//!   traversal hands out a borrowing iterator built by plugging the caller's
//!   lifetime into the sequence's iterator form;
//! - borrowing iteration ([`StreamingIterator`]), where the item type is
//!   computed per call from the item form and the borrow of the call itself;
//! - reference-counted boxes ([`Rcb`], [`WeakRcb`]), one protocol over both
//!   the single-threaded and the thread-safe counting strategy.
//!
//! Every protocol operation carries a contract over a mathematical model: a
//! sequence is modelled by the `Seq` of its elements, a counted box by the
//! value it stores. The adapters for `Vec`, slices, `Rc` and `Arc` live in
//! the modules [`vec`], [`slice`], [`rc`] and [`sync`].

use vstd::prelude::*;

pub mod plug;
pub mod rc;
pub mod reference;
pub mod slice;
pub mod sync;
pub mod vec;

verus! {

use crate::plug::PlugLifetime;

/// Protocol for containers that can be constructed with preallocated
/// capacity. The capacity is a growth hint only; it never affects which
/// elements the container holds.
pub trait WithCapacity: Sized {
    fn with_capacity(capacity: usize) -> Self;
}

/// The mathematical model shared by the linear-sequence protocols: the
/// sequence of elements the container currently holds, in order.
pub trait SequenceSpec<T> {
    /// The elements of the container, first to last.
    spec fn contents(&self) -> Seq<T>;
}

/// Protocol for iterators that may lend items borrowed from their own
/// storage.
///
/// The item type is not fixed when the iterator type is declared: it is the
/// iterator's item form with the borrow of the `next` call itself plugged
/// into the lifetime slot. An item that is a reference into the iterator is
/// therefore valid exactly for the duration of that mutable access.
///
/// The protocol is a two-state machine: an iterator is *ready* until it
/// first returns the empty result, and *exhausted* from then on. For an
/// implementation whose [`tracks_exhaustion`](Self::tracks_exhaustion) spec
/// holds, exhaustion is terminal: once `next` has returned `None`, every
/// later call returns `None` again, with no resurrection.
pub trait StreamingIterator {
    /// Form of the produced item, with one lifetime slot open. Each `next`
    /// call requires the form to accept that call's borrow as its lifetime
    /// argument.
    type H1Item;

    /// Whether this implementation's [`exhausted`](Self::exhausted) spec
    /// reflects its state. Iterators adopted from outside the protocol
    /// (through the identity form) leave it false and promise nothing.
    spec fn tracks_exhaustion(&self) -> bool;

    /// Whether the iterator has reached its terminal state.
    spec fn exhausted(&self) -> bool;

    /// Advances the iterator; the empty result means exhaustion.
    fn next<'a>(&'a mut self) -> (r: Option<<Self::H1Item as PlugLifetime<'a>>::T>) where
        Self::H1Item: PlugLifetime<'a>,

        ensures
            final(self).tracks_exhaustion() == old(self).tracks_exhaustion(),
            old(self).tracks_exhaustion() && old(self).exhausted() ==> r is None,
            old(self).tracks_exhaustion() && old(self).exhausted() ==> final(self).exhausted(),
            old(self).tracks_exhaustion() && r is None ==> final(self).exhausted(),
    ;
}

/// Any ordinary iterator satisfies the borrowing-iteration protocol with no
/// further code: its item type does not depend on a borrow scope, so the
/// identity form carries it wherever an item form is expected, and plugging
/// any borrow yields the item type unchanged.
///
/// Nothing is known about an arbitrary iterator's exhaustion behaviour, so
/// this implementation does not track it and its contract promises nothing
/// beyond the protocol's conditional clauses.
impl<I> StreamingIterator for I where I: Iterator {
    type H1Item = crate::plug::H0<I::Item>;

    open spec fn tracks_exhaustion(&self) -> bool {
        false
    }

    open spec fn exhausted(&self) -> bool {
        false
    }

    fn next<'a>(&'a mut self) -> (r: Option<<Self::H1Item as PlugLifetime<'a>>::T>) where
        Self::H1Item: PlugLifetime<'a>,
    {
        match Iterator::next(self) {
            Some(v) => Some(crate::plug::plug_identity(v)),
            None => None,
        }
    }
}

/// Protocol for read-only access to containers that store elements in a
/// linear sequence, allowing indexed access and borrowing traversal.
///
/// Accessors use the optional-result convention: an out-of-range index
/// yields the empty result, never a panic. In particular [`first`] and
/// [`last`](Self::last) return `None` on an empty sequence; the index
/// computation of `last` is guarded, not wrapped.
///
/// [`first`]: Self::first
pub trait Sequence<T>: SequenceSpec<T> {
    /// Form of the borrowing iterator over this sequence, with one lifetime
    /// slot open. The slot is filled with the borrow of each [`iter`] call,
    /// which requires the form to accept that borrow as its lifetime
    /// argument.
    ///
    /// [`iter`]: Self::iter
    type H1Iterator;

    fn len(&self) -> (n: usize)
        ensures
            n == self.contents().len(),
    ;

    fn is_empty(&self) -> (b: bool)
        ensures
            b == (self.contents().len() == 0),
    {
        self.len() == 0
    }

    /// Linear-scan membership; meaningful whenever `T`'s equality agrees
    /// with logical equality.
    fn contains(&self, x: &T) -> (b: bool) where T: PartialEq
        ensures
            vstd::laws_eq::obeys_concrete_eq::<T>() ==> b == self.contents().contains(*x),
    ;

    fn get(&self, index: usize) -> (r: Option<&T>)
        ensures
            index < self.contents().len() ==> (r matches Some(v) && *v == self.contents()[
                index as int
            ]),
            index >= self.contents().len() ==> r is None,
    ;

    fn first(&self) -> (r: Option<&T>)
        ensures
            self.contents().len() == 0 ==> r is None,
            self.contents().len() > 0 ==> (r matches Some(v) && *v == self.contents().first()),
    {
        self.get(0)
    }

    fn last(&self) -> (r: Option<&T>)
        ensures
            self.contents().len() == 0 ==> r is None,
            self.contents().len() > 0 ==> (r matches Some(v) && *v == self.contents().last()),
    {
        let n = self.len();
        if n == 0 {
            None
        } else {
            self.get(n - 1)
        }
    }

    /// A fresh borrowing iterator over this sequence, built by plugging the
    /// caller's borrow into the iterator form.
    ///
    /// The plugged type is expected to implement [`StreamingIterator`], but
    /// no bound here can say so for every borrow, so nothing can be
    /// promised generically about the result; each implementation states
    /// over its concrete iterator type that the iterator starts at the
    /// sequence's first element.
    fn iter<'a>(&'a self) -> (r: <Self::H1Iterator as PlugLifetime<'a>>::T) where
        Self::H1Iterator: PlugLifetime<'a>,
    ;
}

/// Protocol for mutable containers that store elements in a linear
/// sequence.
///
/// Out-of-range `insert` and `remove` are contract violations, excluded by
/// `requires` rather than reported at run time; `pop` instead uses the
/// optional-result convention and is total.
pub trait SequenceMut<T>: SequenceSpec<T> {
    /// The count the container could grow to without reallocating; at least
    /// the element count.
    fn capacity(&self) -> (n: usize)
        ensures
            n >= self.contents().len(),
    ;

    /// Removes every element; capacity is allowed to be retained.
    fn clear(&mut self)
        ensures
            final(self).contents() == Seq::<T>::empty(),
    ;

    /// Grows the backing storage for at least `additional` more elements;
    /// the elements themselves are untouched.
    fn reserve(&mut self, additional: usize)
        ensures
            final(self).contents() == old(self).contents(),
    ;

    /// Grows the backing storage for exactly `additional` more elements;
    /// the elements themselves are untouched.
    fn reserve_exact(&mut self, additional: usize)
        ensures
            final(self).contents() == old(self).contents(),
    ;

    /// Drops excess capacity; the elements themselves are untouched.
    fn shrink_to_fit(&mut self)
        ensures
            final(self).contents() == old(self).contents(),
    ;

    fn push(&mut self, x: T)
        ensures
            final(self).contents() == old(self).contents().push(x),
    ;

    fn pop(&mut self) -> (r: Option<T>)
        ensures
            old(self).contents().len() == 0 ==> r is None && final(self).contents() == old(
                self,
            ).contents(),
            old(self).contents().len() > 0 ==> (r matches Some(v) && v == old(
                self,
            ).contents().last() && final(self).contents() == old(self).contents().drop_last()),
    ;

    fn insert(&mut self, index: usize, x: T)
        requires
            index <= old(self).contents().len(),
        ensures
            final(self).contents() == old(self).contents().insert(index as int, x),
    ;

    fn remove(&mut self, index: usize) -> (r: T)
        requires
            index < old(self).contents().len(),
        ensures
            r == old(self).contents()[index as int],
            final(self).contents() == old(self).contents().remove(index as int),
    ;
}

/// The mathematical model shared by the counted-box protocols: the value a
/// strong handle stores. Kept apart from [`Rcb`] so that [`WeakRcb`] can
/// speak of its strong handle's model without the two protocols requiring
/// each other.
pub trait RcbSpec<T> {
    /// The value stored in the shared slot.
    spec fn stored(&self) -> T;
}

/// Protocol for reference-counted boxes: owning handles that share one
/// storage slot, released exactly when the last strong handle is dropped.
///
/// Both the single-threaded and the thread-safe counting strategy satisfy
/// this same contract; generic client code cannot tell them apart except by
/// performance. Duplication hands out a new handle aliasing the same
/// storage, so the duplicate holds the same value.
pub trait Rcb<T>: Sized + Clone + core::ops::Deref<Target = T> + RcbSpec<T> {
    /// The non-owning observer produced by [`downgrade`](Self::downgrade).
    type Weak: WeakRcb<T>;

    /// Wraps `x` into a fresh box; the new handle is the only strong one.
    fn new(x: T) -> (r: Self)
        ensures
            r.stored() == x,
    ;

    /// A new strong handle aliasing the same storage.
    fn duplicate(&self) -> (r: Self)
        ensures
            r.stored() == self.stored(),
    ;

    /// Borrows the stored value.
    fn read(&self) -> (r: &T)
        ensures
            *r == self.stored(),
    ;

    /// Recovers the stored value if `this` is the sole strong handle;
    /// otherwise fails and returns the handle unchanged, so no value is
    /// lost or duplicated on failure.
    fn try_unwrap(this: Self) -> (r: Result<T, Self>)
        ensures
            r matches Ok(v) ==> v == this.stored(),
            r matches Err(e) ==> e.stored() == this.stored(),
    ;

    /// A non-owning observer of the same storage; it does not keep the
    /// storage alive.
    fn downgrade(this: &Self) -> (w: Self::Weak)
        ensures
            w.target() == this.stored(),
    ;
}

/// Protocol for the weak observers of reference-counted boxes.
pub trait WeakRcb<T> {
    /// The strong handle this observer can be upgraded back to.
    type Strong: RcbSpec<T>;

    /// The value stored in the observed slot while it is alive.
    spec fn target(&self) -> T;

    /// A new strong handle to the observed storage, if at least one strong
    /// handle is still outstanding at the moment of the call; the empty
    /// result once the storage has been released.
    fn upgrade(&self) -> (r: Option<Self::Strong>)
        ensures
            r matches Some(s) ==> s.stored() == self.target(),
    ;
}

/// After `push(x)`, the sequence's last element is `x` and its length has
/// grown by exactly one. `pre` is the sequence before the push, `post` any
/// sequence the push contract admits after it.
pub proof fn lemma_push_then_last<T, S: SequenceSpec<T>>(pre: S, post: S, x: T)
    requires
        post.contents() == pre.contents().push(x),
    ensures
        post.contents().len() == pre.contents().len() + 1,
        post.contents().last() == x,
{
}

/// `pop` immediately after `push(x)` yields `x` back and restores the prior
/// contents: the value `pop`'s contract returns on `post` is `x`, and the
/// contents it leaves behind are `pre`'s.
pub proof fn lemma_push_then_pop<T, S: SequenceSpec<T>>(pre: S, post: S, x: T)
    requires
        post.contents() == pre.contents().push(x),
    ensures
        post.contents().len() > 0,
        post.contents().last() == x,
        post.contents().drop_last() == pre.contents(),
{
    assert(post.contents().drop_last() =~= pre.contents());
}

/// `remove(index)` immediately after `insert(index, x)` yields `x` back and
/// restores the prior contents, for every index the insert contract admits.
pub proof fn lemma_insert_then_remove<T, S: SequenceSpec<T>>(pre: S, index: int, x: T)
    requires
        0 <= index <= pre.contents().len(),
    ensures
        pre.contents().insert(index, x)[index] == x,
        pre.contents().insert(index, x).remove(index) == pre.contents(),
{
    assert(pre.contents().insert(index, x).remove(index) =~= pre.contents());
}

} // verus!
