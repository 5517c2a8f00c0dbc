//! The thread-safe counted-box adapter: `std::sync::Arc` wired into the
//! reference-counted-box protocol.
//!
//! `Arc` counts atomically, so handles may be cloned and dropped from many
//! threads without under- or over-counting; the external contract is the
//! same as the single-threaded strategy's.

use vstd::prelude::*;
use std::sync::Arc;

verus! {

use crate::plug::PlugType;
use crate::{Rcb, RcbSpec, WeakRcb};

/// Form of `std::sync::Arc` with its type slot open.
pub struct H1Arc;

impl<T> PlugType<T> for H1Arc {
    type T = Arc<T>;
}

/// Form of [`ArcObserver`] with its type slot open.
pub struct H1Weak;

impl<T> PlugType<T> for H1Weak {
    type T = ArcObserver<T>;
}

impl<T> RcbSpec<T> for Arc<T> {
    open spec fn stored(&self) -> T {
        **self
    }
}

impl<T> Rcb<T> for Arc<T> {
    type Weak = ArcObserver<T>;

    fn new(x: T) -> (r: Self) {
        Arc::new(x)
    }

    fn duplicate(&self) -> (r: Self) {
        arc_clone(self)
    }

    fn read(&self) -> (r: &T) {
        &**self
    }

    fn try_unwrap(this: Self) -> (r: Result<T, Self>) {
        arc_try_unwrap(this)
    }

    fn downgrade(this: &Self) -> (w: Self::Weak) {
        let handle = arc_observer_handle(this);
        ArcObserver { handle, observed: Ghost(this.stored()) }
    }
}

/// Opaque holder of a `std::sync::Weak<T>`; the surrounding [`ArcObserver`]
/// carries the observed value as its model.
#[verifier::external_body]
#[verifier::reject_recursive_types(T)]
struct ArcObserverHandle<T> {
    ptr: std::sync::Weak<T>,
}

/// A non-owning observer of an `Arc` allocation, created by downgrading a
/// strong handle. It records the observed value as its ghost target; only
/// downgrading constructs an observer, so the target is always the value
/// stored in the observed allocation.
#[verifier::reject_recursive_types(T)]
pub struct ArcObserver<T> {
    handle: ArcObserverHandle<T>,
    observed: Ghost<T>,
}

impl<T> WeakRcb<T> for ArcObserver<T> {
    type Strong = Arc<T>;

    closed spec fn target(&self) -> T {
        self.observed@
    }

    fn upgrade(&self) -> (r: Option<Self::Strong>) {
        arc_observer_upgrade(self)
    }
}

/// Relies on `Arc::clone`: the new handle points to the same allocation as
/// the old, so it holds the same value.
#[verifier::external_body]
fn arc_clone<T>(arc: &Arc<T>) -> (r: Arc<T>)
    ensures
        r == **arc,
{
    Arc::clone(arc)
}

/// Relies on `std::sync::Arc::try_unwrap`: when this is the sole strong
/// handle, returns the stored value; otherwise returns the handle back
/// unchanged.
#[verifier::external_body]
fn arc_try_unwrap<T>(this: Arc<T>) -> (r: Result<T, Arc<T>>)
    ensures
        r matches Ok(v) ==> v == this,
        r matches Err(e) ==> e == this,
{
    Arc::try_unwrap(this)
}

/// Relies on `std::sync::Arc::downgrade`: creates a weak pointer to this
/// allocation, which does not keep the allocation alive.
#[verifier::external_body]
fn arc_observer_handle<T>(arc: &Arc<T>) -> ArcObserverHandle<T> {
    ArcObserverHandle { ptr: Arc::downgrade(arc) }
}

/// Relies on `std::sync::Weak::upgrade`: while strong handles to the
/// observed allocation remain, returns a new strong handle to it, so the
/// returned handle holds the value the observer was downgraded from (an
/// observer is only ever built beside its allocation, with that value as
/// its ghost model); once the allocation is dropped, returns nothing. The
/// count check and increment are atomic with respect to concurrent drops,
/// so a returned handle never points to released storage.
#[verifier::external_body]
fn arc_observer_upgrade<T>(w: &ArcObserver<T>) -> (r: Option<Arc<T>>)
    ensures
        r matches Some(s) ==> *s == w.observed@,
{
    w.handle.ptr.upgrade()
}

} // verus!
