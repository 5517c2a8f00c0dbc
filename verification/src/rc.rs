//! The single-threaded counted-box adapter: `std::rc::Rc` wired into the
//! reference-counted-box protocol.
//!
//! The handles of this strategy must not cross thread boundaries; `Rc` is
//! not `Send`, so the restriction is checked at compile time.

use vstd::prelude::*;
use std::rc::Rc;

verus! {

use crate::plug::PlugType;
use crate::{Rcb, RcbSpec, WeakRcb};

/// Form of `std::rc::Rc` with its type slot open.
pub struct H1Rc;

impl<T> PlugType<T> for H1Rc {
    type T = Rc<T>;
}

/// Form of [`RcObserver`] with its type slot open.
pub struct H1Weak;

impl<T> PlugType<T> for H1Weak {
    type T = RcObserver<T>;
}

impl<T> RcbSpec<T> for Rc<T> {
    open spec fn stored(&self) -> T {
        **self
    }
}

impl<T> Rcb<T> for Rc<T> {
    type Weak = RcObserver<T>;

    fn new(x: T) -> (r: Self) {
        Rc::new(x)
    }

    fn duplicate(&self) -> (r: Self) {
        rc_clone(self)
    }

    fn read(&self) -> (r: &T) {
        &**self
    }

    fn try_unwrap(this: Self) -> (r: Result<T, Self>) {
        Rc::try_unwrap(this)
    }

    fn downgrade(this: &Self) -> (w: Self::Weak) {
        let handle = rc_observer_handle(this);
        RcObserver { handle, observed: Ghost(this.stored()) }
    }
}

/// Opaque holder of a `std::rc::Weak<T>`; the surrounding [`RcObserver`]
/// carries the observed value as its model.
#[verifier::external_body]
#[verifier::reject_recursive_types(T)]
struct RcObserverHandle<T> {
    ptr: std::rc::Weak<T>,
}

/// A non-owning observer of an `Rc` allocation, created by downgrading a
/// strong handle. It records the observed value as its ghost target; only
/// downgrading constructs an observer, so the target is always the value
/// stored in the observed allocation.
#[verifier::reject_recursive_types(T)]
pub struct RcObserver<T> {
    handle: RcObserverHandle<T>,
    observed: Ghost<T>,
}

impl<T> WeakRcb<T> for RcObserver<T> {
    type Strong = Rc<T>;

    closed spec fn target(&self) -> T {
        self.observed@
    }

    fn upgrade(&self) -> (r: Option<Self::Strong>) {
        rc_observer_upgrade(self)
    }
}

/// Relies on `Rc::clone`: the new handle points to the same allocation as
/// the old, so it holds the same value.
#[verifier::external_body]
fn rc_clone<T>(rc: &Rc<T>) -> (r: Rc<T>)
    ensures
        r == **rc,
{
    Rc::clone(rc)
}

/// Relies on `std::rc::Rc::downgrade`: creates a weak pointer to this
/// allocation, which does not keep the allocation alive.
#[verifier::external_body]
fn rc_observer_handle<T>(rc: &Rc<T>) -> RcObserverHandle<T> {
    RcObserverHandle { ptr: Rc::downgrade(rc) }
}

/// Relies on `std::rc::Weak::upgrade`: while strong handles to the
/// observed allocation remain, returns a new strong handle to it, so the
/// returned handle holds the value the observer was downgraded from (an
/// observer is only ever built beside its allocation, with that value as
/// its ghost model); once the allocation is dropped, returns nothing.
#[verifier::external_body]
fn rc_observer_upgrade<T>(w: &RcObserver<T>) -> (r: Option<Rc<T>>)
    ensures
        r matches Some(s) ==> *s == w.observed@,
{
    w.handle.ptr.upgrade()
}

} // verus!
