//! The handle: one non-null address of a capability object of type `T`.
use core::marker::PhantomData;
use vstd::prelude::*;
use vstd::std_specs::cmp::{PartialEqSpec, PartialOrdSpec};

use crate::hresult::HResult;

verus! {

/// A handle on a capability object of type `T`, held as its address.
///
/// The address is never zero. The handle stands for one reference-count unit
/// on the object; the object keeps the count itself.
///
/// The handle may be sent to and shared between threads only because the
/// native objects it is meant for count their references atomically: that is
/// an obligation of the caller's objects, not something the handle enforces.
#[derive(Ord)]
pub struct ComPtr<T> {
    p: usize,
    marker: PhantomData<T>,
}

impl<T> View for ComPtr<T> {
    type V = usize;

    closed spec fn view(&self) -> usize {
        self.p
    }
}

/// The handle that wrapping the address `p` gives, or the status code when
/// the native call that produced `p` reported failure with `res`.
pub open spec fn queried<U>(r: Result<ComPtr<U>, HResult>, p: usize, res: i32) -> bool {
    if res < 0 {
        r == Err::<ComPtr<U>, HResult>(HResult(res))
    } else {
        r matches Ok(h) && h@ == p
    }
}

impl<T> ComPtr<T> {
    #[verifier::type_invariant]
    spec fn non_null(&self) -> bool {
        self.p != 0
    }

    /// Wraps the address that `f` returns; the error of `f` is passed on as it is.
    ///
    /// `f` performs the native allocation and must never report success with
    /// a zero address.
    pub fn new<F, E>(f: F) -> (r: Result<ComPtr<T>, E>)
        where
            F: FnOnce() -> Result<usize, E>,
        requires
            f.requires(()),
            forall|out: Result<usize, E>| #[trigger] f.ensures((), out) ==> (out matches Ok(a) ==> a != 0),
        ensures
            exists|out: Result<usize, E>|
                {
                    &&& #[trigger] f.ensures((), out)
                    &&& match out {
                        Ok(a) => r matches Ok(h) && h@ == a,
                        Err(e) => r == Err::<ComPtr<T>, E>(e),
                    }
                },
    {
        let out = f();
        match out {
            Ok(a) => Ok(ComPtr::from_raw(a)),
            Err(e) => Err(e),
        }
    }

    /// Wraps the address `ptr`, which now owns one reference on its object.
    pub fn from_raw(ptr: usize) -> (r: ComPtr<T>)
        requires
            ptr != 0,
        ensures
            r@ == ptr,
    {
        ComPtr { p: ptr, marker: PhantomData }
    }

    /// The address held, without giving up the reference.
    #[inline]
    pub fn as_ptr(&self) -> (r: usize)
        ensures
            r == self@,
            r != 0,
    {
        proof {
            use_type_invariant(self);
        }
        self.p
    }

    /// Asks the object for the capability `U`.
    ///
    /// `query` performs the native query on the address of this handle and
    /// returns the new address with the status code. On success the new
    /// address carries a reference of its own and becomes a new handle; on
    /// failure the status code comes back and no handle is made.
    pub fn query_interface<U, F>(&self, query: F) -> (r: Result<ComPtr<U>, HResult>)
        where
            F: FnOnce(usize) -> (usize, i32),
        requires
            query.requires((self@,)),
            forall|out: (usize, i32)| #[trigger] query.ensures((self@,), out) ==> (out.1 >= 0 ==> out.0 != 0),
        ensures
            exists|out: (usize, i32)|
                #[trigger] query.ensures((self@,), out) && queried(r, out.0, out.1),
            r is Ok ==> r->Ok_0@ != 0,
    {
        let (p, res) = query(self.as_ptr());
        if res < 0 {
            Err(HResult(res))
        } else {
            Ok(ComPtr::from_raw(p))
        }
    }
}

impl<T> PartialEq for ComPtr<T> {
    fn eq(&self, other: &Self) -> (r: bool)
        ensures
            r == (self@ == other@),
    {
        self.p == other.p
    }
}

impl<T> vstd::std_specs::cmp::PartialEqSpecImpl for ComPtr<T> {
    open spec fn obeys_eq_spec() -> bool {
        true
    }

    open spec fn eq_spec(&self, other: &ComPtr<T>) -> bool {
        self@ == other@
    }
}

impl<T> Eq for ComPtr<T> {
}

/// The order of two addresses.
pub open spec fn address_order(a: usize, b: usize) -> core::cmp::Ordering {
    if a < b {
        core::cmp::Ordering::Less
    } else if a == b {
        core::cmp::Ordering::Equal
    } else {
        core::cmp::Ordering::Greater
    }
}

impl<T> PartialOrd for ComPtr<T> {
    fn partial_cmp(&self, other: &Self) -> (r: Option<core::cmp::Ordering>)
        ensures
            r == Some(address_order(self@, other@)),
    {
        if self.p < other.p {
            Some(core::cmp::Ordering::Less)
        } else if self.p == other.p {
            Some(core::cmp::Ordering::Equal)
        } else {
            Some(core::cmp::Ordering::Greater)
        }
    }
}

impl<T> vstd::std_specs::cmp::PartialOrdSpecImpl for ComPtr<T> {
    open spec fn obeys_partial_cmp_spec() -> bool {
        true
    }

    open spec fn partial_cmp_spec(&self, other: &ComPtr<T>) -> Option<core::cmp::Ordering> {
        Some(address_order(self@, other@))
    }
}

/// Handles compare by identity: equal exactly when they hold the same
/// address, and ordered as their addresses are.
pub proof fn lemma_identity_order<T>(a: ComPtr<T>, b: ComPtr<T>)
    ensures
        a.eq_spec(&b) <==> a@ == b@,
        a.partial_cmp_spec(&b) == Some(core::cmp::Ordering::Less) <==> a@ < b@,
        a.partial_cmp_spec(&b) == Some(core::cmp::Ordering::Equal) <==> a@ == b@,
        a.partial_cmp_spec(&b) == Some(core::cmp::Ordering::Greater) <==> a@ > b@,
{
}

} // verus!
