//! The reference count that a capability object keeps for itself.
//!
//! The count lives with the object, not with the handles: each live handle
//! holds one unit of it, cloning a handle adds one, and releasing a handle
//! takes one away. The object frees itself when the count reaches zero.
use vstd::prelude::*;

use crate::com_ptr::ComPtr;

verus! {

/// The count after `k` releases of an object that held `count` references.
pub open spec fn after_releases(count: nat, k: nat) -> nat
    decreases k,
{
    if k == 0 || count == 0 {
        count
    } else {
        after_releases((count - 1) as nat, (k - 1) as nat)
    }
}

/// The reference count of the object at one address.
pub struct RefCount {
    addr: usize,
    count: u32,
}

impl RefCount {
    /// The address of the object counted.
    pub closed spec fn addr_spec(&self) -> usize {
        self.addr
    }

    /// The number of references held out.
    pub closed spec fn count_spec(&self) -> nat {
        self.count as nat
    }

    /// A new object at `addr` with one reference, held by the returned handle.
    pub fn create<T>(addr: usize) -> (r: (RefCount, ComPtr<T>))
        requires
            addr != 0,
        ensures
            r.0.addr_spec() == addr,
            r.0.count_spec() == 1,
            r.1@ == addr,
    {
        (RefCount { addr, count: 1 }, ComPtr::from_raw(addr))
    }

    /// The address of the object counted.
    pub fn addr(&self) -> (r: usize)
        ensures
            r == self.addr_spec(),
    {
        self.addr
    }

    /// The number of references held out.
    pub fn count(&self) -> (r: u32)
        ensures
            r == self.count_spec(),
    {
        self.count
    }

    /// Whether the last reference was released, so that the object is gone.
    pub fn is_freed(&self) -> (r: bool)
        ensures
            r == (self.count_spec() == 0),
    {
        self.count == 0
    }

    /// Clones `h`: one more reference on the object, and a second handle
    /// on the same address.
    pub fn add_ref<T>(&mut self, h: &ComPtr<T>) -> (r: ComPtr<T>)
        requires
            old(self).addr_spec() == h@,
            old(self).count_spec() < u32::MAX,
        ensures
            final(self).addr_spec() == old(self).addr_spec(),
            final(self).count_spec() == old(self).count_spec() + 1,
            r@ == h@,
    {
        self.count = self.count + 1;
        ComPtr::from_raw(h.as_ptr())
    }

    /// Releases `h`, which is consumed and so can give back its reference
    /// only once. Returns whether that was the last reference.
    pub fn release<T>(&mut self, h: ComPtr<T>) -> (freed: bool)
        requires
            old(self).addr_spec() == h@,
            old(self).count_spec() > 0,
        ensures
            final(self).addr_spec() == old(self).addr_spec(),
            final(self).count_spec() == after_releases(old(self).count_spec(), 1),
            final(self).count_spec() == old(self).count_spec() - 1,
            freed == (final(self).count_spec() == 0),
    {
        self.count = self.count - 1;
        proof {
            reveal_with_fuel(after_releases, 2);
        }
        self.count == 0
    }
}

/// Releasing the handles of an object one by one takes exactly one
/// reference each time: after `k` of its `n` references are released,
/// `n - k` remain, and the count reaches zero on the last release and on
/// no earlier one.
pub proof fn lemma_release_all(n: nat, k: nat)
    requires
        k <= n,
    ensures
        after_releases(n, k) == n - k,
        after_releases(n, k) == 0 <==> k == n,
    decreases k,
{
    if k > 0 {
        lemma_release_all((n - 1) as nat, (k - 1) as nat);
    }
}

} // verus!
