//! Status codes: negative means failure, anything else success.
use vstd::prelude::*;

verus! {

/// A status code returned by a native call.
#[derive(Clone, Copy, PartialEq, Eq, Structural, PartialOrd, Ord, Hash, Debug)]
pub struct HResult(pub i32);

impl HResult {
    /// Whether the code reports success, that is, is not negative.
    pub open spec fn succeeded(self) -> bool {
        self.0 >= 0
    }

    /// Whether the code reports success.
    #[inline]
    pub fn is_succeed(&self) -> (r: bool)
        ensures
            r == self.succeeded(),
    {
        self.0 >= 0
    }

    /// Whether the code reports failure.
    #[inline]
    pub fn is_failed(&self) -> (r: bool)
        ensures
            r == !self.succeeded(),
    {
        self.0 < 0
    }

    /// The raw code.
    #[inline]
    pub fn code(&self) -> (r: i32)
        ensures
            r == self.0,
    {
        self.0
    }
}

/// What a native call's outcome means: `obj` when `res` reports success,
/// the status code otherwise.
pub open spec fn translated<T>(obj: T, res: i32) -> Result<T, HResult> {
    if res < 0 {
        Err(HResult(res))
    } else {
        Ok(obj)
    }
}

/// Returns `obj` when `res` reports success; otherwise the status code as an error.
pub fn hresult<T>(obj: T, res: i32) -> (r: Result<T, HResult>)
    ensures
        r == translated(obj, res),
        r is Ok <==> res >= 0,
        r matches Err(e) ==> e.0 == res && !e.succeeded(),
{
    if res < 0 {
        Err(HResult(res))
    } else {
        Ok(obj)
    }
}

} // verus!
