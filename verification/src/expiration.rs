//! The expiration marker carried by leases, delegate approvals and operator
//! grants, together with the logical time it is compared against.

use vstd::prelude::*;

verus! {

/// The logical time at which an operation is evaluated: a block height and a
/// block timestamp (in nanoseconds). Both components are supplied once per
/// call and treated as constant throughout that call.
#[derive(Clone, Copy, Debug, PartialEq, Eq, Structural)]
pub struct BlockInfo {
    pub height: u64,
    pub time: u64,
}

/// A point in logical time after which a right lapses, or a marker that it
/// never does. Height-based and timestamp-based expirations are each compared
/// against the matching component of [`BlockInfo`].
#[derive(Clone, Copy, Debug, PartialEq, Eq, Structural)]
pub enum Expiration {
    AtHeight(u64),
    AtTime(u64),
    Never,
}

/// What [`Expiration::is_expired`] returns: the threshold has been reached or
/// passed; `Never` is never expired.
pub open spec fn spec_is_expired(e: Expiration, block: BlockInfo) -> bool {
    match e {
        Expiration::AtHeight(h) => block.height >= h,
        Expiration::AtTime(t) => block.time >= t,
        Expiration::Never => false,
    }
}

impl Expiration {
    /// True iff the comparable component of `block` has reached the threshold.
    pub fn is_expired(&self, block: &BlockInfo) -> (r: bool)
        ensures
            r == spec_is_expired(*self, *block),
    {
        match self {
            Expiration::AtHeight(h) => block.height >= *h,
            Expiration::AtTime(t) => block.time >= *t,
            Expiration::Never => false,
        }
    }
}

impl Default for Expiration {
    /// An absent expiration defaults to `Never`.
    fn default() -> (r: Self)
        ensures
            r == Expiration::Never,
    {
        Expiration::Never
    }
}

} // verus!
