//! Extension traits.

use vstd::prelude::*;

verus! {

/// A value with a distinguished null sentinel.
pub trait IsNull {
    /// Whether this value is the null sentinel.
    spec fn spec_is_null(&self) -> bool;

    /// Decide whether this value is the null sentinel.
    fn is_null(&self) -> (b: bool)
        ensures
            b == self.spec_is_null(),
    ;
}

/// A guest address on the wire: the alloc hook returns 0 for a failed
/// allocation, since rich error types cannot cross the boundary.
impl IsNull for u32 {
    open spec fn spec_is_null(&self) -> bool {
        *self == 0
    }

    fn is_null(&self) -> (b: bool) {
        *self == 0
    }
}

} // verus!
