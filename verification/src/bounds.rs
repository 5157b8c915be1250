//! Clamping arithmetic shared by the models.

use vstd::prelude::*;

verus! {

/// The greater of two integers.
pub open spec fn at_least(a: int, b: int) -> int {
    if a >= b {
        a
    } else {
        b
    }
}

/// The lesser of two integers.
pub open spec fn at_most(a: int, b: int) -> int {
    if a <= b {
        a
    } else {
        b
    }
}

} // verus!
