//! Small arithmetic shared by the contracts.

use vstd::prelude::*;

verus! {

/// The smaller of two numbers.
pub open spec fn least(a: int, b: int) -> int {
    if a < b {
        a
    } else {
        b
    }
}

/// A difference that stops at zero.
pub open spec fn minus(a: int, b: int) -> int {
    if a > b {
        a - b
    } else {
        0
    }
}

/// A number, or the largest `usize` where it is beyond that.
pub open spec fn cap(n: nat) -> usize {
    if n > usize::MAX {
        usize::MAX
    } else {
        n as usize
    }
}

/// The low sixteen bits of a number.
pub open spec fn low16(n: usize) -> u16 {
    n as u16
}

} // verus!
