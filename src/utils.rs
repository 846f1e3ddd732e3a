use vstd::prelude::*;

verus! {

/// Reads the keyboard-style pair of opposite controls as one axis:
/// `1` when only the first is held, `-1` when only the second is, `0` otherwise.
pub fn movement_axis(first: bool, second: bool) -> (r: i32)
    ensures
        r == (if first && !second { 1int } else if second && !first { -1int } else { 0int }),
{
    if first && !second {
        1
    } else if second && !first {
        -1
    } else {
        0
    }
}

} // verus!
