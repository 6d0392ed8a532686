//! Cursor movement shared by the list panels.

use vstd::prelude::*;

verus! {

/// The cursor after moving up: one less, unless already at the top.
pub open spec fn step_up(idx: usize) -> usize {
    if idx > 0 {
        (idx - 1) as usize
    } else {
        idx
    }
}

/// The cursor after moving down in a list of `len` rows: one more, unless
/// already on the last row.
pub open spec fn step_down(idx: usize, len: nat) -> usize {
    if idx + 1 < len {
        (idx + 1) as usize
    } else {
        idx
    }
}

/// The cursor kept on a list of `len` rows: at most the last row, or 0
/// when the list is empty (`idx.min(len.saturating_sub(1))`).
pub open spec fn clamp(idx: usize, len: nat) -> usize {
    if len == 0 {
        0
    } else if idx < len {
        idx
    } else {
        (len - 1) as usize
    }
}

/// `idx.min(len.saturating_sub(1))`.
pub fn clamp_index(idx: usize, len: usize) -> (r: usize)
    ensures
        r == clamp(idx, len as nat),
{
    let last = if len > 0 { len - 1 } else { 0 };
    if idx < last {
        idx
    } else {
        last
    }
}

} // verus!
