//! The terminal's size as a window-size query reports it.
use vstd::prelude::*;

verus! {

/// The (rows, columns) of a window-size query, given its status and the
/// rows and columns it filled in: the pair when the status is zero, which
/// is success, and `None` otherwise. Pixel sizes play no part.
pub fn size(status: i32, rows: u16, cols: u16) -> (r: Option<(u16, u16)>)
    ensures
        r == (if status == 0 { Some((rows, cols)) } else { None::<(u16, u16)> }),
{
    if status == 0 {
        Some((rows, cols))
    } else {
        None
    }
}

} // verus!
