use vstd::prelude::*;

verus! {

/// Physical position of the logical index `i` in a sequence of length `n`:
/// a non-negative index counts from the front, a negative one from the end.
/// `None` when the position falls outside `[0, n)`.
pub open spec fn normalize(i: int, n: int) -> Option<int> {
    let p = if i >= 0 { i } else { n + i };
    if 0 <= p && p < n { Some(p) } else { None }
}

/// Converts a signed index into a position of a sequence of length `n`,
/// never clamping or wrapping past the valid range.
pub fn get_pos(i: i128, n: usize) -> (r: Option<usize>)
    ensures
        r matches Some(p) ==> normalize(i as int, n as int) == Some(p as int),
        r is None ==> normalize(i as int, n as int) is None,
{
    let len = n as i128;
    let p: i128 = if i >= 0 { i } else { len + i };
    if 0 <= p && p < len {
        Some(p as usize)
    } else {
        None
    }
}

} // verus!
