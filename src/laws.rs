use vstd::prelude::*;
use crate::index::normalize;
use crate::object::ObjRef;
use crate::methods::{with_list_methods, NativeMethod};
use crate::objlist::assigned;

verus! {

/// Appending `x` makes the list one element longer and puts `x` last.
pub proof fn append_grows_by_one(s: Seq<ObjRef>, x: ObjRef)
    ensures
        s.push(x).len() == s.len() + 1,
        s.push(x).last() == x,
        s.push(x).subrange(0, s.len() as int) == s,
{
    assert(s.push(x).subrange(0, s.len() as int) =~= s);
}

/// Reversing a list twice gives back the list.
pub proof fn reverse_is_involution(s: Seq<ObjRef>)
    ensures
        s.reverse().reverse() == s,
{
    assert(s.reverse().reverse() =~= s);
}

/// Assigning at an in-range non-negative index `i` overwrites slot `i` and
/// keeps the length.
pub proof fn assign_in_range(s: Seq<ObjRef>, i: int, v: ObjRef)
    requires
        0 <= i < s.len(),
    ensures
        assigned(s, i, v) matches Some(t) && t.len() == s.len() && t[i] == v,
        assigned(s, i, v) == Some(s.update(i, v)),
{
}

/// Assigning at index `-k` is assigning at index `len - k`.
pub proof fn negative_index_counts_from_end(s: Seq<ObjRef>, k: int, v: ObjRef)
    requires
        0 < k <= s.len(),
    ensures
        assigned(s, -k, v) == assigned(s, s.len() - k, v),
        normalize(-k, s.len() as int) == Some(s.len() - k),
{
}

/// An index outside `[-len, len)` names no slot: the assignment fails.
pub proof fn out_of_range_index_fails(s: Seq<ObjRef>, i: int, v: ObjRef)
    requires
        i < -s.len() || i >= s.len(),
    ensures
        assigned(s, i, v) is None,
{
}

/// Running the bootstrap a second time binds nothing new: later bindings
/// replace earlier ones under the same name.
pub proof fn init_is_idempotent(m: Map<Seq<char>, NativeMethod>)
    ensures
        with_list_methods(with_list_methods(m)) == with_list_methods(m),
{
    assert(with_list_methods(with_list_methods(m)) =~= with_list_methods(m));
}

} // verus!
