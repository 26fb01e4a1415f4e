use vstd::prelude::*;
use vstd::string::StringExecFns;
use crate::index::{get_pos, normalize};
use crate::object::{elems, ErrorKind, Heap, ObjRef, PyError, PyObjectKind, PyResult};

verus! {

/// `s` with the slot of logical index `i` overwritten by `v`, or `None` when
/// `i` is out of range.
pub open spec fn assigned(s: Seq<ObjRef>, i: int, v: ObjRef) -> Option<Seq<ObjRef>> {
    match normalize(i, s.len() as int) {
        Some(p) => Some(s.update(p, v)),
        None => None,
    }
}

/// The receiver is a list.
pub open spec fn is_list(ctx: &Heap, r: ObjRef) -> bool {
    ctx.obj(r) is List
}

/// `ctx` is `old_ctx` with the list `r` holding `s`, and nothing else changed.
pub open spec fn list_updated(ctx: &Heap, old_ctx: &Heap, r: ObjRef, s: Seq<ObjRef>) -> bool {
    &&& ctx@.len() == old_ctx@.len()
    &&& ctx.obj(r) is List
    &&& elems(ctx.obj(r)) == s
    &&& forall|i: int| 0 <= i < ctx@.len() && i != r.id ==> #[trigger] ctx@[i] == old_ctx@[i]
}

/// What a successful mutating method returns.
pub open spec fn returns_none(r: PyResult) -> bool {
    r matches Ok(v) && v == Heap::none_ref()
}

/// A typed failure of the given kind.
pub open spec fn fails_with(r: PyResult, kind: ErrorKind) -> bool {
    r matches Err(e) && e.kind == kind
}

/// A method invoked on a receiver that is not a list fails with a type error
/// and touches nothing.
pub open spec fn rejects_receiver(old_vm: &Heap, vm: &Heap, r: PyResult) -> bool {
    fails_with(r, ErrorKind::TypeError) && vm@ == old_vm@
}

/// What `append(list, x)` does to the heap `old_vm`, giving `vm` and `r`.
pub open spec fn append_post(old_vm: &Heap, vm: &Heap, list: ObjRef, x: ObjRef, r: PyResult) -> bool {
    if is_list(old_vm, list) {
        returns_none(r) && list_updated(vm, old_vm, list, elems(old_vm.obj(list)).push(x))
    } else {
        rejects_receiver(old_vm, vm, r)
    }
}

/// What `clear(list)` does.
pub open spec fn clear_post(old_vm: &Heap, vm: &Heap, list: ObjRef, r: PyResult) -> bool {
    if is_list(old_vm, list) {
        returns_none(r) && list_updated(vm, old_vm, list, Seq::empty())
    } else {
        rejects_receiver(old_vm, vm, r)
    }
}

/// What `len(list)` does: a fresh integer holding the element count is the
/// only change to the heap.
pub open spec fn len_post(old_vm: &Heap, vm: &Heap, list: ObjRef, r: PyResult) -> bool {
    if is_list(old_vm, list) {
        &&& r matches Ok(v) && v.id == old_vm@.len()
        &&& vm@ == old_vm@.push(
            PyObjectKind::Integer { value: elems(old_vm.obj(list)).len() as i128 },
        )
    } else {
        rejects_receiver(old_vm, vm, r)
    }
}

/// What `reverse(list)` does.
pub open spec fn reverse_post(old_vm: &Heap, vm: &Heap, list: ObjRef, r: PyResult) -> bool {
    if is_list(old_vm, list) {
        returns_none(r) && list_updated(vm, old_vm, list, elems(old_vm.obj(list)).reverse())
    } else {
        rejects_receiver(old_vm, vm, r)
    }
}

/// What `setitem(list, idx, obj)` does.
pub open spec fn setitem_post(
    old_vm: &Heap,
    vm: &Heap,
    list: ObjRef,
    idx: ObjRef,
    obj: ObjRef,
    r: PyResult,
) -> bool {
    if is_list(old_vm, list) {
        match old_vm.obj(idx) {
            PyObjectKind::Integer { value } => match assigned(
                elems(old_vm.obj(list)),
                value as int,
                obj,
            ) {
                Some(s) => returns_none(r) && list_updated(vm, old_vm, list, s),
                None => fails_with(r, ErrorKind::IndexError) && vm@ == old_vm@,
            },
            _ => fails_with(r, ErrorKind::TypeError) && vm@ == old_vm@,
        }
    } else {
        rejects_receiver(old_vm, vm, r)
    }
}

fn new_error(kind: ErrorKind, message: &str) -> (e: PyError)
    ensures
        e.kind == kind,
{
    PyError { kind, message: message.to_owned() }
}

/// The error of a method invoked on a receiver that is not a list.
fn no_list_error(method: &str) -> (e: PyError)
    ensures
        e.kind == ErrorKind::TypeError,
{
    let message = method.to_owned().concat(" is called with no list");
    PyError { kind: ErrorKind::TypeError, message }
}

fn kind_name(k: &PyObjectKind) -> &'static str {
    match k {
        PyObjectKind::PyNone => "NoneType",
        PyObjectKind::Integer { .. } => "int",
        PyObjectKind::List { .. } => "list",
    }
}

/// Item assignment on the contents `l` of a list: an integer index is
/// normalized and the slot it names is overwritten with `obj`. An index of
/// any other kind, or one out of range, leaves `l` as it was.
pub fn set_item(vm: &Heap, l: &mut Vec<ObjRef>, idx: ObjRef, obj: ObjRef) -> (r: PyResult)
    requires
        vm.valid_ref(idx),
    ensures
        match vm.obj(idx) {
            PyObjectKind::Integer { value } => match assigned(old(l)@, value as int, obj) {
                Some(s) => returns_none(r) && final(l)@ == s,
                None => fails_with(r, ErrorKind::IndexError) && *final(l) == *old(l),
            },
            _ => fails_with(r, ErrorKind::TypeError) && *final(l) == *old(l),
        },
{
    match vm.get(idx) {
        PyObjectKind::Integer { value } => {
            match get_pos(*value, l.len()) {
                Some(pos_index) => {
                    l.set(pos_index, obj);
                    Ok(vm.get_none())
                },
                None => Err(new_error(ErrorKind::IndexError, "list assignment index out of range")),
            }
        },
        other => {
            let message = "list indices must be integers, not ".to_owned().concat(kind_name(other));
            Err(PyError { kind: ErrorKind::TypeError, message })
        },
    }
}

/// Reverses `v` in place.
fn reverse_elements(v: &mut Vec<ObjRef>)
    ensures
        final(v)@ == old(v)@.reverse(),
{
    let n = v.len();
    let mut i: usize = 0;
    while i < n / 2
        invariant
            n == v@.len(),
            n == old(v)@.len(),
            i <= n / 2,
            forall|j: int|
                0 <= j < i ==> #[trigger] v@[j] == old(v)@[n - 1 - j] && v@[n - 1 - j] == old(
                    v,
                )@[j],
            forall|j: int| i <= j < n - i ==> #[trigger] v@[j] == old(v)@[j],
        decreases n / 2 - i,
    {
        let a = v[i];
        let b = v[n - 1 - i];
        v.set(i, b);
        v.set(n - 1 - i, a);
        i += 1;
    }
    assert(v@ =~= old(v)@.reverse()) by {
        assert forall|j: int| 0 <= j < n implies #[trigger] v@[j] == old(v)@[n - 1 - j] by {
            if j >= n - i {
                let k = n - 1 - j;
                assert(v@[k] == old(v)@[n - 1 - k]);
            }
        }
    }
}

/// `list.append(x)`: pushes `x` to the tail of the receiver.
pub fn append(vm: &mut Heap, list: ObjRef, x: ObjRef) -> (r: PyResult)
    requires
        old(vm).wf(),
        old(vm).valid_ref(list),
        old(vm).valid_ref(x),
    ensures
        final(vm).wf(),
        append_post(old(vm), final(vm), list, x, r),
{
    match vm.take_list(list) {
        Some(mut elements) => {
            elements.push(x);
            vm.put_list(list, elements);
            Ok(vm.get_none())
        },
        None => Err(no_list_error("list.append")),
    }
}

/// `list.clear()`: drops every slot of the receiver.
pub fn clear(vm: &mut Heap, list: ObjRef) -> (r: PyResult)
    requires
        old(vm).wf(),
        old(vm).valid_ref(list),
    ensures
        final(vm).wf(),
        clear_post(old(vm), final(vm), list, r),
{
    match vm.take_list(list) {
        Some(mut elements) => {
            elements.clear();
            vm.put_list(list, elements);
            Ok(vm.get_none())
        },
        None => Err(no_list_error("list.clear")),
    }
}

/// `list.__len__()`: a fresh integer holding the receiver's element count.
/// Every value that was on the heap stays as it was.
pub fn len(vm: &mut Heap, list: ObjRef) -> (r: PyResult)
    requires
        old(vm).wf(),
        old(vm).valid_ref(list),
    ensures
        final(vm).wf(),
        len_post(old(vm), final(vm), list, r),
{
    let n = match vm.get(list) {
        PyObjectKind::List { elements } => elements.len(),
        _ => {
            return Err(no_list_error("list.len"));
        },
    };
    Ok(vm.new_int(n as i128))
}

/// `list.reverse()`: reverses the order of the receiver's slots.
pub fn reverse(vm: &mut Heap, list: ObjRef) -> (r: PyResult)
    requires
        old(vm).wf(),
        old(vm).valid_ref(list),
    ensures
        final(vm).wf(),
        reverse_post(old(vm), final(vm), list, r),
{
    match vm.take_list(list) {
        Some(mut elements) => {
            reverse_elements(&mut elements);
            vm.put_list(list, elements);
            Ok(vm.get_none())
        },
        None => Err(no_list_error("list.reverse")),
    }
}

/// `list[idx] = obj`: item assignment on the list `list`, as `set_item`
/// describes it. A failed assignment leaves the heap as it was.
pub fn setitem(vm: &mut Heap, list: ObjRef, idx: ObjRef, obj: ObjRef) -> (r: PyResult)
    requires
        old(vm).wf(),
        old(vm).valid_ref(list),
        old(vm).valid_ref(idx),
        old(vm).valid_ref(obj),
    ensures
        final(vm).wf(),
        setitem_post(old(vm), final(vm), list, idx, obj, r),
{
    match vm.take_list(list) {
        Some(mut elements) => {
            let r = set_item(vm, &mut elements, idx, obj);
            vm.put_list(list, elements);
            assert(r is Err ==> vm@ =~= old(vm)@);
            r
        },
        None => Err(no_list_error("list.__setitem__")),
    }
}

} // verus!
