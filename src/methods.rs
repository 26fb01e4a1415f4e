use vstd::prelude::*;
use crate::object::{ErrorKind, Heap, ObjRef, PyError, PyObjectKind, PyResult};
use crate::objlist::{
    append, append_post, clear, clear_post, fails_with, len, len_post, reverse, reverse_post,
    setitem, setitem_post,
};

verus! {

/// The native implementations that can be bound on the list type.
#[derive(Clone, Copy, Debug, PartialEq, Eq, Structural)]
pub enum NativeMethod {
    Len,
    Append,
    Clear,
    Reverse,
    SetItem,
}

/// Number of arguments a native method takes, the receiver included.
pub open spec fn arity(m: NativeMethod) -> nat {
    match m {
        NativeMethod::Append => 2,
        NativeMethod::SetItem => 3,
        _ => 1,
    }
}

/// What calling `m` on `args` does to the heap `old_vm`, giving `vm` and `r`.
pub open spec fn call_post(
    old_vm: &Heap,
    vm: &Heap,
    m: NativeMethod,
    args: Seq<ObjRef>,
    r: PyResult,
) -> bool {
    if args.len() != arity(m) {
        fails_with(r, ErrorKind::TypeError) && vm@ == old_vm@
    } else {
        match m {
            NativeMethod::Len => len_post(old_vm, vm, args[0], r),
            NativeMethod::Append => append_post(old_vm, vm, args[0], args[1], r),
            NativeMethod::Clear => clear_post(old_vm, vm, args[0], r),
            NativeMethod::Reverse => reverse_post(old_vm, vm, args[0], r),
            NativeMethod::SetItem => setitem_post(old_vm, vm, args[0], args[1], args[2], r),
        }
    }
}

/// Runs the native method `m` on the packed arguments `args`, whose first
/// element is the receiver. A wrong argument count is a type error.
pub fn call_native(vm: &mut Heap, m: NativeMethod, args: &Vec<ObjRef>) -> (r: PyResult)
    requires
        old(vm).wf(),
        old(vm).all_valid(args@),
    ensures
        final(vm).wf(),
        call_post(old(vm), final(vm), m, args@, r),
{
    let n = args.len();
    let expected: usize = match m {
        NativeMethod::Append => 2,
        NativeMethod::SetItem => 3,
        _ => 1,
    };
    if n != expected {
        return Err(PyError { kind: ErrorKind::TypeError, message: "wrong number of arguments".to_owned() });
    }
    match m {
        NativeMethod::Len => len(vm, args[0]),
        NativeMethod::Append => append(vm, args[0], args[1]),
        NativeMethod::Clear => clear(vm, args[0]),
        NativeMethod::Reverse => reverse(vm, args[0]),
        NativeMethod::SetItem => setitem(vm, args[0], args[1], args[2]),
    }
}

/// The map that a sequence of bindings denotes: a later binding of a name
/// replaces an earlier one.
pub open spec fn bindings(s: Seq<(String, NativeMethod)>) -> Map<Seq<char>, NativeMethod>
    decreases s.len(),
{
    if s.len() == 0 {
        Map::empty()
    } else {
        bindings(s.drop_last()).insert(s.last().0@, s.last().1)
    }
}

/// No name is bound twice.
pub open spec fn names_unique(s: Seq<(String, NativeMethod)>) -> bool {
    forall|i: int, j: int| 0 <= i < j < s.len() ==> #[trigger] s[i].0@ != #[trigger] s[j].0@
}

proof fn lemma_bindings_push(s: Seq<(String, NativeMethod)>, x: (String, NativeMethod))
    ensures
        bindings(s.push(x)) == bindings(s).insert(x.0@, x.1),
{
    assert(s.push(x).drop_last() =~= s);
}

proof fn lemma_bindings_absent(s: Seq<(String, NativeMethod)>, k: Seq<char>)
    requires
        forall|i: int| 0 <= i < s.len() ==> #[trigger] s[i].0@ != k,
    ensures
        !bindings(s).contains_key(k),
    decreases s.len(),
{
    if s.len() > 0 {
        assert(s.last().0@ != k);
        lemma_bindings_absent(s.drop_last(), k);
    }
}

proof fn lemma_bindings_at(s: Seq<(String, NativeMethod)>, i: int)
    requires
        names_unique(s),
        0 <= i < s.len(),
    ensures
        bindings(s).contains_key(s[i].0@),
        bindings(s)[s[i].0@] == s[i].1,
    decreases s.len(),
{
    if i < s.len() - 1 {
        assert(s[i].0@ != s[s.len() - 1].0@);
        lemma_bindings_at(s.drop_last(), i);
    }
}

proof fn lemma_bindings_update(s: Seq<(String, NativeMethod)>, j: int, x: (String, NativeMethod))
    requires
        names_unique(s),
        0 <= j < s.len(),
        s[j].0@ == x.0@,
    ensures
        bindings(s.update(j, x)) == bindings(s).insert(x.0@, x.1),
    decreases s.len(),
{
    let t = s.update(j, x);
    if j == s.len() - 1 {
        assert(t.drop_last() =~= s.drop_last());
        assert(bindings(t) =~= bindings(s).insert(x.0@, x.1));
    } else {
        assert(t.drop_last() =~= s.drop_last().update(j, x));
        lemma_bindings_update(s.drop_last(), j, x);
        assert(s.last().0@ != x.0@);
        assert(bindings(t) =~= bindings(s).insert(x.0@, x.1));
    }
}

/// The attribute surface of a type: names bound to native methods.
pub struct PyType {
    attributes: Vec<(String, NativeMethod)>,
}

impl View for PyType {
    type V = Map<Seq<char>, NativeMethod>;

    closed spec fn view(&self) -> Map<Seq<char>, NativeMethod> {
        bindings(self.attributes@)
    }
}

impl PyType {
    pub closed spec fn wf(&self) -> bool {
        names_unique(self.attributes@)
    }

    /// A type with no attribute bound.
    pub fn new() -> (t: PyType)
        ensures
            t.wf(),
            t@ == Map::<Seq<char>, NativeMethod>::empty(),
    {
        PyType { attributes: Vec::new() }
    }

    /// Binds `name` to `m`, replacing what it was bound to before.
    pub fn set_attr(&mut self, name: &str, m: NativeMethod)
        requires
            old(self).wf(),
        ensures
            final(self).wf(),
            final(self)@ == old(self)@.insert(name@, m),
    {
        let key = name.to_owned();
        let n = self.attributes.len();
        let mut i: usize = 0;
        while i < n
            invariant
                n == self.attributes@.len(),
                self == old(self),
                names_unique(self.attributes@),
                i <= n,
                key@ == name@,
                forall|j: int| 0 <= j < i ==> #[trigger] self.attributes@[j].0@ != name@,
            decreases n - i,
        {
            if self.attributes[i].0 == key {
                proof {
                    lemma_bindings_update(self.attributes@, i as int, (key, m));
                }
                self.attributes.set(i, (key, m));
                assert(names_unique(self.attributes@)) by {
                    assert forall|a: int, b: int|
                        0 <= a < b < self.attributes@.len() implies #[trigger] self.attributes@[a].0@
                        != #[trigger] self.attributes@[b].0@ by {
                        assert(old(self).attributes@[a].0@ != old(self).attributes@[b].0@);
                    }
                }
                return;
            }
            i += 1;
        }
        proof {
            lemma_bindings_push(self.attributes@, (key, m));
        }
        self.attributes.push((key, m));
        assert(names_unique(self.attributes@)) by {
            assert forall|a: int, b: int|
                0 <= a < b < self.attributes@.len() implies #[trigger] self.attributes@[a].0@
                != #[trigger] self.attributes@[b].0@ by {
                if b < n {
                    assert(old(self).attributes@[a].0@ != old(self).attributes@[b].0@);
                }
            }
        }
    }

    /// The method bound to `name`, if any.
    pub fn get_attr(&self, name: &str) -> (r: Option<NativeMethod>)
        requires
            self.wf(),
        ensures
            r == (if self@.contains_key(name@) {
                Some(self@[name@])
            } else {
                None
            }),
    {
        let key = name.to_owned();
        let n = self.attributes.len();
        let mut i: usize = 0;
        while i < n
            invariant
                n == self.attributes@.len(),
                names_unique(self.attributes@),
                i <= n,
                key@ == name@,
                forall|j: int| 0 <= j < i ==> #[trigger] self.attributes@[j].0@ != name@,
            decreases n - i,
        {
            if self.attributes[i].0 == key {
                proof {
                    lemma_bindings_at(self.attributes@, i as int);
                }
                return Some(self.attributes[i].1);
            }
            i += 1;
        }
        proof {
            lemma_bindings_absent(self.attributes@, name@);
        }
        None
    }
}

/// The state of the runtime that the list methods live in: the heap of
/// values and the list type's attribute surface.
pub struct PyContext {
    pub heap: Heap,
    pub list_type: PyType,
}

impl PyContext {
    /// A context whose heap holds only the no-value sentinel and whose list
    /// type has nothing bound yet.
    pub fn new() -> (c: PyContext)
        ensures
            c.heap.wf(),
            c.heap@ == seq![PyObjectKind::PyNone],
            c.list_type.wf(),
            c.list_type@ == Map::<Seq<char>, NativeMethod>::empty(),
    {
        PyContext { heap: Heap::new(), list_type: PyType::new() }
    }
}

/// `m` with the list methods bound, in the order in which `init` binds them.
pub open spec fn with_list_methods(m: Map<Seq<char>, NativeMethod>) -> Map<Seq<char>, NativeMethod> {
    m.insert("__len__"@, NativeMethod::Len).insert("append"@, NativeMethod::Append).insert(
        "clear"@,
        NativeMethod::Clear,
    ).insert("reverse"@, NativeMethod::Reverse).insert("__setitem__"@, NativeMethod::SetItem)
}

/// Binds the native list methods on the list type of `context`. The heap is
/// not touched.
pub fn init(context: &mut PyContext)
    requires
        old(context).list_type.wf(),
    ensures
        final(context).list_type.wf(),
        final(context).list_type@ == with_list_methods(old(context).list_type@),
        final(context).heap == old(context).heap,
{
    let list_type = &mut context.list_type;
    list_type.set_attr("__len__", NativeMethod::Len);
    list_type.set_attr("append", NativeMethod::Append);
    list_type.set_attr("clear", NativeMethod::Clear);
    list_type.set_attr("reverse", NativeMethod::Reverse);
    list_type.set_attr("__setitem__", NativeMethod::SetItem);
}

} // verus!
