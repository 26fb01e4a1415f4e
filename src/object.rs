use vstd::prelude::*;

verus! {

/// A handle on a heap value of a `Heap`. Handles are shared freely:
/// two holders of one handle see the same value, and a mutation made through
/// one of them is seen through the other.
#[derive(Clone, Copy, Debug, PartialEq, Eq, Structural)]
pub struct ObjRef {
    pub id: usize,
}

/// The payload of a heap value.
#[derive(Debug)]
pub enum PyObjectKind {
    PyNone,
    Integer { value: i128 },
    List { elements: Vec<ObjRef> },
}

/// The kind of a failure that a native method reports to the evaluator.
#[derive(Clone, Copy, Debug, PartialEq, Eq, Structural)]
pub enum ErrorKind {
    TypeError,
    IndexError,
}

/// A recoverable, typed failure of a native method.
#[derive(Debug)]
pub struct PyError {
    pub kind: ErrorKind,
    pub message: String,
}

pub type PyResult = Result<ObjRef, PyError>;

/// The contents of a list value, or the empty sequence for any other kind.
pub open spec fn elems(k: PyObjectKind) -> Seq<ObjRef> {
    match k {
        PyObjectKind::List { elements } => elements@,
        _ => Seq::empty(),
    }
}

/// The heap of values, an arena addressed by `ObjRef`. Slot 0 holds the
/// no-value sentinel.
pub struct Heap {
    objects: Vec<PyObjectKind>,
}

impl View for Heap {
    type V = Seq<PyObjectKind>;

    closed spec fn view(&self) -> Seq<PyObjectKind> {
        self.objects@
    }
}

impl Heap {
    pub open spec fn valid_ref(&self, r: ObjRef) -> bool {
        r.id < self@.len()
    }

    pub open spec fn all_valid(&self, s: Seq<ObjRef>) -> bool {
        forall|j: int| 0 <= j < s.len() ==> self.valid_ref(#[trigger] s[j])
    }

    /// The value that `r` designates.
    pub open spec fn obj(&self, r: ObjRef) -> PyObjectKind {
        self@[r.id as int]
    }

    /// The sentinel sits in slot 0, and every handle held by a list designates
    /// a value of this heap.
    pub open spec fn wf(&self) -> bool {
        &&& self@.len() > 0
        &&& self@[0] is PyNone
        &&& forall|i: int|
            0 <= i < self@.len() ==> self.all_valid(#[trigger] elems(self@[i]))
    }

    pub open spec fn none_ref() -> ObjRef {
        ObjRef { id: 0 }
    }

    pub fn new() -> (ctx: Heap)
        ensures
            ctx.wf(),
            ctx@ == seq![PyObjectKind::PyNone],
    {
        let mut objects: Vec<PyObjectKind> = Vec::new();
        objects.push(PyObjectKind::PyNone);
        let ctx = Heap { objects };
        assert(ctx@ =~= seq![PyObjectKind::PyNone]);
        ctx
    }

    /// The canonical "nothing returned" value.
    pub fn get_none(&self) -> (r: ObjRef)
        ensures
            r == Self::none_ref(),
    {
        ObjRef { id: 0 }
    }

    fn allocate(&mut self, k: PyObjectKind) -> (r: ObjRef)
        requires
            old(self).wf(),
            old(self).all_valid(elems(k)),
        ensures
            final(self).wf(),
            final(self)@ == old(self)@.push(k),
            r.id == old(self)@.len(),
    {
        let id = self.objects.len();
        self.objects.push(k);
        proof {
            assert forall|i: int| 0 <= i < self@.len() implies self.all_valid(
                #[trigger] elems(self@[i]),
            ) by {
                if i < id {
                    assert(old(self).all_valid(elems(old(self)@[i])));
                }
            }
        }
        ObjRef { id }
    }

    /// A fresh integer value.
    pub fn new_int(&mut self, value: i128) -> (r: ObjRef)
        requires
            old(self).wf(),
        ensures
            final(self).wf(),
            final(self)@ == old(self)@.push(PyObjectKind::Integer { value }),
            r.id == old(self)@.len(),
    {
        self.allocate(PyObjectKind::Integer { value })
    }

    /// A fresh list value holding `elements` in order.
    pub fn new_list(&mut self, elements: Vec<ObjRef>) -> (r: ObjRef)
        requires
            old(self).wf(),
            old(self).all_valid(elements@),
        ensures
            final(self).wf(),
            final(self)@ == old(self)@.push(PyObjectKind::List { elements }),
            r.id == old(self)@.len(),
    {
        self.allocate(PyObjectKind::List { elements })
    }

    /// The value that `r` designates.
    pub fn get(&self, r: ObjRef) -> (k: &PyObjectKind)
        requires
            self.valid_ref(r),
        ensures
            *k == self.obj(r),
    {
        &self.objects[r.id]
    }

    /// Moves the contents out of the list `r`, leaving the no-value sentinel in
    /// its slot until `put_list` puts them back; a value of another kind is
    /// left in place.
    pub(crate) fn take_list(&mut self, r: ObjRef) -> (e: Option<Vec<ObjRef>>)
        requires
            old(self).wf(),
            old(self).valid_ref(r),
        ensures
            final(self).wf(),
            old(self).obj(r) is List ==> {
                &&& e matches Some(v) && old(self).obj(r) == (PyObjectKind::List { elements: v })
                &&& r.id != 0
                &&& old(self).all_valid(elems(old(self).obj(r)))
                &&& final(self)@ == old(self)@.update(r.id as int, PyObjectKind::PyNone)
            },
            !(old(self).obj(r) is List) ==> e is None && final(self)@ == old(self)@,
    {
        if let PyObjectKind::List { .. } = &self.objects[r.id] {
            let mut k = PyObjectKind::PyNone;
            self.objects.set_and_swap(r.id, &mut k);
            proof {
                assert forall|i: int| 0 <= i < self@.len() implies self.all_valid(
                    #[trigger] elems(self@[i]),
                ) by {
                    if i != r.id {
                        assert(old(self).all_valid(elems(old(self)@[i])));
                    }
                }
            }
            match k {
                PyObjectKind::List { elements } => Some(elements),
                _ => None,
            }
        } else {
            None
        }
    }

    /// Makes `r` a list holding `elements`.
    pub(crate) fn put_list(&mut self, r: ObjRef, elements: Vec<ObjRef>)
        requires
            old(self).wf(),
            old(self).valid_ref(r),
            r.id != 0,
            old(self).all_valid(elements@),
        ensures
            final(self).wf(),
            final(self)@ == old(self)@.update(r.id as int, PyObjectKind::List { elements }),
    {
        self.objects.set(r.id, PyObjectKind::List { elements });
        proof {
            assert forall|i: int| 0 <= i < self@.len() implies self.all_valid(
                #[trigger] elems(self@[i]),
            ) by {
                if i != r.id {
                    assert(old(self).all_valid(elems(old(self)@[i])));
                }
            }
        }
    }
}

} // verus!
