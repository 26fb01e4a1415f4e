use pylist::index::get_pos;
use pylist::methods::{call_native, NativeMethod, PyType};
use pylist::object::{ErrorKind, Heap, ObjRef, PyObjectKind, PyResult};
use pylist::objlist::{append, clear, len, reverse, setitem};
use pylist::{init, set_item, PyContext};

fn int_of(heap: &Heap, r: ObjRef) -> i128 {
    match heap.get(r) {
        PyObjectKind::Integer { value } => *value,
        other => panic!("not an integer: {:?}", other),
    }
}

fn ints_of(heap: &Heap, list: ObjRef) -> Vec<i128> {
    match heap.get(list) {
        PyObjectKind::List { elements } => elements.iter().map(|r| int_of(heap, *r)).collect(),
        other => panic!("not a list: {:?}", other),
    }
}

fn int_list(heap: &mut Heap, values: &[i128]) -> ObjRef {
    let mut elements = Vec::new();
    for v in values {
        elements.push(heap.new_int(*v));
    }
    heap.new_list(elements)
}

fn error_kind(r: &PyResult) -> ErrorKind {
    match r {
        Err(e) => e.kind,
        Ok(_) => panic!("expected a failure"),
    }
}

#[test]
fn end_to_end_scenario() {
    let mut heap = Heap::new();
    let l = int_list(&mut heap, &[1, 2, 3]);
    let four = heap.new_int(4);
    assert_eq!(append(&mut heap, l, four).unwrap(), heap.get_none());
    assert_eq!(ints_of(&heap, l), vec![1, 2, 3, 4]);
    let minus_one = heap.new_int(-1);
    let nine = heap.new_int(9);
    assert_eq!(setitem(&mut heap, l, minus_one, nine).unwrap(), heap.get_none());
    assert_eq!(ints_of(&heap, l), vec![1, 2, 3, 9]);
    assert_eq!(reverse(&mut heap, l).unwrap(), heap.get_none());
    assert_eq!(ints_of(&heap, l), vec![9, 3, 2, 1]);
    let n = len(&mut heap, l).unwrap();
    assert_eq!(int_of(&heap, n), 4);
    assert_eq!(clear(&mut heap, l).unwrap(), heap.get_none());
    assert_eq!(ints_of(&heap, l), Vec::<i128>::new());
}

#[test]
fn append_puts_value_last() {
    let mut heap = Heap::new();
    let l = int_list(&mut heap, &[]);
    let x = heap.new_int(7);
    append(&mut heap, l, x).unwrap();
    assert_eq!(ints_of(&heap, l), vec![7]);
    let y = heap.new_int(8);
    append(&mut heap, l, y).unwrap();
    assert_eq!(ints_of(&heap, l), vec![7, 8]);
    let n = len(&mut heap, l).unwrap();
    assert_eq!(int_of(&heap, n), 2);
}

#[test]
fn append_of_list_to_itself_aliases() {
    let mut heap = Heap::new();
    let l = int_list(&mut heap, &[1]);
    append(&mut heap, l, l).unwrap();
    match heap.get(l) {
        PyObjectKind::List { elements } => assert_eq!(elements.len(), 2),
        _ => panic!("not a list"),
    }
}

#[test]
fn clear_empties_list() {
    let mut heap = Heap::new();
    let l = int_list(&mut heap, &[1, 2, 3]);
    clear(&mut heap, l).unwrap();
    let n = len(&mut heap, l).unwrap();
    assert_eq!(int_of(&heap, n), 0);
    clear(&mut heap, l).unwrap();
    assert_eq!(ints_of(&heap, l), Vec::<i128>::new());
}

#[test]
fn clear_keeps_shared_elements_alive() {
    let mut heap = Heap::new();
    let x = heap.new_int(5);
    let l = heap.new_list(vec![x, x]);
    clear(&mut heap, l).unwrap();
    assert_eq!(int_of(&heap, x), 5);
}

#[test]
fn reverse_twice_restores_list() {
    let mut heap = Heap::new();
    let l = int_list(&mut heap, &[1, 2, 3, 4, 5]);
    reverse(&mut heap, l).unwrap();
    assert_eq!(ints_of(&heap, l), vec![5, 4, 3, 2, 1]);
    reverse(&mut heap, l).unwrap();
    assert_eq!(ints_of(&heap, l), vec![1, 2, 3, 4, 5]);
}

#[test]
fn reverse_empty_and_even_lists() {
    let mut heap = Heap::new();
    let e = int_list(&mut heap, &[]);
    reverse(&mut heap, e).unwrap();
    assert_eq!(ints_of(&heap, e), Vec::<i128>::new());
    let l = int_list(&mut heap, &[1, 2, 3, 4]);
    reverse(&mut heap, l).unwrap();
    assert_eq!(ints_of(&heap, l), vec![4, 3, 2, 1]);
}

#[test]
fn len_does_not_change_list() {
    let mut heap = Heap::new();
    let l = int_list(&mut heap, &[4, 5, 6]);
    let first = len(&mut heap, l).unwrap();
    let second = len(&mut heap, l).unwrap();
    assert_ne!(first, second);
    assert_eq!(int_of(&heap, first), 3);
    assert_eq!(int_of(&heap, second), 3);
    assert_eq!(ints_of(&heap, l), vec![4, 5, 6]);
}

#[test]
fn set_item_non_negative_index() {
    let mut heap = Heap::new();
    let l = int_list(&mut heap, &[1, 2, 3]);
    let zero = heap.new_int(0);
    let two = heap.new_int(2);
    let v = heap.new_int(42);
    setitem(&mut heap, l, zero, v).unwrap();
    assert_eq!(ints_of(&heap, l), vec![42, 2, 3]);
    setitem(&mut heap, l, two, v).unwrap();
    assert_eq!(ints_of(&heap, l), vec![42, 2, 42]);
}

#[test]
fn set_item_negative_index_counts_from_end() {
    let mut heap = Heap::new();
    let a = int_list(&mut heap, &[1, 2, 3]);
    let b = int_list(&mut heap, &[1, 2, 3]);
    let minus_three = heap.new_int(-3);
    let zero = heap.new_int(0);
    let v = heap.new_int(10);
    setitem(&mut heap, a, minus_three, v).unwrap();
    setitem(&mut heap, b, zero, v).unwrap();
    assert_eq!(ints_of(&heap, a), vec![10, 2, 3]);
    assert_eq!(ints_of(&heap, a), ints_of(&heap, b));
}

#[test]
fn set_item_out_of_range_is_index_error() {
    let mut heap = Heap::new();
    let l = int_list(&mut heap, &[1, 2, 3]);
    let v = heap.new_int(0);
    for i in [3, 4, -4, i128::MAX, i128::MIN] {
        let idx = heap.new_int(i);
        let r = setitem(&mut heap, l, idx, v);
        assert_eq!(error_kind(&r), ErrorKind::IndexError);
        assert_eq!(ints_of(&heap, l), vec![1, 2, 3]);
    }
    let empty = int_list(&mut heap, &[]);
    let zero = heap.new_int(0);
    assert_eq!(error_kind(&setitem(&mut heap, empty, zero, v)), ErrorKind::IndexError);
}

#[test]
fn set_item_non_integer_index_is_type_error() {
    let mut heap = Heap::new();
    let l = int_list(&mut heap, &[1, 2, 3]);
    let v = heap.new_int(0);
    let none = heap.get_none();
    assert_eq!(error_kind(&setitem(&mut heap, l, none, v)), ErrorKind::TypeError);
    assert_eq!(error_kind(&setitem(&mut heap, l, l, v)), ErrorKind::TypeError);
    let other = int_list(&mut heap, &[0]);
    let r = setitem(&mut heap, l, other, v);
    assert_eq!(error_kind(&r), ErrorKind::TypeError);
    match r {
        Err(e) => assert_eq!(e.message, "list indices must be integers, not list"),
        Ok(_) => panic!("expected a failure"),
    }
    assert_eq!(ints_of(&heap, l), vec![1, 2, 3]);
}

#[test]
fn set_item_on_plain_vector() {
    let mut heap = Heap::new();
    let a = heap.new_int(1);
    let b = heap.new_int(2);
    let idx = heap.new_int(-1);
    let mut l = vec![a, a, a];
    assert_eq!(set_item(&heap, &mut l, idx, b).unwrap(), heap.get_none());
    assert_eq!(l, vec![a, a, b]);
    let far = heap.new_int(3);
    let r = set_item(&heap, &mut l, far, b);
    assert_eq!(error_kind(&r), ErrorKind::IndexError);
    assert_eq!(l, vec![a, a, b]);
    let none = heap.get_none();
    let r = set_item(&heap, &mut l, none, b);
    assert_eq!(error_kind(&r), ErrorKind::TypeError);
    match r {
        Err(e) => assert_eq!(e.message, "list indices must be integers, not NoneType"),
        Ok(_) => panic!("expected a failure"),
    }
    assert_eq!(l, vec![a, a, b]);
}

#[test]
fn methods_reject_non_list_receiver() {
    let mut heap = Heap::new();
    let x = heap.new_int(3);
    let none = heap.get_none();
    let r = append(&mut heap, x, none);
    assert_eq!(error_kind(&r), ErrorKind::TypeError);
    match r {
        Err(e) => assert_eq!(e.message, "list.append is called with no list"),
        Ok(_) => panic!("expected a failure"),
    }
    assert_eq!(error_kind(&clear(&mut heap, x)), ErrorKind::TypeError);
    assert_eq!(error_kind(&len(&mut heap, none)), ErrorKind::TypeError);
    assert_eq!(error_kind(&reverse(&mut heap, x)), ErrorKind::TypeError);
    assert_eq!(error_kind(&setitem(&mut heap, x, x, x)), ErrorKind::TypeError);
    assert_eq!(int_of(&heap, x), 3);
}

#[test]
fn get_pos_normalizes_indices() {
    assert_eq!(get_pos(0, 3), Some(0));
    assert_eq!(get_pos(2, 3), Some(2));
    assert_eq!(get_pos(-1, 3), Some(2));
    assert_eq!(get_pos(-3, 3), Some(0));
    assert_eq!(get_pos(3, 3), None);
    assert_eq!(get_pos(-4, 3), None);
    assert_eq!(get_pos(0, 0), None);
    assert_eq!(get_pos(-1, 0), None);
    assert_eq!(get_pos(i128::MIN, usize::MAX), None);
    assert_eq!(get_pos(-1, usize::MAX), Some(usize::MAX - 1));
}

#[test]
fn init_binds_list_methods() {
    let mut c = PyContext::new();
    assert_eq!(c.list_type.get_attr("append"), None);
    init(&mut c);
    assert_eq!(c.list_type.get_attr("__len__"), Some(NativeMethod::Len));
    assert_eq!(c.list_type.get_attr("append"), Some(NativeMethod::Append));
    assert_eq!(c.list_type.get_attr("clear"), Some(NativeMethod::Clear));
    assert_eq!(c.list_type.get_attr("reverse"), Some(NativeMethod::Reverse));
    assert_eq!(c.list_type.get_attr("__setitem__"), Some(NativeMethod::SetItem));
    assert_eq!(c.list_type.get_attr("pop"), None);
    init(&mut c);
    assert_eq!(c.list_type.get_attr("append"), Some(NativeMethod::Append));
}

#[test]
fn set_attr_replaces_binding() {
    let mut t = PyType::new();
    t.set_attr("f", NativeMethod::Len);
    t.set_attr("g", NativeMethod::Clear);
    t.set_attr("f", NativeMethod::Reverse);
    assert_eq!(t.get_attr("f"), Some(NativeMethod::Reverse));
    assert_eq!(t.get_attr("g"), Some(NativeMethod::Clear));
}

#[test]
fn call_native_dispatches_bound_method() {
    let mut c = PyContext::new();
    init(&mut c);
    let l = int_list(&mut c.heap, &[1, 2]);
    let x = c.heap.new_int(3);
    let m = c.list_type.get_attr("append").unwrap();
    call_native(&mut c.heap, m, &vec![l, x]).unwrap();
    assert_eq!(ints_of(&c.heap, l), vec![1, 2, 3]);
    let m = c.list_type.get_attr("__setitem__").unwrap();
    let idx = c.heap.new_int(-2);
    call_native(&mut c.heap, m, &vec![l, idx, x]).unwrap();
    assert_eq!(ints_of(&c.heap, l), vec![1, 3, 3]);
    let m = c.list_type.get_attr("__len__").unwrap();
    let n = call_native(&mut c.heap, m, &vec![l]).unwrap();
    assert_eq!(int_of(&c.heap, n), 3);
}

#[test]
fn call_native_wrong_arity_is_type_error() {
    let mut heap = Heap::new();
    let l = int_list(&mut heap, &[1]);
    let r = call_native(&mut heap, NativeMethod::Append, &vec![l]);
    assert_eq!(error_kind(&r), ErrorKind::TypeError);
    let r = call_native(&mut heap, NativeMethod::Clear, &vec![l, l]);
    assert_eq!(error_kind(&r), ErrorKind::TypeError);
    assert_eq!(ints_of(&heap, l), vec![1]);
}
