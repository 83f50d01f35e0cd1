use rustypy::pyarg::PyArg;
use rustypy::pydict::{PyDict, PyDictK, PyDictKey};
use rustypy::pylist::PyList;
use rustypy::pystring::PyString;
use rustypy::pytuple::{pytuple_get_element, pytuple_len, pytuple_new, pytuple_push, OutOfRange, PyTuple};

#[test]
fn tuple_assembled_from_single_slots_last_to_first() {
    let mut t2 = pytuple_new(Box::new(PyArg::U8(3)));
    let mut t1 = pytuple_new(Box::new(PyArg::U8(2)));
    let mut t0 = pytuple_new(Box::new(PyArg::U8(1)));
    assert_eq!(pytuple_len(&t2), 1);
    pytuple_push(Box::new(PyTuple::new(vec![])), &mut t2);
    assert_eq!(pytuple_len(&t2), 1);
    pytuple_push(t2, &mut t1);
    pytuple_push(t1, &mut t0);
    assert_eq!(pytuple_len(&t0), 3);
    assert_eq!(PyTuple::as_ref(&t0, 2), Ok(&PyArg::U8(3)));
    t0.set_next(None);
    assert_eq!(pytuple_len(&t0), 1);
}

#[test]
fn tuple_element_copies_leave_the_tuple_intact() {
    let inner = PyList::from_vec(vec![PyArg::PyString(PyString::from("x")), PyArg::I16(-2)]);
    let t = PyTuple::new(vec![PyArg::PyList(inner.into_raw()), PyArg::F64(7)]);
    let copy = pytuple_get_element(&t, 0).unwrap();
    assert_eq!(PyTuple::as_ref(&t, 0), Ok(&*copy));
    assert_eq!(pytuple_get_element(&t, 2), Err(OutOfRange { index: 2, len: 2 }));
    let d = {
        let mut d = PyDict::new(PyDictK::I32);
        d.insert(PyArg::I32(1), PyArg::PyTuple(t.into_raw())).unwrap();
        PyArg::PyDict(d.into_raw())
    };
    assert_eq!(d.deep_clone(), d);
}

#[test]
fn mutable_access_writes_through() {
    let mut t = PyTuple::new(vec![PyArg::I64(1), PyArg::I64(2)]);
    *t.as_mut(1).unwrap() = PyArg::I64(20);
    assert_eq!(PyTuple::as_ref(&t, 1), Ok(&PyArg::I64(20)));
    assert!(t.as_mut(2).is_err());
    let mut l = PyList::from_vec(vec![PyArg::U32(5)]);
    *l.index_mut(0) = PyArg::U32(6);
    assert_eq!(l.index(0), &PyArg::U32(6));
}

#[test]
fn key_types_name_their_kind() {
    assert_eq!(<u16 as PyDictKey>::key_kind(), PyDictK::U16);
    assert_eq!(<PyString as PyDictKey>::key_kind(), PyDictK::PyString);
    let mut d = PyDict::for_key_type::<i8>();
    assert_eq!(d.key_kind(), PyDictK::I8);
    assert_eq!(d.insert((-1i8).into_key(), PyArg::Empty), Ok(None));
    assert_eq!(d.get(&PyArg::I8(-1)), Ok(Some(&PyArg::Empty)));
}
