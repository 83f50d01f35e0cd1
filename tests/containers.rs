use rustypy::pyarg::{
    pyarg_extract_owned_bool, pyarg_extract_owned_dict, pyarg_extract_owned_double,
    pyarg_extract_owned_float, pyarg_extract_owned_list, pyarg_extract_owned_str,
    pyarg_extract_owned_tuple, pyarg_from_bool, pyarg_from_double, pyarg_from_float,
    pyarg_from_int, pyarg_from_str, pyarg_from_ulonglong, ArgKind, Mismatch, PyArg,
};
use rustypy::pybool::{pybool_get_val, pybool_new, PyBool};
use rustypy::pydict::{
    pydict_get_element, pydict_get_kv, pydict_insert, pydict_new, DictError, PyDict, PyDictK,
    PyDictPair,
};
use rustypy::pylist::{pylist_get_element, pylist_len, pylist_new, pylist_push, PyList};
use rustypy::pystring::PyString;
use rustypy::pytuple::PyTuple;

#[test]
fn pybool_logic_against_native_booleans() {
    let t = PyBool::from(true);
    let f = PyBool::from(false);
    assert!(t.to_bool());
    assert!(!f.to_bool());
    assert!(!t.not());
    assert!(f.not());
    assert!(t.bitand(true));
    assert!(!t.bitand(false));
    assert!(f.bitor(true));
    assert!(!f.bitor(false));
    assert!(t.eq_bool(true));
    assert!(!t.eq_bool(false));
}

#[test]
fn pybool_flag_bytes_are_normalised() {
    let b = pybool_new(5);
    assert!(b.to_bool());
    assert_eq!(pybool_get_val(&b), 1);
    let b = pybool_new(0);
    assert_eq!(pybool_get_val(&b), 0);
    let mut c = PyBool::from_flag(-3);
    assert_eq!(c.flag(), 1);
    c.load(false);
    assert_eq!(c.flag(), 0);
    assert!(!PyBool::from_ptr_into_bool(&c));
    assert_eq!(PyBool::from_ptr(c.as_ptr()), c);
}

#[test]
fn list_push_pop_remove() {
    let mut l = PyList::new();
    assert!(l.is_empty());
    assert_eq!(l.pop(), None);
    l.push(PyArg::I64(1));
    l.push(PyArg::I64(2));
    l.push(PyArg::I64(3));
    assert_eq!(l.len(), 3);
    assert_eq!(l.remove(0), PyArg::I64(1));
    assert_eq!(l.index(0), &PyArg::I64(2));
    assert_eq!(l.pop(), Some(PyArg::I64(3)));
    assert_eq!(l.into_vec(), vec![PyArg::I64(2)]);
}

#[test]
fn list_boundary_operations() {
    let mut l = pylist_new(4);
    assert_eq!(pylist_len(&l), 0);
    pylist_push(&mut l, pyarg_from_int(10));
    pylist_push(&mut l, pyarg_from_str("b"));
    assert_eq!(pylist_len(&l), 2);
    assert_eq!(*pylist_get_element(&mut l, 1), PyArg::PyString(PyString::from("b")));
    assert_eq!(pylist_len(&l), 1);
    assert_eq!(*pylist_get_element(&mut l, 0), PyArg::I64(10));
}

#[test]
fn dict_insert_get_remove() {
    let mut d = PyDict::new(PyDictK::PyString);
    let k = || PyArg::PyString(PyString::from("a"));
    assert_eq!(d.insert(k(), PyArg::I64(1)), Ok(None));
    assert_eq!(d.insert(k(), PyArg::I64(2)), Ok(Some(PyArg::I64(1))));
    assert_eq!(d.len(), 1);
    assert_eq!(d.get(&k()), Ok(Some(&PyArg::I64(2))));
    assert_eq!(d.get(&PyArg::PyString(PyString::from("z"))), Ok(None));
    assert_eq!(
        d.insert(PyArg::I64(3), PyArg::I64(3)),
        Err(Mismatch { expected: ArgKind::PyString, found: ArgKind::I64 })
    );
    assert_eq!(d.remove(&k()), Ok(Some(PyArg::I64(2))));
    assert_eq!(d.remove(&k()), Ok(None));
    assert_eq!(d.len(), 0);
}

#[test]
fn dict_boundary_operations_check_the_tag() {
    let mut d = pydict_new(&PyDictK::U8);
    assert_eq!(d.key_kind(), PyDictK::U8);
    assert_eq!(
        pydict_insert(&mut d, &PyDictK::I8, Box::new(PyArg::U8(1)), Box::new(PyArg::I64(1))),
        Err(DictError::WrongTag { expected: PyDictK::U8, found: PyDictK::I8 })
    );
    assert_eq!(
        pydict_insert(&mut d, &PyDictK::U8, Box::new(PyArg::I8(1)), Box::new(PyArg::I64(1))),
        Err(DictError::WrongKey(Mismatch { expected: ArgKind::U8, found: ArgKind::I8 }))
    );
    assert_eq!(pydict_insert(&mut d, &PyDictK::U8, Box::new(PyArg::U8(1)), Box::new(PyArg::I64(7))), Ok(()));
    assert_eq!(pydict_get_element(&d, &PyDictK::U8, &PyArg::U8(1)), Ok(Some(&PyArg::I64(7))));
    assert_eq!(pydict_get_element(&d, &PyDictK::U8, &PyArg::U8(2)), Ok(None));
    assert_eq!(d.len(), 1);
}

#[test]
fn dict_pair_halves_are_taken_once() {
    let mut p = *PyDictPair::kv_return_tuple(PyArg::U16(4), PyArg::PyBool(PyBool::from(true)));
    assert_eq!(*pydict_get_kv(0, &mut p), PyArg::U16(4));
    assert_eq!(p.key, PyArg::Empty);
    assert_eq!(*pydict_get_kv(1, &mut p), PyArg::PyBool(PyBool::from(true)));
    assert_eq!(p.val, PyArg::Empty);
}

#[test]
fn boundary_extraction_checks_the_variant() {
    assert_eq!(pyarg_extract_owned_float(pyarg_from_float(2.5f32.to_bits())), Ok(2.5f32.to_bits()));
    assert_eq!(pyarg_extract_owned_double(pyarg_from_double(2.5f64.to_bits())), Ok(2.5f64.to_bits()));
    assert_eq!(
        pyarg_extract_owned_double(pyarg_from_float(0)),
        Err(Mismatch { expected: ArgKind::F64, found: ArgKind::F32 })
    );
    assert!(pyarg_extract_owned_bool(pyarg_from_bool(3)).unwrap().to_bool());
    assert_eq!(
        pyarg_extract_owned_bool(pyarg_from_ulonglong(1)).unwrap_err(),
        Mismatch { expected: ArgKind::PyBool, found: ArgKind::U64 }
    );
    assert_eq!(pyarg_extract_owned_str(pyarg_from_str("hi")).unwrap().to_string(), "hi");
    assert_eq!(
        pyarg_extract_owned_str(pyarg_from_int(1)).unwrap_err(),
        Mismatch { expected: ArgKind::PyString, found: ArgKind::I64 }
    );
    let t = PyArg::PyTuple(PyTuple::new(vec![PyArg::I8(1)]).into_raw());
    assert_eq!(pyarg_extract_owned_tuple(Box::new(t)).unwrap().len(), 1);
    assert_eq!(
        pyarg_extract_owned_list(Box::new(PyArg::Empty)).unwrap_err(),
        Mismatch { expected: ArgKind::PyList, found: ArgKind::Empty }
    );
    let d = PyArg::PyDict(PyDict::new(PyDictK::I64).into_raw());
    assert_eq!(pyarg_extract_owned_dict(Box::new(d)).unwrap().key_kind(), PyDictK::I64);
}
