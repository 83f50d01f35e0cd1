use rustypy::pyarg::PyArg;
use rustypy::pydict::{pydict_drain_element, pydict_get_drain, PyDict, PyDictK, PyDictPair};
use rustypy::pystring::PyString;

fn match_kv(kv: Box<PyDictPair>) -> u16 {
    match *kv {
        PyDictPair { key: PyArg::U16(0), val: PyArg::PyString(val) } => {
            assert_eq!(val, PyString::from("zero"));
            0
        }
        PyDictPair { key: PyArg::U16(1), val: PyArg::PyString(val) } => {
            assert_eq!(val, PyString::from("one"));
            1
        }
        _ => panic!(),
    }
}

#[test]
fn pydict_drain_dict() {
    let mut dict = PyDict::new(PyDictK::U16);
    dict.insert(PyArg::U16(0), PyArg::PyString(PyString::from("zero"))).unwrap();
    dict.insert(PyArg::U16(1), PyArg::PyString(PyString::from("one"))).unwrap();
    let mut dict = dict.into_raw();

    let k_type = PyDictK::U16;
    let mut iter = pydict_get_drain(&mut dict, &k_type).unwrap();

    let e0 = pydict_drain_element(&mut iter, &k_type).unwrap();
    assert!(e0.is_some());
    let k0 = match_kv(e0.unwrap());

    let e1 = pydict_drain_element(&mut iter, &k_type).unwrap();
    assert!(e1.is_some());
    let k1 = match_kv(e1.unwrap());
    assert_ne!(k0, k1);

    let none = pydict_drain_element(&mut iter, &k_type).unwrap();
    assert!(none.is_none());
}
