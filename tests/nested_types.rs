use rustypy::pyarg::PyArg;
use rustypy::pybool::PyBool;
use rustypy::pystring::PyString;
use rustypy::pytuple::PyTuple;

#[test]
fn tuple_macro_expansion() {
    let e1 = PyBool::from(false);
    let e2 = PyString::from("test");
    let ptr = PyTuple::new(vec![PyArg::PyBool(e1), PyArg::PyString(e2)]).into_raw();
    let e1 = match PyTuple::as_ref(&ptr, 0usize).unwrap() {
        PyArg::PyBool(b) => b.to_bool(),
        _ => panic!("expected PyBool, found other type"),
    };
    assert_eq!(e1, false);
    let e2 = match PyTuple::as_ref(&ptr, 1usize).unwrap() {
        PyArg::PyString(s) => s.to_string(),
        _ => panic!("expected PyString, found other type"),
    };
    assert_eq!(e2, "test");
}
