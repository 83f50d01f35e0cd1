use rustypy::pyarg::PyArg;
use rustypy::pybool::PyBool;
use rustypy::pylist::PyList;
use rustypy::pystring::PyString;
use rustypy::pytuple::PyTuple;
use rustypy::unpack::{unpack, Native, ScalarKind, Shape};

fn int_list(v: &[i32]) -> PyArg {
    let mut l = PyList::new();
    for x in v {
        l.push(PyArg::I32(*x));
    }
    PyArg::PyList(l.into_raw())
}

fn nested_list() -> PyArg {
    let t1 = PyTuple::new(vec![int_list(&[1, 2, 3]), PyArg::F32(0.1f32.to_bits())]);
    let t2 = PyTuple::new(vec![int_list(&[3, 2, 1]), PyArg::F32(0.2f32.to_bits())]);
    let l = PyList::from_vec(vec![PyArg::PyTuple(t1.into_raw()), PyArg::PyTuple(t2.into_raw())]);
    PyArg::PyList(l.into_raw())
}

fn nested_shape() -> Shape {
    Shape::List(Box::new(Shape::Tuple(vec![
        Shape::List(Box::new(Shape::Scalar(ScalarKind::I32))),
        Shape::Scalar(ScalarKind::F32),
    ])))
}

fn expected_nested() -> Native {
    let row = |v: &[i32], f: f32| {
        Native::Tuple(vec![
            Native::List(v.iter().map(|x| Native::I32(*x)).collect()),
            Native::F32(f.to_bits()),
        ])
    };
    Native::List(vec![row(&[1, 2, 3], 0.1), row(&[3, 2, 1], 0.2)])
}

fn bool_str_int_tuple() -> Box<PyTuple> {
    PyTuple::new(vec![
        PyArg::PyBool(PyBool::from(false)),
        PyArg::PyString(PyString::from("test")),
        PyArg::I64(55i64),
    ])
    .into_raw()
}

fn bool_str_int_shape() -> Shape {
    Shape::Tuple(vec![
        Shape::Scalar(ScalarKind::PyBool),
        Shape::Scalar(ScalarKind::PyString),
        Shape::Scalar(ScalarKind::I64),
    ])
}

fn expected_bool_str_int() -> Native {
    Native::Tuple(vec![Native::Bool(false), Native::Str(String::from("test")), Native::I64(55i64)])
}

#[test]
fn pytuple_macro() {
    let pytuple = bool_str_int_tuple();
    let unpacked = unpack(PyArg::PyTuple(pytuple), &bool_str_int_shape()).unwrap();
    assert_eq!(expected_bool_str_int(), unpacked);
}

#[test]
fn macros_unpack_pylist_macro() {
    let unpacked = unpack(nested_list(), &nested_shape()).unwrap();
    assert_eq!(expected_nested(), unpacked);
}

#[test]
fn pytuple_macros() {
    let pytuple = bool_str_int_tuple();
    let unpacked = unpack(PyArg::PyTuple(pytuple), &bool_str_int_shape()).unwrap();
    assert_eq!(expected_bool_str_int(), unpacked);
}

#[test]
fn test_unpack_pylist_macro() {
    let unpacked = unpack(nested_list(), &nested_shape()).unwrap();
    assert_eq!(expected_nested(), unpacked);
}

#[test]
fn test_pytuple_macros() {
    let ptr = bool_str_int_tuple();
    let pytuple = PyTuple::from_ptr(ptr);
    let unpacked = unpack(PyArg::PyTuple(Box::new(pytuple)), &bool_str_int_shape()).unwrap();
    assert_eq!(expected_bool_str_int(), unpacked);
}
