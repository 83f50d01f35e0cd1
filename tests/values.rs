use rustypy::pyarg::{pyarg_extract_owned_int, pyarg_extract_owned_ulonglong, ArgKind, Mismatch, PyArg};
use rustypy::pybool::PyBool;
use rustypy::pydict::{pydict_get_key_type, PyDict, PyDictK, UnsupportedKeyType};
use rustypy::pylist::PyList;
use rustypy::pystring::PyString;
use rustypy::pytuple::{OutOfRange, PyTuple};
use rustypy::unpack::{pack, unpack, Native, ScalarKind, Shape, UnpackError};

#[test]
fn extracted_slot_reads_empty_and_second_extraction_gives_empty() {
    let mut t = PyTuple::new(vec![PyArg::I64(7), PyArg::PyString(PyString::from("x"))]);
    assert_eq!(t.replace_elem(0), Ok(PyArg::I64(7)));
    assert_eq!(t.as_ref(0), Ok(&PyArg::Empty));
    assert_eq!(t.replace_elem(0), Ok(PyArg::Empty));
    assert_eq!(t.as_ref(1), Ok(&PyArg::PyString(PyString::from("x"))));
    assert_eq!(t.len(), 2);
}

#[test]
fn tuple_reports_its_arity_and_refuses_index_past_it() {
    let mut t = PyTuple::new(vec![PyArg::I8(1), PyArg::U8(2), PyArg::Empty]);
    assert_eq!(t.len(), 3);
    assert_eq!(t.as_ref(3), Err(OutOfRange { index: 3, len: 3 }));
    assert_eq!(t.replace_elem(3), Err(OutOfRange { index: 3, len: 3 }));
    assert_eq!(t.len(), 3);
}

#[test]
fn extracting_a_float_as_an_integer_is_a_mismatch() {
    let r = pyarg_extract_owned_int(Box::new(PyArg::F32(1.5f32.to_bits())));
    assert_eq!(r, Err(Mismatch { expected: ArgKind::I64, found: ArgKind::F32 }));
}

#[test]
fn integer_extraction_widens_narrow_integers() {
    assert_eq!(pyarg_extract_owned_int(Box::new(PyArg::I32(-5))), Ok(-5));
    assert_eq!(pyarg_extract_owned_int(Box::new(PyArg::U32(4_000_000_000))), Ok(4_000_000_000));
    assert_eq!(pyarg_extract_owned_int(Box::new(PyArg::U8(255))), Ok(255));
    assert_eq!(
        pyarg_extract_owned_int(Box::new(PyArg::U64(1))),
        Err(Mismatch { expected: ArgKind::I64, found: ArgKind::U64 })
    );
    assert_eq!(pyarg_extract_owned_ulonglong(Box::new(PyArg::U64(u64::MAX))), Ok(u64::MAX));
}

#[test]
fn key_type_codes_resolve_to_the_ten_key_kinds_only() {
    let table = [
        (1, PyDictK::U8),
        (2, PyDictK::I8),
        (3, PyDictK::I16),
        (4, PyDictK::U16),
        (5, PyDictK::I32),
        (6, PyDictK::U32),
        (7, PyDictK::I64),
        (8, PyDictK::U64),
        (11, PyDictK::PyBool),
        (12, PyDictK::PyString),
    ];
    for (code, kind) in table {
        assert_eq!(pydict_get_key_type(code), Ok(kind));
    }
    for code in [0u32, 9, 10, 13, 100] {
        assert_eq!(pydict_get_key_type(code), Err(UnsupportedKeyType { code }));
    }
}

#[test]
fn strings_pushed_onto_a_list_come_back_in_order() {
    let mut l = PyList::new();
    for s in ["Python", "in", "Rust"] {
        l.push(PyArg::PyString(PyString::from(s)));
    }
    let shape = Shape::List(Box::new(Shape::Scalar(ScalarKind::PyString)));
    let out = unpack(PyArg::PyList(l.into_raw()), &shape).unwrap();
    let expected: Vec<Native> =
        ["Python", "in", "Rust"].iter().map(|s| Native::Str(s.to_string())).collect();
    assert_eq!(out, Native::List(expected));
}

fn deep_native() -> Native {
    // [([1, 2], "a"), ([], "b")] : list of tuple of (list of i16, text)
    Native::List(vec![
        Native::Tuple(vec![
            Native::List(vec![Native::I16(1), Native::I16(2)]),
            Native::Str("a".to_string()),
        ]),
        Native::Tuple(vec![Native::List(vec![]), Native::Str("b".to_string())]),
    ])
}

fn deep_shape() -> Shape {
    Shape::List(Box::new(Shape::Tuple(vec![
        Shape::List(Box::new(Shape::Scalar(ScalarKind::I16))),
        Shape::Scalar(ScalarKind::PyString),
    ])))
}

#[test]
fn pack_then_unpack_gives_back_a_nested_structure() {
    let packed = pack(deep_native(), &deep_shape());
    assert_eq!(unpack(packed, &deep_shape()), Ok(deep_native()));
}

#[test]
fn pack_then_unpack_gives_back_empty_collections() {
    let shape = Shape::List(Box::new(Shape::Scalar(ScalarKind::U64)));
    assert_eq!(unpack(pack(Native::List(vec![]), &shape), &shape), Ok(Native::List(vec![])));
    let shape = Shape::Dict(PyDictK::PyString, Box::new(Shape::Scalar(ScalarKind::F64)));
    assert_eq!(unpack(pack(Native::Dict(vec![]), &shape), &shape), Ok(Native::Dict(vec![])));
}

#[test]
fn pack_then_unpack_gives_back_a_map_of_lists() {
    let shape = Shape::Dict(
        PyDictK::PyString,
        Box::new(Shape::List(Box::new(Shape::Scalar(ScalarKind::F64)))),
    );
    let n = Native::Dict(vec![
        (Native::Str("k".to_string()), Native::List(vec![Native::F64(0.5f64.to_bits())])),
        (Native::Str("j".to_string()), Native::List(vec![])),
    ]);
    let copy = Native::Dict(vec![
        (Native::Str("k".to_string()), Native::List(vec![Native::F64(0.5f64.to_bits())])),
        (Native::Str("j".to_string()), Native::List(vec![])),
    ]);
    assert_eq!(unpack(pack(n, &shape), &shape), Ok(copy));
}

#[test]
fn pack_builds_tagged_containers() {
    let shape = Shape::Tuple(vec![Shape::Scalar(ScalarKind::PyBool), Shape::Scalar(ScalarKind::U16)]);
    let v = pack(Native::Tuple(vec![Native::Bool(true), Native::U16(9)]), &shape);
    match v {
        PyArg::PyTuple(t) => {
            assert_eq!(t.len(), 2);
            assert_eq!(PyTuple::as_ref(&t, 0), Ok(&PyArg::PyBool(PyBool::from(true))));
            assert_eq!(PyTuple::as_ref(&t, 1), Ok(&PyArg::U16(9)));
        }
        _ => panic!("expected a tuple"),
    }
}

#[test]
fn unpack_reports_each_kind_of_failure() {
    let t = PyTuple::new(vec![PyArg::I64(1)]).into_raw();
    let shape = Shape::Tuple(vec![Shape::Scalar(ScalarKind::I64), Shape::Scalar(ScalarKind::I64)]);
    assert_eq!(unpack(PyArg::PyTuple(t), &shape), Err(UnpackError::Arity { expected: 2, found: 1 }));

    let d = PyDict::new(PyDictK::U8).into_raw();
    let shape = Shape::Dict(PyDictK::I8, Box::new(Shape::Scalar(ScalarKind::I64)));
    assert_eq!(
        unpack(PyArg::PyDict(d), &shape),
        Err(UnpackError::KeyKind { expected: PyDictK::I8, found: PyDictK::U8 })
    );

    let shape = Shape::Scalar(ScalarKind::I64);
    assert_eq!(
        unpack(PyArg::F32(0), &shape),
        Err(UnpackError::Mismatch(Mismatch { expected: ArgKind::I64, found: ArgKind::F32 }))
    );

    let mut t = PyTuple::new(vec![PyArg::I64(1)]);
    t.replace_elem(0).unwrap();
    let shape = Shape::Tuple(vec![Shape::Scalar(ScalarKind::I64)]);
    assert_eq!(
        unpack(PyArg::PyTuple(t.into_raw()), &shape),
        Err(UnpackError::Mismatch(Mismatch { expected: ArgKind::I64, found: ArgKind::Empty }))
    );
}
