use rustypy::krate::{
    krate_data_iter, krate_data_len, krate_data_new, render_fn, starts_with, type_repr, FnDef,
    ItemDesc, KrateData, TypeDesc,
};
use rustypy::pyarg::{ArgKind, Mismatch, PyArg};
use rustypy::pylist::PyList;
use rustypy::pystring::PyString;

fn path(name: &str) -> TypeDesc {
    TypeDesc::Path(Some(name.to_string()))
}

fn ptr(mutable: bool, elem: TypeDesc) -> TypeDesc {
    TypeDesc::Ptr { mutable, elem: Box::new(elem) }
}

fn reference(mutable: bool, elem: TypeDesc) -> TypeDesc {
    TypeDesc::Reference { mutable, elem: Box::new(elem) }
}

fn fn_def(name: &str, args: Vec<TypeDesc>, output: Option<TypeDesc>) -> FnDef {
    FnDef { name: name.to_string(), args, output }
}

#[test]
fn type_renderings() {
    assert_eq!(type_repr(&path("u32"), None), Ok("type(u32)".to_string()));
    assert_eq!(type_repr(&ptr(true, path("PyString")), None), Ok("type(*mut PyString)".to_string()));
    assert_eq!(type_repr(&ptr(false, path("c_char")), None), Ok("type(*const c_char)".to_string()));
    assert_eq!(type_repr(&reference(true, path("u32")), None), Ok("type(&mut u32)".to_string()));
    assert_eq!(type_repr(&reference(false, path("KrateData")), None), Ok("type(& KrateData)".to_string()));
    assert_eq!(type_repr(&ptr(false, ptr(true, path("u8"))), None), Ok("type(*mut u8)".to_string()));
    assert_eq!(type_repr(&TypeDesc::Other, None), Err(()));
    assert_eq!(type_repr(&TypeDesc::Path(None), Some("&")), Err(()));
}

#[test]
fn function_lines() {
    let f = fn_def("python_bind_int", vec![path("u32")], Some(path("u32")));
    assert_eq!(render_fn(&f), Some("python_bind_int::type(u32);type(u32)".to_string()));
    let f = fn_def(
        "python_bind_ref_int",
        vec![reference(true, path("u32")), ptr(true, path("PyList"))],
        None,
    );
    assert_eq!(
        render_fn(&f),
        Some("python_bind_ref_int::type(&mut u32);type(*mut PyList);type(void)".to_string())
    );
    let f = fn_def("python_bind_none", vec![], Some(ptr(true, path("PyTuple"))));
    assert_eq!(render_fn(&f), Some("python_bind_nonetype(*mut PyTuple)".to_string()));
    let f = fn_def("python_bind_bad", vec![path("u8"), TypeDesc::Other], None);
    assert_eq!(render_fn(&f), None);
    let f = fn_def("python_bind_bad_out", vec![], Some(TypeDesc::Other));
    assert_eq!(render_fn(&f), None);
}

#[test]
fn prefixes_select_functions() {
    assert!(starts_with("python_bind_int", "python_bind_"));
    assert!(starts_with("abc", ""));
    assert!(!starts_with("py", "python"));
    assert!(!starts_with("other_fn", "python_bind_"));
}

#[test]
fn catalogue_from_items() {
    let prefixes = PyList::from_vec(vec![
        PyArg::PyString(PyString::from("python_bind_")),
        PyArg::PyString(PyString::from("other_prefix_")),
    ]);
    let mut krate: Box<KrateData> = krate_data_new(prefixes.into_raw()).unwrap();
    let items = vec![
        ItemDesc::Fn { public: true, def: fn_def("python_bind_int", vec![path("u32")], Some(path("u32"))) },
        ItemDesc::Fn { public: false, def: fn_def("python_bind_private", vec![], None) },
        ItemDesc::Fn { public: true, def: fn_def("helper", vec![], None) },
        ItemDesc::Mod(Some(vec![
            ItemDesc::Fn { public: true, def: fn_def("other_prefix_dict", vec![ptr(true, path("usize"))], None) },
            ItemDesc::Mod(None),
            ItemDesc::Other,
        ])),
        ItemDesc::Fn { public: true, def: fn_def("python_bind_bad", vec![TypeDesc::Other], None) },
    ];
    for item in items {
        krate.visit_item(item);
    }
    assert_eq!(krate.functions.len(), 3);
    krate.collect_values();
    assert_eq!(krate.functions.len(), 0);
    assert_eq!(krate_data_len(&krate), 2);
    assert_eq!(krate_data_iter(&krate, 0), "python_bind_int::type(u32);type(u32)");
    assert_eq!(krate_data_iter(&krate, 1), "other_prefix_dict::type(*mut usize);type(void)");
    assert_eq!(krate_data_iter(&krate, 2), "NO_IDX_ERROR");
    assert_eq!(krate.iter_krate(5), None);
}

#[test]
fn catalogue_prefixes_must_be_strings() {
    let prefixes = PyList::from_vec(vec![PyArg::PyString(PyString::from("a")), PyArg::I64(1)]);
    assert_eq!(
        krate_data_new(prefixes.into_raw()).unwrap_err(),
        Mismatch { expected: ArgKind::PyString, found: ArgKind::I64 }
    );
}
