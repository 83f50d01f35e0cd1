use rustypy::pystring::PyString;

#[test]
fn pystring_pystring_operations() {
    let source = "test string";
    let owned_pystr = PyString::from(source).into_raw();
    let back_from_py = PyString::from_ptr_to_string(owned_pystr);
    assert_eq!(back_from_py, "test string");
    {
        String::from(source);
    }
}

#[test]
fn primitives_pystring_operations() {
    let source = "test string";
    let owned_pystr = PyString::from(source).into_raw();
    let back_from_py = PyString::from_ptr_to_string(owned_pystr);
    assert_eq!(back_from_py, "test string");
    {
        String::from(source);
    }
}
