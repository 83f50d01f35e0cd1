//! Analog to a host string: an owned text buffer.
use vstd::prelude::*;

verus! {

/// An analog of a host string, owning its text.
#[derive(Clone, Debug, PartialEq, Eq, Hash)]
pub struct PyString {
    inner: String,
}

impl View for PyString {
    type V = Seq<char>;

    closed spec fn view(&self) -> Seq<char> {
        self.inner@
    }
}

impl PyString {
    /// Copies a string slice into a new `PyString`.
    pub fn new(s: &str) -> (r: PyString)
        ensures
            r@ == s@,
    {
        PyString { inner: s.to_owned() }
    }

    /// Takes ownership of a `String`.
    pub fn from_string(s: String) -> (r: PyString)
        ensures
            r@ == s@,
    {
        PyString { inner: s }
    }

    /// Reclaims a `PyString` from its boxed boundary handle.
    pub fn from_ptr(ptr: Box<PyString>) -> (r: PyString)
        ensures
            r@ == ptr@,
    {
        *ptr
    }

    /// Reclaims the boxed handle and returns its text as an owned `String`.
    pub fn from_ptr_to_string(ptr: Box<PyString>) -> (r: String)
        ensures
            r@ == ptr@,
    {
        ptr.into_string()
    }

    /// Boxes the string behind an owning handle for the host.
    pub fn into_raw(self) -> (r: Box<PyString>)
        ensures
            *r == self,
    {
        Box::new(self)
    }

    /// A copy of the text.
    pub fn to_string(&self) -> (r: String)
        ensures
            r@ == self@,
    {
        self.inner.clone()
    }

    /// Consumes the wrapper, returning its text.
    pub fn into_string(self) -> (r: String)
        ensures
            r@ == self@,
    {
        self.inner
    }

    /// Whether two strings hold the same text.
    pub fn same_text(&self, other: &PyString) -> (r: bool)
        ensures
            r == (self@ == other@),
    {
        self.inner == other.inner
    }
}

impl<'a> From<&'a str> for PyString {
    fn from(s: &'a str) -> (r: PyString) {
        PyString::new(s)
    }
}

impl<'a> vstd::std_specs::convert::FromSpecImpl<&'a str> for PyString {
    open spec fn obeys_from_spec() -> bool {
        false
    }

    open spec fn from_spec(s: &'a str) -> PyString {
        arbitrary()
    }
}

impl From<String> for PyString {
    fn from(s: String) -> (r: PyString) {
        PyString { inner: s }
    }
}

impl vstd::std_specs::convert::FromSpecImpl<String> for PyString {
    open spec fn obeys_from_spec() -> bool {
        true
    }

    closed spec fn from_spec(s: String) -> PyString {
        PyString { inner: s }
    }
}

} // verus!
