//! Analog to a host boolean: a single-byte flag.
use vstd::prelude::*;

verus! {

/// Analog to a host boolean, stored as a byte flag that is always `0` or `1`.
#[derive(Clone, Copy, Debug, PartialEq, Eq, Hash, Structural)]
pub struct PyBool {
    val: i8,
}

impl PyBool {
    /// The truth value this flag stands for.
    pub closed spec fn view(self) -> bool {
        self.val != 0
    }

    /// The stored byte is normalised to `0` or `1`.
    pub closed spec fn wf(self) -> bool {
        self.val == 0 || self.val == 1
    }

    /// Wraps a native boolean.
    pub fn new(b: bool) -> (r: PyBool)
        ensures
            r.wf(),
            r.view() == b,
    {
        PyBool { val: if b { 1 } else { 0 } }
    }

    /// Conversion from `PyBool` to `bool`.
    pub fn to_bool(self) -> (r: bool)
        ensures
            r == self.view(),
    {
        self.val != 0
    }

    /// Sets the value of the underlying flag.
    pub fn load(&mut self, v: bool)
        ensures
            final(self).wf(),
            final(self).view() == v,
    {
        if v {
            self.val = 1;
        } else {
            self.val = 0;
        }
    }

    /// Wraps a host flag byte: zero is false, anything else is true.
    pub fn from_flag(b: i8) -> (r: PyBool)
        ensures
            r.wf(),
            r.view() == (b != 0),
    {
        PyBool { val: if b == 0 { 0 } else { 1 } }
    }

    /// The stored flag byte, `1` for true and `0` for false.
    pub fn flag(self) -> (r: i8)
        requires
            self.wf(),
        ensures
            r == (if self.view() { 1i8 } else { 0i8 }),
    {
        self.val
    }

    /// Reclaims a `PyBool` from its boxed boundary handle.
    pub fn from_ptr(ptr: Box<PyBool>) -> (r: PyBool)
        ensures
            r == *ptr,
    {
        *ptr
    }

    /// Reads the truth value behind a borrowed boundary handle.
    pub fn from_ptr_into_bool(ptr: &PyBool) -> (r: bool)
        ensures
            r == ptr.view(),
    {
        ptr.to_bool()
    }

    /// Boxes the flag behind an owning handle for the host.
    pub fn into_raw(self) -> (r: Box<PyBool>)
        ensures
            *r == self,
    {
        Box::new(self)
    }

    /// Boxes the flag behind an owning handle for the host.
    pub fn as_ptr(self) -> (r: Box<PyBool>)
        ensures
            *r == self,
    {
        Box::new(self)
    }

    /// Whether the flag stands for the native boolean `other`.
    pub fn eq_bool(&self, other: bool) -> (r: bool)
        ensures
            r == (self.view() == other),
    {
        self.to_bool() == other
    }

    /// Logical negation.
    pub fn not(self) -> (r: bool)
        ensures
            r == !self.view(),
    {
        !self.to_bool()
    }

    /// Logical conjunction with a native boolean.
    pub fn bitand(self, rhs: bool) -> (r: bool)
        ensures
            r == (self.view() && rhs),
    {
        self.to_bool() && rhs
    }

    /// Logical disjunction with a native boolean.
    pub fn bitor(self, rhs: bool) -> (r: bool)
        ensures
            r == (self.view() || rhs),
    {
        self.to_bool() || rhs
    }
}

/// Boundary constructor: a boxed flag from a host byte.
pub fn pybool_new(val: i8) -> (r: Box<PyBool>)
    ensures
        r.wf(),
        r.view() == (val != 0),
{
    Box::new(PyBool::from_flag(val))
}

/// Boundary accessor: the flag byte behind a borrowed handle.
pub fn pybool_get_val(ptr: &PyBool) -> (r: i8)
    requires
        ptr.wf(),
    ensures
        r == (if ptr.view() { 1i8 } else { 0i8 }),
{
    ptr.flag()
}

impl From<bool> for PyBool {
    fn from(b: bool) -> (r: PyBool) {
        PyBool { val: if b { 1 } else { 0 } }
    }
}

impl vstd::std_specs::convert::FromSpecImpl<bool> for PyBool {
    open spec fn obeys_from_spec() -> bool {
        true
    }

    closed spec fn from_spec(b: bool) -> PyBool {
        PyBool { val: if b { 1 } else { 0 } }
    }
}

} // verus!
