//! The tagged value that crosses the boundary, its mathematical model, and
//! the variant-checked conversions in and out of it.
use vstd::prelude::*;

use crate::pybool::PyBool;
use crate::pydict::{PyDict, PyDictK};
use crate::pylist::PyList;
use crate::pystring::PyString;
use crate::pytuple::PyTuple;

verus! {

/// A value of any supported kind. Floats are held by their IEEE-754 bit
/// patterns; containers are owned through boxes; `Empty` marks a slot whose
/// value has been moved out.
#[derive(Debug, PartialEq)]
pub enum PyArg {
    I64(i64),
    I32(i32),
    I16(i16),
    I8(i8),
    U64(u64),
    U32(u32),
    U16(u16),
    U8(u8),
    F32(u32),
    F64(u64),
    PyBool(PyBool),
    PyString(PyString),
    PyTuple(Box<PyTuple>),
    PyList(Box<PyList>),
    PyDict(Box<PyDict>),
    Empty,
}

/// The variant of a `PyArg`, without its payload.
#[derive(Clone, Copy, Debug, PartialEq, Eq, Structural)]
pub enum ArgKind {
    I64,
    I32,
    I16,
    I8,
    U64,
    U32,
    U16,
    U8,
    F32,
    F64,
    PyBool,
    PyString,
    PyTuple,
    PyList,
    PyDict,
    Empty,
}

/// A boundary-contract violation: a value of one variant was found where
/// another was required.
#[derive(Clone, Copy, Debug, PartialEq, Eq, Structural)]
pub struct Mismatch {
    pub expected: ArgKind,
    pub found: ArgKind,
}

/// The mathematical model of a `PyArg`: the same tree with every payload
/// replaced by its value and every box looked through.
pub enum Value {
    I64(i64),
    I32(i32),
    I16(i16),
    I8(i8),
    U64(u64),
    U32(u32),
    U16(u16),
    U8(u8),
    F32(u32),
    F64(u64),
    Bool(bool),
    Text(Seq<char>),
    Tuple(Seq<Value>),
    List(Seq<Value>),
    Dict(PyDictK, Seq<(Value, Value)>),
    Empty,
}

impl PyArg {
    /// The model of this value.
    pub open spec fn deep(self) -> Value
        decreases self,
    {
        match self {
            PyArg::I64(v) => Value::I64(v),
            PyArg::I32(v) => Value::I32(v),
            PyArg::I16(v) => Value::I16(v),
            PyArg::I8(v) => Value::I8(v),
            PyArg::U64(v) => Value::U64(v),
            PyArg::U32(v) => Value::U32(v),
            PyArg::U16(v) => Value::U16(v),
            PyArg::U8(v) => Value::U8(v),
            PyArg::F32(v) => Value::F32(v),
            PyArg::F64(v) => Value::F64(v),
            PyArg::PyBool(b) => Value::Bool(b.view()),
            PyArg::PyString(s) => Value::Text(s@),
            PyArg::PyTuple(t) => Value::Tuple(
                Seq::new(
                    t.elems@.len(),
                    |i: int|
                        if 0 <= i < t.elems@.len() {
                            t.elems@[i].deep()
                        } else {
                            Value::Empty
                        },
                ),
            ),
            PyArg::PyList(l) => Value::List(
                Seq::new(
                    l.items@.len(),
                    |i: int|
                        if 0 <= i < l.items@.len() {
                            l.items@[i].deep()
                        } else {
                            Value::Empty
                        },
                ),
            ),
            PyArg::PyDict(d) => Value::Dict(
                d.kind,
                Seq::new(
                    d.entries@.len(),
                    |i: int|
                        if 0 <= i < d.entries@.len() {
                            (d.entries@[i].0.deep(), d.entries@[i].1.deep())
                        } else {
                            (Value::Empty, Value::Empty)
                        },
                ),
            ),
            PyArg::Empty => Value::Empty,
        }
    }

    /// The variant of this value.
    pub open spec fn kind_of(self) -> ArgKind {
        match self {
            PyArg::I64(_) => ArgKind::I64,
            PyArg::I32(_) => ArgKind::I32,
            PyArg::I16(_) => ArgKind::I16,
            PyArg::I8(_) => ArgKind::I8,
            PyArg::U64(_) => ArgKind::U64,
            PyArg::U32(_) => ArgKind::U32,
            PyArg::U16(_) => ArgKind::U16,
            PyArg::U8(_) => ArgKind::U8,
            PyArg::F32(_) => ArgKind::F32,
            PyArg::F64(_) => ArgKind::F64,
            PyArg::PyBool(_) => ArgKind::PyBool,
            PyArg::PyString(_) => ArgKind::PyString,
            PyArg::PyTuple(_) => ArgKind::PyTuple,
            PyArg::PyList(_) => ArgKind::PyList,
            PyArg::PyDict(_) => ArgKind::PyDict,
            PyArg::Empty => ArgKind::Empty,
        }
    }

    /// Holds a scalar payload: a number, a flag or a text, not a container
    /// and not the empty marker.
    pub open spec fn is_scalar(self) -> bool {
        !(self is PyTuple || self is PyList || self is PyDict || self is Empty)
    }

    /// The variant of this value.
    pub fn kind(&self) -> (r: ArgKind)
        ensures
            r == self.kind_of(),
    {
        match self {
            PyArg::I64(_) => ArgKind::I64,
            PyArg::I32(_) => ArgKind::I32,
            PyArg::I16(_) => ArgKind::I16,
            PyArg::I8(_) => ArgKind::I8,
            PyArg::U64(_) => ArgKind::U64,
            PyArg::U32(_) => ArgKind::U32,
            PyArg::U16(_) => ArgKind::U16,
            PyArg::U8(_) => ArgKind::U8,
            PyArg::F32(_) => ArgKind::F32,
            PyArg::F64(_) => ArgKind::F64,
            PyArg::PyBool(_) => ArgKind::PyBool,
            PyArg::PyString(_) => ArgKind::PyString,
            PyArg::PyTuple(_) => ArgKind::PyTuple,
            PyArg::PyList(_) => ArgKind::PyList,
            PyArg::PyDict(_) => ArgKind::PyDict,
            PyArg::Empty => ArgKind::Empty,
        }
    }

    /// Whether two scalar values are equal as values.
    pub fn same_scalar(&self, other: &PyArg) -> (r: bool)
        requires
            self.is_scalar(),
            other.is_scalar(),
        ensures
            r == (self.deep() == other.deep()),
    {
        match (self, other) {
            (PyArg::I64(a), PyArg::I64(b)) => *a == *b,
            (PyArg::I32(a), PyArg::I32(b)) => *a == *b,
            (PyArg::I16(a), PyArg::I16(b)) => *a == *b,
            (PyArg::I8(a), PyArg::I8(b)) => *a == *b,
            (PyArg::U64(a), PyArg::U64(b)) => *a == *b,
            (PyArg::U32(a), PyArg::U32(b)) => *a == *b,
            (PyArg::U16(a), PyArg::U16(b)) => *a == *b,
            (PyArg::U8(a), PyArg::U8(b)) => *a == *b,
            (PyArg::F32(a), PyArg::F32(b)) => *a == *b,
            (PyArg::F64(a), PyArg::F64(b)) => *a == *b,
            (PyArg::PyBool(a), PyArg::PyBool(b)) => a.to_bool() == b.to_bool(),
            (PyArg::PyString(a), PyArg::PyString(b)) => a.same_text(b),
            _ => false,
        }
    }

    /// Boxes the value behind an owning handle for the host.
    pub fn into_raw(self) -> (r: Box<PyArg>)
        ensures
            *r == self,
    {
        Box::new(self)
    }

    /// A copy of this value, containers and all.
    #[verifier::loop_isolation(false)]
    pub fn deep_clone(&self) -> (r: PyArg)
        ensures
            r.deep() == self.deep(),
        decreases self,
    {
        match self {
            PyArg::I64(v) => PyArg::I64(*v),
            PyArg::I32(v) => PyArg::I32(*v),
            PyArg::I16(v) => PyArg::I16(*v),
            PyArg::I8(v) => PyArg::I8(*v),
            PyArg::U64(v) => PyArg::U64(*v),
            PyArg::U32(v) => PyArg::U32(*v),
            PyArg::U16(v) => PyArg::U16(*v),
            PyArg::U8(v) => PyArg::U8(*v),
            PyArg::F32(v) => PyArg::F32(*v),
            PyArg::F64(v) => PyArg::F64(*v),
            PyArg::PyBool(b) => PyArg::PyBool(*b),
            PyArg::PyString(s) => PyArg::PyString(PyString::from_string(s.to_string())),
            PyArg::PyTuple(t) => {
                let n = t.elems.len();
                let mut out: Vec<PyArg> = Vec::new();
                let mut i: usize = 0;
                while i < n
                    invariant
                        n == t.elems@.len(),
                        i <= n,
                        out@.len() == i,
                        forall|j: int| 0 <= j < i ==> (#[trigger] out@[j]).deep() == t.elems@[j].deep(),
                    decreases n - i,
                {
                    out.push(t.elems[i].deep_clone());
                    i = i + 1;
                }
                let r = PyArg::PyTuple(Box::new(PyTuple::new(out)));
                assert(r.deep()->Tuple_0 =~= self.deep()->Tuple_0);
                r
            },
            PyArg::PyList(l) => {
                let n = l.items.len();
                let mut out: Vec<PyArg> = Vec::new();
                let mut i: usize = 0;
                while i < n
                    invariant
                        n == l.items@.len(),
                        i <= n,
                        out@.len() == i,
                        forall|j: int| 0 <= j < i ==> (#[trigger] out@[j]).deep() == l.items@[j].deep(),
                    decreases n - i,
                {
                    out.push(l.items[i].deep_clone());
                    i = i + 1;
                }
                let r = PyArg::PyList(Box::new(PyList::from_vec(out)));
                assert(r.deep()->List_0 =~= self.deep()->List_0);
                r
            },
            PyArg::PyDict(d) => {
                let n = d.entries.len();
                let mut out: Vec<(PyArg, PyArg)> = Vec::new();
                let mut i: usize = 0;
                while i < n
                    invariant
                        n == d.entries@.len(),
                        i <= n,
                        out@.len() == i,
                        forall|j: int|
                            0 <= j < i ==> (#[trigger] out@[j]).0.deep() == d.entries@[j].0.deep()
                                && out@[j].1.deep() == d.entries@[j].1.deep(),
                    decreases n - i,
                {
                    let k = d.entries[i].0.deep_clone();
                    let v = d.entries[i].1.deep_clone();
                    out.push((k, v));
                    i = i + 1;
                }
                let r = PyArg::PyDict(Box::new(PyDict { kind: d.kind, entries: out }));
                assert(r.deep()->Dict_1 =~= self.deep()->Dict_1);
                r
            },
            PyArg::Empty => PyArg::Empty,
        }
    }
}

/// Boundary constructor: a boxed signed integer.
pub fn pyarg_from_int(e: i64) -> (r: Box<PyArg>)
    ensures
        *r == PyArg::I64(e),
{
    Box::new(PyArg::I64(e))
}

/// Boundary constructor: a boxed unsigned integer.
pub fn pyarg_from_ulonglong(e: u64) -> (r: Box<PyArg>)
    ensures
        *r == PyArg::U64(e),
{
    Box::new(PyArg::U64(e))
}

/// Boundary constructor: a boxed single-precision float, given by its bits.
pub fn pyarg_from_float(bits: u32) -> (r: Box<PyArg>)
    ensures
        *r == PyArg::F32(bits),
{
    Box::new(PyArg::F32(bits))
}

/// Boundary constructor: a boxed double-precision float, given by its bits.
pub fn pyarg_from_double(bits: u64) -> (r: Box<PyArg>)
    ensures
        *r == PyArg::F64(bits),
{
    Box::new(PyArg::F64(bits))
}

/// Boundary constructor: a boxed boolean from a host flag byte.
pub fn pyarg_from_bool(e: i8) -> (r: Box<PyArg>)
    ensures
        r.deep() == Value::Bool(e != 0),
        *r matches PyArg::PyBool(b) && b.wf(),
{
    Box::new(PyArg::PyBool(PyBool::from_flag(e)))
}

/// Boundary constructor: a boxed text copied from `e`.
pub fn pyarg_from_str(e: &str) -> (r: Box<PyArg>)
    ensures
        r.deep() == Value::Text(e@),
{
    Box::new(PyArg::PyString(PyString::new(e)))
}

/// Boundary constructor: takes ownership of a boxed tuple.
pub fn pyarg_from_pytuple(e: Box<PyTuple>) -> (r: Box<PyArg>)
    ensures
        *r == PyArg::PyTuple(e),
{
    Box::new(PyArg::PyTuple(e))
}

/// Boundary constructor: takes ownership of a boxed list.
pub fn pyarg_from_pylist(e: Box<PyList>) -> (r: Box<PyArg>)
    ensures
        *r == PyArg::PyList(e),
{
    Box::new(PyArg::PyList(e))
}

/// Boundary constructor: takes ownership of a boxed dictionary.
pub fn pyarg_from_pydict(e: Box<PyDict>) -> (r: Box<PyArg>)
    ensures
        *r == PyArg::PyDict(e),
{
    Box::new(PyArg::PyDict(e))
}

/// The value of an integer of 64 bits or fewer that fits `i64`, widened:
/// every integer variant but `U64`.
pub open spec fn int_value(a: PyArg) -> Option<i64> {
    match a {
        PyArg::I64(v) => Some(v),
        PyArg::I32(v) => Some(v as i64),
        PyArg::I16(v) => Some(v as i64),
        PyArg::I8(v) => Some(v as i64),
        PyArg::U32(v) => Some(v as i64),
        PyArg::U16(v) => Some(v as i64),
        PyArg::U8(v) => Some(v as i64),
        _ => None,
    }
}

/// Boundary extraction: consumes the boxed value and widens any integer
/// variant that fits `i64` to `i64`; any other variant is a mismatch.
pub fn pyarg_extract_owned_int(e: Box<PyArg>) -> (r: Result<i64, Mismatch>)
    ensures
        int_value(*e) matches Some(v) ==> r == Ok::<i64, Mismatch>(v),
        int_value(*e) is None ==> r == Err::<i64, Mismatch>(
            Mismatch { expected: ArgKind::I64, found: e.kind_of() },
        ),
{
    let e = *e;
    let found = e.kind();
    match e {
        PyArg::I64(v) => Ok(v),
        PyArg::I32(v) => Ok(v as i64),
        PyArg::I16(v) => Ok(v as i64),
        PyArg::I8(v) => Ok(v as i64),
        PyArg::U32(v) => Ok(v as i64),
        PyArg::U16(v) => Ok(v as i64),
        PyArg::U8(v) => Ok(v as i64),
        _ => Err(Mismatch { expected: ArgKind::I64, found }),
    }
}

/// Boundary extraction: the payload of a `U64`.
pub fn pyarg_extract_owned_ulonglong(e: Box<PyArg>) -> (r: Result<u64, Mismatch>)
    ensures
        *e matches PyArg::U64(v) ==> r == Ok::<u64, Mismatch>(v),
        !(*e is U64) ==> r == Err::<u64, Mismatch>(
            Mismatch { expected: ArgKind::U64, found: e.kind_of() },
        ),
{
    let e = *e;
    let found = e.kind();
    match e {
        PyArg::U64(v) => Ok(v),
        _ => Err(Mismatch { expected: ArgKind::U64, found }),
    }
}

/// Boundary extraction: the bits of an `F32`.
pub fn pyarg_extract_owned_float(e: Box<PyArg>) -> (r: Result<u32, Mismatch>)
    ensures
        *e matches PyArg::F32(v) ==> r == Ok::<u32, Mismatch>(v),
        !(*e is F32) ==> r == Err::<u32, Mismatch>(
            Mismatch { expected: ArgKind::F32, found: e.kind_of() },
        ),
{
    let e = *e;
    let found = e.kind();
    match e {
        PyArg::F32(v) => Ok(v),
        _ => Err(Mismatch { expected: ArgKind::F32, found }),
    }
}

/// Boundary extraction: the bits of an `F64`.
pub fn pyarg_extract_owned_double(e: Box<PyArg>) -> (r: Result<u64, Mismatch>)
    ensures
        *e matches PyArg::F64(v) ==> r == Ok::<u64, Mismatch>(v),
        !(*e is F64) ==> r == Err::<u64, Mismatch>(
            Mismatch { expected: ArgKind::F64, found: e.kind_of() },
        ),
{
    let e = *e;
    let found = e.kind();
    match e {
        PyArg::F64(v) => Ok(v),
        _ => Err(Mismatch { expected: ArgKind::F64, found }),
    }
}

/// Boundary extraction: the boolean of a `PyBool`, boxed again.
pub fn pyarg_extract_owned_bool(e: Box<PyArg>) -> (r: Result<Box<PyBool>, Mismatch>)
    ensures
        *e matches PyArg::PyBool(v) ==> (r matches Ok(b) && *b == v),
        !(*e is PyBool) ==> r == Err::<Box<PyBool>, Mismatch>(
            Mismatch { expected: ArgKind::PyBool, found: e.kind_of() },
        ),
{
    let e = *e;
    let found = e.kind();
    match e {
        PyArg::PyBool(v) => Ok(v.into_raw()),
        _ => Err(Mismatch { expected: ArgKind::PyBool, found }),
    }
}

/// Boundary extraction: the text of a `PyString`, boxed again.
pub fn pyarg_extract_owned_str(e: Box<PyArg>) -> (r: Result<Box<PyString>, Mismatch>)
    ensures
        *e matches PyArg::PyString(v) ==> (r matches Ok(b) && *b == v),
        !(*e is PyString) ==> r == Err::<Box<PyString>, Mismatch>(
            Mismatch { expected: ArgKind::PyString, found: e.kind_of() },
        ),
{
    let e = *e;
    let found = e.kind();
    match e {
        PyArg::PyString(v) => Ok(v.into_raw()),
        _ => Err(Mismatch { expected: ArgKind::PyString, found }),
    }
}

/// Boundary extraction: the boxed tuple of a `PyTuple`.
pub fn pyarg_extract_owned_tuple(e: Box<PyArg>) -> (r: Result<Box<PyTuple>, Mismatch>)
    ensures
        *e matches PyArg::PyTuple(v) ==> (r matches Ok(b) && b == v),
        !(*e is PyTuple) ==> r == Err::<Box<PyTuple>, Mismatch>(
            Mismatch { expected: ArgKind::PyTuple, found: e.kind_of() },
        ),
{
    let e = *e;
    let found = e.kind();
    match e {
        PyArg::PyTuple(v) => Ok(v),
        _ => Err(Mismatch { expected: ArgKind::PyTuple, found }),
    }
}

/// Boundary extraction: the boxed list of a `PyList`.
pub fn pyarg_extract_owned_list(e: Box<PyArg>) -> (r: Result<Box<PyList>, Mismatch>)
    ensures
        *e matches PyArg::PyList(v) ==> (r matches Ok(b) && b == v),
        !(*e is PyList) ==> r == Err::<Box<PyList>, Mismatch>(
            Mismatch { expected: ArgKind::PyList, found: e.kind_of() },
        ),
{
    let e = *e;
    let found = e.kind();
    match e {
        PyArg::PyList(v) => Ok(v),
        _ => Err(Mismatch { expected: ArgKind::PyList, found }),
    }
}

/// Boundary extraction: the boxed dictionary of a `PyDict`.
pub fn pyarg_extract_owned_dict(e: Box<PyArg>) -> (r: Result<Box<PyDict>, Mismatch>)
    ensures
        *e matches PyArg::PyDict(v) ==> (r matches Ok(b) && b == v),
        !(*e is PyDict) ==> r == Err::<Box<PyDict>, Mismatch>(
            Mismatch { expected: ArgKind::PyDict, found: e.kind_of() },
        ),
{
    let e = *e;
    let found = e.kind();
    match e {
        PyArg::PyDict(v) => Ok(v),
        _ => Err(Mismatch { expected: ArgKind::PyDict, found }),
    }
}

} // verus!
