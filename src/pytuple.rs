//! A fixed-arity heterogeneous sequence of tagged values whose slots can be
//! consumed one at a time.
use vstd::prelude::*;

use crate::pyarg::PyArg;

verus! {

/// An analog of a host tuple: a fixed number of slots, each holding a
/// `PyArg`. A slot whose value has been taken out holds `PyArg::Empty`.
#[derive(Debug, PartialEq)]
pub struct PyTuple {
    pub elems: Vec<PyArg>,
}

/// A position at or past the end of a tuple was asked for.
#[derive(Clone, Copy, Debug, PartialEq, Eq, Structural)]
pub struct OutOfRange {
    pub index: usize,
    pub len: usize,
}

impl View for PyTuple {
    type V = Seq<PyArg>;

    open spec fn view(&self) -> Seq<PyArg> {
        self.elems@
    }
}

impl PyTuple {
    /// A tuple whose slots hold the given values, in order.
    pub fn new(elems: Vec<PyArg>) -> (r: PyTuple)
        ensures
            r@ == elems@,
    {
        PyTuple { elems }
    }

    /// The number of slots.
    pub fn len(&self) -> (r: usize)
        ensures
            r == self@.len(),
    {
        self.elems.len()
    }

    /// A reference to the value in slot `idx`.
    pub fn as_ref(&self, idx: usize) -> (r: Result<&PyArg, OutOfRange>)
        ensures
            idx < self@.len() ==> (r matches Ok(a) && *a == self@[idx as int]),
            idx >= self@.len() ==> r == Err::<&PyArg, OutOfRange>(
                OutOfRange { index: idx, len: self@.len() as usize },
            ),
    {
        if idx < self.elems.len() {
            Ok(&self.elems[idx])
        } else {
            Err(OutOfRange { index: idx, len: self.elems.len() })
        }
    }

    /// A mutable reference to the value in slot `idx`.
    pub fn as_mut(&mut self, idx: usize) -> (r: Result<&mut PyArg, OutOfRange>)
        ensures
            idx < old(self)@.len() ==> (r matches Ok(a) && *a == old(self)@[idx as int]
                && final(self)@ == old(self)@.update(idx as int, *final(a))),
            idx >= old(self)@.len() ==> (r matches Err(e) && e == OutOfRange {
                index: idx,
                len: old(self)@.len() as usize,
            } && final(self)@ == old(self)@),
    {
        if idx < self.elems.len() {
            Ok(&mut self.elems[idx])
        } else {
            Err(OutOfRange { index: idx, len: self.elems.len() })
        }
    }

    /// Moves the value out of slot `idx`, leaving `PyArg::Empty` in its place.
    pub fn replace_elem(&mut self, idx: usize) -> (r: Result<PyArg, OutOfRange>)
        ensures
            idx < old(self)@.len() ==> r == Ok::<PyArg, OutOfRange>(old(self)@[idx as int])
                && final(self)@ == old(self)@.update(idx as int, PyArg::Empty),
            idx >= old(self)@.len() ==> r == Err::<PyArg, OutOfRange>(
                OutOfRange { index: idx, len: old(self)@.len() as usize },
            ) && final(self)@ == old(self)@,
    {
        if idx < self.elems.len() {
            let mut e = PyArg::Empty;
            std::mem::swap(&mut e, &mut self.elems[idx]);
            Ok(e)
        } else {
            Err(OutOfRange { index: idx, len: self.elems.len() })
        }
    }

    /// Keeps the first slot and replaces the slots after it with those of
    /// `next` (none when `next` is `None`): the link step by which the host
    /// assembles a tuple from single slots, last to first.
    pub fn set_next(&mut self, next: Option<PyTuple>)
        requires
            old(self)@.len() >= 1,
        ensures
            next matches Some(t) ==> final(self)@ == seq![old(self)@[0]] + t@,
            next is None ==> final(self)@ == seq![old(self)@[0]],
    {
        self.elems.truncate(1);
        match next {
            Some(t) => {
                let mut rest = t.elems;
                self.elems.append(&mut rest);
                assert(self.elems@ =~= seq![old(self)@[0]] + t@);
            },
            None => {
                assert(self.elems@ =~= seq![old(self)@[0]]);
            },
        }
    }

    /// Reclaims a tuple from its boxed boundary handle.
    pub fn from_ptr(ptr: Box<PyTuple>) -> (r: PyTuple)
        ensures
            r == *ptr,
    {
        *ptr
    }

    /// Boxes the tuple behind an owning handle for the host.
    pub fn into_raw(self) -> (r: Box<PyTuple>)
        ensures
            *r == self,
    {
        Box::new(self)
    }
}

/// Boundary constructor: a one-slot tuple holding the value behind an owning
/// handle.
pub fn pytuple_new(elem: Box<PyArg>) -> (r: Box<PyTuple>)
    ensures
        r@ == seq![*elem],
{
    let mut elems: Vec<PyArg> = Vec::new();
    elems.push(*elem);
    assert(elems@ =~= seq![*elem]);
    Box::new(PyTuple { elems })
}

/// Boundary operation: links `next` after the first slot of `prev`.
pub fn pytuple_push(next: Box<PyTuple>, prev: &mut PyTuple)
    requires
        old(prev)@.len() >= 1,
    ensures
        final(prev)@ == seq![old(prev)@[0]] + next@,
{
    prev.set_next(Some(*next));
}

/// Boundary operation: a boxed copy of the value in slot `index`.
pub fn pytuple_get_element(tuple: &PyTuple, index: usize) -> (r: Result<Box<PyArg>, OutOfRange>)
    ensures
        index < tuple@.len() ==> (r matches Ok(e) && e.deep() == tuple@[index as int].deep()),
        index >= tuple@.len() ==> r == Err::<Box<PyArg>, OutOfRange>(
            OutOfRange { index, len: tuple@.len() as usize },
        ),
{
    match tuple.as_ref(index) {
        Ok(e) => Ok(Box::new(e.deep_clone())),
        Err(e) => Err(e),
    }
}

/// Boundary operation: the number of slots.
pub fn pytuple_len(tuple: &PyTuple) -> (r: usize)
    ensures
        r == tuple@.len(),
{
    tuple.len()
}

} // verus!
