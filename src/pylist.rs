//! An owned, growable, order-preserving sequence of tagged values.
use vstd::prelude::*;

use crate::pyarg::PyArg;

verus! {

/// An analog of a host list: an ordered sequence of `PyArg` values.
#[derive(Debug, PartialEq)]
pub struct PyList {
    pub items: Vec<PyArg>,
}

impl View for PyList {
    type V = Seq<PyArg>;

    open spec fn view(&self) -> Seq<PyArg> {
        self.items@
    }
}

impl PyList {
    /// An empty list.
    pub fn new() -> (r: PyList)
        ensures
            r@ == Seq::<PyArg>::empty(),
    {
        PyList { items: Vec::new() }
    }

    /// A list holding the elements of `v`, in order.
    pub fn from_vec(v: Vec<PyArg>) -> (r: PyList)
        ensures
            r@ == v@,
    {
        PyList { items: v }
    }

    /// Consumes the list, returning its elements in order.
    pub fn into_vec(self) -> (r: Vec<PyArg>)
        ensures
            r@ == self@,
    {
        self.items
    }

    /// Removes and returns the element at `index`, shifting the later
    /// elements down by one.
    pub fn remove(&mut self, index: usize) -> (r: PyArg)
        requires
            index < old(self)@.len(),
        ensures
            r == old(self)@[index as int],
            final(self)@ == old(self)@.remove(index as int),
    {
        self.items.remove(index)
    }

    /// Removes the last element and returns it, or `None` if the list is empty.
    pub fn pop(&mut self) -> (r: Option<PyArg>)
        ensures
            old(self)@.len() == 0 ==> r is None && final(self)@ == old(self)@,
            old(self)@.len() > 0 ==> r == Some(old(self)@.last()) && final(self)@
                == old(self)@.drop_last(),
    {
        self.items.pop()
    }

    /// The number of elements.
    pub fn len(&self) -> (r: usize)
        ensures
            r == self@.len(),
    {
        self.items.len()
    }

    /// Whether the list has no elements.
    pub fn is_empty(&self) -> (r: bool)
        ensures
            r == (self@.len() == 0),
    {
        self.items.len() == 0
    }

    /// Appends an element at the back.
    pub fn push(&mut self, a: PyArg)
        ensures
            final(self)@ == old(self)@.push(a),
    {
        self.items.push(a);
    }

    /// A reference to the element at `index`.
    pub fn index(&self, index: usize) -> (r: &PyArg)
        requires
            index < self@.len(),
        ensures
            *r == self@[index as int],
    {
        &self.items[index]
    }

    /// A mutable reference to the element at `index`.
    pub fn index_mut(&mut self, index: usize) -> (r: &mut PyArg)
        requires
            index < old(self)@.len(),
        ensures
            *r == old(self)@[index as int],
            final(self)@ == old(self)@.update(index as int, *final(r)),
    {
        &mut self.items[index]
    }

    /// Reclaims a list from its boxed boundary handle.
    pub fn from_ptr(ptr: Box<PyList>) -> (r: PyList)
        ensures
            r == *ptr,
    {
        *ptr
    }

    /// Boxes the list behind an owning handle for the host.
    pub fn into_raw(self) -> (r: Box<PyList>)
        ensures
            *r == self,
    {
        Box::new(self)
    }
}

/// Boundary constructor: an empty boxed list with room for `len` elements.
pub fn pylist_new(len: usize) -> (r: Box<PyList>)
    ensures
        r@ == Seq::<PyArg>::empty(),
{
    Box::new(PyList { items: Vec::with_capacity(len) })
}

/// Boundary operation: appends the value behind an owning handle.
pub fn pylist_push(list: &mut PyList, e: Box<PyArg>)
    ensures
        final(list)@ == old(list)@.push(*e),
{
    list.push(*e);
}

/// Boundary operation: the number of elements.
pub fn pylist_len(list: &PyList) -> (r: usize)
    ensures
        r == list@.len(),
{
    list.len()
}

/// Boundary operation: moves the element at `index` out of the list.
pub fn pylist_get_element(list: &mut PyList, index: usize) -> (r: Box<PyArg>)
    requires
        index < old(list)@.len(),
    ensures
        *r == old(list)@[index as int],
        final(list)@ == old(list)@.remove(index as int),
{
    Box::new(list.remove(index))
}

} // verus!
