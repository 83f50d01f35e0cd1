//! Tagged values and containers for exchanging structured data with a
//! dynamically-typed host across a foreign-function boundary, with the
//! shape-directed conversion between them and native nested structures.
pub mod krate;
pub mod pyarg;
pub mod pybool;
pub mod pydict;
pub mod pylist;
pub mod pystring;
pub mod pytuple;
pub mod unpack;

pub use crate::pyarg::PyArg;
pub use crate::pybool::PyBool;
pub use crate::pydict::PyDict;
pub use crate::pylist::PyList;
pub use crate::pystring::PyString;
pub use crate::pytuple::PyTuple;
