//! A map from keys of one of a closed set of kinds to tagged values. The
//! key kind travels with the map, so it cannot be supplied inconsistently.
use vstd::prelude::*;

use crate::pyarg::{ArgKind, Mismatch, PyArg, Value};
use crate::pybool::PyBool;
use crate::pystring::PyString;

verus! {

/// The kinds of value allowed as dictionary keys.
#[derive(Clone, Copy, Debug, PartialEq, Eq, Structural)]
pub enum PyDictK {
    I64,
    I32,
    I16,
    I8,
    U64,
    U32,
    U16,
    U8,
    PyBool,
    PyString,
}

/// The `PyArg` variant that keys of kind `k` take.
pub open spec fn key_arg_kind(k: PyDictK) -> ArgKind {
    match k {
        PyDictK::I64 => ArgKind::I64,
        PyDictK::I32 => ArgKind::I32,
        PyDictK::I16 => ArgKind::I16,
        PyDictK::I8 => ArgKind::I8,
        PyDictK::U64 => ArgKind::U64,
        PyDictK::U32 => ArgKind::U32,
        PyDictK::U16 => ArgKind::U16,
        PyDictK::U8 => ArgKind::U8,
        PyDictK::PyBool => ArgKind::PyBool,
        PyDictK::PyString => ArgKind::PyString,
    }
}

/// The key kind that a host type code names: the codes are those of the
/// host's type table (`1` for u8 through `8` for u64, `11` for bool, `12`
/// for str).
pub open spec fn key_kind_of_code(code: u32) -> Option<PyDictK> {
    if code == 1 {
        Some(PyDictK::U8)
    } else if code == 2 {
        Some(PyDictK::I8)
    } else if code == 3 {
        Some(PyDictK::I16)
    } else if code == 4 {
        Some(PyDictK::U16)
    } else if code == 5 {
        Some(PyDictK::I32)
    } else if code == 6 {
        Some(PyDictK::U32)
    } else if code == 7 {
        Some(PyDictK::I64)
    } else if code == 8 {
        Some(PyDictK::U64)
    } else if code == 11 {
        Some(PyDictK::PyBool)
    } else if code == 12 {
        Some(PyDictK::PyString)
    } else {
        None
    }
}

impl PyDictK {
    /// The `PyArg` variant that keys of this kind take.
    pub fn arg_kind(&self) -> (r: ArgKind)
        ensures
            r == key_arg_kind(*self),
    {
        match self {
            PyDictK::I64 => ArgKind::I64,
            PyDictK::I32 => ArgKind::I32,
            PyDictK::I16 => ArgKind::I16,
            PyDictK::I8 => ArgKind::I8,
            PyDictK::U64 => ArgKind::U64,
            PyDictK::U32 => ArgKind::U32,
            PyDictK::U16 => ArgKind::U16,
            PyDictK::U8 => ArgKind::U8,
            PyDictK::PyBool => ArgKind::PyBool,
            PyDictK::PyString => ArgKind::PyString,
        }
    }
}

/// The native types allowed as dictionary keys, one for each key kind.
pub trait PyDictKey: Sized {
    /// The key kind of this type.
    spec fn spec_key_kind() -> PyDictK;

    /// This key as a tagged value.
    spec fn key_value(self) -> PyArg;

    /// The key kind of this type.
    fn key_kind() -> (r: PyDictK)
        ensures
            r == Self::spec_key_kind(),
    ;

    /// This key as a tagged value, of the variant of its kind.
    fn into_key(self) -> (r: PyArg)
        ensures
            r == self.key_value(),
            r.kind_of() == key_arg_kind(Self::spec_key_kind()),
    ;
}

impl PyDictKey for i64 {
    open spec fn spec_key_kind() -> PyDictK {
        PyDictK::I64
    }

    open spec fn key_value(self) -> PyArg {
        PyArg::I64(self)
    }

    fn key_kind() -> (r: PyDictK) {
        PyDictK::I64
    }

    fn into_key(self) -> (r: PyArg) {
        PyArg::I64(self)
    }
}

impl PyDictKey for i32 {
    open spec fn spec_key_kind() -> PyDictK {
        PyDictK::I32
    }

    open spec fn key_value(self) -> PyArg {
        PyArg::I32(self)
    }

    fn key_kind() -> (r: PyDictK) {
        PyDictK::I32
    }

    fn into_key(self) -> (r: PyArg) {
        PyArg::I32(self)
    }
}

impl PyDictKey for i16 {
    open spec fn spec_key_kind() -> PyDictK {
        PyDictK::I16
    }

    open spec fn key_value(self) -> PyArg {
        PyArg::I16(self)
    }

    fn key_kind() -> (r: PyDictK) {
        PyDictK::I16
    }

    fn into_key(self) -> (r: PyArg) {
        PyArg::I16(self)
    }
}

impl PyDictKey for i8 {
    open spec fn spec_key_kind() -> PyDictK {
        PyDictK::I8
    }

    open spec fn key_value(self) -> PyArg {
        PyArg::I8(self)
    }

    fn key_kind() -> (r: PyDictK) {
        PyDictK::I8
    }

    fn into_key(self) -> (r: PyArg) {
        PyArg::I8(self)
    }
}

impl PyDictKey for u64 {
    open spec fn spec_key_kind() -> PyDictK {
        PyDictK::U64
    }

    open spec fn key_value(self) -> PyArg {
        PyArg::U64(self)
    }

    fn key_kind() -> (r: PyDictK) {
        PyDictK::U64
    }

    fn into_key(self) -> (r: PyArg) {
        PyArg::U64(self)
    }
}

impl PyDictKey for u32 {
    open spec fn spec_key_kind() -> PyDictK {
        PyDictK::U32
    }

    open spec fn key_value(self) -> PyArg {
        PyArg::U32(self)
    }

    fn key_kind() -> (r: PyDictK) {
        PyDictK::U32
    }

    fn into_key(self) -> (r: PyArg) {
        PyArg::U32(self)
    }
}

impl PyDictKey for u16 {
    open spec fn spec_key_kind() -> PyDictK {
        PyDictK::U16
    }

    open spec fn key_value(self) -> PyArg {
        PyArg::U16(self)
    }

    fn key_kind() -> (r: PyDictK) {
        PyDictK::U16
    }

    fn into_key(self) -> (r: PyArg) {
        PyArg::U16(self)
    }
}

impl PyDictKey for u8 {
    open spec fn spec_key_kind() -> PyDictK {
        PyDictK::U8
    }

    open spec fn key_value(self) -> PyArg {
        PyArg::U8(self)
    }

    fn key_kind() -> (r: PyDictK) {
        PyDictK::U8
    }

    fn into_key(self) -> (r: PyArg) {
        PyArg::U8(self)
    }
}

impl PyDictKey for PyBool {
    open spec fn spec_key_kind() -> PyDictK {
        PyDictK::PyBool
    }

    open spec fn key_value(self) -> PyArg {
        PyArg::PyBool(self)
    }

    fn key_kind() -> (r: PyDictK) {
        PyDictK::PyBool
    }

    fn into_key(self) -> (r: PyArg) {
        PyArg::PyBool(self)
    }
}

impl PyDictKey for PyString {
    open spec fn spec_key_kind() -> PyDictK {
        PyDictK::PyString
    }

    open spec fn key_value(self) -> PyArg {
        PyArg::PyString(self)
    }

    fn key_kind() -> (r: PyDictK) {
        PyDictK::PyString
    }

    fn into_key(self) -> (r: PyArg) {
        PyArg::PyString(self)
    }
}

/// A host type code that names no key kind.
#[derive(Clone, Copy, Debug, PartialEq, Eq, Structural)]
pub struct UnsupportedKeyType {
    pub code: u32,
}

/// Resolves a host type code to a key kind; codes of kinds that cannot be
/// keys are rejected.
pub fn pydict_get_key_type(k: u32) -> (r: Result<PyDictK, UnsupportedKeyType>)
    ensures
        key_kind_of_code(k) matches Some(kind) ==> r == Ok::<PyDictK, UnsupportedKeyType>(kind),
        key_kind_of_code(k) is None ==> r == Err::<PyDictK, UnsupportedKeyType>(
            UnsupportedKeyType { code: k },
        ),
{
    match k {
        1 => Ok(PyDictK::U8),
        2 => Ok(PyDictK::I8),
        3 => Ok(PyDictK::I16),
        4 => Ok(PyDictK::U16),
        5 => Ok(PyDictK::I32),
        6 => Ok(PyDictK::U32),
        7 => Ok(PyDictK::I64),
        8 => Ok(PyDictK::U64),
        11 => Ok(PyDictK::PyBool),
        12 => Ok(PyDictK::PyString),
        _ => Err(UnsupportedKeyType { code: k }),
    }
}

/// The position of the entry whose key has the value `key`, if any.
pub open spec fn index_of(s: Seq<(PyArg, PyArg)>, key: Value) -> Option<int> {
    if exists|i: int| 0 <= i < s.len() && (#[trigger] s[i]).0.deep() == key {
        Some(choose|i: int| 0 <= i < s.len() && (#[trigger] s[i]).0.deep() == key)
    } else {
        None
    }
}

/// Every key has the variant of kind `k`, and no two keys are equal.
pub open spec fn entries_wf(s: Seq<(PyArg, PyArg)>, k: PyDictK) -> bool {
    &&& forall|i: int| 0 <= i < s.len() ==> (#[trigger] s[i]).0.kind_of() == key_arg_kind(k)
    &&& forall|i: int, j: int|
        0 <= i < s.len() && 0 <= j < s.len() && i != j ==> (#[trigger] s[i]).0.deep() != (
        #[trigger] s[j]).0.deep()
}

/// An analog of a host dict: entries of (key, value), keys unique and all of
/// the dictionary's key kind. Entries keep the order in which their keys
/// were first inserted.
#[derive(Debug, PartialEq)]
pub struct PyDict {
    pub kind: PyDictK,
    pub entries: Vec<(PyArg, PyArg)>,
}

impl PyDict {
    /// Keys unique and of the dictionary's kind.
    pub open spec fn wf(&self) -> bool {
        entries_wf(self.entries@, self.kind)
    }

    /// The value stored under the key whose value is `key`, if any.
    pub open spec fn lookup(&self, key: Value) -> Option<PyArg> {
        match index_of(self.entries@, key) {
            Some(i) => Some(self.entries@[i].1),
            None => None,
        }
    }

    /// An empty dictionary for keys of kind `kind`.
    pub fn new(kind: PyDictK) -> (r: PyDict)
        ensures
            r.wf(),
            r.kind == kind,
            r.entries@ == Seq::<(PyArg, PyArg)>::empty(),
    {
        PyDict { kind, entries: Vec::new() }
    }

    /// An empty dictionary for keys of type `K`.
    pub fn for_key_type<K: PyDictKey>() -> (r: PyDict)
        ensures
            r.wf(),
            r.kind == K::spec_key_kind(),
            r.entries@ == Seq::<(PyArg, PyArg)>::empty(),
    {
        PyDict::new(K::key_kind())
    }

    /// The number of entries.
    pub fn len(&self) -> (r: usize)
        ensures
            r == self.entries@.len(),
    {
        self.entries.len()
    }

    /// The key kind of this dictionary.
    pub fn key_kind(&self) -> (r: PyDictK)
        ensures
            r == self.kind,
    {
        self.kind
    }

    /// The position of the entry whose key equals `key`.
    fn find(&self, key: &PyArg) -> (r: Option<usize>)
        requires
            self.wf(),
            key.kind_of() == key_arg_kind(self.kind),
        ensures
            r matches Some(i) ==> index_of(self.entries@, key.deep()) == Some(i as int),
            r is None ==> index_of(self.entries@, key.deep()) is None,
    {
        let n = self.entries.len();
        let mut i: usize = 0;
        while i < n
            invariant
                n == self.entries@.len(),
                i <= n,
                self.wf(),
                key.kind_of() == key_arg_kind(self.kind),
                forall|j: int| 0 <= j < i ==> (#[trigger] self.entries@[j]).0.deep() != key.deep(),
            decreases n - i,
        {
            assert(self.entries@[i as int].0.kind_of() == key_arg_kind(self.kind));
            if self.entries[i].0.same_scalar(key) {
                assert(self.entries@[i as int].0.deep() == key.deep());
                return Some(i);
            }
            i = i + 1;
        }
        None
    }

    /// Checks that `key` has this dictionary's key variant.
    fn check_key(&self, key: &PyArg) -> (r: Result<(), Mismatch>)
        ensures
            key.kind_of() == key_arg_kind(self.kind) ==> r is Ok,
            key.kind_of() != key_arg_kind(self.kind) ==> r == Err::<(), Mismatch>(
                Mismatch { expected: key_arg_kind(self.kind), found: key.kind_of() },
            ),
    {
        let expected = self.kind.arg_kind();
        let found = key.kind();
        if expected == found {
            Ok(())
        } else {
            Err(Mismatch { expected, found })
        }
    }

    /// Inserts a (key, value) pair. If the key was present its value is
    /// replaced (the stored key is kept) and the old value returned. A key of
    /// the wrong variant is refused and the dictionary left as it was.
    pub fn insert(&mut self, k: PyArg, v: PyArg) -> (r: Result<Option<PyArg>, Mismatch>)
        requires
            old(self).wf(),
        ensures
            final(self).wf(),
            final(self).kind == old(self).kind,
            k.kind_of() != key_arg_kind(old(self).kind) ==> r == Err::<Option<PyArg>, Mismatch>(
                Mismatch { expected: key_arg_kind(old(self).kind), found: k.kind_of() },
            ) && final(self).entries@ == old(self).entries@,
            k.kind_of() == key_arg_kind(old(self).kind) ==> match index_of(
                old(self).entries@,
                k.deep(),
            ) {
                Some(i) => r == Ok::<Option<PyArg>, Mismatch>(Some(old(self).entries@[i].1))
                    && final(self).entries@ == old(self).entries@.update(
                    i,
                    (old(self).entries@[i].0, v),
                ),
                None => r == Ok::<Option<PyArg>, Mismatch>(None) && final(self).entries@
                    == old(self).entries@.push((k, v)),
            },
    {
        match self.check_key(&k) {
            Err(e) => Err(e),
            Ok(()) => {
                match self.find(&k) {
                    Some(i) => {
                        let mut val = v;
                        std::mem::swap(&mut val, &mut self.entries[i].1);
                        assert(entries_wf(self.entries@, self.kind)) by {
                            assert forall|j: int| 0 <= j < self.entries@.len() implies (
                            #[trigger] self.entries@[j]).0 == old(self).entries@[j].0 by {}
                        }
                        Ok(Some(val))
                    },
                    None => {
                        self.entries.push((k, v));
                        assert(entries_wf(self.entries@, self.kind)) by {
                            let s = self.entries@;
                            let o = old(self).entries@;
                            assert forall|a: int, b: int|
                                0 <= a < s.len() && 0 <= b < s.len() && a != b implies (
                            #[trigger] s[a]).0.deep() != (#[trigger] s[b]).0.deep() by {
                                if a == o.len() as int {
                                    assert(o[b] == s[b]);
                                } else if b == o.len() as int {
                                    assert(o[a] == s[a]);
                                } else {
                                    assert(o[a] == s[a] && o[b] == s[b]);
                                }
                            }
                        }
                        Ok(None)
                    },
                }
            },
        }
    }

    /// A reference to the value stored under `k`. A key of the wrong variant
    /// is refused.
    pub fn get(&self, k: &PyArg) -> (r: Result<Option<&PyArg>, Mismatch>)
        requires
            self.wf(),
        ensures
            k.kind_of() != key_arg_kind(self.kind) ==> r == Err::<Option<&PyArg>, Mismatch>(
                Mismatch { expected: key_arg_kind(self.kind), found: k.kind_of() },
            ),
            k.kind_of() == key_arg_kind(self.kind) ==> match self.lookup(k.deep()) {
                Some(v) => r matches Ok(Some(x)) && *x == v,
                None => r matches Ok(None),
            },
    {
        match self.check_key(k) {
            Err(e) => Err(e),
            Ok(()) => match self.find(k) {
                Some(i) => Ok(Some(&self.entries[i].1)),
                None => Ok(None),
            },
        }
    }

    /// Removes the entry stored under `k`, returning its value. A key of the
    /// wrong variant is refused and the dictionary left as it was.
    pub fn remove(&mut self, k: &PyArg) -> (r: Result<Option<PyArg>, Mismatch>)
        requires
            old(self).wf(),
        ensures
            final(self).wf(),
            final(self).kind == old(self).kind,
            k.kind_of() != key_arg_kind(old(self).kind) ==> r == Err::<Option<PyArg>, Mismatch>(
                Mismatch { expected: key_arg_kind(old(self).kind), found: k.kind_of() },
            ) && final(self).entries@ == old(self).entries@,
            k.kind_of() == key_arg_kind(old(self).kind) ==> match index_of(
                old(self).entries@,
                k.deep(),
            ) {
                Some(i) => r == Ok::<Option<PyArg>, Mismatch>(Some(old(self).entries@[i].1))
                    && final(self).entries@ == old(self).entries@.remove(i),
                None => r == Ok::<Option<PyArg>, Mismatch>(None) && final(self).entries@
                    == old(self).entries@,
            },
    {
        match self.check_key(k) {
            Err(e) => Err(e),
            Ok(()) => match self.find(k) {
                Some(i) => {
                    let (_, v) = self.entries.remove(i);
                    assert(entries_wf(self.entries@, self.kind)) by {
                        let s = self.entries@;
                        let o = old(self).entries@;
                        assert forall|a: int| 0 <= a < s.len() implies #[trigger] s[a] == (if a
                            < i {
                            o[a]
                        } else {
                            o[a + 1]
                        }) by {}
                        assert forall|a: int, b: int|
                            0 <= a < s.len() && 0 <= b < s.len() && a != b implies (
                        #[trigger] s[a]).0.deep() != (#[trigger] s[b]).0.deep() by {
                            let a2 = if a < i { a } else { a + 1 };
                            let b2 = if b < i { b } else { b + 1 };
                            assert(s[a] == o[a2] && s[b] == o[b2]);
                        }
                    }
                    Ok(Some(v))
                },
                None => Ok(None),
            },
        }
    }

    /// Moves every entry out into a one-shot drain, in entry order, leaving
    /// the dictionary empty.
    pub fn drain(&mut self) -> (r: DictDrain)
        requires
            old(self).wf(),
        ensures
            final(self).wf(),
            final(self).kind == old(self).kind,
            final(self).entries@ == Seq::<(PyArg, PyArg)>::empty(),
            r.wf(),
            r.kind == old(self).kind,
            r.remaining() == old(self).entries@,
    {
        let mut pairs: Vec<(PyArg, PyArg)> = Vec::new();
        std::mem::swap(&mut pairs, &mut self.entries);
        let r = DictDrain { kind: self.kind, pairs, next: 0 };
        assert(r.remaining() =~= old(self).entries@);
        r
    }

    /// Reclaims a dictionary from its boxed boundary handle.
    pub fn from_ptr(ptr: Box<PyDict>) -> (r: PyDict)
        ensures
            r == *ptr,
    {
        *ptr
    }

    /// Boxes the dictionary behind an owning handle for the host.
    pub fn into_raw(self) -> (r: Box<PyDict>)
        ensures
            *r == self,
    {
        Box::new(self)
    }
}

/// The entries taken out of a dictionary, handed out one at a time.
#[derive(Debug)]
pub struct DictDrain {
    pub kind: PyDictK,
    pub pairs: Vec<(PyArg, PyArg)>,
    pub next: usize,
}

impl DictDrain {
    /// The position of the next entry lies within the entries.
    pub open spec fn wf(&self) -> bool {
        self.next <= self.pairs@.len()
    }

    /// The entries not handed out yet, in the order they will come.
    pub open spec fn remaining(&self) -> Seq<(PyArg, PyArg)> {
        self.pairs@.subrange(self.next as int, self.pairs@.len() as int)
    }

    /// Hands out the next entry, or `None` once every entry has been.
    pub fn next_pair(&mut self) -> (r: Option<(PyArg, PyArg)>)
        requires
            old(self).wf(),
        ensures
            final(self).wf(),
            final(self).kind == old(self).kind,
            old(self).remaining().len() == 0 ==> r is None && final(self).remaining()
                == old(self).remaining(),
            old(self).remaining().len() > 0 ==> r == Some(old(self).remaining()[0])
                && final(self).remaining() == old(self).remaining().drop_first(),
    {
        if self.next < self.pairs.len() {
            let mut pair = (PyArg::Empty, PyArg::Empty);
            std::mem::swap(&mut pair, &mut self.pairs[self.next]);
            self.next = self.next + 1;
            assert(self.remaining() =~= old(self).remaining().drop_first());
            Some(pair)
        } else {
            None
        }
    }
}

/// A (key, value) pair handed to the host; each half can be taken once.
#[derive(Debug)]
pub struct PyDictPair {
    pub key: PyArg,
    pub val: PyArg,
}

impl PyDictPair {
    /// Boxes a key and a value as a pair for the host.
    pub fn kv_return_tuple(k: PyArg, v: PyArg) -> (r: Box<PyDictPair>)
        ensures
            r.key == k,
            r.val == v,
    {
        Box::new(PyDictPair { key: k, val: v })
    }
}

/// A key-kind tag handed in at the boundary that differs from the map's, or
/// a key of the wrong variant.
#[derive(Clone, Copy, Debug, PartialEq, Eq, Structural)]
pub enum DictError {
    WrongTag { expected: PyDictK, found: PyDictK },
    WrongKey(Mismatch),
}

/// Boundary constructor: an empty boxed dictionary for keys of kind `k_type`.
pub fn pydict_new(k_type: &PyDictK) -> (r: Box<PyDict>)
    ensures
        r.wf(),
        r.kind == *k_type,
        r.entries@ == Seq::<(PyArg, PyArg)>::empty(),
{
    Box::new(PyDict::new(*k_type))
}

/// Checks a boundary tag against the kind the map was made with.
fn check_tag(kind: PyDictK, k_type: &PyDictK) -> (r: Result<(), DictError>)
    ensures
        kind == *k_type ==> r is Ok,
        kind != *k_type ==> r == Err::<(), DictError>(
            DictError::WrongTag { expected: kind, found: *k_type },
        ),
{
    if kind == *k_type {
        Ok(())
    } else {
        Err(DictError::WrongTag { expected: kind, found: *k_type })
    }
}

/// Boundary operation: inserts the pair behind two owning handles; the value
/// replaced, if any, is dropped.
pub fn pydict_insert(dict: &mut PyDict, k_type: &PyDictK, key: Box<PyArg>, value: Box<PyArg>) -> (r:
    Result<(), DictError>)
    requires
        old(dict).wf(),
    ensures
        final(dict).wf(),
        final(dict).kind == old(dict).kind,
        old(dict).kind != *k_type ==> r == Err::<(), DictError>(
            DictError::WrongTag { expected: old(dict).kind, found: *k_type },
        ) && final(dict).entries@ == old(dict).entries@,
        old(dict).kind == *k_type && key.kind_of() != key_arg_kind(old(dict).kind) ==> r == Err::<
            (),
            DictError,
        >(
            DictError::WrongKey(
                Mismatch { expected: key_arg_kind(old(dict).kind), found: key.kind_of() },
            ),
        ) && final(dict).entries@ == old(dict).entries@,
        old(dict).kind == *k_type && key.kind_of() == key_arg_kind(old(dict).kind) ==> r is Ok
            && match index_of(old(dict).entries@, key.deep()) {
            Some(i) => final(dict).entries@ == old(dict).entries@.update(
                i,
                (old(dict).entries@[i].0, *value),
            ),
            None => final(dict).entries@ == old(dict).entries@.push((*key, *value)),
        },
{
    match check_tag(dict.kind, k_type) {
        Err(e) => Err(e),
        Ok(()) => match dict.insert(*key, *value) {
            Err(e) => Err(DictError::WrongKey(e)),
            Ok(_) => Ok(()),
        },
    }
}

/// Boundary operation: a reference to the value stored under `key`.
pub fn pydict_get_element<'a>(dict: &'a PyDict, k_type: &PyDictK, key: &PyArg) -> (r: Result<
    Option<&'a PyArg>,
    DictError,
>)
    requires
        dict.wf(),
    ensures
        dict.kind != *k_type ==> r == Err::<Option<&PyArg>, DictError>(
            DictError::WrongTag { expected: dict.kind, found: *k_type },
        ),
        dict.kind == *k_type && key.kind_of() != key_arg_kind(dict.kind) ==> r == Err::<
            Option<&PyArg>,
            DictError,
        >(DictError::WrongKey(Mismatch { expected: key_arg_kind(dict.kind), found: key.kind_of() })),
        dict.kind == *k_type && key.kind_of() == key_arg_kind(dict.kind) ==> match dict.lookup(
            key.deep(),
        ) {
            Some(v) => r matches Ok(Some(x)) && *x == v,
            None => r matches Ok(None),
        },
{
    match check_tag(dict.kind, k_type) {
        Err(e) => Err(e),
        Ok(()) => match dict.get(key) {
            Err(e) => Err(DictError::WrongKey(e)),
            Ok(v) => Ok(v),
        },
    }
}

/// Boundary operation: empties the dictionary into a boxed drain.
pub fn pydict_get_drain(dict: &mut PyDict, k_type: &PyDictK) -> (r: Result<
    Box<DictDrain>,
    DictError,
>)
    requires
        old(dict).wf(),
    ensures
        final(dict).wf(),
        final(dict).kind == old(dict).kind,
        old(dict).kind != *k_type ==> r == Err::<Box<DictDrain>, DictError>(
            DictError::WrongTag { expected: old(dict).kind, found: *k_type },
        ) && final(dict).entries@ == old(dict).entries@,
        old(dict).kind == *k_type ==> (r matches Ok(d) && d.wf() && d.kind == old(dict).kind
            && d.remaining() == old(dict).entries@ && final(dict).entries@ == Seq::<
            (PyArg, PyArg),
        >::empty()),
{
    match check_tag(dict.kind, k_type) {
        Err(e) => Err(e),
        Ok(()) => Ok(Box::new(dict.drain())),
    }
}

/// Boundary operation: the next pair of a drain, boxed, or `None` once the
/// drain is exhausted.
pub fn pydict_drain_element(iter: &mut DictDrain, k_type: &PyDictK) -> (r: Result<
    Option<Box<PyDictPair>>,
    DictError,
>)
    requires
        old(iter).wf(),
    ensures
        final(iter).wf(),
        final(iter).kind == old(iter).kind,
        old(iter).kind != *k_type ==> r == Err::<Option<Box<PyDictPair>>, DictError>(
            DictError::WrongTag { expected: old(iter).kind, found: *k_type },
        ) && final(iter).remaining() == old(iter).remaining(),
        old(iter).kind == *k_type && old(iter).remaining().len() == 0 ==> (r matches Ok(None)
            && final(iter).remaining() == old(iter).remaining()),
        old(iter).kind == *k_type && old(iter).remaining().len() > 0 ==> (r matches Ok(Some(p))
            && p.key == old(iter).remaining()[0].0 && p.val == old(iter).remaining()[0].1
            && final(iter).remaining() == old(iter).remaining().drop_first()),
{
    match check_tag(iter.kind, k_type) {
        Err(e) => Err(e),
        Ok(()) => match iter.next_pair() {
            Some((k, v)) => Ok(Some(PyDictPair::kv_return_tuple(k, v))),
            None => Ok(None),
        },
    }
}

/// Boundary operation: takes the key (`a == 0`) or the value (`a == 1`) out
/// of a pair, leaving the empty marker in its place.
pub fn pydict_get_kv(a: i32, pair: &mut PyDictPair) -> (r: Box<PyArg>)
    requires
        a == 0 || a == 1,
    ensures
        a == 0 ==> *r == old(pair).key && final(pair).key == PyArg::Empty && final(pair).val == old(
            pair,
        ).val,
        a == 1 ==> *r == old(pair).val && final(pair).val == PyArg::Empty && final(pair).key == old(
            pair,
        ).key,
{
    let mut e = PyArg::Empty;
    if a == 0 {
        std::mem::swap(&mut e, &mut pair.key);
    } else {
        std::mem::swap(&mut e, &mut pair.val);
    }
    Box::new(e)
}

} // verus!
