//! Shape-directed conversion between boundary values and native nested
//! structures. A `Shape` describes the expected nesting of tuples, lists,
//! dictionaries and scalar kinds; `unpack` walks a value against a shape,
//! taking ownership of every part, and `pack` builds the value back.
use vstd::prelude::*;

use crate::pyarg::{ArgKind, Mismatch, PyArg, Value};
use crate::pybool::PyBool;
use crate::pydict::{entries_wf, key_arg_kind, PyDict, PyDictK};
use crate::pylist::PyList;
use crate::pystring::PyString;
use crate::pytuple::PyTuple;

verus! {

/// The scalar kinds a shape can ask for.
#[derive(Clone, Copy, Debug, PartialEq, Eq, Structural)]
pub enum ScalarKind {
    I64,
    I32,
    I16,
    I8,
    U64,
    U32,
    U16,
    U8,
    F32,
    F64,
    PyBool,
    PyString,
}

/// The expected structure of a value.
#[derive(Debug)]
pub enum Shape {
    Scalar(ScalarKind),
    Tuple(Vec<Shape>),
    List(Box<Shape>),
    Dict(PyDictK, Box<Shape>),
}

/// The model of a `Shape`.
pub enum ShapeV {
    Scalar(ScalarKind),
    Tuple(Seq<ShapeV>),
    List(Box<ShapeV>),
    Dict(PyDictK, Box<ShapeV>),
}

/// A native nested structure: numbers (floats by their bits), booleans,
/// owned strings, and vectors standing for tuples, lists and maps.
#[derive(Debug, PartialEq)]
pub enum Native {
    I64(i64),
    I32(i32),
    I16(i16),
    I8(i8),
    U64(u64),
    U32(u32),
    U16(u16),
    U8(u8),
    F32(u32),
    F64(u64),
    Bool(bool),
    Str(String),
    Tuple(Vec<Native>),
    List(Vec<Native>),
    Dict(Vec<(Native, Native)>),
}

/// The model of a `Native`.
pub enum NativeV {
    I64(i64),
    I32(i32),
    I16(i16),
    I8(i8),
    U64(u64),
    U32(u32),
    U16(u16),
    U8(u8),
    F32(u32),
    F64(u64),
    Bool(bool),
    Str(Seq<char>),
    Tuple(Seq<NativeV>),
    List(Seq<NativeV>),
    Dict(Seq<(NativeV, NativeV)>),
}

/// What a failed `unpack` ran into.
#[derive(Clone, Copy, Debug, PartialEq, Eq, Structural)]
pub enum UnpackError {
    /// A value of one variant stood where the shape asked for another.
    Mismatch(Mismatch),
    /// A tuple had a different number of slots than the shape.
    Arity { expected: usize, found: usize },
    /// A dictionary had a different key kind than the shape.
    KeyKind { expected: PyDictK, found: PyDictK },
}

impl Shape {
    /// The model of this shape.
    pub open spec fn model(self) -> ShapeV
        decreases self,
    {
        match self {
            Shape::Scalar(k) => ShapeV::Scalar(k),
            Shape::Tuple(ss) => ShapeV::Tuple(
                Seq::new(
                    ss@.len(),
                    |i: int|
                        if 0 <= i < ss@.len() {
                            ss@[i].model()
                        } else {
                            ShapeV::Scalar(ScalarKind::I64)
                        },
                ),
            ),
            Shape::List(e) => ShapeV::List(Box::new((*e).model())),
            Shape::Dict(k, e) => ShapeV::Dict(k, Box::new((*e).model())),
        }
    }
}

impl Native {
    /// The model of this structure.
    pub open spec fn model(self) -> NativeV
        decreases self,
    {
        match self {
            Native::I64(v) => NativeV::I64(v),
            Native::I32(v) => NativeV::I32(v),
            Native::I16(v) => NativeV::I16(v),
            Native::I8(v) => NativeV::I8(v),
            Native::U64(v) => NativeV::U64(v),
            Native::U32(v) => NativeV::U32(v),
            Native::U16(v) => NativeV::U16(v),
            Native::U8(v) => NativeV::U8(v),
            Native::F32(v) => NativeV::F32(v),
            Native::F64(v) => NativeV::F64(v),
            Native::Bool(b) => NativeV::Bool(b),
            Native::Str(s) => NativeV::Str(s@),
            Native::Tuple(ns) => NativeV::Tuple(
                Seq::new(
                    ns@.len(),
                    |i: int|
                        if 0 <= i < ns@.len() {
                            ns@[i].model()
                        } else {
                            NativeV::Bool(false)
                        },
                ),
            ),
            Native::List(ns) => NativeV::List(
                Seq::new(
                    ns@.len(),
                    |i: int|
                        if 0 <= i < ns@.len() {
                            ns@[i].model()
                        } else {
                            NativeV::Bool(false)
                        },
                ),
            ),
            Native::Dict(ps) => NativeV::Dict(
                Seq::new(
                    ps@.len(),
                    |i: int|
                        if 0 <= i < ps@.len() {
                            (ps@[i].0.model(), ps@[i].1.model())
                        } else {
                            (NativeV::Bool(false), NativeV::Bool(false))
                        },
                ),
            ),
        }
    }
}

/// The scalar kind that keys of kind `k` unpack as.
pub open spec fn key_scalar(k: PyDictK) -> ScalarKind {
    match k {
        PyDictK::I64 => ScalarKind::I64,
        PyDictK::I32 => ScalarKind::I32,
        PyDictK::I16 => ScalarKind::I16,
        PyDictK::I8 => ScalarKind::I8,
        PyDictK::U64 => ScalarKind::U64,
        PyDictK::U32 => ScalarKind::U32,
        PyDictK::U16 => ScalarKind::U16,
        PyDictK::U8 => ScalarKind::U8,
        PyDictK::PyBool => ScalarKind::PyBool,
        PyDictK::PyString => ScalarKind::PyString,
    }
}

/// The `PyArg` variant that holds scalars of kind `k`.
pub open spec fn scalar_arg_kind(k: ScalarKind) -> ArgKind {
    match k {
        ScalarKind::I64 => ArgKind::I64,
        ScalarKind::I32 => ArgKind::I32,
        ScalarKind::I16 => ArgKind::I16,
        ScalarKind::I8 => ArgKind::I8,
        ScalarKind::U64 => ArgKind::U64,
        ScalarKind::U32 => ArgKind::U32,
        ScalarKind::U16 => ArgKind::U16,
        ScalarKind::U8 => ArgKind::U8,
        ScalarKind::F32 => ArgKind::F32,
        ScalarKind::F64 => ArgKind::F64,
        ScalarKind::PyBool => ArgKind::PyBool,
        ScalarKind::PyString => ArgKind::PyString,
    }
}

/// The scalar kind of a native scalar; `None` for a native container.
pub open spec fn native_scalar_kind(n: NativeV) -> Option<ScalarKind> {
    match n {
        NativeV::I64(_) => Some(ScalarKind::I64),
        NativeV::I32(_) => Some(ScalarKind::I32),
        NativeV::I16(_) => Some(ScalarKind::I16),
        NativeV::I8(_) => Some(ScalarKind::I8),
        NativeV::U64(_) => Some(ScalarKind::U64),
        NativeV::U32(_) => Some(ScalarKind::U32),
        NativeV::U16(_) => Some(ScalarKind::U16),
        NativeV::U8(_) => Some(ScalarKind::U8),
        NativeV::F32(_) => Some(ScalarKind::F32),
        NativeV::F64(_) => Some(ScalarKind::F64),
        NativeV::Bool(_) => Some(ScalarKind::PyBool),
        NativeV::Str(_) => Some(ScalarKind::PyString),
        _ => None,
    }
}

/// A scalar value read as a native scalar of kind `k`, if it is one.
pub open spec fn unpack_scalar(v: Value, k: ScalarKind) -> Option<NativeV> {
    match (v, k) {
        (Value::I64(x), ScalarKind::I64) => Some(NativeV::I64(x)),
        (Value::I32(x), ScalarKind::I32) => Some(NativeV::I32(x)),
        (Value::I16(x), ScalarKind::I16) => Some(NativeV::I16(x)),
        (Value::I8(x), ScalarKind::I8) => Some(NativeV::I8(x)),
        (Value::U64(x), ScalarKind::U64) => Some(NativeV::U64(x)),
        (Value::U32(x), ScalarKind::U32) => Some(NativeV::U32(x)),
        (Value::U16(x), ScalarKind::U16) => Some(NativeV::U16(x)),
        (Value::U8(x), ScalarKind::U8) => Some(NativeV::U8(x)),
        (Value::F32(x), ScalarKind::F32) => Some(NativeV::F32(x)),
        (Value::F64(x), ScalarKind::F64) => Some(NativeV::F64(x)),
        (Value::Bool(x), ScalarKind::PyBool) => Some(NativeV::Bool(x)),
        (Value::Text(x), ScalarKind::PyString) => Some(NativeV::Str(x)),
        _ => None,
    }
}

/// The boundary value of a native scalar.
pub open spec fn pack_scalar(n: NativeV) -> Value {
    match n {
        NativeV::I64(x) => Value::I64(x),
        NativeV::I32(x) => Value::I32(x),
        NativeV::I16(x) => Value::I16(x),
        NativeV::I8(x) => Value::I8(x),
        NativeV::U64(x) => Value::U64(x),
        NativeV::U32(x) => Value::U32(x),
        NativeV::U16(x) => Value::U16(x),
        NativeV::U8(x) => Value::U8(x),
        NativeV::F32(x) => Value::F32(x),
        NativeV::F64(x) => Value::F64(x),
        NativeV::Bool(x) => Value::Bool(x),
        NativeV::Str(x) => Value::Text(x),
        _ => Value::Empty,
    }
}

/// Every element is `Some`.
pub open spec fn all_some(rs: Seq<Option<NativeV>>) -> bool {
    forall|i: int| 0 <= i < rs.len() ==> (#[trigger] rs[i]) is Some
}

/// The payloads of a sequence of `Some`s.
pub open spec fn unwrap_all(rs: Seq<Option<NativeV>>) -> Seq<NativeV> {
    Seq::new(rs.len(), |i: int| rs[i]->0)
}

/// Every element is `true`.
pub open spec fn all_true(bs: Seq<bool>) -> bool {
    forall|i: int| 0 <= i < bs.len() ==> #[trigger] bs[i]
}

/// The tuple slots `vs` unpacked against the shapes `ss`, slot by slot.
pub open spec fn unpack_slots(vs: Seq<Value>, ss: Seq<ShapeV>) -> Seq<Option<NativeV>>
    decreases ss, 1int,
{
    Seq::new(
        ss.len(),
        |i: int|
            if 0 <= i < ss.len() {
                unpack_value(vs[i], ss[i])
            } else {
                None
            },
    )
}

/// The elements `vs` each unpacked against the shape `e`.
pub open spec fn unpack_elems(vs: Seq<Value>, e: ShapeV) -> Seq<Option<NativeV>>
    decreases e, 1int,
{
    Seq::new(vs.len(), |i: int| unpack_value(vs[i], e))
}

/// The keys of the entries `ps`, each unpacked as a scalar of kind `k`.
pub open spec fn unpack_keys(ps: Seq<(Value, Value)>, k: ScalarKind) -> Seq<Option<NativeV>> {
    Seq::new(ps.len(), |i: int| unpack_scalar(ps[i].0, k))
}

/// The values of the entries `ps`, each unpacked against the shape `e`.
pub open spec fn unpack_vals(ps: Seq<(Value, Value)>, e: ShapeV) -> Seq<Option<NativeV>>
    decreases e, 1int,
{
    Seq::new(ps.len(), |i: int| unpack_value(ps[i].1, e))
}

/// The native structure that value `v` unpacks to against shape `s`, or
/// `None` where some part of `v` does not have the variant, arity or key
/// kind that `s` asks for (an emptied slot matches no shape).
pub open spec fn unpack_value(v: Value, s: ShapeV) -> Option<NativeV>
    decreases s, 0int,
{
    match s {
        ShapeV::Scalar(k) => unpack_scalar(v, k),
        ShapeV::Tuple(ss) => match v {
            Value::Tuple(vs) => if vs.len() == ss.len() && all_some(unpack_slots(vs, ss)) {
                Some(NativeV::Tuple(unwrap_all(unpack_slots(vs, ss))))
            } else {
                None
            },
            _ => None,
        },
        ShapeV::List(e) => match v {
            Value::List(vs) => if all_some(unpack_elems(vs, *e)) {
                Some(NativeV::List(unwrap_all(unpack_elems(vs, *e))))
            } else {
                None
            },
            _ => None,
        },
        ShapeV::Dict(k, e) => match v {
            Value::Dict(k2, ps) => if k2 == k && all_some(unpack_keys(ps, key_scalar(k)))
                && all_some(unpack_vals(ps, *e)) {
                Some(
                    NativeV::Dict(
                        Seq::new(
                            ps.len(),
                            |i: int|
                                (
                                    unpack_keys(ps, key_scalar(k))[i]->0,
                                    unpack_vals(ps, *e)[i]->0,
                                ),
                        ),
                    ),
                )
            } else {
                None
            },
            _ => None,
        },
    }
}

/// Whether each element of `ns` has the form of the shape at its position.
pub open spec fn slots_conform(ns: Seq<NativeV>, ss: Seq<ShapeV>) -> Seq<bool>
    decreases ss, 1int,
{
    Seq::new(
        ss.len(),
        |i: int|
            if 0 <= i < ss.len() {
                conforms(ns[i], ss[i])
            } else {
                true
            },
    )
}

/// Whether each element of `ns` has the form of shape `e`.
pub open spec fn elems_conform(ns: Seq<NativeV>, e: ShapeV) -> Seq<bool>
    decreases e, 1int,
{
    Seq::new(ns.len(), |i: int| conforms(ns[i], e))
}

/// Whether the value of each entry of `ps` has the form of shape `e`.
pub open spec fn vals_conform(ps: Seq<(NativeV, NativeV)>, e: ShapeV) -> Seq<bool>
    decreases e, 1int,
{
    Seq::new(ps.len(), |i: int| conforms(ps[i].1, e))
}

/// Native structure `n` has the form shape `s` describes; the keys of each
/// map are distinct.
pub open spec fn conforms(n: NativeV, s: ShapeV) -> bool
    decreases s, 0int,
{
    match s {
        ShapeV::Scalar(k) => native_scalar_kind(n) == Some(k),
        ShapeV::Tuple(ss) => match n {
            NativeV::Tuple(ns) => ns.len() == ss.len() && all_true(slots_conform(ns, ss)),
            _ => false,
        },
        ShapeV::List(e) => match n {
            NativeV::List(ns) => all_true(elems_conform(ns, *e)),
            _ => false,
        },
        ShapeV::Dict(k, e) => match n {
            NativeV::Dict(ps) => {
                &&& forall|i: int|
                    0 <= i < ps.len() ==> native_scalar_kind((#[trigger] ps[i]).0) == Some(
                        key_scalar(k),
                    )
                &&& all_true(vals_conform(ps, *e))
                &&& forall|i: int, j: int|
                    0 <= i < ps.len() && 0 <= j < ps.len() && i != j ==> (#[trigger] ps[i]).0 != (
                    #[trigger] ps[j]).0
            },
            _ => false,
        },
    }
}

/// The tuple slots `ns` packed under the shapes `ss`, slot by slot.
pub open spec fn pack_slots(ns: Seq<NativeV>, ss: Seq<ShapeV>) -> Seq<Value>
    decreases ss, 1int,
{
    Seq::new(
        ns.len(),
        |i: int|
            if 0 <= i < ss.len() {
                pack_value(ns[i], ss[i])
            } else {
                Value::Empty
            },
    )
}

/// The elements `ns` each packed under shape `e`.
pub open spec fn pack_elems(ns: Seq<NativeV>, e: ShapeV) -> Seq<Value>
    decreases e, 1int,
{
    Seq::new(ns.len(), |i: int| pack_value(ns[i], e))
}

/// The entries `ps`, keys packed as scalars and values under shape `e`.
pub open spec fn pack_entries(ps: Seq<(NativeV, NativeV)>, e: ShapeV) -> Seq<(Value, Value)>
    decreases e, 1int,
{
    Seq::new(ps.len(), |i: int| (pack_scalar(ps[i].0), pack_value(ps[i].1, e)))
}

/// The boundary value that native structure `n` packs to under shape `s`.
pub open spec fn pack_value(n: NativeV, s: ShapeV) -> Value
    decreases s, 0int,
{
    match s {
        ShapeV::Scalar(_) => pack_scalar(n),
        ShapeV::Tuple(ss) => match n {
            NativeV::Tuple(ns) => Value::Tuple(pack_slots(ns, ss)),
            _ => Value::Empty,
        },
        ShapeV::List(e) => match n {
            NativeV::List(ns) => Value::List(pack_elems(ns, *e)),
            _ => Value::Empty,
        },
        ShapeV::Dict(k, e) => match n {
            NativeV::Dict(ps) => Value::Dict(k, pack_entries(ps, *e)),
            _ => Value::Empty,
        },
    }
}

/// Round trip: a native structure that has the form of a shape, packed to a
/// boundary value under that shape and unpacked against it again, comes
/// back unchanged.
pub proof fn lemma_round_trip(n: NativeV, s: ShapeV)
    requires
        conforms(n, s),
    ensures
        unpack_value(pack_value(n, s), s) == Some(n),
    decreases s,
{
    match s {
        ShapeV::Scalar(k) => {},
        ShapeV::Tuple(ss) => {
            let ns = n->Tuple_0;
            let vs = pack_slots(ns, ss);
            assert forall|i: int| 0 <= i < ss.len() implies #[trigger] unpack_slots(vs, ss)[i]
                == Some(ns[i]) by {
                assert(slots_conform(ns, ss)[i]);
                lemma_round_trip(ns[i], ss[i]);
            }
            assert(all_some(unpack_slots(vs, ss)));
            assert(unwrap_all(unpack_slots(vs, ss)) =~= ns);
        },
        ShapeV::List(e) => {
            let ns = n->List_0;
            let vs = pack_elems(ns, *e);
            assert forall|i: int| 0 <= i < vs.len() implies #[trigger] unpack_elems(vs, *e)[i]
                == Some(ns[i]) by {
                assert(elems_conform(ns, *e)[i]);
                lemma_round_trip(ns[i], *e);
            }
            assert(all_some(unpack_elems(vs, *e)));
            assert(unwrap_all(unpack_elems(vs, *e)) =~= ns);
        },
        ShapeV::Dict(k, e) => {
            let ps = n->Dict_0;
            let qs = pack_entries(ps, *e);
            assert forall|i: int| 0 <= i < qs.len() implies #[trigger] unpack_keys(
                qs,
                key_scalar(k),
            )[i] == Some(ps[i].0) by {
                assert(native_scalar_kind(ps[i].0) == Some(key_scalar(k)));
            }
            assert forall|i: int| 0 <= i < qs.len() implies #[trigger] unpack_vals(qs, *e)[i]
                == Some(ps[i].1) by {
                assert(vals_conform(ps, *e)[i]);
                lemma_round_trip(ps[i].1, *e);
            }
            assert(all_some(unpack_keys(qs, key_scalar(k))));
            assert(all_some(unpack_vals(qs, *e)));
            assert(unpack_value(pack_value(n, s), s)->0->Dict_0 =~= ps);
        },
    }
}

/// Nothing is lost by unpacking: the native structure that a value unpacks
/// to against a shape packs under that shape back to the same value.
pub proof fn lemma_unpack_then_pack(v: Value, s: ShapeV)
    requires
        unpack_value(v, s) is Some,
    ensures
        pack_value(unpack_value(v, s)->0, s) == v,
    decreases s,
{
    let n = unpack_value(v, s)->0;
    match s {
        ShapeV::Scalar(k) => {},
        ShapeV::Tuple(ss) => {
            let vs = v->Tuple_0;
            let rs = unpack_slots(vs, ss);
            assert forall|i: int| 0 <= i < vs.len() implies #[trigger] pack_slots(n->Tuple_0, ss)[i]
                == vs[i] by {
                assert(rs[i] is Some);
                lemma_unpack_then_pack(vs[i], ss[i]);
            }
            assert(pack_slots(n->Tuple_0, ss) =~= vs);
        },
        ShapeV::List(e) => {
            let vs = v->List_0;
            let rs = unpack_elems(vs, *e);
            assert forall|i: int| 0 <= i < vs.len() implies #[trigger] pack_elems(n->List_0, *e)[i]
                == vs[i] by {
                assert(rs[i] is Some);
                lemma_unpack_then_pack(vs[i], *e);
            }
            assert(pack_elems(n->List_0, *e) =~= vs);
        },
        ShapeV::Dict(k, e) => {
            let ps = v->Dict_1;
            let ks = unpack_keys(ps, key_scalar(k));
            let rs = unpack_vals(ps, *e);
            assert forall|i: int| 0 <= i < ps.len() implies #[trigger] pack_entries(
                n->Dict_0,
                *e,
            )[i] == ps[i] by {
                assert(ks[i] is Some);
                assert(rs[i] is Some);
                lemma_unpack_then_pack(ps[i].1, *e);
            }
            assert(pack_entries(n->Dict_0, *e) =~= ps);
        },
    }
}

impl ScalarKind {
    /// The `PyArg` variant that holds scalars of this kind.
    pub fn arg_kind(&self) -> (r: ArgKind)
        ensures
            r == scalar_arg_kind(*self),
    {
        match self {
            ScalarKind::I64 => ArgKind::I64,
            ScalarKind::I32 => ArgKind::I32,
            ScalarKind::I16 => ArgKind::I16,
            ScalarKind::I8 => ArgKind::I8,
            ScalarKind::U64 => ArgKind::U64,
            ScalarKind::U32 => ArgKind::U32,
            ScalarKind::U16 => ArgKind::U16,
            ScalarKind::U8 => ArgKind::U8,
            ScalarKind::F32 => ArgKind::F32,
            ScalarKind::F64 => ArgKind::F64,
            ScalarKind::PyBool => ArgKind::PyBool,
            ScalarKind::PyString => ArgKind::PyString,
        }
    }
}

/// The scalar kind that keys of kind `k` unpack as.
pub fn key_scalar_kind(k: PyDictK) -> (r: ScalarKind)
    ensures
        r == key_scalar(k),
{
    match k {
        PyDictK::I64 => ScalarKind::I64,
        PyDictK::I32 => ScalarKind::I32,
        PyDictK::I16 => ScalarKind::I16,
        PyDictK::I8 => ScalarKind::I8,
        PyDictK::U64 => ScalarKind::U64,
        PyDictK::U32 => ScalarKind::U32,
        PyDictK::U16 => ScalarKind::U16,
        PyDictK::U8 => ScalarKind::U8,
        PyDictK::PyBool => ScalarKind::PyBool,
        PyDictK::PyString => ScalarKind::PyString,
    }
}

/// The `PyArg` variant that a value of shape `s` has at its top.
pub open spec fn shape_arg_kind(s: Shape) -> ArgKind {
    match s {
        Shape::Scalar(k) => scalar_arg_kind(k),
        Shape::Tuple(_) => ArgKind::PyTuple,
        Shape::List(_) => ArgKind::PyList,
        Shape::Dict(_, _) => ArgKind::PyDict,
    }
}

/// Takes the payload of a scalar value of kind `k`.
pub fn unpack_scalar_arg(a: PyArg, k: ScalarKind) -> (r: Result<Native, UnpackError>)
    ensures
        r matches Ok(n) ==> unpack_scalar(a.deep(), k) == Some(n.model()),
        r matches Err(e) ==> unpack_scalar(a.deep(), k) is None && e == UnpackError::Mismatch(
            Mismatch { expected: scalar_arg_kind(k), found: a.kind_of() },
        ),
{
    let found = a.kind();
    let expected = k.arg_kind();
    match a {
        PyArg::I64(x) if k == ScalarKind::I64 => Ok(Native::I64(x)),
        PyArg::I32(x) if k == ScalarKind::I32 => Ok(Native::I32(x)),
        PyArg::I16(x) if k == ScalarKind::I16 => Ok(Native::I16(x)),
        PyArg::I8(x) if k == ScalarKind::I8 => Ok(Native::I8(x)),
        PyArg::U64(x) if k == ScalarKind::U64 => Ok(Native::U64(x)),
        PyArg::U32(x) if k == ScalarKind::U32 => Ok(Native::U32(x)),
        PyArg::U16(x) if k == ScalarKind::U16 => Ok(Native::U16(x)),
        PyArg::U8(x) if k == ScalarKind::U8 => Ok(Native::U8(x)),
        PyArg::F32(x) if k == ScalarKind::F32 => Ok(Native::F32(x)),
        PyArg::F64(x) if k == ScalarKind::F64 => Ok(Native::F64(x)),
        PyArg::PyBool(b) if k == ScalarKind::PyBool => Ok(Native::Bool(b.to_bool())),
        PyArg::PyString(t) if k == ScalarKind::PyString => Ok(Native::Str(t.into_string())),
        _ => Err(UnpackError::Mismatch(Mismatch { expected, found })),
    }
}

/// Walks `a` against shape `s`, taking ownership of every part: tuple slots
/// are taken out one by one, leaving the empty marker, and lists and
/// dictionaries are emptied in order. Succeeds exactly when every part has
/// the variant, arity and key kind the shape asks for, and then returns the
/// native structure of the same values.
#[verifier::loop_isolation(false)]
pub fn unpack(a: PyArg, s: &Shape) -> (r: Result<Native, UnpackError>)
    ensures
        r matches Ok(n) ==> unpack_value(a.deep(), s.model()) == Some(n.model()),
        r is Err ==> unpack_value(a.deep(), s.model()) is None,
        shape_arg_kind(*s) != a.kind_of() ==> r == Err::<Native, UnpackError>(
            UnpackError::Mismatch(Mismatch { expected: shape_arg_kind(*s), found: a.kind_of() }),
        ),
        *s is Tuple && a is PyTuple && a->PyTuple_0@.len() != s->Tuple_0@.len() ==> r == Err::<
            Native,
            UnpackError,
        >(
            UnpackError::Arity {
                expected: s->Tuple_0@.len() as usize,
                found: a->PyTuple_0@.len() as usize,
            },
        ),
        *s is Dict && a is PyDict && a->PyDict_0.kind != s->Dict_0 ==> r == Err::<
            Native,
            UnpackError,
        >(UnpackError::KeyKind { expected: s->Dict_0, found: a->PyDict_0.kind }),
    decreases s,
{
    let ghost av = a.deep();
    let ghost sm = s.model();
    let found = a.kind();
    match s {
        Shape::Scalar(k) => unpack_scalar_arg(a, *k),
        Shape::Tuple(ss) => match a {
            PyArg::PyTuple(t) => {
                let mut t = *t;
                let n = t.len();
                let ghost orig = t.elems@;
                let ghost vs = av->Tuple_0;
                let ghost sms = sm->Tuple_0;
                assert(vs.len() == n);
                assert forall|j: int| 0 <= j < n implies #[trigger] vs[j] == orig[j].deep() by {}
                if n != ss.len() {
                    return Err(UnpackError::Arity { expected: ss.len(), found: n });
                }
                assert forall|j: int| 0 <= j < n implies #[trigger] sms[j] == ss@[j].model() by {}
                let mut out: Vec<Native> = Vec::new();
                let mut i: usize = 0;
                while i < n
                    invariant
                        n == ss@.len(),
                        n == orig.len(),
                        t.elems@.len() == n,
                        i <= n,
                        out@.len() == i,
                        vs.len() == n,
                        sms.len() == n,
                        forall|j: int| 0 <= j < n ==> #[trigger] vs[j] == orig[j].deep(),
                        forall|j: int| 0 <= j < n ==> #[trigger] sms[j] == ss@[j].model(),
                        forall|j: int| i <= j < n ==> #[trigger] t.elems@[j] == orig[j],
                        forall|j: int|
                            0 <= j < i ==> unpack_value(vs[j], sms[j]) == Some(
                                (#[trigger] out@[j]).model(),
                            ),
                        sm == ShapeV::Tuple(sms),
                        *s == Shape::Tuple(*ss),
                    decreases n - i,
                {
                    let e = match t.replace_elem(i) {
                        Ok(e) => e,
                        Err(_) => {
                            assert(false);
                            return Err(UnpackError::Arity { expected: n, found: n });
                        },
                    };
                    assert(e == orig[i as int]);
                    match unpack(e, &ss[i]) {
                        Ok(x) => {
                            out.push(x);
                        },
                        Err(err) => {
                            assert(unpack_slots(vs, sms)[i as int] is None);
                            return Err(err);
                        },
                    }
                    i = i + 1;
                }
                assert forall|j: int| 0 <= j < n implies #[trigger] unpack_slots(vs, sms)[j]
                    == Some(out@[j].model()) by {}
                assert(all_some(unpack_slots(vs, sms)));
                let r = Native::Tuple(out);
                assert(r.model()->Tuple_0 =~= unwrap_all(unpack_slots(vs, sms)));
                Ok(r)
            },
            _ => Err(UnpackError::Mismatch(Mismatch { expected: ArgKind::PyTuple, found })),
        },
        Shape::List(e) => match a {
            PyArg::PyList(l) => {
                let mut l = *l;
                let n = l.items.len();
                let ghost orig = l.items@;
                let ghost vs = av->List_0;
                let ghost es: ShapeV = *(sm->List_0);
                assert(es == (**e).model());
                assert(vs.len() == n);
                assert forall|j: int| 0 <= j < n implies #[trigger] vs[j] == orig[j].deep() by {}
                let mut out: Vec<Native> = Vec::new();
                let mut i: usize = 0;
                while i < n
                    invariant
                        n == orig.len(),
                        l.items@.len() == n,
                        i <= n,
                        out@.len() == i,
                        vs.len() == n,
                        es == (**e).model(),
                        forall|j: int| 0 <= j < n ==> #[trigger] vs[j] == orig[j].deep(),
                        forall|j: int| i <= j < n ==> #[trigger] l.items@[j] == orig[j],
                        forall|j: int|
                            0 <= j < i ==> unpack_value(vs[j], es) == Some(
                                (#[trigger] out@[j]).model(),
                            ),
                        *s == Shape::List(*e),
                    decreases n - i,
                {
                    let mut x = PyArg::Empty;
                    std::mem::swap(&mut x, &mut l.items[i]);
                    assert(x == orig[i as int]);
                    match unpack(x, &**e) {
                        Ok(y) => {
                            out.push(y);
                        },
                        Err(err) => {
                            assert(unpack_elems(vs, es)[i as int] is None);
                            return Err(err);
                        },
                    }
                    i = i + 1;
                }
                assert forall|j: int| 0 <= j < n implies #[trigger] unpack_elems(vs, es)[j]
                    == Some(out@[j].model()) by {}
                assert(all_some(unpack_elems(vs, es)));
                let r = Native::List(out);
                assert(r.model()->List_0 =~= unwrap_all(unpack_elems(vs, es)));
                Ok(r)
            },
            _ => Err(UnpackError::Mismatch(Mismatch { expected: ArgKind::PyList, found })),
        },
        Shape::Dict(k, e) => match a {
            PyArg::PyDict(d) => {
                let mut d = *d;
                if d.kind != *k {
                    return Err(UnpackError::KeyKind { expected: *k, found: d.kind });
                }
                let ks = key_scalar_kind(*k);
                let n = d.entries.len();
                let ghost orig = d.entries@;
                let ghost ps = av->Dict_1;
                let ghost es: ShapeV = *(sm->Dict_1);
                assert(es == (**e).model());
                assert(ps.len() == n);
                assert forall|j: int| 0 <= j < n implies #[trigger] ps[j] == (
                    orig[j].0.deep(),
                    orig[j].1.deep(),
                ) by {}
                let mut out: Vec<(Native, Native)> = Vec::new();
                let mut i: usize = 0;
                while i < n
                    invariant
                        n == orig.len(),
                        d.entries@.len() == n,
                        i <= n,
                        out@.len() == i,
                        ps.len() == n,
                        es == (**e).model(),
                        ks == key_scalar(*k),
                        forall|j: int|
                            0 <= j < n ==> #[trigger] ps[j] == (orig[j].0.deep(), orig[j].1.deep()),
                        forall|j: int| i <= j < n ==> #[trigger] d.entries@[j] == orig[j],
                        forall|j: int|
                            0 <= j < i ==> unpack_keys(ps, ks)[j] == Some(
                                (#[trigger] out@[j]).0.model(),
                            ) && unpack_vals(ps, es)[j] == Some(out@[j].1.model()),
                        *s == Shape::Dict(*k, *e),
                    decreases n - i,
                {
                    let mut pair = (PyArg::Empty, PyArg::Empty);
                    std::mem::swap(&mut pair, &mut d.entries[i]);
                    assert(pair == orig[i as int]);
                    let (key, val) = pair;
                    let kn = match unpack_scalar_arg(key, ks) {
                        Ok(kn) => kn,
                        Err(err) => {
                            assert(unpack_keys(ps, ks)[i as int] is None);
                            return Err(err);
                        },
                    };
                    match unpack(val, &**e) {
                        Ok(vn) => {
                            out.push((kn, vn));
                        },
                        Err(err) => {
                            assert(unpack_vals(ps, es)[i as int] is None);
                            return Err(err);
                        },
                    }
                    i = i + 1;
                }
                assert forall|j: int| 0 <= j < n implies #[trigger] unpack_keys(ps, ks)[j]
                    == Some(out@[j].0.model()) by {}
                assert forall|j: int| 0 <= j < n implies #[trigger] unpack_vals(ps, es)[j]
                    == Some(out@[j].1.model()) by {}
                assert(all_some(unpack_keys(ps, ks)));
                assert(all_some(unpack_vals(ps, es)));
                let r = Native::Dict(out);
                assert(r.model()->Dict_0 =~= unpack_value(av, sm)->0->Dict_0);
                Ok(r)
            },
            _ => Err(UnpackError::Mismatch(Mismatch { expected: ArgKind::PyDict, found })),
        },
    }
}

/// The boundary value of a native scalar.
pub fn pack_scalar_native(n: Native) -> (r: PyArg)
    requires
        native_scalar_kind(n.model()) is Some,
    ensures
        r.deep() == pack_scalar(n.model()),
{
    match n {
        Native::I64(x) => PyArg::I64(x),
        Native::I32(x) => PyArg::I32(x),
        Native::I16(x) => PyArg::I16(x),
        Native::I8(x) => PyArg::I8(x),
        Native::U64(x) => PyArg::U64(x),
        Native::U32(x) => PyArg::U32(x),
        Native::U16(x) => PyArg::U16(x),
        Native::U8(x) => PyArg::U8(x),
        Native::F32(x) => PyArg::F32(x),
        Native::F64(x) => PyArg::F64(x),
        Native::Bool(b) => PyArg::PyBool(PyBool::new(b)),
        Native::Str(t) => PyArg::PyString(PyString::from_string(t)),
        _ => PyArg::Empty,
    }
}

/// Builds the boundary value of a native structure of the form `s`, bottom
/// up: every leaf tagged, every container boxed into its parent, every map
/// made with the key kind `s` names.
#[verifier::loop_isolation(false)]
pub fn pack(n: Native, s: &Shape) -> (r: PyArg)
    requires
        conforms(n.model(), s.model()),
    ensures
        r.deep() == pack_value(n.model(), s.model()),
        r matches PyArg::PyDict(d) ==> d.wf(),
    decreases s,
{
    let ghost nm = n.model();
    let ghost sm = s.model();
    match s {
        Shape::Scalar(_) => pack_scalar_native(n),
        Shape::Tuple(ss) => match n {
            Native::Tuple(ns) => {
                let mut ns = ns;
                let len = ns.len();
                let ghost orig = ns@;
                let ghost nms = nm->Tuple_0;
                let ghost sms = sm->Tuple_0;
                assert forall|j: int| 0 <= j < len implies #[trigger] nms[j] == orig[j].model() by {}
                assert forall|j: int| 0 <= j < len implies #[trigger] sms[j] == ss@[j].model() by {}
                let mut out: Vec<PyArg> = Vec::new();
                let mut i: usize = 0;
                while i < len
                    invariant
                        len == orig.len(),
                        len == ss@.len(),
                        ns@.len() == len,
                        i <= len,
                        out@.len() == i,
                        forall|j: int| i <= j < len ==> #[trigger] ns@[j] == orig[j],
                        forall|j: int|
                            0 <= j < i ==> (#[trigger] out@[j]).deep() == pack_value(
                                nms[j],
                                sms[j],
                            ),
                    decreases len - i,
                {
                    let mut x = Native::Bool(false);
                    std::mem::swap(&mut x, &mut ns[i]);
                    assert(slots_conform(nms, sms)[i as int]);
                    let y = pack(x, &ss[i]);
                    out.push(y);
                    i = i + 1;
                }
                let r = PyArg::PyTuple(Box::new(PyTuple::new(out)));
                assert(r.deep()->Tuple_0 =~= pack_slots(nms, sms));
                r
            },
            _ => PyArg::Empty,
        },
        Shape::List(e) => match n {
            Native::List(ns) => {
                let mut ns = ns;
                let len = ns.len();
                let ghost orig = ns@;
                let ghost nms = nm->List_0;
                let ghost es: ShapeV = *(sm->List_0);
                assert(es == (**e).model());
                assert forall|j: int| 0 <= j < len implies #[trigger] nms[j] == orig[j].model() by {}
                let mut out: Vec<PyArg> = Vec::new();
                let mut i: usize = 0;
                while i < len
                    invariant
                        len == orig.len(),
                        ns@.len() == len,
                        i <= len,
                        out@.len() == i,
                        forall|j: int| i <= j < len ==> #[trigger] ns@[j] == orig[j],
                        forall|j: int|
                            0 <= j < i ==> (#[trigger] out@[j]).deep() == pack_value(nms[j], es),
                    decreases len - i,
                {
                    let mut x = Native::Bool(false);
                    std::mem::swap(&mut x, &mut ns[i]);
                    assert(elems_conform(nms, es)[i as int]);
                    let y = pack(x, &**e);
                    out.push(y);
                    i = i + 1;
                }
                let r = PyArg::PyList(Box::new(PyList::from_vec(out)));
                assert(r.deep()->List_0 =~= pack_elems(nms, es));
                r
            },
            _ => PyArg::Empty,
        },
        Shape::Dict(k, e) => match n {
            Native::Dict(ps) => {
                let mut ps = ps;
                let len = ps.len();
                let ghost orig = ps@;
                let ghost pms = nm->Dict_0;
                let ghost es: ShapeV = *(sm->Dict_1);
                assert(es == (**e).model());
                assert forall|j: int| 0 <= j < len implies #[trigger] pms[j] == (
                    orig[j].0.model(),
                    orig[j].1.model(),
                ) by {}
                let mut out: Vec<(PyArg, PyArg)> = Vec::new();
                let mut i: usize = 0;
                while i < len
                    invariant
                        len == orig.len(),
                        ps@.len() == len,
                        i <= len,
                        out@.len() == i,
                        forall|j: int| i <= j < len ==> #[trigger] ps@[j] == orig[j],
                        forall|j: int|
                            0 <= j < i ==> (#[trigger] out@[j]).0.deep() == pack_scalar(pms[j].0)
                                && out@[j].1.deep() == pack_value(pms[j].1, es)
                                && out@[j].0.kind_of() == key_arg_kind(*k),
                    decreases len - i,
                {
                    let mut x = (Native::Bool(false), Native::Bool(false));
                    std::mem::swap(&mut x, &mut ps[i]);
                    let (kn, vn) = x;
                    assert(vals_conform(pms, es)[i as int]);
                    assert(native_scalar_kind(pms[i as int].0) == Some(key_scalar(*k)));
                    let ka = pack_scalar_native(kn);
                    assert(ka.kind_of() == key_arg_kind(*k));
                    let va = pack(vn, &**e);
                    out.push((ka, va));
                    i = i + 1;
                }
                assert(entries_wf(out@, *k)) by {
                    assert forall|a: int, b: int|
                        0 <= a < len && 0 <= b < len && a != b implies (#[trigger] out@[a]).0.deep()
                        != (#[trigger] out@[b]).0.deep() by {
                        assert(pms[a].0 != pms[b].0);
                        assert(native_scalar_kind(pms[a].0) == Some(key_scalar(*k)));
                        assert(native_scalar_kind(pms[b].0) == Some(key_scalar(*k)));
                    }
                }
                let r = PyArg::PyDict(Box::new(PyDict { kind: *k, entries: out }));
                assert(r.deep()->Dict_1 =~= pack_entries(pms, es));
                r
            },
            _ => PyArg::Empty,
        },
    }
}

} // verus!
