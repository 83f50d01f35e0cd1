//! The signature catalogue behind the host's code generation: public
//! functions whose names start with one of a set of prefixes, each rendered
//! as `name::argtype;...;returntype`.
use vstd::prelude::*;
use vstd::string::*;

use crate::pyarg::{ArgKind, Mismatch, PyArg};
use crate::pylist::PyList;

verus! {

/// A type as it appears in a function signature.
#[derive(Debug)]
pub enum TypeDesc {
    /// A path type, by the name of its last segment (`None` for a path
    /// without segments).
    Path(Option<String>),
    /// A raw pointer to `elem`.
    Ptr { mutable: bool, elem: Box<TypeDesc> },
    /// A reference to `elem`.
    Reference { mutable: bool, elem: Box<TypeDesc> },
    /// Any other type.
    Other,
}

/// A function signature: its name, the types of its typed arguments, and
/// its return type (`None` when it returns nothing).
#[derive(Debug)]
pub struct FnDef {
    pub name: String,
    pub args: Vec<TypeDesc>,
    pub output: Option<TypeDesc>,
}

/// An item of a source file, as far as the catalogue is concerned.
#[derive(Debug)]
pub enum ItemDesc {
    /// A function, and whether it is public.
    Fn { public: bool, def: FnDef },
    /// A module, with its items when they are written inline.
    Mod(Option<Vec<ItemDesc>>),
    /// Any other item.
    Other,
}

/// The qualifier text handed down to a type's rendering.
pub open spec fn qualifier_view(r: Option<&str>) -> Option<Seq<char>> {
    match r {
        Some(q) => Some(q@),
        None => None,
    }
}

/// The rendering of a type, as `type(name)` or `type(qualifier name)`; a
/// pointer or reference passes its own qualifier down to the type it points
/// to, replacing the one it was given. Types other than paths, pointers and
/// references have none.
pub open spec fn type_text(t: TypeDesc, q: Option<Seq<char>>) -> Option<Seq<char>>
    decreases t,
{
    match t {
        TypeDesc::Path(Some(id)) => Some(
            match q {
                Some(q) => "type("@ + q + " "@ + id@ + ")"@,
                None => "type("@ + id@ + ")"@,
            },
        ),
        TypeDesc::Path(None) => None,
        TypeDesc::Ptr { mutable, elem } => type_text(
            *elem,
            Some(
                if mutable {
                    "*mut"@
                } else {
                    "*const"@
                },
            ),
        ),
        TypeDesc::Reference { mutable, elem } => type_text(
            *elem,
            Some(
                if mutable {
                    "&mut"@
                } else {
                    "&"@
                },
            ),
        ),
        TypeDesc::Other => None,
    }
}

/// The renderings of argument types, each followed by `;`.
pub open spec fn args_text(args: Seq<TypeDesc>) -> Option<Seq<char>>
    decreases args.len(),
{
    if args.len() == 0 {
        Some(Seq::empty())
    } else {
        match (args_text(args.drop_last()), type_text(args.last(), None)) {
            (Some(a), Some(b)) => Some(a + b + ";"@),
            _ => None,
        }
    }
}

/// The rendering of a return type; a function that returns nothing renders
/// as `type(void)`.
pub open spec fn output_text(o: Option<TypeDesc>) -> Option<Seq<char>> {
    match o {
        Some(t) => type_text(t, None),
        None => Some("type(void)"@),
    }
}

/// The catalogue line of a function: its name, then `::` and its argument
/// types if it has any, then its return type. A function with a type that
/// has no rendering has no line.
pub open spec fn fn_text(f: FnDef) -> Option<Seq<char>> {
    let head = if f.args@.len() == 0 {
        f.name@
    } else {
        f.name@ + "::"@
    };
    match (args_text(f.args@), output_text(f.output)) {
        (Some(a), Some(o)) => Some(head + a + o),
        _ => None,
    }
}

/// The lines of the functions `fs` that have one, in order.
pub open spec fn fns_text(fs: Seq<FnDef>) -> Seq<Seq<char>>
    decreases fs.len(),
{
    if fs.len() == 0 {
        Seq::empty()
    } else {
        match fn_text(fs.last()) {
            Some(t) => fns_text(fs.drop_last()).push(t),
            None => fns_text(fs.drop_last()),
        }
    }
}

/// `p` is a prefix of `s`.
pub open spec fn has_prefix(s: Seq<char>, p: Seq<char>) -> bool {
    p.len() <= s.len() && s.subrange(0, p.len() as int) == p
}

/// `name` starts with one of `prefixes`.
pub open spec fn selected(prefixes: Seq<String>, name: Seq<char>) -> bool {
    exists|i: int| 0 <= i < prefixes.len() && has_prefix(name, (#[trigger] prefixes[i])@)
}

/// The texts of a sequence of strings.
pub open spec fn texts(v: Seq<String>) -> Seq<Seq<char>> {
    Seq::new(v.len(), |i: int| v[i]@)
}

/// Renders a type; see `type_text`.
pub fn type_repr(ty: &TypeDesc, r: Option<&str>) -> (res: Result<String, ()>)
    ensures
        type_text(*ty, qualifier_view(r)) matches Some(t) ==> (res matches Ok(s) && s@ == t),
        type_text(*ty, qualifier_view(r)) is None ==> res is Err,
    decreases ty,
{
    match ty {
        TypeDesc::Path(Some(id)) => {
            let mut s = String::new();
            s.append("type(");
            match r {
                Some(q) => {
                    s.append(q);
                    s.append(" ");
                },
                None => {},
            }
            s.append(id.as_str());
            s.append(")");
            Ok(s)
        },
        TypeDesc::Path(None) => Err(()),
        TypeDesc::Ptr { mutable, elem } => {
            let m = if *mutable {
                "*mut"
            } else {
                "*const"
            };
            type_repr(elem, Some(m))
        },
        TypeDesc::Reference { mutable, elem } => {
            let m = if *mutable {
                "&mut"
            } else {
                "&"
            };
            type_repr(elem, Some(m))
        },
        TypeDesc::Other => Err(()),
    }
}

/// The catalogue line of a function; see `fn_text`.
pub fn render_fn(f: &FnDef) -> (r: Option<String>)
    ensures
        fn_text(*f) matches Some(t) ==> (r matches Some(s) && s@ == t),
        fn_text(*f) is None ==> r is None,
{
    let mut line = f.name.clone();
    let n = f.args.len();
    if n > 0 {
        line.append("::");
    }
    let ghost head = line@;
    let mut i: usize = 0;
    while i < n
        invariant
            n == f.args@.len(),
            i <= n,
            head == (if n == 0 {
                f.name@
            } else {
                f.name@ + "::"@
            }),
            args_text(f.args@.take(i as int)) matches Some(a) && line@ == head + a,
        decreases n - i,
    {
        assert(f.args@.take(i + 1).drop_last() =~= f.args@.take(i as int));
        match type_repr(&f.args[i], None) {
            Ok(t) => {
                line.append(t.as_str());
                line.append(";");
            },
            Err(()) => {
                assert(args_text(f.args@.take(i + 1)) is None);
                proof {
                    lemma_args_text_none(f.args@, i as int + 1);
                }
                return None;
            },
        }
        i = i + 1;
    }
    assert(f.args@.take(n as int) =~= f.args@);
    match &f.output {
        Some(t) => match type_repr(t, None) {
            Ok(o) => {
                line.append(o.as_str());
                Some(line)
            },
            Err(()) => None,
        },
        None => {
            line.append("type(void)");
            Some(line)
        },
    }
}

/// Once a prefix of the arguments has no rendering, neither has the whole.
proof fn lemma_args_text_none(args: Seq<TypeDesc>, i: int)
    requires
        0 <= i <= args.len(),
        args_text(args.take(i)) is None,
    ensures
        args_text(args) is None,
    decreases args.len() - i,
{
    if i < args.len() {
        assert(args.take(i + 1).drop_last() =~= args.take(i));
        lemma_args_text_none(args, i + 1);
    } else {
        assert(args.take(i) =~= args);
    }
}

/// Whether `s` starts with `p`.
pub fn starts_with(s: &str, p: &str) -> (r: bool)
    ensures
        r == has_prefix(s@, p@),
{
    let n = p.unicode_len();
    if n > s.unicode_len() {
        return false;
    }
    let mut i: usize = 0;
    while i < n
        invariant
            n == p@.len(),
            n <= s@.len(),
            i <= n,
            forall|j: int| 0 <= j < i ==> s@[j] == p@[j],
        decreases n - i,
    {
        if s.get_char(i) != p.get_char(i) {
            assert(s@.subrange(0, n as int)[i as int] != p@[i as int]);
            return false;
        }
        i = i + 1;
    }
    assert(s@.subrange(0, n as int) =~= p@);
    true
}

/// The functions of an item that the catalogue records: a public function
/// whose name starts with one of `prefixes`, and those of the items of an
/// inline module, in order.
pub open spec fn exported(prefixes: Seq<String>, item: ItemDesc) -> Seq<FnDef>
    decreases item, 0int,
{
    match item {
        ItemDesc::Fn { public, def } => if public && selected(prefixes, def.name@) {
            seq![def]
        } else {
            Seq::empty()
        },
        ItemDesc::Mod(Some(items)) => exported_all(prefixes, items@),
        _ => Seq::empty(),
    }
}

/// The functions that the catalogue records from each of `items`, in order.
pub open spec fn exported_all(prefixes: Seq<String>, items: Seq<ItemDesc>) -> Seq<FnDef>
    decreases items, 1int,
{
    if items.len() == 0 {
        Seq::empty()
    } else {
        exported_all(prefixes, items.drop_last()) + exported(prefixes, items.last())
    }
}

/// The state of a scan: the functions found and not yet rendered, the lines
/// rendered so far, and the name prefixes that select functions.
#[derive(Debug)]
pub struct KrateData {
    pub functions: Vec<FnDef>,
    pub collected: Vec<String>,
    pub prefixes: Vec<String>,
}

impl KrateData {
    /// A scan with nothing found yet.
    pub fn new(prefixes: Vec<String>) -> (r: KrateData)
        ensures
            r.functions@.len() == 0,
            r.collected@.len() == 0,
            r.prefixes@ == prefixes@,
    {
        KrateData { functions: Vec::new(), collected: Vec::new(), prefixes }
    }

    /// Records `def` if its name starts with one of the prefixes.
    pub fn add_fn(&mut self, def: FnDef)
        ensures
            final(self).prefixes@ == old(self).prefixes@,
            final(self).collected@ == old(self).collected@,
            selected(old(self).prefixes@, def.name@) ==> final(self).functions@ == old(
                self,
            ).functions@.push(def),
            !selected(old(self).prefixes@, def.name@) ==> final(self).functions@ == old(
                self,
            ).functions@,
    {
        let n = self.prefixes.len();
        let mut i: usize = 0;
        while i < n
            invariant
                n == self.prefixes@.len(),
                i <= n,
                self.prefixes@ == old(self).prefixes@,
                self.functions@ == old(self).functions@,
                self.collected@ == old(self).collected@,
                forall|j: int| 0 <= j < i ==> !has_prefix(def.name@, (#[trigger] self.prefixes@[j])@),
            decreases n - i,
        {
            if starts_with(def.name.as_str(), self.prefixes[i].as_str()) {
                self.functions.push(def);
                return;
            }
            i = i + 1;
        }
    }

    /// Records the functions of `item` that the catalogue takes; see
    /// `exported`.
    #[verifier::loop_isolation(false)]
    pub fn visit_item(&mut self, item: ItemDesc)
        ensures
            final(self).prefixes@ == old(self).prefixes@,
            final(self).collected@ == old(self).collected@,
            final(self).functions@ == old(self).functions@ + exported(old(self).prefixes@, item),
        decreases item,
    {
        let ghost it = item;
        match item {
            ItemDesc::Fn { public, def } => {
                if public {
                    self.add_fn(def);
                }
                assert(self.functions@ =~= old(self).functions@ + exported(old(self).prefixes@, it));
            },
            ItemDesc::Mod(Some(items)) => {
                let mut items = items;
                let n = items.len();
                let ghost orig = items@;
                let mut i: usize = 0;
                while i < n
                    invariant
                        n == orig.len(),
                        items@.len() == n,
                        i <= n,
                        forall|j: int| i <= j < n ==> #[trigger] items@[j] == orig[j],
                        self.prefixes@ == old(self).prefixes@,
                        self.collected@ == old(self).collected@,
                        self.functions@ == old(self).functions@ + exported_all(
                            old(self).prefixes@,
                            orig.take(i as int),
                        ),
                    decreases n - i,
                {
                    let mut x = ItemDesc::Other;
                    std::mem::swap(&mut x, &mut items[i]);
                    assert(orig.take(i + 1).drop_last() =~= orig.take(i as int));
                    self.visit_item(x);
                    i = i + 1;
                }
                assert(orig.take(n as int) =~= orig);
            },
            _ => {
                assert(self.functions@ =~= old(self).functions@ + exported(old(self).prefixes@, it));
            },
        }
    }

    /// Renders the functions found so far and moves their lines to the
    /// catalogue, in order; a function with a type that has no rendering is
    /// dropped.
    pub fn collect_values(&mut self)
        ensures
            final(self).prefixes@ == old(self).prefixes@,
            final(self).functions@.len() == 0,
            texts(final(self).collected@) == texts(old(self).collected@) + fns_text(
                old(self).functions@,
            ),
    {
        let mut fs: Vec<FnDef> = Vec::new();
        std::mem::swap(&mut fs, &mut self.functions);
        let n = fs.len();
        let mut i: usize = 0;
        while i < n
            invariant
                n == fs@.len(),
                fs@ == old(self).functions@,
                i <= n,
                self.prefixes@ == old(self).prefixes@,
                self.functions@.len() == 0,
                texts(self.collected@) == texts(old(self).collected@) + fns_text(
                    fs@.take(i as int),
                ),
            decreases n - i,
        {
            assert(fs@.take(i + 1).drop_last() =~= fs@.take(i as int));
            assert(fs@.take(i + 1).last() == fs@[i as int]);
            let ghost before = self.collected@;
            match render_fn(&fs[i]) {
                Some(line) => {
                    self.collected.push(line);
                    assert(texts(self.collected@) =~= texts(before).push(line@));
                },
                None => {},
            }
            i = i + 1;
        }
        assert(fs@.take(n as int) =~= fs@);
    }

    /// The catalogue line at `idx`, if there is one.
    pub fn iter_krate(&self, idx: usize) -> (r: Option<&str>)
        ensures
            idx < self.collected@.len() ==> (r matches Some(s) && s@ == self.collected@[idx as int]@),
            idx >= self.collected@.len() ==> r is None,
    {
        if idx < self.collected.len() {
            Some(self.collected[idx].as_str())
        } else {
            None
        }
    }
}

/// The line returned for an index past the end of the catalogue.
pub const NO_IDX_ERROR: &'static str = "NO_IDX_ERROR";

/// Boundary constructor: a scan selecting by the prefixes in `list`, which
/// must all be strings.
pub fn krate_data_new(list: Box<PyList>) -> (r: Result<Box<KrateData>, Mismatch>)
    ensures
        (forall|i: int| 0 <= i < list@.len() ==> (#[trigger] list@[i]) is PyString) ==> (r matches Ok(
            k,
        ) && k.functions@.len() == 0 && k.collected@.len() == 0 && k.prefixes@.len()
            == list@.len() && forall|i: int|
            0 <= i < list@.len() ==> (#[trigger] k.prefixes@[i])@ == list@[i]->PyString_0@),
        !(forall|i: int| 0 <= i < list@.len() ==> (#[trigger] list@[i]) is PyString) ==> r is Err,
{
    let mut l = *list;
    let n = l.items.len();
    let ghost orig = l.items@;
    let mut prefixes: Vec<String> = Vec::new();
    let mut i: usize = 0;
    while i < n
        invariant
            n == orig.len(),
            orig == list@,
            l.items@.len() == n,
            i <= n,
            prefixes@.len() == i,
            forall|j: int| i <= j < n ==> #[trigger] l.items@[j] == orig[j],
            forall|j: int| 0 <= j < i ==> (#[trigger] orig[j]) is PyString,
            forall|j: int| 0 <= j < i ==> (#[trigger] prefixes@[j])@ == orig[j]->PyString_0@,
        decreases n - i,
    {
        let mut x = PyArg::Empty;
        std::mem::swap(&mut x, &mut l.items[i]);
        let found = x.kind();
        match x {
            PyArg::PyString(s) => {
                prefixes.push(s.into_string());
            },
            _ => {
                return Err(Mismatch { expected: ArgKind::PyString, found });
            },
        }
        i = i + 1;
    }
    Ok(Box::new(KrateData::new(prefixes)))
}

/// Boundary operation: the number of catalogue lines.
pub fn krate_data_len(krate: &KrateData) -> (r: usize)
    ensures
        r == krate.collected@.len(),
{
    krate.collected.len()
}

/// Boundary operation: the catalogue line at `idx`, or `NO_IDX_ERROR` past
/// the end.
pub fn krate_data_iter(krate: &KrateData, idx: usize) -> (r: String)
    ensures
        idx < krate.collected@.len() ==> r@ == krate.collected@[idx as int]@,
        idx >= krate.collected@.len() ==> r@ == NO_IDX_ERROR@,
{
    match krate.iter_krate(idx) {
        Some(val) => val.to_owned(),
        None => NO_IDX_ERROR.to_owned(),
    }
}

} // verus!
