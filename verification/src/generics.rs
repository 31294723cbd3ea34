//! Generics: names of specialised instances, substitution of type
//! parameters, inference of type arguments from argument types, and the
//! record of instances already made.

use vstd::prelude::*;
use crate::types::{BrixType, TypeModel, models_of, lemma_models_of};
use crate::strmap::StrMap;
use crate::typeparse::alias_texts;

verus! {

/// A type parameter of a generic function or struct.
#[derive(Clone)]
pub struct TypeParam {
    pub name: String,
}

/// A parameter or field: its name, the text of its type and an optional
/// default value (kept as is).
#[derive(Clone)]
pub struct Param<D> {
    pub name: String,
    pub ty: String,
    pub default: Option<D>,
}

/// `parts` joined with `sep` between them.
pub open spec fn join(parts: Seq<Seq<char>>, sep: Seq<char>) -> Seq<char>
    decreases parts.len(),
{
    if parts.len() == 0 {
        Seq::empty()
    } else if parts.len() == 1 {
        parts[0]
    } else {
        join(parts.drop_last(), sep) + sep + parts.last()
    }
}

pub open spec fn texts_of(v: Seq<String>) -> Seq<Seq<char>> {
    Seq::new(v.len(), |i: int| v[i]@)
}

pub open spec fn param_names(tps: Seq<TypeParam>) -> Seq<Seq<char>> {
    Seq::new(tps.len(), |i: int| tps[i].name@)
}

/// Name of the instance of `base` for `args`: `swap<int, float>` becomes
/// `swap_int_float`.
pub open spec fn spec_mangle(base: Seq<char>, args: Seq<Seq<char>>) -> Seq<char> {
    base + "_"@ + join(args, "_"@)
}

/// Name of the instance of the generic `base_name` for the type arguments.
pub fn mangle_generic_name(base_name: &str, type_args: &[String]) -> (r: String)
    ensures
        r@ == spec_mangle(base_name@, texts_of(type_args@)),
{
    let mut out = String::from_str(base_name);
    out.append("_");
    let ghost head = out@;
    let mut i: usize = 0;
    while i < type_args.len()
        invariant
            i <= type_args@.len(),
            head == base_name@ + "_"@,
            out@ == head + join(texts_of(type_args@).subrange(0, i as int), "_"@),
        decreases type_args@.len() - i,
    {
        let ghost before = join(texts_of(type_args@).subrange(0, i as int), "_"@);
        let ghost next = texts_of(type_args@).subrange(0, i + 1);
        assert(next.drop_last() =~= texts_of(type_args@).subrange(0, i as int));
        if i > 0 {
            out.append("_");
        }
        out.append(type_args[i].as_str());
        proof {
            if i == 0 {
                assert(before =~= Seq::<char>::empty());
                assert(out@ =~= head + join(next, "_"@));
            } else {
                assert(out@ =~= head + join(next, "_"@));
            }
        }
        i = i + 1;
    }
    assert(texts_of(type_args@).subrange(0, type_args@.len() as int) =~= texts_of(type_args@));
    out
}

/// The last position below the shorter length whose parameter is named `t`.
pub open spec fn last_match(params: Seq<Seq<char>>, t: Seq<char>, n: int) -> Option<int>
    decreases n,
{
    if n <= 0 {
        None
    } else if params[n - 1] == t {
        Some(n - 1)
    } else {
        last_match(params, t, n - 1)
    }
}

pub open spec fn min_len(a: int, b: int) -> int {
    if a <= b {
        a
    } else {
        b
    }
}

/// Type parameters paired with type arguments (up to the shorter list, the
/// later pair winning for a repeated name); a type text naming a parameter
/// becomes its argument, any other text stays.
pub open spec fn spec_substitute(t: Seq<char>, params: Seq<Seq<char>>, args: Seq<Seq<char>>) -> Seq<char> {
    match last_match(params, t, min_len(params.len() as int, args.len() as int)) {
        Some(i) => args[i],
        None => t,
    }
}

/// Substitutes the type arguments for the type parameters in a type text.
pub fn substitute_type(type_str: &str, type_params: &[TypeParam], type_args: &[String]) -> (r: String)
    ensures
        r@ == spec_substitute(type_str@, param_names(type_params@), texts_of(type_args@)),
{
    let n = if type_params.len() <= type_args.len() {
        type_params.len()
    } else {
        type_args.len()
    };
    let ghost ps = param_names(type_params@);
    let mut found: Option<usize> = None;
    let mut i: usize = 0;
    while i < n
        invariant
            n == min_len(type_params@.len() as int, type_args@.len() as int),
            n <= type_params@.len(),
            n <= type_args@.len(),
            i <= n,
            ps == param_names(type_params@),
            found matches Some(k) ==> last_match(ps, type_str@, i as int) == Some(k as int) && k < n,
            found is None ==> last_match(ps, type_str@, i as int) is None,
        decreases n - i,
    {
        if type_params[i].name.eq(&String::from_str(type_str)) {
            found = Some(i);
        }
        i = i + 1;
    }
    match found {
        Some(k) => type_args[k].clone(),
        None => String::from_str(type_str),
    }
}

pub open spec fn param_tys<D>(ps: Seq<Param<D>>) -> Seq<Seq<char>> {
    Seq::new(ps.len(), |i: int| ps[i].ty@)
}

/// Substitutes the type arguments in the type of each parameter; names and
/// defaults stay.
pub fn substitute_params<D>(params: Vec<Param<D>>, type_params: &[TypeParam], type_args: &[String]) -> (r: Vec<Param<D>>)
    ensures
        r@.len() == params@.len(),
        forall|i: int|
            0 <= i < params@.len() ==> (#[trigger] r@[i]).name == params@[i].name && r@[i].default
                == params@[i].default && r@[i].ty@ == spec_substitute(
                params@[i].ty@,
                param_names(type_params@),
                texts_of(type_args@),
            ),
{
    let ghost orig = params@;
    let mut params = params;
    let mut out: Vec<Param<D>> = Vec::new();
    while params.len() > 0
        invariant
            out@.len() + params@.len() == orig.len(),
            params@ == orig.subrange(out@.len() as int, orig.len() as int),
            forall|i: int|
                0 <= i < out@.len() ==> (#[trigger] out@[i]).name == orig[i].name && out@[i].default
                    == orig[i].default && out@[i].ty@ == spec_substitute(
                    orig[i].ty@,
                    param_names(type_params@),
                    texts_of(type_args@),
                ),
        decreases params@.len(),
    {
        let p = params.remove(0);
        let t = substitute_type(p.ty.as_str(), type_params, type_args);
        out.push(Param { name: p.name, ty: t, default: p.default });
        proof {
            assert(params@ =~= orig.subrange(out@.len() as int, orig.len() as int));
        }
    }
    out
}

/// Substitutes the type arguments in each return type.
pub fn substitute_return_type(
    return_type: &Option<Vec<String>>,
    type_params: &[TypeParam],
    type_args: &[String],
) -> (r: Option<Vec<String>>)
    ensures
        return_type is None ==> r is None,
        return_type matches Some(ts) ==> r matches Some(us) && us@.len() == ts@.len() && forall|i: int|
            0 <= i < ts@.len() ==> #[trigger] us@[i]@ == spec_substitute(
                ts@[i]@,
                param_names(type_params@),
                texts_of(type_args@),
            ),
{
    match return_type {
        None => None,
        Some(ts) => {
            let mut us: Vec<String> = Vec::new();
            let mut i: usize = 0;
            while i < ts.len()
                invariant
                    i <= ts@.len(),
                    us@.len() == i,
                    forall|j: int|
                        0 <= j < i ==> #[trigger] us@[j]@ == spec_substitute(
                            ts@[j]@,
                            param_names(type_params@),
                            texts_of(type_args@),
                        ),
                decreases ts@.len() - i,
            {
                us.push(substitute_type(ts[i].as_str(), type_params, type_args));
                i = i + 1;
            }
            Some(us)
        },
    }
}


/// The word that stands for an argument's type when inferring type
/// arguments.
pub open spec fn arg_word(t: TypeModel) -> Seq<char> {
    match t {
        TypeModel::Int => "int"@,
        TypeModel::Float => "float"@,
        TypeModel::String => "string"@,
        TypeModel::Matrix => "matrix"@,
        TypeModel::IntMatrix => "intmatrix"@,
        _ => "unknown"@,
    }
}

/// One argument refines the inferred map: a parameter typed by a type
/// parameter binds it to the argument's word the first time; later an
/// `int` and a `float` together promote it to `float`; other conflicts keep
/// the first binding.
pub open spec fn infer_step(
    m: Map<Seq<char>, Seq<char>>,
    tps: Seq<Seq<char>>,
    pt: Seq<char>,
    a: Seq<char>,
) -> Map<Seq<char>, Seq<char>> {
    if tps.contains(pt) {
        if m.dom().contains(pt) {
            if (m[pt] == "int"@ && a == "float"@) || (m[pt] == "float"@ && a == "int"@) {
                m.insert(pt, "float"@)
            } else {
                m
            }
        } else {
            m.insert(pt, a)
        }
    } else {
        m
    }
}

/// The map inferred from the first `n` argument/parameter pairs.
pub open spec fn infer_map(
    tps: Seq<Seq<char>>,
    pts: Seq<Seq<char>>,
    args: Seq<TypeModel>,
    n: int,
) -> Map<Seq<char>, Seq<char>>
    decreases n,
{
    if n <= 0 {
        Map::empty()
    } else {
        infer_step(infer_map(tps, pts, args, n - 1), tps, pts[n - 1], arg_word(args[n - 1]))
    }
}

/// The inferred arguments of the first `n` type parameters, or the first of
/// them that no argument determines.
pub open spec fn collect_args(m: Map<Seq<char>, Seq<char>>, tps: Seq<Seq<char>>, n: int) -> Result<
    Seq<Seq<char>>,
    Seq<char>,
>
    decreases n,
{
    if n <= 0 {
        Ok(Seq::empty())
    } else {
        match collect_args(m, tps, n - 1) {
            Err(e) => Err(e),
            Ok(v) => if m.dom().contains(tps[n - 1]) {
                Ok(v.push(m[tps[n - 1]]))
            } else {
                Err(tps[n - 1])
            },
        }
    }
}

/// Type arguments inferred for a generic function from the types of the
/// arguments of a call (arguments beyond the parameters are ignored); on
/// failure, the type parameter that no argument determines.
pub open spec fn spec_infer(tps: Seq<Seq<char>>, pts: Seq<Seq<char>>, args: Seq<TypeModel>) -> Result<
    Seq<Seq<char>>,
    Seq<char>,
> {
    collect_args(infer_map(tps, pts, args, min_len(args.len() as int, pts.len() as int)), tps, tps.len() as int)
}

fn arg_word_exec(t: &BrixType) -> (r: &'static str)
    ensures
        r@ == arg_word(t@),
{
    match t {
        BrixType::Int => "int",
        BrixType::Float => "float",
        BrixType::String => "string",
        BrixType::Matrix => "matrix",
        BrixType::IntMatrix => "intmatrix",
        _ => "unknown",
    }
}

fn is_type_param(type_params: &[TypeParam], t: &str) -> (r: bool)
    ensures
        r == param_names(type_params@).contains(t@),
{
    let mut i: usize = 0;
    while i < type_params.len()
        invariant
            i <= type_params@.len(),
            forall|j: int| 0 <= j < i ==> #[trigger] type_params@[j].name@ != t@,
        decreases type_params@.len() - i,
    {
        if chars_equal_str(type_params[i].name.as_str(), t) {
            assert(param_names(type_params@)[i as int] == t@);
            return true;
        }
        i = i + 1;
    }
    assert forall|j: int| 0 <= j < param_names(type_params@).len() implies #[trigger] param_names(
        type_params@,
    )[j] != t@ by {
        assert(type_params@[j].name@ != t@);
    }
    false
}

fn chars_equal_str(a: &str, b: &str) -> (r: bool)
    ensures
        r == (a@ == b@),
{
    crate::strmap::str_equal(a, b)
}

/// Type arguments for a generic function inferred from the types of the
/// arguments of a call: each parameter whose type is a type parameter binds
/// it to the argument's type (`int` with `float` promotes to `float`). On
/// failure, the name of the first type parameter no argument determines.
pub fn infer_generic_types<D>(
    type_params: &[TypeParam],
    params: &[Param<D>],
    arg_types: &[BrixType],
) -> (r: Result<Vec<String>, String>)
    ensures
        r matches Ok(v) ==> spec_infer(
            param_names(type_params@),
            param_tys(params@),
            models_of(arg_types@),
        ) == Ok::<Seq<Seq<char>>, Seq<char>>(texts_of(v@)),
        r matches Err(e) ==> spec_infer(
            param_names(type_params@),
            param_tys(params@),
            models_of(arg_types@),
        ) == Err::<Seq<Seq<char>>, Seq<char>>(e@),
{
    let ghost tps = param_names(type_params@);
    let ghost pts = param_tys(params@);
    let ghost args = models_of(arg_types@);
    proof {
        lemma_models_of(arg_types@);
    }
    let n = if arg_types.len() <= params.len() {
        arg_types.len()
    } else {
        params.len()
    };
    let mut subst: StrMap<String> = StrMap::new();
    assert(alias_texts(subst.map()) =~= Map::<Seq<char>, Seq<char>>::empty());
    let mut i: usize = 0;
    while i < n
        invariant
            n == min_len(args.len() as int, pts.len() as int),
            n <= params@.len(),
            n <= arg_types@.len(),
            i <= n,
            tps == param_names(type_params@),
            pts == param_tys(params@),
            args == models_of(arg_types@),
            args.len() == arg_types@.len(),
            forall|j: int| 0 <= j < arg_types@.len() ==> #[trigger] args[j] == arg_types@[j]@,
            alias_texts(subst.map()) == infer_map(tps, pts, args, i as int),
        decreases n - i,
    {
        let pt = params[i].ty.as_str();
        let a = arg_word_exec(&arg_types[i]);
        let ghost m = alias_texts(subst.map());
        assert(pts[i as int] == pt@);
        if is_type_param(type_params, pt) {
            match subst.get(pt) {
                Some(existing) => {
                    let e = existing.as_str();
                    if (chars_equal_str(e, "int") && chars_equal_str(a, "float")) || (chars_equal_str(
                        e,
                        "float",
                    ) && chars_equal_str(a, "int")) {
                        subst.insert(String::from_str(pt), String::from_str("float"));
                        assert(alias_texts(subst.map()) =~= m.insert(pt@, "float"@));
                    }
                },
                None => {
                    subst.insert(String::from_str(pt), String::from_str(a));
                    assert(alias_texts(subst.map()) =~= m.insert(pt@, a@));
                },
            }
        }
        i = i + 1;
    }
    let ghost m = alias_texts(subst.map());
    assert(m == infer_map(tps, pts, args, n as int));
    let mut out: Vec<String> = Vec::new();
    assert(texts_of(out@) =~= Seq::<Seq<char>>::empty());
    let mut k: usize = 0;
    while k < type_params.len()
        invariant
            k <= type_params@.len(),
            tps == param_names(type_params@),
            m == alias_texts(subst.map()),
            pts == param_tys(params@),
            args == models_of(arg_types@),
            m == infer_map(tps, pts, args, min_len(args.len() as int, pts.len() as int)),
            collect_args(m, tps, k as int) == Ok::<Seq<Seq<char>>, Seq<char>>(texts_of(out@)),
        decreases type_params@.len() - k,
    {
        let name = type_params[k].name.as_str();
        assert(tps[k as int] == name@);
        match subst.get(name) {
            Some(v) => {
                let ghost before = texts_of(out@);
                out.push(v.clone());
                assert(texts_of(out@) =~= before.push(m[name@]));
            },
            None => {
                assert(collect_args(m, tps, k as int + 1) == Err::<Seq<Seq<char>>, Seq<char>>(name@));
                proof {
                    lemma_collect_err(m, tps, k as int + 1, tps.len() as int);
                }
                return Err(String::from_str(name));
            },
        }
        k = k + 1;
    }
    assert(tps.len() == type_params@.len());
    Ok(out)
}

/// Once a type parameter is found undetermined, it stays the answer.
pub proof fn lemma_collect_err(m: Map<Seq<char>, Seq<char>>, tps: Seq<Seq<char>>, k: int, n: int)
    requires
        1 <= k <= n,
        collect_args(m, tps, k) is Err,
    ensures
        collect_args(m, tps, n) == collect_args(m, tps, k),
    decreases n - k,
{
    if n > k {
        lemma_collect_err(m, tps, k, n - 1);
    }
}

/// The instances of generic functions and structs made so far, each under
/// the name `spec_mangle` gives it.
pub struct InstanceCache {
    entries: Vec<(String, Vec<String>, String)>,
}

impl InstanceCache {
    #[verifier::type_invariant]
    spec fn inv(self) -> bool {
        forall|i: int|
            0 <= i < self.entries@.len() ==> (#[trigger] self.entries@[i]).2@ == spec_mangle(
                self.entries@[i].0@,
                texts_of(self.entries@[i].1@),
            )
    }

    /// The instances made so far.
    pub closed spec fn keys(self) -> Set<(Seq<char>, Seq<Seq<char>>)> {
        Set::new(
            |k: (Seq<char>, Seq<Seq<char>>)|
                exists|i: int|
                    0 <= i < self.entries@.len() && #[trigger] self.entries@[i].0@ == k.0 && texts_of(
                        self.entries@[i].1@,
                    ) == k.1,
        )
    }

    /// An empty record.
    pub fn new() -> (r: Self)
        ensures
            r.keys() == Set::<(Seq<char>, Seq<Seq<char>>)>::empty(),
    {
        let r = InstanceCache { entries: Vec::new() };
        assert(r.keys() =~= Set::<(Seq<char>, Seq<Seq<char>>)>::empty());
        r
    }

    /// The name of the instance of `name` for `args` if it was made.
    pub fn lookup(&self, name: &str, args: &[String]) -> (r: Option<String>)
        ensures
            r is Some <==> self.keys().contains((name@, texts_of(args@))),
            r matches Some(m) ==> m@ == spec_mangle(name@, texts_of(args@)),
    {
        proof {
            use_type_invariant(self);
        }
        let mut i: usize = 0;
        while i < self.entries.len()
            invariant
                i <= self.entries@.len(),
                forall|j: int|
                    0 <= j < i ==> !(#[trigger] self.entries@[j].0@ == name@ && texts_of(self.entries@[j].1@)
                        == texts_of(args@)),
            decreases self.entries@.len() - i,
        {
            let e = &self.entries[i];
            if chars_equal_str(e.0.as_str(), name) && same_texts(&e.1, args) {
                proof {
                    use_type_invariant(self);
                }
                assert(self.entries@[i as int].2@ == spec_mangle(
                    self.entries@[i as int].0@,
                    texts_of(self.entries@[i as int].1@),
                ));
                return Some(e.2.clone());
            }
            i = i + 1;
        }
        None
    }

    /// Records that the instance of `name` for `args` was made; returns its
    /// name.
    pub fn record(&mut self, name: &str, args: &[String]) -> (r: String)
        ensures
            r@ == spec_mangle(name@, texts_of(args@)),
            final(self).keys() == old(self).keys().insert((name@, texts_of(args@))),
    {
        proof {
            use_type_invariant(&*self);
        }
        let m = mangle_generic_name(name, args);
        let mut copy: Vec<String> = Vec::new();
        let mut i: usize = 0;
        while i < args.len()
            invariant
                i <= args@.len(),
                texts_of(copy@) == texts_of(args@).subrange(0, i as int),
            decreases args@.len() - i,
        {
            let ghost before = texts_of(copy@);
            copy.push(args[i].clone());
            assert(texts_of(copy@) =~= before.push(args@[i as int]@));
            assert(texts_of(copy@) =~= texts_of(args@).subrange(0, i + 1));
            i = i + 1;
        }
        assert(texts_of(args@).subrange(0, args@.len() as int) =~= texts_of(args@));
        let ghost old_self = *self;
        let mut entries = Vec::new();
        std::mem::swap(&mut entries, &mut self.entries);
        let entry = (String::from_str(name), copy, m.clone());
        assert(entry.2@ == spec_mangle(entry.0@, texts_of(entry.1@)));
        entries.push(entry);
        assert forall|i: int| 0 <= i < entries@.len() implies (#[trigger] entries@[i]).2@ == spec_mangle(
            entries@[i].0@,
            texts_of(entries@[i].1@),
        ) by {
            if i < old_self.entries@.len() {
                assert(entries@[i] == old_self.entries@[i]);
            }
        }
        self.entries = entries;
        proof {
            let n = old_self.entries@.len() as int;
            let k = (name@, texts_of(args@));
            assert forall|key: (Seq<char>, Seq<Seq<char>>)| #[trigger] self.keys().contains(key) == old_self.keys().insert(k).contains(key) by {
                if old_self.keys().contains(key) {
                    let j = choose|j: int|
                        0 <= j < old_self.entries@.len() && #[trigger] old_self.entries@[j].0@ == key.0
                            && texts_of(old_self.entries@[j].1@) == key.1;
                    assert(self.entries@[j] == old_self.entries@[j]);
                }
                if key == k {
                    assert(self.entries@[n].0@ == key.0);
                }
                if self.keys().contains(key) {
                    let j = choose|j: int|
                        0 <= j < self.entries@.len() && #[trigger] self.entries@[j].0@ == key.0 && texts_of(
                            self.entries@[j].1@,
                        ) == key.1;
                    if j < n {
                        assert(old_self.entries@[j] == self.entries@[j]);
                    }
                }
            }
            assert(self.keys() =~= old_self.keys().insert(k));
        }
        m
    }
}

/// Whether two lists of type texts are equal.
fn same_texts(a: &Vec<String>, b: &[String]) -> (r: bool)
    ensures
        r == (texts_of(a@) == texts_of(b@)),
{
    if a.len() != b.len() {
        assert(texts_of(a@).len() != texts_of(b@).len());
        return false;
    }
    let mut i: usize = 0;
    while i < a.len()
        invariant
            a@.len() == b@.len(),
            i <= a@.len(),
            forall|j: int| 0 <= j < i ==> a@[j]@ == b@[j]@,
        decreases a@.len() - i,
    {
        if !a[i].eq(&b[i]) {
            assert(texts_of(a@)[i as int] != texts_of(b@)[i as int]);
            return false;
        }
        i = i + 1;
    }
    assert(texts_of(a@) =~= texts_of(b@));
    true
}

} // verus!
