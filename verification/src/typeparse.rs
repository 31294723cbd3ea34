//! Resolution of type annotations: the text of a type (with aliases,
//! unions `A | B`, intersections `A & B` and optionals `T?`) becomes a
//! `BrixType`.

use vstd::prelude::*;
use crate::types::{BrixType, TypeModel, models_of, lemma_models_of};
use crate::text::{trim, split, contains, views_of, chars_of, chars_equal, string_of, sub_chars, trim_chars, contains_chars, split_chars};
use crate::strmap::StrMap;

verus! {

/// The definitions of type aliases as character sequences.
pub open spec fn alias_texts(m: Map<Seq<char>, String>) -> Map<Seq<char>, Seq<char>> {
    Map::new(|k: Seq<char>| m.dom().contains(k), |k: Seq<char>| m[k]@)
}

/// A type text after alias resolution: the definition when the text names an
/// alias, the text itself otherwise.
pub open spec fn resolve_alias(al: Map<Seq<char>, Seq<char>>, s: Seq<char>) -> Seq<char> {
    if al.dom().contains(s) {
        al[s]
    } else {
        s
    }
}

/// The type named by a single (non-composite) type text. Unknown names that
/// are not structs default to `int`.
pub open spec fn base_type(r: Seq<char>, structs: Set<Seq<char>>) -> TypeModel {
    if r == "int"@ {
        TypeModel::Int
    } else if r == "float"@ {
        TypeModel::Float
    } else if r == "string"@ {
        TypeModel::String
    } else if r == "matrix"@ {
        TypeModel::Matrix
    } else if r == "intmatrix"@ {
        TypeModel::IntMatrix
    } else if r == "complex"@ {
        TypeModel::Complex
    } else if r == "nil"@ {
        TypeModel::Nil
    } else if r == "error"@ {
        TypeModel::Error
    } else if r == "atom"@ {
        TypeModel::Atom
    } else if r == "void"@ {
        TypeModel::Void
    } else if structs.contains(r) {
        TypeModel::Struct(r)
    } else {
        TypeModel::Int
    }
}

/// Each piece without surrounding whitespace.
pub open spec fn trim_all(parts: Seq<Seq<char>>) -> Seq<Seq<char>> {
    Seq::new(parts.len(), |i: int| trim(parts[i]))
}

/// The members of a composite type text split at `sep`.
pub open spec fn member_texts(r: Seq<char>, sep: Seq<char>) -> Seq<Seq<char>> {
    trim_all(split(r, sep))
}

/// Resolution of a type text with a bound `fuel` on the nesting of
/// resolutions; `None` when the bound is too small.
pub open spec fn parse_fuel(
    al: Map<Seq<char>, Seq<char>>,
    st: Set<Seq<char>>,
    s: Seq<char>,
    fuel: nat,
) -> Option<TypeModel>
    decreases fuel, 0nat,
{
    if fuel == 0 {
        None
    } else {
        let r = resolve_alias(al, s);
        if contains(r, " | "@) {
            match parse_list(al, st, member_texts(r, " | "@), (fuel - 1) as nat) {
                Some(ms) => Some(TypeModel::Union(ms)),
                None => None,
            }
        } else if contains(r, " & "@) {
            match parse_list(al, st, member_texts(r, " & "@), (fuel - 1) as nat) {
                Some(ms) => Some(TypeModel::Intersection(ms)),
                None => None,
            }
        } else if r.len() > 0 && r.last() == '?' {
            match parse_fuel(al, st, r.drop_last(), (fuel - 1) as nat) {
                Some(t) => Some(TypeModel::Union(seq![t, TypeModel::Nil])),
                None => None,
            }
        } else {
            Some(base_type(r, st))
        }
    }
}

/// Resolution of each text of a list with the same bound.
pub open spec fn parse_list(
    al: Map<Seq<char>, Seq<char>>,
    st: Set<Seq<char>>,
    parts: Seq<Seq<char>>,
    fuel: nat,
) -> Option<Seq<TypeModel>>
    decreases fuel, parts.len() + 1,
{
    if parts.len() == 0 {
        Some(Seq::empty())
    } else {
        match parse_fuel(al, st, parts[0], fuel) {
            Some(t) => match parse_list(al, st, parts.drop_first(), fuel) {
                Some(ts) => Some(seq![t] + ts),
                None => None,
            },
            None => None,
        }
    }
}

/// Resolution of the text finishes: aliases do not lead back to themselves
/// through unions, intersections or optionals.
pub open spec fn resolves(al: Map<Seq<char>, Seq<char>>, st: Set<Seq<char>>, s: Seq<char>) -> bool {
    exists|f: nat| #[trigger] parse_fuel(al, st, s, f) is Some
}

/// The least bound with which resolution finishes.
pub open spec fn least_fuel(al: Map<Seq<char>, Seq<char>>, st: Set<Seq<char>>, s: Seq<char>) -> nat {
    choose|f: nat|
        parse_fuel(al, st, s, f) is Some && forall|g: nat| g < f ==> #[trigger] parse_fuel(al, st, s, g) is None
}

/// The type that a type text denotes.
pub open spec fn parse_type(al: Map<Seq<char>, Seq<char>>, st: Set<Seq<char>>, s: Seq<char>) -> TypeModel {
    parse_fuel(al, st, s, least_fuel(al, st, s)).unwrap()
}

pub proof fn lemma_least_fuel(al: Map<Seq<char>, Seq<char>>, st: Set<Seq<char>>, s: Seq<char>, f: nat)
    requires
        parse_fuel(al, st, s, f) is Some,
    ensures
        parse_fuel(al, st, s, least_fuel(al, st, s)) is Some,
        forall|g: nat| g < least_fuel(al, st, s) ==> #[trigger] parse_fuel(al, st, s, g) is None,
        least_fuel(al, st, s) <= f,
    decreases f,
{
    if forall|g: nat| g < f ==> #[trigger] parse_fuel(al, st, s, g) is None {
        let l = least_fuel(al, st, s);
        assert(parse_fuel(al, st, s, f) is Some && forall|g: nat| g < f ==> #[trigger] parse_fuel(
            al,
            st,
            s,
            g,
        ) is None);
        if l > f {
            assert(parse_fuel(al, st, s, f) is None);
        }
    } else {
        let g = choose|g: nat| g < f && !(#[trigger] parse_fuel(al, st, s, g) is None);
        lemma_least_fuel(al, st, s, g);
    }
}

/// More bound does not change a resolution that finishes.
pub proof fn lemma_fuel_monotone(
    al: Map<Seq<char>, Seq<char>>,
    st: Set<Seq<char>>,
    s: Seq<char>,
    f: nat,
    g: nat,
)
    requires
        parse_fuel(al, st, s, f) is Some,
        f <= g,
    ensures
        parse_fuel(al, st, s, g) == parse_fuel(al, st, s, f),
    decreases f, 0nat,
{
    let r = resolve_alias(al, s);
    if contains(r, " | "@) {
        lemma_list_monotone(al, st, member_texts(r, " | "@), (f - 1) as nat, (g - 1) as nat);
    } else if contains(r, " & "@) {
        lemma_list_monotone(al, st, member_texts(r, " & "@), (f - 1) as nat, (g - 1) as nat);
    } else if r.len() > 0 && r.last() == '?' {
        lemma_fuel_monotone(al, st, r.drop_last(), (f - 1) as nat, (g - 1) as nat);
    }
}

pub proof fn lemma_list_monotone(
    al: Map<Seq<char>, Seq<char>>,
    st: Set<Seq<char>>,
    parts: Seq<Seq<char>>,
    f: nat,
    g: nat,
)
    requires
        parse_list(al, st, parts, f) is Some,
        f <= g,
    ensures
        parse_list(al, st, parts, g) == parse_list(al, st, parts, f),
    decreases f, parts.len() + 1,
{
    if parts.len() > 0 {
        lemma_fuel_monotone(al, st, parts[0], f, g);
        lemma_list_monotone(al, st, parts.drop_first(), f, g);
    }
}

/// A list resolves exactly when each of its texts does, member by member.
pub proof fn lemma_list_members(
    al: Map<Seq<char>, Seq<char>>,
    st: Set<Seq<char>>,
    parts: Seq<Seq<char>>,
    f: nat,
)
    requires
        parse_list(al, st, parts, f) is Some,
    ensures
        parse_list(al, st, parts, f).unwrap().len() == parts.len(),
        forall|i: int|
            0 <= i < parts.len() ==> #[trigger] parse_fuel(al, st, parts[i], f) == Some(
                parse_list(al, st, parts, f).unwrap()[i],
            ),
    decreases parts.len(),
{
    if parts.len() > 0 {
        lemma_list_members(al, st, parts.drop_first(), f);
        assert forall|i: int| 0 <= i < parts.len() implies #[trigger] parse_fuel(al, st, parts[i], f)
            == Some(parse_list(al, st, parts, f).unwrap()[i]) by {
            if i > 0 {
                assert(parts[i] == parts.drop_first()[i - 1]);
            }
        }
    }
}

/// The resolution of a text that resolves with bound `f` is its type.
pub proof fn lemma_parse_type(al: Map<Seq<char>, Seq<char>>, st: Set<Seq<char>>, s: Seq<char>, f: nat)
    requires
        parse_fuel(al, st, s, f) is Some,
    ensures
        resolves(al, st, s),
        least_fuel(al, st, s) <= f,
        parse_fuel(al, st, s, f) == Some(parse_type(al, st, s)),
{
    lemma_least_fuel(al, st, s, f);
    lemma_fuel_monotone(al, st, s, least_fuel(al, st, s), f);
}

/// The base type named by a character vector.
fn base_type_exec<V>(structs: &StrMap<V>, r: &Vec<char>) -> (t: BrixType)
    ensures
        t@ == base_type(r@, structs.map().dom()),
{
    if chars_equal(r.as_slice(), "int") {
        BrixType::Int
    } else if chars_equal(r.as_slice(), "float") {
        BrixType::Float
    } else if chars_equal(r.as_slice(), "string") {
        BrixType::String
    } else if chars_equal(r.as_slice(), "matrix") {
        BrixType::Matrix
    } else if chars_equal(r.as_slice(), "intmatrix") {
        BrixType::IntMatrix
    } else if chars_equal(r.as_slice(), "complex") {
        BrixType::Complex
    } else if chars_equal(r.as_slice(), "nil") {
        BrixType::Nil
    } else if chars_equal(r.as_slice(), "error") {
        BrixType::Error
    } else if chars_equal(r.as_slice(), "atom") {
        BrixType::Atom
    } else if chars_equal(r.as_slice(), "void") {
        BrixType::Void
    } else {
        let name = string_of(r.as_slice());
        if structs.contains_key(name.as_str()) {
            BrixType::Struct(name)
        } else {
            BrixType::Int
        }
    }
}

/// Resolves a type text given as characters.
fn parse_chars<V>(aliases: &StrMap<String>, structs: &StrMap<V>, s: &Vec<char>) -> (t: BrixType)
    requires
        resolves(alias_texts(aliases.map()), structs.map().dom(), s@),
    ensures
        t@ == parse_type(alias_texts(aliases.map()), structs.map().dom(), s@),
    decreases least_fuel(alias_texts(aliases.map()), structs.map().dom(), s@), 1nat,
{
    let ghost al = alias_texts(aliases.map());
    let ghost st = structs.map().dom();
    let ghost fuel = least_fuel(al, st, s@);
    proof {
        let w = choose|f: nat| #[trigger] parse_fuel(al, st, s@, f) is Some;
        lemma_least_fuel(al, st, s@, w);
    }
    let name = string_of(s.as_slice());
    let r: Vec<char> = match aliases.get(name.as_str()) {
        Some(def) => chars_of(def.as_str()),
        None => chars_of(name.as_str()),
    };
    assert(r@ == resolve_alias(al, s@));
    let bar = chars_of(" | ");
    let amp = chars_of(" & ");
    if contains_chars(r.as_slice(), bar.as_slice()) {
        let ms = parse_members(aliases, structs, &r, &bar, Ghost(fuel));
        BrixType::Union(ms)
    } else if contains_chars(r.as_slice(), amp.as_slice()) {
        let ms = parse_members(aliases, structs, &r, &amp, Ghost(fuel));
        BrixType::Intersection(ms)
    } else if r.len() > 0 && r[r.len() - 1] == '?' {
        let base = sub_chars(r.as_slice(), 0, r.len() - 1);
        assert(base@ == r@.drop_last());
        proof {
            lemma_parse_type(al, st, base@, (fuel - 1) as nat);
        }
        let inner = parse_chars(aliases, structs, &base);
        let mut ms: Vec<BrixType> = Vec::new();
        ms.push(inner);
        ms.push(BrixType::Nil);
        proof {
            lemma_models_of(ms@);
            assert(models_of(ms@) =~= seq![parse_type(al, st, base@), TypeModel::Nil]);
        }
        BrixType::Union(ms)
    } else {
        base_type_exec(structs, &r)
    }
}

/// Resolves the members of a composite type text `r` split at `sep`, where
/// the whole text needs bound `fuel`.
fn parse_members<V>(
    aliases: &StrMap<String>,
    structs: &StrMap<V>,
    r: &Vec<char>,
    sep: &Vec<char>,
    fuel: Ghost<nat>,
) -> (ms: Vec<BrixType>)
    requires
        sep@ == " | "@ || sep@ == " & "@,
        fuel@ >= 1,
        parse_list(
            alias_texts(aliases.map()),
            structs.map().dom(),
            member_texts(r@, sep@),
            (fuel@ - 1) as nat,
        ) is Some,
    ensures
        models_of(ms@) == parse_list(
            alias_texts(aliases.map()),
            structs.map().dom(),
            member_texts(r@, sep@),
            (fuel@ - 1) as nat,
        ).unwrap(),
    decreases fuel@, 0nat,
{
    let ghost al = alias_texts(aliases.map());
    let ghost st = structs.map().dom();
    let ghost parts = member_texts(r@, sep@);
    let ghost f1 = (fuel@ - 1) as nat;
    let ghost want = parse_list(al, st, parts, f1).unwrap();
    proof {
        lemma_list_members(al, st, parts, f1);
    }
    assert(sep@.len() > 0) by {
        reveal_strlit(" | ");
        reveal_strlit(" & ");
    }
    let pieces = split_chars(r.as_slice(), sep.as_slice());
    let mut out: Vec<BrixType> = Vec::new();
    let mut i: usize = 0;
    while i < pieces.len()
        invariant
            views_of(pieces@) == split(r@, sep@),
            parts == member_texts(r@, sep@),
            parts.len() == pieces@.len(),
            want.len() == parts.len(),
            forall|j: int| 0 <= j < parts.len() ==> #[trigger] parse_fuel(al, st, parts[j], f1) == Some(want[j]),
            al == alias_texts(aliases.map()),
            st == structs.map().dom(),
            f1 + 1 == fuel@,
            i <= pieces@.len(),
            out@.len() == i,
            forall|j: int| 0 <= j < i ==> #[trigger] out@[j]@ == want[j],
        decreases pieces@.len() - i,
    {
        let part = trim_chars(pieces[i].as_slice());
        assert(part@ == parts[i as int]);
        proof {
            lemma_parse_type(al, st, part@, f1);
        }
        let t = parse_chars(aliases, structs, &part);
        out.push(t);
        i = i + 1;
    }
    proof {
        lemma_models_of(out@);
    }
    assert(models_of(out@) =~= want);
    out
}

/// The type that the text `s` denotes, with `aliases` naming alias
/// definitions and `structs` naming the known structs.
pub fn resolve_type_text<V>(aliases: &StrMap<String>, structs: &StrMap<V>, s: &str) -> (t: BrixType)
    requires
        resolves(alias_texts(aliases.map()), structs.map().dom(), s@),
    ensures
        t@ == parse_type(alias_texts(aliases.map()), structs.map().dom(), s@),
{
    let cs = chars_of(s);
    parse_chars(aliases, structs, &cs)
}

/// A list resolves with bound `f` exactly when each of its texts does.
pub proof fn lemma_list_all(
    al: Map<Seq<char>, Seq<char>>,
    st: Set<Seq<char>>,
    parts: Seq<Seq<char>>,
    f: nat,
)
    ensures
        parse_list(al, st, parts, f) is Some <==> forall|i: int|
            0 <= i < parts.len() ==> #[trigger] parse_fuel(al, st, parts[i], f) is Some,
    decreases parts.len(),
{
    if parts.len() > 0 {
        lemma_list_all(al, st, parts.drop_first(), f);
        if forall|i: int| 0 <= i < parts.len() ==> #[trigger] parse_fuel(al, st, parts[i], f) is Some {
            assert forall|i: int| 0 <= i < parts.drop_first().len() implies #[trigger] parse_fuel(
                al,
                st,
                parts.drop_first()[i],
                f,
            ) is Some by {
                assert(parts.drop_first()[i] == parts[i + 1]);
                assert(parse_fuel(al, st, parts[i + 1], f) is Some);
            }
            assert(parse_fuel(al, st, parts[0], f) is Some);
        }
        if parse_list(al, st, parts, f) is Some {
            assert forall|i: int| 0 <= i < parts.len() implies #[trigger] parse_fuel(al, st, parts[i], f) is Some by {
                if i > 0 {
                    assert(parts[i] == parts.drop_first()[i - 1]);
                    assert(parse_fuel(al, st, parts.drop_first()[i - 1], f) is Some);
                }
            }
        }
    }
}

/// Whether the text `s` resolves within `fuel` nested resolutions.
fn resolves_within<V>(aliases: &StrMap<String>, structs: &StrMap<V>, s: &Vec<char>, fuel: u64) -> (r: bool)
    ensures
        r == (parse_fuel(alias_texts(aliases.map()), structs.map().dom(), s@, fuel as nat) is Some),
    decreases fuel, 1nat,
{
    let ghost al = alias_texts(aliases.map());
    if fuel == 0 {
        return false;
    }
    let name = string_of(s.as_slice());
    let r: Vec<char> = match aliases.get(name.as_str()) {
        Some(def) => chars_of(def.as_str()),
        None => chars_of(name.as_str()),
    };
    assert(r@ == resolve_alias(al, s@));
    let bar = chars_of(" | ");
    let amp = chars_of(" & ");
    if contains_chars(r.as_slice(), bar.as_slice()) {
        members_resolve(aliases, structs, &r, &bar, fuel - 1)
    } else if contains_chars(r.as_slice(), amp.as_slice()) {
        members_resolve(aliases, structs, &r, &amp, fuel - 1)
    } else if r.len() > 0 && r[r.len() - 1] == '?' {
        let base = sub_chars(r.as_slice(), 0, r.len() - 1);
        assert(base@ == r@.drop_last());
        resolves_within(aliases, structs, &base, fuel - 1)
    } else {
        true
    }
}

/// Whether every member of the composite text `r` split at `sep`
/// resolves within `fuel` nested resolutions.
fn members_resolve<V>(aliases: &StrMap<String>, structs: &StrMap<V>, r: &Vec<char>, sep: &Vec<char>, fuel: u64) -> (ok: bool)
    requires
        sep@ == " | "@ || sep@ == " & "@,
    ensures
        ok == (parse_list(alias_texts(aliases.map()), structs.map().dom(), member_texts(r@, sep@), fuel as nat) is Some),
    decreases fuel, 2nat,
{
    let ghost al = alias_texts(aliases.map());
    let ghost st = structs.map().dom();
    let ghost parts = member_texts(r@, sep@);
    proof {
        lemma_list_all(al, st, parts, fuel as nat);
    }
    assert(sep@.len() > 0) by {
        reveal_strlit(" | ");
        reveal_strlit(" & ");
    }
    let pieces = split_chars(r.as_slice(), sep.as_slice());
    let mut i: usize = 0;
    while i < pieces.len()
        invariant
            views_of(pieces@) == split(r@, sep@),
            parts == member_texts(r@, sep@),
            parts.len() == pieces@.len(),
            al == alias_texts(aliases.map()),
            st == structs.map().dom(),
            i <= pieces@.len(),
            forall|j: int| 0 <= j < i ==> #[trigger] parse_fuel(al, st, parts[j], fuel as nat) is Some,
        decreases pieces@.len() - i,
    {
        let part = trim_chars(pieces[i].as_slice());
        assert(part@ == parts[i as int]);
        if !resolves_within(aliases, structs, &part, fuel) {
            assert(!(parse_fuel(al, st, parts[i as int], fuel as nat) is Some));
            proof {
                lemma_list_all(al, st, parts, fuel as nat);
            }
            return false;
        }
        i = i + 1;
    }
    true
}

/// The type the text `s` denotes, when its resolution finishes within
/// `fuel` nested resolutions; `None` otherwise.
pub fn resolve_type_text_within<V>(aliases: &StrMap<String>, structs: &StrMap<V>, s: &str, fuel: u64) -> (r: Option<BrixType>)
    ensures
        r is Some <==> parse_fuel(alias_texts(aliases.map()), structs.map().dom(), s@, fuel as nat) is Some,
        r matches Some(t) ==> resolves(alias_texts(aliases.map()), structs.map().dom(), s@) && t@ == parse_type(
            alias_texts(aliases.map()),
            structs.map().dom(),
            s@,
        ),
{
    let cs = chars_of(s);
    if resolves_within(aliases, structs, &cs, fuel) {
        proof {
            lemma_parse_type(alias_texts(aliases.map()), structs.map().dom(), s@, fuel as nat);
        }
        Some(parse_chars(aliases, structs, &cs))
    } else {
        None
    }
}

} // verus!
