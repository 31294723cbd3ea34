//! Conversion of values to text: the `printf` formats of numbers, how a
//! value of each type becomes a string, and the text of `typeof`.

use vstd::prelude::*;
use crate::types::{BrixType, TypeModel, models_of, lemma_models_of};
use crate::generics::join;
use crate::text::{chars_of, string_of};

verus! {

/// The `printf` format of an integer for an optional format specifier:
/// `x`, `X` and `o` give hexadecimal and octal, anything else decimal.
pub open spec fn spec_int_format(fmt: Option<Seq<char>>) -> Seq<char> {
    match fmt {
        Some(f) => if f == "x"@ {
            "%x"@
        } else if f == "X"@ {
            "%X"@
        } else if f == "o"@ {
            "%o"@
        } else {
            "%lld"@
        },
        None => "%lld"@,
    }
}

/// The `printf` format of a float for an optional format specifier: a
/// precision form `.N` followed by `f`, `e` or `E` is used as it is behind
/// `%`; `e`, `E`, `f`, `g`, `G` select those conversions; anything else,
/// and no specifier, gives `%g`.
pub open spec fn spec_float_format(fmt: Option<Seq<char>>) -> Seq<char> {
    match fmt {
        Some(f) => if f.len() > 0 && f[0] == '.' && (f.last() == 'f' || f.last() == 'e' || f.last() == 'E') {
            "%"@ + f
        } else if f == "e"@ {
            "%e"@
        } else if f == "E"@ {
            "%E"@
        } else if f == "f"@ {
            "%f"@
        } else if f == "g"@ {
            "%g"@
        } else if f == "G"@ {
            "%G"@
        } else {
            "%g"@
        },
        None => "%g"@,
    }
}

fn str_is(s: &str, lit: &str) -> (r: bool)
    ensures
        r == (s@ == lit@),
{
    crate::strmap::str_equal(s, lit)
}

/// The `printf` format of an integer for an optional format specifier.
pub fn int_format(fmt: Option<&str>) -> (r: String)
    ensures
        r@ == spec_int_format(match fmt {
            Some(f) => Some(f@),
            None => None,
        }),
{
    match fmt {
        Some(f) => if str_is(f, "x") {
            String::from_str("%x")
        } else if str_is(f, "X") {
            String::from_str("%X")
        } else if str_is(f, "o") {
            String::from_str("%o")
        } else {
            String::from_str("%lld")
        },
        None => String::from_str("%lld"),
    }
}

/// The `printf` format of a float for an optional format specifier.
pub fn float_format(fmt: Option<&str>) -> (r: String)
    ensures
        r@ == spec_float_format(match fmt {
            Some(f) => Some(f@),
            None => None,
        }),
{
    match fmt {
        Some(f) => {
            let n = f.unicode_len();
            if n > 0 && f.get_char(0) == '.' && (f.get_char(n - 1) == 'f' || f.get_char(n - 1) == 'e'
                || f.get_char(n - 1) == 'E') {
                let mut out = String::from_str("%");
                out.append(f);
                out
            } else if str_is(f, "e") {
                String::from_str("%e")
            } else if str_is(f, "E") {
                String::from_str("%E")
            } else if str_is(f, "f") {
                String::from_str("%f")
            } else if str_is(f, "g") {
                String::from_str("%g")
            } else if str_is(f, "G") {
                String::from_str("%G")
            } else {
                String::from_str("%g")
            }
        },
        None => String::from_str("%g"),
    }
}

/// How a value of a type is converted to a runtime string.
#[derive(PartialEq, Eq, Structural, Clone, Copy, Debug)]
pub enum ToStringPlan {
    /// Already a string.
    Itself,
    /// `sprintf` with the integer format, then `str_new`.
    SprintfInt,
    /// `sprintf` with the float format, then `str_new`.
    SprintfFloat,
    /// `[a, b, c]` built element by element; `ints` for integer matrices.
    Array { ints: bool },
    /// `complex_to_string`.
    Complex,
    /// `[x, y, z]` of complex elements.
    ComplexArray,
    /// The constant text `nil`.
    Nil,
    /// `brix_error_message`.
    ErrorMessage,
    /// `atom_name`.
    AtomName,
    /// A switch on the union's tag converting the active member.
    UnionMembers,
    /// The constant text `<Intersection>`.
    Intersection,
}

pub open spec fn spec_to_string_plan(t: TypeModel) -> Option<ToStringPlan> {
    match t {
        TypeModel::String => Some(ToStringPlan::Itself),
        TypeModel::Int => Some(ToStringPlan::SprintfInt),
        TypeModel::Float => Some(ToStringPlan::SprintfFloat),
        TypeModel::Matrix => Some(ToStringPlan::Array { ints: false }),
        TypeModel::IntMatrix => Some(ToStringPlan::Array { ints: true }),
        TypeModel::Complex => Some(ToStringPlan::Complex),
        TypeModel::ComplexMatrix => Some(ToStringPlan::ComplexArray),
        TypeModel::Nil => Some(ToStringPlan::Nil),
        TypeModel::Error => Some(ToStringPlan::ErrorMessage),
        TypeModel::Atom => Some(ToStringPlan::AtomName),
        TypeModel::Union(_) => Some(ToStringPlan::UnionMembers),
        TypeModel::Intersection(_) => Some(ToStringPlan::Intersection),
        _ => None,
    }
}

/// How a value of type `t` is converted to a string; `None` for types with
/// no conversion (tuples, structs, raw float pointers, `void`, complex
/// arrays). Optionals are represented as unions and never reach here.
pub fn to_string_plan(t: &BrixType) -> (r: Option<ToStringPlan>)
    requires
        !(t@ is Optional),
    ensures
        r == spec_to_string_plan(t@),
{
    match t {
        BrixType::String => Some(ToStringPlan::Itself),
        BrixType::Int => Some(ToStringPlan::SprintfInt),
        BrixType::Float => Some(ToStringPlan::SprintfFloat),
        BrixType::Matrix => Some(ToStringPlan::Array { ints: false }),
        BrixType::IntMatrix => Some(ToStringPlan::Array { ints: true }),
        BrixType::Complex => Some(ToStringPlan::Complex),
        BrixType::ComplexMatrix => Some(ToStringPlan::ComplexArray),
        BrixType::Nil => Some(ToStringPlan::Nil),
        BrixType::Error => Some(ToStringPlan::ErrorMessage),
        BrixType::Atom => Some(ToStringPlan::AtomName),
        BrixType::Union(_) => Some(ToStringPlan::UnionMembers),
        BrixType::Intersection(_) => Some(ToStringPlan::Intersection),
        _ => None,
    }
}

/// What `input(...)` reads: `input("int")` an integer, `input("float")` a
/// float, anything else a string.
pub open spec fn spec_input_kind(arg: Option<Seq<char>>) -> TypeModel {
    match arg {
        Some(a) => if a == "int"@ {
            TypeModel::Int
        } else if a == "float"@ {
            TypeModel::Float
        } else {
            TypeModel::String
        },
        None => TypeModel::String,
    }
}

/// The type `input` reads, given the string literal of its first argument
/// if there is one.
pub fn input_kind(arg: Option<&str>) -> (r: BrixType)
    ensures
        r@ == spec_input_kind(match arg {
            Some(a) => Some(a@),
            None => None,
        }),
{
    match arg {
        Some(a) => if str_is(a, "int") {
            BrixType::Int
        } else if str_is(a, "float") {
            BrixType::Float
        } else {
            BrixType::String
        },
        None => BrixType::String,
    }
}

/// The word for a member of a union in the text of `typeof`.
pub open spec fn union_member_word(t: TypeModel) -> Seq<char> {
    match t {
        TypeModel::Int => "int"@,
        TypeModel::Float => "float"@,
        TypeModel::String => "string"@,
        TypeModel::Nil => "nil"@,
        TypeModel::Struct(n) => n,
        _ => "unknown"@,
    }
}

/// The word for a member of an intersection in the text of `typeof`.
pub open spec fn intersection_member_word(t: TypeModel) -> Seq<char> {
    match t {
        TypeModel::Struct(n) => n,
        _ => "unknown"@,
    }
}

/// The text `typeof` gives for a type.
pub open spec fn spec_typeof_text(t: TypeModel) -> Seq<char> {
    match t {
        TypeModel::Int => "int"@,
        TypeModel::Float => "float"@,
        TypeModel::String => "string"@,
        TypeModel::Matrix => "matrix"@,
        TypeModel::IntMatrix => "intmatrix"@,
        TypeModel::Complex => "complex"@,
        TypeModel::ComplexArray => "complexarray"@,
        TypeModel::ComplexMatrix => "complexmatrix"@,
        TypeModel::FloatPtr => "float_ptr"@,
        TypeModel::Void => "void"@,
        TypeModel::Tuple(_) => "tuple"@,
        TypeModel::Nil => "nil"@,
        TypeModel::Error => "error"@,
        TypeModel::Atom => "atom"@,
        TypeModel::Struct(n) => n,
        TypeModel::Union(ms) => join(Seq::new(ms.len(), |i: int| union_member_word(ms[i])), " | "@),
        TypeModel::Intersection(ms) => join(Seq::new(ms.len(), |i: int| intersection_member_word(ms[i])), " & "@),
        TypeModel::Optional(_) => Seq::empty(),
    }
}

fn member_word(t: &BrixType, union: bool) -> (r: String)
    ensures
        union ==> r@ == union_member_word(t@),
        !union ==> r@ == intersection_member_word(t@),
{
    match t {
        BrixType::Struct(n) => n.clone(),
        BrixType::Int if union => String::from_str("int"),
        BrixType::Float if union => String::from_str("float"),
        BrixType::String if union => String::from_str("string"),
        BrixType::Nil if union => String::from_str("nil"),
        _ => String::from_str("unknown"),
    }
}

fn join_words(ms: &Vec<BrixType>, union: bool) -> (r: String)
    ensures
        union ==> r@ == join(Seq::new(models_of(ms@).len(), |i: int| union_member_word(models_of(ms@)[i])), " | "@),
        !union ==> r@ == join(
            Seq::new(models_of(ms@).len(), |i: int| intersection_member_word(models_of(ms@)[i])),
            " & "@,
        ),
{
    proof {
        lemma_models_of(ms@);
    }
    let ghost words = if union {
        Seq::new(models_of(ms@).len(), |i: int| union_member_word(models_of(ms@)[i]))
    } else {
        Seq::new(models_of(ms@).len(), |i: int| intersection_member_word(models_of(ms@)[i]))
    };
    let sep = if union { " | " } else { " & " };
    let mut out = String::new();
    let mut i: usize = 0;
    while i < ms.len()
        invariant
            i <= ms@.len(),
            words.len() == ms@.len(),
            forall|j: int| 0 <= j < ms@.len() ==> #[trigger] words[j] == (if union {
                union_member_word(ms@[j]@)
            } else {
                intersection_member_word(ms@[j]@)
            }),
            sep@ == (if union { " | "@ } else { " & "@ }),
            out@ == join(words.subrange(0, i as int), sep@),
        decreases ms@.len() - i,
    {
        let w = member_word(&ms[i], union);
        let ghost prev = words.subrange(0, i as int);
        let ghost next = words.subrange(0, i + 1);
        assert(next.drop_last() =~= prev);
        if i > 0 {
            out.append(sep);
        } else {
            assert(prev =~= Seq::<Seq<char>>::empty());
        }
        out.append(w.as_str());
        assert(out@ =~= join(next, sep@));
        i = i + 1;
    }
    assert(words.subrange(0, ms@.len() as int) =~= words);
    out
}

/// The text of `typeof(x)` for a value of type `t`, such as `int`,
/// `tuple`, a struct's name, or `int | nil` for a union.
pub fn typeof_text(t: &BrixType) -> (r: String)
    requires
        !(t@ is Optional),
    ensures
        r@ == spec_typeof_text(t@),
{
    match t {
        BrixType::Int => String::from_str("int"),
        BrixType::Float => String::from_str("float"),
        BrixType::String => String::from_str("string"),
        BrixType::Matrix => String::from_str("matrix"),
        BrixType::IntMatrix => String::from_str("intmatrix"),
        BrixType::Complex => String::from_str("complex"),
        BrixType::ComplexArray => String::from_str("complexarray"),
        BrixType::ComplexMatrix => String::from_str("complexmatrix"),
        BrixType::FloatPtr => String::from_str("float_ptr"),
        BrixType::Void => String::from_str("void"),
        BrixType::Tuple(_) => String::from_str("tuple"),
        BrixType::Nil => String::from_str("nil"),
        BrixType::Error => String::from_str("error"),
        BrixType::Atom => String::from_str("atom"),
        BrixType::Struct(n) => n.clone(),
        BrixType::Union(ms) => join_words(ms, true),
        BrixType::Intersection(ms) => join_words(ms, false),
        BrixType::Optional(_) => String::new(),
    }
}


/// A character as it stands inside a quoted name in a type's debug text: a
/// quote or a backslash behind a backslash, a newline, carriage return,
/// tab or NUL as `\n`, `\r`, `\t`, `\0`, any other character as itself.
pub open spec fn escaped_char(c: char) -> Seq<char> {
    if c == '"' {
        seq!['\\', '"']
    } else if c == '\\' {
        seq!['\\', '\\']
    } else if c == '\n' {
        seq!['\\', 'n']
    } else if c == '\r' {
        seq!['\\', 'r']
    } else if c == '\t' {
        seq!['\\', 't']
    } else if c == '\0' {
        seq!['\\', '0']
    } else {
        seq![c]
    }
}

/// A name with each of its characters escaped.
pub open spec fn escaped(s: Seq<char>) -> Seq<char>
    decreases s.len(),
{
    if s.len() == 0 {
        Seq::empty()
    } else {
        escaped(s.subrange(0, s.len() - 1)) + escaped_char(s[s.len() - 1])
    }
}

/// The debug text of a type, which names it in error messages: the
/// variant's name, followed by the members of a tuple, union or
/// intersection in `([..])` separated by `, `, the quoted, escaped name of
/// a struct in `("..")`, or the inner type of an optional in `(..)`; for
/// example `Int`, `Struct("P")` or `Tuple([Int, Float])`.
pub open spec fn spec_debug_text(t: TypeModel) -> Seq<char>
    decreases t,
{
    match t {
        TypeModel::Int => "Int"@,
        TypeModel::Float => "Float"@,
        TypeModel::String => "String"@,
        TypeModel::Matrix => "Matrix"@,
        TypeModel::IntMatrix => "IntMatrix"@,
        TypeModel::Complex => "Complex"@,
        TypeModel::ComplexArray => "ComplexArray"@,
        TypeModel::ComplexMatrix => "ComplexMatrix"@,
        TypeModel::FloatPtr => "FloatPtr"@,
        TypeModel::Nil => "Nil"@,
        TypeModel::Error => "Error"@,
        TypeModel::Atom => "Atom"@,
        TypeModel::Void => "Void"@,
        TypeModel::Tuple(ms) => "Tuple(["@ + debug_members(ms) + "])"@,
        TypeModel::Struct(n) => "Struct(\""@ + escaped(n) + "\")"@,
        TypeModel::Union(ms) => "Union(["@ + debug_members(ms) + "])"@,
        TypeModel::Intersection(ms) => "Intersection(["@ + debug_members(ms) + "])"@,
        TypeModel::Optional(b) => "Optional("@ + spec_debug_text(*b) + ")"@,
    }
}

/// The debug texts of a member list, separated by `, `.
pub open spec fn debug_members(ms: Seq<TypeModel>) -> Seq<char>
    decreases ms,
{
    if ms.len() == 0 {
        Seq::empty()
    } else if ms.len() == 1 {
        spec_debug_text(ms[0])
    } else {
        debug_members(ms.subrange(0, ms.len() - 1)) + ", "@ + spec_debug_text(ms[ms.len() - 1])
    }
}

/// A struct name with its characters escaped.
fn escape_name(name: &str) -> (r: String)
    ensures
        r@ == escaped(name@),
{
    let cs = chars_of(name);
    let mut out: Vec<char> = Vec::new();
    let mut i: usize = 0;
    while i < cs.len()
        invariant
            i <= cs@.len(),
            cs@ == name@,
            out@ == escaped(cs@.subrange(0, i as int)),
        decreases cs@.len() - i,
    {
        let c = cs[i];
        if c == '"' {
            out.push('\\');
            out.push('"');
        } else if c == '\\' {
            out.push('\\');
            out.push('\\');
        } else if c == '\n' {
            out.push('\\');
            out.push('n');
        } else if c == '\r' {
            out.push('\\');
            out.push('r');
        } else if c == '\t' {
            out.push('\\');
            out.push('t');
        } else if c == '\0' {
            out.push('\\');
            out.push('0');
        } else {
            out.push(c);
        }
        assert(cs@.subrange(0, i + 1).subrange(0, i as int) =~= cs@.subrange(0, i as int));
        assert(out@ =~= escaped(cs@.subrange(0, i + 1)));
        i = i + 1;
    }
    assert(cs@.subrange(0, cs@.len() as int) =~= cs@);
    string_of(&out)
}

/// The debug text of `t` (see `spec_debug_text`).
pub fn debug_text(t: &BrixType) -> (r: String)
    ensures
        r@ == spec_debug_text(t@),
    decreases t,
{
    match t {
        BrixType::Int => String::from_str("Int"),
        BrixType::Float => String::from_str("Float"),
        BrixType::String => String::from_str("String"),
        BrixType::Matrix => String::from_str("Matrix"),
        BrixType::IntMatrix => String::from_str("IntMatrix"),
        BrixType::Complex => String::from_str("Complex"),
        BrixType::ComplexArray => String::from_str("ComplexArray"),
        BrixType::ComplexMatrix => String::from_str("ComplexMatrix"),
        BrixType::FloatPtr => String::from_str("FloatPtr"),
        BrixType::Nil => String::from_str("Nil"),
        BrixType::Error => String::from_str("Error"),
        BrixType::Atom => String::from_str("Atom"),
        BrixType::Void => String::from_str("Void"),
        BrixType::Tuple(ms) => wrapped("Tuple([", debug_member_text(ms), "])"),
        BrixType::Struct(n) => wrapped("Struct(\"", escape_name(n.as_str()), "\")"),
        BrixType::Union(ms) => wrapped("Union([", debug_member_text(ms), "])"),
        BrixType::Intersection(ms) => wrapped("Intersection([", debug_member_text(ms), "])"),
        BrixType::Optional(b) => wrapped("Optional(", debug_text(b), ")"),
    }
}

/// `open`, then `inner`, then `close`.
fn wrapped(open: &str, inner: String, close: &str) -> (r: String)
    ensures
        r@ == open@ + inner@ + close@,
{
    let mut s = String::from_str(open);
    s.append(inner.as_str());
    s.append(close);
    s
}

/// The debug texts of a member list, separated by `, `.
fn debug_member_text(ms: &Vec<BrixType>) -> (r: String)
    ensures
        r@ == debug_members(models_of(ms@)),
    decreases ms,
{
    proof {
        lemma_models_of(ms@);
    }
    let mut out = String::new();
    let mut i: usize = 0;
    while i < ms.len()
        invariant
            i <= ms@.len(),
            models_of(ms@).len() == ms@.len(),
            forall|k: int| 0 <= k < ms@.len() ==> #[trigger] models_of(ms@)[k] == ms@[k]@,
            out@ == debug_members(models_of(ms@).subrange(0, i as int)),
        decreases ms@.len() - i,
    {
        proof {
            assert(decreases_to!(ms => ms@[i as int]));
        }
        let w = debug_text(&ms[i]);
        let ghost prev = models_of(ms@).subrange(0, i as int);
        let ghost next = models_of(ms@).subrange(0, i + 1);
        assert(next.subrange(0, i as int) =~= prev);
        if i > 0 {
            out.append(", ");
        } else {
            assert(prev =~= Seq::<TypeModel>::empty());
        }
        out.append(w.as_str());
        assert(out@ =~= debug_members(next));
        i = i + 1;
    }
    assert(models_of(ms@).subrange(0, ms@.len() as int) =~= models_of(ms@));
    out
}

} // verus!
