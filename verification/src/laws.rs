//! Properties of the generator that hold across inputs and across calls.

use vstd::prelude::*;
use crate::types::{TypeModel, spec_types_compatible, spec_is_ref_counted};
use crate::text::{contains, decimal, digit_char};
use crate::format::{spec_float_format, spec_int_format, spec_typeof_text};
use crate::typeparse::{base_type, parse_fuel, parse_list, parse_type, resolves, resolve_alias, member_texts, lemma_parse_type, lemma_list_members};
use crate::arc::{release_positions, spec_retain_fn, spec_release_fn};
use crate::ops::{BinaryOp, spec_plan_binary, spec_plan_result, is_arith, is_comparison};
use crate::generics::{arg_word, infer_step, spec_substitute, last_match, min_len, InstanceCache};
use crate::strmap::StrMap;
use crate::ops::{IntLowering, FloatLowering, IntPredicate, FloatPredicate, spec_int_lowering, spec_float_lowering};
use crate::emit::{int_op_emits, float_op_emits};
use crate::llvm::Emitted;
use crate::closures::{ClosureBuilt, closure_built};
use crate::testlib::{MatcherOutcome, spec_plan_matcher, not_prefix, spec_arg_use, ArgUse};
use crate::calls::{Builtin, spec_test_answer};
use inkwell::values::{IntValue, FloatValue};

verus! {

/// `T?` is the union of `T` and `nil`: a type text ending in `?` that is
/// neither an alias nor a union or intersection denotes the union of what
/// the text before the `?` denotes and `nil`.
pub proof fn law_optional_is_union_with_nil(al: Map<Seq<char>, Seq<char>>, st: Set<Seq<char>>, s: Seq<char>)
    requires
        !al.dom().contains(s.push('?')),
        !contains(s.push('?'), " | "@),
        !contains(s.push('?'), " & "@),
        resolves(al, st, s),
    ensures
        resolves(al, st, s.push('?')),
        parse_type(al, st, s.push('?')) == TypeModel::Union(seq![parse_type(al, st, s), TypeModel::Nil]),
{
    let f = choose|f: nat| #[trigger] parse_fuel(al, st, s, f) is Some;
    lemma_parse_type(al, st, s, f);
    let t = s.push('?');
    assert(resolve_alias(al, t) == t);
    assert(t.drop_last() =~= s);
    assert(t.last() == '?');
    assert(parse_fuel(al, st, t, f + 1) == Some(TypeModel::Union(seq![parse_type(al, st, s), TypeModel::Nil])));
    lemma_parse_type(al, st, t, f + 1);
}

/// An alias denotes what its definition denotes (aliases are resolved one
/// level, so the definition must not itself name an alias).
pub proof fn law_alias_denotes_definition(al: Map<Seq<char>, Seq<char>>, st: Set<Seq<char>>, name: Seq<char>)
    requires
        al.dom().contains(name),
        !al.dom().contains(al[name]),
        resolves(al, st, al[name]),
    ensures
        resolves(al, st, name),
        parse_type(al, st, name) == parse_type(al, st, al[name]),
{
    let def = al[name];
    let f = choose|f: nat| #[trigger] parse_fuel(al, st, def, f) is Some;
    lemma_parse_type(al, st, def, f);
    assert(resolve_alias(al, name) == def);
    assert(resolve_alias(al, def) == def);
    assert(f > 0);
    if contains(def, " | "@) {
        assert(parse_fuel(al, st, name, f) == parse_fuel(al, st, def, f));
    } else if contains(def, " & "@) {
        assert(parse_fuel(al, st, name, f) == parse_fuel(al, st, def, f));
    } else if def.len() > 0 && def.last() == '?' {
        assert(parse_fuel(al, st, name, f) == parse_fuel(al, st, def, f));
    } else {
        assert(parse_fuel(al, st, name, f) == parse_fuel(al, st, def, f));
    }
    lemma_parse_type(al, st, name, f);
}

/// A union type text that is not an alias denotes the union of the types
/// its ` | `-separated members denote, in order.
pub proof fn law_union_of_members(al: Map<Seq<char>, Seq<char>>, st: Set<Seq<char>>, s: Seq<char>)
    requires
        !al.dom().contains(s),
        contains(s, " | "@),
        resolves(al, st, s),
    ensures
        parse_type(al, st, s) matches TypeModel::Union(ms) && ms.len() == member_texts(s, " | "@).len()
            && forall|i: int| 0 <= i < ms.len() ==> ms[i] == parse_type(al, st, #[trigger] member_texts(s, " | "@)[i]),
{
    let f = choose|f: nat| #[trigger] parse_fuel(al, st, s, f) is Some;
    lemma_parse_type(al, st, s, f);
    assert(resolve_alias(al, s) == s);
    let parts = member_texts(s, " | "@);
    assert(f > 0);
    assert(parse_list(al, st, parts, (f - 1) as nat) is Some);
    lemma_list_members(al, st, parts, (f - 1) as nat);
    let ms = parse_list(al, st, parts, (f - 1) as nat).unwrap();
    assert(parse_type(al, st, s) == TypeModel::Union(ms));
    assert forall|i: int| 0 <= i < ms.len() implies ms[i] == parse_type(al, st, #[trigger] parts[i]) by {
        assert(parse_fuel(al, st, parts[i], (f - 1) as nat) == Some(ms[i]));
        lemma_parse_type(al, st, parts[i], (f - 1) as nat);
    }
}

/// Whether the names at two positions are the same.
pub open spec fn no_repeated_name(names: Seq<Seq<char>>, ps: Seq<int>) -> bool {
    forall|i: int, j: int| 0 <= i < j < ps.len() ==> names[#[trigger] ps[i]] != names[#[trigger] ps[j]]
}

/// On exit a function releases each tracked variable once: the positions
/// released are increasing positions of the list, at most one per name,
/// each of a name still bound, and every bound tracked name is among them.
pub proof fn law_release_once_per_name(names: Seq<Seq<char>>, bound: Set<Seq<char>>, n: int)
    requires
        0 <= n <= names.len(),
    ensures
        forall|i: int| 0 <= i < release_positions(names, bound, n).len() ==> {
            let p = #[trigger] release_positions(names, bound, n)[i];
            &&& 0 <= p < n
            &&& bound.contains(names[p])
        },
        forall|i: int, j: int| 0 <= i < j < release_positions(names, bound, n).len()
            ==> #[trigger] release_positions(names, bound, n)[i] < #[trigger] release_positions(names, bound, n)[j],
        no_repeated_name(names, release_positions(names, bound, n)),
        forall|k: int| 0 <= k < n && bound.contains(#[trigger] names[k]) ==> exists|i: int|
            0 <= i < release_positions(names, bound, n).len() && names[release_positions(names, bound, n)[i]] == names[k],
    decreases n,
{
    if n > 0 {
        law_release_once_per_name(names, bound, n - 1);
        let before = release_positions(names, bound, n - 1);
        let now = release_positions(names, bound, n);
        let last = names[n - 1];
        if !names.subrange(0, n - 1).contains(last) && bound.contains(last) {
            assert(now == before.push(n - 1));
            assert forall|i: int, j: int| 0 <= i < j < now.len() implies names[#[trigger] now[i]] != names[#[trigger] now[j]] by {
                if j == now.len() - 1 {
                    let p = now[i];
                    assert(before[i] == p);
                    assert(0 <= p < n - 1);
                    assert(names.subrange(0, n - 1)[p] == names[p]);
                } else {
                    assert(before[i] == now[i] && before[j] == now[j]);
                }
            }
            assert forall|k: int| 0 <= k < n && bound.contains(#[trigger] names[k]) implies exists|i: int|
                0 <= i < now.len() && names[now[i]] == names[k] by {
                if k == n - 1 {
                    assert(now[now.len() - 1] == n - 1);
                } else {
                    let i = choose|i: int| 0 <= i < before.len() && names[before[i]] == names[k];
                    assert(now[i] == before[i]);
                }
            }
        } else {
            assert(now == before);
            assert forall|k: int| 0 <= k < n && bound.contains(#[trigger] names[k]) implies exists|i: int|
                0 <= i < now.len() && names[now[i]] == names[k] by {
                if k == n - 1 {
                    let w = choose|w: int| 0 <= w < n - 1 && #[trigger] names.subrange(0, n - 1)[w] == last;
                    assert(names[w] == last);
                    assert(bound.contains(names[w]));
                    let i = choose|i: int| 0 <= i < before.len() && names[before[i]] == names[w];
                    assert(names[now[i]] == names[k]);
                }
            }
        }
    }
}

/// Every type with a retain function has a release function and the other
/// way round: exactly the reference-counted types.
pub proof fn law_retain_release_pair(t: TypeModel)
    ensures
        spec_retain_fn(t) is Some <==> spec_release_fn(t) is Some,
        spec_retain_fn(t) is Some <==> spec_is_ref_counted(t),
{
}

/// Match arms are compatible symmetrically, every type with itself.
pub proof fn law_types_compatible_symmetric(a: TypeModel, b: TypeModel)
    ensures
        spec_types_compatible(a, b) == spec_types_compatible(b, a),
        spec_types_compatible(a, a),
{
}

/// Arithmetic on an `int` and a `float` (either side), or on two floats,
/// promotes to `float`; on two ints it stays `int`.
pub proof fn law_arith_promotion(op: BinaryOp, l: TypeModel, r: TypeModel)
    requires
        is_arith(op),
        l is Int || l is Float,
        r is Int || r is Float,
    ensures
        spec_plan_binary(op, l, r) is Ok,
        (l is Float || r is Float) ==> spec_plan_result(spec_plan_binary(op, l, r)->Ok_0, l) == TypeModel::Float,
        (l is Int && r is Int) ==> spec_plan_result(spec_plan_binary(op, l, r)->Ok_0, l) == TypeModel::Int,
{
}

/// Comparing two numbers, of either kind, gives an `int` (0 or 1).
pub proof fn law_comparison_gives_int(op: BinaryOp, l: TypeModel, r: TypeModel)
    requires
        is_comparison(op),
        l is Int || l is Float,
        r is Int || r is Float,
    ensures
        spec_plan_binary(op, l, r) is Ok,
        spec_plan_result(spec_plan_binary(op, l, r)->Ok_0, l) == TypeModel::Int,
{
}

/// Substituting with no type parameters changes nothing.
pub proof fn law_substitute_without_params(t: Seq<char>, args: Seq<Seq<char>>)
    ensures
        spec_substitute(t, Seq::empty(), args) == t,
{
}

/// With distinct parameter names, a text naming the `i`-th parameter
/// becomes the `i`-th argument.
pub proof fn law_substitute_param(params: Seq<Seq<char>>, args: Seq<Seq<char>>, i: int)
    requires
        0 <= i < params.len(),
        i < args.len(),
        forall|a: int, b: int| 0 <= a < b < params.len() ==> params[a] != params[b],
    ensures
        spec_substitute(params[i], params, args) == args[i],
{
    let n = min_len(params.len() as int, args.len() as int);
    lemma_last_match_distinct(params, i, n);
}

proof fn lemma_last_match_distinct(params: Seq<Seq<char>>, i: int, n: int)
    requires
        0 <= i < n <= params.len(),
        forall|a: int, b: int| 0 <= a < b < params.len() ==> params[a] != params[b],
    ensures
        last_match(params, params[i], n) == Some(i),
    decreases n,
{
    if n - 1 != i {
        assert(params[i] != params[n - 1]);
        lemma_last_match_distinct(params, i, n - 1);
    }
}

proof fn lemma_decimal_nonempty(n: nat)
    ensures
        decimal(n).len() >= 1,
        n >= 10 ==> decimal(n).len() >= 2,
    decreases n,
{
    if n >= 10 {
        lemma_decimal_nonempty(n / 10);
    }
}

/// Distinct numbers have distinct numerals, so closure names made from
/// successive counter values never collide.
pub proof fn law_decimal_injective(n: nat, m: nat)
    requires
        n != m,
    ensures
        decimal(n) != decimal(m),
        "__closure_"@ + decimal(n) != "__closure_"@ + decimal(m),
    decreases n + m,
{
    lemma_decimal_nonempty(n);
    lemma_decimal_nonempty(m);
    if n < 10 && m < 10 {
        assert(decimal(n)[0] == digit_char(n));
        assert(decimal(m)[0] == digit_char(m));
    } else if n >= 10 && m >= 10 {
        if decimal(n) == decimal(m) {
            assert(decimal(n).last() == digit_char(n % 10));
            assert(decimal(m).last() == digit_char(m % 10));
            assert(n % 10 == m % 10);
            assert(decimal(n).drop_last() == decimal(n / 10));
            assert(decimal(m).drop_last() == decimal(m / 10));
            assert(n / 10 != m / 10);
            law_decimal_injective(n / 10, m / 10);
        }
    }
    let p = "__closure_"@;
    if p + decimal(n) == p + decimal(m) {
        assert(decimal(n) =~= (p + decimal(n)).subrange(p.len() as int, (p + decimal(n)).len() as int));
        assert(decimal(m) =~= (p + decimal(m)).subrange(p.len() as int, (p + decimal(m)).len() as int));
    }
}

/// Two closures built from different counter values have functions of
/// different names.
pub proof fn law_closure_functions_distinct<'ctx>(a: ClosureBuilt<'ctx>, n: usize, b: ClosureBuilt<'ctx>, m: usize)
    requires
        closure_built(a, n),
        closure_built(b, m),
        n != m,
    ensures
        a.function.defined_name() != b.function.defined_name(),
{
    law_decimal_injective(n as nat, m as nat);
}

/// The runtime check of a matcher written with `.not`: the plain one's
/// `test_expect_<check>` becomes `test_expect_not_<check>`.
pub open spec fn negated_check(p: Seq<char>) -> Seq<char> {
    "test_expect_not_"@ + p.subrange(12, p.len() as int)
}

/// `expect(x).not.m(y)` asks for the negation of the check `expect(x).m(y)`
/// asks for: for every matcher but `toBeTruthy` and `toBeFalsy` (which
/// trade places under `.not`), the negated plan calls the `not_` variant
/// of the plain plan's runtime function, with the same conversions, and
/// is skipped or refused exactly when the plain one is.
#[verifier::rlimit(80)]
pub proof fn law_not_asks_for_the_negated_check(m: Seq<char>, a: TypeModel, e: Option<TypeModel>)
    requires
        m != "toBeTruthy"@,
        m != "toBeFalsy"@,
    ensures
        spec_plan_matcher(m, false, a, e) matches MatcherOutcome::Call(p, k, c, x) ==> spec_plan_matcher(m, true, a, e)
            == MatcherOutcome::Call(negated_check(p), k, c, x),
        spec_plan_matcher(m, false, a, e) is Skip <==> spec_plan_matcher(m, true, a, e) is Skip,
        spec_plan_matcher(m, false, a, e) is MissingArgument <==> spec_plan_matcher(m, true, a, e) is MissingArgument,
{
    reveal_strlit("test_expect_");
    reveal_strlit("not_");
    reveal_strlit("test_expect_not_");
    reveal_strlit("test_expect_toBeNil");
    reveal_strlit("test_expect_not_toBeNil");
    assert forall|t: Seq<char>| #![trigger "test_expect_"@ + not_prefix(false) + t]
        negated_check("test_expect_"@ + not_prefix(false) + t) == "test_expect_"@ + not_prefix(true) + t by {
        assert(("test_expect_"@ + not_prefix(false) + t).subrange(12, ("test_expect_"@ + not_prefix(false) + t).len() as int)
            =~= t);
        assert("test_expect_not_"@ + t =~= "test_expect_"@ + "not_"@ + t);
    }
    assert forall|u: Seq<char>, v: Seq<char>| #![trigger "test_expect_"@ + not_prefix(false) + u + v]
        negated_check("test_expect_"@ + not_prefix(false) + u + v) == "test_expect_"@ + not_prefix(true) + u + v by {
        let p = "test_expect_"@ + not_prefix(false) + u + v;
        assert(p.subrange(12, p.len() as int) =~= u + v);
        assert("test_expect_not_"@ + (u + v) =~= "test_expect_"@ + "not_"@ + u + v);
    }
    assert(negated_check("test_expect_toBeNil"@) =~= "test_expect_not_toBeNil"@);
}

/// `.not.toBeTruthy()` is `.toBeFalsy()`, and `.not.toBeFalsy()` is
/// `.toBeTruthy()`.
pub proof fn law_not_truthy_is_falsy(a: TypeModel, e: Option<TypeModel>)
    ensures
        spec_plan_matcher("toBeTruthy"@, true, a, e) == spec_plan_matcher("toBeFalsy"@, false, a, e),
        spec_plan_matcher("toBeFalsy"@, true, a, e) == spec_plan_matcher("toBeTruthy"@, false, a, e),
{
    reveal_strlit("toBeTruthy");
    reveal_strlit("toBeFalsy");
    reveal_strlit("toBe");
    reveal_strlit("toEqual");
    reveal_strlit("toBeCloseTo");
    reveal_strlit("toContain");
    reveal_strlit("toHaveLength");
    reveal_strlit("toBeNil");
    reveal_strlit("toBeGreaterThan");
    reveal_strlit("toBeLessThan");
    reveal_strlit("toBeGreaterThanOrEqual");
    reveal_strlit("toBeLessThanOrEqual");
    assert("toBeTruthy"@.len() == 10);
    assert("toBeFalsy"@.len() == 9);
    assert("toBeFalsy"@[2] != "toContain"@[2]);
    assert("toBeFalsy"@ != "toContain"@);
    assert(spec_arg_use("toBeTruthy"@) == ArgUse::Unused);
    assert(spec_arg_use("toBeFalsy"@) == ArgUse::Unused);
}

/// What LLVM's `icmp` with a signed predicate answers for the values `a`
/// and `b` (as signed integers).
pub open spec fn icmp_holds(p: IntPredicate, a: int, b: int) -> bool {
    match p {
        IntPredicate::EQ => a == b,
        IntPredicate::NE => a != b,
        IntPredicate::SGT => a > b,
        IntPredicate::SGE => a >= b,
        IntPredicate::SLT => a < b,
        IntPredicate::SLE => a <= b,
    }
}

/// What LLVM's ordered `fcmp` answers for two ordered (not NaN) values,
/// given by their order as `a` and `b`.
pub open spec fn fcmp_holds(p: FloatPredicate, a: int, b: int) -> bool {
    match p {
        FloatPredicate::OEQ => a == b,
        FloatPredicate::ONE => a != b,
        FloatPredicate::OGT => a > b,
        FloatPredicate::OGE => a >= b,
        FloatPredicate::OLT => a < b,
        FloatPredicate::OLE => a <= b,
    }
}

/// Whether the Brix comparison `a op b` is true.
pub open spec fn brix_relation(op: BinaryOp, a: int, b: int) -> bool {
    match op {
        BinaryOp::Gt => a > b,
        BinaryOp::Lt => a < b,
        BinaryOp::GtEq => a >= b,
        BinaryOp::LtEq => a <= b,
        BinaryOp::Eq => a == b,
        BinaryOp::NotEq => a != b,
        _ => false,
    }
}

/// A comparison of two `int`s lowers to an `icmp` that answers exactly the
/// Brix relation, for all values: `a > b` gives 1 iff `a > b`, and so on.
pub proof fn law_int_comparison_means_its_relation(op: BinaryOp, a: int, b: int)
    requires
        is_comparison(op),
    ensures
        spec_int_lowering(op) matches Some(IntLowering::Compare(p)) && (icmp_holds(p, a, b) <==> brix_relation(op, a, b)),
{
}

/// A comparison with a `float` operand lowers to an ordered `fcmp` that
/// answers exactly the Brix relation on ordered values.
pub proof fn law_float_comparison_means_its_relation(op: BinaryOp, a: int, b: int)
    requires
        is_comparison(op),
    ensures
        spec_float_lowering(op) matches Some(FloatLowering::Compare(p)) && (fcmp_holds(p, a, b) <==> brix_relation(op, a, b)),
{
}

/// The mathematical result of the single arithmetic instruction an
/// integer lowering emits (before wrapping), when it is one of `add`,
/// `sub`, `mul`, `sdiv`, `srem`; division and remainder truncate toward
/// zero as LLVM's signed forms do.
pub open spec fn int_instruction_result(l: IntLowering, a: int, b: int) -> Option<int> {
    match l {
        IntLowering::Add => Some(a + b),
        IntLowering::Sub => Some(a - b),
        IntLowering::Mul => Some(a * b),
        IntLowering::CheckedSignedDiv => Some(truncated_quotient(a, b)),
        IntLowering::CheckedSignedRem => Some(a - b * truncated_quotient(a, b)),
        _ => None,
    }
}

/// `a / b` rounded toward zero (`b != 0`).
pub open spec fn truncated_quotient(a: int, b: int) -> int {
    if (a >= 0) == (b > 0) || a % b == 0 {
        a / b
    } else {
        a / b + 1
    }
}

/// The value of Brix integer arithmetic `a op b`: `+`, `-`, `*`, and `/`,
/// `%` truncating toward zero (as C does), `b` not zero.
pub open spec fn brix_int_arith(op: BinaryOp, a: int, b: int) -> Option<int> {
    match op {
        BinaryOp::Add => Some(a + b),
        BinaryOp::Sub => Some(a - b),
        BinaryOp::Mul => Some(a * b),
        BinaryOp::Div => Some(truncated_quotient(a, b)),
        BinaryOp::Mod => Some(a - b * truncated_quotient(a, b)),
        _ => None,
    }
}

/// Integer `+`, `-`, `*`, `/` and `%` lower to the instruction that
/// computes the Brix value, for all operands; division and remainder are
/// the checked (divisor tested against zero) signed forms.
pub proof fn law_int_arith_computes_its_value(op: BinaryOp, a: int, b: int)
    requires
        op is Add || op is Sub || op is Mul || op is Div || op is Mod,
    ensures
        spec_int_lowering(op) matches Some(l) && int_instruction_result(l, a, b) == brix_int_arith(op, a, b),
        (op is Div || op is Mod) ==> (spec_int_lowering(op) matches Some(l) && (l is CheckedSignedDiv || l is CheckedSignedRem)),
{
}

/// A float format specifier that names a `printf` conversion itself: one
/// of the letters `e`, `E`, `f`, `g`, `G`, or a precision `.N` followed by
/// `f`, `e` or `E`.
pub open spec fn names_float_conversion(f: Seq<char>) -> bool {
    ||| f.len() == 1 && (f[0] == 'e' || f[0] == 'E' || f[0] == 'f' || f[0] == 'g' || f[0] == 'G')
    ||| f.len() > 0 && f[0] == '.' && (f.last() == 'f' || f.last() == 'e' || f.last() == 'E')
}

/// A float printed with a specifier that names a conversion is printed
/// with exactly that conversion: the `printf` format is `%` followed by
/// the specifier (`{x:f}` uses `%f`, `{x:.2e}` uses `%.2e`); any other
/// specifier, and none, prints with `%g`.
pub proof fn law_float_format_uses_the_named_conversion(f: Seq<char>)
    ensures
        names_float_conversion(f) ==> spec_float_format(Some(f)) == "%"@ + f,
        !names_float_conversion(f) ==> spec_float_format(Some(f)) == "%g"@,
        spec_float_format(None) == "%g"@,
{
    reveal_strlit("e");
    reveal_strlit("E");
    reveal_strlit("f");
    reveal_strlit("g");
    reveal_strlit("G");
    reveal_strlit("%");
    reveal_strlit("%e");
    reveal_strlit("%E");
    reveal_strlit("%f");
    reveal_strlit("%g");
    reveal_strlit("%G");
    if f.len() == 1 {
        if f[0] == 'e' {
            assert(f =~= "e"@);
        } else if f[0] == 'E' {
            assert(f =~= "E"@);
        } else if f[0] == 'f' {
            assert(f =~= "f"@);
        } else if f[0] == 'g' {
            assert(f =~= "g"@);
        } else if f[0] == 'G' {
            assert(f =~= "G"@);
        }
    }
    if names_float_conversion(f) {
        assert(spec_float_format(Some(f)) =~= "%"@ + f);
    }
}

/// An integer format specifier that names a `printf` conversion itself:
/// `x`, `X` or `o`.
pub open spec fn names_int_conversion(f: Seq<char>) -> bool {
    f.len() == 1 && (f[0] == 'x' || f[0] == 'X' || f[0] == 'o')
}

/// An integer printed with `x`, `X` or `o` uses that conversion (`%x`,
/// `%X`, `%o`); any other specifier, and none, prints the decimal `%lld`.
pub proof fn law_int_format_uses_the_named_conversion(f: Seq<char>)
    ensures
        names_int_conversion(f) ==> spec_int_format(Some(f)) == "%"@ + f,
        !names_int_conversion(f) ==> spec_int_format(Some(f)) == "%lld"@,
        spec_int_format(None) == "%lld"@,
{
    reveal_strlit("x");
    reveal_strlit("X");
    reveal_strlit("o");
    reveal_strlit("%");
    reveal_strlit("%x");
    reveal_strlit("%X");
    reveal_strlit("%o");
    if f.len() == 1 {
        if f[0] == 'x' {
            assert(f =~= "x"@);
        } else if f[0] == 'X' {
            assert(f =~= "X"@);
        } else if f[0] == 'o' {
            assert(f =~= "o"@);
        }
    }
    if names_int_conversion(f) {
        assert(spec_int_format(Some(f)) =~= "%"@ + f);
    }
}

/// The type names that have the same length differ in their first letter.
proof fn lemma_type_words_differ()
    ensures
        "int"@ != "nil"@,
        "float"@ != "error"@,
        "float"@ != "tuple"@,
        "error"@ != "tuple"@,
        "string"@ != "matrix"@,
        "intmatrix"@ != "float_ptr"@,
        "atom"@ != "void"@,
        "int"@.len() == 3,
        "nil"@.len() == 3,
        "float"@.len() == 5,
        "error"@.len() == 5,
        "tuple"@.len() == 5,
        "string"@.len() == 6,
        "matrix"@.len() == 6,
        "intmatrix"@.len() == 9,
        "float_ptr"@.len() == 9,
        "atom"@.len() == 4,
        "void"@.len() == 4,
        "complex"@.len() == 7,
        "complexarray"@.len() == 12,
        "complexmatrix"@.len() == 13,
{
    reveal_strlit("int");
    reveal_strlit("float");
    reveal_strlit("string");
    reveal_strlit("matrix");
    reveal_strlit("intmatrix");
    reveal_strlit("complex");
    reveal_strlit("complexarray");
    reveal_strlit("complexmatrix");
    reveal_strlit("float_ptr");
    reveal_strlit("void");
    reveal_strlit("tuple");
    reveal_strlit("nil");
    reveal_strlit("error");
    reveal_strlit("atom");
    assert("int"@[0] != "nil"@[0]);
    assert("float"@[0] != "error"@[0]);
    assert("float"@[0] != "tuple"@[0]);
    assert("error"@[0] != "tuple"@[0]);
    assert("string"@[0] != "matrix"@[0]);
    assert("intmatrix"@[0] != "float_ptr"@[0]);
    assert("atom"@[0] != "void"@[0]);
}

/// The types a keyword names: `int`, `float`, `string`, `matrix`,
/// `intmatrix`, `complex`, `nil`, `error`, `atom`, `void`.
pub open spec fn is_keyword_type(t: TypeModel) -> bool {
    t is Int || t is Float || t is String || t is Matrix || t is IntMatrix || t is Complex || t is Nil || t is Error
        || t is Atom || t is Void
}

/// Each type keyword names its own type: the name `typeof` reports for a
/// keyword type, written as a type, is that type again (`matrix` is
/// `matrix`, not `intmatrix`), whatever structs are defined.
pub proof fn law_type_keyword_names_its_type(t: TypeModel, st: Set<Seq<char>>)
    requires
        is_keyword_type(t),
    ensures
        base_type(spec_typeof_text(t), st) == t,
{
    lemma_type_words_differ();
}

/// Different keyword types are written differently, and each is read
/// back as itself: writing a keyword type as its `typeof` name and reading
/// it back is the identity, so no two keywords name one type.
pub proof fn law_type_keywords_distinct(t: TypeModel, u: TypeModel, st: Set<Seq<char>>)
    requires
        is_keyword_type(t),
        is_keyword_type(u),
        t != u,
    ensures
        spec_typeof_text(t) != spec_typeof_text(u),
        base_type(spec_typeof_text(t), st) != base_type(spec_typeof_text(u), st),
{
    law_type_keyword_names_its_type(t, st);
    law_type_keyword_names_its_type(u, st);
}

/// The word inferred for a type argument from an argument's type names
/// that type: it is the type's `typeof` name, and reading it as a type
/// gives the argument's type back (an `intmatrix` argument gives
/// `intmatrix`). A parameter typed by a type parameter and bound by one
/// argument is bound to that word.
pub proof fn law_inferred_word_names_the_argument_type(
    t: TypeModel,
    st: Set<Seq<char>>,
    tps: Seq<Seq<char>>,
    tp: Seq<char>,
)
    requires
        t is Int || t is Float || t is String || t is Matrix || t is IntMatrix,
        tps.contains(tp),
    ensures
        arg_word(t) == spec_typeof_text(t),
        base_type(arg_word(t), st) == t,
        base_type(infer_step(Map::empty(), tps, tp, arg_word(t))[tp], st) == t,
{
    law_type_keyword_names_its_type(t, st);
}

/// The types the type tests are asked about by name: neither a struct nor
/// a union, intersection or optional (whose `typeof` names are built from
/// other names).
pub open spec fn plainly_named(t: TypeModel) -> bool {
    !(t is Struct || t is Union || t is Intersection || t is Optional)
}

/// The `is_*` type tests answer by the type's name: `is_integer(x)` is 1
/// exactly when `typeof(x)` is `int`, `is_float` for `float`, `is_number`
/// for either, `is_string` for `string`, `is_atom` for `atom`, `is_tuple`
/// for `tuple`, and `is_list` for the arrays, `matrix` and `intmatrix`.
pub proof fn law_type_tests_answer_by_type_name(t: TypeModel)
    requires
        plainly_named(t),
    ensures
        spec_test_answer(Builtin::IsInteger, t) == Some(spec_typeof_text(t) == "int"@),
        spec_test_answer(Builtin::IsFloat, t) == Some(spec_typeof_text(t) == "float"@),
        spec_test_answer(Builtin::IsNumber, t) == Some(spec_typeof_text(t) == "int"@ || spec_typeof_text(t) == "float"@),
        spec_test_answer(Builtin::IsString, t) == Some(spec_typeof_text(t) == "string"@),
        spec_test_answer(Builtin::IsAtom, t) == Some(spec_typeof_text(t) == "atom"@),
        spec_test_answer(Builtin::IsTuple, t) == Some(spec_typeof_text(t) == "tuple"@),
        spec_test_answer(Builtin::IsList, t) == Some(spec_typeof_text(t) == "matrix"@ || spec_typeof_text(t) == "intmatrix"@),
{
    lemma_type_words_differ();
}

/// The names of Brix's built-in types.
pub open spec fn is_builtin_name(r: Seq<char>) -> bool {
    r == "int"@ || r == "float"@ || r == "string"@ || r == "matrix"@ || r == "intmatrix"@ || r == "complex"@
        || r == "nil"@ || r == "error"@ || r == "atom"@ || r == "void"@
}

/// Once a struct is defined, its plain name denotes that struct type
/// (unless an alias or a built-in type has the name).
pub proof fn law_struct_name_denotes_struct(al: Map<Seq<char>, Seq<char>>, st: Set<Seq<char>>, name: Seq<char>)
    requires
        st.contains(name),
        !al.dom().contains(name),
        !is_builtin_name(name),
        !contains(name, " | "@),
        !contains(name, " & "@),
        !(name.len() > 0 && name.last() == '?'),
    ensures
        resolves(al, st, name),
        parse_type(al, st, name) == TypeModel::Struct(name),
{
    assert(resolve_alias(al, name) == name);
    assert(parse_fuel(al, st, name, 1) == Some(TypeModel::Struct(name)));
    lemma_parse_type(al, st, name, 1);
}

/// A registry gives back what was last written under a name and keeps
/// every other entry.
pub proof fn law_registry_read_after_write<V>(before: StrMap<V>, after: StrMap<V>, k: Seq<char>, v: V)
    requires
        after.map() == before.map().insert(k, v),
    ensures
        after.map().dom().contains(k),
        after.map()[k] == v,
        forall|other: Seq<char>| other != k ==> (after.map().dom().contains(other) <==> before.map().dom().contains(other)),
        forall|other: Seq<char>| other != k && before.map().dom().contains(other) ==> after.map()[other] == before.map()[other],
{
}

/// An instance recorded in the cache is found by every later lookup with
/// the same name and type arguments, and recording keeps earlier instances.
pub proof fn law_instance_found_after_record(
    before: InstanceCache,
    after: InstanceCache,
    name: Seq<char>,
    args: Seq<Seq<char>>,
)
    requires
        after.keys() == before.keys().insert((name, args)),
    ensures
        after.keys().contains((name, args)),
        before.keys().subset_of(after.keys()),
{
}


/// The instructions an integer operator asks for tell its lowering apart
/// from every other one: two lowerings whose records of the same operands
/// agree are the same lowering (`**`, which records no instruction of its
/// own, aside).
pub proof fn law_int_record_names_the_operation<'ctx>(
    a: IntLowering,
    b: IntLowering,
    lhs: IntValue<'ctx>,
    rhs: IntValue<'ctx>,
    s: Seq<Emitted<'ctx>>,
)
    requires
        int_op_emits(a, lhs, rhs, s),
        int_op_emits(b, lhs, rhs, s),
        !(a is PowViaFloat),
        !(b is PowViaFloat),
    ensures
        a == b,
{
}

/// The same for floating-point operators.
pub proof fn law_float_record_names_the_operation<'ctx>(
    a: FloatLowering,
    b: FloatLowering,
    lhs: FloatValue<'ctx>,
    rhs: FloatValue<'ctx>,
    s: Seq<Emitted<'ctx>>,
)
    requires
        float_op_emits(a, lhs, rhs, s),
        float_op_emits(b, lhs, rhs, s),
        !(a is Pow),
        !(b is Pow),
    ensures
        a == b,
{
    assert(s.len() == 1);
    let e = s[0];
    match a {
        FloatLowering::Compare(p) => assert(e == Emitted::FloatCompare(p, lhs, rhs)),
        _ => {},
    }
    match b {
        FloatLowering::Compare(q) => assert(e == Emitted::FloatCompare(q, lhs, rhs)),
        _ => {},
    }
}

} // verus!
