//! The `test` library: which runtime function each matcher of
//! `test.expect(actual)` calls, the registration calls of `test.describe`,
//! `test.it` and the hooks, and the line numbers reported by failures.

use vstd::prelude::*;
use crate::types::{BrixType, TypeModel};
use vstd::string::StringSliceAdditionalSpecFns;

verus! {

/// Whether a matcher uses an argument.
#[derive(PartialEq, Eq, Structural, Clone, Copy, Debug)]
pub enum ArgUse {
    /// The argument must be present.
    Required,
    /// Without an argument the matcher does nothing.
    SkipIfMissing,
    /// The matcher takes no argument.
    Unused,
}

/// The machine kind of a value passed to a matcher function.
#[derive(PartialEq, Eq, Structural, Clone, Copy, Debug)]
pub enum ValueKind {
    I64,
    F64,
    Ptr,
}

/// How a value is converted before it is passed.
#[derive(PartialEq, Eq, Structural, Clone, Copy, Debug)]
pub enum Conv {
    AsIs,
    FloatToInt,
    IntToFloat,
    /// The value if it is an integer, 0 otherwise.
    IntOrZero,
    /// 1 for a null pointer and 0 for another pointer; an integer as it is;
    /// 0 otherwise.
    NilFlag,
}

/// A call of a matcher function: its name, the kind and conversion of the
/// actual value, and those of the expected value if one is passed. The
/// source file and line always follow.
pub struct MatcherCall {
    pub func: String,
    pub actual_kind: ValueKind,
    pub actual_conv: Conv,
    pub expected: Option<(ValueKind, Conv)>,
}

/// What a matcher compiles to.
pub enum MatcherPlan {
    /// Nothing is emitted.
    Skip,
    /// The matcher needs an argument and has none.
    MissingArgument,
    Call(MatcherCall),
}

/// Model of a matcher plan.
pub enum MatcherOutcome {
    Skip,
    MissingArgument,
    Call(Seq<char>, ValueKind, Conv, Option<(ValueKind, Conv)>),
}

impl MatcherPlan {
    pub open spec fn outcome(&self) -> MatcherOutcome {
        match self {
            MatcherPlan::Skip => MatcherOutcome::Skip,
            MatcherPlan::MissingArgument => MatcherOutcome::MissingArgument,
            MatcherPlan::Call(c) => MatcherOutcome::Call(c.func@, c.actual_kind, c.actual_conv, c.expected),
        }
    }
}

pub open spec fn is_comparison_matcher(m: Seq<char>) -> bool {
    m == "toBeGreaterThan"@ || m == "toBeLessThan"@ || m == "toBeGreaterThanOrEqual"@ || m
        == "toBeLessThanOrEqual"@
}

pub open spec fn spec_arg_use(m: Seq<char>) -> ArgUse {
    if m == "toBe"@ {
        ArgUse::Required
    } else if m == "toEqual"@ || m == "toBeCloseTo"@ || is_comparison_matcher(m) || m == "toContain"@ || m
        == "toHaveLength"@ {
        ArgUse::SkipIfMissing
    } else {
        ArgUse::Unused
    }
}

pub open spec fn not_prefix(negated: bool) -> Seq<char> {
    if negated {
        "not_"@
    } else {
        Seq::empty()
    }
}

pub open spec fn int_to_float_if(cond: bool) -> Conv {
    if cond {
        Conv::IntToFloat
    } else {
        Conv::AsIs
    }
}

/// The call a matcher compiles to, given that its argument (when it uses
/// one) is present with type `e`.
pub open spec fn spec_matcher_call(m: Seq<char>, negated: bool, a: TypeModel, e: TypeModel) -> MatcherOutcome {
    if m == "toBe"@ {
        if a is Int || a is Atom {
            MatcherOutcome::Call(
                "test_expect_"@ + not_prefix(negated) + "toBe_int"@,
                ValueKind::I64,
                Conv::AsIs,
                Some((ValueKind::I64, if e is Float { Conv::FloatToInt } else { Conv::AsIs })),
            )
        } else if a is Float {
            MatcherOutcome::Call(
                "test_expect_"@ + not_prefix(negated) + "toBe_float"@,
                ValueKind::F64,
                Conv::AsIs,
                Some((ValueKind::F64, int_to_float_if(e is Int))),
            )
        } else if a is String {
            MatcherOutcome::Call(
                "test_expect_"@ + not_prefix(negated) + "toBe_string"@,
                ValueKind::Ptr,
                Conv::AsIs,
                Some((ValueKind::Ptr, Conv::AsIs)),
            )
        } else {
            MatcherOutcome::Call(
                "test_expect_"@ + not_prefix(negated) + "toBe_int"@,
                ValueKind::I64,
                Conv::IntOrZero,
                Some((ValueKind::I64, Conv::IntOrZero)),
            )
        }
    } else if m == "toEqual"@ {
        MatcherOutcome::Call(
            "test_expect_"@ + not_prefix(negated) + if a is IntMatrix {
                "toEqual_int_array"@
            } else {
                "toEqual_float_array"@
            },
            ValueKind::Ptr,
            Conv::AsIs,
            Some((ValueKind::Ptr, Conv::AsIs)),
        )
    } else if m == "toBeCloseTo"@ {
        MatcherOutcome::Call(
            "test_expect_"@ + not_prefix(negated) + "toBeCloseTo"@,
            ValueKind::F64,
            int_to_float_if(a is Int),
            Some((ValueKind::F64, int_to_float_if(e is Int))),
        )
    } else if m == "toBeTruthy"@ || m == "toBeFalsy"@ {
        let truthy = (m == "toBeTruthy"@) != negated;
        MatcherOutcome::Call(
            if truthy {
                "test_expect_toBeTruthy"@
            } else {
                "test_expect_toBeFalsy"@
            },
            ValueKind::I64,
            Conv::IntOrZero,
            None,
        )
    } else if is_comparison_matcher(m) {
        let use_float = a is Float || e is Float;
        let kind = if use_float { ValueKind::F64 } else { ValueKind::I64 };
        MatcherOutcome::Call(
            "test_expect_"@ + not_prefix(negated) + m + if use_float { "_float"@ } else { "_int"@ },
            kind,
            int_to_float_if(use_float && a is Int),
            Some((kind, int_to_float_if(use_float && e is Int))),
        )
    } else if m == "toContain"@ {
        if a is String {
            MatcherOutcome::Call(
                "test_expect_"@ + not_prefix(negated) + "toContain_string"@,
                ValueKind::Ptr,
                Conv::AsIs,
                Some((ValueKind::Ptr, Conv::AsIs)),
            )
        } else if a is IntMatrix {
            MatcherOutcome::Call(
                "test_expect_"@ + not_prefix(negated) + "toContain_int_array"@,
                ValueKind::Ptr,
                Conv::AsIs,
                Some((ValueKind::I64, Conv::AsIs)),
            )
        } else if a is Matrix {
            MatcherOutcome::Call(
                "test_expect_"@ + not_prefix(negated) + "toContain_float_array"@,
                ValueKind::Ptr,
                Conv::AsIs,
                Some((ValueKind::F64, int_to_float_if(e is Int))),
            )
        } else {
            MatcherOutcome::Skip
        }
    } else if m == "toHaveLength"@ {
        MatcherOutcome::Call(
            "test_expect_"@ + not_prefix(negated) + if a is IntMatrix {
                "toHaveLength_int_array"@
            } else if a is Matrix {
                "toHaveLength_float_array"@
            } else {
                "toHaveLength_string"@
            },
            ValueKind::Ptr,
            Conv::AsIs,
            Some((ValueKind::I64, Conv::IntOrZero)),
        )
    } else if m == "toBeNil"@ {
        MatcherOutcome::Call(
            if negated {
                "test_expect_not_toBeNil"@
            } else {
                "test_expect_toBeNil"@
            },
            ValueKind::I64,
            Conv::NilFlag,
            None,
        )
    } else {
        MatcherOutcome::Skip
    }
}

/// The plan of a matcher: missing required arguments are reported, missing
/// optional ones skip the matcher. `e` is the type of the first argument
/// when the matcher uses one and it is present.
pub open spec fn spec_plan_matcher(m: Seq<char>, negated: bool, a: TypeModel, e: Option<TypeModel>) -> MatcherOutcome {
    match spec_arg_use(m) {
        ArgUse::Required => match e {
            Some(t) => spec_matcher_call(m, negated, a, t),
            None => MatcherOutcome::MissingArgument,
        },
        ArgUse::SkipIfMissing => match e {
            Some(t) => spec_matcher_call(m, negated, a, t),
            None => MatcherOutcome::Skip,
        },
        ArgUse::Unused => spec_matcher_call(m, negated, a, TypeModel::Void),
    }
}

fn is(s: &str, lit: &str) -> (r: bool)
    ensures
        r == (s@ == lit@),
{
    crate::strmap::str_equal(s, lit)
}

/// Whether a matcher uses its first argument.
pub fn matcher_arg_use(matcher: &str) -> (r: ArgUse)
    ensures
        r == spec_arg_use(matcher@),
{
    if is(matcher, "toBe") {
        ArgUse::Required
    } else if is(matcher, "toEqual") || is(matcher, "toBeCloseTo") || is(matcher, "toBeGreaterThan") || is(
        matcher,
        "toBeLessThan",
    ) || is(matcher, "toBeGreaterThanOrEqual") || is(matcher, "toBeLessThanOrEqual") || is(
        matcher,
        "toContain",
    ) || is(matcher, "toHaveLength") {
        ArgUse::SkipIfMissing
    } else {
        ArgUse::Unused
    }
}

fn prefixed(negated: bool, rest: &str) -> (r: String)
    ensures
        r@ == "test_expect_"@ + not_prefix(negated) + rest@,
{
    let mut s = String::from_str("test_expect_");
    if negated {
        s.append("not_");
    } else {
        assert(s@ + not_prefix(negated) =~= s@);
    }
    s.append(rest);
    s
}

fn conv_if(cond: bool) -> (r: Conv)
    ensures
        r == int_to_float_if(cond),
{
    if cond {
        Conv::IntToFloat
    } else {
        Conv::AsIs
    }
}

fn call(func: String, actual_kind: ValueKind, actual_conv: Conv, expected: Option<(ValueKind, Conv)>) -> (r: MatcherPlan)
    ensures
        r.outcome() == MatcherOutcome::Call(func@, actual_kind, actual_conv, expected),
{
    MatcherPlan::Call(MatcherCall { func, actual_kind, actual_conv, expected })
}

fn matcher_call(matcher: &str, negated: bool, a: &BrixType, e: &BrixType) -> (r: MatcherPlan)
    ensures
        r.outcome() == spec_matcher_call(matcher@, negated, a@, e@),
{
    let e_int = matches!(e, BrixType::Int);
    let e_float = matches!(e, BrixType::Float);
    if is(matcher, "toBe") {
        match a {
            BrixType::Int | BrixType::Atom => call(
                prefixed(negated, "toBe_int"),
                ValueKind::I64,
                Conv::AsIs,
                Some((ValueKind::I64, if e_float { Conv::FloatToInt } else { Conv::AsIs })),
            ),
            BrixType::Float => call(prefixed(negated, "toBe_float"), ValueKind::F64, Conv::AsIs, Some((ValueKind::F64, conv_if(e_int)))),
            BrixType::String => call(prefixed(negated, "toBe_string"), ValueKind::Ptr, Conv::AsIs, Some((ValueKind::Ptr, Conv::AsIs))),
            _ => call(prefixed(negated, "toBe_int"), ValueKind::I64, Conv::IntOrZero, Some((ValueKind::I64, Conv::IntOrZero))),
        }
    } else if is(matcher, "toEqual") {
        let f = if matches!(a, BrixType::IntMatrix) {
            "toEqual_int_array"
        } else {
            "toEqual_float_array"
        };
        call(prefixed(negated, f), ValueKind::Ptr, Conv::AsIs, Some((ValueKind::Ptr, Conv::AsIs)))
    } else if is(matcher, "toBeCloseTo") {
        call(
            prefixed(negated, "toBeCloseTo"),
            ValueKind::F64,
            conv_if(matches!(a, BrixType::Int)),
            Some((ValueKind::F64, conv_if(e_int))),
        )
    } else if is(matcher, "toBeTruthy") || is(matcher, "toBeFalsy") {
        let truthy = is(matcher, "toBeTruthy") != negated;
        let f = if truthy {
            "test_expect_toBeTruthy"
        } else {
            "test_expect_toBeFalsy"
        };
        call(String::from_str(f), ValueKind::I64, Conv::IntOrZero, None)
    } else if is(matcher, "toBeGreaterThan") || is(matcher, "toBeLessThan") || is(matcher, "toBeGreaterThanOrEqual")
        || is(matcher, "toBeLessThanOrEqual") {
        let use_float = matches!(a, BrixType::Float) || e_float;
        let kind = if use_float { ValueKind::F64 } else { ValueKind::I64 };
        let mut f = prefixed(negated, matcher);
        f.append(if use_float { "_float" } else { "_int" });
        call(f, kind, conv_if(use_float && matches!(a, BrixType::Int)), Some((kind, conv_if(use_float && e_int))))
    } else if is(matcher, "toContain") {
        match a {
            BrixType::String => call(
                prefixed(negated, "toContain_string"),
                ValueKind::Ptr,
                Conv::AsIs,
                Some((ValueKind::Ptr, Conv::AsIs)),
            ),
            BrixType::IntMatrix => call(
                prefixed(negated, "toContain_int_array"),
                ValueKind::Ptr,
                Conv::AsIs,
                Some((ValueKind::I64, Conv::AsIs)),
            ),
            BrixType::Matrix => call(
                prefixed(negated, "toContain_float_array"),
                ValueKind::Ptr,
                Conv::AsIs,
                Some((ValueKind::F64, conv_if(e_int))),
            ),
            _ => MatcherPlan::Skip,
        }
    } else if is(matcher, "toHaveLength") {
        let f = match a {
            BrixType::IntMatrix => "toHaveLength_int_array",
            BrixType::Matrix => "toHaveLength_float_array",
            _ => "toHaveLength_string",
        };
        call(prefixed(negated, f), ValueKind::Ptr, Conv::AsIs, Some((ValueKind::I64, Conv::IntOrZero)))
    } else if is(matcher, "toBeNil") {
        let f = if negated {
            "test_expect_not_toBeNil"
        } else {
            "test_expect_toBeNil"
        };
        call(String::from_str(f), ValueKind::I64, Conv::NilFlag, None)
    } else {
        MatcherPlan::Skip
    }
}

/// What `test.expect(actual).matcher(arg)` (or `.not.matcher(arg)` when
/// `negated`) compiles to; `expected` is the type of the first argument,
/// present when the matcher uses one and the call has one.
pub fn plan_test_matcher(matcher: &str, negated: bool, actual: &BrixType, expected: Option<&BrixType>) -> (r: MatcherPlan)
    ensures
        r.outcome() == spec_plan_matcher(matcher@, negated, actual@, match expected {
            Some(t) => Some(t@),
            None => None,
        }),
{
    match matcher_arg_use(matcher) {
        ArgUse::Required => match expected {
            Some(t) => matcher_call(matcher, negated, actual, t),
            None => MatcherPlan::MissingArgument,
        },
        ArgUse::SkipIfMissing => match expected {
            Some(t) => matcher_call(matcher, negated, actual, t),
            None => MatcherPlan::Skip,
        },
        ArgUse::Unused => matcher_call(matcher, negated, actual, &BrixType::Void),
    }
}

/// What a call `test.method(args)` of the test library registers.
#[derive(PartialEq, Eq, Structural, Clone, Copy, Debug)]
pub enum ModuleCall {
    /// `test_describe_start(title, closure)`.
    Describe,
    /// `test_it_register(title, closure)`.
    It,
    /// A hook registration function taking the closure.
    Hook(Hook),
    /// An unknown method: nothing is emitted.
    Ignored,
}

#[derive(PartialEq, Eq, Structural, Clone, Copy, Debug)]
pub enum Hook {
    BeforeAll,
    AfterAll,
    BeforeEach,
    AfterEach,
}

pub open spec fn spec_hook_fn(h: Hook) -> Seq<char> {
    match h {
        Hook::BeforeAll => "test_before_all_register"@,
        Hook::AfterAll => "test_after_all_register"@,
        Hook::BeforeEach => "test_before_each_register"@,
        Hook::AfterEach => "test_after_each_register"@,
    }
}

/// The runtime function registering a hook.
pub fn hook_fn(h: Hook) -> (r: &'static str)
    ensures
        r@ == spec_hook_fn(h),
{
    match h {
        Hook::BeforeAll => "test_before_all_register",
        Hook::AfterAll => "test_after_all_register",
        Hook::BeforeEach => "test_before_each_register",
        Hook::AfterEach => "test_after_each_register",
    }
}

pub open spec fn spec_module_call(method: Seq<char>) -> ModuleCall {
    if method == "describe"@ {
        ModuleCall::Describe
    } else if method == "it"@ {
        ModuleCall::It
    } else if method == "beforeAll"@ {
        ModuleCall::Hook(Hook::BeforeAll)
    } else if method == "afterAll"@ {
        ModuleCall::Hook(Hook::AfterAll)
    } else if method == "beforeEach"@ {
        ModuleCall::Hook(Hook::BeforeEach)
    } else if method == "afterEach"@ {
        ModuleCall::Hook(Hook::AfterEach)
    } else {
        ModuleCall::Ignored
    }
}

/// Number of arguments a module call needs.
pub open spec fn spec_module_call_arity(c: ModuleCall) -> nat {
    match c {
        ModuleCall::Describe | ModuleCall::It => 2,
        ModuleCall::Hook(_) => 1,
        ModuleCall::Ignored => 0,
    }
}

/// What `test.method(...)` with `nargs` arguments registers; `Err` with the
/// call when it has fewer arguments than it needs.
pub fn plan_module_call(method: &str, nargs: usize) -> (r: Result<ModuleCall, ModuleCall>)
    ensures
        nargs >= spec_module_call_arity(spec_module_call(method@)) ==> r == Ok::<ModuleCall, ModuleCall>(
            spec_module_call(method@),
        ),
        nargs < spec_module_call_arity(spec_module_call(method@)) ==> r == Err::<ModuleCall, ModuleCall>(
            spec_module_call(method@),
        ),
{
    let c = if is(method, "describe") {
        ModuleCall::Describe
    } else if is(method, "it") {
        ModuleCall::It
    } else if is(method, "beforeAll") {
        ModuleCall::Hook(Hook::BeforeAll)
    } else if is(method, "afterAll") {
        ModuleCall::Hook(Hook::AfterAll)
    } else if is(method, "beforeEach") {
        ModuleCall::Hook(Hook::BeforeEach)
    } else if is(method, "afterEach") {
        ModuleCall::Hook(Hook::AfterEach)
    } else {
        ModuleCall::Ignored
    };
    let need: usize = match c {
        ModuleCall::Describe | ModuleCall::It => 2,
        ModuleCall::Hook(_) => 1,
        ModuleCall::Ignored => 0,
    };
    if nargs < need {
        Err(c)
    } else {
        Ok(c)
    }
}

/// Number of newline bytes in `b[0..n]`.
pub open spec fn count_newlines(b: Seq<u8>, n: int) -> nat
    decreases n,
{
    if n <= 0 {
        0
    } else {
        count_newlines(b, n - 1) + if b[n - 1] == 10u8 {
            1nat
        } else {
            0nat
        }
    }
}

pub open spec fn min_int(a: int, b: int) -> int {
    if a <= b {
        a
    } else {
        b
    }
}

/// The 1-based line of byte offset `start` of `source`: one more than the
/// number of newlines before it (offsets past the end count the whole
/// text). The offset, cut to the text's length, falls between characters.
pub fn span_to_line(source: &str, start: usize) -> (r: u32)
    requires
        vstd::utf8::is_char_boundary(source.spec_bytes(), min_int(start as int, source.spec_bytes().len() as int)),
        count_newlines(source.spec_bytes(), min_int(start as int, source.spec_bytes().len() as int)) < u32::MAX,
    ensures
        r == count_newlines(source.spec_bytes(), min_int(start as int, source.spec_bytes().len() as int)) + 1,
{
    let bytes = source.as_bytes();
    let end = if start <= bytes.len() {
        start
    } else {
        bytes.len()
    };
    let mut count: u32 = 0;
    let mut i: usize = 0;
    while i < end
        invariant
            end <= bytes@.len(),
            bytes@ == source.spec_bytes(),
            end == min_int(start as int, bytes@.len() as int),
            i <= end,
            count == count_newlines(bytes@, i as int),
            count_newlines(bytes@, end as int) < u32::MAX,
        decreases end - i,
    {
        proof {
            lemma_count_monotone(bytes@, i + 1, end as int);
        }
        if bytes[i] == 10u8 {
            count = count + 1;
        }
        i = i + 1;
    }
    count + 1
}

pub proof fn lemma_count_monotone(b: Seq<u8>, i: int, j: int)
    requires
        i <= j,
    ensures
        count_newlines(b, i) <= count_newlines(b, j),
    decreases j - i,
{
    if i < j {
        lemma_count_monotone(b, i, j - 1);
    }
}

} // verus!
