//! The test a `match` arm's pattern makes of the matched value.

use vstd::prelude::*;
use inkwell::values::{BasicValueEnum, FloatValue, IntValue};
use inkwell::types::BasicTypeEnum;
use inkwell::basic_block::BasicBlock;
use crate::types::{BrixType, TypeModel, spec_types_compatible, are_types_compatible};
use crate::compiler::{Compiler, CodegenError, Found, StatementCompiler};
use crate::stringify::numbered;
use crate::ops::{IntPredicate, FloatPredicate};
use crate::llvm::{self, LinkageKind, Record, Emitted, IntInstr};

verus! {

/// A literal in a pattern. A float literal arrives as its constant.
pub enum PatternLiteral<'ctx> {
    Int(i64),
    Float(FloatValue<'ctx>),
    Bool(bool),
    String(String),
    Atom(String),
}

/// A `match` arm's pattern.
pub enum Pattern<'ctx> {
    /// Matches a value equal to the literal.
    Literal(PatternLiteral<'ctx>),
    /// `_`: matches anything.
    Wildcard,
    /// A name: matches anything (the arm binds the value to the name).
    Binding(String),
    /// `p | q | ...`: matches what one of the alternatives matches.
    Or(Vec<Pattern<'ctx>>),
}

/// A literal can be compared with a value of type `t`: integers and
/// booleans with `int`, floats with `float`, strings with `string`, atoms
/// with `atom`.
pub open spec fn literal_fits(l: PatternLiteral, t: TypeModel) -> bool {
    match l {
        PatternLiteral::Int(_) => t is Int,
        PatternLiteral::Float(_) => t is Float,
        PatternLiteral::Bool(_) => t is Int,
        PatternLiteral::String(_) => t is String,
        PatternLiteral::Atom(_) => t is Atom,
    }
}

/// Every literal in the pattern can be compared with a value of type `t`.
pub open spec fn pattern_fits(p: Pattern, t: TypeModel) -> bool
    decreases p,
{
    match p {
        Pattern::Literal(l) => literal_fits(l, t),
        Pattern::Wildcard => true,
        Pattern::Binding(_) => true,
        Pattern::Or(ps) => forall|i: int| 0 <= i < ps@.len() ==> pattern_fits(#[trigger] ps@[i], t),
    }
}

/// The comparison a literal pattern asks for against `value` of type `t`:
/// an integer or boolean literal one integer equality with `value`, a float
/// literal one ordered float equality with the literal.
pub open spec fn literal_compared<'ctx>(l: PatternLiteral<'ctx>, t: TypeModel, value: BasicValueEnum<'ctx>, recs: Seq<Record<'ctx>>) -> bool {
    match l {
        PatternLiteral::Int(_) => t is Int ==> (recs.len() == 1 && (recs[0].emitted() matches Emitted::IntCompare(
            IntPredicate::EQ,
            v,
            _,
        ) && llvm::int_value_as_basic(v) == value)),
        PatternLiteral::Bool(_) => t is Int ==> (recs.len() == 1 && (recs[0].emitted() matches Emitted::IntCompare(
            IntPredicate::EQ,
            v,
            _,
        ) && llvm::int_value_as_basic(v) == value)),
        PatternLiteral::Float(f) => t is Float ==> (recs.len() == 1 && (recs[0].emitted() matches Emitted::FloatCompare(
            FloatPredicate::OEQ,
            _,
            g,
        ) && g == f)),
        _ => true,
    }
}

/// The name of a literal's kind, which a type error reports as found.
pub open spec fn literal_kind(l: PatternLiteral) -> Seq<char> {
    match l {
        PatternLiteral::Int(_) => "Int"@,
        PatternLiteral::Float(_) => "Float"@,
        PatternLiteral::Bool(_) => "Bool"@,
        PatternLiteral::String(_) => "String"@,
        PatternLiteral::Atom(_) => "Atom"@,
    }
}

fn kind_text(l: &PatternLiteral) -> (r: String)
    ensures
        r@ == literal_kind(*l),
{
    match l {
        PatternLiteral::Int(_) => String::from_str("Int"),
        PatternLiteral::Float(_) => String::from_str("Float"),
        PatternLiteral::Bool(_) => String::from_str("Bool"),
        PatternLiteral::String(_) => String::from_str("String"),
        PatternLiteral::Atom(_) => String::from_str("Atom"),
    }
}

fn pattern_failed(operation: &str, details: &str) -> (e: CodegenError)
    ensures
        e is LLVMError,
{
    CodegenError::LLVMError { operation: String::from_str(operation), details: String::from_str(details) }
}

fn missing(what: &str, context: &str) -> (e: CodegenError)
    ensures
        e is MissingValue,
{
    CodegenError::MissingValue { what: String::from_str(what), context: String::from_str(context) }
}

impl<'a, 'ctx, E, D> Compiler<'a, 'ctx, E, D> {
    /// An integer value compared for equality with `literal`.
    fn int_equals(&self, value: BasicValueEnum<'ctx>, literal: IntValue<'ctx>, name: &str, details: &str) -> (r: (Result<IntValue<'ctx>, CodegenError>, Vec<Record<'ctx>>))
        ensures
            r.0 matches Err(e) ==> e is LLVMError,
            r.0 is Ok ==> (r.1@.len() == 1 && (r.1@[0].emitted() matches Emitted::IntCompare(IntPredicate::EQ, v, l)
                && llvm::int_value_as_basic(v) == value && l == literal)),
    {
        let v = match llvm::basic_as_int(value) {
            Some(v) => v,
            None => return (Err(pattern_failed("into_int_value", "the matched value is an integer")), Vec::new()),
        };
        let (c, asked) = llvm::build_int_compare(self.builder, IntPredicate::EQ, v, literal, name);
        match c {
            Some(c) => (Ok(c), vec![asked]),
            None => (Err(pattern_failed("build_int_compare", details)), Vec::new()),
        }
    }

    /// The `i1` that tells whether `value`, of type `value_type`, matches
    /// `pattern`: integers, booleans (stored as integers) and atoms are
    /// compared as integers (an atom's literal first interned with
    /// `atom_intern`), floats with an ordered comparison, strings with the
    /// runtime's `str_eq` against a runtime string of the literal; `_` and
    /// a name match anything; an or-pattern is the disjunction of its
    /// alternatives, tested in order. A literal that cannot be compared
    /// with the value's type is a type error. The records list the integer
    /// and float comparisons and the disjunctions asked for, in order.
    pub fn compile_pattern_match(&self, pattern: &Pattern<'ctx>, value: BasicValueEnum<'ctx>, value_type: &BrixType) -> (r: (Result<IntValue<'ctx>, CodegenError>, Vec<Record<'ctx>>))
        ensures
            *pattern is Wildcard ==> (r.0 is Ok && r.1@.len() == 0),
            *pattern is Binding ==> (r.0 is Ok && r.1@.len() == 0),
            *pattern matches Pattern::Or(alternatives) && alternatives@.len() == 0 ==> (r.0 is Ok && r.1@.len() == 0),
            *pattern matches Pattern::Or(alternatives) && alternatives@.len() > 0 ==> (r.0 is Ok ==> (r.1@.len() > 0
                && r.1@.last().emitted() matches Emitted::Int(IntInstr::Or, _, _))),
            *pattern matches Pattern::Literal(l) ==> (r.0 is Ok ==> literal_compared(l, value_type@, value, r.1@)),
            !pattern_fits(*pattern, value_type@) ==> r.0 is Err,
            *pattern matches Pattern::Literal(l) ==> (!literal_fits(l, value_type@) ==> (r.0 matches Err(
                CodegenError::TypeError { expected: Found::Type(t), found: Found::Text(k), context },
            ) && t@ == value_type@ && k@ == literal_kind(l) && context@ == "Pattern literal type mismatch"@)),
            r.0 matches Err(e) ==> (e is LLVMError || e is MissingValue || (e is TypeError && !pattern_fits(
                *pattern,
                value_type@,
            ))),
        decreases pattern,
    {
        match pattern {
            Pattern::Literal(lit) => self.literal_match(lit, value, value_type),
            Pattern::Wildcard => (Ok(llvm::const_int(llvm::bool_type(self.context), 1, false).0), Vec::new()),
            Pattern::Binding(_) => (Ok(llvm::const_int(llvm::bool_type(self.context), 1, false).0), Vec::new()),
            Pattern::Or(alternatives) => {
                let mut result = llvm::const_int(llvm::bool_type(self.context), 0, false).0;
                let mut records: Vec<Record<'ctx>> = Vec::new();
                let mut i: usize = 0;
                while i < alternatives.len()
                    invariant
                        i <= alternatives@.len(),
                        *pattern == Pattern::Or(*alternatives),
                        forall|j: int| 0 <= j < i ==> pattern_fits(#[trigger] alternatives@[j], value_type@),
                        i == 0 ==> records@.len() == 0,
                        i > 0 ==> (records@.len() > 0 && records@.last().emitted() matches Emitted::Int(IntInstr::Or, _, _)),
                    decreases alternatives@.len() - i,
                {
                    proof {
                        assert(decreases_to!(*pattern => pattern->0));
                        assert(decreases_to!(*alternatives => alternatives@[i as int]));
                        assert(decreases_to!(*pattern => alternatives@[i as int]));
                    }
                    let (m, mut sub) = self.compile_pattern_match(&alternatives[i], value, value_type);
                    let m = match m {
                        Ok(m) => m,
                        Err(e) => {
                            proof {
                                if !(e is LLVMError || e is MissingValue) {
                                    if pattern_fits(*pattern, value_type@) {
                                        assert(pattern_fits(alternatives@[i as int], value_type@));
                                    }
                                }
                            }
                            return (Err(e), Vec::new());
                        },
                    };
                    let (joined, asked) = llvm::build_or(self.builder, result, m, "or_pat");
                    result = match joined {
                        Some(v) => v,
                        None => return (Err(pattern_failed("build_or", "Failed to OR pattern results")), Vec::new()),
                    };
                    records.append(&mut sub);
                    records.push(asked);
                    i = i + 1;
                }
                (Ok(result), records)
            },
        }
    }

    /// The comparison of `value` with a literal.
    fn literal_match(&self, lit: &PatternLiteral<'ctx>, value: BasicValueEnum<'ctx>, value_type: &BrixType) -> (r: (Result<IntValue<'ctx>, CodegenError>, Vec<Record<'ctx>>))
        ensures
            r.0 is Ok ==> literal_compared(*lit, value_type@, value, r.1@),
            !literal_fits(*lit, value_type@) ==> (r.0 matches Err(
                CodegenError::TypeError { expected: Found::Type(t), found: Found::Text(k), context },
            ) && t@ == value_type@ && k@ == literal_kind(*lit) && context@ == "Pattern literal type mismatch"@),
            r.0 matches Err(e) ==> (e is LLVMError || e is MissingValue || (e is TypeError && !literal_fits(
                *lit,
                value_type@,
            ))),
    {
        let i64_ty = llvm::i64_type(self.context);
        match (lit, value_type) {
            (PatternLiteral::Int(n), BrixType::Int) => {
                let literal = llvm::const_int(i64_ty, *n as u64, false).0;
                self.int_equals(value, literal, "pat_int_cmp", "Failed to compare int pattern")
            },
            (PatternLiteral::Float(f), BrixType::Float) => {
                let v = match llvm::basic_as_float(value) {
                    Some(v) => v,
                    None => return (Err(pattern_failed("into_float_value", "the matched value is a float")), Vec::new()),
                };
                let (c, asked) = llvm::build_float_compare(self.builder, FloatPredicate::OEQ, v, *f, "pat_float_cmp");
                match c {
                    Some(c) => (Ok(c), vec![asked]),
                    None => (Err(pattern_failed("build_float_compare", "Failed to compare float pattern")), Vec::new()),
                }
            },
            (PatternLiteral::Bool(b), BrixType::Int) => {
                let literal = llvm::const_int(i64_ty, if *b { 1 } else { 0 }, false).0;
                self.int_equals(value, literal, "pat_bool_cmp", "Failed to compare bool pattern")
            },
            (PatternLiteral::String(s), BrixType::String) => {
                let p = llvm::pointer_type_basic(self.ptr_type());
                let params = vec![p, p];
                let eq_ty = llvm::basic_fn_type(llvm::int_type_basic(llvm::bool_type(self.context)), params.as_slice(), false);
                let str_eq = self.runtime_function("str_eq", eq_ty, LinkageKind::External);
                let raw = match llvm::build_global_string_ptr(self.builder, s.as_str(), "pat_str").0 {
                    Some(g) => g,
                    None => return (Err(pattern_failed("build_global_string_ptr", "Failed to create pattern string")), Vec::new()),
                };
                let new_params = vec![p];
                let str_new = self.string_runtime("str_new", &new_params);
                let args = vec![llvm::pointer_value_basic(llvm::global_pointer(raw))];
                let call = match llvm::build_call(self.builder, str_new, &args, "pat_lit_str").0 {
                    Some(c) => c,
                    None => return (Err(pattern_failed("build_call", "Failed to call str_new for pattern")), Vec::new()),
                };
                let literal = match call {
                    Some(v) => v,
                    None => return (Err(missing("str_new result", "pattern string literal")), Vec::new()),
                };
                let args = vec![value, literal];
                let call = match llvm::build_call(self.builder, str_eq, &args, "pat_str_cmp").0 {
                    Some(c) => c,
                    None => return (Err(pattern_failed("build_call", "Failed to call str_eq for pattern")), Vec::new()),
                };
                match call {
                    Some(v) => match llvm::basic_as_int(v) {
                        Some(i) => (Ok(i), Vec::new()),
                        None => (Err(pattern_failed("into_int_value", "str_eq returns a boolean")), Vec::new()),
                    },
                    None => (Err(missing("str_eq result", "pattern string comparison")), Vec::new()),
                }
            },
            (PatternLiteral::Atom(name), BrixType::Atom) => {
                let p = llvm::pointer_type_basic(self.ptr_type());
                let params = vec![p];
                let intern_ty = llvm::basic_fn_type(llvm::int_type_basic(i64_ty), params.as_slice(), false);
                let intern = self.runtime_function("atom_intern", intern_ty, LinkageKind::External);
                let raw = match llvm::build_global_string_ptr(self.builder, name.as_str(), "pat_atom_name").0 {
                    Some(g) => g,
                    None => return (Err(pattern_failed("build_global_string_ptr", "Failed to create atom name string for pattern")), Vec::new()),
                };
                let args = vec![llvm::pointer_value_basic(llvm::global_pointer(raw))];
                let call = match llvm::build_call(self.builder, intern, &args, "pat_atom_id").0 {
                    Some(c) => c,
                    None => return (Err(pattern_failed("build_call", "Failed to call atom_intern for pattern")), Vec::new()),
                };
                let id = match call {
                    Some(v) => match llvm::basic_as_int(v) {
                        Some(i) => i,
                        None => return (Err(pattern_failed("into_int_value", "atom_intern returns an integer")), Vec::new()),
                    },
                    None => return (Err(missing("atom_intern result", "pattern atom comparison")), Vec::new()),
                };
                self.int_equals(value, id, "pat_atom_cmp", "Failed to compare atom IDs in pattern")
            },
            _ => (Err(CodegenError::TypeError {
                expected: Found::Type(value_type.copy()),
                found: Found::Text(kind_text(lit)),
                context: String::from_str("Pattern literal type mismatch"),
            }), Vec::new()),
        }
    }
}

/// One arm of a `match`: its pattern, an optional guard, and its body.
pub struct MatchArm<'ctx, E> {
    pub pattern: Pattern<'ctx>,
    pub guard: Option<E>,
    pub body: E,
}

/// The type of a `match` after an arm whose body has type `body`, given
/// the type so far (`None` before the first arm): the first body's type;
/// after it a compatible body keeps the type, except that an `int` result
/// becomes `float` when a body is `float`. `None` when the body's type is
/// not compatible with the type so far.
pub open spec fn spec_merge_arm_type(so_far: Option<TypeModel>, body: TypeModel) -> Option<TypeModel> {
    match so_far {
        None => Some(body),
        Some(t) => if !spec_types_compatible(t, body) {
            None
        } else if t is Int && body is Float {
            Some(TypeModel::Float)
        } else {
            Some(t)
        },
    }
}

/// The type of a `match` after an arm whose body has type `body`.
pub fn merge_arm_type(so_far: Option<&BrixType>, body: &BrixType) -> (r: Option<BrixType>)
    ensures
        r matches Some(t) ==> spec_merge_arm_type(
            match so_far {
                Some(s) => Some(s@),
                None => None,
            },
            body@,
        ) == Some(t@),
        r is None ==> spec_merge_arm_type(
            match so_far {
                Some(s) => Some(s@),
                None => None,
            },
            body@,
        ) is None,
{
    match so_far {
        None => Some(body.copy()),
        Some(t) => {
            if !are_types_compatible(t, body) {
                None
            } else if matches!(t, BrixType::Int) && matches!(body, BrixType::Float) {
                Some(BrixType::Float)
            } else {
                Some(t.copy())
            }
        },
    }
}

impl<'a, 'ctx, E, D> Compiler<'a, 'ctx, E, D> {
    /// The LLVM type of a `match`'s result: `i64` for `int`, `f64` for
    /// `float`, a pointer for strings, arrays and raw float pointers, and
    /// `i64` for anything else.
    pub fn match_phi_type(&self, t: &BrixType) -> BasicTypeEnum<'ctx> {
        match t {
            BrixType::Float => llvm::float_type_basic(llvm::f64_type(self.context)),
            BrixType::String | BrixType::Matrix | BrixType::IntMatrix | BrixType::FloatPtr => llvm::pointer_type_basic(self.ptr_type()),
            _ => llvm::int_type_basic(llvm::i64_type(self.context)),
        }
    }

    /// `match value { arm, ... }`: the value is compiled once; each arm has
    /// a test block (a name pattern first binds a new slot holding the
    /// value, the pattern is tested, then the guard if any) that branches
    /// to the arm's body or to the next arm's test (after the last arm, to
    /// the merge block); each body's value, converted to `float` where the
    /// result is, flows into a phi in the merge block. The result's type
    /// is merged arm by arm; bodies of incompatible types are refused.
    pub fn compile_match_expr<S, C: StatementCompiler<'a, 'ctx, E, D, S>>(
        &mut self,
        sc: &mut C,
        value: &E,
        arms: &[MatchArm<'ctx, E>],
    ) -> (r: Result<(BasicValueEnum<'ctx>, BrixType), CodegenError>)
        ensures
            arms@.len() == 0 ==> r is Err,
    {
        let (match_val, match_type) = sc.compile_expr(self, value)?;
        if arms.len() == 0 {
            return Err(missing("result type", "match expression has no arms or no result type"));
        }
        let here = match llvm::get_insert_block(self.builder) {
            Some(b) => b,
            None => return Err(pattern_failed("get_insert_block", "No current block in match expression")),
        };
        let parent = match llvm::block_parent(here) {
            Some(f) => f,
            None => return Err(pattern_failed("get_parent", "Current block has no parent function in match expression")),
        };
        let merge = llvm::append_basic_block(self.context, parent, "match_merge");
        let n = arms.len();
        let mut tests: Vec<BasicBlock<'ctx>> = Vec::new();
        let mut bodies: Vec<BasicBlock<'ctx>> = Vec::new();
        let mut i: usize = 0;
        while i < n
            invariant
                n == arms@.len(),
                i <= n,
                tests@.len() == i,
                bodies@.len() == i,
            decreases n - i,
        {
            let mut test_name = numbered("match_arm_", i);
            test_name.append("_test");
            let mut body_name = numbered("match_arm_", i);
            body_name.append("_body");
            tests.push(llvm::append_basic_block(self.context, parent, test_name.as_str()));
            bodies.push(llvm::append_basic_block(self.context, parent, body_name.as_str()));
            i = i + 1;
        }
        if !llvm::build_unconditional_branch(self.builder, tests[0]) {
            return Err(pattern_failed("build_unconditional_branch", "Failed to branch to first match arm"));
        }
        let mut incoming: Vec<(BasicValueEnum<'ctx>, BasicBlock<'ctx>)> = Vec::new();
        let mut result_type: Option<BrixType> = None;
        let i64_ty = llvm::i64_type(self.context);
        let mut k: usize = 0;
        while k < n
            invariant
                n == arms@.len(),
                n > 0,
                k <= n,
                tests@.len() == n,
                bodies@.len() == n,
                k > 0 ==> result_type is Some,
            decreases n - k,
        {
            let arm = &arms[k];
            llvm::position_at_end(self.builder, tests[k]);
            match &arm.pattern {
                Pattern::Binding(name) => {
                    let ty = match self.try_brix_type_to_llvm(&match_type) {
                        Some(t) => t,
                        None => return Err(pattern_failed("build_alloca", "The matched value has no LLVM type")),
                    };
                    let slot = match llvm::build_alloca(self.builder, ty, name.as_str()) {
                        Some(p) => p,
                        None => {
                            let mut details = String::from_str("Failed to allocate variable '");
                            details.append(name.as_str());
                            details.append("'");
                            return Err(CodegenError::LLVMError { operation: String::from_str("build_alloca"), details });
                        },
                    };
                    if !llvm::build_store(self.builder, slot, match_val).0 {
                        return Err(pattern_failed("build_store", "Failed to store match value"));
                    }
                    self.variables.insert(name.clone(), (slot, match_type.copy()));
                },
                _ => {},
            }
            let matched = self.compile_pattern_match(&arm.pattern, match_val, &match_type).0?;
            let condition = match &arm.guard {
                Some(guard) => {
                    let (gv, _) = sc.compile_expr(self, guard)?;
                    let g = match llvm::basic_as_int(gv) {
                        Some(g) => g,
                        None => return Err(pattern_failed("into_int_value", "a guard is an integer")),
                    };
                    let zero = llvm::const_int(i64_ty, 0, false).0;
                    let holds = match llvm::build_int_compare(self.builder, IntPredicate::NE, g, zero, "guard_bool").0 {
                        Some(b) => b,
                        None => return Err(pattern_failed("build_int_compare", "Failed to compare guard value")),
                    };
                    match llvm::build_and(self.builder, matched, holds, "pattern_and_guard").0 {
                        Some(c) => c,
                        None => return Err(pattern_failed("build_and", "Failed to AND pattern match with guard")),
                    }
                },
                None => matched,
            };
            let next = if k < n - 1 { tests[k + 1] } else { merge };
            if !llvm::build_conditional_branch(self.builder, condition, bodies[k], next) {
                return Err(pattern_failed("build_conditional_branch", "Failed to branch on match arm condition"));
            }
            llvm::position_at_end(self.builder, bodies[k]);
            let (body_val, body_type) = sc.compile_expr(self, &arm.body)?;
            let merged = match merge_arm_type(result_type.as_ref(), &body_type) {
                Some(t) => t,
                None => return Err(CodegenError::General { message: String::from_str("compilation error") }),
            };
            let coerced = if matches!(merged, BrixType::Float) && matches!(body_type, BrixType::Int) {
                let b = match llvm::basic_as_int(body_val) {
                    Some(b) => b,
                    None => return Err(pattern_failed("into_int_value", "an int arm's value is an integer")),
                };
                let mut cast_name = numbered("arm_", k);
                cast_name.append("_cast");
                match llvm::build_signed_int_to_float(self.builder, b, llvm::f64_type(self.context), cast_name.as_str()) {
                    Some(f) => llvm::float_value_basic(f),
                    None => return Err(pattern_failed("build_signed_int_to_float", "Failed to cast match arm value from int to float")),
                }
            } else {
                body_val
            };
            result_type = Some(merged);
            let current = match llvm::get_insert_block(self.builder) {
                Some(b) => b,
                None => return Err(pattern_failed("get_insert_block", "No current block after match arm body")),
            };
            incoming.push((coerced, current));
            if !llvm::build_unconditional_branch(self.builder, merge) {
                return Err(pattern_failed("build_unconditional_branch", "Failed to branch to merge block from match arm"));
            }
            k = k + 1;
        }
        llvm::position_at_end(self.builder, merge);
        let final_type = match result_type {
            Some(t) => t,
            None => return Err(missing("result type", "match expression has no arms or no result type")),
        };
        let phi = match llvm::build_phi(self.builder, self.match_phi_type(&final_type), "match_result") {
            Some(p) => p,
            None => return Err(pattern_failed("build_phi", "Failed to build PHI node for match expression result")),
        };
        let mut j: usize = 0;
        while j < incoming.len()
            invariant
                j <= incoming@.len(),
            decreases incoming@.len() - j,
        {
            let (v, b) = incoming[j];
            let _ = llvm::phi_add_incoming(phi, v, b);
            j = j + 1;
        }
        Ok((llvm::phi_value(phi), final_type))
    }
}

} // verus!
