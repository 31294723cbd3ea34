//! Emitting the calls of the `test` library: registrations of suites,
//! cases and hooks, and the matcher calls of `test.expect`.
//!
//! The arguments arrive compiled: the caller compiles the expressions of
//! the call and hands over their values and types.

use vstd::prelude::*;
use inkwell::types::BasicTypeEnum;
use inkwell::values::{BasicValueEnum, PointerValue};
use crate::types::{BrixType, TypeModel};
use crate::compiler::{Compiler, CodegenError};
use crate::testlib::{
    MatcherCall, MatcherPlan, MatcherOutcome, ModuleCall, ValueKind, Conv, plan_test_matcher, plan_module_call,
    spec_plan_matcher, spec_module_call, spec_module_call_arity, hook_fn, span_to_line, count_newlines, min_int,
};
use crate::llvm::{self, LinkageKind, CallRecord, ConstRecord};
use vstd::string::StringSliceAdditionalSpecFns;

verus! {

/// The calls a matcher's outcome asks for: for a call, one call of its
/// runtime function with the actual value, the expected one if it takes
/// one, the file name and the line; none otherwise.
pub open spec fn matcher_calls<'ctx>(
    o: MatcherOutcome,
    actual: BasicValueEnum<'ctx>,
    expected: Option<BasicValueEnum<'ctx>>,
    calls: Seq<CallRecord<'ctx>>,
) -> bool {
    match o {
        MatcherOutcome::Call(name, _, conv, exp) => {
            &&& calls.len() == 1
            &&& calls[0].callee_name() == name
            &&& calls[0].arguments().len() == (if exp is Some { 4int } else { 3int })
            &&& conv is AsIs ==> calls[0].arguments()[0] == actual
            &&& exp matches Some((_, c)) ==> (c is AsIs ==> match expected {
                Some(e) => calls[0].arguments()[1] == e,
                None => true,
            })
        },
        _ => calls.len() == 0,
    }
}

/// The one matcher call of `calls` passes, last, the constant `k` made
/// for the source line `line`.
pub open spec fn line_passed<'ctx>(calls: Seq<CallRecord<'ctx>>, k: Option<ConstRecord<'ctx>>, line: u32) -> bool {
    &&& calls.len() == 1
    &&& k matches Some(c)
    &&& c.asked() == line as u64
    &&& calls[0].arguments().len() > 0
    &&& calls[0].arguments().last() == llvm::int_value_as_basic(c.constant())
}

/// The name an arity error reports for a module call.
pub open spec fn module_call_word(c: ModuleCall) -> Seq<char> {
    match c {
        ModuleCall::Describe => "test.describe"@,
        ModuleCall::It => "test.it"@,
        ModuleCall::Hook(h) => crate::testlib::spec_hook_fn(h),
        ModuleCall::Ignored => Seq::empty(),
    }
}

/// A matcher planned without an argument passes no expected value.
proof fn lemma_call_without_argument(m: Seq<char>, negated: bool, a: TypeModel)
    ensures
        spec_plan_matcher(m, negated, a, None) matches MatcherOutcome::Call(_, _, _, x) ==> x is None,
{
}

impl<'a, 'ctx, E, D> Compiler<'a, 'ctx, E, D> {
    /// The `nil`-typed dummy value a test call yields.
    fn test_dummy(&self) -> BasicValueEnum<'ctx> {
        llvm::int_value_basic(llvm::const_int(llvm::i64_type(self.context), 0, false).0)
    }

    fn kind_type(&self, k: ValueKind) -> BasicTypeEnum<'ctx> {
        match k {
            ValueKind::I64 => llvm::int_type_basic(llvm::i64_type(self.context)),
            ValueKind::F64 => llvm::float_type_basic(llvm::f64_type(self.context)),
            ValueKind::Ptr => llvm::pointer_type_basic(self.ptr_type()),
        }
    }

    /// A value converted as a matcher expects it.
    fn convert_for_matcher(&self, v: BasicValueEnum<'ctx>, c: Conv, name: &str) -> (r: Result<BasicValueEnum<'ctx>, CodegenError>)
        ensures
            c is AsIs ==> (r matches Ok(x) && x == v),
            r matches Err(e) ==> e is LLVMError,
    {
        let zero = llvm::int_value_basic(llvm::const_int(llvm::i64_type(self.context), 0, false).0);
        match c {
            Conv::AsIs => Ok(v),
            Conv::FloatToInt => match llvm::basic_as_float(v) {
                Some(f) => match llvm::build_float_to_signed_int(self.builder, f, llvm::i64_type(self.context), name) {
                    Some(i) => Ok(llvm::int_value_basic(i)),
                    None => Err(CodegenError::LLVMError {
                        operation: String::from_str("build_float_to_signed_int"),
                        details: String::new(),
                    }),
                },
                None => Err(CodegenError::LLVMError {
                    operation: String::from_str("into_float_value"),
                    details: String::from_str("expected a float"),
                }),
            },
            Conv::IntToFloat => match llvm::basic_as_int(v) {
                Some(i) => match llvm::build_signed_int_to_float(self.builder, i, llvm::f64_type(self.context), name) {
                    Some(f) => Ok(llvm::float_value_basic(f)),
                    None => Err(CodegenError::LLVMError {
                        operation: String::from_str("build_signed_int_to_float"),
                        details: String::new(),
                    }),
                },
                None => Err(CodegenError::LLVMError {
                    operation: String::from_str("into_int_value"),
                    details: String::from_str("expected an integer"),
                }),
            },
            Conv::IntOrZero => match llvm::basic_as_int(v) {
                Some(_) => Ok(v),
                None => Ok(zero),
            },
            Conv::NilFlag => match llvm::basic_as_pointer(v) {
                Some(p) => {
                    let null = match llvm::build_is_null(self.builder, p, "is_nil") {
                        Some(n) => n,
                        None => return Err(CodegenError::LLVMError {
                            operation: String::from_str("build_is_null"),
                            details: String::new(),
                        }),
                    };
                    match llvm::build_int_z_extend(self.builder, null, llvm::i64_type(self.context), "nil_i64") {
                        Some(w) => Ok(llvm::int_value_basic(w)),
                        None => Err(CodegenError::LLVMError {
                            operation: String::from_str("build_int_z_extend"),
                            details: String::new(),
                        }),
                    }
                },
                None => match llvm::basic_as_int(v) {
                    Some(_) => Ok(v),
                    None => Ok(zero),
                },
            },
        }
    }

    /// Emits a matcher call: the actual value, the expected one if the call
    /// passes one, the pointer to the source file's name and the line, the
    /// values converted and typed as the call says; the matcher function is
    /// declared on first use. The records are the call and the constant
    /// made for the line.
    pub fn emit_matcher_call(
        &self,
        call: &MatcherCall,
        actual: BasicValueEnum<'ctx>,
        expected: Option<BasicValueEnum<'ctx>>,
        file_ptr: PointerValue<'ctx>,
        line: u32,
    ) -> (r: (Result<(), CodegenError>, Vec<CallRecord<'ctx>>, Option<ConstRecord<'ctx>>))
        requires
            call.expected is Some <==> expected is Some,
        ensures
            r.0 matches Err(e) ==> e is LLVMError,
            r.0 is Ok ==> line_passed(r.1@, r.2, line),
            r.0 is Ok ==> matcher_calls(MatcherOutcome::Call(call.func@, call.actual_kind, call.actual_conv, call.expected), actual, expected, r.1@),
    {
        let none: Vec<CallRecord<'ctx>> = Vec::new();
        let (line_val, line_record) = llvm::const_int(llvm::i32_type(self.context), line as u64, false);
        let mut params: Vec<BasicTypeEnum<'ctx>> = Vec::new();
        let mut args: Vec<BasicValueEnum<'ctx>> = Vec::new();
        params.push(self.kind_type(call.actual_kind));
        let a = match self.convert_for_matcher(actual, call.actual_conv, "a2x") {
            Ok(a) => a,
            Err(e) => return (Err(e), none, None),
        };
        args.push(a);
        match (call.expected, expected) {
            (Some((kind, conv)), Some(e)) => {
                params.push(self.kind_type(kind));
                let x = match self.convert_for_matcher(e, conv, "e2x") {
                    Ok(x) => x,
                    Err(e) => return (Err(e), none, None),
                };
                args.push(x);
            },
            _ => {},
        }
        params.push(llvm::pointer_type_basic(self.ptr_type()));
        params.push(llvm::int_type_basic(llvm::i32_type(self.context)));
        args.push(llvm::pointer_value_basic(file_ptr));
        args.push(llvm::int_value_basic(line_val));
        let f = self.declare_test_matcher_void(call.func.as_str(), &params);
        let (made, asked) = llvm::build_call(self.builder, f, &args, "tm");
        let record = vec![asked];
        match made {
            Some(_) => (Ok(()), record, Some(line_record)),
            None => {
                let mut details = String::new();
                details.append(call.func.as_str());
                (Err(CodegenError::LLVMError { operation: String::from_str("build_call"), details }), none, None)
            },
        }
    }

    /// `test.expect(actual).matcher(expected)`, or with `.not` when
    /// `negated`: `expected` is the compiled first argument, present when
    /// the matcher uses one and the call has one. A matcher that needs an
    /// argument and has none is refused; unknown matchers, and optional
    /// arguments missing, emit nothing but the file name. The result is a
    /// dummy `nil`.
    pub fn compile_test_matcher(
        &self,
        actual: BasicValueEnum<'ctx>,
        actual_type: &BrixType,
        matcher_name: &str,
        expected: Option<(BasicValueEnum<'ctx>, &BrixType)>,
        negated: bool,
        span_start: usize,
    ) -> (r: (Result<(BasicValueEnum<'ctx>, BrixType), CodegenError>, Vec<CallRecord<'ctx>>, Option<ConstRecord<'ctx>>))
        requires
            vstd::utf8::is_char_boundary(
                vstd::utf8::encode_utf8(self.source@),
                min_int(span_start as int, vstd::utf8::encode_utf8(self.source@).len() as int),
            ),
            count_newlines(
                vstd::utf8::encode_utf8(self.source@),
                min_int(span_start as int, vstd::utf8::encode_utf8(self.source@).len() as int),
            ) < u32::MAX,
        ensures
            r.0 matches Ok((_, t)) ==> t@ == TypeModel::Nil,
            r.0 matches Err(e) ==> e is LLVMError || (e is InvalidOperation && spec_plan_matcher(
                matcher_name@,
                negated,
                actual_type@,
                match expected {
                    Some((_, t)) => Some(t@),
                    None => None,
                },
            ) is MissingArgument),
            spec_plan_matcher(
                matcher_name@,
                negated,
                actual_type@,
                match expected {
                    Some((_, t)) => Some(t@),
                    None => None,
                },
            ) is MissingArgument ==> r.0 is Err,
            r.0 is Ok ==> matcher_calls(spec_plan_matcher(
                matcher_name@,
                negated,
                actual_type@,
                match expected {
                    Some((_, t)) => Some(t@),
                    None => None,
                },
            ), actual, match expected {
                Some((v, _)) => Some(v),
                None => None,
            }, r.1@),
            (r.0 is Ok && spec_plan_matcher(
                matcher_name@,
                negated,
                actual_type@,
                match expected {
                    Some((_, t)) => Some(t@),
                    None => None,
                },
            ) is Call) ==> line_passed(r.1@, r.2, (count_newlines(
                vstd::utf8::encode_utf8(self.source@),
                min_int(span_start as int, vstd::utf8::encode_utf8(self.source@).len() as int),
            ) + 1) as u32),
    {
        let line = span_to_line(self.source.as_str(), span_start);
        self.emit_test_matcher(actual, actual_type, matcher_name, expected, negated, line)
    }

    /// The same expectation with the source line already known.
    pub fn emit_test_matcher(
        &self,
        actual: BasicValueEnum<'ctx>,
        actual_type: &BrixType,
        matcher_name: &str,
        expected: Option<(BasicValueEnum<'ctx>, &BrixType)>,
        negated: bool,
        line: u32,
    ) -> (r: (Result<(BasicValueEnum<'ctx>, BrixType), CodegenError>, Vec<CallRecord<'ctx>>, Option<ConstRecord<'ctx>>))
        ensures
            r.0 matches Ok((_, t)) ==> t@ == TypeModel::Nil,
            r.0 matches Err(e) ==> e is LLVMError || (e is InvalidOperation && spec_plan_matcher(
                matcher_name@,
                negated,
                actual_type@,
                match expected {
                    Some((_, t)) => Some(t@),
                    None => None,
                },
            ) is MissingArgument),
            spec_plan_matcher(
                matcher_name@,
                negated,
                actual_type@,
                match expected {
                    Some((_, t)) => Some(t@),
                    None => None,
                },
            ) is MissingArgument ==> r.0 is Err,
            r.0 is Ok ==> matcher_calls(spec_plan_matcher(
                matcher_name@,
                negated,
                actual_type@,
                match expected {
                    Some((_, t)) => Some(t@),
                    None => None,
                },
            ), actual, match expected {
                Some((v, _)) => Some(v),
                None => None,
            }, r.1@),
            (r.0 is Ok && spec_plan_matcher(
                matcher_name@,
                negated,
                actual_type@,
                match expected {
                    Some((_, t)) => Some(t@),
                    None => None,
                },
            ) is Call) ==> line_passed(r.1@, r.2, line),
    {
        let none: Vec<CallRecord<'ctx>> = Vec::new();
        let file_ptr = match self.build_str_global(self.filename.as_str(), "tf") {
            Ok(p) => p,
            Err(e) => return (Err(e), none, None),
        };
        let expected_type = match expected {
            Some((_, t)) => Some(t),
            None => None,
        };
        let plan = plan_test_matcher(matcher_name, negated, actual_type, expected_type);
        proof {
            lemma_call_without_argument(matcher_name@, negated, actual_type@);
        }
        match plan {
            MatcherPlan::Skip => (Ok((self.test_dummy(), BrixType::Nil)), none, None),
            MatcherPlan::MissingArgument => (
                Err(CodegenError::InvalidOperation {
                    operation: String::from_str(matcher_name),
                    reason: String::from_str("requires one argument"),
                }),
                none,
                None,
            ),
            MatcherPlan::Call(c) => {
                let ev = match (&c.expected, expected) {
                    (Some(_), Some((v, _))) => Some(v),
                    _ => None,
                };
                let (made, calls, line_record) = self.emit_matcher_call(&c, actual, ev, file_ptr, line);
                match made {
                    Ok(()) => (Ok((self.test_dummy(), BrixType::Nil)), calls, line_record),
                    Err(e) => (Err(e), none, None),
                }
            },
        }
    }

    /// Registers a lifecycle hook: calls `c_fn_name` (declared on first use)
    /// with the compiled closure, the first of `args`. Without an argument
    /// the call is refused. The result is a dummy `nil`.
    pub fn compile_test_hook_register(&self, c_fn_name: &str, args: &[BasicValueEnum<'ctx>]) -> (r: Result<
        (BasicValueEnum<'ctx>, BrixType),
        CodegenError,
    >)
        ensures
            args@.len() == 0 <==> (r matches Err(e) && e matches CodegenError::InvalidOperation { operation, .. }
                && operation@ == c_fn_name@),
            r matches Err(e) ==> (e is LLVMError || e is InvalidOperation),
            r matches Ok((_, t)) ==> t@ == TypeModel::Nil,
    {
        if args.len() == 0 {
            return Err(CodegenError::InvalidOperation {
                operation: String::from_str(c_fn_name),
                reason: String::from_str("requires one argument: (closure)"),
            });
        }
        let params = vec![llvm::pointer_type_basic(self.ptr_type())];
        let fn_ty = llvm::void_fn_type(llvm::void_type(self.context), &params, false);
        let f = self.runtime_function(c_fn_name, fn_ty, LinkageKind::External);
        let call_args = vec![args[0]];
        match llvm::build_call(self.builder, f, &call_args, "hook_reg").0 {
            Some(_) => Ok((self.test_dummy(), BrixType::Nil)),
            None => {
                let mut details = String::from_str("Failed to call ");
                details.append(c_fn_name);
                Err(CodegenError::LLVMError { operation: String::from_str("build_call"), details })
            },
        }
    }

    /// `test.describe(title, closure)`, `test.it(title, closure)` and the
    /// hook registrations, with the call's compiled arguments. A call with
    /// fewer arguments than it needs is refused; an unknown method emits
    /// nothing. The result is a dummy `nil`.
    pub fn compile_test_module_call(&self, method: &str, args: &[BasicValueEnum<'ctx>]) -> (r: Result<
        (BasicValueEnum<'ctx>, BrixType),
        CodegenError,
    >)
        ensures
            args@.len() < spec_module_call_arity(spec_module_call(method@)) <==> (r matches Err(e) && e matches CodegenError::InvalidOperation { operation, .. }
                && operation@ == module_call_word(spec_module_call(method@))),
            spec_module_call(method@) is Ignored ==> r is Ok,
            r matches Err(e) ==> (e is LLVMError || e is InvalidOperation),
            r matches Ok((_, t)) ==> t@ == TypeModel::Nil,
    {
        let call = match plan_module_call(method, args.len()) {
            Ok(c) => c,
            Err(c) => {
                return match c {
                    ModuleCall::Describe => Err(CodegenError::InvalidOperation {
                        operation: String::from_str("test.describe"),
                        reason: String::from_str("requires two arguments: (title, closure)"),
                    }),
                    ModuleCall::It => Err(CodegenError::InvalidOperation {
                        operation: String::from_str("test.it"),
                        reason: String::from_str("requires two arguments: (title, closure)"),
                    }),
                    ModuleCall::Hook(h) => self.compile_test_hook_register(hook_fn(h), args),
                    ModuleCall::Ignored => Ok((self.test_dummy(), BrixType::Nil)),
                };
            },
        };
        match call {
            ModuleCall::Describe | ModuleCall::It => {
                let (fn_name, call_name, failure) = match call {
                    ModuleCall::Describe => ("test_describe_start", "test_describe", "Failed to call test_describe_start"),
                    _ => ("test_it_register", "test_it", "Failed to call test_it_register"),
                };
                let ptr = llvm::pointer_type_basic(self.ptr_type());
                let params = vec![ptr, ptr];
                let fn_ty = llvm::void_fn_type(llvm::void_type(self.context), &params, false);
                let f = self.runtime_function(fn_name, fn_ty, LinkageKind::External);
                let call_args = vec![args[0], args[1]];
                match llvm::build_call(self.builder, f, &call_args, call_name).0 {
                    Some(_) => Ok((self.test_dummy(), BrixType::Nil)),
                    None => Err(CodegenError::LLVMError {
                        operation: String::from_str("build_call"),
                        details: String::from_str(failure),
                    }),
                }
            },
            ModuleCall::Hook(h) => self.compile_test_hook_register(hook_fn(h), args),
            ModuleCall::Ignored => Ok((self.test_dummy(), BrixType::Nil)),
        }
    }
}

} // verus!
