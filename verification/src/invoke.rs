//! Calls that name no built-in function: functions of an imported module
//! (`math.sqrt(x)`), methods of struct variables (`p.norm()`), closures,
//! and the user's functions with their default arguments.

use vstd::prelude::*;
use inkwell::values::{BasicValueEnum, FunctionValue, PointerValue};
use crate::types::{BrixType, TypeModel, models_of, lemma_models_of, copy_members, is_closure_type};
use crate::compiler::{Compiler, CodegenError, StatementCompiler, Field};
use crate::llvm::{self, ValueKind};
use crate::testlib::{ArgUse, matcher_arg_use, plan_module_call, spec_module_call, spec_module_call_arity, min_int, count_newlines};
use crate::calls::{spec_builtin_of, spec_arity, spec_builtin_result, arity_reported};
use crate::text::{decimal, decimal_string};

verus! {

/// The type of what a module function returns, by the function's name:
/// `tr`, `inv` and `eye` give a matrix, `eigvals` and `eigvecs` a complex
/// matrix, every other function a float.
pub open spec fn spec_module_call_type(name: Seq<char>) -> TypeModel {
    if name == "tr"@ || name == "inv"@ || name == "eye"@ {
        TypeModel::Matrix
    } else if name == "eigvals"@ || name == "eigvecs"@ {
        TypeModel::ComplexMatrix
    } else {
        TypeModel::Float
    }
}

fn named(s: &str, lit: &str) -> (r: bool)
    ensures
        r == (s@ == lit@),
{
    crate::strmap::str_equal(s, lit)
}

/// The type of what the module function `name` returns.
pub fn module_call_type(name: &str) -> (t: BrixType)
    ensures
        t@ == spec_module_call_type(name@),
{
    if named(name, "tr") || named(name, "inv") || named(name, "eye") {
        BrixType::Matrix
    } else if named(name, "eigvals") || named(name, "eigvecs") {
        BrixType::ComplexMatrix
    } else {
        BrixType::Float
    }
}

/// How a module function is handed an argument.
#[derive(PartialEq, Eq, Structural, Clone, Copy, Debug)]
pub enum ArgPassing {
    /// The value as it is.
    AsIs,
    /// An integer converted to a float.
    IntToFloat,
}

/// Arrays go to a module function as they are, and so does every argument
/// of `eye`; other integers are converted to floats.
pub open spec fn spec_module_arg_passing(name: Seq<char>, t: TypeModel) -> ArgPassing {
    if t is Matrix || t is IntMatrix {
        ArgPassing::AsIs
    } else if name == "eye"@ {
        ArgPassing::AsIs
    } else if t is Int {
        ArgPassing::IntToFloat
    } else {
        ArgPassing::AsIs
    }
}

/// How the module function `name` is handed an argument of type `t`.
pub fn module_arg_passing(name: &str, t: &BrixType) -> (r: ArgPassing)
    ensures
        r == spec_module_arg_passing(name@, t@),
{
    match t {
        BrixType::Matrix | BrixType::IntMatrix => ArgPassing::AsIs,
        _ => {
            if named(name, "eye") {
                ArgPassing::AsIs
            } else if matches!(t, BrixType::Int) {
                ArgPassing::IntToFloat
            } else {
                ArgPassing::AsIs
            }
        },
    }
}

/// The type given to what a method returns, by the kind of the LLVM
/// value: an integer, a float, a pointer (taken for a matrix), or nothing.
pub open spec fn spec_method_result_type(k: ValueKind) -> TypeModel {
    match k {
        ValueKind::Int => TypeModel::Int,
        ValueKind::Float => TypeModel::Float,
        ValueKind::Pointer => TypeModel::Matrix,
        ValueKind::Other => TypeModel::Void,
    }
}

/// The type given to a method's result of kind `k`.
pub fn method_result_type(k: ValueKind) -> (t: BrixType)
    ensures
        t@ == spec_method_result_type(k),
{
    match k {
        ValueKind::Int => BrixType::Int,
        ValueKind::Float => BrixType::Float,
        ValueKind::Pointer => BrixType::Matrix,
        ValueKind::Other => BrixType::Void,
    }
}

/// The type of a call of a function declared with return types `rs` (at
/// least one): the type itself when there is one, else their tuple.
pub open spec fn spec_call_result(rs: Seq<TypeModel>) -> TypeModel {
    if rs.len() == 1 {
        rs[0]
    } else {
        TypeModel::Tuple(rs)
    }
}

/// Every parameter from the `provided`-th on has a default value.
pub open spec fn defaults_cover<E>(params: Seq<Field<E>>, provided: nat) -> bool {
    forall|i: int| provided <= i < params.len() ==> (#[trigger] params[i]).2 is Some
}

/// `prefix`, then `middle`, then `suffix`.
fn joined(prefix: &str, middle: &str, suffix: &str) -> (r: String)
    ensures
        r@ == prefix@ + middle@ + suffix@,
{
    let mut s = String::from_str(prefix);
    s.append(middle);
    s.append(suffix);
    s
}

/// How the callee of a call is written.
pub enum Callee<'e, E> {
    /// A bare name: `f(...)`.
    Name(&'e str),
    /// A name and a field: `m.f(...)`, a module function, a method of a
    /// struct variable, or a call of the test library such as
    /// `test.describe(...)`.
    Member { object: &'e str, field: &'e str },
    /// `test.expect(actual).matcher(...)` (`expect` with exactly one
    /// argument), or with `.not` before the matcher when `negated`.
    Expect { actual: &'e E, negated: bool, matcher: &'e str },
    /// Any other expression.
    Other,
}

/// A byte offset of the source from which the line of a test expectation
/// is found: cut to the source's length it falls between characters, and
/// the line number fits in a `u32`.
pub open spec fn line_offset_ok(source: Seq<char>, start: usize) -> bool {
    &&& vstd::utf8::is_char_boundary(
        vstd::utf8::encode_utf8(source),
        min_int(start as int, vstd::utf8::encode_utf8(source).len() as int),
    )
    &&& count_newlines(vstd::utf8::encode_utf8(source), min_int(start as int, vstd::utf8::encode_utf8(source).len() as int))
        < u32::MAX
}

/// The functions with a fixed meaning that a bare name calls after the
/// built-in functions.
#[derive(PartialEq, Eq, Structural, Clone, Copy, Debug)]
pub enum FixedCall {
    Input,
    Matrix,
    ReadCsv,
    Zeros,
    Izeros,
    Zip,
}

/// The fixed function the name `n` calls, if any.
pub open spec fn spec_fixed_call(n: Seq<char>) -> Option<FixedCall> {
    if n == "input"@ {
        Some(FixedCall::Input)
    } else if n == "matrix"@ {
        Some(FixedCall::Matrix)
    } else if n == "read_csv"@ {
        Some(FixedCall::ReadCsv)
    } else if n == "zeros"@ {
        Some(FixedCall::Zeros)
    } else if n == "izeros"@ {
        Some(FixedCall::Izeros)
    } else if n == "zip"@ {
        Some(FixedCall::Zip)
    } else {
        None
    }
}

/// The fixed function the name `n` calls, if any.
pub fn fixed_call_of(n: &str) -> (r: Option<FixedCall>)
    ensures
        r == spec_fixed_call(n@),
{
    if named(n, "input") {
        Some(FixedCall::Input)
    } else if named(n, "matrix") {
        Some(FixedCall::Matrix)
    } else if named(n, "read_csv") {
        Some(FixedCall::ReadCsv)
    } else if named(n, "zeros") {
        Some(FixedCall::Zeros)
    } else if named(n, "izeros") {
        Some(FixedCall::Izeros)
    } else if named(n, "zip") {
        Some(FixedCall::Zip)
    } else {
        None
    }
}

/// What a call of the fixed function `k` with `n` arguments gives: the
/// type of its value, and its refusal when the number of arguments is
/// wrong (`input` takes any number).
pub open spec fn spec_fixed_call_holds(k: FixedCall, n: nat, r: Result<(BasicValueEnum, BrixType), CodegenError>) -> bool {
    match k {
        FixedCall::Input => r matches Ok((_, t)) ==> (t@ is Int || t@ is Float || t@ is String),
        FixedCall::Matrix => {
            &&& r matches Ok((_, t)) ==> t@ is Matrix
            &&& n != 2 ==> (r matches Err(CodegenError::General { message }) && message@ == "matrix() constructor failed"@)
        },
        FixedCall::ReadCsv => {
            &&& r matches Ok((_, t)) ==> t@ is Matrix
            &&& n != 1 ==> (r matches Err(CodegenError::General { message }) && message@ == "read_csv() call failed"@)
        },
        FixedCall::Zeros => {
            &&& r matches Ok((_, t)) ==> t@ is Matrix
            &&& (n != 1 && n != 2) ==> (r matches Err(CodegenError::InvalidOperation { operation, reason })
                && operation@ == "zeros()"@ && reason@ == "Expected 1 or 2 arguments, got "@ + decimal(n))
        },
        FixedCall::Izeros => {
            &&& r matches Ok((_, t)) ==> t@ is IntMatrix
            &&& (n != 1 && n != 2) ==> (r matches Err(CodegenError::InvalidOperation { operation, reason })
                && operation@ == "izeros()"@ && reason@ == "Expected 1 or 2 arguments, got "@ + decimal(n))
        },
        FixedCall::Zip => n != 2 ==> (r matches Err(CodegenError::General { message }) && message@ == "zip() call failed"@),
    }
}

/// No built-in function has the name of a fixed function.
pub proof fn lemma_fixed_not_builtin(n: Seq<char>)
    requires
        spec_fixed_call(n) is Some,
    ensures
        spec_builtin_of(n) is None,
{
    reveal_strlit("typeof");
    assert("typeof"@[0] == 't' && "typeof"@[1] == 'y' && "typeof"@.len() == 6);
    reveal_strlit("int");
    assert("int"@[0] == 'i' && "int"@[1] == 'n' && "int"@.len() == 3);
    reveal_strlit("float");
    assert("float"@[0] == 'f' && "float"@[1] == 'l' && "float"@.len() == 5);
    reveal_strlit("string");
    assert("string"@[0] == 's' && "string"@[1] == 't' && "string"@.len() == 6);
    reveal_strlit("bool");
    assert("bool"@[0] == 'b' && "bool"@[1] == 'o' && "bool"@.len() == 4);
    reveal_strlit("is_nil");
    assert("is_nil"@[0] == 'i' && "is_nil"@[1] == 's' && "is_nil"@.len() == 6);
    reveal_strlit("is_atom");
    assert("is_atom"@[0] == 'i' && "is_atom"@[1] == 's' && "is_atom"@.len() == 7);
    reveal_strlit("is_boolean");
    assert("is_boolean"@[0] == 'i' && "is_boolean"@[1] == 's' && "is_boolean"@.len() == 10);
    reveal_strlit("is_integer");
    assert("is_integer"@[0] == 'i' && "is_integer"@[1] == 's' && "is_integer"@.len() == 10);
    reveal_strlit("is_float");
    assert("is_float"@[0] == 'i' && "is_float"@[1] == 's' && "is_float"@.len() == 8);
    reveal_strlit("is_number");
    assert("is_number"@[0] == 'i' && "is_number"@[1] == 's' && "is_number"@.len() == 9);
    reveal_strlit("is_string");
    assert("is_string"@[0] == 'i' && "is_string"@[1] == 's' && "is_string"@.len() == 9);
    reveal_strlit("is_list");
    assert("is_list"@[0] == 'i' && "is_list"@[1] == 's' && "is_list"@.len() == 7);
    reveal_strlit("is_tuple");
    assert("is_tuple"@[0] == 'i' && "is_tuple"@[1] == 's' && "is_tuple"@.len() == 8);
    reveal_strlit("is_function");
    assert("is_function"@[0] == 'i' && "is_function"@[1] == 's' && "is_function"@.len() == 11);
    reveal_strlit("error");
    assert("error"@[0] == 'e' && "error"@[1] == 'r' && "error"@.len() == 5);
    reveal_strlit("complex");
    assert("complex"@[0] == 'c' && "complex"@[1] == 'o' && "complex"@.len() == 7);
    reveal_strlit("real");
    assert("real"@[0] == 'r' && "real"@[1] == 'e' && "real"@.len() == 4);
    reveal_strlit("imag");
    assert("imag"@[0] == 'i' && "imag"@[1] == 'm' && "imag"@.len() == 4);
    reveal_strlit("conj");
    assert("conj"@[0] == 'c' && "conj"@[1] == 'o' && "conj"@.len() == 4);
    reveal_strlit("exp");
    assert("exp"@[0] == 'e' && "exp"@[1] == 'x' && "exp"@.len() == 3);
    reveal_strlit("log");
    assert("log"@[0] == 'l' && "log"@[1] == 'o' && "log"@.len() == 3);
    reveal_strlit("sqrt");
    assert("sqrt"@[0] == 's' && "sqrt"@[1] == 'q' && "sqrt"@.len() == 4);
    reveal_strlit("csin");
    assert("csin"@[0] == 'c' && "csin"@[1] == 's' && "csin"@.len() == 4);
    reveal_strlit("ccos");
    assert("ccos"@[0] == 'c' && "ccos"@[1] == 'c' && "ccos"@.len() == 4);
    reveal_strlit("ctan");
    assert("ctan"@[0] == 'c' && "ctan"@[1] == 't' && "ctan"@.len() == 4);
    reveal_strlit("csinh");
    assert("csinh"@[0] == 'c' && "csinh"@[1] == 's' && "csinh"@.len() == 5);
    reveal_strlit("ccosh");
    assert("ccosh"@[0] == 'c' && "ccosh"@[1] == 'c' && "ccosh"@.len() == 5);
    reveal_strlit("ctanh");
    assert("ctanh"@[0] == 'c' && "ctanh"@[1] == 't' && "ctanh"@.len() == 5);
    reveal_strlit("abs");
    assert("abs"@[0] == 'a' && "abs"@[1] == 'b' && "abs"@.len() == 3);
    reveal_strlit("abs2");
    assert("abs2"@[0] == 'a' && "abs2"@[1] == 'b' && "abs2"@.len() == 4);
    reveal_strlit("angle");
    assert("angle"@[0] == 'a' && "angle"@[1] == 'n' && "angle"@.len() == 5);
    reveal_strlit("input");
    assert("input"@[0] == 'i' && "input"@[1] == 'n' && "input"@.len() == 5);
    reveal_strlit("matrix");
    assert("matrix"@[0] == 'm' && "matrix"@[1] == 'a' && "matrix"@.len() == 6);
    reveal_strlit("read_csv");
    assert("read_csv"@[0] == 'r' && "read_csv"@[1] == 'e' && "read_csv"@.len() == 8);
    reveal_strlit("zeros");
    assert("zeros"@[0] == 'z' && "zeros"@[1] == 'e' && "zeros"@.len() == 5);
    reveal_strlit("izeros");
    assert("izeros"@[0] == 'i' && "izeros"@[1] == 'z' && "izeros"@.len() == 6);
    reveal_strlit("zip");
    assert("zip"@[0] == 'z' && "zip"@[1] == 'i' && "zip"@.len() == 3);
}

fn general_failure(message: &str) -> (e: CodegenError)
    ensures
        e matches CodegenError::General { message: m } && m@ == message@,
{
    CodegenError::General { message: String::from_str(message) }
}

fn call_failed(details: String) -> (e: CodegenError)
    ensures
        e is LLVMError,
{
    CodegenError::LLVMError { operation: String::from_str("build_call"), details }
}

fn compilation_error() -> (e: CodegenError)
    ensures
        e matches CodegenError::General { message } && message@ == "compilation error"@,
{
    CodegenError::General { message: String::from_str("compilation error") }
}

impl<'a, 'ctx, E, D> Compiler<'a, 'ctx, E, D> {
    /// The function a module call `m.name(...)` reaches: the module's
    /// `brix_<name>` where it has one, else its `name`; `None` when it has
    /// neither.
    pub fn module_function(&self, name: &str) -> (r: Option<FunctionValue<'ctx>>) {
        let prefixed = joined("brix_", name, "");
        match llvm::get_function(self.module, prefixed.as_str()) {
            Some(f) => Some(f),
            None => llvm::get_function(self.module, name),
        }
    }

    /// The value a module function is handed for the compiled argument
    /// `val` of type `ty`.
    pub fn module_argument(&self, name: &str, val: BasicValueEnum<'ctx>, ty: &BrixType) -> (r: Result<
        BasicValueEnum<'ctx>,
        CodegenError,
    >)
        ensures
            spec_module_arg_passing(name@, ty@) is AsIs ==> r == Ok::<BasicValueEnum<'ctx>, CodegenError>(val),
            r matches Err(e) ==> e is LLVMError,
    {
        match module_arg_passing(name, ty) {
            ArgPassing::AsIs => Ok(val),
            ArgPassing::IntToFloat => {
                let i = match llvm::basic_as_int(val) {
                    Some(i) => i,
                    None => {
                        return Err(CodegenError::LLVMError {
                            operation: String::from_str("into_int_value"),
                            details: String::from_str("an int argument is an integer"),
                        });
                    },
                };
                match llvm::build_signed_int_to_float(self.builder, i, llvm::f64_type(self.context), "int_to_float_arg") {
                    Some(f) => Ok(llvm::float_value_basic(f)),
                    None => Err(CodegenError::LLVMError {
                        operation: String::from_str("build_signed_int_to_float"),
                        details: String::from_str("Failed to convert int arg to float for math call"),
                    }),
                }
            },
        }
    }

    /// `m.name(args)` where the module has a function for `name` (see
    /// `module_function`): the arguments compiled in order and handed over
    /// as `module_argument` says, the function called, and the result typed
    /// by the function's name. `None` when the module has no such function.
    pub fn compile_module_call<S, C: StatementCompiler<'a, 'ctx, E, D, S>>(
        &mut self,
        sc: &mut C,
        fn_name: &str,
        args: &[E],
    ) -> (r: Option<Result<(BasicValueEnum<'ctx>, BrixType), CodegenError>>)
        ensures
            r matches Some(Ok((_, t))) ==> t@ == spec_module_call_type(fn_name@),
    {
        let f = self.module_function(fn_name)?;
        let mut call_args: Vec<BasicValueEnum<'ctx>> = Vec::new();
        let mut i: usize = 0;
        while i < args.len()
            invariant
                i <= args@.len(),
            decreases args@.len() - i,
        {
            let (val, ty) = match sc.compile_expr(self, &args[i]) {
                Ok(c) => c,
                Err(e) => return Some(Err(e)),
            };
            match self.module_argument(fn_name, val, &ty) {
                Ok(v) => call_args.push(v),
                Err(e) => return Some(Err(e)),
            }
            i = i + 1;
        }
        let callee = match self.declared_callable(fn_name, f, call_args.as_slice()) {
            Some(c) => c,
            None => return Some(Err(call_failed(joined("Unsupported return type of math function ", fn_name, "")))),
        };
        let call = match llvm::build_call(self.builder, callee, &call_args, "math_call").0 {
            Some(c) => c,
            None => return Some(Err(call_failed(joined("Failed to call math function ", fn_name, "")))),
        };
        match call {
            Some(v) => Some(Ok((v, module_call_type(fn_name)))),
            None => Some(Err(CodegenError::MissingValue {
                what: String::from_str("math function result"),
                context: joined("math.", fn_name, ""),
            })),
        }
    }

    /// The function of the method `method` of the struct `struct_name`:
    /// the module's `<struct_name>_<method>`. A method the module lacks is
    /// an undefined symbol.
    pub fn method_function(&self, struct_name: &str, method: &str) -> (r: Result<FunctionValue<'ctx>, CodegenError>)
        ensures
            r matches Err(e) ==> (e matches CodegenError::UndefinedSymbol { name, context } && name@ == struct_name@
                + "."@ + method@ && context@ == "method call"@),
    {
        let mangled = joined(struct_name, "_", method);
        match llvm::get_function(self.module, mangled.as_str()) {
            Some(f) => Ok(f),
            None => Err(CodegenError::UndefinedSymbol {
                name: joined(struct_name, ".", method),
                context: String::from_str("method call"),
            }),
        }
    }

    /// `var.method(args)` where `var` is a variable of a struct type: the
    /// method's function is called with the variable's slot, then the
    /// compiled arguments. A call with no value (a method returning
    /// nothing) gives a void `0`;
    /// otherwise the result is typed by the kind of the value. `None` when
    /// `var` is not a variable of a struct type.
    #[verifier::loop_isolation(false)]
    pub fn compile_method_call<S, C: StatementCompiler<'a, 'ctx, E, D, S>>(
        &mut self,
        sc: &mut C,
        var_name: &str,
        method: &str,
        args: &[E],
    ) -> (r: Option<Result<(BasicValueEnum<'ctx>, BrixType), CodegenError>>)
        ensures
            r is Some <==> (old(self).variables.map().dom().contains(var_name@)
                && old(self).variables.map()[var_name@].1@ is Struct),
            r matches Some(Ok((_, t))) ==> (t@ is Int || t@ is Float || t@ is Matrix || t@ is Void),
    {
        let (receiver, struct_name) = match self.variables.get(var_name) {
            Some((slot, BrixType::Struct(s))) => {
                assert(old(self).variables.map()[var_name@].1@ is Struct);
                (*slot, s.clone())
            },
            _ => return None,
        };
        assert(old(self).variables.map().dom().contains(var_name@));
        assert(old(self).variables.map()[var_name@].1@ is Struct);
        let f = match self.method_function(struct_name.as_str(), method) {
            Ok(f) => f,
            Err(e) => {
                assert(old(self).variables.map()[var_name@].1@ is Struct);
                return Some(Err(e));
            },
        };
        let mut call_args: Vec<BasicValueEnum<'ctx>> = vec![llvm::pointer_value_basic(receiver)];
        let mut i: usize = 0;
        while i < args.len()
            invariant
                i <= args@.len(),
            decreases args@.len() - i,
        {
            match sc.compile_expr(self, &args[i]) {
                Ok((v, _)) => call_args.push(v),
                Err(e) => return Some(Err(e)),
            }
            i = i + 1;
        }
        let mangled = joined(struct_name.as_str(), "_", method);
        let callee = match self.declared_callable(mangled.as_str(), f, call_args.as_slice()) {
            Some(c) => c,
            None => return Some(Err(call_failed(joined("Unsupported return type of method ", mangled.as_str(), "")))),
        };
        let call = match llvm::build_call(self.builder, callee, &call_args, "method_call").0 {
            Some(c) => c,
            None => {
                let mut details = joined("Failed to call method '", struct_name.as_str(), ".");
                details.append(method);
                details.append("'");
                return Some(Err(call_failed(details)));
            },
        };
        match call {
            Some(v) => Some(Ok((v, method_result_type(llvm::value_kind(v))))),
            None => {
                let zero = llvm::const_int(llvm::i64_type(self.context), 0, false).0;
                Some(Ok((llvm::int_value_basic(zero), BrixType::Void)))
            },
        }
    }

    /// A field of a closure record `{ ref_count, function, environment }`
    /// given by pointer or by value.
    fn closure_field(&self, closure: BasicValueEnum<'ctx>, index: u32, name: &str) -> (r: Result<
        PointerValue<'ctx>,
        CodegenError,
    >)
        ensures
            r matches Err(e) ==> e is LLVMError,
    {
        let field = match llvm::basic_as_pointer(closure) {
            Some(record) => {
                let ptr_basic = llvm::pointer_type_basic(self.ptr_type());
                let fields = vec![llvm::int_type_basic(llvm::i64_type(self.context)), ptr_basic, ptr_basic];
                let record_type = llvm::struct_type(self.context, &fields, false);
                let typed = match llvm::build_pointer_cast(
                    self.builder,
                    record,
                    llvm::pointer_to(llvm::struct_type_basic(record_type)),
                    "closure_struct",
                ) {
                    Some(p) => p,
                    None => return Err(closure_failed("build_pointer_cast", "Failed to type a closure pointer")),
                };
                let at = match llvm::build_struct_gep(self.builder, typed, index, name) {
                    Some(p) => p,
                    None => return Err(closure_failed("build_struct_gep", "Failed to address a closure field")),
                };
                match llvm::build_load(self.builder, at, if index == 0 { self.i64_basic() } else { ptr_basic }, name).0 {
                    Some(v) => v,
                    None => return Err(closure_failed("build_load", "Failed to load closure struct from pointer")),
                }
            },
            None => {
                let record = match llvm::basic_as_struct(closure) {
                    Some(s) => s,
                    None => return Err(closure_failed("into_struct_value", "a closure is a record")),
                };
                match llvm::build_extract_value(self.builder, record, index, name) {
                    Some(v) => v,
                    None => return Err(closure_failed("build_extract_value", "Failed to extract from closure")),
                }
            },
        };
        match llvm::basic_as_pointer(field) {
            Some(p) => Ok(p),
            None => Err(closure_failed("into_pointer_value", "a closure field is a pointer")),
        }
    }

    /// A call of the compiled closure `closure`: its function is called
    /// through its pointer, typed as taking the environment and one `i64`
    /// per argument and returning an `i64`, with the environment and the
    /// compiled arguments. The result is an integer.
    pub fn call_closure<S, C: StatementCompiler<'a, 'ctx, E, D, S>>(
        &mut self,
        sc: &mut C,
        closure: BasicValueEnum<'ctx>,
        args: &[E],
    ) -> (r: Result<(BasicValueEnum<'ctx>, BrixType), CodegenError>)
        ensures
            r matches Ok((_, t)) ==> t@ is Int,
    {
        let fn_ptr = self.closure_field(closure, 1, "fn_ptr")?;
        let env_ptr = self.closure_field(closure, 2, "env_ptr")?;
        let mut call_args: Vec<BasicValueEnum<'ctx>> = vec![llvm::pointer_value_basic(env_ptr)];
        let i64_basic = llvm::int_type_basic(llvm::i64_type(self.context));
        let mut params = vec![llvm::pointer_type_basic(self.ptr_type())];
        let mut i: usize = 0;
        while i < args.len()
            invariant
                i <= args@.len(),
            decreases args@.len() - i,
        {
            let (v, _) = sc.compile_expr(self, &args[i])?;
            call_args.push(v);
            params.push(i64_basic);
            i = i + 1;
        }
        let fn_type = llvm::basic_fn_type(i64_basic, &params, false);
        let call = match llvm::build_pointer_call(self.builder, fn_ptr, fn_type, &call_args, "closure_call") {
            Some(c) => c,
            None => return Err(closure_failed("build_indirect_call", "Failed to call closure")),
        };
        match call {
            Some(v) => Ok((v, BrixType::Int)),
            None => Err(CodegenError::MissingValue {
                what: String::from_str("closure call result"),
                context: String::from_str("closure invocation"),
            }),
        }
    }

    /// A call through whatever `func` compiles to, when that is a closure:
    /// `None` when `func` does not compile, or not to a closure.
    pub fn compile_closure_call<S, C: StatementCompiler<'a, 'ctx, E, D, S>>(
        &mut self,
        sc: &mut C,
        func: &E,
        args: &[E],
    ) -> (r: Option<Result<(BasicValueEnum<'ctx>, BrixType), CodegenError>>)
        ensures
            r matches Some(Ok((_, t))) ==> t@ is Int,
    {
        let (val, ty) = match sc.compile_expr(self, func) {
            Ok(c) => c,
            Err(_) => return None,
        };
        if !is_closure_type(&ty) {
            return None;
        }
        Some(self.call_closure(sc, val, args))
    }

    /// `name(args)` of a function the user declared: the arguments are
    /// compiled in order, those that fail to compile left out; where the
    /// function's parameters are known, missing trailing arguments take
    /// their parameters' default values and surplus ones are refused. A
    /// function with one return type gives a value of that type, one with
    /// several a tuple, one with none is refused. `None` when no function
    /// of that name was declared.
    #[verifier::loop_isolation(false)]
    pub fn compile_user_call<S, C: StatementCompiler<'a, 'ctx, E, D, S>>(
        &mut self,
        sc: &mut C,
        fn_name: &str,
        args: &[E],
    ) -> (r: Option<Result<(BasicValueEnum<'ctx>, BrixType), CodegenError>>)
        where E: Clone,
        ensures
            r is None <==> !old(self).functions.map().dom().contains(fn_name@),
            old(self).functions.map().dom().contains(fn_name@) && old(self).function_params.map().dom().contains(
                fn_name@,
            ) && args@.len() > old(self).function_params.map()[fn_name@]@.len() ==> (r matches Some(Err(CodegenError::General { message }))
                && message@ == "compilation error"@),
            r matches Some(Ok((_, t))) ==> {
                &&& old(self).functions.map()[fn_name@].1 matches Some(rs)
                &&& rs@.len() >= 1
                &&& t@ == spec_call_result(models_of(rs@))
                &&& old(self).function_params.map().dom().contains(fn_name@) ==> defaults_cover(
                    old(self).function_params.map()[fn_name@]@,
                    args@.len() as nat,
                )
            },
    {
        let (f, ret_types) = match self.functions.get(fn_name) {
            Some((f, rs)) => {
                let copied: Option<Vec<BrixType>> = match rs {
                    Some(v) => Some(copy_members(v)),
                    None => None,
                };
                (*f, copied)
            },
            None => return None,
        };
        let ghost declared = old(self).functions.map()[fn_name@].1;
        let ghost params_map = old(self).function_params.map();
        assert(ret_types is None <==> declared is None);
        assert(ret_types matches Some(v) ==> (declared matches Some(rs) && models_of(v@) == models_of(rs@)));
        let mut defaults: Option<Vec<Option<E>>> = None;
        match self.function_params.get(fn_name) {
            Some(ps) => {
                let mut ds: Vec<Option<E>> = Vec::new();
                let mut k: usize = 0;
                while k < ps.len()
                    invariant
                        k <= ps@.len(),
                        *ps == params_map[fn_name@],
                        ds@.len() == k,
                        forall|j: int| 0 <= j < k ==> (#[trigger] ds@[j] is Some) == (ps@[j].2 is Some),
                    decreases ps@.len() - k,
                {
                    let d: Option<E> = match &ps[k].2 {
                        Some(e) => Some(e.clone()),
                        None => None,
                    };
                    ds.push(d);
                    k = k + 1;
                }
                defaults = Some(ds);
            },
            None => {},
        }
        assert(defaults is Some <==> params_map.dom().contains(fn_name@));
        assert(defaults matches Some(ds) ==> ds@.len() == params_map[fn_name@]@.len() && forall|j: int|
            0 <= j < ds@.len() ==> (#[trigger] ds@[j] is Some) == (params_map[fn_name@]@[j].2 is Some));
        let mut call_args: Vec<BasicValueEnum<'ctx>> = Vec::new();
        let mut i: usize = 0;
        while i < args.len()
            invariant
                i <= args@.len(),
                defaults is Some <==> params_map.dom().contains(fn_name@),
                defaults matches Some(ds) ==> ds@.len() == params_map[fn_name@]@.len() && forall|j: int|
                    0 <= j < ds@.len() ==> (#[trigger] ds@[j] is Some) == (params_map[fn_name@]@[j].2 is Some),
                ret_types is None <==> declared is None,
                ret_types matches Some(v) ==> (declared matches Some(rs) && models_of(v@) == models_of(rs@)),
            decreases args@.len() - i,
        {
            match sc.compile_expr(self, &args[i]) {
                Ok((v, _)) => call_args.push(v),
                Err(_) => {},
            }
            i = i + 1;
        }
        match &defaults {
            Some(ds) => {
                if args.len() > ds.len() {
                    return Some(Err(compilation_error()));
                }
                let mut j: usize = args.len();
                while j < ds.len()
                    invariant
                        args@.len() <= j <= ds@.len(),
                        forall|q: int| args@.len() <= q < j ==> (#[trigger] ds@[q]) is Some,
                        ret_types is None <==> declared is None,
                        ret_types matches Some(v) ==> (declared matches Some(rs) && models_of(v@) == models_of(rs@)),
                    decreases ds@.len() - j,
                {
                    match &ds[j] {
                        Some(d) => match sc.compile_expr(self, d) {
                            Ok((v, _)) => call_args.push(v),
                            Err(_) => {
                                let what = joined("default value for parameter ", crate::text::decimal_string(j).as_str(), "");
                                return Some(Err(CodegenError::MissingValue {
                                    what,
                                    context: String::from_str("function call"),
                                }));
                            },
                        },
                        None => return Some(Err(compilation_error())),
                    }
                    j = j + 1;
                }
            },
            None => {},
        }
        let callee = match self.declared_callable(fn_name, f, call_args.as_slice()) {
            Some(c) => c,
            None => return Some(Err(call_failed(joined("Unsupported return type of function ", fn_name, "")))),
        };
        let call = match llvm::build_call(self.builder, callee, &call_args, "call").0 {
            Some(c) => c,
            None => return Some(Err(call_failed(joined("Failed to call user function '", fn_name, "'")))),
        };
        let rs = match ret_types {
            Some(rs) => rs,
            None => {
                return Some(Err(CodegenError::MissingValue {
                    what: String::from_str("expression value"),
                    context: String::from_str("compile_expr"),
                }));
            },
        };
        if rs.len() == 0 {
            return Some(Err(compilation_error()));
        }
        let v = match call {
            Some(v) => v,
            None => {
                return Some(Err(CodegenError::MissingValue {
                    what: String::from_str("function return value"),
                    context: joined("call to '", fn_name, "'"),
                }));
            },
        };
        proof {
            lemma_models_of(rs@);
            let rs0 = declared.unwrap();
            lemma_models_of(rs0@);
            assert(models_of(rs@).len() == models_of(rs0@).len());
            match defaults {
                Some(ds) => {
                    assert(defaults_cover(params_map[fn_name@]@, args@.len() as nat)) by {
                        assert forall|q: int| args@.len() <= q < params_map[fn_name@]@.len() implies (
                            #[trigger] params_map[fn_name@]@[q]).2 is Some by {
                            assert(ds@[q] is Some);
                        }
                    }
                },
                None => {},
            }
        }
        if rs.len() == 1 {
            Some(Ok((v, rs[0].copy())))
        } else {
            Some(Ok((v, BrixType::Tuple(rs))))
        }
    }

    /// The calls of the test library: `test.expect(actual).matcher(...)`
    /// compiles `actual`, then the matcher's argument where it takes one
    /// and the call has one; `test.method(...)` compiles as many arguments
    /// as the method needs, none when there are too few. `None` for any
    /// other call.
    #[verifier::loop_isolation(false)]
    pub fn try_compile_test_call<S, C: StatementCompiler<'a, 'ctx, E, D, S>>(
        &mut self,
        sc: &mut C,
        callee: &Callee<E>,
        args: &[E],
        span_start: usize,
    ) -> (r: Option<Result<(BasicValueEnum<'ctx>, BrixType), CodegenError>>)
        requires
            callee is Expect ==> line_offset_ok(old(self).source@, span_start),
        ensures
            r is Some <==> (callee is Expect || (callee matches Callee::Member { object, .. } && object@ == "test"@)),
            r matches Some(Ok((_, t))) ==> t@ is Nil,
            callee matches Callee::Member { object, field } ==> (object@ == "test"@ && args@.len()
                < spec_module_call_arity(spec_module_call(field@)) ==> (r matches Some(Err(e)) && e is InvalidOperation)),
    {
        match callee {
            Callee::Expect { actual, negated, matcher } => {
                let line = crate::testlib::span_to_line(self.source.as_str(), span_start);
                let (actual_val, actual_type) = match sc.compile_expr(self, actual) {
                    Ok(c) => c,
                    Err(e) => return Some(Err(e)),
                };
                let uses = matcher_arg_use(matcher);
                let expected: Option<(BasicValueEnum<'ctx>, BrixType)> = if !matches!(uses, ArgUse::Unused)
                    && args.len() > 0 {
                    match sc.compile_expr(self, &args[0]) {
                        Ok(c) => Some(c),
                        Err(e) => return Some(Err(e)),
                    }
                } else {
                    None
                };
                let expected_ref = match &expected {
                    Some((v, t)) => Some((*v, t)),
                    None => None,
                };
                Some(self.emit_test_matcher(actual_val, &actual_type, matcher, expected_ref, *negated, line).0)
            },
            Callee::Member { object, field } => {
                if !named(object, "test") {
                    return None;
                }
                let need: usize = match plan_module_call(field, args.len()) {
                    Ok(c) => match c {
                        crate::testlib::ModuleCall::Describe | crate::testlib::ModuleCall::It => 2,
                        crate::testlib::ModuleCall::Hook(_) => 1,
                        crate::testlib::ModuleCall::Ignored => 0,
                    },
                    Err(_) => 0,
                };
                let mut compiled: Vec<BasicValueEnum<'ctx>> = Vec::new();
                let mut i: usize = 0;
                while i < need
                    invariant
                        i <= need,
                        need <= args@.len(),
                        compiled@.len() == i,
                    decreases need - i,
                {
                    match sc.compile_expr(self, &args[i]) {
                        Ok((v, _)) => compiled.push(v),
                        Err(e) => return Some(Err(e)),
                    }
                    i = i + 1;
                }
                Some(self.compile_test_module_call(field, &compiled))
            },
            _ => None,
        }
    }

    /// A call `func(args)` whose callee is written as `callee`, resolved in
    /// this order: the test library's calls; for `m.f(...)`, a function of
    /// the module for `f`, then a method of the struct variable `m`; for a
    /// bare name, the built-in functions, then `input`, `matrix`,
    /// `read_csv`, `zeros`, `izeros` and `zip`, then a generic function;
    /// then whatever `func` compiles to, when that is a closure; then, for a
    /// bare name, a function the user declared. Any other call has no
    /// value. `span_start` is the call's offset in the source, for the line
    /// of a test expectation.
    pub fn compile_call<S, C: StatementCompiler<'a, 'ctx, E, D, S>>(
        &mut self,
        sc: &mut C,
        func: &E,
        callee: Callee<E>,
        args: &[E],
        span_start: usize,
    ) -> (r: Result<(BasicValueEnum<'ctx>, BrixType), CodegenError>)
        where
            E: Clone,
        requires
            callee is Expect ==> line_offset_ok(old(self).source@, span_start),
        ensures
            (callee is Expect || (callee matches Callee::Member { object, .. } && object@ == "test"@)) ==> (r matches Ok(
                (_, t),
            ) ==> t@ is Nil),
            callee matches Callee::Member { object, field } ==> (object@ == "test"@ && args@.len()
                < spec_module_call_arity(spec_module_call(field@)) ==> (r matches Err(e) && e is InvalidOperation)),
            callee matches Callee::Name(n) ==> (spec_builtin_of(n@) matches Some(b) ==> {
                &&& args@.len() != spec_arity(b) ==> (r matches Err(e) && arity_reported(e, b, n@, args@.len() as nat))
                &&& r matches Ok((_, t)) ==> t@ == spec_builtin_result(b)
            }),
            callee matches Callee::Name(n) ==> (spec_fixed_call(n@) matches Some(k) ==> spec_fixed_call_holds(
                k,
                args@.len() as nat,
                r,
            )),
    {
        match &callee {
            Callee::Expect { .. } | Callee::Member { .. } => {
                match self.try_compile_test_call(sc, &callee, args, span_start) {
                    Some(r) => return r,
                    None => {},
                }
            },
            _ => {},
        }
        match &callee {
            Callee::Member { object, field } => {
                match self.compile_module_call(sc, field, args) {
                    Some(r) => return r,
                    None => {},
                }
                match self.compile_method_call(sc, object, field, args) {
                    Some(r) => return r,
                    None => {},
                }
            },
            Callee::Name(n) => {
                proof {
                    if spec_fixed_call(n@) is Some {
                        lemma_fixed_not_builtin(n@);
                    }
                }
                match self.compile_builtin_call(sc, n, args) {
                    Some(r) => return r,
                    None => {},
                }
                match fixed_call_of(n) {
                    Some(k) => return self.compile_fixed_call(sc, k, args),
                    None => {},
                }
                match self.compile_inferred_generic_call(sc, n, args) {
                    Some(r) => return r,
                    None => {},
                }
            },
            _ => {},
        }
        match self.compile_closure_call(sc, func, args) {
            Some(r) => return r,
            None => {},
        }
        match &callee {
            Callee::Name(n) => match self.compile_user_call(sc, n, args) {
                Some(r) => return r,
                None => {},
            },
            _ => {},
        }
        Err(CodegenError::MissingValue {
            what: String::from_str("expression value"),
            context: String::from_str("compile_expr"),
        })
    }

    /// `input`, `matrix`, `read_csv`, `zeros`, `izeros` or `zip` with
    /// `args`: the arguments are compiled (none when their number is
    /// wrong), and the value built.
    #[verifier::loop_isolation(false)]
    pub fn compile_fixed_call<S, C: StatementCompiler<'a, 'ctx, E, D, S>>(
        &mut self,
        sc: &mut C,
        k: FixedCall,
        args: &[E],
    ) -> (r: Result<(BasicValueEnum<'ctx>, BrixType), CodegenError>)
        ensures
            spec_fixed_call_holds(k, args@.len() as nat, r),
    {
        match k {
            FixedCall::Input => {
                let text: Option<String> = if args.len() > 0 {
                    sc.string_literal(&args[0])
                } else {
                    None
                };
                let arg: Option<&str> = match &text {
                    Some(t) => Some(t.as_str()),
                    None => None,
                };
                match self.compile_input_call(arg) {
                    Some(c) => Ok(c),
                    None => Err(general_failure("input() call failed")),
                }
            },
            FixedCall::Matrix => {
                if args.len() != 2 {
                    return Err(general_failure("matrix() constructor failed"));
                }
                let vals = match self.compile_all_or_none(sc, args) {
                    Some(v) => v,
                    None => return Err(general_failure("matrix() constructor failed")),
                };
                match self.compile_matrix_constructor(&vals) {
                    Some(v) => Ok((v, BrixType::Matrix)),
                    None => Err(general_failure("matrix() constructor failed")),
                }
            },
            FixedCall::ReadCsv => {
                if args.len() != 1 {
                    return Err(general_failure("read_csv() call failed"));
                }
                let vals = match self.compile_all_or_none(sc, args) {
                    Some(v) => v,
                    None => return Err(general_failure("read_csv() call failed")),
                };
                match self.compile_read_csv(&vals) {
                    Some(v) => Ok((v, BrixType::Matrix)),
                    None => Err(general_failure("read_csv() call failed")),
                }
            },
            FixedCall::Zeros | FixedCall::Izeros => {
                let ints = matches!(k, FixedCall::Izeros);
                let what = if ints { "izeros()" } else { "zeros()" };
                if args.len() != 1 && args.len() != 2 {
                    let mut reason = String::from_str("Expected 1 or 2 arguments, got ");
                    reason.append(decimal_string(args.len()).as_str());
                    return Err(CodegenError::InvalidOperation { operation: String::from_str(what), reason });
                }
                let mut vals: Vec<BasicValueEnum<'ctx>> = Vec::new();
                let mut i: usize = 0;
                while i < args.len()
                    invariant
                        i <= args@.len(),
                        vals@.len() == i,
                    decreases args@.len() - i,
                {
                    let (v, _) = sc.compile_expr(self, &args[i])?;
                    vals.push(v);
                    i = i + 1;
                }
                if ints {
                    Ok((self.compile_izeros(&vals)?, BrixType::IntMatrix))
                } else {
                    Ok((self.compile_zeros(&vals)?, BrixType::Matrix))
                }
            },
            FixedCall::Zip => {
                if args.len() != 2 {
                    return Err(general_failure("zip() call failed"));
                }
                let mut typed: Vec<(BasicValueEnum<'ctx>, BrixType)> = Vec::new();
                let mut i: usize = 0;
                while i < args.len()
                    invariant
                        i <= args@.len(),
                    decreases args@.len() - i,
                {
                    match sc.compile_expr(self, &args[i]) {
                        Ok(c) => typed.push(c),
                        Err(_) => return Err(general_failure("zip() call failed")),
                    }
                    i = i + 1;
                }
                match self.compile_zip(&typed) {
                    Some(c) => Ok(c),
                    None => Err(general_failure("zip() call failed")),
                }
            },
        }
    }

    /// The compiled values of `args`, in order; `None` as soon as one fails
    /// to compile.
    fn compile_all_or_none<S, C: StatementCompiler<'a, 'ctx, E, D, S>>(&mut self, sc: &mut C, args: &[E]) -> (r: Option<
        Vec<BasicValueEnum<'ctx>>,
    >)
        ensures
            r matches Some(v) ==> v@.len() == args@.len(),
    {
        let mut vals: Vec<BasicValueEnum<'ctx>> = Vec::new();
        let mut i: usize = 0;
        while i < args.len()
            invariant
                i <= args@.len(),
                vals@.len() == i,
            decreases args@.len() - i,
        {
            match sc.compile_expr(self, &args[i]) {
                Ok((v, _)) => vals.push(v),
                Err(_) => return None,
            }
            i = i + 1;
        }
        Some(vals)
    }
}

fn closure_failed(operation: &str, details: &str) -> (e: CodegenError)
    ensures
        e is LLVMError,
{
    CodegenError::LLVMError { operation: String::from_str(operation), details: String::from_str(details) }
}

} // verus!
