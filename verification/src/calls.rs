//! Calls of the language's built-in functions: conversions (`int`,
//! `float`, `string`, `bool`), type tests (`is_nil`, `is_number`, ...),
//! `typeof`, `error`, and the functions of complex numbers.

use vstd::prelude::*;
use inkwell::values::{BasicValueEnum, FloatValue, IntValue, StructValue};
use crate::types::{BrixType, TypeModel};
use crate::compiler::{Compiler, CodegenError, Found, StatementCompiler};
use crate::format::typeof_text;
use crate::stringify::is_stringifiable;
use crate::format::debug_text;
use crate::ops::{IntPredicate, FloatPredicate};
use crate::text::{decimal, decimal_string};
use crate::llvm;

verus! {

/// A built-in function of one or two arguments.
#[derive(PartialEq, Eq, Structural, Clone, Copy, Debug)]
pub enum Builtin {
    Typeof,
    ToInt,
    ToFloat,
    ToString,
    ToBool,
    IsNil,
    IsAtom,
    IsBoolean,
    IsInteger,
    IsFloat,
    IsNumber,
    IsString,
    IsList,
    IsTuple,
    IsFunction,
    Error,
    Complex,
    Real,
    Imag,
    /// `conj`, `exp`, `log`, `sqrt`, `csin`, `ccos`, `ctan`, `csinh`,
    /// `ccosh`, `ctanh`: `complex_<name>` from complex to complex.
    ComplexToComplex,
    /// `abs`, `abs2`, `angle`: `complex_<name>` from complex to float.
    ComplexToFloat,
}

/// The built-in function a name calls.
pub open spec fn spec_builtin_of(name: Seq<char>) -> Option<Builtin> {
    if name == "typeof"@ {
        Some(Builtin::Typeof)
    } else if name == "int"@ {
        Some(Builtin::ToInt)
    } else if name == "float"@ {
        Some(Builtin::ToFloat)
    } else if name == "string"@ {
        Some(Builtin::ToString)
    } else if name == "bool"@ {
        Some(Builtin::ToBool)
    } else if name == "is_nil"@ {
        Some(Builtin::IsNil)
    } else if name == "is_atom"@ {
        Some(Builtin::IsAtom)
    } else if name == "is_boolean"@ {
        Some(Builtin::IsBoolean)
    } else if name == "is_integer"@ {
        Some(Builtin::IsInteger)
    } else if name == "is_float"@ {
        Some(Builtin::IsFloat)
    } else if name == "is_number"@ {
        Some(Builtin::IsNumber)
    } else if name == "is_string"@ {
        Some(Builtin::IsString)
    } else if name == "is_list"@ {
        Some(Builtin::IsList)
    } else if name == "is_tuple"@ {
        Some(Builtin::IsTuple)
    } else if name == "is_function"@ {
        Some(Builtin::IsFunction)
    } else if name == "error"@ {
        Some(Builtin::Error)
    } else if name == "complex"@ {
        Some(Builtin::Complex)
    } else if name == "real"@ {
        Some(Builtin::Real)
    } else if name == "imag"@ {
        Some(Builtin::Imag)
    } else if name == "conj"@ || name == "exp"@ || name == "log"@ || name == "sqrt"@ || name == "csin"@ || name
        == "ccos"@ || name == "ctan"@ || name == "csinh"@ || name == "ccosh"@ || name == "ctanh"@ {
        Some(Builtin::ComplexToComplex)
    } else if name == "abs"@ || name == "abs2"@ || name == "angle"@ {
        Some(Builtin::ComplexToFloat)
    } else {
        None
    }
}

fn is(name: &str, lit: &str) -> (r: bool)
    ensures
        r == (name@ == lit@),
{
    crate::strmap::str_equal(name, lit)
}

/// The built-in function a name calls, if any.
pub fn builtin_of(name: &str) -> (r: Option<Builtin>)
    ensures
        r == spec_builtin_of(name@),
{
    if is(name, "typeof") {
        Some(Builtin::Typeof)
    } else if is(name, "int") {
        Some(Builtin::ToInt)
    } else if is(name, "float") {
        Some(Builtin::ToFloat)
    } else if is(name, "string") {
        Some(Builtin::ToString)
    } else if is(name, "bool") {
        Some(Builtin::ToBool)
    } else if is(name, "is_nil") {
        Some(Builtin::IsNil)
    } else if is(name, "is_atom") {
        Some(Builtin::IsAtom)
    } else if is(name, "is_boolean") {
        Some(Builtin::IsBoolean)
    } else if is(name, "is_integer") {
        Some(Builtin::IsInteger)
    } else if is(name, "is_float") {
        Some(Builtin::IsFloat)
    } else if is(name, "is_number") {
        Some(Builtin::IsNumber)
    } else if is(name, "is_string") {
        Some(Builtin::IsString)
    } else if is(name, "is_list") {
        Some(Builtin::IsList)
    } else if is(name, "is_tuple") {
        Some(Builtin::IsTuple)
    } else if is(name, "is_function") {
        Some(Builtin::IsFunction)
    } else if is(name, "error") {
        Some(Builtin::Error)
    } else if is(name, "complex") {
        Some(Builtin::Complex)
    } else if is(name, "real") {
        Some(Builtin::Real)
    } else if is(name, "imag") {
        Some(Builtin::Imag)
    } else if is(name, "conj") || is(name, "exp") || is(name, "log") || is(name, "sqrt") || is(name, "csin") || is(
        name,
        "ccos",
    ) || is(name, "ctan") || is(name, "csinh") || is(name, "ccosh") || is(name, "ctanh") {
        Some(Builtin::ComplexToComplex)
    } else if is(name, "abs") || is(name, "abs2") || is(name, "angle") {
        Some(Builtin::ComplexToFloat)
    } else {
        None
    }
}

/// The number of arguments a built-in takes.
pub open spec fn spec_arity(b: Builtin) -> nat {
    if b is Complex {
        2
    } else {
        1
    }
}

/// How a wrong number of arguments is reported: `expects exactly 1
/// argument`, `Expected N argument(s), got n`, or a general compilation
/// error.
pub enum ArityReport {
    ExpectsExactlyOne,
    ExpectedGot,
    CompilationError,
}

pub open spec fn spec_arity_report(b: Builtin) -> ArityReport {
    match b {
        Builtin::IsTuple | Builtin::IsFunction | Builtin::Complex | Builtin::ComplexToComplex | Builtin::ComplexToFloat => ArityReport::ExpectedGot,
        Builtin::Error | Builtin::Real | Builtin::Imag => ArityReport::CompilationError,
        _ => ArityReport::ExpectsExactlyOne,
    }
}

/// The operation an arity report names: `typeof` alone, every other
/// built-in as `name()`.
pub open spec fn spec_call_label(b: Builtin, name: Seq<char>) -> Seq<char> {
    if b is Typeof {
        name
    } else {
        name + "()"@
    }
}

/// `e` reports built-in `b`, called as `name` with `n` arguments, as
/// taking another number of arguments.
pub open spec fn arity_reported(e: CodegenError, b: Builtin, name: Seq<char>, n: nat) -> bool {
    match spec_arity_report(b) {
        ArityReport::ExpectsExactlyOne => e matches CodegenError::InvalidOperation { operation, reason }
            && operation@ == spec_call_label(b, name) && reason@ == "expects exactly 1 argument"@,
        ArityReport::ExpectedGot => e matches CodegenError::InvalidOperation { operation, reason }
            && operation@ == spec_call_label(b, name) && reason@ == "Expected "@ + decimal(spec_arity(b)) + (if spec_arity(
            b,
        ) == 1 {
            " argument, got "@
        } else {
            " arguments, got "@
        }) + decimal(n),
        ArityReport::CompilationError => e matches CodegenError::General { message } && message@ == "compilation error"@,
    }
}

/// The report of built-in `b`, called as `name` with `n` arguments.
pub fn arity_error(b: Builtin, name: &str, n: usize) -> (e: CodegenError)
    ensures
        arity_reported(e, b, name@, n as nat),
{
    let mut operation = String::from_str(name);
    if !matches!(b, Builtin::Typeof) {
        operation.append("()");
    }
    match b {
        Builtin::IsTuple | Builtin::IsFunction | Builtin::Complex | Builtin::ComplexToComplex | Builtin::ComplexToFloat => {
            let arity: usize = if matches!(b, Builtin::Complex) { 2 } else { 1 };
            let mut reason = String::from_str("Expected ");
            let expected = decimal_string(arity);
            reason.append(expected.as_str());
            reason.append(if arity == 1 { " argument, got " } else { " arguments, got " });
            let count = decimal_string(n);
            reason.append(count.as_str());
            CodegenError::InvalidOperation { operation, reason }
        },
        Builtin::Error | Builtin::Real | Builtin::Imag => CodegenError::General { message: String::from_str("compilation error") },
        _ => CodegenError::InvalidOperation { operation, reason: String::from_str("expects exactly 1 argument") },
    }
}

/// The type of a built-in's value.
pub open spec fn spec_builtin_result(b: Builtin) -> TypeModel {
    match b {
        Builtin::Typeof | Builtin::ToString => TypeModel::String,
        Builtin::ToFloat | Builtin::Real | Builtin::Imag | Builtin::ComplexToFloat => TypeModel::Float,
        Builtin::Error => TypeModel::Error,
        Builtin::Complex | Builtin::ComplexToComplex => TypeModel::Complex,
        _ => TypeModel::Int,
    }
}

/// The argument types a built-in accepts: the conversions take numbers
/// and strings, `error` a string, the complex functions a complex number;
/// `typeof` and `string` refuse what has no text.
pub open spec fn spec_accepts(b: Builtin, t: TypeModel) -> bool {
    match b {
        Builtin::ToInt | Builtin::ToFloat | Builtin::ToBool => t is Int || t is Float || t is String,
        Builtin::Error => t is String,
        Builtin::Real | Builtin::Imag | Builtin::ComplexToComplex | Builtin::ComplexToFloat => t is Complex,
        Builtin::Typeof => !(t is Optional),
        _ => true,
    }
}

/// The context a type error of a built-in names.
pub open spec fn spec_type_context(b: Builtin, name: Seq<char>) -> Seq<char> {
    match b {
        Builtin::ToInt => "int() conversion"@,
        Builtin::ToFloat => "float() conversion"@,
        Builtin::ToBool => "bool() conversion"@,
        _ => name + "()"@,
    }
}

/// The constant answer of a type test, when the argument's type decides
/// it: `is_boolean` of an `int` and `is_nil` of a string or an error look
/// at the value.
pub open spec fn spec_test_answer(b: Builtin, t: TypeModel) -> Option<bool> {
    match b {
        Builtin::IsNil => if t is Nil {
            Some(true)
        } else if t is Error || t is String {
            None
        } else {
            Some(false)
        },
        Builtin::IsAtom => Some(t is Atom),
        Builtin::IsBoolean => if t is Int {
            None
        } else {
            Some(false)
        },
        Builtin::IsInteger => Some(t is Int),
        Builtin::IsFloat => Some(t is Float),
        Builtin::IsNumber => Some(t is Int || t is Float),
        Builtin::IsString => Some(t is String),
        Builtin::IsList => Some(t is Matrix || t is IntMatrix),
        Builtin::IsTuple => Some(t is Tuple),
        Builtin::IsFunction => Some(false),
        _ => None,
    }
}

/// Decides `spec_test_answer`.
pub fn type_test_answer(b: Builtin, t: &BrixType) -> (r: Option<bool>)
    ensures
        r == spec_test_answer(b, t@),
{
    match b {
        Builtin::IsNil => match t {
            BrixType::Nil => Some(true),
            BrixType::Error | BrixType::String => None,
            _ => Some(false),
        },
        Builtin::IsAtom => Some(matches!(t, BrixType::Atom)),
        Builtin::IsBoolean => if matches!(t, BrixType::Int) {
            None
        } else {
            Some(false)
        },
        Builtin::IsInteger => Some(matches!(t, BrixType::Int)),
        Builtin::IsFloat => Some(matches!(t, BrixType::Float)),
        Builtin::IsNumber => Some(matches!(t, BrixType::Int) || matches!(t, BrixType::Float)),
        Builtin::IsString => Some(matches!(t, BrixType::String)),
        Builtin::IsList => Some(matches!(t, BrixType::Matrix) || matches!(t, BrixType::IntMatrix)),
        Builtin::IsTuple => Some(matches!(t, BrixType::Tuple(_))),
        Builtin::IsFunction => Some(false),
        _ => None,
    }
}

fn call_failed(operation: &str, details: &str) -> (e: CodegenError)
    ensures
        e is LLVMError,
{
    CodegenError::LLVMError { operation: String::from_str(operation), details: String::from_str(details) }
}

impl<'a, 'ctx, E, D> Compiler<'a, 'ctx, E, D> {
    fn one_or_zero(&self, b: bool) -> BasicValueEnum<'ctx> {
        llvm::int_value_basic(llvm::const_int(llvm::i64_type(self.context), if b { 1 } else { 0 }, false).0)
    }

    fn widen_bit(&self, bit: IntValue<'ctx>, name: &str) -> (r: Result<BasicValueEnum<'ctx>, CodegenError>)
        ensures
            r matches Err(e) ==> e is LLVMError,
    {
        match llvm::build_int_z_extend(self.builder, bit, llvm::i64_type(self.context), name) {
            Some(w) => Ok(llvm::int_value_basic(w)),
            None => Err(call_failed("build_int_z_extend", "Failed to extend a test result")),
        }
    }

    fn string_pointer(&self, v: BasicValueEnum<'ctx>) -> (r: Result<inkwell::values::PointerValue<'ctx>, CodegenError>)
        ensures
            r matches Err(e) ==> e is LLVMError,
    {
        match llvm::basic_as_pointer(v) {
            Some(p) => Ok(p),
            None => Err(call_failed("into_pointer_value", "a string is a pointer")),
        }
    }

    /// The length field of a runtime string.
    fn string_length(&self, v: BasicValueEnum<'ctx>) -> (r: Result<IntValue<'ctx>, CodegenError>)
        ensures
            r matches Err(e) ==> e is LLVMError,
    {
        let p = self.string_pointer(v)?;
        let layout = llvm::pointer_to(llvm::struct_type_basic(self.get_string_type()));
        let typed = match llvm::build_pointer_cast(self.builder, p, layout, "str_struct") {
            Some(t) => t,
            None => return Err(call_failed("build_pointer_cast", "Failed to type a string pointer")),
        };
        let len_ptr = match llvm::build_struct_gep(self.builder, typed, 1, "str_len_ptr") {
            Some(l) => l,
            None => return Err(call_failed("build_struct_gep", "Failed to get string len ptr for bool()")),
        };
        match llvm::build_load(self.builder, len_ptr, self.i64_basic(), "str_len").0 {
            Some(v) => match llvm::basic_as_int(v) {
                Some(i) => Ok(i),
                None => Err(call_failed("into_int_value", "a length is an integer")),
            },
            None => Err(call_failed("build_load", "Failed to load string length for bool()")),
        }
    }

    /// C's `atoi` or `atof` of a runtime string's text.
    fn parse_number(&self, v: BasicValueEnum<'ctx>, ints: bool) -> (r: Result<BasicValueEnum<'ctx>, CodegenError>)
        ensures
            r matches Err(e) ==> e is LLVMError || e is MissingValue,
    {
        let p = self.string_pointer(v)?;
        let text = self.string_data(p)?;
        let ptr = llvm::pointer_type_basic(self.ptr_type());
        let params = vec![ptr];
        let (name, ret) = if ints {
            ("atoi", llvm::int_type_basic(llvm::i32_type(self.context)))
        } else {
            ("atof", llvm::float_type_basic(llvm::f64_type(self.context)))
        };
        let ty = llvm::basic_fn_type(ret, params.as_slice(), false);
        let f = self.runtime_function(name, ty, llvm::LinkageKind::External);
        let args = vec![text];
        let call = match llvm::build_call(self.builder, f, &args, if ints { "atoi_result" } else { "atof_result" }).0 {
            Some(c) => c,
            None => return Err(call_failed("build_call", if ints { "Failed to call atoi" } else { "Failed to call atof" })),
        };
        let result = match call {
            Some(v) => v,
            None => {
                return Err(CodegenError::MissingValue {
                    what: String::from_str(if ints { "atoi result" } else { "atof result" }),
                    context: String::from_str(if ints { "int() conversion" } else { "float() conversion" }),
                });
            },
        };
        if !ints {
            return Ok(result);
        }
        let narrow = match llvm::basic_as_int(result) {
            Some(i) => i,
            None => return Err(call_failed("into_int_value", "atoi returns an integer")),
        };
        match llvm::build_int_s_extend(self.builder, narrow, llvm::i64_type(self.context), "int_extend") {
            Some(w) => Ok(llvm::int_value_basic(w)),
            None => Err(call_failed("build_int_s_extend", "Failed to extend i32 to i64")),
        }
    }

    fn float_of(&self, v: BasicValueEnum<'ctx>, t: &BrixType, name: &str) -> (r: Result<FloatValue<'ctx>, CodegenError>)
        ensures
            r matches Err(e) ==> e is LLVMError,
    {
        if matches!(t, BrixType::Int) {
            let i = match llvm::basic_as_int(v) {
                Some(i) => i,
                None => return Err(call_failed("into_int_value", "an int is an integer")),
            };
            match llvm::build_signed_int_to_float(self.builder, i, llvm::f64_type(self.context), name) {
                Some(f) => Ok(f),
                None => Err(call_failed("build_signed_int_to_float", "Failed to convert int to float")),
            }
        } else {
            match llvm::basic_as_float(v) {
                Some(f) => Ok(f),
                None => Err(call_failed("into_float_value", "a number is a float")),
            }
        }
    }

    fn complex_part(&self, v: BasicValueEnum<'ctx>, index: u32, name: &str) -> (r: Result<BasicValueEnum<'ctx>, CodegenError>)
        ensures
            r matches Err(e) ==> e is LLVMError,
    {
        let s: StructValue<'ctx> = match llvm::basic_as_struct(v) {
            Some(s) => s,
            None => return Err(call_failed("into_struct_value", "a complex number is a struct")),
        };
        match llvm::build_extract_value(self.builder, s, index, name) {
            Some(p) => Ok(p),
            None => Err(call_failed("build_extract_value", if index == 0 { "Failed to extract real part" } else { "Failed to extract imaginary part" })),
        }
    }

    /// The value of built-in `b`, called as `name`, of its compiled
    /// arguments (as many as it takes): a conversion, a type test, the
    /// text of `typeof`, a new error, or a complex number's function. The
    /// value has the built-in's type; an argument of a type it does not
    /// accept is a type error, and a type test the type decides is that
    /// constant.
    pub fn emit_builtin(&self, b: Builtin, name: &str, args: &Vec<(BasicValueEnum<'ctx>, BrixType)>) -> (r: Result<(BasicValueEnum<'ctx>, BrixType), CodegenError>)
        requires
            spec_builtin_of(name@) == Some(b),
            args@.len() == spec_arity(b),
        ensures
            r matches Ok((_, t)) ==> t@ == spec_builtin_result(b),
            !spec_accepts(b, args@[0].1@) && !(b is Typeof) ==> (r matches Err(CodegenError::TypeError { context, .. })
                && context@ == spec_type_context(b, name@)),
            b is Typeof && args@[0].1@ is Optional ==> r is Err,
    {
        let (v, t) = (args[0].0, &args[0].1);
        let i64_ty = llvm::i64_type(self.context);
        match b {
            Builtin::Typeof => {
                if matches!(t, BrixType::Optional(_)) {
                    return Err(CodegenError::General { message: String::from_str("Optional type should have been converted to Union") });
                }
                let text = typeof_text(t);
                let g = match llvm::build_global_string_ptr(self.builder, text.as_str(), "str_lit").0 {
                    Some(g) => g,
                    None => return Err(call_failed("build_global_string_ptr", "Failed to create the text of typeof")),
                };
                let s = self.str_new(llvm::pointer_value_basic(llvm::global_pointer(g)), "str_new_lit")?;
                Ok((s, BrixType::String))
            },
            Builtin::ToInt => {
                let r = match t {
                    BrixType::Int => v,
                    BrixType::Float => {
                        let f = match llvm::basic_as_float(v) {
                            Some(f) => f,
                            None => return Err(call_failed("into_float_value", "a float is a float")),
                        };
                        match llvm::build_float_to_signed_int(self.builder, f, i64_ty, "float_to_int") {
                            Some(i) => llvm::int_value_basic(i),
                            None => return Err(call_failed("build_float_to_signed_int", "Failed to convert float to int")),
                        }
                    },
                    BrixType::String => self.parse_number(v, true)?,
                    _ => {
                        return Err(CodegenError::TypeError {
                            expected: Found::Text(String::from_str("int-convertible type (Int, Float, Boolean)")),
                            found: Found::Text(debug_text(t)),
                            context: String::from_str("int() conversion"),
                        });
                    },
                };
                Ok((r, BrixType::Int))
            },
            Builtin::ToFloat => {
                let r = match t {
                    BrixType::Float => v,
                    BrixType::Int => llvm::float_value_basic(self.float_of(v, t, "int_to_float")?),
                    BrixType::String => self.parse_number(v, false)?,
                    _ => {
                        return Err(CodegenError::TypeError {
                            expected: Found::Text(String::from_str("float-convertible type (Int, Float, String)")),
                            found: Found::Text(debug_text(t)),
                            context: String::from_str("float() conversion"),
                        });
                    },
                };
                Ok((r, BrixType::Float))
            },
            Builtin::ToString => {
                if !is_stringifiable(t, self.current_function.is_some()) {
                    return Err(CodegenError::MissingValue {
                        what: String::from_str("value_to_string conversion"),
                        context: debug_text(t),
                    });
                }
                let s = self.value_to_string(v, t, None).0?;
                Ok((s, BrixType::String))
            },
            Builtin::ToBool => {
                let bit = match t {
                    BrixType::Int => {
                        let i = match llvm::basic_as_int(v) {
                            Some(i) => i,
                            None => return Err(call_failed("into_int_value", "an int is an integer")),
                        };
                        llvm::build_int_compare(self.builder, IntPredicate::NE, i, llvm::const_int(i64_ty, 0, false).0, "int_to_bool").0
                    },
                    BrixType::Float => {
                        let f = match llvm::basic_as_float(v) {
                            Some(f) => f,
                            None => return Err(call_failed("into_float_value", "a float is a float")),
                        };
                        let zero = llvm::float_zero(llvm::f64_type(self.context));
                        llvm::build_float_compare(self.builder, FloatPredicate::ONE, f, zero, "float_to_bool").0
                    },
                    BrixType::String => {
                        let len = self.string_length(v)?;
                        llvm::build_int_compare(self.builder, IntPredicate::SGT, len, llvm::const_int(i64_ty, 0, false).0, "str_to_bool").0
                    },
                    _ => {
                        return Err(CodegenError::TypeError {
                            expected: Found::Text(String::from_str("Int, Float, or String")),
                            found: Found::Text(debug_text(t)),
                            context: String::from_str("bool() conversion"),
                        });
                    },
                };
                let bit = match bit {
                    Some(b) => b,
                    None => return Err(call_failed("build_int_compare", "Failed to compare for bool()")),
                };
                Ok((self.widen_bit(bit, "bool_extend")?, BrixType::Int))
            },
            Builtin::IsNil | Builtin::IsAtom | Builtin::IsBoolean | Builtin::IsInteger | Builtin::IsFloat | Builtin::IsNumber
            | Builtin::IsString | Builtin::IsList | Builtin::IsTuple | Builtin::IsFunction => {
                if let Some(answer) = type_test_answer(b, t) {
                    return Ok((self.one_or_zero(answer), BrixType::Int));
                }
                if matches!(b, Builtin::IsNil) {
                    let p = self.string_pointer(v)?;
                    let bit = match llvm::build_is_null(self.builder, p, "is_nil_cmp") {
                        Some(b) => b,
                        None => return Err(call_failed("build_int_compare", "Failed to compare pointer for is_nil()")),
                    };
                    return Ok((self.widen_bit(bit, "is_nil_result")?, BrixType::Int));
                }
                let i = match llvm::basic_as_int(v) {
                    Some(i) => i,
                    None => return Err(call_failed("into_int_value", "an int is an integer")),
                };
                let zero = llvm::build_int_compare(self.builder, IntPredicate::EQ, i, llvm::const_int(i64_ty, 0, false).0, "is_zero").0;
                let one = llvm::build_int_compare(self.builder, IntPredicate::EQ, i, llvm::const_int(i64_ty, 1, false).0, "is_one").0;
                let (zero, one) = match (zero, one) {
                    (Some(z), Some(o)) => (z, o),
                    _ => return Err(call_failed("build_int_compare", "Failed to compare for is_boolean()")),
                };
                let either = match llvm::build_or(self.builder, zero, one, "is_bool_or").0 {
                    Some(e) => e,
                    None => return Err(call_failed("build_or", "Failed to OR for is_boolean()")),
                };
                Ok((self.widen_bit(either, "is_bool_result")?, BrixType::Int))
            },
            Builtin::Error => {
                if !matches!(t, BrixType::String) {
                    let mut context = String::from_str(name);
                    context.append("()");
                    return Err(CodegenError::TypeError {
                        expected: Found::Text(String::from_str("String")),
                        found: Found::Text(debug_text(t)),
                        context,
                    });
                }
                let p = self.string_pointer(v)?;
                let text = self.string_data(p)?;
                let params = vec![llvm::pointer_type_basic(self.ptr_type())];
                let f = self.string_runtime("brix_error_new", &params);
                let args = vec![text];
                let call = match llvm::build_call(self.builder, f, &args, "error_new").0 {
                    Some(c) => c,
                    None => return Err(call_failed("build_call", "Failed to call brix_error_new()")),
                };
                match call {
                    Some(e) => Ok((e, BrixType::Error)),
                    None => Err(CodegenError::MissingValue {
                        what: String::from_str("return value"),
                        context: String::from_str("brix_error_new()"),
                    }),
                }
            },
            Builtin::Complex => {
                let (im_val, im_type) = (args[1].0, &args[1].1);
                let re = self.float_of(v, t, "re_to_float")?;
                let im = self.float_of(im_val, im_type, "im_to_float")?;
                let f64_ty = llvm::float_type_basic(llvm::f64_type(self.context));
                let fields = vec![f64_ty, f64_ty];
                let layout = llvm::struct_type(self.context, &fields, false);
                let with_re = match llvm::build_insert_value(self.builder, llvm::struct_undef(layout), llvm::float_value_basic(re), 0, "real").0 {
                    Some(s) => s,
                    None => return Err(call_failed("build_insert_value", "Failed to insert real part for complex()")),
                };
                match llvm::build_insert_value(self.builder, with_re, llvm::float_value_basic(im), 1, "imag").0 {
                    Some(z) => Ok((llvm::struct_value_basic(z), BrixType::Complex)),
                    None => Err(call_failed("build_insert_value", "Failed to insert imag part for complex()")),
                }
            },
            Builtin::Real | Builtin::Imag | Builtin::ComplexToComplex | Builtin::ComplexToFloat => {
                if !matches!(t, BrixType::Complex) {
                    let mut context = String::from_str(name);
                    context.append("()");
                    return Err(CodegenError::TypeError {
                        expected: Found::Text(String::from_str("Complex")),
                        found: Found::Text(debug_text(t)),
                        context,
                    });
                }
                match b {
                    Builtin::Real => Ok((self.complex_part(v, 0, "real_part")?, BrixType::Float)),
                    Builtin::Imag => Ok((self.complex_part(v, 1, "imag_part")?, BrixType::Float)),
                    _ => {
                        let to_complex = matches!(b, Builtin::ComplexToComplex);
                        let f64_ty = llvm::float_type_basic(llvm::f64_type(self.context));
                        let fields = vec![f64_ty, f64_ty];
                        let complex = llvm::struct_type_basic(llvm::struct_type(self.context, &fields, false));
                        let ret = if to_complex { complex } else { f64_ty };
                        let params = vec![complex];
                        let ty = llvm::basic_fn_type(ret, params.as_slice(), false);
                        let mut runtime = String::from_str("complex_");
                        runtime.append(name);
                        let f = self.runtime_function(runtime.as_str(), ty, llvm::LinkageKind::External);
                        let mut call_name = String::from_str(name);
                        call_name.append("_result");
                        let call_args = vec![v];
                        let call = match llvm::build_call(self.builder, f, &call_args, call_name.as_str()).0 {
                            Some(c) => c,
                            None => {
                                let mut details = String::from_str("Failed to call ");
                                details.append(runtime.as_str());
                                return Err(CodegenError::LLVMError { operation: String::from_str("build_call"), details });
                            },
                        };
                        match call {
                            Some(r) => Ok((r, if to_complex { BrixType::Complex } else { BrixType::Float })),
                            None => {
                                let mut what = runtime;
                                what.append(" return value");
                                Err(CodegenError::MissingValue {
                                    what,
                                    context: String::from_str(if to_complex { "complex function call" } else { "complex to float function call" }),
                                })
                            },
                        }
                    },
                }
            },
        }
    }

    /// A call of a built-in function `name` whose arguments `sc` compiles:
    /// `None` when `name` is not one of these built-ins; otherwise the
    /// number of arguments is checked first, then the arguments are
    /// compiled in order and the built-in emitted.
    pub fn compile_builtin_call<S, C: StatementCompiler<'a, 'ctx, E, D, S>>(
        &mut self,
        sc: &mut C,
        name: &str,
        args: &[E],
    ) -> (r: Option<Result<(BasicValueEnum<'ctx>, BrixType), CodegenError>>)
        ensures
            r is None <==> spec_builtin_of(name@) is None,
            spec_builtin_of(name@) matches Some(b) ==> (args@.len() != spec_arity(b) ==> (r matches Some(Err(e)) && arity_reported(
                e,
                b,
                name@,
                args@.len() as nat,
            ))),
            spec_builtin_of(name@) matches Some(b) ==> (r matches Some(Ok((_, t))) ==> t@ == spec_builtin_result(b)),
    {
        let b = match builtin_of(name) {
            Some(b) => b,
            None => return None,
        };
        let arity: usize = if matches!(b, Builtin::Complex) { 2 } else { 1 };
        if args.len() != arity {
            return Some(Err(arity_error(b, name, args.len())));
        }
        let mut compiled: Vec<(BasicValueEnum<'ctx>, BrixType)> = Vec::new();
        let mut i: usize = 0;
        while i < arity
            invariant
                i <= arity,
                arity == args@.len(),
                arity == spec_arity(b),
                spec_builtin_of(name@) == Some(b),
                compiled@.len() == i,
            decreases arity - i,
        {
            match sc.compile_expr(self, &args[i]) {
                Ok(c) => compiled.push(c),
                Err(e) => return Some(Err(e)),
            }
            i = i + 1;
        }
        Some(self.emit_builtin(b, name, &compiled))
    }
}

} // verus!
