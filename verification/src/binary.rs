//! Binary and unary expressions: the plan `ops` chooses for the operand
//! types, emitted as instructions and runtime calls.

use vstd::prelude::*;
use inkwell::types::BasicTypeEnum;
use inkwell::values::{BasicValueEnum, FloatValue, IntValue, StructValue};
use inkwell::basic_block::BasicBlock;
use crate::types::{BrixType, TypeModel, lemma_models_of};
use crate::compiler::{Compiler, CodegenError, Found, StatementCompiler};
use crate::ops::{BinaryOp, UnaryOp, BinaryPlan, BinaryError, UnaryPlan, MatrixFamily, ComplexOperand, NilCheck, ElvisValue, IntPredicate, plan_binary, spec_plan_binary, spec_plan_result, plan_unary, spec_plan_unary, spec_int_lowering, spec_float_lowering, matrix_fn_name, complex_fn_name, complex_pow_name};
use crate::format::debug_text;
use crate::llvm::{self, Record, CallRecord, IncomingRecord, ConstRecord, Emitted};
use crate::emit::{int_op_emits, float_op_emits, int_op_calls, float_op_calls};

verus! {

/// The name of an operator in error reports.
pub open spec fn spec_op_name(op: BinaryOp) -> Seq<char> {
    match op {
        BinaryOp::Add => "Add"@,
        BinaryOp::Sub => "Sub"@,
        BinaryOp::Mul => "Mul"@,
        BinaryOp::Div => "Div"@,
        BinaryOp::Mod => "Mod"@,
        BinaryOp::Pow => "Pow"@,
        BinaryOp::Eq => "Eq"@,
        BinaryOp::NotEq => "NotEq"@,
        BinaryOp::Lt => "Lt"@,
        BinaryOp::LtEq => "LtEq"@,
        BinaryOp::Gt => "Gt"@,
        BinaryOp::GtEq => "GtEq"@,
        BinaryOp::LogicalAnd => "LogicalAnd"@,
        BinaryOp::LogicalOr => "LogicalOr"@,
        BinaryOp::BitAnd => "BitAnd"@,
        BinaryOp::BitOr => "BitOr"@,
        BinaryOp::BitXor => "BitXor"@,
        BinaryOp::Elvis => "Elvis"@,
    }
}

/// The name of an operator in error reports.
pub fn op_name(op: BinaryOp) -> (r: &'static str)
    ensures
        r@ == spec_op_name(op),
{
    match op {
        BinaryOp::Add => "Add",
        BinaryOp::Sub => "Sub",
        BinaryOp::Mul => "Mul",
        BinaryOp::Div => "Div",
        BinaryOp::Mod => "Mod",
        BinaryOp::Pow => "Pow",
        BinaryOp::Eq => "Eq",
        BinaryOp::NotEq => "NotEq",
        BinaryOp::Lt => "Lt",
        BinaryOp::LtEq => "LtEq",
        BinaryOp::Gt => "Gt",
        BinaryOp::GtEq => "GtEq",
        BinaryOp::LogicalAnd => "LogicalAnd",
        BinaryOp::LogicalOr => "LogicalOr",
        BinaryOp::BitAnd => "BitAnd",
        BinaryOp::BitOr => "BitOr",
        BinaryOp::BitXor => "BitXor",
        BinaryOp::Elvis => "Elvis",
    }
}

/// The operation an invalid-operation report names for an operator the
/// operand types do not allow.
pub open spec fn spec_refused_operation(e: BinaryError, op: BinaryOp) -> Seq<char> {
    match e {
        BinaryError::ScalarMatrixOperator => "scalar "@ + spec_op_name(op) + " Matrix"@,
        BinaryError::ScalarIntMatrixOperator => "scalar "@ + spec_op_name(op) + " IntMatrix"@,
        _ => spec_op_name(op),
    }
}

/// The reason an invalid-operation report gives.
pub open spec fn spec_refusal_reason(e: BinaryError) -> Seq<char> {
    match e {
        BinaryError::ScalarMatrixOperator => "Mod and Pow operations not supported for scalar-matrix"@,
        BinaryError::ScalarIntMatrixOperator => "Div, Mod, and Pow operations not supported for scalar-intmatrix"@,
        BinaryError::ComplexOperator => "Operator not supported for complex numbers"@,
        BinaryError::StringOperator => "Only + and == are supported for strings"@,
        BinaryError::UnsupportedFloatOperator => "unsupported float operation"@,
        BinaryError::UnsupportedIntOperator => "unsupported integer operation"@,
        BinaryError::NonNumericOperands => "numeric operands"@,
    }
}

/// `x` is the report of `e` for operator `op`: operands that are not
/// numbers are a type error naming the operator, every other refusal an
/// invalid operation with its reason.
pub open spec fn reports(x: CodegenError, e: BinaryError, op: BinaryOp) -> bool {
    if e is NonNumericOperands {
        x matches CodegenError::TypeError { expected: Found::Text(ex), context, .. } && ex@ == "Int or Float"@
            && context@ == "Binary operation "@ + spec_op_name(op) + " requires numeric operands"@
    } else {
        x matches CodegenError::InvalidOperation { operation, reason } && operation@ == spec_refused_operation(e, op)
            && reason@ == spec_refusal_reason(e)
    }
}

/// The report of a refused binary expression.
pub fn binary_error(e: BinaryError, op: BinaryOp, l: &BrixType, r: &BrixType) -> (x: CodegenError)
    ensures
        reports(x, e, op),
{
    let name = op_name(op);
    match e {
        BinaryError::NonNumericOperands => {
            let mut found = debug_text(l);
            found.append(" and ");
            let rt = debug_text(r);
            found.append(rt.as_str());
            let mut context = String::from_str("Binary operation ");
            context.append(name);
            context.append(" requires numeric operands");
            CodegenError::TypeError { expected: Found::Text(String::from_str("Int or Float")), found: Found::Text(found), context }
        },
        _ => {
            let operation = match e {
                BinaryError::ScalarMatrixOperator => {
                    let mut s = String::from_str("scalar ");
                    s.append(name);
                    s.append(" Matrix");
                    s
                },
                BinaryError::ScalarIntMatrixOperator => {
                    let mut s = String::from_str("scalar ");
                    s.append(name);
                    s.append(" IntMatrix");
                    s
                },
                _ => String::from_str(name),
            };
            let reason = match e {
                BinaryError::ScalarMatrixOperator => "Mod and Pow operations not supported for scalar-matrix",
                BinaryError::ScalarIntMatrixOperator => "Div, Mod, and Pow operations not supported for scalar-intmatrix",
                BinaryError::ComplexOperator => "Operator not supported for complex numbers",
                BinaryError::StringOperator => "Only + and == are supported for strings",
                BinaryError::UnsupportedFloatOperator => "unsupported float operation",
                BinaryError::UnsupportedIntOperator => "unsupported integer operation",
                BinaryError::NonNumericOperands => "numeric operands",
            };
            CodegenError::InvalidOperation { operation, reason: String::from_str(reason) }
        },
    }
}

/// A failure of the emission of a planned expression: LLVM refused an
/// instruction, a call produced no value, or an arithmetic instruction
/// could not be built (reported as the original generator does, as an
/// unsupported operation).
/// What the arithmetic of a binary plan asked for: for integer arithmetic
/// the instructions and runtime calls of its lowering on the two operands
/// themselves; for floating-point arithmetic those of its lowering on two
/// float operands (an `int` operand converted first). Other plans: nothing
/// is said here.
pub open spec fn arith_emitted<'ctx>(
    p: BinaryPlan,
    lhs: BasicValueEnum<'ctx>,
    rhs: BasicValueEnum<'ctx>,
    recs: Seq<Record<'ctx>>,
    calls: Seq<CallRecord<'ctx>>,
) -> bool {
    match p {
        BinaryPlan::IntArith { int_lowering } => int_op_calls(int_lowering, calls) && exists|a: IntValue<'ctx>, b: IntValue<'ctx>|
            #[trigger] int_op_emits(int_lowering, a, b, llvm::emitted_of(recs)) && llvm::int_value_as_basic(a) == lhs
                && llvm::int_value_as_basic(b) == rhs,
        BinaryPlan::FloatArith { float_lowering, .. } => float_op_calls(float_lowering, calls) && exists|
            a: FloatValue<'ctx>,
            b: FloatValue<'ctx>,
        | #[trigger] float_op_emits(float_lowering, a, b, llvm::emitted_of(recs)),
        _ => true,
    }
}

pub open spec fn emission_trouble(e: CodegenError) -> bool {
    ||| e is LLVMError
    ||| e is MissingValue
    ||| e matches CodegenError::InvalidOperation { reason, .. } && (reason@ == "unsupported float operation"@
        || reason@ == "unsupported integer operation"@)
}

fn op_failed(operation: &str, details: &str) -> (e: CodegenError)
    ensures
        e is LLVMError,
{
    CodegenError::LLVMError { operation: String::from_str(operation), details: String::from_str(details) }
}

fn no_result(what: &str, context: &str) -> (e: CodegenError)
    ensures
        e is MissingValue,
{
    CodegenError::MissingValue { what: String::from_str(what), context: String::from_str(context) }
}

impl<'a, 'ctx, E, D> Compiler<'a, 'ctx, E, D> {
    /// A call of the runtime function `name` with type `ret(params)`,
    /// returning its value; `missing` names the value in the report when the
    /// call produces none.
    fn runtime_call(
        &self,
        name: &str,
        ret: BasicTypeEnum<'ctx>,
        params: &Vec<BasicTypeEnum<'ctx>>,
        args: &Vec<BasicValueEnum<'ctx>>,
        call_name: &str,
        missing: &str,
        context: &str,
    ) -> (r: Result<BasicValueEnum<'ctx>, CodegenError>)
        ensures
            r matches Err(e) ==> e is LLVMError || e is MissingValue,
    {
        let ty = llvm::basic_fn_type(ret, params.as_slice(), false);
        let f = self.runtime_function(name, ty, llvm::LinkageKind::External);
        let call = match llvm::build_call(self.builder, f, args.as_slice(), call_name).0 {
            Some(c) => c,
            None => {
                let mut details = String::from_str("Failed to call ");
                details.append(name);
                return Err(CodegenError::LLVMError { operation: String::from_str("build_call"), details });
            },
        };
        match call {
            Some(v) => Ok(v),
            None => Err(no_result(missing, context)),
        }
    }

    fn as_int(&self, v: BasicValueEnum<'ctx>) -> (r: Result<IntValue<'ctx>, CodegenError>)
        ensures
            r matches Err(e) ==> e is LLVMError,
            r matches Ok(i) ==> llvm::int_value_as_basic(i) == v,
    {
        match llvm::basic_as_int(v) {
            Some(i) => Ok(i),
            None => Err(op_failed("into_int_value", "an integer operand")),
        }
    }

    fn as_float(&self, v: BasicValueEnum<'ctx>) -> (r: Result<FloatValue<'ctx>, CodegenError>)
        ensures
            r matches Err(e) ==> e is LLVMError,
    {
        match llvm::basic_as_float(v) {
            Some(f) => Ok(f),
            None => Err(op_failed("into_float_value", "a float operand")),
        }
    }

    fn as_struct(&self, v: BasicValueEnum<'ctx>) -> (r: Result<StructValue<'ctx>, CodegenError>)
        ensures
            r matches Err(e) ==> e is LLVMError,
    {
        match llvm::basic_as_struct(v) {
            Some(s) => Ok(s),
            None => Err(op_failed("into_struct_value", "a struct operand")),
        }
    }

    /// An integer value converted to `f64`.
    fn int_to_float(&self, v: BasicValueEnum<'ctx>, name: &str) -> (r: Result<FloatValue<'ctx>, CodegenError>)
        ensures
            r matches Err(e) ==> e is LLVMError,
    {
        let i = self.as_int(v)?;
        match llvm::build_signed_int_to_float(self.builder, i, llvm::f64_type(self.context), name) {
            Some(f) => Ok(f),
            None => Err(op_failed("build_signed_int_to_float", "Failed to convert int to float")),
        }
    }

    /// The complex number `{ re, im }`.
    fn make_complex(&self, re: FloatValue<'ctx>, im: FloatValue<'ctx>, re_name: &str, im_name: &str) -> (r: Result<StructValue<'ctx>, CodegenError>)
        ensures
            r matches Err(e) ==> e is LLVMError,
    {
        let f64_ty = llvm::float_type_basic(llvm::f64_type(self.context));
        let fields = vec![f64_ty, f64_ty];
        let ty = llvm::struct_type(self.context, &fields, false);
        let with_re = match llvm::build_insert_value(self.builder, llvm::struct_undef(ty), llvm::float_value_basic(re), 0, re_name).0 {
            Some(s) => s,
            None => return Err(op_failed("build_insert_value", "Failed to insert real part into complex")),
        };
        match llvm::build_insert_value(self.builder, with_re, llvm::float_value_basic(im), 1, im_name).0 {
            Some(s) => Ok(s),
            None => Err(op_failed("build_insert_value", "Failed to insert imag part into complex")),
        }
    }

    /// An operand brought to a complex number: as it is, or as the real
    /// part of a number with imaginary part zero.
    fn to_complex(&self, v: BasicValueEnum<'ctx>, how: ComplexOperand) -> (r: Result<StructValue<'ctx>, CodegenError>)
        ensures
            r matches Err(e) ==> e is LLVMError,
    {
        let re = match how {
            ComplexOperand::Complex => return self.as_struct(v),
            ComplexOperand::IntReal => self.int_to_float(v, "int_to_float")?,
            ComplexOperand::FloatReal => self.as_float(v)?,
        };
        let zero = llvm::float_zero(llvm::f64_type(self.context));
        self.make_complex(re, zero, "real", "imag")
    }

    /// `0`/`1` of a comparison, widened from `i1` to `i64`.
    fn widen(&self, bit: IntValue<'ctx>, name: &str) -> (r: Result<BasicValueEnum<'ctx>, CodegenError>)
        ensures
            r matches Err(e) ==> e is LLVMError,
    {
        match llvm::build_int_z_extend(self.builder, bit, llvm::i64_type(self.context), name) {
            Some(w) => Ok(llvm::int_value_basic(w)),
            None => Err(op_failed("build_int_z_extend", "Failed to extend comparison result")),
        }
    }

    /// The instructions of a matrix runtime call.
    fn emit_matrix_call(
        &self,
        family: MatrixFamily,
        op: BinaryOp,
        promote_lhs: bool,
        promote_rhs: bool,
        swap_args: bool,
        int_scalar: bool,
        lhs: BasicValueEnum<'ctx>,
        rhs: BasicValueEnum<'ctx>,
    ) -> (r: Result<BasicValueEnum<'ctx>, CodegenError>)
        ensures
            r matches Err(e) ==> e is LLVMError || e is MissingValue,
    {
        let ptr = llvm::pointer_type_basic(self.ptr_type());
        let f64_ty = llvm::float_type_basic(llvm::f64_type(self.context));
        let i64_ty = llvm::int_type_basic(llvm::i64_type(self.context));
        let one_ptr = vec![ptr];
        let lhs = if promote_lhs {
            let args = vec![lhs];
            self.runtime_call("intmatrix_to_matrix", ptr, &one_ptr, &args, "promote_lhs", "promoted matrix value", "IntMatrix promotion lhs")?
        } else {
            lhs
        };
        let rhs = if promote_rhs {
            let args = vec![rhs];
            self.runtime_call("intmatrix_to_matrix", ptr, &one_ptr, &args, "promote_rhs", "promoted matrix value", "IntMatrix promotion rhs")?
        } else {
            rhs
        };
        let name = matrix_fn_name(family, op);
        match family {
            MatrixFamily::MatrixScalar => {
                let (matrix, scalar) = if swap_args { (rhs, lhs) } else { (lhs, rhs) };
                let scalar = if int_scalar {
                    llvm::float_value_basic(self.int_to_float(scalar, "int_to_float")?)
                } else {
                    scalar
                };
                let params = vec![ptr, f64_ty];
                let args = vec![matrix, scalar];
                let call_name = if swap_args { "scalar_matrix_op" } else { "matrix_op" };
                self.runtime_call(name.as_str(), ptr, &params, &args, call_name, "matrix op result", "Matrix op scalar")
            },
            MatrixFamily::ScalarMatrix => {
                let scalar = if int_scalar {
                    llvm::float_value_basic(self.int_to_float(lhs, "int_to_float")?)
                } else {
                    lhs
                };
                let params = vec![f64_ty, ptr];
                let args = vec![scalar, rhs];
                self.runtime_call(name.as_str(), ptr, &params, &args, "scalar_matrix_op", "scalar-matrix op result", "scalar op Matrix")
            },
            MatrixFamily::MatrixMatrix => {
                let params = vec![ptr, ptr];
                let args = vec![lhs, rhs];
                self.runtime_call(name.as_str(), ptr, &params, &args, "matrix_matrix_op", "matrix-matrix op result", "Matrix op Matrix")
            },
            MatrixFamily::IntMatrixScalar => {
                let (matrix, scalar) = if swap_args { (rhs, lhs) } else { (lhs, rhs) };
                let params = vec![ptr, i64_ty];
                let args = vec![matrix, scalar];
                let call_name = if swap_args { "scalar_intmatrix_op" } else { "intmatrix_op" };
                self.runtime_call(name.as_str(), ptr, &params, &args, call_name, "intmatrix op result", "IntMatrix op Int")
            },
            MatrixFamily::ScalarIntMatrix => {
                let params = vec![i64_ty, ptr];
                let args = vec![lhs, rhs];
                self.runtime_call(name.as_str(), ptr, &params, &args, "scalar_intmatrix_op", "scalar-intmatrix op result", "Int op IntMatrix")
            },
            MatrixFamily::IntMatrixIntMatrix => {
                let params = vec![ptr, ptr];
                let args = vec![lhs, rhs];
                self.runtime_call(name.as_str(), ptr, &params, &args, "intmatrix_intmatrix_op", "intmatrix-intmatrix op result", "IntMatrix op IntMatrix")
            },
        }
    }

    /// `lhs op rhs` of two compiled operands, for every operator but `?:`,
    /// `&&` and `||` (whose right operand is compiled only when needed):
    /// the plan for the operand types is emitted, and the value comes with
    /// the type the plan gives. An operator the types do not allow is
    /// refused with the report of the plan's refusal. For arithmetic on
    /// numbers the records list the instructions and the runtime calls
    /// asked for.
    pub fn emit_binary(
        &self,
        op: BinaryOp,
        lhs: BasicValueEnum<'ctx>,
        lhs_type: &BrixType,
        rhs: BasicValueEnum<'ctx>,
        rhs_type: &BrixType,
    ) -> (r: (Result<(BasicValueEnum<'ctx>, BrixType), CodegenError>, Vec<Record<'ctx>>, Vec<CallRecord<'ctx>>))
        requires
            !(op is Elvis || op is LogicalAnd || op is LogicalOr),
        ensures
            spec_plan_binary(op, lhs_type@, rhs_type@) matches Err(e) ==> (r.0 matches Err(x) && reports(x, e, op)),
            r.0 matches Ok((_, t)) ==> (spec_plan_binary(op, lhs_type@, rhs_type@) matches Ok(p) && t@ == spec_plan_result(
                p,
                lhs_type@,
            )),
            spec_plan_binary(op, lhs_type@, rhs_type@) is Ok ==> (r.0 matches Err(e) ==> emission_trouble(e)),
            r.0 is Ok ==> (spec_plan_binary(op, lhs_type@, rhs_type@) matches Ok(p) && arith_emitted(p, lhs, rhs, r.1@, r.2@)),
    {
        let plan = match plan_binary(op, lhs_type, rhs_type) {
            Ok(p) => p,
            Err(e) => return (Err(binary_error(e, op, lhs_type, rhs_type)), Vec::new(), Vec::new()),
        };
        match plan {
            BinaryPlan::FloatArith { float_lowering, int_lhs, int_rhs } => {
                let none: Vec<Record<'ctx>> = Vec::new();
                let l = if int_lhs { self.int_to_float(lhs, "cast_l") } else { self.as_float(lhs) };
                let l = match l {
                    Ok(l) => l,
                    Err(e) => return (Err(e), none, Vec::new()),
                };
                let r = if int_rhs { self.int_to_float(rhs, "cast_r") } else { self.as_float(rhs) };
                let r = match r {
                    Ok(r) => r,
                    Err(e) => return (Err(e), none, Vec::new()),
                };
                let (v, records, calls) = self.compile_float_op(op, l, r);
                let v = match v {
                    Some(v) => v,
                    None => {
                        return (Err(CodegenError::InvalidOperation {
                            operation: String::from_str(op_name(op)),
                            reason: String::from_str("unsupported float operation"),
                        }), none, Vec::new());
                    },
                };
                let t = if matches!(float_lowering, crate::ops::FloatLowering::Compare(_)) {
                    BrixType::Int
                } else {
                    BrixType::Float
                };
                proof {
                    let lw = spec_float_lowering(op)->0;
                    assert(float_op_emits(lw, l, r, llvm::emitted_of(records@)));
                }
                (Ok((v, t)), records, calls)
            },
            BinaryPlan::IntArith { .. } => {
                let none: Vec<Record<'ctx>> = Vec::new();
                let l = match self.as_int(lhs) {
                    Ok(l) => l,
                    Err(e) => return (Err(e), none, Vec::new()),
                };
                let r = match self.as_int(rhs) {
                    Ok(r) => r,
                    Err(e) => return (Err(e), none, Vec::new()),
                };
                let (v, records, calls) = self.compile_int_op(op, l, r);
                match v {
                    Some(v) => {
                        proof {
                            let lw = spec_int_lowering(op)->0;
                            assert(int_op_emits(lw, l, r, llvm::emitted_of(records@)));
                        }
                        (Ok((v, BrixType::Int)), records, calls)
                    },
                    None => (Err(CodegenError::InvalidOperation {
                        operation: String::from_str(op_name(op)),
                        reason: String::from_str("unsupported integer operation"),
                    }), none, Vec::new()),
                }
            },
            _ => (self.emit_plan(op, plan, lhs, lhs_type, rhs, rhs_type), Vec::new(), Vec::new()),
        }
    }

    /// The emission of a plan other than arithmetic on numbers.
    fn emit_plan(
        &self,
        op: BinaryOp,
        plan: BinaryPlan,
        lhs: BasicValueEnum<'ctx>,
        lhs_type: &BrixType,
        rhs: BasicValueEnum<'ctx>,
        rhs_type: &BrixType,
    ) -> (r: Result<(BasicValueEnum<'ctx>, BrixType), CodegenError>)
        requires
            !(op is Elvis || op is LogicalAnd || op is LogicalOr),
            spec_plan_binary(op, lhs_type@, rhs_type@) == Ok::<BinaryPlan, BinaryError>(plan),
            !(plan is IntArith || plan is FloatArith),
        ensures
            r matches Ok((_, t)) ==> t@ == spec_plan_result(plan, lhs_type@),
            r matches Err(e) ==> emission_trouble(e),
    {
        let ptr = llvm::pointer_type_basic(self.ptr_type());
        let i64_ty = llvm::i64_type(self.context);
        match plan {
            BinaryPlan::MatrixCall { family, op, promote_lhs, promote_rhs, swap_args, int_scalar } => {
                let v = self.emit_matrix_call(family, op, promote_lhs, promote_rhs, swap_args, int_scalar, lhs, rhs)?;
                let t = match family {
                    MatrixFamily::MatrixScalar | MatrixFamily::ScalarMatrix | MatrixFamily::MatrixMatrix => BrixType::Matrix,
                    _ => BrixType::IntMatrix,
                };
                Ok((v, t))
            },
            BinaryPlan::UnionNilCompare { union_on_left, nil_index, is_eq } => {
                let u = self.as_struct(if union_on_left { lhs } else { rhs })?;
                let tag = match llvm::build_extract_value(self.builder, u, 0, "extract_tag") {
                    Some(t) => self.as_int(t)?,
                    None => return Err(op_failed("build_extract_value", "Failed to extract tag from union")),
                };
                let nil_tag = llvm::const_int(i64_ty, nil_index as u64, false).0;
                let pred = if is_eq { IntPredicate::EQ } else { IntPredicate::NE };
                let bit = match llvm::build_int_compare(self.builder, pred, tag, nil_tag, "union_nil_cmp").0 {
                    Some(b) => b,
                    None => return Err(op_failed("build_int_compare", "Failed to compare Union tag with nil")),
                };
                Ok((self.widen(bit, "union_nil_cmp_ext")?, BrixType::Int))
            },
            BinaryPlan::PointerNilCompare { nil_on_left, is_eq } => {
                let p = match llvm::basic_as_pointer(if nil_on_left { rhs } else { lhs }) {
                    Some(p) => p,
                    None => return Err(op_failed("into_pointer_value", "a value compared with nil is a pointer")),
                };
                let bit = if is_eq {
                    llvm::build_is_null(self.builder, p, "nil_cmp")
                } else {
                    llvm::build_is_not_null(self.builder, p, "nil_cmp")
                };
                let bit = match bit {
                    Some(b) => b,
                    None => return Err(op_failed("build_int_compare", "Failed to compare with nil")),
                };
                Ok((self.widen(bit, "nil_cmp_ext")?, BrixType::Int))
            },
            BinaryPlan::ComplexLiteral { int_real, negate_imag } => {
                let z = self.as_struct(rhs)?;
                let imag = match llvm::build_extract_value(self.builder, z, 1, "rhs_imag") {
                    Some(v) => self.as_float(v)?,
                    None => return Err(op_failed("build_extract_value", "Failed to extract imag part from complex rhs")),
                };
                let re_part = if int_real { self.int_to_float(lhs, "lhs_to_float")? } else { self.as_float(lhs)? };
                let imag = if negate_imag {
                    match llvm::build_float_neg(self.builder, imag, "neg_imag") {
                        Some(n) => n,
                        None => return Err(op_failed("build_float_neg", "Failed to negate imaginary part")),
                    }
                } else {
                    imag
                };
                let c = self.make_complex(re_part, imag, "complex_real", "complex_full")?;
                Ok((llvm::struct_value_basic(c), BrixType::Complex))
            },
            BinaryPlan::ComplexPow { exponent } => {
                let complex = llvm::struct_type_basic(self.complex_layout());
                let exp_ty = match exponent {
                    crate::ops::PowExponent::Int => llvm::int_type_basic(i64_ty),
                    crate::ops::PowExponent::Float => llvm::float_type_basic(llvm::f64_type(self.context)),
                    crate::ops::PowExponent::Complex => complex,
                };
                let base = self.as_struct(lhs)?;
                let name = complex_pow_name(exponent);
                let params = vec![complex, exp_ty];
                let args = vec![llvm::struct_value_basic(base), rhs];
                let v = self.runtime_call(name, complex, &params, &args, name, "complex power result", "Complex power")?;
                Ok((v, BrixType::Complex))
            },
            BinaryPlan::ComplexCall { op, lhs: lhow, rhs: rhow } => {
                let l = self.to_complex(lhs, lhow)?;
                let r = self.to_complex(rhs, rhow)?;
                let complex = llvm::struct_type_basic(self.complex_layout());
                let name = complex_fn_name(op);
                let params = vec![complex, complex];
                let args = vec![llvm::struct_value_basic(l), llvm::struct_value_basic(r)];
                let v = self.runtime_call(name.as_str(), complex, &params, &args, "complex_op", "complex op result", "Complex arithmetic")?;
                Ok((v, BrixType::Complex))
            },
            BinaryPlan::StringConcat => {
                let params = vec![ptr, ptr];
                let args = vec![lhs, rhs];
                let v = self.runtime_call("str_concat", ptr, &params, &args, "str_add", "str_concat result", "String concatenation")?;
                Ok((v, BrixType::String))
            },
            BinaryPlan::StringEq => {
                let params = vec![ptr, ptr];
                let args = vec![lhs, rhs];
                let v = self.runtime_call("str_eq", llvm::int_type_basic(i64_ty), &params, &args, "str_eq_call", "str_eq result", "String equality")?;
                Ok((v, BrixType::Int))
            },
            BinaryPlan::FloatArith { .. } | BinaryPlan::IntArith { .. } => {
                Err(op_failed("binary", "arithmetic on numbers is emitted by emit_binary"))
            },
            BinaryPlan::Elvis { .. } | BinaryPlan::ShortCircuitAnd | BinaryPlan::ShortCircuitOr => {
                Err(op_failed("binary", "short-circuit operators are compiled with their operands"))
            },
        }
    }

    /// The layout of a complex number: `{ re: f64, im: f64 }`.
    fn complex_layout(&self) -> inkwell::types::StructType<'ctx> {
        let f64_ty = llvm::float_type_basic(llvm::f64_type(self.context));
        let fields = vec![f64_ty, f64_ty];
        llvm::struct_type(self.context, &fields, false)
    }

    /// `op operand` of a compiled operand: `!x` is `1` when `x` is zero
    /// (a float first converted to an integer), else `0`; `-x` negates an
    /// `int` or a `float`. Negating anything else is a type error.
    pub fn emit_unary(&self, op: UnaryOp, val: BasicValueEnum<'ctx>, ty: &BrixType) -> (r: Result<(BasicValueEnum<'ctx>, BrixType), CodegenError>)
        ensures
            spec_plan_unary(op, ty@) is None ==> (r matches Err(CodegenError::TypeError { expected: Found::Text(ex), found: Found::Type(t), context })
                && ex@ == "Int or Float"@ && t@ == ty@ && context@ == "Unary negation"@),
            r matches Ok((_, t)) ==> (op is Not ==> t@ is Int) && (op is Negate ==> t@ == ty@),
            spec_plan_unary(op, ty@) is Some ==> (r matches Err(e) ==> e is LLVMError),
    {
        match plan_unary(op, ty) {
            Some(UnaryPlan::Not { float_operand }) => {
                let i64_ty = llvm::i64_type(self.context);
                let i = if float_operand {
                    let f = self.as_float(val)?;
                    match llvm::build_float_to_signed_int(self.builder, f, i64_ty, "f2i") {
                        Some(i) => i,
                        None => return Err(op_failed("build_float_to_signed_int", "Failed to convert float to int for NOT")),
                    }
                } else {
                    self.as_int(val)?
                };
                let is_zero = match llvm::build_int_compare(self.builder, IntPredicate::EQ, i, llvm::const_int(i64_ty, 0, false).0, "is_zero").0 {
                    Some(b) => b,
                    None => return Err(op_failed("build_int_compare", "Failed to compare for NOT")),
                };
                match llvm::build_int_z_extend(self.builder, is_zero, i64_ty, "not_result") {
                    Some(w) => Ok((llvm::int_value_basic(w), BrixType::Int)),
                    None => Err(op_failed("build_int_z_extend", "Failed to extend NOT result to i64")),
                }
            },
            Some(UnaryPlan::NegateInt) => {
                let i = self.as_int(val)?;
                match llvm::build_int_neg(self.builder, i, "neg_int") {
                    Some(n) => Ok((llvm::int_value_basic(n), BrixType::Int)),
                    None => Err(op_failed("build_int_neg", "Failed to negate integer")),
                }
            },
            Some(UnaryPlan::NegateFloat) => {
                let f = self.as_float(val)?;
                match llvm::build_float_neg(self.builder, f, "neg_float") {
                    Some(n) => Ok((llvm::float_value_basic(n), BrixType::Float)),
                    None => Err(op_failed("build_float_neg", "Failed to negate float")),
                }
            },
            None => Err(CodegenError::TypeError {
                expected: Found::Text(String::from_str("Int or Float")),
                found: Found::Type(ty.copy()),
                context: String::from_str("Unary negation"),
            }),
        }
    }
}

impl<'a, 'ctx, E, D> Compiler<'a, 'ctx, E, D> {
    /// The current function, as the parent of the current block.
    fn parent_function(&self) -> (r: Result<inkwell::values::FunctionValue<'ctx>, CodegenError>)
        ensures
            r matches Err(e) ==> e is LLVMError,
    {
        let here = match llvm::get_insert_block(self.builder) {
            Some(b) => b,
            None => return Err(op_failed("get_insert_block", "No current block")),
        };
        match llvm::block_parent(here) {
            Some(f) => Ok(f),
            None => Err(op_failed("get_parent", "Block has no parent function")),
        }
    }

    /// The first part of `lhs ?: rhs`, the left operand compiled: a branch
    /// on whether it is `nil` (a union's tag is its `nil` member's index, a
    /// reference-counted value is null, `nil` always is, any other value
    /// never is) to a block producing the left value (a union's payload as
    /// its first member that is not `nil`) and a block for the right
    /// operand. The blocks (left, right, merge), the left value and the
    /// result's type, which is the plan's.
    pub fn elvis_split(&self, lhs: BasicValueEnum<'ctx>, lhs_type: &BrixType) -> (r: Result<
        (BasicBlock<'ctx>, BasicBlock<'ctx>, BasicBlock<'ctx>, BasicValueEnum<'ctx>, BrixType),
        CodegenError,
    >)
        ensures
            r matches Ok((_, _, _, _, t)) ==> (spec_plan_binary(BinaryOp::Elvis, lhs_type@, lhs_type@) matches Ok(p)
                && t@ == spec_plan_result(p, lhs_type@)),
            r matches Err(e) ==> e is LLVMError,
    {
        let (check, value) = match plan_binary(BinaryOp::Elvis, lhs_type, lhs_type) {
            Ok(BinaryPlan::Elvis { check, value }) => (check, value),
            _ => return Err(op_failed("binary", "the plan of ?: is a nil test")),
        };
        let parent = self.parent_function()?;
        let lhs_bb = llvm::append_basic_block(self.context, parent, "elvis_lhs");
        let rhs_bb = llvm::append_basic_block(self.context, parent, "elvis_rhs");
        let merge_bb = llvm::append_basic_block(self.context, parent, "elvis_merge");
        let bool_ty = llvm::bool_type(self.context);
        let is_nil = match check {
            NilCheck::UnionTag(i) => {
                let u = self.as_struct(lhs)?;
                let tag = match llvm::build_extract_value(self.builder, u, 0, "extract_tag") {
                    Some(t) => self.as_int(t)?,
                    None => return Err(op_failed("build_extract_value", "Failed to extract tag from union in Elvis")),
                };
                let nil_tag = llvm::const_int(llvm::i64_type(self.context), i as u64, false).0;
                match llvm::build_int_compare(self.builder, IntPredicate::EQ, tag, nil_tag, "is_nil").0 {
                    Some(b) => b,
                    None => return Err(op_failed("build_int_compare", "Failed to compare tag with nil in Elvis")),
                }
            },
            NilCheck::NullPointer => {
                let p = match llvm::basic_as_pointer(lhs) {
                    Some(p) => p,
                    None => return Err(op_failed("into_pointer_value", "a reference-counted value is a pointer")),
                };
                match llvm::build_is_null(self.builder, p, "is_nil") {
                    Some(b) => b,
                    None => return Err(op_failed("build_is_null", "Failed to check null in Elvis")),
                }
            },
            NilCheck::AlwaysNil => llvm::const_int(bool_ty, 1, false).0,
            NilCheck::NeverNil => llvm::const_int(bool_ty, 0, false).0,
        };
        if !llvm::build_conditional_branch(self.builder, is_nil, rhs_bb, lhs_bb) {
            return Err(op_failed("build_conditional_branch", "Failed to branch in Elvis"));
        }
        llvm::position_at_end(self.builder, lhs_bb);
        let (left, result_type) = match value {
            ElvisValue::Whole => (lhs, lhs_type.copy()),
            ElvisValue::Member(i) => {
                let u = self.as_struct(lhs)?;
                let inner = match llvm::build_extract_value(self.builder, u, 1, "extract_value") {
                    Some(v) => v,
                    None => return Err(op_failed("build_extract_value", "Failed to extract value from union in Elvis")),
                };
                match lhs_type {
                    BrixType::Union(ms) => {
                        proof {
                            lemma_models_of(ms@);
                        }
                        if i < ms.len() {
                            (inner, ms[i].copy())
                        } else {
                            return Err(op_failed("build_extract_value", "the member index lies in the union"));
                        }
                    },
                    _ => return Err(op_failed("build_extract_value", "only a union has members")),
                }
            },
            ElvisValue::NilPayload => {
                let u = self.as_struct(lhs)?;
                match llvm::build_extract_value(self.builder, u, 1, "extract_value") {
                    Some(v) => (v, BrixType::Nil),
                    None => return Err(op_failed("build_extract_value", "Failed to extract value from union in Elvis")),
                }
            },
        };
        if !llvm::build_unconditional_branch(self.builder, merge_bb) {
            return Err(op_failed("build_unconditional_branch", "Failed to branch to merge in Elvis lhs"));
        }
        Ok((lhs_bb, rhs_bb, merge_bb, left, result_type))
    }

    /// The end of a two-way branch: the current block (where the second
    /// value was computed) branches to `merge`, where a phi of type `ty`
    /// takes `first` from `first_block` and `second` from where the second
    /// branch ended.
    fn merge_two(
        &self,
        first: BasicValueEnum<'ctx>,
        first_block: BasicBlock<'ctx>,
        second: BasicValueEnum<'ctx>,
        merge: BasicBlock<'ctx>,
        ty: BasicTypeEnum<'ctx>,
        name: &str,
    ) -> (r: (Result<BasicValueEnum<'ctx>, CodegenError>, Vec<IncomingRecord<'ctx>>))
        ensures
            r.0 matches Err(e) ==> e is LLVMError,
            r.0 is Ok ==> (r.1@.len() == 2 && r.1@[0].incoming_value() == first && r.1@[0].incoming_block() == first_block
                && r.1@[1].incoming_value() == second),
    {
        if !llvm::build_unconditional_branch(self.builder, merge) {
            return (Err(op_failed("build_unconditional_branch", "Failed to branch to merge")), Vec::new());
        }
        let second_block = match llvm::get_insert_block(self.builder) {
            Some(b) => b,
            None => return (Err(op_failed("get_insert_block", "No block after the second branch")), Vec::new()),
        };
        llvm::position_at_end(self.builder, merge);
        let phi = match llvm::build_phi(self.builder, ty, name) {
            Some(p) => p,
            None => return (Err(op_failed("build_phi", "Failed to build PHI")), Vec::new()),
        };
        let from_first = llvm::phi_add_incoming(phi, first, first_block);
        let from_second = llvm::phi_add_incoming(phi, second, second_block);
        (Ok(llvm::phi_value(phi)), vec![from_first, from_second])
    }

    /// The end of `lhs && rhs` (`and`) or `lhs || rhs`, the right operand
    /// compiled to `rhs`: a phi in `merge` of `i64` takes the constant that
    /// decided the result without the right operand (0 for `&&`, 1 for
    /// `||`) from `entry`, and the right operand's value itself, not
    /// normalised to 0 or 1, from where it was computed. The records are
    /// the phi's incoming values and the constant.
    pub fn logic_merge(
        &self,
        rhs: BasicValueEnum<'ctx>,
        and: bool,
        entry: BasicBlock<'ctx>,
        merge: BasicBlock<'ctx>,
    ) -> (r: (Result<BasicValueEnum<'ctx>, CodegenError>, Vec<IncomingRecord<'ctx>>, Option<ConstRecord<'ctx>>))
        ensures
            r.0 matches Err(e) ==> e is LLVMError,
            r.0 is Ok ==> (r.2 matches Some(k) && k.asked() == (if and { 0u64 } else { 1u64 }) && r.1@.len() == 2
                && r.1@[0].incoming_value() == llvm::int_value_as_basic(k.constant()) && r.1@[0].incoming_block() == entry
                && r.1@[1].incoming_value() == rhs),
    {
        let r = match self.as_int(rhs) {
            Ok(r) => r,
            Err(e) => return (Err(e), Vec::new(), None),
        };
        let i64_ty = llvm::i64_type(self.context);
        let (decided, decided_record) = llvm::const_int(i64_ty, if and { 0 } else { 1 }, false);
        let (v, incoming) = self.merge_two(
            llvm::int_value_basic(decided),
            entry,
            llvm::int_value_basic(r),
            merge,
            llvm::int_type_basic(i64_ty),
            "logic_result",
        );
        match v {
            Ok(v) => (Ok(v), incoming, Some(decided_record)),
            Err(e) => (Err(e), Vec::new(), None),
        }
    }

    /// The first part of `lhs && rhs` (`and`) or `lhs || rhs`: the left
    /// value compared with zero, and a branch to the right operand's block
    /// only when it does not decide the result. The entry block, the right
    /// operand's block and the merge block.
    pub fn logic_split(&self, lhs: BasicValueEnum<'ctx>, and: bool) -> (r: (
        Result<(BasicBlock<'ctx>, BasicBlock<'ctx>, BasicBlock<'ctx>), CodegenError>,
        Option<(Record<'ctx>, ConstRecord<'ctx>)>,
    ))
        ensures
            r.0 matches Err(e) ==> e is LLVMError,
            r.0 is Ok ==> (r.1 matches Some((test, zero)) && zero.asked() == 0 && (test.emitted() matches Emitted::IntCompare(
                IntPredicate::NE,
                l,
                z,
            ) && llvm::int_value_as_basic(l) == lhs && z == zero.constant())),
    {
        let l = match self.as_int(lhs) {
            Ok(l) => l,
            Err(e) => return (Err(e), None),
        };
        let parent = match self.parent_function() {
            Ok(p) => p,
            Err(e) => return (Err(e), None),
        };
        let rhs_bb = llvm::append_basic_block(self.context, parent, "logic_rhs");
        let merge_bb = llvm::append_basic_block(self.context, parent, "logic_merge");
        let entry = match llvm::get_insert_block(self.builder) {
            Some(b) => b,
            None => return (Err(op_failed("get_insert_block", "No current block for logical entry")), None),
        };
        let (zero, zero_record) = llvm::const_int(llvm::i64_type(self.context), 0, false);
        let (truth, test) = llvm::build_int_compare(self.builder, IntPredicate::NE, l, zero, "tobool");
        let truth = match truth {
            Some(b) => b,
            None => return (Err(op_failed("build_int_compare", "Failed to compare for a logical operator")), None),
        };
        let branched = if and {
            llvm::build_conditional_branch(self.builder, truth, rhs_bb, merge_bb)
        } else {
            llvm::build_conditional_branch(self.builder, truth, merge_bb, rhs_bb)
        };
        if !branched {
            return (Err(op_failed("build_conditional_branch", "Failed to branch for a logical operator")), None);
        }
        llvm::position_at_end(self.builder, rhs_bb);
        (Ok((entry, rhs_bb, merge_bb)), Some((test, zero_record)))
    }

    /// A binary expression whose operands `sc` compiles: `?:` compiles its
    /// right operand only where the left one is `nil`, `&&` only where the
    /// left one is true and `||` only where it is false, the result then
    /// chosen by a phi; every other operator compiles both operands, left
    /// first, and emits the plan for their types.
    pub fn compile_binary_expr<S, C: StatementCompiler<'a, 'ctx, E, D, S>>(
        &mut self,
        sc: &mut C,
        op: BinaryOp,
        lhs: &E,
        rhs: &E,
    ) -> (r: Result<(BasicValueEnum<'ctx>, BrixType), CodegenError>)
        ensures
            (op is LogicalAnd || op is LogicalOr) ==> (r matches Ok((_, t)) ==> t@ is Int),
            !(op is Elvis || op is LogicalAnd || op is LogicalOr) ==> (r matches Ok((_, t)) ==> exists|lt: TypeModel, rt: TypeModel|
                #[trigger] spec_plan_binary(op, lt, rt) matches Ok(p) && t@ == spec_plan_result(p, lt)),
    {
        match op {
            BinaryOp::Elvis => {
                let (lv, lt) = sc.compile_expr(self, lhs)?;
                let (lhs_bb, rhs_bb, merge_bb, left, result_type) = self.elvis_split(lv, &lt)?;
                llvm::position_at_end(self.builder, rhs_bb);
                let (rv, _) = sc.compile_expr(self, rhs)?;
                let ty = match self.try_brix_type_to_llvm(&result_type) {
                    Some(t) => t,
                    None => return Err(op_failed("build_phi", "The result of ?: has no LLVM type")),
                };
                let v = self.merge_two(left, lhs_bb, rv, merge_bb, ty, "elvis_result").0?;
                Ok((v, result_type))
            },
            BinaryOp::LogicalAnd | BinaryOp::LogicalOr => {
                let and = matches!(op, BinaryOp::LogicalAnd);
                let (lv, _) = sc.compile_expr(self, lhs)?;
                let (entry, _, merge_bb) = self.logic_split(lv, and).0?;
                let (rv, _) = sc.compile_expr(self, rhs)?;
                let v = self.logic_merge(rv, and, entry, merge_bb).0?;
                Ok((v, BrixType::Int))
            },
            _ => {
                let (lv, lt) = sc.compile_expr(self, lhs)?;
                let (rv, rt) = sc.compile_expr(self, rhs)?;
                let r = self.emit_binary(op, lv, &lt, rv, &rt).0;
                proof {
                    if r is Ok {
                        assert(spec_plan_binary(op, lt@, rt@) is Ok);
                    }
                }
                r
            },
        }
    }

    /// A unary expression whose operand `sc` compiles.
    pub fn compile_unary_expr<S, C: StatementCompiler<'a, 'ctx, E, D, S>>(
        &mut self,
        sc: &mut C,
        op: UnaryOp,
        operand: &E,
    ) -> (r: Result<(BasicValueEnum<'ctx>, BrixType), CodegenError>)
        ensures
            r matches Ok((_, t)) ==> (op is Not ==> t@ is Int) && (op is Negate ==> (t@ is Int || t@ is Float)),
    {
        let (v, t) = sc.compile_expr(self, operand)?;
        self.emit_unary(op, v, &t)
    }
}

} // verus!
