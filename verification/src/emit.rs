//! Emitting instructions: arithmetic and comparisons on scalar values, the
//! runtime's struct layouts, string constants and runtime declarations.

use vstd::prelude::*;
use inkwell::types::{StructType, PointerType, BasicTypeEnum};
use inkwell::values::{IntValue, FloatValue, PointerValue, BasicValueEnum, FunctionValue};
use crate::ops::{BinaryOp, IntPredicate, FloatPredicate, IntLowering, FloatLowering, int_lowering, float_lowering, spec_int_lowering, spec_float_lowering};
use crate::compiler::{Compiler, CodegenError};
use crate::llvm::{self, LinkageKind, Emitted, IntInstr, FloatInstr, Signature, Callable, Record, CallRecord};

verus! {

/// The arithmetic and comparison instructions `lhs op rhs` on integers asks
/// for, by its lowering: the one instruction of the operator; for division
/// and remainder the comparison of the divisor with zero first; for a
/// comparison the comparison; none for `**`, which converts and calls
/// `llvm.pow.f64`.
pub open spec fn int_op_emits<'ctx>(l: IntLowering, lhs: IntValue<'ctx>, rhs: IntValue<'ctx>, s: Seq<Emitted<'ctx>>) -> bool {
    match l {
        IntLowering::Add => s == seq![Emitted::Int(IntInstr::Add, lhs, rhs)],
        IntLowering::Sub => s == seq![Emitted::Int(IntInstr::Sub, lhs, rhs)],
        IntLowering::Mul => s == seq![Emitted::Int(IntInstr::Mul, lhs, rhs)],
        IntLowering::CheckedSignedDiv => s.len() == 2 && (s[0] matches Emitted::IntCompare(IntPredicate::EQ, d, _) && d == rhs)
            && s[1] == Emitted::Int(IntInstr::SignedDiv, lhs, rhs),
        IntLowering::CheckedSignedRem => s.len() == 2 && (s[0] matches Emitted::IntCompare(IntPredicate::EQ, d, _) && d == rhs)
            && s[1] == Emitted::Int(IntInstr::SignedRem, lhs, rhs),
        IntLowering::Compare(p) => s == seq![Emitted::IntCompare(p, lhs, rhs)],
        IntLowering::And => s == seq![Emitted::Int(IntInstr::And, lhs, rhs)],
        IntLowering::Or => s == seq![Emitted::Int(IntInstr::Or, lhs, rhs)],
        IntLowering::Xor => s == seq![Emitted::Int(IntInstr::Xor, lhs, rhs)],
        IntLowering::PowViaFloat => s.len() == 0,
    }
}

/// The arithmetic and comparison instructions `lhs op rhs` on floats asks
/// for, by its lowering: the one instruction of the operator, or the
/// comparison; none for `**`, a call of `llvm.pow.f64`.
pub open spec fn float_op_emits<'ctx>(l: FloatLowering, lhs: FloatValue<'ctx>, rhs: FloatValue<'ctx>, s: Seq<Emitted<'ctx>>) -> bool {
    match l {
        FloatLowering::Add => s == seq![Emitted::Float(FloatInstr::Add, lhs, rhs)],
        FloatLowering::Sub => s == seq![Emitted::Float(FloatInstr::Sub, lhs, rhs)],
        FloatLowering::Mul => s == seq![Emitted::Float(FloatInstr::Mul, lhs, rhs)],
        FloatLowering::Div => s == seq![Emitted::Float(FloatInstr::Div, lhs, rhs)],
        FloatLowering::Rem => s == seq![Emitted::Float(FloatInstr::Rem, lhs, rhs)],
        FloatLowering::Compare(p) => s == seq![Emitted::FloatCompare(p, lhs, rhs)],
        FloatLowering::Pow => s.len() == 0,
    }
}

/// The runtime calls `lhs op rhs` on integers asks for, by its lowering:
/// the division-by-zero handler, with no argument, on the zero branch of a
/// division or remainder; `llvm.pow.f64` with two arguments for `**`; none
/// otherwise.
pub open spec fn int_op_calls<'ctx>(l: IntLowering, calls: Seq<CallRecord<'ctx>>) -> bool {
    match l {
        IntLowering::CheckedSignedDiv => calls.len() == 1 && calls[0].callee_name() == "brix_division_by_zero_error"@
            && calls[0].arguments().len() == 0,
        IntLowering::CheckedSignedRem => calls.len() == 1 && calls[0].callee_name() == "brix_division_by_zero_error"@
            && calls[0].arguments().len() == 0,
        IntLowering::PowViaFloat => calls.len() == 1 && calls[0].callee_name() == "llvm.pow.f64"@ && calls[0].arguments().len()
            == 2,
        _ => calls.len() == 0,
    }
}

/// The runtime calls `lhs op rhs` on floats asks for: `llvm.pow.f64` with
/// two arguments for `**`, none otherwise.
pub open spec fn float_op_calls<'ctx>(l: FloatLowering, calls: Seq<CallRecord<'ctx>>) -> bool {
    match l {
        FloatLowering::Pow => calls.len() == 1 && calls[0].callee_name() == "llvm.pow.f64"@ && calls[0].arguments().len() == 2,
        _ => calls.len() == 0,
    }
}

impl<'a, 'ctx, E, D> Compiler<'a, 'ctx, E, D> {
    /// The opaque pointer type (`i8*`) that stands for every heap value.
    pub fn ptr_type(&self) -> (r: PointerType<'ctx>)
        ensures
            r == self.opaque_ptr,
    {
        self.opaque_ptr
    }

    /// `i64` as a basic type.
    pub fn i64_basic(&self) -> (r: BasicTypeEnum<'ctx>)
        ensures
            r == llvm::int_as_basic(llvm::context_i64(self.context)),
    {
        llvm::int_type_basic(llvm::i64_type(self.context))
    }

    /// `double` as a basic type.
    pub fn f64_basic(&self) -> (r: BasicTypeEnum<'ctx>)
        ensures
            r == llvm::float_as_basic(llvm::context_f64(self.context)),
    {
        llvm::float_type_basic(llvm::f64_type(self.context))
    }

    /// The opaque pointer type as a basic type.
    pub fn ptr_basic(&self) -> (r: BasicTypeEnum<'ctx>)
        ensures
            r == llvm::pointer_as_basic(self.opaque_ptr),
    {
        llvm::pointer_type_basic(self.ptr_type())
    }

    /// The function `name` of the module, declared with type `ty` and the
    /// given linkage if the module does not have it yet.
    pub fn runtime_function(&self, name: &str, ty: Signature<'ctx>, linkage: LinkageKind) -> (r: Callable<'ctx>)
        ensures
            r.callee_name() == name@,
    {
        let function = match llvm::get_function(self.module, name) {
            Some(f) => f,
            None => llvm::add_function(self.module, name, ty, linkage),
        };
        llvm::callable(function, ty, name)
    }

    /// How a function found in the module is called: by the signature it
    /// was defined with when this compiler defined it under `name`;
    /// otherwise by one made from the return type its declaration prints
    /// (`void`, `i1`, `i8`, `i32`, `i64`, `double`, or a pointer, taken as
    /// `i8*`) and the types of the arguments. `None` for any other return
    /// type.
    pub fn declared_callable(&self, name: &str, f: FunctionValue<'ctx>, args: &[BasicValueEnum<'ctx>]) -> (r: Option<Callable<'ctx>>)
        ensures
            r matches Some(c) ==> c.callee() == f && c.callee_name() == name@,
    {
        if let Some(sig) = self.signatures.get(name) {
            return Some(llvm::callable(f, *sig, name));
        }
        let text = crate::text::chars_of(llvm::function_type_text(f).as_str());
        let open = crate::text::chars_of(" (");
        let end = match crate::text::find_chars(&text, &open, 0) {
            Some(k) => k,
            None => return None,
        };
        proof {
            crate::text::lemma_find_from(text@, open@, 0);
        }
        let ret = crate::text::sub_chars(&text, 0, end);
        let mut params: Vec<BasicTypeEnum<'ctx>> = Vec::new();
        let mut i: usize = 0;
        while i < args.len()
            invariant
                i <= args@.len(),
            decreases args@.len() - i,
        {
            params.push(llvm::value_type(args[i]));
            i = i + 1;
        }
        let ret_type = if crate::text::chars_equal(&ret, "void") {
            None
        } else if crate::text::chars_equal(&ret, "i64") {
            Some(self.i64_basic())
        } else if crate::text::chars_equal(&ret, "i32") {
            Some(llvm::int_type_basic(llvm::i32_type(self.context)))
        } else if crate::text::chars_equal(&ret, "i8") {
            Some(llvm::int_type_basic(llvm::i8_type(self.context)))
        } else if crate::text::chars_equal(&ret, "i1") {
            Some(llvm::int_type_basic(llvm::bool_type(self.context)))
        } else if crate::text::chars_equal(&ret, "double") {
            Some(self.f64_basic())
        } else if ret.len() > 0 && ret[ret.len() - 1] == '*' {
            Some(self.ptr_basic())
        } else {
            return None;
        };
        let signature = match ret_type {
            Some(t) => llvm::basic_fn_type(t, &params, false),
            None => llvm::void_fn_type(llvm::void_type(self.context), &params, false),
        };
        Some(llvm::callable(f, signature, name))
    }

    /// The `llvm.pow.f64` intrinsic.
    fn pow_intrinsic(&self) -> (r: Callable<'ctx>)
        ensures
            r.callee_name() == "llvm.pow.f64"@,
    {
        let f64_ty = llvm::float_type_basic(llvm::f64_type(self.context));
        let params = vec![f64_ty, f64_ty];
        let ty = llvm::basic_fn_type(f64_ty, &params, false);
        self.runtime_function("llvm.pow.f64", ty, LinkageKind::Unspecified)
    }

    /// Branches on `divisor == 0`: the zero branch calls the runtime's
    /// division-by-zero handler and ends unreachable; the builder is left
    /// at the start of the other branch. The record is the comparison of
    /// the divisor with zero.
    fn emit_zero_divisor_check(&self, divisor: IntValue<'ctx>, check_name: &str, error_block: &str, ok_block: &str) -> (r: (Option<()>, Record<'ctx>, Option<CallRecord<'ctx>>))
        ensures
            r.0 is Some ==> (r.2 matches Some(c) && c.callee_name() == "brix_division_by_zero_error"@ && c.arguments().len()
                == 0),
            r.1.emitted() matches Emitted::IntCompare(IntPredicate::EQ, d, _) && d == divisor,
    {
        let zero = llvm::const_int(llvm::i64_type(self.context), 0, false).0;
        let (compared, check) = llvm::build_int_compare(self.builder, IntPredicate::EQ, divisor, zero, check_name);
        let is_zero = match compared {
            Some(c) => c,
            None => return (None, check, None),
        };
        let here = match llvm::get_insert_block(self.builder) {
            Some(h) => h,
            None => return (None, check, None),
        };
        let parent = match llvm::block_parent(here) {
            Some(p) => p,
            None => return (None, check, None),
        };
        let then_block = llvm::append_basic_block(self.context, parent, error_block);
        let else_block = llvm::append_basic_block(self.context, parent, ok_block);
        if !llvm::build_conditional_branch(self.builder, is_zero, then_block, else_block) {
            return (None, check, None);
        }
        llvm::position_at_end(self.builder, then_block);
        let no_params: Vec<BasicTypeEnum<'ctx>> = Vec::new();
        let handler_ty = llvm::void_fn_type(llvm::void_type(self.context), &no_params, false);
        let handler = self.runtime_function("brix_division_by_zero_error", handler_ty, LinkageKind::External);
        let no_args: Vec<BasicValueEnum<'ctx>> = Vec::new();
        let (handled, handler_call) = llvm::build_call(self.builder, handler, &no_args, "");
        if handled.is_none() {
            return (None, check, None);
        }
        if !llvm::build_unreachable(self.builder) {
            return (None, check, None);
        }
        llvm::position_at_end(self.builder, else_block);
        (Some(()), check, Some(handler_call))
    }

    /// A signed integer comparison, widened from `i1` to `i64`; the record
    /// is the comparison.
    pub fn compile_cmp(&self, pred: IntPredicate, lhs: IntValue<'ctx>, rhs: IntValue<'ctx>) -> (r: (Option<BasicValueEnum<'ctx>>, Record<'ctx>))
        ensures
            r.1.emitted() == Emitted::IntCompare(pred, lhs, rhs),
    {
        let (bit, asked) = llvm::build_int_compare(self.builder, pred, lhs, rhs, "tmp_cmp");
        let bit = match bit {
            Some(b) => b,
            None => return (None, asked),
        };
        match llvm::build_int_z_extend(self.builder, bit, llvm::i64_type(self.context), "bool_to_int") {
            Some(wide) => (Some(llvm::int_value_basic(wide)), asked),
            None => (None, asked),
        }
    }

    /// An ordered floating-point comparison, widened from `i1` to `i64`;
    /// the record is the comparison.
    pub fn compile_float_cmp(&self, pred: FloatPredicate, lhs: FloatValue<'ctx>, rhs: FloatValue<'ctx>) -> (r: (Option<BasicValueEnum<'ctx>>, Record<'ctx>))
        ensures
            r.1.emitted() == Emitted::FloatCompare(pred, lhs, rhs),
    {
        let (bit, asked) = llvm::build_float_compare(self.builder, pred, lhs, rhs, "tmp_fcmp");
        let bit = match bit {
            Some(b) => b,
            None => return (None, asked),
        };
        match llvm::build_int_z_extend(self.builder, bit, llvm::i64_type(self.context), "bool_to_int") {
            Some(wide) => (Some(llvm::int_value_basic(wide)), asked),
            None => (None, asked),
        }
    }

    /// The instructions of `lhs op rhs` on two `int` values. Division and
    /// remainder first check the divisor against zero at run time; `**`
    /// goes through `llvm.pow.f64`. `None` for an operator with no integer
    /// form, or where LLVM refuses an instruction. The records list the
    /// arithmetic and comparison instructions asked for, in order (see
    /// `int_op_emits`), and the runtime calls (see `int_op_calls`).
    pub fn compile_int_op(&self, op: BinaryOp, lhs: IntValue<'ctx>, rhs: IntValue<'ctx>) -> (r: (Option<BasicValueEnum<'ctx>>, Vec<Record<'ctx>>, Vec<CallRecord<'ctx>>))
        ensures
            spec_int_lowering(op) is None ==> r.0 is None,
            r.0 is Some ==> (spec_int_lowering(op) matches Some(l) && int_op_emits(l, lhs, rhs, llvm::emitted_of(r.1@))),
            r.0 is Some ==> (spec_int_lowering(op) matches Some(l) && int_op_calls(l, r.2@)),
    {
        let lowering = match int_lowering(op) {
            Some(l) => l,
            None => {
                let record: Vec<Record<'ctx>> = Vec::new();
                return (None, record, Vec::new());
            },
        };
        match lowering {
            IntLowering::CheckedSignedDiv => self.checked_int_op(true, lhs, rhs),
            IntLowering::CheckedSignedRem => self.checked_int_op(false, lhs, rhs),
            IntLowering::Compare(pred) => {
                let (v, asked) = self.compile_cmp(pred, lhs, rhs);
                let record = vec![asked];
                assert(llvm::emitted_of(record@) =~= seq![record@[0].emitted()]);
                (v, record, Vec::new())
            },
            IntLowering::PowViaFloat => {
                let (v, pow_call) = self.int_pow(lhs, rhs);
                let record: Vec<Record<'ctx>> = Vec::new();
                assert(llvm::emitted_of(record@).len() == 0);
                let calls = match pow_call {
                    Some(c) => vec![c],
                    None => Vec::new(),
                };
                (v, record, calls)
            },
            _ => self.int_instruction(lowering, lhs, rhs),
        }
    }

    /// The one instruction of an integer operator lowered to one.
    fn int_instruction(&self, lowering: IntLowering, lhs: IntValue<'ctx>, rhs: IntValue<'ctx>) -> (r: (Option<BasicValueEnum<'ctx>>, Vec<Record<'ctx>>, Vec<CallRecord<'ctx>>))
        requires
            lowering is Add || lowering is Sub || lowering is Mul || lowering is And || lowering is Or || lowering is Xor,
        ensures
            int_op_emits(lowering, lhs, rhs, llvm::emitted_of(r.1@)),
            r.2@.len() == 0,
    {
        let b = self.builder;
        let (v, asked) = match lowering {
            IntLowering::Add => llvm::build_int_add(b, lhs, rhs, "tmp_add"),
            IntLowering::Sub => llvm::build_int_sub(b, lhs, rhs, "tmp_sub"),
            IntLowering::Mul => llvm::build_int_mul(b, lhs, rhs, "tmp_mul"),
            IntLowering::And => llvm::build_and(b, lhs, rhs, "tmp_and"),
            IntLowering::Or => llvm::build_or(b, lhs, rhs, "tmp_or"),
            _ => llvm::build_xor(b, lhs, rhs, "tmp_xor"),
        };
        let record = vec![asked];
                assert(llvm::emitted_of(record@) =~= seq![record@[0].emitted()]);
        let value = match v {
            Some(v) => Some(llvm::int_value_basic(v)),
            None => None,
        };
        (value, record, Vec::new())
    }

    /// Signed division (`div`) or remainder after the runtime check of the
    /// divisor against zero.
    fn checked_int_op(&self, div: bool, lhs: IntValue<'ctx>, rhs: IntValue<'ctx>) -> (r: (Option<BasicValueEnum<'ctx>>, Vec<Record<'ctx>>, Vec<CallRecord<'ctx>>))
        ensures
            r.0 is Some ==> int_op_emits(if div { IntLowering::CheckedSignedDiv } else { IntLowering::CheckedSignedRem }, lhs, rhs, llvm::emitted_of(r.1@)),
            r.0 is Some ==> int_op_calls(if div { IntLowering::CheckedSignedDiv } else { IntLowering::CheckedSignedRem }, r.2@),
    {
        let (checked, check, handler) = if div {
            self.emit_zero_divisor_check(rhs, "div_check", "div_zero_error", "div_ok")
        } else {
            self.emit_zero_divisor_check(rhs, "mod_check", "mod_zero_error", "mod_ok")
        };
        if checked.is_none() {
            let record = vec![check];
            return (None, record, Vec::new());
        }
        let (v, asked) = if div {
            llvm::build_int_signed_div(self.builder, lhs, rhs, "tmp_div")
        } else {
            llvm::build_int_signed_rem(self.builder, lhs, rhs, "tmp_mod")
        };
        let record = vec![check, asked];
        assert(llvm::emitted_of(record@) =~= seq![record@[0].emitted(), record@[1].emitted()]);
        let value = match v {
            Some(v) => Some(llvm::int_value_basic(v)),
            None => None,
        };
        let calls = match handler {
            Some(c) => vec![c],
            None => Vec::new(),
        };
        (value, record, calls)
    }

    /// `lhs ** rhs` on integers: both converted to `f64`, `llvm.pow.f64`,
    /// the result converted back to `i64`.
    fn int_pow(&self, lhs: IntValue<'ctx>, rhs: IntValue<'ctx>) -> (r: (Option<BasicValueEnum<'ctx>>, Option<CallRecord<'ctx>>))
        ensures
            r.0 is Some ==> (r.1 matches Some(c) && c.callee_name() == "llvm.pow.f64"@ && c.arguments().len() == 2),
    {
        let b = self.builder;
        let f64_ty = llvm::f64_type(self.context);
        let lf = match llvm::build_signed_int_to_float(b, lhs, f64_ty, "lhs_f") {
            Some(f) => f,
            None => return (None, None),
        };
        let rf = match llvm::build_signed_int_to_float(b, rhs, f64_ty, "rhs_f") {
            Some(f) => f,
            None => return (None, None),
        };
        let pow = self.pow_intrinsic();
        let args = vec![llvm::float_value_basic(lf), llvm::float_value_basic(rf)];
        let (call, asked) = llvm::build_call(b, pow, &args, "pow_result");
        let result = match call {
            Some(Some(v)) => match llvm::basic_as_float(v) {
                Some(f) => f,
                None => return (None, None),
            },
            _ => return (None, None),
        };
        match llvm::build_float_to_signed_int(b, result, llvm::i64_type(self.context), "pow_int") {
            Some(back) => (Some(llvm::int_value_basic(back)), Some(asked)),
            None => (None, None),
        }
    }

    /// The instructions of `lhs op rhs` on two `float` values. `None` for an
    /// operator with no floating-point form (the bitwise ones among them),
    /// or where LLVM refuses an instruction. The records list the
    /// arithmetic and comparison instructions asked for (see
    /// `float_op_emits`) and the runtime calls (see `float_op_calls`).
    pub fn compile_float_op(&self, op: BinaryOp, lhs: FloatValue<'ctx>, rhs: FloatValue<'ctx>) -> (r: (Option<BasicValueEnum<'ctx>>, Vec<Record<'ctx>>, Vec<CallRecord<'ctx>>))
        ensures
            spec_float_lowering(op) is None ==> r.0 is None,
            r.0 is Some ==> (spec_float_lowering(op) matches Some(l) && float_op_emits(l, lhs, rhs, llvm::emitted_of(r.1@))),
            r.0 is Some ==> (spec_float_lowering(op) matches Some(l) && float_op_calls(l, r.2@)),
    {
        let lowering = match float_lowering(op) {
            Some(l) => l,
            None => {
                let record: Vec<Record<'ctx>> = Vec::new();
                return (None, record, Vec::new());
            },
        };
        match lowering {
            FloatLowering::Compare(pred) => {
                let (v, asked) = self.compile_float_cmp(pred, lhs, rhs);
                let record = vec![asked];
                assert(llvm::emitted_of(record@) =~= seq![record@[0].emitted()]);
                (v, record, Vec::new())
            },
            FloatLowering::Pow => {
                let pow = self.pow_intrinsic();
                let args = vec![llvm::float_value_basic(lhs), llvm::float_value_basic(rhs)];
                let (call, asked) = llvm::build_call(self.builder, pow, &args, "pow_result");
                let v = match call {
                    Some(call) => call,
                    None => None,
                };
                let record: Vec<Record<'ctx>> = Vec::new();
                assert(llvm::emitted_of(record@).len() == 0);
                (v, record, vec![asked])
            },
            _ => self.float_instruction(lowering, lhs, rhs),
        }
    }

    /// The one instruction of a floating-point operator lowered to one.
    fn float_instruction(&self, lowering: FloatLowering, lhs: FloatValue<'ctx>, rhs: FloatValue<'ctx>) -> (r: (Option<BasicValueEnum<'ctx>>, Vec<Record<'ctx>>, Vec<CallRecord<'ctx>>))
        requires
            lowering is Add || lowering is Sub || lowering is Mul || lowering is Div || lowering is Rem,
        ensures
            float_op_emits(lowering, lhs, rhs, llvm::emitted_of(r.1@)),
            r.2@.len() == 0,
    {
        let b = self.builder;
        let (v, asked) = match lowering {
            FloatLowering::Add => llvm::build_float_add(b, lhs, rhs, "tmp_fadd"),
            FloatLowering::Sub => llvm::build_float_sub(b, lhs, rhs, "tmp_fsub"),
            FloatLowering::Mul => llvm::build_float_mul(b, lhs, rhs, "tmp_fmul"),
            FloatLowering::Div => llvm::build_float_div(b, lhs, rhs, "tmp_fdiv"),
            _ => llvm::build_float_rem(b, lhs, rhs, "tmp_fmod"),
        };
        let record = vec![asked];
                assert(llvm::emitted_of(record@) =~= seq![record@[0].emitted()]);
        let value = match v {
            Some(v) => Some(llvm::float_value_basic(v)),
            None => None,
        };
        (value, record, Vec::new())
    }

    /// The runtime's matrix layout: `{ ref_count: i64, rows: i64, cols: i64, data: f64* }`.
    pub fn get_matrix_type(&self) -> StructType<'ctx> {
        let i64_ty = llvm::int_type_basic(llvm::i64_type(self.context));
        let ptr_ty = llvm::pointer_type_basic(self.ptr_type());
        let fields = vec![i64_ty, i64_ty, i64_ty, ptr_ty];
        llvm::struct_type(self.context, &fields, false)
    }

    /// The runtime's integer-matrix layout, the same as the matrix one with
    /// `i64` data.
    pub fn get_intmatrix_type(&self) -> StructType<'ctx> {
        let i64_ty = llvm::int_type_basic(llvm::i64_type(self.context));
        let ptr_ty = llvm::pointer_type_basic(self.ptr_type());
        let fields = vec![i64_ty, i64_ty, i64_ty, ptr_ty];
        llvm::struct_type(self.context, &fields, false)
    }

    /// The runtime's string layout: `{ ref_count: i64, len: i64, data: char* }`.
    pub fn get_string_type(&self) -> StructType<'ctx> {
        let i64_ty = llvm::int_type_basic(llvm::i64_type(self.context));
        let ptr_ty = llvm::pointer_type_basic(self.ptr_type());
        let fields = vec![i64_ty, i64_ty, ptr_ty];
        llvm::struct_type(self.context, &fields, false)
    }

    /// A pointer to a global constant holding `s`, named `name`.
    pub fn build_str_global(&self, s: &str, name: &str) -> (r: Result<PointerValue<'ctx>, CodegenError>)
        ensures
            r matches Err(e) ==> e matches CodegenError::LLVMError { operation, .. } && operation@ == "build_global_string_ptr"@,
    {
        match llvm::build_global_string_ptr(self.builder, s, name).0 {
            Some(g) => Ok(llvm::global_pointer(g)),
            None => {
                let mut details = String::from_str("Failed to create string constant '");
                details.append(name);
                details.append("'");
                Err(CodegenError::LLVMError { operation: String::from_str("build_global_string_ptr"), details })
            },
        }
    }

    /// The void runtime function `name` taking `param_types`, declared with
    /// external linkage if the module does not have it yet.
    pub fn declare_test_matcher_void(&self, name: &str, param_types: &[BasicTypeEnum<'ctx>]) -> (r: Callable<'ctx>)
        ensures
            r.callee_name() == name@,
    {
        let ty = llvm::void_fn_type(llvm::void_type(self.context), param_types, false);
        let function = match llvm::get_function(self.module, name) {
            Some(f) => f,
            None => llvm::add_function(self.module, name, ty, LinkageKind::External),
        };
        llvm::callable(function, ty, name)
    }
}

} // verus!
