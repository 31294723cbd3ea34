//! Converting a value to a runtime string, and the statements and calls
//! that talk to the terminal: `print`, `println`, `printf` and `input`.

use vstd::prelude::*;
use inkwell::types::{BasicTypeEnum, StructType};
use inkwell::values::{BasicValueEnum, FunctionValue, IntValue, PointerValue};
use crate::types::{BrixType, TypeModel, models_of, lemma_models_of};
use crate::format::{spec_to_string_plan, int_format, float_format, spec_int_format, spec_float_format};
use crate::compiler::{Compiler, CodegenError};
use crate::ops::IntPredicate;
use crate::text::decimal_string;
use crate::format::debug_text;
use crate::llvm::{self, LinkageKind, Callable, CallRecord, TextRecord};

verus! {

/// What a conversion to text asked the builder for: the texts of the
/// global strings it made and the runtime calls it emitted, in order.
pub struct Trace<'ctx> {
    pub texts: Vec<TextRecord>,
    pub calls: Vec<CallRecord<'ctx>>,
}

impl<'ctx> Trace<'ctx> {
    /// Nothing asked for.
    pub fn empty() -> (r: Self)
        ensures
            r.texts@.len() == 0,
            r.calls@.len() == 0,
    {
        Trace { texts: Vec::new(), calls: Vec::new() }
    }
}

/// The trace of an array's text: the texts `[`, the element format
/// (`%lld` for an integer array, `%g` otherwise), `, ` and `]`, in the
/// order they were made, and the element's `sprintf` call.
pub open spec fn array_text_trace<'ctx>(t: Trace<'ctx>, ints: bool) -> bool {
    &&& t.texts@.len() == 4
    &&& t.texts@[0].text() == "["@
    &&& t.texts@[1].text() == (if ints { spec_int_format(None) } else { spec_float_format(None) })
    &&& t.texts@[2].text() == ", "@
    &&& t.texts@[3].text() == "]"@
    &&& t.calls@.len() == 1
    &&& t.calls@[0].callee_name() == "sprintf"@
}

/// A trace of a `sprintf` conversion: the format `fmt` made as a global
/// string, and one call of `sprintf` whose third argument, the value
/// formatted, is `val`.
pub open spec fn sprintf_trace<'ctx>(t: Trace<'ctx>, fmt: Seq<char>, val: BasicValueEnum<'ctx>) -> bool {
    &&& t.texts@.len() == 1
    &&& t.texts@[0].text() == fmt
    &&& t.calls@.len() == 1
    &&& t.calls@[0].callee_name() == "sprintf"@
    &&& t.calls@[0].arguments().len() == 3
    &&& t.calls@[0].arguments()[2] == val
}

/// A value of type `t` has a string form: every union in it, at any depth,
/// has members, and every other type it holds there has a conversion.
pub open spec fn convertible(t: TypeModel) -> bool
    decreases t,
{
    match t {
        TypeModel::Union(ms) => ms.len() > 0 && forall|i: int| 0 <= i < ms.len() ==> convertible(#[trigger] ms[i]),
        _ => spec_to_string_plan(t) is Some,
    }
}

/// A value of type `t` may be handed to the conversion: no optional occurs
/// in it at any depth of union nesting (optionals are unions by then), and
/// a union with members is converted only inside a function, whose blocks
/// its branches go into.
pub open spec fn stringifiable(t: TypeModel, in_function: bool) -> bool
    decreases t,
{
    match t {
        TypeModel::Optional(_) => false,
        TypeModel::Union(ms) => (ms.len() == 0 || in_function) && forall|i: int|
            0 <= i < ms.len() ==> stringifiable(#[trigger] ms[i], in_function),
        _ => true,
    }
}

/// A failure of the emission itself: LLVM refused an operation, or the
/// function being built has no entry block to hold a stack slot.
pub open spec fn emission_failure(e: CodegenError) -> bool {
    ||| e is LLVMError
    ||| e matches CodegenError::MissingValue { what, .. } && (what@ == "current function"@ || what@ == "entry block"@)
}

proof fn lemma_union_member_convertible(xs: Seq<TypeModel>, j: int)
    requires
        convertible(TypeModel::Union(xs)),
        0 <= j < xs.len(),
    ensures
        convertible(xs[j]),
{
}

proof fn lemma_union_convertible(xs: Seq<TypeModel>)
    requires
        xs.len() > 0,
        forall|j: int| 0 <= j < xs.len() ==> convertible(#[trigger] xs[j]),
    ensures
        convertible(TypeModel::Union(xs)),
{
}

proof fn lemma_union_member_stringifiable(xs: Seq<TypeModel>, b: bool, j: int)
    requires
        stringifiable(TypeModel::Union(xs), b),
        0 <= j < xs.len(),
    ensures
        stringifiable(xs[j], b),
{
}

/// Decides `stringifiable`.
pub fn is_stringifiable(t: &BrixType, in_function: bool) -> (r: bool)
    ensures
        r == stringifiable(t@, in_function),
    decreases t,
{
    match t {
        BrixType::Optional(b) => {
            assert(t@ == TypeModel::Optional(Box::new(b@)));
            false
        },
        BrixType::Union(ms) => {
            proof {
                lemma_models_of(ms@);
            }
            assert(t@ == TypeModel::Union(models_of(ms@)));
            if ms.len() > 0 && !in_function {
                return false;
            }
            let m = members_stringifiable(ms, in_function);
            proof {
                if !m {
                    let j = choose|j: int| 0 <= j < models_of(ms@).len() && !stringifiable(#[trigger] models_of(ms@)[j], in_function);
                    if stringifiable(t@, in_function) {
                        lemma_union_member_stringifiable(models_of(ms@), in_function, j);
                    }
                } else {
                    assert(stringifiable(t@, in_function));
                }
            }
            m
        },
        _ => true,
    }
}

/// Every member is `stringifiable`.
fn members_stringifiable(ms: &Vec<BrixType>, in_function: bool) -> (r: bool)
    ensures
        r ==> forall|j: int| 0 <= j < models_of(ms@).len() ==> stringifiable(#[trigger] models_of(ms@)[j], in_function),
        !r ==> exists|j: int| 0 <= j < models_of(ms@).len() && !stringifiable(#[trigger] models_of(ms@)[j], in_function),
    decreases ms,
{
    proof {
        lemma_models_of(ms@);
    }
    let mut i: usize = 0;
    while i < ms.len()
        invariant
            i <= ms@.len(),
            models_of(ms@).len() == ms@.len(),
            forall|j: int| 0 <= j < ms@.len() ==> #[trigger] models_of(ms@)[j] == ms@[j]@,
            forall|j: int| 0 <= j < i ==> stringifiable(#[trigger] models_of(ms@)[j], in_function),
        decreases ms@.len() - i,
    {
        proof {
            assert(decreases_to!(ms => ms@[i as int]));
        }
        if !is_stringifiable(&ms[i], in_function) {
            assert(models_of(ms@)[i as int] == ms@[i as int]@);
            return false;
        }
        i = i + 1;
    }
    true
}


/// An `LLVMError` of the conversion.
fn conversion_failed(operation: &str) -> (e: CodegenError)
    ensures
        e is LLVMError,
{
    CodegenError::LLVMError { operation: String::from_str(operation), details: String::from_str("Failed in value_to_string") }
}

/// An `LLVMError` of a statement.
fn emit_failed(operation: &str, details: &str) -> (e: CodegenError)
    ensures
        e is LLVMError,
{
    CodegenError::LLVMError { operation: String::from_str(operation), details: String::from_str(details) }
}

/// `prefix` followed by the decimal digits of `n`.
pub(crate) fn numbered(prefix: &str, n: usize) -> String {
    let mut s = String::from_str(prefix);
    let digits = decimal_string(n);
    s.append(digits.as_str());
    s
}

impl<'a, 'ctx, E, D> Compiler<'a, 'ctx, E, D> {
    /// The runtime function `i8* name(params)`, declared on first use.
    pub(crate) fn string_runtime(&self, name: &str, params: &Vec<BasicTypeEnum<'ctx>>) -> (r: Callable<'ctx>)
        ensures
            r.callee_name() == name@,
    {
        let ret = llvm::pointer_type_basic(self.ptr_type());
        let ty = llvm::basic_fn_type(ret, params.as_slice(), false);
        self.runtime_function(name, ty, LinkageKind::External)
    }

    /// A C function `i32 name(i8*, ...)` with `fixed` pointer parameters
    /// before the variable ones, declared on first use.
    fn c_variadic(&self, name: &str, fixed: usize) -> (r: Callable<'ctx>)
        requires
            fixed <= 2,
        ensures
            r.callee_name() == name@,
    {
        let p = llvm::pointer_type_basic(self.ptr_type());
        let mut params: Vec<BasicTypeEnum<'ctx>> = Vec::new();
        let mut k: usize = 0;
        while k < fixed
            invariant
                k <= fixed,
            decreases fixed - k,
        {
            params.push(p);
            k = k + 1;
        }
        let ty = llvm::basic_fn_type(llvm::int_type_basic(llvm::i32_type(self.context)), params.as_slice(), true);
        self.runtime_function(name, ty, LinkageKind::External)
    }

    /// C's `sprintf(char *buf, const char *fmt, ...)`.
    pub fn get_sprintf(&self) -> (r: Callable<'ctx>)
        ensures
            r.callee_name() == "sprintf"@,
    {
        self.c_variadic("sprintf", 2)
    }

    /// C's `printf(const char *fmt, ...)`.
    pub fn get_printf(&self) -> Callable<'ctx> {
        self.c_variadic("printf", 1)
    }

    /// C's `scanf(const char *fmt, ...)`.
    pub fn get_scanf(&self) -> Callable<'ctx> {
        self.c_variadic("scanf", 1)
    }

    /// The value a call of `f` returns.
    pub(crate) fn call_for_value(&self, f: Callable<'ctx>, args: &Vec<BasicValueEnum<'ctx>>, name: &str) -> (r: Result<BasicValueEnum<'ctx>, CodegenError>)
        ensures
            r matches Err(e) ==> e is LLVMError,
    {
        self.recorded_call(f, args, name).0
    }

    /// `call_for_value`, with the record of the call.
    fn recorded_call(&self, f: Callable<'ctx>, args: &Vec<BasicValueEnum<'ctx>>, name: &str) -> (r: (Result<BasicValueEnum<'ctx>, CodegenError>, CallRecord<'ctx>))
        ensures
            r.0 matches Err(e) ==> e is LLVMError,
            r.1.callee_name() == f.callee_name(),
            r.1.arguments() == args@,
    {
        let (call, asked) = llvm::build_call(self.builder, f, args.as_slice(), name);
        let call = match call {
            Some(c) => c,
            None => return (Err(conversion_failed("build_call")), asked),
        };
        match call {
            Some(v) => (Ok(v), asked),
            None => (Err(emit_failed("try_as_basic_value", "Function did not return a value")), asked),
        }
    }

    /// `str_new(c_str)`: a runtime string holding a copy of a C string.
    pub(crate) fn str_new(&self, c_str: BasicValueEnum<'ctx>, name: &str) -> (r: Result<BasicValueEnum<'ctx>, CodegenError>)
        ensures
            r matches Err(e) ==> e is LLVMError,
    {
        let params = vec![llvm::pointer_type_basic(self.ptr_type())];
        let f = self.string_runtime("str_new", &params);
        let args = vec![c_str];
        self.call_for_value(f, &args, name)
    }

    /// `str_concat(a, b)`: a new runtime string, `a` followed by `b`.
    fn str_concat(&self, a: BasicValueEnum<'ctx>, b: BasicValueEnum<'ctx>, name: &str) -> (r: Result<BasicValueEnum<'ctx>, CodegenError>)
        ensures
            r matches Err(e) ==> e is LLVMError,
    {
        let p = llvm::pointer_type_basic(self.ptr_type());
        let params = vec![p, p];
        let f = self.string_runtime("str_concat", &params);
        let args = vec![a, b];
        self.call_for_value(f, &args, name)
    }

    /// A runtime string holding the constant `text`.
    fn string_constant(&self, text: &str, global_name: &str, name: &str) -> (r: Result<BasicValueEnum<'ctx>, CodegenError>)
        ensures
            r matches Err(e) ==> e is LLVMError,
    {
        self.traced_string_constant(text, global_name, name).0
    }

    /// `string_constant`, with the trace of the global made: its text.
    fn traced_string_constant(&self, text: &str, global_name: &str, name: &str) -> (r: (Result<BasicValueEnum<'ctx>, CodegenError>, Trace<'ctx>))
        ensures
            r.0 matches Err(e) ==> e is LLVMError,
            r.0 is Ok ==> (r.1.texts@.len() == 1 && r.1.texts@[0].text() == text@),
    {
        let (g, asked) = llvm::build_global_string_ptr(self.builder, text, global_name);
        let g = match g {
            Some(g) => g,
            None => return (Err(conversion_failed("build_global_string_ptr")), Trace::empty()),
        };
        (self.str_new(llvm::pointer_value_basic(llvm::global_pointer(g)), name), Trace { texts: vec![asked], calls: Vec::new() })
    }

    /// The runtime string in `slot` followed by the constant `text`, stored
    /// back into `slot`.
    fn append_constant(&self, slot: PointerValue<'ctx>, text: &str, name: &str) -> (r: Result<TextRecord, CodegenError>)
        ensures
            r matches Err(e) ==> e is LLVMError,
            r matches Ok(t) ==> t.text() == text@,
    {
        let current = self.load_value(slot, self.ptr_basic(), "current_str")?;
        let (piece, mut made) = self.traced_string_constant(text, name, name);
        let piece = piece?;
        let joined = self.str_concat(current, piece, name)?;
        self.store_value(slot, joined)?;
        Ok(made.texts.remove(0))
    }

    pub(crate) fn load_value(&self, ptr: PointerValue<'ctx>, pointee: BasicTypeEnum<'ctx>, name: &str) -> (r: Result<BasicValueEnum<'ctx>, CodegenError>)
        ensures
            r matches Err(e) ==> e is LLVMError,
    {
        match llvm::build_load(self.builder, ptr, pointee, name).0 {
            Some(v) => Ok(v),
            None => Err(conversion_failed("build_load")),
        }
    }

    pub(crate) fn store_value(&self, ptr: PointerValue<'ctx>, v: BasicValueEnum<'ctx>) -> (r: Result<(), CodegenError>)
        ensures
            r matches Err(e) ==> e is LLVMError,
    {
        if llvm::build_store(self.builder, ptr, v).0 {
            Ok(())
        } else {
            Err(conversion_failed("build_store"))
        }
    }

    pub(crate) fn branch(&self, target: inkwell::basic_block::BasicBlock<'ctx>) -> (r: Result<(), CodegenError>)
        ensures
            r matches Err(e) ==> e is LLVMError,
    {
        if llvm::build_unconditional_branch(self.builder, target) {
            Ok(())
        } else {
            Err(conversion_failed("build_unconditional_branch"))
        }
    }

    pub(crate) fn branch_on(
        &self,
        cond: IntValue<'ctx>,
        then_block: inkwell::basic_block::BasicBlock<'ctx>,
        else_block: inkwell::basic_block::BasicBlock<'ctx>,
    ) -> (r: Result<(), CodegenError>)
        ensures
            r matches Err(e) ==> e is LLVMError,
    {
        if llvm::build_conditional_branch(self.builder, cond, then_block, else_block) {
            Ok(())
        } else {
            Err(conversion_failed("build_conditional_branch"))
        }
    }

    pub(crate) fn compare(&self, pred: IntPredicate, l: IntValue<'ctx>, r: IntValue<'ctx>, name: &str) -> (res: Result<IntValue<'ctx>, CodegenError>)
        ensures
            res matches Err(e) ==> e is LLVMError,
    {
        match llvm::build_int_compare(self.builder, pred, l, r, name).0 {
            Some(c) => Ok(c),
            None => Err(conversion_failed("build_int_compare")),
        }
    }

    /// The address of element `idx` of an array of `elem` values starting
    /// at `data`: `data + idx * size_of(elem)`, computed on the address as
    /// an integer.
    pub(crate) fn element_address(&self, data: PointerValue<'ctx>, idx: IntValue<'ctx>, elem: BasicTypeEnum<'ctx>, name: &str) -> (r: Result<PointerValue<'ctx>, CodegenError>)
        ensures
            r matches Err(e) ==> e is LLVMError,
    {
        let i64_ty = llvm::i64_type(self.context);
        let size = match llvm::type_size_of(elem) {
            Some(s) => s,
            None => return Err(conversion_failed("size_of")),
        };
        let base = match llvm::build_ptr_to_int(self.builder, data, i64_ty, "data_addr") {
            Some(b) => b,
            None => return Err(conversion_failed("build_ptr_to_int")),
        };
        let offset = match llvm::build_int_mul(self.builder, idx, size, "elem_offset").0 {
            Some(o) => o,
            None => return Err(conversion_failed("build_int_mul")),
        };
        let addr = match llvm::build_int_add(self.builder, base, offset, "elem_addr").0 {
            Some(a) => a,
            None => return Err(conversion_failed("build_int_add")),
        };
        match llvm::build_int_to_ptr(self.builder, addr, llvm::pointer_to(elem), name) {
            Some(p) => Ok(p),
            None => Err(conversion_failed("build_int_to_ptr")),
        }
    }

    /// A scalar formatted by `sprintf` with `fmt` into a 64-byte stack
    /// buffer, then copied into a runtime string.
    fn sprintf_to_string(&self, val: BasicValueEnum<'ctx>, fmt: &str, buf_name: &str, fmt_name: &str, name: &str) -> (r: (Result<BasicValueEnum<'ctx>, CodegenError>, Trace<'ctx>))
        ensures
            r.0 matches Err(e) ==> e is LLVMError,
            r.0 is Ok ==> sprintf_trace(r.1, fmt@, val),
    {
        let none = Trace::empty();
        let sprintf = self.get_sprintf();
        let i8_ty = llvm::i8_type(self.context);
        let size = llvm::const_int(i8_ty, 64, false).0;
        let buffer = match llvm::build_array_alloca(self.builder, llvm::int_type_basic(i8_ty), size, buf_name) {
            Some(b) => b,
            None => return (Err(conversion_failed("build_array_alloca")), none),
        };
        let (fmt_global, asked) = llvm::build_global_string_ptr(self.builder, fmt, fmt_name);
        let fmt_global = match fmt_global {
            Some(g) => g,
            None => return (Err(conversion_failed("build_global_string_ptr")), none),
        };
        let args = vec![
            llvm::pointer_value_basic(buffer),
            llvm::pointer_value_basic(llvm::global_pointer(fmt_global)),
            val,
        ];
        let (made, call) = llvm::build_call(self.builder, sprintf, &args, "sprintf_val");
        if made.is_none() {
            return (Err(conversion_failed("build_call")), none);
        }
        (self.str_new(llvm::pointer_value_basic(buffer), name), Trace { texts: vec![asked], calls: vec![call] })
    }

    /// A runtime string holding the text of an `int` (`ints`) or `float`
    /// value, written by `sprintf` into a 64-byte buffer; the trace holds
    /// the format made for it (`spec_int_format` or `spec_float_format` of
    /// `format`) and the `sprintf` call with the value.
    pub fn number_to_string(&self, val: BasicValueEnum<'ctx>, ints: bool, format: Option<&str>) -> (r: (Result<BasicValueEnum<'ctx>, CodegenError>, Trace<'ctx>))
        ensures
            r.0 matches Err(e) ==> e is LLVMError,
            r.0 is Ok ==> sprintf_trace(r.1, if ints {
                spec_int_format(match format {
                    Some(f) => Some(f@),
                    None => None,
                })
            } else {
                spec_float_format(match format {
                    Some(f) => Some(f@),
                    None => None,
                })
            }, val),
    {
        if ints {
            let fmt = int_format(format);
            self.sprintf_to_string(val, fmt.as_str(), "int_str_buf", "fmt_int", "int_to_str")
        } else {
            let fmt = float_format(format);
            self.sprintf_to_string(val, fmt.as_str(), "float_str_buf", "fmt_float", "float_to_str")
        }
    }

    /// The rows, columns and data pointer of a matrix whose runtime layout
    /// is `{ ref_count, rows, cols, data }`.
    pub(crate) fn matrix_parts(&self, val: BasicValueEnum<'ctx>, layout: StructType<'ctx>) -> (r: Result<(IntValue<'ctx>, IntValue<'ctx>, PointerValue<'ctx>), CodegenError>)
        ensures
            r matches Err(e) ==> e is LLVMError,
    {
        let raw = match llvm::basic_as_pointer(val) {
            Some(p) => p,
            None => return Err(conversion_failed("into_pointer_value")),
        };
        let typed = match llvm::build_pointer_cast(self.builder, raw, llvm::pointer_to(llvm::struct_type_basic(layout)), "matrix_ptr") {
            Some(p) => p,
            None => return Err(conversion_failed("build_pointer_cast")),
        };
        let rows_ptr = match llvm::build_struct_gep(self.builder, typed, 1, "rows_ptr") {
            Some(p) => p,
            None => return Err(conversion_failed("build_struct_gep")),
        };
        let rows = match llvm::basic_as_int(self.load_value(rows_ptr, self.i64_basic(), "rows")?) {
            Some(v) => v,
            None => return Err(conversion_failed("into_int_value")),
        };
        let cols_ptr = match llvm::build_struct_gep(self.builder, typed, 2, "cols_ptr") {
            Some(p) => p,
            None => return Err(conversion_failed("build_struct_gep")),
        };
        let cols = match llvm::basic_as_int(self.load_value(cols_ptr, self.i64_basic(), "cols")?) {
            Some(v) => v,
            None => return Err(conversion_failed("into_int_value")),
        };
        let data_ptr_ptr = match llvm::build_struct_gep(self.builder, typed, 3, "data_ptr_ptr") {
            Some(p) => p,
            None => return Err(conversion_failed("build_struct_gep")),
        };
        let data = match llvm::basic_as_pointer(self.load_value(data_ptr_ptr, self.ptr_basic(), "data_ptr")?) {
            Some(v) => v,
            None => return Err(conversion_failed("into_pointer_value")),
        };
        Ok((rows, cols, data))
    }

    /// `[a, b, c]` of an integer (`ints`) or float matrix, its elements in
    /// storage order, built by a loop emitted into the current function.
    fn array_to_string(&self, val: BasicValueEnum<'ctx>, ints: bool) -> (r: Result<(BasicValueEnum<'ctx>, Trace<'ctx>), CodegenError>)
        ensures
            r matches Err(e) ==> emission_failure(e),
            r matches Ok((_, t)) ==> array_text_trace(t, ints),
    {
        let layout = if ints { self.get_intmatrix_type() } else { self.get_matrix_type() };
        let (rows, cols, data) = self.matrix_parts(val, layout)?;
        let i64_ty = llvm::i64_type(self.context);
        let elem_ty = if ints {
            llvm::int_type_basic(i64_ty)
        } else {
            llvm::float_type_basic(llvm::f64_type(self.context))
        };
        let ptr_ty = llvm::pointer_type_basic(self.ptr_type());
        let result_slot = self.create_entry_block_alloca(ptr_ty, "array_str")?;
        let (initial, mut opened) = self.traced_string_constant("[", "open_bracket", "init_str");
        let initial = initial?;
        self.store_value(result_slot, initial)?;
        let total = match llvm::build_int_mul(self.builder, rows, cols, "total_len").0 {
            Some(t) => t,
            None => return Err(emit_failed("build_int_mul", "LLVM operation failed in value_to_string")),
        };
        let here = match llvm::get_insert_block(self.builder) {
            Some(b) => b,
            None => return Err(emit_failed("get_insert_block", "No current basic block")),
        };
        let parent = match llvm::block_parent(here) {
            Some(f) => f,
            None => return Err(emit_failed("get_parent", "Block has no parent function")),
        };
        let loop_cond = llvm::append_basic_block(self.context, parent, "array_str_cond");
        let loop_body = llvm::append_basic_block(self.context, parent, "array_str_body");
        let loop_after = llvm::append_basic_block(self.context, parent, "array_str_after");
        let idx_slot = self.create_entry_block_alloca(llvm::int_type_basic(i64_ty), "array_idx")?;
        self.store_value(idx_slot, llvm::int_value_basic(llvm::const_int(i64_ty, 0, false).0))?;
        self.branch(loop_cond)?;

        llvm::position_at_end(self.builder, loop_cond);
        let idx = match llvm::basic_as_int(self.load_value(idx_slot, self.i64_basic(), "idx")?) {
            Some(i) => i,
            None => return Err(conversion_failed("into_int_value")),
        };
        let more = self.compare(IntPredicate::SLT, idx, total, "cond")?;
        self.branch_on(more, loop_body, loop_after)?;

        llvm::position_at_end(self.builder, loop_body);
        let current = self.load_value(result_slot, self.ptr_basic(), "current_str")?;
        let elem_ptr = self.element_address(data, idx, elem_ty, "elem_ptr")?;
        let elem = self.load_value(elem_ptr, elem_ty, "elem")?;
        let (elem_str, mut formatted) = self.number_to_string(elem, ints, None);
        let elem_str = elem_str?;
        let joined = self.str_concat(current, elem_str, "concat")?;
        self.store_value(result_slot, joined)?;
        let next = match llvm::build_int_add(self.builder, idx, llvm::const_int(i64_ty, 1, false).0, "next_idx").0 {
            Some(n) => n,
            None => return Err(conversion_failed("build_int_add")),
        };
        let not_last = self.compare(IntPredicate::SLT, next, total, "is_not_last")?;
        let add_comma = llvm::append_basic_block(self.context, parent, "add_comma");
        let continue_block = llvm::append_basic_block(self.context, parent, "continue_loop");
        self.branch_on(not_last, add_comma, continue_block)?;

        llvm::position_at_end(self.builder, add_comma);
        let comma = self.append_constant(result_slot, ", ", "comma")?;
        self.branch(continue_block)?;

        llvm::position_at_end(self.builder, continue_block);
        self.store_value(idx_slot, llvm::int_value_basic(next))?;
        self.branch(loop_cond)?;

        llvm::position_at_end(self.builder, loop_after);
        let last = self.load_value(result_slot, self.ptr_basic(), "final_result")?;
        let (close, mut closed) = self.traced_string_constant("]", "close_bracket", "close_brix");
        let close = close?;
        let text = self.str_concat(last, close, "final_str")?;
        let mut texts: Vec<TextRecord> = Vec::new();
        texts.push(opened.texts.remove(0));
        texts.push(formatted.texts.remove(0));
        texts.push(comma);
        texts.push(closed.texts.remove(0));
        Ok((text, Trace { texts, calls: formatted.calls }))
    }

    /// The layout of a complex number: `{ re: f64, im: f64 }`.
    fn complex_type(&self) -> StructType<'ctx> {
        let f64_ty = llvm::float_type_basic(llvm::f64_type(self.context));
        let fields = vec![f64_ty, f64_ty];
        llvm::struct_type(self.context, &fields, false)
    }

    /// `complex_to_string(z)` copied into a runtime string.
    fn complex_to_string(&self, z: BasicValueEnum<'ctx>, name: &str) -> (r: Result<BasicValueEnum<'ctx>, CodegenError>)
        ensures
            r matches Err(e) ==> e is LLVMError,
    {
        let params = vec![llvm::struct_type_basic(self.complex_type())];
        let f = self.string_runtime("complex_to_string", &params);
        let args = vec![z];
        let c_str = self.call_for_value(f, &args, "complex_c_str")?;
        self.str_new(c_str, name)
    }

    /// The text of a complex matrix, row by row: each row opens with `[`,
    /// elements are separated by `, `, a row that is not the last closes
    /// with `], `, and the whole is enclosed in `[` and `]`.
    fn complex_matrix_to_string(&self, val: BasicValueEnum<'ctx>) -> (r: Result<BasicValueEnum<'ctx>, CodegenError>)
        ensures
            r matches Err(e) ==> emission_failure(e),
    {
        let (rows, cols, data) = self.matrix_parts(val, self.get_matrix_type())?;
        let i64_ty = llvm::i64_type(self.context);
        let zero = llvm::const_int(i64_ty, 0, false).0;
        let ptr_ty = llvm::pointer_type_basic(self.ptr_type());
        let result_slot = self.create_entry_block_alloca(ptr_ty, "cmatrix_str")?;
        let initial = self.string_constant("[", "open_bracket", "init_str")?;
        self.store_value(result_slot, initial)?;
        let total = match llvm::build_int_mul(self.builder, rows, cols, "total_len").0 {
            Some(t) => t,
            None => return Err(emit_failed("build_int_mul", "LLVM operation failed in value_to_string")),
        };
        let here = match llvm::get_insert_block(self.builder) {
            Some(b) => b,
            None => return Err(emit_failed("get_insert_block", "No current basic block")),
        };
        let parent = match llvm::block_parent(here) {
            Some(f) => f,
            None => return Err(emit_failed("get_parent", "Block has no parent function")),
        };
        let loop_cond = llvm::append_basic_block(self.context, parent, "cmatrix_str_cond");
        let loop_body = llvm::append_basic_block(self.context, parent, "cmatrix_str_body");
        let loop_after = llvm::append_basic_block(self.context, parent, "cmatrix_str_after");
        let idx_slot = self.create_entry_block_alloca(llvm::int_type_basic(i64_ty), "cmatrix_idx")?;
        self.store_value(idx_slot, llvm::int_value_basic(zero))?;
        self.branch(loop_cond)?;

        llvm::position_at_end(self.builder, loop_cond);
        let idx = match llvm::basic_as_int(self.load_value(idx_slot, self.i64_basic(), "idx")?) {
            Some(i) => i,
            None => return Err(conversion_failed("into_int_value")),
        };
        let more = self.compare(IntPredicate::SLT, idx, total, "cond")?;
        self.branch_on(more, loop_body, loop_after)?;

        llvm::position_at_end(self.builder, loop_body);
        let col_pos = match llvm::build_int_unsigned_rem(self.builder, idx, cols, "col_pos") {
            Some(c) => c,
            None => return Err(conversion_failed("build_int_unsigned_rem")),
        };
        let row_start = self.compare(IntPredicate::EQ, col_pos, zero, "is_row_start")?;
        let after_row_start = llvm::append_basic_block(self.context, parent, "after_row_start");
        let add_row_start = llvm::append_basic_block(self.context, parent, "add_row_start");
        self.branch_on(row_start, add_row_start, after_row_start)?;

        llvm::position_at_end(self.builder, add_row_start);
        self.append_constant(result_slot, "[", "row_open")?;
        self.branch(after_row_start)?;

        llvm::position_at_end(self.builder, after_row_start);
        let current = self.load_value(result_slot, self.ptr_basic(), "current_str")?;
        let complex_ty = llvm::struct_type_basic(self.complex_type());
        let elem_ptr = self.element_address(data, idx, complex_ty, "elem_ptr")?;
        let elem = self.load_value(elem_ptr, complex_ty, "complex_elem")?;
        let elem_str = self.complex_to_string(elem, "elem_brix_str")?;
        let joined = self.str_concat(current, elem_str, "concat")?;
        self.store_value(result_slot, joined)?;
        let next = match llvm::build_int_add(self.builder, idx, llvm::const_int(i64_ty, 1, false).0, "next_idx").0 {
            Some(n) => n,
            None => return Err(conversion_failed("build_int_add")),
        };
        let is_last = self.compare(IntPredicate::EQ, next, total, "is_last_elem")?;
        let next_col = match llvm::build_int_unsigned_rem(self.builder, next, cols, "next_col_pos") {
            Some(c) => c,
            None => return Err(conversion_failed("build_int_unsigned_rem")),
        };
        let row_end = self.compare(IntPredicate::EQ, next_col, zero, "is_row_end")?;
        let add_separator = llvm::append_basic_block(self.context, parent, "add_separator");
        let continue_block = llvm::append_basic_block(self.context, parent, "continue_loop");
        self.branch_on(is_last, continue_block, add_separator)?;

        llvm::position_at_end(self.builder, add_separator);
        let row_end_block = llvm::append_basic_block(self.context, parent, "row_end");
        let elem_comma_block = llvm::append_basic_block(self.context, parent, "elem_comma");
        self.branch_on(row_end, row_end_block, elem_comma_block)?;

        llvm::position_at_end(self.builder, row_end_block);
        self.append_constant(result_slot, "]", "row_close")?;
        self.append_constant(result_slot, ", ", "comma")?;
        self.branch(continue_block)?;

        llvm::position_at_end(self.builder, elem_comma_block);
        self.append_constant(result_slot, ", ", "elem_comma")?;
        self.branch(continue_block)?;

        llvm::position_at_end(self.builder, continue_block);
        self.store_value(idx_slot, llvm::int_value_basic(next))?;
        self.branch(loop_cond)?;

        llvm::position_at_end(self.builder, loop_after);
        let last = self.load_value(result_slot, self.ptr_basic(), "final_result")?;
        let close = self.string_constant("]", "close_bracket", "close_brix")?;
        self.str_concat(last, close, "final_str")
    }

    /// `runtime(arg)` of a runtime function returning a C string, copied
    /// into a runtime string.
    fn c_string_of(&self, runtime: &str, param: BasicTypeEnum<'ctx>, arg: BasicValueEnum<'ctx>, call_name: &str, name: &str) -> (r: (Result<BasicValueEnum<'ctx>, CodegenError>, Trace<'ctx>))
        ensures
            r.0 matches Err(e) ==> e is LLVMError,
            r.0 is Ok ==> (r.1.calls@.len() == 1 && r.1.calls@[0].callee_name() == runtime@ && r.1.calls@[0].arguments() == seq![arg]),
    {
        let params = vec![param];
        let f = self.string_runtime(runtime, &params);
        let args = vec![arg];
        assert(args@ =~= seq![arg]);
        let (c_str, asked) = self.recorded_call(f, &args, call_name);
        let c_str = match c_str {
            Ok(c) => c,
            Err(e) => return (Err(e), Trace::empty()),
        };
        (self.str_new(c_str, name), Trace { texts: Vec::new(), calls: vec![asked] })
    }

    /// A runtime string holding the text of `val`, a value of type `typ`:
    /// a string is itself; an `int` or `float` goes through `sprintf` with
    /// the format `format` selects; an array becomes `[a, b, c]`; a complex
    /// number and a complex matrix go through `complex_to_string`; `nil` is
    /// `nil`; an error gives its message and an atom its name; a union
    /// branches on its tag to the conversion of the member it holds. A type
    /// with no conversion (tuples, structs, `void`, raw pointers) and a
    /// union without members are refused. The trace lists, for a number, an
    /// array, a complex number, a constant text, an error or an atom, the
    /// global texts made and the runtime calls that make the text itself.
    pub fn value_to_string(&self, val: BasicValueEnum<'ctx>, typ: &BrixType, format: Option<&str>) -> (r: (Result<BasicValueEnum<'ctx>, CodegenError>, Trace<'ctx>))
        requires
            stringifiable(typ@, self.current_function is Some),
        ensures
            typ@ is String ==> (r.0 matches Ok(v) && v == val),
            typ@ is Int ==> (r.0 is Ok ==> sprintf_trace(r.1, spec_int_format(match format {
                Some(f) => Some(f@),
                None => None,
            }), val)),
            typ@ is Float ==> (r.0 is Ok ==> sprintf_trace(r.1, spec_float_format(match format {
                Some(f) => Some(f@),
                None => None,
            }), val)),
            typ@ is Nil ==> (r.0 is Ok ==> (r.1.texts@.len() == 1 && r.1.texts@[0].text() == "nil"@)),
            typ@ is Intersection ==> (r.0 is Ok ==> (r.1.texts@.len() == 1 && r.1.texts@[0].text() == "<Intersection>"@)),
            typ@ is Error ==> (r.0 is Ok ==> (r.1.calls@.len() == 1 && r.1.calls@[0].callee_name() == "brix_error_message"@
                && r.1.calls@[0].arguments() == seq![val])),
            typ@ is Atom ==> (r.0 is Ok ==> (r.1.calls@.len() == 1 && r.1.calls@[0].callee_name() == "atom_name"@
                && r.1.calls@[0].arguments() == seq![val])),
            typ@ is IntMatrix ==> (r.0 is Ok ==> array_text_trace(r.1, true)),
            typ@ is Matrix ==> (r.0 is Ok ==> array_text_trace(r.1, false)),
            typ@ is Complex ==> (r.0 is Ok ==> (r.1.calls@.len() == 1 && r.1.calls@[0].callee_name() == "complex_to_string"@
                && r.1.calls@[0].arguments() == seq![val])),
            spec_to_string_plan(typ@) is None ==> (r.0 matches Err(CodegenError::MissingValue { what, .. })
                && what@ == "value_to_string conversion"@),
            typ@ matches TypeModel::Union(ms) && ms.len() == 0 ==> (r.0 matches Err(CodegenError::MissingValue { what, context })
                && what@ == "value_to_string conversion"@ && context@ == "Empty Union type"@),
            !convertible(typ@) ==> r.0 is Err,
            r.0 matches Err(e) ==> emission_failure(e) || (e matches CodegenError::MissingValue { what, .. }
                && what@ == "value_to_string conversion"@ && !convertible(typ@)),
        decreases typ, 1nat,
    {
        match typ {
            BrixType::String => (Ok(val), Trace::empty()),
            BrixType::Int => self.number_to_string(val, true, format),
            BrixType::Float => self.number_to_string(val, false, format),
            BrixType::Matrix => match self.array_to_string(val, false) {
                Ok((v, t)) => (Ok(v), t),
                Err(e) => (Err(e), Trace::empty()),
            },
            BrixType::IntMatrix => match self.array_to_string(val, true) {
                Ok((v, t)) => (Ok(v), t),
                Err(e) => (Err(e), Trace::empty()),
            },
            BrixType::Complex => {
                let complex = llvm::struct_type_basic(self.complex_type());
                self.c_string_of("complex_to_string", complex, val, "complex_c_str", "complex_brix_str")
            },
            BrixType::ComplexMatrix => (self.complex_matrix_to_string(val), Trace::empty()),
            BrixType::Nil => self.traced_string_constant("nil", "nil_str", "nil_brix_str"),
            BrixType::Error => {
                let p = llvm::pointer_type_basic(self.ptr_type());
                self.c_string_of("brix_error_message", p, val, "error_msg", "error_str")
            },
            BrixType::Atom => {
                let i64_ty = llvm::int_type_basic(llvm::i64_type(self.context));
                self.c_string_of("atom_name", i64_ty, val, "atom_name", "atom_str")
            },
            BrixType::Union(types) => {
                proof {
                    lemma_models_of(types@);
                }
                (self.union_to_string(val, typ, types, format), Trace::empty())
            },
            BrixType::Intersection(_) => self.traced_string_constant("<Intersection>", "intersection_str", "intersection_brix_str"),
            _ => (Err(CodegenError::MissingValue {
                what: String::from_str("value_to_string conversion"),
                context: debug_text(typ),
            }), Trace::empty()),
        }
    }

    /// The conversion of a union: a chain of tests of the tag against each
    /// member's index, each branch converting the payload as that member
    /// and storing the string into a slot read back where the branches
    /// meet.
    fn union_to_string(&self, val: BasicValueEnum<'ctx>, typ: &BrixType, types: &Vec<BrixType>, format: Option<&str>) -> (r: Result<BasicValueEnum<'ctx>, CodegenError>)
        requires
            *typ == BrixType::Union(*types),
            typ@ == TypeModel::Union(models_of(types@)),
            stringifiable(typ@, self.current_function is Some),
        ensures
            types@.len() == 0 ==> (r matches Err(CodegenError::MissingValue { what, context })
                && what@ == "value_to_string conversion"@ && context@ == "Empty Union type"@),
            !convertible(typ@) ==> r is Err,
            r matches Err(e) ==> emission_failure(e) || (e matches CodegenError::MissingValue { what, .. }
                && what@ == "value_to_string conversion"@ && !convertible(typ@)),
        decreases typ, 0nat,
    {
        proof {
            lemma_models_of(types@);
        }
        if types.len() == 0 {
            return Err(CodegenError::MissingValue {
                what: String::from_str("value_to_string conversion"),
                context: String::from_str("Empty Union type"),
            });
        }
        let sv = match llvm::basic_as_struct(val) {
            Some(v) => v,
            None => return Err(emit_failed("build_extract_value", "Failed to extract tag from union")),
        };
        let tag = match llvm::build_extract_value(self.builder, sv, 0, "extract_tag") {
            Some(t) => match llvm::basic_as_int(t) {
                Some(t) => t,
                None => return Err(emit_failed("build_extract_value", "Failed to extract tag from union")),
            },
            None => return Err(emit_failed("build_extract_value", "Failed to extract tag from union")),
        };
        let inner = match llvm::build_extract_value(self.builder, sv, 1, "extract_value") {
            Some(v) => v,
            None => return Err(emit_failed("build_extract_value", "Failed to extract value from union")),
        };
        let current_fn = match self.current_function {
            Some(f) => f,
            None => return Err(emit_failed("current_function", "No current function")),
        };
        let merge = llvm::append_basic_block(self.context, current_fn, "union_print_merge");
        let result_slot = match llvm::build_alloca(self.builder, llvm::pointer_type_basic(self.ptr_type()), "union_str_result") {
            Some(p) => p,
            None => return Err(emit_failed("build_alloca", "Failed to allocate union string result")),
        };
        let i64_ty = llvm::i64_type(self.context);
        let n = types.len();
        let mut i: usize = 0;
        while i < n
            invariant
                n == types@.len(),
                n > 0,
                *typ == BrixType::Union(*types),
                i <= n,
                typ@ == TypeModel::Union(models_of(types@)),
                stringifiable(typ@, self.current_function is Some),
                models_of(types@).len() == types@.len(),
                forall|j: int| 0 <= j < types@.len() ==> #[trigger] models_of(types@)[j] == types@[j]@,
                forall|j: int| 0 <= j < i ==> convertible(#[trigger] models_of(types@)[j]),
            decreases n - i,
        {
            let case_block = llvm::append_basic_block(self.context, current_fn, numbered("union_case_", i).as_str());
            let next_block = if i < n - 1 {
                llvm::append_basic_block(self.context, current_fn, numbered("union_check_", i + 1).as_str())
            } else {
                merge
            };
            let case_val = llvm::const_int(i64_ty, i as u64, false).0;
            let is_case = match llvm::build_int_compare(self.builder, IntPredicate::EQ, tag, case_val, "is_case").0 {
                Some(c) => c,
                None => return Err(emit_failed("build_int_compare", "Failed to compare union tag")),
            };
            if !llvm::build_conditional_branch(self.builder, is_case, case_block, next_block) {
                return Err(emit_failed("build_conditional_branch", "Failed to branch on union tag"));
            }
            llvm::position_at_end(self.builder, case_block);
            proof {
                assert(decreases_to!(*typ => *types));
                assert(decreases_to!(*types => types@[i as int]));
                assert(decreases_to!(*typ => types@[i as int]));
                lemma_union_member_stringifiable(models_of(types@), self.current_function is Some, i as int);
            }
            let member = &types[i];
            let text = match self.value_to_string(inner, member, format).0 {
                Ok(t) => t,
                Err(e) => {
                    proof {
                        if convertible(typ@) {
                            lemma_union_member_convertible(models_of(types@), i as int);
                        }
                    }
                    return Err(e);
                },
            };
            if !llvm::build_store(self.builder, result_slot, text).0 {
                return Err(emit_failed("build_store", "Failed to store union string result"));
            }
            if !llvm::build_unconditional_branch(self.builder, merge) {
                return Err(emit_failed("build_unconditional_branch", "Failed to branch to merge"));
            }
            if i < n - 1 {
                llvm::position_at_end(self.builder, next_block);
            }
            i = i + 1;
        }
        proof {
            lemma_union_convertible(models_of(types@));
        }
        llvm::position_at_end(self.builder, merge);
        match llvm::build_load(self.builder, result_slot, self.ptr_basic(), "union_str").0 {
            Some(v) => Ok(v),
            None => Err(emit_failed("build_load", "Failed to load union string result")),
        }
    }
}


impl<'a, 'ctx, E, D> Compiler<'a, 'ctx, E, D> {
    /// The C string a runtime string holds: its `data` field.
    pub(crate) fn string_data(&self, string: PointerValue<'ctx>) -> (r: Result<BasicValueEnum<'ctx>, CodegenError>)
        ensures
            r matches Err(e) ==> e is LLVMError,
    {
        let layout = llvm::pointer_to(llvm::struct_type_basic(self.get_string_type()));
        let typed = match llvm::build_pointer_cast(self.builder, string, layout, "str_struct") {
            Some(p) => p,
            None => return Err(emit_failed("build_pointer_cast", "Failed to type a string pointer")),
        };
        let data_ptr = match llvm::build_struct_gep(self.builder, typed, 2, "str_data_ptr") {
            Some(p) => p,
            None => return Err(emit_failed("build_struct_gep", "Failed to get string data pointer")),
        };
        match llvm::build_load(self.builder, data_ptr, self.ptr_basic(), "str_data").0 {
            Some(v) => Ok(v),
            None => Err(emit_failed("build_load", "Failed to load string data")),
        }
    }

    /// `print(x)` (or `println(x)` with `newline`) of a compiled value `val`
    /// of type `ty`, `form` being the expression's form: the value is
    /// converted to a runtime string whose text `printf` writes, followed
    /// by a line break for `println`; the string is released afterwards
    /// when it is a temporary of the statement. A value that cannot be
    /// converted is refused.
    pub fn emit_print(&self, val: BasicValueEnum<'ctx>, ty: &BrixType, form: crate::decl::ExprForm, newline: bool) -> (r: Result<(), CodegenError>)
        ensures
            !stringifiable(ty@, self.current_function is Some) ==> (r matches Err(CodegenError::MissingValue { what, .. })
                && what@ == "value_to_string conversion"@),
            !convertible(ty@) ==> r is Err,
            r matches Err(e) ==> emission_failure(e) || (e matches CodegenError::MissingValue { what, .. }
                && what@ == "value_to_string conversion"@ && (!convertible(ty@) || !stringifiable(
                ty@,
                self.current_function is Some,
            ))),
    {
        self.emit_print_with_format(val, ty, form, newline).0
    }

    /// `emit_print`, with the record of the `printf` format asked for:
    /// `"%s"`, or `"%s\n"` for `println`.
    pub fn emit_print_with_format(&self, val: BasicValueEnum<'ctx>, ty: &BrixType, form: crate::decl::ExprForm, newline: bool) -> (r: (Result<(), CodegenError>, Option<TextRecord>))
        ensures
            !stringifiable(ty@, self.current_function is Some) ==> (r.0 matches Err(CodegenError::MissingValue { what, .. })
                && what@ == "value_to_string conversion"@),
            !convertible(ty@) ==> r.0 is Err,
            r.0 matches Err(e) ==> emission_failure(e) || (e matches CodegenError::MissingValue { what, .. }
                && what@ == "value_to_string conversion"@ && (!convertible(ty@) || !stringifiable(
                ty@,
                self.current_function is Some,
            ))),
            r.0 is Ok ==> (r.1 matches Some(t) && t.text() == (if newline { "%s\n"@ } else { "%s"@ })),
    {
        let none: Option<TextRecord> = None;
        if !is_stringifiable(ty, self.current_function.is_some()) {
            let context = if is_stringifiable(ty, true) {
                String::from_str("No current function")
            } else {
                String::from_str("Optional type should have been converted to Union")
            };
            let e = CodegenError::MissingValue { what: String::from_str("value_to_string conversion"), context };
            return (Err(e), none);
        }
        let text = match self.value_to_string(val, ty, None).0 {
            Ok(t) => t,
            Err(e) => return (Err(e), none),
        };
        let printf = self.get_printf();
        let (fmt, asked) = if newline {
            llvm::build_global_string_ptr(self.builder, "%s\n", "println_fmt")
        } else {
            llvm::build_global_string_ptr(self.builder, "%s", "print_fmt")
        };
        let fmt = match fmt {
            Some(g) => g,
            None => {
                let details = if newline {
                    "Failed to create format string for println"
                } else {
                    "Failed to create format string for print"
                };
                return (Err(emit_failed("build_global_string_ptr", details)), none);
            },
        };
        let string = match llvm::basic_as_pointer(text) {
            Some(p) => p,
            None => return (Err(emit_failed("into_pointer_value", "a runtime string is a pointer")), none),
        };
        let data = match self.string_data(string) {
            Ok(d) => d,
            Err(e) => return (Err(e), none),
        };
        let args = vec![llvm::pointer_value_basic(llvm::global_pointer(fmt)), data];
        let call_name = if newline { "call_println" } else { "call_print" };
        if llvm::build_call(self.builder, printf, &args, call_name).0.is_none() {
            return (Err(emit_failed("build_call", "Failed to call printf")), none);
        }
        if Self::is_print_temp(ty, form) {
            if let Err(e) = self.insert_release(string, &BrixType::String).0 {
                return (Err(e), none);
            }
        }
        (Ok(()), Some(asked))
    }

    /// `print(expr)`: the expression compiled by `sc`, then printed.
    pub fn compile_print_stmt<S, C: crate::compiler::StatementCompiler<'a, 'ctx, E, D, S>>(&mut self, sc: &mut C, expr: &E) -> (r: Result<(), CodegenError>)
        ensures
            r is Ok ==> (final(self).last_print_format matches Some(t) && t.text() == "%s"@),
    {
        let form = sc.expr_form(expr);
        let (val, ty) = sc.compile_expr(self, expr)?;
        let (r, format) = self.emit_print_with_format(val, &ty, form, false);
        self.last_print_format = format;
        r
    }

    /// `println(expr)`: the expression compiled by `sc`, then printed with a
    /// line break.
    pub fn compile_println_stmt<S, C: crate::compiler::StatementCompiler<'a, 'ctx, E, D, S>>(&mut self, sc: &mut C, expr: &E) -> (r: Result<(), CodegenError>)
        ensures
            r is Ok ==> (final(self).last_print_format matches Some(t) && t.text() == "%s\n"@),
    {
        let form = sc.expr_form(expr);
        let (val, ty) = sc.compile_expr(self, expr)?;
        let (r, format) = self.emit_print_with_format(val, &ty, form, true);
        self.last_print_format = format;
        r
    }

    /// What `printf` is handed for a compiled argument: the C string of a
    /// runtime string, any other value as it is.
    pub fn printf_argument(&self, val: BasicValueEnum<'ctx>, ty: &BrixType) -> (r: Result<BasicValueEnum<'ctx>, CodegenError>)
        ensures
            !(ty@ is String) ==> (r matches Ok(v) && v == val),
            r matches Err(e) ==> e is LLVMError,
    {
        match ty {
            BrixType::String => {
                let string = match llvm::basic_as_pointer(val) {
                    Some(p) => p,
                    None => return Err(emit_failed("into_pointer_value", "a runtime string is a pointer")),
                };
                self.string_data(string)
            },
            _ => Ok(val),
        }
    }

    /// `printf(format, args...)`: each argument compiled by `sc` in order,
    /// strings passed as their C strings, and one call of C's `printf`.
    pub fn compile_printf_stmt<S, C: crate::compiler::StatementCompiler<'a, 'ctx, E, D, S>>(
        &mut self,
        sc: &mut C,
        format: &str,
        args: &[E],
    ) -> (r: Result<(), CodegenError>) {
        let printf = self.get_printf();
        let fmt = match llvm::build_global_string_ptr(self.builder, format, "fmt_str").0 {
            Some(g) => g,
            None => return Err(emit_failed("build_global_string_ptr", "Failed to create format string for printf")),
        };
        let mut compiled: Vec<BasicValueEnum<'ctx>> = vec![llvm::pointer_value_basic(llvm::global_pointer(fmt))];
        let mut i: usize = 0;
        while i < args.len()
            invariant
                i <= args@.len(),
            decreases args@.len() - i,
        {
            let (val, ty) = sc.compile_expr(self, &args[i])?;
            let arg = self.printf_argument(val, &ty)?;
            compiled.push(arg);
            i = i + 1;
        }
        if llvm::build_call(self.builder, printf, &compiled, "call_printf").0.is_none() {
            return Err(emit_failed("build_call", "Failed to call printf"));
        }
        Ok(())
    }

    /// `scanf(fmt, slot)` into a fresh stack slot of type `ty`, then the
    /// value read from it.
    fn scan_value(&self, ty: BasicTypeEnum<'ctx>, slot_name: &str, fmt: &str, fmt_name: &str, name: &str) -> Option<BasicValueEnum<'ctx>> {
        let scanf = self.get_scanf();
        let slot = llvm::build_alloca(self.builder, ty, slot_name)?;
        let g = llvm::build_global_string_ptr(self.builder, fmt, fmt_name).0?;
        let args = vec![llvm::pointer_value_basic(llvm::global_pointer(g)), llvm::pointer_value_basic(slot)];
        llvm::build_call(self.builder, scanf, &args, "call_scanf").0?;
        llvm::build_load(self.builder, slot, ty, name).0
    }

    /// Reads an integer from standard input with `scanf("%lld")`.
    pub fn compile_input_int(&self) -> Option<BasicValueEnum<'ctx>> {
        self.scan_value(llvm::int_type_basic(llvm::i64_type(self.context)), "input_int_tmp", "%lld", "fmt_scan_int", "read_int")
    }

    /// Reads a float from standard input with `scanf("%lf")`.
    pub fn compile_input_float(&self) -> Option<BasicValueEnum<'ctx>> {
        self.scan_value(llvm::float_type_basic(llvm::f64_type(self.context)), "input_float_tmp", "%lf", "fmt_scan_float", "read_float")
    }

    /// Reads a word from standard input with `scanf("%s")` into a 256-byte
    /// stack buffer; the value is the buffer's address.
    pub fn compile_input_string(&self) -> Option<BasicValueEnum<'ctx>> {
        let scanf = self.get_scanf();
        let i8_ty = llvm::i8_type(self.context);
        let size = llvm::const_int(llvm::i64_type(self.context), 256, false).0;
        let buffer = llvm::build_array_alloca(self.builder, llvm::int_type_basic(i8_ty), size, "input_str_buffer")?;
        let g = llvm::build_global_string_ptr(self.builder, "%s", "fmt_scan_str").0?;
        let args = vec![llvm::pointer_value_basic(llvm::global_pointer(g)), llvm::pointer_value_basic(buffer)];
        llvm::build_call(self.builder, scanf, &args, "call_scanf").0?;
        Some(llvm::pointer_value_basic(buffer))
    }

    /// `input(kind)`, given the string literal `kind` of the first argument
    /// when there is one: `"int"` reads an integer, `"float"` a float,
    /// anything else (and no argument) a string. The value read and its
    /// type; `None` where LLVM refuses an instruction.
    pub fn compile_input_call(&self, arg: Option<&str>) -> (r: Option<(BasicValueEnum<'ctx>, BrixType)>)
        ensures
            r matches Some((_, t)) ==> t@ == crate::format::spec_input_kind(match arg {
                Some(a) => Some(a@),
                None => None,
            }),
    {
        let kind = crate::format::input_kind(arg);
        match kind {
            BrixType::Int => {
                let v = self.compile_input_int()?;
                Some((v, kind))
            },
            BrixType::Float => {
                let v = self.compile_input_float()?;
                Some((v, kind))
            },
            _ => {
                let v = self.compile_input_string()?;
                Some((v, kind))
            },
        }
    }
}

} // verus!
