//! List comprehensions, `[expr for x in xs if cond ...]`: nested loops
//! over the arrays of the `for` clauses fill a temporary array, whose
//! first `count` elements are then copied into an array of that length.
//!
//! Expressions are compiled by the parser's statement compiler; what the
//! generator does with their values is stated here.

use vstd::prelude::*;
use inkwell::types::{BasicTypeEnum, StructType};
use inkwell::values::{BasicValueEnum, PointerValue, IntValue};
use crate::types::{BrixType, TypeModel};
use crate::compiler::{Compiler, CodegenError, Found, StatementCompiler};
use crate::stringify::numbered;
use crate::format::debug_text;
use crate::ops::IntPredicate;
use crate::llvm::{self, Record, StoreRecord, Emitted, IntInstr};
use crate::loops::lemma_saved_names_distinct;

verus! {

/// What storing a comprehension element asked for: the store of the
/// element, the increment of the count, and the store of the new count.
pub struct ElementStore<'ctx> {
    pub element: StoreRecord<'ctx>,
    pub step: Record<'ctx>,
    pub count: StoreRecord<'ctx>,
}

/// The last element stored advanced the count kept in `count_slot`: an
/// addition to it, stored back into `count_slot`.
pub open spec fn count_advanced<'ctx>(s: Option<ElementStore<'ctx>>, count_slot: PointerValue<'ctx>) -> bool {
    &&& s matches Some(e)
    &&& e.count.place() == count_slot
    &&& e.step.emitted() matches Emitted::Int(IntInstr::Add, _, _)
}

/// `s` stores the element `val` of type `ty` (as it is when its type is
/// the array's element type) and then `count + 1` into `count_slot`.
pub open spec fn element_stored<'ctx>(
    s: ElementStore<'ctx>,
    val: BasicValueEnum<'ctx>,
    ty: TypeModel,
    temp_type: TypeModel,
    count_slot: PointerValue<'ctx>,
) -> bool {
    &&& ((temp_type is Matrix && ty is Float) || (temp_type is IntMatrix && ty is Int)) ==> s.element.stored() == val
    &&& s.step.emitted() matches Emitted::Int(IntInstr::Add, _, _)
    &&& s.count.place() == count_slot
}

/// One `for` clause of a comprehension: the names it binds (one for each
/// element, or several to take the rows of a matrix apart), the expression
/// it iterates over and the conditions that filter it.
pub struct ComprehensionGen<E> {
    pub var_names: Vec<String>,
    pub iterable: E,
    pub conditions: Vec<E>,
}

/// No two of the names are equal.
pub open spec fn distinct_names(names: Seq<String>) -> bool {
    forall|i: int, j: int|
        0 <= i < names.len() && 0 <= j < names.len() && i != j ==> #[trigger] names[i]@ != #[trigger] names[j]@
}

/// What `n` is bound to in `m`, if anything.
pub open spec fn binding<V>(m: Map<Seq<char>, V>, n: Seq<char>) -> Option<V> {
    if m.dom().contains(n) {
        Some(m[n])
    } else {
        None
    }
}

/// Every clause binds at least one name.
pub open spec fn clauses_bind<E>(gens: Seq<ComprehensionGen<E>>) -> bool {
    forall|i: int| 0 <= i < gens.len() ==> (#[trigger] gens[i]).var_names@.len() > 0
}

/// Arrays a comprehension can iterate over.
pub open spec fn iterable(t: TypeModel) -> bool {
    t is Matrix || t is IntMatrix
}

/// A value of type `value` can be stored in the temporary array of type
/// `array`: a float array takes floats and integers (converted), an integer
/// array only integers.
pub open spec fn storable(array: TypeModel, value: TypeModel) -> bool {
    if array is Matrix {
        value is Float || value is Int
    } else {
        value is Int
    }
}

fn comp_failed(operation: &str, details: &str) -> (e: CodegenError)
    ensures
        e is LLVMError,
{
    CodegenError::LLVMError { operation: String::from_str(operation), details: String::from_str(details) }
}

fn unsupported(reason: String) -> (e: CodegenError)
    ensures
        e matches CodegenError::InvalidOperation { operation, reason: r } && operation@ == "list comprehension"@ && r@
            == reason@,
{
    CodegenError::InvalidOperation { operation: String::from_str("list comprehension"), reason }
}

impl<'a, 'ctx, E, D> Compiler<'a, 'ctx, E, D> {
    /// The data pointer of a matrix whose runtime layout is
    /// `{ ref_count, rows, cols, data }`.
    fn data_pointer(&self, val: BasicValueEnum<'ctx>, layout: StructType<'ctx>) -> (r: Result<PointerValue<'ctx>, CodegenError>)
        ensures
            r matches Err(e) ==> e is LLVMError,
    {
        let raw = match llvm::basic_as_pointer(val) {
            Some(p) => p,
            None => return Err(comp_failed("into_pointer_value", "an array is a pointer")),
        };
        let typed = match llvm::build_pointer_cast(self.builder, raw, llvm::pointer_to(llvm::struct_type_basic(layout)), "matrix_ptr") {
            Some(p) => p,
            None => return Err(comp_failed("build_pointer_cast", "Failed to type an array pointer")),
        };
        let slot = match llvm::build_struct_gep(self.builder, typed, 3, "data_ptr_ptr") {
            Some(p) => p,
            None => return Err(comp_failed("build_struct_gep", "failed to get data_ptr_ptr in list comprehension")),
        };
        match llvm::basic_as_pointer(self.load_value(slot, self.ptr_basic(), "data_ptr")?) {
            Some(p) => Ok(p),
            None => Err(comp_failed("into_pointer_value", "an array's data is a pointer")),
        }
    }

    /// `matrix_new(1, len)`: a new float array of `len` elements.
    fn new_row(&self, len: IntValue<'ctx>, name: &str) -> (r: Result<BasicValueEnum<'ctx>, CodegenError>)
        ensures
            r matches Err(e) ==> e is LLVMError,
    {
        let i64_ty = llvm::i64_type(self.context);
        let params = vec![llvm::int_type_basic(i64_ty), llvm::int_type_basic(i64_ty)];
        let f = self.string_runtime("matrix_new", &params);
        let args = vec![llvm::int_value_basic(llvm::const_int(i64_ty, 1, false).0), llvm::int_value_basic(len)];
        self.call_for_value(f, &args, name)
    }

    /// The number of elements of an array a comprehension iterates over:
    /// rows × columns. Anything but an array is refused.
    pub fn iterable_length(&self, val: BasicValueEnum<'ctx>, ty: &BrixType) -> (r: Result<IntValue<'ctx>, CodegenError>)
        ensures
            !iterable(ty@) ==> (r matches Err(CodegenError::InvalidOperation { operation, reason })
                && operation@ == "list comprehension"@ && reason@ == "only supports Matrix/IntMatrix iterables for now"@),
            iterable(ty@) ==> (r matches Err(e) ==> e is LLVMError),
    {
        let layout = match ty {
            BrixType::Matrix => self.get_matrix_type(),
            BrixType::IntMatrix => self.get_intmatrix_type(),
            _ => return Err(unsupported(String::from_str("only supports Matrix/IntMatrix iterables for now"))),
        };
        let (rows, cols, _) = self.matrix_parts(val, layout)?;
        match llvm::build_int_mul(self.builder, rows, cols, "len").0 {
            Some(l) => Ok(l),
            None => Err(comp_failed("build_int_mul", "failed to compute len in list comprehension")),
        }
    }

    /// The innermost step of a comprehension: the compiled value `val` of
    /// type `ty` stored at `temp[count]` (an integer converted for a float
    /// array), then `count` incremented. A value the array cannot hold is
    /// refused. The record is what the stores and the increment asked for.
    pub fn store_comprehension_element(
        &self,
        val: BasicValueEnum<'ctx>,
        ty: &BrixType,
        temp_array: BasicValueEnum<'ctx>,
        temp_type: &BrixType,
        count_slot: PointerValue<'ctx>,
    ) -> (r: (Result<(), CodegenError>, Option<ElementStore<'ctx>>))
        ensures
            !storable(temp_type@, ty@) ==> r.0 is Err,
            r.0 matches Err(e) ==> e is LLVMError || (e matches CodegenError::TypeError { context, .. } && !storable(
                temp_type@,
                ty@,
            ) && context@ == (if temp_type@ is Matrix {
                "list comprehension expression"@
            } else {
                "list comprehension IntMatrix expression"@
            })),
            r.0 is Ok ==> (r.1 matches Some(s) && element_stored(s, val, ty@, temp_type@, count_slot)),
    {
        let i64_ty = llvm::i64_type(self.context);
        let loaded = match self.load_value(count_slot, self.i64_basic(), "count") {
            Ok(v) => v,
            Err(e) => return (Err(e), None),
        };
        let count = match llvm::basic_as_int(loaded) {
            Some(c) => c,
            None => return (Err(comp_failed("into_int_value", "the count is an integer")), None),
        };
        let floats = matches!(temp_type, BrixType::Matrix);
        let layout = if floats { self.get_matrix_type() } else { self.get_intmatrix_type() };
        let data = match self.data_pointer(temp_array, layout) {
            Ok(d) => d,
            Err(e) => return (Err(e), None),
        };
        let (stored, elem_ty) = if floats {
            let f64_ty = llvm::f64_type(self.context);
            let v = match ty {
                BrixType::Float => val,
                BrixType::Int => {
                    let i = match llvm::basic_as_int(val) {
                        Some(i) => i,
                        None => return (Err(comp_failed("into_int_value", "an int value is an integer")), None),
                    };
                    match llvm::build_signed_int_to_float(self.builder, i, f64_ty, "int_to_float") {
                        Some(f) => llvm::float_value_basic(f),
                        None => return (Err(comp_failed("build_signed_int_to_float", "failed to convert int to float in comp loop")), None),
                    }
                },
                _ => {
                    return (Err(CodegenError::TypeError {
                        expected: Found::Text(String::from_str("Float or Int")),
                        found: Found::Type(ty.copy()),
                        context: String::from_str("list comprehension expression"),
                    }), None);
                },
            };
            (v, llvm::float_type_basic(f64_ty))
        } else {
            if !matches!(ty, BrixType::Int) {
                return (Err(CodegenError::TypeError {
                    expected: Found::Text(String::from_str("Int")),
                    found: Found::Type(ty.copy()),
                    context: String::from_str("list comprehension IntMatrix expression"),
                }), None);
            }
            (val, llvm::int_type_basic(i64_ty))
        };
        let elem_ptr = match self.element_address(data, count, elem_ty, "elem_ptr") {
            Ok(p) => p,
            Err(e) => return (Err(e), None),
        };
        let (stored_ok, element) = llvm::build_store(self.builder, elem_ptr, stored);
        if !stored_ok {
            return (Err(comp_failed("build_store", "failed to store a comprehension element")), None);
        }
        let (next, step) = llvm::build_int_add(self.builder, count, llvm::const_int(i64_ty, 1, false).0, "next_count");
        let next = match next {
            Some(n) => n,
            None => return (Err(comp_failed("build_int_add", "failed to increment count in comp loop")), None),
        };
        let (count_ok, count_store) = llvm::build_store(self.builder, count_slot, llvm::int_value_basic(next));
        if !count_ok {
            return (Err(comp_failed("build_store", "failed to store the comprehension count")), None);
        }
        (Ok(()), Some(ElementStore { element, step, count: count_store }))
    }

    /// The instructions of one level of a comprehension's loops: clause
    /// `gen_idx` iterating over the compiled array `array` of type
    /// `array_type`. Each name of the clause is bound to a fresh slot (one
    /// name takes each element in turn, several take the elements of each
    /// row); where the clause's conditions all hold, the next level (or,
    /// after the last clause, the store of `expr`) runs. Afterwards the
    /// names are bound again as they were before. An iterable that is not
    /// an array is refused.
    pub fn comp_level<S, C: StatementCompiler<'a, 'ctx, E, D, S>>(
        &mut self,
        sc: &mut C,
        expr: &E,
        generators: &[ComprehensionGen<E>],
        gen_idx: usize,
        array: BasicValueEnum<'ctx>,
        array_type: &BrixType,
        temp_array: BasicValueEnum<'ctx>,
        temp_type: &BrixType,
        count_slot: PointerValue<'ctx>,
    ) -> (r: Result<(), CodegenError>)
        requires
            gen_idx < generators@.len(),
            clauses_bind(generators@),
        ensures
            !iterable(array_type@) ==> (r matches Err(CodegenError::InvalidOperation { operation, .. })
                && operation@ == "list comprehension"@),
            r is Ok ==> count_advanced(final(self).last_element_store, count_slot),
            (r is Ok && distinct_names(generators@[gen_idx as int].var_names@)) ==> forall|k: int|
                0 <= k < generators@[gen_idx as int].var_names@.len() ==> binding(
                    final(self).variables.map(),
                    #[trigger] generators@[gen_idx as int].var_names@[k]@,
                ) == binding(old(self).variables.map(), generators@[gen_idx as int].var_names@[k]@),
        decreases generators@.len() - gen_idx, 0nat,
    {
        let ghost orig = self.variables.map();
        let generator = &generators[gen_idx];
        let names = &generator.var_names;
        let ints = match array_type {
            BrixType::Matrix => false,
            BrixType::IntMatrix => true,
            _ => {
                let mut reason = String::from_str("unsupported iterable type: ");
                let t = debug_text(array_type);
                reason.append(t.as_str());
                return Err(unsupported(reason));
            },
        };
        let layout = if ints { self.get_intmatrix_type() } else { self.get_matrix_type() };
        let (rows, cols, data) = self.matrix_parts(array, layout)?;
        let i64_ty = llvm::i64_type(self.context);
        let elem_ty: BasicTypeEnum<'ctx> = if ints {
            llvm::int_type_basic(i64_ty)
        } else {
            llvm::float_type_basic(llvm::f64_type(self.context))
        };
        let destructuring = names.len() > 1;
        let total = if destructuring {
            rows
        } else {
            match llvm::build_int_mul(self.builder, rows, cols, "total_len").0 {
                Some(t) => t,
                None => return Err(comp_failed("build_int_mul", "failed to compute total_len in comp loop")),
            }
        };
        let here = match llvm::get_insert_block(self.builder) {
            Some(b) => b,
            None => return Err(comp_failed("get_insert_block", "no current block in comp loop")),
        };
        let parent = match llvm::block_parent(here) {
            Some(f) => f,
            None => return Err(comp_failed("get_parent", "block has no parent in comp loop")),
        };
        let cond_bb = llvm::append_basic_block(self.context, parent, numbered("comp_cond_", gen_idx).as_str());
        let body_bb = llvm::append_basic_block(self.context, parent, numbered("comp_body_", gen_idx).as_str());
        let check_bb = llvm::append_basic_block(self.context, parent, numbered("comp_check_", gen_idx).as_str());
        let incr_bb = llvm::append_basic_block(self.context, parent, numbered("comp_incr_", gen_idx).as_str());
        let after_bb = llvm::append_basic_block(self.context, parent, numbered("comp_after_", gen_idx).as_str());
        let idx_slot = self.create_entry_block_alloca(llvm::int_type_basic(i64_ty), numbered("comp_idx_", gen_idx).as_str())?;
        self.store_value(idx_slot, llvm::int_value_basic(llvm::const_int(i64_ty, 0, false).0))?;

        let elem_brix = if ints { BrixType::Int } else { BrixType::Float };
        let (saved, slots) = self.shadow_variables(names.as_slice(), elem_ty, &elem_brix)?;
        self.branch(cond_bb)?;

        llvm::position_at_end(self.builder, cond_bb);
        let cur = match llvm::basic_as_int(self.load_value(idx_slot, self.i64_basic(), "cur_idx")?) {
            Some(c) => c,
            None => return Err(comp_failed("into_int_value", "the loop index is an integer")),
        };
        let more = self.compare(IntPredicate::SLT, cur, total, "loop_cond")?;
        self.branch_on(more, body_bb, after_bb)?;

        llvm::position_at_end(self.builder, body_bb);
        if destructuring {
            let mut j: usize = 0;
            while j < slots.len()
                invariant
                    iterable(array_type@),
                    j <= slots@.len(),
                decreases slots@.len() - j,
            {
                let row_offset = match llvm::build_int_mul(self.builder, cur, cols, "row_offset").0 {
                    Some(o) => o,
                    None => return Err(comp_failed("build_int_mul", "failed to compute row_offset in comp loop")),
                };
                let column = llvm::const_int(i64_ty, j as u64, false).0;
                let offset = match llvm::build_int_add(self.builder, row_offset, column, "elem_offset").0 {
                    Some(o) => o,
                    None => return Err(comp_failed("build_int_add", "failed to compute elem_offset in comp loop")),
                };
                let mut ptr_name = numbered("elem_", j);
                ptr_name.append("_ptr");
                let elem_ptr = self.element_address(data, offset, elem_ty, ptr_name.as_str())?;
                let elem = self.load_value(elem_ptr, elem_ty, numbered("elem_", j).as_str())?;
                self.store_value(slots[j], elem)?;
                j = j + 1;
            }
        } else {
            let elem_ptr = self.element_address(data, cur, elem_ty, "elem_ptr")?;
            let elem = self.load_value(elem_ptr, elem_ty, "elem")?;
            self.store_value(slots[0], elem)?;
        }
        self.branch(check_bb)?;

        llvm::position_at_end(self.builder, check_bb);
        let conditions = &generator.conditions;
        if conditions.len() > 0 {
            let zero = llvm::const_int(i64_ty, 0, false).0;
            let mut combined: Option<IntValue<'ctx>> = None;
            let mut c: usize = 0;
            while c < conditions.len()
                invariant
                    iterable(array_type@),
                    c <= conditions@.len(),
                decreases conditions@.len() - c,
            {
                let (cond_val, _) = sc.compile_expr(self, &conditions[c])?;
                let cond_int = match llvm::basic_as_int(cond_val) {
                    Some(v) => v,
                    None => return Err(comp_failed("into_int_value", "a condition is an integer")),
                };
                let cond_bool = self.compare(IntPredicate::NE, cond_int, zero, "cond_bool")?;
                combined = match combined {
                    Some(prev) => match llvm::build_and(self.builder, prev, cond_bool, "combined_cond").0 {
                        Some(v) => Some(v),
                        None => return Err(comp_failed("build_and", "failed to combine conditions in comp loop")),
                    },
                    None => Some(cond_bool),
                };
                c = c + 1;
            }
            let recurse_bb = llvm::append_basic_block(self.context, parent, numbered("comp_recurse_", gen_idx).as_str());
            let all_hold = match combined {
                Some(v) => v,
                None => {
                    return Err(CodegenError::MissingValue {
                        what: String::from_str("combined_cond"),
                        context: String::from_str("comp loop conditions"),
                    });
                },
            };
            self.branch_on(all_hold, recurse_bb, incr_bb)?;
            llvm::position_at_end(self.builder, recurse_bb);
        }
        self.generate_comp_loop(sc, expr, generators, gen_idx + 1, temp_array, temp_type, count_slot)?;
        self.branch(incr_bb)?;

        llvm::position_at_end(self.builder, incr_bb);
        let next = match llvm::build_int_add(self.builder, cur, llvm::const_int(i64_ty, 1, false).0, "next_idx").0 {
            Some(n) => n,
            None => return Err(comp_failed("build_int_add", "failed to increment idx in comp loop")),
        };
        self.store_value(idx_slot, llvm::int_value_basic(next))?;
        self.branch(cond_bb)?;

        llvm::position_at_end(self.builder, after_bb);
        let ghost kept = saved@;
        self.restore_variables(saved);
        proof {
            if distinct_names(names@) {
                lemma_saved_names_distinct(kept, names@, orig);
                assert forall|k: int| 0 <= k < names@.len() implies binding(
                    self.variables.map(),
                    #[trigger] names@[k]@,
                ) == binding(orig, names@[k]@) by {
                    assert(kept[k].0@ == names@[k]@);
                }
            }
        }
        Ok(())
    }

    /// The loops of a comprehension from clause `gen_idx` on: the clause's
    /// iterable compiled, then its level; past the last clause, `expr`
    /// compiled and stored at `temp[count]`, and the count advanced. What
    /// the last store asked for is kept in `last_element_store`.
    pub fn generate_comp_loop<S, C: StatementCompiler<'a, 'ctx, E, D, S>>(
        &mut self,
        sc: &mut C,
        expr: &E,
        generators: &[ComprehensionGen<E>],
        gen_idx: usize,
        temp_array: BasicValueEnum<'ctx>,
        temp_type: &BrixType,
        count_slot: PointerValue<'ctx>,
    ) -> (r: Result<(), CodegenError>)
        requires
            clauses_bind(generators@),
        ensures
            r is Ok ==> count_advanced(final(self).last_element_store, count_slot),
        decreases generators@.len() - gen_idx, 1nat,
    {
        if gen_idx >= generators.len() {
            let (val, ty) = sc.compile_expr(self, expr)?;
            let (stored, record) = self.store_comprehension_element(val, &ty, temp_array, temp_type, count_slot);
            stored?;
            self.last_element_store = record;
            return Ok(());
        }
        let (array, array_type) = sc.compile_expr(self, &generators[gen_idx].iterable)?;
        self.comp_level(sc, expr, generators, gen_idx, array, &array_type, temp_array, temp_type, count_slot)
    }

    /// `[expr for ... in ... if ...]`: a float array holding, in loop order,
    /// the values of `expr` for the combinations of elements that pass the
    /// conditions. Its room is first the product of the iterables' lengths;
    /// the values found are then copied into an array of exactly their
    /// number. A comprehension without a clause, or over something other
    /// than arrays, is refused.
    pub fn compile_list_comprehension<S, C: StatementCompiler<'a, 'ctx, E, D, S>>(
        &mut self,
        sc: &mut C,
        expr: &E,
        generators: &[ComprehensionGen<E>],
    ) -> (r: Result<(BasicValueEnum<'ctx>, BrixType), CodegenError>)
        requires
            clauses_bind(generators@),
        ensures
            generators@.len() == 0 ==> (r matches Err(CodegenError::InvalidOperation { operation, reason })
                && operation@ == "list comprehension"@ && reason@ == "must have at least one generator"@),
            generators@.len() == 0 ==> *final(self) == *old(self),
            r matches Ok((_, t)) ==> t@ is Matrix,
            r is Ok ==> (final(self).last_element_store matches Some(e) && e.step.emitted() matches Emitted::Int(
                IntInstr::Add,
                _,
                _,
            )),
    {
        if generators.len() == 0 {
            return Err(unsupported(String::from_str("must have at least one generator")));
        }
        let i64_ty = llvm::i64_type(self.context);
        let mut total = llvm::const_int(i64_ty, 1, false).0;
        let mut g: usize = 0;
        while g < generators.len()
            invariant
                g <= generators@.len(),
            decreases generators@.len() - g,
        {
            let (array, array_type) = sc.compile_expr(self, &generators[g].iterable)?;
            let len = self.iterable_length(array, &array_type)?;
            total = match llvm::build_int_mul(self.builder, total, len, "total_size").0 {
                Some(t) => t,
                None => return Err(comp_failed("build_int_mul", "Failed to compute total size for list comprehension")),
            };
            g = g + 1;
        }
        let temp_type = BrixType::Matrix;
        let temp = self.new_row(total, "temp_array")?;
        let count_slot = self.create_entry_block_alloca(llvm::int_type_basic(i64_ty), "comp_count")?;
        self.store_value(count_slot, llvm::int_value_basic(llvm::const_int(i64_ty, 0, false).0))?;
        self.generate_comp_loop(sc, expr, generators, 0, temp, &temp_type, count_slot)?;
        let final_count = match llvm::basic_as_int(self.load_value(count_slot, self.i64_basic(), "final_count")?) {
            Some(c) => c,
            None => return Err(comp_failed("into_int_value", "the count is an integer")),
        };
        let result = self.new_row(final_count, "result_array")?;

        let here = match llvm::get_insert_block(self.builder) {
            Some(b) => b,
            None => return Err(comp_failed("get_insert_block", "no current block in list comprehension copy")),
        };
        let parent = match llvm::block_parent(here) {
            Some(f) => f,
            None => return Err(comp_failed("get_parent", "block has no parent function in list comprehension copy")),
        };
        let copy_cond = llvm::append_basic_block(self.context, parent, "copy_cond");
        let copy_body = llvm::append_basic_block(self.context, parent, "copy_body");
        let copy_after = llvm::append_basic_block(self.context, parent, "copy_after");
        let idx_slot = self.create_entry_block_alloca(llvm::int_type_basic(i64_ty), "copy_idx")?;
        self.store_value(idx_slot, llvm::int_value_basic(llvm::const_int(i64_ty, 0, false).0))?;
        self.branch(copy_cond)?;

        llvm::position_at_end(self.builder, copy_cond);
        let idx = match llvm::basic_as_int(self.load_value(idx_slot, self.i64_basic(), "copy_idx")?) {
            Some(i) => i,
            None => return Err(comp_failed("into_int_value", "the copy index is an integer")),
        };
        let more = self.compare(IntPredicate::SLT, idx, final_count, "copy_cond")?;
        self.branch_on(more, copy_body, copy_after)?;

        llvm::position_at_end(self.builder, copy_body);
        let layout = self.get_matrix_type();
        let f64_ty = llvm::float_type_basic(llvm::f64_type(self.context));
        let temp_data = self.data_pointer(temp, layout)?;
        let result_data = self.data_pointer(result, layout)?;
        let from = self.element_address(temp_data, idx, f64_ty, "temp_elem_ptr")?;
        let elem = self.load_value(from, f64_ty, "temp_elem")?;
        let to = self.element_address(result_data, idx, f64_ty, "result_elem_ptr")?;
        self.store_value(to, elem)?;
        let next = match llvm::build_int_add(self.builder, idx, llvm::const_int(i64_ty, 1, false).0, "next_copy_idx").0 {
            Some(n) => n,
            None => return Err(comp_failed("build_int_add", "failed to increment copy_idx")),
        };
        self.store_value(idx_slot, llvm::int_value_basic(next))?;
        self.branch(copy_cond)?;

        llvm::position_at_end(self.builder, copy_after);
        Ok((result, temp_type))
    }
}

/// Every element of an array literal is an `int`.
pub open spec fn all_ints<'ctx>(elements: Seq<(BasicValueEnum<'ctx>, BrixType)>) -> bool {
    forall|i: int| 0 <= i < elements.len() ==> (#[trigger] elements[i]).1@ is Int
}

impl<'a, 'ctx, E, D> Compiler<'a, 'ctx, E, D> {
    /// The array of an array literal, from its compiled elements: an
    /// integer array (`intmatrix_new(1, n)`) when every element is an
    /// `int`, else a float array (`matrix_new(1, n)`) with integer elements
    /// converted; the elements are stored in order.
    pub fn build_array_literal(&self, elements: &Vec<(BasicValueEnum<'ctx>, BrixType)>) -> (r: Result<(BasicValueEnum<'ctx>, BrixType), CodegenError>)
        ensures
            r matches Ok((_, t)) ==> (all_ints(elements@) ==> t@ is IntMatrix) && (!all_ints(elements@) ==> t@ is Matrix),
            r matches Err(e) ==> e is LLVMError || e is MissingValue,
    {
        let mut ints = true;
        let mut k: usize = 0;
        while k < elements.len()
            invariant
                k <= elements@.len(),
                ints == forall|i: int| 0 <= i < k ==> (#[trigger] elements@[i]).1@ is Int,
            decreases elements@.len() - k,
        {
            if !matches!(elements[k].1, BrixType::Int) {
                ints = false;
            }
            k = k + 1;
        }
        let i64_ty = llvm::i64_type(self.context);
        let n = elements.len() as u64;
        let (runtime, call_name, layout, elem_ty) = if ints {
            ("intmatrix_new", "alloc_intarr", self.get_intmatrix_type(), llvm::int_type_basic(i64_ty))
        } else {
            ("matrix_new", "alloc_arr", self.get_matrix_type(), llvm::float_type_basic(llvm::f64_type(self.context)))
        };
        let params = vec![llvm::int_type_basic(i64_ty), llvm::int_type_basic(i64_ty)];
        let f = self.string_runtime(runtime, &params);
        let args = vec![
            llvm::int_value_basic(llvm::const_int(i64_ty, 1, false).0),
            llvm::int_value_basic(llvm::const_int(i64_ty, n, false).0),
        ];
        let call = match llvm::build_call(self.builder, f, &args, call_name).0 {
            Some(c) => c,
            None => {
                let mut details = String::from_str("Failed to call ");
                details.append(runtime);
                return Err(CodegenError::LLVMError { operation: String::from_str("build_call"), details });
            },
        };
        let array = match call {
            Some(v) => v,
            None => {
                let mut what = String::from_str(runtime);
                what.append(" return value");
                return Err(CodegenError::MissingValue { what, context: String::from_str("array literal") });
            },
        };
        let data = self.data_pointer(array, layout)?;
        let mut i: usize = 0;
        while i < elements.len()
            invariant
                i <= elements@.len(),
            decreases elements@.len() - i,
        {
            let (val, ty) = (elements[i].0, &elements[i].1);
            let stored = if ints {
                val
            } else if matches!(ty, BrixType::Int) {
                let v = match llvm::basic_as_int(val) {
                    Some(v) => v,
                    None => return Err(comp_failed("into_int_value", "an int element is an integer")),
                };
                match llvm::build_signed_int_to_float(self.builder, v, llvm::f64_type(self.context), "cast") {
                    Some(f) => llvm::float_value_basic(f),
                    None => return Err(comp_failed("build_signed_int_to_float", "Failed to cast int to float for array element")),
                }
            } else {
                match llvm::basic_as_float(val) {
                    Some(f) => llvm::float_value_basic(f),
                    None => return Err(comp_failed("into_float_value", "an element of a float array is a number")),
                }
            };
            let index = llvm::const_int(i64_ty, i as u64, false).0;
            let slot = self.element_address(data, index, elem_ty, "elem_ptr")?;
            self.store_value(slot, stored)?;
            i = i + 1;
        }
        Ok((array, if ints { BrixType::IntMatrix } else { BrixType::Matrix }))
    }

    /// `[a, b, c]`: the elements compiled by `sc` in order, then the array
    /// built from them.
    pub fn compile_array_literal<S, C: StatementCompiler<'a, 'ctx, E, D, S>>(
        &mut self,
        sc: &mut C,
        elements: &[E],
    ) -> (r: Result<(BasicValueEnum<'ctx>, BrixType), CodegenError>)
        ensures
            r matches Ok((_, t)) ==> (t@ is IntMatrix || t@ is Matrix),
            elements@.len() == 0 ==> (r matches Ok((_, t)) ==> t@ is IntMatrix),
    {
        let mut compiled: Vec<(BasicValueEnum<'ctx>, BrixType)> = Vec::new();
        let mut i: usize = 0;
        while i < elements.len()
            invariant
                i <= elements@.len(),
                compiled@.len() == i,
            decreases elements@.len() - i,
        {
            let (v, t) = sc.compile_expr(self, &elements[i])?;
            compiled.push((v, t));
            i = i + 1;
        }
        self.build_array_literal(&compiled)
    }
}

} // verus!
