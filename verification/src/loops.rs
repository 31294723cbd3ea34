//! `for` loops: over an integer range `start..end` (with an optional
//! step), and over the elements, or the rows, of an array.
//!
//! The loop variables shadow any variables of the same names while the
//! body is compiled; afterwards those names are bound again as they were.

use vstd::prelude::*;
use inkwell::types::BasicTypeEnum;
use inkwell::values::{BasicValueEnum, FunctionValue, PointerValue, IntValue};
use crate::types::{BrixType, TypeModel};
use crate::compiler::{Compiler, CodegenError, Found, StatementCompiler};
use crate::comprehension::{binding, distinct_names};
use crate::stringify::numbered;
use crate::ops::IntPredicate;
use crate::llvm::{self, Record, Emitted, IntInstr};

verus! {

/// The records of a range loop: the test `counter <= end`, then the step
/// of the counter by `step` (by the constant 1 when there is none).
pub open spec fn range_loop<'ctx>(l: Seq<Record<'ctx>>, end: BasicValueEnum<'ctx>, step: Option<BasicValueEnum<'ctx>>) -> bool {
    &&& l.len() == 2
    &&& l[0].emitted() matches Emitted::IntCompare(IntPredicate::SLE, _, e) && llvm::int_value_as_basic(e) == end
    &&& l[1].emitted() matches Emitted::Int(IntInstr::Add, _, s) && (step matches Some(v) ==> llvm::int_value_as_basic(s) == v)
}

/// The shape of a range loop's records: the test `counter <= end`, then
/// an addition to the counter.
pub open spec fn range_loop_shape<'ctx>(l: Seq<Record<'ctx>>) -> bool {
    &&& l.len() == 2
    &&& l[0].emitted() matches Emitted::IntCompare(IntPredicate::SLE, _, _)
    &&& l[1].emitted() matches Emitted::Int(IntInstr::Add, _, _)
}

/// The records of a loop over an array: the test `index < length`, then
/// the step of the hidden index by one.
pub open spec fn array_loop<'ctx>(l: Seq<Record<'ctx>>) -> bool {
    &&& l.len() == 2
    &&& l[0].emitted() matches Emitted::IntCompare(IntPredicate::SLT, _, _)
    &&& l[1].emitted() matches Emitted::Int(IntInstr::Add, _, _)
}

/// A name and what it was bound to before a loop shadowed it.
pub type SavedBinding<'ctx> = (String, Option<(PointerValue<'ctx>, BrixType)>);

/// The names of saved bindings, in order.
pub open spec fn saved_names<'ctx>(s: Seq<SavedBinding<'ctx>>) -> Seq<String> {
    Seq::new(s.len(), |i: int| s[i].0)
}

/// `names` is the sequence of names of `saved`, and, where the names are
/// distinct, each saved binding is the name's binding in `m`.
pub open spec fn saves_of<'ctx>(
    saved: Seq<SavedBinding<'ctx>>,
    names: Seq<String>,
    m: Map<Seq<char>, (PointerValue<'ctx>, BrixType)>,
) -> bool {
    &&& saved.len() == names.len()
    &&& forall|k: int| 0 <= k < saved.len() ==> (#[trigger] saved[k]).0@ == names[k]@
    &&& distinct_names(names) ==> forall|k: int|
        0 <= k < saved.len() ==> (#[trigger] saved[k]).1 == binding(m, names[k]@)
}

/// Saved bindings of distinct names have distinct names.
pub proof fn lemma_saved_names_distinct<'ctx>(
    saved: Seq<SavedBinding<'ctx>>,
    names: Seq<String>,
    m: Map<Seq<char>, (PointerValue<'ctx>, BrixType)>,
)
    requires
        saves_of(saved, names, m),
        distinct_names(names),
    ensures
        distinct_names(saved_names(saved)),
        forall|k: int| 0 <= k < saved.len() ==> (#[trigger] saved[k]).1 == binding(m, names[k]@),
{
    assert forall|a: int, b: int|
        0 <= a < saved.len() && 0 <= b < saved.len() && a != b implies #[trigger] saved_names(saved)[a]@
            != #[trigger] saved_names(saved)[b]@ by {
        assert(saved_names(saved)[a]@ == names[a]@);
        assert(saved_names(saved)[b]@ == names[b]@);
    }
}

/// `n` is bound in `m` to `slot`, holding values of type `t`.
pub open spec fn bound_to<'ctx>(
    m: Map<Seq<char>, (PointerValue<'ctx>, BrixType)>,
    n: Seq<char>,
    slot: PointerValue<'ctx>,
    t: TypeModel,
) -> bool {
    m.dom().contains(n) && m[n].0 == slot && m[n].1@ == t
}

fn range_arity() -> (e: CodegenError)
    ensures
        e matches CodegenError::InvalidOperation { operation, reason } && operation@ == "Range iteration"@
            && reason@ == "Range iteration supports only single variable"@,
{
    CodegenError::InvalidOperation {
        operation: String::from_str("Range iteration"),
        reason: String::from_str("Range iteration supports only single variable"),
    }
}

fn loop_failed(details: &str) -> (e: CodegenError)
    ensures
        e is LLVMError,
{
    CodegenError::LLVMError { operation: String::from_str("for loop"), details: String::from_str(details) }
}

impl<'a, 'ctx, E, D> Compiler<'a, 'ctx, E, D> {
    /// Binds each of `names` to a fresh entry-block slot of `elem` holding
    /// values of type `elem_type`; returns the bindings the names had and
    /// the slots, in the order of `names`.
    pub fn shadow_variables(
        &mut self,
        names: &[String],
        elem: BasicTypeEnum<'ctx>,
        elem_type: &BrixType,
    ) -> (r: Result<(Vec<SavedBinding<'ctx>>, Vec<PointerValue<'ctx>>), CodegenError>)
        ensures
            r matches Ok((saved, slots)) ==> {
                &&& saves_of(saved@, names@, old(self).variables.map())
                &&& slots@.len() == names@.len()
                &&& distinct_names(names@) ==> forall|k: int|
                    0 <= k < names@.len() ==> bound_to(final(self).variables.map(), #[trigger] names@[k]@, slots@[k], elem_type@)
            },
            r matches Err(e) ==> e is LLVMError || e is MissingValue,
    {
        let ghost orig = self.variables.map();
        let mut saved: Vec<SavedBinding<'ctx>> = Vec::new();
        let mut slots: Vec<PointerValue<'ctx>> = Vec::new();
        let mut i: usize = 0;
        while i < names.len()
            invariant
                i <= names@.len(),
                saved@.len() == i,
                slots@.len() == i,
                forall|k: int| 0 <= k < i ==> (#[trigger] saved@[k]).0@ == names@[k]@,
                distinct_names(names@) ==> forall|k: int| 0 <= k < i ==> (#[trigger] saved@[k]).1 == binding(orig, names@[k]@),
                distinct_names(names@) ==> forall|k: int|
                    i <= k < names@.len() ==> binding(self.variables.map(), #[trigger] names@[k]@) == binding(orig, names@[k]@),
                distinct_names(names@) ==> forall|k: int|
                    0 <= k < i ==> bound_to(self.variables.map(), #[trigger] names@[k]@, slots@[k], elem_type@),
            decreases names@.len() - i,
        {
            let name = &names[i];
            let slot = self.create_entry_block_alloca(elem, name.as_str())?;
            let ghost before = self.variables.map();
            let old_binding = self.variables.remove(name.as_str());
            self.variables.insert(name.clone(), (slot, elem_type.copy()));
            proof {
                assert(old_binding == binding(before, name@));
                if distinct_names(names@) {
                    assert forall|k: int| i + 1 <= k < names@.len() implies binding(
                        self.variables.map(),
                        #[trigger] names@[k]@,
                    ) == binding(orig, names@[k]@) by {
                        assert(names@[k]@ != names@[i as int]@);
                        assert(binding(before, names@[k]@) == binding(orig, names@[k]@));
                    }
                    assert forall|k: int| 0 <= k < i + 1 implies bound_to(
                        self.variables.map(),
                        #[trigger] names@[k]@,
                        slots@.push(slot)[k],
                        elem_type@,
                    ) by {
                        if k < i {
                            assert(names@[k]@ != names@[i as int]@);
                            assert(bound_to(before, names@[k]@, slots@[k], elem_type@));
                        }
                    }
                }
            }
            saved.push((name.clone(), old_binding));
            slots.push(slot);
            i = i + 1;
        }
        Ok((saved, slots))
    }

    /// Binds each saved name again as it was: to its saved binding, or to
    /// nothing. Other names keep their bindings.
    pub fn restore_variables(&mut self, saved: Vec<SavedBinding<'ctx>>)
        ensures
            distinct_names(saved_names(saved@)) ==> forall|k: int|
                0 <= k < saved@.len() ==> binding(final(self).variables.map(), #[trigger] saved@[k].0@) == saved@[k].1,
            final(self).last_element_store == old(self).last_element_store,
            forall|n: Seq<char>|
                (forall|k: int| 0 <= k < saved@.len() ==> #[trigger] saved@[k].0@ != n) ==> binding(
                    final(self).variables.map(),
                    n,
                ) == binding(old(self).variables.map(), n),
    {
        let ghost snapshot = saved@;
        let ghost names = saved_names(saved@);
        let ghost start = self.variables.map();
        let n_saved = saved.len();
        let mut rest = saved;
        while rest.len() > 0
            invariant
                n_saved == snapshot.len(),
                names == saved_names(snapshot),
                rest@.len() <= n_saved,
                rest@ == snapshot.subrange(n_saved - rest@.len(), n_saved as int),
                self.last_element_store == old(self).last_element_store,
                distinct_names(names) ==> forall|k: int|
                    0 <= k < n_saved - rest@.len() ==> binding(self.variables.map(), #[trigger] snapshot[k].0@)
                        == snapshot[k].1,
                forall|n: Seq<char>|
                    (forall|k: int| 0 <= k < snapshot.len() ==> #[trigger] snapshot[k].0@ != n) ==> binding(
                        self.variables.map(),
                        n,
                    ) == binding(start, n),
            decreases rest@.len(),
        {
            let ghost p = n_saved - rest@.len();
            let ghost before = self.variables.map();
            let (name, old_binding) = rest.remove(0);
            assert(name@ == snapshot[p].0@ && old_binding == snapshot[p].1) by {
                assert(snapshot.subrange(p, n_saved as int)[0] == snapshot[p]);
            }
            match old_binding {
                Some(b) => {
                    self.variables.insert(name, b);
                },
                None => {
                    self.variables.remove(name.as_str());
                },
            }
            proof {
                assert(rest@ =~= snapshot.subrange(p + 1, n_saved as int));
                if distinct_names(names) {
                    assert forall|k: int| 0 <= k < p + 1 implies binding(self.variables.map(), #[trigger] snapshot[k].0@)
                        == snapshot[k].1 by {
                        if k < p {
                            assert(names[k] == snapshot[k].0);
                            assert(names[p] == snapshot[p].0);
                            assert(snapshot[k].0@ != snapshot[p].0@);
                            assert(binding(before, snapshot[k].0@) == snapshot[k].1);
                        }
                    }
                }
                assert forall|n: Seq<char>|
                    (forall|k: int| 0 <= k < snapshot.len() ==> #[trigger] snapshot[k].0@ != n) implies binding(
                        self.variables.map(),
                        n,
                    ) == binding(start, n) by {
                    assert(snapshot[p].0@ != n);
                    assert(binding(before, n) == binding(start, n));
                }
            }
        }
        proof {
            assert(n_saved - rest@.len() == n_saved);
        }
    }

    fn int_operand(&self, v: BasicValueEnum<'ctx>, what: &str) -> (r: Result<IntValue<'ctx>, CodegenError>)
        ensures
            r matches Err(e) ==> e is LLVMError,
            r matches Ok(i) ==> llvm::int_value_as_basic(i) == v,
    {
        match llvm::basic_as_int(v) {
            Some(i) => Ok(i),
            None => Err(loop_failed(what)),
        }
    }

    /// `for name in start..end` (stepping by `step`, or by 1), with the
    /// bounds and the step already compiled: an integer slot named after
    /// the variable starts at `start`; while it is at most `end` the body
    /// runs and the slot grows by the step. Only one variable can take a
    /// range; afterwards it is bound again as before.
    pub fn iterate_range<S, C: StatementCompiler<'a, 'ctx, E, D, S>>(
        &mut self,
        sc: &mut C,
        var_names: &[String],
        start: BasicValueEnum<'ctx>,
        end: BasicValueEnum<'ctx>,
        step: Option<BasicValueEnum<'ctx>>,
        body: &S,
        function: FunctionValue<'ctx>,
    ) -> (r: Result<(), CodegenError>)
        ensures
            var_names@.len() != 1 ==> (r matches Err(CodegenError::InvalidOperation { operation, reason })
                && operation@ == "Range iteration"@ && reason@ == "Range iteration supports only single variable"@),
            (r is Ok && var_names@.len() == 1) ==> binding(final(self).variables.map(), var_names@[0]@)
                == binding(old(self).variables.map(), var_names@[0]@),
            r is Ok ==> range_loop(final(self).last_loop@, end, step),
    {
        if var_names.len() != 1 {
            return Err(range_arity());
        }
        let i64_ty = llvm::i64_type(self.context);
        let step_int = match step {
            Some(v) => self.int_operand(v, "a range step is an integer")?,
            None => llvm::const_int(i64_ty, 1, false).0,
        };
        let start_int = self.int_operand(start, "a range start is an integer")?;
        let end_int = self.int_operand(end, "a range end is an integer")?;
        let (saved, slots) = self.shadow_variables(var_names, llvm::int_type_basic(i64_ty), &BrixType::Int)?;
        let counter = slots[0];
        self.store_value(counter, llvm::int_value_basic(start_int))?;
        let cond_bb = llvm::append_basic_block(self.context, function, "for_cond");
        let body_bb = llvm::append_basic_block(self.context, function, "for_body");
        let inc_bb = llvm::append_basic_block(self.context, function, "for_inc");
        let after_bb = llvm::append_basic_block(self.context, function, "for_after");
        self.branch(cond_bb)?;

        llvm::position_at_end(self.builder, cond_bb);
        let cur = self.int_operand(self.load_value(counter, self.i64_basic(), "i_val")?, "the loop counter is an integer")?;
        let (more, test) = llvm::build_int_compare(self.builder, IntPredicate::SLE, cur, end_int, "loop_cond");
        let more = match more {
            Some(m) => m,
            None => return Err(loop_failed("Failed to compare the loop counter")),
        };
        self.branch_on(more, body_bb, after_bb)?;

        llvm::position_at_end(self.builder, body_bb);
        sc.compile_stmt(self, body, function)?;
        self.branch(inc_bb)?;

        llvm::position_at_end(self.builder, inc_bb);
        let now = self.int_operand(self.load_value(counter, self.i64_basic(), "i_load")?, "the loop counter is an integer")?;
        let (next, stepped) = llvm::build_int_add(self.builder, now, step_int, "i_next");
        let next = match next {
            Some(n) => n,
            None => return Err(loop_failed("Failed to step the loop counter")),
        };
        self.store_value(counter, llvm::int_value_basic(next))?;
        self.branch(cond_bb)?;

        llvm::position_at_end(self.builder, after_bb);
        let ghost kept = saved@;
        self.restore_variables(saved);
        proof {
            assert(saved_names(kept)[0] == kept[0].0);
            assert(distinct_names(saved_names(kept)));
            assert(binding(self.variables.map(), kept[0].0@) == kept[0].1);
        }
        self.last_loop = vec![test, stepped];
        Ok(())
    }

    /// `for name in start..end` or `start..end..step`: refused unless there
    /// is exactly one variable; otherwise the bounds and the step are
    /// compiled, in that order, and the range walked.
    pub fn compile_for_range<S, C: StatementCompiler<'a, 'ctx, E, D, S>>(
        &mut self,
        sc: &mut C,
        var_names: &[String],
        start: &E,
        end: &E,
        step: Option<&E>,
        body: &S,
        function: FunctionValue<'ctx>,
    ) -> (r: Result<(), CodegenError>)
        ensures
            var_names@.len() != 1 ==> (r matches Err(CodegenError::InvalidOperation { operation, reason })
                && operation@ == "Range iteration"@ && reason@ == "Range iteration supports only single variable"@),
            r is Ok ==> range_loop_shape(final(self).last_loop@),
    {
        if var_names.len() != 1 {
            return Err(range_arity());
        }
        let (start_val, _) = sc.compile_expr(self, start)?;
        let (end_val, _) = sc.compile_expr(self, end)?;
        let step_val = match step {
            Some(e) => Some(sc.compile_expr(self, e)?.0),
            None => None,
        };
        self.iterate_range(sc, var_names, start_val, end_val, step_val, body, function)
    }

    /// `for names in array`: an array of floats (`matrix`) or integers
    /// (`intmatrix`), whose compiled value is `array`, is walked by a hidden
    /// index. One name takes each element in turn; several names take the
    /// elements of each row, one name per column. The names are bound to
    /// slots of the element type while the body runs, and bound again as
    /// before afterwards. Anything but an array is refused.
    pub fn iterate_array<S, C: StatementCompiler<'a, 'ctx, E, D, S>>(
        &mut self,
        sc: &mut C,
        var_names: &[String],
        array: BasicValueEnum<'ctx>,
        array_type: &BrixType,
        body: &S,
        function: FunctionValue<'ctx>,
    ) -> (r: Result<(), CodegenError>)
        requires
            var_names@.len() > 0,
        ensures
            !(array_type@ is Matrix || array_type@ is IntMatrix) ==> (r matches Err(
                CodegenError::TypeError { expected: Found::Text(x), found: Found::Type(t), context },
            ) && x@ == "Matrix or IntMatrix"@ && t@ == array_type@ && context@ == "For loop iterable"@),
            (r is Ok && distinct_names(var_names@)) ==> forall|k: int|
                0 <= k < var_names@.len() ==> binding(final(self).variables.map(), #[trigger] var_names@[k]@)
                    == binding(old(self).variables.map(), var_names@[k]@),
            r is Ok ==> array_loop(final(self).last_loop@),
    {
        let ints = match array_type {
            BrixType::Matrix => false,
            BrixType::IntMatrix => true,
            _ => {
                return Err(CodegenError::TypeError {
                    expected: Found::Text(String::from_str("Matrix or IntMatrix")),
                    found: Found::Type(array_type.copy()),
                    context: String::from_str("For loop iterable"),
                });
            },
        };
        let i64_ty = llvm::i64_type(self.context);
        let layout = if ints { self.get_intmatrix_type() } else { self.get_matrix_type() };
        let (rows, cols, data) = self.matrix_parts(array, layout)?;
        let destructuring = var_names.len() > 1;
        let total = if destructuring {
            rows
        } else {
            match llvm::build_int_mul(self.builder, rows, cols, "total_len").0 {
                Some(t) => t,
                None => return Err(loop_failed("Failed to count the elements")),
            }
        };
        let idx_slot = self.create_entry_block_alloca(llvm::int_type_basic(i64_ty), "_hidden_idx")?;
        self.store_value(idx_slot, llvm::int_value_basic(llvm::const_int(i64_ty, 0, false).0))?;
        let (elem_ty, elem_brix) = if ints {
            (llvm::int_type_basic(i64_ty), BrixType::Int)
        } else {
            (llvm::float_type_basic(llvm::f64_type(self.context)), BrixType::Float)
        };
        let (saved, slots) = self.shadow_variables(var_names, elem_ty, &elem_brix)?;
        let cond_bb = llvm::append_basic_block(self.context, function, "arr_cond");
        let body_bb = llvm::append_basic_block(self.context, function, "arr_body");
        let inc_bb = llvm::append_basic_block(self.context, function, "arr_inc");
        let after_bb = llvm::append_basic_block(self.context, function, "arr_after");
        self.branch(cond_bb)?;

        llvm::position_at_end(self.builder, cond_bb);
        let cur = self.int_operand(self.load_value(idx_slot, self.i64_basic(), "cur_idx")?, "the hidden index is an integer")?;
        let (more, test) = llvm::build_int_compare(self.builder, IntPredicate::SLT, cur, total, "check_idx");
        let more = match more {
            Some(m) => m,
            None => return Err(loop_failed("Failed to compare the hidden index")),
        };
        self.branch_on(more, body_bb, after_bb)?;

        llvm::position_at_end(self.builder, body_bb);
        if destructuring {
            let mut j: usize = 0;
            while j < slots.len()
                invariant
                    array_type@ is Matrix || array_type@ is IntMatrix,
                    j <= slots@.len(),
                decreases slots@.len() - j,
            {
                let row_offset = match llvm::build_int_mul(self.builder, cur, cols, "row_offset").0 {
                    Some(o) => o,
                    None => return Err(loop_failed("Failed to compute a row offset")),
                };
                let column = llvm::const_int(i64_ty, j as u64, false).0;
                let offset = match llvm::build_int_add(self.builder, row_offset, column, "elem_offset").0 {
                    Some(o) => o,
                    None => return Err(loop_failed("Failed to compute an element offset")),
                };
                let mut ptr_name = numbered("elem_", j);
                ptr_name.append("_ptr");
                let elem_ptr = self.element_address(data, offset, elem_ty, ptr_name.as_str())?;
                let elem = self.load_value(elem_ptr, elem_ty, numbered("elem_", j).as_str())?;
                self.store_value(slots[j], elem)?;
                j = j + 1;
            }
        } else {
            let elem_ptr = self.element_address(data, cur, elem_ty, "elem_ptr")?;
            let elem = self.load_value(elem_ptr, elem_ty, "elem_val")?;
            self.store_value(slots[0], elem)?;
        }
        sc.compile_stmt(self, body, function)?;
        self.branch(inc_bb)?;

        llvm::position_at_end(self.builder, inc_bb);
        let now = self.int_operand(self.load_value(idx_slot, self.i64_basic(), "idx_load")?, "the hidden index is an integer")?;
        let (next, stepped) = llvm::build_int_add(self.builder, now, llvm::const_int(i64_ty, 1, false).0, "idx_next");
        let next = match next {
            Some(n) => n,
            None => return Err(loop_failed("Failed to step the hidden index")),
        };
        self.store_value(idx_slot, llvm::int_value_basic(next))?;
        self.branch(cond_bb)?;

        llvm::position_at_end(self.builder, after_bb);
        let ghost kept = saved@;
        self.restore_variables(saved);
        proof {
            if distinct_names(var_names@) {
                lemma_saved_names_distinct(kept, var_names@, old(self).variables.map());
                assert forall|k: int| 0 <= k < var_names@.len() implies binding(
                    self.variables.map(),
                    #[trigger] var_names@[k]@,
                ) == binding(old(self).variables.map(), var_names@[k]@) by {
                    assert(kept[k].0@ == var_names@[k]@);
                }
            }
        }
        self.last_loop = vec![test, stepped];
        Ok(())
    }

    /// `for names in iterable` over anything but a range: the iterable is
    /// compiled, then walked as an array.
    pub fn compile_for_each<S, C: StatementCompiler<'a, 'ctx, E, D, S>>(
        &mut self,
        sc: &mut C,
        var_names: &[String],
        iterable: &E,
        body: &S,
        function: FunctionValue<'ctx>,
    ) -> (r: Result<(), CodegenError>)
        requires
            var_names@.len() > 0,
        ensures
            r is Ok ==> array_loop(final(self).last_loop@),
    {
        let (array, array_type) = sc.compile_expr(self, iterable)?;
        self.iterate_array(sc, var_names, array, &array_type, body, function)
    }
}

} // verus!
