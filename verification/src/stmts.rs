//! Statements whose parts are compiled by the parser's statement compiler:
//! blocks, expression statements, `if`, `while`, `return` and function
//! definitions.

use vstd::prelude::*;
use inkwell::types::BasicTypeEnum;
use inkwell::values::{BasicValueEnum, FunctionValue, IntValue, PointerValue};
use crate::types::{BrixType, TypeModel, copy_members, spec_is_ref_counted};
use crate::arc::spec_retain_fn;
use crate::compiler::{Compiler, CodegenError, Found, StatementCompiler, Field};
use crate::decl::{release_discarded, check_destructure, spec_check_destructure, DestructureError, OldValueRelease, AssignValue, old_value_release, assign_value, spec_assign_value};
use crate::generics::{TypeParam, Param, texts_of, spec_mangle};
use crate::strmap::same_bindings;
use crate::text::decimal_string;
use crate::typeparse::{resolves, alias_texts};
use crate::ops::IntPredicate;
use crate::llvm::{self, LinkageKind, CallRecord};

verus! {

/// The texts of the types of some parameters.
pub open spec fn param_type_texts<E>(ps: Seq<Param<E>>) -> Seq<Seq<char>> {
    Seq::new(ps.len(), |i: int| ps[i].ty@)
}

/// An `LLVMError` for a failed builder operation.
fn builder_error(operation: &str, details: &str) -> (e: CodegenError)
    ensures
        e is LLVMError,
{
    CodegenError::LLVMError { operation: String::from_str(operation), details: String::from_str(details) }
}

impl<'a, 'ctx, E, D> Compiler<'a, 'ctx, E, D> {
    /// Every text resolves with the aliases and structs in scope.
    pub open spec fn texts_resolve(&self, texts: Seq<Seq<char>>) -> bool {
        forall|i: int| 0 <= i < texts.len() ==> resolves(
            alias_texts(self.type_aliases.map()),
            self.struct_defs.map().dom(),
            #[trigger] texts[i],
        )
    }

    /// The statements of a block, in order; the first failure ends it.
    pub fn compile_block_stmt<S, C: StatementCompiler<'a, 'ctx, E, D, S>>(
        &mut self,
        sc: &mut C,
        statements: &[S],
        function: FunctionValue<'ctx>,
    ) -> (r: Result<(), CodegenError>)
        ensures
            statements@.len() == 0 ==> r is Ok,
    {
        let mut i: usize = 0;
        while i < statements.len()
            invariant
                i <= statements@.len(),
            decreases statements@.len() - i,
        {
            sc.compile_stmt(self, &statements[i], function)?;
            i = i + 1;
        }
        Ok(())
    }

    /// An expression evaluated for its effect: a reference-counted
    /// temporary it leaves is released (a variable or field it only borrows
    /// is not).
    pub fn compile_expr_stmt<S, C: StatementCompiler<'a, 'ctx, E, D, S>>(
        &mut self,
        sc: &mut C,
        expr: &E,
    ) -> (r: Result<(), CodegenError>) {
        let form = sc.expr_form(expr);
        let (val, brix_type) = sc.compile_expr(self, expr)?;
        if release_discarded(&brix_type, form) {
            let ptr = match llvm::basic_as_pointer(val) {
                Some(p) => p,
                None => return Err(builder_error("into_pointer_value", "a reference-counted value is a pointer")),
            };
            self.insert_release(ptr, &brix_type).0?;
        }
        Ok(())
    }

    /// `cond != 0` of an integer condition.
    fn condition_bit(&self, cond: BasicValueEnum<'ctx>, name: &str) -> (r: Result<IntValue<'ctx>, CodegenError>)
        ensures
            r matches Err(e) ==> e is LLVMError,
    {
        let c = match llvm::basic_as_int(cond) {
            Some(c) => c,
            None => return Err(builder_error("into_int_value", "a condition is an integer")),
        };
        let zero = llvm::const_int(llvm::i64_type(self.context), 0, false).0;
        match llvm::build_int_compare(self.builder, IntPredicate::NE, c, zero, name).0 {
            Some(b) => Ok(b),
            None => Err(builder_error("build_int_compare", "Failed to build condition")),
        }
    }

    /// Branches to `target` unless the current block already ends (with a
    /// `return`, say).
    fn branch_unless_terminated(&self, target: inkwell::basic_block::BasicBlock<'ctx>) -> (r: Result<(), CodegenError>)
        ensures
            r matches Err(e) ==> e is LLVMError,
    {
        let here = match llvm::get_insert_block(self.builder) {
            Some(b) => b,
            None => return Err(builder_error("get_insert_block", "No current basic block")),
        };
        if !llvm::has_terminator(here) {
            if !llvm::build_unconditional_branch(self.builder, target) {
                return Err(builder_error("build_unconditional_branch", "Failed to branch to merge block"));
            }
        }
        Ok(())
    }

    /// `if cond { then } else { else }`: a branch on `cond != 0` to a then
    /// block and an else block, each falling through to a merge block unless
    /// it already ends; the builder is left in the merge block.
    pub fn compile_if_stmt<S, C: StatementCompiler<'a, 'ctx, E, D, S>>(
        &mut self,
        sc: &mut C,
        condition: &E,
        then_block: &S,
        else_block: Option<&S>,
        function: FunctionValue<'ctx>,
    ) -> (r: Result<(), CodegenError>) {
        let (cond_val, _) = sc.compile_expr(self, condition)?;
        let cond = self.condition_bit(cond_val, "ifcond")?;
        let then_bb = llvm::append_basic_block(self.context, function, "then_block");
        let else_bb = llvm::append_basic_block(self.context, function, "else_block");
        let merge_bb = llvm::append_basic_block(self.context, function, "merge_block");
        if !llvm::build_conditional_branch(self.builder, cond, then_bb, else_bb) {
            return Err(builder_error("build_conditional_branch", "Failed to branch on if condition"));
        }
        llvm::position_at_end(self.builder, then_bb);
        sc.compile_stmt(self, then_block, function)?;
        self.branch_unless_terminated(merge_bb)?;
        llvm::position_at_end(self.builder, else_bb);
        if let Some(e) = else_block {
            sc.compile_stmt(self, e, function)?;
        }
        self.branch_unless_terminated(merge_bb)?;
        llvm::position_at_end(self.builder, merge_bb);
        Ok(())
    }

    /// `while cond { body }`: a header block testing `cond != 0`, the body
    /// branching back to the header, and the block after the loop, where
    /// the builder is left.
    pub fn compile_while_stmt<S, C: StatementCompiler<'a, 'ctx, E, D, S>>(
        &mut self,
        sc: &mut C,
        condition: &E,
        body: &S,
        function: FunctionValue<'ctx>,
    ) -> (r: Result<(), CodegenError>) {
        let header_bb = llvm::append_basic_block(self.context, function, "while_header");
        let body_bb = llvm::append_basic_block(self.context, function, "while_body");
        let after_bb = llvm::append_basic_block(self.context, function, "while_after");
        if !llvm::build_unconditional_branch(self.builder, header_bb) {
            return Err(builder_error("build_unconditional_branch", "Failed to branch to loop header"));
        }
        llvm::position_at_end(self.builder, header_bb);
        let (cond_val, _) = sc.compile_expr(self, condition)?;
        let cond = self.condition_bit(cond_val, "loop_cond")?;
        if !llvm::build_conditional_branch(self.builder, cond, body_bb, after_bb) {
            return Err(builder_error("build_conditional_branch", "Failed to branch on loop condition"));
        }
        llvm::position_at_end(self.builder, body_bb);
        sc.compile_stmt(self, body, function)?;
        if !llvm::build_unconditional_branch(self.builder, header_bb) {
            return Err(builder_error("build_unconditional_branch", "Failed to branch back to loop header"));
        }
        llvm::position_at_end(self.builder, after_bb);
        Ok(())
    }

    /// `return`, `return v` or `return a, b, ...` (a tuple of the values).
    /// A bare `return` first releases the function's reference-counted
    /// variables. A tuple whose type cannot be laid out is refused.
    pub fn compile_return_stmt<S, C: StatementCompiler<'a, 'ctx, E, D, S>>(
        &mut self,
        sc: &mut C,
        values: &[E],
    ) -> (r: Result<(), CodegenError>) {
        if values.len() == 0 {
            self.release_function_scope_vars().0?;
            if !llvm::build_return(self.builder, None).0 {
                return Err(builder_error("build_return", "Failed to build void return"));
            }
            return Ok(());
        }
        if values.len() == 1 {
            let (val, _) = sc.compile_expr(self, &values[0])?;
            if !llvm::build_return(self.builder, Some(val)).0 {
                return Err(builder_error("build_return", "Failed to build return"));
            }
            return Ok(());
        }
        let mut compiled: Vec<BasicValueEnum<'ctx>> = Vec::new();
        let mut types: Vec<BrixType> = Vec::new();
        let mut i: usize = 0;
        while i < values.len()
            invariant
                i <= values@.len(),
                compiled@.len() == i,
            decreases values@.len() - i,
        {
            let (v, t) = sc.compile_expr(self, &values[i])?;
            compiled.push(v);
            types.push(t);
            i = i + 1;
        }
        let tuple_type = BrixType::Tuple(types);
        let llvm_type = match self.try_brix_type_to_llvm(&tuple_type) {
            Some(t) => t,
            None => {
                return Err(CodegenError::TypeError {
                    expected: Found::Text(String::from_str("Laid-out type")),
                    found: Found::Type(tuple_type),
                    context: String::from_str("return"),
                });
            },
        };
        let st = match llvm::basic_type_as_struct(llvm_type) {
            Some(st) => st,
            None => return Err(builder_error("into_struct_type", "a tuple is laid out as a struct")),
        };
        let mut agg = llvm::struct_undef(st);
        let mut k: usize = 0;
        while k < compiled.len()
            invariant
                k <= compiled@.len(),
            decreases compiled@.len() - k,
        {
            agg = match llvm::build_insert_value(self.builder, agg, compiled[k], #[verifier::truncate] (k as u32), "insert").0 {
                Some(a) => a,
                None => return Err(builder_error("build_insert_value", "Failed to insert return value")),
            };
            k = k + 1;
        }
        if !llvm::build_return(self.builder, Some(llvm::struct_value_basic(agg))).0 {
            return Err(builder_error("build_return", "Failed to build return"));
        }
        Ok(())
    }

    /// The LLVM type of `t`, refused when it cannot be laid out.
    pub(crate) fn laid_out_type(&self, t: &BrixType, context: &str) -> (r: Result<BasicTypeEnum<'ctx>, CodegenError>)
        ensures
            r matches Err(e) ==> e is TypeError,
    {
        match self.try_brix_type_to_llvm(t) {
            Some(l) => Ok(l),
            None => Err(CodegenError::TypeError {
                expected: Found::Text(String::from_str("Laid-out type")),
                found: Found::Type(t.copy()),
                context: String::from_str(context),
            }),
        }
    }

    /// A function definition. A generic one is kept as it is, to be
    /// instantiated per call; any other is compiled at once.
    pub fn compile_function_def<S, C: StatementCompiler<'a, 'ctx, E, D, S>>(
        &mut self,
        sc: &mut C,
        name: &str,
        type_params: &[TypeParam],
        params: Vec<Param<E>>,
        return_type: &Option<Vec<String>>,
        body: &S,
        stmt: D,
        parent_function: FunctionValue<'ctx>,
    ) -> (r: Result<(), CodegenError>)
        requires
            type_params@.len() == 0 ==> old(self).texts_resolve(param_type_texts(params@)),
            type_params@.len() == 0 ==> (return_type matches Some(ts) ==> old(self).texts_resolve(texts_of(ts@))),
            type_params@.len() == 0 ==> params@.len() < u32::MAX,
        ensures
            type_params@.len() > 0 ==> {
                &&& r is Ok
                &&& final(self).generic_functions.map() == old(self).generic_functions.map().insert(name@, stmt)
                &&& final(self).functions == old(self).functions
                &&& final(self).variables == old(self).variables
            },
            r is Ok ==> same_bindings(final(self).variables.map(), old(self).variables.map()),
            r is Ok ==> final(self).function_scope_vars == old(self).function_scope_vars,
            (r is Ok && type_params@.len() == 0) ==> final(self).current_function == Some(parent_function),
    {
        if type_params.len() > 0 {
            self.generic_functions.insert(String::from_str(name), stmt);
            return Ok(());
        }
        self.compile_concrete_function(sc, name, params, return_type, body, parent_function)
    }

    /// A function definition without type parameters: the function is
    /// declared with its parameter and return types (several return types
    /// make a tuple), registered with its return types and parameters, and
    /// its body is compiled in a scope of its own: the parameters are stored
    /// in slots of their own, the variables tracked for release start empty,
    /// and a void body that does not end is closed by releasing them and
    /// returning. The caller's variables, tracked variables and current
    /// function are restored afterwards and the builder returns to the end
    /// of `parent_function`.
    pub fn compile_concrete_function<S, C: StatementCompiler<'a, 'ctx, E, D, S>>(
        &mut self,
        sc: &mut C,
        name: &str,
        params: Vec<Param<E>>,
        return_type: &Option<Vec<String>>,
        body: &S,
        parent_function: FunctionValue<'ctx>,
    ) -> (r: Result<(), CodegenError>)
        requires
            old(self).texts_resolve(param_type_texts(params@)),
            return_type matches Some(ts) ==> old(self).texts_resolve(texts_of(ts@)),
            params@.len() < u32::MAX,
        ensures
            r is Ok ==> same_bindings(final(self).variables.map(), old(self).variables.map()),
            r is Ok ==> final(self).function_scope_vars == old(self).function_scope_vars,
            r is Ok ==> final(self).current_function == Some(parent_function),
    {
        let mut ret_types: Vec<BrixType> = Vec::new();
        match return_type {
            None => {},
            Some(ts) => {
                let mut i: usize = 0;
                while i < ts.len()
                    invariant
                        i <= ts@.len(),
                        self.texts_resolve(texts_of(ts@)),
                    decreases ts@.len() - i,
                {
                    assert(texts_of(ts@)[i as int] == ts@[i as int]@);
                    ret_types.push(self.string_to_brix_type(ts[i].as_str()));
                    i = i + 1;
                }
            },
        }
        let mut param_names: Vec<String> = Vec::new();
        let mut param_types: Vec<BrixType> = Vec::new();
        let mut param_llvm: Vec<BasicTypeEnum<'ctx>> = Vec::new();
        let mut i: usize = 0;
        while i < params.len()
            invariant
                i <= params@.len(),
                self.texts_resolve(param_type_texts(params@)),
                param_names@.len() == i,
                param_types@.len() == i,
                param_llvm@.len() == i,
            decreases params@.len() - i,
        {
            assert(param_type_texts(params@)[i as int] == params@[i as int].ty@);
            let t = self.string_to_brix_type(params[i].ty.as_str());
            let l = self.laid_out_type(&t, "function parameter")?;
            param_names.push(params[i].name.clone());
            param_types.push(t);
            param_llvm.push(l);
            i = i + 1;
        }
        let ret_llvm = if ret_types.len() == 0 {
            None
        } else if ret_types.len() == 1 {
            Some(self.laid_out_type(&ret_types[0], "function return type")?)
        } else {
            let tuple = BrixType::Tuple(copy_members(&ret_types));
            Some(self.laid_out_type(&tuple, "function return type")?)
        };
        let defined = llvm::define_function(self.module, name, ret_llvm, llvm::void_type(self.context), &param_llvm);
        self.signatures.insert(String::from_str(name), defined.signature());
        let function = defined.function();
        let void_function = ret_types.len() == 0;
        self.functions.insert(String::from_str(name), (function, Some(ret_types)));
        assert(param_types@.len() == params@.len());
        let mut metadata: Vec<Field<E>> = Vec::new();
        let mut rest = params;
        let mut k: usize = 0;
        while rest.len() > 0
            invariant
                k + rest@.len() == param_types@.len(),
                param_types@.len() < u32::MAX,
                metadata@.len() == k,
            decreases rest@.len(),
        {
            let p = rest.remove(0);
            metadata.push((p.name, param_types[k].copy(), p.default));
            k = k + 1;
        }
        self.function_params.insert(String::from_str(name), metadata);
        let entry = llvm::append_basic_block(self.context, function, "entry");
        llvm::position_at_end(self.builder, entry);
        let saved_vars = self.variables.duplicate();
        let mut saved_scope: Vec<(String, BrixType)> = Vec::new();
        std::mem::swap(&mut saved_scope, &mut self.function_scope_vars);
        self.current_function = Some(function);
        let mut j: usize = 0;
        while j < param_names.len()
            invariant
                j <= param_names@.len(),
                param_names@.len() == param_types@.len(),
                param_types@.len() == param_llvm@.len(),
                param_names@.len() < u32::MAX,
            decreases param_names@.len() - j,
        {
            let value = match llvm::get_nth_param(&defined, j as u32) {
                Some(v) => v,
                None => return Err(builder_error("get_nth_param", "Failed to get parameter")),
            };
            let slot = self.create_entry_block_alloca(param_llvm[j], param_names[j].as_str())?;
            if !llvm::build_store(self.builder, slot, value).0 {
                return Err(builder_error("build_store", "Failed to store parameter"));
            }
            self.variables.insert(param_names[j].clone(), (slot, param_types[j].copy()));
            j = j + 1;
        }
        sc.compile_stmt(self, body, function)?;
        if void_function {
            if let Some(block) = llvm::get_insert_block(self.builder) {
                if !llvm::has_terminator(block) {
                    self.release_function_scope_vars().0?;
                    if !llvm::build_return(self.builder, None).0 {
                        return Err(builder_error("build_return", "Failed to build implicit void return"));
                    }
                }
            }
        }
        self.variables = saved_vars;
        self.function_scope_vars = saved_scope;
        self.current_function = Some(parent_function);
        if let Some(block) = llvm::last_basic_block(parent_function) {
            llvm::position_at_end(self.builder, block);
        }
        Ok(())
    }

    /// `let a, b, ... = value` with a tuple value: each name but `_` gets a
    /// slot holding its field. A value that is not a tuple, or a tuple of
    /// another arity, is refused.
    pub fn compile_destructuring_decl_stmt<S, C: StatementCompiler<'a, 'ctx, E, D, S>>(
        &mut self,
        sc: &mut C,
        names: &[String],
        value: &E,
    ) -> (r: Result<(), CodegenError>)
        ensures
            r is Ok ==> forall|i: int| 0 <= i < names@.len() && names@[i]@ != "_"@ ==> final(self).variables.map().dom().contains(
                #[trigger] names@[i]@,
            ),
    {
        let (tuple_val, tuple_type) = sc.compile_expr(self, value)?;
        self.destructure_value(names, tuple_val, &tuple_type)
    }

    /// The binding of `names` to the fields of a compiled tuple value
    /// `tuple_val` of type `tuple_type`, in order: each name but `_` gets a
    /// new slot of its field's type holding the field. A value that is not
    /// a tuple, or a tuple with another number of fields, is refused.
    pub fn destructure_value(&mut self, names: &[String], tuple_val: BasicValueEnum<'ctx>, tuple_type: &BrixType) -> (r: Result<(), CodegenError>)
        ensures
            spec_check_destructure(names@.len() as nat, tuple_type@) matches Err(DestructureError::NotATuple) ==> (r matches Err(
                CodegenError::TypeError { expected: Found::Text(x), context, .. },
            ) && x@ == "Tuple"@ && context@ == "Destructuring declaration"@),
            spec_check_destructure(names@.len() as nat, tuple_type@) matches Err(DestructureError::ArityMismatch { .. }) ==> (
            r matches Err(CodegenError::InvalidOperation { operation, .. }) && operation@ == "Destructuring"@),
            r is Ok ==> spec_check_destructure(names@.len() as nat, tuple_type@) is Ok,
            r is Ok ==> forall|i: int| 0 <= i < names@.len() && names@[i]@ != "_"@ ==> final(self).variables.map().dom().contains(
                #[trigger] names@[i]@,
            ),
            r is Ok ==> old(self).variables.map().dom().subset_of(final(self).variables.map().dom()),
    {
        match check_destructure(names.len(), tuple_type) {
            Ok(()) => {},
            Err(DestructureError::NotATuple) => {
                return Err(CodegenError::TypeError {
                    expected: Found::Text(String::from_str("Tuple")),
                    found: Found::Type(tuple_type.copy()),
                    context: String::from_str("Destructuring declaration"),
                });
            },
            Err(DestructureError::ArityMismatch { names: n, fields: f }) => {
                let mut reason = String::from_str("Mismatch in number of values - expected ");
                reason.append(decimal_string(n).as_str());
                reason.append(" values, got ");
                reason.append(decimal_string(f).as_str());
                return Err(CodegenError::InvalidOperation { operation: String::from_str("Destructuring"), reason });
            },
        }
        let field_types = match tuple_type {
            BrixType::Tuple(ts) => ts,
            _ => return Ok(()),
        };
        proof {
            crate::types::lemma_models_of(field_types@);
        }
        let mut i: usize = 0;
        while i < names.len()
            invariant
                i <= names@.len(),
                names@.len() == field_types@.len(),
                spec_check_destructure(names@.len() as nat, tuple_type@) is Ok,
                old(self).variables.map().dom().subset_of(self.variables.map().dom()),
                forall|j: int| 0 <= j < i && names@[j]@ != "_"@ ==> self.variables.map().dom().contains(#[trigger] names@[j]@),
            decreases names@.len() - i,
        {
            let name = names[i].as_str();
            if !crate::strmap::str_equal(name, "_") {
                let st = match llvm::basic_as_struct(tuple_val) {
                    Some(st) => st,
                    None => return Err(builder_error("into_struct_value", "a tuple is a struct value")),
                };
                let mut extract_name = String::from_str("extract_");
                extract_name.append(name);
                let extracted = match llvm::build_extract_value(self.builder, st, #[verifier::truncate] (i as u32), extract_name.as_str()) {
                    Some(v) => v,
                    None => return Err(builder_error("build_extract_value", "Failed to extract tuple field")),
                };
                let llvm_type = self.laid_out_type(&field_types[i], "Destructuring declaration")?;
                let slot = match llvm::build_alloca(self.builder, llvm_type, name) {
                    Some(p) => p,
                    None => return Err(builder_error("build_alloca", "Failed to allocate variable")),
                };
                if !llvm::build_store(self.builder, slot, extracted).0 {
                    let mut details = String::from_str("Failed to store value in variable '");
                    details.append(name);
                    details.append("'");
                    return Err(CodegenError::LLVMError { operation: String::from_str("build_store"), details });
                }
                self.variables.insert(names[i].clone(), (slot, field_types[i].copy()));
            }
            i = i + 1;
        }
        Ok(())
    }

    /// `Name { field: value, ... }` of a struct laid out under
    /// `struct_name`: each field, in the struct's order, takes the last
    /// value given for it, else its default, compiled then; a field with
    /// neither is refused, as is a struct not defined. The given values are
    /// compiled first, in the order written.
    #[verifier::loop_isolation(false)]
    pub fn compile_struct_init<S, C: StatementCompiler<'a, 'ctx, E, D, S>>(
        &mut self,
        sc: &mut C,
        struct_name: &str,
        type_args: &[String],
        field_inits: &[(String, E)],
    ) -> (r: Result<(BasicValueEnum<'ctx>, BrixType), CodegenError>)
        where
            E: Clone,
            D: Clone,
        ensures
            type_args@.len() == 0 ==> (r matches Ok((_, t)) ==> t@ == TypeModel::Struct(struct_name@)),
            type_args@.len() > 0 ==> (r matches Ok((_, t)) ==> t@ == TypeModel::Struct(
                spec_mangle(struct_name@, texts_of(type_args@)),
            )),
            type_args@.len() == 0 && !old(self).struct_defs.map().dom().contains(struct_name@) ==> (r matches Err(
                CodegenError::UndefinedSymbol { name, context },
            ) && name@ == struct_name@ && context@ == "struct initialization"@),
    {
        let actual: String = if type_args.len() > 0 {
            self.monomorphize_struct(sc, struct_name, type_args)?
        } else {
            String::from_str(struct_name)
        };
        let struct_name = actual.as_str();
        let mut field_names: Vec<String> = Vec::new();
        let mut defaults: Vec<Option<E>> = Vec::new();
        match self.struct_defs.get(struct_name) {
            Some(fields) => {
                let mut i: usize = 0;
                while i < fields.len()
                    invariant
                        i <= fields@.len(),
                        field_names@.len() == i,
                        defaults@.len() == i,
                    decreases fields@.len() - i,
                {
                    field_names.push(fields[i].0.clone());
                    let d = match &fields[i].2 {
                        Some(e) => Some(e.clone()),
                        None => None,
                    };
                    defaults.push(d);
                    i = i + 1;
                }
            },
            None => {
                return Err(CodegenError::UndefinedSymbol {
                    name: String::from_str(struct_name),
                    context: String::from_str("struct initialization"),
                });
            },
        }
        let struct_type = match self.struct_types.get(struct_name) {
            Some(t) => *t,
            None => {
                let mut message = String::from_str("Struct type '");
                message.append(struct_name);
                message.append("' not found");
                return Err(CodegenError::General { message });
            },
        };
        let mut given: Vec<BasicValueEnum<'ctx>> = Vec::new();
        let mut k: usize = 0;
        while k < field_inits.len()
            invariant
                k <= field_inits@.len(),
                given@.len() == k,
            decreases field_inits@.len() - k,
        {
            let (v, _) = sc.compile_expr(self, &field_inits[k].1)?;
            given.push(v);
            k = k + 1;
        }
        let mut agg = llvm::struct_undef(struct_type);
        let mut i: usize = 0;
        while i < field_names.len()
            invariant
                i <= field_names@.len(),
                field_names@.len() == defaults@.len(),
                given@.len() == field_inits@.len(),
            decreases field_names@.len() - i,
        {
            let mut found: Option<usize> = None;
            let mut q: usize = 0;
            while q < field_inits.len()
                invariant
                    q <= field_inits@.len(),
                    i < field_names@.len(),
                    found matches Some(x) ==> x < field_inits@.len(),
                decreases field_inits@.len() - q,
            {
                if crate::strmap::str_equal(field_inits[q].0.as_str(), field_names[i].as_str()) {
                    found = Some(q);
                }
                q = q + 1;
            }
            let value = match found {
                Some(x) => given[x],
                None => match &defaults[i] {
                    Some(d) => {
                        let (v, _) = sc.compile_expr(self, d)?;
                        v
                    },
                    None => {
                        let mut reason = String::from_str("field '");
                        reason.append(field_names[i].as_str());
                        reason.append("' has no value and no default");
                        let mut operation = String::from_str("struct initialization for '");
                        operation.append(struct_name);
                        operation.append("'");
                        return Err(CodegenError::InvalidOperation { operation, reason });
                    },
                },
            };
            agg = match llvm::build_insert_value(self.builder, agg, value, #[verifier::truncate] (i as u32), "field").0 {
                Some(a) => a,
                None => return Err(builder_error("build_insert_value", "Failed to insert struct field")),
            };
            i = i + 1;
        }
        Ok((llvm::struct_value_basic(agg), BrixType::Struct(String::from_str(struct_name))))
    }

    /// A method `fn (receiver: ReceiverType) method_name(params)`. A method
    /// of a generic struct is kept, with the struct's other methods, until
    /// the struct is instantiated; any other is compiled at once.
    pub fn compile_method_def<S, C: StatementCompiler<'a, 'ctx, E, D, S>>(
        &mut self,
        sc: &mut C,
        receiver_name: &str,
        receiver_type: &str,
        method_name: &str,
        params: &[Param<E>],
        return_type: &Option<Vec<String>>,
        body: &S,
        method_def: D,
        parent_function: FunctionValue<'ctx>,
    ) -> (r: Result<(), CodegenError>)
        requires
            old(self).texts_resolve(param_type_texts(params@)),
            return_type matches Some(ts) ==> old(self).texts_resolve(texts_of(ts@)),
            resolves(alias_texts(old(self).type_aliases.map()), old(self).struct_defs.map().dom(), receiver_type@),
            params@.len() + 1 < u32::MAX,
        ensures
            old(self).generic_structs.map().dom().contains(receiver_type@) ==> {
                &&& r is Ok
                &&& final(self).generic_methods.map().dom() == old(self).generic_methods.map().dom().insert(receiver_type@)
                &&& old(self).generic_methods.map().dom().contains(receiver_type@)
                    ==> final(self).generic_methods.map()[receiver_type@]@ == old(self).generic_methods.map()[receiver_type@]@.push(method_def)
                &&& !old(self).generic_methods.map().dom().contains(receiver_type@)
                    ==> final(self).generic_methods.map()[receiver_type@]@ == seq![method_def]
                &&& final(self).functions == old(self).functions
            },
            r is Ok ==> same_bindings(final(self).variables.map(), old(self).variables.map()),
            (r is Ok && !old(self).generic_structs.map().dom().contains(receiver_type@))
                ==> final(self).current_function == Some(parent_function),
    {
        if self.generic_structs.contains_key(receiver_type) {
            match self.generic_methods.replace(receiver_type, Vec::new()) {
                Some(mut methods) => {
                    methods.push(method_def);
                    self.generic_methods.insert(String::from_str(receiver_type), methods);
                },
                None => {
                    let mut methods: Vec<D> = Vec::new();
                    methods.push(method_def);
                    self.generic_methods.insert(String::from_str(receiver_type), methods);
                },
            }
            return Ok(());
        }
        self.compile_concrete_method(sc, receiver_name, receiver_type, method_name, params, return_type, body, parent_function)
    }

    /// A method of a struct that is not generic: it becomes the function
    /// `ReceiverType_method_name`, whose first parameter is the receiver's
    /// pointer, bound as is; the other parameters get slots; the body is
    /// compiled with the caller's variables still visible, a void body that
    /// does not end gets a `return`, and the caller's variables and current
    /// function are restored afterwards. A receiver that is not a laid-out
    /// struct is refused.
    pub fn compile_concrete_method<S, C: StatementCompiler<'a, 'ctx, E, D, S>>(
        &mut self,
        sc: &mut C,
        receiver_name: &str,
        receiver_type: &str,
        method_name: &str,
        params: &[Param<E>],
        return_type: &Option<Vec<String>>,
        body: &S,
        parent_function: FunctionValue<'ctx>,
    ) -> (r: Result<(), CodegenError>)
        requires
            old(self).texts_resolve(param_type_texts(params@)),
            return_type matches Some(ts) ==> old(self).texts_resolve(texts_of(ts@)),
            resolves(alias_texts(old(self).type_aliases.map()), old(self).struct_defs.map().dom(), receiver_type@),
            params@.len() + 1 < u32::MAX,
        ensures
            r is Ok ==> same_bindings(final(self).variables.map(), old(self).variables.map()),
            r is Ok ==> final(self).current_function == Some(parent_function),
    {
        let mut mangled = String::from_str(receiver_type);
        mangled.append("_");
        mangled.append(method_name);
        let mut ret_types: Vec<BrixType> = Vec::new();
        match return_type {
            None => {},
            Some(ts) => {
                let mut i: usize = 0;
                while i < ts.len()
                    invariant
                        i <= ts@.len(),
                        self.texts_resolve(texts_of(ts@)),
                    decreases ts@.len() - i,
                {
                    assert(texts_of(ts@)[i as int] == ts@[i as int]@);
                    ret_types.push(self.string_to_brix_type(ts[i].as_str()));
                    i = i + 1;
                }
            },
        }
        let receiver_brix_type = self.string_to_brix_type(receiver_type);
        match &receiver_brix_type {
            BrixType::Struct(n) => {
                if !self.struct_types.contains_key(n.as_str()) {
                    return Err(CodegenError::UndefinedSymbol {
                        name: n.clone(),
                        context: String::from_str("method receiver type"),
                    });
                }
            },
            _ => {
                return Err(CodegenError::TypeError {
                    expected: Found::Text(String::from_str("Struct type")),
                    found: Found::Type(receiver_brix_type),
                    context: String::from_str("method receiver"),
                });
            },
        }
        let mut param_types: Vec<BrixType> = Vec::new();
        let mut param_llvm: Vec<BasicTypeEnum<'ctx>> = Vec::new();
        let mut fn_params: Vec<BasicTypeEnum<'ctx>> = Vec::new();
        fn_params.push(llvm::pointer_type_basic(self.ptr_type()));
        let mut i: usize = 0;
        while i < params.len()
            invariant
                i <= params@.len(),
                self.texts_resolve(param_type_texts(params@)),
                param_types@.len() == i,
                param_llvm@.len() == i,
            decreases params@.len() - i,
        {
            assert(param_type_texts(params@)[i as int] == params@[i as int].ty@);
            let t = self.string_to_brix_type(params[i].ty.as_str());
            let l = self.laid_out_type(&t, "method parameter")?;
            param_types.push(t);
            param_llvm.push(l);
            fn_params.push(l);
            i = i + 1;
        }
        let ret_llvm = if ret_types.len() == 0 {
            None
        } else if ret_types.len() == 1 {
            Some(self.laid_out_type(&ret_types[0], "method return type")?)
        } else {
            let tuple = BrixType::Tuple(copy_members(&ret_types));
            Some(self.laid_out_type(&tuple, "method return type")?)
        };
        let defined = llvm::define_function(self.module, mangled.as_str(), ret_llvm, llvm::void_type(self.context), &fn_params);
        self.signatures.insert(mangled.clone(), defined.signature());
        let function = defined.function();
        let void_method = ret_types.len() == 0;
        self.functions.insert(mangled, (function, Some(ret_types)));
        let entry = llvm::append_basic_block(self.context, function, "entry");
        llvm::position_at_end(self.builder, entry);
        let saved_vars = self.variables.duplicate();
        self.current_function = Some(function);
        let receiver = match llvm::get_nth_param(&defined, 0) {
            Some(v) => v,
            None => return Err(builder_error("get_nth_param", "Failed to get receiver parameter")),
        };
        let receiver_ptr = match llvm::basic_as_pointer(receiver) {
            Some(p) => p,
            None => return Err(builder_error("into_pointer_value", "a receiver is a pointer")),
        };
        self.variables.insert(String::from_str(receiver_name), (receiver_ptr, receiver_brix_type));
        let mut j: usize = 0;
        while j < params.len()
            invariant
                j <= params@.len(),
                params@.len() == param_types@.len(),
                param_types@.len() == param_llvm@.len(),
                params@.len() + 1 < u32::MAX,
            decreases params@.len() - j,
        {
            let value = match llvm::get_nth_param(&defined, (j + 1) as u32) {
                Some(v) => v,
                None => return Err(builder_error("get_nth_param", "Failed to get parameter")),
            };
            let slot = self.create_entry_block_alloca(param_llvm[j], params[j].name.as_str())?;
            if !llvm::build_store(self.builder, slot, value).0 {
                return Err(builder_error("build_store", "Failed to store parameter"));
            }
            self.variables.insert(params[j].name.clone(), (slot, param_types[j].copy()));
            j = j + 1;
        }
        sc.compile_stmt(self, body, function)?;
        if void_method {
            if let Some(block) = llvm::get_insert_block(self.builder) {
                if !llvm::has_terminator(block) {
                    if !llvm::build_return(self.builder, None).0 {
                        return Err(builder_error("build_return", "Failed to build implicit void return"));
                    }
                }
            }
        }
        self.variables = saved_vars;
        self.current_function = Some(parent_function);
        if let Some(block) = llvm::last_basic_block(parent_function) {
            llvm::position_at_end(self.builder, block);
        }
        Ok(())
    }

    /// `target = value`. The old value at the target is released first (a
    /// closure by `closure_release`, a reference-counted value by its
    /// release function; a union's is left alone). The new value is then
    /// brought to the target's type: wrapped as the union member it matches
    /// (refused if none), or converted from `int` to a `float` target; a
    /// target other than a union retains it; and it is stored.
    pub fn compile_assignment_stmt<S, C: StatementCompiler<'a, 'ctx, E, D, S>>(
        &mut self,
        sc: &mut C,
        target: &E,
        value: &E,
    ) -> (r: Result<(), CodegenError>) {
        let (target_ptr, target_type) = sc.compile_lvalue_addr(self, target)?;
        match old_value_release(&target_type) {
            OldValueRelease::Nothing => {},
            release => {
                let old = match llvm::build_load(self.builder, target_ptr, self.ptr_basic(), "old_value").0 {
                    Some(v) => v,
                    None => return Err(builder_error("build_load", "Failed to load old value for release")),
                };
                let old_ptr = match llvm::basic_as_pointer(old) {
                    Some(p) => p,
                    None => return Err(builder_error("into_pointer_value", "a released value is a pointer")),
                };
                match release {
                    OldValueRelease::Closure => self.closure_release(old_ptr)?,
                    _ => self.insert_release(old_ptr, &target_type).0?,
                }
            },
        }
        let (val, val_type) = sc.compile_expr(self, value)?;
        self.assign_compiled(target_ptr, &target_type, val, &val_type).0
    }

    /// The store of a compiled value `val` of type `val_type` into the
    /// place `target_ptr` of type `target_type`: an `int` stored into a
    /// `float` place is converted; a value stored into a union place is
    /// wrapped as the member its type selects (tag at field 0, value at
    /// field 1); a value of a type no member of the union has is refused.
    /// A value stored into a place that is not a union is retained first.
    /// The record lists the retain calls.
    pub fn assign_compiled(
        &self,
        target_ptr: PointerValue<'ctx>,
        target_type: &BrixType,
        val: BasicValueEnum<'ctx>,
        val_type: &BrixType,
    ) -> (r: (Result<(), CodegenError>, Vec<CallRecord<'ctx>>))
        ensures
            spec_assign_value(target_type@, val_type@) is None ==> (r.0 matches Err(CodegenError::TypeError { context, .. })
                && context@ == "Union assignment"@),
            r.0 is Ok ==> spec_assign_value(target_type@, val_type@) is Some,
            (r.0 is Ok && spec_assign_value(target_type@, val_type@) matches Some(AssignValue::Plain)) ==> (
            spec_is_ref_counted(val_type@) ==> (r.1@.len() == 1 && r.1@[0].callee_name() == spec_retain_fn(val_type@)->0
                && r.1@[0].arguments() == seq![val])),
            (r.0 is Ok && spec_assign_value(target_type@, val_type@) matches Some(AssignValue::Plain)) ==> (
            !spec_is_ref_counted(val_type@) ==> r.1@.len() == 0),
    {
        let none: Vec<CallRecord<'ctx>> = Vec::new();
        let val_type = val_type.copy();
        let target_type = target_type.copy();
        let plan = match assign_value(&target_type, &val_type) {
            Some(p) => p,
            None => {
                return (Err(CodegenError::TypeError {
                    expected: Found::Type(target_type),
                    found: Found::Type(val_type),
                    context: String::from_str("Union assignment"),
                }), none);
            },
        };
        let is_union_target = matches!(target_type, BrixType::Union(_));
        let (stored, stored_type): (BasicValueEnum<'ctx>, BrixType) = match plan {
            AssignValue::Plain => (val, val_type),
            AssignValue::IntToFloat => {
                let i = match llvm::basic_as_int(val) {
                    Some(i) => i,
                    None => return (Err(builder_error("into_int_value", "Failed to cast int to float")), none),
                };
                match llvm::build_signed_int_to_float(self.builder, i, llvm::f64_type(self.context), "cast") {
                    Some(f) => (llvm::float_value_basic(f), val_type),
                    None => return (Err(builder_error("build_signed_int_to_float", "Failed to cast int to float")), none),
                }
            },
            AssignValue::Union(tag) => {
                let (member, member_type) = if tag.int_to_float {
                    let i = match llvm::basic_as_int(val) {
                        Some(i) => i,
                        None => return (Err(builder_error("into_int_value", "Failed to cast int to float for Union")), none),
                    };
                    match llvm::build_signed_int_to_float(
                        self.builder,
                        i,
                        llvm::f64_type(self.context),
                        "cast_i2f_union_assign",
                    ) {
                        Some(f) => (llvm::float_value_basic(f), BrixType::Float),
                        None => return (Err(builder_error(
                            "build_signed_int_to_float",
                            "Failed to cast int to float for Union",
                        )), none),
                    }
                } else {
                    (val, val_type)
                };
                let tag_val = llvm::const_int(llvm::i64_type(self.context), tag.tag as u64, false).0;
                let union_llvm = match self.laid_out_type(&target_type, "Union assignment") {
                    Ok(t) => t,
                    Err(e) => return (Err(e), none),
                };
                let st = match llvm::basic_type_as_struct(union_llvm) {
                    Some(st) => st,
                    None => return (Err(builder_error("into_struct_type", "a union is laid out as a struct")), none),
                };
                let with_tag = match llvm::build_insert_value(
                    self.builder,
                    llvm::struct_undef(st),
                    llvm::int_value_basic(tag_val),
                    0,
                    "insert_tag",
                ).0 {
                    Some(a) => a,
                    None => return (Err(builder_error("build_insert_value", "Failed to insert tag in union")), none),
                };
                let with_value = match llvm::build_insert_value(self.builder, with_tag, member, 1, "insert_value").0 {
                    Some(a) => a,
                    None => return (Err(builder_error("build_insert_value", "Failed to insert value in union")), none),
                };
                (llvm::struct_value_basic(with_value), member_type)
            },
        };
        let mut stored = stored;
        let mut calls: Vec<CallRecord<'ctx>> = Vec::new();
        if !is_union_target {
            let (retained, asked) = self.insert_retain(stored, &stored_type);
            stored = match retained {
                Ok(v) => v,
                Err(e) => return (Err(e), none),
            };
            calls = asked;
        }
        if !llvm::build_store(self.builder, target_ptr, stored).0 {
            return (Err(builder_error("build_store", "Failed to store assigned value")), none);
        }
        (Ok(()), calls)
    }
}

} // verus!
