//! Closures: a function of their own taking an environment of pointers to
//! the captured variables, and a reference-counted heap record
//! `{ ref_count, function, environment }` that stands for the closure.

use vstd::prelude::*;
use inkwell::types::{BasicTypeEnum, StructType};
use inkwell::values::{BasicValueEnum, PointerValue};
use crate::text::decimal;
use crate::types::{BrixType, spec_is_closure};
use crate::compiler::{Compiler, CodegenError, StatementCompiler};
use crate::strmap::same_bindings;
use crate::typeparse::{resolves, alias_texts};
use crate::llvm::{self, LinkageKind, DefinedFunction, ConstRecord, StoreRecord};

verus! {

/// What compiling a closure asked for: the function made of its body, and
/// the store of its reference count, the constant `one`, into its record.
pub struct ClosureBuilt<'ctx> {
    pub function: DefinedFunction<'ctx>,
    pub one: ConstRecord<'ctx>,
    pub count_store: StoreRecord<'ctx>,
}

/// The closure numbered `n` was built: its function is `__closure_<n>`, and
/// its reference count was stored as the constant 1.
pub open spec fn closure_built<'ctx>(c: ClosureBuilt<'ctx>, n: usize) -> bool {
    &&& c.function.defined_name() == "__closure_"@ + decimal(n as nat)
    &&& c.one.asked() == 1
    &&& c.count_store.stored() == llvm::int_value_as_basic(c.one.constant())
}

/// The texts of the types of a closure's parameters.
pub open spec fn closure_param_texts(ps: Seq<(String, String)>) -> Seq<Seq<char>> {
    Seq::new(ps.len(), |i: int| ps[i].1@)
}

fn llvm_error(operation: &str, details: &str) -> (e: CodegenError)
    ensures
        e is LLVMError,
{
    CodegenError::LLVMError { operation: String::from_str(operation), details: String::from_str(details) }
}

/// `prefix` followed by `suffix`.
fn joined(prefix: &str, suffix: &str) -> (r: String)
    ensures
        r@ == prefix@ + suffix@,
{
    let mut s = String::from_str(prefix);
    s.append(suffix);
    s
}

impl<'a, 'ctx, E, D> Compiler<'a, 'ctx, E, D> {
    /// `brix_malloc(size)`, the runtime's heap allocation.
    fn heap_allocate(&self, size_of: StructType<'ctx>, call_name: &str, what: &str) -> (r: Result<PointerValue<'ctx>, CodegenError>)
        ensures
            r matches Err(e) ==> (e is LLVMError || e is MissingValue),
    {
        let ptr = llvm::pointer_type_basic(self.ptr_type());
        let params = vec![llvm::int_type_basic(llvm::i64_type(self.context))];
        let ty = llvm::basic_fn_type(ptr, &params, false);
        let malloc = self.runtime_function("brix_malloc", ty, LinkageKind::External);
        let size = match llvm::type_size_of(llvm::struct_type_basic(size_of)) {
            Some(s) => s,
            None => return Err(llvm_error("size_of", "Failed to get size of struct")),
        };
        let args = vec![llvm::int_value_basic(size)];
        let call = match llvm::build_call(self.builder, malloc, &args, call_name).0 {
            Some(c) => c,
            None => return Err(llvm_error("build_call", "Failed to call brix_malloc")),
        };
        match call {
            Some(v) => match llvm::basic_as_pointer(v) {
                Some(p) => Ok(p),
                None => Err(llvm_error("into_pointer_value", "brix_malloc returns a pointer")),
            },
            None => Err(CodegenError::MissingValue {
                what: String::from_str(what),
                context: String::from_str("closure allocation"),
            }),
        }
    }

    /// A pointer to `record`'s field `index`, the record's pointer first
    /// typed as a pointer to `record_type`.
    fn field_address(
        &self,
        record: PointerValue<'ctx>,
        record_type: StructType<'ctx>,
        index: u32,
        name: &str,
    ) -> (r: Result<PointerValue<'ctx>, CodegenError>)
        ensures
            r matches Err(e) ==> e is LLVMError,
    {
        let typed = match llvm::build_pointer_cast(
            self.builder,
            record,
            llvm::pointer_to(llvm::struct_type_basic(record_type)),
            "record",
        ) {
            Some(p) => p,
            None => return Err(llvm_error("build_pointer_cast", "Failed to type a record pointer")),
        };
        match llvm::build_struct_gep(self.builder, typed, index, name) {
            Some(p) => Ok(p),
            None => Err(llvm_error("build_struct_gep", "Failed to address a record field")),
        }
    }

    /// A closure `|params| -> return_type { body }` capturing
    /// `captured_vars`. Its code becomes the function `__closure_<n>`,
    /// whose first parameter is the environment: one pointer per captured
    /// variable, through which the body reaches the caller's slots. In the
    /// caller the environment is allocated on the heap (null when nothing is
    /// captured) and filled, and so is the closure record, whose reference
    /// count starts at 1. The value is the record's pointer, typed as the
    /// closure triple. The caller's variables and current function are
    /// restored after the body.
    pub fn compile_closure<S, C: StatementCompiler<'a, 'ctx, E, D, S>>(
        &mut self,
        sc: &mut C,
        captured_vars: &[String],
        params: &[(String, String)],
        return_type: Option<&str>,
        body: &S,
    ) -> (r: Result<(BasicValueEnum<'ctx>, BrixType), CodegenError>)
        requires
            old(self).closure_counter < usize::MAX,
            old(self).texts_resolve(closure_param_texts(params@)),
            return_type matches Some(t) ==> resolves(
                alias_texts(old(self).type_aliases.map()),
                old(self).struct_defs.map().dom(),
                t@,
            ),
            params@.len() + 1 < u32::MAX,
            captured_vars@.len() < u32::MAX,
        ensures
            r matches Ok((_, t)) ==> spec_is_closure(t@),
            r is Ok ==> final(self).current_function == old(self).current_function,
            r is Ok ==> same_bindings(final(self).variables.map(), old(self).variables.map()),
            (exists|k: int| 0 <= k < captured_vars@.len() && !old(self).variables.map().dom().contains(
                #[trigger] captured_vars@[k]@,
            )) ==> r is Err,
            r is Ok ==> (final(self).last_closure matches Some(c) && closure_built(c, old(self).closure_counter)),
    {
        let closure_name = self.next_closure_name();
        let ptr_basic = llvm::pointer_type_basic(self.ptr_type());
        let mut env_fields: Vec<BasicTypeEnum<'ctx>> = Vec::new();
        let mut c: usize = 0;
        while c < captured_vars.len()
            invariant
                c <= captured_vars@.len(),
            decreases captured_vars@.len() - c,
        {
            env_fields.push(ptr_basic);
            c = c + 1;
        }
        let env_type = llvm::struct_type(self.context, &env_fields, false);
        let mut fn_params: Vec<BasicTypeEnum<'ctx>> = Vec::new();
        fn_params.push(ptr_basic);
        let mut param_types: Vec<BrixType> = Vec::new();
        let mut param_llvm: Vec<BasicTypeEnum<'ctx>> = Vec::new();
        let mut i: usize = 0;
        while i < params.len()
            invariant
                i <= params@.len(),
                self.texts_resolve(closure_param_texts(params@)),
                param_types@.len() == i,
                param_llvm@.len() == i,
            decreases params@.len() - i,
        {
            assert(closure_param_texts(params@)[i as int] == params@[i as int].1@);
            let t = self.string_to_brix_type(params[i].1.as_str());
            let l = self.laid_out_type(&t, "closure parameter")?;
            param_types.push(t);
            param_llvm.push(l);
            fn_params.push(l);
            i = i + 1;
        }
        let return_brix_type = match return_type {
            Some(t) => self.string_to_brix_type(t),
            None => BrixType::Void,
        };
        let returns_void = matches!(return_brix_type, BrixType::Void);
        let ret_llvm = if returns_void {
            None
        } else {
            Some(self.laid_out_type(&return_brix_type, "closure return type")?)
        };
        let defined = llvm::define_function(self.module, closure_name.as_str(), ret_llvm, llvm::void_type(self.context), &fn_params);
        let closure_fn = defined.function();
        let prev_function = self.current_function;
        self.current_function = Some(closure_fn);
        let prev_variables = self.variables.duplicate();
        let entry = llvm::append_basic_block(self.context, closure_fn, "entry");
        llvm::position_at_end(self.builder, entry);
        let env_param = match llvm::get_nth_param(&defined, 0) {
            Some(v) => v,
            None => return Err(llvm_error("get_nth_param", "Failed to get environment parameter")),
        };
        let env_ptr = match llvm::basic_as_pointer(env_param) {
            Some(p) => p,
            None => return Err(llvm_error("into_pointer_value", "an environment is a pointer")),
        };
        if captured_vars.len() > 0 {
            let mut k: usize = 0;
            while k < captured_vars.len()
                invariant
                    k <= captured_vars@.len(),
                    captured_vars@.len() < u32::MAX,
                    prev_variables.map().dom() == old(self).variables.map().dom(),
                    forall|k2: int| 0 <= k2 < k ==> old(self).variables.map().dom().contains(#[trigger] captured_vars@[k2]@),
                decreases captured_vars@.len() - k,
            {
                let var_name = captured_vars[k].as_str();
                let field_name = joined(var_name, "_ptr");
                let field = self.field_address(env_ptr, env_type, k as u32, field_name.as_str())?;
                let loaded = match llvm::build_load(self.builder, field, self.ptr_basic(), var_name).0 {
                    Some(v) => v,
                    None => return Err(llvm_error("build_load", "Failed to load captured variable pointer")),
                };
                let raw = match llvm::basic_as_pointer(loaded) {
                    Some(p) => p,
                    None => return Err(llvm_error("into_pointer_value", "a captured variable is reached by pointer")),
                };
                let var_type = match prev_variables.get(var_name) {
                    Some(entry) => entry.1.copy(),
                    None => {
                        return Err(CodegenError::UndefinedSymbol {
                            name: captured_vars[k].clone(),
                            context: String::from_str("closure captured variable"),
                        });
                    },
                };
                let slot_type = self.laid_out_type(&var_type, "closure captured variable")?;
                let slot = match llvm::build_pointer_cast(self.builder, raw, llvm::pointer_to(slot_type), "captured") {
                    Some(p) => p,
                    None => return Err(llvm_error("build_pointer_cast", "Failed to type a captured variable")),
                };
                self.variables.insert(captured_vars[k].clone(), (slot, var_type));
                k = k + 1;
            }
        }
        assert(forall|k2: int| 0 <= k2 < captured_vars@.len() ==> old(self).variables.map().dom().contains(
            #[trigger] captured_vars@[k2]@,
        ));
        let mut j: usize = 0;
        while j < params.len()
            invariant
                j <= params@.len(),
                params@.len() == param_types@.len(),
                param_types@.len() == param_llvm@.len(),
                params@.len() + 1 < u32::MAX,
            decreases params@.len() - j,
        {
            let value = match llvm::get_nth_param(&defined, (j + 1) as u32) {
                Some(v) => v,
                None => return Err(llvm_error("get_nth_param", "Failed to get closure parameter")),
            };
            let slot = self.create_entry_block_alloca(param_llvm[j], params[j].0.as_str())?;
            if !llvm::build_store(self.builder, slot, value).0 {
                return Err(llvm_error("build_store", "Failed to store closure parameter"));
            }
            self.variables.insert(params[j].0.clone(), (slot, param_types[j].copy()));
            j = j + 1;
        }
        sc.compile_stmt(self, body, closure_fn)?;
        if returns_void {
            let block = match llvm::get_insert_block(self.builder) {
                Some(b) => b,
                None => return Err(llvm_error("get_insert_block", "No current basic block")),
            };
            if !llvm::has_terminator(block) {
                if !llvm::build_return(self.builder, None).0 {
                    return Err(llvm_error("build_return", "Failed to build closure return"));
                }
            }
        }
        self.current_function = prev_function;
        self.variables = prev_variables;
        if let Some(f) = prev_function {
            if let Some(b) = llvm::last_basic_block(f) {
                llvm::position_at_end(self.builder, b);
            }
        }
        let env_in_caller = if captured_vars.len() > 0 {
            let env = self.heap_allocate(env_type, "env_malloc", "brix_malloc result")?;
            let mut k: usize = 0;
            while k < captured_vars.len()
                invariant
                    k <= captured_vars@.len(),
                    captured_vars@.len() < u32::MAX,
                decreases captured_vars@.len() - k,
            {
                let var_name = captured_vars[k].as_str();
                let slot = match self.variables.get(var_name) {
                    Some(entry) => entry.0,
                    None => {
                        return Err(CodegenError::UndefinedSymbol {
                            name: captured_vars[k].clone(),
                            context: String::from_str("closure environment"),
                        });
                    },
                };
                let field_name = joined(var_name, "_field");
                let field = self.field_address(env, env_type, k as u32, field_name.as_str())?;
                let untyped = match llvm::build_pointer_cast(self.builder, slot, self.ptr_type(), "slot") {
                    Some(p) => p,
                    None => return Err(llvm_error("build_pointer_cast", "Failed to untype a captured slot")),
                };
                if !llvm::build_store(self.builder, field, llvm::pointer_value_basic(untyped)).0 {
                    return Err(llvm_error("build_store", "Failed to store captured variable pointer"));
                }
                k = k + 1;
            }
            env
        } else {
            llvm::pointer_const_null(self.ptr_type())
        };
        let record_fields = vec![llvm::int_type_basic(llvm::i64_type(self.context)), ptr_basic, ptr_basic];
        let record_type = llvm::struct_type(self.context, &record_fields, false);
        let record = self.heap_allocate(record_type, "closure_malloc", "brix_malloc result for closure")?;
        let count_field = self.field_address(record, record_type, 0, "ref_count_field")?;
        let (one, one_record) = llvm::const_int(llvm::i64_type(self.context), 1, false);
        let (count_ok, count_store) = llvm::build_store(self.builder, count_field, llvm::int_value_basic(one));
        if !count_ok {
            return Err(llvm_error("build_store", "Failed to store reference count"));
        }
        let fn_field = self.field_address(record, record_type, 1, "fn_ptr_field")?;
        let fn_ptr = llvm::global_pointer(llvm::function_global(closure_fn));
        let fn_untyped = match llvm::build_pointer_cast(self.builder, fn_ptr, self.ptr_type(), "fn_ptr") {
            Some(p) => p,
            None => return Err(llvm_error("build_pointer_cast", "Failed to untype the closure function")),
        };
        if !llvm::build_store(self.builder, fn_field, llvm::pointer_value_basic(fn_untyped)).0 {
            return Err(llvm_error("build_store", "Failed to store function pointer"));
        }
        let env_field = self.field_address(record, record_type, 2, "env_ptr_field")?;
        if !llvm::build_store(self.builder, env_field, llvm::pointer_value_basic(env_in_caller)).0 {
            return Err(llvm_error("build_store", "Failed to store environment pointer"));
        }
        let closure_type = BrixType::Tuple(vec![BrixType::Int, BrixType::Int, BrixType::Int]);
        proof {
            crate::types::lemma_models_of(seq![BrixType::Int, BrixType::Int, BrixType::Int]);
        }
        self.last_closure = Some(ClosureBuilt { function: defined, one: one_record, count_store });
        Ok((llvm::pointer_value_basic(record), closure_type))
    }
}

} // verus!
