//! Instances of generic functions, structs and methods: the definition
//! kept when it was compiled is taken apart, its type parameters replaced
//! by the type arguments in the texts of its types, and the result
//! compiled under the mangled name of the instance, once per name and
//! type arguments.

use vstd::prelude::*;
use inkwell::values::{BasicValueEnum, FunctionValue};
use crate::types::{BrixType, TypeModel, models_of, lemma_models_of, copy_members};
use crate::compiler::{Compiler, CodegenError, StatementCompiler};
use crate::generics::{
    TypeParam, Param, spec_mangle, texts_of, mangle_generic_name, substitute_params, substitute_return_type,
    substitute_type, infer_generic_types,
};
use crate::stmts::param_type_texts;
use crate::typeparse::resolve_type_text_within;
use crate::text::{decimal, decimal_string};
use crate::llvm;

verus! {

/// How many nested resolutions a type text of an instance may need; a text
/// that needs more (an alias defined through itself needs any number) is
/// refused.
pub const RESOLUTION_BUDGET: u64 = 4096;

/// The type given to a call of the instance `name`: its one return type,
/// the tuple of several, or `int` when its return types are not recorded.
pub open spec fn spec_instance_result<'ctx>(
    functions: Map<Seq<char>, (FunctionValue<'ctx>, Option<Vec<BrixType>>)>,
    name: Seq<char>,
) -> TypeModel {
    if functions.dom().contains(name) {
        match functions[name].1 {
            Some(rs) => if rs@.len() == 1 {
                rs@[0]@
            } else {
                TypeModel::Tuple(models_of(rs@))
            },
            None => TypeModel::Int,
        }
    } else {
        TypeModel::Int
    }
}

fn general(message: String) -> (e: CodegenError)
    ensures
        e matches CodegenError::General { message: m } && m@ == message@,
{
    CodegenError::General { message }
}

/// `a`, then `b`, then `c`.
fn text3(a: &str, b: &str, c: &str) -> (r: String)
    ensures
        r@ == a@ + b@ + c@,
{
    let mut s = String::from_str(a);
    s.append(b);
    s.append(c);
    s
}

/// The refusal of `kind` `name` given the wrong number of type arguments.
fn arity_refused(kind: &str, name: &str, expected: usize, got: usize) -> (e: CodegenError)
    ensures
        e matches CodegenError::General { message } && message@ == "Generic "@ + kind@ + " '"@ + name@
            + "' expects "@ + decimal(expected as nat) + " type arguments, got "@ + decimal(got as nat),
{
    let mut m = text3("Generic ", kind, " '");
    m.append(name);
    m.append("' expects ");
    m.append(decimal_string(expected).as_str());
    m.append(" type arguments, got ");
    m.append(decimal_string(got).as_str());
    general(m)
}

impl<'a, 'ctx, E, D> Compiler<'a, 'ctx, E, D> {
    /// Whether the type text `t` resolves within `RESOLUTION_BUDGET`.
    fn text_ready(&self, t: &str) -> (r: bool)
        ensures
            r ==> crate::typeparse::resolves(
                crate::typeparse::alias_texts(self.type_aliases.map()),
                self.struct_defs.map().dom(),
                t@,
            ),
    {
        resolve_type_text_within(&self.type_aliases, &self.struct_defs, t, RESOLUTION_BUDGET).is_some()
    }

    /// Whether every text of `ts` resolves within `RESOLUTION_BUDGET`; the
    /// first that does not, if any.
    fn all_texts_ready(&self, ts: &[String]) -> (r: Result<(), String>)
        ensures
            r is Ok ==> self.texts_resolve(texts_of(ts@)),
    {
        let mut k: usize = 0;
        while k < ts.len()
            invariant
                k <= ts@.len(),
                forall|j: int| 0 <= j < k ==> crate::typeparse::resolves(
                    crate::typeparse::alias_texts(self.type_aliases.map()),
                    self.struct_defs.map().dom(),
                    #[trigger] texts_of(ts@)[j],
                ),
            decreases ts@.len() - k,
        {
            if !self.text_ready(ts[k].as_str()) {
                return Err(ts[k].clone());
            }
            assert(texts_of(ts@)[k as int] == ts@[k as int]@);
            k = k + 1;
        }
        Ok(())
    }

    /// Whether every parameter type text and return type text resolves
    /// within `RESOLUTION_BUDGET`; the first that does not, if any.
    pub fn texts_ready(&self, params: &[Param<E>], return_type: &Option<Vec<String>>) -> (r: Result<(), String>)
        ensures
            r is Ok ==> self.texts_resolve(param_type_texts(params@)),
            r is Ok ==> (return_type matches Some(ts) ==> self.texts_resolve(texts_of(ts@))),
    {
        let mut i: usize = 0;
        while i < params.len()
            invariant
                i <= params@.len(),
                forall|j: int| 0 <= j < i ==> crate::typeparse::resolves(
                    crate::typeparse::alias_texts(self.type_aliases.map()),
                    self.struct_defs.map().dom(),
                    #[trigger] param_type_texts(params@)[j],
                ),
            decreases params@.len() - i,
        {
            if !self.text_ready(params[i].ty.as_str()) {
                return Err(params[i].ty.clone());
            }
            assert(param_type_texts(params@)[i as int] == params@[i as int].ty@);
            i = i + 1;
        }
        match return_type {
            Some(ts) => self.all_texts_ready(ts.as_slice()),
            None => Ok(()),
        }
    }

    /// The instance of the generic function `func_name` for `type_args`:
    /// made before, its name; otherwise the kept definition's parameter and
    /// return types get the type arguments, and it is compiled as the
    /// function `spec_mangle(func_name, type_args)` and recorded. A name
    /// with no generic function, a definition that is not a function's,
    /// another number of type arguments than parameters, or a type text
    /// that does not resolve is refused.
    pub fn monomorphize_function<S, C: StatementCompiler<'a, 'ctx, E, D, S>>(
        &mut self,
        sc: &mut C,
        func_name: &str,
        type_args: &[String],
        parent_function: FunctionValue<'ctx>,
    ) -> (r: Result<String, CodegenError>)
        ensures
            r matches Ok(m) ==> m@ == spec_mangle(func_name@, texts_of(type_args@)),
            r is Ok ==> final(self).monomorphized_cache.keys().contains((func_name@, texts_of(type_args@))),
            old(self).monomorphized_cache.keys().contains((func_name@, texts_of(type_args@))) ==> r is Ok,
            old(self).monomorphized_cache.keys().contains((func_name@, texts_of(type_args@))) ==> *final(self) == *old(self),
            !old(self).monomorphized_cache.keys().contains((func_name@, texts_of(type_args@)))
                && !old(self).generic_functions.map().dom().contains(func_name@) ==> (r matches Err(
                CodegenError::UndefinedSymbol { name, context },
            ) && name@ == func_name@ && context@ == "generic function call"@),
    {
        match self.monomorphized_cache.lookup(func_name, type_args) {
            Some(m) => return Ok(m),
            None => {},
        }
        let parts = match self.generic_functions.get(func_name) {
            Some(def) => sc.function_parts(def),
            None => {
                return Err(CodegenError::UndefinedSymbol {
                    name: String::from_str(func_name),
                    context: String::from_str("generic function call"),
                });
            },
        };
        let parts = match parts {
            Some(p) => p,
            None => return Err(general(text3("Stored generic '", func_name, "' is not a function"))),
        };
        if type_args.len() != parts.type_params.len() {
            return Err(arity_refused("function", func_name, parts.type_params.len(), type_args.len()));
        }
        let mangled = mangle_generic_name(func_name, type_args);
        let params = substitute_params(parts.params, &parts.type_params, type_args);
        let return_type = substitute_return_type(&parts.return_type, &parts.type_params, type_args);
        match self.texts_ready(&params, &return_type) {
            Ok(()) => {},
            Err(t) => return Err(general(text3("Type '", t.as_str(), "' does not resolve"))),
        }
        if params.len() >= 4294967295 {
            return Err(general(text3("Too many parameters for '", func_name, "'")));
        }
        self.compile_concrete_function(sc, mangled.as_str(), params, &return_type, &parts.body, parent_function)?;
        let recorded = self.monomorphized_cache.record(func_name, type_args);
        Ok(recorded)
    }

    /// The instance of a method of a generic struct for the instance
    /// `specialized_struct_name`: the kept method's parameter and return
    /// types get the type arguments, and it is compiled as a method of the
    /// instance. Without a function being compiled, or for a definition
    /// that is not a method's, it is refused.
    pub fn monomorphize_method<S, C: StatementCompiler<'a, 'ctx, E, D, S>>(
        &mut self,
        sc: &mut C,
        specialized_struct_name: &str,
        type_params: &[TypeParam],
        type_args: &[String],
        method: &D,
    ) -> (r: Result<(), CodegenError>)
        ensures
            old(self).current_function is None ==> r is Err,
    {
        let parts = match sc.method_parts(method) {
            Some(p) => p,
            None => return Err(general(String::from_str("Stored generic method is not a method"))),
        };
        let params = substitute_params(parts.params, type_params, type_args);
        let return_type = substitute_return_type(&parts.return_type, type_params, type_args);
        let parent = match self.current_function {
            Some(f) => f,
            None => return Err(general(String::from_str("No current function during method monomorphization"))),
        };
        match self.texts_ready(&params, &return_type) {
            Ok(()) => {},
            Err(t) => return Err(general(text3("Type '", t.as_str(), "' does not resolve"))),
        }
        if resolve_type_text_within(&self.type_aliases, &self.struct_defs, specialized_struct_name, RESOLUTION_BUDGET).is_none() {
            return Err(general(text3("Type '", specialized_struct_name, "' does not resolve")));
        }
        if params.len() >= 4294967294 {
            return Err(general(text3("Too many parameters for '", parts.method_name.as_str(), "'")));
        }
        self.compile_concrete_method(
            sc,
            parts.receiver_name.as_str(),
            specialized_struct_name,
            parts.method_name.as_str(),
            &params,
            &return_type,
            &parts.body,
            parent,
        )
    }

    /// The instance of the generic struct `struct_name` for `type_args`:
    /// made before, its name; otherwise the kept definition's field types
    /// get the type arguments, the struct is laid out as
    /// `spec_mangle(struct_name, type_args)`, each kept method of the
    /// struct is instantiated for it, and it is recorded. A name with no
    /// generic struct, another number of type arguments than parameters, or
    /// fields whose types do not resolve or cannot be laid out are refused.
    #[verifier::loop_isolation(false)]
    pub fn monomorphize_struct<S, C: StatementCompiler<'a, 'ctx, E, D, S>>(
        &mut self,
        sc: &mut C,
        struct_name: &str,
        type_args: &[String],
    ) -> (r: Result<String, CodegenError>)
        where
            D: Clone,
        ensures
            r matches Ok(m) ==> m@ == spec_mangle(struct_name@, texts_of(type_args@)),
            old(self).monomorphized_cache.keys().contains((struct_name@, texts_of(type_args@))) ==> r is Ok,
            old(self).monomorphized_cache.keys().contains((struct_name@, texts_of(type_args@))) ==> *final(self) == *old(self),
            !old(self).monomorphized_cache.keys().contains((struct_name@, texts_of(type_args@)))
                && !old(self).generic_structs.map().dom().contains(struct_name@) ==> (r matches Err(
                CodegenError::UndefinedSymbol { name, context },
            ) && name@ == struct_name@ && context@ == "generic struct instantiation"@),
            r is Ok ==> final(self).monomorphized_cache.keys().contains((struct_name@, texts_of(type_args@))),
    {
        match self.monomorphized_cache.lookup(struct_name, type_args) {
            Some(m) => return Ok(m),
            None => {},
        }
        let parts = match self.generic_structs.get(struct_name) {
            Some(def) => sc.struct_parts(def),
            None => {
                return Err(CodegenError::UndefinedSymbol {
                    name: String::from_str(struct_name),
                    context: String::from_str("generic struct instantiation"),
                });
            },
        };
        let parts = match parts {
            Some(p) => p,
            None => return Err(general(text3("Stored generic '", struct_name, "' is not a struct"))),
        };
        if type_args.len() != parts.type_params.len() {
            return Err(arity_refused("struct", struct_name, parts.type_params.len(), type_args.len()));
        }
        let mangled = mangle_generic_name(struct_name, type_args);
        let fields = substitute_params(parts.fields, &parts.type_params, type_args);
        if !self.fields_ready_within(&fields, RESOLUTION_BUDGET) {
            return Err(general(text3("Fields of '", mangled.as_str(), "' cannot be laid out")));
        }
        self.define_struct(mangled.as_str(), fields);
        let methods: Vec<D> = match self.generic_methods.get(struct_name) {
            Some(ms) => ms.clone(),
            None => Vec::new(),
        };
        let mut i: usize = 0;
        while i < methods.len()
            invariant
                i <= methods@.len(),
            decreases methods@.len() - i,
        {
            self.monomorphize_method(sc, mangled.as_str(), &parts.type_params, type_args, &methods[i])?;
            i = i + 1;
        }
        let recorded = self.monomorphized_cache.record(struct_name, type_args);
        Ok(recorded)
    }

    /// The type given to a call of the instance `name`.
    pub fn instance_result(&self, name: &str) -> (t: BrixType)
        ensures
            t@ == spec_instance_result(self.functions.map(), name@),
    {
        match self.functions.get(name) {
            Some((_, Some(rs))) => {
                proof {
                    lemma_models_of(rs@);
                }
                if rs.len() == 1 {
                    rs[0].copy()
                } else {
                    let ms = copy_members(rs);
                    BrixType::Tuple(ms)
                }
            },
            _ => BrixType::Int,
        }
    }

    /// Calls the instance `specialized` with the compiled arguments: the
    /// value it returns typed as `instance_result` says, or a void `0` when
    /// it returns nothing. An instance missing from the module is refused.
    fn call_instance(&self, specialized: &str, call_args: &Vec<BasicValueEnum<'ctx>>, call_name: &str) -> (r: Result<
        (BasicValueEnum<'ctx>, BrixType),
        CodegenError,
    >)
        ensures
            r matches Ok((_, t)) ==> (t@ == spec_instance_result(self.functions.map(), specialized@) || t@ is Void),
    {
        let f = match llvm::get_function(self.module, specialized) {
            Some(f) => f,
            None => {
                return Err(general(text3("Specialized function '", specialized, "' not found after monomorphization")));
            },
        };
        let callee = match self.declared_callable(specialized, f, call_args.as_slice()) {
            Some(c) => c,
            None => return Err(general(text3("Function '", specialized, "' has an unsupported return type"))),
        };
        let call = match llvm::build_call(self.builder, callee, call_args.as_slice(), call_name).0 {
            Some(c) => c,
            None => {
                return Err(CodegenError::LLVMError {
                    operation: String::from_str("build_call"),
                    details: text3("Failed to call specialized function '", specialized, "'"),
                });
            },
        };
        match call {
            Some(v) => Ok((v, self.instance_result(specialized))),
            None => Ok((llvm::int_value_basic(llvm::const_int(llvm::i64_type(self.context), 0, false).0), BrixType::Void)),
        }
    }

    /// `name<T1, ...>(args)` with explicit type arguments: the instance is
    /// made (or found), the arguments compiled in order, and the instance
    /// called. A callee that is not a name, or a call outside any function,
    /// is refused.
    #[verifier::loop_isolation(false)]
    pub fn compile_generic_call<S, C: StatementCompiler<'a, 'ctx, E, D, S>>(
        &mut self,
        sc: &mut C,
        func_name: Option<&str>,
        type_args: &[String],
        args: &[E],
    ) -> (r: Result<(BasicValueEnum<'ctx>, BrixType), CodegenError>)
        ensures
            func_name is None ==> (r matches Err(CodegenError::General { message }) && message@
                == "Generic calls only supported on identifiers (e.g., swap<int, float>)"@),
            func_name is Some && old(self).current_function is None ==> (r matches Err(CodegenError::General { message })
                && message@ == "Generic call outside function context"@),
    {
        let name = match func_name {
            Some(n) => n,
            None => {
                return Err(general(String::from_str("Generic calls only supported on identifiers (e.g., swap<int, float>)")));
            },
        };
        let parent = match self.current_function {
            Some(f) => f,
            None => return Err(general(String::from_str("Generic call outside function context"))),
        };
        let specialized = self.monomorphize_function(sc, name, type_args, parent)?;
        let mut call_args: Vec<BasicValueEnum<'ctx>> = Vec::new();
        let mut i: usize = 0;
        while i < args.len()
            invariant
                i <= args@.len(),
            decreases args@.len() - i,
        {
            let (v, _) = sc.compile_expr(self, &args[i])?;
            call_args.push(v);
            i = i + 1;
        }
        self.call_instance(specialized.as_str(), &call_args, "generic_call")
    }

    /// `name(args)` of a generic function without type arguments: the
    /// arguments are compiled once to infer the type arguments from their
    /// types, the instance is made (or found), and the arguments compiled
    /// again for the call, an integer going to a `float` parameter
    /// converted. `None` when `name` is no generic function.
    pub fn compile_inferred_generic_call<S, C: StatementCompiler<'a, 'ctx, E, D, S>>(
        &mut self,
        sc: &mut C,
        fn_name: &str,
        args: &[E],
    ) -> (r: Option<Result<(BasicValueEnum<'ctx>, BrixType), CodegenError>>)
        ensures
            r is None <==> !old(self).generic_functions.map().dom().contains(fn_name@),
            old(self).generic_functions.map().dom().contains(fn_name@) && old(self).current_function is None ==> (r matches Some(
                Err(CodegenError::General { message }),
            ) && message@ == "Generic call outside function context"@),
    {
        if !self.generic_functions.contains_key(fn_name) {
            return None;
        }
        let parent = match self.current_function {
            Some(f) => f,
            None => return Some(Err(general(String::from_str("Generic call outside function context")))),
        };
        Some(self.inferred_generic_call(sc, fn_name, args, parent))
    }

    fn generic_parts<S, C: StatementCompiler<'a, 'ctx, E, D, S>>(&self, sc: &mut C, fn_name: &str) -> (r: Result<
        crate::compiler::FunctionParts<E, S>,
        CodegenError,
    >) {
        let parts = match self.generic_functions.get(fn_name) {
            Some(def) => sc.function_parts(def),
            None => {
                return Err(CodegenError::UndefinedSymbol {
                    name: String::from_str(fn_name),
                    context: String::from_str("generic type inference"),
                });
            },
        };
        match parts {
            Some(p) => Ok(p),
            None => Err(general(text3("Stored generic '", fn_name, "' is not a function"))),
        }
    }

    fn inferred_generic_call<S, C: StatementCompiler<'a, 'ctx, E, D, S>>(
        &mut self,
        sc: &mut C,
        fn_name: &str,
        args: &[E],
        parent: FunctionValue<'ctx>,
    ) -> (r: Result<(BasicValueEnum<'ctx>, BrixType), CodegenError>) {
        let parts = self.generic_parts(sc, fn_name)?;
        let mut arg_types: Vec<BrixType> = Vec::new();
        let mut i: usize = 0;
        while i < args.len()
            invariant
                i <= args@.len(),
            decreases args@.len() - i,
        {
            let (_, t) = sc.compile_expr(self, &args[i])?;
            arg_types.push(t);
            i = i + 1;
        }
        let type_args = match infer_generic_types(&parts.type_params, &parts.params, &arg_types) {
            Ok(ts) => ts,
            Err(name) => return Err(general(text3("Could not infer type for type parameter '", name.as_str(), "'"))),
        };
        let specialized = self.monomorphize_function(sc, fn_name, &type_args, parent)?;
        if llvm::get_function(self.module, specialized.as_str()).is_none() {
            return Err(general(text3("Specialized function '", specialized.as_str(), "' not found after monomorphization")));
        }
        let parts = self.generic_parts(sc, fn_name)?;
        let f64_ty = llvm::f64_type(self.context);
        let mut call_args: Vec<BasicValueEnum<'ctx>> = Vec::new();
        let mut j: usize = 0;
        while j < args.len()
            invariant
                j <= args@.len(),
            decreases args@.len() - j,
        {
            let (v, t) = sc.compile_expr(self, &args[j])?;
            let mut arg = v;
            if j < parts.params.len() && matches!(t, BrixType::Int) {
                let expected = substitute_type(parts.params[j].ty.as_str(), &parts.type_params, &type_args);
                if crate::strmap::str_equal(expected.as_str(), "float") {
                    let iv = match llvm::basic_as_int(v) {
                        Some(iv) => iv,
                        None => {
                            return Err(CodegenError::LLVMError {
                                operation: String::from_str("into_int_value"),
                                details: String::from_str("an int argument is an integer"),
                            });
                        },
                    };
                    arg = match llvm::build_signed_int_to_float(self.builder, iv, f64_ty, "int_to_float_cast") {
                        Some(fv) => llvm::float_value_basic(fv),
                        None => {
                            return Err(CodegenError::LLVMError {
                                operation: String::from_str("build_signed_int_to_float"),
                                details: String::from_str("Failed to cast int to float for generic call"),
                            });
                        },
                    };
                }
            }
            call_args.push(arg);
            j = j + 1;
        }
        self.call_instance(specialized.as_str(), &call_args, "generic_inferred_call")
    }
}

} // verus!
