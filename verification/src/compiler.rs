//! The code generator's state: the LLVM context, builder and module it
//! emits into, and the registries of variables, functions, structs, type
//! aliases and generic instances that compilation fills.

use vstd::prelude::*;
use inkwell::context::Context;
use inkwell::builder::Builder;
use inkwell::module::Module;
use inkwell::types::{StructType, PointerType};
use inkwell::values::{PointerValue, FunctionValue, BasicValueEnum};
use crate::types::{BrixType, is_ref_counted, spec_is_ref_counted};
use crate::strmap::{StrMap, str_equal};
use crate::generics::{InstanceCache, TypeParam, Param};
use crate::typeparse::{resolves, parse_type, alias_texts, resolve_type_text};
use crate::decl::{ExprForm, spec_is_print_temp};
use crate::llvm::{self, LinkageKind, TextRecord, CallRecord, InsertRecord, ReturnRecord, Record, ConstRecord};
use crate::arc::{names_of, names_distinct, called_names, release_calls, release_positions};
use crate::text::{decimal, decimal_string};

verus! {

/// Why code generation failed.
#[derive(Debug)]
pub enum CodegenError {
    /// An LLVM operation failed.
    LLVMError { operation: String, details: String },
    /// A value that an operation should have produced is missing.
    MissingValue { what: String, context: String },
    /// An operation used wrongly, such as a call with too few arguments.
    InvalidOperation { operation: String, reason: String },
    /// A name that nothing defines, and where it was used.
    UndefinedSymbol { name: String, context: String },
    /// A value whose type does not fit: what was expected, what was found
    /// (each a type or the text of one) and where.
    TypeError { expected: Found, found: Found, context: String },
    /// Any other failure, described by its message.
    General { message: String },
}

/// What a type error found: a value's type, or the text of a type.
#[derive(Debug)]
pub enum Found {
    Type(BrixType),
    Text(String),
}

/// A parameter of a function or a field of a struct: its name, its type and
/// its default value, an expression of the parser's type `E`.
pub type Field<E> = (String, BrixType, Option<E>);

/// The code generator. `E` is the parser's expression type (default values
/// of parameters and fields), `D` its definition type (generic functions,
/// structs and methods kept for instantiation).
pub struct Compiler<'a, 'ctx, E, D> {
    pub context: &'ctx Context,
    pub builder: &'a Builder<'ctx>,
    pub module: &'a Module<'ctx>,
    /// Variables in scope: their stack slot and type.
    pub variables: StrMap<(PointerValue<'ctx>, BrixType)>,
    /// Declared functions and their return types.
    pub functions: StrMap<(FunctionValue<'ctx>, Option<Vec<BrixType>>)>,
    /// Parameters of each function.
    pub function_params: StrMap<Vec<Field<E>>>,
    /// Fields of each struct.
    pub struct_defs: StrMap<Vec<Field<E>>>,
    /// LLVM type of each struct.
    pub struct_types: StrMap<StructType<'ctx>>,
    /// The function being compiled.
    pub current_function: Option<FunctionValue<'ctx>>,
    /// Name of the source file, for error reports.
    pub filename: String,
    /// Source text, for error reports.
    pub source: String,
    /// Generic functions, kept until a call instantiates them.
    pub generic_functions: StrMap<D>,
    /// Generic structs, kept until a use instantiates them.
    pub generic_structs: StrMap<D>,
    /// Methods of each generic struct.
    pub generic_methods: StrMap<Vec<D>>,
    /// Instances already made of generic functions and structs.
    pub monomorphized_cache: InstanceCache,
    /// Type aliases: name to definition text.
    pub type_aliases: StrMap<String>,
    /// Number of closures made so far (names them uniquely).
    pub closure_counter: usize,
    /// Reference-counted variables of the current function, released when it
    /// returns.
    pub function_scope_vars: Vec<(String, BrixType)>,
    /// The `printf` format of the last `print` or `println` statement
    /// compiled.
    pub last_print_format: Option<TextRecord>,
    /// The release calls `main` ends with, once a program is compiled.
    pub exit_releases: Vec<CallRecord<'ctx>>,
    /// The runtime calls of the last variable declaration compiled.
    pub declaration_calls: Vec<CallRecord<'ctx>>,
    /// The field insertions that built the value of the last variable
    /// declaration compiled: a union's tag at field 0, then its member at
    /// field 1.
    pub declaration_inserts: Vec<InsertRecord<'ctx>>,
    /// The constant tag of the union the last variable declaration
    /// compiled wrapped its value in.
    pub declaration_tag: Option<ConstRecord<'ctx>>,
    /// The `ret` `main` ends with, once a program is compiled, and the
    /// constant it returns.
    pub main_return: Option<(ReturnRecord<'ctx>, ConstRecord<'ctx>)>,
    /// The opaque pointer type (`i8*`) that stands for every heap value.
    pub opaque_ptr: PointerType<'ctx>,
    /// The test and the counter step of the last loop compiled.
    pub last_loop: Vec<Record<'ctx>>,
    /// What compiling the last closure asked for.
    pub last_closure: Option<crate::closures::ClosureBuilt<'ctx>>,
    /// What the last comprehension element stored asked for.
    pub last_element_store: Option<crate::comprehension::ElementStore<'ctx>>,
    /// The signatures of the functions this compiler defined, by name.
    pub signatures: StrMap<llvm::Signature<'ctx>>,
}

impl<'a, 'ctx, E, D> Compiler<'a, 'ctx, E, D> {
    /// A generator with empty registries, emitting into `module` through
    /// `builder`.
    pub fn new(
        context: &'ctx Context,
        builder: &'a Builder<'ctx>,
        module: &'a Module<'ctx>,
        filename: String,
        source: String,
    ) -> (r: Self)
        ensures
            r.context == context,
            r.builder == builder,
            r.module == module,
            r.variables.map() == Map::<Seq<char>, (PointerValue<'ctx>, BrixType)>::empty(),
            r.functions.map() == Map::<Seq<char>, (FunctionValue<'ctx>, Option<Vec<BrixType>>)>::empty(),
            r.function_params.map() == Map::<Seq<char>, Vec<Field<E>>>::empty(),
            r.struct_defs.map() == Map::<Seq<char>, Vec<Field<E>>>::empty(),
            r.struct_types.map() == Map::<Seq<char>, StructType<'ctx>>::empty(),
            r.current_function is None,
            r.filename@ == filename@,
            r.source@ == source@,
            r.generic_functions.map() == Map::<Seq<char>, D>::empty(),
            r.generic_structs.map() == Map::<Seq<char>, D>::empty(),
            r.generic_methods.map() == Map::<Seq<char>, Vec<D>>::empty(),
            r.monomorphized_cache.keys() == Set::<(Seq<char>, Seq<Seq<char>>)>::empty(),
            r.type_aliases.map() == Map::<Seq<char>, String>::empty(),
            r.closure_counter == 0,
            r.function_scope_vars@ == Seq::<(String, BrixType)>::empty(),
            r.last_print_format is None,
    {
        Compiler {
            context,
            builder,
            module,
            variables: StrMap::new(),
            functions: StrMap::new(),
            function_params: StrMap::new(),
            struct_defs: StrMap::new(),
            struct_types: StrMap::new(),
            current_function: None,
            filename,
            source,
            generic_functions: StrMap::new(),
            generic_structs: StrMap::new(),
            generic_methods: StrMap::new(),
            monomorphized_cache: InstanceCache::new(),
            type_aliases: StrMap::new(),
            closure_counter: 0,
            function_scope_vars: Vec::new(),
            last_print_format: None,
            exit_releases: Vec::new(),
            declaration_calls: Vec::new(),
            declaration_inserts: Vec::new(),
            declaration_tag: None,
            main_return: None,
            opaque_ptr: llvm::int_ptr_type(llvm::i8_type(context)),
            last_loop: Vec::new(),
            last_closure: None,
            last_element_store: None,
            signatures: StrMap::new(),
        }
    }

    /// Whether printing a value of type `brix_type`, computed by an
    /// expression of form `expr_kind`, leaves a temporary string to release
    /// after printing: every non-string value is converted into a new string;
    /// a string is temporary unless a variable or a field access yields it.
    pub fn is_print_temp(brix_type: &BrixType, expr_kind: ExprForm) -> (r: bool)
        ensures
            r == spec_is_print_temp(brix_type@, expr_kind),
    {
        match brix_type {
            BrixType::String => !matches!(expr_kind, ExprForm::Identifier | ExprForm::FieldAccess),
            _ => true,
        }
    }

    /// The type a type text denotes, after the aliases in scope and with the
    /// structs defined so far.
    pub fn string_to_brix_type(&self, type_str: &str) -> (t: BrixType)
        requires
            resolves(alias_texts(self.type_aliases.map()), self.struct_defs.map().dom(), type_str@),
        ensures
            t@ == parse_type(alias_texts(self.type_aliases.map()), self.struct_defs.map().dom(), type_str@),
    {
        resolve_type_text(&self.type_aliases, &self.struct_defs, type_str)
    }

    /// Records the alias `name` for the type text `definition`; a later
    /// alias of the same name replaces it.
    pub fn register_type_alias(&mut self, name: String, definition: String)
        ensures
            final(self).type_aliases.map() == old(self).type_aliases.map().insert(name@, definition),
            final(self).struct_defs == old(self).struct_defs,
            final(self).variables == old(self).variables,
    {
        self.type_aliases.insert(name, definition);
    }

    /// Binds the variable `name` to its stack slot and type. A variable of
    /// a reference-counted type is also tracked for release when the
    /// function returns, once per name.
    pub fn bind_variable(&mut self, name: &str, slot: PointerValue<'ctx>, ty: BrixType)
        ensures
            final(self).variables.map() == old(self).variables.map().insert(name@, (slot, ty)),
            (spec_is_ref_counted(ty@) && !names_of(old(self).function_scope_vars@).contains(name@)) ==> {
                &&& final(self).function_scope_vars@.len() == old(self).function_scope_vars@.len() + 1
                &&& final(self).function_scope_vars@.drop_last() == old(self).function_scope_vars@
                &&& final(self).function_scope_vars@.last().0@ == name@
                &&& final(self).function_scope_vars@.last().1@ == ty@
            },
            !(spec_is_ref_counted(ty@) && !names_of(old(self).function_scope_vars@).contains(name@))
                ==> final(self).function_scope_vars@ == old(self).function_scope_vars@,
            names_distinct(names_of(old(self).function_scope_vars@)) ==> names_distinct(
                names_of(final(self).function_scope_vars@),
            ),
            final(self).type_aliases == old(self).type_aliases,
            final(self).struct_defs == old(self).struct_defs,
            final(self).struct_types == old(self).struct_types,
            final(self).current_function == old(self).current_function,
    {
        let tracked_ty = ty.copy();
        self.variables.insert(String::from_str(name), (slot, ty));
        if is_ref_counted(&tracked_ty) {
            let mut seen = false;
            let mut i: usize = 0;
            while i < self.function_scope_vars.len()
                invariant
                    i <= self.function_scope_vars@.len(),
                    seen == names_of(self.function_scope_vars@).subrange(0, i as int).contains(name@),
                decreases self.function_scope_vars@.len() - i,
            {
                let ghost names = names_of(self.function_scope_vars@);
                if str_equal(self.function_scope_vars[i].0.as_str(), name) {
                    seen = true;
                }
                proof {
                    let before = names.subrange(0, i as int);
                    let after = names.subrange(0, i + 1);
                    assert(after =~= before.push(names[i as int]));
                    if names[i as int] == name@ {
                        assert(after[i as int] == name@);
                    }
                    if after.contains(name@) && !before.contains(name@) {
                        let w = choose|w: int| 0 <= w < after.len() && after[w] == name@;
                        if w < i {
                            assert(before[w] == name@);
                        }
                    }
                }
                i = i + 1;
            }
            assert(names_of(self.function_scope_vars@).subrange(0, i as int) =~= names_of(self.function_scope_vars@));
            if !seen {
                let ghost before = self.function_scope_vars@;
                self.function_scope_vars.push((String::from_str(name), tracked_ty));
                assert(self.function_scope_vars@.drop_last() =~= before);
                proof {
                    let nb = names_of(before);
                    let na = names_of(self.function_scope_vars@);
                    assert(na =~= nb.push(name@));
                    if names_distinct(nb) {
                        assert forall|a: int, b: int| 0 <= a < b < na.len() implies na[a] != na[b] by {
                            if b == na.len() - 1 {
                                assert(na[a] == nb[a]);
                                assert(nb.contains(nb[a]));
                            }
                        }
                    }
                }
            }
        }
    }

    /// A fresh closure name, `__closure_<n>` for the number `n` of closures
    /// named before.
    pub fn next_closure_name(&mut self) -> (r: String)
        requires
            old(self).closure_counter < usize::MAX,
        ensures
            r@ == "__closure_"@ + decimal(old(self).closure_counter as nat),
            final(self).closure_counter == old(self).closure_counter + 1,
            final(self).type_aliases == old(self).type_aliases,
            final(self).struct_defs == old(self).struct_defs,
            final(self).struct_types == old(self).struct_types,
            final(self).variables == old(self).variables,
            final(self).current_function == old(self).current_function,
    {
        let mut name = String::from_str("__closure_");
        let digits = decimal_string(self.closure_counter);
        name.append(digits.as_str());
        self.closure_counter = self.closure_counter + 1;
        name
    }
}

/// A function definition taken apart: its type parameters, parameters,
/// return types and body.
pub struct FunctionParts<E, S> {
    pub type_params: Vec<TypeParam>,
    pub params: Vec<Param<E>>,
    pub return_type: Option<Vec<String>>,
    pub body: S,
}

/// A struct definition taken apart: its type parameters and fields.
pub struct StructParts<E> {
    pub type_params: Vec<TypeParam>,
    pub fields: Vec<Param<E>>,
}

/// A method definition taken apart: the receiver's name, the method's
/// name, its parameters, return types and body.
pub struct MethodParts<E, S> {
    pub receiver_name: String,
    pub method_name: String,
    pub params: Vec<Param<E>>,
    pub return_type: Option<Vec<String>>,
    pub body: S,
}

/// Compiles the parser's syntax: statements of type `S` and expressions
/// of type `E`. The generator calls back into it for the statements and
/// expressions inside the constructs it compiles.
pub trait StatementCompiler<'a, 'ctx, E, D, S> {
    /// Compiles one statement into `function`, the function being built.
    fn compile_stmt(
        &mut self,
        compiler: &mut Compiler<'a, 'ctx, E, D>,
        stmt: &S,
        function: FunctionValue<'ctx>,
    ) -> Result<(), CodegenError>;

    /// Compiles one expression: its value and type.
    fn compile_expr(
        &mut self,
        compiler: &mut Compiler<'a, 'ctx, E, D>,
        expr: &E,
    ) -> Result<(BasicValueEnum<'ctx>, BrixType), CodegenError>;

    /// The address an assignable expression (a variable, a field, an
    /// element) denotes, and the type stored there.
    fn compile_lvalue_addr(
        &mut self,
        compiler: &mut Compiler<'a, 'ctx, E, D>,
        expr: &E,
    ) -> Result<(PointerValue<'ctx>, BrixType), CodegenError>;

    /// The syntactic form of an expression.
    fn expr_form(&self, expr: &E) -> ExprForm;

    /// The text of a string literal; `None` for any other expression.
    fn string_literal(&self, expr: &E) -> Option<String>;

    /// The parts of a kept generic function definition; `None` when the
    /// definition is not a function's.
    fn function_parts(&self, def: &D) -> Option<FunctionParts<E, S>>;

    /// The parts of a kept generic struct definition; `None` when the
    /// definition is not a struct's.
    fn struct_parts(&self, def: &D) -> Option<StructParts<E>>;

    /// The parts of a kept method of a generic struct; `None` when the
    /// definition is not a method's.
    fn method_parts(&self, def: &D) -> Option<MethodParts<E, S>>;
}

impl<'a, 'ctx, E, D> Compiler<'a, 'ctx, E, D> {
    /// Compiles a program: its statements, in order, become the body of
    /// `i64 main()`; the reference-counted variables still tracked are
    /// released and `main` returns 0. The first failing statement ends
    /// compilation with its error.
    pub fn compile_program<S, C: StatementCompiler<'a, 'ctx, E, D, S>>(
        &mut self,
        statements: &[S],
        stmt_compiler: &mut C,
    ) -> (r: Result<(), CodegenError>)
        ensures
            statements@.len() == 0 ==> final(self).current_function is Some,
            statements@.len() == 0 ==> final(self).function_scope_vars == old(self).function_scope_vars,
            statements@.len() == 0 ==> final(self).variables == old(self).variables,
            r is Ok ==> (final(self).main_return matches Some((ret, zero)) && zero.asked() == 0
                && ret.returned() == Some(llvm::int_value_as_basic(zero.constant()))),
            r is Ok ==> called_names(final(self).exit_releases@) == release_calls(
                final(self).function_scope_vars@,
                release_positions(
                    names_of(final(self).function_scope_vars@),
                    final(self).variables.map().dom(),
                    final(self).function_scope_vars@.len() as int,
                ),
            ),
    {
        let i64_ty = llvm::i64_type(self.context);
        let no_params: Vec<inkwell::types::BasicTypeEnum<'ctx>> = Vec::new();
        let fn_ty = llvm::basic_fn_type(llvm::int_type_basic(i64_ty), &no_params, false);
        let function = llvm::add_function(self.module, "main", fn_ty, LinkageKind::Unspecified);
        let entry = llvm::append_basic_block(self.context, function, "entry");
        llvm::position_at_end(self.builder, entry);
        self.current_function = Some(function);
        let mut i: usize = 0;
        while i < statements.len()
            invariant
                i <= statements@.len(),
                statements@.len() == 0 ==> self.current_function is Some,
                statements@.len() == 0 ==> self.function_scope_vars == old(self).function_scope_vars,
                statements@.len() == 0 ==> self.variables == old(self).variables,
            decreases statements@.len() - i,
        {
            stmt_compiler.compile_stmt(self, &statements[i], function)?;
            i = i + 1;
        }
        let (released, calls) = self.release_function_scope_vars();
        released?;
        self.exit_releases = calls;
        let (zero, zero_record) = llvm::const_int(i64_ty, 0, false);
        let (returned, value) = llvm::build_return(self.builder, Some(llvm::int_value_basic(zero)));
        self.main_return = Some((value, zero_record));
        if !returned {
            return Err(CodegenError::LLVMError {
                operation: String::from_str("build_return"),
                details: String::from_str("Failed to build return instruction in main"),
            });
        }
        Ok(())
    }
}

} // verus!
