//! Statements and expressions as the generator reads them, and the
//! dispatch of each form to the code that compiles it.
//!
//! A view holds references into the parser's statements `S` and
//! expressions `E` (and, for definitions kept for later instantiation, the
//! definition `D` itself); the parser's statement compiler builds the view
//! of a node and hands it to `compile_stmt_view` or `compile_expr_view`.

use vstd::prelude::*;
use inkwell::values::{BasicValueEnum, FunctionValue};
use crate::types::{BrixType, TypeModel};
use crate::compiler::{Compiler, CodegenError, StatementCompiler};
use crate::generics::{TypeParam, Param};
use crate::ops::{BinaryOp, UnaryOp, spec_plan_binary, spec_plan_result};
use crate::patterns::MatchArm;
use crate::comprehension::{ComprehensionGen, clauses_bind, binding, distinct_names};
use crate::access::FStringPart;
use crate::invoke::{Callee, line_offset_ok};
use crate::calls::{spec_builtin_of, spec_builtin_result};
use crate::instances::RESOLUTION_BUDGET;
use crate::typeparse::resolve_type_text_within;
use crate::closures::closure_param_texts;

verus! {

/// A statement.
#[allow(inconsistent_fields)]
pub enum StmtView<'s, E, S, D> {
    /// `name: type_hint := value`.
    VariableDecl { name: &'s str, type_hint: Option<&'s str>, value: &'s E },
    /// `a, b, ... := value`.
    DestructuringDecl { names: &'s [String], value: &'s E },
    /// `target = value`.
    Assignment { target: &'s E, value: &'s E },
    /// `printf(format, args)`.
    Printf { format: &'s str, args: &'s [E] },
    /// `print(expr)`.
    Print(&'s E),
    /// `println(expr)`.
    Println(&'s E),
    /// An expression evaluated for its effects.
    Expr(&'s E),
    /// `{ statements }`.
    Block(&'s [S]),
    /// `if condition then_block else else_block`.
    If { condition: &'s E, then_block: &'s S, else_block: Option<&'s S> },
    /// `while condition body`.
    While { condition: &'s E, body: &'s S },
    /// `for names in start..end` or `start..end..step`.
    ForRange { var_names: &'s [String], start: &'s E, end: &'s E, step: Option<&'s E>, body: &'s S },
    /// `for names in iterable` over anything but a range.
    ForEach { var_names: &'s [String], iterable: &'s E, body: &'s S },
    /// `type name = definition`.
    TypeAlias { name: &'s str, definition: &'s str },
    /// A function definition, `def` being the whole statement.
    FunctionDef {
        name: &'s str,
        type_params: &'s [TypeParam],
        params: Vec<Param<E>>,
        return_type: &'s Option<Vec<String>>,
        body: &'s S,
        def: D,
    },
    /// A struct definition, `def` being the whole definition.
    StructDef { name: &'s str, type_params: &'s [TypeParam], fields: Vec<Param<E>>, def: D },
    /// A method definition, `def` being the whole definition.
    MethodDef {
        receiver_name: &'s str,
        receiver_type: &'s str,
        method_name: &'s str,
        params: &'s [Param<E>],
        return_type: &'s Option<Vec<String>>,
        body: &'s S,
        def: D,
    },
    /// `return values`.
    Return(&'s [E]),
}

/// An expression other than a literal.
#[allow(inconsistent_fields)]
pub enum ExprView<'e, 'ctx, E, S> {
    /// A variable, or `im`.
    Identifier(&'e str),
    /// `op operand`.
    Unary { op: UnaryOp, operand: &'e E },
    /// `lhs op rhs`.
    Binary { op: BinaryOp, lhs: &'e E, rhs: &'e E },
    /// `func(args)`, the callee written as `callee`, at offset
    /// `span_start` of the source.
    Call { func: &'e E, callee: Callee<'e, E>, args: &'e [E], span_start: usize },
    /// `name<type_args>(args)`; `name` is `None` when the callee is not a
    /// bare name.
    GenericCall { name: Option<&'e str>, type_args: &'e [String], args: &'e [E] },
    /// `target.field`; `target_var` is the variable when the target is a
    /// bare name.
    FieldAccess { target: &'e E, target_var: Option<&'e str>, field: &'e str },
    /// `array[indices]`; `literal` is the integer when the only index is an
    /// integer literal.
    Index { array: &'e E, indices: &'e [E], literal: Option<i64> },
    /// `[elements]`.
    Array(&'e [E]),
    /// `[expr for ... in ... if ...]`.
    ListComprehension { expr: &'e E, generators: &'e [ComprehensionGen<E>] },
    /// `match value { arms }`.
    Match { value: &'e E, arms: &'e [MatchArm<'ctx, E>] },
    /// `++target`, `target++`, `--target` or `target--`.
    Step { target: &'e E, is_prefix: bool, increment: bool },
    /// `f"..."`.
    FString(&'e [FStringPart<E>]),
    /// `Name<type_args>{ field: value, ... }`.
    StructInit { name: &'e str, type_args: &'e [String], fields: &'e [(String, E)] },
    /// `|params| -> return_type { body }` capturing `captured`.
    Closure { captured: &'e [String], params: &'e [(String, String)], return_type: Option<&'e str>, body: &'e S },
}

/// What compiling an expression view needs: a variable read is not of an
/// optional type, each comprehension clause binds a name, and a test
/// expectation's offset falls in the source.
pub open spec fn expr_view_ready<'a, 'ctx, E, D, S>(c: Compiler<'a, 'ctx, E, D>, view: ExprView<'_, 'ctx, E, S>) -> bool {
    match view {
        ExprView::Identifier(name) => c.variables.map().dom().contains(name@) ==> !(c.variables.map()[name@].1@ is Optional),
        ExprView::ListComprehension { generators, .. } => clauses_bind(generators@),
        ExprView::Call { callee, span_start, .. } => callee is Expect ==> line_offset_ok(c.source@, span_start),
        _ => true,
    }
}

fn does_not_resolve(text: &str) -> (e: CodegenError)
    ensures
        e is General,
{
    let mut message = String::from_str("Type '");
    message.append(text);
    message.append("' does not resolve");
    CodegenError::General { message }
}

impl<'a, 'ctx, E, D> Compiler<'a, 'ctx, E, D> {
    /// Compiles a statement by its form into `function`. A type text of a
    /// definition that does not resolve within `RESOLUTION_BUDGET`, fields
    /// that cannot be laid out, and more parameters than LLVM numbers are
    /// refused before anything is emitted.
    pub fn compile_stmt_view<S, C: StatementCompiler<'a, 'ctx, E, D, S>>(
        &mut self,
        sc: &mut C,
        view: StmtView<E, S, D>,
        function: FunctionValue<'ctx>,
    ) -> (r: Result<(), CodegenError>)
        where
            E: Clone,
        requires
            view matches StmtView::ForEach { var_names, .. } ==> var_names@.len() > 0,
        ensures
            view matches StmtView::TypeAlias { name, definition } ==> (r is Ok && final(self).type_aliases.map()
                == old(self).type_aliases.map().insert(name@, final(self).type_aliases.map()[name@])
                && final(self).type_aliases.map()[name@]@ == definition@),
            view matches StmtView::Block(statements) ==> (statements@.len() == 0 ==> r is Ok),
            view matches StmtView::VariableDecl { name, .. } ==> (r is Ok ==> final(self).variables.map().dom().contains(name@)),
            view matches StmtView::DestructuringDecl { names, .. } ==> (r is Ok ==> forall|i: int|
                0 <= i < names@.len() && names@[i]@ != "_"@ ==> final(self).variables.map().dom().contains(#[trigger] names@[i]@)),
            view matches StmtView::Print(_) ==> (r is Ok ==> (final(self).last_print_format matches Some(t) && t.text() == "%s"@)),
            view matches StmtView::Println(_) ==> (r is Ok ==> (final(self).last_print_format matches Some(t) && t.text() == "%s\n"@)),
            view matches StmtView::ForRange { var_names, .. } ==> (var_names@.len() != 1 ==> (r matches Err(
                CodegenError::InvalidOperation { operation, reason },
            ) && operation@ == "Range iteration"@ && reason@ == "Range iteration supports only single variable"@)),
            view matches StmtView::ForRange { .. } ==> (r is Ok ==> crate::loops::range_loop_shape(final(self).last_loop@)),
            view matches StmtView::ForEach { .. } ==> (r is Ok ==> crate::loops::array_loop(final(self).last_loop@)),
            view matches StmtView::FunctionDef { name, type_params, def, .. } ==> (type_params@.len() > 0 ==> (r is Ok
                && final(self).generic_functions.map() == old(self).generic_functions.map().insert(name@, def))),
            view matches StmtView::StructDef { name, type_params, def, .. } ==> (type_params@.len() > 0 ==> (r is Ok
                && final(self).generic_structs.map() == old(self).generic_structs.map().insert(name@, def))),
    {
        match view {
            StmtView::VariableDecl { name, type_hint, value } => self.declare_variable(sc, name, type_hint, value),
            StmtView::DestructuringDecl { names, value } => self.compile_destructuring_decl_stmt(sc, names, value),
            StmtView::Assignment { target, value } => self.compile_assignment_stmt(sc, target, value),
            StmtView::Printf { format, args } => self.compile_printf_stmt(sc, format, args),
            StmtView::Print(e) => self.compile_print_stmt(sc, e),
            StmtView::Println(e) => self.compile_println_stmt(sc, e),
            StmtView::Expr(e) => self.compile_expr_stmt(sc, e),
            StmtView::Block(statements) => self.compile_block_stmt(sc, statements, function),
            StmtView::If { condition, then_block, else_block } => self.compile_if_stmt(
                sc,
                condition,
                then_block,
                else_block,
                function,
            ),
            StmtView::While { condition, body } => self.compile_while_stmt(sc, condition, body, function),
            StmtView::ForRange { var_names, start, end, step, body } => self.compile_for_range(
                sc,
                var_names,
                start,
                end,
                step,
                body,
                function,
            ),
            StmtView::ForEach { var_names, iterable, body } => self.compile_for_each(sc, var_names, iterable, body, function),
            StmtView::TypeAlias { name, definition } => {
                self.register_type_alias(String::from_str(name), String::from_str(definition));
                Ok(())
            },
            StmtView::FunctionDef { name, type_params, params, return_type, body, def } => {
                if type_params.len() == 0 {
                    match self.texts_ready(&params, return_type) {
                        Ok(()) => {},
                        Err(t) => return Err(does_not_resolve(t.as_str())),
                    }
                    if params.len() >= 4294967295 {
                        return Err(CodegenError::General { message: String::from_str("Too many parameters") });
                    }
                }
                self.compile_function_def(sc, name, type_params, params, return_type, body, def, function)
            },
            StmtView::StructDef { name, type_params, fields, def } => {
                if type_params.len() == 0 && !self.fields_ready_within(&fields, RESOLUTION_BUDGET) {
                    let mut message = String::from_str("Fields of '");
                    message.append(name);
                    message.append("' cannot be laid out");
                    return Err(CodegenError::General { message });
                }
                self.compile_struct_def(name, type_params, fields, def)
            },
            StmtView::MethodDef { receiver_name, receiver_type, method_name, params, return_type, body, def } => {
                match self.texts_ready(params, return_type) {
                    Ok(()) => {},
                    Err(t) => return Err(does_not_resolve(t.as_str())),
                }
                if resolve_type_text_within(&self.type_aliases, &self.struct_defs, receiver_type, RESOLUTION_BUDGET).is_none() {
                    return Err(does_not_resolve(receiver_type));
                }
                if params.len() >= 4294967294 {
                    return Err(CodegenError::General { message: String::from_str("Too many parameters") });
                }
                self.compile_method_def(
                    sc,
                    receiver_name,
                    receiver_type,
                    method_name,
                    params,
                    return_type,
                    body,
                    def,
                    function,
                )
            },
            StmtView::Return(values) => self.compile_return_stmt(sc, values),
        }
    }

    /// Compiles an expression by its form. A closure whose parameter or
    /// return type text does not resolve within `RESOLUTION_BUDGET`, or
    /// with more parameters or captures than LLVM numbers, is refused.
    pub fn compile_expr_view<S, C: StatementCompiler<'a, 'ctx, E, D, S>>(
        &mut self,
        sc: &mut C,
        view: ExprView<'_, 'ctx, E, S>,
    ) -> (r: Result<(BasicValueEnum<'ctx>, BrixType), CodegenError>)
        where
            E: Clone,
            D: Clone,
        requires
            expr_view_ready(*old(self), view),
        ensures
            view matches ExprView::Identifier(name) ==> (old(self).variables.map().dom().contains(name@) ==> (r matches Ok(
                (_, t),
            ) ==> t@ == old(self).variables.map()[name@].1@)),
            view matches ExprView::Identifier(name) ==> (!old(self).variables.map().dom().contains(name@) && name@ != "im"@
                ==> (r matches Err(CodegenError::UndefinedSymbol { name: n, context }) && n@ == name@ && context@
                == "Variable lookup in expression"@)),
            view matches ExprView::Identifier(name) ==> (!old(self).variables.map().dom().contains(name@) && name@ == "im"@
                ==> (r matches Ok((_, t)) && t@ is Complex)),
            view matches ExprView::Identifier(_) ==> *final(self) == *old(self),
            view matches ExprView::Identifier(name) ==> (old(self).variables.map().dom().contains(name@) && !(
            old(self).variables.map()[name@].1@ is Void || old(self).variables.map()[name@].1@ is ComplexArray) && !(
            old(self).variables.map()[name@].1@ matches TypeModel::Struct(s) && !old(self).struct_types.map().dom().contains(s))
                ==> (r is Ok || (r matches Err(e) && (e is LLVMError || e is MissingValue)))),
            view matches ExprView::Match { arms, .. } ==> (arms@.len() == 0 ==> r is Err),
            view matches ExprView::Unary { op, .. } ==> (r matches Ok((_, t)) ==> (op is Not ==> t@ is Int) && (op is Negate
                ==> (t@ is Int || t@ is Float))),
            view matches ExprView::Binary { op, .. } ==> ((op is LogicalAnd || op is LogicalOr) ==> (r matches Ok((_, t))
                ==> t@ is Int)),
            view matches ExprView::Binary { op, .. } ==> (!(op is Elvis || op is LogicalAnd || op is LogicalOr) ==> (
            r matches Ok((_, t)) ==> exists|lt: TypeModel, rt: TypeModel| #[trigger] spec_plan_binary(op, lt, rt) matches Ok(
                p,
            ) && t@ == spec_plan_result(p, lt))),
            view matches ExprView::Call { callee, .. } ==> (callee matches Callee::Name(n) ==> (spec_builtin_of(n@) matches Some(
                b,
            ) ==> (r matches Ok((_, t)) ==> t@ == spec_builtin_result(b)))),
            view matches ExprView::Call { callee, .. } ==> ((callee is Expect || (callee matches Callee::Member { object, .. }
                && object@ == "test"@)) ==> (r matches Ok((_, t)) ==> t@ is Nil)),
            view matches ExprView::GenericCall { name, .. } ==> (name is None ==> r is Err),
            view matches ExprView::Array(_) ==> (r matches Ok((_, t)) ==> (t@ is IntMatrix || t@ is Matrix)),
            view matches ExprView::Array(elements) ==> (elements@.len() == 0 ==> (r matches Ok((_, t)) ==> t@ is IntMatrix)),
            view matches ExprView::Index { indices, .. } ==> ((indices@.len() == 0 || indices@.len() > 2) ==> r is Err),
            view matches ExprView::ListComprehension { .. } ==> (r matches Ok((_, t)) ==> t@ is Matrix),
            view matches ExprView::ListComprehension { generators, .. } ==> (generators@.len() == 0 ==> (r matches Err(
                CodegenError::InvalidOperation { operation, reason },
            ) && operation@ == "list comprehension"@ && reason@ == "must have at least one generator"@
                && *final(self) == *old(self))),
            view matches ExprView::Closure { captured, .. } ==> ((exists|k: int| 0 <= k < captured@.len()
                && !old(self).variables.map().dom().contains(#[trigger] captured@[k]@)) ==> r is Err),
            view matches ExprView::Closure { .. } ==> (r is Ok ==> (final(self).last_closure matches Some(c)
                && crate::closures::closure_built(c, old(self).closure_counter))),
            view matches ExprView::Step { .. } ==> (r matches Ok((_, t)) ==> t@ is Int),
            view matches ExprView::FString(_) ==> (r matches Ok((_, t)) ==> t@ is String),
            view matches ExprView::StructInit { name, type_args, .. } ==> (type_args@.len() == 0 ==> (r matches Ok((_, t))
                ==> t@ == TypeModel::Struct(name@))),
    {
        match view {
            ExprView::Identifier(name) => self.compile_identifier(name).0,
            ExprView::Unary { op, operand } => self.compile_unary_expr(sc, op, operand),
            ExprView::Binary { op, lhs, rhs } => self.compile_binary_expr(sc, op, lhs, rhs),
            ExprView::Call { func, callee, args, span_start } => self.compile_call(sc, func, callee, args, span_start),
            ExprView::GenericCall { name, type_args, args } => self.compile_generic_call(sc, name, type_args, args),
            ExprView::FieldAccess { target, target_var, field } => self.compile_field_access(sc, target, target_var, field),
            ExprView::Index { array, indices, literal } => self.compile_index_expr(sc, array, indices, literal),
            ExprView::Array(elements) => self.compile_array_literal(sc, elements),
            ExprView::ListComprehension { expr, generators } => self.compile_list_comprehension(sc, expr, generators),
            ExprView::Match { value, arms } => self.compile_match_expr(sc, value, arms),
            ExprView::Step { target, is_prefix, increment } => self.compile_step(sc, target, is_prefix, increment),
            ExprView::FString(parts) => self.compile_fstring(sc, parts),
            ExprView::StructInit { name, type_args, fields } => self.compile_struct_init(sc, name, type_args, fields),
            ExprView::Closure { captured, params, return_type, body } => {
                self.closure_ready(params, return_type)?;
                if self.closure_counter == usize::MAX {
                    return Err(CodegenError::General { message: String::from_str("Too many closures") });
                }
                if params.len() >= 4294967294 || captured.len() >= 4294967295 {
                    return Err(CodegenError::General { message: String::from_str("Too many parameters") });
                }
                self.compile_closure(sc, captured, params, return_type, body)
            },
        }
    }

    /// Whether a closure's parameter and return type texts resolve within
    /// `RESOLUTION_BUDGET`.
    fn closure_ready(&self, params: &[(String, String)], return_type: Option<&str>) -> (r: Result<(), CodegenError>)
        ensures
            r is Ok ==> self.texts_resolve(closure_param_texts(params@)),
            r is Ok ==> (return_type matches Some(t) ==> crate::typeparse::resolves(
                crate::typeparse::alias_texts(self.type_aliases.map()),
                self.struct_defs.map().dom(),
                t@,
            )),
    {
        let mut i: usize = 0;
        while i < params.len()
            invariant
                i <= params@.len(),
                forall|j: int| 0 <= j < i ==> crate::typeparse::resolves(
                    crate::typeparse::alias_texts(self.type_aliases.map()),
                    self.struct_defs.map().dom(),
                    #[trigger] closure_param_texts(params@)[j],
                ),
            decreases params@.len() - i,
        {
            if resolve_type_text_within(&self.type_aliases, &self.struct_defs, params[i].1.as_str(), RESOLUTION_BUDGET).is_none() {
                return Err(does_not_resolve(params[i].1.as_str()));
            }
            assert(closure_param_texts(params@)[i as int] == params@[i as int].1@);
            i = i + 1;
        }
        match return_type {
            Some(t) => {
                if resolve_type_text_within(&self.type_aliases, &self.struct_defs, t, RESOLUTION_BUDGET).is_none() {
                    return Err(does_not_resolve(t));
                }
                Ok(())
            },
            None => Ok(()),
        }
    }
}

} // verus!
