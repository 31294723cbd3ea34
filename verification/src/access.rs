//! Reading values: variables, fields, elements, `++`/`--`, and f-strings.

use vstd::prelude::*;
use inkwell::values::{BasicValueEnum, PointerValue, IntValue};
use crate::types::{BrixType, TypeModel, is_closure_type, spec_is_closure};
use crate::compiler::{Compiler, CodegenError, Found, Field, StatementCompiler};
use crate::stringify::is_stringifiable;
use crate::format::debug_text;
use crate::llvm::{self, Emitted, IntInstr, Record, LoadRecord};

verus! {

/// The target of an assignment, as the generator reads it.
pub enum LvalueView<'e, E> {
    /// A variable.
    Variable(&'e str),
    /// `array[indices]`.
    Element { array: &'e E, indices: &'e [E] },
    /// Anything else.
    Other,
}

fn access_failed(operation: &str, details: &str) -> (e: CodegenError)
    ensures
        e is LLVMError,
{
    CodegenError::LLVMError { operation: String::from_str(operation), details: String::from_str(details) }
}

fn general(message: String) -> (e: CodegenError)
    ensures
        e matches CodegenError::General { message: m } && m@ == message@,
{
    CodegenError::General { message }
}

/// `a` followed by `b` followed by `c`.
fn text3(a: &str, b: &str, c: &str) -> (r: String)
    ensures
        r@ == a@ + b@ + c@,
{
    let mut s = String::from_str(a);
    s.append(b);
    s.append(c);
    s
}

/// The position of the first field named `field`.
pub open spec fn first_field_index<E>(fields: Seq<Field<E>>, field: Seq<char>) -> Option<int>
    decreases fields.len(),
{
    if fields.len() == 0 {
        None
    } else if fields.last().0@ == field && first_field_index(fields.drop_last(), field) is None {
        Some(fields.len() - 1)
    } else {
        first_field_index(fields.drop_last(), field)
    }
}

fn find_field<E>(fields: &Vec<Field<E>>, field: &str) -> (r: Option<usize>)
    ensures
        r matches Some(i) ==> first_field_index(fields@, field@) == Some(i as int) && i < fields@.len()
            && fields@[i as int].0@ == field@,
        r is None ==> first_field_index(fields@, field@) is None,
{
    let mut i: usize = 0;
    while i < fields.len()
        invariant
            i <= fields@.len(),
            first_field_index(fields@.subrange(0, i as int), field@) is None,
        decreases fields@.len() - i,
    {
        let ghost prefix = fields@.subrange(0, i as int);
        let ghost next = fields@.subrange(0, i + 1);
        assert(next.drop_last() =~= prefix);
        if crate::strmap::str_equal(fields[i].0.as_str(), field) {
            assert(first_field_index(next, field@) == Some(i as int));
            proof {
                lemma_first_field_prefix(fields@, field@, i + 1);
            }
            return Some(i);
        }
        i = i + 1;
    }
    assert(fields@.subrange(0, fields@.len() as int) =~= fields@);
    None
}

/// A first match in a prefix is the first match of the whole list.
proof fn lemma_first_field_prefix<E>(fields: Seq<Field<E>>, field: Seq<char>, n: int)
    requires
        0 <= n <= fields.len(),
        first_field_index(fields.subrange(0, n), field) is Some,
    ensures
        first_field_index(fields, field) == first_field_index(fields.subrange(0, n), field),
    decreases fields.len() - n,
{
    if n < fields.len() {
        assert(fields.subrange(0, n + 1).drop_last() =~= fields.subrange(0, n));
        assert(first_field_index(fields.subrange(0, n + 1), field) == first_field_index(fields.subrange(0, n), field));
        lemma_first_field_prefix(fields, field, n + 1);
    } else {
        assert(fields.subrange(0, n) =~= fields);
    }
}

/// A part of an f-string: literal text, or an expression with an optional
/// format specifier.
pub enum FStringPart<E> {
    Text(String),
    Expr { expr: E, format: Option<String> },
}

impl<'a, 'ctx, E, D> Compiler<'a, 'ctx, E, D> {
    /// The value of the variable `name`: its slot is loaded (a closure is
    /// also retained, as reading it copies a reference). With no variable
    /// of that name, `im` is the imaginary unit `0 + 1i`; any other name is
    /// undefined. A struct whose layout is unknown, and a type no variable
    /// can hold, are refused. The record is the load of the variable's slot.
    pub fn compile_identifier(&self, name: &str) -> (r: (Result<(BasicValueEnum<'ctx>, BrixType), CodegenError>, Option<LoadRecord<'ctx>>))
        requires
            self.variables.map().dom().contains(name@) ==> !(self.variables.map()[name@].1@ is Optional),
        ensures
            self.variables.map().dom().contains(name@) ==> (r.0 matches Ok((_, t)) ==> t@ == self.variables.map()[name@].1@),
            !self.variables.map().dom().contains(name@) && name@ != "im"@ ==> (r.0 matches Err(
                CodegenError::UndefinedSymbol { name: n, context },
            ) && n@ == name@ && context@ == "Variable lookup in expression"@),
            !self.variables.map().dom().contains(name@) && name@ == "im"@ ==> (r.0 matches Ok((_, t)) && t@ is Complex),
            self.variables.map().dom().contains(name@) ==> (self.variables.map()[name@].1@ matches TypeModel::Struct(s)
                ==> (!self.struct_types.map().dom().contains(s) ==> (r.0 matches Err(CodegenError::UndefinedSymbol { name: n, context })
                && n@ == s && context@ == "Loading struct variable"@))),
            self.variables.map().dom().contains(name@) && (self.variables.map()[name@].1@ is Void
                || self.variables.map()[name@].1@ is ComplexArray) ==> (r.0 matches Err(CodegenError::TypeError { context, .. })
                && context@ == "Identifier compilation - type not supported"@),
            self.variables.map().dom().contains(name@) && !spec_is_closure(self.variables.map()[name@].1@) ==> (r.0 matches Ok((v, _))
                ==> (r.1 matches Some(ld) && ld.source() == self.variables.map()[name@].0 && ld.loaded() == Some(v))),
            self.variables.map().dom().contains(name@) && !(self.variables.map()[name@].1@ is Void
                || self.variables.map()[name@].1@ is ComplexArray) && !(self.variables.map()[name@].1@ matches TypeModel::Struct(s)
                && !self.struct_types.map().dom().contains(s)) ==> (r.0 is Ok || (r.0 matches Err(e) && (e is LLVMError
                || e is MissingValue))),
    {
        let (slot, ty) = match self.variables.get(name) {
            Some(entry) => (entry.0, &entry.1),
            None => {
                if crate::strmap::str_equal(name, "im") {
                    let f64_ty = llvm::f64_type(self.context);
                    let zero = llvm::float_zero(f64_ty);
                    let one = llvm::int_constant_as_float(llvm::i64_type(self.context), 1, f64_ty);
                    let fields = vec![llvm::float_type_basic(f64_ty), llvm::float_type_basic(f64_ty)];
                    let complex = llvm::struct_type(self.context, &fields, false);
                    let values = vec![llvm::float_value_basic(zero), llvm::float_value_basic(one)];
                    let im = llvm::const_named_struct(complex, &values);
                    return (Ok((llvm::struct_value_basic(im), BrixType::Complex)), None);
                }
                return (Err(CodegenError::UndefinedSymbol {
                    name: String::from_str(name),
                    context: String::from_str("Variable lookup in expression"),
                }), None);
            },
        };
        match ty {
            BrixType::Void | BrixType::ComplexArray | BrixType::Optional(_) => {
                return (Err(CodegenError::TypeError {
                    expected: Found::Text(String::from_str("Nil, Error, or Atom")),
                    found: Found::Text(debug_text(ty)),
                    context: String::from_str("Identifier compilation - type not supported"),
                }), None);
            },
            BrixType::Struct(s) => {
                if !self.struct_types.contains_key(s.as_str()) {
                    return (Err(CodegenError::UndefinedSymbol {
                        name: s.clone(),
                        context: String::from_str("Loading struct variable"),
                    }), None);
                }
            },
            _ => {},
        }
        let slot_type = match self.slot_type(ty) {
            Some(t) => t,
            None => return (Err(access_failed("build_load", "a variable's type has a layout")), None),
        };
        let (val, load) = llvm::build_load(self.builder, slot, slot_type, name);
        let val = match val {
            Some(v) => v,
            None => {
                let mut details = String::from_str("Failed to load variable '");
                details.append(name);
                details.append("'");
                return (Err(CodegenError::LLVMError { operation: String::from_str("build_load"), details }), None);
            },
        };
        if is_closure_type(ty) {
            let p = match llvm::basic_as_pointer(val) {
                Some(p) => p,
                None => return (Err(access_failed("into_pointer_value", "a closure is a pointer")), None),
            };
            let retained = match self.closure_retain(p) {
                Ok(q) => q,
                Err(e) => return (Err(e), None),
            };
            return (Ok((llvm::pointer_value_basic(retained), ty.copy())), Some(load));
        }
        (Ok((val, ty.copy())), Some(load))
    }

    /// `var.field` where `var` names a variable: the module constant
    /// `var.field` when one is bound under that name, or the field of a
    /// struct variable, loaded through its slot. `None` when `var` is
    /// neither (the target is then compiled as an expression). A struct not
    /// defined, a field it does not have, or a struct without a layout is
    /// refused.
    pub fn variable_field(&self, var: &str, field: &str) -> (r: Option<Result<(BasicValueEnum<'ctx>, BrixType), CodegenError>>)
        ensures
            self.variables.map().dom().contains(var@ + "."@ + field@) ==> (r matches Some(Ok((_, t))) ==> t@
                == self.variables.map()[var@ + "."@ + field@].1@),
            !self.variables.map().dom().contains(var@ + "."@ + field@) ==> (r is Some <==> (self.variables.map().dom().contains(var@)
                && self.variables.map()[var@].1@ is Struct)),
            !self.variables.map().dom().contains(var@ + "."@ + field@) && self.variables.map().dom().contains(var@) ==> (
            self.variables.map()[var@].1@ matches TypeModel::Struct(s) ==> {
                &&& !self.struct_defs.map().dom().contains(s) ==> (r matches Some(Err(CodegenError::UndefinedSymbol { name, context }))
                    && name@ == s && context@ == "struct field access"@)
                &&& self.struct_defs.map().dom().contains(s) && first_field_index(self.struct_defs.map()[s]@, field@) is None
                    ==> (r matches Some(Err(CodegenError::General { message })) && message@ == "Struct '"@ + s
                    + "' has no field '"@ + field@ + "'"@)
                &&& r matches Some(Ok((_, t))) ==> (self.struct_defs.map().dom().contains(s) && (first_field_index(
                    self.struct_defs.map()[s]@,
                    field@,
                ) matches Some(i) && t@ == self.struct_defs.map()[s]@[i].1@))
            }),
    {
        let constant = text3(var, ".", field);
        match self.variables.get(constant.as_str()) {
            Some(entry) => {
                return match llvm::build_load(self.builder, entry.0, self.f64_basic(), constant.as_str()).0 {
                    Some(v) => Some(Ok((v, entry.1.copy()))),
                    None => {
                        let mut details = String::from_str("Failed to load constant '");
                        details.append(constant.as_str());
                        details.append("'");
                        Some(Err(CodegenError::LLVMError { operation: String::from_str("build_load"), details }))
                    },
                };
            },
            None => {},
        }
        let (slot, struct_name) = match self.variables.get(var) {
            Some(entry) => match &entry.1 {
                BrixType::Struct(s) => (entry.0, s),
                _ => return None,
            },
            None => return None,
        };
        let fields = match self.struct_defs.get(struct_name.as_str()) {
            Some(f) => f,
            None => {
                return Some(Err(CodegenError::UndefinedSymbol {
                    name: struct_name.clone(),
                    context: String::from_str("struct field access"),
                }));
            },
        };
        let index = match find_field(fields, field) {
            Some(i) => i,
            None => {
                let mut message = text3("Struct '", struct_name.as_str(), "' has no field '");
                message.append(field);
                message.append("'");
                return Some(Err(general(message)));
            },
        };
        let layout = match self.struct_types.get(struct_name.as_str()) {
            Some(t) => *t,
            None => return Some(Err(general(text3("Struct type '", struct_name.as_str(), "' not found")))),
        };
        let typed = match llvm::build_pointer_cast(self.builder, slot, llvm::pointer_to(llvm::struct_type_basic(layout)), "struct_ptr") {
            Some(p) => p,
            None => return Some(Err(access_failed("build_pointer_cast", "Failed to type a struct pointer"))),
        };
        if index >= 4294967295 {
            return Some(Err(access_failed("build_struct_gep", "a field index fits in 32 bits")));
        }
        let field_ptr = match llvm::build_struct_gep(self.builder, typed, index as u32, "field_ptr") {
            Some(p) => p,
            None => {
                let mut details = text3("Failed to get field '", field, "' pointer from struct '");
                details.append(struct_name.as_str());
                details.append("'");
                return Some(Err(CodegenError::LLVMError { operation: String::from_str("build_struct_gep"), details }));
            },
        };
        let field_type = match self.try_brix_type_to_llvm(&fields[index].1) {
            Some(t) => t,
            None => return Some(Err(general(text3("Field '", field, "' has no layout")))),
        };
        match llvm::build_load(self.builder, field_ptr, field_type, "load_field").0 {
            Some(v) => Some(Ok((v, fields[index].1.copy()))),
            None => {
                let mut details = text3("Failed to load field '", field, "' from struct '");
                details.append(struct_name.as_str());
                details.append("'");
                Some(Err(CodegenError::LLVMError { operation: String::from_str("build_load"), details }))
            },
        }
    }

    /// `value.field` of a compiled value: a string's `len` is an `int`; an
    /// array's `rows` and `cols` are `int`s and its `data` a raw float
    /// pointer. Fields of struct-valued expressions (other than variables)
    /// are not supported, an array has no other field, and nothing else
    /// has fields.
    pub fn value_field(&self, val: BasicValueEnum<'ctx>, ty: &BrixType, field: &str) -> (r: Result<(BasicValueEnum<'ctx>, BrixType), CodegenError>)
        ensures
            ty@ is Struct ==> (r matches Err(CodegenError::General { message }) && message@
                == "Field access on struct-valued expressions not yet supported. Use a variable."@),
            r matches Ok((_, t)) ==> {
                ||| ty@ is String && field@ == "len"@ && t@ is Int
                ||| (ty@ is Matrix || ty@ is IntMatrix) && (field@ == "rows"@ || field@ == "cols"@) && t@ is Int
                ||| (ty@ is Matrix || ty@ is IntMatrix) && field@ == "data"@ && t@ is FloatPtr
            },
            (ty@ is Matrix || ty@ is IntMatrix) && !(field@ == "rows"@ || field@ == "cols"@ || field@ == "data"@) ==> (r matches Err(
                CodegenError::General { message },
            ) && message@ == "unknown field '"@ + field@ + "'"@),
            !(ty@ is Struct || ty@ is Matrix || ty@ is IntMatrix || (ty@ is String && field@ == "len"@)) ==> (r matches Err(
                CodegenError::MissingValue { what, context },
            ) && what@ == "expression value"@ && context@ == "compile_expr"@),
    {
        let is_len = crate::strmap::str_equal(field, "len");
        match ty {
            BrixType::Struct(_) => Err(general(String::from_str("Field access on struct-valued expressions not yet supported. Use a variable."))),
            BrixType::String if is_len => {
                let p = match llvm::basic_as_pointer(val) {
                    Some(p) => p,
                    None => return Err(access_failed("into_pointer_value", "a string is a pointer")),
                };
                let layout = llvm::pointer_to(llvm::struct_type_basic(self.get_string_type()));
                let typed = match llvm::build_pointer_cast(self.builder, p, layout, "str_struct") {
                    Some(t) => t,
                    None => return Err(access_failed("build_pointer_cast", "Failed to type a string pointer")),
                };
                let len_ptr = match llvm::build_struct_gep(self.builder, typed, 1, "len_ptr") {
                    Some(l) => l,
                    None => return Err(access_failed("build_struct_gep", "Failed to get string len pointer")),
                };
                match llvm::build_load(self.builder, len_ptr, self.i64_basic(), "len_val").0 {
                    Some(v) => Ok((v, BrixType::Int)),
                    None => Err(access_failed("build_load", "Failed to load string length")),
                }
            },
            BrixType::Matrix | BrixType::IntMatrix => {
                let index: u32 = if crate::strmap::str_equal(field, "rows") {
                    1
                } else if crate::strmap::str_equal(field, "cols") {
                    2
                } else if crate::strmap::str_equal(field, "data") {
                    3
                } else {
                    return Err(general(text3("unknown field '", field, "'")));
                };
                let layout = if matches!(ty, BrixType::Matrix) { self.get_matrix_type() } else { self.get_intmatrix_type() };
                let p = match llvm::basic_as_pointer(val) {
                    Some(p) => p,
                    None => return Err(access_failed("into_pointer_value", "an array is a pointer")),
                };
                let typed = match llvm::build_pointer_cast(self.builder, p, llvm::pointer_to(llvm::struct_type_basic(layout)), "matrix_ptr") {
                    Some(t) => t,
                    None => return Err(access_failed("build_pointer_cast", "Failed to type an array pointer")),
                };
                let field_ptr = match llvm::build_struct_gep(self.builder, typed, index, "field_ptr") {
                    Some(f) => f,
                    None => {
                        let details = text3("Failed to get matrix field '", field, "' pointer");
                        return Err(CodegenError::LLVMError { operation: String::from_str("build_struct_gep"), details });
                    },
                };
                let name = if index == 3 { "load_ptr" } else { "load_field" };
                let v = match llvm::build_load(self.builder, field_ptr, if index == 3 { self.ptr_basic() } else { self.i64_basic() }, name).0 {
                    Some(v) => v,
                    None => {
                        let details = text3("Failed to load matrix field '", field, "'");
                        return Err(CodegenError::LLVMError { operation: String::from_str("build_load"), details });
                    },
                };
                Ok((v, if index == 3 { BrixType::FloatPtr } else { BrixType::Int }))
            },
            _ => Err(CodegenError::MissingValue {
                what: String::from_str("expression value"),
                context: String::from_str("compile_expr"),
            }),
        }
    }

    /// `target.field`: when the target is the variable `target_var` (the
    /// name the parser gives for an identifier target), a module constant
    /// or a struct variable's field; otherwise the target is compiled by
    /// `sc` and its field read.
    pub fn compile_field_access<S, C: StatementCompiler<'a, 'ctx, E, D, S>>(
        &mut self,
        sc: &mut C,
        target: &E,
        target_var: Option<&str>,
        field: &str,
    ) -> (r: Result<(BasicValueEnum<'ctx>, BrixType), CodegenError>) {
        match target_var {
            Some(var) => match self.variable_field(var, field) {
                Some(result) => return result,
                None => {},
            },
            None => {},
        }
        let (val, ty) = sc.compile_expr(self, target)?;
        self.value_field(val, &ty, field)
    }

    /// Element `literal` of a tuple value with members `members`, indexed
    /// by `index_count` indices; `literal` is the first index when it is an
    /// integer literal. A tuple takes exactly one index, a constant one,
    /// within its length.
    pub fn tuple_element(
        &self,
        val: BasicValueEnum<'ctx>,
        members: &Vec<BrixType>,
        index_count: usize,
        literal: Option<i64>,
    ) -> (r: Result<(BasicValueEnum<'ctx>, BrixType), CodegenError>)
        ensures
            (index_count != 1 || literal is None) ==> (r matches Err(CodegenError::General { message }) && message@
                == "compilation error"@),
            r matches Ok((_, t)) ==> (index_count == 1 && (literal matches Some(n) && (n as u32) < members@.len() && t@
                == members@[(n as u32) as int]@)),
            literal matches Some(n) ==> (index_count == 1 && (n as u32) >= members@.len() ==> (r matches Err(
                CodegenError::General { message },
            ) && message@ == "compilation error"@)),
            literal matches Some(n) ==> (index_count == 1 && (n as u32) < members@.len() ==> (r is Ok || (r matches Err(e)
                && e is LLVMError))),
    {
        if index_count != 1 {
            return Err(general(String::from_str("compilation error")));
        }
        let n = match literal {
            Some(n) => n,
            None => return Err(general(String::from_str("compilation error"))),
        };
        let idx = n as u32;
        if idx as usize >= members.len() {
            return Err(general(String::from_str("compilation error")));
        }
        let s = match llvm::basic_as_struct(val) {
            Some(s) => s,
            None => return Err(access_failed("into_struct_value", "a tuple is a struct")),
        };
        match llvm::build_extract_value(self.builder, s, idx, "extract") {
            Some(v) => Ok((v, members[idx as usize].copy())),
            None => Err(access_failed("build_extract_value", "Failed to extract tuple element")),
        }
    }

    /// `array[i]` or `array[row, col]`: the target compiled by `sc`; a
    /// tuple takes a constant index (`literal`, when the single index is an
    /// integer literal); an array's element at `i`, or at `row * cols +
    /// col`, the indices compiled by `sc` in order, is loaded as an `int`
    /// or a `float`. Anything else, or another number of indices, is
    /// refused.
    pub fn compile_index_expr<S, C: StatementCompiler<'a, 'ctx, E, D, S>>(
        &mut self,
        sc: &mut C,
        array: &E,
        indices: &[E],
        literal: Option<i64>,
    ) -> (r: Result<(BasicValueEnum<'ctx>, BrixType), CodegenError>)
        ensures
            (indices@.len() == 0 || indices@.len() > 2) ==> r is Err,
            indices@.len() == 2 ==> (r matches Ok((_, t)) ==> (t@ is Int || t@ is Float)),
            (indices@.len() == 1 && literal is None) ==> (r matches Ok((_, t)) ==> (t@ is Int || t@ is Float)),
    {
        let (val, ty) = sc.compile_expr(self, array)?;
        let ints = match &ty {
            BrixType::Tuple(members) => return self.tuple_element(val, members, indices.len(), literal),
            BrixType::Matrix => false,
            BrixType::IntMatrix => true,
            _ => return Err(general(String::from_str("compilation error"))),
        };
        let layout = if ints { self.get_intmatrix_type() } else { self.get_matrix_type() };
        let (_, cols, data) = self.matrix_parts(val, layout)?;
        let offset = if indices.len() == 1 {
            let (i, _) = sc.compile_expr(self, &indices[0])?;
            match llvm::basic_as_int(i) {
                Some(i) => i,
                None => return Err(access_failed("into_int_value", "an index is an integer")),
            }
        } else if indices.len() == 2 {
            let (row, _) = sc.compile_expr(self, &indices[0])?;
            let (col, _) = sc.compile_expr(self, &indices[1])?;
            let (row, col) = match (llvm::basic_as_int(row), llvm::basic_as_int(col)) {
                (Some(r), Some(c)) => (r, c),
                _ => return Err(access_failed("into_int_value", "an index is an integer")),
            };
            self.matrix_offset(
                row,
                col,
                cols,
                "Failed to compute row offset for matrix indexing",
                "Failed to compute final offset for matrix indexing",
            ).0?
        } else {
            return Err(general(String::from_str("compilation error")));
        };
        self.element_value(data, offset, ints)
    }

    /// The offset of the element at `row`, `col` of an array with `cols`
    /// columns, `row * cols + col`; the record lists the multiplication of
    /// `row` by `cols` and the addition of `col` to it.
    pub fn matrix_offset(
        &self,
        row: IntValue<'ctx>,
        col: IntValue<'ctx>,
        cols: IntValue<'ctx>,
        mul_failed: &str,
        add_failed: &str,
    ) -> (r: (Result<IntValue<'ctx>, CodegenError>, Vec<Record<'ctx>>))
        ensures
            r.0 matches Err(e) ==> e is LLVMError,
            r.0 is Ok ==> (r.1@.len() == 2 && r.1@[0].emitted() == Emitted::Int(IntInstr::Mul, row, cols) && (r.1@[1].emitted() matches Emitted::Int(
                IntInstr::Add,
                _,
                c,
            ) && c == col)),
    {
        let none: Vec<Record<'ctx>> = Vec::new();
        let (row_off, mul) = llvm::build_int_mul(self.builder, row, cols, "row_off");
        let row_off = match row_off {
            Some(o) => o,
            None => return (Err(access_failed("build_int_mul", mul_failed)), none),
        };
        let (offset, add) = llvm::build_int_add(self.builder, row_off, col, "final_off");
        let record = vec![mul, add];
        match offset {
            Some(o) => (Ok(o), record),
            None => (Err(access_failed("build_int_add", add_failed)), none),
        }
    }

    /// The place a variable assigned to is stored: its slot and type. A
    /// name no variable has is refused.
    pub fn variable_address(&self, name: &str) -> (r: Result<(PointerValue<'ctx>, BrixType), CodegenError>)
        ensures
            self.variables.map().dom().contains(name@) ==> (r matches Ok((p, t)) && p == self.variables.map()[name@].0
                && t@ == self.variables.map()[name@].1@),
            !self.variables.map().dom().contains(name@) ==> (r matches Err(CodegenError::UndefinedSymbol { name: n, context })
                && n@ == name@ && context@ == "Assignment target"@),
    {
        match self.variables.get(name) {
            Some((slot, t)) => Ok((*slot, t.copy())),
            None => Err(CodegenError::UndefinedSymbol {
                name: String::from_str(name),
                context: String::from_str("Assignment target"),
            }),
        }
    }

    /// The place an element assigned to is stored, in the compiled array
    /// `val` of type `ty`: element `i`, or `row * cols + col`, the indices
    /// compiled by `sc` in order; an `int` of an integer array, a `float`
    /// of a float array. Anything but an array, or another number of
    /// indices, is refused.
    pub fn element_place<S, C: StatementCompiler<'a, 'ctx, E, D, S>>(
        &mut self,
        sc: &mut C,
        val: BasicValueEnum<'ctx>,
        ty: &BrixType,
        indices: &[E],
    ) -> (r: Result<(PointerValue<'ctx>, BrixType), CodegenError>)
        ensures
            !(ty@ is Matrix || ty@ is IntMatrix) ==> (r matches Err(
                CodegenError::TypeError { expected: Found::Text(x), found: Found::Type(t), context },
            ) && x@ == "Matrix or IntMatrix"@ && t@ == ty@ && context@ == "Index assignment target"@),
            (ty@ is Matrix || ty@ is IntMatrix) && indices@.len() != 1 && indices@.len() != 2 ==> (r matches Err(e)
                && (e is LLVMError || (e matches CodegenError::InvalidOperation { operation, reason }
                && operation@ == "Matrix indexing"@ && reason@ == "Invalid number of indices: "@ + crate::text::decimal(
                indices@.len() as nat,
            )))),
            r matches Ok((_, t)) ==> (ty@ is IntMatrix ==> t@ is Int) && (ty@ is Matrix ==> t@ is Float),
    {
        let ints = match ty {
            BrixType::Matrix => false,
            BrixType::IntMatrix => true,
            _ => {
                return Err(CodegenError::TypeError {
                    expected: Found::Text(String::from_str("Matrix or IntMatrix")),
                    found: Found::Type(ty.copy()),
                    context: String::from_str("Index assignment target"),
                });
            },
        };
        let layout = if ints { self.get_intmatrix_type() } else { self.get_matrix_type() };
        let (_, cols, data) = self.matrix_parts(val, layout)?;
        let offset = if indices.len() == 1 {
            let (i, _) = sc.compile_expr(self, &indices[0])?;
            match llvm::basic_as_int(i) {
                Some(i) => i,
                None => return Err(access_failed("into_int_value", "an index is an integer")),
            }
        } else if indices.len() == 2 {
            let (row, _) = sc.compile_expr(self, &indices[0])?;
            let (col, _) = sc.compile_expr(self, &indices[1])?;
            let (row, col) = match (llvm::basic_as_int(row), llvm::basic_as_int(col)) {
                (Some(r), Some(c)) => (r, c),
                _ => return Err(access_failed("into_int_value", "an index is an integer")),
            };
            self.matrix_offset(row, col, cols, "Failed to calculate row offset", "Failed to calculate final offset").0?
        } else {
            let mut reason = String::from_str("Invalid number of indices: ");
            reason.append(crate::text::decimal_string(indices.len()).as_str());
            return Err(CodegenError::InvalidOperation { operation: String::from_str("Matrix indexing"), reason });
        };
        let elem = if ints {
            llvm::int_type_basic(llvm::i64_type(self.context))
        } else {
            llvm::float_type_basic(llvm::f64_type(self.context))
        };
        let item = self.element_address(data, offset, elem, "addr_ptr")?;
        Ok((item, if ints { BrixType::Int } else { BrixType::Float }))
    }

    /// The place an assignment target denotes: a variable's slot, or an
    /// array element (the array compiled by `sc` first). Any other target
    /// is refused.
    pub fn compile_lvalue_view<S, C: StatementCompiler<'a, 'ctx, E, D, S>>(
        &mut self,
        sc: &mut C,
        target: LvalueView<E>,
    ) -> (r: Result<(PointerValue<'ctx>, BrixType), CodegenError>)
        ensures
            target matches LvalueView::Variable(name) ==> (old(self).variables.map().dom().contains(name@) ==> (r matches Ok(
                (p, t),
            ) && p == old(self).variables.map()[name@].0 && t@ == old(self).variables.map()[name@].1@)),
            target matches LvalueView::Variable(name) ==> (!old(self).variables.map().dom().contains(name@) ==> (r matches Err(
                CodegenError::UndefinedSymbol { name: n, context },
            ) && n@ == name@ && context@ == "Assignment target"@)),
            target is Other ==> (r matches Err(CodegenError::InvalidOperation { operation, reason })
                && operation@ == "Assignment"@ && reason@ == "Invalid expression for the left side of an assignment"@),
    {
        match target {
            LvalueView::Variable(name) => self.variable_address(name),
            LvalueView::Element { array, indices } => {
                let (val, ty) = sc.compile_expr(self, array)?;
                self.element_place(sc, val, &ty, indices)
            },
            LvalueView::Other => Err(CodegenError::InvalidOperation {
                operation: String::from_str("Assignment"),
                reason: String::from_str("Invalid expression for the left side of an assignment"),
            }),
        }
    }

    /// The element at `offset` of an array's data, an `int` or a `float`.
    pub fn element_value(&self, data: PointerValue<'ctx>, offset: inkwell::values::IntValue<'ctx>, ints: bool) -> (r: Result<(BasicValueEnum<'ctx>, BrixType), CodegenError>)
        ensures
            r matches Ok((_, t)) ==> (ints ==> t@ is Int) && (!ints ==> t@ is Float),
            r matches Err(e) ==> e is LLVMError,
    {
        let elem = if ints {
            llvm::int_type_basic(llvm::i64_type(self.context))
        } else {
            llvm::float_type_basic(llvm::f64_type(self.context))
        };
        let item = self.element_address(data, offset, elem, "item_ptr")?;
        match llvm::build_load(self.builder, item, elem, "val").0 {
            Some(v) => Ok((v, if ints { BrixType::Int } else { BrixType::Float })),
            None => Err(access_failed("build_load", "Failed to load an array element")),
        }
    }

    /// `++x`, `x++`, `--x`, `x--`: the integer at the place `sc` finds for
    /// the target is loaded, one is added (or subtracted) and stored back;
    /// the value is the new one for the prefix forms, the old one for the
    /// postfix forms.
    pub fn compile_step<S, C: StatementCompiler<'a, 'ctx, E, D, S>>(
        &mut self,
        sc: &mut C,
        target: &E,
        is_prefix: bool,
        increment: bool,
    ) -> (r: Result<(BasicValueEnum<'ctx>, BrixType), CodegenError>)
        ensures
            r matches Ok((_, t)) ==> t@ is Int,
    {
        let (slot, _) = sc.compile_lvalue_addr(self, target)?;
        self.step_slot(slot, is_prefix, increment)
    }

    /// The step of `++`/`--` on an integer slot.
    pub fn step_slot(&self, slot: PointerValue<'ctx>, is_prefix: bool, increment: bool) -> (r: Result<(BasicValueEnum<'ctx>, BrixType), CodegenError>)
        ensures
            r matches Ok((_, t)) ==> t@ is Int,
            r matches Err(e) ==> e is LLVMError,
    {
        let load_name = if increment { "load_for_inc" } else { "load_for_dec" };
        let current = match llvm::build_load(self.builder, slot, self.i64_basic(), load_name).0 {
            Some(v) => match llvm::basic_as_int(v) {
                Some(i) => i,
                None => return Err(access_failed("into_int_value", "a counter is an integer")),
            },
            None => return Err(access_failed("build_load", "Failed to load value for increment")),
        };
        let one = llvm::const_int(llvm::i64_type(self.context), 1, false).0;
        let updated = if increment {
            llvm::build_int_add(self.builder, current, one, "incremented").0
        } else {
            llvm::build_int_sub(self.builder, current, one, "decremented").0
        };
        let updated = match updated {
            Some(u) => u,
            None => return Err(access_failed("build_int_add", "Failed to build increment operation")),
        };
        if !llvm::build_store(self.builder, slot, llvm::int_value_basic(updated)).0 {
            return Err(access_failed("build_store", "Failed to store incremented value"));
        }
        Ok((llvm::int_value_basic(if is_prefix { updated } else { current }), BrixType::Int))
    }

    /// `f"..."`: each part becomes a runtime string (text as it is, an
    /// expression compiled by `sc` and converted with its format), and the
    /// parts are concatenated in order; no parts give the empty string.
    pub fn compile_fstring<S, C: StatementCompiler<'a, 'ctx, E, D, S>>(
        &mut self,
        sc: &mut C,
        parts: &[FStringPart<E>],
    ) -> (r: Result<(BasicValueEnum<'ctx>, BrixType), CodegenError>)
        ensures
            r matches Ok((_, t)) ==> t@ is String,
    {
        if parts.len() == 0 {
            let v = self.text_string("", "empty_fstr", "empty_str")?;
            return Ok((v, BrixType::String));
        }
        let mut result: Option<BasicValueEnum<'ctx>> = None;
        let mut i: usize = 0;
        while i < parts.len()
            invariant
                i <= parts@.len(),
            decreases parts@.len() - i,
        {
            let piece = match &parts[i] {
                FStringPart::Text(text) => self.text_string(text.as_str(), "fstr_text", "text_str")?,
                FStringPart::Expr { expr, format } => {
                    let (v, t) = sc.compile_expr(self, expr)?;
                    let fmt = match format {
                        Some(f) => Some(f.as_str()),
                        None => None,
                    };
                    if !is_stringifiable(&t, self.current_function.is_some()) {
                        return Err(CodegenError::MissingValue {
                            what: String::from_str("value_to_string conversion"),
                            context: debug_text(&t),
                        });
                    }
                    self.value_to_string(v, &t, fmt).0?
                },
            };
            result = match result {
                None => Some(piece),
                Some(so_far) => {
                    let params = vec![llvm::pointer_type_basic(self.ptr_type()), llvm::pointer_type_basic(self.ptr_type())];
                    let f = self.string_runtime("str_concat", &params);
                    let args = vec![so_far, piece];
                    let call = match llvm::build_call(self.builder, f, &args, "concat_fstr").0 {
                        Some(c) => c,
                        None => return Err(access_failed("build_call", "Failed to call str_concat for f-string concatenation")),
                    };
                    match call {
                        Some(v) => Some(v),
                        None => {
                            return Err(CodegenError::MissingValue {
                                what: String::from_str("return value from str_concat"),
                                context: String::from_str("f-string concatenation"),
                            });
                        },
                    }
                },
            };
            i = i + 1;
        }
        match result {
            Some(v) => Ok((v, BrixType::String)),
            None => Err(access_failed("str_concat", "an f-string has parts")),
        }
    }

    /// A runtime string of the constant `text`.
    fn text_string(&self, text: &str, global_name: &str, name: &str) -> (r: Result<BasicValueEnum<'ctx>, CodegenError>)
        ensures
            r matches Err(e) ==> e is LLVMError || e is MissingValue,
    {
        let g = match llvm::build_global_string_ptr(self.builder, text, global_name).0 {
            Some(g) => g,
            None => return Err(access_failed("build_global_string_ptr", "Failed to create f-string text literal")),
        };
        let params = vec![llvm::pointer_type_basic(self.ptr_type())];
        let f = self.string_runtime("str_new", &params);
        let args = vec![llvm::pointer_value_basic(llvm::global_pointer(g))];
        let call = match llvm::build_call(self.builder, f, &args, name).0 {
            Some(c) => c,
            None => return Err(access_failed("build_call", "Failed to call str_new for an f-string part")),
        };
        match call {
            Some(v) => Ok(v),
            None => Err(CodegenError::MissingValue {
                what: String::from_str("return value from str_new"),
                context: String::from_str("f-string text part"),
            }),
        }
    }
}

} // verus!
