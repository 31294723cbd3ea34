//! Variable declarations `name: hint := value`: what the type hint does to
//! the value, the stack slot it is stored in, its reference counting and
//! its registration. The value arrives compiled, with its type and the
//! syntactic form of its expression.

use vstd::prelude::*;
use inkwell::types::BasicTypeEnum;
use inkwell::values::{BasicValueEnum, PointerValue};
use crate::types::{BrixType, TypeModel, spec_is_ref_counted, is_ref_counted};
use crate::compiler::{Compiler, CodegenError, Found, StatementCompiler};
use crate::typeparse::resolve_type_text_within;
use crate::instances::RESOLUTION_BUDGET;
use crate::decl::{ExprForm, UnionTag, HintAction, HintMismatch, Storage, spec_union_tag, union_tag, spec_check_hint, check_hint, spec_storage, storage_of, should_retain, spec_should_retain};
use crate::text::{contains, chars_of, contains_chars};
use crate::typeparse::{resolve_alias, alias_texts, parse_type, resolves};
use crate::layout::{lowerable, field_types};
use crate::arc::{names_of, called_names, spec_retain_fn, spec_release_fn};
use crate::llvm::{self, CallRecord, InsertRecord, ConstRecord};

verus! {

/// What a declaration's hint does to the value.
pub enum DeclPlan {
    /// Stored as it is, with its own type.
    Keep,
    /// A `float` converted to `int`.
    FloatToInt,
    /// An `int` converted to `float`.
    IntToFloat,
    /// Stored as it is, typed `int` (a `bool` hint).
    AsInt,
    /// Wrapped as a member of a union type.
    Union { union_type: BrixType, tag: UnionTag },
}

/// Model of a declaration's plan, or of the mismatch that refuses it.
pub enum DeclOutcome {
    Keep,
    FloatToInt,
    IntToFloat,
    AsInt,
    Union(TypeModel, UnionTag),
    /// Refused: the expected type's text, and whether the error reports the
    /// hint's text (else the value's type) as found.
    Mismatch(Seq<char>, bool),
}

/// Why a hint refuses a value: the expected type's text, and whether the
/// hint's text (else the value's type) is what was found.
pub struct DeclMismatch {
    pub expected: String,
    pub found_hint: bool,
}

/// A hint written as a union (`A | B`) or an optional (`T?`).
pub open spec fn is_union_hint(h: Seq<char>) -> bool {
    contains(h, " | "@) || (h.len() > 0 && h.last() == '?')
}

/// The plan of a declaration whose value has type `v`, under an optional
/// hint. The hint is first resolved one alias level. A union or optional
/// hint wraps the value as the member it matches (an `int` may become a
/// `float` member); other hints convert numbers or check the value.
pub open spec fn spec_plan_declaration(
    al: Map<Seq<char>, Seq<char>>,
    st: Set<Seq<char>>,
    hint: Option<Seq<char>>,
    v: TypeModel,
) -> DeclOutcome {
    match hint {
        None => DeclOutcome::Keep,
        Some(h) => {
            let rh = resolve_alias(al, h);
            if is_union_hint(rh) {
                match parse_type(al, st, rh) {
                    TypeModel::Union(ms) => match spec_union_tag(ms, v) {
                        Some(tag) => DeclOutcome::Union(parse_type(al, st, rh), tag),
                        None => DeclOutcome::Mismatch(rh, false),
                    },
                    _ => DeclOutcome::Keep,
                }
            } else {
                match spec_check_hint(rh, v) {
                    Ok(HintAction::Keep) => DeclOutcome::Keep,
                    Ok(HintAction::FloatToInt) => DeclOutcome::FloatToInt,
                    Ok(HintAction::IntToFloat) => DeclOutcome::IntToFloat,
                    Ok(HintAction::AsInt) => DeclOutcome::AsInt,
                    Err(HintMismatch::ExpectedString) => DeclOutcome::Mismatch("String"@, false),
                    Err(HintMismatch::ExpectedErrorOrNil) => DeclOutcome::Mismatch("Error or Nil"@, false),
                    Err(HintMismatch::UnknownHint) => DeclOutcome::Mismatch("Known type"@, true),
                }
            }
        },
    }
}

/// The type a declared variable gets under a plan.
pub open spec fn declared_type(o: DeclOutcome, v: TypeModel) -> TypeModel {
    match o {
        DeclOutcome::FloatToInt | DeclOutcome::AsInt => TypeModel::Int,
        DeclOutcome::IntToFloat => TypeModel::Float,
        DeclOutcome::Union(u, _) => u,
        _ => v,
    }
}

impl DeclPlan {
    pub open spec fn outcome(&self) -> DeclOutcome {
        match self {
            DeclPlan::Keep => DeclOutcome::Keep,
            DeclPlan::FloatToInt => DeclOutcome::FloatToInt,
            DeclPlan::IntToFloat => DeclOutcome::IntToFloat,
            DeclPlan::AsInt => DeclOutcome::AsInt,
            DeclPlan::Union { union_type, tag } => DeclOutcome::Union(union_type@, *tag),
        }
    }
}

/// The hint's text after one level of alias resolution.
fn resolve_hint<V>(aliases: &crate::strmap::StrMap<String>, hint: &str) -> (r: String)
    ensures
        r@ == resolve_alias(alias_texts(aliases.map()), hint@),
{
    match aliases.get(hint) {
        Some(d) => d.clone(),
        None => String::from_str(hint),
    }
}

/// The runtime calls a declaration of type `t` from an expression of form
/// `form` makes: the type's retain function for a borrowed
/// reference-counted value, then the release function of the slot's
/// previous value for any reference-counted value.
pub open spec fn decl_call_names(t: TypeModel, form: ExprForm) -> Seq<Seq<char>> {
    (if spec_should_retain(t, form) {
        seq![spec_retain_fn(t)->0]
    } else {
        Seq::empty()
    }) + (if spec_is_ref_counted(t) {
        seq![spec_release_fn(t)->0]
    } else {
        Seq::empty()
    })
}

impl<'a, 'ctx, E, D> Compiler<'a, 'ctx, E, D> {
    /// The resolved hint is a union or optional whose text resolves.
    pub open spec fn hint_resolves(&self, hint: Option<Seq<char>>) -> bool {
        hint matches Some(h) ==> {
            let rh = resolve_alias(alias_texts(self.type_aliases.map()), h);
            is_union_hint(rh) ==> resolves(alias_texts(self.type_aliases.map()), self.struct_defs.map().dom(), rh)
        }
    }

    /// The plan of a declaration of a value of type `val_type` under
    /// `type_hint`.
    pub fn plan_declaration(&self, type_hint: Option<&str>, val_type: &BrixType) -> (r: Result<DeclPlan, DeclMismatch>)
        requires
            self.hint_resolves(match type_hint {
                Some(h) => Some(h@),
                None => None,
            }),
        ensures
            ({
                let o = spec_plan_declaration(
                    alias_texts(self.type_aliases.map()),
                    self.struct_defs.map().dom(),
                    match type_hint {
                        Some(h) => Some(h@),
                        None => None,
                    },
                    val_type@,
                );
                match r {
                    Ok(p) => p.outcome() == o,
                    Err(m) => o == DeclOutcome::Mismatch(m.expected@, m.found_hint),
                }
            }),
    {
        let hint = match type_hint {
            None => return Ok(DeclPlan::Keep),
            Some(h) => h,
        };
        let rh = resolve_hint::<String>(&self.type_aliases, hint);
        let rc = chars_of(rh.as_str());
        let union_hint = contains_chars(&rc, &chars_of(" | ")) || (rc.len() > 0 && rc[rc.len() - 1] == '?');
        proof {
            reveal_strlit(" | ");
        }
        if union_hint {
            let ut = self.string_to_brix_type(rh.as_str());
            match &ut {
                BrixType::Union(ms) => match union_tag(ms, val_type) {
                    Some(tag) => Ok(DeclPlan::Union { union_type: ut, tag }),
                    None => Err(DeclMismatch { expected: rh, found_hint: false }),
                },
                _ => Ok(DeclPlan::Keep),
            }
        } else {
            match check_hint(&rc, val_type) {
                Ok(HintAction::Keep) => Ok(DeclPlan::Keep),
                Ok(HintAction::FloatToInt) => Ok(DeclPlan::FloatToInt),
                Ok(HintAction::IntToFloat) => Ok(DeclPlan::IntToFloat),
                Ok(HintAction::AsInt) => Ok(DeclPlan::AsInt),
                Err(HintMismatch::ExpectedString) => Err(DeclMismatch { expected: String::from_str("String"), found_hint: false }),
                Err(HintMismatch::ExpectedErrorOrNil) => Err(DeclMismatch {
                    expected: String::from_str("Error or Nil"),
                    found_hint: false,
                }),
                Err(HintMismatch::UnknownHint) => Err(DeclMismatch { expected: String::from_str("Known type"), found_hint: true }),
            }
        }
    }

    /// A stack slot of type `ty` at the start of the current function's
    /// entry block (so a declaration inside a loop reuses one slot).
    pub fn create_entry_block_alloca(&self, ty: BasicTypeEnum<'ctx>, name: &str) -> (r: Result<PointerValue<'ctx>, CodegenError>)
        ensures
            self.current_function is None ==> r is Err,
            r matches Err(e) ==> (e is LLVMError || e is MissingValue),
            r matches Err(CodegenError::MissingValue { what, .. }) ==> (what@ == "current function"@ || what@ == "entry block"@),
    {
        let f = match self.current_function {
            Some(f) => f,
            None => {
                return Err(CodegenError::MissingValue {
                    what: String::from_str("current function"),
                    context: String::from_str("entry block allocation"),
                });
            },
        };
        let entry = match llvm::first_basic_block(f) {
            Some(b) => b,
            None => {
                return Err(CodegenError::MissingValue {
                    what: String::from_str("entry block"),
                    context: String::from_str("entry block allocation"),
                });
            },
        };
        let b = llvm::create_builder(self.context);
        match llvm::first_instruction(entry) {
            Some(i) => llvm::position_before(&b, &i),
            None => llvm::position_at_end(&b, entry),
        }
        match llvm::build_alloca(&b, ty, name) {
            Some(p) => Ok(p),
            None => {
                let mut details = String::from_str("Failed to allocate variable '");
                details.append(name);
                details.append("'");
                Err(CodegenError::LLVMError { operation: String::from_str("build_alloca"), details })
            },
        }
    }

    /// The LLVM type a variable of type `t` is kept in: `i64` for `int`
    /// and atoms, `double` for `float`, a pointer for heap values, `nil`,
    /// `error` and closures, the laid-out aggregate otherwise; `None` for a
    /// type no variable holds or one without a layout.
    pub fn slot_type(&self, t: &BrixType) -> (r: Option<BasicTypeEnum<'ctx>>)
        ensures
            spec_storage(t@) is None ==> r is None,
            spec_storage(t@) is Some && !(spec_storage(t@) matches Some(Storage::Aggregate)) ==> r is Some,
            spec_storage(t@) == Some(Storage::I64) ==> r == Some(llvm::int_as_basic(llvm::context_i64(self.context))),
            spec_storage(t@) == Some(Storage::F64) ==> r == Some(llvm::float_as_basic(llvm::context_f64(self.context))),
            spec_storage(t@) == Some(Storage::Pointer) ==> r == Some(
                llvm::pointer_as_basic(self.opaque_ptr),
            ),
    {
        match storage_of(t) {
            Some(Storage::I64) => Some(self.i64_basic()),
            Some(Storage::F64) => Some(self.f64_basic()),
            Some(Storage::Pointer) => Some(self.ptr_basic()),
            Some(Storage::Aggregate) => self.try_brix_type_to_llvm(t),
            None => None,
        }
    }

    /// A pointer slot at the start of the entry block, set to null there, so
    /// that releasing its old value before the first store does nothing.
    pub fn create_null_init_entry_block_alloca(&self, name: &str) -> (r: Result<PointerValue<'ctx>, CodegenError>)
        ensures
            self.current_function is None ==> r is Err,
            r matches Err(e) ==> (e is LLVMError || e is MissingValue),
    {
        let f = match self.current_function {
            Some(f) => f,
            None => {
                return Err(CodegenError::MissingValue {
                    what: String::from_str("current function"),
                    context: String::from_str("entry block allocation"),
                });
            },
        };
        let entry = match llvm::first_basic_block(f) {
            Some(b) => b,
            None => {
                return Err(CodegenError::MissingValue {
                    what: String::from_str("entry block"),
                    context: String::from_str("entry block allocation"),
                });
            },
        };
        let b = llvm::create_builder(self.context);
        match llvm::first_instruction(entry) {
            Some(i) => llvm::position_before(&b, &i),
            None => llvm::position_at_end(&b, entry),
        }
        let ptr_ty = self.ptr_type();
        let slot = match llvm::build_alloca(&b, llvm::pointer_type_basic(ptr_ty), name) {
            Some(p) => p,
            None => {
                let mut details = String::from_str("Failed to allocate variable '");
                details.append(name);
                details.append("'");
                return Err(CodegenError::LLVMError { operation: String::from_str("build_alloca"), details });
            },
        };
        if !llvm::build_store(&b, slot, llvm::pointer_value_basic(llvm::pointer_const_null(ptr_ty))).0 {
            let mut details = String::from_str("Failed to initialize variable '");
            details.append(name);
            details.append("'");
            return Err(CodegenError::LLVMError { operation: String::from_str("build_store"), details });
        }
        Ok(slot)
    }

    /// The outcome of the plan of a declaration.
    pub open spec fn decl_outcome(&self, type_hint: Option<Seq<char>>, v: TypeModel) -> DeclOutcome {
        spec_plan_declaration(alias_texts(self.type_aliases.map()), self.struct_defs.map().dom(), type_hint, v)
    }

    /// The type the declared variable gets.
    pub open spec fn decl_type(&self, type_hint: Option<Seq<char>>, v: TypeModel) -> TypeModel {
        declared_type(self.decl_outcome(type_hint, v), v)
    }

    /// `name: type_hint := value`, with the value compiled: the hint
    /// converts or wraps the value (or refuses it), the variable gets a slot
    /// in the entry block, a borrowed reference-counted value is retained,
    /// the slot's previous value (from an earlier pass through a loop) is
    /// released, the value is stored, and the variable is bound and, if
    /// reference-counted, tracked for release.
    pub fn compile_variable_decl_stmt(
        &mut self,
        name: &str,
        type_hint: Option<&str>,
        value: BasicValueEnum<'ctx>,
        val_type: BrixType,
        form: ExprForm,
    ) -> (r: Result<(), CodegenError>)
        requires
            old(self).declaration_ready(match type_hint {
                Some(h) => Some(h@),
                None => None,
            }, val_type@),
        ensures
            ({
                let h = match type_hint {
                    Some(h) => Some(h@),
                    None => None,
                };
                let o = old(self).decl_outcome(h, val_type@);
                let t = old(self).decl_type(h, val_type@);
                &&& o matches DeclOutcome::Mismatch(exp, _) ==> (r matches Err(e) && e matches CodegenError::TypeError { expected: Found::Text(x), .. }
                    && x@ == exp)
                &&& (!(o is Mismatch) && spec_storage(t) is None) ==> (r matches Err(e) && e matches CodegenError::TypeError { expected: Found::Text(x), .. }
                    && x@ == "Known type"@)
                &&& r is Ok ==> {
                    &&& final(self).variables.map().dom() == old(self).variables.map().dom().insert(name@)
                    &&& final(self).variables.map()[name@].1@ == t
                    &&& forall|k: Seq<char>| k != name@ && old(self).variables.map().dom().contains(k)
                        ==> #[trigger] final(self).variables.map()[k] == old(self).variables.map()[k]
                    &&& (spec_is_ref_counted(t) && !names_of(old(self).function_scope_vars@).contains(name@)) ==> {
                        &&& final(self).function_scope_vars@.drop_last() == old(self).function_scope_vars@
                        &&& final(self).function_scope_vars@.last().0@ == name@
                        &&& final(self).function_scope_vars@.last().1@ == t
                    }
                    &&& !(spec_is_ref_counted(t) && !names_of(old(self).function_scope_vars@).contains(name@))
                        ==> final(self).function_scope_vars@ == old(self).function_scope_vars@
                    &&& called_names(final(self).declaration_calls@) == decl_call_names(t, form)
                    &&& (o matches DeclOutcome::Union(_, tag) ==> {
                        &&& final(self).declaration_inserts@.len() == 2
                        &&& final(self).declaration_inserts@[0].index() == 0u32
                        &&& final(self).declaration_tag matches Some(k) && k.asked() == tag.tag as u64
                            && final(self).declaration_inserts@[0].inserted() == llvm::int_value_as_basic(k.constant())
                        &&& final(self).declaration_inserts@[1].index() == 1u32
                        &&& !tag.int_to_float ==> final(self).declaration_inserts@[1].inserted() == value
                    })
                    &&& !(o is Union) ==> final(self).declaration_inserts@.len() == 0
                }
                &&& r is Err ==> final(self).variables == old(self).variables
                    && final(self).function_scope_vars == old(self).function_scope_vars
            }),
            final(self).type_aliases == old(self).type_aliases,
            final(self).struct_defs == old(self).struct_defs,
            final(self).struct_types == old(self).struct_types,
    {
        let mut context = String::from_str("Variable declaration '");
        context.append(name);
        context.append("'");
        let plan = match self.plan_declaration(type_hint, &val_type) {
            Ok(p) => p,
            Err(m) => {
                let found = if m.found_hint {
                    match type_hint {
                        Some(h) => Found::Text(resolve_hint::<String>(&self.type_aliases, h)),
                        None => Found::Type(val_type),
                    }
                } else {
                    Found::Type(val_type)
                };
                return Err(CodegenError::TypeError { expected: Found::Text(m.expected), found, context });
            },
        };
        let ghost t = self.decl_type(
            match type_hint {
                Some(h) => Some(h@),
                None => None,
            },
            val_type@,
        );
        let mut inserts: Vec<InsertRecord<'ctx>> = Vec::new();
        let mut tag_constant: Option<ConstRecord<'ctx>> = None;
        let (stored, ty): (BasicValueEnum<'ctx>, BrixType) = match plan {
            DeclPlan::Keep => (value, val_type),
            DeclPlan::AsInt => (value, BrixType::Int),
            DeclPlan::FloatToInt => {
                let f = match llvm::basic_as_float(value) {
                    Some(f) => f,
                    None => return Err(CodegenError::LLVMError {
                        operation: String::from_str("into_float_value"),
                        details: String::from_str("Failed to cast float to int"),
                    }),
                };
                match llvm::build_float_to_signed_int(self.builder, f, llvm::i64_type(self.context), "cast_f2i") {
                    Some(i) => (llvm::int_value_basic(i), BrixType::Int),
                    None => return Err(CodegenError::LLVMError {
                        operation: String::from_str("build_float_to_signed_int"),
                        details: String::from_str("Failed to cast float to int"),
                    }),
                }
            },
            DeclPlan::IntToFloat => {
                let i = match llvm::basic_as_int(value) {
                    Some(i) => i,
                    None => return Err(CodegenError::LLVMError {
                        operation: String::from_str("into_int_value"),
                        details: String::from_str("Failed to cast int to float"),
                    }),
                };
                match llvm::build_signed_int_to_float(self.builder, i, llvm::f64_type(self.context), "cast_i2f") {
                    Some(f) => (llvm::float_value_basic(f), BrixType::Float),
                    None => return Err(CodegenError::LLVMError {
                        operation: String::from_str("build_signed_int_to_float"),
                        details: String::from_str("Failed to cast int to float"),
                    }),
                }
            },
            DeclPlan::Union { union_type, tag } => {
                let member = if tag.int_to_float {
                    let i = match llvm::basic_as_int(value) {
                        Some(i) => i,
                        None => return Err(CodegenError::LLVMError {
                            operation: String::from_str("into_int_value"),
                            details: String::from_str("Failed to cast int to float for Union"),
                        }),
                    };
                    match llvm::build_signed_int_to_float(self.builder, i, llvm::f64_type(self.context), "cast_i2f_union") {
                        Some(f) => llvm::float_value_basic(f),
                        None => return Err(CodegenError::LLVMError {
                            operation: String::from_str("build_signed_int_to_float"),
                            details: String::from_str("Failed to cast int to float for Union"),
                        }),
                    }
                } else {
                    value
                };
                let (tag_val, tag_record) = llvm::const_int(llvm::i64_type(self.context), tag.tag as u64, false);
                let union_llvm = self.brix_type_to_llvm(&union_type);
                let st = match llvm::basic_type_as_struct(union_llvm) {
                    Some(st) => st,
                    None => return Err(CodegenError::LLVMError {
                        operation: String::from_str("into_struct_type"),
                        details: String::from_str("a union is laid out as a struct"),
                    }),
                };
                let agg = llvm::struct_undef(st);
                let (with_tag, tag_insert) = llvm::build_insert_value(self.builder, agg, llvm::int_value_basic(tag_val), 0, "insert_tag");
                let with_tag = match with_tag {
                    Some(a) => a,
                    None => return Err(CodegenError::LLVMError {
                        operation: String::from_str("build_insert_value"),
                        details: String::from_str("Failed to insert tag in union"),
                    }),
                };
                let (with_value, value_insert) = llvm::build_insert_value(self.builder, with_tag, member, 1, "insert_value");
                let with_value = match with_value {
                    Some(a) => a,
                    None => return Err(CodegenError::LLVMError {
                        operation: String::from_str("build_insert_value"),
                        details: String::from_str("Failed to insert value in union"),
                    }),
                };
                inserts = vec![tag_insert, value_insert];
                tag_constant = Some(tag_record);
                (llvm::struct_value_basic(with_value), union_type)
            },
        };
        assert(ty@ == t);
        let llvm_type = match storage_of(&ty) {
            Some(Storage::I64) => llvm::int_type_basic(llvm::i64_type(self.context)),
            Some(Storage::F64) => llvm::float_type_basic(llvm::f64_type(self.context)),
            Some(Storage::Pointer) => llvm::pointer_type_basic(self.ptr_type()),
            Some(Storage::Aggregate) => self.brix_type_to_llvm(&ty),
            None => {
                return Err(CodegenError::TypeError {
                    expected: Found::Text(String::from_str("Known type")),
                    found: Found::Type(ty),
                    context,
                });
            },
        };
        let mut stored = stored;
        let mut calls: Vec<CallRecord<'ctx>> = Vec::new();
        if should_retain(&ty, form) {
            let (retained, asked) = self.insert_retain(stored, &ty);
            stored = retained?;
            calls = asked;
        }
        let slot = if is_ref_counted(&ty) {
            let slot = self.create_null_init_entry_block_alloca(name)?;
            let mut load_name = String::from_str(name);
            load_name.append("_old_release");
            let old_value = match llvm::build_load(self.builder, slot, self.ptr_basic(), load_name.as_str()).0 {
                Some(v) => v,
                None => {
                    let mut details = String::from_str("Failed to load old value for variable '");
                    details.append(name);
                    details.append("' release");
                    return Err(CodegenError::LLVMError { operation: String::from_str("build_load"), details });
                },
            };
            let old_ptr = match llvm::basic_as_pointer(old_value) {
                Some(p) => p,
                None => return Err(CodegenError::LLVMError {
                    operation: String::from_str("into_pointer_value"),
                    details: String::from_str("a reference-counted slot holds a pointer"),
                }),
            };
            let (released, mut asked) = self.insert_release(old_ptr, &ty);
            released?;
            calls.append(&mut asked);
            slot
        } else {
            self.create_entry_block_alloca(llvm_type, name)?
        };
        if !llvm::build_store(self.builder, slot, stored).0 {
            let mut details = String::from_str("Failed to store value in variable '");
            details.append(name);
            details.append("'");
            return Err(CodegenError::LLVMError { operation: String::from_str("build_store"), details });
        }
        proof {
            assert(called_names(calls@) =~= decl_call_names(t, form));
        }
        self.bind_variable(name, slot, ty);
        self.declaration_calls = calls;
        self.declaration_inserts = inserts;
        self.declaration_tag = tag_constant;
        Ok(())
    }

    /// What `compile_variable_decl_stmt` needs of a hint and a value type:
    /// a union or optional hint resolves, and a declared type of aggregate
    /// storage can be laid out (within as many levels of intersection
    /// merging as there are structs, plus one).
    pub open spec fn declaration_ready(&self, h: Option<Seq<char>>, v: TypeModel) -> bool {
        &&& self.hint_resolves(h)
        &&& (!(self.decl_outcome(h, v) is Mismatch) && spec_storage(self.decl_type(h, v)) == Some(Storage::Aggregate))
            ==> lowerable(
            self.decl_type(h, v),
            self.struct_types.map().dom(),
            field_types(self.struct_defs.map()),
            (self.struct_defs.spec_len() + 1) as nat,
        )
    }

    /// Whether the hint `type_hint` of a union or optional resolves within
    /// `RESOLUTION_BUDGET`.
    fn hint_ready(&self, type_hint: Option<&str>) -> (r: Result<(), CodegenError>)
        ensures
            r is Ok ==> self.hint_resolves(match type_hint {
                Some(h) => Some(h@),
                None => None,
            }),
    {
        match type_hint {
            Some(h) => {
                let rh = resolve_hint::<String>(&self.type_aliases, h);
                let rc = chars_of(rh.as_str());
                let union_hint = contains_chars(&rc, &chars_of(" | ")) || (rc.len() > 0 && rc[rc.len() - 1] == '?');
                proof {
                    reveal_strlit(" | ");
                }
                if union_hint && resolve_type_text_within(&self.type_aliases, &self.struct_defs, rh.as_str(), RESOLUTION_BUDGET).is_none() {
                    let mut message = String::from_str("Type '");
                    message.append(rh.as_str());
                    message.append("' does not resolve");
                    return Err(CodegenError::General { message });
                }
                Ok(())
            },
            None => Ok(()),
        }
    }

    /// Whether a declaration under `type_hint` of a value of type `t` can
    /// go on: its hint resolves and its declared type can be laid out.
    pub fn check_declaration(&self, type_hint: Option<&str>, t: &BrixType) -> (r: Result<(), CodegenError>)
        ensures
            r is Ok ==> self.declaration_ready(match type_hint {
                Some(h) => Some(h@),
                None => None,
            }, t@),
    {
        self.hint_ready(type_hint)?;
        let ghost h = match type_hint {
            Some(h) => Some(h@),
            None => None,
        };
        match self.plan_declaration(type_hint, t) {
            Ok(plan) => {
                let declared = match &plan {
                    DeclPlan::Keep => t.copy(),
                    DeclPlan::FloatToInt | DeclPlan::AsInt => BrixType::Int,
                    DeclPlan::IntToFloat => BrixType::Float,
                    DeclPlan::Union { union_type, .. } => union_type.copy(),
                };
                assert(declared@ == self.decl_type(h, t@));
                if matches!(storage_of(&declared), Some(Storage::Aggregate)) {
                    if self.try_brix_type_to_llvm(&declared).is_none() {
                        return Err(CodegenError::General { message: String::from_str("Declared type cannot be laid out") });
                    }
                    assert(lowerable(
                        declared@,
                        self.struct_types.map().dom(),
                        field_types(self.struct_defs.map()),
                        (self.struct_defs.spec_len() + 1) as nat,
                    ));
                }
                Ok(())
            },
            Err(_) => Ok(()),
        }
    }

    /// `name: type_hint := value`: the form of `value` is noted and the
    /// value compiled by `sc`; a declaration that cannot go on (see
    /// `check_declaration`) is refused; otherwise it goes on as
    /// `compile_variable_decl_stmt` says.
    pub fn declare_variable<S, C: StatementCompiler<'a, 'ctx, E, D, S>>(
        &mut self,
        sc: &mut C,
        name: &str,
        type_hint: Option<&str>,
        value: &E,
    ) -> (r: Result<(), CodegenError>)
        ensures
            r is Ok ==> final(self).variables.map().dom().contains(name@),
    {
        let form = sc.expr_form(value);
        let (v, t) = sc.compile_expr(self, value)?;
        self.check_declaration(type_hint, &t)?;
        self.compile_variable_decl_stmt(name, type_hint, v, t, form)
    }
}

} // verus!
