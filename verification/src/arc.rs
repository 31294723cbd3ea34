//! Reference counting: the runtime functions that retain and release heap
//! values, and which variables a function releases when it returns.

use vstd::prelude::*;
use inkwell::values::{PointerValue, BasicValueEnum};
use crate::types::{BrixType, TypeModel, spec_is_ref_counted};
use crate::strmap::StrMap;
use crate::compiler::{Compiler, CodegenError};
use crate::llvm::{self, LinkageKind, CallRecord};

verus! {

/// Runtime function that takes a reference to a value of the type.
pub open spec fn spec_retain_fn(t: TypeModel) -> Option<Seq<char>> {
    match t {
        TypeModel::String => Some("string_retain"@),
        TypeModel::Matrix => Some("matrix_retain"@),
        TypeModel::IntMatrix => Some("intmatrix_retain"@),
        TypeModel::ComplexMatrix => Some("complexmatrix_retain"@),
        _ => None,
    }
}

/// Runtime function that drops a reference to a value of the type.
pub open spec fn spec_release_fn(t: TypeModel) -> Option<Seq<char>> {
    match t {
        TypeModel::String => Some("string_release"@),
        TypeModel::Matrix => Some("matrix_release"@),
        TypeModel::IntMatrix => Some("intmatrix_release"@),
        TypeModel::ComplexMatrix => Some("complexmatrix_release"@),
        _ => None,
    }
}

/// The retain function of a reference-counted type; `None` for other types.
pub fn retain_fn_name(t: &BrixType) -> (r: Option<&'static str>)
    ensures
        r matches Some(n) ==> spec_retain_fn(t@) == Some(n@),
        r is None ==> spec_retain_fn(t@) is None,
        r is Some <==> spec_is_ref_counted(t@),
{
    match t {
        BrixType::String => Some("string_retain"),
        BrixType::Matrix => Some("matrix_retain"),
        BrixType::IntMatrix => Some("intmatrix_retain"),
        BrixType::ComplexMatrix => Some("complexmatrix_retain"),
        _ => None,
    }
}

/// The release function of a reference-counted type; `None` for other types.
pub fn release_fn_name(t: &BrixType) -> (r: Option<&'static str>)
    ensures
        r matches Some(n) ==> spec_release_fn(t@) == Some(n@),
        r is None ==> spec_release_fn(t@) is None,
        r is Some <==> spec_is_ref_counted(t@),
{
    match t {
        BrixType::String => Some("string_release"),
        BrixType::Matrix => Some("matrix_release"),
        BrixType::IntMatrix => Some("intmatrix_release"),
        BrixType::ComplexMatrix => Some("complexmatrix_release"),
        _ => None,
    }
}

pub open spec fn names_of(vars: Seq<(String, BrixType)>) -> Seq<Seq<char>> {
    Seq::new(vars.len(), |i: int| vars[i].0@)
}

/// No name occurs twice.
pub open spec fn names_distinct(names: Seq<Seq<char>>) -> bool {
    forall|a: int, b: int| 0 <= a < b < names.len() ==> names[a] != names[b]
}

/// Positions, in order, of the tracked variables that a function releases
/// on exit: the first entry of each name, when the name is bound.
pub open spec fn release_positions(names: Seq<Seq<char>>, bound: Set<Seq<char>>, n: int) -> Seq<int>
    decreases n,
{
    if n <= 0 {
        Seq::empty()
    } else {
        let before = release_positions(names, bound, n - 1);
        if !names.subrange(0, n - 1).contains(names[n - 1]) && bound.contains(names[n - 1]) {
            before.push(n - 1)
        } else {
            before
        }
    }
}

/// Every position `release_positions` gives is below `n` and names a bound
/// variable.
pub proof fn lemma_released_are_bound(names: Seq<Seq<char>>, bound: Set<Seq<char>>, n: int)
    requires
        n <= names.len(),
    ensures
        forall|i: int| 0 <= i < release_positions(names, bound, n).len() ==> 0 <= #[trigger] release_positions(names, bound, n)[i] < n
            && bound.contains(names[release_positions(names, bound, n)[i]]),
    decreases n,
{
    if n > 0 {
        lemma_released_are_bound(names, bound, n - 1);
        let before = release_positions(names, bound, n - 1);
        let now = release_positions(names, bound, n);
        assert forall|i: int| 0 <= i < now.len() implies 0 <= #[trigger] now[i] < n && bound.contains(names[now[i]]) by {
            if i < before.len() {
                assert(now[i] == before[i]);
            }
        }
    }
}

/// The release functions a function's exit calls, in order: that of the
/// tracked type of each variable at `positions`, when it has one.
pub open spec fn release_calls(vars: Seq<(String, BrixType)>, positions: Seq<int>) -> Seq<Seq<char>>
    decreases positions.len(),
{
    if positions.len() == 0 {
        Seq::empty()
    } else {
        let rest = release_calls(vars, positions.subrange(0, positions.len() - 1));
        match spec_release_fn(vars[positions[positions.len() - 1]].1@) {
            Some(n) => rest.push(n),
            None => rest,
        }
    }
}

/// The names of the functions a record of calls lists.
pub open spec fn called_names<'ctx>(calls: Seq<CallRecord<'ctx>>) -> Seq<Seq<char>> {
    Seq::new(calls.len(), |i: int| calls[i].callee_name())
}

/// The tracked variables (by position in `scope_vars`) to release on
/// exit from a function, in order: each name once, at its first entry, and
/// only if `variables` binds it.
pub fn release_plan<V>(scope_vars: &Vec<(String, BrixType)>, variables: &StrMap<V>) -> (r: Vec<usize>)
    ensures
        r@.len() == release_positions(names_of(scope_vars@), variables.map().dom(), scope_vars@.len() as int).len(),
        forall|i: int|
            0 <= i < r@.len() ==> r@[i] as int == #[trigger] release_positions(
                names_of(scope_vars@),
                variables.map().dom(),
                scope_vars@.len() as int,
            )[i],
        forall|i: int| 0 <= i < r@.len() ==> r@[i] < scope_vars@.len(),
{
    let ghost names = names_of(scope_vars@);
    let ghost bound = variables.map().dom();
    let mut out: Vec<usize> = Vec::new();
    let mut i: usize = 0;
    while i < scope_vars.len()
        invariant
            i <= scope_vars@.len(),
            names == names_of(scope_vars@),
            bound == variables.map().dom(),
            out@.len() == release_positions(names, bound, i as int).len(),
            forall|j: int| 0 <= j < out@.len() ==> out@[j] as int == #[trigger] release_positions(names, bound, i as int)[j],
            forall|j: int| 0 <= j < out@.len() ==> out@[j] < i,
        decreases scope_vars@.len() - i,
    {
        let name = scope_vars[i].0.as_str();
        let mut seen = false;
        let mut k: usize = 0;
        while k < i
            invariant
                k <= i,
                i < scope_vars@.len(),
                names == names_of(scope_vars@),
                seen == names.subrange(0, k as int).contains(names[i as int]),
            decreases i - k,
        {
            let ghost before = names.subrange(0, k as int);
            if scope_vars[k].0.eq(&scope_vars[i].0) {
                seen = true;
            }
            proof {
                let after = names.subrange(0, k + 1);
                assert(after =~= before.push(names[k as int]));
                if names[k as int] == names[i as int] {
                    assert(after[k as int] == names[i as int]);
                }
                if after.contains(names[i as int]) && !before.contains(names[i as int]) {
                    let w = choose|w: int| 0 <= w < after.len() && after[w] == names[i as int];
                    if w < k {
                        assert(before[w] == names[i as int]);
                    }
                }
            }
            k = k + 1;
        }
        assert(names[i as int] == name@);
        if !seen && variables.contains_key(name) {
            out.push(i);
        }
        i = i + 1;
    }
    out
}

/// An `LLVMError` for a failed operation.
fn llvm_error(operation: &str, details: String) -> (e: CodegenError)
    ensures
        e matches CodegenError::LLVMError { operation: o, details: d } && o@ == operation@ && d@ == details@,
{
    CodegenError::LLVMError { operation: String::from_str(operation), details }
}

/// `prefix` followed by `name`.
fn message(prefix: &str, name: &str) -> (r: String)
    ensures
        r@ == prefix@ + name@,
{
    let mut s = String::from_str(prefix);
    s.append(name);
    s
}

impl<'a, 'ctx, E, D> Compiler<'a, 'ctx, E, D> {
    /// Takes a reference to a reference-counted value: calls the type's
    /// retain function, which hands the same pointer back. Values of other
    /// types come back unchanged, with no call. The record lists the calls
    /// asked for: the retain function's name and its arguments.
    pub fn insert_retain(&self, value: BasicValueEnum<'ctx>, brix_type: &BrixType) -> (r: (Result<BasicValueEnum<'ctx>, CodegenError>, Vec<CallRecord<'ctx>>))
        ensures
            !spec_is_ref_counted(brix_type@) ==> (r.0 matches Ok(v) && v == value && r.1@.len() == 0),
            spec_is_ref_counted(brix_type@) && r.0 is Ok ==> (r.1@.len() == 1 && r.1@[0].callee_name() == spec_retain_fn(brix_type@)->0
                && r.1@[0].arguments() == seq![value]),
            r.0 matches Err(e) ==> e is LLVMError,
    {
        let none: Vec<CallRecord<'ctx>> = Vec::new();
        let fn_name = match retain_fn_name(brix_type) {
            Some(n) => n,
            None => return (Ok(value), none),
        };
        if llvm::basic_as_pointer(value).is_none() {
            return (Err(llvm_error("into_pointer_value", message("expected a pointer to retain with ", fn_name))), none);
        }
        let ptr_ty = llvm::pointer_type_basic(self.ptr_type());
        let params = vec![ptr_ty];
        let fn_ty = llvm::basic_fn_type(ptr_ty, &params, false);
        let retain_fn = self.runtime_function(fn_name, fn_ty, LinkageKind::External);
        let args = vec![value];
        assert(args@ =~= seq![value]);
        let (call, asked) = llvm::build_call(self.builder, retain_fn, &args, "retain_call");
        let call = match call {
            Some(c) => c,
            None => return (Err(llvm_error("build_call", message("Failed to call ", fn_name))), none),
        };
        let record = vec![asked];
        match call {
            Some(v) => (Ok(v), record),
            None => {
                let mut details = String::from_str(fn_name);
                details.append(" should return a pointer");
                (Err(llvm_error("try_as_basic_value", details)), none)
            },
        }
    }

    /// Drops a reference to a reference-counted value: calls the type's
    /// release function with the pointer. Values of other types need
    /// nothing. The record lists the calls asked for: the release
    /// function's name and its arguments.
    pub fn insert_release(&self, ptr_value: PointerValue<'ctx>, brix_type: &BrixType) -> (r: (Result<(), CodegenError>, Vec<CallRecord<'ctx>>))
        ensures
            !spec_is_ref_counted(brix_type@) ==> (r.0 is Ok && r.1@.len() == 0),
            spec_is_ref_counted(brix_type@) && r.0 is Ok ==> (r.1@.len() == 1 && r.1@[0].callee_name() == spec_release_fn(brix_type@)->0
                && r.1@[0].arguments().len() == 1),
            r.0 matches Err(e) ==> e is LLVMError,
    {
        let none: Vec<CallRecord<'ctx>> = Vec::new();
        let fn_name = match release_fn_name(brix_type) {
            Some(n) => n,
            None => return (Ok(()), none),
        };
        let params = vec![llvm::pointer_type_basic(self.ptr_type())];
        let fn_ty = llvm::void_fn_type(llvm::void_type(self.context), &params, false);
        let release_fn = self.runtime_function(fn_name, fn_ty, LinkageKind::External);
        let args = vec![llvm::pointer_value_basic(ptr_value)];
        let (call, asked) = llvm::build_call(self.builder, release_fn, &args, "release_call");
        let record = vec![asked];
        match call {
            Some(_) => (Ok(()), record),
            None => (Err(llvm_error("build_call", message("Failed to call ", fn_name))), none),
        }
    }

    /// Takes a reference to a closure: `closure_retain` returns the same
    /// pointer.
    pub fn closure_retain(&self, closure_ptr: PointerValue<'ctx>) -> (r: Result<PointerValue<'ctx>, CodegenError>)
        ensures
            r matches Err(e) ==> (e is LLVMError || e is MissingValue),
    {
        let ptr_ty = llvm::pointer_type_basic(self.ptr_type());
        let params = vec![ptr_ty];
        let fn_ty = llvm::basic_fn_type(ptr_ty, &params, false);
        let retain_fn = self.runtime_function("closure_retain", fn_ty, LinkageKind::External);
        let args = vec![llvm::pointer_value_basic(closure_ptr)];
        let call = match llvm::build_call(self.builder, retain_fn, &args, "retain_call").0 {
            Some(c) => c,
            None => return Err(llvm_error("build_call", String::from_str("Failed to call closure_retain"))),
        };
        match call {
            Some(v) => match llvm::basic_as_pointer(v) {
                Some(p) => Ok(p),
                None => Err(llvm_error("into_pointer_value", String::from_str("closure_retain should return a pointer"))),
            },
            None => Err(CodegenError::MissingValue {
                what: String::from_str("closure_retain result"),
                context: String::from_str("ARC retain"),
            }),
        }
    }

    /// Drops a reference to a closure: `closure_release` frees it when no
    /// reference is left.
    pub fn closure_release(&self, closure_ptr: PointerValue<'ctx>) -> (r: Result<(), CodegenError>)
        ensures
            r matches Err(e) ==> e is LLVMError,
    {
        let params = vec![llvm::pointer_type_basic(self.ptr_type())];
        let fn_ty = llvm::void_fn_type(llvm::void_type(self.context), &params, false);
        let release_fn = self.runtime_function("closure_release", fn_ty, LinkageKind::External);
        let args = vec![llvm::pointer_value_basic(closure_ptr)];
        match llvm::build_call(self.builder, release_fn, &args, "release_call").0 {
            Some(_) => Ok(()),
            None => Err(llvm_error("build_call", String::from_str("Failed to call closure_release"))),
        }
    }

    /// Releases the reference-counted variables of the current function:
    /// each tracked name once, if it is still bound, loading its current
    /// value and calling the release function of its tracked type. With
    /// nothing to release, nothing is emitted. The record lists the release
    /// calls asked for, in order.
    pub fn release_function_scope_vars(&self) -> (r: (Result<(), CodegenError>, Vec<CallRecord<'ctx>>))
        ensures
            release_positions(
                names_of(self.function_scope_vars@),
                self.variables.map().dom(),
                self.function_scope_vars@.len() as int,
            ).len() == 0 ==> r.0 is Ok,
            r.0 is Ok ==> called_names(r.1@) == release_calls(
                self.function_scope_vars@,
                release_positions(
                    names_of(self.function_scope_vars@),
                    self.variables.map().dom(),
                    self.function_scope_vars@.len() as int,
                ),
            ),
            r.0 matches Err(e) ==> e is LLVMError,
    {
        let ghost vars = self.function_scope_vars@;
        let ghost positions = release_positions(names_of(vars), self.variables.map().dom(), vars.len() as int);
        proof {
            lemma_released_are_bound(names_of(vars), self.variables.map().dom(), vars.len() as int);
        }
        let plan = release_plan(&self.function_scope_vars, &self.variables);
        let mut record: Vec<CallRecord<'ctx>> = Vec::new();
        let mut k: usize = 0;
        while k < plan.len()
            invariant
                k <= plan@.len(),
                vars == self.function_scope_vars@,
                positions == release_positions(names_of(vars), self.variables.map().dom(), vars.len() as int),
                forall|i: int| 0 <= i < plan@.len() ==> plan@[i] < self.function_scope_vars@.len(),
                forall|i: int| 0 <= i < plan@.len() ==> plan@[i] as int == #[trigger] positions[i],
                plan@.len() == positions.len(),
                forall|i: int| 0 <= i < positions.len() ==> self.variables.map().dom().contains(
                    names_of(vars)[#[trigger] positions[i]],
                ),
                called_names(record@) == release_calls(vars, positions.subrange(0, k as int)),
            decreases plan@.len() - k,
        {
            let i = plan[k];
            let name = self.function_scope_vars[i].0.as_str();
            let var_type = &self.function_scope_vars[i].1;
            assert(self.variables.map().dom().contains(names_of(vars)[positions[k as int]]));
            assert(names_of(vars)[i as int] == name@);
            let entry = match self.variables.get(name) {
                Some(entry) => entry,
                None => {
                    return (Err(llvm_error("get", message("Lost the slot of variable ", name))), record);
                },
            };
            let slot = entry.0;
            let load_name = message(name, "_release_load");
            let loaded = match llvm::build_load(self.builder, slot, self.ptr_basic(), load_name.as_str()).0 {
                Some(v) => v,
                None => {
                    let mut details = String::from_str("Failed to load variable '");
                    details.append(name);
                    details.append("' for release");
                    return (Err(llvm_error("build_load", details)), record);
                },
            };
            let value = match llvm::basic_as_pointer(loaded) {
                Some(p) => p,
                None => return (Err(llvm_error("into_pointer_value", message("expected a pointer in variable ", name))), record),
            };
            let (released, mut calls) = self.insert_release(value, var_type);
            if let Err(e) = released {
                return (Err(e), record);
            }
            record.append(&mut calls);
            proof {
                let next = positions.subrange(0, k + 1);
                assert(next.subrange(0, k as int) =~= positions.subrange(0, k as int));
                assert(next[k as int] == positions[k as int]);
                assert(called_names(record@) =~= release_calls(vars, next));
            }
            k = k + 1;
        }
        proof {
            assert(positions.subrange(0, positions.len() as int) =~= positions);
        }
        (Ok(()), record)
    }
}

} // verus!
