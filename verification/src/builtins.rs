//! Emitting calls of the runtime's built-in functions: matrix
//! construction, `zeros`, `izeros`, `zip` and `read_csv`.
//!
//! The arguments arrive compiled: the caller compiles the expressions of
//! the call and hands over their values (and types where they matter).

use vstd::prelude::*;
use inkwell::types::BasicTypeEnum;
use inkwell::values::{BasicValueEnum, FunctionValue, IntValue};
use crate::types::{BrixType, TypeModel};
use crate::compiler::{Compiler, CodegenError};
use crate::text::{decimal, decimal_string};
use crate::llvm::{self, LinkageKind, Callable};

verus! {

/// The runtime function `zip` calls for two arrays and the type of the
/// pairs it returns: both integer arrays give an integer matrix, any float
/// array a float matrix.
pub open spec fn spec_zip_plan(a: TypeModel, b: TypeModel) -> Option<(Seq<char>, TypeModel)> {
    match (a, b) {
        (TypeModel::IntMatrix, TypeModel::IntMatrix) => Some(("brix_zip_ii"@, TypeModel::IntMatrix)),
        (TypeModel::IntMatrix, TypeModel::Matrix) => Some(("brix_zip_if"@, TypeModel::Matrix)),
        (TypeModel::Matrix, TypeModel::IntMatrix) => Some(("brix_zip_fi"@, TypeModel::Matrix)),
        (TypeModel::Matrix, TypeModel::Matrix) => Some(("brix_zip_ff"@, TypeModel::Matrix)),
        _ => None,
    }
}

/// The runtime function and result type of `zip(a, b)`; `None` unless both
/// arguments are arrays.
pub fn zip_plan(a: &BrixType, b: &BrixType) -> (r: Option<(&'static str, BrixType)>)
    ensures
        r matches Some((f, t)) ==> spec_zip_plan(a@, b@) == Some((f@, t@)),
        r is None ==> spec_zip_plan(a@, b@) is None,
{
    match (a, b) {
        (BrixType::IntMatrix, BrixType::IntMatrix) => Some(("brix_zip_ii", BrixType::IntMatrix)),
        (BrixType::IntMatrix, BrixType::Matrix) => Some(("brix_zip_if", BrixType::Matrix)),
        (BrixType::Matrix, BrixType::IntMatrix) => Some(("brix_zip_fi", BrixType::Matrix)),
        (BrixType::Matrix, BrixType::Matrix) => Some(("brix_zip_ff", BrixType::Matrix)),
        _ => None,
    }
}

impl<'a, 'ctx, E, D> Compiler<'a, 'ctx, E, D> {
    /// A runtime function `ptr name(params)`, declared on first use.
    fn pointer_returning(&self, name: &str, params: &Vec<BasicTypeEnum<'ctx>>) -> Callable<'ctx> {
        let ret = llvm::pointer_type_basic(self.ptr_type());
        let ty = llvm::basic_fn_type(ret, params.as_slice(), false);
        self.runtime_function(name, ty, LinkageKind::External)
    }

    /// `matrix_new(rows, cols)` or `intmatrix_new(rows, cols)`.
    fn new_matrix_fn(&self, name: &str) -> Callable<'ctx> {
        let i64_ty = llvm::int_type_basic(llvm::i64_type(self.context));
        let params = vec![i64_ty, i64_ty];
        self.pointer_returning(name, &params)
    }

    /// `matrix(rows, cols)`: a new float matrix, with the two compiled
    /// dimensions. `None` unless there are exactly two arguments, or where
    /// LLVM refuses the call.
    pub fn compile_matrix_constructor(&self, args: &[BasicValueEnum<'ctx>]) -> (r: Option<BasicValueEnum<'ctx>>)
        ensures
            args@.len() != 2 ==> r is None,
    {
        if args.len() != 2 {
            return None;
        }
        let f = self.new_matrix_fn("matrix_new");
        let call_args = vec![args[0], args[1]];
        let call = llvm::build_call(self.builder, f, &call_args, "alloc_matrix").0?;
        call
    }

    /// Shared body of `zeros` and `izeros`: one argument `n` gives a 1×n
    /// matrix, two give rows × columns.
    fn zeros_like(
        &self,
        args: &[BasicValueEnum<'ctx>],
        runtime: &str,
        what: &str,
        call_name: &str,
    ) -> (r: Result<BasicValueEnum<'ctx>, CodegenError>)
        ensures
            (args@.len() != 1 && args@.len() != 2) <==> (r matches Err(e) && e is InvalidOperation),
            (args@.len() != 1 && args@.len() != 2) ==> (r matches Err(e) && e matches CodegenError::InvalidOperation { operation, reason }
                && operation@ == what@ && reason@ == "Expected 1 or 2 arguments, got "@ + decimal(args@.len() as nat)),
            r matches Err(e) ==> (e is LLVMError || e is InvalidOperation),
    {
        let f = self.new_matrix_fn(runtime);
        let dims: Option<(IntValue<'ctx>, IntValue<'ctx>)> = if args.len() == 1 {
            match llvm::basic_as_int(args[0]) {
                Some(n) => Some((llvm::const_int(llvm::i64_type(self.context), 1, false).0, n)),
                None => None,
            }
        } else if args.len() == 2 {
            match (llvm::basic_as_int(args[0]), llvm::basic_as_int(args[1])) {
                (Some(rows), Some(cols)) => Some((rows, cols)),
                _ => None,
            }
        } else {
            let mut reason = String::from_str("Expected 1 or 2 arguments, got ");
            let n = decimal_string(args.len());
            reason.append(n.as_str());
            return Err(CodegenError::InvalidOperation { operation: String::from_str(what), reason });
        };
        let (rows, cols) = match dims {
            Some(d) => d,
            None => {
                return Err(CodegenError::LLVMError {
                    operation: String::from_str("into_int_value"),
                    details: String::from_str("matrix dimensions must be integers"),
                });
            },
        };
        let call_args = vec![llvm::int_value_basic(rows), llvm::int_value_basic(cols)];
        let call = match llvm::build_call(self.builder, f, &call_args, call_name).0 {
            Some(c) => c,
            None => {
                let mut details = String::from_str("Failed to call ");
                details.append(runtime);
                details.append(" for ");
                details.append(what);
                return Err(CodegenError::LLVMError { operation: String::from_str("build_call"), details });
            },
        };
        match call {
            Some(v) => Ok(v),
            None => {
                let mut details = String::from_str(runtime);
                details.append(" did not return a value");
                Err(CodegenError::LLVMError { operation: String::from_str("try_as_basic_value"), details })
            },
        }
    }

    /// `zeros(n)` (a 1×n float matrix) or `zeros(r, c)`, with the compiled
    /// dimensions; any other number of arguments is refused.
    pub fn compile_zeros(&self, args: &[BasicValueEnum<'ctx>]) -> (r: Result<BasicValueEnum<'ctx>, CodegenError>)
        ensures
            (args@.len() != 1 && args@.len() != 2) <==> (r matches Err(e) && e is InvalidOperation),
            (args@.len() != 1 && args@.len() != 2) ==> (r matches Err(e) && e matches CodegenError::InvalidOperation { operation, reason }
                && operation@ == "zeros()"@ && reason@ == "Expected 1 or 2 arguments, got "@ + decimal(args@.len() as nat)),
            r matches Err(e) ==> (e is LLVMError || e is InvalidOperation),
    {
        self.zeros_like(args, "matrix_new", "zeros()", "zeros_matrix")
    }

    /// `izeros(n)` (a 1×n integer matrix) or `izeros(r, c)`, with the
    /// compiled dimensions; any other number of arguments is refused.
    pub fn compile_izeros(&self, args: &[BasicValueEnum<'ctx>]) -> (r: Result<BasicValueEnum<'ctx>, CodegenError>)
        ensures
            (args@.len() != 1 && args@.len() != 2) <==> (r matches Err(e) && e is InvalidOperation),
            (args@.len() != 1 && args@.len() != 2) ==> (r matches Err(e) && e matches CodegenError::InvalidOperation { operation, reason }
                && operation@ == "izeros()"@ && reason@ == "Expected 1 or 2 arguments, got "@ + decimal(args@.len() as nat)),
            r matches Err(e) ==> (e is LLVMError || e is InvalidOperation),
    {
        self.zeros_like(args, "intmatrix_new", "izeros()", "izeros_intmatrix")
    }

    /// `zip(a, b)` of two compiled arrays: the runtime pairs them row by
    /// row. `None` unless there are exactly two arrays, or where LLVM
    /// refuses the call; the result's type is that of the plan.
    pub fn compile_zip(&self, args: &[(BasicValueEnum<'ctx>, BrixType)]) -> (r: Option<(BasicValueEnum<'ctx>, BrixType)>)
        ensures
            args@.len() != 2 ==> r is None,
            args@.len() == 2 && spec_zip_plan(args@[0].1@, args@[1].1@) is None ==> r is None,
            r matches Some((_, t)) ==> args@.len() == 2 && (spec_zip_plan(args@[0].1@, args@[1].1@) matches Some((_, u))
                && t@ == u),
    {
        if args.len() != 2 {
            return None;
        }
        let (fn_name, result_type) = zip_plan(&args[0].1, &args[1].1)?;
        let ptr = llvm::pointer_type_basic(self.ptr_type());
        let params = vec![ptr, ptr];
        let f = self.pointer_returning(fn_name, &params);
        let call_args = vec![args[0].0, args[1].0];
        let call = llvm::build_call(self.builder, f, &call_args, "zip_result").0?;
        let v = call?;
        Some((v, result_type))
    }

    /// `read_csv(path)` with the compiled path: the runtime reads the file
    /// into a matrix. `None` unless there is exactly one argument, or where
    /// LLVM refuses the call.
    pub fn compile_read_csv(&self, args: &[BasicValueEnum<'ctx>]) -> (r: Option<BasicValueEnum<'ctx>>)
        ensures
            args@.len() != 1 ==> r is None,
    {
        if args.len() != 1 {
            return None;
        }
        let params = vec![llvm::pointer_type_basic(self.ptr_type())];
        let f = self.pointer_returning("read_csv", &params);
        let call_args = vec![args[0]];
        let call = llvm::build_call(self.builder, f, &call_args, "call_read_csv").0?;
        call
    }
}

} // verus!
