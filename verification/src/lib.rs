//! Planning and bookkeeping core of the Brix code generator.

pub mod types;
pub mod strmap;
pub mod text;
pub mod typeparse;
pub mod ops;
pub mod generics;
pub mod decl;
pub mod arc;
pub mod format;
pub mod testlib;
pub mod llvm;
pub mod compiler;
pub mod emit;
pub mod layout;
pub mod laws;
pub mod testgen;
pub mod builtins;
pub mod declare;
pub mod stmts;
pub mod closures;
pub mod stringify;
pub mod comprehension;
pub mod patterns;
pub mod binary;
pub mod access;
pub mod calls;
pub mod loops;
pub mod invoke;
pub mod instances;
pub mod syntax;

use vstd::prelude::*;

verus! {

} // verus!
