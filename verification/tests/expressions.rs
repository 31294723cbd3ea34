use inkwell::context::Context;
use inkwell::builder::Builder;
use inkwell::module::Module;
use inkwell::values::{FunctionValue, BasicValueEnum};
use inkwell::AddressSpace;
use codegen::binary::op_name;
use codegen::compiler::{FunctionParts, StructParts, MethodParts, Compiler, CodegenError, Found, StatementCompiler};
use codegen::decl::ExprForm;
use codegen::ops::{BinaryOp, UnaryOp};
use codegen::patterns::{MatchArm, Pattern, PatternLiteral, merge_arm_type};
use codegen::types::{BrixType, same_type};

enum Ex {
    Int(u64),
    Float(f64),
    MaybeInt,
    Text(&'static str),
}

type Gen<'a, 'ctx> = Compiler<'a, 'ctx, Ex, ()>;

struct Small;

impl<'a, 'ctx> StatementCompiler<'a, 'ctx, Ex, (), ()> for Small {
    fn compile_stmt(&mut self, _c: &mut Gen<'a, 'ctx>, _s: &(), _f: FunctionValue<'ctx>) -> Result<(), CodegenError> {
        Ok(())
    }

    fn compile_expr(&mut self, compiler: &mut Gen<'a, 'ctx>, expr: &Ex) -> Result<(BasicValueEnum<'ctx>, BrixType), CodegenError> {
        let ctx = compiler.context;
        match expr {
            Ex::Int(n) => Ok((ctx.i64_type().const_int(*n, false).into(), BrixType::Int)),
            Ex::Float(x) => Ok((ctx.f64_type().const_float(*x).into(), BrixType::Float)),
            Ex::MaybeInt => {
                let i = ctx.i64_type();
                let v = ctx.const_struct(&[i.const_int(1, false).into(), i.const_int(0, false).into()], false);
                Ok((v.into(), BrixType::Union(vec![BrixType::Int, BrixType::Nil])))
            },
            Ex::Text(s) => {
                let p = compiler.build_str_global(s, "lit")?;
                Ok((p.into(), BrixType::String))
            },
        }
    }

    fn compile_lvalue_addr(&mut self, _c: &mut Gen<'a, 'ctx>, _e: &Ex) -> Result<(inkwell::values::PointerValue<'ctx>, BrixType), CodegenError> {
        Err(CodegenError::MissingValue { what: "lvalue".to_string(), context: "test".to_string() })
    }

    fn string_literal(&self, _expr: &Ex) -> Option<String> {
        None
    }

    fn function_parts(&self, _def: &()) -> Option<FunctionParts<Ex, ()>> {
        None
    }

    fn struct_parts(&self, _def: &()) -> Option<StructParts<Ex>> {
        None
    }

    fn method_parts(&self, _def: &()) -> Option<MethodParts<Ex, ()>> {
        None
    }

    fn expr_form(&self, _expr: &Ex) -> ExprForm {
        ExprForm::Literal
    }
}

fn with_main<'ctx>(ctx: &'ctx Context, module: &Module<'ctx>, builder: &Builder<'ctx>) -> FunctionValue<'ctx> {
    let f = module.add_function("main", ctx.i64_type().fn_type(&[], false), None);
    let entry = ctx.append_basic_block(f, "entry");
    builder.position_at_end(entry);
    f
}

fn finish(ctx: &Context, module: &Module, builder: &Builder) {
    builder.build_return(Some(&ctx.i64_type().const_int(0, false))).unwrap();
    assert!(module.verify().is_ok(), "{}", module.print_to_string().to_string());
}

#[test]
fn integer_and_float_arithmetic() {
    let ctx = Context::create();
    let module = ctx.create_module("m");
    let builder = ctx.create_builder();
    let mut g: Gen = Compiler::new(&ctx, &builder, &module, String::new(), String::new());
    g.current_function = Some(with_main(&ctx, &module, &builder));
    let two: BasicValueEnum = ctx.i64_type().const_int(2, false).into();
    let three: BasicValueEnum = ctx.i64_type().const_int(3, false).into();
    let half: BasicValueEnum = ctx.f64_type().const_float(0.5).into();
    let (v, t) = g.emit_binary(BinaryOp::Add, two, &BrixType::Int, three, &BrixType::Int).0.unwrap();
    assert!(same_type(&t, &BrixType::Int));
    assert_eq!(v.into_int_value().get_zero_extended_constant(), Some(5));
    let (_, t) = g.emit_binary(BinaryOp::Mul, two, &BrixType::Int, half, &BrixType::Float).0.unwrap();
    assert!(same_type(&t, &BrixType::Float));
    let (_, t) = g.emit_binary(BinaryOp::Lt, half, &BrixType::Float, two, &BrixType::Int).0.unwrap();
    assert!(same_type(&t, &BrixType::Int));
    match g.emit_binary(BinaryOp::BitAnd, half, &BrixType::Float, half, &BrixType::Float).0 {
        Err(CodegenError::InvalidOperation { operation, reason }) => {
            assert_eq!(operation, "BitAnd");
            assert_eq!(reason, "unsupported float operation");
        },
        _ => panic!("floats have no bitwise and"),
    }
    finish(&ctx, &module, &builder);
}

#[test]
fn string_operands_emit_runtime_calls() {
    let ctx = Context::create();
    let module = ctx.create_module("m");
    let builder = ctx.create_builder();
    let mut g: Gen = Compiler::new(&ctx, &builder, &module, String::new(), String::new());
    g.current_function = Some(with_main(&ctx, &module, &builder));
    let s: BasicValueEnum = g.build_str_global("a", "a").unwrap().into();
    let (_, t) = g.emit_binary(BinaryOp::Add, s, &BrixType::String, s, &BrixType::String).0.unwrap();
    assert!(same_type(&t, &BrixType::String));
    let (_, t) = g.emit_binary(BinaryOp::Eq, s, &BrixType::String, s, &BrixType::String).0.unwrap();
    assert!(same_type(&t, &BrixType::Int));
    match g.emit_binary(BinaryOp::Sub, s, &BrixType::String, s, &BrixType::String).0 {
        Err(CodegenError::InvalidOperation { operation, reason }) => {
            assert_eq!(operation, "Sub");
            assert_eq!(reason, "Only + and == are supported for strings");
        },
        _ => panic!("strings cannot be subtracted"),
    }
    let ir = module.print_to_string().to_string();
    assert!(ir.contains("@str_concat"));
    assert!(ir.contains("@str_eq"));
    finish(&ctx, &module, &builder);
}

#[test]
fn non_numbers_are_a_type_error() {
    let ctx = Context::create();
    let module = ctx.create_module("m");
    let builder = ctx.create_builder();
    let g: Gen = Compiler::new(&ctx, &builder, &module, String::new(), String::new());
    let one: BasicValueEnum = ctx.i64_type().const_int(1, false).into();
    match g.emit_binary(BinaryOp::Add, one, &BrixType::Tuple(vec![BrixType::Int]), one, &BrixType::Int).0 {
        Err(CodegenError::TypeError { expected: Found::Text(e), context, .. }) => {
            assert_eq!(e, "Int or Float");
            assert_eq!(context, "Binary operation Add requires numeric operands");
        },
        _ => panic!("a tuple is not a number"),
    }
    assert_eq!(op_name(BinaryOp::LtEq), "LtEq");
}

#[test]
fn arrays_go_through_the_matrix_runtime() {
    let ctx = Context::create();
    let module = ctx.create_module("m");
    let builder = ctx.create_builder();
    let mut g: Gen = Compiler::new(&ctx, &builder, &module, String::new(), String::new());
    g.current_function = Some(with_main(&ctx, &module, &builder));
    let m: BasicValueEnum = ctx.i8_type().ptr_type(AddressSpace::default()).const_null().into();
    let two: BasicValueEnum = ctx.i64_type().const_int(2, false).into();
    let (_, t) = g.emit_binary(BinaryOp::Add, m, &BrixType::Matrix, two, &BrixType::Int).0.unwrap();
    assert!(same_type(&t, &BrixType::Matrix));
    let (_, t) = g.emit_binary(BinaryOp::Sub, two, &BrixType::Int, m, &BrixType::IntMatrix).0.unwrap();
    assert!(same_type(&t, &BrixType::IntMatrix));
    let (_, t) = g.emit_binary(BinaryOp::Mul, m, &BrixType::IntMatrix, m, &BrixType::Matrix).0.unwrap();
    assert!(same_type(&t, &BrixType::Matrix));
    match g.emit_binary(BinaryOp::Div, two, &BrixType::Int, m, &BrixType::IntMatrix).0 {
        Err(CodegenError::InvalidOperation { operation, reason }) => {
            assert_eq!(operation, "scalar Div IntMatrix");
            assert_eq!(reason, "Div, Mod, and Pow operations not supported for scalar-intmatrix");
        },
        _ => panic!("a scalar cannot be divided by an integer array"),
    }
    let ir = module.print_to_string().to_string();
    for f in ["@matrix_add_scalar", "@scalar_sub_intmatrix", "@intmatrix_to_matrix", "@matrix_mul_matrix"] {
        assert!(ir.contains(f), "{} missing", f);
    }
    finish(&ctx, &module, &builder);
}

#[test]
fn complex_numbers_and_nil_comparisons() {
    let ctx = Context::create();
    let module = ctx.create_module("m");
    let builder = ctx.create_builder();
    let mut g: Gen = Compiler::new(&ctx, &builder, &module, String::new(), String::new());
    g.current_function = Some(with_main(&ctx, &module, &builder));
    let f = ctx.f64_type();
    let z: BasicValueEnum = ctx.const_struct(&[f.const_float(0.0).into(), f.const_float(4.0).into()], false).into();
    let three: BasicValueEnum = ctx.i64_type().const_int(3, false).into();
    let (_, t) = g.emit_binary(BinaryOp::Add, three, &BrixType::Int, z, &BrixType::Complex).0.unwrap();
    assert!(same_type(&t, &BrixType::Complex));
    let (_, t) = g.emit_binary(BinaryOp::Pow, z, &BrixType::Complex, three, &BrixType::Int).0.unwrap();
    assert!(same_type(&t, &BrixType::Complex));
    let (_, t) = g.emit_binary(BinaryOp::Mul, z, &BrixType::Complex, three, &BrixType::Int).0.unwrap();
    assert!(same_type(&t, &BrixType::Complex));
    match g.emit_binary(BinaryOp::Lt, z, &BrixType::Complex, z, &BrixType::Complex).0 {
        Err(CodegenError::InvalidOperation { reason, .. }) => assert_eq!(reason, "Operator not supported for complex numbers"),
        _ => panic!("complex numbers are not ordered"),
    }
    let nil: BasicValueEnum = ctx.i8_type().ptr_type(AddressSpace::default()).const_null().into();
    let u: BasicValueEnum = ctx.const_struct(&[ctx.i64_type().const_int(1, false).into(), three.into_int_value().into()], false).into();
    let opt = BrixType::Union(vec![BrixType::Int, BrixType::Nil]);
    let (v, t) = g.emit_binary(BinaryOp::Eq, u, &opt, nil, &BrixType::Nil).0.unwrap();
    assert!(same_type(&t, &BrixType::Int));
    assert_eq!(v.into_int_value().get_zero_extended_constant(), Some(1));
    let (v, _) = g.emit_binary(BinaryOp::NotEq, nil, &BrixType::String, nil, &BrixType::Nil).0.unwrap();
    assert_eq!(v.into_int_value().get_zero_extended_constant(), Some(0));
    let ir = module.print_to_string().to_string();
    assert!(ir.contains("@complex_powi"));
    assert!(ir.contains("@complex_mul"));
    finish(&ctx, &module, &builder);
}

#[test]
fn logical_operators_and_elvis_branch() {
    let ctx = Context::create();
    let module = ctx.create_module("m");
    let builder = ctx.create_builder();
    let mut g: Gen = Compiler::new(&ctx, &builder, &module, String::new(), String::new());
    g.current_function = Some(with_main(&ctx, &module, &builder));
    let (_, t) = g.compile_binary_expr(&mut Small, BinaryOp::LogicalAnd, &Ex::Int(1), &Ex::Int(0)).unwrap();
    assert!(same_type(&t, &BrixType::Int));
    let (_, t) = g.compile_binary_expr(&mut Small, BinaryOp::LogicalOr, &Ex::Int(0), &Ex::Int(1)).unwrap();
    assert!(same_type(&t, &BrixType::Int));
    let (_, t) = g.compile_binary_expr(&mut Small, BinaryOp::Elvis, &Ex::MaybeInt, &Ex::Int(7)).unwrap();
    assert!(same_type(&t, &BrixType::Int));
    let (_, t) = g.compile_binary_expr(&mut Small, BinaryOp::Add, &Ex::Float(1.0), &Ex::Int(7)).unwrap();
    assert!(same_type(&t, &BrixType::Float));
    let ir = module.print_to_string().to_string();
    for b in ["logic_rhs", "logic_merge", "logic_result", "elvis_lhs", "elvis_rhs", "elvis_result"] {
        assert!(ir.contains(b), "{} missing", b);
    }
    finish(&ctx, &module, &builder);
}

#[test]
fn unary_operators() {
    let ctx = Context::create();
    let module = ctx.create_module("m");
    let builder = ctx.create_builder();
    let mut g: Gen = Compiler::new(&ctx, &builder, &module, String::new(), String::new());
    g.current_function = Some(with_main(&ctx, &module, &builder));
    let five: BasicValueEnum = ctx.i64_type().const_int(5, false).into();
    let (v, t) = g.emit_unary(UnaryOp::Not, five, &BrixType::Int).unwrap();
    assert!(same_type(&t, &BrixType::Int));
    assert_eq!(v.into_int_value().get_zero_extended_constant(), Some(0));
    let (v, t) = g.emit_unary(UnaryOp::Negate, five, &BrixType::Int).unwrap();
    assert!(same_type(&t, &BrixType::Int));
    assert_eq!(v.into_int_value().get_sign_extended_constant(), Some(-5));
    let (_, t) = g.compile_unary_expr(&mut Small, UnaryOp::Negate, &Ex::Float(2.0)).unwrap();
    assert!(same_type(&t, &BrixType::Float));
    let s: BasicValueEnum = g.build_str_global("a", "a").unwrap().into();
    match g.emit_unary(UnaryOp::Negate, s, &BrixType::String) {
        Err(CodegenError::TypeError { expected: Found::Text(e), found: Found::Type(f), context }) => {
            assert_eq!(e, "Int or Float");
            assert!(same_type(&f, &BrixType::String));
            assert_eq!(context, "Unary negation");
        },
        _ => panic!("a string cannot be negated"),
    }
    finish(&ctx, &module, &builder);
}

#[test]
fn match_arm_types_merge() {
    let int = BrixType::Int;
    let float = BrixType::Float;
    assert!(same_type(&merge_arm_type(None, &BrixType::String).unwrap(), &BrixType::String));
    assert!(same_type(&merge_arm_type(Some(&int), &float).unwrap(), &BrixType::Float));
    assert!(same_type(&merge_arm_type(Some(&float), &int).unwrap(), &BrixType::Float));
    assert!(merge_arm_type(Some(&int), &BrixType::String).is_none());
}

#[test]
fn a_match_expression_tests_arms_in_order() {
    let ctx = Context::create();
    let module = ctx.create_module("m");
    let builder = ctx.create_builder();
    let mut g: Gen = Compiler::new(&ctx, &builder, &module, String::new(), String::new());
    g.current_function = Some(with_main(&ctx, &module, &builder));
    let arms = vec![
        MatchArm { pattern: Pattern::Literal(PatternLiteral::Int(1)), guard: None, body: Ex::Int(10) },
        MatchArm { pattern: Pattern::Binding("n".to_string()), guard: Some(Ex::Int(1)), body: Ex::Float(2.5) },
        MatchArm { pattern: Pattern::Wildcard, guard: None, body: Ex::Int(0) },
    ];
    let (_, t) = g.compile_match_expr(&mut Small, &Ex::Int(1), &arms).unwrap();
    assert!(same_type(&t, &BrixType::Float));
    assert!(g.variables.contains_key("n"));
    let ir = module.print_to_string().to_string();
    for b in ["match_arm_0_test", "match_arm_2_body", "match_merge", "match_result"] {
        assert!(ir.contains(b), "{} missing", b);
    }
    let bad = vec![
        MatchArm { pattern: Pattern::Wildcard, guard: None, body: Ex::Int(1) },
        MatchArm { pattern: Pattern::Wildcard, guard: None, body: Ex::Text("x") },
    ];
    match g.compile_match_expr(&mut Small, &Ex::Int(1), &bad) {
        Err(CodegenError::General { message }) => assert_eq!(message, "compilation error"),
        _ => panic!("arms of an int and a string do not merge"),
    }
}

#[test]
fn logical_and_keeps_the_right_value_unnormalised() {
    let ctx = Context::create();
    let module = ctx.create_module("m");
    let builder = ctx.create_builder();
    let main = with_main(&ctx, &module, &builder);
    let mut g: Gen = Compiler::new(&ctx, &builder, &module, String::new(), String::new());
    g.current_function = Some(main);
    let slot = builder.build_alloca(ctx.i64_type(), "a").unwrap();
    let lhs = builder.build_load(slot, "lhs").unwrap();
    let (entry, _, merge) = g.logic_split(lhs, true).0.unwrap();
    let rhs: BasicValueEnum = ctx.i64_type().const_int(5, false).into();
    let v = g.logic_merge(rhs, true, entry, merge).0.unwrap();
    builder.build_return(Some(&v.into_int_value())).unwrap();
    let ir = module.print_to_string().to_string();
    assert!(ir.contains("icmp ne i64 %lhs, 0"));
    assert!(ir.contains("phi i64 [ 0, %entry ], [ 5, %logic_rhs ]"));
}

#[test]
fn logical_or_decides_with_one() {
    let ctx = Context::create();
    let module = ctx.create_module("m");
    let builder = ctx.create_builder();
    let main = with_main(&ctx, &module, &builder);
    let mut g: Gen = Compiler::new(&ctx, &builder, &module, String::new(), String::new());
    g.current_function = Some(main);
    let slot = builder.build_alloca(ctx.i64_type(), "a").unwrap();
    let lhs = builder.build_load(slot, "lhs").unwrap();
    let (entry, _, merge) = g.logic_split(lhs, false).0.unwrap();
    let rhs: BasicValueEnum = ctx.i64_type().const_int(7, false).into();
    let v = g.logic_merge(rhs, false, entry, merge).0.unwrap();
    builder.build_return(Some(&v.into_int_value())).unwrap();
    let ir = module.print_to_string().to_string();
    assert!(ir.contains("phi i64 [ 1, %entry ], [ 7, %logic_rhs ]"));
}
