use inkwell::context::Context;
use inkwell::builder::Builder;
use inkwell::module::Module;
use inkwell::values::{FunctionValue, BasicValueEnum};
use inkwell::AddressSpace;
use codegen::calls::{Builtin, builtin_of, type_test_answer};
use codegen::compiler::{FunctionParts, StructParts, MethodParts, Compiler, CodegenError, StatementCompiler};
use codegen::decl::ExprForm;
use codegen::types::{BrixType, same_type};

enum Ex {
    Int(u64),
    Float(f64),
    Text(&'static str),
    Pair,
    Z,
    Nothing,
}

type Gen<'a, 'ctx> = Compiler<'a, 'ctx, Ex, ()>;

struct Small;

impl<'a, 'ctx> StatementCompiler<'a, 'ctx, Ex, (), ()> for Small {
    fn compile_stmt(&mut self, _c: &mut Gen<'a, 'ctx>, _s: &(), _f: FunctionValue<'ctx>) -> Result<(), CodegenError> {
        Ok(())
    }

    fn compile_expr(&mut self, compiler: &mut Gen<'a, 'ctx>, expr: &Ex) -> Result<(BasicValueEnum<'ctx>, BrixType), CodegenError> {
        let ctx = compiler.context;
        match expr {
            Ex::Int(n) => Ok((ctx.i64_type().const_int(*n, false).into(), BrixType::Int)),
            Ex::Float(x) => Ok((ctx.f64_type().const_float(*x).into(), BrixType::Float)),
            Ex::Text(s) => {
                let p = compiler.build_str_global(s, "lit")?;
                Ok((p.into(), BrixType::String))
            },
            Ex::Pair => {
                let s = ctx.const_struct(&[ctx.i64_type().const_int(1, false).into()], false);
                Ok((s.into(), BrixType::Tuple(vec![BrixType::Int])))
            },
            Ex::Z => {
                let f = ctx.f64_type();
                let z = ctx.const_struct(&[f.const_float(3.0).into(), f.const_float(4.0).into()], false);
                Ok((z.into(), BrixType::Complex))
            },
            Ex::Nothing => Ok((ctx.i8_type().ptr_type(AddressSpace::default()).const_null().into(), BrixType::Nil)),
        }
    }

    fn compile_lvalue_addr(&mut self, _c: &mut Gen<'a, 'ctx>, _e: &Ex) -> Result<(inkwell::values::PointerValue<'ctx>, BrixType), CodegenError> {
        Err(CodegenError::MissingValue { what: "lvalue".to_string(), context: "test".to_string() })
    }

    fn string_literal(&self, _expr: &Ex) -> Option<String> {
        None
    }

    fn function_parts(&self, _def: &()) -> Option<FunctionParts<Ex, ()>> {
        None
    }

    fn struct_parts(&self, _def: &()) -> Option<StructParts<Ex>> {
        None
    }

    fn method_parts(&self, _def: &()) -> Option<MethodParts<Ex, ()>> {
        None
    }

    fn expr_form(&self, _expr: &Ex) -> ExprForm {
        ExprForm::Literal
    }
}

fn with_main<'ctx>(ctx: &'ctx Context, module: &Module<'ctx>, builder: &Builder<'ctx>) -> FunctionValue<'ctx> {
    let f = module.add_function("main", ctx.i64_type().fn_type(&[], false), None);
    let entry = ctx.append_basic_block(f, "entry");
    builder.position_at_end(entry);
    f
}

fn finish(ctx: &Context, module: &Module, builder: &Builder) {
    builder.build_return(Some(&ctx.i64_type().const_int(0, false))).unwrap();
    assert!(module.verify().is_ok(), "{}", module.print_to_string().to_string());
}

fn constant(v: BasicValueEnum) -> Option<u64> {
    v.into_int_value().get_zero_extended_constant()
}

#[test]
fn builtin_names() {
    assert_eq!(builtin_of("typeof"), Some(Builtin::Typeof));
    assert_eq!(builtin_of("csinh"), Some(Builtin::ComplexToComplex));
    assert_eq!(builtin_of("abs2"), Some(Builtin::ComplexToFloat));
    assert_eq!(builtin_of("print"), None);
    assert_eq!(type_test_answer(Builtin::IsNumber, &BrixType::Float), Some(true));
    assert_eq!(type_test_answer(Builtin::IsNil, &BrixType::String), None);
    assert_eq!(type_test_answer(Builtin::IsBoolean, &BrixType::Float), Some(false));
}

#[test]
fn arity_is_checked_before_arguments_compile() {
    let ctx = Context::create();
    let module = ctx.create_module("m");
    let builder = ctx.create_builder();
    let mut g: Gen = Compiler::new(&ctx, &builder, &module, String::new(), String::new());
    g.current_function = Some(with_main(&ctx, &module, &builder));
    match g.compile_builtin_call(&mut Small, "typeof", &[]) {
        Some(Err(CodegenError::InvalidOperation { operation, reason })) => {
            assert_eq!(operation, "typeof");
            assert_eq!(reason, "expects exactly 1 argument");
        },
        _ => panic!("typeof takes one argument"),
    }
    match g.compile_builtin_call(&mut Small, "complex", &[Ex::Int(1)]) {
        Some(Err(CodegenError::InvalidOperation { operation, reason })) => {
            assert_eq!(operation, "complex()");
            assert_eq!(reason, "Expected 2 arguments, got 1");
        },
        _ => panic!("complex takes two arguments"),
    }
    match g.compile_builtin_call(&mut Small, "is_tuple", &[Ex::Int(1), Ex::Int(2)]) {
        Some(Err(CodegenError::InvalidOperation { reason, .. })) => assert_eq!(reason, "Expected 1 argument, got 2"),
        _ => panic!("is_tuple takes one argument"),
    }
    assert!(matches!(g.compile_builtin_call(&mut Small, "real", &[]), Some(Err(CodegenError::General { .. }))));
    assert!(g.compile_builtin_call(&mut Small, "no_such_builtin", &[]).is_none());
}

#[test]
fn conversions_give_their_type() {
    let ctx = Context::create();
    let module = ctx.create_module("m");
    let builder = ctx.create_builder();
    let mut g: Gen = Compiler::new(&ctx, &builder, &module, String::new(), String::new());
    g.current_function = Some(with_main(&ctx, &module, &builder));
    let (v, t) = g.compile_builtin_call(&mut Small, "int", &[Ex::Float(2.7)]).unwrap().unwrap();
    assert!(same_type(&t, &BrixType::Int));
    assert_eq!(constant(v), Some(2));
    let (_, t) = g.compile_builtin_call(&mut Small, "int", &[Ex::Text("42")]).unwrap().unwrap();
    assert!(same_type(&t, &BrixType::Int));
    let (_, t) = g.compile_builtin_call(&mut Small, "float", &[Ex::Text("4.5")]).unwrap().unwrap();
    assert!(same_type(&t, &BrixType::Float));
    let (_, t) = g.compile_builtin_call(&mut Small, "string", &[Ex::Int(9)]).unwrap().unwrap();
    assert!(same_type(&t, &BrixType::String));
    let (v, _) = g.compile_builtin_call(&mut Small, "bool", &[Ex::Int(9)]).unwrap().unwrap();
    assert_eq!(constant(v), Some(1));
    match g.compile_builtin_call(&mut Small, "int", &[Ex::Pair]) {
        Some(Err(CodegenError::TypeError { context, .. })) => assert_eq!(context, "int() conversion"),
        _ => panic!("a tuple has no int"),
    }
    match g.compile_builtin_call(&mut Small, "bool", &[Ex::Pair]) {
        Some(Err(CodegenError::TypeError { context, .. })) => assert_eq!(context, "bool() conversion"),
        _ => panic!("a tuple has no truth"),
    }
    let (_, t) = g.compile_builtin_call(&mut Small, "typeof", &[Ex::Pair]).unwrap().unwrap();
    assert!(same_type(&t, &BrixType::String));
    let ir = module.print_to_string().to_string();
    assert!(ir.contains("@atoi"));
    assert!(ir.contains("@atof"));
    assert!(ir.contains("c\"tuple\\00\""));
    finish(&ctx, &module, &builder);
}

#[test]
fn type_tests_are_constants_where_the_type_decides() {
    let ctx = Context::create();
    let module = ctx.create_module("m");
    let builder = ctx.create_builder();
    let mut g: Gen = Compiler::new(&ctx, &builder, &module, String::new(), String::new());
    g.current_function = Some(with_main(&ctx, &module, &builder));
    for (name, arg, expected) in [
        ("is_nil", Ex::Nothing, 1),
        ("is_nil", Ex::Int(0), 0),
        ("is_number", Ex::Float(1.0), 1),
        ("is_string", Ex::Int(1), 0),
        ("is_tuple", Ex::Pair, 1),
        ("is_function", Ex::Int(1), 0),
        ("is_boolean", Ex::Int(1), 1),
        ("is_boolean", Ex::Int(5), 0),
    ] {
        let (v, t) = g.compile_builtin_call(&mut Small, name, &[arg]).unwrap().unwrap();
        assert!(same_type(&t, &BrixType::Int));
        assert_eq!(constant(v), Some(expected), "{}", name);
    }
    finish(&ctx, &module, &builder);
}

#[test]
fn errors_and_complex_numbers() {
    let ctx = Context::create();
    let module = ctx.create_module("m");
    let builder = ctx.create_builder();
    let mut g: Gen = Compiler::new(&ctx, &builder, &module, String::new(), String::new());
    g.current_function = Some(with_main(&ctx, &module, &builder));
    let (_, t) = g.compile_builtin_call(&mut Small, "error", &[Ex::Text("bad")]).unwrap().unwrap();
    assert!(same_type(&t, &BrixType::Error));
    match g.compile_builtin_call(&mut Small, "error", &[Ex::Int(1)]) {
        Some(Err(CodegenError::TypeError { context, .. })) => assert_eq!(context, "error()"),
        _ => panic!("an error needs a message"),
    }
    let (z, t) = g.compile_builtin_call(&mut Small, "complex", &[Ex::Int(1), Ex::Float(2.0)]).unwrap().unwrap();
    assert!(same_type(&t, &BrixType::Complex));
    assert!(z.is_struct_value());
    let (_, t) = g.compile_builtin_call(&mut Small, "real", &[Ex::Z]).unwrap().unwrap();
    assert!(same_type(&t, &BrixType::Float));
    let (_, t) = g.compile_builtin_call(&mut Small, "conj", &[Ex::Z]).unwrap().unwrap();
    assert!(same_type(&t, &BrixType::Complex));
    let (_, t) = g.compile_builtin_call(&mut Small, "abs", &[Ex::Z]).unwrap().unwrap();
    assert!(same_type(&t, &BrixType::Float));
    match g.compile_builtin_call(&mut Small, "sqrt", &[Ex::Int(4)]) {
        Some(Err(CodegenError::TypeError { context, .. })) => assert_eq!(context, "sqrt()"),
        _ => panic!("sqrt here takes a complex number"),
    }
    let ir = module.print_to_string().to_string();
    for f in ["@brix_error_new", "@complex_conj", "@complex_abs"] {
        assert!(ir.contains(f), "{} missing", f);
    }
    finish(&ctx, &module, &builder);
}
