use inkwell::context::Context;
use inkwell::builder::Builder;
use inkwell::module::Module;
use inkwell::values::{FunctionValue, BasicValueEnum};
use codegen::compiler::{Compiler, CodegenError};
use codegen::builtins::zip_plan;
use codegen::types::{BrixType, same_type};

type Gen<'a, 'ctx> = Compiler<'a, 'ctx, (), ()>;

fn with_main<'ctx>(ctx: &'ctx Context, module: &Module<'ctx>, builder: &Builder<'ctx>) -> FunctionValue<'ctx> {
    let f = module.add_function("main", ctx.i64_type().fn_type(&[], false), None);
    let entry = ctx.append_basic_block(f, "entry");
    builder.position_at_end(entry);
    f
}

#[test]
fn to_be_on_ints_truncates_a_float_expectation() {
    let ctx = Context::create();
    let module = ctx.create_module("m");
    let builder = ctx.create_builder();
    with_main(&ctx, &module, &builder);
    let g: Gen = Compiler::new(&ctx, &builder, &module, "t.bx".to_string(), "a\nb\ntest".to_string());
    let actual: BasicValueEnum = ctx.i64_type().const_int(3, false).into();
    let expected: BasicValueEnum = ctx.f64_type().const_float(3.9).into();
    let r = g.compile_test_matcher(actual, &BrixType::Int, "toBe", Some((expected, &BrixType::Float)), false, 4).0;
    let (_, t) = r.ok().unwrap();
    assert!(same_type(&t, &BrixType::Nil));
    let ir = module.print_to_string().to_string();
    assert!(ir.contains("declare void @test_expect_toBe_int(i64, i64, i8*, i32)"));
    assert!(ir.contains("call void @test_expect_toBe_int(i64 3, i64 3,"));
    assert!(ir.contains("i32 3)"));
    assert!(ir.contains("c\"t.bx\\00\""));
}

#[test]
fn negated_to_be_on_floats_widens_an_int_expectation() {
    let ctx = Context::create();
    let module = ctx.create_module("m");
    let builder = ctx.create_builder();
    with_main(&ctx, &module, &builder);
    let g: Gen = Compiler::new(&ctx, &builder, &module, "t.bx".to_string(), "x".to_string());
    let actual: BasicValueEnum = ctx.f64_type().const_float(2.0).into();
    let expected: BasicValueEnum = ctx.i64_type().const_int(2, false).into();
    assert!(g.compile_test_matcher(actual, &BrixType::Float, "toBe", Some((expected, &BrixType::Int)), true, 0).0.is_ok());
    let ir = module.print_to_string().to_string();
    assert!(ir.contains("call void @test_expect_not_toBe_float(double 2.000000e+00, double 2.000000e+00,"));
    assert!(ir.contains("i32 1)"));
}

#[test]
fn to_be_without_argument_is_refused() {
    let ctx = Context::create();
    let module = ctx.create_module("m");
    let builder = ctx.create_builder();
    with_main(&ctx, &module, &builder);
    let g: Gen = Compiler::new(&ctx, &builder, &module, "t.bx".to_string(), String::new());
    let actual: BasicValueEnum = ctx.i64_type().const_int(3, false).into();
    match g.compile_test_matcher(actual, &BrixType::Int, "toBe", None, false, 0).0 {
        Err(CodegenError::InvalidOperation { operation, reason }) => {
            assert_eq!(operation, "toBe");
            assert_eq!(reason, "requires one argument");
        },
        _ => panic!("expected an invalid operation"),
    }
}

#[test]
fn unknown_matchers_emit_no_call() {
    let ctx = Context::create();
    let module = ctx.create_module("m");
    let builder = ctx.create_builder();
    with_main(&ctx, &module, &builder);
    let g: Gen = Compiler::new(&ctx, &builder, &module, "t.bx".to_string(), String::new());
    let actual: BasicValueEnum = ctx.i64_type().const_int(3, false).into();
    assert!(g.compile_test_matcher(actual, &BrixType::Int, "toSparkle", None, false, 0).0.is_ok());
    assert!(!module.print_to_string().to_string().contains("test_expect"));
}

#[test]
fn nil_checks_pass_a_null_flag() {
    let ctx = Context::create();
    let module = ctx.create_module("m");
    let builder = ctx.create_builder();
    with_main(&ctx, &module, &builder);
    let g: Gen = Compiler::new(&ctx, &builder, &module, "t.bx".to_string(), String::new());
    let p = g.build_str_global("v", "v").ok().unwrap();
    assert!(g.compile_test_matcher(p.into(), &BrixType::String, "toBeNil", None, false, 0).0.is_ok());
    let ir = module.print_to_string().to_string();
    assert!(ir.contains("declare void @test_expect_toBeNil(i64, i8*, i32)"));
}

#[test]
fn module_calls_register_suites_cases_and_hooks() {
    let ctx = Context::create();
    let module = ctx.create_module("m");
    let builder = ctx.create_builder();
    with_main(&ctx, &module, &builder);
    let g: Gen = Compiler::new(&ctx, &builder, &module, String::new(), String::new());
    let title = g.build_str_global("suite", "title").ok().unwrap();
    let closure = g.build_str_global("", "closure").ok().unwrap();
    assert!(g.compile_test_module_call("describe", &[title.into(), closure.into()]).is_ok());
    assert!(g.compile_test_module_call("afterEach", &[closure.into()]).is_ok());
    assert!(g.compile_test_module_call("mystery", &[]).is_ok());
    match g.compile_test_module_call("it", &[title.into()]) {
        Err(CodegenError::InvalidOperation { operation, reason }) => {
            assert_eq!(operation, "test.it");
            assert_eq!(reason, "requires two arguments: (title, closure)");
        },
        _ => panic!("expected an arity error"),
    }
    match g.compile_test_module_call("beforeAll", &[]) {
        Err(CodegenError::InvalidOperation { operation, .. }) => assert_eq!(operation, "test_before_all_register"),
        _ => panic!("expected an arity error"),
    }
    let ir = module.print_to_string().to_string();
    assert!(ir.contains("declare void @test_describe_start(i8*, i8*)"));
    assert!(ir.contains("declare void @test_after_each_register(i8*)"));
    assert!(!ir.contains("test_it_register"));
}

#[test]
fn zeros_builds_matrices_of_the_given_shape() {
    let ctx = Context::create();
    let module = ctx.create_module("m");
    let builder = ctx.create_builder();
    with_main(&ctx, &module, &builder);
    let g: Gen = Compiler::new(&ctx, &builder, &module, String::new(), String::new());
    let n: BasicValueEnum = ctx.i64_type().const_int(4, false).into();
    let m: BasicValueEnum = ctx.i64_type().const_int(2, false).into();
    assert!(g.compile_zeros(&[n]).is_ok());
    assert!(g.compile_izeros(&[m, n]).is_ok());
    let ir = module.print_to_string().to_string();
    assert!(ir.contains("call i8* @matrix_new(i64 1, i64 4)"));
    assert!(ir.contains("call i8* @intmatrix_new(i64 2, i64 4)"));
    match g.compile_zeros(&[n, n, n]) {
        Err(CodegenError::InvalidOperation { operation, reason }) => {
            assert_eq!(operation, "zeros()");
            assert_eq!(reason, "Expected 1 or 2 arguments, got 3");
        },
        _ => panic!("expected an arity error"),
    }
}

#[test]
fn matrix_constructor_and_csv() {
    let ctx = Context::create();
    let module = ctx.create_module("m");
    let builder = ctx.create_builder();
    with_main(&ctx, &module, &builder);
    let g: Gen = Compiler::new(&ctx, &builder, &module, String::new(), String::new());
    let r: BasicValueEnum = ctx.i64_type().const_int(3, false).into();
    assert!(g.compile_matrix_constructor(&[r, r]).is_some());
    assert!(g.compile_matrix_constructor(&[r]).is_none());
    let path = g.build_str_global("data.csv", "path").ok().unwrap();
    assert!(g.compile_read_csv(&[path.into()]).is_some());
    assert!(g.compile_read_csv(&[]).is_none());
    let ir = module.print_to_string().to_string();
    assert!(ir.contains("call i8* @matrix_new(i64 3, i64 3)"));
    assert!(ir.contains("declare i8* @read_csv(i8*)"));
}

#[test]
fn zip_pairs_arrays_by_element_type() {
    let a = zip_plan(&BrixType::IntMatrix, &BrixType::Matrix).unwrap();
    assert_eq!(a.0, "brix_zip_if");
    assert!(same_type(&a.1, &BrixType::Matrix));
    let b = zip_plan(&BrixType::IntMatrix, &BrixType::IntMatrix).unwrap();
    assert_eq!(b.0, "brix_zip_ii");
    assert!(same_type(&b.1, &BrixType::IntMatrix));
    assert!(zip_plan(&BrixType::Int, &BrixType::Matrix).is_none());
    let ctx = Context::create();
    let module = ctx.create_module("m");
    let builder = ctx.create_builder();
    with_main(&ctx, &module, &builder);
    let g: Gen = Compiler::new(&ctx, &builder, &module, String::new(), String::new());
    let x = g.build_str_global("", "x").ok().unwrap();
    let out = g.compile_zip(&[(x.into(), BrixType::Matrix), (x.into(), BrixType::Matrix)]).unwrap();
    assert!(same_type(&out.1, &BrixType::Matrix));
    assert!(g.compile_zip(&[(x.into(), BrixType::Matrix), (x.into(), BrixType::String)]).is_none());
    assert!(module.print_to_string().to_string().contains("@brix_zip_ff"));
}
