use inkwell::context::Context;
use inkwell::builder::Builder;
use inkwell::module::Module;
use inkwell::values::{FunctionValue, BasicValueEnum};
use inkwell::AddressSpace;
use codegen::compiler::{FunctionParts, StructParts, MethodParts, Compiler, CodegenError, StatementCompiler};
use codegen::comprehension::ComprehensionGen;
use codegen::decl::ExprForm;
use codegen::types::{BrixType, same_type};

enum Ex {
    Int(u64),
    Float(f64),
    Var(&'static str),
    Array { ints: bool },
    Pair,
    Text(&'static str),
}

type Gen<'a, 'ctx> = Compiler<'a, 'ctx, Ex, ()>;

struct Small;

impl<'a, 'ctx> StatementCompiler<'a, 'ctx, Ex, (), ()> for Small {
    fn compile_stmt(&mut self, _c: &mut Gen<'a, 'ctx>, _s: &(), _f: FunctionValue<'ctx>) -> Result<(), CodegenError> {
        Ok(())
    }

    fn compile_expr(&mut self, compiler: &mut Gen<'a, 'ctx>, expr: &Ex) -> Result<(BasicValueEnum<'ctx>, BrixType), CodegenError> {
        let ctx = compiler.context;
        match expr {
            Ex::Int(n) => Ok((ctx.i64_type().const_int(*n, false).into(), BrixType::Int)),
            Ex::Float(x) => Ok((ctx.f64_type().const_float(*x).into(), BrixType::Float)),
            Ex::Var(name) => match compiler.variables.get(name) {
                Some((slot, t)) => {
                    let t = t.copy();
                    let v = compiler.builder.build_load(*slot, name).unwrap();
                    Ok((v, t))
                },
                None => Err(CodegenError::UndefinedSymbol { name: name.to_string(), context: "test".to_string() }),
            },
            Ex::Array { ints } => {
                let p = ctx.i8_type().ptr_type(AddressSpace::default()).const_null();
                Ok((p.into(), if *ints { BrixType::IntMatrix } else { BrixType::Matrix }))
            },
            Ex::Pair => {
                let s = ctx.const_struct(&[ctx.i64_type().const_int(1, false).into()], false);
                Ok((s.into(), BrixType::Tuple(vec![BrixType::Int])))
            },
            Ex::Text(s) => {
                let p = compiler.build_str_global(s, "lit")?;
                Ok((p.into(), BrixType::String))
            },
        }
    }

    fn compile_lvalue_addr(&mut self, _c: &mut Gen<'a, 'ctx>, _e: &Ex) -> Result<(inkwell::values::PointerValue<'ctx>, BrixType), CodegenError> {
        Err(CodegenError::MissingValue { what: "lvalue".to_string(), context: "test".to_string() })
    }

    fn string_literal(&self, _expr: &Ex) -> Option<String> {
        None
    }

    fn function_parts(&self, _def: &()) -> Option<FunctionParts<Ex, ()>> {
        None
    }

    fn struct_parts(&self, _def: &()) -> Option<StructParts<Ex>> {
        None
    }

    fn method_parts(&self, _def: &()) -> Option<MethodParts<Ex, ()>> {
        None
    }

    fn expr_form(&self, expr: &Ex) -> ExprForm {
        match expr {
            Ex::Var(_) => ExprForm::Identifier,
            Ex::Int(_) | Ex::Float(_) | Ex::Text(_) => ExprForm::Literal,
            _ => ExprForm::Other,
        }
    }
}

fn with_main<'ctx>(ctx: &'ctx Context, module: &Module<'ctx>, builder: &Builder<'ctx>) -> FunctionValue<'ctx> {
    let f = module.add_function("main", ctx.i64_type().fn_type(&[], false), None);
    let entry = ctx.append_basic_block(f, "entry");
    builder.position_at_end(entry);
    f
}

fn clause(names: &[&str], iterable: Ex, conditions: Vec<Ex>) -> ComprehensionGen<Ex> {
    ComprehensionGen { var_names: names.iter().map(|n| n.to_string()).collect(), iterable, conditions }
}

fn finish(ctx: &Context, module: &Module, builder: &Builder) {
    builder.build_return(Some(&ctx.i64_type().const_int(0, false))).unwrap();
    assert!(module.verify().is_ok(), "{}", module.print_to_string().to_string());
}

#[test]
fn a_comprehension_without_clauses_is_refused() {
    let ctx = Context::create();
    let module = ctx.create_module("m");
    let builder = ctx.create_builder();
    let main = with_main(&ctx, &module, &builder);
    let mut g: Gen = Compiler::new(&ctx, &builder, &module, String::new(), String::new());
    g.current_function = Some(main);
    match g.compile_list_comprehension(&mut Small, &Ex::Int(1), &[]) {
        Err(CodegenError::InvalidOperation { operation, reason }) => {
            assert_eq!(operation, "list comprehension");
            assert_eq!(reason, "must have at least one generator");
        },
        _ => panic!("a comprehension needs a clause"),
    }
}

#[test]
fn a_filtered_comprehension_builds_nested_loops_and_a_float_array() {
    let ctx = Context::create();
    let module = ctx.create_module("m");
    let builder = ctx.create_builder();
    let main = with_main(&ctx, &module, &builder);
    let mut g: Gen = Compiler::new(&ctx, &builder, &module, String::new(), String::new());
    g.current_function = Some(main);
    let gens = vec![
        clause(&["x"], Ex::Array { ints: true }, vec![Ex::Var("x"), Ex::Int(1)]),
        clause(&["a", "b"], Ex::Array { ints: false }, vec![]),
    ];
    let (v, t) = g.compile_list_comprehension(&mut Small, &Ex::Var("x"), &gens).unwrap();
    assert!(same_type(&t, &BrixType::Matrix));
    assert!(v.is_pointer_value());
    assert!(!g.variables.contains_key("x"));
    assert!(!g.variables.contains_key("a"));
    let ir = module.print_to_string().to_string();
    for block in ["comp_cond_0", "comp_check_0", "comp_recurse_0", "comp_cond_1", "comp_after_1", "copy_cond", "copy_after"] {
        assert!(ir.contains(block), "{} missing", block);
    }
    assert!(ir.contains("combined_cond"));
    assert!(ir.contains("int_to_float"));
    assert!(ir.contains("@matrix_new"));
    finish(&ctx, &module, &builder);
}

#[test]
fn clause_names_are_bound_again_as_before() {
    let ctx = Context::create();
    let module = ctx.create_module("m");
    let builder = ctx.create_builder();
    let main = with_main(&ctx, &module, &builder);
    let mut g: Gen = Compiler::new(&ctx, &builder, &module, String::new(), String::new());
    g.current_function = Some(main);
    let outer = builder.build_alloca(ctx.i64_type(), "x").unwrap();
    g.bind_variable("x", outer, BrixType::Int);
    let gens = vec![clause(&["x"], Ex::Array { ints: false }, vec![])];
    assert!(g.compile_list_comprehension(&mut Small, &Ex::Var("x"), &gens).is_ok());
    let (slot, t) = g.variables.get("x").unwrap();
    assert_eq!(*slot, outer);
    assert!(same_type(t, &BrixType::Int));
    finish(&ctx, &module, &builder);
}

#[test]
fn iterating_over_something_else_is_refused() {
    let ctx = Context::create();
    let module = ctx.create_module("m");
    let builder = ctx.create_builder();
    let main = with_main(&ctx, &module, &builder);
    let mut g: Gen = Compiler::new(&ctx, &builder, &module, String::new(), String::new());
    g.current_function = Some(main);
    let gens = vec![clause(&["x"], Ex::Pair, vec![])];
    match g.compile_list_comprehension(&mut Small, &Ex::Int(1), &gens) {
        Err(CodegenError::InvalidOperation { operation, reason }) => {
            assert_eq!(operation, "list comprehension");
            assert_eq!(reason, "only supports Matrix/IntMatrix iterables for now");
        },
        _ => panic!("only arrays can be iterated"),
    }
    let temp = ctx.i8_type().ptr_type(AddressSpace::default()).const_null().into();
    let count = builder.build_alloca(ctx.i64_type(), "count").unwrap();
    let p: BasicValueEnum = ctx.const_struct(&[ctx.i64_type().const_int(1, false).into()], false).into();
    match g.comp_level(&mut Small, &Ex::Int(1), &gens, 0, p, &BrixType::Tuple(vec![BrixType::Int]), temp, &BrixType::Matrix, count) {
        Err(CodegenError::InvalidOperation { operation, reason }) => {
            assert_eq!(operation, "list comprehension");
            assert!(reason.starts_with("unsupported iterable type: "));
        },
        _ => panic!("only arrays can be iterated"),
    }
}

#[test]
fn elements_must_fit_the_array() {
    let ctx = Context::create();
    let module = ctx.create_module("m");
    let builder = ctx.create_builder();
    let main = with_main(&ctx, &module, &builder);
    let mut g: Gen = Compiler::new(&ctx, &builder, &module, String::new(), String::new());
    g.current_function = Some(main);
    let temp: BasicValueEnum = ctx.i8_type().ptr_type(AddressSpace::default()).const_null().into();
    let count = builder.build_alloca(ctx.i64_type(), "count").unwrap();
    builder.build_store(count, ctx.i64_type().const_int(0, false)).unwrap();
    let text = g.build_str_global("t", "t").unwrap().into();
    match g.store_comprehension_element(text, &BrixType::String, temp, &BrixType::Matrix, count).0 {
        Err(CodegenError::TypeError { context, .. }) => assert_eq!(context, "list comprehension expression"),
        _ => panic!("a string does not fit a float array"),
    }
    let f: BasicValueEnum = ctx.f64_type().const_float(1.5).into();
    match g.store_comprehension_element(f, &BrixType::Float, temp, &BrixType::IntMatrix, count).0 {
        Err(CodegenError::TypeError { context, .. }) => assert_eq!(context, "list comprehension IntMatrix expression"),
        _ => panic!("a float does not fit an integer array"),
    }
    let i: BasicValueEnum = ctx.i64_type().const_int(4, false).into();
    assert!(g.store_comprehension_element(i, &BrixType::Int, temp, &BrixType::IntMatrix, count).0.is_ok());
    assert!(g.store_comprehension_element(i, &BrixType::Int, temp, &BrixType::Matrix, count).0.is_ok());
    assert!(g.store_comprehension_element(f, &BrixType::Float, temp, &BrixType::Matrix, count).0.is_ok());
    finish(&ctx, &module, &builder);
}

#[test]
fn print_statements_compile_their_expression() {
    let ctx = Context::create();
    let module = ctx.create_module("m");
    let builder = ctx.create_builder();
    let main = with_main(&ctx, &module, &builder);
    let mut g: Gen = Compiler::new(&ctx, &builder, &module, String::new(), String::new());
    g.current_function = Some(main);
    assert!(g.compile_print_stmt(&mut Small, &Ex::Int(5)).is_ok());
    assert!(g.compile_println_stmt(&mut Small, &Ex::Float(0.5)).is_ok());
    assert!(g.compile_printf_stmt(&mut Small, "%lld %s\n", &[Ex::Int(2), Ex::Text("hi")]).is_ok());
    match g.compile_print_stmt(&mut Small, &Ex::Pair) {
        Err(CodegenError::MissingValue { what, .. }) => assert_eq!(what, "value_to_string conversion"),
        _ => panic!("a tuple has no text"),
    }
    let ir = module.print_to_string().to_string();
    assert!(ir.contains("call_print"));
    assert!(ir.contains("call_println"));
    assert!(ir.contains("call_printf"));
    finish(&ctx, &module, &builder);
}

#[test]
fn array_literals_are_integer_arrays_unless_a_float_occurs() {
    let ctx = Context::create();
    let module = ctx.create_module("m");
    let builder = ctx.create_builder();
    let main = with_main(&ctx, &module, &builder);
    let mut g: Gen = Compiler::new(&ctx, &builder, &module, String::new(), String::new());
    g.current_function = Some(main);
    let (_, t) = g.compile_array_literal(&mut Small, &[Ex::Int(1), Ex::Int(2)]).unwrap();
    assert!(same_type(&t, &BrixType::IntMatrix));
    let (_, t) = g.compile_array_literal(&mut Small, &[Ex::Int(1), Ex::Float(2.5)]).unwrap();
    assert!(same_type(&t, &BrixType::Matrix));
    let (_, t) = g.compile_array_literal(&mut Small, &[]).unwrap();
    assert!(same_type(&t, &BrixType::IntMatrix));
    let ir = module.print_to_string().to_string();
    assert!(ir.contains("@intmatrix_new"));
    assert!(ir.contains("@matrix_new"));
    assert!(g.compile_array_literal(&mut Small, &[Ex::Float(1.0), Ex::Text("x")]).is_err());
    finish(&ctx, &module, &builder);
}
