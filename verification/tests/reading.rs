use inkwell::context::Context;
use inkwell::builder::Builder;
use inkwell::module::Module;
use inkwell::values::{FunctionValue, BasicValueEnum, PointerValue, AnyValue};
use inkwell::AddressSpace;
use codegen::access::FStringPart;
use codegen::compiler::{FunctionParts, StructParts, MethodParts, Compiler, CodegenError, StatementCompiler};
use codegen::decl::ExprForm;
use codegen::generics::Param;
use codegen::types::{BrixType, same_type};

enum Ex {
    Int(u64),
    Var(&'static str),
    Array { ints: bool },
    Pair,
}

type Gen<'a, 'ctx> = Compiler<'a, 'ctx, Ex, ()>;

struct Reader;

impl<'a, 'ctx> StatementCompiler<'a, 'ctx, Ex, (), ()> for Reader {
    fn compile_stmt(&mut self, _c: &mut Gen<'a, 'ctx>, _s: &(), _f: FunctionValue<'ctx>) -> Result<(), CodegenError> {
        Ok(())
    }

    fn compile_expr(&mut self, compiler: &mut Gen<'a, 'ctx>, expr: &Ex) -> Result<(BasicValueEnum<'ctx>, BrixType), CodegenError> {
        let ctx = compiler.context;
        match expr {
            Ex::Int(n) => Ok((ctx.i64_type().const_int(*n, false).into(), BrixType::Int)),
            Ex::Var(name) => compiler.compile_identifier(name).0,
            Ex::Array { ints } => {
                let p = ctx.i8_type().ptr_type(AddressSpace::default()).const_null();
                Ok((p.into(), if *ints { BrixType::IntMatrix } else { BrixType::Matrix }))
            },
            Ex::Pair => {
                let i = ctx.i64_type();
                let s = ctx.const_struct(&[i.const_int(4, false).into(), ctx.f64_type().const_float(0.5).into()], false);
                Ok((s.into(), BrixType::Tuple(vec![BrixType::Int, BrixType::Float])))
            },
        }
    }

    fn compile_lvalue_addr(&mut self, compiler: &mut Gen<'a, 'ctx>, expr: &Ex) -> Result<(PointerValue<'ctx>, BrixType), CodegenError> {
        match expr {
            Ex::Var(name) => match compiler.variables.get(name) {
                Some((slot, t)) => Ok((*slot, t.copy())),
                None => Err(CodegenError::UndefinedSymbol { name: name.to_string(), context: "test".to_string() }),
            },
            _ => Err(CodegenError::MissingValue { what: "lvalue".to_string(), context: "test".to_string() }),
        }
    }

    fn string_literal(&self, _expr: &Ex) -> Option<String> {
        None
    }

    fn function_parts(&self, _def: &()) -> Option<FunctionParts<Ex, ()>> {
        None
    }

    fn struct_parts(&self, _def: &()) -> Option<StructParts<Ex>> {
        None
    }

    fn method_parts(&self, _def: &()) -> Option<MethodParts<Ex, ()>> {
        None
    }

    fn expr_form(&self, expr: &Ex) -> ExprForm {
        match expr {
            Ex::Var(_) => ExprForm::Identifier,
            _ => ExprForm::Literal,
        }
    }
}

fn with_main<'ctx>(ctx: &'ctx Context, module: &Module<'ctx>, builder: &Builder<'ctx>) -> FunctionValue<'ctx> {
    let f = module.add_function("main", ctx.i64_type().fn_type(&[], false), None);
    let entry = ctx.append_basic_block(f, "entry");
    builder.position_at_end(entry);
    f
}

fn finish(ctx: &Context, module: &Module, builder: &Builder) {
    builder.build_return(Some(&ctx.i64_type().const_int(0, false))).unwrap();
    assert!(module.verify().is_ok(), "{}", module.print_to_string().to_string());
}

#[test]
fn identifiers_load_their_slot() {
    let ctx = Context::create();
    let module = ctx.create_module("m");
    let builder = ctx.create_builder();
    let mut g: Gen = Compiler::new(&ctx, &builder, &module, String::new(), String::new());
    g.current_function = Some(with_main(&ctx, &module, &builder));
    let slot = builder.build_alloca(ctx.i64_type(), "x").unwrap();
    builder.build_store(slot, ctx.i64_type().const_int(7, false)).unwrap();
    g.bind_variable("x", slot, BrixType::Int);
    let (v, t) = g.compile_identifier("x").0.unwrap();
    assert!(same_type(&t, &BrixType::Int));
    assert!(v.is_int_value());
    let (im, t) = g.compile_identifier("im").0.unwrap();
    assert!(same_type(&t, &BrixType::Complex));
    let s = im.into_struct_value();
    assert_eq!(s.get_type().count_fields(), 2);
    match g.compile_identifier("nope").0 {
        Err(CodegenError::UndefinedSymbol { name, context }) => {
            assert_eq!(name, "nope");
            assert_eq!(context, "Variable lookup in expression");
        },
        _ => panic!("an unbound name is undefined"),
    }
    let p = builder.build_alloca(ctx.i64_type(), "p").unwrap();
    g.bind_variable("p", p, BrixType::Struct("P".to_string()));
    match g.compile_identifier("p").0 {
        Err(CodegenError::UndefinedSymbol { name, context }) => {
            assert_eq!(name, "P");
            assert_eq!(context, "Loading struct variable");
        },
        _ => panic!("a struct without a layout cannot be loaded"),
    }
    finish(&ctx, &module, &builder);
}

#[test]
fn fields_of_variables_and_values() {
    let ctx = Context::create();
    let module = ctx.create_module("m");
    let builder = ctx.create_builder();
    let mut g: Gen = Compiler::new(&ctx, &builder, &module, String::new(), String::new());
    g.current_function = Some(with_main(&ctx, &module, &builder));
    let fields = vec![
        Param { name: "x".to_string(), ty: "int".to_string(), default: None },
        Param { name: "y".to_string(), ty: "float".to_string(), default: None },
    ];
    assert!(g.compile_struct_def("Point", &[], fields, ()).is_ok());
    let slot = builder.build_alloca(g.struct_types.get("Point").copied().unwrap(), "pt").unwrap();
    g.bind_variable("pt", slot, BrixType::Struct("Point".to_string()));
    let (_, t) = g.compile_field_access(&mut Reader, &Ex::Var("pt"), Some("pt"), "y").unwrap();
    assert!(same_type(&t, &BrixType::Float));
    match g.compile_field_access(&mut Reader, &Ex::Var("pt"), Some("pt"), "z") {
        Err(CodegenError::General { message }) => assert_eq!(message, "Struct 'Point' has no field 'z'"),
        _ => panic!("Point has no field z"),
    }
    let pi = builder.build_alloca(ctx.f64_type(), "pi").unwrap();
    g.bind_variable("math.pi", pi, BrixType::Float);
    let (_, t) = g.compile_field_access(&mut Reader, &Ex::Var("math"), Some("math"), "pi").unwrap();
    assert!(same_type(&t, &BrixType::Float));
    let (_, t) = g.compile_field_access(&mut Reader, &Ex::Array { ints: true }, None, "rows").unwrap();
    assert!(same_type(&t, &BrixType::Int));
    let (_, t) = g.compile_field_access(&mut Reader, &Ex::Array { ints: false }, None, "data").unwrap();
    assert!(same_type(&t, &BrixType::FloatPtr));
    match g.compile_field_access(&mut Reader, &Ex::Array { ints: false }, None, "depth") {
        Err(CodegenError::General { message }) => assert_eq!(message, "unknown field 'depth'"),
        _ => panic!("arrays have no depth"),
    }
    match g.compile_field_access(&mut Reader, &Ex::Int(1), None, "len") {
        Err(CodegenError::MissingValue { what, .. }) => assert_eq!(what, "expression value"),
        _ => panic!("an int has no fields"),
    }
    finish(&ctx, &module, &builder);
}

#[test]
fn tuples_take_one_constant_index() {
    let ctx = Context::create();
    let module = ctx.create_module("m");
    let builder = ctx.create_builder();
    let mut g: Gen = Compiler::new(&ctx, &builder, &module, String::new(), String::new());
    g.current_function = Some(with_main(&ctx, &module, &builder));
    let (v, t) = g.compile_index_expr(&mut Reader, &Ex::Pair, &[Ex::Int(0)], Some(0)).unwrap();
    assert!(same_type(&t, &BrixType::Int));
    assert_eq!(v.into_int_value().get_zero_extended_constant(), Some(4));
    let (_, t) = g.compile_index_expr(&mut Reader, &Ex::Pair, &[Ex::Int(1)], Some(1)).unwrap();
    assert!(same_type(&t, &BrixType::Float));
    for (idx, lit) in [(vec![Ex::Int(2)], Some(2)), (vec![Ex::Var("i")], None)] {
        match g.compile_index_expr(&mut Reader, &Ex::Pair, &idx, lit) {
            Err(CodegenError::General { message }) => assert_eq!(message, "compilation error"),
            _ => panic!("a tuple index is a constant within the tuple"),
        }
    }
    let (_, t) = g.compile_index_expr(&mut Reader, &Ex::Array { ints: true }, &[Ex::Int(1), Ex::Int(2)], None).unwrap();
    assert!(same_type(&t, &BrixType::Int));
    let (_, t) = g.compile_index_expr(&mut Reader, &Ex::Array { ints: false }, &[Ex::Int(3)], Some(3)).unwrap();
    assert!(same_type(&t, &BrixType::Float));
    assert!(matches!(g.compile_index_expr(&mut Reader, &Ex::Int(3), &[Ex::Int(0)], Some(0)), Err(CodegenError::General { .. })));
    finish(&ctx, &module, &builder);
}

#[test]
fn steps_return_the_new_or_old_value() {
    let ctx = Context::create();
    let module = ctx.create_module("m");
    let builder = ctx.create_builder();
    let mut g: Gen = Compiler::new(&ctx, &builder, &module, String::new(), String::new());
    g.current_function = Some(with_main(&ctx, &module, &builder));
    let slot = builder.build_alloca(ctx.i64_type(), "n").unwrap();
    builder.build_store(slot, ctx.i64_type().const_int(1, false)).unwrap();
    g.bind_variable("n", slot, BrixType::Int);
    let (v, t) = g.compile_step(&mut Reader, &Ex::Var("n"), true, true).unwrap();
    assert!(same_type(&t, &BrixType::Int));
    assert!(v.into_int_value().print_to_string().to_string().contains("incremented"));
    let (v, _) = g.compile_step(&mut Reader, &Ex::Var("n"), false, false).unwrap();
    assert!(v.into_int_value().print_to_string().to_string().contains("load_for_dec"));
    finish(&ctx, &module, &builder);
}

#[test]
fn fstrings_join_their_parts() {
    let ctx = Context::create();
    let module = ctx.create_module("m");
    let builder = ctx.create_builder();
    let mut g: Gen = Compiler::new(&ctx, &builder, &module, String::new(), String::new());
    g.current_function = Some(with_main(&ctx, &module, &builder));
    let (_, t) = g.compile_fstring(&mut Reader, &[]).unwrap();
    assert!(same_type(&t, &BrixType::String));
    let parts = vec![
        FStringPart::Text("n = ".to_string()),
        FStringPart::Expr { expr: Ex::Int(255), format: Some("x".to_string()) },
    ];
    let (_, t) = g.compile_fstring(&mut Reader, &parts).unwrap();
    assert!(same_type(&t, &BrixType::String));
    let ir = module.print_to_string().to_string();
    assert!(ir.contains("c\"n = \\00\""));
    assert!(ir.contains("c\"%x\\00\""));
    assert!(ir.contains("concat_fstr"));
    let bad = vec![FStringPart::Expr { expr: Ex::Pair, format: None }];
    assert!(matches!(g.compile_fstring(&mut Reader, &bad), Err(CodegenError::MissingValue { .. })));
    finish(&ctx, &module, &builder);
}
