use inkwell::context::Context;
use inkwell::builder::Builder;
use inkwell::module::Module;
use inkwell::values::{FunctionValue, BasicValueEnum};
use inkwell::AddressSpace;
use codegen::compiler::{Compiler, CodegenError};
use codegen::decl::ExprForm;
use codegen::types::{BrixType, same_type};
use codegen::stringify::is_stringifiable;

type Gen<'a, 'ctx> = Compiler<'a, 'ctx, (), ()>;

fn start_main<'ctx>(ctx: &'ctx Context, module: &Module<'ctx>, builder: &Builder<'ctx>) -> FunctionValue<'ctx> {
    let f = module.add_function("main", ctx.i64_type().fn_type(&[], false), None);
    let entry = ctx.append_basic_block(f, "entry");
    builder.position_at_end(entry);
    f
}

fn finish_main<'ctx>(ctx: &'ctx Context, module: &Module<'ctx>, builder: &Builder<'ctx>) {
    builder.build_return(Some(&ctx.i64_type().const_int(0, false))).unwrap();
    assert!(module.verify().is_ok(), "{}", module.print_to_string().to_string());
}

fn null_ptr<'ctx>(ctx: &'ctx Context) -> BasicValueEnum<'ctx> {
    ctx.i8_type().ptr_type(AddressSpace::default()).const_null().into()
}

fn ir(module: &Module) -> String {
    module.print_to_string().to_string()
}

fn is_conversion_refusal(r: &Result<BasicValueEnum, CodegenError>) -> bool {
    matches!(r, Err(CodegenError::MissingValue { what, .. }) if what == "value_to_string conversion")
}

#[test]
fn a_string_is_its_own_text() {
    let ctx = Context::create();
    let module = ctx.create_module("m");
    let builder = ctx.create_builder();
    let g: Gen = Compiler::new(&ctx, &builder, &module, String::new(), String::new());
    let v = null_ptr(&ctx);
    let r = g.value_to_string(v, &BrixType::String, None).0.unwrap();
    assert_eq!(r, v);
}

#[test]
fn integers_and_floats_go_through_sprintf_with_their_format() {
    let ctx = Context::create();
    let module = ctx.create_module("m");
    let builder = ctx.create_builder();
    let mut g: Gen = Compiler::new(&ctx, &builder, &module, String::new(), String::new());
    g.current_function = Some(start_main(&ctx, &module, &builder));
    let i: BasicValueEnum = ctx.i64_type().const_int(255, false).into();
    let f: BasicValueEnum = ctx.f64_type().const_float(2.5).into();
    assert!(g.value_to_string(i, &BrixType::Int, Some("x")).0.is_ok());
    assert!(g.value_to_string(f, &BrixType::Float, Some(".2f")).0.is_ok());
    let text = ir(&module);
    assert!(text.contains("c\"%x\\00\""));
    assert!(text.contains("c\"%.2f\\00\""));
    assert!(text.contains("@sprintf"));
    assert!(text.contains("@str_new"));
    finish_main(&ctx, &module, &builder);
}

#[test]
fn arrays_complex_values_and_runtime_names_convert() {
    let ctx = Context::create();
    let module = ctx.create_module("m");
    let builder = ctx.create_builder();
    let mut g: Gen = Compiler::new(&ctx, &builder, &module, String::new(), String::new());
    g.current_function = Some(start_main(&ctx, &module, &builder));
    let p = null_ptr(&ctx);
    let z: BasicValueEnum = ctx.const_struct(&[ctx.f64_type().const_float(3.0).into(), ctx.f64_type().const_float(4.0).into()], false).into();
    let atom: BasicValueEnum = ctx.i64_type().const_int(7, false).into();
    assert!(g.value_to_string(p, &BrixType::Matrix, None).0.is_ok());
    assert!(g.value_to_string(p, &BrixType::IntMatrix, None).0.is_ok());
    assert!(g.value_to_string(z, &BrixType::Complex, None).0.is_ok());
    assert!(g.value_to_string(p, &BrixType::ComplexMatrix, None).0.is_ok());
    assert!(g.value_to_string(p, &BrixType::Nil, None).0.is_ok());
    assert!(g.value_to_string(p, &BrixType::Error, None).0.is_ok());
    assert!(g.value_to_string(atom, &BrixType::Atom, None).0.is_ok());
    assert!(g.value_to_string(p, &BrixType::Intersection(vec![BrixType::Struct("A".to_string())]), None).0.is_ok());
    let text = ir(&module);
    for name in ["@str_concat", "@complex_to_string", "@brix_error_message", "@atom_name", "array_str_cond", "cmatrix_str_cond"] {
        assert!(text.contains(name), "{} missing", name);
    }
    assert!(text.contains("c\"<Intersection>\\00\""));
    assert!(text.contains("c\"nil\\00\""));
    finish_main(&ctx, &module, &builder);
}

#[test]
fn a_union_branches_on_its_tag() {
    let ctx = Context::create();
    let module = ctx.create_module("m");
    let builder = ctx.create_builder();
    let mut g: Gen = Compiler::new(&ctx, &builder, &module, String::new(), String::new());
    g.current_function = Some(start_main(&ctx, &module, &builder));
    let i64_ty = ctx.i64_type();
    let v: BasicValueEnum = ctx.const_struct(&[i64_ty.const_int(0, false).into(), i64_ty.const_int(5, false).into()], false).into();
    let t = BrixType::Union(vec![BrixType::Int, BrixType::Nil]);
    assert!(g.value_to_string(v, &t, None).0.is_ok());
    let text = ir(&module);
    assert!(text.contains("union_case_0"));
    assert!(text.contains("union_check_1"));
    assert!(text.contains("union_case_1"));
    assert!(text.contains("union_print_merge"));
    finish_main(&ctx, &module, &builder);
}

#[test]
fn types_without_a_conversion_are_refused() {
    let ctx = Context::create();
    let module = ctx.create_module("m");
    let builder = ctx.create_builder();
    let mut g: Gen = Compiler::new(&ctx, &builder, &module, String::new(), String::new());
    g.current_function = Some(start_main(&ctx, &module, &builder));
    let p = null_ptr(&ctx);
    assert!(is_conversion_refusal(&g.value_to_string(p, &BrixType::Tuple(vec![BrixType::Int]), None).0));
    assert!(is_conversion_refusal(&g.value_to_string(p, &BrixType::Struct("P".to_string()), None).0));
    assert!(is_conversion_refusal(&g.value_to_string(p, &BrixType::Void, None).0));
    assert!(is_conversion_refusal(&g.value_to_string(p, &BrixType::FloatPtr, None).0));
    match g.value_to_string(p, &BrixType::Union(vec![]), None).0 {
        Err(CodegenError::MissingValue { what, context }) => {
            assert_eq!(what, "value_to_string conversion");
            assert_eq!(context, "Empty Union type");
        },
        _ => panic!("an empty union has no text"),
    }
    let v: BasicValueEnum = ctx.const_struct(&[ctx.i64_type().const_int(0, false).into(), ctx.i64_type().const_int(0, false).into()], false).into();
    assert!(is_conversion_refusal(&g.value_to_string(v, &BrixType::Union(vec![BrixType::Int, BrixType::Void]), None).0));
}

#[test]
fn optionals_and_unions_outside_functions_cannot_be_converted() {
    assert!(!is_stringifiable(&BrixType::Optional(Box::new(BrixType::Int)), true));
    assert!(!is_stringifiable(&BrixType::Union(vec![BrixType::Int, BrixType::Nil]), false));
    assert!(is_stringifiable(&BrixType::Union(vec![BrixType::Int, BrixType::Nil]), true));
    assert!(is_stringifiable(&BrixType::Union(vec![]), false));
    assert!(!is_stringifiable(&BrixType::Union(vec![BrixType::Union(vec![BrixType::Optional(Box::new(BrixType::Nil))])]), true));
    assert!(is_stringifiable(&BrixType::Tuple(vec![BrixType::Int]), false));
}

#[test]
fn print_and_println_write_the_text_and_release_temporaries() {
    let ctx = Context::create();
    let module = ctx.create_module("m");
    let builder = ctx.create_builder();
    let mut g: Gen = Compiler::new(&ctx, &builder, &module, String::new(), String::new());
    g.current_function = Some(start_main(&ctx, &module, &builder));
    let i: BasicValueEnum = ctx.i64_type().const_int(3, false).into();
    assert!(g.emit_print(i, &BrixType::Int, ExprForm::Literal, false).is_ok());
    assert!(g.emit_print(i, &BrixType::Int, ExprForm::Literal, true).is_ok());
    let text = ir(&module);
    assert!(text.contains("@printf"));
    assert!(text.contains("c\"%s\\00\""));
    assert!(text.contains("c\"%s\\0A\\00\""));
    assert!(text.contains("@string_release"));
    finish_main(&ctx, &module, &builder);
}

#[test]
fn a_borrowed_string_is_printed_without_release() {
    let ctx = Context::create();
    let module = ctx.create_module("m");
    let builder = ctx.create_builder();
    let mut g: Gen = Compiler::new(&ctx, &builder, &module, String::new(), String::new());
    g.current_function = Some(start_main(&ctx, &module, &builder));
    assert!(g.emit_print(null_ptr(&ctx), &BrixType::String, ExprForm::Identifier, true).is_ok());
    assert!(!ir(&module).contains("@string_release"));
    finish_main(&ctx, &module, &builder);
}

#[test]
fn printing_an_optional_is_refused() {
    let ctx = Context::create();
    let module = ctx.create_module("m");
    let builder = ctx.create_builder();
    let mut g: Gen = Compiler::new(&ctx, &builder, &module, String::new(), String::new());
    g.current_function = Some(start_main(&ctx, &module, &builder));
    let r = g.emit_print(null_ptr(&ctx), &BrixType::Optional(Box::new(BrixType::Int)), ExprForm::Identifier, false);
    match r {
        Err(CodegenError::MissingValue { what, context }) => {
            assert_eq!(what, "value_to_string conversion");
            assert_eq!(context, "Optional type should have been converted to Union");
        },
        _ => panic!("an optional cannot be printed"),
    }
}

#[test]
fn printf_arguments_pass_strings_as_c_strings() {
    let ctx = Context::create();
    let module = ctx.create_module("m");
    let builder = ctx.create_builder();
    let mut g: Gen = Compiler::new(&ctx, &builder, &module, String::new(), String::new());
    g.current_function = Some(start_main(&ctx, &module, &builder));
    let i: BasicValueEnum = ctx.i64_type().const_int(3, false).into();
    assert_eq!(g.printf_argument(i, &BrixType::Int).unwrap(), i);
    let s = g.printf_argument(null_ptr(&ctx), &BrixType::String).unwrap();
    assert!(s.is_pointer_value());
    assert_ne!(s, null_ptr(&ctx));
    finish_main(&ctx, &module, &builder);
}

#[test]
fn input_reads_the_requested_kind() {
    let ctx = Context::create();
    let module = ctx.create_module("m");
    let builder = ctx.create_builder();
    let mut g: Gen = Compiler::new(&ctx, &builder, &module, String::new(), String::new());
    g.current_function = Some(start_main(&ctx, &module, &builder));
    let (v, t) = g.compile_input_call(Some("int")).unwrap();
    assert!(same_type(&t, &BrixType::Int));
    assert!(v.is_int_value());
    let (v, t) = g.compile_input_call(Some("float")).unwrap();
    assert!(same_type(&t, &BrixType::Float));
    assert!(v.is_float_value());
    let (v, t) = g.compile_input_call(None).unwrap();
    assert!(same_type(&t, &BrixType::String));
    assert!(v.is_pointer_value());
    let text = ir(&module);
    assert!(text.contains("@scanf"));
    assert!(text.contains("c\"%lld\\00\""));
    assert!(text.contains("c\"%lf\\00\""));
    finish_main(&ctx, &module, &builder);
}

#[test]
fn numbers_are_written_with_the_format_they_select() {
    let ctx = Context::create();
    let module = ctx.create_module("m");
    let builder = ctx.create_builder();
    let mut g: Gen = Compiler::new(&ctx, &builder, &module, String::new(), String::new());
    g.current_function = Some(start_main(&ctx, &module, &builder));
    let i: BasicValueEnum = ctx.i64_type().const_int(255, false).into();
    let f: BasicValueEnum = ctx.f64_type().const_float(0.5).into();
    assert!(g.number_to_string(i, true, Some("x")).0.is_ok());
    assert!(g.number_to_string(i, true, None).0.is_ok());
    assert!(g.number_to_string(f, false, Some(".2f")).0.is_ok());
    assert!(g.number_to_string(f, false, None).0.is_ok());
    finish_main(&ctx, &module, &builder);
    let text = ir(&module);
    assert!(text.contains("c\"%x\\00\""));
    assert!(text.contains("c\"%lld\\00\""));
    assert!(text.contains("c\"%.2f\\00\""));
    assert!(text.contains("c\"%g\\00\""));
    assert!(text.contains("@sprintf"));
}
