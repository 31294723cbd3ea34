use inkwell::context::Context;
use inkwell::builder::Builder;
use inkwell::module::Module;
use inkwell::values::{FunctionValue, BasicValueEnum, AnyValue};
use codegen::compiler::{FunctionParts, StructParts, MethodParts, Compiler, CodegenError, Found, StatementCompiler};
use codegen::decl::ExprForm;
use codegen::generics::{TypeParam, Param};
use codegen::types::{BrixType, same_type};

#[derive(Clone)]
enum Ex {
    Int(u64),
    Float(f64),
    Text(&'static str),
    Var(&'static str),
    Pair(u64, f64),
}

enum St {
    Expr(Ex),
    Ret(Vec<Ex>),
    Nothing,
}

type Gen<'a, 'ctx> = Compiler<'a, 'ctx, Ex, ()>;

struct Tiny;

impl<'a, 'ctx> StatementCompiler<'a, 'ctx, Ex, (), St> for Tiny {
    fn compile_stmt(
        &mut self,
        compiler: &mut Gen<'a, 'ctx>,
        stmt: &St,
        _function: FunctionValue<'ctx>,
    ) -> Result<(), CodegenError> {
        match stmt {
            St::Expr(e) => compiler.compile_expr_stmt(self, e),
            St::Ret(vs) => compiler.compile_return_stmt(self, vs),
            St::Nothing => Ok(()),
        }
    }

    fn compile_expr(
        &mut self,
        compiler: &mut Gen<'a, 'ctx>,
        expr: &Ex,
    ) -> Result<(BasicValueEnum<'ctx>, BrixType), CodegenError> {
        let ctx = compiler.context;
        match expr {
            Ex::Int(n) => Ok((ctx.i64_type().const_int(*n, false).into(), BrixType::Int)),
            Ex::Float(x) => Ok((ctx.f64_type().const_float(*x).into(), BrixType::Float)),
            Ex::Text(s) => {
                let p = compiler.build_str_global(s, "lit")?;
                Ok((p.into(), BrixType::String))
            },
            Ex::Var(name) => {
                let (slot, t) = match compiler.variables.get(name) {
                    Some((slot, t)) => (*slot, t.copy()),
                    None => return Err(CodegenError::MissingValue { what: name.to_string(), context: "test".to_string() }),
                };
                let v = compiler.builder.build_load(slot, name).unwrap();
                Ok((v, t))
            },
            Ex::Pair(a, b) => {
                let i = ctx.i64_type().const_int(*a, false);
                let f = ctx.f64_type().const_float(*b);
                let s = ctx.const_struct(&[i.into(), f.into()], false);
                Ok((s.into(), BrixType::Tuple(vec![BrixType::Int, BrixType::Float])))
            },
        }
    }

    fn compile_lvalue_addr(
        &mut self,
        compiler: &mut Gen<'a, 'ctx>,
        expr: &Ex,
    ) -> Result<(inkwell::values::PointerValue<'ctx>, BrixType), CodegenError> {
        match expr {
            Ex::Var(name) => match compiler.variables.get(name) {
                Some((slot, t)) => Ok((*slot, t.copy())),
                None => Err(CodegenError::MissingValue { what: name.to_string(), context: "test".to_string() }),
            },
            _ => Err(CodegenError::MissingValue { what: "lvalue".to_string(), context: "test".to_string() }),
        }
    }

    fn string_literal(&self, _expr: &Ex) -> Option<String> {
        None
    }

    fn function_parts(&self, _def: &()) -> Option<FunctionParts<Ex, St>> {
        None
    }

    fn struct_parts(&self, _def: &()) -> Option<StructParts<Ex>> {
        None
    }

    fn method_parts(&self, _def: &()) -> Option<MethodParts<Ex, St>> {
        None
    }

    fn expr_form(&self, expr: &Ex) -> ExprForm {
        match expr {
            Ex::Var(_) => ExprForm::Identifier,
            Ex::Int(_) | Ex::Float(_) | Ex::Text(_) => ExprForm::Literal,
            Ex::Pair(_, _) => ExprForm::Other,
        }
    }
}

fn with_main<'ctx>(ctx: &'ctx Context, module: &Module<'ctx>, builder: &Builder<'ctx>) -> FunctionValue<'ctx> {
    let f = module.add_function("main", ctx.i64_type().fn_type(&[], false), None);
    let entry = ctx.append_basic_block(f, "entry");
    builder.position_at_end(entry);
    f
}

fn param(name: &str, ty: &str) -> Param<Ex> {
    Param { name: name.to_string(), ty: ty.to_string(), default: None }
}

#[test]
fn if_statement_branches_and_merges() {
    let ctx = Context::create();
    let module = ctx.create_module("m");
    let builder = ctx.create_builder();
    let main = with_main(&ctx, &module, &builder);
    let mut g: Gen = Compiler::new(&ctx, &builder, &module, String::new(), String::new());
    g.current_function = Some(main);
    let r = g.compile_if_stmt(&mut Tiny, &Ex::Int(1), &St::Nothing, Some(&St::Ret(vec![Ex::Int(7)])), main);
    assert!(r.is_ok());
    builder.build_return(Some(&ctx.i64_type().const_int(0, false))).unwrap();
    let ir = module.print_to_string().to_string();
    assert!(ir.contains("then_block:"));
    assert!(ir.contains("else_block:"));
    assert!(ir.contains("merge_block:"));
    assert!(ir.contains("ret i64 7"));
    assert!(module.verify().is_ok());
}

#[test]
fn while_statement_loops_through_its_header() {
    let ctx = Context::create();
    let module = ctx.create_module("m");
    let builder = ctx.create_builder();
    let main = with_main(&ctx, &module, &builder);
    let mut g: Gen = Compiler::new(&ctx, &builder, &module, String::new(), String::new());
    assert!(g.compile_while_stmt(&mut Tiny, &Ex::Int(0), &St::Nothing, main).is_ok());
    builder.build_return(Some(&ctx.i64_type().const_int(0, false))).unwrap();
    let ir = module.print_to_string().to_string();
    assert!(ir.contains("while_header:"));
    assert!(ir.contains("while_body:"));
    assert!(ir.contains("while_after:"));
    assert!(module.verify().is_ok());
}

#[test]
fn a_non_integer_condition_is_refused() {
    let ctx = Context::create();
    let module = ctx.create_module("m");
    let builder = ctx.create_builder();
    let main = with_main(&ctx, &module, &builder);
    let mut g: Gen = Compiler::new(&ctx, &builder, &module, String::new(), String::new());
    let r = g.compile_if_stmt(&mut Tiny, &Ex::Float(1.0), &St::Nothing, None, main);
    assert!(matches!(r, Err(CodegenError::LLVMError { .. })));
}

#[test]
fn functions_get_parameter_slots_and_restore_the_scope() {
    let ctx = Context::create();
    let module = ctx.create_module("m");
    let builder = ctx.create_builder();
    let main = with_main(&ctx, &module, &builder);
    let mut g: Gen = Compiler::new(&ctx, &builder, &module, String::new(), String::new());
    g.current_function = Some(main);
    let outer = builder.build_alloca(ctx.i64_type(), "outer").unwrap();
    g.bind_variable("outer", outer, BrixType::Int);
    let body = St::Ret(vec![Ex::Var("b")]);
    let r = g.compile_function_def(
        &mut Tiny,
        "second",
        &[],
        vec![param("a", "int"), param("b", "float")],
        &Some(vec!["float".to_string()]),
        &body,
        (),
        main,
    );
    assert!(r.is_ok());
    assert!(g.functions.contains_key("second"));
    assert!(g.variables.contains_key("outer"));
    assert!(!g.variables.contains_key("a"));
    assert_eq!(g.current_function, Some(main));
    let ps = g.function_params.get("second").unwrap();
    assert_eq!(ps.len(), 2);
    assert!(same_type(&ps[1].1, &BrixType::Float));
    let ir = module.print_to_string().to_string();
    assert!(ir.contains("define double @second(i64 %0, double %1)"));
    assert!(ir.contains("%b = alloca double"));
    assert!(ir.contains("ret double"));
}

#[test]
fn void_functions_return_implicitly() {
    let ctx = Context::create();
    let module = ctx.create_module("m");
    let builder = ctx.create_builder();
    let main = with_main(&ctx, &module, &builder);
    let mut g: Gen = Compiler::new(&ctx, &builder, &module, String::new(), String::new());
    let r = g.compile_function_def(&mut Tiny, "noop", &[], vec![], &None, &St::Nothing, (), main);
    assert!(r.is_ok());
    let ir = module.print_to_string().to_string();
    assert!(ir.contains("define void @noop()"));
    assert!(ir.contains("ret void"));
}

#[test]
fn generic_functions_wait_for_instantiation() {
    let ctx = Context::create();
    let module = ctx.create_module("m");
    let builder = ctx.create_builder();
    let main = with_main(&ctx, &module, &builder);
    let mut g: Gen = Compiler::new(&ctx, &builder, &module, String::new(), String::new());
    let tps = [TypeParam { name: "T".to_string() }];
    let r = g.compile_function_def(&mut Tiny, "id", &tps, vec![param("x", "T")], &None, &St::Nothing, (), main);
    assert!(r.is_ok());
    assert!(g.generic_functions.contains_key("id"));
    assert!(!g.functions.contains_key("id"));
    assert!(!module.print_to_string().to_string().contains("@id"));
}

#[test]
fn several_return_values_make_a_tuple() {
    let ctx = Context::create();
    let module = ctx.create_module("m");
    let builder = ctx.create_builder();
    let main = with_main(&ctx, &module, &builder);
    let mut g: Gen = Compiler::new(&ctx, &builder, &module, String::new(), String::new());
    let body = St::Ret(vec![Ex::Int(1), Ex::Float(2.5)]);
    let rets = Some(vec!["int".to_string(), "float".to_string()]);
    assert!(g.compile_function_def(&mut Tiny, "two", &[], vec![], &rets, &body, (), main).is_ok());
    let ir = module.print_to_string().to_string();
    assert!(ir.contains("define { i64, double } @two()"));
    assert!(ir.contains("ret { i64, double } { i64 1, double 2.500000e+00 }"));
}

#[test]
fn methods_take_the_receiver_pointer_first() {
    let ctx = Context::create();
    let module = ctx.create_module("m");
    let builder = ctx.create_builder();
    let main = with_main(&ctx, &module, &builder);
    let mut g: Gen = Compiler::new(&ctx, &builder, &module, String::new(), String::new());
    assert!(g.compile_struct_def("Point", &[], vec![param("x", "float"), param("y", "float")], ()).is_ok());
    let body = St::Ret(vec![Ex::Var("k")]);
    let r = g.compile_method_def(&mut Tiny, "p", "Point", "scale", &[param("k", "float")], &Some(vec!["float".to_string()]), &body, (), main);
    assert!(r.is_ok());
    assert!(g.functions.contains_key("Point_scale"));
    let ir = module.print_to_string().to_string();
    assert!(ir.contains("define double @Point_scale(i8* %0, double %1)"));
}

#[test]
fn methods_of_unknown_receivers_are_refused() {
    let ctx = Context::create();
    let module = ctx.create_module("m");
    let builder = ctx.create_builder();
    let main = with_main(&ctx, &module, &builder);
    let mut g: Gen = Compiler::new(&ctx, &builder, &module, String::new(), String::new());
    let r = g.compile_method_def(&mut Tiny, "p", "Ghost", "m", &[], &None, &St::Nothing, (), main);
    match r {
        Err(CodegenError::TypeError { expected: Found::Text(expected), found: Found::Type(t), context }) => {
            assert_eq!(expected, "Struct type");
            assert!(same_type(&t, &BrixType::Int));
            assert_eq!(context, "method receiver");
        },
        _ => panic!("expected a type error"),
    }
}

#[test]
fn methods_of_generic_structs_are_kept() {
    let ctx = Context::create();
    let module = ctx.create_module("m");
    let builder = ctx.create_builder();
    let main = with_main(&ctx, &module, &builder);
    let mut g: Gen = Compiler::new(&ctx, &builder, &module, String::new(), String::new());
    let tps = [TypeParam { name: "T".to_string() }];
    assert!(g.compile_struct_def("Box", &tps, vec![param("v", "T")], ()).is_ok());
    assert!(g.compile_method_def(&mut Tiny, "b", "Box", "get", &[], &None, &St::Nothing, (), main).is_ok());
    assert!(g.compile_method_def(&mut Tiny, "b", "Box", "set", &[], &None, &St::Nothing, (), main).is_ok());
    assert_eq!(g.generic_methods.get("Box").map(|v| v.len()), Some(2));
}

#[test]
fn declarations_convert_by_their_hint() {
    let ctx = Context::create();
    let module = ctx.create_module("m");
    let builder = ctx.create_builder();
    let main = with_main(&ctx, &module, &builder);
    let mut g: Gen = Compiler::new(&ctx, &builder, &module, String::new(), String::new());
    g.current_function = Some(main);
    let five: BasicValueEnum = ctx.i64_type().const_int(5, false).into();
    assert!(g.compile_variable_decl_stmt("x", Some("float"), five, BrixType::Int, ExprForm::Literal).is_ok());
    let (_, t) = g.variables.get("x").unwrap();
    assert!(same_type(t, &BrixType::Float));
    assert!(g.compile_variable_decl_stmt("y", Some("int?"), five, BrixType::Int, ExprForm::Literal).is_ok());
    let (_, u) = g.variables.get("y").unwrap();
    assert!(same_type(u, &BrixType::Union(vec![BrixType::Int, BrixType::Nil])));
    let ir = module.print_to_string().to_string();
    assert!(ir.contains("%x = alloca double"));
    assert!(ir.contains("store double 5.000000e+00, double* %x"));
    assert!(ir.contains("%y = alloca { i64, i64 }"));
}

#[test]
fn declarations_refuse_mismatched_hints() {
    let ctx = Context::create();
    let module = ctx.create_module("m");
    let builder = ctx.create_builder();
    let main = with_main(&ctx, &module, &builder);
    let mut g: Gen = Compiler::new(&ctx, &builder, &module, String::new(), String::new());
    g.current_function = Some(main);
    let five: BasicValueEnum = ctx.i64_type().const_int(5, false).into();
    match g.compile_variable_decl_stmt("s", Some("string"), five, BrixType::Int, ExprForm::Literal) {
        Err(CodegenError::TypeError { expected: Found::Text(expected), found: Found::Type(t), context }) => {
            assert_eq!(expected, "String");
            assert!(same_type(&t, &BrixType::Int));
            assert_eq!(context, "Variable declaration 's'");
        },
        _ => panic!("expected a type error"),
    }
    match g.compile_variable_decl_stmt("w", Some("Widget"), five, BrixType::Int, ExprForm::Literal) {
        Err(CodegenError::TypeError { expected: Found::Text(expected), found: Found::Text(h), .. }) => {
            assert_eq!(expected, "Known type");
            assert_eq!(h, "Widget");
        },
        _ => panic!("expected a type error"),
    }
    match g.compile_variable_decl_stmt("u", Some("string | nil"), five, BrixType::Int, ExprForm::Literal) {
        Err(CodegenError::TypeError { expected: Found::Text(expected), .. }) => assert_eq!(expected, "string | nil"),
        _ => panic!("expected a type error"),
    }
    assert!(!g.variables.contains_key("s"));
}

#[test]
fn borrowed_strings_are_retained_and_tracked() {
    let ctx = Context::create();
    let module = ctx.create_module("m");
    let builder = ctx.create_builder();
    let main = with_main(&ctx, &module, &builder);
    let mut g: Gen = Compiler::new(&ctx, &builder, &module, String::new(), String::new());
    g.current_function = Some(main);
    let p = g.build_str_global("hi", "s").ok().unwrap();
    assert!(g.compile_variable_decl_stmt("t", None, p.into(), BrixType::String, ExprForm::Identifier).is_ok());
    assert_eq!(g.function_scope_vars.len(), 1);
    let ir = module.print_to_string().to_string();
    assert!(ir.contains("call i8* @string_retain"));
    assert!(ir.contains("t_old_release"));
    assert!(ir.contains("store i8* null, i8** %t"));
    assert!(ir.contains("call void @string_release"));
}

#[test]
fn destructuring_binds_each_named_field() {
    let ctx = Context::create();
    let module = ctx.create_module("m");
    let builder = ctx.create_builder();
    let _main = with_main(&ctx, &module, &builder);
    let mut g: Gen = Compiler::new(&ctx, &builder, &module, String::new(), String::new());
    let names = vec!["a".to_string(), "_".to_string()];
    assert!(g.compile_destructuring_decl_stmt(&mut Tiny, &names, &Ex::Pair(3, 0.5)).is_ok());
    assert!(g.variables.contains_key("a"));
    assert!(!g.variables.contains_key("_"));
    let three = vec!["a".to_string(), "b".to_string(), "c".to_string()];
    match g.compile_destructuring_decl_stmt(&mut Tiny, &three, &Ex::Pair(3, 0.5)) {
        Err(CodegenError::InvalidOperation { operation, reason }) => {
            assert_eq!(operation, "Destructuring");
            assert_eq!(reason, "Mismatch in number of values - expected 3 values, got 2");
        },
        _ => panic!("expected an arity error"),
    }
    assert!(matches!(
        g.compile_destructuring_decl_stmt(&mut Tiny, &names, &Ex::Int(1)),
        Err(CodegenError::TypeError { .. })
    ));
}

#[test]
fn struct_initializers_use_defaults_for_missing_fields() {
    let ctx = Context::create();
    let module = ctx.create_module("m");
    let builder = ctx.create_builder();
    let _main = with_main(&ctx, &module, &builder);
    let mut g: Gen = Compiler::new(&ctx, &builder, &module, String::new(), String::new());
    let fields = vec![
        param("x", "int"),
        Param { name: "y".to_string(), ty: "float".to_string(), default: Some(Ex::Float(1.5)) },
    ];
    assert!(g.compile_struct_def("P", &[], fields, ()).is_ok());
    let (v, t) = g.compile_struct_init(&mut Tiny, "P", &[], &[("x".to_string(), Ex::Int(4))]).ok().unwrap();
    assert!(same_type(&t, &BrixType::Struct("P".to_string())));
    let s = v.into_struct_value();
    assert_eq!(s.print_to_string().to_string(), "%P { i64 4, double 1.500000e+00 }");
    match g.compile_struct_init(&mut Tiny, "P", &[], &[("y".to_string(), Ex::Float(2.0))]) {
        Err(CodegenError::InvalidOperation { reason, .. }) => assert_eq!(reason, "field 'x' has no value and no default"),
        _ => panic!("expected a missing field"),
    }
    match g.compile_struct_init(&mut Tiny, "Q", &[], &[]) {
        Err(CodegenError::UndefinedSymbol { name, context }) => {
            assert_eq!(name, "Q");
            assert_eq!(context, "struct initialization");
        },
        _ => panic!("an undefined struct is refused"),
    }
}

#[test]
fn discarded_temporaries_are_released_after_expression_statements() {
    let ctx = Context::create();
    let module = ctx.create_module("m");
    let builder = ctx.create_builder();
    let _main = with_main(&ctx, &module, &builder);
    let mut g: Gen = Compiler::new(&ctx, &builder, &module, String::new(), String::new());
    assert!(g.compile_expr_stmt(&mut Tiny, &Ex::Text("tmp")).is_ok());
    assert!(g.compile_expr_stmt(&mut Tiny, &Ex::Int(3)).is_ok());
    let ir = module.print_to_string().to_string();
    assert_eq!(ir.matches("call void @string_release").count(), 1);
}

#[test]
fn assignment_releases_the_old_string_and_retains_the_new() {
    let ctx = Context::create();
    let module = ctx.create_module("m");
    let builder = ctx.create_builder();
    let main = with_main(&ctx, &module, &builder);
    let mut g: Gen = Compiler::new(&ctx, &builder, &module, String::new(), String::new());
    g.current_function = Some(main);
    let p = g.build_str_global("a", "a").ok().unwrap();
    assert!(g.compile_variable_decl_stmt("s", None, p.into(), BrixType::String, ExprForm::Literal).is_ok());
    assert!(g.compile_assignment_stmt(&mut Tiny, &Ex::Var("s"), &Ex::Text("b")).is_ok());
    let ir = module.print_to_string().to_string();
    assert!(ir.contains("%old_value = load i8*, i8** %s"));
    assert!(ir.contains("call i8* @string_retain"));
}

#[test]
fn assignment_wraps_values_of_union_targets() {
    let ctx = Context::create();
    let module = ctx.create_module("m");
    let builder = ctx.create_builder();
    let main = with_main(&ctx, &module, &builder);
    let mut g: Gen = Compiler::new(&ctx, &builder, &module, String::new(), String::new());
    g.current_function = Some(main);
    let five: BasicValueEnum = ctx.i64_type().const_int(5, false).into();
    assert!(g.compile_variable_decl_stmt("u", Some("float | nil"), five, BrixType::Int, ExprForm::Literal).is_ok());
    assert!(g.compile_assignment_stmt(&mut Tiny, &Ex::Var("u"), &Ex::Int(2)).is_ok());
    let ir = module.print_to_string().to_string();
    assert!(ir.contains("store { i64, double } { i64 0, double 2.000000e+00 }"));
    match g.compile_assignment_stmt(&mut Tiny, &Ex::Var("u"), &Ex::Text("no")) {
        Err(CodegenError::TypeError { expected: Found::Type(t), found: Found::Type(v), context }) => {
            assert!(same_type(&t, &BrixType::Union(vec![BrixType::Float, BrixType::Nil])));
            assert!(same_type(&v, &BrixType::String));
            assert_eq!(context, "Union assignment");
        },
        _ => panic!("expected a type error"),
    }
}

#[test]
fn assignment_converts_ints_for_float_targets() {
    let ctx = Context::create();
    let module = ctx.create_module("m");
    let builder = ctx.create_builder();
    let main = with_main(&ctx, &module, &builder);
    let mut g: Gen = Compiler::new(&ctx, &builder, &module, String::new(), String::new());
    g.current_function = Some(main);
    let x: BasicValueEnum = ctx.f64_type().const_float(1.0).into();
    assert!(g.compile_variable_decl_stmt("f", None, x, BrixType::Float, ExprForm::Literal).is_ok());
    assert!(g.compile_assignment_stmt(&mut Tiny, &Ex::Var("f"), &Ex::Int(7)).is_ok());
    let ir = module.print_to_string().to_string();
    assert!(ir.contains("store double 7.000000e+00, double* %f"));
}

#[test]
fn closures_capture_through_a_heap_environment() {
    let ctx = Context::create();
    let module = ctx.create_module("m");
    let builder = ctx.create_builder();
    let main = with_main(&ctx, &module, &builder);
    let mut g: Gen = Compiler::new(&ctx, &builder, &module, String::new(), String::new());
    g.current_function = Some(main);
    let one: BasicValueEnum = ctx.i64_type().const_int(1, false).into();
    assert!(g.compile_variable_decl_stmt("x", None, one, BrixType::Int, ExprForm::Literal).is_ok());
    let captured = vec!["x".to_string()];
    let params = vec![("y".to_string(), "int".to_string())];
    let body = St::Ret(vec![Ex::Var("x")]);
    let (v, t) = g.compile_closure(&mut Tiny, &captured, &params, Some("int"), &body).ok().unwrap();
    assert!(same_type(&t, &BrixType::Tuple(vec![BrixType::Int, BrixType::Int, BrixType::Int])));
    assert!(v.is_pointer_value());
    assert_eq!(g.closure_counter, 1);
    assert_eq!(g.current_function, Some(main));
    assert!(!g.variables.contains_key("y"));
    builder.build_return(Some(&ctx.i64_type().const_int(0, false))).unwrap();
    let ir = module.print_to_string().to_string();
    assert!(ir.contains("define i64 @__closure_0(i8* %0, i64 %1)"));
    assert!(ir.contains("%env_malloc = call i8* @brix_malloc"));
    assert!(ir.contains("%closure_malloc = call i8* @brix_malloc"));
    assert!(module.verify().is_ok());
}

#[test]
fn closures_without_captures_use_a_null_environment() {
    let ctx = Context::create();
    let module = ctx.create_module("m");
    let builder = ctx.create_builder();
    let main = with_main(&ctx, &module, &builder);
    let mut g: Gen = Compiler::new(&ctx, &builder, &module, String::new(), String::new());
    g.current_function = Some(main);
    assert!(g.compile_closure(&mut Tiny, &[], &[], None, &St::Nothing).is_ok());
    builder.build_return(Some(&ctx.i64_type().const_int(0, false))).unwrap();
    let ir = module.print_to_string().to_string();
    assert!(ir.contains("define void @__closure_0(i8* %0)"));
    assert!(!ir.contains("env_malloc"));
    assert!(ir.contains("i8* null"));
    assert!(module.verify().is_ok());
}

#[test]
fn destructuring_a_compiled_value_checks_its_type() {
    let ctx = Context::create();
    let module = ctx.create_module("m");
    let builder = ctx.create_builder();
    let main = with_main(&ctx, &module, &builder);
    let mut g: Gen = Compiler::new(&ctx, &builder, &module, String::new(), String::new());
    g.current_function = Some(main);
    let names = vec!["a".to_string(), "_".to_string()];
    let i = ctx.i64_type().const_int(3, false);
    let f = ctx.f64_type().const_float(0.5);
    let pair: BasicValueEnum = ctx.const_struct(&[i.into(), f.into()], false).into();
    let pair_type = BrixType::Tuple(vec![BrixType::Int, BrixType::Float]);
    assert!(g.destructure_value(&names, pair, &pair_type).is_ok());
    assert!(g.variables.get("a").is_some());
    assert!(g.variables.get("_").is_none());
    match g.destructure_value(&names, i.into(), &BrixType::Int) {
        Err(CodegenError::TypeError { context, .. }) => assert_eq!(context, "Destructuring declaration"),
        _ => panic!("expected a type error"),
    }
    let one = vec!["x".to_string()];
    match g.destructure_value(&one, pair, &pair_type) {
        Err(CodegenError::InvalidOperation { operation, .. }) => assert_eq!(operation, "Destructuring"),
        _ => panic!("expected an arity error"),
    }
}

#[test]
fn assigning_a_compiled_value_to_a_union_checks_its_member() {
    let ctx = Context::create();
    let module = ctx.create_module("m");
    let builder = ctx.create_builder();
    let main = with_main(&ctx, &module, &builder);
    let mut g: Gen = Compiler::new(&ctx, &builder, &module, String::new(), String::new());
    g.current_function = Some(main);
    let slot = builder.build_alloca(ctx.i64_type(), "x").unwrap();
    let v: BasicValueEnum = ctx.i64_type().const_int(5, false).into();
    let (r, calls) = g.assign_compiled(slot, &BrixType::Int, v, &BrixType::Int);
    assert!(r.is_ok());
    assert!(calls.is_empty());
    let union = BrixType::Union(vec![BrixType::Int, BrixType::String]);
    match g.assign_compiled(slot, &union, v, &BrixType::Float).0 {
        Err(CodegenError::TypeError { context, .. }) => assert_eq!(context, "Union assignment"),
        _ => panic!("expected a type error"),
    }
    builder.build_return(Some(&ctx.i64_type().const_int(0, false))).unwrap();
    assert!(module.print_to_string().to_string().contains("store i64 5"));
}
