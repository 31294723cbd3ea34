use inkwell::context::Context;
use inkwell::builder::Builder;
use inkwell::module::Module;
use inkwell::values::{FunctionValue, BasicValueEnum, PointerValue};
use codegen::compiler::{FunctionParts, StructParts, MethodParts, Compiler, CodegenError, Found, StatementCompiler};
use codegen::decl::ExprForm;
use codegen::generics::{TypeParam, Param};
use codegen::invoke::Callee;
use codegen::access::LvalueView;
use codegen::syntax::{StmtView, ExprView};
use codegen::types::{BrixType, same_type};
use codegen::strmap::StrMap;
use codegen::typeparse::resolve_type_text_within;

#[derive(Clone)]
enum Ex {
    Int(u64),
    Float(f64),
    Text(&'static str),
    Var(&'static str),
    Call(&'static str, Vec<Ex>),
    Member(&'static str, &'static str, Vec<Ex>),
    Expect(Box<Ex>, &'static str, Vec<Ex>),
    Generic(&'static str, Vec<String>, Vec<Ex>),
    Init(&'static str, Vec<String>, Vec<(String, Ex)>),
    Field(&'static str, &'static str),
}

#[derive(Clone)]
enum St {
    Expr(Ex),
    Ret(Vec<Ex>),
    Decl(&'static str, Option<&'static str>, Ex),
    Block(Vec<St>),
    Range(Vec<String>, Ex, Ex),
    Each(Vec<String>, Ex, Box<St>),
    Alias(&'static str, &'static str),
    Fn { name: &'static str, type_params: Vec<TypeParam>, params: Vec<Param<Ex>>, ret: Option<Vec<String>>, body: Box<St> },
    Struct { name: &'static str, type_params: Vec<TypeParam>, fields: Vec<Param<Ex>> },
    Method { receiver: &'static str, receiver_type: &'static str, name: &'static str, params: Vec<Param<Ex>>, ret: Option<Vec<String>>, body: Box<St> },
}

type Gen<'a, 'ctx> = Compiler<'a, 'ctx, Ex, St>;

struct Lang;

impl<'a, 'ctx> StatementCompiler<'a, 'ctx, Ex, St, St> for Lang {
    fn compile_stmt(&mut self, compiler: &mut Gen<'a, 'ctx>, stmt: &St, function: FunctionValue<'ctx>) -> Result<(), CodegenError> {
        let empty = St::Block(vec![]);
        let view = match stmt {
            St::Expr(e) => StmtView::Expr(e),
            St::Ret(vs) => StmtView::Return(vs),
            St::Decl(name, hint, value) => StmtView::VariableDecl { name, type_hint: *hint, value },
            St::Block(ss) => StmtView::Block(ss),
            St::Range(names, start, end) => StmtView::ForRange { var_names: names, start, end, step: None, body: &empty },
            St::Each(names, iterable, body) => StmtView::ForEach { var_names: names, iterable, body: &**body },
            St::Alias(name, definition) => StmtView::TypeAlias { name, definition },
            St::Fn { name, type_params, params, ret, body } => StmtView::FunctionDef {
                name,
                type_params,
                params: params.clone(),
                return_type: ret,
                body: &**body,
                def: stmt.clone(),
            },
            St::Struct { name, type_params, fields } => StmtView::StructDef {
                name,
                type_params,
                fields: fields.clone(),
                def: stmt.clone(),
            },
            St::Method { receiver, receiver_type, name, params, ret, body } => StmtView::MethodDef {
                receiver_name: receiver,
                receiver_type,
                method_name: name,
                params,
                return_type: ret,
                body: &**body,
                def: stmt.clone(),
            },
        };
        compiler.compile_stmt_view(self, view, function)
    }

    fn compile_expr(&mut self, compiler: &mut Gen<'a, 'ctx>, expr: &Ex) -> Result<(BasicValueEnum<'ctx>, BrixType), CodegenError> {
        let ctx = compiler.context;
        match expr {
            Ex::Int(n) => Ok((ctx.i64_type().const_int(*n, false).into(), BrixType::Int)),
            Ex::Float(x) => Ok((ctx.f64_type().const_float(*x).into(), BrixType::Float)),
            Ex::Text(s) => {
                let p = compiler.build_str_global(s, "lit")?;
                Ok((p.into(), BrixType::String))
            },
            Ex::Var(name) => compiler.compile_expr_view(self, ExprView::Identifier(name)),
            Ex::Call(name, args) => compiler.compile_expr_view(self, ExprView::Call {
                func: &Ex::Var(name),
                callee: Callee::Name(name),
                args,
                span_start: 0,
            }),
            Ex::Member(object, field, args) => compiler.compile_expr_view(self, ExprView::Call {
                func: &Ex::Field(object, field),
                callee: Callee::Member { object, field },
                args,
                span_start: 0,
            }),
            Ex::Expect(actual, matcher, args) => compiler.compile_expr_view(self, ExprView::Call {
                func: &Ex::Field("expect", matcher),
                callee: Callee::Expect { actual, negated: false, matcher },
                args,
                span_start: 0,
            }),
            Ex::Generic(name, type_args, args) => compiler.compile_expr_view(self, ExprView::GenericCall {
                name: Some(name),
                type_args,
                args,
            }),
            Ex::Init(name, type_args, fields) => compiler.compile_expr_view(self, ExprView::StructInit {
                name,
                type_args,
                fields,
            }),
            Ex::Field(object, field) => compiler.compile_expr_view(self, ExprView::FieldAccess {
                target: &Ex::Var(object),
                target_var: Some(object),
                field,
            }),
        }
    }

    fn compile_lvalue_addr(&mut self, compiler: &mut Gen<'a, 'ctx>, expr: &Ex) -> Result<(PointerValue<'ctx>, BrixType), CodegenError> {
        let view = match expr {
            Ex::Var(name) => LvalueView::Variable(name),
            _ => LvalueView::Other,
        };
        compiler.compile_lvalue_view(self, view)
    }

    fn expr_form(&self, expr: &Ex) -> ExprForm {
        match expr {
            Ex::Var(_) => ExprForm::Identifier,
            Ex::Int(_) | Ex::Float(_) | Ex::Text(_) => ExprForm::Literal,
            _ => ExprForm::Other,
        }
    }

    fn string_literal(&self, expr: &Ex) -> Option<String> {
        match expr {
            Ex::Text(s) => Some(s.to_string()),
            _ => None,
        }
    }

    fn function_parts(&self, def: &St) -> Option<FunctionParts<Ex, St>> {
        match def {
            St::Fn { type_params, params, ret, body, .. } => Some(FunctionParts {
                type_params: type_params.clone(),
                params: params.clone(),
                return_type: ret.clone(),
                body: (**body).clone(),
            }),
            _ => None,
        }
    }

    fn struct_parts(&self, def: &St) -> Option<StructParts<Ex>> {
        match def {
            St::Struct { type_params, fields, .. } => Some(StructParts {
                type_params: type_params.clone(),
                fields: fields.clone(),
            }),
            _ => None,
        }
    }

    fn method_parts(&self, def: &St) -> Option<MethodParts<Ex, St>> {
        match def {
            St::Method { receiver, name, params, ret, body, .. } => Some(MethodParts {
                receiver_name: receiver.to_string(),
                method_name: name.to_string(),
                params: params.clone(),
                return_type: ret.clone(),
                body: (**body).clone(),
            }),
            _ => None,
        }
    }
}

fn with_main<'ctx>(ctx: &'ctx Context, module: &Module<'ctx>, builder: &Builder<'ctx>) -> FunctionValue<'ctx> {
    let f = module.add_function("main", ctx.i64_type().fn_type(&[], false), None);
    let entry = ctx.append_basic_block(f, "entry");
    builder.position_at_end(entry);
    f
}

fn param(name: &str, ty: &str) -> Param<Ex> {
    Param { name: name.to_string(), ty: ty.to_string(), default: None }
}

fn tparam(name: &str) -> TypeParam {
    TypeParam { name: name.to_string() }
}

fn names(ns: &[&str]) -> Vec<String> {
    ns.iter().map(|n| n.to_string()).collect()
}

#[test]
fn a_range_loop_binds_its_variable_again_afterwards() {
    let ctx = Context::create();
    let module = ctx.create_module("m");
    let builder = ctx.create_builder();
    let main = with_main(&ctx, &module, &builder);
    let mut g: Gen = Compiler::new(&ctx, &builder, &module, String::new(), String::new());
    g.current_function = Some(main);
    g.compile_stmt_view(&mut Lang, StmtView::VariableDecl { name: "i", type_hint: None, value: &Ex::Float(2.5) }, main)
        .unwrap();
    let before = g.variables.get("i").map(|(slot, _)| *slot).unwrap();
    Lang.compile_stmt(&mut g, &St::Range(names(&["i"]), Ex::Int(1), Ex::Int(3)), main).unwrap();
    let (after, t) = g.variables.get("i").map(|(slot, t)| (*slot, t.copy())).unwrap();
    assert_eq!(before, after);
    assert!(same_type(&t, &BrixType::Float));
    Lang.compile_stmt(&mut g, &St::Range(names(&["k"]), Ex::Int(1), Ex::Int(3)), main).unwrap();
    assert!(!g.variables.contains_key("k"));
    let ir = module.print_to_string().to_string();
    assert!(ir.contains("for_cond"));
    assert!(ir.contains("icmp sle"));
}

#[test]
fn a_range_takes_exactly_one_variable() {
    let ctx = Context::create();
    let module = ctx.create_module("m");
    let builder = ctx.create_builder();
    let main = with_main(&ctx, &module, &builder);
    let mut g: Gen = Compiler::new(&ctx, &builder, &module, String::new(), String::new());
    g.current_function = Some(main);
    match Lang.compile_stmt(&mut g, &St::Range(names(&["a", "b"]), Ex::Int(1), Ex::Int(3)), main) {
        Err(CodegenError::InvalidOperation { operation, reason }) => {
            assert_eq!(operation, "Range iteration");
            assert_eq!(reason, "Range iteration supports only single variable");
        },
        _ => panic!("two variables cannot take a range"),
    }
}

#[test]
fn a_loop_over_an_array_takes_rows_apart_and_restores_the_names() {
    let ctx = Context::create();
    let module = ctx.create_module("m");
    let builder = ctx.create_builder();
    let main = with_main(&ctx, &module, &builder);
    let mut g: Gen = Compiler::new(&ctx, &builder, &module, String::new(), String::new());
    g.current_function = Some(main);
    let null = ctx.i8_type().ptr_type(inkwell::AddressSpace::default()).const_null();
    g.iterate_array(&mut Lang, &names(&["a", "b"]), null.into(), &BrixType::IntMatrix, &St::Block(vec![]), main).unwrap();
    assert!(!g.variables.contains_key("a"));
    assert!(!g.variables.contains_key("b"));
    let ir = module.print_to_string().to_string();
    assert!(ir.contains("arr_cond"));
    assert!(ir.contains("row_offset"));
}

#[test]
fn a_loop_over_a_number_is_refused() {
    let ctx = Context::create();
    let module = ctx.create_module("m");
    let builder = ctx.create_builder();
    let main = with_main(&ctx, &module, &builder);
    let mut g: Gen = Compiler::new(&ctx, &builder, &module, String::new(), String::new());
    g.current_function = Some(main);
    match Lang.compile_stmt(&mut g, &St::Each(names(&["x"]), Ex::Int(4), Box::new(St::Block(vec![]))), main) {
        Err(CodegenError::TypeError { expected: Found::Text(e), found: Found::Type(t), context }) => {
            assert_eq!(e, "Matrix or IntMatrix");
            assert!(same_type(&t, &BrixType::Int));
            assert_eq!(context, "For loop iterable");
        },
        _ => panic!("only arrays can be walked"),
    }
}

#[test]
fn module_functions_prefer_the_runtime_prefix_and_type_by_name() {
    let ctx = Context::create();
    let module = ctx.create_module("m");
    let builder = ctx.create_builder();
    let main = with_main(&ctx, &module, &builder);
    let f64_ty = ctx.f64_type();
    module.add_function("brix_sum", f64_ty.fn_type(&[f64_ty.into()], false), None);
    let ptr = ctx.i8_type().ptr_type(inkwell::AddressSpace::default());
    module.add_function("eye", ptr.fn_type(&[ctx.i64_type().into()], false), None);
    let mut g: Gen = Compiler::new(&ctx, &builder, &module, String::new(), String::new());
    g.current_function = Some(main);
    let (_, t) = Lang.compile_expr(&mut g, &Ex::Member("math", "sum", vec![Ex::Int(3)])).unwrap();
    assert!(same_type(&t, &BrixType::Float));
    let (_, t) = Lang.compile_expr(&mut g, &Ex::Member("math", "eye", vec![Ex::Int(3)])).unwrap();
    assert!(same_type(&t, &BrixType::Matrix));
    let ir = module.print_to_string().to_string();
    assert!(ir.contains("call double @brix_sum(double"));
    assert!(ir.contains("@eye(i64 3)"));
    match Lang.compile_expr(&mut g, &Ex::Member("math", "nothing", vec![])) {
        Err(CodegenError::MissingValue { what, context }) => {
            assert_eq!(what, "expression value");
            assert_eq!(context, "compile_expr");
        },
        _ => panic!("an unknown function has no value"),
    }
}

#[test]
fn methods_are_found_by_their_mangled_names() {
    let ctx = Context::create();
    let module = ctx.create_module("m");
    let builder = ctx.create_builder();
    let main = with_main(&ctx, &module, &builder);
    let mut g: Gen = Compiler::new(&ctx, &builder, &module, String::new(), String::new());
    g.current_function = Some(main);
    Lang.compile_stmt(&mut g, &St::Struct { name: "P", type_params: vec![], fields: vec![param("x", "float")] }, main)
        .unwrap();
    let p_ty = g.struct_types.get("P").copied().unwrap();
    let slot = builder.build_alloca(p_ty, "p").unwrap();
    g.variables.insert("p".to_string(), (slot, BrixType::Struct("P".to_string())));
    let ptr = ctx.i8_type().ptr_type(inkwell::AddressSpace::default());
    module.add_function("P_norm", ctx.f64_type().fn_type(&[ptr.into()], false), None);
    module.add_function("P_reset", ctx.void_type().fn_type(&[ptr.into()], false), None);
    let (_, t) = Lang.compile_expr(&mut g, &Ex::Member("p", "norm", vec![])).unwrap();
    assert!(same_type(&t, &BrixType::Float));
    let (_, t) = Lang.compile_expr(&mut g, &Ex::Member("p", "reset", vec![])).unwrap();
    assert!(same_type(&t, &BrixType::Void));
    match Lang.compile_expr(&mut g, &Ex::Member("p", "area", vec![])) {
        Err(CodegenError::UndefinedSymbol { name, context }) => {
            assert_eq!(name, "P.area");
            assert_eq!(context, "method call");
        },
        _ => panic!("a missing method is undefined"),
    }
}

#[test]
fn user_functions_take_defaults_and_refuse_surplus_arguments() {
    let ctx = Context::create();
    let module = ctx.create_module("m");
    let builder = ctx.create_builder();
    let main = with_main(&ctx, &module, &builder);
    let mut g: Gen = Compiler::new(&ctx, &builder, &module, String::new(), String::new());
    g.current_function = Some(main);
    let params = vec![
        param("a", "int"),
        Param { name: "b".to_string(), ty: "int".to_string(), default: Some(Ex::Int(7)) },
    ];
    let def = St::Fn {
        name: "add",
        type_params: vec![],
        params,
        ret: Some(vec!["int".to_string()]),
        body: Box::new(St::Ret(vec![Ex::Var("a")])),
    };
    Lang.compile_stmt(&mut g, &def, main).unwrap();
    let (_, t) = Lang.compile_expr(&mut g, &Ex::Call("add", vec![Ex::Int(1)])).unwrap();
    assert!(same_type(&t, &BrixType::Int));
    assert!(module.print_to_string().to_string().contains("call i64 @add(i64 1, i64 7)"));
    match Lang.compile_expr(&mut g, &Ex::Call("add", vec![Ex::Int(1), Ex::Int(2), Ex::Int(3)])) {
        Err(CodegenError::General { message }) => assert_eq!(message, "compilation error"),
        _ => panic!("too many arguments"),
    }
    match Lang.compile_expr(&mut g, &Ex::Call("add", vec![])) {
        Err(CodegenError::General { message }) => assert_eq!(message, "compilation error"),
        _ => panic!("a required argument is missing"),
    }
    match Lang.compile_expr(&mut g, &Ex::Call("nowhere", vec![])) {
        Err(CodegenError::MissingValue { what, .. }) => assert_eq!(what, "expression value"),
        _ => panic!("an unknown function has no value"),
    }
}

#[test]
fn fixed_functions_check_their_arguments() {
    let ctx = Context::create();
    let module = ctx.create_module("m");
    let builder = ctx.create_builder();
    let main = with_main(&ctx, &module, &builder);
    let mut g: Gen = Compiler::new(&ctx, &builder, &module, String::new(), String::new());
    g.current_function = Some(main);
    match Lang.compile_expr(&mut g, &Ex::Call("zeros", vec![Ex::Int(1), Ex::Int(2), Ex::Int(3)])) {
        Err(CodegenError::InvalidOperation { operation, reason }) => {
            assert_eq!(operation, "zeros()");
            assert_eq!(reason, "Expected 1 or 2 arguments, got 3");
        },
        _ => panic!("zeros takes one or two dimensions"),
    }
    match Lang.compile_expr(&mut g, &Ex::Call("matrix", vec![Ex::Int(1)])) {
        Err(CodegenError::General { message }) => assert_eq!(message, "matrix() constructor failed"),
        _ => panic!("matrix takes two dimensions"),
    }
    match Lang.compile_expr(&mut g, &Ex::Call("zip", vec![])) {
        Err(CodegenError::General { message }) => assert_eq!(message, "zip() call failed"),
        _ => panic!("zip takes two arrays"),
    }
    let (_, t) = Lang.compile_expr(&mut g, &Ex::Call("izeros", vec![Ex::Int(2), Ex::Int(3)])).unwrap();
    assert!(same_type(&t, &BrixType::IntMatrix));
    let (_, t) = Lang.compile_expr(&mut g, &Ex::Call("input", vec![Ex::Text("int")])).unwrap();
    assert!(same_type(&t, &BrixType::Int));
    let (_, t) = Lang.compile_expr(&mut g, &Ex::Call("input", vec![])).unwrap();
    assert!(same_type(&t, &BrixType::String));
    let (_, t) = Lang.compile_expr(&mut g, &Ex::Call("typeof", vec![Ex::Int(2)])).unwrap();
    assert!(same_type(&t, &BrixType::String));
}

#[test]
fn test_library_calls_are_recognised_first() {
    let ctx = Context::create();
    let module = ctx.create_module("m");
    let builder = ctx.create_builder();
    let main = with_main(&ctx, &module, &builder);
    let mut g: Gen = Compiler::new(&ctx, &builder, &module, "t.bx".to_string(), "x\n".to_string());
    g.current_function = Some(main);
    match Lang.compile_expr(&mut g, &Ex::Member("test", "describe", vec![Ex::Text("only a title")])) {
        Err(CodegenError::InvalidOperation { operation, .. }) => assert_eq!(operation, "test.describe"),
        _ => panic!("describe needs a title and a closure"),
    }
    let (_, t) = Lang.compile_expr(&mut g, &Ex::Expect(Box::new(Ex::Int(1)), "toBe", vec![Ex::Int(1)])).unwrap();
    assert!(same_type(&t, &BrixType::Nil));
    assert!(module.print_to_string().to_string().contains("test_expect_toBe_int"));
    let (_, t) = Lang.compile_expr(&mut g, &Ex::Member("test", "skipped", vec![])).unwrap();
    assert!(same_type(&t, &BrixType::Nil));
}

#[test]
fn generic_functions_are_instantiated_once_per_type_arguments() {
    let ctx = Context::create();
    let module = ctx.create_module("m");
    let builder = ctx.create_builder();
    let main = with_main(&ctx, &module, &builder);
    let mut g: Gen = Compiler::new(&ctx, &builder, &module, String::new(), String::new());
    g.current_function = Some(main);
    let def = St::Fn {
        name: "id",
        type_params: vec![tparam("T")],
        params: vec![param("x", "T")],
        ret: Some(vec!["T".to_string()]),
        body: Box::new(St::Ret(vec![Ex::Var("x")])),
    };
    Lang.compile_stmt(&mut g, &def, main).unwrap();
    assert!(g.generic_functions.contains_key("id"));
    assert!(module.get_function("id").is_none());
    let (_, t) = Lang.compile_expr(&mut g, &Ex::Call("id", vec![Ex::Int(4)])).unwrap();
    assert!(same_type(&t, &BrixType::Int));
    assert!(module.get_function("id_int").is_some());
    let (_, t) = Lang.compile_expr(&mut g, &Ex::Generic("id", vec!["float".to_string()], vec![Ex::Float(2.0)])).unwrap();
    assert!(same_type(&t, &BrixType::Float));
    let first = g.monomorphize_function(&mut Lang, "id", &["int".to_string()], main).unwrap();
    let again = g.monomorphize_function(&mut Lang, "id", &["int".to_string()], main).unwrap();
    assert_eq!(first, "id_int");
    assert_eq!(again, "id_int");
    match g.monomorphize_function(&mut Lang, "id", &["int".to_string(), "int".to_string()], main) {
        Err(CodegenError::General { message }) => {
            assert_eq!(message, "Generic function 'id' expects 1 type arguments, got 2")
        },
        _ => panic!("the number of type arguments is checked"),
    }
    match g.monomorphize_function(&mut Lang, "nope", &[], main) {
        Err(CodegenError::UndefinedSymbol { name, context }) => {
            assert_eq!(name, "nope");
            assert_eq!(context, "generic function call");
        },
        _ => panic!("an unknown generic is undefined"),
    }
}

#[test]
fn generic_structs_are_laid_out_per_instance() {
    let ctx = Context::create();
    let module = ctx.create_module("m");
    let builder = ctx.create_builder();
    let main = with_main(&ctx, &module, &builder);
    let mut g: Gen = Compiler::new(&ctx, &builder, &module, String::new(), String::new());
    g.current_function = Some(main);
    let def = St::Struct { name: "Box", type_params: vec![tparam("T")], fields: vec![param("v", "T")] };
    Lang.compile_stmt(&mut g, &def, main).unwrap();
    assert!(g.generic_structs.contains_key("Box"));
    let init = Ex::Init("Box", vec!["int".to_string()], vec![("v".to_string(), Ex::Int(1))]);
    let (_, t) = Lang.compile_expr(&mut g, &init).unwrap();
    assert!(same_type(&t, &BrixType::Struct("Box_int".to_string())));
    assert!(g.struct_defs.contains_key("Box_int"));
    match g.monomorphize_struct(&mut Lang, "Crate", &["int".to_string()]) {
        Err(CodegenError::UndefinedSymbol { name, context }) => {
            assert_eq!(name, "Crate");
            assert_eq!(context, "generic struct instantiation");
        },
        _ => panic!("an unknown generic struct is undefined"),
    }
}

#[test]
fn aliases_register_and_a_cyclic_hint_is_refused() {
    let ctx = Context::create();
    let module = ctx.create_module("m");
    let builder = ctx.create_builder();
    let main = with_main(&ctx, &module, &builder);
    let mut g: Gen = Compiler::new(&ctx, &builder, &module, String::new(), String::new());
    g.current_function = Some(main);
    Lang.compile_stmt(&mut g, &St::Alias("Loop", "Loop | int"), main).unwrap();
    assert_eq!(g.type_aliases.get("Loop").unwrap(), "Loop | int");
    match Lang.compile_stmt(&mut g, &St::Decl("x", Some("Loop"), Ex::Int(1)), main) {
        Err(CodegenError::General { message }) => assert_eq!(message, "Type 'Loop | int' does not resolve"),
        _ => panic!("an alias defined through itself does not resolve"),
    }
    Lang.compile_stmt(&mut g, &St::Decl("y", Some("int | float"), Ex::Int(1)), main).unwrap();
    let t = g.variables.get("y").map(|(_, t)| t.copy()).unwrap();
    assert!(same_type(&t, &BrixType::Union(vec![BrixType::Int, BrixType::Float])));
}

#[test]
fn type_texts_resolve_within_a_bound() {
    let aliases: StrMap<String> = StrMap::new();
    let structs: StrMap<()> = StrMap::new();
    let t = resolve_type_text_within(&aliases, &structs, "int?", 2).unwrap();
    assert!(same_type(&t, &BrixType::Union(vec![BrixType::Int, BrixType::Nil])));
    assert!(resolve_type_text_within(&aliases, &structs, "int?", 1).is_none());
    assert!(resolve_type_text_within(&aliases, &structs, "int", 0).is_none());
}

#[test]
fn a_variable_holding_a_closure_is_called_through_its_function_pointer() {
    let ctx = Context::create();
    let module = ctx.create_module("m");
    let builder = ctx.create_builder();
    let main = with_main(&ctx, &module, &builder);
    let mut g: Gen = Compiler::new(&ctx, &builder, &module, String::new(), String::new());
    g.current_function = Some(main);
    let params = vec![("y".to_string(), "int".to_string())];
    let body = St::Ret(vec![Ex::Var("y")]);
    let (v, t) = g.compile_closure(&mut Lang, &[], &params, Some("int"), &body).ok().unwrap();
    let slot = builder.build_alloca(v.get_type(), "f").unwrap();
    builder.build_store(slot, v).unwrap();
    g.variables.insert("f".to_string(), (slot, t));
    let (r, rt) = Lang.compile_expr(&mut g, &Ex::Call("f", vec![Ex::Int(5)])).unwrap();
    assert!(same_type(&rt, &BrixType::Int));
    assert!(r.is_int_value());
    builder.build_return(Some(&ctx.i64_type().const_int(0, false))).unwrap();
    let ir = module.print_to_string().to_string();
    assert!(ir.contains("%closure_call = call i64 %fn_ptr_typed(i8* %env_ptr6, i64 5)"), "{}", ir);
    assert!(module.verify().is_ok(), "{}", ir);
}

#[test]
fn assignment_targets_are_variables_or_array_elements() {
    let ctx = Context::create();
    let module = ctx.create_module("m");
    let builder = ctx.create_builder();
    let main = with_main(&ctx, &module, &builder);
    let mut g: Gen = Compiler::new(&ctx, &builder, &module, String::new(), String::new());
    g.current_function = Some(main);
    match Lang.compile_lvalue_addr(&mut g, &Ex::Var("ghost")) {
        Err(CodegenError::UndefinedSymbol { name, context }) => {
            assert_eq!(name, "ghost");
            assert_eq!(context, "Assignment target");
        },
        _ => panic!("an unknown variable cannot be assigned"),
    }
    match Lang.compile_lvalue_addr(&mut g, &Ex::Int(3)) {
        Err(CodegenError::InvalidOperation { operation, reason }) => {
            assert_eq!(operation, "Assignment");
            assert_eq!(reason, "Invalid expression for the left side of an assignment");
        },
        _ => panic!("a literal cannot be assigned"),
    }
    let null = ctx.i8_type().ptr_type(inkwell::AddressSpace::default()).const_null();
    let (p, t) = g.element_place(&mut Lang, null.into(), &BrixType::IntMatrix, &[Ex::Int(1), Ex::Int(2)]).unwrap();
    assert!(same_type(&t, &BrixType::Int));
    assert!(p.get_type().print_to_string().to_string().contains("i64*"));
    match g.element_place(&mut Lang, null.into(), &BrixType::Matrix, &[]) {
        Err(CodegenError::InvalidOperation { operation, reason }) => {
            assert_eq!(operation, "Matrix indexing");
            assert_eq!(reason, "Invalid number of indices: 0");
        },
        _ => panic!("an element takes one or two indices"),
    }
    match g.element_place(&mut Lang, null.into(), &BrixType::String, &[Ex::Int(0)]) {
        Err(CodegenError::TypeError { expected: Found::Text(x), context, .. }) => {
            assert_eq!(x, "Matrix or IntMatrix");
            assert_eq!(context, "Index assignment target");
        },
        _ => panic!("only arrays have elements to assign"),
    }
}

#[test]
fn methods_of_a_generic_struct_are_instantiated_with_it() {
    let ctx = Context::create();
    let module = ctx.create_module("m");
    let builder = ctx.create_builder();
    let main = with_main(&ctx, &module, &builder);
    let mut g: Gen = Compiler::new(&ctx, &builder, &module, String::new(), String::new());
    g.current_function = Some(main);
    let def = St::Struct { name: "Box", type_params: vec![tparam("T")], fields: vec![param("v", "T")] };
    Lang.compile_stmt(&mut g, &def, main).unwrap();
    let method = St::Method {
        receiver: "b",
        receiver_type: "Box",
        name: "get",
        params: vec![],
        ret: Some(vec!["T".to_string()]),
        body: Box::new(St::Ret(vec![Ex::Field("b", "v")])),
    };
    Lang.compile_stmt(&mut g, &method, main).unwrap();
    assert!(module.get_function("Box_get").is_none());
    assert_eq!(g.generic_methods.get("Box").map(|ms| ms.len()), Some(1));
    let name = g.monomorphize_struct(&mut Lang, "Box", &["float".to_string()]).unwrap();
    assert_eq!(name, "Box_float");
    let get = module.get_function("Box_float_get").unwrap();
    assert!(get.get_type().print_to_string().to_string().starts_with("double (i8*)"));
    assert_eq!(g.current_function, Some(main));
}

#[test]
fn generic_calls_need_a_name_and_a_function() {
    let ctx = Context::create();
    let module = ctx.create_module("m");
    let builder = ctx.create_builder();
    let _main = with_main(&ctx, &module, &builder);
    let mut g: Gen = Compiler::new(&ctx, &builder, &module, String::new(), String::new());
    match g.compile_generic_call(&mut Lang, None, &[], &[]) {
        Err(CodegenError::General { message }) => {
            assert_eq!(message, "Generic calls only supported on identifiers (e.g., swap<int, float>)")
        },
        _ => panic!("the callee must be a name"),
    }
    match g.compile_generic_call(&mut Lang, Some("id"), &["int".to_string()], &[]) {
        Err(CodegenError::General { message }) => assert_eq!(message, "Generic call outside function context"),
        _ => panic!("no function is being compiled"),
    }
}

#[test]
fn an_inferred_instance_promotes_int_arguments_of_float_parameters() {
    let ctx = Context::create();
    let module = ctx.create_module("m");
    let builder = ctx.create_builder();
    let main = with_main(&ctx, &module, &builder);
    let mut g: Gen = Compiler::new(&ctx, &builder, &module, String::new(), String::new());
    g.current_function = Some(main);
    let def = St::Fn {
        name: "first",
        type_params: vec![tparam("T")],
        params: vec![param("a", "T"), param("b", "T")],
        ret: Some(vec!["T".to_string()]),
        body: Box::new(St::Ret(vec![Ex::Var("a")])),
    };
    Lang.compile_stmt(&mut g, &def, main).unwrap();
    let (_, t) = Lang.compile_expr(&mut g, &Ex::Call("first", vec![Ex::Int(1), Ex::Float(2.5)])).unwrap();
    assert!(same_type(&t, &BrixType::Float));
    let ir = module.print_to_string().to_string();
    assert!(module.get_function("first_float").is_some());
    assert!(ir.contains("call double @first_float(double 1.000000e+00, double 2.500000e+00)"), "{}", ir);
}

#[test]
fn a_match_without_arms_has_no_value() {
    let ctx = Context::create();
    let module = ctx.create_module("m");
    let builder = ctx.create_builder();
    let main = with_main(&ctx, &module, &builder);
    let mut g: Gen = Compiler::new(&ctx, &builder, &module, String::new(), String::new());
    g.current_function = Some(main);
    match g.compile_expr_view(&mut Lang, ExprView::Match { value: &Ex::Int(1), arms: &[] }) {
        Err(CodegenError::MissingValue { what, context }) => {
            assert_eq!(what, "result type");
            assert_eq!(context, "match expression has no arms or no result type");
        },
        _ => panic!("a match without arms has no result"),
    }
}

#[test]
fn a_second_instantiation_adds_no_function() {
    let ctx = Context::create();
    let module = ctx.create_module("m");
    let builder = ctx.create_builder();
    let main = with_main(&ctx, &module, &builder);
    let mut g: Gen = Compiler::new(&ctx, &builder, &module, String::new(), String::new());
    g.current_function = Some(main);
    let def = St::Fn {
        name: "twice",
        type_params: vec![tparam("T")],
        params: vec![param("x", "T")],
        ret: Some(vec!["T".to_string()]),
        body: Box::new(St::Ret(vec![Ex::Var("x")])),
    };
    Lang.compile_stmt(&mut g, &def, main).unwrap();
    g.monomorphize_function(&mut Lang, "twice", &["float".to_string()], main).unwrap();
    let count = module.get_functions().count();
    let ir = module.print_to_string().to_string();
    assert_eq!(g.monomorphize_function(&mut Lang, "twice", &["float".to_string()], main).unwrap(), "twice_float");
    assert_eq!(module.get_functions().count(), count);
    assert_eq!(module.print_to_string().to_string(), ir);
}

#[test]
fn a_closure_capturing_an_unbound_name_is_refused() {
    let ctx = Context::create();
    let module = ctx.create_module("m");
    let builder = ctx.create_builder();
    let main = with_main(&ctx, &module, &builder);
    let mut g: Gen = Compiler::new(&ctx, &builder, &module, String::new(), String::new());
    g.current_function = Some(main);
    let body = St::Block(vec![]);
    match g.compile_closure(&mut Lang, &names(&["ghost_name"]), &[], None, &body) {
        Err(CodegenError::UndefinedSymbol { name, context }) => {
            assert_eq!(name, "ghost_name");
            assert_eq!(context, "closure captured variable");
        },
        _ => panic!("an unbound capture is undefined"),
    }
}
