use inkwell::context::Context;
use inkwell::builder::Builder;
use inkwell::module::Module;
use inkwell::values::{FunctionValue, BasicValueEnum};
use inkwell::types::BasicType;
use codegen::compiler::{FunctionParts, StructParts, MethodParts, Compiler, CodegenError, StatementCompiler};
use codegen::decl::ExprForm;
use codegen::generics::{TypeParam, Param};
use codegen::ops::{BinaryOp, IntPredicate};
use codegen::types::{BrixType, same_type};

type Gen<'a, 'ctx> = Compiler<'a, 'ctx, (), ()>;

fn start_main<'ctx>(ctx: &'ctx Context, module: &Module<'ctx>, builder: &Builder<'ctx>) -> FunctionValue<'ctx> {
    let f = module.add_function("main", ctx.i64_type().fn_type(&[], false), None);
    let entry = ctx.append_basic_block(f, "entry");
    builder.position_at_end(entry);
    f
}

fn int_const(v: Option<BasicValueEnum>) -> Option<u64> {
    v.and_then(|x| x.into_int_value().get_zero_extended_constant())
}

#[test]
fn a_new_generator_is_empty() {
    let ctx = Context::create();
    let module = ctx.create_module("m");
    let builder = ctx.create_builder();
    let g: Gen = Compiler::new(&ctx, &builder, &module, "a.bx".to_string(), "x := 1".to_string());
    assert_eq!(g.closure_counter, 0);
    assert!(g.function_scope_vars.is_empty());
    assert!(g.current_function.is_none());
    assert!(!g.variables.contains_key("x"));
    assert_eq!(g.filename, "a.bx");
    assert_eq!(g.source, "x := 1");
}

#[test]
fn print_temporaries() {
    assert!(!Gen::is_print_temp(&BrixType::String, ExprForm::Identifier));
    assert!(!Gen::is_print_temp(&BrixType::String, ExprForm::FieldAccess));
    assert!(Gen::is_print_temp(&BrixType::String, ExprForm::Literal));
    assert!(Gen::is_print_temp(&BrixType::Int, ExprForm::Identifier));
}

#[test]
fn type_texts_use_aliases_and_structs() {
    let ctx = Context::create();
    let module = ctx.create_module("m");
    let builder = ctx.create_builder();
    let mut g: Gen = Compiler::new(&ctx, &builder, &module, String::new(), String::new());
    g.register_type_alias("Score".to_string(), "float?".to_string());
    assert!(same_type(&g.string_to_brix_type("Score"), &BrixType::Union(vec![BrixType::Float, BrixType::Nil])));
    assert!(same_type(&g.string_to_brix_type("Point"), &BrixType::Int));
    let fields = vec![
        Param { name: "x".to_string(), ty: "float".to_string(), default: None },
        Param { name: "y".to_string(), ty: "Score".to_string(), default: None },
    ];
    assert!(g.compile_struct_def("Point", &[], fields, ()).is_ok());
    assert!(same_type(&g.string_to_brix_type("Point"), &BrixType::Struct("Point".to_string())));
    let defs = g.struct_defs.get("Point").unwrap();
    assert_eq!(defs.len(), 2);
    assert_eq!(defs[0].0, "x");
    assert!(same_type(&defs[0].1, &BrixType::Float));
    assert!(same_type(&defs[1].1, &BrixType::Union(vec![BrixType::Float, BrixType::Nil])));
    assert!(g.struct_types.contains_key("Point"));
}

#[test]
fn generic_structs_are_kept_for_later() {
    let ctx = Context::create();
    let module = ctx.create_module("m");
    let builder = ctx.create_builder();
    let mut g: Gen = Compiler::new(&ctx, &builder, &module, String::new(), String::new());
    let fields = vec![Param { name: "v".to_string(), ty: "T".to_string(), default: None }];
    assert!(g.compile_struct_def("Box", &[TypeParam { name: "T".to_string() }], fields, ()).is_ok());
    assert!(g.generic_structs.contains_key("Box"));
    assert!(!g.struct_defs.contains_key("Box"));
    assert!(!g.struct_types.contains_key("Box"));
}

#[test]
fn llvm_types_of_brix_types() {
    let ctx = Context::create();
    let module = ctx.create_module("m");
    let builder = ctx.create_builder();
    let mut g: Gen = Compiler::new(&ctx, &builder, &module, String::new(), String::new());
    let show = |t: inkwell::types::BasicTypeEnum| t.print_to_string().to_string();
    assert_eq!(show(g.brix_type_to_llvm(&BrixType::Int)), "i64");
    assert_eq!(show(g.brix_type_to_llvm(&BrixType::Atom)), "i64");
    assert_eq!(show(g.brix_type_to_llvm(&BrixType::Float)), "double");
    assert_eq!(show(g.brix_type_to_llvm(&BrixType::String)), "i8*");
    assert_eq!(show(g.brix_type_to_llvm(&BrixType::Complex)), "{ double, double }");
    let tuple = BrixType::Tuple(vec![BrixType::Int, BrixType::Float]);
    assert_eq!(show(g.brix_type_to_llvm(&tuple)), "{ i64, double }");
    let union = BrixType::Union(vec![BrixType::Float, BrixType::Int]);
    assert_eq!(show(g.brix_type_to_llvm(&union)), "{ i64, double }");
    let fields = vec![
        Param { name: "a".to_string(), ty: "int".to_string(), default: None },
        Param { name: "b".to_string(), ty: "string".to_string(), default: None },
    ];
    assert!(g.compile_struct_def("Pair", &[], fields, ()).is_ok());
    assert_eq!(show(g.brix_type_to_llvm(&BrixType::Struct("Pair".to_string()))), "%Pair = type { i64, i8* }");
    let both = BrixType::Intersection(vec![BrixType::Struct("Pair".to_string()), BrixType::Float]);
    assert_eq!(show(g.brix_type_to_llvm(&both)), "{ i64, i8*, double }");
}

#[test]
fn integer_operations_compute_the_right_values() {
    let ctx = Context::create();
    let module = ctx.create_module("m");
    let builder = ctx.create_builder();
    start_main(&ctx, &module, &builder);
    let g: Gen = Compiler::new(&ctx, &builder, &module, String::new(), String::new());
    let i64t = ctx.i64_type();
    let seven = i64t.const_int(7, false);
    let three = i64t.const_int(3, false);
    assert_eq!(int_const(g.compile_int_op(BinaryOp::Add, seven, three).0), Some(10));
    assert_eq!(int_const(g.compile_int_op(BinaryOp::Sub, seven, three).0), Some(4));
    assert_eq!(int_const(g.compile_int_op(BinaryOp::Mul, seven, three).0), Some(21));
    assert_eq!(int_const(g.compile_int_op(BinaryOp::BitAnd, seven, three).0), Some(3));
    assert_eq!(int_const(g.compile_int_op(BinaryOp::BitXor, seven, three).0), Some(4));
    assert_eq!(int_const(g.compile_int_op(BinaryOp::Lt, seven, three).0), Some(0));
    assert_eq!(int_const(g.compile_int_op(BinaryOp::GtEq, seven, three).0), Some(1));
    assert!(g.compile_int_op(BinaryOp::LogicalAnd, seven, three).0.is_none());
    assert_eq!(int_const(g.compile_cmp(IntPredicate::NE, seven, seven).0), Some(0));
}

#[test]
fn division_checks_the_divisor_first() {
    let ctx = Context::create();
    let module = ctx.create_module("m");
    let builder = ctx.create_builder();
    start_main(&ctx, &module, &builder);
    let g: Gen = Compiler::new(&ctx, &builder, &module, String::new(), String::new());
    let i64t = ctx.i64_type();
    let q = g.compile_int_op(BinaryOp::Div, i64t.const_int(7, false), i64t.const_int(2, false)).0;
    assert_eq!(int_const(q), Some(3));
    let r = g.compile_int_op(BinaryOp::Mod, i64t.const_int(7, false), i64t.const_int(2, false)).0;
    assert_eq!(int_const(r), Some(1));
    let ir = module.print_to_string().to_string();
    assert!(ir.contains("declare void @brix_division_by_zero_error()"));
    assert!(ir.contains("div_zero_error:"));
    assert!(ir.contains("mod_ok:"));
    assert!(ir.contains("unreachable"));
}

#[test]
fn integer_power_goes_through_the_float_intrinsic() {
    let ctx = Context::create();
    let module = ctx.create_module("m");
    let builder = ctx.create_builder();
    start_main(&ctx, &module, &builder);
    let g: Gen = Compiler::new(&ctx, &builder, &module, String::new(), String::new());
    let i64t = ctx.i64_type();
    assert!(g.compile_int_op(BinaryOp::Pow, i64t.const_int(2, false), i64t.const_int(10, false)).0.is_some());
    let ir = module.print_to_string().to_string();
    assert!(ir.contains("@llvm.pow.f64"));
    assert!(ir.contains("fptosi"));
}

#[test]
fn float_operations_compute_the_right_values() {
    let ctx = Context::create();
    let module = ctx.create_module("m");
    let builder = ctx.create_builder();
    start_main(&ctx, &module, &builder);
    let g: Gen = Compiler::new(&ctx, &builder, &module, String::new(), String::new());
    let f64t = ctx.f64_type();
    let a = f64t.const_float(1.5);
    let b = f64t.const_float(2.25);
    let sum = g.compile_float_op(BinaryOp::Add, a, b).0.unwrap();
    assert_eq!(sum.into_float_value().get_constant(), Some((3.75, false)));
    let diff = g.compile_float_op(BinaryOp::Sub, b, a).0.unwrap();
    assert_eq!(diff.into_float_value().get_constant(), Some((0.75, false)));
    assert_eq!(int_const(g.compile_float_op(BinaryOp::Lt, a, b).0), Some(1));
    assert!(g.compile_float_op(BinaryOp::BitOr, a, b).0.is_none());
}

#[test]
fn runtime_layouts() {
    let ctx = Context::create();
    let module = ctx.create_module("m");
    let builder = ctx.create_builder();
    let g: Gen = Compiler::new(&ctx, &builder, &module, String::new(), String::new());
    assert_eq!(g.get_matrix_type().print_to_string().to_string(), "{ i64, i64, i64, i8* }");
    assert_eq!(g.get_intmatrix_type().print_to_string().to_string(), "{ i64, i64, i64, i8* }");
    assert_eq!(g.get_string_type().print_to_string().to_string(), "{ i64, i64, i8* }");
}

#[test]
fn retain_calls_the_runtime_for_heap_values_only() {
    let ctx = Context::create();
    let module = ctx.create_module("m");
    let builder = ctx.create_builder();
    start_main(&ctx, &module, &builder);
    let g: Gen = Compiler::new(&ctx, &builder, &module, String::new(), String::new());
    let n: BasicValueEnum = ctx.i64_type().const_int(5, false).into();
    let same = g.insert_retain(n, &BrixType::Int).0.ok().unwrap();
    assert_eq!(same, n);
    let s = g.build_str_global("hi", "greeting").ok().unwrap();
    assert!(g.insert_retain(s.into(), &BrixType::String).0.is_ok());
    assert!(g.insert_release(s, &BrixType::Matrix).0.is_ok());
    assert!(g.insert_release(s, &BrixType::Float).0.is_ok());
    let ir = module.print_to_string().to_string();
    assert!(ir.contains("declare i8* @string_retain(i8*)"));
    assert!(ir.contains("declare void @matrix_release(i8*)"));
    assert!(!ir.contains("float_release"));
    assert!(ir.contains("c\"hi\\00\""));
}

#[test]
fn closures_are_retained_and_released() {
    let ctx = Context::create();
    let module = ctx.create_module("m");
    let builder = ctx.create_builder();
    start_main(&ctx, &module, &builder);
    let g: Gen = Compiler::new(&ctx, &builder, &module, String::new(), String::new());
    let p = g.build_str_global("", "env").ok().unwrap();
    assert!(g.closure_retain(p).is_ok());
    assert!(g.closure_release(p).is_ok());
    let ir = module.print_to_string().to_string();
    assert!(ir.contains("declare i8* @closure_retain(i8*)"));
    assert!(ir.contains("declare void @closure_release(i8*)"));
}

#[test]
fn a_builder_without_position_fails_to_build_strings() {
    let ctx = Context::create();
    let module = ctx.create_module("m");
    let builder = ctx.create_builder();
    let g: Gen = Compiler::new(&ctx, &builder, &module, String::new(), String::new());
    match g.build_str_global("x", "name") {
        Err(CodegenError::LLVMError { operation, details }) => {
            assert_eq!(operation, "build_global_string_ptr");
            assert_eq!(details, "Failed to create string constant 'name'");
        },
        _ => panic!("expected an LLVM error"),
    }
}

#[test]
fn scope_variables_are_tracked_once_and_released() {
    let ctx = Context::create();
    let module = ctx.create_module("m");
    let builder = ctx.create_builder();
    start_main(&ctx, &module, &builder);
    let mut g: Gen = Compiler::new(&ctx, &builder, &module, String::new(), String::new());
    let ptr_t = ctx.i8_type().ptr_type(inkwell::AddressSpace::default());
    let slot_s = builder.build_alloca(ptr_t, "s").unwrap();
    let slot_n = builder.build_alloca(ctx.i64_type(), "n").unwrap();
    g.bind_variable("s", slot_s, BrixType::String);
    g.bind_variable("n", slot_n, BrixType::Int);
    g.bind_variable("s", slot_s, BrixType::String);
    assert_eq!(g.function_scope_vars.len(), 1);
    assert_eq!(g.function_scope_vars[0].0, "s");
    assert!(g.variables.contains_key("n"));
    assert!(g.release_function_scope_vars().0.is_ok());
    let ir = module.print_to_string().to_string();
    assert!(ir.contains("s_release_load"));
    assert_eq!(ir.matches("call void @string_release").count(), 1);
}

#[test]
fn closure_names_count_up() {
    let ctx = Context::create();
    let module = ctx.create_module("m");
    let builder = ctx.create_builder();
    let mut g: Gen = Compiler::new(&ctx, &builder, &module, String::new(), String::new());
    assert_eq!(g.next_closure_name(), "__closure_0");
    assert_eq!(g.next_closure_name(), "__closure_1");
    assert_eq!(g.closure_counter, 2);
}

#[test]
fn test_matchers_are_declared_once() {
    let ctx = Context::create();
    let module = ctx.create_module("m");
    let builder = ctx.create_builder();
    let g: Gen = Compiler::new(&ctx, &builder, &module, String::new(), String::new());
    let params = vec![ctx.i64_type().as_basic_type_enum(), ctx.i64_type().as_basic_type_enum()];
    let f1 = g.declare_test_matcher_void("test_expect_toBe_int", &params);
    let f2 = g.declare_test_matcher_void("test_expect_toBe_int", &params);
    assert_eq!(f1.function(), f2.function());
    let ir = module.print_to_string().to_string();
    assert!(ir.contains("declare void @test_expect_toBe_int(i64, i64)"));
}

struct Counting {
    seen: usize,
}

impl<'a, 'ctx> StatementCompiler<'a, 'ctx, (), (), i64> for Counting {
    fn compile_stmt(
        &mut self,
        compiler: &mut Compiler<'a, 'ctx, (), ()>,
        stmt: &i64,
        _function: FunctionValue<'ctx>,
    ) -> Result<(), CodegenError> {
        self.seen += 1;
        if *stmt < 0 {
            return Err(CodegenError::MissingValue { what: "value".to_string(), context: "test".to_string() });
        }
        let name = compiler.next_closure_name();
        let _ = name;
        Ok(())
    }

    fn compile_expr(
        &mut self,
        compiler: &mut Compiler<'a, 'ctx, (), ()>,
        _expr: &(),
    ) -> Result<(BasicValueEnum<'ctx>, BrixType), CodegenError> {
        Ok((compiler.context.i64_type().const_int(1, false).into(), BrixType::Int))
    }

    fn compile_lvalue_addr(
        &mut self,
        _compiler: &mut Compiler<'a, 'ctx, (), ()>,
        _expr: &(),
    ) -> Result<(inkwell::values::PointerValue<'ctx>, BrixType), CodegenError> {
        Err(CodegenError::MissingValue { what: "lvalue".to_string(), context: "test".to_string() })
    }

    fn string_literal(&self, _expr: &()) -> Option<String> {
        None
    }

    fn function_parts(&self, _def: &()) -> Option<FunctionParts<(), i64>> {
        None
    }

    fn struct_parts(&self, _def: &()) -> Option<StructParts<()>> {
        None
    }

    fn method_parts(&self, _def: &()) -> Option<MethodParts<(), i64>> {
        None
    }

    fn expr_form(&self, _expr: &()) -> ExprForm {
        ExprForm::Other
    }
}

#[test]
fn a_program_becomes_main_returning_zero() {
    let ctx = Context::create();
    let module = ctx.create_module("m");
    let builder = ctx.create_builder();
    let mut g: Gen = Compiler::new(&ctx, &builder, &module, String::new(), String::new());
    let mut sc = Counting { seen: 0 };
    assert!(g.compile_program(&[1, 2, 3], &mut sc).is_ok());
    assert_eq!(sc.seen, 3);
    assert_eq!(g.closure_counter, 3);
    assert!(g.current_function.is_some());
    let ir = module.print_to_string().to_string();
    assert!(ir.contains("define i64 @main()"));
    assert!(ir.contains("ret i64 0"));
    assert!(module.verify().is_ok());
}

#[test]
fn a_failing_statement_stops_compilation() {
    let ctx = Context::create();
    let module = ctx.create_module("m");
    let builder = ctx.create_builder();
    let mut g: Gen = Compiler::new(&ctx, &builder, &module, String::new(), String::new());
    let mut sc = Counting { seen: 0 };
    let r = g.compile_program(&[1, -1, 3], &mut sc);
    assert!(matches!(r, Err(CodegenError::MissingValue { .. })));
    assert_eq!(sc.seen, 2);
}

#[test]
fn a_declared_function_is_called_by_its_printed_type() {
    let ctx = Context::create();
    let module = ctx.create_module("m");
    let builder = ctx.create_builder();
    start_main(&ctx, &module, &builder);
    let g: Gen = Compiler::new(&ctx, &builder, &module, String::new(), String::new());
    let ext = module.add_function("ext", ctx.f64_type().fn_type(&[ctx.i64_type().into()], false), None);
    let arg: BasicValueEnum = ctx.i64_type().const_int(2, false).into();
    let c = g.declared_callable("ext", ext, &[arg]).expect("a double-returning function is callable");
    assert_eq!(c.function(), ext);
    let pair = ctx.struct_type(&[ctx.i64_type().into(), ctx.i64_type().into()], false);
    let odd = module.add_function("odd", pair.fn_type(&[], false), None);
    assert!(g.declared_callable("odd", odd, &[]).is_none());
}
