use inkwell::context::Context;
use inkwell::values::BasicValueEnum;
use codegen::compiler::{Compiler, CodegenError, Found};
use codegen::patterns::{Pattern, PatternLiteral};
use codegen::types::{BrixType, same_type};

type Gen<'a, 'ctx> = Compiler<'a, 'ctx, (), ()>;

#[test]
fn wildcards_and_bindings_always_match() {
    let ctx = Context::create();
    let module = ctx.create_module("m");
    let builder = ctx.create_builder();
    let g: Gen = Compiler::new(&ctx, &builder, &module, String::new(), String::new());
    let v: BasicValueEnum = ctx.i64_type().const_int(3, false).into();
    let m = g.compile_pattern_match(&Pattern::Wildcard, v, &BrixType::Int).0.unwrap();
    assert_eq!(m.get_zero_extended_constant(), Some(1));
    let m = g.compile_pattern_match(&Pattern::Binding("x".to_string()), v, &BrixType::String).0.unwrap();
    assert_eq!(m.get_zero_extended_constant(), Some(1));
    assert_eq!(m.get_type().get_bit_width(), 1);
}

#[test]
fn literals_compare_with_values_of_their_type() {
    let ctx = Context::create();
    let module = ctx.create_module("m");
    let builder = ctx.create_builder();
    let f = module.add_function("main", ctx.i64_type().fn_type(&[], false), None);
    builder.position_at_end(ctx.append_basic_block(f, "entry"));
    let g: Gen = Compiler::new(&ctx, &builder, &module, String::new(), String::new());
    let i: BasicValueEnum = ctx.i64_type().const_int(3, false).into();
    let x: BasicValueEnum = ctx.f64_type().const_float(2.0).into();
    let p: BasicValueEnum = g.build_str_global("s", "s").unwrap().into();
    let three = g.compile_pattern_match(&Pattern::Literal(PatternLiteral::Int(3)), i, &BrixType::Int).0.unwrap();
    assert_eq!(three.get_zero_extended_constant(), Some(1));
    let four = g.compile_pattern_match(&Pattern::Literal(PatternLiteral::Int(4)), i, &BrixType::Int).0.unwrap();
    assert_eq!(four.get_zero_extended_constant(), Some(0));
    let yes = g.compile_pattern_match(&Pattern::Literal(PatternLiteral::Bool(true)), i, &BrixType::Int).0.unwrap();
    assert_eq!(yes.get_zero_extended_constant(), Some(0));
    let two = ctx.f64_type().const_float(2.0);
    assert!(g.compile_pattern_match(&Pattern::Literal(PatternLiteral::Float(two)), x, &BrixType::Float).0.is_ok());
    assert!(g.compile_pattern_match(&Pattern::Literal(PatternLiteral::String("s".to_string())), p, &BrixType::String).0.is_ok());
    let atom: BasicValueEnum = ctx.i64_type().const_int(9, false).into();
    assert!(g.compile_pattern_match(&Pattern::Literal(PatternLiteral::Atom("ok".to_string())), atom, &BrixType::Atom).0.is_ok());
    let ir = module.print_to_string().to_string();
    assert!(ir.contains("@str_eq"));
    assert!(ir.contains("@atom_intern"));
    assert!(ir.contains("c\"ok\\00\""));
}

#[test]
fn an_or_pattern_is_the_disjunction_of_its_alternatives() {
    let ctx = Context::create();
    let module = ctx.create_module("m");
    let builder = ctx.create_builder();
    let f = module.add_function("main", ctx.i64_type().fn_type(&[], false), None);
    builder.position_at_end(ctx.append_basic_block(f, "entry"));
    let g: Gen = Compiler::new(&ctx, &builder, &module, String::new(), String::new());
    let i: BasicValueEnum = ctx.i64_type().const_int(2, false).into();
    let alts = |a: i64, b: i64| Pattern::Or(vec![Pattern::Literal(PatternLiteral::Int(a)), Pattern::Literal(PatternLiteral::Int(b))]);
    let hit = g.compile_pattern_match(&alts(1, 2), i, &BrixType::Int).0.unwrap();
    assert_eq!(hit.get_zero_extended_constant(), Some(1));
    let miss = g.compile_pattern_match(&alts(5, 6), i, &BrixType::Int).0.unwrap();
    assert_eq!(miss.get_zero_extended_constant(), Some(0));
    let none = g.compile_pattern_match(&Pattern::Or(vec![]), i, &BrixType::Int).0.unwrap();
    assert_eq!(none.get_zero_extended_constant(), Some(0));
}

#[test]
fn a_literal_of_another_type_is_a_type_error() {
    let ctx = Context::create();
    let module = ctx.create_module("m");
    let builder = ctx.create_builder();
    let g: Gen = Compiler::new(&ctx, &builder, &module, String::new(), String::new());
    let x: BasicValueEnum = ctx.f64_type().const_float(1.0).into();
    match g.compile_pattern_match(&Pattern::Literal(PatternLiteral::Int(1)), x, &BrixType::Float).0 {
        Err(CodegenError::TypeError { expected: Found::Type(t), found: Found::Text(k), context }) => {
            assert!(same_type(&t, &BrixType::Float));
            assert_eq!(k, "Int");
            assert_eq!(context, "Pattern literal type mismatch");
        },
        _ => panic!("an int literal does not match a float"),
    }
    let f = module.add_function("main", ctx.i64_type().fn_type(&[], false), None);
    builder.position_at_end(ctx.append_basic_block(f, "entry"));
    let nested = Pattern::Or(vec![Pattern::Wildcard, Pattern::Literal(PatternLiteral::String("a".to_string()))]);
    assert!(matches!(g.compile_pattern_match(&nested, x, &BrixType::Float).0, Err(CodegenError::TypeError { .. })));
}
