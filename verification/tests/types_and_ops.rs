use codegen::types::{BrixType, are_types_compatible, is_ref_counted, is_closure_type, is_nil_comparable, nil_member_index, same_type};
use codegen::ops::{
    BinaryOp, BinaryPlan, BinaryError, UnaryOp, UnaryPlan, IntLowering, IntPredicate, FloatLowering, FloatPredicate,
    MatrixFamily, NilCheck, ElvisValue, ComplexOperand, PowExponent, plan_binary, plan_unary, int_lowering,
    float_lowering, matrix_fn_name, complex_fn_name, complex_pow_name,
};

#[test]
fn int_and_float_are_compatible_both_ways() {
    assert!(are_types_compatible(&BrixType::Int, &BrixType::Float));
    assert!(are_types_compatible(&BrixType::Float, &BrixType::Int));
    assert!(are_types_compatible(&BrixType::String, &BrixType::String));
    assert!(!are_types_compatible(&BrixType::String, &BrixType::Int));
    assert!(!are_types_compatible(&BrixType::Matrix, &BrixType::IntMatrix));
}

#[test]
fn reference_counted_types_are_the_heap_types() {
    assert!(is_ref_counted(&BrixType::String));
    assert!(is_ref_counted(&BrixType::Matrix));
    assert!(is_ref_counted(&BrixType::IntMatrix));
    assert!(is_ref_counted(&BrixType::ComplexMatrix));
    assert!(!is_ref_counted(&BrixType::Int));
    assert!(!is_ref_counted(&BrixType::Complex));
    assert!(!is_ref_counted(&BrixType::Nil));
}

#[test]
fn closures_are_triples_of_ints() {
    let c = BrixType::Tuple(vec![BrixType::Int, BrixType::Int, BrixType::Int]);
    assert!(is_closure_type(&c));
    let t = BrixType::Tuple(vec![BrixType::Int, BrixType::Float, BrixType::Int]);
    assert!(!is_closure_type(&t));
    assert!(!is_closure_type(&BrixType::Int));
}

#[test]
fn nil_comparable_pointer_types() {
    assert!(is_nil_comparable(&BrixType::String));
    assert!(is_nil_comparable(&BrixType::Error));
    assert!(!is_nil_comparable(&BrixType::Int));
}

#[test]
fn nil_member_is_found_first() {
    let ms = vec![BrixType::Int, BrixType::Nil, BrixType::Nil];
    assert_eq!(nil_member_index(&ms), Some(1));
    assert_eq!(nil_member_index(&vec![BrixType::Int, BrixType::Float]), None);
}

#[test]
fn same_type_compares_structurally() {
    let a = BrixType::Union(vec![BrixType::Int, BrixType::Struct("P".to_string())]);
    let b = BrixType::Union(vec![BrixType::Int, BrixType::Struct("P".to_string())]);
    let c = BrixType::Union(vec![BrixType::Int, BrixType::Struct("Q".to_string())]);
    assert!(same_type(&a, &b));
    assert!(!same_type(&a, &c));
    assert!(same_type(&a.copy(), &a));
}

#[test]
fn int_operators_lower_to_integer_instructions() {
    assert_eq!(int_lowering(BinaryOp::Add), Some(IntLowering::Add));
    assert_eq!(int_lowering(BinaryOp::Div), Some(IntLowering::CheckedSignedDiv));
    assert_eq!(int_lowering(BinaryOp::Mod), Some(IntLowering::CheckedSignedRem));
    assert_eq!(int_lowering(BinaryOp::Lt), Some(IntLowering::Compare(IntPredicate::SLT)));
    assert_eq!(int_lowering(BinaryOp::Pow), Some(IntLowering::PowViaFloat));
    assert_eq!(int_lowering(BinaryOp::LogicalAnd), None);
}

#[test]
fn float_operators_have_no_bitwise_form() {
    assert_eq!(float_lowering(BinaryOp::Mod), Some(FloatLowering::Rem));
    assert_eq!(float_lowering(BinaryOp::NotEq), Some(FloatLowering::Compare(FloatPredicate::ONE)));
    assert_eq!(float_lowering(BinaryOp::BitAnd), None);
    assert_eq!(float_lowering(BinaryOp::BitXor), None);
}

#[test]
fn plain_integer_arithmetic() {
    let p = plan_binary(BinaryOp::Add, &BrixType::Int, &BrixType::Int);
    assert_eq!(p, Ok(BinaryPlan::IntArith { int_lowering: IntLowering::Add }));
}

#[test]
fn mixed_numbers_promote_to_float() {
    let p = plan_binary(BinaryOp::Mul, &BrixType::Int, &BrixType::Float);
    assert_eq!(p, Ok(BinaryPlan::FloatArith { float_lowering: FloatLowering::Mul, int_lhs: true, int_rhs: false }));
    let q = plan_binary(BinaryOp::Gt, &BrixType::Float, &BrixType::Int);
    assert_eq!(q, Ok(BinaryPlan::FloatArith {
        float_lowering: FloatLowering::Compare(FloatPredicate::OGT),
        int_lhs: false,
        int_rhs: true,
    }));
}

#[test]
fn bitwise_on_floats_is_refused() {
    let p = plan_binary(BinaryOp::BitAnd, &BrixType::Float, &BrixType::Float);
    assert_eq!(p, Err(BinaryError::UnsupportedFloatOperator));
}

#[test]
fn logic_on_ints_is_short_circuit() {
    assert_eq!(plan_binary(BinaryOp::LogicalAnd, &BrixType::Int, &BrixType::Int), Ok(BinaryPlan::ShortCircuitAnd));
    assert_eq!(plan_binary(BinaryOp::LogicalOr, &BrixType::Int, &BrixType::Int), Ok(BinaryPlan::ShortCircuitOr));
}

#[test]
fn strings_concatenate_and_compare_only() {
    assert_eq!(plan_binary(BinaryOp::Add, &BrixType::String, &BrixType::String), Ok(BinaryPlan::StringConcat));
    assert_eq!(plan_binary(BinaryOp::Eq, &BrixType::String, &BrixType::String), Ok(BinaryPlan::StringEq));
    assert_eq!(plan_binary(BinaryOp::Sub, &BrixType::String, &BrixType::String), Err(BinaryError::StringOperator));
}

#[test]
fn non_numeric_operands_are_refused() {
    assert_eq!(plan_binary(BinaryOp::Add, &BrixType::Atom, &BrixType::Int), Err(BinaryError::NonNumericOperands));
}

#[test]
fn matrix_scalar_arithmetic() {
    let p = plan_binary(BinaryOp::Add, &BrixType::Matrix, &BrixType::Int);
    assert_eq!(p, Ok(BinaryPlan::MatrixCall {
        family: MatrixFamily::MatrixScalar,
        op: BinaryOp::Add,
        promote_lhs: false,
        promote_rhs: false,
        swap_args: false,
        int_scalar: true,
    }));
    let q = plan_binary(BinaryOp::Mul, &BrixType::Float, &BrixType::Matrix);
    assert_eq!(q, Ok(BinaryPlan::MatrixCall {
        family: MatrixFamily::MatrixScalar,
        op: BinaryOp::Mul,
        promote_lhs: false,
        promote_rhs: false,
        swap_args: true,
        int_scalar: false,
    }));
    let r = plan_binary(BinaryOp::Sub, &BrixType::Float, &BrixType::Matrix);
    assert_eq!(r, Ok(BinaryPlan::MatrixCall {
        family: MatrixFamily::ScalarMatrix,
        op: BinaryOp::Sub,
        promote_lhs: false,
        promote_rhs: false,
        swap_args: false,
        int_scalar: false,
    }));
}

#[test]
fn scalar_left_of_matrix_refuses_modulo() {
    assert_eq!(plan_binary(BinaryOp::Mod, &BrixType::Float, &BrixType::Matrix), Err(BinaryError::ScalarMatrixOperator));
    assert_eq!(plan_binary(BinaryOp::Div, &BrixType::Int, &BrixType::IntMatrix), Err(BinaryError::ScalarIntMatrixOperator));
}

#[test]
fn intmatrix_with_float_is_promoted_to_matrix() {
    let p = plan_binary(BinaryOp::Add, &BrixType::IntMatrix, &BrixType::Float);
    assert_eq!(p, Ok(BinaryPlan::MatrixCall {
        family: MatrixFamily::MatrixScalar,
        op: BinaryOp::Add,
        promote_lhs: true,
        promote_rhs: false,
        swap_args: false,
        int_scalar: false,
    }));
}

#[test]
fn union_compared_with_nil_tests_the_tag() {
    let u = BrixType::Union(vec![BrixType::Int, BrixType::Nil]);
    let p = plan_binary(BinaryOp::Eq, &u, &BrixType::Nil);
    assert_eq!(p, Ok(BinaryPlan::UnionNilCompare { union_on_left: true, nil_index: 1, is_eq: true }));
}

#[test]
fn pointer_compared_with_nil_tests_null() {
    let p = plan_binary(BinaryOp::NotEq, &BrixType::Nil, &BrixType::String);
    assert_eq!(p, Ok(BinaryPlan::PointerNilCompare { nil_on_left: true, is_eq: false }));
}

#[test]
fn complex_arithmetic_and_literals() {
    assert_eq!(
        plan_binary(BinaryOp::Sub, &BrixType::Int, &BrixType::Complex),
        Ok(BinaryPlan::ComplexLiteral { int_real: true, negate_imag: true })
    );
    assert_eq!(
        plan_binary(BinaryOp::Pow, &BrixType::Complex, &BrixType::Int),
        Ok(BinaryPlan::ComplexPow { exponent: PowExponent::Int })
    );
    assert_eq!(
        plan_binary(BinaryOp::Mul, &BrixType::Complex, &BrixType::Float),
        Ok(BinaryPlan::ComplexCall { op: BinaryOp::Mul, lhs: ComplexOperand::Complex, rhs: ComplexOperand::FloatReal })
    );
    assert_eq!(plan_binary(BinaryOp::Lt, &BrixType::Complex, &BrixType::Complex), Err(BinaryError::ComplexOperator));
}

#[test]
fn elvis_on_optional_unwraps_the_value_member() {
    let u = BrixType::Union(vec![BrixType::Int, BrixType::Nil]);
    let p = plan_binary(BinaryOp::Elvis, &u, &BrixType::Int);
    assert_eq!(p, Ok(BinaryPlan::Elvis { check: NilCheck::UnionTag(1), value: ElvisValue::Member(0) }));
}

#[test]
fn unary_plans() {
    assert_eq!(plan_unary(UnaryOp::Not, &BrixType::Float), Some(UnaryPlan::Not { float_operand: true }));
    assert_eq!(plan_unary(UnaryOp::Negate, &BrixType::Int), Some(UnaryPlan::NegateInt));
    assert_eq!(plan_unary(UnaryOp::Negate, &BrixType::String), None);
}

#[test]
fn runtime_function_names_of_operators() {
    assert_eq!(matrix_fn_name(MatrixFamily::MatrixScalar, BinaryOp::Add), "matrix_add_scalar");
    assert_eq!(matrix_fn_name(MatrixFamily::ScalarIntMatrix, BinaryOp::Sub), "scalar_sub_intmatrix");
    assert_eq!(matrix_fn_name(MatrixFamily::IntMatrixIntMatrix, BinaryOp::Pow), "intmatrix_pow_intmatrix");
    assert_eq!(complex_fn_name(BinaryOp::Div), "complex_div");
    assert_eq!(complex_pow_name(PowExponent::Float), "complex_powf");
}
