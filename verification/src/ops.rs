//! Operators: how each binary and unary operator is lowered for the types
//! of its operands.

use vstd::prelude::*;
use crate::types::{BrixType, TypeModel, models_of, first_nil_index, nil_member_index, spec_is_ref_counted, spec_is_nil_comparable, is_ref_counted, is_nil_comparable, lemma_models_of};

verus! {

/// Binary operators of Brix.
#[derive(PartialEq, Eq, Structural, Clone, Copy, Debug)]
pub enum BinaryOp {
    Add,
    Sub,
    Mul,
    Div,
    Mod,
    Pow,
    Eq,
    NotEq,
    Lt,
    LtEq,
    Gt,
    GtEq,
    LogicalAnd,
    LogicalOr,
    BitAnd,
    BitOr,
    BitXor,
    Elvis,
}

/// Unary operators of Brix.
#[derive(PartialEq, Eq, Structural, Clone, Copy, Debug)]
pub enum UnaryOp {
    Not,
    Negate,
}

/// Integer comparison predicates (signed).
#[derive(PartialEq, Eq, Structural, Clone, Copy, Debug)]
pub enum IntPredicate {
    EQ,
    NE,
    SGT,
    SGE,
    SLT,
    SLE,
}

/// Ordered floating-point comparison predicates.
#[derive(PartialEq, Eq, Structural, Clone, Copy, Debug)]
pub enum FloatPredicate {
    OEQ,
    ONE,
    OGT,
    OGE,
    OLT,
    OLE,
}

/// The instruction sequence an integer operator becomes.
#[derive(PartialEq, Eq, Structural, Clone, Copy, Debug)]
pub enum IntLowering {
    Add,
    Sub,
    Mul,
    /// Signed division after a runtime check of the divisor against zero.
    CheckedSignedDiv,
    /// Signed remainder after a runtime check of the divisor against zero.
    CheckedSignedRem,
    /// Comparison, widened from `i1` to `i64`.
    Compare(IntPredicate),
    And,
    Or,
    Xor,
    /// Both operands to `f64`, `llvm.pow.f64`, back to `i64`.
    PowViaFloat,
}

/// The instruction sequence a floating-point operator becomes.
#[derive(PartialEq, Eq, Structural, Clone, Copy, Debug)]
pub enum FloatLowering {
    Add,
    Sub,
    Mul,
    Div,
    Rem,
    /// Comparison, widened from `i1` to `i64`.
    Compare(FloatPredicate),
    /// `llvm.pow.f64`.
    Pow,
}

pub open spec fn spec_int_lowering(op: BinaryOp) -> Option<IntLowering> {
    match op {
        BinaryOp::Add => Some(IntLowering::Add),
        BinaryOp::Sub => Some(IntLowering::Sub),
        BinaryOp::Mul => Some(IntLowering::Mul),
        BinaryOp::Div => Some(IntLowering::CheckedSignedDiv),
        BinaryOp::Mod => Some(IntLowering::CheckedSignedRem),
        BinaryOp::Gt => Some(IntLowering::Compare(IntPredicate::SGT)),
        BinaryOp::Lt => Some(IntLowering::Compare(IntPredicate::SLT)),
        BinaryOp::GtEq => Some(IntLowering::Compare(IntPredicate::SGE)),
        BinaryOp::LtEq => Some(IntLowering::Compare(IntPredicate::SLE)),
        BinaryOp::Eq => Some(IntLowering::Compare(IntPredicate::EQ)),
        BinaryOp::NotEq => Some(IntLowering::Compare(IntPredicate::NE)),
        BinaryOp::BitAnd => Some(IntLowering::And),
        BinaryOp::BitOr => Some(IntLowering::Or),
        BinaryOp::BitXor => Some(IntLowering::Xor),
        BinaryOp::Pow => Some(IntLowering::PowViaFloat),
        _ => None,
    }
}

pub open spec fn spec_float_lowering(op: BinaryOp) -> Option<FloatLowering> {
    match op {
        BinaryOp::Add => Some(FloatLowering::Add),
        BinaryOp::Sub => Some(FloatLowering::Sub),
        BinaryOp::Mul => Some(FloatLowering::Mul),
        BinaryOp::Div => Some(FloatLowering::Div),
        BinaryOp::Mod => Some(FloatLowering::Rem),
        BinaryOp::Gt => Some(FloatLowering::Compare(FloatPredicate::OGT)),
        BinaryOp::Lt => Some(FloatLowering::Compare(FloatPredicate::OLT)),
        BinaryOp::GtEq => Some(FloatLowering::Compare(FloatPredicate::OGE)),
        BinaryOp::LtEq => Some(FloatLowering::Compare(FloatPredicate::OLE)),
        BinaryOp::Eq => Some(FloatLowering::Compare(FloatPredicate::OEQ)),
        BinaryOp::NotEq => Some(FloatLowering::Compare(FloatPredicate::ONE)),
        BinaryOp::Pow => Some(FloatLowering::Pow),
        _ => None,
    }
}

/// How an operator on two `int` operands is lowered; `None` for operators
/// with no integer form.
pub fn int_lowering(op: BinaryOp) -> (r: Option<IntLowering>)
    ensures
        r == spec_int_lowering(op),
{
    match op {
        BinaryOp::Add => Some(IntLowering::Add),
        BinaryOp::Sub => Some(IntLowering::Sub),
        BinaryOp::Mul => Some(IntLowering::Mul),
        BinaryOp::Div => Some(IntLowering::CheckedSignedDiv),
        BinaryOp::Mod => Some(IntLowering::CheckedSignedRem),
        BinaryOp::Gt => Some(IntLowering::Compare(IntPredicate::SGT)),
        BinaryOp::Lt => Some(IntLowering::Compare(IntPredicate::SLT)),
        BinaryOp::GtEq => Some(IntLowering::Compare(IntPredicate::SGE)),
        BinaryOp::LtEq => Some(IntLowering::Compare(IntPredicate::SLE)),
        BinaryOp::Eq => Some(IntLowering::Compare(IntPredicate::EQ)),
        BinaryOp::NotEq => Some(IntLowering::Compare(IntPredicate::NE)),
        BinaryOp::BitAnd => Some(IntLowering::And),
        BinaryOp::BitOr => Some(IntLowering::Or),
        BinaryOp::BitXor => Some(IntLowering::Xor),
        BinaryOp::Pow => Some(IntLowering::PowViaFloat),
        _ => None,
    }
}

/// How an operator on two `float` operands is lowered; `None` for operators
/// with no floating-point form (the bitwise and logical ones, `?:`).
pub fn float_lowering(op: BinaryOp) -> (r: Option<FloatLowering>)
    ensures
        r == spec_float_lowering(op),
{
    match op {
        BinaryOp::Add => Some(FloatLowering::Add),
        BinaryOp::Sub => Some(FloatLowering::Sub),
        BinaryOp::Mul => Some(FloatLowering::Mul),
        BinaryOp::Div => Some(FloatLowering::Div),
        BinaryOp::Mod => Some(FloatLowering::Rem),
        BinaryOp::Gt => Some(FloatLowering::Compare(FloatPredicate::OGT)),
        BinaryOp::Lt => Some(FloatLowering::Compare(FloatPredicate::OLT)),
        BinaryOp::GtEq => Some(FloatLowering::Compare(FloatPredicate::OGE)),
        BinaryOp::LtEq => Some(FloatLowering::Compare(FloatPredicate::OLE)),
        BinaryOp::Eq => Some(FloatLowering::Compare(FloatPredicate::OEQ)),
        BinaryOp::NotEq => Some(FloatLowering::Compare(FloatPredicate::ONE)),
        BinaryOp::Pow => Some(FloatLowering::Pow),
        _ => None,
    }
}

pub open spec fn is_arith(op: BinaryOp) -> bool {
    op is Add || op is Sub || op is Mul || op is Div || op is Mod || op is Pow
}

pub open spec fn is_comparison(op: BinaryOp) -> bool {
    op is Gt || op is Lt || op is GtEq || op is LtEq || op is Eq || op is NotEq
}

/// How `lhs ?: rhs` tests its left operand for `nil`.
#[derive(PartialEq, Eq, Structural, Clone, Copy, Debug)]
pub enum NilCheck {
    /// The union's tag equals the index of its `nil` member.
    UnionTag(usize),
    /// The pointer is null.
    NullPointer,
    AlwaysNil,
    NeverNil,
}

/// The value `lhs ?: rhs` takes from a non-nil left operand.
#[derive(PartialEq, Eq, Structural, Clone, Copy, Debug)]
pub enum ElvisValue {
    /// The operand itself.
    Whole,
    /// The payload of a union, typed as the union's member at this index.
    Member(usize),
    /// The payload of a union all of whose members are `nil`.
    NilPayload,
}

/// The runtime function families for matrix arithmetic, named
/// `matrix_<op>_scalar`, `scalar_<op>_matrix`, `matrix_<op>_matrix`,
/// `intmatrix_<op>_scalar`, `scalar_<op>_intmatrix`, `intmatrix_<op>_intmatrix`.
#[derive(PartialEq, Eq, Structural, Clone, Copy, Debug)]
pub enum MatrixFamily {
    MatrixScalar,
    ScalarMatrix,
    MatrixMatrix,
    IntMatrixScalar,
    ScalarIntMatrix,
    IntMatrixIntMatrix,
}

/// How an operand enters complex arithmetic.
#[derive(PartialEq, Eq, Structural, Clone, Copy, Debug)]
pub enum ComplexOperand {
    /// Already complex.
    Complex,
    /// An integer, converted to `f64` and used as the real part.
    IntReal,
    /// A float, used as the real part.
    FloatReal,
}

/// The exponent kind of a complex power, selecting `complex_powi`,
/// `complex_powf` or `complex_pow`.
#[derive(PartialEq, Eq, Structural, Clone, Copy, Debug)]
pub enum PowExponent {
    Int,
    Float,
    Complex,
}

/// How a binary expression is compiled, given its operator and the types of
/// its operands.
#[derive(PartialEq, Eq, Structural, Clone, Copy, Debug)]
pub enum BinaryPlan {
    Elvis { check: NilCheck, value: ElvisValue },
    ShortCircuitAnd,
    ShortCircuitOr,
    /// A matrix runtime call; `promote_*` converts an `intmatrix` operand to
    /// `matrix` first, `swap_args` passes the right operand first, and
    /// `int_scalar` converts an integer scalar to `f64`.
    MatrixCall {
        family: MatrixFamily,
        op: BinaryOp,
        promote_lhs: bool,
        promote_rhs: bool,
        swap_args: bool,
        int_scalar: bool,
    },
    /// Compares the union's tag with the index of its `nil` member.
    UnionNilCompare { union_on_left: bool, nil_index: usize, is_eq: bool },
    /// Compares the non-nil operand's pointer with null.
    PointerNilCompare { nil_on_left: bool, is_eq: bool },
    /// `real ± imag·i` written as a number plus a complex literal.
    ComplexLiteral { int_real: bool, negate_imag: bool },
    ComplexPow { exponent: PowExponent },
    /// `complex_<op>` after bringing both operands to complex.
    ComplexCall { op: BinaryOp, lhs: ComplexOperand, rhs: ComplexOperand },
    StringConcat,
    StringEq,
    /// Floating-point operation; `int_*` converts an integer operand first.
    FloatArith { float_lowering: FloatLowering, int_lhs: bool, int_rhs: bool },
    IntArith { int_lowering: IntLowering },
}

/// Why a binary expression cannot be compiled.
#[derive(PartialEq, Eq, Structural, Clone, Copy, Debug)]
pub enum BinaryError {
    /// `%` or `**` with a scalar on the left of a `matrix`.
    ScalarMatrixOperator,
    /// `/`, `%` or `**` with a scalar on the left of an `intmatrix`.
    ScalarIntMatrixOperator,
    /// An operator complex numbers do not support.
    ComplexOperator,
    /// An operator strings do not support (only `+` and `==`).
    StringOperator,
    /// An operand that is neither `int` nor `float`.
    NonNumericOperands,
    /// An operator with no floating-point form.
    UnsupportedFloatOperator,
    /// An operator with no integer form.
    UnsupportedIntOperator,
}

pub open spec fn spec_elvis_check(l: TypeModel) -> NilCheck {
    match l {
        TypeModel::Union(ms) => match first_nil_index(ms) {
            Some(i) => NilCheck::UnionTag(i as usize),
            None => NilCheck::NeverNil,
        },
        _ => if spec_is_ref_counted(l) {
            NilCheck::NullPointer
        } else if l is Nil {
            NilCheck::AlwaysNil
        } else {
            NilCheck::NeverNil
        },
    }
}

/// Index of the first member that is not `nil`.
pub open spec fn first_non_nil_index(ms: Seq<TypeModel>) -> Option<int>
    decreases ms.len(),
{
    if ms.len() == 0 {
        None
    } else if !(ms[0] is Nil) {
        Some(0)
    } else {
        match first_non_nil_index(ms.drop_first()) {
            Some(i) => Some(i + 1),
            None => None,
        }
    }
}

pub open spec fn spec_elvis_value(l: TypeModel) -> ElvisValue {
    match l {
        TypeModel::Union(ms) => match first_non_nil_index(ms) {
            Some(i) => ElvisValue::Member(i as usize),
            None => ElvisValue::NilPayload,
        },
        _ => ElvisValue::Whole,
    }
}

/// Whether an arithmetic operator first promotes `intmatrix` operands.
pub open spec fn needs_promotion(l: TypeModel, r: TypeModel) -> bool {
    (l is IntMatrix && r is Float) || (l is Float && r is IntMatrix) || (l is IntMatrix && r is Matrix)
        || (l is Matrix && r is IntMatrix)
}

pub open spec fn promoted(t: TypeModel, promote: bool) -> TypeModel {
    if promote && t is IntMatrix {
        TypeModel::Matrix
    } else {
        t
    }
}

/// The matrix step of an arithmetic operator on (already promoted) operand
/// types: `None` when no matrix operand is involved.
pub open spec fn spec_matrix_step(op: BinaryOp, l: TypeModel, r: TypeModel, pl: bool, pr: bool) -> Option<
    Result<BinaryPlan, BinaryError>,
> {
    let mk = |family: MatrixFamily, swap: bool, int_scalar: bool|
        Some(
            Ok(
                BinaryPlan::MatrixCall {
                    family,
                    op,
                    promote_lhs: pl,
                    promote_rhs: pr,
                    swap_args: swap,
                    int_scalar,
                },
            ),
        );
    if l is Matrix && (r is Float || r is Int) {
        mk(MatrixFamily::MatrixScalar, false, r is Int)
    } else if (l is Float || l is Int) && r is Matrix {
        if op is Add || op is Mul {
            mk(MatrixFamily::MatrixScalar, true, l is Int)
        } else if op is Sub || op is Div {
            mk(MatrixFamily::ScalarMatrix, false, l is Int)
        } else {
            Some(Err(BinaryError::ScalarMatrixOperator))
        }
    } else if l is Matrix && r is Matrix {
        mk(MatrixFamily::MatrixMatrix, false, false)
    } else if l is IntMatrix && r is Int {
        mk(MatrixFamily::IntMatrixScalar, false, false)
    } else if l is Int && r is IntMatrix {
        if op is Add || op is Mul {
            mk(MatrixFamily::IntMatrixScalar, true, false)
        } else if op is Sub {
            mk(MatrixFamily::ScalarIntMatrix, false, false)
        } else {
            Some(Err(BinaryError::ScalarIntMatrixOperator))
        }
    } else if l is IntMatrix && r is IntMatrix {
        mk(MatrixFamily::IntMatrixIntMatrix, false, false)
    } else {
        None
    }
}

pub open spec fn complex_operand(t: TypeModel) -> ComplexOperand {
    if t is Complex {
        ComplexOperand::Complex
    } else if t is Int {
        ComplexOperand::IntReal
    } else {
        ComplexOperand::FloatReal
    }
}

/// The union-with-`nil` comparison step: the index of the `nil` member when
/// one operand is a union with a `nil` member and the other is `nil`.
pub open spec fn union_nil_step(l: TypeModel, r: TypeModel) -> Option<(bool, int)> {
    if l is Union && r is Nil {
        match first_nil_index(l->Union_0) {
            Some(i) => Some((true, i)),
            None => None,
        }
    } else if r is Union && l is Nil {
        match first_nil_index(r->Union_0) {
            Some(i) => Some((false, i)),
            None => None,
        }
    } else {
        None
    }
}

/// The plan for `lhs op rhs`, tried in order: `?:`, short-circuit logic,
/// matrix arithmetic (after promoting `intmatrix`), union and pointer
/// comparisons with `nil`, complex literals, complex arithmetic, strings,
/// then plain numbers.
pub open spec fn spec_plan_binary(op: BinaryOp, l: TypeModel, r: TypeModel) -> Result<BinaryPlan, BinaryError> {
    if op is Elvis {
        Ok(BinaryPlan::Elvis { check: spec_elvis_check(l), value: spec_elvis_value(l) })
    } else if op is LogicalAnd {
        Ok(BinaryPlan::ShortCircuitAnd)
    } else if op is LogicalOr {
        Ok(BinaryPlan::ShortCircuitOr)
    } else {
        let p = is_arith(op) && needs_promotion(l, r);
        let pl = p && l is IntMatrix;
        let pr = p && r is IntMatrix;
        let l2 = promoted(l, p);
        let r2 = promoted(r, p);
        let m = spec_matrix_step(op, l2, r2, pl, pr);
        if is_arith(op) && m is Some {
            m.unwrap()
        } else if (op is Eq || op is NotEq) && union_nil_step(l, r) is Some {
            let (left, i) = union_nil_step(l, r).unwrap();
            Ok(BinaryPlan::UnionNilCompare { union_on_left: left, nil_index: i as usize, is_eq: op is Eq })
        } else if (spec_is_nil_comparable(l) || spec_is_nil_comparable(r)) && (op is Eq || op is NotEq)
            && (l is Nil || r is Nil) {
            Ok(BinaryPlan::PointerNilCompare { nil_on_left: l is Nil, is_eq: op is Eq })
        } else if (l is Float || l is Int) && r is Complex && (op is Add || op is Sub) {
            Ok(BinaryPlan::ComplexLiteral { int_real: l is Int, negate_imag: op is Sub })
        } else if l is Complex || r is Complex {
            if op is Pow && l is Complex {
                Ok(
                    BinaryPlan::ComplexPow {
                        exponent: if r is Int {
                            PowExponent::Int
                        } else if r is Float {
                            PowExponent::Float
                        } else {
                            PowExponent::Complex
                        },
                    },
                )
            } else if op is Add || op is Sub || op is Mul || op is Div || op is Pow {
                Ok(BinaryPlan::ComplexCall { op, lhs: complex_operand(l), rhs: complex_operand(r) })
            } else {
                Err(BinaryError::ComplexOperator)
            }
        } else if l is String && r is String {
            if op is Add {
                Ok(BinaryPlan::StringConcat)
            } else if op is Eq {
                Ok(BinaryPlan::StringEq)
            } else {
                Err(BinaryError::StringOperator)
            }
        } else if !((l is Int || l is Float) && (r is Int || r is Float)) {
            Err(BinaryError::NonNumericOperands)
        } else if l is Float || r is Float {
            match spec_float_lowering(op) {
                Some(lw) => Ok(BinaryPlan::FloatArith { float_lowering: lw, int_lhs: l is Int, int_rhs: r is Int }),
                None => Err(BinaryError::UnsupportedFloatOperator),
            }
        } else {
            match spec_int_lowering(op) {
                Some(lw) => Ok(BinaryPlan::IntArith { int_lowering: lw }),
                None => Err(BinaryError::UnsupportedIntOperator),
            }
        }
    }
}

/// The type of the value a successful plan produces (for `?:`, the type of
/// the chosen value of the left operand).
pub open spec fn spec_plan_result(plan: BinaryPlan, l: TypeModel) -> TypeModel {
    match plan {
        BinaryPlan::Elvis { value, .. } => match value {
            ElvisValue::Whole => l,
            ElvisValue::Member(i) => l->Union_0[i as int],
            ElvisValue::NilPayload => TypeModel::Nil,
        },
        BinaryPlan::MatrixCall { family, .. } => match family {
            MatrixFamily::MatrixScalar | MatrixFamily::ScalarMatrix | MatrixFamily::MatrixMatrix => TypeModel::Matrix,
            _ => TypeModel::IntMatrix,
        },
        BinaryPlan::ComplexLiteral { .. } | BinaryPlan::ComplexPow { .. } | BinaryPlan::ComplexCall { .. } => TypeModel::Complex,
        BinaryPlan::StringConcat => TypeModel::String,
        BinaryPlan::FloatArith { float_lowering, .. } => if float_lowering is Compare {
            TypeModel::Int
        } else {
            TypeModel::Float
        },
        _ => TypeModel::Int,
    }
}

fn first_non_nil(ts: &Vec<BrixType>) -> (r: Option<usize>)
    ensures
        r matches Some(i) ==> first_non_nil_index(models_of(ts@)) == Some(i as int),
        r is None ==> first_non_nil_index(models_of(ts@)) is None,
{
    proof {
        lemma_models_of(ts@);
    }
    let mut i: usize = 0;
    while i < ts.len()
        invariant
            i <= ts@.len(),
            forall|j: int| 0 <= j < i ==> #[trigger] models_of(ts@)[j] is Nil,
        decreases ts@.len() - i,
    {
        if !matches!(ts[i], BrixType::Nil) {
            proof {
                lemma_first_non_nil(models_of(ts@), i as int);
            }
            return Some(i);
        }
        i = i + 1;
    }
    proof {
        lemma_first_non_nil(models_of(ts@), ts@.len() as int);
    }
    None
}

pub proof fn lemma_first_non_nil(ms: Seq<TypeModel>, k: int)
    requires
        0 <= k <= ms.len(),
        forall|j: int| 0 <= j < k ==> #[trigger] ms[j] is Nil,
    ensures
        k < ms.len() && !(ms[k] is Nil) ==> first_non_nil_index(ms) == Some(k),
        k == ms.len() ==> first_non_nil_index(ms) is None,
    decreases k,
{
    if k > 0 {
        let rest = ms.drop_first();
        assert forall|j: int| 0 <= j < k - 1 implies #[trigger] rest[j] is Nil by {
            assert(rest[j] == ms[j + 1]);
        }
        lemma_first_non_nil(rest, k - 1);
    }
}

fn elvis_check(l: &BrixType) -> (r: NilCheck)
    ensures
        r == spec_elvis_check(l@),
{
    match l {
        BrixType::Union(ms) => match nil_member_index(ms) {
            Some(i) => NilCheck::UnionTag(i),
            None => NilCheck::NeverNil,
        },
        _ => if is_ref_counted(l) {
            NilCheck::NullPointer
        } else if matches!(l, BrixType::Nil) {
            NilCheck::AlwaysNil
        } else {
            NilCheck::NeverNil
        },
    }
}

fn elvis_value(l: &BrixType) -> (r: ElvisValue)
    ensures
        r == spec_elvis_value(l@),
{
    match l {
        BrixType::Union(ms) => match first_non_nil(ms) {
            Some(i) => ElvisValue::Member(i),
            None => ElvisValue::NilPayload,
        },
        _ => ElvisValue::Whole,
    }
}

fn matrix_step(op: BinaryOp, l: &BrixType, r: &BrixType, pl: bool, pr: bool) -> (res: Option<Result<BinaryPlan, BinaryError>>)
    ensures
        res == spec_matrix_step(op, promoted(l@, pl), promoted(r@, pr), pl, pr),
{
    let l_m = matches!(l, BrixType::Matrix) || (pl && matches!(l, BrixType::IntMatrix));
    let r_m = matches!(r, BrixType::Matrix) || (pr && matches!(r, BrixType::IntMatrix));
    let l_im = matches!(l, BrixType::IntMatrix) && !pl;
    let r_im = matches!(r, BrixType::IntMatrix) && !pr;
    let l_i = matches!(l, BrixType::Int);
    let r_i = matches!(r, BrixType::Int);
    let l_f = matches!(l, BrixType::Float);
    let r_f = matches!(r, BrixType::Float);
    let mk = |family: MatrixFamily, swap: bool, int_scalar: bool| -> (p: Option<Result<BinaryPlan, BinaryError>>)
        ensures
            p == Some(
                Ok::<BinaryPlan, BinaryError>(
                    BinaryPlan::MatrixCall {
                        family,
                        op,
                        promote_lhs: pl,
                        promote_rhs: pr,
                        swap_args: swap,
                        int_scalar,
                    },
                ),
            ),
        {
            Some(
                Ok(
                    BinaryPlan::MatrixCall {
                        family,
                        op,
                        promote_lhs: pl,
                        promote_rhs: pr,
                        swap_args: swap,
                        int_scalar,
                    },
                ),
            )
        };
    if l_m && (r_f || r_i) {
        mk(MatrixFamily::MatrixScalar, false, r_i)
    } else if (l_f || l_i) && r_m {
        if matches!(op, BinaryOp::Add) || matches!(op, BinaryOp::Mul) {
            mk(MatrixFamily::MatrixScalar, true, l_i)
        } else if matches!(op, BinaryOp::Sub) || matches!(op, BinaryOp::Div) {
            mk(MatrixFamily::ScalarMatrix, false, l_i)
        } else {
            Some(Err(BinaryError::ScalarMatrixOperator))
        }
    } else if l_m && r_m {
        mk(MatrixFamily::MatrixMatrix, false, false)
    } else if l_im && r_i {
        mk(MatrixFamily::IntMatrixScalar, false, false)
    } else if l_i && r_im {
        if matches!(op, BinaryOp::Add) || matches!(op, BinaryOp::Mul) {
            mk(MatrixFamily::IntMatrixScalar, true, false)
        } else if matches!(op, BinaryOp::Sub) {
            mk(MatrixFamily::ScalarIntMatrix, false, false)
        } else {
            Some(Err(BinaryError::ScalarIntMatrixOperator))
        }
    } else if l_im && r_im {
        mk(MatrixFamily::IntMatrixIntMatrix, false, false)
    } else {
        None
    }
}

fn complex_operand_of(t: &BrixType) -> (r: ComplexOperand)
    ensures
        r == complex_operand(t@),
{
    match t {
        BrixType::Complex => ComplexOperand::Complex,
        BrixType::Int => ComplexOperand::IntReal,
        _ => ComplexOperand::FloatReal,
    }
}

fn is_arith_op(op: BinaryOp) -> (r: bool)
    ensures
        r == is_arith(op),
{
    matches!(op, BinaryOp::Add | BinaryOp::Sub | BinaryOp::Mul | BinaryOp::Div | BinaryOp::Mod | BinaryOp::Pow)
}

fn union_nil(l: &BrixType, r: &BrixType) -> (res: Option<(bool, usize)>)
    ensures
        res matches Some((left, i)) ==> union_nil_step(l@, r@) == Some((left, i as int)),
        res is None ==> union_nil_step(l@, r@) is None,
{
    match (l, r) {
        (BrixType::Union(ms), BrixType::Nil) => match nil_member_index(ms) {
            Some(i) => Some((true, i)),
            None => None,
        },
        (BrixType::Nil, BrixType::Union(ms)) => match nil_member_index(ms) {
            Some(i) => Some((false, i)),
            None => None,
        },
        _ => None,
    }
}

/// The plan for compiling `lhs op rhs` with operands of types `l` and `r`.
pub fn plan_binary(op: BinaryOp, l: &BrixType, r: &BrixType) -> (res: Result<BinaryPlan, BinaryError>)
    ensures
        res == spec_plan_binary(op, l@, r@),
{
    if matches!(op, BinaryOp::Elvis) {
        return Ok(BinaryPlan::Elvis { check: elvis_check(l), value: elvis_value(l) });
    }
    if matches!(op, BinaryOp::LogicalAnd) {
        return Ok(BinaryPlan::ShortCircuitAnd);
    }
    if matches!(op, BinaryOp::LogicalOr) {
        return Ok(BinaryPlan::ShortCircuitOr);
    }
    let arith = is_arith_op(op);
    let p = arith && ((matches!(l, BrixType::IntMatrix) && matches!(r, BrixType::Float)) || (matches!(
        l,
        BrixType::Float,
    ) && matches!(r, BrixType::IntMatrix)) || (matches!(l, BrixType::IntMatrix) && matches!(
        r,
        BrixType::Matrix,
    )) || (matches!(l, BrixType::Matrix) && matches!(r, BrixType::IntMatrix)));
    let pl = p && matches!(l, BrixType::IntMatrix);
    let pr = p && matches!(r, BrixType::IntMatrix);
    assert(promoted(l@, p) == promoted(l@, pl));
    assert(promoted(r@, p) == promoted(r@, pr));
    if arith {
        match matrix_step(op, l, r, pl, pr) {
            Some(res) => {
                return res;
            },
            None => {},
        }
    }
    let is_eq = matches!(op, BinaryOp::Eq);
    if is_eq || matches!(op, BinaryOp::NotEq) {
        match union_nil(l, r) {
            Some((left, i)) => {
                return Ok(BinaryPlan::UnionNilCompare { union_on_left: left, nil_index: i, is_eq });
            },
            None => {},
        }
        if (is_nil_comparable(l) || is_nil_comparable(r)) && (matches!(l, BrixType::Nil) || matches!(
            r,
            BrixType::Nil,
        )) {
            return Ok(BinaryPlan::PointerNilCompare { nil_on_left: matches!(l, BrixType::Nil), is_eq });
        }
    }
    let l_num = matches!(l, BrixType::Int) || matches!(l, BrixType::Float);
    let r_num = matches!(r, BrixType::Int) || matches!(r, BrixType::Float);
    if l_num && matches!(r, BrixType::Complex) && (matches!(op, BinaryOp::Add) || matches!(op, BinaryOp::Sub)) {
        return Ok(BinaryPlan::ComplexLiteral { int_real: matches!(l, BrixType::Int), negate_imag: matches!(op, BinaryOp::Sub) });
    }
    if matches!(l, BrixType::Complex) || matches!(r, BrixType::Complex) {
        if matches!(op, BinaryOp::Pow) && matches!(l, BrixType::Complex) {
            let exponent = match r {
                BrixType::Int => PowExponent::Int,
                BrixType::Float => PowExponent::Float,
                _ => PowExponent::Complex,
            };
            return Ok(BinaryPlan::ComplexPow { exponent });
        }
        if matches!(op, BinaryOp::Add | BinaryOp::Sub | BinaryOp::Mul | BinaryOp::Div | BinaryOp::Pow) {
            return Ok(BinaryPlan::ComplexCall { op, lhs: complex_operand_of(l), rhs: complex_operand_of(r) });
        }
        return Err(BinaryError::ComplexOperator);
    }
    if matches!(l, BrixType::String) && matches!(r, BrixType::String) {
        if matches!(op, BinaryOp::Add) {
            return Ok(BinaryPlan::StringConcat);
        } else if is_eq {
            return Ok(BinaryPlan::StringEq);
        } else {
            return Err(BinaryError::StringOperator);
        }
    }
    if !(l_num && r_num) {
        return Err(BinaryError::NonNumericOperands);
    }
    if matches!(l, BrixType::Float) || matches!(r, BrixType::Float) {
        match float_lowering(op) {
            Some(lw) => Ok(BinaryPlan::FloatArith { float_lowering: lw, int_lhs: matches!(l, BrixType::Int), int_rhs: matches!(r, BrixType::Int) }),
            None => Err(BinaryError::UnsupportedFloatOperator),
        }
    } else {
        match int_lowering(op) {
            Some(lw) => Ok(BinaryPlan::IntArith { int_lowering: lw }),
            None => Err(BinaryError::UnsupportedIntOperator),
        }
    }
}

/// How a unary expression is compiled.
#[derive(PartialEq, Eq, Structural, Clone, Copy, Debug)]
pub enum UnaryPlan {
    /// Logical not: compare with zero, widen to `i64`; a float operand is
    /// first converted to a signed integer.
    Not { float_operand: bool },
    NegateInt,
    NegateFloat,
}

pub open spec fn spec_plan_unary(op: UnaryOp, t: TypeModel) -> Option<UnaryPlan> {
    match op {
        UnaryOp::Not => Some(UnaryPlan::Not { float_operand: t is Float }),
        UnaryOp::Negate => if t is Int {
            Some(UnaryPlan::NegateInt)
        } else if t is Float {
            Some(UnaryPlan::NegateFloat)
        } else {
            None
        },
    }
}

/// The plan for `op operand`; `None` when negating a non-number. The
/// result is `int` for `!` and the operand's type for negation.
pub fn plan_unary(op: UnaryOp, t: &BrixType) -> (r: Option<UnaryPlan>)
    ensures
        r == spec_plan_unary(op, t@),
{
    match op {
        UnaryOp::Not => Some(UnaryPlan::Not { float_operand: matches!(t, BrixType::Float) }),
        UnaryOp::Negate => match t {
            BrixType::Int => Some(UnaryPlan::NegateInt),
            BrixType::Float => Some(UnaryPlan::NegateFloat),
            _ => None,
        },
    }
}


/// The word naming an arithmetic operator in runtime function names.
pub open spec fn spec_op_word(op: BinaryOp) -> Seq<char> {
    match op {
        BinaryOp::Add => "add"@,
        BinaryOp::Sub => "sub"@,
        BinaryOp::Mul => "mul"@,
        BinaryOp::Div => "div"@,
        BinaryOp::Mod => "mod"@,
        _ => "pow"@,
    }
}

fn op_word(op: BinaryOp) -> (r: &'static str)
    ensures
        r@ == spec_op_word(op),
{
    match op {
        BinaryOp::Add => "add",
        BinaryOp::Sub => "sub",
        BinaryOp::Mul => "mul",
        BinaryOp::Div => "div",
        BinaryOp::Mod => "mod",
        _ => "pow",
    }
}

/// Name of the matrix runtime function of a family for an arithmetic operator.
pub open spec fn spec_matrix_fn_name(family: MatrixFamily, op: BinaryOp) -> Seq<char> {
    match family {
        MatrixFamily::MatrixScalar => "matrix_"@ + spec_op_word(op) + "_scalar"@,
        MatrixFamily::ScalarMatrix => "scalar_"@ + spec_op_word(op) + "_matrix"@,
        MatrixFamily::MatrixMatrix => "matrix_"@ + spec_op_word(op) + "_matrix"@,
        MatrixFamily::IntMatrixScalar => "intmatrix_"@ + spec_op_word(op) + "_scalar"@,
        MatrixFamily::ScalarIntMatrix => "scalar_"@ + spec_op_word(op) + "_intmatrix"@,
        MatrixFamily::IntMatrixIntMatrix => "intmatrix_"@ + spec_op_word(op) + "_intmatrix"@,
    }
}

/// Name of the matrix runtime function of a family for an arithmetic
/// operator, such as `matrix_add_scalar`.
pub fn matrix_fn_name(family: MatrixFamily, op: BinaryOp) -> (r: String)
    ensures
        r@ == spec_matrix_fn_name(family, op),
{
    let (prefix, suffix) = match family {
        MatrixFamily::MatrixScalar => ("matrix_", "_scalar"),
        MatrixFamily::ScalarMatrix => ("scalar_", "_matrix"),
        MatrixFamily::MatrixMatrix => ("matrix_", "_matrix"),
        MatrixFamily::IntMatrixScalar => ("intmatrix_", "_scalar"),
        MatrixFamily::ScalarIntMatrix => ("scalar_", "_intmatrix"),
        MatrixFamily::IntMatrixIntMatrix => ("intmatrix_", "_intmatrix"),
    };
    let mut name = String::from_str(prefix);
    name.append(op_word(op));
    name.append(suffix);
    name
}

/// Name of the complex runtime function for an operator of complex
/// arithmetic (`complex_add`, ..., `complex_pow`).
pub open spec fn spec_complex_fn_name(op: BinaryOp) -> Seq<char> {
    "complex_"@ + spec_op_word(op)
}

pub fn complex_fn_name(op: BinaryOp) -> (r: String)
    ensures
        r@ == spec_complex_fn_name(op),
{
    let mut name = String::from_str("complex_");
    name.append(op_word(op));
    name
}

/// Name of the complex power function for an exponent kind.
pub open spec fn spec_complex_pow_name(e: PowExponent) -> Seq<char> {
    match e {
        PowExponent::Int => "complex_powi"@,
        PowExponent::Float => "complex_powf"@,
        PowExponent::Complex => "complex_pow"@,
    }
}

pub fn complex_pow_name(e: PowExponent) -> (r: &'static str)
    ensures
        r@ == spec_complex_pow_name(e),
{
    match e {
        PowExponent::Int => "complex_powi",
        PowExponent::Float => "complex_powf",
        PowExponent::Complex => "complex_pow",
    }
}

} // verus!
