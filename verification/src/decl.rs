//! Declarations and assignments: checking a value against a type hint,
//! choosing the tag of a union, the storage of a variable, and the
//! reference-counting steps around a store.

use vstd::prelude::*;
use crate::types::{BrixType, TypeModel, models_of, lemma_models_of, same_type, is_ref_counted, is_closure_type, spec_is_ref_counted, spec_is_closure};
use crate::text::chars_equal;

verus! {

/// The syntactic form of an expression, as far as reference counting
/// depends on it.
#[derive(PartialEq, Eq, Structural, Clone, Copy, Debug)]
pub enum ExprForm {
    Literal,
    Array,
    Binary,
    Identifier,
    FieldAccess,
    Other,
}

/// A value of a union type: the index of the member it is stored as, and
/// whether an `int` value is first converted to `float`.
#[derive(PartialEq, Eq, Structural, Clone, Copy, Debug)]
pub struct UnionTag {
    pub tag: usize,
    pub int_to_float: bool,
}

/// First member equal to `v`.
pub open spec fn first_equal(ms: Seq<TypeModel>, v: TypeModel, n: int) -> Option<int>
    decreases n,
{
    if n <= 0 {
        None
    } else {
        match first_equal(ms, v, n - 1) {
            Some(i) => Some(i),
            None => if ms[n - 1] == v {
                Some(n - 1)
            } else {
                None
            },
        }
    }
}

/// First `float` member.
pub open spec fn first_float(ms: Seq<TypeModel>, n: int) -> Option<int>
    decreases n,
{
    if n <= 0 {
        None
    } else {
        match first_float(ms, n - 1) {
            Some(i) => Some(i),
            None => if ms[n - 1] is Float {
                Some(n - 1)
            } else {
                None
            },
        }
    }
}

/// The member a value of type `v` is stored as: the first member equal to
/// `v`; failing that, for an `int` value, the first `float` member (with a
/// conversion); `None` when the union admits no such value.
pub open spec fn spec_union_tag(ms: Seq<TypeModel>, v: TypeModel) -> Option<UnionTag> {
    match first_equal(ms, v, ms.len() as int) {
        Some(i) => Some(UnionTag { tag: i as usize, int_to_float: false }),
        None => if v is Int {
            match first_float(ms, ms.len() as int) {
                Some(i) => Some(UnionTag { tag: i as usize, int_to_float: true }),
                None => None,
            }
        } else {
            None
        },
    }
}

/// The member of the union `members` that a value of type `v` is stored as.
pub fn union_tag(members: &Vec<BrixType>, v: &BrixType) -> (r: Option<UnionTag>)
    ensures
        r == spec_union_tag(models_of(members@), v@),
{
    let ghost ms = models_of(members@);
    proof {
        lemma_models_of(members@);
    }
    let mut i: usize = 0;
    while i < members.len()
        invariant
            i <= members@.len(),
            ms == models_of(members@),
            ms.len() == members@.len(),
            forall|j: int| 0 <= j < members@.len() ==> #[trigger] ms[j] == members@[j]@,
            first_equal(ms, v@, i as int) is None,
        decreases members@.len() - i,
    {
        if same_type(&members[i], v) {
            assert(first_equal(ms, v@, i + 1) == Some(i as int));
            proof {
                lemma_first_equal_stable(ms, v@, i + 1, ms.len() as int);
            }
            return Some(UnionTag { tag: i, int_to_float: false });
        }
        i = i + 1;
    }
    if !matches!(v, BrixType::Int) {
        return None;
    }
    let mut k: usize = 0;
    while k < members.len()
        invariant
            k <= members@.len(),
            ms == models_of(members@),
            ms.len() == members@.len(),
            forall|j: int| 0 <= j < members@.len() ==> #[trigger] ms[j] == members@[j]@,
            first_float(ms, k as int) is None,
            first_equal(ms, v@, ms.len() as int) is None,
            v@ is Int,
        decreases members@.len() - k,
    {
        if matches!(members[k], BrixType::Float) {
            assert(first_float(ms, k + 1) == Some(k as int));
            proof {
                lemma_first_float_stable(ms, k + 1, ms.len() as int);
            }
            return Some(UnionTag { tag: k, int_to_float: true });
        }
        k = k + 1;
    }
    None
}

pub proof fn lemma_first_equal_stable(ms: Seq<TypeModel>, v: TypeModel, k: int, n: int)
    requires
        k <= n,
        first_equal(ms, v, k) is Some,
    ensures
        first_equal(ms, v, n) == first_equal(ms, v, k),
    decreases n - k,
{
    if n > k {
        lemma_first_equal_stable(ms, v, k, n - 1);
    }
}

pub proof fn lemma_first_float_stable(ms: Seq<TypeModel>, k: int, n: int)
    requires
        k <= n,
        first_float(ms, k) is Some,
    ensures
        first_float(ms, n) == first_float(ms, k),
    decreases n - k,
{
    if n > k {
        lemma_first_float_stable(ms, k, n - 1);
    }
}

/// What a declaration with a plain (non-union) type hint does to the value.
#[derive(PartialEq, Eq, Structural, Clone, Copy, Debug)]
pub enum HintAction {
    /// The value is stored as it is.
    Keep,
    /// A `float` value is converted to `int`.
    FloatToInt,
    /// An `int` value is converted to `float`.
    IntToFloat,
    /// The value is stored as `int` (a `bool` hint).
    AsInt,
}

/// Why a value does not fit a plain type hint.
#[derive(PartialEq, Eq, Structural, Clone, Copy, Debug)]
pub enum HintMismatch {
    /// A `string` hint with a value that is not a string.
    ExpectedString,
    /// An `error` hint with a value that is neither an error nor `nil`.
    ExpectedErrorOrNil,
    /// An unknown hint with a value that is neither a struct nor an intersection.
    UnknownHint,
}

/// The check of a value of type `v` against a plain hint `h` (after alias
/// resolution).
pub open spec fn spec_check_hint(h: Seq<char>, v: TypeModel) -> Result<HintAction, HintMismatch> {
    if h == "int"@ {
        Ok(if v is Float { HintAction::FloatToInt } else { HintAction::Keep })
    } else if h == "float"@ {
        Ok(if v is Int { HintAction::IntToFloat } else { HintAction::Keep })
    } else if h == "bool"@ {
        Ok(HintAction::AsInt)
    } else if h == "string"@ {
        if v is String { Ok(HintAction::Keep) } else { Err(HintMismatch::ExpectedString) }
    } else if h == "error"@ {
        if v is Error || v is Nil { Ok(HintAction::Keep) } else { Err(HintMismatch::ExpectedErrorOrNil) }
    } else if h == "matrix"@ || h == "intmatrix"@ || h == "complex"@ || v is Struct || v is Intersection {
        Ok(HintAction::Keep)
    } else {
        Err(HintMismatch::UnknownHint)
    }
}

/// Checks a value of type `v` against a plain type hint `hint`.
pub fn check_hint(hint: &[char], v: &BrixType) -> (r: Result<HintAction, HintMismatch>)
    ensures
        r == spec_check_hint(hint@, v@),
{
    if chars_equal(hint, "int") {
        Ok(if matches!(v, BrixType::Float) { HintAction::FloatToInt } else { HintAction::Keep })
    } else if chars_equal(hint, "float") {
        Ok(if matches!(v, BrixType::Int) { HintAction::IntToFloat } else { HintAction::Keep })
    } else if chars_equal(hint, "bool") {
        Ok(HintAction::AsInt)
    } else if chars_equal(hint, "string") {
        if matches!(v, BrixType::String) { Ok(HintAction::Keep) } else { Err(HintMismatch::ExpectedString) }
    } else if chars_equal(hint, "error") {
        if matches!(v, BrixType::Error | BrixType::Nil) {
            Ok(HintAction::Keep)
        } else {
            Err(HintMismatch::ExpectedErrorOrNil)
        }
    } else if chars_equal(hint, "matrix") || chars_equal(hint, "intmatrix") || chars_equal(hint, "complex")
        || matches!(v, BrixType::Struct(_) | BrixType::Intersection(_)) {
        Ok(HintAction::Keep)
    } else {
        Err(HintMismatch::UnknownHint)
    }
}

/// How a variable of a given type is stored.
#[derive(PartialEq, Eq, Structural, Clone, Copy, Debug)]
pub enum Storage {
    /// An `i64` slot (`int`, `atom`).
    I64,
    /// An `f64` slot.
    F64,
    /// A pointer slot (heap values, `nil`, errors, closures).
    Pointer,
    /// A slot of the type's own aggregate layout (complex numbers, tuples,
    /// structs, unions, intersections, optionals).
    Aggregate,
}

pub open spec fn spec_storage(t: TypeModel) -> Option<Storage> {
    match t {
        TypeModel::Int | TypeModel::Atom => Some(Storage::I64),
        TypeModel::Float => Some(Storage::F64),
        TypeModel::String | TypeModel::Matrix | TypeModel::IntMatrix | TypeModel::ComplexMatrix
        | TypeModel::FloatPtr | TypeModel::Nil | TypeModel::Error => Some(Storage::Pointer),
        TypeModel::Complex => Some(Storage::Aggregate),
        TypeModel::Tuple(_) => if spec_is_closure(t) {
            Some(Storage::Pointer)
        } else {
            Some(Storage::Aggregate)
        },
        TypeModel::Struct(_) | TypeModel::Optional(_) | TypeModel::Union(_) | TypeModel::Intersection(_) => Some(
            Storage::Aggregate,
        ),
        _ => None,
    }
}

/// The storage of a declared variable of type `t`; `None` for types no
/// variable can hold (`void`, complex arrays).
pub fn storage_of(t: &BrixType) -> (r: Option<Storage>)
    ensures
        r == spec_storage(t@),
{
    match t {
        BrixType::Int | BrixType::Atom => Some(Storage::I64),
        BrixType::Float => Some(Storage::F64),
        BrixType::String | BrixType::Matrix | BrixType::IntMatrix | BrixType::ComplexMatrix
        | BrixType::FloatPtr | BrixType::Nil | BrixType::Error => Some(Storage::Pointer),
        BrixType::Complex => Some(Storage::Aggregate),
        BrixType::Tuple(_) => if is_closure_type(t) {
            Some(Storage::Pointer)
        } else {
            Some(Storage::Aggregate)
        },
        BrixType::Struct(_) | BrixType::Optional(_) | BrixType::Union(_) | BrixType::Intersection(_) => Some(
            Storage::Aggregate,
        ),
        _ => None,
    }
}

/// A declaration takes an extra reference to a reference-counted value,
/// except to one just made by a literal, an array or a binary expression.
pub open spec fn spec_should_retain(t: TypeModel, form: ExprForm) -> bool {
    spec_is_ref_counted(t) && !(form is Literal || form is Array || form is Binary)
}

pub fn should_retain(t: &BrixType, form: ExprForm) -> (r: bool)
    ensures
        r == spec_should_retain(t@, form),
{
    is_ref_counted(t) && !matches!(form, ExprForm::Literal | ExprForm::Array | ExprForm::Binary)
}

/// Whether an expression only borrows the value it yields (a variable or a
/// field), so that the value must not be released after use.
pub open spec fn spec_is_borrowed(form: ExprForm) -> bool {
    form is Identifier || form is FieldAccess
}

/// Whether printing a value of type `t` computed by an expression of the
/// given form leaves a temporary string to release: always for non-strings
/// (conversion makes a new string), and for strings unless the expression
/// borrows.
pub open spec fn spec_is_print_temp(t: TypeModel, form: ExprForm) -> bool {
    if t is String {
        !spec_is_borrowed(form)
    } else {
        true
    }
}

/// Whether an expression statement leaves a reference-counted temporary to
/// release.
pub open spec fn spec_release_discarded(t: TypeModel, form: ExprForm) -> bool {
    spec_is_ref_counted(t) && !spec_is_borrowed(form)
}

pub fn release_discarded(t: &BrixType, form: ExprForm) -> (r: bool)
    ensures
        r == spec_release_discarded(t@, form),
{
    is_ref_counted(t) && !matches!(form, ExprForm::Identifier | ExprForm::FieldAccess)
}

/// The reference-counting steps of an assignment to a target of type `t`.
#[derive(PartialEq, Eq, Structural, Clone, Copy, Debug)]
pub enum OldValueRelease {
    /// Nothing to release.
    Nothing,
    /// Release the old closure.
    Closure,
    /// Release the old reference-counted value.
    RefCounted,
}

pub open spec fn spec_old_value_release(t: TypeModel) -> OldValueRelease {
    if t is Union {
        OldValueRelease::Nothing
    } else if spec_is_closure(t) {
        OldValueRelease::Closure
    } else if spec_is_ref_counted(t) {
        OldValueRelease::RefCounted
    } else {
        OldValueRelease::Nothing
    }
}

/// How the old value of an assignment's target is released before the store.
pub fn old_value_release(t: &BrixType) -> (r: OldValueRelease)
    ensures
        r == spec_old_value_release(t@),
{
    if matches!(t, BrixType::Union(_)) {
        OldValueRelease::Nothing
    } else if is_closure_type(t) {
        OldValueRelease::Closure
    } else if is_ref_counted(t) {
        OldValueRelease::RefCounted
    } else {
        OldValueRelease::Nothing
    }
}

/// How an assigned value is brought to the target's type.
#[derive(PartialEq, Eq, Structural, Clone, Copy, Debug)]
pub enum AssignValue {
    /// Stored as it is.
    Plain,
    /// An `int` converted to `float` for a `float` target.
    IntToFloat,
    /// Wrapped as the given member of the target union.
    Union(UnionTag),
}

pub open spec fn spec_assign_value(target: TypeModel, v: TypeModel) -> Option<AssignValue> {
    match target {
        TypeModel::Union(ms) => match spec_union_tag(ms, v) {
            Some(t) => Some(AssignValue::Union(t)),
            None => None,
        },
        _ => if target is Float && v is Int {
            Some(AssignValue::IntToFloat)
        } else {
            Some(AssignValue::Plain)
        },
    }
}

/// How a value of type `v` is stored into a target of type `target`;
/// `None` when the target is a union that admits no such value. After the
/// store the new value is retained unless the target is a union.
pub fn assign_value(target: &BrixType, v: &BrixType) -> (r: Option<AssignValue>)
    ensures
        r == spec_assign_value(target@, v@),
{
    match target {
        BrixType::Union(ms) => match union_tag(ms, v) {
            Some(t) => Some(AssignValue::Union(t)),
            None => None,
        },
        _ => if matches!(target, BrixType::Float) && matches!(v, BrixType::Int) {
            Some(AssignValue::IntToFloat)
        } else {
            Some(AssignValue::Plain)
        },
    }
}

/// Why a destructuring declaration fails.
#[derive(PartialEq, Eq, Structural, Clone, Copy, Debug)]
pub enum DestructureError {
    /// The value is not a tuple.
    NotATuple,
    /// The number of names differs from the tuple's arity.
    ArityMismatch { names: usize, fields: usize },
}

pub open spec fn spec_check_destructure(names: nat, t: TypeModel) -> Result<(), DestructureError> {
    match t {
        TypeModel::Tuple(ms) => if names == ms.len() {
            Ok(())
        } else {
            Err(DestructureError::ArityMismatch { names: names as usize, fields: ms.len() as usize })
        },
        _ => Err(DestructureError::NotATuple),
    }
}

/// Checks `let a, b, ... = value` against the value's type.
pub fn check_destructure(names: usize, t: &BrixType) -> (r: Result<(), DestructureError>)
    ensures
        r == spec_check_destructure(names as nat, t@),
{
    match t {
        BrixType::Tuple(ms) => {
            proof {
                lemma_models_of(ms@);
            }
            if names == ms.len() {
                Ok(())
            } else {
                Err(DestructureError::ArityMismatch { names, fields: ms.len() })
            }
        },
        _ => Err(DestructureError::NotATuple),
    }
}

} // verus!
