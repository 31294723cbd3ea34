//! Brix types and their mathematical model.

use vstd::prelude::*;

verus! {

/// The types of Brix values as the code generator sees them.
#[derive(Debug)]
pub enum BrixType {
    Int,
    Float,
    String,
    Matrix,
    IntMatrix,
    Complex,
    ComplexArray,
    ComplexMatrix,
    FloatPtr,
    Nil,
    Error,
    Atom,
    Void,
    Tuple(Vec<BrixType>),
    Struct(String),
    Union(Vec<BrixType>),
    Intersection(Vec<BrixType>),
    Optional(Box<BrixType>),
}

/// Mathematical model of a Brix type: names become character sequences and
/// member lists become sequences.
pub enum TypeModel {
    Int,
    Float,
    String,
    Matrix,
    IntMatrix,
    Complex,
    ComplexArray,
    ComplexMatrix,
    FloatPtr,
    Nil,
    Error,
    Atom,
    Void,
    Tuple(Seq<TypeModel>),
    Struct(Seq<char>),
    Union(Seq<TypeModel>),
    Intersection(Seq<TypeModel>),
    Optional(Box<TypeModel>),
}

pub open spec fn models_of(ts: Seq<BrixType>) -> Seq<TypeModel>
    decreases ts,
{
    Seq::new(ts.len(), |i: int| if 0 <= i < ts.len() { ts[i].model() } else { TypeModel::Void })
}

impl BrixType {
    pub open spec fn model(&self) -> TypeModel
        decreases self,
    {
        match self {
            BrixType::Int => TypeModel::Int,
            BrixType::Float => TypeModel::Float,
            BrixType::String => TypeModel::String,
            BrixType::Matrix => TypeModel::Matrix,
            BrixType::IntMatrix => TypeModel::IntMatrix,
            BrixType::Complex => TypeModel::Complex,
            BrixType::ComplexArray => TypeModel::ComplexArray,
            BrixType::ComplexMatrix => TypeModel::ComplexMatrix,
            BrixType::FloatPtr => TypeModel::FloatPtr,
            BrixType::Nil => TypeModel::Nil,
            BrixType::Error => TypeModel::Error,
            BrixType::Atom => TypeModel::Atom,
            BrixType::Void => TypeModel::Void,
            BrixType::Tuple(ts) => TypeModel::Tuple(models_of(ts@)),
            BrixType::Struct(n) => TypeModel::Struct(n@),
            BrixType::Union(ts) => TypeModel::Union(models_of(ts@)),
            BrixType::Intersection(ts) => TypeModel::Intersection(models_of(ts@)),
            BrixType::Optional(b) => TypeModel::Optional(Box::new(b.model())),
        }
    }
}

impl View for BrixType {
    type V = TypeModel;

    open spec fn view(&self) -> TypeModel {
        self.model()
    }
}


/// Heap types whose values carry a reference count in the runtime.
pub open spec fn spec_is_ref_counted(t: TypeModel) -> bool {
    t is String || t is Matrix || t is IntMatrix || t is ComplexMatrix
}

/// The shape the code generator gives closures: a tuple of three integers
/// (reference count, function pointer, environment pointer).
pub open spec fn spec_is_closure(t: TypeModel) -> bool {
    t matches TypeModel::Tuple(ms) && ms.len() == 3 && ms[0] is Int && ms[1] is Int && ms[2] is Int
}

/// Types whose values are pointers that may be compared with `nil`.
pub open spec fn spec_is_nil_comparable(t: TypeModel) -> bool {
    t is Nil || t is Error || t is String || t is Matrix || t is IntMatrix || t is Complex
        || t is ComplexMatrix || t is FloatPtr
}

/// Two types may meet in the arms of one `match`: equal types, or one `int`
/// and one `float`.
pub open spec fn spec_types_compatible(a: TypeModel, b: TypeModel) -> bool {
    a == b || (a is Int && b is Float) || (a is Float && b is Int)
}

/// Index of the first `nil` member of a member list, if any.
pub open spec fn first_nil_index(ms: Seq<TypeModel>) -> Option<int>
    decreases ms.len(),
{
    if ms.len() == 0 {
        None
    } else if ms[0] is Nil {
        Some(0)
    } else {
        match first_nil_index(ms.drop_first()) {
            Some(i) => Some(i + 1),
            None => None,
        }
    }
}

impl BrixType {
    /// A copy of the type with the same model.
    pub fn copy(&self) -> (r: BrixType)
        ensures
            r@ == self@,
        decreases self,
    {
        match self {
            BrixType::Int => BrixType::Int,
            BrixType::Float => BrixType::Float,
            BrixType::String => BrixType::String,
            BrixType::Matrix => BrixType::Matrix,
            BrixType::IntMatrix => BrixType::IntMatrix,
            BrixType::Complex => BrixType::Complex,
            BrixType::ComplexArray => BrixType::ComplexArray,
            BrixType::ComplexMatrix => BrixType::ComplexMatrix,
            BrixType::FloatPtr => BrixType::FloatPtr,
            BrixType::Nil => BrixType::Nil,
            BrixType::Error => BrixType::Error,
            BrixType::Atom => BrixType::Atom,
            BrixType::Void => BrixType::Void,
            BrixType::Tuple(ts) => {
                let c = copy_members(ts);
                BrixType::Tuple(c)
            },
            BrixType::Struct(n) => BrixType::Struct(n.clone()),
            BrixType::Union(ts) => {
                let c = copy_members(ts);
                BrixType::Union(c)
            },
            BrixType::Intersection(ts) => {
                let c = copy_members(ts);
                BrixType::Intersection(c)
            },
            BrixType::Optional(b) => BrixType::Optional(Box::new((**b).copy())),
        }
    }
}

/// A copy of a member list, member by member.
pub fn copy_members(ts: &Vec<BrixType>) -> (r: Vec<BrixType>)
    ensures
        models_of(r@) == models_of(ts@),
        r@.len() == ts@.len(),
    decreases ts,
{
    let mut out: Vec<BrixType> = Vec::new();
    let mut i: usize = 0;
    while i < ts.len()
        invariant
            i <= ts@.len(),
            out@.len() == i,
            forall|j: int| 0 <= j < i ==> #[trigger] out@[j]@ == ts@[j]@,
        decreases ts@.len() - i,
    {
        proof {
            assert(decreases_to!(ts => ts@[i as int]));
        }
        let c = ts[i].copy();
        out.push(c);
        i = i + 1;
    }
    assert forall|j: int| 0 <= j < out@.len() implies models_of(out@)[j] == models_of(ts@)[j] by {
        assert(out@[j]@ == ts@[j]@);
    }
    assert(models_of(out@) =~= models_of(ts@));
    out
}


pub proof fn lemma_models_of(ts: Seq<BrixType>)
    ensures
        models_of(ts).len() == ts.len(),
        forall|i: int| 0 <= i < ts.len() ==> #[trigger] models_of(ts)[i] == ts[i]@,
{
}

/// Structural equality of two types, decided on their models.
pub fn same_type(a: &BrixType, b: &BrixType) -> (r: bool)
    ensures
        r == (a@ == b@),
    decreases a,
{
    match a {
        BrixType::Int => matches!(b, BrixType::Int),
        BrixType::Float => matches!(b, BrixType::Float),
        BrixType::String => matches!(b, BrixType::String),
        BrixType::Matrix => matches!(b, BrixType::Matrix),
        BrixType::IntMatrix => matches!(b, BrixType::IntMatrix),
        BrixType::Complex => matches!(b, BrixType::Complex),
        BrixType::ComplexArray => matches!(b, BrixType::ComplexArray),
        BrixType::ComplexMatrix => matches!(b, BrixType::ComplexMatrix),
        BrixType::FloatPtr => matches!(b, BrixType::FloatPtr),
        BrixType::Nil => matches!(b, BrixType::Nil),
        BrixType::Error => matches!(b, BrixType::Error),
        BrixType::Atom => matches!(b, BrixType::Atom),
        BrixType::Void => matches!(b, BrixType::Void),
        BrixType::Tuple(x) => match b {
            BrixType::Tuple(y) => same_members(x, y),
            _ => false,
        },
        BrixType::Struct(n) => match b {
            BrixType::Struct(m) => n.eq(m),
            _ => false,
        },
        BrixType::Union(x) => match b {
            BrixType::Union(y) => same_members(x, y),
            _ => false,
        },
        BrixType::Intersection(x) => match b {
            BrixType::Intersection(y) => same_members(x, y),
            _ => false,
        },
        BrixType::Optional(x) => match b {
            BrixType::Optional(y) => same_type(&**x, &**y),
            _ => false,
        },
    }
}

/// Member-wise equality of two member lists, decided on their models.
pub fn same_members(x: &Vec<BrixType>, y: &Vec<BrixType>) -> (r: bool)
    ensures
        r == (models_of(x@) == models_of(y@)),
    decreases x,
{
    proof {
        lemma_models_of(x@);
        lemma_models_of(y@);
    }
    if x.len() != y.len() {
        return false;
    }
    let mut i: usize = 0;
    while i < x.len()
        invariant
            i <= x@.len(),
            x@.len() == y@.len(),
            forall|j: int| 0 <= j < i ==> #[trigger] x@[j]@ == y@[j]@,
        decreases x@.len() - i,
    {
        proof {
            assert(decreases_to!(x => x@[i as int]));
        }
        if !same_type(&x[i], &y[i]) {
            assert(models_of(x@)[i as int] != models_of(y@)[i as int]);
            return false;
        }
        i = i + 1;
    }
    assert(models_of(x@) =~= models_of(y@));
    true
}

/// Whether values of the type carry a runtime reference count.
pub fn is_ref_counted(t: &BrixType) -> (r: bool)
    ensures
        r == spec_is_ref_counted(t@),
{
    match t {
        BrixType::String | BrixType::Matrix | BrixType::IntMatrix | BrixType::ComplexMatrix => true,
        _ => false,
    }
}

/// Whether the type is the closure shape (a tuple of three integers).
pub fn is_closure_type(t: &BrixType) -> (r: bool)
    ensures
        r == spec_is_closure(t@),
{
    match t {
        BrixType::Tuple(ts) => {
            proof {
                lemma_models_of(ts@);
            }
            ts.len() == 3 && matches!(ts[0], BrixType::Int) && matches!(ts[1], BrixType::Int)
                && matches!(ts[2], BrixType::Int)
        },
        _ => false,
    }
}

/// Whether the type is a pointer type that may be compared with `nil`.
pub fn is_nil_comparable(t: &BrixType) -> (r: bool)
    ensures
        r == spec_is_nil_comparable(t@),
{
    match t {
        BrixType::Nil | BrixType::Error | BrixType::String | BrixType::Matrix | BrixType::IntMatrix
        | BrixType::Complex | BrixType::ComplexMatrix | BrixType::FloatPtr => true,
        _ => false,
    }
}

/// Whether two types may be the results of the arms of one `match`.
pub fn are_types_compatible(a: &BrixType, b: &BrixType) -> (r: bool)
    ensures
        r == spec_types_compatible(a@, b@),
{
    if same_type(a, b) {
        return true;
    }
    (matches!(a, BrixType::Int) && matches!(b, BrixType::Float)) || (matches!(a, BrixType::Float)
        && matches!(b, BrixType::Int))
}

/// Index of the first `nil` member of a union's member list.
pub fn nil_member_index(ts: &Vec<BrixType>) -> (r: Option<usize>)
    ensures
        r matches Some(i) ==> first_nil_index(models_of(ts@)) == Some(i as int),
        r is None ==> first_nil_index(models_of(ts@)) is None,
{
    proof {
        lemma_models_of(ts@);
    }
    let mut i: usize = 0;
    while i < ts.len()
        invariant
            i <= ts@.len(),
            forall|j: int| 0 <= j < i ==> !(#[trigger] models_of(ts@)[j] is Nil),
        decreases ts@.len() - i,
    {
        if matches!(ts[i], BrixType::Nil) {
            proof {
                lemma_first_nil_index(models_of(ts@), i as int);
            }
            return Some(i);
        }
        i = i + 1;
    }
    proof {
        lemma_first_nil_index(models_of(ts@), ts@.len() as int);
    }
    None
}

/// `first_nil_index` finds the first `nil`: if positions before `k` are not
/// `nil`, it is `k` when position `k` is `nil`, and none when `k` is the end.
pub proof fn lemma_first_nil_index(ms: Seq<TypeModel>, k: int)
    requires
        0 <= k <= ms.len(),
        forall|j: int| 0 <= j < k ==> !(#[trigger] ms[j] is Nil),
    ensures
        k < ms.len() && ms[k] is Nil ==> first_nil_index(ms) == Some(k),
        k == ms.len() ==> first_nil_index(ms) is None,
    decreases k,
{
    if k > 0 {
        let rest = ms.drop_first();
        assert forall|j: int| 0 <= j < k - 1 implies !(#[trigger] rest[j] is Nil) by {
            assert(rest[j] == ms[j + 1]);
        }
        lemma_first_nil_index(rest, k - 1);
    }
}

} // verus!
