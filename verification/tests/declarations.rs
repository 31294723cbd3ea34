use codegen::types::BrixType;
use codegen::decl::{
    ExprForm, UnionTag, HintAction, HintMismatch, Storage, OldValueRelease, AssignValue, DestructureError, union_tag,
    check_hint, storage_of, should_retain, release_discarded, old_value_release, assign_value, check_destructure,
};
use codegen::arc::{retain_fn_name, release_fn_name, release_plan};
use codegen::strmap::StrMap;

fn chars(s: &str) -> Vec<char> {
    s.chars().collect()
}

#[test]
fn union_value_takes_its_own_member() {
    let ms = vec![BrixType::Int, BrixType::String, BrixType::Nil];
    assert_eq!(union_tag(&ms, &BrixType::String), Some(UnionTag { tag: 1, int_to_float: false }));
    assert_eq!(union_tag(&ms, &BrixType::Nil), Some(UnionTag { tag: 2, int_to_float: false }));
}

#[test]
fn int_value_falls_back_to_float_member() {
    let ms = vec![BrixType::String, BrixType::Float];
    assert_eq!(union_tag(&ms, &BrixType::Int), Some(UnionTag { tag: 1, int_to_float: true }));
    assert_eq!(union_tag(&ms, &BrixType::Matrix), None);
}

#[test]
fn hints_convert_numbers() {
    assert_eq!(check_hint(&chars("int"), &BrixType::Float), Ok(HintAction::FloatToInt));
    assert_eq!(check_hint(&chars("float"), &BrixType::Int), Ok(HintAction::IntToFloat));
    assert_eq!(check_hint(&chars("int"), &BrixType::Int), Ok(HintAction::Keep));
    assert_eq!(check_hint(&chars("bool"), &BrixType::Int), Ok(HintAction::AsInt));
}

#[test]
fn hints_reject_mismatches() {
    assert_eq!(check_hint(&chars("string"), &BrixType::Int), Err(HintMismatch::ExpectedString));
    assert_eq!(check_hint(&chars("error"), &BrixType::Int), Err(HintMismatch::ExpectedErrorOrNil));
    assert_eq!(check_hint(&chars("error"), &BrixType::Nil), Ok(HintAction::Keep));
    assert_eq!(check_hint(&chars("Widget"), &BrixType::Int), Err(HintMismatch::UnknownHint));
    assert_eq!(check_hint(&chars("Widget"), &BrixType::Struct("Widget".to_string())), Ok(HintAction::Keep));
}

#[test]
fn storage_of_each_kind() {
    assert_eq!(storage_of(&BrixType::Atom), Some(Storage::I64));
    assert_eq!(storage_of(&BrixType::Float), Some(Storage::F64));
    assert_eq!(storage_of(&BrixType::Error), Some(Storage::Pointer));
    let closure = BrixType::Tuple(vec![BrixType::Int, BrixType::Int, BrixType::Int]);
    assert_eq!(storage_of(&closure), Some(Storage::Pointer));
    let pair = BrixType::Tuple(vec![BrixType::Int, BrixType::Float]);
    assert_eq!(storage_of(&pair), Some(Storage::Aggregate));
    assert_eq!(storage_of(&BrixType::Void), None);
}

#[test]
fn declarations_retain_borrowed_heap_values_only() {
    assert!(should_retain(&BrixType::String, ExprForm::Identifier));
    assert!(!should_retain(&BrixType::String, ExprForm::Literal));
    assert!(!should_retain(&BrixType::Matrix, ExprForm::Binary));
    assert!(!should_retain(&BrixType::Int, ExprForm::Identifier));
}

#[test]
fn discarded_temporaries_are_released() {
    assert!(release_discarded(&BrixType::String, ExprForm::Other));
    assert!(!release_discarded(&BrixType::String, ExprForm::FieldAccess));
    assert!(!release_discarded(&BrixType::Float, ExprForm::Other));
}

#[test]
fn assignment_releases_the_old_value() {
    assert_eq!(old_value_release(&BrixType::String), OldValueRelease::RefCounted);
    let closure = BrixType::Tuple(vec![BrixType::Int, BrixType::Int, BrixType::Int]);
    assert_eq!(old_value_release(&closure), OldValueRelease::Closure);
    let u = BrixType::Union(vec![BrixType::String, BrixType::Nil]);
    assert_eq!(old_value_release(&u), OldValueRelease::Nothing);
    assert_eq!(old_value_release(&BrixType::Int), OldValueRelease::Nothing);
}

#[test]
fn assignment_converts_to_the_target() {
    assert_eq!(assign_value(&BrixType::Float, &BrixType::Int), Some(AssignValue::IntToFloat));
    assert_eq!(assign_value(&BrixType::Int, &BrixType::Int), Some(AssignValue::Plain));
    let u = BrixType::Union(vec![BrixType::Int, BrixType::Nil]);
    assert_eq!(assign_value(&u, &BrixType::Nil), Some(AssignValue::Union(UnionTag { tag: 1, int_to_float: false })));
    assert_eq!(assign_value(&u, &BrixType::String), None);
}

#[test]
fn destructuring_checks_arity() {
    let t = BrixType::Tuple(vec![BrixType::Int, BrixType::Float]);
    assert_eq!(check_destructure(2, &t), Ok(()));
    assert_eq!(check_destructure(3, &t), Err(DestructureError::ArityMismatch { names: 3, fields: 2 }));
    assert_eq!(check_destructure(1, &BrixType::Int), Err(DestructureError::NotATuple));
}

#[test]
fn retain_and_release_functions() {
    assert_eq!(retain_fn_name(&BrixType::String), Some("string_retain"));
    assert_eq!(release_fn_name(&BrixType::ComplexMatrix), Some("complexmatrix_release"));
    assert_eq!(retain_fn_name(&BrixType::Int), None);
    assert_eq!(release_fn_name(&BrixType::Complex), None);
}

#[test]
fn release_plan_releases_each_bound_name_once() {
    let scope = vec![
        ("a".to_string(), BrixType::String),
        ("b".to_string(), BrixType::Matrix),
        ("a".to_string(), BrixType::String),
        ("c".to_string(), BrixType::String),
    ];
    let mut vars: StrMap<u8> = StrMap::new();
    vars.insert("a".to_string(), 0);
    vars.insert("c".to_string(), 0);
    assert_eq!(release_plan(&scope, &vars), vec![0, 3]);
}
