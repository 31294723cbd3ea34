use codegen::types::BrixType;
use codegen::generics::{
    TypeParam, Param, InstanceCache, mangle_generic_name, substitute_type, substitute_params, substitute_return_type,
    infer_generic_types,
};
use codegen::testlib::{
    ArgUse, ValueKind, Conv, MatcherPlan, ModuleCall, Hook, matcher_arg_use, plan_test_matcher, hook_fn,
    plan_module_call, span_to_line,
};

fn tp(name: &str) -> TypeParam {
    TypeParam { name: name.to_string() }
}

fn param(name: &str, ty: &str) -> Param<()> {
    Param { name: name.to_string(), ty: ty.to_string(), default: None }
}

fn strings(v: &[&str]) -> Vec<String> {
    v.iter().map(|s| s.to_string()).collect()
}

#[test]
fn instances_are_named_after_their_arguments() {
    assert_eq!(mangle_generic_name("swap", &strings(&["int", "float"])), "swap_int_float");
    assert_eq!(mangle_generic_name("Box", &strings(&["string"])), "Box_string");
}

#[test]
fn substitution_replaces_type_parameters() {
    let tps = vec![tp("T"), tp("U")];
    let args = strings(&["int", "float"]);
    assert_eq!(substitute_type("T", &tps, &args), "int");
    assert_eq!(substitute_type("U", &tps, &args), "float");
    assert_eq!(substitute_type("string", &tps, &args), "string");
    assert_eq!(substitute_type("T", &[], &args), "T");
}

#[test]
fn substitution_in_parameters_and_return_types() {
    let tps = vec![tp("T")];
    let args = strings(&["float"]);
    let ps = substitute_params(vec![param("a", "T"), param("n", "int")], &tps, &args);
    assert_eq!(ps[0].ty, "float");
    assert_eq!(ps[0].name, "a");
    assert_eq!(ps[1].ty, "int");
    let ret = substitute_return_type(&Some(strings(&["T", "T"])), &tps, &args);
    assert_eq!(ret, Some(strings(&["float", "float"])));
    assert_eq!(substitute_return_type(&None, &tps, &args), None);
}

#[test]
fn inference_promotes_int_and_float_to_float() {
    let tps = vec![tp("T")];
    let ps = vec![param("a", "T"), param("b", "T")];
    let r = infer_generic_types(&tps, &ps, &[BrixType::Int, BrixType::Float]);
    assert_eq!(r, Ok(strings(&["float"])));
    let s = infer_generic_types(&tps, &ps, &[BrixType::Int, BrixType::Int]);
    assert_eq!(s, Ok(strings(&["int"])));
}

#[test]
fn inference_keeps_the_first_binding_on_other_conflicts() {
    let tps = vec![tp("T")];
    let ps = vec![param("a", "T"), param("b", "T")];
    let r = infer_generic_types(&tps, &ps, &[BrixType::String, BrixType::Int]);
    assert_eq!(r, Ok(strings(&["string"])));
}

#[test]
fn inference_fails_on_an_undetermined_parameter() {
    let tps = vec![tp("T"), tp("U")];
    let ps = vec![param("a", "T"), param("n", "int")];
    let r = infer_generic_types(&tps, &ps, &[BrixType::Matrix, BrixType::Int]);
    assert_eq!(r, Err("U".to_string()));
}

#[test]
fn instance_cache_finds_recorded_instances() {
    let mut c = InstanceCache::new();
    let args = strings(&["int"]);
    assert_eq!(c.lookup("id", &args), None);
    let name = c.record("id", &args);
    assert_eq!(name, "id_int");
    assert_eq!(c.lookup("id", &args), Some("id_int".to_string()));
    assert_eq!(c.lookup("id", &strings(&["float"])), None);
}

#[test]
fn matcher_arguments() {
    assert_eq!(matcher_arg_use("toBe"), ArgUse::Required);
    assert_eq!(matcher_arg_use("toBeTruthy"), ArgUse::Unused);
    assert_eq!(matcher_arg_use("toBeNil"), ArgUse::Unused);
}

#[test]
fn to_be_on_ints() {
    match plan_test_matcher("toBe", false, &BrixType::Int, Some(&BrixType::Float)) {
        MatcherPlan::Call(c) => {
            assert_eq!(c.func, "test_expect_toBe_int");
            assert_eq!(c.actual_kind, ValueKind::I64);
            assert_eq!(c.expected, Some((ValueKind::I64, Conv::FloatToInt)));
        },
        _ => panic!("expected a call"),
    }
}

#[test]
fn negated_to_be_on_floats() {
    match plan_test_matcher("toBe", true, &BrixType::Float, Some(&BrixType::Int)) {
        MatcherPlan::Call(c) => {
            assert_eq!(c.func, "test_expect_not_toBe_float");
            assert_eq!(c.expected, Some((ValueKind::F64, Conv::IntToFloat)));
        },
        _ => panic!("expected a call"),
    }
}

#[test]
fn missing_required_argument() {
    assert!(matches!(plan_test_matcher("toBe", false, &BrixType::Int, None), MatcherPlan::MissingArgument));
}

#[test]
fn negated_truthy_is_falsy() {
    match plan_test_matcher("toBeTruthy", true, &BrixType::Int, None) {
        MatcherPlan::Call(c) => {
            assert_eq!(c.func, "test_expect_toBeFalsy");
            assert_eq!(c.actual_conv, Conv::IntOrZero);
            assert_eq!(c.expected, None);
        },
        _ => panic!("expected a call"),
    }
}

#[test]
fn comparison_matchers_pick_float_when_either_side_is_float() {
    match plan_test_matcher("toBeGreaterThan", false, &BrixType::Int, Some(&BrixType::Float)) {
        MatcherPlan::Call(c) => {
            assert_eq!(c.func, "test_expect_toBeGreaterThan_float");
            assert_eq!(c.actual_conv, Conv::IntToFloat);
        },
        _ => panic!("expected a call"),
    }
}

#[test]
fn module_calls_and_hooks() {
    assert_eq!(plan_module_call("describe", 2), Ok(ModuleCall::Describe));
    assert_eq!(plan_module_call("it", 1), Err(ModuleCall::It));
    assert_eq!(plan_module_call("beforeEach", 1), Ok(ModuleCall::Hook(Hook::BeforeEach)));
    assert_eq!(plan_module_call("whatever", 0), Ok(ModuleCall::Ignored));
    assert_eq!(hook_fn(Hook::AfterAll), "test_after_all_register");
}

#[test]
fn lines_of_offsets() {
    let src = "let a = 1\nlet b = 2\n\nprint(a)";
    assert_eq!(span_to_line(src, 0), 1);
    assert_eq!(span_to_line(src, 10), 2);
    assert_eq!(span_to_line(src, 21), 4);
    assert_eq!(span_to_line(src, 1000), 4);
}

#[test]
fn negated_to_equal_calls_the_negated_check() {
    match plan_test_matcher("toEqual", true, &BrixType::IntMatrix, Some(&BrixType::IntMatrix)) {
        MatcherPlan::Call(c) => assert_eq!(c.func, "test_expect_not_toEqual_int_array"),
        _ => panic!("expected a call"),
    }
    match plan_test_matcher("toEqual", false, &BrixType::IntMatrix, Some(&BrixType::IntMatrix)) {
        MatcherPlan::Call(c) => assert_eq!(c.func, "test_expect_toEqual_int_array"),
        _ => panic!("expected a call"),
    }
}

#[test]
fn negated_comparison_and_collection_matchers() {
    match plan_test_matcher("toBeGreaterThan", true, &BrixType::Int, Some(&BrixType::Float)) {
        MatcherPlan::Call(c) => assert_eq!(c.func, "test_expect_not_toBeGreaterThan_float"),
        _ => panic!("expected a call"),
    }
    match plan_test_matcher("toBeCloseTo", true, &BrixType::Float, Some(&BrixType::Float)) {
        MatcherPlan::Call(c) => assert_eq!(c.func, "test_expect_not_toBeCloseTo"),
        _ => panic!("expected a call"),
    }
    match plan_test_matcher("toContain", true, &BrixType::String, Some(&BrixType::String)) {
        MatcherPlan::Call(c) => assert_eq!(c.func, "test_expect_not_toContain_string"),
        _ => panic!("expected a call"),
    }
    match plan_test_matcher("toHaveLength", true, &BrixType::String, Some(&BrixType::Int)) {
        MatcherPlan::Call(c) => assert_eq!(c.func, "test_expect_not_toHaveLength_string"),
        _ => panic!("expected a call"),
    }
}
