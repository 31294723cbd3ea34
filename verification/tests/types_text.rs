use codegen::types::{BrixType, same_type};
use codegen::strmap::{StrMap, str_equal};
use codegen::typeparse::resolve_type_text;
use codegen::text::{chars_of, trim_chars, split_chars, find_chars, contains_chars, decimal_string, string_of};
use codegen::format::{int_format, float_format, to_string_plan, ToStringPlan, input_kind, typeof_text, debug_text};

fn parse(aliases: &StrMap<String>, structs: &StrMap<u8>, s: &str) -> BrixType {
    resolve_type_text(aliases, structs, s)
}

#[test]
fn base_type_names() {
    let al: StrMap<String> = StrMap::new();
    let st: StrMap<u8> = StrMap::new();
    assert!(same_type(&parse(&al, &st, "int"), &BrixType::Int));
    assert!(same_type(&parse(&al, &st, "float"), &BrixType::Float));
    assert!(same_type(&parse(&al, &st, "intmatrix"), &BrixType::IntMatrix));
    assert!(same_type(&parse(&al, &st, "atom"), &BrixType::Atom));
}

#[test]
fn unknown_names_default_to_int() {
    let al: StrMap<String> = StrMap::new();
    let st: StrMap<u8> = StrMap::new();
    assert!(same_type(&parse(&al, &st, "Widget"), &BrixType::Int));
}

#[test]
fn optional_is_union_with_nil() {
    let al: StrMap<String> = StrMap::new();
    let st: StrMap<u8> = StrMap::new();
    let t = parse(&al, &st, "float?");
    assert!(same_type(&t, &BrixType::Union(vec![BrixType::Float, BrixType::Nil])));
}

#[test]
fn unions_and_intersections_split_on_separators() {
    let al: StrMap<String> = StrMap::new();
    let mut st: StrMap<u8> = StrMap::new();
    st.insert("A".to_string(), 0);
    st.insert("B".to_string(), 0);
    let u = parse(&al, &st, "int | string | nil");
    assert!(same_type(&u, &BrixType::Union(vec![BrixType::Int, BrixType::String, BrixType::Nil])));
    let i = parse(&al, &st, "A & B");
    assert!(same_type(&i, &BrixType::Intersection(vec![
        BrixType::Struct("A".to_string()),
        BrixType::Struct("B".to_string()),
    ])));
}

#[test]
fn aliases_resolve_to_their_definition() {
    let mut al: StrMap<String> = StrMap::new();
    al.insert("MyInt".to_string(), "int".to_string());
    al.insert("Maybe".to_string(), "string?".to_string());
    al.insert("Num".to_string(), "int | float".to_string());
    let st: StrMap<u8> = StrMap::new();
    assert!(same_type(&parse(&al, &st, "MyInt"), &BrixType::Int));
    assert!(same_type(&parse(&al, &st, "Maybe"), &BrixType::Union(vec![BrixType::String, BrixType::Nil])));
    assert!(same_type(&parse(&al, &st, "Num"), &BrixType::Union(vec![BrixType::Int, BrixType::Float])));
}

#[test]
fn union_members_are_trimmed_and_resolved() {
    let mut al: StrMap<String> = StrMap::new();
    al.insert("Id".to_string(), "int".to_string());
    let st: StrMap<u8> = StrMap::new();
    let u = parse(&al, &st, "Id | float?");
    assert!(same_type(&u, &BrixType::Union(vec![
        BrixType::Int,
        BrixType::Union(vec![BrixType::Float, BrixType::Nil]),
    ])));
}

#[test]
fn registry_reads_back_writes() {
    let mut m: StrMap<i32> = StrMap::new();
    assert!(!m.contains_key("x"));
    m.insert("x".to_string(), 1);
    m.insert("y".to_string(), 2);
    m.insert("x".to_string(), 3);
    assert_eq!(m.get("x"), Some(&3));
    assert_eq!(m.get("y"), Some(&2));
    assert_eq!(m.get("z"), None);
    assert!(str_equal("abc", "abc"));
    assert!(!str_equal("abc", "abd"));
}

#[test]
fn text_helpers() {
    let v = chars_of("  a | b  ");
    assert_eq!(string_of(&trim_chars(&v)), "a | b");
    let parts = split_chars(&chars_of("a | b | c"), &chars_of(" | "));
    let words: Vec<String> = parts.iter().map(|p| string_of(p)).collect();
    assert_eq!(words, vec!["a".to_string(), "b".to_string(), "c".to_string()]);
    assert_eq!(find_chars(&chars_of("x & y"), &chars_of(" & "), 0), Some(1));
    assert!(!contains_chars(&chars_of("x&y"), &chars_of(" & ")));
}

#[test]
fn decimal_numerals() {
    assert_eq!(decimal_string(0), "0");
    assert_eq!(decimal_string(7), "7");
    assert_eq!(decimal_string(10), "10");
    assert_eq!(decimal_string(4096), "4096");
}

#[test]
fn integer_print_formats() {
    assert_eq!(int_format(None), "%lld");
    assert_eq!(int_format(Some("x")), "%x");
    assert_eq!(int_format(Some("X")), "%X");
    assert_eq!(int_format(Some("o")), "%o");
    assert_eq!(int_format(Some("d")), "%lld");
    assert_eq!(int_format(Some("q")), "%lld");
}

#[test]
fn float_print_formats() {
    assert_eq!(float_format(None), "%g");
    assert_eq!(float_format(Some(".2f")), "%.2f");
    assert_eq!(float_format(Some(".3e")), "%.3e");
    assert_eq!(float_format(Some(".1E")), "%.1E");
    assert_eq!(float_format(Some("e")), "%e");
    assert_eq!(float_format(Some("G")), "%G");
    assert_eq!(float_format(Some("x")), "%g");
}

#[test]
fn string_conversion_plans() {
    assert_eq!(to_string_plan(&BrixType::String), Some(ToStringPlan::Itself));
    assert_eq!(to_string_plan(&BrixType::IntMatrix), Some(ToStringPlan::Array { ints: true }));
    assert_eq!(to_string_plan(&BrixType::Atom), Some(ToStringPlan::AtomName));
    assert_eq!(to_string_plan(&BrixType::Void), None);
}

#[test]
fn input_reads_by_its_argument() {
    assert!(same_type(&input_kind(Some("int")), &BrixType::Int));
    assert!(same_type(&input_kind(Some("float")), &BrixType::Float));
    assert!(same_type(&input_kind(Some("line")), &BrixType::String));
    assert!(same_type(&input_kind(None), &BrixType::String));
}

#[test]
fn typeof_texts() {
    assert_eq!(typeof_text(&BrixType::FloatPtr), "float_ptr");
    assert_eq!(typeof_text(&BrixType::Tuple(vec![BrixType::Int])), "tuple");
    assert_eq!(typeof_text(&BrixType::Struct("Point".to_string())), "Point");
    let u = BrixType::Union(vec![BrixType::Int, BrixType::Nil]);
    assert_eq!(typeof_text(&u), "int | nil");
    let u2 = BrixType::Union(vec![BrixType::Matrix, BrixType::Struct("P".to_string())]);
    assert_eq!(typeof_text(&u2), "unknown | P");
    let i = BrixType::Intersection(vec![BrixType::Struct("A".to_string()), BrixType::Struct("B".to_string())]);
    assert_eq!(typeof_text(&i), "A & B");
}

#[test]
fn debug_texts_name_types_as_their_variants() {
    let t = BrixType::Tuple(vec![BrixType::Int, BrixType::Struct("P".to_string()), BrixType::Optional(Box::new(BrixType::Float))]);
    assert_eq!(debug_text(&t), "Tuple([Int, Struct(\"P\"), Optional(Float)])");
    assert_eq!(debug_text(&t), format!("{:?}", t));
    let u = BrixType::Union(vec![BrixType::String, BrixType::Nil]);
    assert_eq!(debug_text(&u), format!("{:?}", u));
    let q = BrixType::Struct("a\"b\\c".to_string());
    assert_eq!(debug_text(&q), "Struct(\"a\\\"b\\\\c\")");
    assert_eq!(debug_text(&q), format!("{:?}", q));
    assert_eq!(debug_text(&BrixType::Intersection(vec![])), "Intersection([])");
}
