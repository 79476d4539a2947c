use finch_cpp::context::GenContext;
use finch_cpp::marshal::{convert_arg, convert_ret, host_type_of};
use finch_cpp::types::{FinchType, GenError, TypeKind};

fn prim(kind: TypeKind, name: &str) -> FinchType {
    FinchType {
        kind,
        display_name: name.to_string(),
        canonical_type: None,
        template_argument_types: Vec::new(),
    }
}

fn record(name: &str, args: Vec<Option<FinchType>>) -> FinchType {
    FinchType {
        kind: TypeKind::Record,
        display_name: name.to_string(),
        canonical_type: None,
        template_argument_types: args,
    }
}

fn string_ty() -> FinchType {
    record("finch::bindgen::demo::FinchString", Vec::new())
}

fn option_of(inner: FinchType) -> FinchType {
    let name = format!("finch::bindgen::demo::FinchOption<{}>", inner.display_name);
    record(&name, vec![Some(inner)])
}

fn result_of(inner: FinchType) -> FinchType {
    let name = format!("finch::bindgen::demo::FinchResult<{}>", inner.display_name);
    record(&name, vec![Some(inner)])
}

fn alias(name: &str, of: FinchType) -> FinchType {
    FinchType {
        kind: TypeKind::Record,
        display_name: name.to_string(),
        canonical_type: Some(Box::new(of)),
        template_argument_types: Vec::new(),
    }
}

fn ctx() -> GenContext {
    GenContext::new("demo".to_string())
}

#[test]
fn primitive_types_pass_through() {
    let kinds = [
        (TypeKind::Int, "int32_t"),
        (TypeKind::Bool, "bool"),
        (TypeKind::Double, "double"),
        (TypeKind::Void, "void"),
        (TypeKind::ULongLong, "uint64_t"),
    ];
    for (kind, name) in kinds {
        let mut c = ctx();
        let t = prim(kind, name);
        assert_eq!(host_type_of(&mut c, &t), Ok(name.to_string()));
        assert_eq!(convert_arg(&mut c, &t, "x"), Ok("x".to_string()));
        assert_eq!(convert_ret(&mut c, &t, "f(y)"), Ok("f(y)".to_string()));
        assert!(c.flush().is_empty());
        assert!(!c.uses_optional());
    }
}

#[test]
fn alias_is_transparent() {
    let direct = string_ty();
    let aliased = alias("demo::Text", string_ty());
    let mut c1 = ctx();
    let mut c2 = ctx();
    assert_eq!(host_type_of(&mut c1, &direct), host_type_of(&mut c2, &aliased));
    assert_eq!(convert_arg(&mut c1, &direct, "s"), convert_arg(&mut c2, &aliased, "s"));
    assert_eq!(convert_ret(&mut c1, &direct, "s"), convert_ret(&mut c2, &aliased, "s"));
    let opt = option_of(prim(TypeKind::Int, "int"));
    let opt_alias = alias("demo::MaybeInt", alias("demo::MaybeInt2", option_of(prim(TypeKind::Int, "int"))));
    assert_eq!(convert_ret(&mut c1, &opt, "v"), convert_ret(&mut c2, &opt_alias, "v"));
    assert_eq!(c1.flush(), c2.flush());
    assert_eq!(c1.uses_optional(), c2.uses_optional());
}

#[test]
fn host_types() {
    let mut c = ctx();
    assert_eq!(host_type_of(&mut c, &string_ty()), Ok("std::string".to_string()));
    assert!(!c.uses_optional());
    assert_eq!(
        host_type_of(&mut c, &option_of(string_ty())),
        Ok("nonstd::optional<std::string>".to_string())
    );
    assert!(c.uses_optional());
    let mut c = ctx();
    assert_eq!(
        host_type_of(&mut c, &result_of(prim(TypeKind::Int, "int32_t"))),
        Ok("int32_t".to_string())
    );
    assert!(!c.uses_optional());
    assert!(c.flush().is_empty());
}

#[test]
fn string_round_trip_frees_the_record() {
    let mut c = ctx();
    let t = string_ty();
    let sent = convert_arg(&mut c, &t, "text").unwrap();
    let expected_arg = "[](std::string str) -> finch::bindgen::demo::FinchString { return finch::bindgen::demo::___finch_bindgen___demo___builtin___FinchString___new(reinterpret_cast<const uint8_t *>(str.data()), str.size()); }(text)";
    assert_eq!(sent, expected_arg);
    let back = convert_ret(&mut c, &t, &sent).unwrap();
    assert_eq!(
        back,
        format!(
            "[](finch::bindgen::demo::FinchString finch) -> std::string {{ std::string str(finch.ptr, finch.len); finch::bindgen::demo::___finch_bindgen___demo___builtin___FinchString___drop(finch); return str; }}({})",
            expected_arg
        )
    );
    assert_eq!(back.matches("FinchString___new(").count(), 1);
    assert_eq!(back.matches("FinchString___drop(").count(), 1);
    assert!(c.flush().is_empty());
}

#[test]
fn optional_registered_once() {
    let mut c = ctx();
    let t = option_of(prim(TypeKind::Int, "int"));
    for _ in 0..3 {
        convert_arg(&mut c, &t, "a").unwrap();
        convert_ret(&mut c, &t, "b").unwrap();
    }
    assert_eq!(c.flush(), vec!["template struct FinchOption<int>;".to_string()]);
    assert!(c.uses_optional());
}

#[test]
fn nested_wrappers_register_each_level() {
    let mut c = ctx();
    let t = result_of(option_of(string_ty()));
    let text = convert_ret(&mut c, &t, "call()").unwrap();
    let mut got = c.flush();
    got.sort();
    let mut want = vec![
        "template struct FinchOption<finch::bindgen::demo::FinchString>;".to_string(),
        "template struct FinchResult<finch::bindgen::demo::FinchOption<finch::bindgen::demo::FinchString>>;".to_string(),
    ];
    want.sort();
    assert_eq!(got, want);
    assert!(c.uses_optional());
    assert!(text.contains("finch.ok._0"));
    assert!(text.contains("finch.some._0"));
}

#[test]
fn optional_arg_text() {
    let mut c = ctx();
    let t = option_of(prim(TypeKind::Int, "int"));
    let text = convert_arg(&mut c, &t, "v").unwrap();
    assert_eq!(
        text,
        "[](nonstd::optional<int> opt) -> finch::bindgen::demo::FinchOption<int> { finch::bindgen::demo::FinchOption<int> finch; if (opt.has_value()) { finch.tag = finch::bindgen::demo::FinchOption<int>::Tag::Some; finch.some = { opt.value() }; } else { finch.tag = finch::bindgen::demo::FinchOption<int>::Tag::None; } return finch; }(v)"
    );
}

#[test]
fn optional_ret_text() {
    let mut c = ctx();
    let t = option_of(prim(TypeKind::Int, "int"));
    let text = convert_ret(&mut c, &t, "v").unwrap();
    assert_eq!(
        text,
        "[](finch::bindgen::demo::FinchOption<int> finch) -> nonstd::optional<int> { if (finch.tag == finch::bindgen::demo::FinchOption<int>::Tag::Some) { return nonstd::optional<int>(finch.some._0); } else { return nonstd::nullopt; } }(v)"
    );
}

#[test]
fn unknown_record_is_an_error() {
    let mut c = ctx();
    let t = record("demo::Widget", Vec::new());
    assert_eq!(host_type_of(&mut c, &t), Err(GenError::UnknownType("demo::Widget".to_string())));
    assert_eq!(convert_arg(&mut c, &t, "x"), Err(GenError::UnknownType("demo::Widget".to_string())));
    assert_eq!(convert_ret(&mut c, &t, "x"), Err(GenError::UnknownType("demo::Widget".to_string())));
    let other = FinchType {
        kind: TypeKind::Other,
        display_name: "int[4]".to_string(),
        canonical_type: None,
        template_argument_types: Vec::new(),
    };
    assert_eq!(host_type_of(&mut c, &other), Err(GenError::UnknownType("int[4]".to_string())));
}

#[test]
fn unknown_inside_wrapper_reports_inner_name() {
    let mut c = ctx();
    let t = option_of(record("demo::Widget", Vec::new()));
    assert_eq!(convert_ret(&mut c, &t, "x"), Err(GenError::UnknownType("demo::Widget".to_string())));
}

#[test]
fn result_argument_is_rejected() {
    let mut c = ctx();
    let t = result_of(prim(TypeKind::Int, "int"));
    let name = t.display_name.clone();
    assert_eq!(convert_arg(&mut c, &t, "x"), Err(GenError::UnknownType(name)));
}

#[test]
fn wrapper_without_argument_is_rejected() {
    let mut c = ctx();
    let t = record("finch::bindgen::demo::FinchOption<int>", vec![None]);
    assert_eq!(
        host_type_of(&mut c, &t),
        Err(GenError::UnknownType("finch::bindgen::demo::FinchOption<int>".to_string()))
    );
    let t = record("finch::bindgen::demo::FinchResult<int>", Vec::new());
    assert!(convert_ret(&mut c, &t, "x").is_err());
}

#[test]
fn other_crate_string_is_unknown() {
    let mut c = ctx();
    let t = record("finch::bindgen::other::FinchString", Vec::new());
    assert!(host_type_of(&mut c, &t).is_err());
}
