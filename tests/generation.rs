use finch_cpp::class::FinchClass;
use finch_cpp::config::{
    abi_file_name_text, cmake_head_text, generate_sources, header_file_name_text, impl_file_name_text,
};
use finch_cpp::context::GenContext;
use finch_cpp::emit::{crate_ident, find_marker, splice_instantiations};
use finch_cpp::members::{FinchDrop, FinchGetter, FinchMethod, FinchNew, FinchSetter, FinchStatic, ToCpp};
use finch_cpp::types::{FinchType, GenError, TypeKind};
use finch_cpp::{Builder, Config};

const GUARD: &str = "  if (this->self == nullptr) {\n    std::cerr << \"The internal pointer on this object is no longer valid. Either the destructor or a method that consumes the internal pointer has been called.\" << std::endl;\n    abort();\n  }\n";

fn prim(kind: TypeKind, name: &str) -> FinchType {
    FinchType {
        kind,
        display_name: name.to_string(),
        canonical_type: None,
        template_argument_types: Vec::new(),
    }
}

fn record(name: &str, args: Vec<Option<FinchType>>) -> FinchType {
    FinchType {
        kind: TypeKind::Record,
        display_name: name.to_string(),
        canonical_type: None,
        template_argument_types: args,
    }
}

fn string_ty() -> FinchType {
    record("finch::bindgen::demo::FinchString", Vec::new())
}

fn option_of(inner: FinchType) -> FinchType {
    let name = format!("finch::bindgen::demo::FinchOption<{}>", inner.display_name);
    record(&name, vec![Some(inner)])
}

fn result_of(inner: FinchType) -> FinchType {
    let name = format!("finch::bindgen::demo::FinchResult<{}>", inner.display_name);
    record(&name, vec![Some(inner)])
}

fn ctx() -> GenContext {
    GenContext::new("demo".to_string())
}

fn method(name: &str, args: Vec<(&str, FinchType)>, ret: FinchType, consume: bool) -> FinchMethod {
    FinchMethod {
        class_name: "Counter".to_string(),
        method_name: name.to_string(),
        fn_name: format!("counter_{}", name),
        arg_names: args.iter().map(|a| a.0.to_string()).collect(),
        arg_types: args.into_iter().map(|a| a.1).collect(),
        ret_type: ret,
        consume,
        comments: None,
    }
}

fn empty_class(name: &str) -> FinchClass {
    FinchClass {
        name: name.to_string(),
        c_name: format!("{}Raw", name),
        new: None,
        drop: None,
        statics: Vec::new(),
        methods: Vec::new(),
        getters: Vec::new(),
        setters: Vec::new(),
        comments: None,
    }
}

#[test]
fn consuming_void_method_clears_handle_after_call() {
    let m = method("finish", vec![("n", prim(TypeKind::Int, "int"))], prim(TypeKind::Void, "void"), true);
    let mut c = ctx();
    let text = m.to_impl(&mut c).unwrap();
    assert_eq!(
        text,
        format!(
            "void Counter::finish(int n) {{\n{}  counter_finish(this->self, n);\n  this->self = nullptr;\n}}\n",
            GUARD
        )
    );
    let guard_at = text.find("if (this->self == nullptr) {").unwrap();
    let call_at = text.find("counter_finish(").unwrap();
    let clear_at = text.find("this->self = nullptr;").unwrap();
    assert!(text[guard_at..call_at].contains("abort();"));
    assert!(guard_at < call_at && call_at < clear_at);
    assert_eq!(text.matches("counter_finish(").count(), 1);
}

#[test]
fn consuming_method_with_result_clears_before_converting() {
    let m = method("take", Vec::new(), string_ty(), true);
    let mut c = ctx();
    let text = m.to_impl(&mut c).unwrap();
    assert!(text.starts_with("std::string Counter::take() {\n"));
    assert!(text.contains("  auto value = counter_take(this->self);\n  this->self = nullptr;\n  return [](finch::bindgen::demo::FinchString finch)"));
    assert!(text.ends_with("}(value);\n}\n"));
}

#[test]
fn non_consuming_method_keeps_handle() {
    let m = method("get", Vec::new(), prim(TypeKind::Int, "int"), false);
    let mut c = ctx();
    let text = m.to_impl(&mut c).unwrap();
    assert_eq!(text, format!("int Counter::get() {{\n{}  return counter_get(this->self);\n}}\n", GUARD));
    assert!(!text.contains("this->self = nullptr"));
}

#[test]
fn destructor_only_with_handle() {
    let d = FinchDrop { class_name: "Counter".to_string(), fn_name: "counter_free".to_string() };
    let mut c = ctx();
    assert_eq!(d.to_header(&mut c), Ok("~Counter();\n".to_string()));
    assert_eq!(
        d.to_impl(&mut c),
        Ok("Counter::~Counter() {\n  if (this->self) {\n    counter_free(this->self);\n  }\n}\n".to_string())
    );
}

#[test]
fn class_with_string_constructor_and_fallible_method() {
    let mut class = empty_class("Counter");
    class.new = Some(FinchNew {
        class_name: "Counter".to_string(),
        fn_name: "counter_new".to_string(),
        arg_names: vec!["label".to_string()],
        arg_types: vec![string_ty()],
        comments: Some("// Makes a counter.".to_string()),
    });
    class.methods.push(method("count", Vec::new(), result_of(prim(TypeKind::Int, "int32_t")), false));
    let mut c = ctx();
    let header = class.to_header(&mut c).unwrap();
    assert!(header.starts_with("class Counter {\npublic:\n// Makes a counter.\nCounter(std::string label);\nint32_t count();\n"));
    assert!(header.ends_with("\nprivate:\n  Counter(const Counter&) = delete;\n  Counter &operator=(const Counter&) = delete;\n  CounterRaw *self = nullptr;\n};\n"));
    let body = class.to_impl(&mut c).unwrap();
    assert!(body.starts_with("Counter::Counter(std::string label) {\n  this->self = counter_new([](std::string str) -> finch::bindgen::demo::FinchString"));
    assert!(body.contains("___builtin___FinchString___new("));
    assert!(body.contains("if (finch.tag == finch::bindgen::demo::FinchResult<int32_t>::Tag::Ok) { return finch.ok._0; }"));
    let err_at = body.find("std::string str(finch.err._0.ptr, finch.err._0.len);").unwrap();
    let drop_at = body.find("___builtin___FinchString___drop(finch.err._0);").unwrap();
    let throw_at = body.find("throw std::runtime_error(str);").unwrap();
    assert!(err_at < drop_at && drop_at < throw_at);
    assert!(body[throw_at..].contains("#else\nstd::cerr"));
    assert!(body[throw_at..].contains("abort();\n#endif"));
    assert!(body.contains("#ifdef finch_bindgen_EXCEPTIONS\n"));
    assert!(body.contains("#else\nstd::cerr << \"fatal: Result returned Err("));
    assert_eq!(c.flush(), vec!["template struct FinchResult<int32_t>;".to_string()]);
    assert!(!c.uses_optional());
}

#[test]
fn static_with_optional_string_argument() {
    let s = FinchStatic {
        class_name: "Counter".to_string(),
        method_name: "describe".to_string(),
        fn_name: "counter_describe".to_string(),
        arg_names: vec!["label".to_string()],
        arg_types: vec![option_of(string_ty())],
        ret_type: prim(TypeKind::Void, "void"),
        comments: None,
    };
    let mut c = ctx();
    assert_eq!(
        s.to_header(&mut c),
        Ok("static void describe(nonstd::optional<std::string> label);\n".to_string())
    );
    let text = s.to_impl(&mut c).unwrap();
    assert!(text.starts_with("void Counter::describe(nonstd::optional<std::string> label) {\n  return counter_describe([](nonstd::optional<std::string> opt)"));
    assert!(!text.contains("this->self"));
    assert_eq!(text.matches("FinchString___new(").count(), 1);
    let some_at = text.find("if (opt.has_value()) {").unwrap();
    let new_at = text.find("FinchString___new(").unwrap();
    let none_at = text.find("::Tag::None;").unwrap();
    assert!(some_at < new_at && new_at < none_at);
    assert!(!text[none_at..].contains("FinchString___new("));
    assert_eq!(
        c.flush(),
        vec!["template struct FinchOption<finch::bindgen::demo::FinchString>;".to_string()]
    );
    assert!(c.uses_optional());
}

#[test]
fn getter_and_setter() {
    let g = FinchGetter {
        class_name: "Counter".to_string(),
        field_name: "value".to_string(),
        fn_name: "counter_get_value".to_string(),
        type_: prim(TypeKind::UInt, "uint32_t"),
        comments: None,
    };
    let s = FinchSetter {
        class_name: "Counter".to_string(),
        field_name: "value".to_string(),
        fn_name: "counter_set_value".to_string(),
        type_: prim(TypeKind::UInt, "uint32_t"),
        comments: None,
    };
    let mut c = ctx();
    assert_eq!(g.to_header(&mut c), Ok("uint32_t get_value();\n".to_string()));
    assert_eq!(
        g.to_impl(&mut c),
        Ok(format!("uint32_t Counter::get_value() {{\n{}  return counter_get_value(this->self);\n}}\n", GUARD))
    );
    assert_eq!(s.to_header(&mut c), Ok("void set_value(uint32_t value);\n".to_string()));
    assert_eq!(
        s.to_impl(&mut c),
        Ok(format!(
            "void Counter::set_value(uint32_t value) {{\n{}  return counter_set_value(this->self, value);\n}}\n",
            GUARD
        ))
    );
}

#[test]
fn method_with_two_arguments() {
    let m = method(
        "add",
        vec![("a", prim(TypeKind::Int, "int")), ("b", prim(TypeKind::Long, "long"))],
        prim(TypeKind::Int, "int"),
        false,
    );
    let mut c = ctx();
    assert_eq!(m.to_header(&mut c), Ok("int add(int a, long b);\n".to_string()));
    let text = m.to_impl(&mut c).unwrap();
    assert!(text.contains("return counter_add(this->self, a, b);"));
}

#[test]
fn member_error_names_the_type() {
    let m = method("bad", vec![("w", record("demo::Widget", Vec::new()))], prim(TypeKind::Int, "int"), false);
    let mut c = ctx();
    assert_eq!(m.to_header(&mut c), Err(GenError::UnknownType("demo::Widget".to_string())));
}

#[test]
fn package_name_becomes_identifier() {
    assert_eq!(crate_ident("my-cool-crate"), "my_cool_crate");
    assert_eq!(crate_ident("plain"), "plain");
    assert_eq!(crate_ident(""), "");
}

#[test]
fn splice_before_marker() {
    let decls = vec!["template struct FinchOption<int>;".to_string(), "X;".to_string()];
    assert_eq!(
        splice_instantiations("head\nBEGIN {\nbody\n", "BEGIN {", &decls),
        "head\ntemplate struct FinchOption<int>;\nX;\n\nBEGIN {\nbody\n"
    );
    assert_eq!(splice_instantiations("no marker here", "BEGIN {", &decls), "no marker here");
    assert_eq!(
        splice_instantiations("a BEGIN { b BEGIN {", "BEGIN {", &vec!["D;".to_string()]),
        "a D;\n\nBEGIN { b BEGIN {"
    );
}

#[test]
fn marker_search() {
    let h: Vec<char> = "abcabd".chars().collect();
    let m: Vec<char> = "abd".chars().collect();
    assert_eq!(find_marker(&h, &m), Some(3));
    let m: Vec<char> = "abx".chars().collect();
    assert_eq!(find_marker(&h, &m), None);
}

#[test]
fn whole_run() {
    let mut class = empty_class("Counter");
    class.methods.push(method("peek", Vec::new(), option_of(prim(TypeKind::Int, "int")), false));
    class.drop = Some(FinchDrop { class_name: "Counter".to_string(), fn_name: "counter_free".to_string() });
    let classes = vec![class];
    let out = generate_sources("demo", &classes, "typedef int x;\nBEGIN {\n}\n", "BEGIN {", "#include").unwrap();
    assert_eq!(out.namespace, "demo");
    assert!(out.header.starts_with("namespace demo {\nclass Counter {\npublic:\n~Counter();\nnonstd::optional<int> peek();\n"));
    assert!(out.header.ends_with("\n}\n"));
    assert!(out.implementation.starts_with("namespace demo {\nCounter::~Counter() {"));
    assert_eq!(out.instantiations, vec!["template struct FinchOption<int>;".to_string()]);
    assert_eq!(out.abi_header, "typedef int x;\ntemplate struct FinchOption<int>;\n\nBEGIN {\n}\n");
    assert!(out.uses_optional);
    let pre = "#pragma once\n\n#include <cstdarg>\n#include <cstdint>\n#include <cstdlib>\n#include <cassert>\n#include <new>\n#include <iostream>\n#include <stdexcept>\n#include <string>\n#include \"optional.h\"\n";
    assert_eq!(
        out.header_file,
        format!("{}\n#include \"demo-finch_bindgen.h\"\n\n{}\n#include \"demo-impl.h\"\n", pre, out.header)
    );
    assert_eq!(
        out.impl_file,
        format!(
            "{}\n#if defined(__cpp_exceptions) || defined(__EXCEPTIONS) || defined(_CPPUNWIND)\n  #define finch_bindgen_EXCEPTIONS\n#endif\n\n{}",
            pre, out.implementation
        )
    );
}

#[test]
fn optional_header_only_when_used() {
    let mut class = empty_class("Counter");
    class.methods.push(method("get", Vec::new(), prim(TypeKind::Int, "int"), false));
    let out = generate_sources("demo", &vec![class], "BEGIN {", "BEGIN {", "#include").unwrap();
    assert!(!out.uses_optional);
    assert!(!out.header_file.contains("optional.h"));
    assert!(!out.impl_file.contains("optional.h"));
    assert!(out.header_file.contains("#include <iostream>\n"));
}

#[test]
fn file_names() {
    assert_eq!(header_file_name_text("demo"), "demo.h");
    assert_eq!(impl_file_name_text("demo"), "demo-impl.h");
    assert_eq!(abi_file_name_text("demo"), "demo-finch_bindgen.h");
}

#[test]
fn whole_run_reports_unknown_type() {
    let mut class = empty_class("Counter");
    class.methods.push(method("peek", Vec::new(), record("demo::Widget", Vec::new()), false));
    let r = generate_sources("my-demo", &vec![class], "", "BEGIN {", "#include");
    assert_eq!(r.unwrap_err(), GenError::UnknownType("demo::Widget".to_string()));
}

#[test]
fn well_formed_classes() {
    let mut class = empty_class("Counter");
    assert!(class.well_formed());
    let mut m = method("x", Vec::new(), prim(TypeKind::Int, "int"), false);
    m.arg_names.push("dangling".to_string());
    class.methods.push(m);
    assert!(!class.well_formed());
}

#[test]
fn builder_settings() {
    let b = Builder::new();
    assert_eq!(b.config().out_dir(), ".");
    assert!(b.config().generate_cmake());
    let b = b.with_out_dir("target/out".to_string()).with_generate_cmake(false);
    assert_eq!(b.config().out_dir(), "target/out");
    assert!(!b.config().generate_cmake());
    let d = Config::default();
    assert_eq!(d.out_dir(), ".");
    let out = Builder::new().generate("demo", &Vec::new(), "BEGIN {", "BEGIN {", "#include").unwrap();
    assert_eq!(out.header, "namespace demo {\n\n}\n");
    assert_eq!(out.abi_header, "\nBEGIN {");
    assert!(!out.uses_optional);
}

#[test]
fn cmake_head() {
    assert_eq!(
        cmake_head_text("my-demo", "out/inc"),
        "set(CRATE_NAME \"my-demo\")\nset(my-demo_INCLUDE_DIR \"${CMAKE_CURRENT_SOURCE_DIR}/out/inc\")\n\n"
    );
}
