use references::ast::{Expr, Lit, MemberProp};
use references::static_analyser::{StaticAnalyser, StaticExpr};

fn ident(name: &str) -> Expr {
    Expr::Ident(name.to_string())
}

fn member(obj: Expr, name: &str) -> Expr {
    Expr::Member(Box::new(obj), MemberProp::Ident(name.to_string()))
}

fn computed(obj: Expr, key: Expr) -> Expr {
    Expr::Member(Box::new(obj), MemberProp::Computed(Box::new(key)))
}

fn string(text: &str) -> Expr {
    Expr::Lit(Lit::Str(text.to_string()))
}

fn names(path: &[&str]) -> Vec<String> {
    path.iter().map(|name| name.to_string()).collect()
}

fn with_import(local: &str, module: &str, path: &[&str]) -> StaticAnalyser {
    let mut analyser = StaticAnalyser::default();
    analyser.bind(local.to_string(), module.to_string(), names(path));
    analyser
}

#[test]
fn a_string_literal_is_a_string() {
    let analyser = StaticAnalyser::default();
    assert_eq!(analyser.evaluate_expr(&string("text")), StaticExpr::String("text".to_string()));
}

#[test]
fn other_literals_are_unknown() {
    let analyser = StaticAnalyser::default();
    assert_eq!(analyser.evaluate_expr(&Expr::Lit(Lit::Bool(true))), StaticExpr::Unknown);
    assert_eq!(analyser.evaluate_expr(&Expr::Lit(Lit::Null)), StaticExpr::Unknown);
    assert_eq!(analyser.evaluate_expr(&Expr::Lit(Lit::Num(0))), StaticExpr::Unknown);
    assert_eq!(analyser.evaluate_expr(&Expr::Other), StaticExpr::Unknown);
    assert_eq!(analyser.evaluate_expr(&Expr::Array(vec![])), StaticExpr::Unknown);
}

#[test]
fn an_identifier_is_a_free_variable() {
    let analyser = StaticAnalyser::default();
    assert_eq!(analyser.evaluate_expr(&ident("a")), StaticExpr::FreeVar(names(&["a"])));
}

#[test]
fn members_extend_the_path() {
    let analyser = StaticAnalyser::default();
    let expr = member(member(ident("a"), "b"), "c");
    assert_eq!(analyser.evaluate_expr(&expr), StaticExpr::FreeVar(names(&["a", "b", "c"])));
}

#[test]
fn a_computed_string_names_a_property() {
    let analyser = StaticAnalyser::default();
    let expr = computed(ident("a"), string("b"));
    assert_eq!(analyser.evaluate_expr(&expr), StaticExpr::FreeVar(names(&["a", "b"])));
    assert_eq!(analyser.evaluate_expr(&expr), analyser.evaluate_expr(&member(ident("a"), "b")));
}

#[test]
fn other_computed_properties_are_unknown() {
    let analyser = StaticAnalyser::default();
    assert_eq!(analyser.evaluate_expr(&computed(ident("a"), ident("b"))), StaticExpr::Unknown);
}

#[test]
fn private_names_are_unknown() {
    let analyser = StaticAnalyser::default();
    let expr = Expr::Member(Box::new(ident("a")), MemberProp::PrivateName);
    assert_eq!(analyser.evaluate_expr(&expr), StaticExpr::Unknown);
    assert_eq!(analyser.prop_to_name(&MemberProp::PrivateName), None);
}

#[test]
fn members_of_strings_are_unknown() {
    let analyser = StaticAnalyser::default();
    assert_eq!(analyser.evaluate_expr(&member(string("a"), "length")), StaticExpr::Unknown);
    assert_eq!(analyser.evaluate_expr(&member(Expr::Other, "a")), StaticExpr::Unknown);
}

#[test]
fn imports_are_looked_up() {
    let analyser = with_import("join", "path", &["join"]);
    assert_eq!(
        analyser.evaluate_expr(&ident("join")),
        StaticExpr::ImportedVar("path".to_string(), names(&["join"]))
    );
    assert_eq!(
        analyser.evaluate_expr(&member(ident("join"), "name")),
        StaticExpr::ImportedVar("path".to_string(), names(&["join", "name"]))
    );
    assert_eq!(analyser.evaluate_expr(&ident("other")), StaticExpr::FreeVar(names(&["other"])));
}

#[test]
fn a_namespace_starts_with_an_empty_path() {
    let analyser = with_import("ns", "mod", &[]);
    assert_eq!(
        analyser.evaluate_expr(&member(ident("ns"), "x")),
        StaticExpr::ImportedVar("mod".to_string(), names(&["x"]))
    );
}

#[test]
fn a_later_binding_replaces_an_earlier_one() {
    let mut analyser = with_import("a", "first", &["x"]);
    analyser.bind("a".to_string(), "second".to_string(), names(&["y"]));
    assert_eq!(
        analyser.evaluate_expr(&ident("a")),
        StaticExpr::ImportedVar("second".to_string(), names(&["y"]))
    );
}

#[test]
fn only_the_root_is_looked_up() {
    let analyser = with_import("b", "mod", &["b"]);
    let expr = member(ident("a"), "b");
    assert_eq!(analyser.evaluate_expr(&expr), StaticExpr::FreeVar(names(&["a", "b"])));
}

#[test]
fn names_of_properties() {
    let analyser = with_import("key", "mod", &["key"]);
    assert_eq!(
        analyser.prop_to_name(&MemberProp::Ident("a".to_string())),
        Some("a".to_string())
    );
    assert_eq!(
        analyser.prop_to_name(&MemberProp::Computed(Box::new(string("a b")))),
        Some("a b".to_string())
    );
    assert_eq!(analyser.prop_to_name(&MemberProp::Computed(Box::new(ident("key")))), None);
}
