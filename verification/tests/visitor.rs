use references::ast::{
    CallExpr, Callee, ExportAll, Expr, ExprOrSpread, ImportDecl, ImportSpecifier, Lit, MemberProp,
    ModuleExportName, NamedExport, Node, NodeKind, Pat, Span, VarDeclarator,
};
use references::reference::{AssetReferenceVc, EsmAssetReferenceVc};
use references::static_analyser::StaticExpr;
use references::vc::{AssetVc, Pattern, RequestVc};
use references::visitor::AssetReferencesVisitor;

const SOURCE: AssetVc = AssetVc { cell: 7 };
const SPAN: Span = Span { lo: 10, hi: 20, ctxt: 0 };

fn visitor() -> AssetReferencesVisitor {
    AssetReferencesVisitor::new(SOURCE, vec![])
}

fn esm(src: &str) -> AssetReferenceVc {
    let request = RequestVc::parse(Pattern::Constant(src.to_string()));
    AssetReferenceVc::Esm(EsmAssetReferenceVc::new(SOURCE, request))
}

fn ident(name: &str) -> Expr {
    Expr::Ident(name.to_string())
}

fn string(text: &str) -> Expr {
    Expr::Lit(Lit::Str(text.to_string()))
}

fn arg(expr: Expr) -> ExprOrSpread {
    ExprOrSpread { spread: false, expr }
}

fn spread(expr: Expr) -> ExprOrSpread {
    ExprOrSpread { spread: true, expr }
}

fn node(kind: NodeKind, children: Vec<Node>) -> Node {
    Node { kind, children }
}

fn export_all(src: &str) -> NodeKind {
    NodeKind::ExportAll(ExportAll { src: src.to_string() })
}

fn import(src: &str, type_only: bool, specifiers: Vec<ImportSpecifier>) -> NodeKind {
    NodeKind::Import(ImportDecl { src: src.to_string(), type_only, specifiers })
}

fn named(local: &str, imported: Option<ModuleExportName>, is_type_only: bool) -> ImportSpecifier {
    ImportSpecifier::Named { local: local.to_string(), imported, is_type_only }
}

fn call_of(callee: Expr, args: Vec<ExprOrSpread>) -> CallExpr {
    CallExpr { span: SPAN, callee: Callee::Expr(Box::new(callee)), args }
}

fn webpack_call(property: &str, args: Vec<ExprOrSpread>) -> NodeKind {
    let callee = Expr::Member(
        Box::new(ident("__webpack_require__")),
        MemberProp::Ident(property.to_string()),
    );
    NodeKind::Call(call_of(callee, args))
}

fn declarator(name: &str, init: Option<Expr>) -> NodeKind {
    NodeKind::VarDeclarator(VarDeclarator { name: Pat::Ident(name.to_string()), init })
}

fn require_call(args: Vec<ExprOrSpread>) -> Option<Expr> {
    Some(Expr::Call(Box::new(call_of(ident("require"), args))))
}

#[test]
fn a_new_visitor_has_found_nothing() {
    let v = visitor();
    assert_eq!(v.source, SOURCE);
    assert_eq!(v.references, vec![]);
    assert_eq!(v.webpack_runtime, None);
    assert!(!v.webpack_entry);
    assert_eq!(v.webpack_chunks, vec![]);
}

#[test]
fn declarations_make_references_in_order() {
    let mut v = AssetReferencesVisitor::new(SOURCE, vec![esm("first")]);
    v.visit_nodes(&vec![
        node(import("a", false, vec![]), vec![]),
        node(export_all("b"), vec![]),
        node(NodeKind::NamedExport(NamedExport { src: Some("c".to_string()) }), vec![]),
        node(NodeKind::NamedExport(NamedExport { src: None }), vec![]),
    ]);
    assert_eq!(v.references, vec![esm("first"), esm("a"), esm("b"), esm("c")]);
}

#[test]
fn nodes_below_others_are_visited() {
    let mut v = visitor();
    v.visit_nodes(&vec![
        node(export_all("a"), vec![node(export_all("b"), vec![])]),
        node(
            NodeKind::NamedExport(NamedExport { src: None }),
            vec![node(export_all("c"), vec![])],
        ),
        node(NodeKind::Call(call_of(ident("f"), vec![])), vec![node(export_all("d"), vec![])]),
        node(declarator("x", None), vec![node(export_all("e"), vec![])]),
    ]);
    assert_eq!(v.references, vec![esm("a"), esm("b"), esm("c"), esm("d"), esm("e")]);
}

#[test]
fn a_walk_in_two_parts_is_a_walk() {
    let first = vec![node(export_all("a"), vec![])];
    let second = vec![node(import("b", false, vec![named("x", None, false)]), vec![])];
    let mut parts = visitor();
    parts.visit_nodes(&first);
    parts.visit_nodes(&second);
    let mut whole = visitor();
    whole.visit_nodes(&vec![
        node(export_all("a"), vec![]),
        node(import("b", false, vec![named("x", None, false)]), vec![]),
    ]);
    assert_eq!(parts.references, whole.references);
}

#[test]
fn specifiers_bind_names() {
    let mut v = visitor();
    v.visit_node(&node(
        import(
            "mod",
            false,
            vec![
                named("a", None, false),
                named("b", Some(ModuleExportName::Ident("other".to_string())), false),
                named("c", Some(ModuleExportName::Str("a string".to_string())), false),
                named("d", None, true),
                ImportSpecifier::Default { local: "e".to_string() },
                ImportSpecifier::Namespace { local: "f".to_string() },
            ],
        ),
        vec![],
    ));
    let found = |name: &str| v.old_analyser.evaluate_expr(&ident(name));
    let imported = |path: &[&str]| {
        StaticExpr::ImportedVar("mod".to_string(), path.iter().map(|n| n.to_string()).collect())
    };
    assert_eq!(found("a"), imported(&["a"]));
    assert_eq!(found("b"), imported(&["other"]));
    assert_eq!(found("c"), imported(&["a string"]));
    assert_eq!(found("d"), StaticExpr::FreeVar(vec!["d".to_string()]));
    assert_eq!(found("e"), imported(&["default"]));
    assert_eq!(found("f"), imported(&[]));
}

#[test]
fn the_last_specifier_of_a_name_wins() {
    let mut v = visitor();
    let specifiers = vec![
        ImportSpecifier::Default { local: "a".to_string() },
        named("a", Some(ModuleExportName::Ident("x".to_string())), false),
        named("a", Some(ModuleExportName::Ident("y".to_string())), true),
    ];
    v.visit_node(&node(import("mod", false, specifiers), vec![]));
    assert_eq!(
        v.old_analyser.evaluate_expr(&ident("a")),
        StaticExpr::ImportedVar("mod".to_string(), vec!["x".to_string()])
    );
}

#[test]
fn an_import_of_types_binds_nothing() {
    let mut v = visitor();
    v.visit_node(&node(import("mod", true, vec![named("a", None, false)]), vec![]));
    assert_eq!(v.references, vec![esm("mod")]);
    assert_eq!(
        v.old_analyser.evaluate_expr(&ident("a")),
        StaticExpr::FreeVar(vec!["a".to_string()])
    );
}

#[test]
fn a_request_for_a_webpack_runtime_is_found() {
    let mut v = visitor();
    let init = require_call(vec![arg(string("../runtime.js"))]);
    v.visit_node(&node(
        declarator("__webpack_require__", init),
        vec![node(export_all("below"), vec![])],
    ));
    assert_eq!(v.webpack_runtime, Some(("../runtime.js".to_string(), SPAN)));
    assert_eq!(v.references, vec![]);
}

#[test]
fn a_later_request_for_a_runtime_replaces_an_earlier_one() {
    let mut v = visitor();
    v.visit_nodes(&vec![
        node(declarator("__webpack_require__", require_call(vec![arg(string("a"))])), vec![]),
        node(declarator("__webpack_require__", require_call(vec![arg(string("b"))])), vec![]),
        node(declarator("x", None), vec![]),
    ]);
    assert_eq!(v.webpack_runtime, Some(("b".to_string(), SPAN)));
}

#[test]
fn other_declarators_ask_for_no_runtime() {
    let string_arg = || vec![arg(string("a"))];
    let inits = vec![
        ("other", require_call(string_arg())),
        ("__webpack_require__", None),
        ("__webpack_require__", Some(string("a"))),
        ("__webpack_require__", Some(Expr::Call(Box::new(call_of(ident("load"), string_arg()))))),
        ("__webpack_require__", require_call(vec![])),
        ("__webpack_require__", require_call(vec![arg(string("a")), arg(string("b"))])),
        ("__webpack_require__", require_call(vec![spread(string("a"))])),
        ("__webpack_require__", require_call(vec![arg(ident("a"))])),
        ("__webpack_require__", require_call(vec![arg(Expr::Lit(Lit::Num(1)))])),
        (
            "__webpack_require__",
            Some(Expr::Call(Box::new(CallExpr {
                span: SPAN,
                callee: Callee::Other,
                args: string_arg(),
            }))),
        ),
    ];
    for (name, init) in inits {
        let mut v = visitor();
        v.visit_node(&node(declarator(name, init), vec![node(export_all("below"), vec![])]));
        assert_eq!(v.webpack_runtime, None);
        assert_eq!(v.references, vec![esm("below")]);
    }
    let mut v = visitor();
    let decl = VarDeclarator { name: Pat::Other, init: require_call(string_arg()) };
    v.visit_node(&node(NodeKind::VarDeclarator(decl), vec![]));
    assert_eq!(v.webpack_runtime, None);
}

#[test]
fn a_call_of_c_marks_an_entry() {
    let mut v = visitor();
    v.visit_node(&node(webpack_call("C", vec![]), vec![]));
    assert!(v.webpack_entry);
    v.visit_node(&node(webpack_call("D", vec![]), vec![]));
    assert!(v.webpack_entry);
}

#[test]
fn a_call_of_x_names_chunks() {
    let mut v = visitor();
    let chunks = Expr::Array(vec![
        Some(arg(Expr::Lit(Lit::Num(1)))),
        None,
        Some(spread(string("spread"))),
        Some(arg(ident("not a literal"))),
        Some(arg(string("two"))),
    ]);
    let args = vec![arg(Expr::Other), arg(chunks), arg(Expr::Other)];
    v.visit_node(&node(webpack_call("X", args), vec![]));
    assert_eq!(v.webpack_chunks, vec![Lit::Num(1), Lit::Str("two".to_string())]);
    assert!(!v.webpack_entry);
}

#[test]
fn other_shapes_of_x_name_no_chunks() {
    let array = || Expr::Array(vec![Some(arg(string("a")))]);
    let shapes = vec![
        vec![],
        vec![arg(Expr::Other), arg(array())],
        vec![arg(Expr::Other), arg(array()), arg(Expr::Other), arg(Expr::Other)],
        vec![arg(Expr::Other), spread(array()), arg(Expr::Other)],
        vec![arg(Expr::Other), arg(string("a")), arg(Expr::Other)],
    ];
    for args in shapes {
        let mut v = visitor();
        v.visit_node(&node(webpack_call("X", args), vec![]));
        assert_eq!(v.webpack_chunks, vec![]);
    }
}

#[test]
fn an_imported_webpack_require_is_another() {
    let mut v = visitor();
    v.visit_nodes(&vec![
        node(import("mod", false, vec![named("__webpack_require__", None, false)]), vec![]),
        node(webpack_call("C", vec![]), vec![]),
    ]);
    assert!(!v.webpack_entry);
}

#[test]
fn imports_bind_after_the_nodes_below_them() {
    let mut v = visitor();
    v.visit_node(&node(
        import("mod", false, vec![named("__webpack_require__", None, false)]),
        vec![node(webpack_call("C", vec![]), vec![])],
    ));
    assert!(v.webpack_entry);
}

#[test]
fn calls_of_super_and_import_mark_nothing() {
    let mut v = visitor();
    let call = CallExpr { span: SPAN, callee: Callee::Other, args: vec![] };
    v.visit_node(&node(NodeKind::Call(call), vec![node(export_all("a"), vec![])]));
    assert!(!v.webpack_entry);
    assert_eq!(v.references, vec![esm("a")]);
}

#[test]
fn a_call_makes_no_reference_and_binds_no_name() {
    let callees = vec![Callee::Expr(Box::new(ident("require"))), Callee::Other];
    for callee in callees {
        let mut v = AssetReferencesVisitor::new(SOURCE, vec![esm("first")]);
        let call = CallExpr { span: SPAN, callee, args: vec![arg(string("./a"))] };
        let below = node(NodeKind::Call(call_of(ident("f"), vec![])), vec![]);
        v.visit_node(&node(
            NodeKind::Call(call),
            vec![below, node(declarator("x", None), vec![])],
        ));
        assert_eq!(v.references, vec![esm("first")]);
        assert_eq!(v.webpack_runtime, None);
        assert_eq!(
            v.old_analyser.evaluate_expr(&ident("require")),
            StaticExpr::FreeVar(vec!["require".to_string()])
        );
    }
}

#[test]
fn a_declarator_below_a_call_asks_for_a_runtime() {
    let mut v = visitor();
    let init = require_call(vec![arg(string("r"))]);
    v.visit_node(&node(
        NodeKind::Call(call_of(ident("f"), vec![])),
        vec![node(declarator("__webpack_require__", init), vec![])],
    ));
    assert_eq!(v.webpack_runtime, Some(("r".to_string(), SPAN)));
    assert_eq!(v.references, vec![]);
}

#[test]
fn declarations_tell_nothing_of_a_bundle() {
    let mut v = visitor();
    v.visit_nodes(&vec![
        node(import("a", false, vec![named("x", None, false)]), vec![]),
        node(declarator("y", None), vec![]),
    ]);
    assert!(!v.webpack_entry);
    assert_eq!(v.webpack_chunks, vec![]);
    assert_eq!(v.webpack_runtime, None);
}
