//! What the walk over a module does at each kind of node, and what an expression is known to be,
//! in terms of the syntax alone.
use crate::ast::{
    CallExpr, Callee, ExportAll, Expr, ExprOrSpread, ImportDecl, ImportSpecifier, Lit, MemberProp,
    ModuleExportName, NamedExport, Node, NodeKind, Pat, VarDeclarator,
};
use crate::reference::AssetReferenceView;
use crate::static_analyser::{ImportsView, StaticExprView, evaluated, prop_name};
use crate::vc::PatternView;
use crate::visitor::{
    VisitorView, literals_of, visited, visited_all, with_specifier, with_specifiers,
};
use vstd::prelude::*;

verus! {

/// `v` with one more reference, which a declaration makes with `from "src"`.
pub open spec fn requesting(v: VisitorView, src: Seq<char>) -> VisitorView {
    VisitorView {
        references: v.references.push(
            AssetReferenceView::Esm(v.source, PatternView::Constant(src)),
        ),
        ..v
    }
}

/// A walk takes the nodes one by one, in their order, and leaves none out.
pub proof fn lemma_walk_goes_node_by_node(v: VisitorView, nodes: Seq<Node>, node: Node)
    ensures
        visited_all(v, seq![]) == v,
        visited_all(v, seq![node]) == visited(v, node),
        visited_all(v, nodes.push(node)) == visited(visited_all(v, nodes), node),
{
    reveal_with_fuel(visited_all, 3);
    assert(nodes.push(node).drop_last() =~= nodes);
    assert(seq![node].drop_last() =~= seq![]);
}

/// An `export * from "src"` makes one reference, whose request is exactly `src`, and then what is
/// below it is walked.
pub proof fn lemma_walk_of_export_all(v: VisitorView, export: ExportAll, node: Node)
    requires
        node.kind == NodeKind::ExportAll(export),
    ensures
        visited(v, node) == visited_all(requesting(v, export.src@), node.children@),
{
}

/// An `export { .. }` makes one reference where it ends in `from "src"`, whose request is exactly
/// `src`, and none where it does not. Then what is below it is walked.
pub proof fn lemma_walk_of_named_export(v: VisitorView, export: NamedExport, node: Node)
    requires
        node.kind == NodeKind::NamedExport(export),
    ensures
        visited(v, node) == match export.src {
            Some(src) => visited_all(requesting(v, src@), node.children@),
            None => visited_all(v, node.children@),
        },
{
}

/// An `import .. from "src"` makes one reference, whose request is exactly `src`, and what is below
/// it is walked. Then its names are bound, in their order, unless it imports types only. Nothing
/// else changes.
pub proof fn lemma_walk_of_import(v: VisitorView, import: ImportDecl, node: Node)
    requires
        node.kind == NodeKind::Import(import),
    ensures
        ({
            let after = visited(v, node);
            let below = visited_all(requesting(v, import.src@), node.children@);
            &&& after.source == below.source
            &&& after.references == below.references
            &&& after.webpack_runtime == below.webpack_runtime
            &&& after.webpack_entry == below.webpack_entry
            &&& after.webpack_chunks == below.webpack_chunks
            &&& import.type_only ==> after.imports == below.imports
            &&& !import.type_only ==> after.imports == with_specifiers(
                below.imports,
                import.src@,
                import.specifiers@,
            )
        }),
{
}

/// The request of a declaration is its text, character by character: declarations with different
/// texts make different references, and each adds exactly one.
pub proof fn lemma_different_texts_make_different_references(
    v: VisitorView,
    one: ExportAll,
    other: ExportAll,
    import: ImportDecl,
    first: Node,
    second: Node,
    third: Node,
)
    requires
        first.kind == NodeKind::ExportAll(one),
        second.kind == NodeKind::ExportAll(other),
        third.kind == NodeKind::Import(import),
        first.children@.len() == 0,
        second.children@.len() == 0,
        third.children@.len() == 0,
    ensures
        visited(v, first).references.len() == v.references.len() + 1,
        visited(v, first).references.last() == AssetReferenceView::Esm(
            v.source,
            PatternView::Constant(one.src@),
        ),
        visited(v, first).references == visited(v, second).references <==> one.src@ == other.src@,
        visited(v, first).references == visited(v, third).references <==> one.src@ == import.src@,
{
    reveal_with_fuel(visited_all, 2);
    let a = visited(v, first).references;
    let b = visited(v, second).references;
    let c = visited(v, third).references;
    assert(a.last() == AssetReferenceView::Esm(v.source, PatternView::Constant(one.src@)));
    assert(b.last() == AssetReferenceView::Esm(v.source, PatternView::Constant(other.src@)));
    assert(c.last() == AssetReferenceView::Esm(v.source, PatternView::Constant(import.src@)));
}

/// Each specifier binds its local name, after those before it: `{ a }` to `a`, `{ b as a }` and
/// `{ "b" as a }` to `b`, a default import to `default`, and a namespace to the module itself. A
/// type binds nothing.
pub proof fn lemma_specifiers_bind_in_order(
    imports: ImportsView,
    src: Seq<char>,
    before: Seq<ImportSpecifier>,
    specifier: ImportSpecifier,
)
    ensures
        with_specifiers(imports, src, seq![]) == imports,
        ({
            let earlier = with_specifiers(imports, src, before);
            with_specifiers(imports, src, before.push(specifier)) == match specifier {
                ImportSpecifier::Named { is_type_only: true, .. } => earlier,
                ImportSpecifier::Named { local, imported: None, .. } => earlier.insert(
                    local@,
                    (src, seq![local@]),
                ),
                ImportSpecifier::Named {
                    local,
                    imported: Some(ModuleExportName::Ident(name)),
                    ..
                } => earlier.insert(local@, (src, seq![name@])),
                ImportSpecifier::Named {
                    local,
                    imported: Some(ModuleExportName::Str(name)),
                    ..
                } => earlier.insert(local@, (src, seq![name@])),
                ImportSpecifier::Default { local } => earlier.insert(
                    local@,
                    (src, seq!["default"@]),
                ),
                ImportSpecifier::Namespace { local } => earlier.insert(local@, (src, seq![])),
            }
        }),
{
    assert(before.push(specifier).drop_last() =~= before);
    assert(before.push(specifier).last() == specifier);
    let earlier = with_specifiers(imports, src, before);
    assert(with_specifiers(imports, src, before.push(specifier)) == with_specifier(
        earlier,
        src,
        specifier,
    ));
}

/// A declarator that is exactly `__webpack_require__ = require("text")`, with one argument that is
/// a string literal and no spread, is noted with that text and the place of that call, in place of
/// an earlier one. What is below it is not walked, and nothing else changes.
pub proof fn lemma_walk_of_runtime_declarator(
    v: VisitorView,
    decl: VarDeclarator,
    name: String,
    call: CallExpr,
    callee: String,
    text: String,
    node: Node,
)
    requires
        node.kind == NodeKind::VarDeclarator(decl),
        decl.name == Pat::Ident(name),
        name@ == "__webpack_require__"@,
        decl.init == Some(Expr::Call(Box::new(call))),
        call.callee == Callee::Expr(Box::new(Expr::Ident(callee))),
        callee@ == "require"@,
        call.args@.len() == 1,
        call.args@[0] == (ExprOrSpread { spread: false, expr: Expr::Lit(Lit::Str(text)) }),
    ensures
        ({
            let after = visited(v, node);
            &&& after.webpack_runtime == Some((text@, call.span))
            &&& after.source == v.source
            &&& after.references == v.references
            &&& after.imports == v.imports
            &&& after.webpack_entry == v.webpack_entry
            &&& after.webpack_chunks == v.webpack_chunks
        }),
{
}

/// Whether a declarator is `__webpack_require__ = require("text")`.
pub open spec fn declares_runtime(decl: VarDeclarator) -> bool {
    &&& decl.name matches Pat::Ident(name)
    &&& name@ == "__webpack_require__"@
    &&& decl.init matches Some(Expr::Call(call))
    &&& call.callee matches Callee::Expr(callee)
    &&& *callee matches Expr::Ident(function)
    &&& function@ == "require"@
    &&& call.args@.len() == 1
    &&& !call.args@[0].spread
    &&& call.args@[0].expr matches Expr::Lit(Lit::Str(_))
}

/// Any other declarator changes nothing, and what is below it is walked.
pub proof fn lemma_walk_of_other_declarator(v: VisitorView, decl: VarDeclarator, node: Node)
    requires
        node.kind == NodeKind::VarDeclarator(decl),
        !declares_runtime(decl),
    ensures
        visited(v, node) == visited_all(v, node.children@),
{
}

/// A call of the property `C` of `__webpack_require__` marks the module as an entry, whatever its
/// arguments are, and changes nothing else before what is below it is walked.
pub proof fn lemma_walk_of_entry_call(v: VisitorView, call: CallExpr, callee: Expr, node: Node)
    requires
        node.kind == NodeKind::Call(call),
        call.callee == Callee::Expr(Box::new(callee)),
        evaluated(v.imports, callee) == StaticExprView::FreeVar(
            seq!["__webpack_require__"@, "C"@],
        ),
    ensures
        visited(v, node) == visited_all(
            VisitorView { webpack_entry: true, ..v },
            node.children@,
        ),
{
}

/// A call of the property `X` of `__webpack_require__` with three arguments, of which the second is
/// an array and no spread, adds the literals of that array to the chunks, in their order. With
/// other arguments it changes nothing.
pub proof fn lemma_walk_of_chunks_call(v: VisitorView, call: CallExpr, callee: Expr, node: Node)
    requires
        node.kind == NodeKind::Call(call),
        call.callee == Callee::Expr(Box::new(callee)),
        evaluated(v.imports, callee) == StaticExprView::FreeVar(
            seq!["__webpack_require__"@, "X"@],
        ),
    ensures
        call.args@.len() == 3 && !call.args@[1].spread && call.args@[1].expr is Array ==> visited(
            v,
            node,
        ) == visited_all(
            VisitorView {
                webpack_chunks: v.webpack_chunks + literals_of(call.args@[1].expr->Array_0@),
                ..v
            },
            node.children@,
        ),
        call.args@.len() != 3 || call.args@[1].spread || call.args@[1].expr !is Array ==> visited(
            v,
            node,
        ) == visited_all(v, node.children@),
{
    reveal_strlit("C");
    reveal_strlit("X");
    let c = seq!["__webpack_require__"@, "C"@];
    let x = seq!["__webpack_require__"@, "X"@];
    assert(c[1][0] != x[1][0]);
    assert(v.webpack_chunks + seq![] =~= v.webpack_chunks);
}

/// Every other call changes nothing, and what is below it is walked.
pub proof fn lemma_walk_of_other_call(v: VisitorView, call: CallExpr, node: Node)
    requires
        node.kind == NodeKind::Call(call),
        call.callee matches Callee::Expr(callee) ==> {
            &&& evaluated(v.imports, *callee) != StaticExprView::FreeVar(
                seq!["__webpack_require__"@, "C"@],
            )
            &&& evaluated(v.imports, *callee) != StaticExprView::FreeVar(
                seq!["__webpack_require__"@, "X"@],
            )
        },
    ensures
        visited(v, node) == visited_all(v, node.children@),
{
}

/// The literals of an array are its elements that are literals, in their order: a hole, a spread
/// and any other expression are left out, and no literal is.
pub proof fn lemma_literals_come_in_order(
    before: Seq<Option<ExprOrSpread>>,
    element: Option<ExprOrSpread>,
    lit: Lit,
)
    ensures
        literals_of(seq![]).len() == 0,
        literals_of(
            before.push(Some(ExprOrSpread { spread: false, expr: Expr::Lit(lit) })),
        ) == literals_of(before).push(lit.deep_view()),
        element is None || element->Some_0.spread || element->Some_0.expr !is Lit ==> literals_of(
            before.push(element),
        ) == literals_of(before),
{
    let literal = Some(ExprOrSpread { spread: false, expr: Expr::Lit(lit) });
    assert(before.push(literal).drop_last() =~= before);
    assert(before.push(element).drop_last() =~= before);
}

/// An expression is known to be a string where it is a string literal, and exactly that string. A
/// name is what an import binds it to, and else itself. Any other expression that is no member is
/// not known.
pub proof fn lemma_simple_expressions(imports: ImportsView, expr: Expr)
    ensures
        match expr {
            Expr::Lit(Lit::Str(text)) => evaluated(imports, expr) == StaticExprView::String(text@),
            Expr::Ident(name) => {
                &&& imports.contains_key(name@) ==> evaluated(imports, expr)
                    == StaticExprView::ImportedVar(imports[name@].0, imports[name@].1)
                &&& !imports.contains_key(name@) ==> evaluated(imports, expr)
                    == StaticExprView::FreeVar(seq![name@])
            },
            Expr::Member(_, _) => true,
            _ => evaluated(imports, expr) is Unknown,
        },
{
}

/// A member is known where its object is a path and its property has a known name: it is then the
/// path of the object, one name longer. Every other member is not known.
pub proof fn lemma_member_is_one_name_longer(imports: ImportsView, obj: Expr, prop: MemberProp)
    ensures
        ({
            let member = evaluated(imports, Expr::Member(Box::new(obj), prop));
            match (evaluated(imports, obj), prop_name(imports, prop)) {
                (StaticExprView::FreeVar(path), Some(name)) => {
                    &&& member matches StaticExprView::FreeVar(longer)
                    &&& longer.len() == path.len() + 1
                    &&& longer.drop_last() == path
                    &&& longer.last() == name
                },
                (StaticExprView::ImportedVar(module, path), Some(name)) => {
                    &&& member matches StaticExprView::ImportedVar(same, longer)
                    &&& same == module
                    &&& longer.len() == path.len() + 1
                    &&& longer.drop_last() == path
                    &&& longer.last() == name
                },
                _ => member is Unknown,
            }
        }),
{
    reveal_with_fuel(evaluated, 3);
    reveal_with_fuel(prop_name, 3);
    match (evaluated(imports, obj), prop_name(imports, prop)) {
        (StaticExprView::FreeVar(path), Some(name)) => {
            assert(path.push(name).drop_last() =~= path);
        },
        (StaticExprView::ImportedVar(module, path), Some(name)) => {
            assert(path.push(name).drop_last() =~= path);
        },
        _ => {},
    }
}

/// A property has a known name where it is a name, or computed from a string literal, and exactly
/// that. A private name, or one computed from anything else, is not known.
pub proof fn lemma_names_of_properties(imports: ImportsView, prop: MemberProp)
    ensures
        match prop {
            MemberProp::Ident(name) => prop_name(imports, prop) == Some(name@),
            MemberProp::PrivateName => prop_name(imports, prop) is None,
            MemberProp::Computed(expr) => match *expr {
                Expr::Lit(Lit::Str(text)) => prop_name(imports, prop) == Some(text@),
                _ => prop_name(imports, prop) is None,
            },
        },
{
    reveal_with_fuel(evaluated, 3);
    reveal_with_fuel(prop_name, 3);
}

} // verus!
