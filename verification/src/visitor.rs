//! The walk over a module that finds the requests of its import and export declarations, and
//! whether it is part of a webpack bundle.
use crate::ast::{
    CallExpr, Callee, ExportAll, Expr, ExprOrSpread, ImportDecl, ImportSpecifier, Lit, LitView,
    ModuleExportName, NamedExport, Node, NodeKind, Pat, Span, VarDeclarator,
};
use crate::reference::{AssetReferenceVc, AssetReferenceView, EsmAssetReferenceVc};
use crate::static_analyser::{ImportsView, StaticAnalyser, StaticExpr, StaticExprView, evaluated};
use crate::text::is_text;
use crate::vc::{AssetVc, Pattern, PatternView, RequestVc};
use vstd::prelude::*;

verus! {

/// What the walk has found so far.
pub struct AssetReferencesVisitor {
    pub source: AssetVc,
    pub old_analyser: StaticAnalyser,
    pub references: Vec<AssetReferenceVc>,
    /// The request for the webpack runtime, and the call that makes it.
    pub webpack_runtime: Option<(String, Span)>,
    /// Whether the module starts a webpack bundle.
    pub webpack_entry: bool,
    /// The chunks that a webpack bundle loads before it starts.
    pub webpack_chunks: Vec<Lit>,
}

/// The mathematical value of an [`AssetReferencesVisitor`].
pub struct VisitorView {
    pub source: AssetVc,
    pub imports: ImportsView,
    pub references: Seq<AssetReferenceView>,
    pub webpack_runtime: Option<(Seq<char>, Span)>,
    pub webpack_entry: bool,
    pub webpack_chunks: Seq<LitView>,
}

impl View for AssetReferencesVisitor {
    type V = VisitorView;

    open spec fn view(&self) -> VisitorView {
        VisitorView {
            source: self.source,
            imports: self.old_analyser@,
            references: self.references.deep_view(),
            webpack_runtime: match self.webpack_runtime {
                Some((request, span)) => Some((request@, span)),
                None => None,
            },
            webpack_entry: self.webpack_entry,
            webpack_chunks: self.webpack_chunks.deep_view(),
        }
    }
}

/// The reference that a declaration in `source` makes with `from "src"`.
pub open spec fn esm_reference(source: AssetVc, src: Seq<char>) -> AssetReferenceView {
    AssetReferenceView::Esm(source, PatternView::Constant(src))
}

/// What is known once a declaration with `from "src"` has been entered.
pub open spec fn with_request(v: VisitorView, src: Seq<char>) -> VisitorView {
    VisitorView { references: v.references.push(esm_reference(v.source, src)), ..v }
}

/// What `specifier` binds, and to what, in an import from `src`.
pub open spec fn binding_of(src: Seq<char>, specifier: ImportSpecifier) -> Option<
    (Seq<char>, (Seq<char>, Seq<Seq<char>>)),
> {
    match specifier {
        ImportSpecifier::Named { local, imported, is_type_only } => if is_type_only {
            None
        } else {
            let name = match imported {
                Some(ModuleExportName::Ident(name)) => name@,
                Some(ModuleExportName::Str(name)) => name@,
                None => local@,
            };
            Some((local@, (src, seq![name])))
        },
        ImportSpecifier::Default { local } => Some((local@, (src, seq!["default"@]))),
        ImportSpecifier::Namespace { local } => Some((local@, (src, seq![]))),
    }
}

/// The bindings after one specifier of an import from `src`.
pub open spec fn with_specifier(
    imports: ImportsView,
    src: Seq<char>,
    specifier: ImportSpecifier,
) -> ImportsView {
    match binding_of(src, specifier) {
        Some((local, target)) => imports.insert(local, target),
        None => imports,
    }
}

/// The bindings after the specifiers of an import from `src`, taken in their order.
pub open spec fn with_specifiers(
    imports: ImportsView,
    src: Seq<char>,
    specifiers: Seq<ImportSpecifier>,
) -> ImportsView
    decreases specifiers.len(),
{
    if specifiers.len() == 0 {
        imports
    } else {
        with_specifier(
            with_specifiers(imports, src, specifiers.drop_last()),
            src,
            specifiers.last(),
        )
    }
}

/// The bindings after an import declaration.
pub open spec fn with_import(imports: ImportsView, import: ImportDecl) -> ImportsView {
    if import.type_only {
        imports
    } else {
        with_specifiers(imports, import.src@, import.specifiers@)
    }
}

/// The text and the call of `__webpack_require__ = require("text")`.
pub open spec fn runtime_request(decl: VarDeclarator) -> Option<(Seq<char>, Span)> {
    match (decl.name, decl.init) {
        (Pat::Ident(name), Some(Expr::Call(call))) => if name@ == "__webpack_require__"@
            && is_require(call.callee) && call.args@.len() == 1 && !call.args@[0].spread {
            match call.args@[0].expr {
                Expr::Lit(Lit::Str(text)) => Some((text@, call.span)),
                _ => None,
            }
        } else {
            None
        },
        _ => None,
    }
}

/// Whether a callee is the name `require`.
pub open spec fn is_require(callee: Callee) -> bool {
    match callee {
        Callee::Expr(expr) => match *expr {
            Expr::Ident(name) => name@ == "require"@,
            _ => false,
        },
        Callee::Other => false,
    }
}

/// The literal that an element of an array is.
pub open spec fn literal_of(element: Option<ExprOrSpread>) -> Option<LitView> {
    match element {
        Some(element) => if element.spread {
            None
        } else {
            match element.expr {
                Expr::Lit(lit) => Some(lit.deep_view()),
                _ => None,
            }
        },
        None => None,
    }
}

/// The literals among the elements of an array, in their order.
pub open spec fn literals_of(elements: Seq<Option<ExprOrSpread>>) -> Seq<LitView>
    decreases elements.len(),
{
    if elements.len() == 0 {
        seq![]
    } else {
        let before = literals_of(elements.drop_last());
        match literal_of(elements.last()) {
            Some(lit) => before.push(lit),
            None => before,
        }
    }
}

/// The chunks that `__webpack_require__.X(_, [..], _)` names.
pub open spec fn chunk_ids(args: Seq<ExprOrSpread>) -> Seq<LitView> {
    if args.len() == 3 && !args[1].spread {
        match args[1].expr {
            Expr::Array(elements) => literals_of(elements@),
            _ => seq![],
        }
    } else {
        seq![]
    }
}

/// Whether a callee is the property `property` of a `__webpack_require__` that no import binds.
pub open spec fn is_webpack_property(
    imports: ImportsView,
    callee: Callee,
    property: Seq<char>,
) -> bool {
    match callee {
        Callee::Expr(expr) => evaluated(imports, *expr) == StaticExprView::FreeVar(
            seq!["__webpack_require__"@, property],
        ),
        Callee::Other => false,
    }
}

/// What is known once a call has been entered, and before anything below it.
pub open spec fn entered_call(v: VisitorView, call: CallExpr) -> VisitorView {
    if is_webpack_property(v.imports, call.callee, "C"@) {
        VisitorView { webpack_entry: true, ..v }
    } else if is_webpack_property(v.imports, call.callee, "X"@) {
        VisitorView { webpack_chunks: v.webpack_chunks + chunk_ids(call.args@), ..v }
    } else {
        v
    }
}

/// What is known once a node has been entered, and before anything below it.
pub open spec fn entered(v: VisitorView, kind: NodeKind) -> VisitorView {
    match kind {
        NodeKind::ExportAll(export) => with_request(v, export.src@),
        NodeKind::NamedExport(export) => match export.src {
            Some(src) => with_request(v, src@),
            None => v,
        },
        NodeKind::Import(import) => with_request(v, import.src@),
        NodeKind::VarDeclarator(decl) => match runtime_request(decl) {
            Some(request) => VisitorView { webpack_runtime: Some(request), ..v },
            None => v,
        },
        NodeKind::Call(call) => entered_call(v, call),
    }
}

/// Whether a walk goes on below a node: it does not below a declarator that asks for a webpack
/// runtime.
pub open spec fn goes_below(kind: NodeKind) -> bool {
    match kind {
        NodeKind::VarDeclarator(decl) => runtime_request(decl) is None,
        _ => true,
    }
}

/// What is known once a node has been left: an import binds its names then.
pub open spec fn left(v: VisitorView, kind: NodeKind) -> VisitorView {
    match kind {
        NodeKind::Import(import) => VisitorView { imports: with_import(v.imports, import), ..v },
        _ => v,
    }
}

/// What is known after a node and everything below it.
pub open spec fn visited(v: VisitorView, node: Node) -> VisitorView
    decreases node,
{
    if goes_below(node.kind) {
        left(visited_all(entered(v, node.kind), node.children@), node.kind)
    } else {
        entered(v, node.kind)
    }
}

/// What is known after a list of nodes, taken in their order.
pub open spec fn visited_all(v: VisitorView, nodes: Seq<Node>) -> VisitorView
    decreases nodes,
{
    if nodes.len() == 0 {
        v
    } else {
        visited(visited_all(v, nodes.drop_last()), nodes.last())
    }
}

/// A path of two names.
proof fn lemma_pair(path: Vec<String>, first: Seq<char>, second: Seq<char>)
    ensures
        path.deep_view() == seq![first, second] <==> (path@.len() == 2 && path@[0]@ == first
            && path@[1]@ == second),
{
    let pair = seq![first, second];
    if path.deep_view() == pair {
        assert(path.deep_view().len() == path@.len());
        assert(pair.len() == 2);
        assert(path.deep_view()[0] == path@[0]@);
        assert(path.deep_view()[1] == path@[1]@);
    }
    if path@.len() == 2 && path@[0]@ == first && path@[1]@ == second {
        assert(path.deep_view() =~= pair);
    }
}

impl AssetReferencesVisitor {
    /// A walk through `source` that adds to `references` and has found nothing yet.
    pub fn new(source: AssetVc, references: Vec<AssetReferenceVc>) -> (res: Self)
        ensures
            res@ == (VisitorView {
                source,
                imports: ImportsView::empty(),
                references: references.deep_view(),
                webpack_runtime: None,
                webpack_entry: false,
                webpack_chunks: seq![],
            }),
    {
        let res = AssetReferencesVisitor {
            source,
            old_analyser: StaticAnalyser::default(),
            references,
            webpack_runtime: None,
            webpack_entry: false,
            webpack_chunks: Vec::new(),
        };
        assert(res@.webpack_chunks =~= seq![]);
        res
    }

    /// Adds the reference that a declaration makes with `from "src"`.
    fn add_esm_reference(&mut self, src: &String)
        ensures
            final(self)@ == with_request(old(self)@, src@),
    {
        let ghost before = self@;
        let request = RequestVc::parse(Pattern::Constant(src.clone()));
        let reference = AssetReferenceVc::Esm(EsmAssetReferenceVc::new(self.source, request));
        let ghost added = reference.deep_view();
        self.references.push(reference);
        assert(self@.references =~= before.references.push(added));
    }

    /// Adds the request of an `export * from`, and walks what is below it.
    pub fn visit_export_all(&mut self, export: &ExportAll, children: &Vec<Node>)
        ensures
            final(self)@ == visited_all(with_request(old(self)@, export.src@), children@),
        decreases children, 1nat,
    {
        self.add_esm_reference(&export.src);
        self.visit_nodes(children);
    }

    /// Adds the request of an `export { .. }` that has one, and walks what is below it.
    pub fn visit_named_export(&mut self, export: &NamedExport, children: &Vec<Node>)
        ensures
            final(self)@ == visited_all(
                match export.src {
                    Some(src) => with_request(old(self)@, src@),
                    None => old(self)@,
                },
                children@,
            ),
        decreases children, 1nat,
    {
        if let Some(src) = &export.src {
            self.add_esm_reference(src);
        }
        self.visit_nodes(children);
    }

    /// Binds what a specifier of an import from `src` binds.
    fn bind_specifier(&mut self, src: &String, specifier: &ImportSpecifier)
        ensures
            final(self)@ == (VisitorView {
                imports: with_specifier(old(self)@.imports, src@, *specifier),
                ..old(self)@
            }),
    {
        match specifier {
            ImportSpecifier::Named { local, imported, is_type_only } => {
                if !*is_type_only {
                    let name = match imported {
                        Some(ModuleExportName::Ident(name)) => name.clone(),
                        Some(ModuleExportName::Str(name)) => name.clone(),
                        None => local.clone(),
                    };
                    let path = vec![name];
                    assert(path.deep_view() =~= seq![name@]);
                    self.old_analyser.bind(local.clone(), src.clone(), path);
                }
            },
            ImportSpecifier::Default { local } => {
                let name: String = "default".to_owned();
                let path = vec![name];
                assert(path.deep_view() =~= seq!["default"@]);
                self.old_analyser.bind(local.clone(), src.clone(), path);
            },
            ImportSpecifier::Namespace { local } => {
                let path: Vec<String> = Vec::new();
                assert(path.deep_view() =~= seq![]);
                self.old_analyser.bind(local.clone(), src.clone(), path);
            },
        }
    }

    /// Adds the request of an import, walks what is below it, and then binds its names.
    pub fn visit_import_decl(&mut self, import: &ImportDecl, children: &Vec<Node>)
        ensures
            ({
                let below = visited_all(with_request(old(self)@, import.src@), children@);
                final(self)@ == (VisitorView {
                    imports: with_import(below.imports, *import),
                    ..below
                })
            }),
        decreases children, 1nat,
    {
        self.add_esm_reference(&import.src);
        self.visit_nodes(children);
        if import.type_only {
            return ;
        }
        let ghost below = self@;
        for i in 0..import.specifiers.len()
            invariant
                self@ == (VisitorView {
                    imports: with_specifiers(
                        below.imports,
                        import.src@,
                        import.specifiers@.take(i as int),
                    ),
                    ..below
                }),
        {
            assert(import.specifiers@.take(i + 1).drop_last() =~= import.specifiers@.take(
                i as int,
            ));
            self.bind_specifier(&import.src, &import.specifiers[i]);
        }
        assert(import.specifiers@.take(import.specifiers@.len() as int) =~= import.specifiers@);
    }

    /// Notes a request for a webpack runtime. What is below any other declarator is walked.
    pub fn visit_var_declarator(&mut self, decl: &VarDeclarator, children: &Vec<Node>)
        ensures
            final(self)@ == match runtime_request(*decl) {
                Some(request) => (VisitorView { webpack_runtime: Some(request), ..old(self)@ }),
                None => visited_all(old(self)@, children@),
            },
        decreases children, 1nat,
    {
        if let Pat::Ident(name) = &decl.name {
            if is_text(name, "__webpack_require__") {
                if let Some(Expr::Call(call)) = &decl.init {
                    if let Callee::Expr(expr) = &call.callee {
                        if let Expr::Ident(callee) = &**expr {
                            if is_text(callee, "require") {
                                if call.args.len() == 1 && !call.args[0].spread {
                                    if let Expr::Lit(Lit::Str(text)) = &call.args[0].expr {
                                        self.webpack_runtime = Some((text.clone(), call.span));
                                        return ;
                                    }
                                }
                            }
                        }
                    }
                }
            }
        }
        self.visit_nodes(children);
    }

    /// Adds the chunks that `__webpack_require__.X(_, [..], _)` names.
    fn add_chunks(&mut self, args: &Vec<ExprOrSpread>)
        ensures
            final(self)@ == (VisitorView {
                webpack_chunks: old(self)@.webpack_chunks + chunk_ids(args@),
                ..old(self)@
            }),
    {
        let ghost before = self@;
        if args.len() == 3 && !args[1].spread {
            if let Expr::Array(elements) = &args[1].expr {
                for i in 0..elements.len()
                    invariant
                        self@ == (VisitorView {
                            webpack_chunks: before.webpack_chunks + literals_of(
                                elements@.take(i as int),
                            ),
                            ..before
                        }),
                {
                    assert(elements@.take(i + 1).drop_last() =~= elements@.take(i as int));
                    if let Some(element) = &elements[i] {
                        if !element.spread {
                            if let Expr::Lit(lit) = &element.expr {
                                let ghost chunks = self@.webpack_chunks;
                                self.webpack_chunks.push(lit.clone());
                                assert(self@.webpack_chunks =~= chunks.push(lit.deep_view()));
                            }
                        }
                    }
                    assert(self@.webpack_chunks =~= before.webpack_chunks + literals_of(
                        elements@.take(i + 1),
                    ));
                }
                assert(elements@.take(elements@.len() as int) =~= elements@);
            }
        }
        assert(self@.webpack_chunks =~= before.webpack_chunks + chunk_ids(args@));
    }

    /// Notes what a call tells of a webpack bundle, and walks what is below it.
    pub fn visit_call_expr(&mut self, call: &CallExpr, children: &Vec<Node>)
        ensures
            final(self)@ == visited_all(entered_call(old(self)@, *call), children@),
        decreases children, 1nat,
    {
        if let Callee::Expr(expr) = &call.callee {
            if let StaticExpr::FreeVar(path) = self.old_analyser.evaluate_expr(expr) {
                proof {
                    lemma_pair(path, "__webpack_require__"@, "C"@);
                    lemma_pair(path, "__webpack_require__"@, "X"@);
                }
                if path.len() == 2 && is_text(&path[0], "__webpack_require__") {
                    if is_text(&path[1], "C") {
                        self.webpack_entry = true;
                    } else if is_text(&path[1], "X") {
                        self.add_chunks(&call.args);
                    }
                }
            }
        }
        self.visit_nodes(children);
    }

    /// Walks a list of nodes, in their order.
    pub fn visit_nodes(&mut self, nodes: &Vec<Node>)
        ensures
            final(self)@ == visited_all(old(self)@, nodes@),
        decreases nodes, 0nat,
    {
        let ghost before = self@;
        for i in 0..nodes.len()
            invariant
                self@ == visited_all(before, nodes@.take(i as int)),
        {
            assert(nodes@.take(i + 1).drop_last() =~= nodes@.take(i as int));
            self.visit_node(&nodes[i]);
        }
        assert(nodes@.take(nodes@.len() as int) =~= nodes@);
    }

    /// Walks a node and everything below it.
    pub fn visit_node(&mut self, node: &Node)
        ensures
            final(self)@ == visited(old(self)@, *node),
        decreases node, 2nat,
    {
        match &node.kind {
            NodeKind::ExportAll(export) => self.visit_export_all(export, &node.children),
            NodeKind::NamedExport(export) => self.visit_named_export(export, &node.children),
            NodeKind::Import(import) => self.visit_import_decl(import, &node.children),
            NodeKind::VarDeclarator(decl) => self.visit_var_declarator(decl, &node.children),
            NodeKind::Call(call) => self.visit_call_expr(call, &node.children),
        }
    }
}

/// What a module requests with `from`, in the order of the walk. Nothing below a declarator that
/// asks for a webpack runtime is part of it.
pub open spec fn requests_of(node: Node) -> Seq<Seq<char>>
    decreases node,
{
    match node.kind {
        NodeKind::ExportAll(export) => seq![export.src@] + requests_of_all(node.children@),
        NodeKind::NamedExport(export) => match export.src {
            Some(src) => seq![src@] + requests_of_all(node.children@),
            None => requests_of_all(node.children@),
        },
        NodeKind::Import(import) => seq![import.src@] + requests_of_all(node.children@),
        NodeKind::VarDeclarator(decl) => if runtime_request(decl) is Some {
            seq![]
        } else {
            requests_of_all(node.children@)
        },
        NodeKind::Call(_) => requests_of_all(node.children@),
    }
}

/// What `nodes` request, in the order of the walk.
pub open spec fn requests_of_all(nodes: Seq<Node>) -> Seq<Seq<char>>
    decreases nodes,
{
    if nodes.len() == 0 {
        seq![]
    } else {
        requests_of_all(nodes.drop_last()) + requests_of(nodes.last())
    }
}

/// The references that a module makes with `requests`.
pub open spec fn esm_references(source: AssetVc, requests: Seq<Seq<char>>) -> Seq<
    AssetReferenceView,
> {
    requests.map_values(|src: Seq<char>| esm_reference(source, src))
}

/// A walk adds one reference for each request of the module, in their order, whatever else it has
/// found.
pub proof fn lemma_walk_adds_requests(v: VisitorView, nodes: Seq<Node>)
    ensures
        visited_all(v, nodes).source == v.source,
        visited_all(v, nodes).references == v.references + esm_references(
            v.source,
            requests_of_all(nodes),
        ),
    decreases nodes,
{
    if nodes.len() == 0 {
        assert(v.references =~= v.references + esm_references(v.source, requests_of_all(nodes)));
    } else {
        let before = visited_all(v, nodes.drop_last());
        lemma_walk_adds_requests(v, nodes.drop_last());
        lemma_node_adds_requests(before, nodes.last());
        assert(visited_all(v, nodes).references =~= v.references + esm_references(
            v.source,
            requests_of_all(nodes),
        ));
    }
}

proof fn lemma_node_adds_requests(v: VisitorView, node: Node)
    ensures
        visited(v, node).source == v.source,
        visited(v, node).references == v.references + esm_references(
            v.source,
            requests_of(node),
        ),
    decreases node,
{
    lemma_walk_adds_requests(entered(v, node.kind), node.children@);
    assert(visited(v, node).references =~= v.references + esm_references(
        v.source,
        requests_of(node),
    ));
}

/// A walk over one list of nodes and then another is a walk over both.
pub proof fn lemma_walks_join(v: VisitorView, first: Seq<Node>, second: Seq<Node>)
    ensures
        visited_all(v, first + second) == visited_all(visited_all(v, first), second),
    decreases second.len(),
{
    if second.len() == 0 {
        assert(first + second =~= first);
    } else {
        assert((first + second).drop_last() =~= first + second.drop_last());
        lemma_walks_join(v, first, second.drop_last());
    }
}

/// A walk forgets nothing: the references and the chunks that it has found stay at the front, an
/// entry stays one, and where a webpack runtime has been asked for, one has been afterwards.
pub proof fn lemma_walk_forgets_nothing(v: VisitorView, nodes: Seq<Node>)
    ensures
        ({
            let after = visited_all(v, nodes);
            &&& v.references.is_prefix_of(after.references)
            &&& v.webpack_chunks.is_prefix_of(after.webpack_chunks)
            &&& v.webpack_entry ==> after.webpack_entry
            &&& v.webpack_runtime is Some ==> after.webpack_runtime is Some
        }),
    decreases nodes,
{
    if nodes.len() > 0 {
        lemma_walk_forgets_nothing(v, nodes.drop_last());
        lemma_node_forgets_nothing(visited_all(v, nodes.drop_last()), nodes.last());
    }
}

proof fn lemma_node_forgets_nothing(v: VisitorView, node: Node)
    ensures
        ({
            let after = visited(v, node);
            &&& v.references.is_prefix_of(after.references)
            &&& v.webpack_chunks.is_prefix_of(after.webpack_chunks)
            &&& v.webpack_entry ==> after.webpack_entry
            &&& v.webpack_runtime is Some ==> after.webpack_runtime is Some
        }),
    decreases node,
{
    lemma_walk_forgets_nothing(entered(v, node.kind), node.children@);
}

/// The kinds of a node and of all nodes below it, at any depth.
pub open spec fn kinds_of(node: Node) -> Seq<NodeKind>
    decreases node,
{
    seq![node.kind] + kinds_of_all(node.children@)
}

/// The kinds of `nodes` and of all nodes below them, at any depth.
pub open spec fn kinds_of_all(nodes: Seq<Node>) -> Seq<NodeKind>
    decreases nodes,
{
    if nodes.len() == 0 {
        seq![]
    } else {
        kinds_of_all(nodes.drop_last()) + kinds_of(nodes.last())
    }
}

/// Whether none of `kinds` is an import or export declaration.
pub open spec fn declare_nothing(kinds: Seq<NodeKind>) -> bool {
    forall|i: int|
        0 <= i < kinds.len() ==> !(#[trigger] kinds[i] is Import) && !(kinds[i] is ExportAll) && !(
        kinds[i] is NamedExport)
}

/// Whether none of `kinds` is a declarator that asks for a webpack runtime.
pub open spec fn ask_for_no_runtime(kinds: Seq<NodeKind>) -> bool {
    forall|i: int|
        0 <= i < kinds.len() ==> (#[trigger] kinds[i] matches NodeKind::VarDeclarator(decl)
            ==> runtime_request(decl) is None)
}

/// Whether none of `kinds` is a call.
pub open spec fn call_nothing(kinds: Seq<NodeKind>) -> bool {
    forall|i: int| 0 <= i < kinds.len() ==> !(#[trigger] kinds[i] is Call)
}

/// What a walk that takes `before` to `after`, over nodes of `kinds`, leaves as it was.
pub open spec fn keeps(before: VisitorView, kinds: Seq<NodeKind>, after: VisitorView) -> bool {
    &&& after.source == before.source
    &&& declare_nothing(kinds) ==> {
        &&& after.references == before.references
        &&& after.imports == before.imports
    }
    &&& ask_for_no_runtime(kinds) ==> after.webpack_runtime == before.webpack_runtime
    &&& call_nothing(kinds) ==> {
        &&& after.webpack_entry == before.webpack_entry
        &&& after.webpack_chunks == before.webpack_chunks
    }
}

proof fn lemma_kinds_split(first: Seq<NodeKind>, second: Seq<NodeKind>)
    ensures
        declare_nothing(first + second) <==> declare_nothing(first) && declare_nothing(second),
        ask_for_no_runtime(first + second) <==> ask_for_no_runtime(first) && ask_for_no_runtime(
            second,
        ),
        call_nothing(first + second) <==> call_nothing(first) && call_nothing(second),
{
    let both = first + second;
    assert(forall|i: int| 0 <= i < first.len() ==> #[trigger] first[i] == both[i]);
    assert(forall|i: int| 0 <= i < second.len() ==> #[trigger] second[i] == both[first.len() + i]);
}

/// Each thing that a walk finds comes from its own kinds of nodes: references and bindings from
/// import and export declarations alone, a request for a webpack runtime from declarators, and
/// what else is known of a webpack bundle from calls.
pub proof fn lemma_walk_keeps(v: VisitorView, nodes: Seq<Node>)
    ensures
        keeps(v, kinds_of_all(nodes), visited_all(v, nodes)),
    decreases nodes,
{
    if nodes.len() > 0 {
        lemma_walk_keeps(v, nodes.drop_last());
        lemma_node_keeps(visited_all(v, nodes.drop_last()), nodes.last());
        lemma_kinds_split(kinds_of_all(nodes.drop_last()), kinds_of(nodes.last()));
    }
}

proof fn lemma_node_keeps(v: VisitorView, node: Node)
    ensures
        keeps(v, kinds_of(node), visited(v, node)),
    decreases node,
{
    lemma_walk_keeps(entered(v, node.kind), node.children@);
    lemma_kinds_split(seq![node.kind], kinds_of_all(node.children@));
    assert(seq![node.kind][0] == node.kind);
}

/// A call makes no reference and binds no name by itself, `require("a")` and `import("a")` not
/// excepted: a walk over a call leaves the references and the bindings as they were, unless a
/// declaration stands below it. It leaves the request for a webpack runtime as it was, unless a
/// declarator below it makes one.
pub proof fn lemma_call_makes_no_reference(v: VisitorView, call: CallExpr, children: Seq<Node>)
    ensures
        ({
            let after = visited_all(entered_call(v, call), children);
            let below = kinds_of_all(children);
            &&& declare_nothing(below) ==> {
                &&& after.references == v.references
                &&& after.imports == v.imports
            }
            &&& ask_for_no_runtime(below) ==> after.webpack_runtime == v.webpack_runtime
        }),
{
    lemma_walk_keeps(entered_call(v, call), children);
}

/// Whether one of `specifiers` binds `name`.
pub open spec fn binds(src: Seq<char>, specifiers: Seq<ImportSpecifier>, name: Seq<char>) -> bool {
    exists|i: int|
        0 <= i < specifiers.len() && (#[trigger] binding_of(src, specifiers[i]) matches Some(
            binding,
        ) && binding.0 == name)
}

/// A name that no specifier of an import binds keeps its meaning.
pub proof fn lemma_other_names_stay(
    imports: ImportsView,
    src: Seq<char>,
    specifiers: Seq<ImportSpecifier>,
    name: Seq<char>,
)
    requires
        !binds(src, specifiers, name),
    ensures
        ({
            let after = with_specifiers(imports, src, specifiers);
            &&& after.contains_key(name) == imports.contains_key(name)
            &&& after.contains_key(name) ==> after[name] == imports[name]
        }),
    decreases specifiers.len(),
{
    if specifiers.len() > 0 {
        let shorter = specifiers.drop_last();
        let end = specifiers.len() - 1;
        if binds(src, shorter, name) {
            let i = choose|i: int|
                0 <= i < shorter.len() && (#[trigger] binding_of(src, shorter[i]) matches Some(
                    binding,
                ) && binding.0 == name);
            assert(binding_of(src, specifiers[i]) == binding_of(src, shorter[i]));
        }
        assert(binding_of(src, specifiers[end]) == binding_of(src, specifiers.last()));
        lemma_other_names_stay(imports, src, shorter, name);
    }
}

/// Where several specifiers of an import bind a name, the last of them gives it its meaning.
pub proof fn lemma_last_specifier_binds(
    imports: ImportsView,
    src: Seq<char>,
    specifiers: Seq<ImportSpecifier>,
    name: Seq<char>,
    last: int,
)
    requires
        0 <= last < specifiers.len(),
        binding_of(src, specifiers[last]) is Some,
        (binding_of(src, specifiers[last])->0).0 == name,
        !binds(src, specifiers.skip(last + 1), name),
    ensures
        with_specifiers(imports, src, specifiers).contains_key(name),
        with_specifiers(imports, src, specifiers)[name] == (binding_of(
            src,
            specifiers[last],
        )->0).1,
    decreases specifiers.len(),
{
    let shorter = specifiers.drop_last();
    let end = specifiers.len() - 1;
    let behind = specifiers.skip(last + 1);
    assert(binding_of(src, specifiers[end]) == binding_of(src, specifiers.last()));
    if last < end {
        assert(behind[end - last - 1] == specifiers[end]);
        assert(binding_of(src, behind[end - last - 1]) == binding_of(src, specifiers[end]));
        let fewer = shorter.skip(last + 1);
        if binds(src, fewer, name) {
            let i = choose|i: int|
                0 <= i < fewer.len() && (#[trigger] binding_of(src, fewer[i]) matches Some(
                    binding,
                ) && binding.0 == name);
            assert(behind[i] == fewer[i]);
            assert(binding_of(src, behind[i]) == binding_of(src, fewer[i]));
        }
        lemma_last_specifier_binds(imports, src, shorter, name, last);
    }
}

/// An import of types makes a reference like any other, and binds no name.
pub proof fn lemma_type_import_binds_nothing(v: VisitorView, import: ImportDecl, node: Node)
    requires
        node.kind == NodeKind::Import(import),
        import.type_only,
    ensures
        visited(v, node) == visited_all(with_request(v, import.src@), node.children@),
{
}

} // verus!
