use references::ast::{
    CallExpr, Callee, Expr, ExprOrSpread, ImportDecl, Lit, MemberProp, Node, NodeKind, Pat, Span,
    VarDeclarator,
};
use references::diagnostic::{Diagnostic, DiagnosticId, FailedToAnalyse};
use references::exchange::{
    Action, Effect, FindPackageJsonResult, ParseResult, Reply, WebpackRuntime,
};
use references::module_references::{module_references, ModuleReferences, Phase};
use references::reference::{
    resolve_as_webpack_runtime, AssetReferenceVc, CjsAssetReferenceVc, EsmAssetReferenceVc,
    PackageJsonReferenceVc, ResolveResult, SourceAssetReferenceVc, WebpackChunkAssetReference,
    WebpackEntryAssetReference, WebpackRuntimeAssetReference, WebpackRuntimeVc,
};
use references::value::{ConstantValue, JsValue, WellKnownFunctionKind, WellKnownObjectKind};
use references::vc::{AssetVc, Failure, FileSystemPathVc, Pattern, PatternVc, RequestVc};

const SOURCE: AssetVc = AssetVc { cell: 3 };
const RUNTIME: AssetVc = AssetVc { cell: 12 };
const SPAN: Span = Span { lo: 100, hi: 120, ctxt: 1 };

/// A module in surroundings that know a little of JavaScript.
struct Surroundings {
    package_json: Option<u64>,
    nodes: Vec<Node>,
    effects: Vec<Effect>,
    resolved: ResolveResult,
    runtime: WebpackRuntime,
}

fn text(text: &str) -> JsValue {
    JsValue::Constant(ConstantValue::Str(text.to_string()))
}

fn function(kind: WellKnownFunctionKind) -> JsValue {
    JsValue::WellKnownFunction(kind)
}

fn link(value: JsValue) -> JsValue {
    match value {
        JsValue::Call(callee, args) if *callee == function(WellKnownFunctionKind::PathJoin) => {
            let mut path = String::new();
            for arg in args {
                match arg {
                    JsValue::Constant(ConstantValue::Str(part)) => {
                        path.push('/');
                        path.push_str(&part);
                    }
                    _ => return JsValue::Other(99),
                }
            }
            JsValue::Constant(ConstantValue::Str(path))
        }
        JsValue::Member(obj, prop) => match (*obj, *prop) {
            (JsValue::WellKnownObject(WellKnownObjectKind::FsModule), JsValue::Constant(_)) => {
                function(WellKnownFunctionKind::FsReadMethod("readFile".to_string()))
            }
            (JsValue::Other(5), JsValue::Constant(ConstantValue::Num(0))) => text("entry.js"),
            _ => JsValue::Other(98),
        },
        JsValue::Module(name) if name == "fs" => {
            JsValue::WellKnownObject(WellKnownObjectKind::FsModule)
        }
        JsValue::Other(1) => text("linked"),
        value => value,
    }
}

fn words(value: &JsValue) -> String {
    match value {
        JsValue::Constant(ConstantValue::Str(text)) => format!("'{text}'"),
        _ => "?".to_string(),
    }
}

impl Surroundings {
    fn answer(&mut self, action: Action) -> Reply {
        match action {
            Action::FindPackageJson(context) => {
                assert_eq!(context, SOURCE.path().parent());
                Reply::PackageJson(match self.package_json {
                    Some(cell) => FindPackageJsonResult::Found(FileSystemPathVc::Cell(cell)),
                    None => FindPackageJsonResult::NotFound,
                })
            }
            Action::Parse(source) => {
                assert_eq!(source, SOURCE);
                Reply::Parsed(ParseResult::Module {
                    nodes: std::mem::take(&mut self.nodes),
                    effects: std::mem::take(&mut self.effects),
                })
            }
            Action::Resolve(_) => Reply::Resolved(self.resolved),
            Action::ReadRuntime(asset) => {
                assert_eq!(ResolveResult::Single(asset), self.resolved);
                Reply::Runtime(self.runtime)
            }
            Action::Link(value) => Reply::Linked(link(value)),
            Action::LinkAll(values) => Reply::LinkedAll(values.into_iter().map(link).collect()),
            Action::HasConstantParts(value) => {
                Reply::HasConstantParts(matches!(value, JsValue::Constant(_)))
            }
            Action::IsMatch { value, text: wanted } => Reply::IsMatch(value == text(&wanted)),
            Action::ExplainArgs { args, depth, unknown_depth } => {
                assert_eq!((depth, unknown_depth), (10, 2));
                let args: Vec<String> = args.iter().map(words).collect();
                Reply::Explained { args: args.join(", "), hints: "\n- a hint".to_string() }
            }
            Action::Done => unreachable!(),
        }
    }

    fn search(mut self) -> (Vec<AssetReferenceVc>, Vec<Diagnostic>) {
        let mut search = module_references(SOURCE);
        loop {
            search = match search.finish() {
                Ok(Ok((set, diagnostics))) => return (set.references, diagnostics),
                Ok(Err(_)) => panic!("nothing fails here"),
                Err(search) => {
                    let reply = self.answer(search.action());
                    search.resume(reply)
                }
            };
        }
    }
}

fn module(nodes: Vec<Node>, effects: Vec<Effect>) -> Surroundings {
    Surroundings {
        package_json: None,
        nodes,
        effects,
        resolved: ResolveResult::Single(RUNTIME),
        runtime: WebpackRuntime::Absent,
    }
}

fn call_at(func: JsValue, args: Vec<JsValue>, span: Span) -> Effect {
    Effect::Call { func, args, span }
}

fn report_on(func: JsValue, args: Vec<JsValue>) -> (Vec<AssetReferenceVc>, Vec<Diagnostic>) {
    module(vec![], vec![call_at(func, args, SPAN)]).search()
}

fn request(value: JsValue) -> RequestVc {
    RequestVc::parse(Pattern::OfValue(value))
}

fn esm(value: JsValue) -> AssetReferenceVc {
    AssetReferenceVc::Esm(EsmAssetReferenceVc::new(SOURCE, request(value)))
}

fn esm_from(src: &str) -> AssetReferenceVc {
    let request = RequestVc::parse(Pattern::Constant(src.to_string()));
    AssetReferenceVc::Esm(EsmAssetReferenceVc::new(SOURCE, request))
}

fn cjs(value: JsValue) -> AssetReferenceVc {
    AssetReferenceVc::Cjs(CjsAssetReferenceVc::new(SOURCE, request(value)))
}

fn file(value: JsValue) -> AssetReferenceVc {
    let path = PatternVc { pattern: Pattern::OfValue(value) };
    AssetReferenceVc::Source(SourceAssetReferenceVc::new(SOURCE, path))
}

fn lint(message: &str, failure: FailedToAnalyse) -> Diagnostic {
    Diagnostic { span: SPAN, message: message.to_string(), code: DiagnosticId::Lint(failure) }
}

fn error(message: &str, failure: FailedToAnalyse) -> Diagnostic {
    Diagnostic { span: SPAN, message: message.to_string(), code: DiagnosticId::Error(failure) }
}

fn spawn() -> JsValue {
    function(WellKnownFunctionKind::ChildProcessSpawnMethod("spawn".to_string()))
}

fn read_file() -> JsValue {
    function(WellKnownFunctionKind::FsReadMethod("readFile".to_string()))
}

fn import_node(src: &str) -> Node {
    let kind = NodeKind::Import(ImportDecl {
        src: src.to_string(),
        type_only: false,
        specifiers: vec![],
    });
    Node { kind, children: vec![] }
}

fn runtime_node(request: &str, span: Span) -> Node {
    let call = CallExpr {
        span,
        callee: Callee::Expr(Box::new(Expr::Ident("require".to_string()))),
        args: vec![ExprOrSpread {
            spread: false,
            expr: Expr::Lit(Lit::Str(request.to_string())),
        }],
    };
    let kind = NodeKind::VarDeclarator(VarDeclarator {
        name: Pat::Ident("__webpack_require__".to_string()),
        init: Some(Expr::Call(Box::new(call))),
    });
    Node { kind, children: vec![] }
}

fn webpack_node(property: &str, args: Vec<ExprOrSpread>) -> Node {
    let callee = Expr::Member(
        Box::new(Expr::Ident("__webpack_require__".to_string())),
        MemberProp::Ident(property.to_string()),
    );
    let callee = Callee::Expr(Box::new(callee));
    Node { kind: NodeKind::Call(CallExpr { span: SPAN, callee, args }), children: vec![] }
}

#[test]
fn an_import_of_a_known_request_is_followed() {
    let import = || function(WellKnownFunctionKind::Import);
    assert_eq!(report_on(import(), vec![text("a")]), (vec![esm(text("a"))], vec![]));
    assert_eq!(report_on(import(), vec![JsValue::Other(1)]), (vec![esm(text("linked"))], vec![]));
}

#[test]
fn an_import_of_an_unknown_request_is_followed_with_a_lint() {
    assert_eq!(
        report_on(function(WellKnownFunctionKind::Import), vec![JsValue::Other(2)]),
        (
            vec![esm(JsValue::Other(2))],
            vec![lint("import(?) is very dynamic\n- a hint", FailedToAnalyse::DynamicImport)],
        )
    );
}

#[test]
fn an_import_takes_one_argument() {
    let import = || function(WellKnownFunctionKind::Import);
    assert_eq!(
        report_on(import(), vec![]),
        (
            vec![],
            vec![error(
                "import() is not statically analyse-able\n- a hint",
                FailedToAnalyse::DynamicImport
            )],
        )
    );
    assert_eq!(
        report_on(import(), vec![text("a"), JsValue::Other(1)]),
        (
            vec![],
            vec![error(
                "import('a', 'linked') is not statically analyse-able\n- a hint",
                FailedToAnalyse::DynamicImport
            )],
        )
    );
}

#[test]
fn calls_of_require() {
    let require = || function(WellKnownFunctionKind::Require);
    assert_eq!(report_on(require(), vec![text("a")]), (vec![cjs(text("a"))], vec![]));
    assert_eq!(
        report_on(require(), vec![JsValue::Other(2)]),
        (
            vec![cjs(JsValue::Other(2))],
            vec![lint("require(?) is very dynamic\n- a hint", FailedToAnalyse::Require)],
        )
    );
    assert_eq!(
        report_on(require(), vec![text("a"), text("b")]),
        (
            vec![],
            vec![error(
                "require('a', 'b') is not statically analyse-able\n- a hint",
                FailedToAnalyse::Require
            )],
        )
    );
}

#[test]
fn calls_of_require_resolve() {
    let resolve = || function(WellKnownFunctionKind::RequireResolve);
    assert_eq!(report_on(resolve(), vec![text("a")]), (vec![cjs(text("a"))], vec![]));
    assert_eq!(
        report_on(resolve(), vec![JsValue::Other(2)]),
        (
            vec![cjs(JsValue::Other(2))],
            vec![lint(
                "require.resolve(?) is very dynamic\n- a hint",
                FailedToAnalyse::RequireResolve
            )],
        )
    );
    assert_eq!(
        report_on(resolve(), vec![]),
        (
            vec![],
            vec![error(
                "require.resolve() is not statically analyse-able\n- a hint",
                FailedToAnalyse::RequireResolve
            )],
        )
    );
}

#[test]
fn reads_of_files() {
    assert_eq!(
        report_on(read_file(), vec![text("a"), JsValue::Other(2)]),
        (vec![file(text("a"))], vec![])
    );
    assert_eq!(
        report_on(read_file(), vec![JsValue::Other(2), text("utf8")]),
        (
            vec![file(JsValue::Other(2))],
            vec![lint(
                "fs.readFile(?, 'utf8') is very dynamic\n- a hint",
                FailedToAnalyse::FsMethod
            )],
        )
    );
    assert_eq!(
        report_on(read_file(), vec![]),
        (
            vec![],
            vec![error(
                "fs.readFile() is not statically analyse-able\n- a hint",
                FailedToAnalyse::FsMethod
            )],
        )
    );
}

#[test]
fn calls_of_path_join() {
    let join = || function(WellKnownFunctionKind::PathJoin);
    assert_eq!(
        report_on(join(), vec![text("a"), text("b")]),
        (vec![file(text("/a/b"))], vec![])
    );
    assert_eq!(report_on(join(), vec![]), (vec![file(text(""))], vec![]));
    assert_eq!(
        report_on(join(), vec![text("a"), JsValue::Other(1)]),
        (
            vec![file(JsValue::Other(99))],
            vec![lint(
                "path.join('a', 'linked') is very dynamic\n- a hint",
                FailedToAnalyse::PathMethod
            )],
        )
    );
}

#[test]
fn spawned_programs() {
    assert_eq!(
        report_on(spawn(), vec![text("ls"), JsValue::Other(5)]),
        (vec![file(text("ls"))], vec![])
    );
    assert_eq!(
        report_on(spawn(), vec![JsValue::Other(2)]),
        (
            vec![file(JsValue::Other(2))],
            vec![lint(
                "child_process.spawn(?) is very dynamic\n- a hint",
                FailedToAnalyse::ChildProcessSpawn
            )],
        )
    );
    assert_eq!(
        report_on(spawn(), vec![]),
        (
            vec![],
            vec![error(
                "child_process.spawn() is not statically analyse-able\n- a hint",
                FailedToAnalyse::ChildProcessSpawn
            )],
        )
    );
}

#[test]
fn a_spawned_node_runs_a_module() {
    assert_eq!(
        report_on(spawn(), vec![text("node"), JsValue::Other(5)]),
        (vec![cjs(text("entry.js")), file(text("node"))], vec![])
    );
    assert_eq!(
        report_on(spawn(), vec![text("node"), JsValue::Other(6)]),
        (
            vec![cjs(JsValue::Other(98)), file(text("node"))],
            vec![lint(
                "child_process.spawn('node', ?) is very dynamic\n- a hint",
                FailedToAnalyse::ChildProcessSpawn
            )],
        )
    );
    assert_eq!(report_on(spawn(), vec![text("node")]), (vec![file(text("node"))], vec![]));
}

#[test]
fn forked_processes() {
    let fork = || function(WellKnownFunctionKind::ChildProcessFork);
    assert_eq!(report_on(fork(), vec![JsValue::Other(1)]), (vec![cjs(text("linked"))], vec![]));
    assert_eq!(
        report_on(fork(), vec![JsValue::Other(2), JsValue::Other(1)]),
        (
            vec![cjs(JsValue::Other(2))],
            vec![lint(
                "child_process.fork(?, 'linked') is very dynamic\n- a hint",
                FailedToAnalyse::ChildProcessSpawn
            )],
        )
    );
    assert_eq!(
        report_on(fork(), vec![]),
        (
            vec![],
            vec![error(
                "child_process.fork() is not statically analyse-able\n- a hint",
                FailedToAnalyse::ChildProcessSpawn
            )],
        )
    );
}

#[test]
fn calls_of_other_values_are_passed_over() {
    assert_eq!(report_on(JsValue::Other(2), vec![text("a")]), (vec![], vec![]));
    assert_eq!(report_on(JsValue::Module("fs".to_string()), vec![]), (vec![], vec![]));
    assert_eq!(report_on(JsValue::Alternatives(vec![]), vec![text("a")]), (vec![], vec![]));
}

#[test]
fn alternatives_are_each_reported() {
    let alternatives = JsValue::Alternatives(vec![
        function(WellKnownFunctionKind::Require),
        JsValue::Other(2),
        JsValue::Alternatives(vec![
            function(WellKnownFunctionKind::Import),
            function(WellKnownFunctionKind::PathJoin),
        ]),
        read_file(),
    ]);
    assert_eq!(
        report_on(alternatives, vec![text("a")]),
        (
            vec![cjs(text("a")), esm(text("a")), file(text("/a")), file(text("a"))],
            vec![],
        )
    );
}

#[test]
fn a_method_is_linked_through_its_object() {
    let effect = Effect::MemberCall {
        obj: JsValue::Module("fs".to_string()),
        prop: text("readFile"),
        args: vec![text("a")],
        span: SPAN,
    };
    assert_eq!(module(vec![], vec![effect]).search(), (vec![file(text("a"))], vec![]));
}

#[test]
fn references_come_in_order() {
    let mut surroundings = module(
        vec![import_node("x"), import_node("y")],
        vec![
            call_at(function(WellKnownFunctionKind::Require), vec![text("a")], SPAN),
            call_at(function(WellKnownFunctionKind::Import), vec![text("b")], SPAN),
        ],
    );
    surroundings.package_json = Some(8);
    let package_json = PackageJsonReferenceVc::new(FileSystemPathVc::Cell(8));
    assert_eq!(
        surroundings.search(),
        (
            vec![
                AssetReferenceVc::PackageJson(package_json),
                esm_from("x"),
                esm_from("y"),
                cjs(text("a")),
                esm(text("b")),
            ],
            vec![],
        )
    );
}

#[test]
fn diagnostics_come_in_order() {
    let (references, diagnostics) = module(
        vec![],
        vec![
            call_at(function(WellKnownFunctionKind::Require), vec![], SPAN),
            call_at(function(WellKnownFunctionKind::Import), vec![JsValue::Other(2)], SPAN),
        ],
    )
    .search();
    assert_eq!(references, vec![esm(JsValue::Other(2))]);
    assert_eq!(
        diagnostics,
        vec![
            error(
                "require() is not statically analyse-able\n- a hint",
                FailedToAnalyse::Require
            ),
            lint("import(?) is very dynamic\n- a hint", FailedToAnalyse::DynamicImport),
        ]
    );
}

fn bundle(
    resolved: ResolveResult,
    runtime: WebpackRuntime,
) -> (Vec<AssetReferenceVc>, Vec<Diagnostic>) {
    let asks = Span { lo: 1, hi: 9, ctxt: 0 };
    let any = || ExprOrSpread { spread: false, expr: Expr::Other };
    let chunks = Expr::Array(vec![
        Some(ExprOrSpread { spread: false, expr: Expr::Lit(Lit::Num(4)) }),
        Some(ExprOrSpread { spread: false, expr: Expr::Lit(Lit::Str("c".to_string())) }),
    ]);
    let require = || function(WellKnownFunctionKind::Require);
    let mut surroundings = module(
        vec![
            runtime_node("../runtime.js", asks),
            webpack_node("C", vec![]),
            webpack_node("X", vec![any(), ExprOrSpread { spread: false, expr: chunks }, any()]),
        ],
        vec![
            call_at(require(), vec![text("../runtime.js")], asks),
            call_at(require(), vec![text("a")], Span { ctxt: 1, ..asks }),
            Effect::MemberCall {
                obj: JsValue::Module("fs".to_string()),
                prop: text("readFile"),
                args: vec![text("b")],
                span: asks,
            },
        ],
    );
    surroundings.resolved = resolved;
    surroundings.runtime = runtime;
    surroundings.search()
}

#[test]
fn a_webpack_bundle_refers_to_its_runtime_and_chunks() {
    let request = || RequestVc::parse(Pattern::Constant("../runtime.js".to_string()));
    let runtime = || WebpackRuntimeVc::ResolvedAs {
        context: SOURCE.path().parent(),
        request: request(),
    };
    assert_eq!(
        bundle(ResolveResult::Single(RUNTIME), WebpackRuntime::Webpack5),
        (
            vec![
                AssetReferenceVc::WebpackRuntime(WebpackRuntimeAssetReference {
                    source: SOURCE,
                    request: request(),
                    runtime: runtime(),
                }),
                AssetReferenceVc::WebpackEntry(WebpackEntryAssetReference {
                    source: SOURCE,
                    runtime: runtime(),
                }),
                AssetReferenceVc::WebpackChunk(WebpackChunkAssetReference {
                    chunk_id: Lit::Num(4),
                    runtime: runtime(),
                }),
                AssetReferenceVc::WebpackChunk(WebpackChunkAssetReference {
                    chunk_id: Lit::Str("c".to_string()),
                    runtime: runtime(),
                }),
                cjs(text("a")),
            ],
            vec![],
        )
    );
}

#[test]
fn without_a_runtime_there_is_no_bundle() {
    let without = [
        (ResolveResult::Single(RUNTIME), WebpackRuntime::Absent),
        (ResolveResult::Other, WebpackRuntime::Webpack5),
        (ResolveResult::Other, WebpackRuntime::Absent),
    ];
    for (resolved, runtime) in without {
        assert_eq!(
            bundle(resolved, runtime),
            (vec![cjs(text("../runtime.js")), cjs(text("a")), file(text("b"))], vec![])
        );
    }
}

#[test]
fn a_bundle_that_is_no_entry() {
    let mut surroundings = module(vec![runtime_node("r", SPAN)], vec![]);
    surroundings.runtime = WebpackRuntime::Webpack5;
    let (references, diagnostics) = surroundings.search();
    assert_eq!(references.len(), 1);
    assert!(matches!(references[0], AssetReferenceVc::WebpackRuntime(_)));
    assert_eq!(diagnostics, vec![]);
}

#[test]
fn an_unparsed_module_has_its_package_json_only() {
    for parsed in [ParseResult::Unparseable, ParseResult::NotFound] {
        let found = FindPackageJsonResult::Found(FileSystemPathVc::Cell(8));
        let search = module_references(SOURCE)
            .resume(Reply::PackageJson(found))
            .resume(Reply::Parsed(parsed));
        assert_eq!(search.action(), Action::Done);
        match search.finish() {
            Ok(Ok((set, diagnostics))) => {
                let package_json = PackageJsonReferenceVc::new(FileSystemPathVc::Cell(8));
                assert_eq!(set.references, vec![AssetReferenceVc::PackageJson(package_json)]);
                assert_eq!(diagnostics, vec![]);
            }
            _ => panic!("the search is over"),
        }
    }
}

fn at_call(func: JsValue, args: Vec<JsValue>) -> ModuleReferences {
    let effects = vec![call_at(func, args, SPAN)];
    module_references(SOURCE)
        .resume(Reply::PackageJson(FindPackageJsonResult::NotFound))
        .resume(Reply::Parsed(ParseResult::Module { nodes: vec![], effects }))
}

#[test]
fn questions_come_one_at_a_time() {
    let search = module_references(SOURCE);
    assert_eq!(search.action(), Action::FindPackageJson(SOURCE.path().parent()));
    let search = search.resume(Reply::PackageJson(FindPackageJsonResult::NotFound));
    assert_eq!(search.action(), Action::Parse(SOURCE));

    let search = at_call(JsValue::Other(7), vec![JsValue::Other(1), JsValue::Other(5)]);
    assert_eq!(search.action(), Action::Link(JsValue::Other(7)));
    let search = search.resume(Reply::Linked(spawn()));
    assert_eq!(search.action(), Action::LinkAll(vec![JsValue::Other(1), JsValue::Other(5)]));
    let search = search.resume(Reply::LinkedAll(vec![text("node"), JsValue::Other(5)]));
    assert_eq!(
        search.action(),
        Action::IsMatch { value: text("node"), text: "node".to_string() }
    );
    let search = search.resume(Reply::IsMatch(true));
    assert_eq!(
        search.action(),
        Action::Link(JsValue::Member(
            Box::new(JsValue::Other(5)),
            Box::new(JsValue::Constant(ConstantValue::Num(0))),
        ))
    );
    let search = search.resume(Reply::Linked(text("entry.js")));
    assert_eq!(search.action(), Action::HasConstantParts(text("entry.js")));
    let search = search.resume(Reply::HasConstantParts(true));
    assert_eq!(search.references, vec![cjs(text("entry.js"))]);
    assert_eq!(search.action(), Action::HasConstantParts(text("node")));
    let search = search.resume(Reply::HasConstantParts(false));
    assert_eq!(
        search.action(),
        Action::ExplainArgs {
            args: vec![text("node"), JsValue::Other(5)],
            depth: 10,
            unknown_depth: 2,
        }
    );
}

#[test]
fn a_search_asks_for_the_runtime_of_a_bundle() {
    let asking = || {
        module_references(SOURCE)
            .resume(Reply::PackageJson(FindPackageJsonResult::NotFound))
            .resume(Reply::Parsed(ParseResult::Module {
                nodes: vec![runtime_node("r", SPAN)],
                effects: vec![],
            }))
    };
    let request = RequestVc::parse(Pattern::Constant("r".to_string()));
    let resolution = resolve_as_webpack_runtime(&SOURCE.path().parent(), &request);
    assert_eq!(asking().action(), Action::Resolve(resolution));

    let search = asking().resume(Reply::Resolved(ResolveResult::Other));
    assert_eq!(search.ignored, None);
    assert_eq!(search.references, vec![]);
    assert_eq!(search.action(), Action::Done);

    let search = asking().resume(Reply::Resolved(ResolveResult::Single(RUNTIME)));
    assert_eq!(search.action(), Action::ReadRuntime(RUNTIME));
    let search = search.resume(Reply::Runtime(WebpackRuntime::Webpack5));
    assert_eq!(search.ignored, Some(SPAN));
    assert_eq!(search.action(), Action::Done);
}

#[test]
fn other_replies_change_nothing() {
    let search = module_references(SOURCE).resume(Reply::Runtime(WebpackRuntime::Webpack5));
    assert_eq!(search.phase, Phase::PackageJson);
    let search = search.resume(Reply::Parsed(ParseResult::NotFound));
    assert_eq!(search.phase, Phase::PackageJson);
    let search = at_call(function(WellKnownFunctionKind::Import), vec![text("a")])
        .resume(Reply::IsMatch(true))
        .resume(Reply::Linked(function(WellKnownFunctionKind::Import)))
        .resume(Reply::HasConstantParts(true))
        .resume(Reply::Linked(text("a")));
    assert_eq!(search.action(), Action::LinkAll(vec![text("a")]));
    assert_eq!(search.references, vec![]);
}

#[test]
fn an_unfinished_search_is_handed_back() {
    match module_references(SOURCE).finish() {
        Ok(_) => panic!("the search has just begun"),
        Err(search) => assert_eq!(search.phase, Phase::PackageJson),
    }
}

/// A search that has come to each question that may fail, and the question.
fn at_fallible_questions() -> Vec<(ModuleReferences, Action)> {
    let values = || vec![JsValue::Other(1)];
    let parsed = |nodes: Vec<Node>, effects: Vec<Effect>| {
        let found = FindPackageJsonResult::Found(FileSystemPathVc::Cell(8));
        module_references(SOURCE)
            .resume(Reply::PackageJson(found))
            .resume(Reply::Parsed(ParseResult::Module { nodes, effects }))
    };
    let asking = || parsed(vec![runtime_node("r", SPAN)], vec![]);
    let request = RequestVc::parse(Pattern::Constant("r".to_string()));
    let resolution = resolve_as_webpack_runtime(&SOURCE.path().parent(), &request);
    let member = || Effect::MemberCall {
        obj: JsValue::Other(6),
        prop: text("p"),
        args: values(),
        span: SPAN,
    };
    let called = |kind: WellKnownFunctionKind| {
        parsed(vec![], vec![call_at(JsValue::Other(7), values(), SPAN)])
            .resume(Reply::Linked(function(kind)))
    };
    let spawned = parsed(
        vec![],
        vec![call_at(spawn(), vec![text("node"), JsValue::Other(5)], SPAN)],
    )
    .resume(Reply::Linked(spawn()))
    .resume(Reply::LinkedAll(vec![text("node"), JsValue::Other(5)]))
    .resume(Reply::IsMatch(true));
    let first = JsValue::Member(
        Box::new(JsValue::Other(5)),
        Box::new(JsValue::Constant(ConstantValue::Num(0))),
    );
    let join = JsValue::Call(Box::new(function(WellKnownFunctionKind::PathJoin)), values());
    let unknown_path = called(WellKnownFunctionKind::PathJoin)
        .resume(Reply::Linked(JsValue::Other(99)))
        .resume(Reply::HasConstantParts(false));
    vec![
        (module_references(SOURCE), Action::FindPackageJson(SOURCE.path().parent())),
        (
            module_references(SOURCE)
                .resume(Reply::PackageJson(FindPackageJsonResult::NotFound)),
            Action::Parse(SOURCE),
        ),
        (asking(), Action::Resolve(resolution)),
        (
            asking().resume(Reply::Resolved(ResolveResult::Single(RUNTIME))),
            Action::ReadRuntime(RUNTIME),
        ),
        (parsed(vec![], vec![member()]), Action::Link(JsValue::Other(6))),
        (
            parsed(vec![], vec![call_at(JsValue::Other(7), values(), SPAN)]),
            Action::Link(JsValue::Other(7)),
        ),
        (called(WellKnownFunctionKind::Import), Action::LinkAll(values())),
        (spawned, Action::Link(first)),
        (called(WellKnownFunctionKind::PathJoin), Action::Link(join)),
        (called(WellKnownFunctionKind::ChildProcessFork), Action::Link(JsValue::Other(1))),
        (unknown_path, Action::LinkAll(values())),
    ]
}

#[test]
fn a_failed_question_ends_the_search_with_its_error() {
    for (search, action) in at_fallible_questions() {
        assert_eq!(search.action(), action);
        let failure = Failure { cell: 44 };
        let search = search.resume(Reply::Failed(failure));
        assert_eq!(search.action(), Action::Done);
        match search.finish() {
            Ok(outcome) => assert_eq!(outcome, Err(failure)),
            Err(_) => panic!("the search is over"),
        }
    }
}

#[test]
fn nothing_takes_a_failed_search_further() {
    let first = Failure { cell: 1 };
    let search = module_references(SOURCE)
        .resume(Reply::Failed(first))
        .resume(Reply::PackageJson(FindPackageJsonResult::NotFound))
        .resume(Reply::Failed(Failure { cell: 2 }));
    assert_eq!(search.phase, Phase::Failed(first));
}

#[test]
fn what_is_computed_does_not_fail() {
    let failed = || Reply::Failed(Failure { cell: 1 });
    let search = at_call(function(WellKnownFunctionKind::Import), vec![JsValue::Other(2)])
        .resume(Reply::Linked(function(WellKnownFunctionKind::Import)))
        .resume(Reply::LinkedAll(vec![JsValue::Other(2)]))
        .resume(failed());
    assert_eq!(search.action(), Action::HasConstantParts(JsValue::Other(2)));
    let search = search.resume(Reply::HasConstantParts(false)).resume(failed());
    assert!(matches!(search.action(), Action::ExplainArgs { .. }));
    let search = at_call(spawn(), vec![text("ls")])
        .resume(Reply::Linked(spawn()))
        .resume(Reply::LinkedAll(vec![text("ls")]))
        .resume(failed());
    assert!(matches!(search.action(), Action::IsMatch { .. }));
    let search = module_references(SOURCE)
        .resume(Reply::PackageJson(FindPackageJsonResult::NotFound))
        .resume(Reply::Parsed(ParseResult::NotFound))
        .resume(failed());
    assert_eq!(search.phase, Phase::Done);
}
