use references::reference::{ResolveResult, ResolveResultVc};
use references::value::{
    ConstantValue, FreeVarKind, JsValue, WellKnownFunctionKind, WellKnownObjectKind,
};
use references::value_visitor::{as_abs_path, value_visitor, ValueVisit, VisitReply};
use references::vc::{AssetVc, Failure, Pattern, RequestVc};
use std::sync::Arc;

const SOURCE: AssetVc = AssetVc { cell: 3 };

fn text(text: &str) -> JsValue {
    JsValue::Constant(ConstantValue::Str(text.to_string()))
}

fn require_resolve(args: Vec<JsValue>) -> JsValue {
    JsValue::Call(
        Box::new(JsValue::WellKnownFunction(WellKnownFunctionKind::RequireResolve)),
        args,
    )
}

fn unknown(value: JsValue, reason: &'static str) -> JsValue {
    JsValue::Unknown(Some(Arc::new(value)), reason)
}

fn known(value: JsValue, modified: bool) -> ValueVisit {
    ValueVisit::Normalize { value, modified }
}

#[test]
fn a_path_is_taken_from_the_root() {
    assert_eq!(as_abs_path(Ok("src/index.js".to_string())), Ok(text("/src/index.js")));
    assert_eq!(as_abs_path(Ok(String::new())), Ok(text("/")));
    assert_eq!(as_abs_path(Ok("/a".to_string())), Ok(text("//a")));
}

#[test]
fn a_path_that_is_not_read_is_an_error() {
    let failure = Failure { cell: 5 };
    assert_eq!(as_abs_path(Err(failure)), Err(failure));
    let visit = value_visitor(SOURCE, JsValue::FreeVar(FreeVarKind::Dirname));
    assert_eq!(visit.resume(VisitReply::Failed(failure)), ValueVisit::Failed(failure));
}

#[test]
fn a_resolution_that_fails_is_an_error() {
    let failure = Failure { cell: 5 };
    let visit = value_visitor(SOURCE, require_resolve(vec![text("a")]));
    let visit = visit.resume(VisitReply::Failed(failure));
    assert_eq!(visit, ValueVisit::Failed(failure));
    let visit = visit
        .resume(VisitReply::Failed(Failure { cell: 6 }))
        .resume(VisitReply::Resolved(ResolveResult::Other));
    assert_eq!(visit, ValueVisit::Failed(failure));
    let asset = AssetVc { cell: 9 };
    let visit = value_visitor(SOURCE, require_resolve(vec![text("a")]))
        .resume(VisitReply::Resolved(ResolveResult::Single(asset)))
        .resume(VisitReply::Failed(failure));
    assert_eq!(visit, ValueVisit::Failed(failure));
}

#[test]
fn replacing_and_normalizing_do_not_fail() {
    let failed = || VisitReply::Failed(Failure { cell: 5 });
    let visit = value_visitor(SOURCE, JsValue::Other(1)).resume(failed());
    assert_eq!(visit, ValueVisit::ReplaceWellKnown(JsValue::Other(1)));
    assert_eq!(known(text("a"), true).resume(failed()), known(text("a"), true));
}

#[test]
fn the_directory_of_a_module_is_its_path() {
    let visit = value_visitor(SOURCE, JsValue::FreeVar(FreeVarKind::Dirname));
    assert_eq!(visit, ValueVisit::ReadPath(SOURCE.path().parent()));
    assert_eq!(visit.resume(VisitReply::Path("src".to_string())), known(text("/src"), true));
}

#[test]
fn require_and_import_are_functions() {
    assert_eq!(
        value_visitor(SOURCE, JsValue::FreeVar(FreeVarKind::Require)),
        known(JsValue::WellKnownFunction(WellKnownFunctionKind::Require), true)
    );
    assert_eq!(
        value_visitor(SOURCE, JsValue::FreeVar(FreeVarKind::Import)),
        known(JsValue::WellKnownFunction(WellKnownFunctionKind::Import), true)
    );
}

#[test]
fn other_globals_are_unknown() {
    let global = || JsValue::FreeVar(FreeVarKind::Other(6));
    assert_eq!(value_visitor(SOURCE, global()), known(unknown(global(), "unknown global"), true));
}

#[test]
fn modules_of_the_platform() {
    let modules = [
        ("path", WellKnownObjectKind::PathModule),
        ("fs", WellKnownObjectKind::FsModule),
        ("fs/promises", WellKnownObjectKind::FsModule),
        ("child_process", WellKnownObjectKind::ChildProcess),
    ];
    for (name, kind) in modules {
        assert_eq!(
            value_visitor(SOURCE, JsValue::Module(name.to_string())),
            known(JsValue::WellKnownObject(kind), true)
        );
    }
    assert_eq!(
        value_visitor(SOURCE, JsValue::Module("fs-extra".to_string())),
        known(JsValue::Module("fs-extra".to_string()), false)
    );
}

#[test]
fn a_resolved_request_is_a_path() {
    let visit = value_visitor(SOURCE, require_resolve(vec![text("a")]));
    assert_eq!(
        visit,
        ValueVisit::Resolve {
            resolution: ResolveResultVc::Cjs {
                request: RequestVc::parse(Pattern::OfValue(text("a"))),
                context: SOURCE.path().parent(),
            },
            args: vec![text("a")],
        }
    );
    let asset = AssetVc { cell: 9 };
    let visit = visit.resume(VisitReply::Resolved(ResolveResult::Single(asset)));
    assert_eq!(visit, ValueVisit::ReadPath(asset.path()));
    let visit = visit.resume(VisitReply::Path("a.js".to_string()));
    assert_eq!(visit, known(text("/a.js"), true));
    let visit = visit.resume(VisitReply::Normalized(text("/a.js")));
    assert_eq!(visit, ValueVisit::Done { value: text("/a.js"), modified: true });
}

#[test]
fn a_request_that_does_not_resolve_is_unknown() {
    let call = || require_resolve(vec![text("a")]);
    assert_eq!(
        value_visitor(SOURCE, call()).resume(VisitReply::Resolved(ResolveResult::Other)),
        known(unknown(call(), "unresolveable request"), true)
    );
}

#[test]
fn require_resolve_takes_one_argument() {
    for args in [vec![], vec![text("a"), text("b")]] {
        let call = require_resolve(args);
        let copy = call.clone();
        assert_eq!(
            value_visitor(SOURCE, call),
            known(unknown(copy, "only a single argument is supported"), true)
        );
    }
}

#[test]
fn other_values_are_replaced_twice() {
    for (first, second) in [(false, false), (true, false), (false, true), (true, true)] {
        let visit = value_visitor(SOURCE, JsValue::Other(1));
        assert_eq!(visit, ValueVisit::ReplaceWellKnown(JsValue::Other(1)));
        let visit = visit.resume(VisitReply::Replaced(JsValue::Other(2), first));
        assert_eq!(visit, ValueVisit::ReplaceBuiltin { value: JsValue::Other(2), modified: first });
        let visit = visit.resume(VisitReply::Replaced(JsValue::Other(3), second));
        assert_eq!(visit, known(JsValue::Other(3), first || second));
        let visit = visit.resume(VisitReply::Normalized(JsValue::Other(4)));
        assert_eq!(
            visit,
            ValueVisit::Done { value: JsValue::Other(4), modified: first || second }
        );
    }
}

#[test]
fn calls_of_other_functions_are_replaced() {
    let call = || {
        JsValue::Call(
            Box::new(JsValue::WellKnownFunction(WellKnownFunctionKind::Require)),
            vec![text("a")],
        )
    };
    assert_eq!(value_visitor(SOURCE, call()), ValueVisit::ReplaceWellKnown(call()));
}

#[test]
fn replies_that_are_not_waited_for_change_nothing() {
    let visit = value_visitor(SOURCE, JsValue::Other(1)).resume(VisitReply::Path("a".to_string()));
    assert_eq!(visit, ValueVisit::ReplaceWellKnown(JsValue::Other(1)));
    let done = || ValueVisit::Done { value: text("a"), modified: false };
    assert_eq!(done().resume(VisitReply::Replaced(text("b"), true)), done());
    assert_eq!(done().resume(VisitReply::Normalized(text("b"))), done());
}
