//! What a visit to each kind of value asks and comes to, in terms of the value and of the answers.
use crate::reference::{ResolveResult, ResolveResultView};
use crate::search_laws::directory;
use crate::value::{
    ConstantValueView, FreeVarKind, JsValueView, WellKnownFunctionKindView, WellKnownObjectKind,
};
use crate::value_visitor::{
    ValueVisitView, ValueWorld, VisitReplyView, lemma_visit_comes_to_known_value, visit_run,
    visit_takes,
};
use crate::vc::{AssetVc, Failure, FileSystemPathVc, PatternView};
use vstd::prelude::*;

verus! {

/// Where a visit to `value` ends.
pub open spec fn comes_to(w: ValueWorld, source: AssetVc, value: JsValueView) -> Result<
    (JsValueView, bool),
    Failure,
> {
    visit_run(w, ValueVisitView::initial(source, value))
}

/// The normal form of `value`, and whether that is news.
pub open spec fn told(w: ValueWorld, value: JsValueView, modified: bool) -> Result<
    (JsValueView, bool),
    Failure,
> {
    Ok(((w.normalize)(value), modified))
}

/// A value that could not be evaluated, for `reason`.
pub open spec fn not_known(w: ValueWorld, value: JsValueView, reason: Seq<char>) -> Result<
    (JsValueView, bool),
    Failure,
> {
    told(w, JsValueView::Unknown(Some(Box::new(value)), reason), true)
}

/// The string that the text of `path` is with a slash before it, or the error of reading it.
pub open spec fn told_path(w: ValueWorld, path: FileSystemPathVc) -> Result<
    (JsValueView, bool),
    Failure,
> {
    match (w.path)(path) {
        Ok(text) => told(w, JsValueView::Constant(ConstantValueView::Str("/"@ + text)), true),
        Err(failure) => Err(failure),
    }
}

/// `__dirname` is the path of the directory of the module, `require` and `import` are the functions
/// of these names, and any other free variable is not known. All of that is news.
pub proof fn lemma_visit_of_free_variable(w: ValueWorld, source: AssetVc, kind: FreeVarKind)
    ensures
        comes_to(w, source, JsValueView::FreeVar(kind)) == match kind {
            FreeVarKind::Dirname => told_path(w, directory(source)),
            FreeVarKind::Require => told(
                w,
                JsValueView::WellKnownFunction(WellKnownFunctionKindView::Require),
                true,
            ),
            FreeVarKind::Import => told(
                w,
                JsValueView::WellKnownFunction(WellKnownFunctionKindView::Import),
                true,
            ),
            FreeVarKind::Other(_) => not_known(
                w,
                JsValueView::FreeVar(kind),
                "unknown global"@,
            ),
        },
{
    lemma_visit_comes_to_known_value(w, source, JsValueView::FreeVar(kind));
}

/// The modules `path`, `fs`, `fs/promises` and `child_process` are those of the platform, and that
/// is news. A module of any other name stays what it is, and that is not.
pub proof fn lemma_visit_of_module(w: ValueWorld, source: AssetVc, name: Seq<char>)
    ensures
        ({
            let module = comes_to(w, source, JsValueView::Module(name));
            &&& name == "path"@ ==> module == told(
                w,
                JsValueView::WellKnownObject(WellKnownObjectKind::PathModule),
                true,
            )
            &&& name == "fs"@ || name == "fs/promises"@ ==> module == told(
                w,
                JsValueView::WellKnownObject(WellKnownObjectKind::FsModule),
                true,
            )
            &&& name == "child_process"@ ==> module == told(
                w,
                JsValueView::WellKnownObject(WellKnownObjectKind::ChildProcess),
                true,
            )
            &&& name != "path"@ && name != "fs"@ && name != "fs/promises"@ && name
                != "child_process"@ ==> module == told(w, JsValueView::Module(name), false)
        }),
{
    lemma_visit_comes_to_known_value(w, source, JsValueView::Module(name));
    reveal_strlit("path");
    reveal_strlit("fs");
    reveal_strlit("fs/promises");
    reveal_strlit("child_process");
    assert("path"@.len() == 4);
    assert("fs"@.len() == 2);
    assert("fs/promises"@.len() == 11);
    assert("child_process"@.len() == 13);
}

/// `require.resolve` with one argument is the path of the asset that the pattern of its argument
/// resolves to, as a request of a CommonJS module in the directory of the source. Where that is not
/// exactly one asset, the call is not known, all its arguments included. Nor is it with any other
/// number of arguments.
pub proof fn lemma_visit_of_require_resolve(w: ValueWorld, source: AssetVc, args: Seq<JsValueView>)
    ensures
        ({
            let call = JsValueView::Call(
                Box::new(JsValueView::WellKnownFunction(WellKnownFunctionKindView::RequireResolve)),
                args,
            );
            let end = comes_to(w, source, call);
            if args.len() == 1 {
                match (w.resolve)(
                    ResolveResultView::Cjs(PatternView::OfValue(args[0]), directory(source)),
                ) {
                    Ok(ResolveResult::Single(asset)) => end == told_path(
                        w,
                        FileSystemPathVc::PathOf(asset),
                    ),
                    Ok(ResolveResult::Other) => end == not_known(
                        w,
                        call,
                        "unresolveable request"@,
                    ),
                    Err(failure) => end == Err::<(JsValueView, bool), Failure>(failure),
                }
            } else {
                end == not_known(w, call, "only a single argument is supported"@)
            }
        }),
{
    let call = JsValueView::Call(
        Box::new(JsValueView::WellKnownFunction(WellKnownFunctionKindView::RequireResolve)),
        args,
    );
    lemma_visit_comes_to_known_value(w, source, call);
}

/// Any other value is replaced by what is known of the well-known objects in it, and then by what
/// is known of the builtin operations. It is news where either is.
pub proof fn lemma_visit_of_other_value(w: ValueWorld, source: AssetVc, value: JsValueView)
    requires
        value !is FreeVar,
        value !is Module,
        value matches JsValueView::Call(callee, _) ==> *callee != JsValueView::WellKnownFunction(
            WellKnownFunctionKindView::RequireResolve,
        ),
    ensures
        ({
            let (first, well_known) = (w.replace_well_known)(value);
            let (second, builtin) = (w.replace_builtin)(first);
            comes_to(w, source, value) == told(w, second, well_known || builtin)
        }),
{
    lemma_visit_comes_to_known_value(w, source, value);
}

/// Each visit takes answers of its own kind, and an error exactly where it resolves or reads. No
/// other reply changes it.
pub proof fn lemma_visit_takes_its_own_kind(visit: ValueVisitView, reply: VisitReplyView)
    ensures
        visit_takes(visit, reply) <==> match visit {
            ValueVisitView::Resolve { .. } => reply is Resolved || reply is Failed,
            ValueVisitView::ReadPath(_) => reply is Path || reply is Failed,
            ValueVisitView::ReplaceWellKnown(_) => reply is Replaced,
            ValueVisitView::ReplaceBuiltin { .. } => reply is Replaced,
            ValueVisitView::Normalize { .. } => reply is Normalized,
            ValueVisitView::Done { .. } => false,
            ValueVisitView::Failed(_) => false,
        },
        !visit_takes(visit, reply) ==> visit.after(reply) == visit,
{
}

} // verus!
