//! What is known of a value that the analysis of a module meets while it links one.
use crate::reference::{ResolveResult, ResolveResultVc, ResolveResultView};
use crate::text::{is_text, joined};
use crate::value::{
    ConstantValue, ConstantValueView, FreeVarKind, JsValue, JsValueView, WellKnownFunctionKind,
    WellKnownFunctionKindView, WellKnownObjectKind, lemma_call_view,
};
use crate::vc::{
    AssetVc, Failure, FileSystemPathVc, Pattern, PatternView, RequestVc, context_of,
};
use std::sync::Arc;
use vstd::prelude::*;

verus! {

/// A visit to a value, by what it waits for.
#[derive(Debug, PartialEq, Eq, Hash)]
pub enum ValueVisit {
    /// What the request of `require.resolve(..args)` resolves to as one of a CommonJS module.
    Resolve { resolution: ResolveResultVc, args: Vec<JsValue> },
    /// The text of a path.
    ReadPath(FileSystemPathVc),
    /// This value, with the well-known objects and functions in it replaced.
    ReplaceWellKnown(JsValue),
    /// This value, with the builtin operations in it replaced.
    ReplaceBuiltin { value: JsValue, modified: bool },
    /// This value, brought into normal form at its outermost level.
    Normalize { value: JsValue, modified: bool },
    /// Nothing: `value` is what is known, and `modified` tells whether that is news.
    Done { value: JsValue, modified: bool },
    /// Nothing: something that the visit had to know could not be found out.
    Failed(Failure),
}

/// The mathematical value of a [`ValueVisit`].
pub enum ValueVisitView {
    Resolve { resolution: ResolveResultView, args: Seq<JsValueView> },
    ReadPath(FileSystemPathVc),
    ReplaceWellKnown(JsValueView),
    ReplaceBuiltin { value: JsValueView, modified: bool },
    Normalize { value: JsValueView, modified: bool },
    Done { value: JsValueView, modified: bool },
    Failed(Failure),
}

impl DeepView for ValueVisit {
    type V = ValueVisitView;

    open spec fn deep_view(&self) -> ValueVisitView {
        match self {
            ValueVisit::Resolve { resolution, args } => ValueVisitView::Resolve {
                resolution: resolution.deep_view(),
                args: args.deep_view(),
            },
            ValueVisit::ReadPath(path) => ValueVisitView::ReadPath(*path),
            ValueVisit::ReplaceWellKnown(value) => ValueVisitView::ReplaceWellKnown(
                value.deep_view(),
            ),
            ValueVisit::ReplaceBuiltin { value, modified } => ValueVisitView::ReplaceBuiltin {
                value: value.deep_view(),
                modified: *modified,
            },
            ValueVisit::Normalize { value, modified } => ValueVisitView::Normalize {
                value: value.deep_view(),
                modified: *modified,
            },
            ValueVisit::Done { value, modified } => ValueVisitView::Done {
                value: value.deep_view(),
                modified: *modified,
            },
            ValueVisit::Failed(failure) => ValueVisitView::Failed(*failure),
        }
    }
}

/// What a visit is told. `Replaced` holds a value, and whether it differs from what was asked
/// for. `Failed` is told where a request cannot be resolved, or a path not be read, for an error;
/// a request that leads nowhere is resolved.
#[derive(Debug, PartialEq, Eq, Hash)]
pub enum VisitReply {
    Resolved(ResolveResult),
    Path(String),
    Replaced(JsValue, bool),
    Normalized(JsValue),
    Failed(Failure),
}

/// The mathematical value of a [`VisitReply`].
pub enum VisitReplyView {
    Resolved(ResolveResult),
    Path(Seq<char>),
    Replaced(JsValueView, bool),
    Normalized(JsValueView),
    Failed(Failure),
}

impl DeepView for VisitReply {
    type V = VisitReplyView;

    open spec fn deep_view(&self) -> VisitReplyView {
        match self {
            VisitReply::Resolved(resolved) => VisitReplyView::Resolved(*resolved),
            VisitReply::Path(path) => VisitReplyView::Path(path@),
            VisitReply::Replaced(value, modified) => VisitReplyView::Replaced(
                value.deep_view(),
                *modified,
            ),
            VisitReply::Normalized(value) => VisitReplyView::Normalized(value.deep_view()),
            VisitReply::Failed(failure) => VisitReplyView::Failed(*failure),
        }
    }
}

/// The constant that a path stands for: its text from the root.
pub open spec fn absolute(path: Seq<char>) -> JsValueView {
    JsValueView::Constant(ConstantValueView::Str("/"@ + path))
}

/// What comes of reading a path: the constant that it stands for, or the error.
pub open spec fn absolute_path(read: Result<Seq<char>, Failure>) -> Result<JsValueView, Failure> {
    match read {
        Ok(path) => Ok(absolute(path)),
        Err(failure) => Err(failure),
    }
}

/// The value `require.resolve(..args)`.
pub open spec fn require_resolve(args: Seq<JsValueView>) -> JsValueView {
    JsValueView::Call(
        Box::new(JsValueView::WellKnownFunction(WellKnownFunctionKindView::RequireResolve)),
        args,
    )
}

/// The resolution of what `value` names, as a request of a CommonJS module in the directory of
/// `source`.
pub open spec fn request_resolution(source: AssetVc, value: JsValueView) -> ResolveResultView {
    ResolveResultView::Cjs(PatternView::OfValue(value), context_of(source))
}

/// `value`, which could not be evaluated for `reason`.
pub open spec fn unknown(value: JsValueView, reason: Seq<char>) -> JsValueView {
    JsValueView::Unknown(Some(Box::new(value)), reason)
}

/// `value` is all that is known, but for its normal form.
pub open spec fn settled(value: JsValueView, modified: bool) -> ValueVisitView {
    ValueVisitView::Normalize { value, modified }
}

/// What comes of a value that is news, if it could be found out.
pub open spec fn settled_or_failed(found: Result<JsValueView, Failure>) -> ValueVisitView {
    match found {
        Ok(value) => settled(value, true),
        Err(failure) => ValueVisitView::Failed(failure),
    }
}

/// The object that the module `name` exports, where it is one of the platform.
pub open spec fn platform_module(name: Seq<char>) -> Option<WellKnownObjectKind> {
    if name == "path"@ {
        Some(WellKnownObjectKind::PathModule)
    } else if name == "fs/promises"@ || name == "fs"@ {
        Some(WellKnownObjectKind::FsModule)
    } else if name == "child_process"@ {
        Some(WellKnownObjectKind::ChildProcess)
    } else {
        None
    }
}

impl ValueVisitView {
    /// The visit to `value` in the module `source`, before any reply.
    pub open spec fn initial(source: AssetVc, value: JsValueView) -> ValueVisitView {
        match value {
            JsValueView::Call(callee, args) => if *callee == JsValueView::WellKnownFunction(
                WellKnownFunctionKindView::RequireResolve,
            ) {
                if args.len() == 1 {
                    ValueVisitView::Resolve {
                        resolution: request_resolution(source, args[0]),
                        args,
                    }
                } else {
                    settled(unknown(value, "only a single argument is supported"@), true)
                }
            } else {
                ValueVisitView::ReplaceWellKnown(value)
            },
            JsValueView::FreeVar(FreeVarKind::Dirname) => ValueVisitView::ReadPath(
                context_of(source),
            ),
            JsValueView::FreeVar(FreeVarKind::Require) => settled(
                JsValueView::WellKnownFunction(WellKnownFunctionKindView::Require),
                true,
            ),
            JsValueView::FreeVar(FreeVarKind::Import) => settled(
                JsValueView::WellKnownFunction(WellKnownFunctionKindView::Import),
                true,
            ),
            JsValueView::FreeVar(_) => settled(unknown(value, "unknown global"@), true),
            JsValueView::Module(name) => match platform_module(name) {
                Some(kind) => settled(JsValueView::WellKnownObject(kind), true),
                None => settled(value, false),
            },
            _ => ValueVisitView::ReplaceWellKnown(value),
        }
    }

    /// This visit after a reply. One that it does not wait for changes nothing.
    pub open spec fn after(self, reply: VisitReplyView) -> ValueVisitView {
        match (self, reply) {
            (
                ValueVisitView::Resolve { args, .. },
                VisitReplyView::Resolved(resolved),
            ) => match resolved {
                ResolveResult::Single(asset) => ValueVisitView::ReadPath(
                    FileSystemPathVc::PathOf(asset),
                ),
                ResolveResult::Other => settled(
                    unknown(require_resolve(args), "unresolveable request"@),
                    true,
                ),
            },
            (ValueVisitView::Resolve { .. }, VisitReplyView::Failed(failure)) => {
                ValueVisitView::Failed(failure)
            },
            (ValueVisitView::ReadPath(_), VisitReplyView::Path(path)) => settled_or_failed(
                absolute_path(Ok(path)),
            ),
            (ValueVisitView::ReadPath(_), VisitReplyView::Failed(failure)) => settled_or_failed(
                absolute_path(Err(failure)),
            ),
            (
                ValueVisitView::ReplaceWellKnown(_),
                VisitReplyView::Replaced(value, modified),
            ) => ValueVisitView::ReplaceBuiltin { value, modified },
            (
                ValueVisitView::ReplaceBuiltin { modified: before, .. },
                VisitReplyView::Replaced(value, modified),
            ) => settled(value, before || modified),
            (
                ValueVisitView::Normalize { modified, .. },
                VisitReplyView::Normalized(value),
            ) => ValueVisitView::Done { value, modified },
            _ => self,
        }
    }
}

/// The constant that a path stands for: its text from the root. A path that could not be read
/// stands for none, and the error is passed on.
pub fn as_abs_path(read: Result<String, Failure>) -> (res: Result<JsValue, Failure>)
    ensures
        match read {
            Ok(path) => res matches Ok(value) && value.deep_view() == absolute(path@),
            Err(failure) => res matches Err(error) && error == failure,
        },
{
    match read {
        Ok(path) => Ok(JsValue::Constant(ConstantValue::Str(joined("/", path.as_str())))),
        Err(failure) => Err(failure),
    }
}

/// Goes on with a value that is news, if it could be found out.
fn settle(found: Result<JsValue, Failure>) -> (res: ValueVisit)
    ensures
        res.deep_view() == match found {
            Ok(value) => settled_or_failed(Ok(value.deep_view())),
            Err(failure) => settled_or_failed(Err(failure)),
        },
{
    match found {
        Ok(value) => ValueVisit::Normalize { value, modified: true },
        Err(failure) => ValueVisit::Failed(failure),
    }
}

/// `value`, which could not be evaluated for `reason`.
fn unknown_value(value: JsValue, reason: &'static str) -> (res: JsValue)
    ensures
        res.deep_view() == unknown(value.deep_view(), reason@),
{
    JsValue::Unknown(Some(Arc::new(value)), reason)
}

/// The value `require.resolve(..args)`.
fn require_resolve_of(args: Vec<JsValue>) -> (res: JsValue)
    ensures
        res.deep_view() == require_resolve(args.deep_view()),
{
    let callee = JsValue::WellKnownFunction(WellKnownFunctionKind::RequireResolve);
    assert(callee.deep_view() == JsValueView::WellKnownFunction(
        WellKnownFunctionKindView::RequireResolve,
    ));
    let callee = Box::new(callee);
    proof {
        lemma_call_view(callee, args);
    }
    JsValue::Call(callee, args)
}

/// Whether `value` is `require.resolve`.
fn is_require_resolve(value: &JsValue) -> (res: bool)
    ensures
        res == (value.deep_view() == JsValueView::WellKnownFunction(
            WellKnownFunctionKindView::RequireResolve,
        )),
{
    match value {
        JsValue::WellKnownFunction(WellKnownFunctionKind::RequireResolve) => true,
        _ => false,
    }
}

/// Starts a visit to `value` in the module `source`.
pub fn value_visitor(source: AssetVc, value: JsValue) -> (res: ValueVisit)
    ensures
        res.deep_view() == ValueVisitView::initial(source, value.deep_view()),
{
    let ghost view = value.deep_view();
    match value {
        JsValue::Call(callee, args) => {
            proof {
                lemma_call_view(callee, args);
            }
            if is_require_resolve(&callee) {
                if args.len() == 1 {
                    let pattern = Pattern::OfValue(args[0].clone());
                    assert(args.deep_view()[0] == args@[0].deep_view());
                    let request = RequestVc::parse(pattern);
                    let context = source.path().parent();
                    let resolution = ResolveResultVc::Cjs { request, context };
                    ValueVisit::Resolve { resolution, args }
                } else {
                    let call = require_resolve_of(args);
                    assert(call.deep_view() == view);
                    let value = unknown_value(call, "only a single argument is supported");
                    ValueVisit::Normalize { value, modified: true }
                }
            } else {
                ValueVisit::ReplaceWellKnown(JsValue::Call(callee, args))
            }
        },
        JsValue::FreeVar(kind) => match kind {
            FreeVarKind::Dirname => ValueVisit::ReadPath(source.path().parent()),
            FreeVarKind::Require => ValueVisit::Normalize {
                value: JsValue::WellKnownFunction(WellKnownFunctionKind::Require),
                modified: true,
            },
            FreeVarKind::Import => ValueVisit::Normalize {
                value: JsValue::WellKnownFunction(WellKnownFunctionKind::Import),
                modified: true,
            },
            FreeVarKind::Other(_) => {
                let value = unknown_value(JsValue::FreeVar(kind), "unknown global");
                ValueVisit::Normalize { value, modified: true }
            },
        },
        JsValue::Module(name) => {
            let (value, modified) = if is_text(&name, "path") {
                (JsValue::WellKnownObject(WellKnownObjectKind::PathModule), true)
            } else if is_text(&name, "fs/promises") {
                (JsValue::WellKnownObject(WellKnownObjectKind::FsModule), true)
            } else if is_text(&name, "fs") {
                (JsValue::WellKnownObject(WellKnownObjectKind::FsModule), true)
            } else if is_text(&name, "child_process") {
                (JsValue::WellKnownObject(WellKnownObjectKind::ChildProcess), true)
            } else {
                (JsValue::Module(name), false)
            };
            ValueVisit::Normalize { value, modified }
        },
        _ => ValueVisit::ReplaceWellKnown(value),
    }
}

impl ValueVisit {
    /// Goes on with a reply. One that this visit does not wait for changes nothing.
    pub fn resume(self, reply: VisitReply) -> (res: Self)
        ensures
            res.deep_view() == self.deep_view().after(reply.deep_view()),
    {
        match (self, reply) {
            (ValueVisit::Resolve { args, .. }, VisitReply::Resolved(resolved)) => match resolved {
                ResolveResult::Single(asset) => ValueVisit::ReadPath(asset.path()),
                ResolveResult::Other => {
                    let value = unknown_value(require_resolve_of(args), "unresolveable request");
                    ValueVisit::Normalize { value, modified: true }
                },
            },
            (ValueVisit::Resolve { .. }, VisitReply::Failed(failure)) => {
                ValueVisit::Failed(failure)
            },
            (ValueVisit::ReadPath(_), VisitReply::Path(path)) => settle(as_abs_path(Ok(path))),
            (ValueVisit::ReadPath(_), VisitReply::Failed(failure)) => settle(
                as_abs_path(Err(failure)),
            ),
            (ValueVisit::ReplaceWellKnown(_), VisitReply::Replaced(value, modified)) => {
                ValueVisit::ReplaceBuiltin { value, modified }
            },
            (
                ValueVisit::ReplaceBuiltin { modified: before, .. },
                VisitReply::Replaced(value, modified),
            ) => ValueVisit::Normalize { value, modified: before || modified },
            (ValueVisit::Normalize { modified, .. }, VisitReply::Normalized(value)) => {
                ValueVisit::Done { value, modified }
            },
            (visit, _) => visit,
        }
    }
}

/// Surroundings that answer every question of a visit, and the same one always in the same way. To
/// resolve a request and to read a path may fail.
pub struct ValueWorld {
    pub resolve: spec_fn(ResolveResultView) -> Result<ResolveResult, Failure>,
    pub path: spec_fn(FileSystemPathVc) -> Result<Seq<char>, Failure>,
    pub replace_well_known: spec_fn(JsValueView) -> (JsValueView, bool),
    pub replace_builtin: spec_fn(JsValueView) -> (JsValueView, bool),
    pub normalize: spec_fn(JsValueView) -> JsValueView,
}

impl ValueWorld {
    /// The answer to what a visit waits for. There is none once it is over.
    pub open spec fn answer(self, visit: ValueVisitView) -> VisitReplyView
        recommends
            visit !is Done,
            visit !is Failed,
    {
        match visit {
            ValueVisitView::Resolve { resolution, .. } => match (self.resolve)(resolution) {
                Ok(resolved) => VisitReplyView::Resolved(resolved),
                Err(failure) => VisitReplyView::Failed(failure),
            },
            ValueVisitView::ReadPath(path) => match (self.path)(path) {
                Ok(path) => VisitReplyView::Path(path),
                Err(failure) => VisitReplyView::Failed(failure),
            },
            ValueVisitView::ReplaceWellKnown(value) => {
                let (value, modified) = (self.replace_well_known)(value);
                VisitReplyView::Replaced(value, modified)
            },
            ValueVisitView::ReplaceBuiltin { value, .. } => {
                let (value, modified) = (self.replace_builtin)(value);
                VisitReplyView::Replaced(value, modified)
            },
            ValueVisitView::Normalize { value, .. } => VisitReplyView::Normalized(
                (self.normalize)(value),
            ),
            ValueVisitView::Done { .. } => arbitrary(),
            ValueVisitView::Failed(_) => arbitrary(),
        }
    }
}

/// How many replies a visit still takes at most.
pub open spec fn visit_rank(visit: ValueVisitView) -> nat {
    match visit {
        ValueVisitView::Resolve { .. } => 3,
        ValueVisitView::ReadPath(_) => 2,
        ValueVisitView::ReplaceWellKnown(_) => 3,
        ValueVisitView::ReplaceBuiltin { .. } => 2,
        ValueVisitView::Normalize { .. } => 1,
        ValueVisitView::Done { .. } => 0,
        ValueVisitView::Failed(_) => 0,
    }
}

/// Whether `reply` is what `visit` waits for.
pub open spec fn visit_takes(visit: ValueVisitView, reply: VisitReplyView) -> bool {
    match visit {
        ValueVisitView::Resolve { .. } => reply is Resolved || reply is Failed,
        ValueVisitView::ReadPath(_) => reply is Path || reply is Failed,
        ValueVisitView::ReplaceWellKnown(_) => reply is Replaced,
        ValueVisitView::ReplaceBuiltin { .. } => reply is Replaced,
        ValueVisitView::Normalize { .. } => reply is Normalized,
        ValueVisitView::Done { .. } => false,
        ValueVisitView::Failed(_) => false,
    }
}

/// A visit is over after at most three replies that it waits for, whatever they say, and no other
/// reply changes it.
pub proof fn lemma_visit_ends(
    source: AssetVc,
    value: JsValueView,
    visit: ValueVisitView,
    reply: VisitReplyView,
)
    ensures
        visit_rank(ValueVisitView::initial(source, value)) <= 3,
        visit_takes(visit, reply) ==> visit_rank(visit.after(reply)) < visit_rank(visit),
        visit_rank(visit) == 0 <==> visit is Done || visit is Failed,
        !visit_takes(visit, reply) ==> visit.after(reply) == visit,
{
}

/// A visit ends with the error of the first question that fails, and only so: no other reply makes
/// it fail, and none takes it further.
pub proof fn lemma_visit_fails_with_first_failure(visit: ValueVisitView, reply: VisitReplyView)
    ensures
        visit !is Failed ==> (visit.after(reply) is Failed <==> reply is Failed && visit_takes(
            visit,
            reply,
        )),
        visit !is Failed && visit.after(reply) is Failed ==> reply == VisitReplyView::Failed(
            visit.after(reply)->Failed_0,
        ),
        visit is Failed ==> visit.after(reply) == visit,
{
}

/// Where a visit ends that is told the truth about `w`: the value, and whether it is news, or the
/// error that it failed with.
pub open spec fn visit_run(w: ValueWorld, visit: ValueVisitView) -> Result<
    (JsValueView, bool),
    Failure,
>
    decreases visit_rank(visit),
{
    match visit {
        ValueVisitView::Done { value, modified } => Ok((value, modified)),
        ValueVisitView::Failed(failure) => Err(failure),
        _ => visit_run(w, visit.after(w.answer(visit))),
    }
}

/// `found`, which is news, if it could be found out.
pub open spec fn as_news(found: Result<JsValueView, Failure>) -> Result<
    (JsValueView, bool),
    Failure,
> {
    match found {
        Ok(value) => Ok((value, true)),
        Err(failure) => Err(failure),
    }
}

/// What is known of `value` in the module `source`, before it is brought into normal form, and
/// whether that is news; or the error that finding it out ends with.
pub open spec fn known_value(
    w: ValueWorld,
    source: AssetVc,
    value: JsValueView,
) -> Result<(JsValueView, bool), Failure> {
    match value {
        JsValueView::Call(callee, args) if value == require_resolve(args) => if args.len() != 1 {
            Ok((unknown(value, "only a single argument is supported"@), true))
        } else {
            match (w.resolve)(request_resolution(source, args[0])) {
                Ok(ResolveResult::Single(asset)) => as_news(
                    absolute_path((w.path)(FileSystemPathVc::PathOf(asset))),
                ),
                Ok(ResolveResult::Other) => Ok((unknown(value, "unresolveable request"@), true)),
                Err(failure) => Err(failure),
            }
        },
        JsValueView::FreeVar(kind) => match kind {
            FreeVarKind::Dirname => as_news(absolute_path((w.path)(context_of(source)))),
            FreeVarKind::Require => Ok(
                (JsValueView::WellKnownFunction(WellKnownFunctionKindView::Require), true),
            ),
            FreeVarKind::Import => Ok(
                (JsValueView::WellKnownFunction(WellKnownFunctionKindView::Import), true),
            ),
            FreeVarKind::Other(_) => Ok((unknown(value, "unknown global"@), true)),
        },
        JsValueView::Module(name) => match platform_module(name) {
            Some(kind) => Ok((JsValueView::WellKnownObject(kind), true)),
            None => Ok((value, false)),
        },
        _ => {
            let (value, well_known) = (w.replace_well_known)(value);
            let (value, builtin) = (w.replace_builtin)(value);
            Ok((value, well_known || builtin))
        },
    }
}

/// A visit that is told the truth about `w` ends with the normal form of [`known_value`], and with
/// exactly its flag. Where finding out the value fails, the visit ends with the same error.
pub proof fn lemma_visit_comes_to_known_value(w: ValueWorld, source: AssetVc, value: JsValueView)
    ensures
        visit_run(w, ValueVisitView::initial(source, value)) == match known_value(
            w,
            source,
            value,
        ) {
            Ok((known, modified)) => Ok(((w.normalize)(known), modified)),
            Err(failure) => Err(failure),
        },
{
    reveal_with_fuel(visit_run, 5);
    match value {
        JsValueView::Call(callee, args) => {
            assert(value == require_resolve(args) <==> *callee == JsValueView::WellKnownFunction(
                WellKnownFunctionKindView::RequireResolve,
            ));
        },
        _ => {},
    }
}

/// A path that is read stands for a string: a slash, and then exactly its text. So paths of
/// different texts stand for different strings. One that could not be read stands for nothing but
/// its error.
pub proof fn lemma_path_is_slash_and_text(
    first: Result<Seq<char>, Failure>,
    second: Result<Seq<char>, Failure>,
)
    ensures
        absolute_path(first) is Err <==> first is Err,
        first matches Err(failure) ==> absolute_path(first) == Err::<JsValueView, Failure>(
            failure,
        ),
        first matches Ok(path) ==> {
            &&& absolute_path(first) matches Ok(JsValueView::Constant(ConstantValueView::Str(text)))
            &&& text.len() == path.len() + 1
            &&& text[0] == '/'
            &&& text.skip(1) == path
        },
        absolute_path(first) == absolute_path(second) ==> first == second,
{
    reveal_strlit("/");
    if let Ok(path) = first {
        assert(("/"@ + path).skip(1) =~= path);
    }
    if let Ok(path) = second {
        assert(("/"@ + path).skip(1) =~= path);
    }
}

} // verus!
