//! The mathematical value of each type holds all that the type does, as it stands.
//!
//! Contracts speak of these values, so what they leave out no contract could tell apart.
use crate::ast::{Lit, LitView};
use crate::call::{Wait, WaitView};
use crate::diagnostic::Diagnostic;
use crate::exchange::{
    Action, ActionView, Effect, EffectView, ParseResult, ParseResultView, Reply, ReplyView,
};
use crate::module_references::{Bundle, ModuleReferences, Phase, PhaseView};
use crate::reference::{
    AssetReferenceVc, AssetReferenceView, ResolveResultVc, ResolveResultView, WebpackRuntimeVc,
    WebpackRuntimeView,
};
use crate::static_analyser::{StaticAnalyser, StaticExpr, StaticExprView};
use crate::value::{
    ConstantValue, ConstantValueView, JsValue, JsValueView, WellKnownFunctionKind,
    WellKnownFunctionKindView, lemma_alternatives_view, lemma_call_view,
};
use crate::value_visitor::{ValueVisit, ValueVisitView, VisitReply, VisitReplyView};
use crate::vc::{Pattern, PatternVc, PatternView, RequestVc};
use crate::visitor::AssetReferencesVisitor;
use vstd::prelude::*;

verus! {

/// A literal is viewed with its kind and its value.
pub proof fn lemma_view_of_literal(lit: Lit)
    ensures
        match lit {
            Lit::Str(text) => lit.deep_view() == LitView::Str(text@),
            Lit::Bool(value) => lit.deep_view() == LitView::Bool(value),
            Lit::Null => lit.deep_view() == LitView::Null,
            Lit::Num(bits) => lit.deep_view() == LitView::Num(bits),
            Lit::BigInt(digits) => lit.deep_view() == LitView::BigInt(digits@),
            Lit::Regex(exp, flags) => lit.deep_view() == LitView::Regex(exp@, flags@),
            Lit::JSXText(text) => lit.deep_view() == LitView::JSXText(text@),
        },
{
}

/// A constant is viewed with its kind and its value.
pub proof fn lemma_view_of_constant(constant: ConstantValue)
    ensures
        match constant {
            ConstantValue::Str(text) => constant.deep_view() == ConstantValueView::Str(text@),
            ConstantValue::Num(number) => constant.deep_view() == ConstantValueView::Num(number),
            ConstantValue::Other(id) => constant.deep_view() == ConstantValueView::Other(id),
        },
{
}

/// A function is viewed as itself, with the name of its method.
pub proof fn lemma_view_of_function(kind: WellKnownFunctionKind)
    ensures
        match kind {
            WellKnownFunctionKind::Import => kind.deep_view() is Import,
            WellKnownFunctionKind::Require => kind.deep_view() is Require,
            WellKnownFunctionKind::RequireResolve => kind.deep_view() is RequireResolve,
            WellKnownFunctionKind::FsReadMethod(name) => kind.deep_view()
                == WellKnownFunctionKindView::FsReadMethod(name@),
            WellKnownFunctionKind::PathJoin => kind.deep_view() is PathJoin,
            WellKnownFunctionKind::ChildProcessSpawnMethod(name) => kind.deep_view()
                == WellKnownFunctionKindView::ChildProcessSpawnMethod(name@),
            WellKnownFunctionKind::ChildProcessFork => kind.deep_view() is ChildProcessFork,
        },
{
}

/// A value is viewed with its kind and the views of all its parts.
pub proof fn lemma_view_of_value(value: JsValue)
    ensures
        match value {
            JsValue::Constant(constant) => value.deep_view() == JsValueView::Constant(
                constant.deep_view(),
            ),
            JsValue::Alternatives(alts) => value.deep_view() == JsValueView::Alternatives(
                alts.deep_view(),
            ),
            JsValue::FreeVar(kind) => value.deep_view() == JsValueView::FreeVar(kind),
            JsValue::Call(callee, args) => value.deep_view() == JsValueView::Call(
                Box::new((*callee).deep_view()),
                args.deep_view(),
            ),
            JsValue::Member(obj, prop) => value.deep_view() == JsValueView::Member(
                Box::new((*obj).deep_view()),
                Box::new((*prop).deep_view()),
            ),
            JsValue::Module(name) => value.deep_view() == JsValueView::Module(name@),
            JsValue::WellKnownObject(kind) => value.deep_view() == JsValueView::WellKnownObject(
                kind,
            ),
            JsValue::WellKnownFunction(kind) => value.deep_view()
                == JsValueView::WellKnownFunction(kind.deep_view()),
            JsValue::Unknown(Some(inner), reason) => value.deep_view() == JsValueView::Unknown(
                Some(Box::new((*inner).deep_view())),
                reason@,
            ),
            JsValue::Unknown(None, reason) => value.deep_view() == JsValueView::Unknown(
                None,
                reason@,
            ),
            JsValue::Other(id) => value.deep_view() == JsValueView::Other(id),
        },
{
    match value {
        JsValue::Alternatives(alts) => lemma_alternatives_view(alts),
        JsValue::Call(callee, args) => lemma_call_view(callee, args),
        _ => {},
    }
}

/// A pattern is viewed as its text or its value, and a path or a request as its pattern.
pub proof fn lemma_view_of_pattern(pattern: Pattern, path: PatternVc, request: RequestVc)
    ensures
        match pattern {
            Pattern::Constant(text) => pattern.deep_view() == PatternView::Constant(text@),
            Pattern::OfValue(value) => pattern.deep_view() == PatternView::OfValue(
                value.deep_view(),
            ),
        },
        path.deep_view() == path.pattern.deep_view(),
        request.deep_view() == request.pattern.deep_view(),
{
}

/// A resolution is viewed with its kind, its request or path, and all that it is done under.
pub proof fn lemma_view_of_resolution(resolution: ResolveResultVc)
    ensures
        match resolution {
            ResolveResultVc::Single(asset) => resolution.deep_view() == ResolveResultView::Single(
                asset.path,
            ),
            ResolveResultVc::Esm { request, context } => resolution.deep_view()
                == ResolveResultView::Esm(request.deep_view(), context),
            ResolveResultVc::Cjs { request, context } => resolution.deep_view()
                == ResolveResultView::Cjs(request.deep_view(), context),
            ResolveResultVc::Raw { context, path, force_in_context } => resolution.deep_view()
                == ResolveResultView::Raw(context, path.deep_view(), force_in_context),
            ResolveResultVc::Request { context, request, options } => resolution.deep_view()
                == ResolveResultView::Request(context, request.deep_view(), options),
        },
{
}

/// A runtime is viewed as what it is found by.
pub proof fn lemma_view_of_runtime(runtime: WebpackRuntimeVc)
    ensures
        match runtime {
            WebpackRuntimeVc::ResolvedAs { context, request } => runtime.deep_view()
                == WebpackRuntimeView::ResolvedAs(context, request.deep_view()),
            WebpackRuntimeVc::Of(asset) => runtime.deep_view() == WebpackRuntimeView::Of(asset),
            WebpackRuntimeVc::Absent => runtime.deep_view() is Absent,
        },
{
}

/// A reference is viewed with its kind, the module that makes it, and what it is to.
pub proof fn lemma_view_of_reference(reference: AssetReferenceVc)
    ensures
        match reference {
            AssetReferenceVc::PackageJson(vc) => reference.deep_view()
                == AssetReferenceView::PackageJson(vc.slot.package_json),
            AssetReferenceVc::Esm(vc) => reference.deep_view() == AssetReferenceView::Esm(
                vc.slot.source,
                vc.slot.request.deep_view(),
            ),
            AssetReferenceVc::Cjs(vc) => reference.deep_view() == AssetReferenceView::Cjs(
                vc.slot.source,
                vc.slot.request.deep_view(),
            ),
            AssetReferenceVc::Source(vc) => reference.deep_view() == AssetReferenceView::Source(
                vc.slot.source,
                vc.slot.path.deep_view(),
            ),
            AssetReferenceVc::WebpackRuntime(bundle) => reference.deep_view()
                == AssetReferenceView::WebpackRuntime(
                bundle.source,
                bundle.request.deep_view(),
                bundle.runtime.deep_view(),
            ),
            AssetReferenceVc::WebpackEntry(bundle) => reference.deep_view()
                == AssetReferenceView::WebpackEntry(bundle.source, bundle.runtime.deep_view()),
            AssetReferenceVc::WebpackChunk(bundle) => reference.deep_view()
                == AssetReferenceView::WebpackChunk(
                bundle.chunk_id.deep_view(),
                bundle.runtime.deep_view(),
            ),
        },
{
}

/// What an expression is known to be is viewed with its kind, and its text or its path.
pub proof fn lemma_view_of_static_expression(expr: StaticExpr)
    ensures
        match expr {
            StaticExpr::String(text) => expr.deep_view() == StaticExprView::String(text@),
            StaticExpr::FreeVar(path) => expr.deep_view() == StaticExprView::FreeVar(
                path.deep_view(),
            ),
            StaticExpr::ImportedVar(module, path) => expr.deep_view()
                == StaticExprView::ImportedVar(module@, path.deep_view()),
            StaticExpr::Unknown => expr.deep_view() is Unknown,
        },
{
}

/// An analyser is viewed as what it holds under each name, and under no other.
pub proof fn lemma_view_of_analyser(analyser: StaticAnalyser, name: Seq<char>)
    ensures
        analyser@.contains_key(name) <==> analyser.imports@.contains_key(name),
        analyser@.contains_key(name) ==> analyser@[name] == (
            analyser.imports@[name].0@,
            analyser.imports@[name].1.deep_view(),
        ),
{
}

/// A walk is viewed with all that it has found.
pub proof fn lemma_view_of_visitor(visitor: AssetReferencesVisitor)
    ensures
        visitor@.source == visitor.source,
        visitor@.imports == visitor.old_analyser@,
        visitor@.references == visitor.references.deep_view(),
        visitor.webpack_runtime matches Some((request, span)) ==> visitor@.webpack_runtime == Some(
            (request@, span),
        ),
        visitor.webpack_runtime is None ==> visitor@.webpack_runtime is None,
        visitor@.webpack_entry == visitor.webpack_entry,
        visitor@.webpack_chunks == visitor.webpack_chunks.deep_view(),
{
}

/// A diagnostic is viewed with its place, its text and its code.
pub proof fn lemma_view_of_diagnostic(diagnostic: Diagnostic)
    ensures
        diagnostic.deep_view().span == diagnostic.span,
        diagnostic.deep_view().message == diagnostic.message@,
        diagnostic.deep_view().code == diagnostic.code,
{
}

/// A call of a module is viewed with its callee, all its arguments and its place.
pub proof fn lemma_view_of_effect(effect: Effect)
    ensures
        match effect {
            Effect::Call { func, args, span } => {
                &&& effect.deep_view() matches EffectView::Call { func: f, args: a, span: s }
                &&& f == func.deep_view() && a == args.deep_view() && s == span
            },
            Effect::MemberCall { obj, prop, args, span } => {
                &&& effect.deep_view() matches EffectView::MemberCall {
                    obj: o,
                    prop: p,
                    args: a,
                    span: s,
                }
                &&& o == obj.deep_view() && p == prop.deep_view()
                &&& a == args.deep_view() && s == span
            },
        },
        effect matches Effect::Call { span, .. } ==> effect.deep_view().span() == span,
        effect matches Effect::MemberCall { span, .. } ==> effect.deep_view().span() == span,
{
}

/// A parsed module is viewed with all its nodes and all its calls.
pub proof fn lemma_view_of_parsed(parsed: ParseResult)
    ensures
        match parsed {
            ParseResult::Module { nodes, effects } => {
                &&& parsed.deep_view() matches ParseResultView::Module { nodes: n, effects: e }
                &&& n == nodes@ && e == effects.deep_view()
            },
            ParseResult::Unparseable => parsed.deep_view() is Unparseable,
            ParseResult::NotFound => parsed.deep_view() is NotFound,
        },
{
}

/// A question is viewed with all that it is about.
pub proof fn lemma_view_of_action(action: Action)
    ensures
        match action {
            Action::FindPackageJson(path) => action.deep_view() == ActionView::FindPackageJson(
                path,
            ),
            Action::Parse(source) => action.deep_view() == ActionView::Parse(source),
            Action::Resolve(resolution) => action.deep_view() == ActionView::Resolve(
                resolution.deep_view(),
            ),
            Action::ReadRuntime(asset) => action.deep_view() == ActionView::ReadRuntime(asset),
            Action::Link(value) => action.deep_view() == ActionView::Link(value.deep_view()),
            Action::LinkAll(values) => action.deep_view() == ActionView::LinkAll(
                values.deep_view(),
            ),
            Action::HasConstantParts(value) => action.deep_view() == ActionView::HasConstantParts(
                value.deep_view(),
            ),
            Action::IsMatch { value, text } => {
                &&& action.deep_view() matches ActionView::IsMatch { value: v, text: t }
                &&& v == value.deep_view() && t == text@
            },
            Action::ExplainArgs { args, depth, unknown_depth } => {
                &&& action.deep_view() matches ActionView::ExplainArgs {
                    args: a,
                    depth: d,
                    unknown_depth: u,
                }
                &&& a == args.deep_view() && d == depth && u == unknown_depth
            },
            Action::Done => action.deep_view() is Done,
        },
{
}

/// An answer is viewed with all that it says.
pub proof fn lemma_view_of_reply(reply: Reply)
    ensures
        match reply {
            Reply::PackageJson(found) => reply.deep_view() == ReplyView::PackageJson(found),
            Reply::Parsed(parsed) => reply.deep_view() == ReplyView::Parsed(parsed.deep_view()),
            Reply::Resolved(resolved) => reply.deep_view() == ReplyView::Resolved(resolved),
            Reply::Runtime(runtime) => reply.deep_view() == ReplyView::Runtime(runtime),
            Reply::Linked(value) => reply.deep_view() == ReplyView::Linked(value.deep_view()),
            Reply::LinkedAll(values) => reply.deep_view() == ReplyView::LinkedAll(
                values.deep_view(),
            ),
            Reply::HasConstantParts(holds) => reply.deep_view() == ReplyView::HasConstantParts(
                holds,
            ),
            Reply::IsMatch(holds) => reply.deep_view() == ReplyView::IsMatch(holds),
            Reply::Explained { args, hints } => {
                &&& reply.deep_view() matches ReplyView::Explained { args: a, hints: h }
                &&& a == args@ && h == hints@
            },
            Reply::Failed(failure) => reply.deep_view() == ReplyView::Failed(failure),
        },
{
}

/// What the analysis of a call waits for is viewed with all that it has found so far.
pub proof fn lemma_view_of_wait(wait: Wait)
    ensures
        match wait {
            Wait::Args => wait.deep_view() is Args,
            Wait::Command { args, program } => {
                &&& wait.deep_view() matches WaitView::Command { args: a, program: p }
                &&& a == args.deep_view() && p == program.deep_view()
            },
            Wait::Entry { args, program, node_args } => {
                &&& wait.deep_view() matches WaitView::Entry {
                    args: a,
                    program: p,
                    node_args: n,
                }
                &&& a == args.deep_view() && p == program.deep_view()
                &&& n == node_args.deep_view()
            },
            Wait::EntryParts { args, program, entry } => {
                &&& wait.deep_view() matches WaitView::EntryParts { args: a, program: p, entry: e }
                &&& a == args.deep_view() && p == program.deep_view()
                &&& e == entry.deep_view()
            },
            Wait::Parts { args, value, reference } => {
                &&& wait.deep_view() matches WaitView::Parts { args: a, value: v, reference: r }
                &&& a == args.deep_view() && v == value.deep_view()
                &&& r == reference.deep_view()
            },
            Wait::Joined => wait.deep_view() is Joined,
            Wait::Forked { entry } => {
                &&& wait.deep_view() matches WaitView::Forked { entry: e }
                &&& e == entry.deep_view()
            },
            Wait::LooseParts { value, reference } => {
                &&& wait.deep_view() matches WaitView::LooseParts { value: v, reference: r }
                &&& v == value.deep_view() && r == reference.deep_view()
            },
            Wait::MessageArgs { pending } => {
                &&& wait.deep_view() matches WaitView::MessageArgs { pending: p }
                &&& p == pending.deep_view()
            },
            Wait::Message { args, pending } => {
                &&& wait.deep_view() matches WaitView::Message { args: a, pending: p }
                &&& a == args.deep_view() && p == pending.deep_view()
            },
        },
{
}

/// A bundle is viewed with its request, its call, whether it is an entry, and all its chunks.
pub proof fn lemma_view_of_bundle(bundle: Bundle)
    ensures
        bundle.deep_view().request == bundle.request.deep_view(),
        bundle.deep_view().span == bundle.span,
        bundle.deep_view().entry == bundle.entry,
        bundle.deep_view().chunks == bundle.chunks.deep_view(),
{
}

/// What a search is busy with is viewed with all that it holds.
pub proof fn lemma_view_of_phase(phase: Phase)
    ensures
        match phase {
            Phase::PackageJson => phase.deep_view() is PackageJson,
            Phase::Parse => phase.deep_view() is Parse,
            Phase::Resolve(bundle) => phase.deep_view() == PhaseView::Resolve(bundle.deep_view()),
            Phase::Runtime { asset, bundle } => {
                &&& phase.deep_view() matches PhaseView::Runtime { asset: a, bundle: b }
                &&& a == asset && b == bundle.deep_view()
            },
            Phase::Object { obj, prop, args, span } => {
                &&& phase.deep_view() matches PhaseView::Object {
                    obj: o,
                    prop: p,
                    args: a,
                    span: s,
                }
                &&& o == obj.deep_view() && p == prop.deep_view()
                &&& a == args.deep_view() && s == span
            },
            Phase::Function { func, args, span } => {
                &&& phase.deep_view() matches PhaseView::Function { func: f, args: a, span: s }
                &&& f == func.deep_view() && a == args.deep_view() && s == span
            },
            Phase::Call { kind, others, args, span, wait } => {
                &&& phase.deep_view() matches PhaseView::Call {
                    kind: k,
                    others: o,
                    args: a,
                    span: s,
                    wait: w,
                }
                &&& k == kind.deep_view() && o == others.deep_view()
                &&& a == args.deep_view() && s == span && w == wait.deep_view()
            },
            Phase::Done => phase.deep_view() is Done,
            Phase::Failed(failure) => phase.deep_view() == PhaseView::Failed(failure),
        },
{
}

/// A search is viewed with all that it has found and all that is still to be analysed.
pub proof fn lemma_view_of_search(search: ModuleReferences)
    ensures
        search@.source == search.source,
        search@.references == search.references.deep_view(),
        search@.diagnostics == search.diagnostics.deep_view(),
        search@.ignored == search.ignored,
        search@.effects == search.effects.deep_view(),
        search@.phase == search.phase.deep_view(),
{
}

/// A visit is viewed with what it waits for and what it has found.
pub proof fn lemma_view_of_visit(visit: ValueVisit)
    ensures
        match visit {
            ValueVisit::Resolve { resolution, args } => {
                &&& visit.deep_view() matches ValueVisitView::Resolve { resolution: r, args: a }
                &&& r == resolution.deep_view() && a == args.deep_view()
            },
            ValueVisit::ReadPath(path) => visit.deep_view() == ValueVisitView::ReadPath(path),
            ValueVisit::ReplaceWellKnown(value) => visit.deep_view()
                == ValueVisitView::ReplaceWellKnown(value.deep_view()),
            ValueVisit::ReplaceBuiltin { value, modified } => {
                &&& visit.deep_view() matches ValueVisitView::ReplaceBuiltin {
                    value: v,
                    modified: m,
                }
                &&& v == value.deep_view() && m == modified
            },
            ValueVisit::Normalize { value, modified } => {
                &&& visit.deep_view() matches ValueVisitView::Normalize { value: v, modified: m }
                &&& v == value.deep_view() && m == modified
            },
            ValueVisit::Done { value, modified } => {
                &&& visit.deep_view() matches ValueVisitView::Done { value: v, modified: m }
                &&& v == value.deep_view() && m == modified
            },
            ValueVisit::Failed(failure) => visit.deep_view() == ValueVisitView::Failed(failure),
        },
{
}

/// What a visit is told is viewed as it is said.
pub proof fn lemma_view_of_visit_reply(reply: VisitReply)
    ensures
        match reply {
            VisitReply::Resolved(resolved) => reply.deep_view() == VisitReplyView::Resolved(
                resolved,
            ),
            VisitReply::Path(path) => reply.deep_view() == VisitReplyView::Path(path@),
            VisitReply::Replaced(value, modified) => reply.deep_view()
                == VisitReplyView::Replaced(value.deep_view(), modified),
            VisitReply::Normalized(value) => reply.deep_view() == VisitReplyView::Normalized(
                value.deep_view(),
            ),
            VisitReply::Failed(failure) => reply.deep_view() == VisitReplyView::Failed(failure),
        },
{
}

} // verus!
