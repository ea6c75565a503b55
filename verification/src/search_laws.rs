//! What a search asks, and what it ends with, in terms of the answers that it is given.
use crate::ast::{LitView, Node, Span};
use crate::call::{ReportView, WaitView};
use crate::exchange::{
    ActionView, EffectView, FindPackageJsonResult, ParseResultView, ReplyView, WebpackRuntime,
    World, may_fail,
};
use crate::module_references::{
    BundleView, PhaseView, SearchView, bundle_of, webpack_references,
};
use crate::outcome::{answers, effects_report, lemma_search_comes_to_report, run};
use crate::reference::{
    AssetReferenceView, ResolveOptionsVc, ResolveResult, ResolveResultView, WebpackRuntimeView,
    runtime_asset, runtime_of, runtime_resolution,
};
use crate::value::{ConstantValueView, JsValueView, WellKnownFunctionKindView};
use crate::vc::{AssetVc, Failure, FileSystemPathVc, PatternView, context_of};
use crate::visitor::{VisitorView, visited_all};
use vstd::prelude::*;

verus! {

/// The directory that holds the path of an asset.
pub open spec fn directory(source: AssetVc) -> FileSystemPathVc {
    FileSystemPathVc::ParentOf(Box::new(FileSystemPathVc::PathOf(source)))
}

/// A walk over `nodes` that starts with `references` and knows of nothing else.
pub open spec fn walk_from(
    source: AssetVc,
    references: Seq<AssetReferenceView>,
    nodes: Seq<Node>,
) -> VisitorView {
    visited_all(
        VisitorView {
            source,
            imports: Map::empty(),
            references,
            webpack_runtime: None,
            webpack_entry: false,
            webpack_chunks: seq![],
        },
        nodes,
    )
}

/// The question for the asset that `text` leads to as a webpack runtime.
pub open spec fn runtime_question(source: AssetVc, text: Seq<char>) -> ResolveResultView {
    ResolveResultView::Request(
        directory(source),
        PatternView::Constant(text),
        ResolveOptionsVc::CjsSpecific(Box::new(ResolveOptionsVc::For(directory(source)))),
    )
}

/// Whether a search has ended with `found` and then what its calls come to.
pub open spec fn ended_with(
    end: SearchView,
    found: Seq<AssetReferenceView>,
    calls: Result<ReportView, Failure>,
) -> bool {
    match calls {
        Ok(calls) => {
            &&& end.phase is Done
            &&& end.references == found + calls.references
            &&& end.diagnostics == calls.diagnostics
        },
        Err(failure) => end.phase == PhaseView::Failed(failure),
    }
}

/// The directory of an asset is the parent of its path.
pub proof fn lemma_context_is_directory(source: AssetVc)
    ensures
        context_of(source) == FileSystemPathVc::ParentOf(
            Box::new(FileSystemPathVc::PathOf(source)),
        ),
{
}

/// A search starts with nothing found and nothing to analyse.
pub proof fn lemma_search_starts_empty(source: AssetVc)
    ensures
        ({
            let start = SearchView::initial(source);
            &&& start.source == source
            &&& start.references.len() == 0
            &&& start.diagnostics.len() == 0
            &&& start.effects.len() == 0
            &&& start.ignored is None
            &&& start.action() == ActionView::FindPackageJson(directory(source))
        }),
{
}

/// What a search asks for is named in full: the asset, the value or the request in question, with
/// nothing left out of it and nothing added.
pub proof fn lemma_questions_are_named_in_full(
    search: SearchView,
    kind: WellKnownFunctionKindView,
    others: Seq<WellKnownFunctionKindView>,
    args: Seq<JsValueView>,
    span: Span,
    wait: WaitView,
)
    ensures
        match search.phase {
            PhaseView::PackageJson => search.action() == ActionView::FindPackageJson(
                directory(search.source),
            ),
            PhaseView::Parse => search.action() == ActionView::Parse(search.source),
            PhaseView::Resolve(bundle) => search.action() == ActionView::Resolve(
                ResolveResultView::Request(
                    directory(search.source),
                    bundle.request,
                    ResolveOptionsVc::CjsSpecific(
                        Box::new(ResolveOptionsVc::For(directory(search.source))),
                    ),
                ),
            ),
            PhaseView::Runtime { asset, .. } => search.action() == ActionView::ReadRuntime(asset),
            PhaseView::Object { obj, .. } => search.action() == ActionView::Link(obj),
            PhaseView::Function { func, .. } => search.action() == ActionView::Link(func),
            PhaseView::Call { .. } => true,
            PhaseView::Done => search.action() is Done,
            PhaseView::Failed(_) => search.action() is Done,
        },
        search.phase == (PhaseView::Call { kind, others, args, span, wait }) ==> match wait {
            WaitView::Args => search.action() == ActionView::LinkAll(args),
            WaitView::MessageArgs { .. } => search.action() == ActionView::LinkAll(args),
            WaitView::Command { program, .. } => {
                &&& search.action() matches ActionView::IsMatch { value, text }
                &&& value == program
                &&& text == "node"@
            },
            WaitView::Entry { node_args, .. } => search.action() == ActionView::Link(
                JsValueView::Member(
                    Box::new(node_args),
                    Box::new(JsValueView::Constant(ConstantValueView::Num(0))),
                ),
            ),
            WaitView::EntryParts { entry, .. } => search.action() == ActionView::HasConstantParts(
                entry,
            ),
            WaitView::Parts { value, .. } => search.action() == ActionView::HasConstantParts(value),
            WaitView::LooseParts { value, .. } => search.action() == ActionView::HasConstantParts(
                value,
            ),
            WaitView::Forked { entry } => search.action() == ActionView::Link(entry),
            WaitView::Joined => {
                &&& search.action() matches ActionView::Link(JsValueView::Call(callee, joined))
                &&& *callee == JsValueView::WellKnownFunction(WellKnownFunctionKindView::PathJoin)
                &&& joined.len() == args.len()
                &&& forall|i: int| 0 <= i < args.len() ==> #[trigger] joined[i] == args[i]
            },
            WaitView::Message { args: shown, .. } => {
                &&& search.action() matches ActionView::ExplainArgs { args, depth, unknown_depth }
                &&& args == shown
                &&& depth == 10
                &&& unknown_depth == 2
            },
        },
{
}

/// Each question takes answers of its own kind, and an error exactly where it may fail. It may
/// fail unless it is about what a pattern or an argument looks like.
pub proof fn lemma_answers_are_of_their_kind(
    reply: ReplyView,
    path: FileSystemPathVc,
    asset: AssetVc,
    resolution: ResolveResultView,
    value: JsValueView,
    values: Seq<JsValueView>,
    text: Seq<char>,
    depth: nat,
    unknown_depth: nat,
)
    ensures
        answers(ActionView::FindPackageJson(path), reply) <==> reply is PackageJson
            || reply is Failed,
        answers(ActionView::Parse(asset), reply) <==> reply is Parsed || reply is Failed,
        answers(ActionView::Resolve(resolution), reply) <==> reply is Resolved || reply is Failed,
        answers(ActionView::ReadRuntime(asset), reply) <==> reply is Runtime || reply is Failed,
        answers(ActionView::Link(value), reply) <==> reply is Linked || reply is Failed,
        answers(ActionView::LinkAll(values), reply) <==> reply is LinkedAll || reply is Failed,
        answers(ActionView::HasConstantParts(value), reply) <==> reply is HasConstantParts,
        answers(ActionView::IsMatch { value, text }, reply) <==> reply is IsMatch,
        answers(ActionView::ExplainArgs { args: values, depth, unknown_depth }, reply)
            <==> reply is Explained,
        !answers(ActionView::Done, reply),
        forall|action: ActionView|
            #[trigger] may_fail(action) <==> answers(
                action,
                ReplyView::Failed(Failure { cell: 0 }),
            ),
{
}

/// A runtime is asked for in the directory of the module, under the options of that directory with
/// what is specific to CommonJS applied. It is that of the asset where there is exactly one.
pub proof fn lemma_runtime_is_that_of_a_single_asset(
    context: FileSystemPathVc,
    request: PatternView,
    asset: AssetVc,
)
    ensures
        runtime_resolution(context, request) == ResolveResultView::Request(
            context,
            request,
            ResolveOptionsVc::CjsSpecific(Box::new(ResolveOptionsVc::For(context))),
        ),
        runtime_of(ResolveResult::Single(asset)) == WebpackRuntimeView::Of(asset),
        runtime_of(ResolveResult::Other) == WebpackRuntimeView::Absent,
        runtime_asset(WebpackRuntimeView::Of(asset)) == Some(asset),
        runtime_asset(WebpackRuntimeView::Absent) is None,
        runtime_asset(WebpackRuntimeView::ResolvedAs(context, request)) is None,
{
}

/// A module tells of a bundle exactly where it asks for a runtime, and then with that request, that
/// call, and whatever else the walk has found.
pub proof fn lemma_bundle_is_what_was_found(found: VisitorView)
    ensures
        match found.webpack_runtime {
            Some((text, span)) => {
                &&& bundle_of(found) matches Some(bundle)
                &&& bundle.request == PatternView::Constant(text)
                &&& bundle.span == span
                &&& bundle.entry == found.webpack_entry
                &&& bundle.chunks == found.webpack_chunks
            },
            None => bundle_of(found) is None,
        },
{
}

/// The references of a bundle are one to its runtime, one to the module itself exactly where it is
/// an entry, however many chunks there are, and one to each chunk, in the order of the chunks. All
/// are against the runtime that the request leads to in the directory of the module.
pub proof fn lemma_references_of_a_bundle(source: AssetVc, bundle: BundleView)
    ensures
        ({
            let references = webpack_references(source, bundle);
            let runtime = WebpackRuntimeView::ResolvedAs(directory(source), bundle.request);
            let first: int = if bundle.entry {
                2
            } else {
                1
            };
            &&& references.len() == first + bundle.chunks.len()
            &&& references[0] == AssetReferenceView::WebpackRuntime(source, bundle.request, runtime)
            &&& bundle.entry ==> references[1] == AssetReferenceView::WebpackEntry(source, runtime)
            &&& forall|i: int|
                0 <= i < bundle.chunks.len() ==> references[first + i]
                    == AssetReferenceView::WebpackChunk(#[trigger] bundle.chunks[i], runtime)
            &&& bundle.entry <==> exists|i: int|
                0 <= i < references.len() && #[trigger] references[i] is WebpackEntry
        }),
{
    let references = webpack_references(source, bundle);
    let first: int = if bundle.entry {
        2
    } else {
        1
    };
    assert forall|i: int| first <= i < references.len() implies #[trigger] references[i]
        is WebpackChunk by {
        assert(references[i] == references[first + (i - first)]);
    }
    assert(bundle.entry ==> references[1] is WebpackEntry);
}

proof fn lemma_bundle_is_listed(source: AssetVc, bundle: BundleView)
    ensures
        webpack_references(source, bundle) == listed_bundle(
            source,
            bundle.request,
            bundle.entry,
            bundle.chunks,
        ),
{
    assert(webpack_references(source, bundle) =~= listed_bundle(
        source,
        bundle.request,
        bundle.entry,
        bundle.chunks,
    ));
}

/// The reference to a runtime, then that to the entry if there is one, then those to the chunks.
pub open spec fn listed_bundle(
    source: AssetVc,
    request: PatternView,
    entry: bool,
    chunks: Seq<LitView>,
) -> Seq<AssetReferenceView> {
    let runtime = WebpackRuntimeView::ResolvedAs(directory(source), request);
    let before = if entry {
        seq![
            AssetReferenceView::WebpackRuntime(source, request, runtime),
            AssetReferenceView::WebpackEntry(source, runtime),
        ]
    } else {
        seq![AssetReferenceView::WebpackRuntime(source, request, runtime)]
    };
    before + Seq::new(chunks.len(), |i: int| AssetReferenceView::WebpackChunk(chunks[i], runtime))
}

/// A search that cannot find out whether there is a `package.json`, or cannot parse the module,
/// fails with that error.
pub proof fn lemma_search_needs_its_module(w: World, source: AssetVc)
    ensures
        ({
            let end = run(w, SearchView::initial(source));
            match (w.find_package_json)(directory(source)) {
                Err(failure) => end.phase == PhaseView::Failed(failure),
                Ok(_) => (w.parse)(source) matches Err(failure) ==> end.phase == PhaseView::Failed(
                    failure,
                ),
            }
        }),
{
    lemma_search_comes_to_report(w, source);
}

/// The reference to the `package.json` comes first, and is there exactly where one is found. A
/// module that is not parsed has no other.
pub proof fn lemma_unparsed_search(w: World, source: AssetVc, found: FindPackageJsonResult)
    requires
        (w.find_package_json)(directory(source)) == Ok::<FindPackageJsonResult, Failure>(found),
        (w.parse)(source) matches Ok(parsed) && parsed !is Module,
    ensures
        ({
            let end = run(w, SearchView::initial(source));
            &&& end.phase is Done
            &&& end.references == first_reference(found)
            &&& end.diagnostics.len() == 0
        }),
{
    lemma_search_comes_to_report(w, source);
}

/// The reference to a `package.json`, where one is found.
pub open spec fn first_reference(found: FindPackageJsonResult) -> Seq<AssetReferenceView> {
    match found {
        FindPackageJsonResult::Found(path) => seq![AssetReferenceView::PackageJson(path)],
        FindPackageJsonResult::NotFound => seq![],
    }
}

/// A parsed module that asks for no webpack runtime has the references that the walk over its nodes
/// adds to its `package.json`, and then those of all its calls.
pub proof fn lemma_search_of_plain_module(
    w: World,
    source: AssetVc,
    found: FindPackageJsonResult,
    nodes: Seq<Node>,
    effects: Seq<EffectView>,
)
    requires
        (w.find_package_json)(directory(source)) == Ok::<FindPackageJsonResult, Failure>(found),
        (w.parse)(source) == Ok::<ParseResultView, Failure>(
            ParseResultView::Module { nodes, effects },
        ),
        walk_from(source, first_reference(found), nodes).webpack_runtime is None,
    ensures
        ended_with(
            run(w, SearchView::initial(source)),
            walk_from(source, first_reference(found), nodes).references,
            effects_report(w, source, None, effects),
        ),
{
    lemma_search_comes_to_report(w, source);
    let walk = walk_from(source, first_reference(found), nodes);
    assert(walk.references + seq![] =~= walk.references);
    lemma_no_diagnostics_before(w, source, None, effects);
}

proof fn lemma_no_diagnostics_before(
    w: World,
    source: AssetVc,
    ignored: Option<Span>,
    effects: Seq<EffectView>,
)
    ensures
        effects_report(w, source, ignored, effects) matches Ok(calls) ==> Seq::empty()
            + calls.diagnostics == calls.diagnostics,
{
    if let Ok(calls) = effects_report(w, source, ignored, effects) {
        assert(Seq::empty() + calls.diagnostics =~= calls.diagnostics);
    }
}

/// A parsed module that asks for a webpack runtime is part of a bundle exactly where the request
/// resolves to a single asset, and that is a webpack runtime. It then has the references of the
/// bundle between those of its declarations and those of its calls, and the call that asks is
/// ignored. Else it is as if it did not ask. What cannot be resolved or read ends the search in
/// the error.
pub proof fn lemma_search_of_module_that_asks(
    w: World,
    source: AssetVc,
    found: FindPackageJsonResult,
    nodes: Seq<Node>,
    effects: Seq<EffectView>,
    text: Seq<char>,
    span: Span,
)
    requires
        (w.find_package_json)(directory(source)) == Ok::<FindPackageJsonResult, Failure>(found),
        (w.parse)(source) == Ok::<ParseResultView, Failure>(
            ParseResultView::Module { nodes, effects },
        ),
        walk_from(source, first_reference(found), nodes).webpack_runtime == Some((text, span)),
    ensures
        ({
            let end = run(w, SearchView::initial(source));
            let walk = walk_from(source, first_reference(found), nodes);
            let bundle = listed_bundle(
                source,
                PatternView::Constant(text),
                walk.webpack_entry,
                walk.webpack_chunks,
            );
            let plain = ended_with(
                end,
                walk.references,
                effects_report(w, source, None, effects),
            );
            match (w.resolve)(runtime_question(source, text)) {
                Err(failure) => end.phase == PhaseView::Failed(failure),
                Ok(ResolveResult::Other) => plain,
                Ok(ResolveResult::Single(asset)) => match (w.is_webpack_runtime)(asset) {
                    Err(failure) => end.phase == PhaseView::Failed(failure),
                    Ok(WebpackRuntime::Absent) => plain,
                    Ok(WebpackRuntime::Webpack5) => ended_with(
                        end,
                        walk.references + bundle,
                        effects_report(w, source, Some(span), effects),
                    ),
                },
            }
        }),
{
    lemma_search_comes_to_report(w, source);
    let walk = walk_from(source, first_reference(found), nodes);
    assert(walk.references + seq![] =~= walk.references);
    lemma_no_diagnostics_before(w, source, None, effects);
    lemma_no_diagnostics_before(w, source, Some(span), effects);
    lemma_bundle_is_what_was_found(walk);
    if let Some(bundle) = bundle_of(walk) {
        lemma_bundle_is_listed(source, bundle);
    }
}

} // verus!
