//! The search for the references of a module.
use crate::ast::{Lit, LitView, Span};
use crate::call::{
    ReportView, Wait, WaitView, action_of, advance, advanced, begin, collect_known_functions,
    first_wait, known_functions, push_reference, wait_action,
};
use crate::diagnostic::{Diagnostic, DiagnosticView};
use crate::exchange::{
    Action, ActionView, Effect, EffectView, FindPackageJsonResult, ParseResult, ParseResultView,
    Reply, ReplyView, WebpackRuntime, may_fail,
};
use crate::reference::{
    AssetReferenceVc, AssetReferenceView, AssetReferencesSet, PackageJsonReferenceVc,
    WebpackChunkAssetReference, WebpackEntryAssetReference, WebpackRuntimeAssetReference,
    WebpackRuntimeVc, WebpackRuntimeView, asset_of_runtime, resolve_as_webpack_runtime,
    runtime_asset, runtime_of, runtime_resolution, webpack_runtime_of,
};
use crate::static_analyser::ImportsView;
use crate::value::{JsValue, JsValueView, WellKnownFunctionKind, WellKnownFunctionKindView};
use crate::vc::{AssetVc, Failure, Pattern, PatternView, RequestVc, context_of};
use crate::visitor::{AssetReferencesVisitor, VisitorView, visited_all};
use std::collections::VecDeque;
use vstd::prelude::*;

verus! {

/// A webpack bundle that a module is part of, if it turns out that its request leads to a runtime.
#[derive(Debug, PartialEq, Eq, Hash)]
pub struct Bundle {
    /// The request for the runtime.
    pub request: RequestVc,
    /// The call that makes it.
    pub span: Span,
    /// Whether the module starts the bundle.
    pub entry: bool,
    /// The chunks that the bundle loads before it starts.
    pub chunks: Vec<Lit>,
}

/// The mathematical value of a [`Bundle`].
pub struct BundleView {
    pub request: PatternView,
    pub span: Span,
    pub entry: bool,
    pub chunks: Seq<LitView>,
}

impl DeepView for Bundle {
    type V = BundleView;

    open spec fn deep_view(&self) -> BundleView {
        BundleView {
            request: self.request.deep_view(),
            span: self.span,
            entry: self.entry,
            chunks: self.chunks.deep_view(),
        }
    }
}

/// The bundle that the declarations and the calls of a module tell of, if they ask for a runtime.
pub open spec fn bundle_of(found: VisitorView) -> Option<BundleView> {
    match found.webpack_runtime {
        Some((text, span)) => Some(
            BundleView {
                request: PatternView::Constant(text),
                span,
                entry: found.webpack_entry,
                chunks: found.webpack_chunks,
            },
        ),
        None => None,
    }
}

/// What a search is busy with.
#[derive(Debug, PartialEq, Eq, Hash)]
pub enum Phase {
    /// Finding the `package.json` of the module.
    PackageJson,
    /// Parsing the module.
    Parse,
    /// Resolving the webpack runtime that the module asks for.
    Resolve(Bundle),
    /// Finding of what kind that runtime is, by its asset.
    Runtime { asset: AssetVc, bundle: Bundle },
    /// Linking the object whose method is called.
    Object { obj: JsValue, prop: JsValue, args: Vec<JsValue>, span: Span },
    /// Linking the function that is called.
    Function { func: JsValue, args: Vec<JsValue>, span: Span },
    /// Analysing a call of `kind`, and then one of each of `others`, with the same arguments.
    Call {
        kind: WellKnownFunctionKind,
        others: VecDeque<WellKnownFunctionKind>,
        args: Vec<JsValue>,
        span: Span,
        wait: Wait,
    },
    /// Nothing: the search is over.
    Done,
    /// Nothing: something that the search had to know could not be found out.
    Failed(Failure),
}

/// The mathematical value of a [`Phase`].
pub enum PhaseView {
    PackageJson,
    Parse,
    Resolve(BundleView),
    Runtime { asset: AssetVc, bundle: BundleView },
    Object { obj: JsValueView, prop: JsValueView, args: Seq<JsValueView>, span: Span },
    Function { func: JsValueView, args: Seq<JsValueView>, span: Span },
    Call {
        kind: WellKnownFunctionKindView,
        others: Seq<WellKnownFunctionKindView>,
        args: Seq<JsValueView>,
        span: Span,
        wait: WaitView,
    },
    Done,
    Failed(Failure),
}

impl DeepView for Phase {
    type V = PhaseView;

    open spec fn deep_view(&self) -> PhaseView {
        match self {
            Phase::PackageJson => PhaseView::PackageJson,
            Phase::Parse => PhaseView::Parse,
            Phase::Resolve(bundle) => PhaseView::Resolve(bundle.deep_view()),
            Phase::Runtime { asset, bundle } => PhaseView::Runtime {
                asset: *asset,
                bundle: bundle.deep_view(),
            },
            Phase::Object { obj, prop, args, span } => PhaseView::Object {
                obj: obj.deep_view(),
                prop: prop.deep_view(),
                args: args.deep_view(),
                span: *span,
            },
            Phase::Function { func, args, span } => PhaseView::Function {
                func: func.deep_view(),
                args: args.deep_view(),
                span: *span,
            },
            Phase::Call { kind, others, args, span, wait } => PhaseView::Call {
                kind: kind.deep_view(),
                others: others.deep_view(),
                args: args.deep_view(),
                span: *span,
                wait: wait.deep_view(),
            },
            Phase::Done => PhaseView::Done,
            Phase::Failed(failure) => PhaseView::Failed(*failure),
        }
    }
}

/// A search for the references of a module.
pub struct ModuleReferences {
    pub source: AssetVc,
    pub references: Vec<AssetReferenceVc>,
    pub diagnostics: Vec<Diagnostic>,
    /// The call that asks for a webpack runtime, and is not analysed as any other.
    pub ignored: Option<Span>,
    /// The calls that are still to be analysed.
    pub effects: VecDeque<Effect>,
    pub phase: Phase,
}

/// The mathematical value of a [`ModuleReferences`].
pub struct SearchView {
    pub source: AssetVc,
    pub references: Seq<AssetReferenceView>,
    pub diagnostics: Seq<DiagnosticView>,
    pub ignored: Option<Span>,
    pub effects: Seq<EffectView>,
    pub phase: PhaseView,
}

impl View for ModuleReferences {
    type V = SearchView;

    open spec fn view(&self) -> SearchView {
        SearchView {
            source: self.source,
            references: self.references.deep_view(),
            diagnostics: self.diagnostics.deep_view(),
            ignored: self.ignored,
            effects: self.effects.deep_view(),
            phase: self.phase.deep_view(),
        }
    }
}

/// The walk over a module before its first node.
pub open spec fn unvisited(
    source: AssetVc,
    references: Seq<AssetReferenceView>,
) -> VisitorView {
    VisitorView {
        source,
        imports: ImportsView::empty(),
        references,
        webpack_runtime: None,
        webpack_entry: false,
        webpack_chunks: seq![],
    }
}

/// The references of a module that is part of a webpack bundle: its runtime, itself if it is an
/// entry, and its chunks.
pub open spec fn webpack_references(source: AssetVc, bundle: BundleView) -> Seq<
    AssetReferenceView,
> {
    let runtime = WebpackRuntimeView::ResolvedAs(context_of(source), bundle.request);
    seq![AssetReferenceView::WebpackRuntime(source, bundle.request, runtime)] + (if bundle.entry {
        seq![AssetReferenceView::WebpackEntry(source, runtime)]
    } else {
        seq![]
    }) + bundle.chunks.map_values(
        |chunk: LitView| AssetReferenceView::WebpackChunk(chunk, runtime),
    )
}

/// The phase that analyses `effect`.
pub open spec fn effect_phase(effect: EffectView) -> PhaseView {
    match effect {
        EffectView::Call { func, args, span } => PhaseView::Function { func, args, span },
        EffectView::MemberCall { obj, prop, args, span } => PhaseView::Object {
            obj,
            prop,
            args,
            span,
        },
    }
}

impl SearchView {
    /// A search that has found nothing yet.
    pub open spec fn initial(source: AssetVc) -> SearchView {
        SearchView {
            source,
            references: seq![],
            diagnostics: seq![],
            ignored: None,
            effects: seq![],
            phase: PhaseView::PackageJson,
        }
    }

    /// What this search is to be told next.
    pub open spec fn action(self) -> ActionView {
        match self.phase {
            PhaseView::PackageJson => ActionView::FindPackageJson(context_of(self.source)),
            PhaseView::Parse => ActionView::Parse(self.source),
            PhaseView::Resolve(bundle) => ActionView::Resolve(
                runtime_resolution(context_of(self.source), bundle.request),
            ),
            PhaseView::Runtime { asset, .. } => ActionView::ReadRuntime(asset),
            PhaseView::Object { obj, .. } => ActionView::Link(obj),
            PhaseView::Function { func, .. } => ActionView::Link(func),
            PhaseView::Call { args, wait, .. } => wait_action(args, wait),
            PhaseView::Done => ActionView::Done,
            PhaseView::Failed(_) => ActionView::Done,
        }
    }

    /// This search, turned to the next call that is not ignored.
    pub open spec fn at_next_effect(self) -> SearchView
        decreases self.effects.len(),
    {
        if self.effects.len() == 0 {
            SearchView { phase: PhaseView::Done, ..self }
        } else {
            let rest = SearchView { effects: self.effects.drop_first(), ..self };
            if self.ignored == Some(self.effects[0].span()) {
                rest.at_next_effect()
            } else {
                SearchView { phase: effect_phase(self.effects[0]), ..rest }
            }
        }
    }

    /// This search, turned to calls of `kinds` with `args`.
    pub open spec fn at_calls(
        self,
        kinds: Seq<WellKnownFunctionKindView>,
        args: Seq<JsValueView>,
        span: Span,
    ) -> SearchView {
        if kinds.len() == 0 {
            self.at_next_effect()
        } else {
            SearchView {
                phase: PhaseView::Call {
                    kind: kinds[0],
                    others: kinds.drop_first(),
                    args,
                    span,
                    wait: first_wait(kinds[0], args),
                },
                ..self
            }
        }
    }

    /// This search with the declarations of a parsed module, and with its calls to analyse.
    pub open spec fn with_module(
        self,
        found: VisitorView,
        effects: Seq<EffectView>,
    ) -> SearchView {
        let walked = SearchView { references: found.references, effects, ..self };
        match bundle_of(found) {
            Some(bundle) => SearchView { phase: PhaseView::Resolve(bundle), ..walked },
            None => walked.at_next_effect(),
        }
    }

    /// This search with what `report` adds.
    pub open spec fn with_report(self, report: ReportView) -> SearchView {
        SearchView {
            references: self.references + report.references,
            diagnostics: self.diagnostics + report.diagnostics,
            ..self
        }
    }

    /// This search with the references of `bundle`, and with the call that asks for its runtime
    /// ignored.
    pub open spec fn with_bundle(self, bundle: BundleView) -> SearchView {
        SearchView {
            references: self.references + webpack_references(self.source, bundle),
            ignored: Some(bundle.span),
            ..self
        }
    }

    /// Whether this search waits for nothing any more.
    pub open spec fn is_over(self) -> bool {
        self.phase is Done || self.phase is Failed
    }

    /// This search after a reply. One that does not answer the action changes nothing.
    pub open spec fn after(self, reply: ReplyView) -> SearchView {
        match (self.phase, reply) {
            (_, ReplyView::Failed(failure)) => if may_fail(self.action()) {
                SearchView { phase: PhaseView::Failed(failure), ..self }
            } else {
                self
            },
            (PhaseView::PackageJson, ReplyView::PackageJson(found)) => SearchView {
                references: match found {
                    FindPackageJsonResult::Found(package_json) => self.references.push(
                        AssetReferenceView::PackageJson(package_json),
                    ),
                    FindPackageJsonResult::NotFound => self.references,
                },
                phase: PhaseView::Parse,
                ..self
            },
            (PhaseView::Parse, ReplyView::Parsed(parsed)) => match parsed {
                ParseResultView::Module { nodes, effects } => self.with_module(
                    visited_all(unvisited(self.source, self.references), nodes),
                    effects,
                ),
                _ => SearchView { phase: PhaseView::Done, ..self },
            },
            (PhaseView::Resolve(bundle), ReplyView::Resolved(resolved)) => match runtime_asset(
                runtime_of(resolved),
            ) {
                Some(asset) => SearchView { phase: PhaseView::Runtime { asset, bundle }, ..self },
                None => self.at_next_effect(),
            },
            (PhaseView::Runtime { bundle, .. }, ReplyView::Runtime(kind)) => match kind {
                WebpackRuntime::Webpack5 => self.with_bundle(bundle).at_next_effect(),
                WebpackRuntime::Absent => self.at_next_effect(),
            },
            (PhaseView::Object { prop, args, span, .. }, ReplyView::Linked(obj)) => SearchView {
                phase: PhaseView::Function {
                    func: JsValueView::Member(Box::new(obj), Box::new(prop)),
                    args,
                    span,
                },
                ..self
            },
            (PhaseView::Function { args, span, .. }, ReplyView::Linked(func)) => self.at_calls(
                known_functions(func),
                args,
                span,
            ),
            (PhaseView::Call { kind, others, args, span, wait }, _) => {
                let next = advanced(self.source, span, kind, wait, reply);
                let told = self.with_report(next.report);
                match next.wait {
                    Some(wait) => SearchView {
                        phase: PhaseView::Call { kind, others, args, span, wait },
                        ..told
                    },
                    None => told.at_calls(others, args, span),
                }
            },
            _ => self,
        }
    }
}

/// Where a search turns next does not depend on what it was busy with.
pub proof fn lemma_next_effect_from(search: SearchView, phase: PhaseView)
    ensures
        (SearchView { phase, ..search }).at_next_effect() == search.at_next_effect(),
    decreases search.effects.len(),
{
    if search.effects.len() > 0 {
        let rest = SearchView { effects: search.effects.drop_first(), ..search };
        lemma_next_effect_from(rest, phase);
    }
}

/// Starts a search for the references of `source`.
pub fn module_references(source: AssetVc) -> (res: ModuleReferences)
    ensures
        res@ == SearchView::initial(source),
{
    let res = ModuleReferences {
        source,
        references: Vec::new(),
        diagnostics: Vec::new(),
        ignored: None,
        effects: VecDeque::new(),
        phase: Phase::PackageJson,
    };
    assert(res@.references =~= seq![]);
    assert(res@.diagnostics =~= seq![]);
    assert(res@.effects =~= seq![]);
    res
}

/// Adds the references of a module that is part of a webpack bundle.
fn push_webpack_references(
    source: AssetVc,
    bundle: Bundle,
    references: &mut Vec<AssetReferenceVc>,
)
    ensures
        final(references).deep_view() == old(references).deep_view() + webpack_references(
            source,
            bundle.deep_view(),
        ),
{
    let ghost before = references.deep_view();
    let ghost all = webpack_references(source, bundle.deep_view());
    let Bundle { request, entry, chunks, .. } = bundle;
    let context = source.path().parent();
    let runtime = WebpackRuntimeVc::ResolvedAs { context, request: request.clone() };
    let ghost first = if entry { 2int } else { 1int };
    push_reference(
        references,
        AssetReferenceVc::WebpackRuntime(
            WebpackRuntimeAssetReference { source, request, runtime: runtime.clone() },
        ),
    );
    if entry {
        push_reference(
            references,
            AssetReferenceVc::WebpackEntry(
                WebpackEntryAssetReference { source, runtime: runtime.clone() },
            ),
        );
    }
    assert(references.deep_view() =~= before + all.take(first));
    for i in 0..chunks.len()
        invariant
            all == webpack_references(source, bundle.deep_view()),
            runtime.deep_view() == WebpackRuntimeView::ResolvedAs(
                context_of(source),
                bundle.request.deep_view(),
            ),
            chunks == bundle.chunks,
            entry == bundle.entry,
            first == if entry { 2int } else { 1int },
            references.deep_view() == before + all.take(first + i),
    {
        push_reference(
            references,
            AssetReferenceVc::WebpackChunk(
                WebpackChunkAssetReference {
                    chunk_id: chunks[i].clone(),
                    runtime: runtime.clone(),
                },
            ),
        );
        assert(references.deep_view() =~= before + all.take(first + i + 1));
    }
    assert(all.take(first + chunks.len()) =~= all);
}

/// Whether what a search asks for in this phase may fail to be found out.
fn phase_may_fail(phase: &Phase) -> (res: bool)
    ensures
        forall|search: SearchView|
            search.phase == phase.deep_view() ==> res == may_fail(#[trigger] search.action()),
{
    match phase {
        Phase::PackageJson
        | Phase::Parse
        | Phase::Resolve(_)
        | Phase::Runtime { .. }
        | Phase::Object { .. }
        | Phase::Function { .. } => true,
        Phase::Call { wait, .. } => match wait {
            Wait::Args
            | Wait::Entry { .. }
            | Wait::Joined
            | Wait::Forked { .. }
            | Wait::MessageArgs { .. } => true,
            Wait::Command { .. }
            | Wait::EntryParts { .. }
            | Wait::Parts { .. }
            | Wait::LooseParts { .. }
            | Wait::Message { .. } => false,
        },
        Phase::Done | Phase::Failed(_) => false,
    }
}

impl ModuleReferences {
    /// What this search is to be told next.
    pub fn action(&self) -> (res: Action)
        ensures
            res.deep_view() == self@.action(),
    {
        match &self.phase {
            Phase::PackageJson => Action::FindPackageJson(self.source.path().parent()),
            Phase::Parse => Action::Parse(self.source),
            Phase::Resolve(bundle) => {
                let context = self.source.path().parent();
                Action::Resolve(resolve_as_webpack_runtime(&context, &bundle.request))
            },
            Phase::Runtime { asset, .. } => Action::ReadRuntime(*asset),
            Phase::Object { obj, .. } => Action::Link(obj.clone()),
            Phase::Function { func, .. } => Action::Link(func.clone()),
            Phase::Call { args, wait, .. } => action_of(args, wait),
            Phase::Done => Action::Done,
            Phase::Failed(_) => Action::Done,
        }
    }

    /// Turns to the next call that is not ignored.
    fn at_next_effect(self) -> (res: Self)
        ensures
            res@ == self@.at_next_effect(),
    {
        let mut search = self;
        loop
            invariant
                search@.at_next_effect() == self@.at_next_effect(),
            decreases search.effects@.len(),
        {
            let ghost before = search@;
            match search.effects.pop_front() {
                None => {
                    search.phase = Phase::Done;
                    assert(search@.effects =~= before.effects);
                    return search;
                },
                Some(effect) => {
                    assert(search@.effects =~= before.effects.drop_first());
                    assert(before.effects[0] == effect.deep_view());
                    let span = match &effect {
                        Effect::Call { span, .. } => *span,
                        Effect::MemberCall { span, .. } => *span,
                    };
                    let ignored: bool = match search.ignored {
                        Some(ignored) => ignored == span,
                        None => false,
                    };
                    if !ignored {
                        search.phase = match effect {
                            Effect::Call { func, args, span } => Phase::Function {
                                func,
                                args,
                                span,
                            },
                            Effect::MemberCall { obj, prop, args, span } => Phase::Object {
                                obj,
                                prop,
                                args,
                                span,
                            },
                        };
                        return search;
                    }
                },
            }
        }
    }

    /// Turns to calls of `kinds` with `args`.
    fn at_calls(
        self,
        kinds: VecDeque<WellKnownFunctionKind>,
        args: Vec<JsValue>,
        span: Span,
    ) -> (res: Self)
        ensures
            res@ == self@.at_calls(kinds.deep_view(), args.deep_view(), span),
    {
        let mut search = self;
        let mut others = kinds;
        match others.pop_front() {
            None => search.at_next_effect(),
            Some(kind) => {
                assert(others.deep_view() =~= kinds.deep_view().drop_first());
                assert(kinds.deep_view()[0] == kind.deep_view());
                let wait = begin(&kind, &args);
                search.phase = Phase::Call { kind, others, args, span, wait };
                search
            },
        }
    }

    /// Takes in a parsed module.
    fn with_module(self, found: AssetReferencesVisitor, effects: Vec<Effect>) -> (res: Self)
        ensures
            res@ == self@.with_module(found@, effects.deep_view()),
    {
        let mut search = self;
        let ghost listed = effects.deep_view();
        let mut queue: VecDeque<Effect> = VecDeque::new();
        for effect in iter: effects
            invariant
                queue@ == iter.seq().take(iter.index()),
        {
            queue.push_back(effect);
        }
        search.effects = queue;
        assert(search@.effects =~= listed);
        search.references = found.references;
        match found.webpack_runtime {
            Some((text, span)) => {
                let request = RequestVc::parse(Pattern::Constant(text));
                let entry = found.webpack_entry;
                let chunks = found.webpack_chunks;
                search.phase = Phase::Resolve(Bundle { request, span, entry, chunks });
                search
            },
            None => search.at_next_effect(),
        }
    }

    /// Goes on with a reply. One that does not answer the action changes nothing.
    pub fn resume(self, reply: Reply) -> (res: Self)
        ensures
            res@ == self@.after(reply.deep_view()),
    {
        let ModuleReferences {
            source,
            mut references,
            mut diagnostics,
            ignored,
            effects,
            phase,
        } = self;
        match (phase, reply) {
            (phase, Reply::Failed(failure)) => {
                let phase = if phase_may_fail(&phase) {
                    Phase::Failed(failure)
                } else {
                    phase
                };
                ModuleReferences { source, references, diagnostics, ignored, effects, phase }
            },
            (Phase::PackageJson, Reply::PackageJson(found)) => {
                if let FindPackageJsonResult::Found(package_json) = found {
                    let ghost before = references.deep_view();
                    push_reference(
                        &mut references,
                        AssetReferenceVc::PackageJson(PackageJsonReferenceVc::new(package_json)),
                    );
                    assert(references.deep_view() =~= before.push(
                        AssetReferenceView::PackageJson(package_json),
                    ));
                }
                let phase = Phase::Parse;
                ModuleReferences { source, references, diagnostics, ignored, effects, phase }
            },
            (Phase::Parse, Reply::Parsed(parsed)) => {
                match parsed {
                    ParseResult::Module { nodes, effects: calls } => {
                        let mut visitor = AssetReferencesVisitor::new(source, references);
                        visitor.visit_nodes(&nodes);
                        let references: Vec<AssetReferenceVc> = Vec::new();
                        let phase = Phase::Parse;
                        ModuleReferences {
                            source,
                            references,
                            diagnostics,
                            ignored,
                            effects,
                            phase,
                        }.with_module(visitor, calls)
                    },
                    _ => {
                        let phase = Phase::Done;
                        ModuleReferences {
                            source,
                            references,
                            diagnostics,
                            ignored,
                            effects,
                            phase,
                        }
                    },
                }
            },
            (Phase::Resolve(bundle), Reply::Resolved(resolved)) => {
                match asset_of_runtime(&webpack_runtime_of(&resolved)) {
                    Some(asset) => {
                        let phase = Phase::Runtime { asset, bundle };
                        ModuleReferences {
                            source,
                            references,
                            diagnostics,
                            ignored,
                            effects,
                            phase,
                        }
                    },
                    None => {
                        let phase = Phase::Done;
                        proof {
                            lemma_next_effect_from(self@, phase.deep_view());
                        }
                        ModuleReferences {
                            source,
                            references,
                            diagnostics,
                            ignored,
                            effects,
                            phase,
                        }.at_next_effect()
                    },
                }
            },
            (Phase::Runtime { bundle, .. }, Reply::Runtime(kind)) => {
                let ignored = match kind {
                    WebpackRuntime::Webpack5 => {
                        let span = bundle.span;
                        push_webpack_references(source, bundle, &mut references);
                        Some(span)
                    },
                    WebpackRuntime::Absent => ignored,
                };
                let phase = Phase::Done;
                proof {
                    lemma_next_effect_from(
                        SearchView {
                            references: references.deep_view(),
                            ignored,
                            ..self@
                        },
                        phase.deep_view(),
                    );
                }
                ModuleReferences {
                    source,
                    references,
                    diagnostics,
                    ignored,
                    effects,
                    phase,
                }.at_next_effect()
            },
            (Phase::Object { prop, args, span, .. }, Reply::Linked(obj)) => {
                let func = JsValue::Member(Box::new(obj), Box::new(prop));
                let phase = Phase::Function { func, args, span };
                ModuleReferences { source, references, diagnostics, ignored, effects, phase }
            },
            (Phase::Function { args, span, .. }, Reply::Linked(func)) => {
                let mut kinds: VecDeque<WellKnownFunctionKind> = VecDeque::new();
                collect_known_functions(&func, &mut kinds);
                assert(kinds.deep_view() =~= known_functions(func.deep_view()));
                let phase = Phase::Done;
                proof {
                    lemma_next_effect_from(self@, phase.deep_view());
                }
                ModuleReferences {
                    source,
                    references,
                    diagnostics,
                    ignored,
                    effects,
                    phase,
                }.at_calls(kinds, args, span)
            },
            (Phase::Call { kind, others, args, span, wait }, reply) => {
                let wait = advance(
                    source,
                    span,
                    &kind,
                    wait,
                    reply,
                    &mut references,
                    &mut diagnostics,
                );
                match wait {
                    Some(wait) => {
                        let phase = Phase::Call { kind, others, args, span, wait };
                        ModuleReferences {
                            source,
                            references,
                            diagnostics,
                            ignored,
                            effects,
                            phase,
                        }
                    },
                    None => {
                        let phase = Phase::Done;
                        proof {
                            lemma_next_effect_from(
                                SearchView {
                                    references: references.deep_view(),
                                    diagnostics: diagnostics.deep_view(),
                                    ..self@
                                },
                                phase.deep_view(),
                            );
                        }
                        ModuleReferences {
                            source,
                            references,
                            diagnostics,
                            ignored,
                            effects,
                            phase,
                        }.at_calls(others, args, span)
                    },
                }
            },
            (phase, _) => ModuleReferences {
                source,
                references,
                diagnostics,
                ignored,
                effects,
                phase,
            },
        }
    }

    /// What came of the search, once it is over: the references of the module and the diagnostics
    /// of its calls, or the error that it failed with, and then nothing else. A search that is not
    /// over is handed back.
    pub fn finish(self) -> (res: Result<
        Result<(AssetReferencesSet, Vec<Diagnostic>), Failure>,
        Self,
    >)
        ensures
            match self@.phase {
                PhaseView::Done => {
                    &&& res matches Ok(Ok((set, diagnostics)))
                    &&& set.references.deep_view() == self@.references
                    &&& diagnostics.deep_view() == self@.diagnostics
                },
                PhaseView::Failed(failure) => res matches Ok(Err(error)) && error == failure,
                _ => res matches Err(search) && search@ == self@,
            },
    {
        match self.phase {
            Phase::Done => Ok(
                Ok((AssetReferencesSet { references: self.references }, self.diagnostics)),
            ),
            Phase::Failed(failure) => Ok(Err(failure)),
            _ => Err(self),
        }
    }
}

} // verus!
