//! What a search comes to.
//!
//! A search that is told the truth about a [`World`], question by question, ends, and what it has
//! found then is [`module_report`].
use crate::ast::{Node, Span};
use crate::call::{
    ReportView, WaitView, advanced, call_report, first_wait, in_turn, kind_report, kinds_report,
    known_functions, lemma_in_turn, wait_action,
};
use crate::exchange::{
    ActionView, EffectView, FindPackageJsonResult, ParseResultView, ReplyView, WebpackRuntime,
    World, may_fail,
};
use crate::module_references::{
    PhaseView, SearchView, bundle_of, lemma_next_effect_from, unvisited, webpack_references,
};
use crate::reference::{AssetReferenceView, ResolveResult, runtime_resolution};
use crate::value::{JsValueView, WellKnownFunctionKindView};
use crate::vc::{AssetVc, Failure, context_of};
use crate::visitor::{
    VisitorView, esm_references, lemma_walk_adds_requests, lemma_walk_forgets_nothing,
    requests_of_all, visited_all,
};
use vstd::prelude::*;

verus! {

/// Whether `reply` answers `action`.
pub open spec fn answers(action: ActionView, reply: ReplyView) -> bool {
    if reply is Failed {
        may_fail(action)
    } else {
        found_out(action, reply)
    }
}

/// Whether `reply` is what `action` asks for.
pub open spec fn found_out(action: ActionView, reply: ReplyView) -> bool {
    match action {
        ActionView::FindPackageJson(_) => reply is PackageJson,
        ActionView::Parse(_) => reply is Parsed,
        ActionView::Resolve(_) => reply is Resolved,
        ActionView::ReadRuntime(_) => reply is Runtime,
        ActionView::Link(_) => reply is Linked,
        ActionView::LinkAll(_) => reply is LinkedAll,
        ActionView::HasConstantParts(_) => reply is HasConstantParts,
        ActionView::IsMatch { .. } => reply is IsMatch,
        ActionView::ExplainArgs { .. } => reply is Explained,
        ActionView::Done => false,
    }
}

/// How many replies the analysis of a call still takes at most.
pub open spec fn wait_rank(wait: WaitView) -> nat {
    match wait {
        WaitView::Args => 6,
        WaitView::Command { .. } => 5,
        WaitView::Entry { .. } => 4,
        WaitView::EntryParts { .. } => 3,
        WaitView::Parts { .. } => 2,
        WaitView::Joined => 4,
        WaitView::Forked { .. } => 4,
        WaitView::LooseParts { .. } => 3,
        WaitView::MessageArgs { .. } => 2,
        WaitView::Message { .. } => 1,
    }
}

impl SearchView {
    /// How far the calls of the module are from being known.
    pub open spec fn parse_rank(self) -> nat {
        match self.phase {
            PhaseView::PackageJson => 4,
            PhaseView::Parse => 3,
            PhaseView::Resolve(_) => 2,
            PhaseView::Runtime { .. } => 1,
            _ => 0,
        }
    }

    /// How far the present call is from being analysed.
    pub open spec fn effect_rank(self) -> nat {
        match self.phase {
            PhaseView::Object { .. } => 3,
            PhaseView::Function { .. } => 2,
            PhaseView::Call { .. } => 1,
            _ => 0,
        }
    }

    /// How many functions the present call may still be one of.
    pub open spec fn others_rank(self) -> nat {
        match self.phase {
            PhaseView::Call { others, .. } => others.len(),
            _ => 0,
        }
    }

    /// How many replies the analysis of the present function still takes at most.
    pub open spec fn reply_rank(self) -> nat {
        match self.phase {
            PhaseView::Call { wait, .. } => wait_rank(wait),
            _ => 0,
        }
    }
}

/// Whether `after` is nearer to the end of a search than `before`: the first of the five ranks
/// in which they differ is smaller.
pub open spec fn nearer(before: SearchView, after: SearchView) -> bool {
    decreases_to!(
        before.parse_rank(),
        before.effects.len(),
        before.effect_rank(),
        before.others_rank(),
        before.reply_rank() =>
        after.parse_rank(),
        after.effects.len(),
        after.effect_rank(),
        after.others_rank(),
        after.reply_rank()
    )
}

/// Turning to the next call takes calls from the front of the list, and the search is then over
/// or about to link.
proof fn lemma_next_effect_shape(search: SearchView)
    ensures
        ({
            let next = search.at_next_effect();
            &&& next.parse_rank() == 0
            &&& next.phase !is Failed
            &&& next.effects.len() <= search.effects.len()
            &&& search.effects.len() > 0 ==> next.effects.len() < search.effects.len()
            &&& search.effects.len() == 0 ==> next.phase is Done
            &&& next.source == search.source
            &&& next.ignored == search.ignored
            &&& next.references == search.references
            &&& next.diagnostics == search.diagnostics
        }),
    decreases search.effects.len(),
{
    if search.effects.len() > 0 {
        lemma_next_effect_shape(SearchView { effects: search.effects.drop_first(), ..search });
    }
}

/// One step of a search, whatever the reply says.
proof fn lemma_step(search: SearchView, reply: ReplyView)
    ensures
        answers(search.action(), reply) ==> nearer(search, search.after(reply)),
        search.references.is_prefix_of(search.after(reply).references),
        search.diagnostics.is_prefix_of(search.after(reply).diagnostics),
        search.after(reply).source == search.source,
        search.phase !is Failed && reply !is Failed ==> search.after(reply).phase !is Failed,
{
    match (search.phase, reply) {
        (PhaseView::Parse, ReplyView::Parsed(ParseResultView::Module { nodes, effects })) => {
            let start = unvisited(search.source, search.references);
            let found = visited_all(start, nodes);
            lemma_walk_forgets_nothing(start, nodes);
            lemma_next_effect_shape(
                SearchView { references: found.references, effects, ..search },
            );
        },
        (PhaseView::Resolve(_), ReplyView::Resolved(_)) => {
            lemma_next_effect_shape(search);
        },
        (PhaseView::Runtime { bundle, .. }, ReplyView::Runtime(_)) => {
            lemma_next_effect_shape(search);
            lemma_next_effect_shape(search.with_bundle(bundle));
        },
        (PhaseView::Function { .. }, ReplyView::Linked(_)) => {
            lemma_next_effect_shape(search);
        },
        (PhaseView::Call { kind, span, wait, .. }, _) => {
            let step = advanced(search.source, span, kind, wait, reply);
            lemma_next_effect_shape(search.with_report(step.report));
        },
        _ => {},
    }
}

/// Every reply that answers the action of a search brings it nearer to its end, whatever the
/// reply says. So a search ends after finitely many of them.
pub proof fn lemma_reply_brings_nearer(search: SearchView, reply: ReplyView)
    requires
        answers(search.action(), reply),
    ensures
        nearer(search, search.after(reply)),
{
    lemma_step(search, reply);
}

/// A reply that does not answer the action of a search changes nothing.
pub proof fn lemma_other_replies_change_nothing(search: SearchView, reply: ReplyView)
    requires
        !answers(search.action(), reply),
    ensures
        search.after(reply) == search,
{
    match search.phase {
        PhaseView::Call { kind, others, args, span, wait } => {
            assert(search.after(reply).references =~= search.references);
            assert(search.after(reply).diagnostics =~= search.diagnostics);
        },
        _ => {},
    }
}

/// A search fails with the error of the first question that fails, and only so: no other reply
/// makes it fail, and none takes it further.
pub proof fn lemma_search_fails_with_first_failure(search: SearchView, reply: ReplyView)
    ensures
        search.phase !is Failed ==> (search.after(reply).phase is Failed <==> reply is Failed
            && may_fail(search.action())),
        search.phase !is Failed && search.after(reply).phase is Failed
            ==> reply == ReplyView::Failed(search.after(reply).phase->Failed_0),
        search.phase is Failed ==> search.after(reply) == search,
{
    lemma_step(search, reply);
    if search.phase is Failed {
        lemma_other_replies_change_nothing(search, reply);
    }
}

/// Where a search ends that is told the truth about `w`.
pub open spec fn run(w: World, search: SearchView) -> SearchView
    decreases
        search.parse_rank(),
        search.effects.len(),
        search.effect_rank(),
        search.others_rank(),
        search.reply_rank(),
{
    if search.is_over() {
        search
    } else {
        proof {
            lemma_reply_brings_nearer(search, w.answer(search.action()));
        }
        run(w, search.after(w.answer(search.action())))
    }
}

/// The report on the rest of a call of `kind` that waits for `wait`.
pub open spec fn wait_report(
    w: World,
    source: AssetVc,
    span: Span,
    kind: WellKnownFunctionKindView,
    args: Seq<JsValueView>,
    wait: WaitView,
) -> Result<ReportView, Failure>
    decreases wait_rank(wait),
{
    match w.answer(wait_action(args, wait)) {
        ReplyView::Failed(failure) => Err(failure),
        reply => {
            let step = advanced(source, span, kind, wait, reply);
            match step.wait {
                Some(next) => in_turn(
                    Ok(step.report),
                    wait_report(w, source, span, kind, args, next),
                ),
                None => Ok(step.report),
            }
        },
    }
}

/// The analysis of a call comes to [`kind_report`].
pub proof fn lemma_call_comes_to_report(
    w: World,
    source: AssetVc,
    span: Span,
    kind: WellKnownFunctionKindView,
    args: Seq<JsValueView>,
)
    ensures
        wait_report(w, source, span, kind, args, first_wait(kind, args)) == kind_report(
            w,
            source,
            span,
            kind,
            args,
        ),
{
    reveal_with_fuel(wait_report, 7);
    let found = wait_report(w, source, span, kind, args, first_wait(kind, args));
    let report = kind_report(w, source, span, kind, args);
    if let Ok(report) = report {
        assert(found->Ok_0.references =~= report.references);
        assert(found->Ok_0.diagnostics =~= report.diagnostics);
    }
}

/// The report on `effect`, unless it is the ignored call.
pub open spec fn effect_report(
    w: World,
    source: AssetVc,
    ignored: Option<Span>,
    effect: EffectView,
) -> Result<ReportView, Failure> {
    if ignored == Some(effect.span()) {
        Ok(ReportView::empty())
    } else {
        match effect {
            EffectView::Call { func, args, span } => {
                linked_call_report(w, source, span, func, args)
            },
            EffectView::MemberCall { obj, prop, args, span } => match (w.link)(obj) {
                Ok(obj) => {
                    let func = JsValueView::Member(Box::new(obj), Box::new(prop));
                    linked_call_report(w, source, span, func, args)
                },
                Err(failure) => Err(failure),
            },
        }
    }
}

/// The report on a call of what `func` is linked to.
pub open spec fn linked_call_report(
    w: World,
    source: AssetVc,
    span: Span,
    func: JsValueView,
    args: Seq<JsValueView>,
) -> Result<ReportView, Failure> {
    match (w.link)(func) {
        Ok(func) => call_report(w, source, span, func, args),
        Err(failure) => Err(failure),
    }
}

/// The reports on `effects`, one after the other.
pub open spec fn effects_report(
    w: World,
    source: AssetVc,
    ignored: Option<Span>,
    effects: Seq<EffectView>,
) -> Result<ReportView, Failure>
    decreases effects.len(),
{
    if effects.len() == 0 {
        Ok(ReportView::empty())
    } else {
        in_turn(
            effect_report(w, source, ignored, effects[0]),
            effects_report(w, source, ignored, effects.drop_first()),
        )
    }
}

/// The reference of a module to its `package.json`.
pub open spec fn package_json_references(w: World, source: AssetVc) -> Result<
    Seq<AssetReferenceView>,
    Failure,
> {
    match (w.find_package_json)(context_of(source)) {
        Ok(FindPackageJsonResult::Found(path)) => Ok(seq![AssetReferenceView::PackageJson(path)]),
        Ok(FindPackageJsonResult::NotFound) => Ok(seq![]),
        Err(failure) => Err(failure),
    }
}

/// The references of the webpack bundle that a module is part of, and the call that asks for its
/// runtime. A module whose declarations do not ask for a runtime, or for none that is known, is
/// part of no bundle.
pub open spec fn webpack_bundle(w: World, source: AssetVc, found: VisitorView) -> Result<
    (Seq<AssetReferenceView>, Option<Span>),
    Failure,
> {
    match bundle_of(found) {
        Some(bundle) => match w.runtime(context_of(source), bundle.request) {
            Ok(WebpackRuntime::Webpack5) => Ok(
                (webpack_references(source, bundle), Some(bundle.span)),
            ),
            Ok(WebpackRuntime::Absent) => Ok((seq![], None)),
            Err(failure) => Err(failure),
        },
        None => Ok((seq![], None)),
    }
}

/// The references and the diagnostics of a parsed module, `package_json` first.
pub open spec fn parsed_report(
    w: World,
    source: AssetVc,
    package_json: Seq<AssetReferenceView>,
    nodes: Seq<Node>,
    effects: Seq<EffectView>,
) -> Result<ReportView, Failure> {
    let found = visited_all(unvisited(source, package_json), nodes);
    match webpack_bundle(w, source, found) {
        Ok((bundle, ignored)) => in_turn(
            Ok(ReportView { references: found.references + bundle, diagnostics: seq![] }),
            effects_report(w, source, ignored, effects),
        ),
        Err(failure) => Err(failure),
    }
}

/// The references and the diagnostics of a module: its `package.json`, then what its declarations
/// request, then the webpack bundle that it is part of, then what its calls refer to. Where
/// something of that cannot be found out, the first error is all there is.
pub open spec fn module_report(w: World, source: AssetVc) -> Result<ReportView, Failure> {
    match package_json_references(w, source) {
        Ok(package_json) => match (w.parse)(source) {
            Ok(ParseResultView::Module { nodes, effects }) => parsed_report(
                w,
                source,
                package_json,
                nodes,
                effects,
            ),
            Ok(_) => Ok(ReportView { references: package_json, diagnostics: seq![] }),
            Err(failure) => Err(failure),
        },
        Err(failure) => Err(failure),
    }
}

/// The search `search`, with `report` added, is done.
pub open spec fn done_with(search: SearchView, report: ReportView) -> SearchView {
    SearchView { effects: seq![], phase: PhaseView::Done, ..search.with_report(report) }
}

proof fn lemma_reports_add_up(search: SearchView, first: ReportView, second: ReportView)
    ensures
        search.with_report(first).with_report(second) == search.with_report(
            first.then_report(second),
        ),
        search.with_report(ReportView::empty()) == search,
{
    let apart = search.with_report(first).with_report(second);
    let together = search.with_report(first.then_report(second));
    assert(apart.references =~= together.references);
    assert(apart.diagnostics =~= together.diagnostics);
    let same = search.with_report(ReportView::empty());
    assert(same.references =~= search.references);
    assert(same.diagnostics =~= search.diagnostics);
}

/// The analysis of a call of one function.
proof fn lemma_run_wait(
    w: World,
    search: SearchView,
    kind: WellKnownFunctionKindView,
    others: Seq<WellKnownFunctionKindView>,
    args: Seq<JsValueView>,
    span: Span,
    wait: WaitView,
)
    requires
        search.phase == (PhaseView::Call { kind, others, args, span, wait }),
    ensures
        match wait_report(w, search.source, span, kind, args, wait) {
            Ok(report) => run(w, search) == run(
                w,
                search.with_report(report).at_calls(others, args, span),
            ),
            Err(failure) => run(w, search).phase == PhaseView::Failed(failure),
        },
    decreases wait_rank(wait),
{
    let reply = w.answer(wait_action(args, wait));
    let next = search.after(reply);
    assert(run(w, search) == run(w, next));
    if reply !is Failed {
        let step = advanced(search.source, span, kind, wait, reply);
        if let Some(wait) = step.wait {
            lemma_run_wait(w, next, kind, others, args, span, wait);
            if let Ok(rest) = wait_report(w, search.source, span, kind, args, wait) {
                lemma_reports_add_up(search, step.report, rest);
                lemma_next_effect_from(
                    search.with_report(step.report.then_report(rest)),
                    next.phase,
                );
                assert(next.with_report(rest) == (SearchView {
                    phase: next.phase,
                    ..search.with_report(step.report.then_report(rest))
                }));
            }
        }
    }
}

/// The analysis of a call of each of `kinds`.
proof fn lemma_run_calls(
    w: World,
    search: SearchView,
    kinds: Seq<WellKnownFunctionKindView>,
    args: Seq<JsValueView>,
    span: Span,
)
    ensures
        match kinds_report(w, search.source, span, kinds, args) {
            Ok(report) => run(w, search.at_calls(kinds, args, span)) == run(
                w,
                search.with_report(report).at_next_effect(),
            ),
            Err(failure) => run(w, search.at_calls(kinds, args, span)).phase == PhaseView::Failed(
                failure,
            ),
        },
    decreases kinds.len(),
{
    if kinds.len() == 0 {
        lemma_reports_add_up(search, ReportView::empty(), ReportView::empty());
    } else {
        let calling = search.at_calls(kinds, args, span);
        let others = kinds.drop_first();
        lemma_run_wait(w, calling, kinds[0], others, args, span, first_wait(kinds[0], args));
        lemma_call_comes_to_report(w, search.source, span, kinds[0], args);
        if let Ok(first) = kind_report(w, search.source, span, kinds[0], args) {
            lemma_run_calls(w, calling.with_report(first), others, args, span);
            if let Ok(rest) = kinds_report(w, search.source, span, others, args) {
                lemma_reports_add_up(search, first, rest);
                let all = search.with_report(first.then_report(rest));
                lemma_next_effect_from(all, calling.phase);
                assert(calling.with_report(first).with_report(rest) == (SearchView {
                    phase: calling.phase,
                    ..all
                }));
            }
        }
    }
}

/// The analysis of a call of `func`, which is still to be linked, and of the calls behind it.
proof fn lemma_run_function(
    w: World,
    search: SearchView,
    func: JsValueView,
    args: Seq<JsValueView>,
    span: Span,
)
    requires
        search.phase == (PhaseView::Function { func, args, span }),
    ensures
        match linked_call_report(w, search.source, span, func, args) {
            Ok(report) => run(w, search) == run(w, search.with_report(report).at_next_effect()),
            Err(failure) => run(w, search).phase == PhaseView::Failed(failure),
        },
{
    let next = search.after(w.answer(search.action()));
    assert(run(w, search) == run(w, next));
    if let Ok(func) = (w.link)(func) {
        lemma_run_calls(w, search, known_functions(func), args, span);
    }
}

/// The analysis of the calls that are still to be analysed.
proof fn lemma_run_effects(w: World, search: SearchView)
    ensures
        match effects_report(w, search.source, search.ignored, search.effects) {
            Ok(report) => run(w, search.at_next_effect()) == done_with(search, report),
            Err(failure) => run(w, search.at_next_effect()).phase == PhaseView::Failed(failure),
        },
    decreases search.effects.len(),
{
    if search.effects.len() == 0 {
        lemma_reports_add_up(search, ReportView::empty(), ReportView::empty());
        assert(search.effects =~= seq![]);
    } else {
        let effect = search.effects[0];
        let rest = SearchView { effects: search.effects.drop_first(), ..search };
        let first = effect_report(w, search.source, search.ignored, effect);
        let others = effects_report(w, search.source, search.ignored, rest.effects);
        if search.ignored == Some(effect.span()) {
            lemma_run_effects(w, rest);
            lemma_in_turn(others, others, others);
        } else {
            let linking = search.at_next_effect();
            match effect {
                EffectView::Call { func, args, span } => {
                    lemma_run_function(w, linking, func, args, span);
                },
                EffectView::MemberCall { obj, prop, args, span } => {
                    let member = linking.after(w.answer(linking.action()));
                    assert(run(w, linking) == run(w, member));
                    if let Ok(obj) = (w.link)(obj) {
                        let func = JsValueView::Member(Box::new(obj), Box::new(prop));
                        lemma_run_function(w, member, func, args, span);
                        if let Ok(report) = first {
                            lemma_next_effect_from(linking.with_report(report), member.phase);
                            assert(member.with_report(report) == (SearchView {
                                phase: member.phase,
                                ..linking.with_report(report)
                            }));
                        }
                    }
                },
            }
            if let Ok(report) = first {
                let told = linking.with_report(report);
                lemma_run_effects(w, told);
                if let Ok(later) = others {
                    lemma_reports_add_up(search, report, later);
                    assert(done_with(told, later) == done_with(search, report.then_report(later)));
                }
            }
        }
    }
}

/// A search that is told the truth about `w` ends with exactly the references and the diagnostics
/// of [`module_report`], each in its order. Where that is an error, the search fails with it.
pub proof fn lemma_search_comes_to_report(w: World, source: AssetVc)
    ensures
        ({
            let end = run(w, SearchView::initial(source));
            match module_report(w, source) {
                Ok(report) => {
                    &&& end.phase is Done
                    &&& end.references == report.references
                    &&& end.diagnostics == report.diagnostics
                },
                Err(failure) => end.phase == PhaseView::Failed(failure),
            }
        }),
{
    let start = SearchView::initial(source);
    let parse = start.after(w.answer(start.action()));
    assert(run(w, start) == run(w, parse));
    if let Ok(package_json) = package_json_references(w, source) {
        assert(parse.references =~= package_json);
        let parsed = parse.after(w.answer(parse.action()));
        assert(run(w, parse) == run(w, parsed));
        if let Ok(ParseResultView::Module { nodes, effects }) = (w.parse)(source) {
            let found = visited_all(unvisited(source, package_json), nodes);
            let walked = SearchView { references: found.references, effects, ..parse };
            match bundle_of(found) {
                Some(bundle) => {
                    let resolved = parsed.after(w.answer(parsed.action()));
                    assert(run(w, parsed) == run(w, resolved));
                    lemma_run_effects(w, parsed);
                    if resolved.phase is Runtime {
                        let told = resolved.after(w.answer(resolved.action()));
                        assert(run(w, resolved) == run(w, told));
                        lemma_run_effects(w, resolved);
                        lemma_run_effects(w, resolved.with_bundle(bundle));
                    }
                },
                None => {
                    lemma_run_effects(w, walked);
                },
            }
        }
    }
}

/// A search forgets nothing: whatever it is told, the references and the diagnostics that it has
/// found stay at the front.
pub proof fn lemma_search_forgets_nothing(search: SearchView, reply: ReplyView)
    ensures
        search.references.is_prefix_of(search.after(reply).references),
        search.diagnostics.is_prefix_of(search.after(reply).diagnostics),
        search.after(reply).source == search.source,
{
    lemma_step(search, reply);
}

/// The calls at `ignored` come to nothing: a module is reported on as if it did not make them.
pub proof fn lemma_ignored_calls_come_to_nothing(
    w: World,
    source: AssetVc,
    ignored: Span,
    effects: Seq<EffectView>,
)
    ensures
        effects_report(w, source, Some(ignored), effects) == effects_report(
            w,
            source,
            None,
            effects.filter(|effect: EffectView| effect.span() != ignored),
        ),
    decreases effects.len(),
{
    let kept = |effect: EffectView| effect.span() != ignored;
    if effects.len() == 0 {
        reveal(Seq::filter);
        assert(effects.filter(kept) =~= seq![]);
    } else {
        let rest = effects.drop_first();
        lemma_ignored_calls_come_to_nothing(w, source, ignored, rest);
        assert(effects =~= seq![effects[0]] + rest);
        Seq::filter_distributes_over_add(seq![effects[0]], rest, kept);
        assert(seq![effects[0]].filter(kept) =~= if kept(effects[0]) {
            seq![effects[0]]
        } else {
            seq![]
        }) by {
            reveal_with_fuel(Seq::filter, 2);
            assert(seq![effects[0]].drop_last() =~= seq![]);
        }
        let later = effects_report(w, source, Some(ignored), rest);
        if kept(effects[0]) {
            assert(effects.filter(kept).drop_first() =~= rest.filter(kept));
        } else {
            assert(effects.filter(kept) =~= rest.filter(kept));
            lemma_in_turn(later, later, later);
        }
    }
}

/// Whether the declarations of a module ask for a runtime, that request resolves to exactly one
/// asset, and the asset is a webpack runtime.
pub open spec fn is_bundled(w: World, source: AssetVc, found: VisitorView) -> bool {
    &&& bundle_of(found) matches Some(bundle)
    &&& (w.resolve)(runtime_resolution(context_of(source), bundle.request)) matches Ok(
        ResolveResult::Single(asset),
    )
    &&& (w.is_webpack_runtime)(asset) == Ok::<WebpackRuntime, Failure>(WebpackRuntime::Webpack5)
}

/// A module is part of a webpack bundle only where its request for a runtime resolves to exactly
/// one asset, and that asset is a runtime. Everywhere else it has no reference of a bundle, and
/// none of its calls is ignored.
pub proof fn lemma_bundle_needs_a_single_runtime(w: World, source: AssetVc, found: VisitorView)
    ensures
        webpack_bundle(w, source, found) matches Ok((bundle, ignored)) ==> {
            &&& bundle.len() > 0 <==> is_bundled(w, source, found)
            &&& ignored is Some <==> is_bundled(w, source, found)
        },
        is_bundled(w, source, found) ==> webpack_bundle(w, source, found) is Ok,
{
}

/// A request for a runtime that does not resolve to exactly one asset changes nothing: the search
/// goes on with the calls of the module, and ignores none.
pub proof fn lemma_unresolved_runtime_changes_nothing(search: SearchView)
    requires
        search.phase is Resolve,
    ensures
        search.after(ReplyView::Resolved(ResolveResult::Other)) == search.at_next_effect(),
        search.at_next_effect().references == search.references,
        search.at_next_effect().ignored == search.ignored,
{
    lemma_next_effect_shape(search);
}

/// The references of a parsed module come in this order: its `package.json`, one for each of its
/// requests, those of its webpack bundle, and those of its calls. All diagnostics are those of its
/// calls. It is reported on where all of that can be found out.
pub proof fn lemma_references_come_in_order(
    w: World,
    source: AssetVc,
    package_json: Seq<AssetReferenceView>,
    nodes: Seq<Node>,
    effects: Seq<EffectView>,
    bundle: Seq<AssetReferenceView>,
    ignored: Option<Span>,
    calls: ReportView,
)
    requires
        package_json_references(w, source) == Ok::<Seq<AssetReferenceView>, Failure>(package_json),
        (w.parse)(source) == Ok::<ParseResultView, Failure>(
            ParseResultView::Module { nodes, effects },
        ),
        webpack_bundle(w, source, visited_all(unvisited(source, package_json), nodes)) == Ok::<
            (Seq<AssetReferenceView>, Option<Span>),
            Failure,
        >((bundle, ignored)),
        effects_report(w, source, ignored, effects) == Ok::<ReportView, Failure>(calls),
    ensures
        module_report(w, source) matches Ok(report) && report.references == package_json
            + esm_references(source, requests_of_all(nodes)) + bundle + calls.references
            && report.diagnostics == calls.diagnostics,
{
    lemma_walk_adds_requests(unvisited(source, package_json), nodes);
    assert(module_report(w, source)->Ok_0.diagnostics =~= calls.diagnostics);
}

/// Whether a reference, if it says which module makes it, says that `source` does.
pub open spec fn made_by(source: AssetVc, reference: AssetReferenceView) -> bool {
    match reference {
        AssetReferenceView::Esm(maker, _) => maker == source,
        AssetReferenceView::Cjs(maker, _) => maker == source,
        AssetReferenceView::Source(maker, _) => maker == source,
        AssetReferenceView::WebpackRuntime(maker, _, _) => maker == source,
        AssetReferenceView::WebpackEntry(maker, _) => maker == source,
        AssetReferenceView::PackageJson(_) => true,
        AssetReferenceView::WebpackChunk(_, _) => true,
    }
}

/// Whether each of `references` that says which module makes it says that `source` does.
pub open spec fn all_made_by(source: AssetVc, references: Seq<AssetReferenceView>) -> bool {
    forall|i: int| 0 <= i < references.len() ==> made_by(source, #[trigger] references[i])
}

proof fn lemma_kinds_made_by(
    w: World,
    source: AssetVc,
    span: Span,
    kinds: Seq<WellKnownFunctionKindView>,
    args: Seq<JsValueView>,
)
    ensures
        kinds_report(w, source, span, kinds, args) matches Ok(report) ==> all_made_by(
            source,
            report.references,
        ),
    decreases kinds.len(),
{
    if kinds.len() > 0 {
        lemma_kinds_made_by(w, source, span, kinds.drop_first(), args);
        if let Ok(report) = kind_report(w, source, span, kinds[0], args) {
            assert(all_made_by(source, report.references));
        }
    }
}

proof fn lemma_effects_made_by(
    w: World,
    source: AssetVc,
    ignored: Option<Span>,
    effects: Seq<EffectView>,
)
    ensures
        effects_report(w, source, ignored, effects) matches Ok(report) ==> all_made_by(
            source,
            report.references,
        ),
    decreases effects.len(),
{
    if effects.len() > 0 {
        lemma_effects_made_by(w, source, ignored, effects.drop_first());
        match effects[0] {
            EffectView::Call { func, args, span } => {
                if let Ok(func) = (w.link)(func) {
                    lemma_kinds_made_by(w, source, span, known_functions(func), args);
                }
            },
            EffectView::MemberCall { obj, prop, args, span } => {
                if let Ok(obj) = (w.link)(obj) {
                    let func = JsValueView::Member(Box::new(obj), Box::new(prop));
                    if let Ok(func) = (w.link)(func) {
                        lemma_kinds_made_by(w, source, span, known_functions(func), args);
                    }
                }
            },
        }
    }
}

/// Every reference of a module that says which module makes it says that this one does. So all
/// its requests are resolved in its own directory.
pub proof fn lemma_module_makes_its_references(w: World, source: AssetVc)
    ensures
        module_report(w, source) matches Ok(report) ==> all_made_by(source, report.references),
{
    if let Ok(package_json) = package_json_references(w, source) {
        assert(all_made_by(source, package_json));
        if let Ok(ParseResultView::Module { nodes, effects }) = (w.parse)(source) {
            let found = visited_all(unvisited(source, package_json), nodes);
            lemma_walk_adds_requests(unvisited(source, package_json), nodes);
            assert(all_made_by(source, esm_references(source, requests_of_all(nodes))));
            if let Ok((bundle, ignored)) = webpack_bundle(w, source, found) {
                assert(all_made_by(source, bundle));
                lemma_effects_made_by(w, source, ignored, effects);
            }
        }
    }
}

/// A module that cannot be parsed has its `package.json` at most for a reference, and nothing is
/// reported of it.
pub proof fn lemma_unparsed_module_has_package_json_only(w: World, source: AssetVc)
    requires
        (w.parse)(source) matches Ok(parsed) && parsed !is Module,
    ensures
        match package_json_references(w, source) {
            Ok(package_json) => module_report(w, source) matches Ok(report) && report.references
                == package_json && report.diagnostics.len() == 0,
            Err(failure) => module_report(w, source) == Err::<ReportView, Failure>(failure),
        },
{
}

} // verus!
