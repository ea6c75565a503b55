//! What a call of each function of the platform comes to, in terms of the values that its
//! arguments are linked to.
use crate::ast::Span;
use crate::call::{
    ReportView, all_known_functions, alternatives_report, call_report, kind_report, kinds_report,
    known_functions, lemma_alternatives_are_each_reported, lemma_in_turn,
};
use crate::diagnostic::{DiagnosticId, DiagnosticView, FailedToAnalyse};
use crate::exchange::{EffectView, World};
use crate::outcome::{effect_report, effects_report};
use crate::reference::AssetReferenceView;
use crate::value::{ConstantValueView, JsValueView, WellKnownFunctionKindView};
use crate::vc::{AssetVc, Failure, PatternView};
use vstd::prelude::*;

verus! {

/// Whether `linked` is what linking makes of `args`, one for one.
pub open spec fn are_linked(w: World, args: Seq<JsValueView>, linked: Seq<JsValueView>) -> bool {
    &&& linked.len() == args.len()
    &&& forall|i: int|
        0 <= i < args.len() ==> (w.link)(#[trigger] args[i]) == Ok::<JsValueView, Failure>(
            linked[i],
        )
}

/// Whether linking one of `args` fails.
pub open spec fn one_fails(w: World, args: Seq<JsValueView>) -> bool {
    exists|i: int| 0 <= i < args.len() && (w.link)(#[trigger] args[i]) is Err
}

/// These references and diagnostics, and nothing else.
pub open spec fn exactly(
    references: Seq<AssetReferenceView>,
    diagnostics: Seq<DiagnosticView>,
) -> Result<ReportView, Failure> {
    Ok(ReportView { references, diagnostics })
}

/// The warning `name(args) is very dynamic`, with the words and hints for `linked`.
pub open spec fn dynamic_lint(
    w: World,
    span: Span,
    name: Seq<char>,
    linked: Seq<JsValueView>,
    failure: FailedToAnalyse,
) -> DiagnosticView {
    let (words, hints) = (w.explain_args)(linked, 10, 2);
    DiagnosticView {
        span,
        message: name + "("@ + words + ")"@ + " is very dynamic"@ + hints,
        code: DiagnosticId::Lint(failure),
    }
}

/// The warning `name(args) is not statically analyse-able`, with the words and hints for `linked`.
pub open spec fn analysis_error(
    w: World,
    span: Span,
    name: Seq<char>,
    linked: Seq<JsValueView>,
    failure: FailedToAnalyse,
) -> DiagnosticView {
    let (words, hints) = (w.explain_args)(linked, 10, 2);
    DiagnosticView {
        span,
        message: name + "("@ + words + ")"@ + " is not statically analyse-able"@ + hints,
        code: DiagnosticId::Error(failure),
    }
}

proof fn lemma_linked(w: World, args: Seq<JsValueView>, linked: Seq<JsValueView>)
    ensures
        are_linked(w, args, linked) ==> w.link_all(args) == Ok::<Seq<JsValueView>, Failure>(linked),
        one_fails(w, args) ==> w.link_all(args) == Err::<Seq<JsValueView>, Failure>(
            (w.link_failure)(args),
        ),
{
    if are_linked(w, args, linked) {
        assert(forall|i: int| 0 <= i < args.len() ==> (w.link)(#[trigger] args[i]) is Ok);
        assert(w.link_all(args)->Ok_0 =~= linked);
    }
}

/// The functions that a function may be are that function alone, whichever it is, and whatever the
/// name of a method.
pub proof fn lemma_function_is_itself(kind: WellKnownFunctionKindView)
    ensures
        known_functions(JsValueView::WellKnownFunction(kind)) == seq![kind],
{
}

/// A value that is neither a function of the platform nor alternatives is none of its functions.
pub proof fn lemma_other_value_is_no_function(func: JsValueView)
    requires
        func !is WellKnownFunction,
        func !is Alternatives,
    ensures
        known_functions(func).len() == 0,
{
}

/// The functions that alternatives may be are those of each, in their order: two lists of
/// alternatives are as their functions one after the other.
pub proof fn lemma_functions_of_alternatives(
    first: Seq<JsValueView>,
    second: Seq<JsValueView>,
    only: JsValueView,
)
    ensures
        known_functions(JsValueView::Alternatives(seq![])).len() == 0,
        known_functions(JsValueView::Alternatives(seq![only])) == known_functions(only),
        known_functions(JsValueView::Alternatives(first + second)) == known_functions(
            JsValueView::Alternatives(first),
        ) + known_functions(JsValueView::Alternatives(second)),
    decreases second.len(),
{
    reveal_with_fuel(known_functions, 4);
    reveal_with_fuel(all_known_functions, 4);
    assert(seq![only].drop_last() =~= seq![]);
    assert(seq![only].last() == only);
    assert(known_functions(JsValueView::Alternatives(seq![only])) =~= known_functions(only));
    if second.len() == 0 {
        assert(first + second =~= first);
    } else {
        assert((first + second).drop_last() =~= first + second.drop_last());
        assert((first + second).last() == second.last());
        lemma_functions_of_alternatives(first, second.drop_last(), only);
    }
    assert(known_functions(JsValueView::Alternatives(first + second)) =~= known_functions(
        JsValueView::Alternatives(first),
    ) + known_functions(JsValueView::Alternatives(second)));
}

/// A call of a value that is no function of the platform comes to nothing.
pub proof fn lemma_call_of_other_value_comes_to_nothing(
    w: World,
    source: AssetVc,
    span: Span,
    func: JsValueView,
    args: Seq<JsValueView>,
)
    requires
        func !is WellKnownFunction,
        func !is Alternatives || func == JsValueView::Alternatives(seq![]),
    ensures
        call_report(w, source, span, func, args) == exactly(seq![], seq![]),
{
}

/// What comes of alternatives is what comes of each, in their order, up to the first error.
pub proof fn lemma_alternatives_come_in_turn(
    w: World,
    source: AssetVc,
    span: Span,
    first: Seq<JsValueView>,
    last: JsValueView,
    args: Seq<JsValueView>,
)
    ensures
        ({
            let earlier = call_report(w, source, span, JsValueView::Alternatives(first), args);
            let later = call_report(w, source, span, last, args);
            let all = call_report(
                w,
                source,
                span,
                JsValueView::Alternatives(first.push(last)),
                args,
            );
            match (earlier, later) {
                (Ok(earlier), Ok(later)) => all == exactly(
                    earlier.references + later.references,
                    earlier.diagnostics + later.diagnostics,
                ),
                (Err(failure), _) => all == Err::<ReportView, Failure>(failure),
                (Ok(_), Err(failure)) => all == Err::<ReportView, Failure>(failure),
            }
        }),
{
    lemma_alternatives_are_each_reported(w, source, span, first, args);
    lemma_alternatives_are_each_reported(w, source, span, first.push(last), args);
    assert(first.push(last).drop_last() =~= first);
    reveal_with_fuel(alternatives_report, 2);
}

/// What comes of a call of one function is what comes of it as the only alternative.
pub proof fn lemma_only_alternative(
    w: World,
    source: AssetVc,
    span: Span,
    func: JsValueView,
    args: Seq<JsValueView>,
)
    ensures
        call_report(w, source, span, JsValueView::Alternatives(seq![func]), args) == call_report(
            w,
            source,
            span,
            func,
            args,
        ),
{
    lemma_functions_of_alternatives(seq![], seq![], func);
}

proof fn lemma_one_kind(
    w: World,
    source: AssetVc,
    span: Span,
    kind: WellKnownFunctionKindView,
    args: Seq<JsValueView>,
)
    ensures
        call_report(w, source, span, JsValueView::WellKnownFunction(kind), args)
            == kind_report(w, source, span, kind, args),
{
    reveal_with_fuel(kinds_report, 3);
    let report = kind_report(w, source, span, kind, args);
    assert(seq![kind].drop_first() =~= seq![]);
    lemma_in_turn(report, report, report);
}

/// `import` with one argument makes one reference, whose request is the pattern of that argument
/// as it is linked, whatever value that is. It is reported as a lint exactly where the pattern has
/// no constant parts. With any other number of arguments it is an error, and makes no reference.
pub proof fn lemma_import_call(
    w: World,
    source: AssetVc,
    span: Span,
    args: Seq<JsValueView>,
    linked: Seq<JsValueView>,
)
    requires
        are_linked(w, args, linked),
    ensures
        ({
            let func = JsValueView::WellKnownFunction(WellKnownFunctionKindView::Import);
            let failure = FailedToAnalyse::DynamicImport;
            call_report(w, source, span, func, args) == if args.len() == 1 {
                exactly(
                    seq![AssetReferenceView::Esm(source, PatternView::OfValue(linked[0]))],
                    if (w.has_constant_parts)(linked[0]) {
                        seq![]
                    } else {
                        seq![dynamic_lint(w, span, "import"@, linked, failure)]
                    },
                )
            } else {
                exactly(seq![], seq![analysis_error(w, span, "import"@, linked, failure)])
            }
        }),
{
    lemma_one_kind(w, source, span, WellKnownFunctionKindView::Import, args);
    lemma_linked(w, args, linked);
}

/// `require` with one argument makes one reference, whose request is the pattern of that argument
/// as it is linked, whatever value that is. It is reported as a lint exactly where the pattern has
/// no constant parts. With any other number of arguments it is an error, and makes no reference.
pub proof fn lemma_require_call(
    w: World,
    source: AssetVc,
    span: Span,
    args: Seq<JsValueView>,
    linked: Seq<JsValueView>,
)
    requires
        are_linked(w, args, linked),
    ensures
        ({
            let func = JsValueView::WellKnownFunction(WellKnownFunctionKindView::Require);
            let failure = FailedToAnalyse::Require;
            call_report(w, source, span, func, args) == if args.len() == 1 {
                exactly(
                    seq![AssetReferenceView::Cjs(source, PatternView::OfValue(linked[0]))],
                    if (w.has_constant_parts)(linked[0]) {
                        seq![]
                    } else {
                        seq![dynamic_lint(w, span, "require"@, linked, failure)]
                    },
                )
            } else {
                exactly(seq![], seq![analysis_error(w, span, "require"@, linked, failure)])
            }
        }),
{
    lemma_one_kind(w, source, span, WellKnownFunctionKindView::Require, args);
    lemma_linked(w, args, linked);
}

/// `require.resolve` makes the reference that `require` does with the same arguments, and its
/// warnings are under its own name.
pub proof fn lemma_require_resolve_call(
    w: World,
    source: AssetVc,
    span: Span,
    args: Seq<JsValueView>,
    linked: Seq<JsValueView>,
)
    requires
        are_linked(w, args, linked),
    ensures
        ({
            let func = JsValueView::WellKnownFunction(WellKnownFunctionKindView::RequireResolve);
            let failure = FailedToAnalyse::RequireResolve;
            call_report(w, source, span, func, args) == if args.len() == 1 {
                exactly(
                    seq![AssetReferenceView::Cjs(source, PatternView::OfValue(linked[0]))],
                    if (w.has_constant_parts)(linked[0]) {
                        seq![]
                    } else {
                        seq![dynamic_lint(w, span, "require.resolve"@, linked, failure)]
                    },
                )
            } else {
                exactly(seq![], seq![analysis_error(w, span, "require.resolve"@, linked, failure)])
            }
        }),
{
    lemma_one_kind(w, source, span, WellKnownFunctionKindView::RequireResolve, args);
    lemma_linked(w, args, linked);
}

/// A read of the file system with at least one argument makes one reference, to the files that
/// its first argument names as it is linked, whatever the method is called. Without an argument it
/// is an error, and makes no reference.
pub proof fn lemma_fs_read_call(
    w: World,
    source: AssetVc,
    span: Span,
    name: Seq<char>,
    args: Seq<JsValueView>,
    linked: Seq<JsValueView>,
)
    requires
        are_linked(w, args, linked),
    ensures
        ({
            let func = JsValueView::WellKnownFunction(
                WellKnownFunctionKindView::FsReadMethod(name),
            );
            let failure = FailedToAnalyse::FsMethod;
            call_report(w, source, span, func, args) == if args.len() >= 1 {
                exactly(
                    seq![AssetReferenceView::Source(source, PatternView::OfValue(linked[0]))],
                    if (w.has_constant_parts)(linked[0]) {
                        seq![]
                    } else {
                        seq![dynamic_lint(w, span, "fs."@ + name, linked, failure)]
                    },
                )
            } else {
                exactly(seq![], seq![analysis_error(w, span, "fs."@ + name, linked, failure)])
            }
        }),
{
    lemma_one_kind(w, source, span, WellKnownFunctionKindView::FsReadMethod(name), args);
    lemma_linked(w, args, linked);
}

/// `path.join` makes one reference, to the files that the joined path names: the path is what
/// linking makes of a call of `path.join` with all the arguments of the analysed one. The arguments
/// themselves matter only to the lint, which is there exactly where the path has no constant parts.
pub proof fn lemma_path_join_call(
    w: World,
    source: AssetVc,
    span: Span,
    args: Seq<JsValueView>,
    linked: Seq<JsValueView>,
)
    ensures
        ({
            let func = JsValueView::WellKnownFunction(WellKnownFunctionKindView::PathJoin);
            let failure = FailedToAnalyse::PathMethod;
            let report = call_report(w, source, span, func, args);
            match (w.link)(JsValueView::Call(Box::new(func), args)) {
                Ok(path) => {
                    let file = AssetReferenceView::Source(source, PatternView::OfValue(path));
                    let constant = (w.has_constant_parts)(path);
                    &&& constant ==> report == exactly(seq![file], seq![])
                    &&& !constant && are_linked(w, args, linked) ==> report == exactly(
                        seq![file],
                        seq![dynamic_lint(w, span, "path.join"@, linked, failure)],
                    )
                    &&& !constant && one_fails(w, args) ==> report == Err::<ReportView, Failure>(
                        (w.link_failure)(args),
                    )
                },
                Err(failure) => report == Err::<ReportView, Failure>(failure),
            }
        }),
{
    lemma_one_kind(w, source, span, WellKnownFunctionKindView::PathJoin, args);
    lemma_linked(w, args, linked);
}

/// A spawned process with at least one argument makes a reference to the files that its first
/// argument names. Where that may be `node`, and there is a second argument, a reference to the
/// module that is the first element of the second argument stands before it. There is one lint at
/// most, exactly where one of the two has no constant parts. Without an argument it is an error,
/// and makes no reference.
pub proof fn lemma_spawn_call(
    w: World,
    source: AssetVc,
    span: Span,
    name: Seq<char>,
    args: Seq<JsValueView>,
    linked: Seq<JsValueView>,
)
    requires
        are_linked(w, args, linked),
    ensures
        ({
            let func = JsValueView::WellKnownFunction(
                WellKnownFunctionKindView::ChildProcessSpawnMethod(name),
            );
            let failure = FailedToAnalyse::ChildProcessSpawn;
            let report = call_report(w, source, span, func, args);
            let callee = "child_process."@ + name;
            let lint = seq![dynamic_lint(w, span, callee, linked, failure)];
            let program = AssetReferenceView::Source(source, PatternView::OfValue(linked[0]));
            if args.len() == 0 {
                report == exactly(seq![], seq![analysis_error(w, span, callee, linked, failure)])
            } else if args.len() >= 2 && (w.is_match)(linked[0], "node"@) {
                let zero = JsValueView::Constant(ConstantValueView::Num(0));
                let first = JsValueView::Member(Box::new(linked[1]), Box::new(zero));
                match (w.link)(first) {
                    Ok(entry) => report == exactly(
                        seq![
                            AssetReferenceView::Cjs(source, PatternView::OfValue(entry)),
                            program,
                        ],
                        if (w.has_constant_parts)(entry) && (w.has_constant_parts)(linked[0]) {
                            seq![]
                        } else {
                            lint
                        },
                    ),
                    Err(failure) => report == Err::<ReportView, Failure>(failure),
                }
            } else {
                report == exactly(
                    seq![program],
                    if (w.has_constant_parts)(linked[0]) {
                        seq![]
                    } else {
                        lint
                    },
                )
            }
        }),
{
    lemma_one_kind(
        w,
        source,
        span,
        WellKnownFunctionKindView::ChildProcessSpawnMethod(name),
        args,
    );
    lemma_linked(w, args, linked);
    if args.len() >= 2 && (w.is_match)(linked[0], "node"@) {
        let zero = JsValueView::Constant(ConstantValueView::Num(0));
        let first = JsValueView::Member(Box::new(linked[1]), Box::new(zero));
        if let Ok(entry) = (w.link)(first) {
            let module = AssetReferenceView::Cjs(source, PatternView::OfValue(entry));
            let program = AssetReferenceView::Source(source, PatternView::OfValue(linked[0]));
            assert(seq![module] + seq![program] =~= seq![module, program]);
        }
    }
}

/// A forked process with at least one argument makes one reference, to the module that its first
/// argument names as it is linked. The other arguments matter only to the lint, which is there
/// exactly where the first has no constant parts. Without an argument it is an error, and makes no
/// reference.
pub proof fn lemma_fork_call(
    w: World,
    source: AssetVc,
    span: Span,
    args: Seq<JsValueView>,
    linked: Seq<JsValueView>,
)
    ensures
        ({
            let func = JsValueView::WellKnownFunction(WellKnownFunctionKindView::ChildProcessFork);
            let failure = FailedToAnalyse::ChildProcessSpawn;
            let report = call_report(w, source, span, func, args);
            let name = "child_process.fork"@;
            if args.len() == 0 {
                report == exactly(seq![], seq![analysis_error(w, span, name, seq![], failure)])
            } else {
                match (w.link)(args[0]) {
                    Ok(entry) => {
                        let module = AssetReferenceView::Cjs(source, PatternView::OfValue(entry));
                        let constant = (w.has_constant_parts)(entry);
                        &&& constant ==> report == exactly(seq![module], seq![])
                        &&& !constant && are_linked(w, args, linked) ==> report == exactly(
                            seq![module],
                            seq![dynamic_lint(w, span, name, linked, failure)],
                        )
                        &&& !constant && one_fails(w, args) ==> report == Err::<
                            ReportView,
                            Failure,
                        >((w.link_failure)(args))
                    },
                    Err(failure) => report == Err::<ReportView, Failure>(failure),
                }
            }
        }),
{
    lemma_one_kind(w, source, span, WellKnownFunctionKindView::ChildProcessFork, args);
    lemma_linked(w, args, linked);
    if args.len() == 0 {
        assert(args =~= seq![]);
        lemma_linked(w, args, seq![]);
    }
}

/// A call of any function but `path.join` and `fork` needs all its arguments: where one of them
/// cannot be linked, the error is all that comes of it.
pub proof fn lemma_call_needs_its_arguments(
    w: World,
    source: AssetVc,
    span: Span,
    kind: WellKnownFunctionKindView,
    args: Seq<JsValueView>,
)
    requires
        kind !is PathJoin,
        kind !is ChildProcessFork,
        one_fails(w, args),
    ensures
        call_report(w, source, span, JsValueView::WellKnownFunction(kind), args) == Err::<
            ReportView,
            Failure,
        >((w.link_failure)(args)),
{
    lemma_one_kind(w, source, span, kind, args);
    lemma_linked(w, args, args);
}

/// Two calls that make the same reference have the same request: what their first arguments are
/// linked to is the same.
pub proof fn lemma_different_arguments_make_different_requests(
    w: World,
    source: AssetVc,
    span: Span,
    kind: WellKnownFunctionKindView,
    one: JsValueView,
    other: JsValueView,
)
    requires
        kind !is PathJoin,
        (w.link)(one) is Ok,
        (w.link)(other) is Ok,
    ensures
        ({
            let func = JsValueView::WellKnownFunction(kind);
            let first = call_report(w, source, span, func, seq![one]);
            let second = call_report(w, source, span, func, seq![other]);
            &&& first is Ok && second is Ok
            &&& first->Ok_0.references.len() == 1
            &&& first->Ok_0.references == second->Ok_0.references <==> (w.link)(one) == (w.link)(
                other,
            )
        }),
{
    lemma_single_argument(w, source, span, kind, one);
    lemma_single_argument(w, source, span, kind, other);
}

/// The request or the path of a reference that a call makes.
pub open spec fn pattern_of(reference: AssetReferenceView) -> Option<PatternView> {
    match reference {
        AssetReferenceView::Esm(_, pattern) => Some(pattern),
        AssetReferenceView::Cjs(_, pattern) => Some(pattern),
        AssetReferenceView::Source(_, pattern) => Some(pattern),
        _ => None,
    }
}

/// A call of any function but `path.join` with a single argument makes a single reference, and its
/// pattern is that of the argument as it is linked.
pub proof fn lemma_single_argument(
    w: World,
    source: AssetVc,
    span: Span,
    kind: WellKnownFunctionKindView,
    arg: JsValueView,
)
    requires
        kind !is PathJoin,
        (w.link)(arg) is Ok,
    ensures
        call_report(w, source, span, JsValueView::WellKnownFunction(kind), seq![arg]) matches Ok(
            report,
        ) && report.references.len() == 1 && pattern_of(report.references[0]) == Some(
            PatternView::OfValue((w.link)(arg)->Ok_0),
        ) && (report.references[0] is Esm <==> kind is Import) && (report.references[0] is Source
            <==> kind is FsReadMethod || kind is ChildProcessSpawnMethod),
{
    let args = seq![arg];
    let linked = seq![(w.link)(arg)->Ok_0];
    assert(are_linked(w, args, linked));
    match kind {
        WellKnownFunctionKindView::Import => lemma_import_call(w, source, span, args, linked),
        WellKnownFunctionKindView::Require => lemma_require_call(w, source, span, args, linked),
        WellKnownFunctionKindView::RequireResolve => lemma_require_resolve_call(
            w,
            source,
            span,
            args,
            linked,
        ),
        WellKnownFunctionKindView::FsReadMethod(name) => lemma_fs_read_call(
            w,
            source,
            span,
            name,
            args,
            linked,
        ),
        WellKnownFunctionKindView::ChildProcessSpawnMethod(name) => lemma_spawn_call(
            w,
            source,
            span,
            name,
            args,
            linked,
        ),
        WellKnownFunctionKindView::ChildProcessFork => lemma_fork_call(
            w,
            source,
            span,
            args,
            linked,
        ),
        WellKnownFunctionKindView::PathJoin => {},
    }
}

/// A call is analysed by what its function is linked to, with its own arguments and at its own
/// place. One that cannot be linked ends in the error.
pub proof fn lemma_call_effect(
    w: World,
    source: AssetVc,
    ignored: Option<Span>,
    func: JsValueView,
    args: Seq<JsValueView>,
    span: Span,
)
    requires
        ignored != Some(span),
    ensures
        ({
            let report = effect_report(w, source, ignored, EffectView::Call { func, args, span });
            match (w.link)(func) {
                Ok(linked) => report == call_report(w, source, span, linked, args),
                Err(failure) => report == Err::<ReportView, Failure>(failure),
            }
        }),
{
}

/// A call of a method is analysed by what the property of the linked object is linked to, with its
/// own arguments and at its own place. An object or a property that cannot be linked ends in the
/// error.
pub proof fn lemma_member_call_effect(
    w: World,
    source: AssetVc,
    ignored: Option<Span>,
    obj: JsValueView,
    prop: JsValueView,
    args: Seq<JsValueView>,
    span: Span,
)
    requires
        ignored != Some(span),
    ensures
        ({
            let effect = EffectView::MemberCall { obj, prop, args, span };
            let report = effect_report(w, source, ignored, effect);
            match (w.link)(obj) {
                Ok(obj) => match (w.link)(JsValueView::Member(Box::new(obj), Box::new(prop))) {
                    Ok(linked) => report == call_report(w, source, span, linked, args),
                    Err(failure) => report == Err::<ReportView, Failure>(failure),
                },
                Err(failure) => report == Err::<ReportView, Failure>(failure),
            }
        }),
{
}

/// A call at the ignored place comes to nothing, whatever it calls.
pub proof fn lemma_ignored_effect(
    w: World,
    source: AssetVc,
    func: JsValueView,
    obj: JsValueView,
    prop: JsValueView,
    args: Seq<JsValueView>,
    span: Span,
)
    ensures
        effect_report(w, source, Some(span), EffectView::Call { func, args, span }) == exactly(
            seq![],
            seq![],
        ),
        effect_report(w, source, Some(span), EffectView::MemberCall { obj, prop, args, span })
            == exactly(seq![], seq![]),
{
}

/// The calls of a module come in turn, each with all that it comes to, up to the first error.
pub proof fn lemma_effects_come_in_turn(
    w: World,
    source: AssetVc,
    ignored: Option<Span>,
    first: EffectView,
    rest: Seq<EffectView>,
)
    ensures
        effects_report(w, source, ignored, seq![]) == exactly(seq![], seq![]),
        ({
            let earlier = effect_report(w, source, ignored, first);
            let later = effects_report(w, source, ignored, rest);
            let all = effects_report(w, source, ignored, seq![first] + rest);
            match (earlier, later) {
                (Ok(earlier), Ok(later)) => all == exactly(
                    earlier.references + later.references,
                    earlier.diagnostics + later.diagnostics,
                ),
                (Err(failure), _) => all == Err::<ReportView, Failure>(failure),
                (Ok(_), Err(failure)) => all == Err::<ReportView, Failure>(failure),
            }
        }),
{
    assert((seq![first] + rest).drop_first() =~= rest);
    assert((seq![first] + rest)[0] == first);
}

} // verus!
