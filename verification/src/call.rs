//! The analysis of one call of a function of the platform.
use crate::ast::Span;
use crate::diagnostic::{
    Diagnostic, DiagnosticId, DiagnosticView, FailedToAnalyse, format_message, message,
};
use crate::exchange::{Action, ActionView, Reply, ReplyView, World};
use crate::reference::{
    AssetReferenceVc, AssetReferenceView, CjsAssetReferenceVc, EsmAssetReferenceVc,
    SourceAssetReferenceVc,
};
use crate::text::joined;
use crate::value::{
    ConstantValue, ConstantValueView, JsValue, JsValueView, WellKnownFunctionKind,
    WellKnownFunctionKindView, clone_values, lemma_alternatives_view, lemma_call_view,
};
use crate::vc::{AssetVc, Failure, Pattern, PatternVc, PatternView, RequestVc};
use std::collections::VecDeque;
use vstd::prelude::*;

verus! {

/// The levels of an argument that are put into words.
pub const EXPLAIN_DEPTH: usize = 10;

/// The levels of an unknown value that are put into words.
pub const EXPLAIN_UNKNOWN_DEPTH: usize = 2;

/// The name by which messages call a function.
pub open spec fn callee_name(kind: WellKnownFunctionKindView) -> Seq<char> {
    match kind {
        WellKnownFunctionKindView::Import => "import"@,
        WellKnownFunctionKindView::Require => "require"@,
        WellKnownFunctionKindView::RequireResolve => "require.resolve"@,
        WellKnownFunctionKindView::FsReadMethod(name) => "fs."@ + name,
        WellKnownFunctionKindView::PathJoin => "path.join"@,
        WellKnownFunctionKindView::ChildProcessSpawnMethod(name) => "child_process."@ + name,
        WellKnownFunctionKindView::ChildProcessFork => "child_process.fork"@,
    }
}

/// What is not analysed where a call of a function is not.
pub open spec fn failure_of(kind: WellKnownFunctionKindView) -> FailedToAnalyse {
    match kind {
        WellKnownFunctionKindView::Import => FailedToAnalyse::DynamicImport,
        WellKnownFunctionKindView::Require => FailedToAnalyse::Require,
        WellKnownFunctionKindView::RequireResolve => FailedToAnalyse::RequireResolve,
        WellKnownFunctionKindView::FsReadMethod(_) => FailedToAnalyse::FsMethod,
        WellKnownFunctionKindView::PathJoin => FailedToAnalyse::PathMethod,
        WellKnownFunctionKindView::ChildProcessSpawnMethod(
            _,
        ) => FailedToAnalyse::ChildProcessSpawn,
        WellKnownFunctionKindView::ChildProcessFork => FailedToAnalyse::ChildProcessSpawn,
    }
}

/// The warning that a call is followed with little known of its request.
pub open spec fn very_dynamic(
    span: Span,
    kind: WellKnownFunctionKindView,
    args: Seq<char>,
    hints: Seq<char>,
) -> DiagnosticView {
    DiagnosticView {
        span,
        message: message(callee_name(kind), args, " is very dynamic"@, hints),
        code: DiagnosticId::Lint(failure_of(kind)),
    }
}

/// The warning that a call is not followed.
pub open spec fn not_analysable(
    span: Span,
    kind: WellKnownFunctionKindView,
    args: Seq<char>,
    hints: Seq<char>,
) -> DiagnosticView {
    DiagnosticView {
        span,
        message: message(callee_name(kind), args, " is not statically analyse-able"@, hints),
        code: DiagnosticId::Error(failure_of(kind)),
    }
}

/// The reference to what an `import` may name by `value`.
pub open spec fn esm_of(source: AssetVc, value: JsValueView) -> AssetReferenceView {
    AssetReferenceView::Esm(source, PatternView::OfValue(value))
}

/// The reference to what a `require` may name by `value`.
pub open spec fn cjs_of(source: AssetVc, value: JsValueView) -> AssetReferenceView {
    AssetReferenceView::Cjs(source, PatternView::OfValue(value))
}

/// The reference to the files that `value` may name.
pub open spec fn file_of(source: AssetVc, value: JsValueView) -> AssetReferenceView {
    AssetReferenceView::Source(source, PatternView::OfValue(value))
}

/// References and diagnostics, each in the order in which they come up.
pub struct ReportView {
    pub references: Seq<AssetReferenceView>,
    pub diagnostics: Seq<DiagnosticView>,
}

impl ReportView {
    /// The report with nothing in it.
    pub open spec fn empty() -> ReportView {
        ReportView { references: seq![], diagnostics: seq![] }
    }

    /// This report, then `next`.
    pub open spec fn then_report(self, next: ReportView) -> ReportView {
        ReportView {
            references: self.references + next.references,
            diagnostics: self.diagnostics + next.diagnostics,
        }
    }
}

/// Two reports, one after the other. The first error is all that comes of them.
pub open spec fn in_turn(
    first: Result<ReportView, Failure>,
    second: Result<ReportView, Failure>,
) -> Result<ReportView, Failure> {
    match (first, second) {
        (Ok(first), Ok(second)) => Ok(first.then_report(second)),
        (Ok(_), Err(failure)) => Err(failure),
        (Err(failure), _) => Err(failure),
    }
}

/// The question for the words of `args`.
pub open spec fn explain(args: Seq<JsValueView>) -> ActionView {
    ActionView::ExplainArgs {
        args,
        depth: EXPLAIN_DEPTH as nat,
        unknown_depth: EXPLAIN_UNKNOWN_DEPTH as nat,
    }
}

/// The words and hints for `args` in a world.
pub open spec fn explained(w: World, args: Seq<JsValueView>) -> (Seq<char>, Seq<char>) {
    (w.explain_args)(args, EXPLAIN_DEPTH as nat, EXPLAIN_UNKNOWN_DEPTH as nat)
}

/// The report on a call that leads to `reference`, with a warning where `dynamic` is set.
pub open spec fn followed(
    w: World,
    span: Span,
    kind: WellKnownFunctionKindView,
    linked: Seq<JsValueView>,
    dynamic: bool,
    reference: AssetReferenceView,
) -> ReportView {
    let (args, hints) = explained(w, linked);
    ReportView {
        references: seq![reference],
        diagnostics: if dynamic {
            seq![very_dynamic(span, kind, args, hints)]
        } else {
            seq![]
        },
    }
}

/// The report on a call that leads nowhere.
pub open spec fn not_followed(
    w: World,
    span: Span,
    kind: WellKnownFunctionKindView,
    linked: Seq<JsValueView>,
) -> ReportView {
    let (args, hints) = explained(w, linked);
    ReportView {
        references: seq![],
        diagnostics: seq![not_analysable(span, kind, args, hints)],
    }
}

/// The value `path.join(..args)`.
pub open spec fn joined_path(args: Seq<JsValueView>) -> JsValueView {
    JsValueView::Call(
        Box::new(JsValueView::WellKnownFunction(WellKnownFunctionKindView::PathJoin)),
        args,
    )
}

/// The value `args[0]`, the first of the arguments that a spawned process is given.
pub open spec fn first_element(args: JsValueView) -> JsValueView {
    JsValueView::Member(
        Box::new(args),
        Box::new(JsValueView::Constant(ConstantValueView::Num(0))),
    )
}

/// The report on a call that leads to `reference`, which `value` names. The arguments are linked
/// only where there is a warning that needs them.
pub open spec fn followed_by_value(
    w: World,
    span: Span,
    kind: WellKnownFunctionKindView,
    args: Seq<JsValueView>,
    value: JsValueView,
    reference: AssetReferenceView,
) -> Result<ReportView, Failure> {
    if (w.has_constant_parts)(value) {
        Ok(ReportView { references: seq![reference], diagnostics: seq![] })
    } else {
        match w.link_all(args) {
            Ok(linked) => Ok(followed(w, span, kind, linked, true, reference)),
            Err(failure) => Err(failure),
        }
    }
}

/// The report on a call of `kind`, neither `path.join` nor `fork`, with the arguments `linked`.
///
/// `import`, `require` and `require.resolve` are followed where they have exactly one argument. A
/// read of the file system and a spawned process are followed where they have at least one. A
/// spawned `node` leads both to the program that it is and to the module that it is told to run.
pub open spec fn linked_report(
    w: World,
    source: AssetVc,
    span: Span,
    kind: WellKnownFunctionKindView,
    linked: Seq<JsValueView>,
) -> Result<ReportView, Failure> {
    let constant = w.has_constant_parts;
    match kind {
        WellKnownFunctionKindView::Import => Ok(
            if linked.len() == 1 {
                followed(w, span, kind, linked, !constant(linked[0]), esm_of(source, linked[0]))
            } else {
                not_followed(w, span, kind, linked)
            },
        ),
        WellKnownFunctionKindView::Require | WellKnownFunctionKindView::RequireResolve => Ok(
            if linked.len() == 1 {
                followed(w, span, kind, linked, !constant(linked[0]), cjs_of(source, linked[0]))
            } else {
                not_followed(w, span, kind, linked)
            },
        ),
        WellKnownFunctionKindView::ChildProcessSpawnMethod(_) if linked.len() >= 2 && (
        w.is_match)(linked[0], "node"@) => match (w.link)(first_element(linked[1])) {
            Ok(entry) => {
                let dynamic = !constant(entry) || !constant(linked[0]);
                let program = followed(w, span, kind, linked, dynamic, file_of(source, linked[0]));
                Ok(
                    ReportView {
                        references: seq![cjs_of(source, entry)] + program.references,
                        ..program
                    },
                )
            },
            Err(failure) => Err(failure),
        },
        _ => Ok(
            if linked.len() >= 1 {
                followed(w, span, kind, linked, !constant(linked[0]), file_of(source, linked[0]))
            } else {
                not_followed(w, span, kind, linked)
            },
        ),
    }
}

/// The report on a call of `kind` with `args`, or the first error that linking ends with.
///
/// `path.join` is always followed, by the path that it joins, and a forked process where there is
/// an argument, by the first. For the others see [`linked_report`].
pub open spec fn kind_report(
    w: World,
    source: AssetVc,
    span: Span,
    kind: WellKnownFunctionKindView,
    args: Seq<JsValueView>,
) -> Result<ReportView, Failure> {
    match kind {
        WellKnownFunctionKindView::PathJoin => match (w.link)(joined_path(args)) {
            Ok(path) => followed_by_value(w, span, kind, args, path, file_of(source, path)),
            Err(failure) => Err(failure),
        },
        WellKnownFunctionKindView::ChildProcessFork if args.len() >= 1 => match (w.link)(args[0]) {
            Ok(entry) => followed_by_value(w, span, kind, args, entry, cjs_of(source, entry)),
            Err(failure) => Err(failure),
        },
        _ => match w.link_all(args) {
            Ok(linked) => if kind is ChildProcessFork {
                Ok(not_followed(w, span, kind, linked))
            } else {
                linked_report(w, source, span, kind, linked)
            },
            Err(failure) => Err(failure),
        },
    }
}

/// The functions that `func` may be, in the order in which it lists them.
pub open spec fn known_functions(func: JsValueView) -> Seq<WellKnownFunctionKindView>
    decreases func,
{
    match func {
        JsValueView::Alternatives(alts) => all_known_functions(alts),
        JsValueView::WellKnownFunction(kind) => seq![kind],
        _ => seq![],
    }
}

/// The functions that `funcs` may be, those of each in turn.
pub open spec fn all_known_functions(funcs: Seq<JsValueView>) -> Seq<WellKnownFunctionKindView>
    decreases funcs,
{
    if funcs.len() == 0 {
        seq![]
    } else {
        all_known_functions(funcs.drop_last()) + known_functions(funcs.last())
    }
}

/// The reports on a call of each of `kinds` with `args`, one after the other.
pub open spec fn kinds_report(
    w: World,
    source: AssetVc,
    span: Span,
    kinds: Seq<WellKnownFunctionKindView>,
    args: Seq<JsValueView>,
) -> Result<ReportView, Failure>
    decreases kinds.len(),
{
    if kinds.len() == 0 {
        Ok(ReportView::empty())
    } else {
        in_turn(
            kind_report(w, source, span, kinds[0], args),
            kinds_report(w, source, span, kinds.drop_first(), args),
        )
    }
}

/// The report on a call of `func`, which is linked already, with `args`.
pub open spec fn call_report(
    w: World,
    source: AssetVc,
    span: Span,
    func: JsValueView,
    args: Seq<JsValueView>,
) -> Result<ReportView, Failure> {
    kinds_report(w, source, span, known_functions(func), args)
}

/// What the analysis of a call of one function waits for.
#[derive(Debug, PartialEq, Eq, Hash)]
pub enum Wait {
    /// The linked arguments.
    Args,
    /// Whether a spawned program is `node`.
    Command { args: Vec<JsValue>, program: JsValue },
    /// The module that a spawned `node` is told to run, by the first of `node_args`.
    Entry { args: Vec<JsValue>, program: JsValue, node_args: JsValue },
    /// Whether that module has constant parts.
    EntryParts { args: Vec<JsValue>, program: JsValue, entry: JsValue },
    /// Whether `value` has constant parts, with the arguments linked.
    Parts { args: Vec<JsValue>, value: JsValue, reference: AssetReferenceVc },
    /// The linked result of `path.join`.
    Joined,
    /// The linked module of a forked process.
    Forked { entry: JsValue },
    /// Whether `value` has constant parts, with the arguments not linked.
    LooseParts { value: JsValue, reference: AssetReferenceVc },
    /// The linked arguments, which are wanted for a message only.
    MessageArgs { pending: Option<AssetReferenceVc> },
    /// The words for a message: a lint where there is a reference to add, else an error.
    Message { args: Vec<JsValue>, pending: Option<AssetReferenceVc> },
}

/// The mathematical value of a [`Wait`].
pub enum WaitView {
    Args,
    Command { args: Seq<JsValueView>, program: JsValueView },
    Entry { args: Seq<JsValueView>, program: JsValueView, node_args: JsValueView },
    EntryParts { args: Seq<JsValueView>, program: JsValueView, entry: JsValueView },
    Parts { args: Seq<JsValueView>, value: JsValueView, reference: AssetReferenceView },
    Joined,
    Forked { entry: JsValueView },
    LooseParts { value: JsValueView, reference: AssetReferenceView },
    MessageArgs { pending: Option<AssetReferenceView> },
    Message { args: Seq<JsValueView>, pending: Option<AssetReferenceView> },
}

impl DeepView for Wait {
    type V = WaitView;

    open spec fn deep_view(&self) -> WaitView {
        match self {
            Wait::Args => WaitView::Args,
            Wait::Command { args, program } => WaitView::Command {
                args: args.deep_view(),
                program: program.deep_view(),
            },
            Wait::Entry { args, program, node_args } => WaitView::Entry {
                args: args.deep_view(),
                program: program.deep_view(),
                node_args: node_args.deep_view(),
            },
            Wait::EntryParts { args, program, entry } => WaitView::EntryParts {
                args: args.deep_view(),
                program: program.deep_view(),
                entry: entry.deep_view(),
            },
            Wait::Parts { args, value, reference } => WaitView::Parts {
                args: args.deep_view(),
                value: value.deep_view(),
                reference: reference.deep_view(),
            },
            Wait::Joined => WaitView::Joined,
            Wait::Forked { entry } => WaitView::Forked { entry: entry.deep_view() },
            Wait::LooseParts { value, reference } => WaitView::LooseParts {
                value: value.deep_view(),
                reference: reference.deep_view(),
            },
            Wait::MessageArgs { pending } => WaitView::MessageArgs {
                pending: pending.deep_view(),
            },
            Wait::Message { args, pending } => WaitView::Message {
                args: args.deep_view(),
                pending: pending.deep_view(),
            },
        }
    }
}

/// What the analysis of a call of `kind` waits for first.
pub open spec fn first_wait(kind: WellKnownFunctionKindView, args: Seq<JsValueView>) -> WaitView {
    match kind {
        WellKnownFunctionKindView::PathJoin => WaitView::Joined,
        WellKnownFunctionKindView::ChildProcessFork => if args.len() >= 1 {
            WaitView::Forked { entry: args[0] }
        } else {
            WaitView::MessageArgs { pending: None }
        },
        _ => WaitView::Args,
    }
}

/// Whether a call of `kind`, neither `path.join` nor `fork`, is followed with so many arguments.
pub open spec fn takes(kind: WellKnownFunctionKindView, count: nat) -> bool {
    match kind {
        WellKnownFunctionKindView::Import
        | WellKnownFunctionKindView::Require
        | WellKnownFunctionKindView::RequireResolve => count == 1,
        _ => count >= 1,
    }
}

/// The reference that a call of `kind`, neither `path.join` nor `fork`, makes by its first
/// argument.
pub open spec fn reference_of(
    source: AssetVc,
    kind: WellKnownFunctionKindView,
    value: JsValueView,
) -> AssetReferenceView {
    match kind {
        WellKnownFunctionKindView::Import => esm_of(source, value),
        WellKnownFunctionKindView::Require
        | WellKnownFunctionKindView::RequireResolve => cjs_of(source, value),
        _ => file_of(source, value),
    }
}

/// The question that a wait is for.
pub open spec fn wait_action(args: Seq<JsValueView>, wait: WaitView) -> ActionView {
    match wait {
        WaitView::Args => ActionView::LinkAll(args),
        WaitView::Command { program, .. } => ActionView::IsMatch { value: program, text: "node"@ },
        WaitView::Entry { node_args, .. } => ActionView::Link(first_element(node_args)),
        WaitView::EntryParts { entry, .. } => ActionView::HasConstantParts(entry),
        WaitView::Parts { value, .. } => ActionView::HasConstantParts(value),
        WaitView::Joined => ActionView::Link(joined_path(args)),
        WaitView::Forked { entry } => ActionView::Link(entry),
        WaitView::LooseParts { value, .. } => ActionView::HasConstantParts(value),
        WaitView::MessageArgs { .. } => ActionView::LinkAll(args),
        WaitView::Message { args, .. } => explain(args),
    }
}

/// What comes of a reply: a report, and what is waited for next, if anything is.
pub struct AdvanceView {
    pub report: ReportView,
    pub wait: Option<WaitView>,
}

/// Nothing is added, and `wait` comes next.
pub open spec fn waits(wait: WaitView) -> AdvanceView {
    AdvanceView { report: ReportView::empty(), wait: Some(wait) }
}

/// A reference is added, and `wait` comes next.
pub open spec fn adds(reference: AssetReferenceView, wait: Option<WaitView>) -> AdvanceView {
    AdvanceView { report: ReportView { references: seq![reference], diagnostics: seq![] }, wait }
}

/// What the analysis of a call of `kind`, neither `path.join` nor `fork`, waits for once its
/// arguments are linked.
pub open spec fn args_wait(
    source: AssetVc,
    kind: WellKnownFunctionKindView,
    args: Seq<JsValueView>,
) -> WaitView {
    if !takes(kind, args.len()) {
        WaitView::Message { args, pending: None }
    } else if kind is ChildProcessSpawnMethod {
        WaitView::Command { args, program: args[0] }
    } else {
        WaitView::Parts {
            args,
            value: args[0],
            reference: reference_of(source, kind, args[0]),
        }
    }
}

/// What comes of `reply` in the analysis of a call of `kind`. A reply that does not answer the
/// question changes nothing.
pub open spec fn advanced(
    source: AssetVc,
    span: Span,
    kind: WellKnownFunctionKindView,
    wait: WaitView,
    reply: ReplyView,
) -> AdvanceView {
    match (wait, reply) {
        (WaitView::Args, ReplyView::LinkedAll(args)) => waits(args_wait(source, kind, args)),
        (WaitView::Command { args, program }, ReplyView::IsMatch(node)) => if node && args.len()
            >= 2 {
            waits(WaitView::Entry { args, program, node_args: args[1] })
        } else {
            waits(WaitView::Parts { args, value: program, reference: file_of(source, program) })
        },
        (WaitView::Entry { args, program, .. }, ReplyView::Linked(entry)) => waits(
            WaitView::EntryParts { args, program, entry },
        ),
        (
            WaitView::EntryParts { args, program, entry },
            ReplyView::HasConstantParts(constant),
        ) => adds(
            cjs_of(source, entry),
            if constant {
                Some(
                    WaitView::Parts { args, value: program, reference: file_of(source, program) },
                )
            } else {
                Some(WaitView::Message { args, pending: Some(file_of(source, program)) })
            },
        ),
        (
            WaitView::Parts { args, reference, .. },
            ReplyView::HasConstantParts(constant),
        ) => if constant {
            adds(reference, None)
        } else {
            waits(WaitView::Message { args, pending: Some(reference) })
        },
        (WaitView::Joined, ReplyView::Linked(path)) => waits(
            WaitView::LooseParts { value: path, reference: file_of(source, path) },
        ),
        (WaitView::Forked { .. }, ReplyView::Linked(entry)) => waits(
            WaitView::LooseParts { value: entry, reference: cjs_of(source, entry) },
        ),
        (
            WaitView::LooseParts { reference, .. },
            ReplyView::HasConstantParts(constant),
        ) => if constant {
            adds(reference, None)
        } else {
            waits(WaitView::MessageArgs { pending: Some(reference) })
        },
        (WaitView::MessageArgs { pending }, ReplyView::LinkedAll(args)) => waits(
            WaitView::Message { args, pending },
        ),
        (WaitView::Message { pending, .. }, ReplyView::Explained { args, hints }) => AdvanceView {
            report: match pending {
                Some(reference) => ReportView {
                    references: seq![reference],
                    diagnostics: seq![very_dynamic(span, kind, args, hints)],
                },
                None => ReportView {
                    references: seq![],
                    diagnostics: seq![not_analysable(span, kind, args, hints)],
                },
            },
            wait: None,
        },
        (wait, _) => waits(wait),
    }
}

/// The name by which messages call a function.
fn name_of(kind: &WellKnownFunctionKind) -> (res: String)
    ensures
        res@ == callee_name(kind.deep_view()),
{
    match kind {
        WellKnownFunctionKind::Import => "import".to_owned(),
        WellKnownFunctionKind::Require => "require".to_owned(),
        WellKnownFunctionKind::RequireResolve => "require.resolve".to_owned(),
        WellKnownFunctionKind::FsReadMethod(name) => joined("fs.", name.as_str()),
        WellKnownFunctionKind::PathJoin => "path.join".to_owned(),
        WellKnownFunctionKind::ChildProcessSpawnMethod(name) => joined(
            "child_process.",
            name.as_str(),
        ),
        WellKnownFunctionKind::ChildProcessFork => "child_process.fork".to_owned(),
    }
}

/// What is not analysed where a call of a function is not.
fn failure(kind: &WellKnownFunctionKind) -> (res: FailedToAnalyse)
    ensures
        res == failure_of(kind.deep_view()),
{
    match kind {
        WellKnownFunctionKind::Import => FailedToAnalyse::DynamicImport,
        WellKnownFunctionKind::Require => FailedToAnalyse::Require,
        WellKnownFunctionKind::RequireResolve => FailedToAnalyse::RequireResolve,
        WellKnownFunctionKind::FsReadMethod(_) => FailedToAnalyse::FsMethod,
        WellKnownFunctionKind::PathJoin => FailedToAnalyse::PathMethod,
        WellKnownFunctionKind::ChildProcessSpawnMethod(_) => FailedToAnalyse::ChildProcessSpawn,
        WellKnownFunctionKind::ChildProcessFork => FailedToAnalyse::ChildProcessSpawn,
    }
}

/// Adds the functions that `func` may be to `kinds`, in the order in which it lists them.
pub fn collect_known_functions(func: &JsValue, kinds: &mut VecDeque<WellKnownFunctionKind>)
    ensures
        final(kinds).deep_view() == old(kinds).deep_view() + known_functions(func.deep_view()),
    decreases func,
{
    let ghost before = kinds.deep_view();
    match func {
        JsValue::Alternatives(alts) => {
            for i in 0..alts.len()
                invariant
                    decreases_to!(func => alts),
                    kinds.deep_view() == before + all_known_functions(
                        alts.deep_view().take(i as int),
                    ),
            {
                let ghost taken = kinds.deep_view();
                collect_known_functions(&alts[i], kinds);
                assert(alts.deep_view().take(i + 1).drop_last() =~= alts.deep_view().take(
                    i as int,
                ));
                assert(kinds.deep_view() =~= before + all_known_functions(
                    alts.deep_view().take(i + 1),
                ));
            }
            proof {
                lemma_alternatives_view(*alts);
                assert(alts.deep_view().take(alts@.len() as int) =~= alts.deep_view());
            }
        },
        JsValue::WellKnownFunction(kind) => {
            kinds.push_back(kind.clone());
            assert(kinds.deep_view() =~= before + seq![kind.deep_view()]);
        },
        _ => {
            assert(kinds.deep_view() =~= before + seq![]);
        },
    }
}

/// What the analysis of a call of `kind` waits for first.
pub fn begin(kind: &WellKnownFunctionKind, args: &Vec<JsValue>) -> (res: Wait)
    ensures
        res.deep_view() == first_wait(kind.deep_view(), args.deep_view()),
{
    match kind {
        WellKnownFunctionKind::PathJoin => Wait::Joined,
        WellKnownFunctionKind::ChildProcessFork => if args.len() >= 1 {
            Wait::Forked { entry: args[0].clone() }
        } else {
            Wait::MessageArgs { pending: None }
        },
        _ => Wait::Args,
    }
}

/// The question that a wait is for.
pub fn action_of(args: &Vec<JsValue>, wait: &Wait) -> (res: Action)
    ensures
        res.deep_view() == wait_action(args.deep_view(), wait.deep_view()),
{
    match wait {
        Wait::Args => Action::LinkAll(clone_values(args)),
        Wait::Command { program, .. } => Action::IsMatch {
            value: program.clone(),
            text: "node".to_owned(),
        },
        Wait::Entry { node_args, .. } => {
            let zero = JsValue::Constant(ConstantValue::Num(0));
            assert(zero.deep_view() == JsValueView::Constant(ConstantValueView::Num(0)));
            Action::Link(JsValue::Member(Box::new(node_args.clone()), Box::new(zero)))
        },
        Wait::EntryParts { entry, .. } => Action::HasConstantParts(entry.clone()),
        Wait::Parts { value, .. } => Action::HasConstantParts(value.clone()),
        Wait::Joined => {
            let path_join = JsValue::WellKnownFunction(WellKnownFunctionKind::PathJoin);
            assert(path_join.deep_view() == JsValueView::WellKnownFunction(
                WellKnownFunctionKindView::PathJoin,
            ));
            let callee = Box::new(path_join);
            let args = clone_values(args);
            proof {
                lemma_call_view(callee, args);
            }
            Action::Link(JsValue::Call(callee, args))
        },
        Wait::Forked { entry } => Action::Link(entry.clone()),
        Wait::LooseParts { value, .. } => Action::HasConstantParts(value.clone()),
        Wait::MessageArgs { .. } => Action::LinkAll(clone_values(args)),
        Wait::Message { args, .. } => Action::ExplainArgs {
            args: clone_values(args),
            depth: EXPLAIN_DEPTH,
            unknown_depth: EXPLAIN_UNKNOWN_DEPTH,
        },
    }
}

/// The reference to what an `import` may name by `value`.
fn esm_reference_to(source: AssetVc, value: &JsValue) -> (res: AssetReferenceVc)
    ensures
        res.deep_view() == esm_of(source, value.deep_view()),
{
    let request = RequestVc::parse(Pattern::OfValue(value.clone()));
    AssetReferenceVc::Esm(EsmAssetReferenceVc::new(source, request))
}

/// The reference to what a `require` may name by `value`.
fn cjs_reference_to(source: AssetVc, value: &JsValue) -> (res: AssetReferenceVc)
    ensures
        res.deep_view() == cjs_of(source, value.deep_view()),
{
    let request = RequestVc::parse(Pattern::OfValue(value.clone()));
    AssetReferenceVc::Cjs(CjsAssetReferenceVc::new(source, request))
}

/// The reference to the files that `value` may name.
fn file_reference_to(source: AssetVc, value: &JsValue) -> (res: AssetReferenceVc)
    ensures
        res.deep_view() == file_of(source, value.deep_view()),
{
    let path = PatternVc { pattern: Pattern::OfValue(value.clone()) };
    AssetReferenceVc::Source(SourceAssetReferenceVc::new(source, path))
}

/// Adds a reference at the end.
pub fn push_reference(references: &mut Vec<AssetReferenceVc>, reference: AssetReferenceVc)
    ensures
        final(references).deep_view() == old(references).deep_view() + seq![reference.deep_view()],
{
    let ghost before = references.deep_view();
    let ghost added = reference.deep_view();
    references.push(reference);
    assert(references.deep_view() =~= before + seq![added]);
}

/// Adds a diagnostic at the end.
fn push_diagnostic(diagnostics: &mut Vec<Diagnostic>, diagnostic: Diagnostic)
    ensures
        final(diagnostics).deep_view() == old(diagnostics).deep_view() + seq![
            diagnostic.deep_view(),
        ],
{
    let ghost before = diagnostics.deep_view();
    let ghost added = diagnostic.deep_view();
    diagnostics.push(diagnostic);
    assert(diagnostics.deep_view() =~= before + seq![added]);
}

/// Goes on with the analysis of the linked arguments of a call.
fn with_args(source: AssetVc, kind: &WellKnownFunctionKind, args: Vec<JsValue>) -> (res: Wait)
    ensures
        res.deep_view() == args_wait(source, kind.deep_view(), args.deep_view()),
{
    let followed: bool = match kind {
        WellKnownFunctionKind::Import
        | WellKnownFunctionKind::Require
        | WellKnownFunctionKind::RequireResolve => args.len() == 1,
        _ => args.len() >= 1,
    };
    if !followed {
        return Wait::Message { args, pending: None };
    }
    let value = args[0].clone();
    assert(args.deep_view()[0] == value.deep_view());
    match kind {
        WellKnownFunctionKind::ChildProcessSpawnMethod(_) => Wait::Command { args, program: value },
        WellKnownFunctionKind::Import => {
            let reference = esm_reference_to(source, &value);
            Wait::Parts { args, value, reference }
        },
        WellKnownFunctionKind::Require | WellKnownFunctionKind::RequireResolve => {
            let reference = cjs_reference_to(source, &value);
            Wait::Parts { args, value, reference }
        },
        _ => {
            let reference = file_reference_to(source, &value);
            Wait::Parts { args, value, reference }
        },
    }
}

/// Goes on with the analysis of a call after a reply: adds what comes of it to `references` and
/// `diagnostics`, and returns what is waited for next, if anything is.
pub fn advance(
    source: AssetVc,
    span: Span,
    kind: &WellKnownFunctionKind,
    wait: Wait,
    reply: Reply,
    references: &mut Vec<AssetReferenceVc>,
    diagnostics: &mut Vec<Diagnostic>,
) -> (res: Option<Wait>)
    ensures
        ({
            let next = advanced(
                source,
                span,
                kind.deep_view(),
                wait.deep_view(),
                reply.deep_view(),
            );
            &&& res.deep_view() == next.wait
            &&& final(references).deep_view() == old(references).deep_view()
                + next.report.references
            &&& final(diagnostics).deep_view() == old(diagnostics).deep_view()
                + next.report.diagnostics
        }),
{
    assert(references.deep_view() =~= references.deep_view() + seq![]);
    assert(diagnostics.deep_view() =~= diagnostics.deep_view() + seq![]);
    match (wait, reply) {
        (Wait::Args, Reply::LinkedAll(args)) => Some(with_args(source, kind, args)),
        (Wait::Command { args, program }, Reply::IsMatch(node)) => {
            if node && args.len() >= 2 {
                let node_args = args[1].clone();
                assert(args.deep_view()[1] == node_args.deep_view());
                Some(Wait::Entry { args, program, node_args })
            } else {
                let reference = file_reference_to(source, &program);
                Some(Wait::Parts { args, value: program, reference })
            }
        },
        (Wait::Entry { args, program, .. }, Reply::Linked(entry)) => {
            Some(Wait::EntryParts { args, program, entry })
        },
        (Wait::EntryParts { args, program, entry }, Reply::HasConstantParts(constant)) => {
            push_reference(references, cjs_reference_to(source, &entry));
            let reference = file_reference_to(source, &program);
            if constant {
                Some(Wait::Parts { args, value: program, reference })
            } else {
                Some(Wait::Message { args, pending: Some(reference) })
            }
        },
        (Wait::Parts { args, reference, .. }, Reply::HasConstantParts(constant)) => {
            if constant {
                push_reference(references, reference);
                None
            } else {
                Some(Wait::Message { args, pending: Some(reference) })
            }
        },
        (Wait::Joined, Reply::Linked(path)) => {
            let reference = file_reference_to(source, &path);
            Some(Wait::LooseParts { value: path, reference })
        },
        (Wait::Forked { .. }, Reply::Linked(entry)) => {
            let reference = cjs_reference_to(source, &entry);
            Some(Wait::LooseParts { value: entry, reference })
        },
        (Wait::LooseParts { reference, .. }, Reply::HasConstantParts(constant)) => {
            if constant {
                push_reference(references, reference);
                None
            } else {
                Some(Wait::MessageArgs { pending: Some(reference) })
            }
        },
        (Wait::MessageArgs { pending }, Reply::LinkedAll(args)) => {
            Some(Wait::Message { args, pending })
        },
        (Wait::Message { pending, .. }, Reply::Explained { args, hints }) => {
            let name = name_of(kind);
            match pending {
                Some(reference) => {
                    let message = format_message(
                        name.as_str(),
                        args.as_str(),
                        " is very dynamic",
                        hints.as_str(),
                    );
                    let code = DiagnosticId::Lint(failure(kind));
                    push_diagnostic(diagnostics, Diagnostic { span, message, code });
                    push_reference(references, reference);
                },
                None => {
                    let message = format_message(
                        name.as_str(),
                        args.as_str(),
                        " is not statically analyse-able",
                        hints.as_str(),
                    );
                    let code = DiagnosticId::Error(failure(kind));
                    push_diagnostic(diagnostics, Diagnostic { span, message, code });
                },
            }
            None
        },
        (wait, _) => Some(wait),
    }
}

/// The reports on a call of each of `funcs`, one after the other.
pub open spec fn alternatives_report(
    w: World,
    source: AssetVc,
    span: Span,
    funcs: Seq<JsValueView>,
    args: Seq<JsValueView>,
) -> Result<ReportView, Failure>
    decreases funcs.len(),
{
    if funcs.len() == 0 {
        Ok(ReportView::empty())
    } else {
        in_turn(
            alternatives_report(w, source, span, funcs.drop_last(), args),
            call_report(w, source, span, funcs.last(), args),
        )
    }
}

/// Reports one after the other may be taken together in any way, and an empty one adds nothing.
pub proof fn lemma_in_turn(
    first: Result<ReportView, Failure>,
    second: Result<ReportView, Failure>,
    third: Result<ReportView, Failure>,
)
    ensures
        in_turn(in_turn(first, second), third) == in_turn(first, in_turn(second, third)),
        in_turn(Ok(ReportView::empty()), first) == first,
        in_turn(first, Ok(ReportView::empty())) == first,
{
    if let Ok(first) = first {
        assert(ReportView::empty().then_report(first).references =~= first.references);
        assert(ReportView::empty().then_report(first).diagnostics =~= first.diagnostics);
        assert(first.then_report(ReportView::empty()).references =~= first.references);
        assert(first.then_report(ReportView::empty()).diagnostics =~= first.diagnostics);
        if let Ok(second) = second {
            if let Ok(third) = third {
                let left = first.then_report(second).then_report(third);
                let right = first.then_report(second.then_report(third));
                assert(left.references =~= right.references);
                assert(left.diagnostics =~= right.diagnostics);
            }
        }
    }
}

proof fn lemma_kinds_join(
    w: World,
    source: AssetVc,
    span: Span,
    first: Seq<WellKnownFunctionKindView>,
    second: Seq<WellKnownFunctionKindView>,
    args: Seq<JsValueView>,
)
    ensures
        kinds_report(w, source, span, first + second, args) == in_turn(
            kinds_report(w, source, span, first, args),
            kinds_report(w, source, span, second, args),
        ),
    decreases first.len(),
{
    let rest = kinds_report(w, source, span, second, args);
    if first.len() == 0 {
        assert(first + second =~= second);
        lemma_in_turn(rest, rest, rest);
    } else {
        assert((first + second).drop_first() =~= first.drop_first() + second);
        lemma_kinds_join(w, source, span, first.drop_first(), second, args);
        lemma_in_turn(
            kind_report(w, source, span, first[0], args),
            kinds_report(w, source, span, first.drop_first(), args),
            rest,
        );
    }
}

/// A call of one of several functions is reported on as a call of each, in their order.
pub proof fn lemma_alternatives_are_each_reported(
    w: World,
    source: AssetVc,
    span: Span,
    alts: Seq<JsValueView>,
    args: Seq<JsValueView>,
)
    ensures
        call_report(w, source, span, JsValueView::Alternatives(alts), args) == alternatives_report(
            w,
            source,
            span,
            alts,
            args,
        ),
    decreases alts.len(),
{
    if alts.len() > 0 {
        lemma_alternatives_are_each_reported(w, source, span, alts.drop_last(), args);
        lemma_kinds_join(
            w,
            source,
            span,
            all_known_functions(alts.drop_last()),
            known_functions(alts.last()),
            args,
        );
    }
}

/// A call whose values can be linked either makes a reference, and a lint at most, or is reported
/// as an error, and makes none. Whatever is reported of it is reported at its place.
pub proof fn lemma_call_is_followed_or_reported(
    w: World,
    source: AssetVc,
    span: Span,
    kind: WellKnownFunctionKindView,
    args: Seq<JsValueView>,
)
    ensures
        kind_report(w, source, span, kind, args) matches Ok(report) ==> {
            &&& report.diagnostics.len() <= 1
            &&& report.diagnostics.len() == 1 ==> report.diagnostics[0].span == span
            &&& report.references.len() > 0 && report.diagnostics.len() == 1
                ==> report.diagnostics[0].code == DiagnosticId::Lint(failure_of(kind))
            &&& report.references.len() == 0 ==> report.diagnostics.len() == 1
                && report.diagnostics[0].code == DiagnosticId::Error(failure_of(kind))
        },
{
}

/// A call whose first argument is known in part is followed without a warning.
pub proof fn lemma_constant_parts_are_enough(
    w: World,
    source: AssetVc,
    span: Span,
    kind: WellKnownFunctionKindView,
    arg: JsValueView,
)
    requires
        kind !is PathJoin,
        (w.link)(arg) matches Ok(value) && (w.has_constant_parts)(value),
    ensures
        kind_report(w, source, span, kind, seq![arg]) matches Ok(report) && report.diagnostics.len()
            == 0 && report.references.len() == 1,
{
    let args = seq![arg];
    assert(forall|i: int| 0 <= i < args.len() ==> (w.link)(#[trigger] args[i]) is Ok);
    assert(w.link_all(args)->Ok_0[0] == (w.link)(arg)->Ok_0);
}

/// A call of a function fails only where linking one of its values does.
pub proof fn lemma_call_fails_by_linking(
    w: World,
    source: AssetVc,
    span: Span,
    kind: WellKnownFunctionKindView,
    args: Seq<JsValueView>,
)
    requires
        forall|value: JsValueView| #[trigger] (w.link)(value) is Ok,
    ensures
        kind_report(w, source, span, kind, args) is Ok,
{
    assert(w.link_all(args) is Ok);
}

} // verus!
