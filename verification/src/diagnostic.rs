//! What is reported of a call whose request is not known well enough.
use crate::ast::Span;
use crate::text::joined;
use vstd::prelude::*;
use vstd::string::StringExecFns;

verus! {

/// What could not be analysed.
#[derive(Clone, Copy, Debug, PartialEq, Eq, Hash, Structural)]
pub enum FailedToAnalyse {
    DynamicImport,
    Require,
    RequireResolve,
    FsMethod,
    PathMethod,
    ChildProcessSpawn,
}

/// The code of a diagnostic. An `Error` marks a call that is not analysed at all, and a `Lint`
/// one that is, with little known of its request.
#[derive(Clone, Copy, Debug, PartialEq, Eq, Hash, Structural)]
pub enum DiagnosticId {
    Error(FailedToAnalyse),
    Lint(FailedToAnalyse),
}

/// A warning about a call.
#[derive(Debug, PartialEq, Eq, Hash)]
pub struct Diagnostic {
    pub span: Span,
    pub message: String,
    pub code: DiagnosticId,
}

/// The mathematical value of a [`Diagnostic`].
pub struct DiagnosticView {
    pub span: Span,
    pub message: Seq<char>,
    pub code: DiagnosticId,
}

impl DeepView for Diagnostic {
    type V = DiagnosticView;

    open spec fn deep_view(&self) -> DiagnosticView {
        DiagnosticView { span: self.span, message: self.message@, code: self.code }
    }
}

/// `callee(args)`, then `complaint` and `hints`, with nothing in between.
pub open spec fn message(
    callee: Seq<char>,
    args: Seq<char>,
    complaint: Seq<char>,
    hints: Seq<char>,
) -> Seq<char> {
    callee + "("@ + args + ")"@ + complaint + hints
}

/// Writes out a message.
pub fn format_message(callee: &str, args: &str, complaint: &str, hints: &str) -> (res: String)
    ensures
        res@ == message(callee@, args@, complaint@, hints@),
{
    joined(callee, "(").concat(args).concat(")").concat(complaint).concat(hints)
}

} // verus!
