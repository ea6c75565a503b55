//! What the search for references asks of its surroundings, and what it is told.
//!
//! The search never waits. Where it needs something that only its surroundings can find out, it
//! names it by an [`Action`], and goes on with the [`Reply`].
use crate::ast::{Node, Span};
use crate::reference::{
    ResolveResult, ResolveResultVc, ResolveResultView, runtime_asset, runtime_of,
    runtime_resolution,
};
use crate::value::{JsValue, JsValueView};
use crate::vc::{AssetVc, Failure, FileSystemPathVc, PatternView};
use vstd::prelude::*;

verus! {

/// A call that the code of a module makes.
#[derive(Debug, PartialEq, Eq, Hash)]
pub enum Effect {
    Call { func: JsValue, args: Vec<JsValue>, span: Span },
    MemberCall { obj: JsValue, prop: JsValue, args: Vec<JsValue>, span: Span },
}

/// The mathematical value of an [`Effect`].
pub enum EffectView {
    Call { func: JsValueView, args: Seq<JsValueView>, span: Span },
    MemberCall { obj: JsValueView, prop: JsValueView, args: Seq<JsValueView>, span: Span },
}

impl DeepView for Effect {
    type V = EffectView;

    open spec fn deep_view(&self) -> EffectView {
        match self {
            Effect::Call { func, args, span } => EffectView::Call {
                func: func.deep_view(),
                args: args.deep_view(),
                span: *span,
            },
            Effect::MemberCall { obj, prop, args, span } => EffectView::MemberCall {
                obj: obj.deep_view(),
                prop: prop.deep_view(),
                args: args.deep_view(),
                span: *span,
            },
        }
    }
}

impl EffectView {
    /// The place of this call.
    pub open spec fn span(self) -> Span {
        match self {
            EffectView::Call { span, .. } => span,
            EffectView::MemberCall { span, .. } => span,
        }
    }
}

/// Whether a `package.json` governs a directory, and which.
#[derive(Debug, PartialEq, Eq, Hash)]
pub enum FindPackageJsonResult {
    Found(FileSystemPathVc),
    NotFound,
}

/// What comes of parsing an asset.
#[derive(Debug, PartialEq, Eq, Hash)]
pub enum ParseResult {
    /// The nodes of the module, and the calls that its code makes.
    Module { nodes: Vec<Node>, effects: Vec<Effect> },
    Unparseable,
    NotFound,
}

/// The mathematical value of a [`ParseResult`].
pub enum ParseResultView {
    Module { nodes: Seq<Node>, effects: Seq<EffectView> },
    Unparseable,
    NotFound,
}

impl DeepView for ParseResult {
    type V = ParseResultView;

    open spec fn deep_view(&self) -> ParseResultView {
        match self {
            ParseResult::Module { nodes, effects } => ParseResultView::Module {
                nodes: nodes@,
                effects: effects.deep_view(),
            },
            ParseResult::Unparseable => ParseResultView::Unparseable,
            ParseResult::NotFound => ParseResultView::NotFound,
        }
    }
}

/// The kind of a webpack runtime.
#[derive(Clone, Copy, Debug, PartialEq, Eq, Hash, Structural)]
pub enum WebpackRuntime {
    Webpack5,
    Absent,
}

/// What is to be found out next.
#[derive(Debug, PartialEq, Eq, Hash)]
pub enum Action {
    /// Find the `package.json` that governs a directory.
    FindPackageJson(FileSystemPathVc),
    /// Parse an asset, and list the calls that its code makes.
    Parse(AssetVc),
    /// Find the asset that a resolution leads to.
    Resolve(ResolveResultVc),
    /// Find the kind of webpack runtime that an asset is.
    ReadRuntime(AssetVc),
    /// Replace what a value refers to by what is known of it.
    Link(JsValue),
    /// Link each of these values.
    LinkAll(Vec<JsValue>),
    /// Find whether the pattern of a value has constant parts.
    HasConstantParts(JsValue),
    /// Find whether the pattern of a value matches a text.
    IsMatch { value: JsValue, text: String },
    /// Put arguments into words: `depth` levels of each, and `unknown_depth` of what is unknown.
    ExplainArgs { args: Vec<JsValue>, depth: usize, unknown_depth: usize },
    /// Nothing: the search is over.
    Done,
}

/// The mathematical value of an [`Action`].
pub enum ActionView {
    FindPackageJson(FileSystemPathVc),
    Parse(AssetVc),
    Resolve(ResolveResultView),
    ReadRuntime(AssetVc),
    Link(JsValueView),
    LinkAll(Seq<JsValueView>),
    HasConstantParts(JsValueView),
    IsMatch { value: JsValueView, text: Seq<char> },
    ExplainArgs { args: Seq<JsValueView>, depth: nat, unknown_depth: nat },
    Done,
}

/// Whether finding this out may fail. Nothing fails that is computed from the question alone.
pub open spec fn may_fail(action: ActionView) -> bool {
    match action {
        ActionView::FindPackageJson(_) => true,
        ActionView::Parse(_) => true,
        ActionView::Resolve(_) => true,
        ActionView::ReadRuntime(_) => true,
        ActionView::Link(_) => true,
        ActionView::LinkAll(_) => true,
        ActionView::HasConstantParts(_) => false,
        ActionView::IsMatch { .. } => false,
        ActionView::ExplainArgs { .. } => false,
        ActionView::Done => false,
    }
}

impl DeepView for Action {
    type V = ActionView;

    open spec fn deep_view(&self) -> ActionView {
        match self {
            Action::FindPackageJson(context) => ActionView::FindPackageJson(*context),
            Action::Parse(source) => ActionView::Parse(*source),
            Action::Resolve(resolution) => ActionView::Resolve(resolution.deep_view()),
            Action::ReadRuntime(asset) => ActionView::ReadRuntime(*asset),
            Action::Link(value) => ActionView::Link(value.deep_view()),
            Action::LinkAll(values) => ActionView::LinkAll(values.deep_view()),
            Action::HasConstantParts(value) => ActionView::HasConstantParts(value.deep_view()),
            Action::IsMatch { value, text } => ActionView::IsMatch {
                value: value.deep_view(),
                text: text@,
            },
            Action::ExplainArgs { args, depth, unknown_depth } => ActionView::ExplainArgs {
                args: args.deep_view(),
                depth: *depth as nat,
                unknown_depth: *unknown_depth as nat,
            },
            Action::Done => ActionView::Done,
        }
    }
}

/// What was found out. Each kind answers one kind of [`Action`], in their order, but for `Failed`,
/// which is told of an action that may fail and did.
#[derive(Debug, PartialEq, Eq, Hash)]
pub enum Reply {
    PackageJson(FindPackageJsonResult),
    Parsed(ParseResult),
    Resolved(ResolveResult),
    Runtime(WebpackRuntime),
    Linked(JsValue),
    LinkedAll(Vec<JsValue>),
    HasConstantParts(bool),
    IsMatch(bool),
    /// The arguments in words, and hints that follow them.
    Explained { args: String, hints: String },
    Failed(Failure),
}

/// The mathematical value of a [`Reply`].
pub enum ReplyView {
    PackageJson(FindPackageJsonResult),
    Parsed(ParseResultView),
    Resolved(ResolveResult),
    Runtime(WebpackRuntime),
    Linked(JsValueView),
    LinkedAll(Seq<JsValueView>),
    HasConstantParts(bool),
    IsMatch(bool),
    Explained { args: Seq<char>, hints: Seq<char> },
    Failed(Failure),
}

impl DeepView for Reply {
    type V = ReplyView;

    open spec fn deep_view(&self) -> ReplyView {
        match self {
            Reply::PackageJson(found) => ReplyView::PackageJson(*found),
            Reply::Parsed(parsed) => ReplyView::Parsed(parsed.deep_view()),
            Reply::Resolved(resolved) => ReplyView::Resolved(*resolved),
            Reply::Runtime(runtime) => ReplyView::Runtime(*runtime),
            Reply::Linked(value) => ReplyView::Linked(value.deep_view()),
            Reply::LinkedAll(values) => ReplyView::LinkedAll(values.deep_view()),
            Reply::HasConstantParts(holds) => ReplyView::HasConstantParts(*holds),
            Reply::IsMatch(holds) => ReplyView::IsMatch(*holds),
            Reply::Explained { args, hints } => ReplyView::Explained { args: args@, hints: hints@ },
            Reply::Failed(failure) => ReplyView::Failed(*failure),
        }
    }
}

/// Surroundings that answer every question, and the same question always in the same way. Where a
/// question may fail, the answer may be an error.
pub struct World {
    pub find_package_json: spec_fn(FileSystemPathVc) -> Result<FindPackageJsonResult, Failure>,
    pub parse: spec_fn(AssetVc) -> Result<ParseResultView, Failure>,
    pub resolve: spec_fn(ResolveResultView) -> Result<ResolveResult, Failure>,
    pub is_webpack_runtime: spec_fn(AssetVc) -> Result<WebpackRuntime, Failure>,
    pub link: spec_fn(JsValueView) -> Result<JsValueView, Failure>,
    /// The error that is told where some of these values cannot be linked.
    pub link_failure: spec_fn(Seq<JsValueView>) -> Failure,
    pub has_constant_parts: spec_fn(JsValueView) -> bool,
    pub is_match: spec_fn(JsValueView, Seq<char>) -> bool,
    pub explain_args: spec_fn(Seq<JsValueView>, nat, nat) -> (Seq<char>, Seq<char>),
}

impl World {
    /// The values that these become by linking each, if each can be linked.
    pub open spec fn link_all(self, values: Seq<JsValueView>) -> Result<
        Seq<JsValueView>,
        Failure,
    > {
        if forall|i: int| 0 <= i < values.len() ==> (self.link)(#[trigger] values[i]) is Ok {
            Ok(values.map_values(|value: JsValueView| (self.link)(value)->Ok_0))
        } else {
            Err((self.link_failure)(values))
        }
    }

    /// The kind of webpack runtime that `request` leads to in `context`: that of the asset which
    /// it resolves to, and none where it does not resolve to exactly one.
    pub open spec fn runtime(
        self,
        context: FileSystemPathVc,
        request: PatternView,
    ) -> Result<WebpackRuntime, Failure> {
        match (self.resolve)(runtime_resolution(context, request)) {
            Ok(resolved) => match runtime_asset(runtime_of(resolved)) {
                Some(asset) => (self.is_webpack_runtime)(asset),
                None => Ok(WebpackRuntime::Absent),
            },
            Err(failure) => Err(failure),
        }
    }

    /// The answer to `action`. There is none to [`Action::Done`].
    pub open spec fn answer(self, action: ActionView) -> ReplyView
        recommends
            action !is Done,
    {
        match action {
            ActionView::FindPackageJson(context) => match (self.find_package_json)(context) {
                Ok(found) => ReplyView::PackageJson(found),
                Err(failure) => ReplyView::Failed(failure),
            },
            ActionView::Parse(source) => match (self.parse)(source) {
                Ok(found) => ReplyView::Parsed(found),
                Err(failure) => ReplyView::Failed(failure),
            },
            ActionView::Resolve(resolution) => match (self.resolve)(resolution) {
                Ok(found) => ReplyView::Resolved(found),
                Err(failure) => ReplyView::Failed(failure),
            },
            ActionView::ReadRuntime(asset) => match (self.is_webpack_runtime)(asset) {
                Ok(found) => ReplyView::Runtime(found),
                Err(failure) => ReplyView::Failed(failure),
            },
            ActionView::Link(value) => match (self.link)(value) {
                Ok(found) => ReplyView::Linked(found),
                Err(failure) => ReplyView::Failed(failure),
            },
            ActionView::LinkAll(values) => match self.link_all(values) {
                Ok(found) => ReplyView::LinkedAll(found),
                Err(failure) => ReplyView::Failed(failure),
            },
            ActionView::HasConstantParts(value) => ReplyView::HasConstantParts(
                (self.has_constant_parts)(value),
            ),
            ActionView::IsMatch { value, text } => ReplyView::IsMatch(
                (self.is_match)(value, text),
            ),
            ActionView::ExplainArgs { args, depth, unknown_depth } => {
                let (args, hints) = (self.explain_args)(args, depth, unknown_depth);
                ReplyView::Explained { args, hints }
            },
            ActionView::Done => arbitrary(),
        }
    }
}

} // verus!
