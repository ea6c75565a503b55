//! The references from a module to other assets, and how each is resolved.
use crate::ast::{Lit, LitView};
use crate::vc::{AssetVc, FileSystemPathVc, PatternVc, PatternView, RequestVc, context_of};
use vstd::prelude::*;

verus! {

/// The options for resolving requests.
#[derive(Debug, PartialEq, Eq, Hash)]
pub enum ResolveOptionsVc {
    /// The options that hold in a directory.
    For(FileSystemPathVc),
    /// Options, with what is specific to CommonJS applied.
    CjsSpecific(Box<ResolveOptionsVc>),
}

/// An asset that is read from a file as it stands.
#[derive(Debug, PartialEq, Eq, Hash)]
pub struct SourceAssetVc {
    pub path: FileSystemPathVc,
}

/// What a reference or a request resolves to.
#[derive(Debug, PartialEq, Eq, Hash)]
pub enum ResolveResultVc {
    /// One asset, and no further references.
    Single(SourceAssetVc),
    /// A request of an ECMAScript module.
    Esm { request: RequestVc, context: FileSystemPathVc },
    /// A request of a CommonJS module.
    Cjs { request: RequestVc, context: FileSystemPathVc },
    /// The files whose paths match a pattern.
    Raw { context: FileSystemPathVc, path: PatternVc, force_in_context: bool },
    /// A request under explicit options.
    Request { context: FileSystemPathVc, request: RequestVc, options: ResolveOptionsVc },
}

/// The mathematical value of a [`ResolveResultVc`].
pub enum ResolveResultView {
    Single(FileSystemPathVc),
    Esm(PatternView, FileSystemPathVc),
    Cjs(PatternView, FileSystemPathVc),
    Raw(FileSystemPathVc, PatternView, bool),
    Request(FileSystemPathVc, PatternView, ResolveOptionsVc),
}

impl DeepView for ResolveResultVc {
    type V = ResolveResultView;

    open spec fn deep_view(&self) -> ResolveResultView {
        match self {
            ResolveResultVc::Single(asset) => ResolveResultView::Single(asset.path),
            ResolveResultVc::Esm { request, context } => ResolveResultView::Esm(
                request.deep_view(),
                *context,
            ),
            ResolveResultVc::Cjs { request, context } => ResolveResultView::Cjs(
                request.deep_view(),
                *context,
            ),
            ResolveResultVc::Raw { context, path, force_in_context } => ResolveResultView::Raw(
                *context,
                path.deep_view(),
                *force_in_context,
            ),
            ResolveResultVc::Request { context, request, options } => ResolveResultView::Request(
                *context,
                request.deep_view(),
                *options,
            ),
        }
    }
}

/// The outcome of a resolution, as far as it is read. `Other` stands for everything but exactly
/// one asset.
#[derive(Clone, Copy, Debug, PartialEq, Eq, Hash, Structural)]
pub enum ResolveResult {
    Single(AssetVc),
    Other,
}

/// The webpack runtime that a module is written against.
#[derive(Debug, PartialEq, Eq, Hash)]
pub enum WebpackRuntimeVc {
    /// The runtime that a request leads to (see [`resolve_as_webpack_runtime`]).
    ResolvedAs { context: FileSystemPathVc, request: RequestVc },
    /// The runtime that an asset is found to be when its text is read.
    Of(AssetVc),
    /// No runtime.
    Absent,
}

/// The mathematical value of a [`WebpackRuntimeVc`].
pub enum WebpackRuntimeView {
    ResolvedAs(FileSystemPathVc, PatternView),
    Of(AssetVc),
    Absent,
}

impl DeepView for WebpackRuntimeVc {
    type V = WebpackRuntimeView;

    open spec fn deep_view(&self) -> WebpackRuntimeView {
        match self {
            WebpackRuntimeVc::ResolvedAs { context, request } => WebpackRuntimeView::ResolvedAs(
                *context,
                request.deep_view(),
            ),
            WebpackRuntimeVc::Of(asset) => WebpackRuntimeView::Of(*asset),
            WebpackRuntimeVc::Absent => WebpackRuntimeView::Absent,
        }
    }
}

impl Clone for WebpackRuntimeVc {
    fn clone(&self) -> (res: Self)
        ensures
            res.deep_view() == self.deep_view(),
    {
        match self {
            WebpackRuntimeVc::ResolvedAs { context, request } => WebpackRuntimeVc::ResolvedAs {
                context: context.clone(),
                request: request.clone(),
            },
            WebpackRuntimeVc::Of(asset) => WebpackRuntimeVc::Of(*asset),
            WebpackRuntimeVc::Absent => WebpackRuntimeVc::Absent,
        }
    }
}

/// The resolution that finds the asset of a webpack runtime: the request is resolved in
/// `context`, under the options of that directory with what is specific to CommonJS applied.
pub open spec fn runtime_resolution(
    context: FileSystemPathVc,
    request: PatternView,
) -> ResolveResultView {
    ResolveResultView::Request(
        context,
        request,
        ResolveOptionsVc::CjsSpecific(Box::new(ResolveOptionsVc::For(context))),
    )
}

/// The runtime that a resolution leads to: that of the asset where there is exactly one, else
/// none.
pub open spec fn runtime_of(resolved: ResolveResult) -> WebpackRuntimeView {
    match resolved {
        ResolveResult::Single(source) => WebpackRuntimeView::Of(source),
        ResolveResult::Other => WebpackRuntimeView::Absent,
    }
}

/// The asset whose text decides of what kind a runtime is.
pub open spec fn runtime_asset(runtime: WebpackRuntimeView) -> Option<AssetVc> {
    match runtime {
        WebpackRuntimeView::Of(asset) => Some(asset),
        _ => None,
    }
}

/// The resolution that finds the asset of a webpack runtime. What comes of it goes to
/// [`webpack_runtime_of`].
pub fn resolve_as_webpack_runtime(context: &FileSystemPathVc, request: &RequestVc) -> (res:
    ResolveResultVc)
    ensures
        res.deep_view() == runtime_resolution(*context, request.deep_view()),
{
    let options = ResolveOptionsVc::For(context.clone());
    let options = ResolveOptionsVc::CjsSpecific(Box::new(options));
    ResolveResultVc::Request { context: context.clone(), request: request.clone(), options }
}

/// The runtime that a resolution leads to.
pub fn webpack_runtime_of(resolved: &ResolveResult) -> (res: WebpackRuntimeVc)
    ensures
        res.deep_view() == runtime_of(*resolved),
{
    match resolved {
        ResolveResult::Single(source) => WebpackRuntimeVc::Of(*source),
        ResolveResult::Other => WebpackRuntimeVc::Absent,
    }
}

/// The asset whose text decides of what kind a runtime is, where it is known. A runtime that has
/// none is of no kind.
pub fn asset_of_runtime(runtime: &WebpackRuntimeVc) -> (res: Option<AssetVc>)
    ensures
        res == runtime_asset(runtime.deep_view()),
{
    match runtime {
        WebpackRuntimeVc::Of(asset) => Some(*asset),
        _ => None,
    }
}

/// A reference to the `package.json` that governs a module.
#[derive(Debug, PartialEq, Eq, Hash)]
pub struct PackageJsonReference {
    pub package_json: FileSystemPathVc,
}

impl Clone for PackageJsonReference {
    fn clone(&self) -> (res: Self)
        ensures
            res == *self,
    {
        PackageJsonReference { package_json: self.package_json.clone() }
    }
}

/// A slot that holds a [`PackageJsonReference`].
#[derive(Debug, PartialEq, Eq, Hash)]
pub struct PackageJsonReferenceVc {
    pub slot: PackageJsonReference,
}

impl PackageJsonReferenceVc {
    /// A slot with this path.
    pub fn new(package_json: FileSystemPathVc) -> (res: Self)
        ensures
            res.slot.package_json == package_json,
    {
        PackageJsonReferenceVc { slot: PackageJsonReference { package_json } }
    }
}

impl PackageJsonReference {
    /// The file itself.
    pub fn resolve_reference(&self) -> (res: ResolveResultVc)
        ensures
            res.deep_view() == ResolveResultView::Single(self.package_json),
    {
        ResolveResultVc::Single(SourceAssetVc { path: self.package_json.clone() })
    }
}

/// A reference that `import` or `export .. from` makes.
#[derive(Debug, PartialEq, Eq, Hash)]
pub struct EsmAssetReference {
    pub source: AssetVc,
    pub request: RequestVc,
}

/// A slot that holds an [`EsmAssetReference`].
#[derive(Debug, PartialEq, Eq, Hash)]
pub struct EsmAssetReferenceVc {
    pub slot: EsmAssetReference,
}

impl EsmAssetReferenceVc {
    /// A slot with these values.
    pub fn new(source: AssetVc, request: RequestVc) -> (res: Self)
        ensures
            res.slot.source == source,
            res.slot.request == request,
    {
        EsmAssetReferenceVc { slot: EsmAssetReference { source, request } }
    }
}

impl EsmAssetReference {
    /// The request, resolved as one of an ECMAScript module in the directory of the source.
    pub fn resolve_reference(&self) -> (res: ResolveResultVc)
        ensures
            res.deep_view() == ResolveResultView::Esm(
                self.request.deep_view(),
                context_of(self.source),
            ),
    {
        let context = self.source.path().parent();
        ResolveResultVc::Esm { request: self.request.clone(), context }
    }
}

/// A reference that `require` makes.
#[derive(Debug, PartialEq, Eq, Hash)]
pub struct CjsAssetReference {
    pub source: AssetVc,
    pub request: RequestVc,
}

/// A slot that holds a [`CjsAssetReference`].
#[derive(Debug, PartialEq, Eq, Hash)]
pub struct CjsAssetReferenceVc {
    pub slot: CjsAssetReference,
}

impl CjsAssetReferenceVc {
    /// A slot with these values.
    pub fn new(source: AssetVc, request: RequestVc) -> (res: Self)
        ensures
            res.slot.source == source,
            res.slot.request == request,
    {
        CjsAssetReferenceVc { slot: CjsAssetReference { source, request } }
    }
}

impl CjsAssetReference {
    /// The request, resolved as one of a CommonJS module in the directory of the source.
    pub fn resolve_reference(&self) -> (res: ResolveResultVc)
        ensures
            res.deep_view() == ResolveResultView::Cjs(
                self.request.deep_view(),
                context_of(self.source),
            ),
    {
        let context = self.source.path().parent();
        ResolveResultVc::Cjs { request: self.request.clone(), context }
    }
}

/// A reference to files that are read when the module runs.
#[derive(Debug, PartialEq, Eq, Hash)]
pub struct SourceAssetReference {
    pub source: AssetVc,
    pub path: PatternVc,
}

/// A slot that holds a [`SourceAssetReference`].
#[derive(Debug, PartialEq, Eq, Hash)]
pub struct SourceAssetReferenceVc {
    pub slot: SourceAssetReference,
}

impl SourceAssetReferenceVc {
    /// A slot with these values.
    pub fn new(source: AssetVc, path: PatternVc) -> (res: Self)
        ensures
            res.slot.source == source,
            res.slot.path == path,
    {
        SourceAssetReferenceVc { slot: SourceAssetReference { source, path } }
    }
}

impl SourceAssetReference {
    /// The files whose paths match, seen from the directory of the source, and not only those
    /// below it.
    pub fn resolve_reference(&self) -> (res: ResolveResultVc)
        ensures
            res.deep_view() == ResolveResultView::Raw(
                context_of(self.source),
                self.path.deep_view(),
                false,
            ),
    {
        let context = self.source.path().parent();
        ResolveResultVc::Raw { context, path: self.path.clone(), force_in_context: false }
    }
}

/// A reference from a webpack bundle to its runtime.
#[derive(Debug, PartialEq, Eq, Hash)]
pub struct WebpackRuntimeAssetReference {
    pub source: AssetVc,
    pub request: RequestVc,
    pub runtime: WebpackRuntimeVc,
}

/// A reference from the entry of a webpack bundle to itself.
#[derive(Debug, PartialEq, Eq, Hash)]
pub struct WebpackEntryAssetReference {
    pub source: AssetVc,
    pub runtime: WebpackRuntimeVc,
}

/// A reference from a webpack bundle to one of its chunks.
#[derive(Debug, PartialEq, Eq, Hash)]
pub struct WebpackChunkAssetReference {
    pub chunk_id: Lit,
    pub runtime: WebpackRuntimeVc,
}

/// Any reference.
#[derive(Debug, PartialEq, Eq, Hash)]
pub enum AssetReferenceVc {
    PackageJson(PackageJsonReferenceVc),
    Esm(EsmAssetReferenceVc),
    Cjs(CjsAssetReferenceVc),
    Source(SourceAssetReferenceVc),
    WebpackRuntime(WebpackRuntimeAssetReference),
    WebpackEntry(WebpackEntryAssetReference),
    WebpackChunk(WebpackChunkAssetReference),
}

/// The references of a module.
#[derive(Debug, PartialEq, Eq, Hash)]
pub struct AssetReferencesSet {
    pub references: Vec<AssetReferenceVc>,
}

/// The mathematical value of an [`AssetReferenceVc`].
pub enum AssetReferenceView {
    PackageJson(FileSystemPathVc),
    Esm(AssetVc, PatternView),
    Cjs(AssetVc, PatternView),
    Source(AssetVc, PatternView),
    WebpackRuntime(AssetVc, PatternView, WebpackRuntimeView),
    WebpackEntry(AssetVc, WebpackRuntimeView),
    WebpackChunk(LitView, WebpackRuntimeView),
}

impl DeepView for AssetReferenceVc {
    type V = AssetReferenceView;

    open spec fn deep_view(&self) -> AssetReferenceView {
        match self {
            AssetReferenceVc::PackageJson(vc) => AssetReferenceView::PackageJson(
                vc.slot.package_json,
            ),
            AssetReferenceVc::Esm(vc) => AssetReferenceView::Esm(
                vc.slot.source,
                vc.slot.request.deep_view(),
            ),
            AssetReferenceVc::Cjs(vc) => AssetReferenceView::Cjs(
                vc.slot.source,
                vc.slot.request.deep_view(),
            ),
            AssetReferenceVc::Source(vc) => AssetReferenceView::Source(
                vc.slot.source,
                vc.slot.path.deep_view(),
            ),
            AssetReferenceVc::WebpackRuntime(reference) => AssetReferenceView::WebpackRuntime(
                reference.source,
                reference.request.deep_view(),
                reference.runtime.deep_view(),
            ),
            AssetReferenceVc::WebpackEntry(reference) => AssetReferenceView::WebpackEntry(
                reference.source,
                reference.runtime.deep_view(),
            ),
            AssetReferenceVc::WebpackChunk(reference) => AssetReferenceView::WebpackChunk(
                reference.chunk_id.deep_view(),
                reference.runtime.deep_view(),
            ),
        }
    }
}

} // verus!
