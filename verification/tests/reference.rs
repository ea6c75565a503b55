use references::diagnostic::format_message;
use references::reference::{
    asset_of_runtime, resolve_as_webpack_runtime, webpack_runtime_of, CjsAssetReferenceVc,
    EsmAssetReferenceVc, PackageJsonReferenceVc, ResolveOptionsVc, ResolveResult, ResolveResultVc,
    SourceAssetReferenceVc, SourceAssetVc, WebpackRuntimeVc,
};
use references::vc::{AssetVc, FileSystemPathVc, Pattern, PatternVc, RequestVc};

const SOURCE: AssetVc = AssetVc { cell: 3 };

fn request() -> RequestVc {
    RequestVc::parse(Pattern::Constant("./a".to_string()))
}

fn context() -> FileSystemPathVc {
    FileSystemPathVc::ParentOf(Box::new(FileSystemPathVc::PathOf(SOURCE)))
}

#[test]
fn the_context_of_a_module_is_its_directory() {
    assert_eq!(SOURCE.path().parent(), context());
}

#[test]
fn a_package_json_resolves_to_itself() {
    let vc = PackageJsonReferenceVc::new(FileSystemPathVc::Cell(4));
    assert_eq!(vc.slot.package_json, FileSystemPathVc::Cell(4));
    assert_eq!(
        vc.slot.resolve_reference(),
        ResolveResultVc::Single(SourceAssetVc { path: FileSystemPathVc::Cell(4) })
    );
    assert_eq!(vc.slot.clone(), vc.slot);
}

#[test]
fn an_esm_reference_resolves_in_its_directory() {
    let vc = EsmAssetReferenceVc::new(SOURCE, request());
    assert_eq!((vc.slot.source, &vc.slot.request), (SOURCE, &request()));
    assert_eq!(
        vc.slot.resolve_reference(),
        ResolveResultVc::Esm { request: request(), context: context() }
    );
}

#[test]
fn a_cjs_reference_resolves_in_its_directory() {
    let vc = CjsAssetReferenceVc::new(SOURCE, request());
    assert_eq!((vc.slot.source, &vc.slot.request), (SOURCE, &request()));
    assert_eq!(
        vc.slot.resolve_reference(),
        ResolveResultVc::Cjs { request: request(), context: context() }
    );
}

#[test]
fn a_source_reference_is_not_forced_into_its_directory() {
    let path = || PatternVc { pattern: Pattern::Constant("./a.txt".to_string()) };
    let vc = SourceAssetReferenceVc::new(SOURCE, path());
    assert_eq!((vc.slot.source, &vc.slot.path), (SOURCE, &path()));
    assert_eq!(
        vc.slot.resolve_reference(),
        ResolveResultVc::Raw { context: context(), path: path(), force_in_context: false }
    );
}

#[test]
fn a_webpack_runtime_is_resolved_as_cjs() {
    let options = ResolveOptionsVc::CjsSpecific(Box::new(ResolveOptionsVc::For(context())));
    assert_eq!(
        resolve_as_webpack_runtime(&context(), &request()),
        ResolveResultVc::Request { context: context(), request: request(), options }
    );
}

#[test]
fn only_a_single_asset_is_a_webpack_runtime() {
    let asset = AssetVc { cell: 9 };
    assert_eq!(
        webpack_runtime_of(&ResolveResult::Single(asset)),
        WebpackRuntimeVc::Of(asset)
    );
    assert_eq!(webpack_runtime_of(&ResolveResult::Other), WebpackRuntimeVc::Absent);
}

#[test]
fn a_runtime_is_read_from_its_asset() {
    let asset = AssetVc { cell: 9 };
    let resolved_as = WebpackRuntimeVc::ResolvedAs { context: context(), request: request() };
    assert_eq!(asset_of_runtime(&WebpackRuntimeVc::Of(asset)), Some(asset));
    assert_eq!(asset_of_runtime(&WebpackRuntimeVc::Absent), None);
    assert_eq!(asset_of_runtime(&resolved_as), None);
}

#[test]
fn messages_are_put_together() {
    assert_eq!(format_message("f", "1, 2", " fails", "\n- hint"), "f(1, 2) fails\n- hint");
}
