use ssr_router::assets::{fallback_target, AssetPaths, FallbackTarget};
use ssr_router::dispatch::{Handler, RoutableService};

#[test]
fn default_asset_paths() {
    let a = AssetPaths::default();
    assert_eq!(a.js_path, "/app_wasm.js");
    assert_eq!(a.wasm_path, "/app_wasm_bg.wasm");
}

#[test]
fn wasm_module_is_served_from_app_directory() {
    let mut svc = RoutableService::new((), ());
    svc.mark_ready(Handler::Primary);
    svc.mark_ready(Handler::Fallback);
    assert_eq!(svc.dispatch("/app_wasm_bg.wasm"), Handler::Fallback);
    assert_eq!(
        fallback_target("/app_wasm_bg.wasm", &AssetPaths::default()),
        FallbackTarget::AppAsset
    );
    assert_eq!(fallback_target("/app_wasm.js", &AssetPaths::default()), FallbackTarget::AppAsset);
}

#[test]
fn other_files_are_served_from_static_directory() {
    let mut svc = RoutableService::new((), ());
    svc.mark_ready(Handler::Primary);
    svc.mark_ready(Handler::Fallback);
    assert_eq!(svc.dispatch("/img/bevy.svg"), Handler::Fallback);
    assert_eq!(fallback_target("/img/bevy.svg", &AssetPaths::default()), FallbackTarget::StaticDir);
    assert_eq!(fallback_target("/app_wasm_bg.wasm/", &AssetPaths::default()), FallbackTarget::StaticDir);
}

#[test]
fn configured_asset_paths_are_used() {
    let a = AssetPaths::new("/pkg/site.js".to_string(), "/pkg/site.wasm".to_string());
    assert_eq!(fallback_target("/pkg/site.js", &a), FallbackTarget::AppAsset);
    assert_eq!(fallback_target("/pkg/site.wasm", &a), FallbackTarget::AppAsset);
    assert_eq!(fallback_target("/app_wasm_bg.wasm", &a), FallbackTarget::StaticDir);
}
