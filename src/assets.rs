//! The paths of the client application's script and binary modules, and the
//! routing of requests that no page claims.
use vstd::prelude::*;

verus! {

/// Where the client application's modules are served.
#[derive(Clone, Debug, PartialEq, Eq)]
pub struct AssetPaths {
    /// The script module that loads the binary module.
    pub js_path: String,
    /// The binary module.
    pub wasm_path: String,
}

pub open spec fn default_js_path() -> Seq<char> {
    "/app_wasm.js"@
}

pub open spec fn default_wasm_path() -> Seq<char> {
    "/app_wasm_bg.wasm"@
}

impl AssetPaths {
    pub fn new(js_path: String, wasm_path: String) -> (r: Self)
        ensures
            r.js_path@ == js_path@,
            r.wasm_path@ == wasm_path@,
    {
        AssetPaths { js_path, wasm_path }
    }
}

impl Default for AssetPaths {
    /// The modules at their usual paths.
    fn default() -> (r: Self)
        ensures
            r.js_path@ == default_js_path(),
            r.wasm_path@ == default_wasm_path(),
    {
        AssetPaths {
            js_path: String::from_str("/app_wasm.js"),
            wasm_path: String::from_str("/app_wasm_bg.wasm"),
        }
    }
}

/// Where the fallback handler looks for a file.
#[derive(Clone, Copy, Debug, PartialEq, Eq, Structural)]
pub enum FallbackTarget {
    /// The client application's modules, served from the application's own
    /// directory.
    AppAsset,
    /// The site-wide static directory.
    StaticDir,
}

/// The fallback handler's choice for path `p`: the two module paths go to
/// the application's directory, everything else to the static directory.
pub open spec fn fallback_target_of(p: Seq<char>, js: Seq<char>, wasm: Seq<char>) -> FallbackTarget {
    if p == js || p == wasm {
        FallbackTarget::AppAsset
    } else {
        FallbackTarget::StaticDir
    }
}

/// Chooses where the fallback handler serves `path` from.
pub fn fallback_target(path: &str, assets: &AssetPaths) -> (r: FallbackTarget)
    ensures
        r == fallback_target_of(path@, assets.js_path@, assets.wasm_path@),
{
    let p = path.to_owned();
    if p == assets.js_path || p == assets.wasm_path {
        FallbackTarget::AppAsset
    } else {
        FallbackTarget::StaticDir
    }
}

} // verus!
