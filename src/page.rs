//! Assembly of the HTML document around the server-rendered application.
use vstd::prelude::*;

use crate::assets::AssetPaths;
use crate::text::{replace_all, replace_str};

verus! {

/// The script element that loads the client application: the script module
/// at `js`, which then loads the binary module at `wasm`.
pub open spec fn init_head(js: Seq<char>, wasm: Seq<char>) -> Seq<char> {
    "\n\n    <script type=\"module\">\n      import init from \""@ + js + "\";\n      init(\""@
        + wasm + "\");\n    </script>\n"@
}

/// The page: the rendered application `app` placed at the start of the
/// template's body, and the loader script at the end of its head.
pub open spec fn page_of(template: Seq<char>, app: Seq<char>, js: Seq<char>, wasm: Seq<char>) -> Seq<
    char,
> {
    replace_all(
        replace_all(template, "<body>"@, "<body>"@ + app),
        "</head>"@,
        init_head(js, wasm) + "</head>"@,
    )
}

/// The script element that loads the client application from `assets`.
pub fn html_wasm_init_head(assets: &AssetPaths) -> (r: String)
    ensures
        r@ == init_head(assets.js_path@, assets.wasm_path@),
{
    let mut r = String::from_str("\n\n    <script type=\"module\">\n      import init from \"");
    r.append(assets.js_path.as_str());
    r.append("\";\n      init(\"");
    r.append(assets.wasm_path.as_str());
    r.append("\");\n    </script>\n");
    r
}

/// Places the rendered application `app` into the page template and the
/// loader script of `assets` into its head.
pub fn assemble_page(template: &str, app: &str, assets: &AssetPaths) -> (r: String)
    ensures
        r@ == page_of(template@, app@, assets.js_path@, assets.wasm_path@),
{
    proof {
        reveal_strlit("<body>");
        reveal_strlit("</head>");
    }
    let body = String::from_str("<body>").concat(app);
    let with_body = replace_str(template, "<body>", body.as_str());
    let head = html_wasm_init_head(assets).concat("</head>");
    replace_str(with_body.as_str(), "</head>", head.as_str())
}

} // verus!
