use ssr_router::assets::AssetPaths;
use ssr_router::page::{assemble_page, html_wasm_init_head};
use ssr_router::routes::recognize;
use ssr_router::text::replace_str;

const HEAD: &str = "\n\n    <script type=\"module\">\n      import init from \"/app_wasm.js\";\n      init(\"/app_wasm_bg.wasm\");\n    </script>\n";

#[test]
fn init_head_names_both_modules() {
    assert_eq!(html_wasm_init_head(&AssetPaths::default()), HEAD);
}

#[test]
fn init_head_uses_configured_paths() {
    let a = AssetPaths::new("/a.js".to_string(), "/b.wasm".to_string());
    let head = html_wasm_init_head(&a);
    assert!(head.contains("import init from \"/a.js\";"));
    assert!(head.contains("init(\"/b.wasm\");"));
}

#[test]
fn root_page_holds_app_and_loader() {
    assert!(recognize("/").is_some());
    let template = "<html><head><title>t</title></head><body></body></html>";
    let page = assemble_page(template, "<main>hi</main>", &AssetPaths::default());
    let expected = format!(
        "<html><head><title>t</title>{}</head><body><main>hi</main></body></html>",
        HEAD
    );
    assert_eq!(page, expected);
}

#[test]
fn template_without_markers_is_unchanged() {
    let page = assemble_page("<p>plain</p>", "<main/>", &AssetPaths::default());
    assert_eq!(page, "<p>plain</p>");
}

#[test]
fn empty_template_gives_empty_page() {
    assert_eq!(assemble_page("", "<main/>", &AssetPaths::default()), "");
}

#[test]
fn replace_covers_every_occurrence() {
    assert_eq!(replace_str("a-b-c", "-", "+"), "a+b+c");
    assert_eq!(replace_str("aaa", "aa", "b"), "ba");
    assert_eq!(replace_str("x\u{2728}y\u{2728}", "\u{2728}", "!"), "x!y!");
    assert_eq!(replace_str("abc", "abcd", "z"), "abc");
    assert_eq!(replace_str("", "a", "z"), "");
}
