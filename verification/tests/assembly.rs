use aiqa::html::assemble;
use aiqa::theme::Theme;

#[test]
fn assemble_is_deterministic() {
    let md = "# Title\n\nSome *text* with `code`.\n";
    let a = assemble(md, Theme::Light);
    let b = assemble(md, Theme::Light);
    assert_eq!(a, b);
    let c = assemble(md, Theme::Dark);
    let d = assemble(md, Theme::Dark);
    assert_eq!(c, d);
}

#[test]
fn light_document_carries_light_css_only() {
    let out = assemble("**hello**", Theme::Light);
    assert!(out.contains("/* github-markdown light */"));
    assert!(out.contains("/* highlight github light */"));
    assert!(!out.contains("/* github-markdown dark */"));
    assert!(!out.contains("/* highlight github dark */"));
    assert!(out.contains("color-scheme: light"));
    assert!(!out.contains("color-scheme: dark"));
    assert!(out.contains("<strong>hello</strong>"));
}

#[test]
fn dark_document_carries_dark_css_only() {
    let out = assemble("**hello**", Theme::Dark);
    assert!(out.contains("/* github-markdown dark */"));
    assert!(out.contains("/* highlight github dark */"));
    assert!(!out.contains("/* github-markdown light */"));
    assert!(!out.contains("/* highlight github light */"));
    assert!(out.contains("color-scheme: dark"));
    assert!(!out.contains("color-scheme: light"));
}

#[test]
fn document_is_self_contained() {
    let out = assemble("plain words, nothing else", Theme::Light);
    assert!(!out.contains("http://"));
    assert!(!out.contains("https://"));
    assert!(!out.contains("<link"));
    assert!(!out.contains("src="));
}

#[test]
fn document_has_one_article_and_the_sentinel_script() {
    let out = assemble("a *b* c", Theme::Light);
    assert_eq!(out.matches("<article class=\"markdown-body\">").count(), 1);
    assert!(out.contains("DOMContentLoaded"));
    assert!(out.contains("document.createElement('div')"));
    assert!(out.contains("classList.add('finish')"));
    assert!(out.contains("maxWidth = '500px'"));
    assert!(out.contains("hljs.highlightAll();"));
}

#[test]
fn markdown_extensions_are_enabled() {
    let out = assemble(
        "~~gone~~\n\n| a | b |\n| - | - |\n| 1 | 2 |\n",
        Theme::Light,
    );
    assert!(out.contains("<del>gone</del>"));
    assert!(out.contains("<table>"));
}

#[test]
fn segments_come_in_fixed_order() {
    let out = assemble("body-text-here", Theme::Light);
    let md_css = out.find("/* github-markdown light */").unwrap();
    let hl_css = out.find("/* highlight github light */").unwrap();
    let article = out.find("<article class=\"markdown-body\">").unwrap();
    let body = out.find("body-text-here").unwrap();
    let hljs = out.find("hljs.highlightAll();").unwrap();
    let finish = out.find("classList.add('finish')").unwrap();
    assert!(md_css < hl_css);
    assert!(hl_css < article);
    assert!(article < body);
    assert!(body < hljs);
    assert!(hljs < finish);
}

#[test]
fn unicode_markdown_renders() {
    let md = "# 你好呀!\n\n已知过点$A(-1, 0)$两点的动抛物线。\n";
    let out = assemble(md, Theme::Light);
    assert!(out.contains("你好呀!"));
    assert!(out.ends_with("</script>\n</body></html>"));
}
