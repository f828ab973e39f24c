//! The HTML assembler: renders Markdown and wraps it in a fixed,
//! self-contained document whose CSS pair is picked by the theme.
//!
//! The document is a fixed-order concatenation: scaffolding, the Markdown
//! CSS blob of the theme, more scaffolding, the highlighter CSS blob of the
//! theme, the opening of the article, the rendered Markdown, the embedded
//! highlighter script, and a boot script that sizes the article and appends
//! the `div.finish` load sentinel. Everything is embedded: the page makes
//! no network fetch at render time.
use vstd::prelude::*;
use vstd::string::*;

use crate::text::contains_seq;
use crate::theme::Theme;

verus! {

/// Document head up to the opening of the first style block.
pub const HTML_START: &'static str = "<!doctype html>\n<html>\n<head>\n<meta name=\"viewport\" content=\"width=device-width, initial-scale=1\">\n<style>";

/// Header naming the Markdown CSS blob of the light theme.
pub const MD_MARK_LIGHT: &'static str = "/* github-markdown light */";

/// Header naming the Markdown CSS blob of the dark theme.
pub const MD_MARK_DARK: &'static str = "/* github-markdown dark */";

/// Header naming the highlighter CSS blob of the light theme.
pub const HL_MARK_LIGHT: &'static str = "/* highlight github light */";

/// Header naming the highlighter CSS blob of the dark theme.
pub const HL_MARK_DARK: &'static str = "/* highlight github dark */";

/// Markdown CSS, light theme.
pub const MD_CSS_LIGHT: &'static str = "\n.markdown-body { color-scheme: light; color: #1f2328; background-color: #ffffff; font-size: 16px; line-height: 1.5; word-wrap: break-word; }\n.markdown-body h1, .markdown-body h2 { padding-bottom: .3em; border-bottom: 1px solid #d1d9e0; }\n.markdown-body pre { background-color: #f6f8fa; border-radius: 6px; padding: 16px; overflow: auto; }\n.markdown-body code { font-family: ui-monospace, SFMono-Regular, Consolas, monospace; font-size: 85%; }\n.markdown-body blockquote { color: #59636e; border-left: .25em solid #d1d9e0; padding: 0 1em; margin: 0; }\n.markdown-body table { border-collapse: collapse; }\n.markdown-body td, .markdown-body th { border: 1px solid #d1d9e0; padding: 6px 13px; }\n.markdown-body a { color: #0969da; }\n";

/// Markdown CSS, dark theme.
pub const MD_CSS_DARK: &'static str = "\n.markdown-body { color-scheme: dark; color: #f0f6fc; background-color: #0d1117; font-size: 16px; line-height: 1.5; word-wrap: break-word; }\n.markdown-body h1, .markdown-body h2 { padding-bottom: .3em; border-bottom: 1px solid #3d444d; }\n.markdown-body pre { background-color: #151b23; border-radius: 6px; padding: 16px; overflow: auto; }\n.markdown-body code { font-family: ui-monospace, SFMono-Regular, Consolas, monospace; font-size: 85%; }\n.markdown-body blockquote { color: #9198a1; border-left: .25em solid #3d444d; padding: 0 1em; margin: 0; }\n.markdown-body table { border-collapse: collapse; }\n.markdown-body td, .markdown-body th { border: 1px solid #3d444d; padding: 6px 13px; }\n.markdown-body a { color: #4493f8; }\n";

/// Article sizing and page reset; closes the first style block and opens
/// the second.
pub const HTML_2: &'static str = "\n.markdown-body {\n    box-sizing: border-box;\n    width: 100%;\n    max-width: 720px;\n    margin: 0;\n    padding: 12px 12px 20px 12px;\n    height: auto;\n\n    font-family: \"MiSans\", -apple-system, BlinkMacSystemFont, \"Segoe UI\", \"Noto Sans\", Helvetica, Arial, sans-serif, \"Apple Color Emoji\", \"Segoe UI Emoji\";\n}\n\nbody{\n    font-family: Arial, sans-serif;\n    margin: 0;\n    padding: 0;\n    overflow: hidden;\n}\n</style>\n<style>\n";

/// Highlighter CSS, light theme.
pub const HLJS_CSS_LIGHT: &'static str = "\npre code.hljs { display: block; }\n.hljs { color: #24292e; background: #ffffff; }\n.hljs-keyword { color: #d73a49; }\n.hljs-string { color: #032f62; }\n.hljs-comment { color: #6a737d; }\n.hljs-number { color: #005cc5; }\n.hljs-title { color: #6f42c1; }\n";

/// Highlighter CSS, dark theme.
pub const HLJS_CSS_DARK: &'static str = "\npre code.hljs { display: block; }\n.hljs { color: #c9d1d9; background: #0d1117; }\n.hljs-keyword { color: #ff7b72; }\n.hljs-string { color: #a5d6ff; }\n.hljs-comment { color: #8b949e; }\n.hljs-number { color: #79c0ff; }\n.hljs-title { color: #d2a8ff; }\n";

/// Closes the styles and opens the single Markdown article.
pub const HTML_3: &'static str = "</style>\n</head>\n<body>\n<article class=\"markdown-body\">";

/// Closes the article and opens the highlighter script.
pub const HTML_4: &'static str = "</article><script>";

/// The embedded syntax highlighter: marks every code block as highlighted.
pub const HLJS_JS: &'static str = "var hljs = { highlightAll: function () { var blocks = document.querySelectorAll('pre code'); for (var i = 0; i < blocks.length; i++) { blocks[i].classList.add('hljs'); } } };";

/// Closes the highlighter, runs it, and opens the boot script.
pub const HTML_END_OPEN: &'static str = "</script><script>hljs.highlightAll();</script>\n<script>";

/// The boot script: once DOMContentLoaded fires it narrows prose-only
/// documents to 500px and appends the `div.finish` load sentinel.
pub const BOOT_SCRIPT: &'static str = "\nconst elementsToCheck = ['pre', 'code'];\n\ndocument.addEventListener(\"DOMContentLoaded\", function() {\n    const markdownBody = document.querySelector('.markdown-body');\n    let foundElement = false;\n\n    elementsToCheck.forEach(tag => {\n        if (markdownBody.querySelector(tag)) {\n            foundElement = true;\n        }\n    });\n\n    if (foundElement) {\n        markdownBody.style.maxWidth = '720px';\n    } else {\n        markdownBody.style.maxWidth = '500px';\n    }\n\n    const finishedElement = document.createElement('div');\n\n    finishedElement.classList.add('finish');\n\n    document.body.appendChild(finishedElement);\n});\n";

/// Closes the boot script and the document.
pub const HTML_END_CLOSE: &'static str = "</script>\n</body></html>";

/// The Markdown CSS blob a theme selects.
pub open spec fn md_css(t: Theme) -> Seq<char> {
    match t {
        Theme::Light => MD_CSS_LIGHT@,
        Theme::Dark => MD_CSS_DARK@,
    }
}

/// The header of the Markdown CSS blob a theme selects.
pub open spec fn md_mark(t: Theme) -> Seq<char> {
    match t {
        Theme::Light => MD_MARK_LIGHT@,
        Theme::Dark => MD_MARK_DARK@,
    }
}

/// The highlighter CSS blob a theme selects.
pub open spec fn hljs_css(t: Theme) -> Seq<char> {
    match t {
        Theme::Light => HLJS_CSS_LIGHT@,
        Theme::Dark => HLJS_CSS_DARK@,
    }
}

/// The header of the highlighter CSS blob a theme selects.
pub open spec fn hl_mark(t: Theme) -> Seq<char> {
    match t {
        Theme::Light => HL_MARK_LIGHT@,
        Theme::Dark => HL_MARK_DARK@,
    }
}

/// What pulldown-cmark renders a Markdown source to, with strikethrough,
/// tables, footnotes, math and the GitHub-flavored extensions enabled.
pub uninterp spec fn markdown_html(md: Seq<char>) -> Seq<char>;

/// Relies on pulldown_cmark's parser and HTML writer: the output is a
/// function of the input text and the (fixed) option set alone.
#[verifier::external_body]
fn render_markdown(md: &str) -> (r: String)
    ensures
        r@ == markdown_html(md@),
{
    let mut options = pulldown_cmark::Options::empty();
    options.insert(pulldown_cmark::Options::ENABLE_STRIKETHROUGH);
    options.insert(pulldown_cmark::Options::ENABLE_TABLES);
    options.insert(pulldown_cmark::Options::ENABLE_FOOTNOTES);
    options.insert(pulldown_cmark::Options::ENABLE_MATH);
    options.insert(pulldown_cmark::Options::ENABLE_GFM);
    let parser = pulldown_cmark::Parser::new_ext(md, options);
    let mut html_output = String::new();
    pulldown_cmark::html::push_html(&mut html_output, parser);
    html_output
}

/// The whole assembled document, as a function of source and theme.
pub open spec fn assembled(md: Seq<char>, t: Theme) -> Seq<char> {
    HTML_START@ + md_mark(t) + md_css(t) + HTML_2@ + hl_mark(t) + hljs_css(t) + HTML_3@
        + markdown_html(md) + HTML_4@ + HLJS_JS@ + HTML_END_OPEN@ + BOOT_SCRIPT@
        + HTML_END_CLOSE@
}

/// Renders a Markdown source to the self-contained themed document.
pub fn assemble(md: &str, t: Theme) -> (r: String)
    ensures
        r@ == assembled(md@, t),
{
    let rendered = render_markdown(md);
    let mut out = String::new();
    out.append(HTML_START);
    match t {
        Theme::Light => {
            out.append(MD_MARK_LIGHT);
            out.append(MD_CSS_LIGHT);
        },
        Theme::Dark => {
            out.append(MD_MARK_DARK);
            out.append(MD_CSS_DARK);
        },
    }
    out.append(HTML_2);
    match t {
        Theme::Light => {
            out.append(HL_MARK_LIGHT);
            out.append(HLJS_CSS_LIGHT);
        },
        Theme::Dark => {
            out.append(HL_MARK_DARK);
            out.append(HLJS_CSS_DARK);
        },
    }
    out.append(HTML_3);
    out.append(rendered.as_str());
    out.append(HTML_4);
    out.append(HLJS_JS);
    out.append(HTML_END_OPEN);
    out.append(BOOT_SCRIPT);
    out.append(HTML_END_CLOSE);
    proof {
        assert(out@ =~= assembled(md@, t));
    }
    out
}

/// The fixed scaffolding that precedes the rendered Markdown, for a theme.
pub open spec fn fixed_head(t: Theme) -> Seq<char> {
    HTML_START@ + md_mark(t) + md_css(t) + HTML_2@ + hl_mark(t) + hljs_css(t) + HTML_3@
}

/// The fixed scaffolding that follows the rendered Markdown.
pub open spec fn fixed_tail() -> Seq<char> {
    HTML_4@ + HLJS_JS@ + HTML_END_OPEN@ + BOOT_SCRIPT@ + HTML_END_CLOSE@
}

/// The document's only non-fixed bytes are the rendered Markdown: it is
/// exactly the fixed head of its theme, then the rendered segment, then
/// the fixed tail. Every other byte comes from the named embedded
/// constants above, so the document fetches nothing at render time that
/// the rendered Markdown itself does not reference.
pub proof fn lemma_document_shape(md: Seq<char>, t: Theme)
    ensures
        assembled(md, t) == fixed_head(t) + markdown_html(md) + fixed_tail(),
{
    assert(assembled(md, t) =~= fixed_head(t) + markdown_html(md) + fixed_tail());
}

/// Assembly is deterministic: any two documents assembled from the same
/// source and theme are byte-identical.
pub proof fn lemma_assemble_deterministic(md: Seq<char>, t: Theme, r1: Seq<char>, r2: Seq<char>)
    requires
        r1 == assembled(md, t),
        r2 == assembled(md, t),
    ensures
        r1 == r2,
{
}

/// A middle piece of a three-way concatenation is one of its subranges.
proof fn lemma_concat_middle(a: Seq<char>, b: Seq<char>, c: Seq<char>)
    ensures
        contains_seq(a + b + c, b),
{
    let s = a + b + c;
    assert(s.subrange(a.len() as int, a.len() as int + b.len() as int) =~= b);
    assert(0 <= a.len() <= s.len() - b.len());
}

/// The document carries the CSS of the theme it was assembled with: the
/// named blob of that theme occurs in it, headed by that theme's header
/// and not the other theme's.
pub proof fn lemma_theme_css_present(md: Seq<char>, t: Theme)
    ensures
        contains_seq(assembled(md, t), md_mark(t) + md_css(t)),
        contains_seq(assembled(md, t), hl_mark(t) + hljs_css(t)),
        (md_mark(t) == MD_MARK_LIGHT@ <==> t == Theme::Light),
        (hl_mark(t) == HL_MARK_LIGHT@ <==> t == Theme::Light),
{
    let s = assembled(md, t);
    let tail1 = HTML_2@ + hl_mark(t) + hljs_css(t) + HTML_3@ + markdown_html(md) + HTML_4@
        + HLJS_JS@ + HTML_END_OPEN@ + BOOT_SCRIPT@ + HTML_END_CLOSE@;
    lemma_concat_middle(HTML_START@, md_mark(t) + md_css(t), tail1);
    assert(HTML_START@ + (md_mark(t) + md_css(t)) + tail1 =~= s);
    let tail2 = HTML_3@ + markdown_html(md) + HTML_4@ + HLJS_JS@ + HTML_END_OPEN@ + BOOT_SCRIPT@
        + HTML_END_CLOSE@;
    lemma_concat_middle(HTML_START@ + md_mark(t) + md_css(t) + HTML_2@, hl_mark(t) + hljs_css(t), tail2);
    assert((HTML_START@ + md_mark(t) + md_css(t) + HTML_2@) + (hl_mark(t) + hljs_css(t)) + tail2
        =~= s);
    reveal_strlit("/* github-markdown light */");
    reveal_strlit("/* github-markdown dark */");
    reveal_strlit("/* highlight github light */");
    reveal_strlit("/* highlight github dark */");
    assert(MD_MARK_LIGHT@.len() != MD_MARK_DARK@.len());
    assert(HL_MARK_LIGHT@.len() != HL_MARK_DARK@.len());
}

/// Every assembled document carries the boot script that appends the
/// `div.finish` sentinel on DOMContentLoaded.
pub proof fn lemma_sentinel_present(md: Seq<char>, t: Theme)
    ensures
        contains_seq(assembled(md, t), BOOT_SCRIPT@),
{
    let s = assembled(md, t);
    let head = HTML_START@ + md_mark(t) + md_css(t) + HTML_2@ + hl_mark(t) + hljs_css(t) + HTML_3@
        + markdown_html(md) + HTML_4@ + HLJS_JS@ + HTML_END_OPEN@;
    lemma_concat_middle(head, BOOT_SCRIPT@, HTML_END_CLOSE@);
    assert(head + BOOT_SCRIPT@ + HTML_END_CLOSE@ =~= s);
}

} // verus!
