//! The browser session: one owned headless-browser process, a screenshot
//! routine over it, and a restart-once policy after tab-creation failure.
//!
//! Every browser operation is a call into headless_chrome behind a small
//! trusted wrapper; the sequencing, the retry policy and the error mapping
//! are verified. The session is not concurrency-safe on its own: callers
//! serialize it behind a mutex.
use vstd::prelude::*;
use vstd::string::*;

use std::sync::Arc;

use headless_chrome::Browser;
use headless_chrome::Element;
use headless_chrome::LaunchOptionsBuilder;
use headless_chrome::Tab;
use headless_chrome::browser::default_executable;
use headless_chrome::browser::tab::element::BoxModel;
use headless_chrome::protocol::browser::Bounds;
use headless_chrome::protocol::page::ScreenshotFormat;
use headless_chrome::protocol::page::Viewport;

use crate::error::ScreenshotError;

verus! {

#[verifier::external_type_specification]
#[verifier::external_body]
pub struct ExBrowser(Browser);

#[verifier::external_type_specification]
#[verifier::external_body]
pub struct ExTab(Tab);

#[verifier::external_type_specification]
#[verifier::external_body]
pub struct ExElement<'a>(Element<'a>);

#[verifier::external_type_specification]
#[verifier::external_body]
pub struct ExBoxModel(BoxModel);

#[verifier::external_type_specification]
#[verifier::external_body]
pub struct ExViewport(Viewport);

/// Relies on default_executable, LaunchOptionsBuilder::build and
/// Browser::new: launches a headless browser with default options, or
/// reports why it could not. (Browser::default would panic on a launch
/// failure instead of returning it, so the three steps are taken apart
/// here and each failure is mapped into the `Err`.)
#[verifier::external_body]
fn launch_browser() -> (r: Result<Browser, String>) {
    let path = default_executable()?;
    let options = LaunchOptionsBuilder::default()
        .path(Some(path))
        .build()
        .map_err(|e| e.to_string())?;
    Browser::new(options).map_err(|e| e.to_string())
}

/// Relies on Browser::new_tab: opens a fresh tab in the running browser.
#[verifier::external_body]
fn open_tab(browser: &Browser) -> (r: Result<Arc<Tab>, String>) {
    browser.new_tab().map_err(|e| e.to_string())
}

/// Relies on Tab::navigate_to: points the tab at the given URL.
#[verifier::external_body]
fn navigate(tab: &Arc<Tab>, url: &str) -> (r: Result<(), String>) {
    tab.navigate_to(url).map(|_| ()).map_err(|e| e.to_string())
}

/// Relies on Tab::wait_for_element: waits until the selector matches some
/// element in the DOM, within the driver's default timeout.
#[verifier::external_body]
fn find_element<'a>(tab: &'a Arc<Tab>, selector: &str) -> (r: Result<Element<'a>, String>) {
    tab.wait_for_element(selector).map_err(|e| e.to_string())
}

/// Relies on Element::get_box_model: reads the element's box model.
#[verifier::external_body]
fn box_model(element: &Element<'_>) -> (r: Result<BoxModel, String>) {
    element.get_box_model().map_err(|e| e.to_string())
}

/// Relies on BoxModel::margin_viewport: the margin box as a capture clip.
#[verifier::external_body]
fn margin_viewport(model: &BoxModel) -> (r: Viewport) {
    model.margin_viewport()
}

/// Reads the box model's layout width in CSS pixels.
#[verifier::external_body]
fn model_width(model: &BoxModel) -> (r: u32) {
    model.width
}

/// Reads the box model's layout height in CSS pixels.
#[verifier::external_body]
fn model_height(model: &BoxModel) -> (r: u32) {
    model.height
}

/// Relies on Tab::set_bounds: resizes the browser window.
#[verifier::external_body]
fn set_window_bounds(tab: &Arc<Tab>, left: u32, top: u32, width: u32, height: u32) -> (r: Result<
    (),
    String,
>) {
    tab.set_bounds(
        Bounds::Normal {
            left: Some(left),
            top: Some(top),
            width: Some(width),
            height: Some(height),
        },
    ).map(|_| ()).map_err(|e| e.to_string())
}

/// Relies on Tab::capture_screenshot: a full-quality PNG clipped to the
/// given viewport.
#[verifier::external_body]
fn capture_png(tab: &Arc<Tab>, clip: Viewport) -> (r: Result<Vec<u8>, String>) {
    tab.capture_screenshot(ScreenshotFormat::PNG, Some(clip), true).map_err(|e| e.to_string())
}

/// How much taller than the article the window is made, so that headless
/// window chrome cannot shave the bottom of the capture.
pub const HEIGHT_PADDING: u32 = 200;

/// The `file://` URL the tab is pointed at for an on-disk document.
pub fn file_url(path: &str) -> (r: String)
    ensures
        r@ == "file://"@ + path@,
{
    let mut url = String::new();
    url.append("file://");
    url.append(path);
    proof {
        assert(url@ =~= "file://"@ + path@);
    }
    url
}

/// The window height for an article of layout height `h`: exactly
/// `HEIGHT_PADDING` taller, saturating at `u32::MAX`.
pub fn padded_height(h: u32) -> (r: u32)
    ensures
        h <= u32::MAX - HEIGHT_PADDING ==> r == h + HEIGHT_PADDING,
        h > u32::MAX - HEIGHT_PADDING ==> r == u32::MAX,
{
    if h <= u32::MAX - HEIGHT_PADDING {
        h + HEIGHT_PADDING
    } else {
        u32::MAX
    }
}

/// Whether the session's tab acquisition comes out alive, over the
/// abstract outcomes of its three steps: the first tab-open attempt, the
/// browser replacement, and the single retry. A first success needs
/// neither of the others; a first failure is recovered exactly when the
/// replacement and the retry both succeed. There is no second retry.
pub open spec fn tab_policy_ok(first_ok: bool, restart_ok: bool, retry_ok: bool) -> bool {
    first_ok || (restart_ok && retry_ok)
}

/// The restart policy: a single tab-open failure is survived when the
/// fresh browser serves the retry; a failed replacement or a second
/// tab-open failure ends the acquisition.
pub proof fn lemma_restart_policy()
    ensures
        forall|restart_ok: bool, retry_ok: bool| tab_policy_ok(true, restart_ok, retry_ok),
        tab_policy_ok(false, true, true),
        !tab_policy_ok(false, false, true),
        !tab_policy_ok(false, true, false),
        !tab_policy_ok(false, false, false),
{
}

/// One headless-browser process and its control channel. Created once at
/// startup, replaced after a tab-creation failure, destroyed at exit.
pub struct ScreenshotManager {
    browser: Browser,
}

impl ScreenshotManager {
    /// Launches the browser. The only failure is `BrowserCreateErr`.
    pub fn init() -> (r: Result<ScreenshotManager, ScreenshotError>)
        ensures
            r matches Err(e) ==> e is BrowserCreateErr,
    {
        match launch_browser() {
            Ok(browser) => Ok(ScreenshotManager { browser }),
            Err(msg) => Err(ScreenshotError::BrowserCreateErr(msg)),
        }
    }

    /// Discards the current browser and launches a replacement. The only
    /// failure is `BrowserCreateErr`.
    fn restart_browser(&mut self) -> (r: Result<(), ScreenshotError>)
        ensures
            r matches Err(e) ==> e is BrowserCreateErr,
    {
        match launch_browser() {
            Ok(browser) => {
                self.browser = browser;
                Ok(())
            },
            Err(msg) => Err(ScreenshotError::BrowserCreateErr(msg)),
        }
    }

    /// Opens a tab under the restart policy (`tab_policy_ok`): on a first
    /// failure the browser is replaced and the open retried once. Every
    /// failure surfaces as `TabCreateErr`.
    fn acquire_tab(&mut self) -> (r: Result<Arc<Tab>, ScreenshotError>)
        ensures
            r matches Err(e) ==> e is TabCreateErr,
    {
        match open_tab(&self.browser) {
            Ok(tab) => Ok(tab),
            Err(_) => match self.restart_browser() {
                Err(restart_err) => Err(ScreenshotError::TabCreateErr(restart_err.message())),
                Ok(()) => match open_tab(&self.browser) {
                    Ok(tab) => Ok(tab),
                    Err(msg) => Err(ScreenshotError::TabCreateErr(msg)),
                },
            },
        }
    }

    /// Renders the document at `file_url(full_file_path)` and captures a
    /// PNG of the Markdown article's margin box, after resizing the window
    /// to the article's layout width and `padded_height` of its layout
    /// height (those two carry the exact contracts on what the resize and
    /// the navigation are handed). The window is sized from the box
    /// model's integer width and height; the capture clip stays the margin
    /// viewport itself. Waits for the `div.finish` sentinel before
    /// measuring. Each step's failure keeps its own error kind; a
    /// browser-creation failure during the restart policy surfaces as
    /// `TabCreateErr`, never as `BrowserCreateErr`.
    pub fn screenshot(&mut self, full_file_path: &str) -> (r: Result<Vec<u8>, ScreenshotError>)
        ensures
            r matches Err(e) ==> !(e is BrowserCreateErr),
    {
        let tab = match self.acquire_tab() {
            Ok(tab) => tab,
            Err(e) => {
                return Err(e);
            },
        };
        let url = file_url(full_file_path);
        match navigate(&tab, url.as_str()) {
            Ok(()) => (),
            Err(msg) => {
                return Err(ScreenshotError::InvalidFilePath(msg));
            },
        }
        match find_element(&tab, "div.finish") {
            Ok(_) => (),
            Err(msg) => {
                return Err(ScreenshotError::TabOperateErr(msg));
            },
        }
        let model = match find_element(&tab, "article.markdown-body") {
            Ok(article) => match box_model(&article) {
                Ok(model) => model,
                Err(msg) => {
                    return Err(ScreenshotError::TabOperateErr(msg));
                },
            },
            Err(msg) => {
                return Err(ScreenshotError::TabOperateErr(msg));
            },
        };
        let clip = margin_viewport(&model);
        let width = model_width(&model);
        let height = model_height(&model);
        match set_window_bounds(&tab, 0, 0, width, padded_height(height)) {
            Ok(()) => (),
            Err(msg) => {
                return Err(ScreenshotError::TabOperateErr(msg));
            },
        }
        match capture_png(&tab, clip) {
            Ok(png) => Ok(png),
            Err(msg) => Err(ScreenshotError::ScreenshotCreateErr(msg)),
        }
    }
}

} // verus!
