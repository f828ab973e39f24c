//! Failures of the browser session and of the render pipeline.
use vstd::prelude::*;
use vstd::string::*;

verus! {

/// What went wrong while turning an HTML file into a PNG.
///
/// Each variant carries the underlying driver's message. None is retried
/// internally except tab creation, which the session retries once after
/// replacing the browser.
#[derive(Debug)]
pub enum ScreenshotError {
    BrowserCreateErr(String),
    TabCreateErr(String),
    TabOperateErr(String),
    InvalidFilePath(String),
    ScreenshotCreateErr(String),
}

/// The fixed prefix of each error's display form.
pub open spec fn error_prefix(e: ScreenshotError) -> Seq<char> {
    match e {
        ScreenshotError::BrowserCreateErr(_) => "BrowserBuildErr: "@,
        ScreenshotError::TabCreateErr(_) => "TabCreateErr: "@,
        ScreenshotError::TabOperateErr(_) => "TabOperateErr: "@,
        ScreenshotError::InvalidFilePath(_) => "InvalidFilePath: "@,
        ScreenshotError::ScreenshotCreateErr(_) => "ScreenshotCreateErr: "@,
    }
}

/// The driver message an error carries.
pub open spec fn error_detail(e: ScreenshotError) -> Seq<char> {
    match e {
        ScreenshotError::BrowserCreateErr(s) => s@,
        ScreenshotError::TabCreateErr(s) => s@,
        ScreenshotError::TabOperateErr(s) => s@,
        ScreenshotError::InvalidFilePath(s) => s@,
        ScreenshotError::ScreenshotCreateErr(s) => s@,
    }
}

impl ScreenshotError {
    /// Display form: the variant's fixed prefix followed by the detail.
    pub fn message(&self) -> (r: String)
        ensures
            r@ == error_prefix(*self) + error_detail(*self),
    {
        let mut out = String::new();
        match self {
            ScreenshotError::BrowserCreateErr(s) => {
                out.append("BrowserBuildErr: ");
                out.append(s.as_str());
            },
            ScreenshotError::TabCreateErr(s) => {
                out.append("TabCreateErr: ");
                out.append(s.as_str());
            },
            ScreenshotError::TabOperateErr(s) => {
                out.append("TabOperateErr: ");
                out.append(s.as_str());
            },
            ScreenshotError::InvalidFilePath(s) => {
                out.append("InvalidFilePath: ");
                out.append(s.as_str());
            },
            ScreenshotError::ScreenshotCreateErr(s) => {
                out.append("ScreenshotCreateErr: ");
                out.append(s.as_str());
            },
        }
        proof {
            assert(out@ =~= error_prefix(*self) + error_detail(*self));
        }
        out
    }
}

/// Failures of the completion facade.
#[derive(Clone, Copy, Debug, PartialEq, Eq, Structural)]
pub enum CompletionError {
    /// The completion endpoint returned no choices at all.
    RequestFailed,
    /// A choice came back, but it carried no content.
    NoContent,
}

/// The display form of a completion failure.
pub open spec fn completion_error_text(e: CompletionError) -> Seq<char> {
    match e {
        CompletionError::RequestFailed => "request failed"@,
        CompletionError::NoContent => "no content"@,
    }
}

impl CompletionError {
    /// Display form of the failure.
    pub fn message(&self) -> (r: String)
        ensures
            r@ == completion_error_text(*self),
    {
        match self {
            CompletionError::RequestFailed => String::from_str("request failed"),
            CompletionError::NoContent => String::from_str("no content"),
        }
    }
}

} // verus!
