//! What the screenshot tools answer: the parameters they take, the text that
//! describes a captured window or monitor, and the encoded screenshot.

use vstd::prelude::*;

use crate::capture::{MonitorInfo, WindowInfo};
use crate::imaging::{
    encoded_answer, format_of_name, image_to_base64, scaled_version, width_limit, Image, ImageFormat,
    ImagingError,
};
use crate::text::{bool_text, bool_text_spec, decimal, decimal_text};

verus! {

/// Parameters of the window screenshot tool.
#[derive(Debug)]
pub struct ScreenshotWindowParams {
    /// Window title substring to search for (case-insensitive). If omitted and
    /// no id given, captures the focused window.
    pub title: Option<String>,
    /// Exact window ID from list_windows.
    pub id: Option<u32>,
    /// Maximum image width in pixels (default: 1920). Image is proportionally
    /// downscaled if wider.
    pub max_width: Option<u32>,
    /// Output format: "png" (default) or "jpeg".
    pub format: Option<String>,
}

/// Parameters of the screen screenshot tool.
#[derive(Debug)]
pub struct ScreenshotScreenParams {
    /// Monitor ID to capture. If omitted, captures the primary monitor.
    pub monitor_id: Option<u32>,
    /// Maximum image width in pixels (default: 1920). Image is proportionally
    /// downscaled if wider.
    pub max_width: Option<u32>,
    /// Output format: "png" (default) or "jpeg".
    pub format: Option<String>,
}

/// A screenshot as the tools return it: the base64 image, its MIME type, and
/// the text that describes what was captured.
#[derive(Debug)]
pub struct Screenshot {
    pub data: String,
    pub mime_type: &'static str,
    pub text: String,
}

/// The view of an optional owned text.
pub open spec fn opt_string_view(s: Option<String>) -> Option<Seq<char>> {
    match s {
        Some(t) => Some(t@),
        None => None,
    }
}

/// The text that describes a captured window.
pub open spec fn window_text(info: WindowInfo) -> Seq<char> {
    "Window: "@ + info.title@ + " ("@ + info.app_name@ + ")\nID: "@ + decimal(info.id as nat)
        + "\nSize: "@ + decimal(info.width as nat) + "x"@ + decimal(info.height as nat)
        + "\nFocused: "@ + bool_text_spec(info.is_focused)
}

/// The text that describes a captured monitor.
pub open spec fn monitor_text(info: MonitorInfo) -> Seq<char> {
    "Monitor: "@ + info.name@ + " (id: "@ + decimal(info.id as nat) + ")\nSize: "@ + decimal(
        info.width as nat,
    ) + "x"@ + decimal(info.height as nat) + "\nPrimary: "@ + bool_text_spec(info.is_primary)
}

pub fn window_info_text(info: &WindowInfo) -> (r: String)
    ensures
        r@ == window_text(*info),
{
    let mut s = "Window: ".to_owned();
    s.append(info.title.as_str());
    s.append(" (");
    s.append(info.app_name.as_str());
    s.append(")\nID: ");
    s.append(decimal_text(info.id).as_str());
    s.append("\nSize: ");
    s.append(decimal_text(info.width).as_str());
    s.append("x");
    s.append(decimal_text(info.height).as_str());
    s.append("\nFocused: ");
    s.append(bool_text(info.is_focused).as_str());
    s
}

pub fn monitor_info_text(info: &MonitorInfo) -> (r: String)
    ensures
        r@ == monitor_text(*info),
{
    let mut s = "Monitor: ".to_owned();
    s.append(info.name.as_str());
    s.append(" (id: ");
    s.append(decimal_text(info.id).as_str());
    s.append(")\nSize: ");
    s.append(decimal_text(info.width).as_str());
    s.append("x");
    s.append(decimal_text(info.height).as_str());
    s.append("\nPrimary: ");
    s.append(bool_text(info.is_primary).as_str());
    s
}

/// The optional format name as a borrowed text.
fn format_name(format: &Option<String>) -> (r: Option<&str>)
    ensures
        match r {
            Some(t) => format matches Some(s) && t@ == s@,
            None => format is None,
        },
{
    match format {
        Some(s) => Some(s.as_str()),
        None => None,
    }
}

/// What a screenshot tool answers for a captured image: the image scaled to
/// the width limit (one of the scalings `resize_image` may give), encoded in
/// the requested format and wrapped in base64, together with `text`.
pub open spec fn screenshot_answer(
    r: Result<Screenshot, ImagingError>,
    img: (u32, u32, Seq<u8>),
    max_width: Option<u32>,
    format: Option<String>,
    text: Seq<char>,
) -> bool {
    let fmt = format_of_name(opt_string_view(format));
    exists|s: (u32, u32, Seq<u8>)|
        scaled_version(img, width_limit(max_width), s) && #[trigger] encoded_answer(
            image_part(r),
            s,
            fmt,
        ) && (r matches Ok(shot) ==> shot.text@ == text)
}

/// The base64 image and MIME type of a screenshot answer.
pub open spec fn image_part(r: Result<Screenshot, ImagingError>) -> Result<
    (String, &'static str),
    ImagingError,
> {
    match r {
        Ok(shot) => Ok((shot.data, shot.mime_type)),
        Err(e) => Err(e),
    }
}

fn screenshot(img: &Image, max_width: Option<u32>, format: &Option<String>, text: String) -> (r:
    Result<Screenshot, ImagingError>)
    ensures
        screenshot_answer(r, img@, max_width, *format, text@),
{
    let name = format_name(format);
    let fmt = ImageFormat::from_str_opt(name);
    let encoded = image_to_base64(img, max_width, fmt);
    let ghost witness = choose|s: (u32, u32, Seq<u8>)|
        scaled_version(img@, width_limit(max_width), s) && #[trigger] encoded_answer(
            encoded,
            s,
            fmt,
        );
    let r = match encoded {
        Ok((data, mime_type)) => Ok(Screenshot { data, mime_type, text }),
        Err(e) => Err(e),
    };
    proof {
        assert(image_part(r) == encoded);
        assert(encoded_answer(image_part(r), witness, fmt));
    }
    r
}

/// The answer of the window screenshot tool for the window `info` whose
/// captured image is `img`.
pub fn window_screenshot(params: &ScreenshotWindowParams, info: &WindowInfo, img: &Image) -> (r:
    Result<Screenshot, ImagingError>)
    ensures
        screenshot_answer(r, img@, params.max_width, params.format, window_text(*info)),
{
    screenshot(img, params.max_width, &params.format, window_info_text(info))
}

/// The answer of the screen screenshot tool for the monitor `info` whose
/// captured image is `img`.
pub fn screen_screenshot(params: &ScreenshotScreenParams, info: &MonitorInfo, img: &Image) -> (r:
    Result<Screenshot, ImagingError>)
    ensures
        screenshot_answer(r, img@, params.max_width, params.format, monitor_text(*info)),
{
    screenshot(img, params.max_width, &params.format, monitor_info_text(info))
}

} // verus!
