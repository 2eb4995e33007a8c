use peekscreen::capture::{MonitorInfo, WindowInfo};
use peekscreen::imaging::{encode_image, Image, ImageFormat};
use peekscreen::server::{
    monitor_info_text, screen_screenshot, window_info_text, window_screenshot,
    ScreenshotScreenParams, ScreenshotWindowParams,
};

fn sample_window() -> WindowInfo {
    WindowInfo {
        id: 42,
        title: "Notes".to_string(),
        app_name: "TextEdit".to_string(),
        width: 640,
        height: 480,
        is_focused: true,
    }
}

fn sample_monitor() -> MonitorInfo {
    MonitorInfo { id: 1, name: "Built-in".to_string(), width: 2560, height: 1600, is_primary: false }
}

#[test]
fn window_text_layout() {
    assert_eq!(
        window_info_text(&sample_window()),
        "Window: Notes (TextEdit)\nID: 42\nSize: 640x480\nFocused: true"
    );
}

#[test]
fn monitor_text_layout() {
    assert_eq!(
        monitor_info_text(&sample_monitor()),
        "Monitor: Built-in (id: 1)\nSize: 2560x1600\nPrimary: false"
    );
}

#[test]
fn window_screenshot_uses_the_requested_format() {
    let img = Image::blank(30, 20).unwrap();
    let params = ScreenshotWindowParams {
        title: None,
        id: None,
        max_width: Some(10),
        format: Some("JPG".to_string()),
    };
    let shot = window_screenshot(&params, &sample_window(), &img).unwrap();
    assert_eq!(shot.mime_type, "image/jpeg");
    assert!(shot.data.starts_with("/9j/"));
    assert_eq!(shot.text, "Window: Notes (TextEdit)\nID: 42\nSize: 640x480\nFocused: true");
}

#[test]
fn screen_screenshot_defaults_to_png() {
    let img = Image::blank(8, 8).unwrap();
    let params = ScreenshotScreenParams { monitor_id: None, max_width: None, format: None };
    let shot = screen_screenshot(&params, &sample_monitor(), &img).unwrap();
    assert_eq!(shot.mime_type, "image/png");
    assert!(shot.data.starts_with("iVBORw0KGgo"));
    assert!(encode_image(&img, ImageFormat::Png).is_ok());
    assert_eq!(shot.text, "Monitor: Built-in (id: 1)\nSize: 2560x1600\nPrimary: false");
}

#[test]
fn screenshot_of_an_empty_image_as_jpeg_fails() {
    let img = Image::blank(0, 0).unwrap();
    let params = ScreenshotScreenParams { monitor_id: None, max_width: None, format: Some("jpeg".to_string()) };
    assert!(screen_screenshot(&params, &sample_monitor(), &img).is_err());
}
