use peekscreen::capture::{
    find_window, first_title_match, list_windows, monitor_to_info, select_monitor,
    window_to_info, CaptureError, MonitorRecord, WindowRecord,
};

fn window(id: u32, title: &str, minimized: bool, width: u32, height: u32, focused: bool) -> WindowRecord {
    WindowRecord {
        id: Some(id),
        title: Some(title.to_string()),
        app_name: Some(format!("app{id}")),
        width: Some(width),
        height: Some(height),
        is_minimized: Some(minimized),
        is_focused: Some(focused),
    }
}

fn unknown_window() -> WindowRecord {
    WindowRecord {
        id: None,
        title: None,
        app_name: None,
        width: None,
        height: None,
        is_minimized: None,
        is_focused: None,
    }
}

fn monitor(id: u32, name: &str, primary: Option<bool>) -> MonitorRecord {
    MonitorRecord {
        id: Some(id),
        name: Some(name.to_string()),
        width: Some(1920),
        height: Some(1080),
        is_primary: primary,
    }
}

fn desktop() -> Vec<WindowRecord> {
    vec![
        window(1, "Terminal", false, 800, 600, false),
        window(2, "", false, 800, 600, false),
        window(3, "Minimized Editor", true, 800, 600, false),
        window(4, "Zero", false, 0, 600, false),
        window(5, "Visual Studio Code", false, 1200, 900, true),
        unknown_window(),
        window(7, "visual studio installer", false, 400, 300, false),
    ]
}

#[test]
fn list_windows_keeps_titled_visible_windows_in_order() {
    let listed = list_windows(&desktop());
    let ids: Vec<u32> = listed.iter().map(|w| w.id).collect();
    assert_eq!(ids, vec![1, 5, 7]);
    for w in &listed {
        assert!(!w.title.is_empty());
        assert!(w.width > 0);
        assert!(w.height > 0);
    }
    assert_eq!(listed[1].title, "Visual Studio Code");
    assert_eq!(listed[1].app_name, "app5");
    assert!(listed[1].is_focused);
    assert!(list_windows(&Vec::new()).is_empty());
}

#[test]
fn missing_properties_get_defaults() {
    let info = window_to_info(&unknown_window());
    assert_eq!(info.id, 0);
    assert_eq!(info.title, "");
    assert_eq!(info.app_name, "");
    assert_eq!((info.width, info.height), (0, 0));
    assert!(!info.is_focused);
    let m = monitor_to_info(&MonitorRecord {
        id: None,
        name: None,
        width: None,
        height: None,
        is_primary: None,
    });
    assert_eq!((m.id, m.name.as_str(), m.width, m.height, m.is_primary), (0, "", 0, 0, false));
}

#[test]
fn find_window_by_id_takes_precedence() {
    let ws = desktop();
    let (i, info) = find_window(&ws, Some(7), Some("Terminal")).unwrap();
    assert_eq!(i, 6);
    assert_eq!(info.id, 7);
    // Any window can be found by id, listed or not.
    let (i, _) = find_window(&ws, Some(3), None).unwrap();
    assert_eq!(i, 2);
    // A window with no id counts as id 0.
    let (i, _) = find_window(&ws, Some(0), None).unwrap();
    assert_eq!(i, 5);
    let err = find_window(&ws, Some(42), None).unwrap_err();
    assert!(matches!(err, CaptureError::NoWindowWithId(42)));
    assert_eq!(err.message(), "No window found with id 42");
}

#[test]
fn find_window_by_title_ignores_case_and_takes_the_first() {
    let ws = desktop();
    let (i, info) = find_window(&ws, None, Some("VISUAL studio")).unwrap();
    assert_eq!(i, 4);
    assert_eq!(info.title, "Visual Studio Code");
    let (i, _) = find_window(&ws, None, Some("installer")).unwrap();
    assert_eq!(i, 6);
    let (i, _) = find_window(&ws, None, Some("editor")).unwrap();
    assert_eq!(i, 2);
    // The empty query is part of every title.
    let (i, _) = find_window(&ws, None, Some("")).unwrap();
    assert_eq!(i, 0);
    let err = find_window(&ws, None, Some("Browser")).unwrap_err();
    assert_eq!(err.message(), "No window found matching title \"Browser\"");
}

#[test]
fn find_window_defaults_to_the_focused_window() {
    let ws = desktop();
    let (i, info) = find_window(&ws, None, None).unwrap();
    assert_eq!(i, 4);
    assert!(info.is_focused);
    let unfocused = vec![window(1, "a", false, 1, 1, false)];
    let err = find_window(&unfocused, None, None).unwrap_err();
    assert!(matches!(err, CaptureError::NoFocusedWindow));
    assert_eq!(err.message(), "No focused window found. Specify a title or id.");
}

#[test]
fn listed_windows_are_found_by_id_and_title() {
    let ws = desktop();
    for info in list_windows(&ws) {
        let (_, by_id) = find_window(&ws, Some(info.id), None).unwrap();
        assert_eq!(by_id.id, info.id);
        assert!(find_window(&ws, None, Some(&info.title)).is_ok());
    }
}

#[test]
fn title_matching_over_lowered_titles() {
    let titles = vec!["terminal".to_string(), "code".to_string(), "vs code".to_string()];
    assert_eq!(first_title_match(&titles, "code"), Some(1));
    assert_eq!(first_title_match(&titles, "CODE"), None);
    assert_eq!(first_title_match(&titles, ""), Some(0));
    assert_eq!(first_title_match(&Vec::new(), ""), None);
}

#[test]
fn select_monitor_by_id_or_primary() {
    let ms = vec![
        monitor(10, "left", Some(false)),
        monitor(11, "main", Some(true)),
        monitor(12, "right", None),
    ];
    let (i, info) = select_monitor(&ms, None).unwrap();
    assert_eq!(i, 1);
    assert!(info.is_primary);
    assert_eq!(info.name, "main");
    let (i, info) = select_monitor(&ms, Some(12)).unwrap();
    assert_eq!(i, 2);
    assert_eq!(info.id, 12);
    assert!(!info.is_primary);
    let err = select_monitor(&ms, Some(5)).unwrap_err();
    assert_eq!(err.message(), "No monitor found with id 5");
    let err = select_monitor(&ms[..1].iter().map(|m| monitor(m.id.unwrap(), "x", Some(false))).collect(), None)
        .unwrap_err();
    assert_eq!(err.message(), "No primary monitor found");
}

#[test]
fn platform_failure_messages() {
    assert_eq!(
        CaptureError::WindowEnumeration("denied".to_string()).message(),
        "Failed to enumerate windows: denied. On macOS, grant Screen Recording permission in System Settings → Privacy & Security → Screen Recording."
    );
    assert_eq!(
        CaptureError::MonitorEnumeration("x".to_string()).message(),
        "Failed to enumerate monitors: x"
    );
    assert_eq!(
        CaptureError::WindowCapture("y".to_string()).message(),
        "Failed to capture window: y"
    );
    assert_eq!(
        CaptureError::ScreenCapture("z".to_string()).message(),
        "Failed to capture screen: z"
    );
}

#[test]
fn title_search_ignores_the_case_of_the_query() {
    let ws = desktop();
    for q in ["terminal", "visual studio", "INSTALLER", "Code"] {
        let lower = find_window(&ws, None, Some(&q.to_ascii_lowercase())).unwrap();
        let upper = find_window(&ws, None, Some(&q.to_ascii_uppercase())).unwrap();
        assert_eq!(lower.0, upper.0);
        assert_eq!(lower.1.id, upper.1.id);
    }
    assert!(find_window(&ws, None, Some("NOPE")).is_err());
    assert!(find_window(&ws, None, Some("nope")).is_err());
}
