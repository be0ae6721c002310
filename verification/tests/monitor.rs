use session_bridge::monitor::{
    is_target_window, parse_scan_output, scan_shape, InstanceStatus, ScanError, ScanResult,
    ScanShape,
};

#[test]
fn empty_output_means_no_window() {
    assert!(parse_scan_output("").unwrap().is_empty());
    assert!(parse_scan_output(" \r\n\t ").unwrap().is_empty());
}

#[test]
fn a_list_gives_its_windows_in_order() {
    let output = r#"
    [
      {"windowTitle":"proj - Antigravity","windowHandle":1312,"processId":4711},
      {"windowTitle":"other","windowHandle":-5,"processId":0,"extra":null}
    ]
    "#;
    let windows = parse_scan_output(output).unwrap();
    assert_eq!(windows.len(), 2);
    assert_eq!(windows[0].window_title, "proj - Antigravity");
    assert_eq!(windows[0].window_handle, 1312);
    assert_eq!(windows[0].process_id, 4711);
    assert_eq!(windows[1].window_title, "other");
    assert_eq!(windows[1].window_handle, -5);
    assert_eq!(windows[1].process_id, 0);
}

#[test]
fn an_empty_list_gives_no_window() {
    assert!(parse_scan_output("[]").unwrap().is_empty());
}

#[test]
fn a_single_object_is_wrapped() {
    let windows =
        parse_scan_output(r#"{"windowTitle":"solo","windowHandle":9,"processId":77}"#).unwrap();
    assert_eq!(windows.len(), 1);
    assert_eq!(windows[0].window_title, "solo");
    assert_eq!(windows[0].window_handle, 9);
    assert_eq!(windows[0].process_id, 77);
}

#[test]
fn a_broken_list_is_reported_as_a_list() {
    for output in [
        "[",
        r#"[{"windowTitle":"a","windowHandle":1}]"#,
        r#"[{"windowTitle":"a","windowHandle":1,"processId":2}, 5]"#,
        r#"[{"windowTitle":1,"windowHandle":1,"processId":2}]"#,
        "[1] trailing",
    ] {
        assert_eq!(parse_scan_output(output).unwrap_err(), ScanError::NotAList);
    }
}

#[test]
fn a_broken_object_is_reported_as_an_object() {
    for output in [
        "Get-Process : access denied",
        "{",
        "{}",
        r#"{"windowTitle":"a","windowHandle":"1","processId":2}"#,
        "null",
        "7",
    ] {
        assert_eq!(parse_scan_output(output).unwrap_err(), ScanError::NotAWindow);
    }
}

#[test]
fn numbers_must_fit_their_fields() {
    let window = |handle: &str, pid: &str| {
        let text = format!(
            r#"{{"windowTitle":"t","windowHandle":{},"processId":{}}}"#,
            handle, pid
        );
        ScanResult::from_json(&serde_json::from_str(&text).unwrap())
    };
    assert_eq!(window("9223372036854775807", "4294967295").unwrap().window_handle, i64::MAX);
    assert_eq!(window("-9223372036854775808", "4294967295").unwrap().process_id, u32::MAX);
    assert!(window("9223372036854775808", "1").is_none());
    assert!(window("1", "4294967296").is_none());
    assert!(window("1", "-1").is_none());
    assert!(window("1.0", "1").is_none());
    assert!(window("1", "1.5").is_none());
}

#[test]
fn list_from_json_needs_every_element() {
    let good: serde_json::Value =
        serde_json::from_str(r#"{"windowTitle":"a","windowHandle":1,"processId":2}"#).unwrap();
    let bad: serde_json::Value = serde_json::from_str(r#"{"windowTitle":"a"}"#).unwrap();
    assert_eq!(ScanResult::list_from_json(&vec![good.clone(), good.clone()]).unwrap().len(), 2);
    assert!(ScanResult::list_from_json(&vec![good, bad]).is_none());
    assert!(ScanResult::list_from_json(&Vec::new()).unwrap().is_empty());
}

#[test]
fn shape_goes_by_the_first_mark() {
    assert_eq!(scan_shape(""), ScanShape::Empty);
    assert_eq!(scan_shape("\n\n"), ScanShape::Empty);
    assert_eq!(scan_shape("  [1]"), ScanShape::List);
    assert_eq!(scan_shape("[oops"), ScanShape::List);
    assert_eq!(scan_shape(" {\"a\":[]} "), ScanShape::Single);
    assert_eq!(scan_shape("x["), ScanShape::Single);
}

#[test]
fn idle_status_has_zero_counters() {
    let status = InstanceStatus::idle(1_700_000_000_123);
    assert_eq!(status.status, "idle");
    assert_eq!(status.current_issue, 0);
    assert_eq!(status.total_issues, 0);
    assert_eq!(status.retry_count, 0);
    assert_eq!(status.last_activity, 1_700_000_000_123);
    assert_eq!(status.step_count, 0);
}

#[test]
fn a_window_is_a_target_by_workspace_or_editor_name() {
    assert!(is_target_window("proj - main.rs", "proj"));
    assert!(is_target_window("notes - Antigravity", "proj"));
    assert!(is_target_window("notes - Visual Studio Code", ""));
    assert!(!is_target_window("Calculator", "proj"));
    assert!(!is_target_window("Calculator", ""));
    assert!(!is_target_window("antigravity", "proj"));
    assert!(!is_target_window("pro", "proj"));
    assert!(is_target_window("Antigravity", "Antigravity"));
}
