use core_agent::actions::{dispatch, ActionParams, ActionType};
use core_agent::error::LapisError;

#[test]
fn action_type_is_cloneable() {
    let t = ActionType::MouseClick;
    let t2 = t.clone();
    assert_eq!(t, t2);
}

#[test]
fn dispatch_mouse_click_simulated() {
    let mut params = ActionParams::new();
    params.insert("x".into(), "100".into());
    params.insert("y".into(), "200".into());
    params.insert("button".into(), "left".into());
    let result = dispatch(&ActionType::MouseClick, &params, true).unwrap();
    assert!(result.simulated);
    assert!(result.description.contains("left-clicked"));
    assert!(result.description.contains("100"));
}

#[test]
fn dispatch_mouse_move_simulated() {
    let mut params = ActionParams::new();
    params.insert("x".into(), "50".into());
    params.insert("y".into(), "75".into());
    let result = dispatch(&ActionType::MouseMove, &params, true).unwrap();
    assert!(result.description.contains("moved cursor"));
}

#[test]
fn dispatch_mouse_drag_simulated() {
    let mut params = ActionParams::new();
    params.insert("from_x".into(), "0".into());
    params.insert("from_y".into(), "0".into());
    params.insert("to_x".into(), "100".into());
    params.insert("to_y".into(), "100".into());
    let result = dispatch(&ActionType::MouseDrag, &params, true).unwrap();
    assert!(result.description.contains("dragged"));
}

#[test]
fn dispatch_keyboard_type_simulated() {
    let mut params = ActionParams::new();
    params.insert("text".into(), "Hello world".into());
    let result = dispatch(&ActionType::KeyboardType, &params, true).unwrap();
    assert!(result.description.contains("11 characters"));
    assert!(result.description.contains("Hello world"));
}

#[test]
fn dispatch_keyboard_press_simulated() {
    let mut params = ActionParams::new();
    params.insert("key".into(), "Enter".into());
    let result = dispatch(&ActionType::KeyboardPress, &params, true).unwrap();
    assert!(result.description.contains("Enter"));
}

#[test]
fn dispatch_keyboard_combo_simulated() {
    let mut params = ActionParams::new();
    params.insert("keys".into(), "Ctrl+S".into());
    let result = dispatch(&ActionType::KeyboardCombo, &params, true).unwrap();
    assert!(result.description.contains("Ctrl+S"));
}

#[test]
fn dispatch_window_focus_simulated() {
    let mut params = ActionParams::new();
    params.insert("window_title".into(), "Notepad".into());
    let result = dispatch(&ActionType::WindowFocus, &params, true).unwrap();
    assert!(result.description.contains("focused"));
    assert!(result.description.contains("Notepad"));
}

#[test]
fn dispatch_window_close_simulated() {
    let mut params = ActionParams::new();
    params.insert("window_title".into(), "active".into());
    let result = dispatch(&ActionType::WindowClose, &params, true).unwrap();
    assert!(result.description.contains("closed"));
}

#[test]
fn dispatch_system_launch_simulated() {
    let mut params = ActionParams::new();
    params.insert("application".into(), "notepad.exe".into());
    let result = dispatch(&ActionType::SystemLaunch, &params, true).unwrap();
    assert!(result.description.contains("launched"));
    assert!(result.description.contains("notepad.exe"));
}

#[test]
fn dispatch_file_open_simulated() {
    let mut params = ActionParams::new();
    params.insert("path".into(), "C:\\test.txt".into());
    let result = dispatch(&ActionType::FileOpen, &params, true).unwrap();
    assert!(result.description.contains("opened file"));
}

#[test]
fn real_execution_returns_error() {
    let params = ActionParams::new();
    let result = dispatch(&ActionType::MouseClick, &params, false);
    assert!(result.is_err());
}

#[test]
fn all_action_types_dispatch() {
    let all = vec![
        ActionType::MouseClick, ActionType::MouseMove, ActionType::MouseDrag,
        ActionType::KeyboardType, ActionType::KeyboardPress, ActionType::KeyboardCombo,
        ActionType::WindowFocus, ActionType::WindowMinimize, ActionType::WindowMaximize,
        ActionType::WindowClose, ActionType::FileOpen, ActionType::SystemLaunch,
    ];
    for at in all {
        let result = dispatch(&at, &ActionParams::new(), true).unwrap();
        assert!(result.simulated);
        assert!(result.success);
    }
}

// ── Exact descriptions ──

fn one(key: &str, value: &str) -> ActionParams {
    let mut p = ActionParams::new();
    p.insert(key.to_string(), value.to_string());
    p
}

#[test]
fn mouse_click_defaults_to_left_button() {
    let mut params = ActionParams::new();
    params.insert("x".into(), "1".into());
    params.insert("y".into(), "2".into());
    let result = dispatch(&ActionType::MouseClick, &params, true).unwrap();
    assert_eq!(result.description, "SIM: left-clicked at (1, 2)");
    params.insert("button".into(), "right".into());
    let result = dispatch(&ActionType::MouseClick, &params, true).unwrap();
    assert_eq!(result.description, "SIM: right-clicked at (1, 2)");
}

#[test]
fn exact_simulated_descriptions() {
    let r = dispatch(&ActionType::MouseMove, &ActionParams::new(), true).unwrap();
    assert_eq!(r.description, "SIM: moved cursor to (, )");
    let r = dispatch(&ActionType::KeyboardPress, &one("key", "Tab"), true).unwrap();
    assert_eq!(r.description, "SIM: pressed key [Tab]");
    let r = dispatch(&ActionType::KeyboardCombo, &one("keys", "Alt+F4"), true).unwrap();
    assert_eq!(r.description, "SIM: pressed combo [Alt+F4]");
    let r = dispatch(&ActionType::WindowMinimize, &one("window_title", "A"), true).unwrap();
    assert_eq!(r.description, "SIM: minimized window \"A\"");
    let r = dispatch(&ActionType::WindowMaximize, &one("window_title", "B"), true).unwrap();
    assert_eq!(r.description, "SIM: maximized window \"B\"");
    let r = dispatch(&ActionType::FileOpen, &one("path", "/tmp/x"), true).unwrap();
    assert_eq!(r.description, "SIM: opened file \"/tmp/x\"");
    let mut drag = ActionParams::new();
    drag.insert("from_x".into(), "1".into());
    drag.insert("from_y".into(), "2".into());
    drag.insert("to_x".into(), "3".into());
    drag.insert("to_y".into(), "4".into());
    let r = dispatch(&ActionType::MouseDrag, &drag, true).unwrap();
    assert_eq!(r.description, "SIM: dragged from (1, 2) to (3, 4)");
}

#[test]
fn keyboard_type_counts_utf8_bytes() {
    let r = dispatch(&ActionType::KeyboardType, &one("text", "héllo"), true).unwrap();
    assert_eq!(r.description, "SIM: typed 6 characters: \"héllo\"");
    let r = dispatch(&ActionType::KeyboardType, &ActionParams::new(), true).unwrap();
    assert_eq!(r.description, "SIM: typed 0 characters: \"\"");
}

#[test]
fn system_launch_without_application_processes_instruction() {
    let r = dispatch(&ActionType::SystemLaunch, &one("instruction", "do it"), true).unwrap();
    assert_eq!(r.description, "SIM: processed system instruction \"do it\"");
    let r = dispatch(&ActionType::SystemLaunch, &one("application", ""), true).unwrap();
    assert_eq!(r.description, "SIM: processed system instruction \"\"");
}

#[test]
fn real_execution_names_the_action() {
    let all = vec![
        (ActionType::MouseClick, "MouseClick"),
        (ActionType::KeyboardType, "KeyboardType"),
        (ActionType::WindowClose, "WindowClose"),
        (ActionType::SystemLaunch, "SystemLaunch"),
    ];
    for (t, name) in all {
        match dispatch(&t, &ActionParams::new(), false) {
            Err(LapisError::Action(msg)) => {
                assert_eq!(msg, format!("Real execution not yet implemented for {name}"))
            }
            other => panic!("unexpected {other:?}"),
        }
    }
}

#[test]
fn params_read_after_write() {
    let mut p = ActionParams::new();
    assert_eq!(p.insert("k".into(), "v1".into()), None);
    assert_eq!(p.insert("k".into(), "v2".into()), Some("v1".to_string()));
    assert_eq!(p.insert("j".into(), "w".into()), None);
    assert_eq!(p.get("k").map(|s| s.as_str()), Some("v2"));
    assert_eq!(p.get("j").map(|s| s.as_str()), Some("w"));
    assert_eq!(p.get("missing"), None);
    assert_eq!(p.len(), 2);
    assert_eq!(p.value_or_empty("missing"), "");
}
