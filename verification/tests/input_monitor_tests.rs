use aihelper::input_monitor::{
    accept_char, app_name_from_path, classify_vk, get_cursor_pos, get_foreground_app_name,
    get_foreground_title, get_screen_resolution, get_screen_resolution_inner, modifier_writes,
    should_flush_keystrokes, FocusTracker, KeyAction, KeyEvent, KeystrokeBuffer,
};

#[test]
fn fallbacks_without_window_system() {
    assert_eq!(get_cursor_pos(), (0, 0));
    assert_eq!(get_foreground_title(), "Unknown");
    assert_eq!(get_foreground_app_name(), "Unknown");
    assert_eq!(get_screen_resolution_inner(), (1920, 1080));
    assert_eq!(get_screen_resolution(), (1920, 1080));
    assert_eq!(aihelper::get_foreground_window_title(), "Unknown");
}

#[test]
fn keys_are_classified() {
    for vk in [0x10u32, 0x11, 0x12, 0x14, 0xa0, 0xa1, 0xa2, 0xa3, 0xa4, 0xa5, 0x5b, 0x5c] {
        assert!(matches!(classify_vk(vk), KeyAction::Ignore), "{vk:#x}");
    }
    let specials = [
        (0x08u32, "[BS]"),
        (0x09, "[TAB]"),
        (0x0d, "[ENTER]"),
        (0x1b, "[ESC]"),
        (0x25, "[LEFT]"),
        (0x26, "[UP]"),
        (0x27, "[RIGHT]"),
        (0x28, "[DOWN]"),
        (0x2e, "[DEL]"),
    ];
    for (vk, tag) in specials {
        match classify_vk(vk) {
            KeyAction::Special(t) => assert_eq!(t, tag),
            _ => panic!("special expected for {vk:#x}"),
        }
    }
    assert!(matches!(classify_vk(0x41), KeyAction::Printable));
    assert!(matches!(classify_vk(0x20), KeyAction::Printable));
}

#[test]
fn modifier_state_corrections() {
    assert_eq!(
        modifier_writes(true, true, false, false, true, true),
        vec![(0x10, 0x80), (0xa0, 0x80), (0x11, 0), (0x12, 0x80), (0x14, 1)]
    );
    assert_eq!(
        modifier_writes(false, true, true, true, false, false),
        vec![(0x10, 0), (0xa0, 0), (0xa1, 0), (0x11, 0x80), (0x12, 0), (0x14, 0)]
    );
}

#[test]
fn control_chars_are_dropped() {
    assert!(accept_char('\u{1}').is_none());
    assert!(accept_char('\u{7f}').is_none());
    assert!(accept_char('\u{85}').is_none());
    assert!(matches!(accept_char('a'), Some(KeyEvent::Char('a'))));
    assert!(matches!(accept_char('é'), Some(KeyEvent::Char('é'))));
}

#[test]
fn app_names_from_paths() {
    assert_eq!(app_name_from_path("C:\\Program Files\\Code\\Code.exe"), "Code");
    assert_eq!(app_name_from_path("C:\\Windows\\NOTEPAD.EXE"), "NOTEPAD");
    assert_eq!(app_name_from_path("C:\\tools\\run.bat"), "run.bat");
    assert_eq!(app_name_from_path("plain.exe"), "plain");
    assert_eq!(app_name_from_path(".exe"), "");
    assert_eq!(app_name_from_path("dir\\"), "");
    assert_eq!(app_name_from_path("x.Exe"), "x.Exe");
}

fn entries(b: &mut KeystrokeBuffer) -> Vec<(String, String, String)> {
    b.drain()
}

#[test]
fn buffer_groups_typing_per_app() {
    let mut b = KeystrokeBuffer::new();
    assert!(b.is_empty());
    b.record("Code".to_string(), "a.rs".to_string(), &KeyEvent::Char('h'));
    b.record("Slack".to_string(), "general".to_string(), &KeyEvent::Char('y'));
    b.record("Code".to_string(), "b.rs".to_string(), &KeyEvent::Special("[ENTER]"));
    b.record("Code".to_string(), "b.rs".to_string(), &KeyEvent::Char('i'));
    assert!(!b.is_empty());
    assert_eq!(
        entries(&mut b),
        vec![
            ("Code".to_string(), "b.rs".to_string(), "h[ENTER]i".to_string()),
            ("Slack".to_string(), "general".to_string(), "y".to_string()),
        ]
    );
    assert!(b.is_empty());
    assert!(b.drain().is_empty());
}

#[test]
fn focus_changes_record_time() {
    let mut f = FocusTracker::new("Code".to_string(), "a.rs".to_string());
    let c = f.observe("Code".to_string(), "b.rs".to_string(), 10);
    assert!(!c.switched);
    assert!(c.finished.is_none());
    assert_eq!(f.last_title, "b.rs");
    let c = f.observe("Slack".to_string(), "general".to_string(), 12);
    assert!(c.switched);
    assert_eq!(c.finished, Some(("Code".to_string(), "b.rs".to_string(), 12)));
    assert_eq!((f.last_app.as_str(), f.last_title.as_str()), ("Slack", "general"));
    // No time to record when none passed.
    let c = f.observe("Code".to_string(), "c.rs".to_string(), 0);
    assert!(c.switched && c.finished.is_none());
    // Nor for an app without a name.
    let mut g = FocusTracker::new(String::new(), String::new());
    let c = g.observe("Code".to_string(), "x".to_string(), 30);
    assert!(c.switched && c.finished.is_none());
}

#[test]
fn flush_once_a_second_when_not_empty() {
    assert!(should_flush_keystrokes(1000, false));
    assert!(!should_flush_keystrokes(999, false));
    assert!(!should_flush_keystrokes(5000, true));
}

#[test]
fn focus_records_only_app_switches() {
    let mut f = aihelper::input_monitor::FocusTracker::new("Code".to_string(), "a.rs".to_string());
    let c = f.observe("Code".to_string(), "b.rs".to_string(), 4);
    assert!(!c.switched);
    assert!(c.finished.is_none());
    let c = f.observe("Slack".to_string(), "general".to_string(), 7);
    assert!(c.switched);
    assert_eq!(c.finished, Some(("Code".to_string(), "b.rs".to_string(), 7)));
    let c = f.observe("Code".to_string(), "c.rs".to_string(), 0);
    assert!(c.switched);
    assert!(c.finished.is_none());
}
