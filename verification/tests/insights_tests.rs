use aihelper::insights::{format_secs, keystroke_summary, recent_window};

fn rows(v: &[(&str, &str)]) -> Vec<(String, String)> {
    v.iter().map(|(a, b)| (a.to_string(), b.to_string())).collect()
}

#[test]
fn format_secs_seconds() {
    assert_eq!(format_secs(0), "0s");
    assert_eq!(format_secs(59), "59s");
    assert_eq!(format_secs(-5), "-5s");
}

#[test]
fn format_secs_minutes() {
    assert_eq!(format_secs(60), "1m");
    assert_eq!(format_secs(3599), "59m");
}

#[test]
fn format_secs_hours() {
    assert_eq!(format_secs(3600), "1h 0m");
    assert_eq!(format_secs(3725), "1h 2m");
    assert_eq!(format_secs(90061), "25h 1m");
}

#[test]
fn recent_window_stops_at_limit_and_restores_order() {
    // Newest first.
    let r = rows(&[("Code", "abc"), ("Slack", "hello"), ("Code", "zzz")]);
    // 3 bytes < 5, then 3 + 5 = 8 >= 5: the second row is included, the third not.
    let w = recent_window(&r, 5);
    assert_eq!(w, rows(&[("Slack", "hello"), ("Code", "abc")]));
}

#[test]
fn recent_window_takes_all_below_limit() {
    let r = rows(&[("A", "x"), ("B", "y")]);
    assert_eq!(recent_window(&r, 100), rows(&[("B", "y"), ("A", "x")]));
}

#[test]
fn recent_window_counts_bytes() {
    // "é" is two bytes in UTF-8.
    let r = rows(&[("A", "é"), ("B", "q")]);
    assert_eq!(recent_window(&r, 2), rows(&[("A", "é")]));
}

#[test]
fn recent_window_of_nothing() {
    assert_eq!(recent_window(&Vec::new(), 10), Vec::<(String, String)>::new());
}

#[test]
fn keystroke_summary_empty() {
    assert_eq!(keystroke_summary(&Vec::new()), "No recent keystrokes recorded.");
}

#[test]
fn keystroke_summary_totals_and_switches() {
    let r = rows(&[("Code", "abcd"), ("Slack", "hi"), ("Code", "xyz"), ("Code", "q")]);
    assert_eq!(
        keystroke_summary(&r),
        "- 8 chars in Code\n- 2 chars in Slack\n- 2 app switches"
    );
}

#[test]
fn keystroke_summary_counts_bytes() {
    let r = rows(&[("A", "é"), ("B", "abc")]);
    assert_eq!(keystroke_summary(&r), "- 3 chars in B\n- 2 chars in A\n- 1 app switches");
}

#[test]
fn recent_window_with_no_limit_keeps_the_newest_row() {
    let r = rows(&[("A", "x"), ("B", "y")]);
    assert_eq!(recent_window(&r, 0), rows(&[("A", "x")]));
    assert_eq!(recent_window(&r, -4), rows(&[("A", "x")]));
    assert_eq!(recent_window(&Vec::new(), 0), Vec::<(String, String)>::new());
}
