use aihelper::context::chat_context_text;
use aihelper::records::{Project, ProjectRule, ProjectSummary, TextCount, UntaggedSummaryRow};

fn project(id: i64, name: &str) -> Project {
    Project {
        id,
        name: name.to_string(),
        description: String::new(),
        color: "#fff".to_string(),
        created_at: "2024-01-01".to_string(),
    }
}

fn rule(id: i64, project_id: i64, expression: &str) -> ProjectRule {
    ProjectRule {
        id,
        project_id,
        expression: expression.to_string(),
        priority: 0,
        created_at: "2024-01-01".to_string(),
    }
}

#[test]
fn empty_context() {
    let s = chat_context_text(&Vec::new(), &Vec::new(), &Vec::new(), 0, &Vec::new(), &Vec::new());
    assert_eq!(
        s,
        "\n\n--- User's Activity Data ---\n\nNo projects configured yet.\n--- End Activity Data ---\n"
    );
}

#[test]
fn full_context() {
    let summaries = vec![ProjectSummary {
        project_id: Some(1),
        name: "Web".to_string(),
        color: "#f00".to_string(),
        keystroke_count: 120,
        active_secs: 3725,
    }];
    let projects = vec![project(1, "Web"), project(2, "Empty")];
    let rules = vec![
        rule(1, 1, "app_name = \"Code\""),
        rule(2, 1, "$contains(window_title, \"web\")"),
    ];
    let untagged = vec![UntaggedSummaryRow {
        app_name: "Firefox".to_string(),
        keystroke_rows: 2,
        window_rows: 3,
        total: 5,
    }];
    let top = vec![TextCount("Code".to_string(), 90), TextCount("Slack".to_string(), 30)];
    let s = chat_context_text(&summaries, &projects, &rules, 5, &untagged, &top);
    let expected = "\n\n--- User's Activity Data ---\n\
        \nProjects (today's stats):\n\
        - Web — 120 keys, 1h 2m active\n\
        \nTagging rules:\n\
        - Web: app_name = \"Code\" | $contains(window_title, \"web\")\n\
        \nUntagged activities: 5 total\n\
        Top untagged apps: Firefox (5)\n\
        \nTop apps today (by time):\n\
        - Code — 1m\n\
        - Slack — 30s\n\
        --- End Activity Data ---\n";
    assert_eq!(s, expected);
}

#[test]
fn context_lists_at_most_ten_top_apps() {
    let top: Vec<TextCount> = (0..12).map(|i| TextCount(format!("App{i}"), 10)).collect();
    let s = chat_context_text(&Vec::new(), &Vec::new(), &Vec::new(), 0, &Vec::new(), &top);
    assert!(s.contains("- App9 — 10s\n"));
    assert!(!s.contains("App10"));
    assert!(!s.contains("App11"));
}
