use aihelper::statements::{
    app_suggestions_statement, assistant_reply_statement, create_task_statement,
    get_activity_summary_for_ai_statement, seed_setting_statement, tag_activity_statement,
    user_message_statement,
};
use aihelper::sql::SqlParam;

fn texts(ps: &[SqlParam]) -> Vec<String> {
    ps.iter()
        .map(|p| match p {
            SqlParam::Null => "NULL".to_string(),
            SqlParam::Integer(i) => i.to_string(),
            SqlParam::Text(t) => format!("'{t}'"),
        })
        .collect()
}

#[test]
fn task_insert_binds_content_and_window() {
    let st = create_task_statement("write", "Editor");
    assert_eq!(st.sql, "INSERT INTO tasks (content, window_title) VALUES (?1, ?2)");
    assert_eq!(texts(&st.params), vec!["'write'", "'Editor'"]);
}

#[test]
fn seed_statement_ignores_existing() {
    let st = seed_setting_statement("hotkey", "Alt+X", "default");
    assert!(st.sql.starts_with("INSERT OR IGNORE INTO settings"));
    assert_eq!(texts(&st.params), vec!["'hotkey'", "'Alt+X'", "'default'"]);
}

#[test]
fn message_inserts_carry_their_role() {
    let u = user_message_statement(3, None, "hi");
    assert_eq!(texts(&u.params), vec!["3", "NULL", "'user'", "'hi'", "NULL"]);
    let a = assistant_reply_statement(3, 7, "answer", "gpt");
    assert_eq!(texts(&a.params), vec!["3", "7", "'assistant'", "'answer'", "'gpt'"]);
}

#[test]
fn app_suggestions_use_the_last_week() {
    let st = app_suggestions_statement();
    assert!(st.sql.contains("datetime('now', '-7 days')"));
    assert!(st.sql.contains("HAVING total >= 300"));
    assert!(st.sql.contains("LIMIT 20"));
    assert!(st.params.is_empty());
}

#[test]
fn activity_summary_window() {
    let st = get_activity_summary_for_ai_statement(7);
    assert_eq!(texts(&st.params), vec!["'-7 days'"]);
}

#[test]
fn only_activity_tables_are_tagged() {
    let st = tag_activity_statement("window_activity", 4, 9).unwrap();
    assert_eq!(st.sql, "UPDATE window_activity SET project_id = ?1 WHERE id = ?2");
    assert_eq!(texts(&st.params), vec!["4", "9"]);
    assert!(tag_activity_statement("mouse_distance", 4, 9).is_none());
}
