use aihelper::db::{pending_migrations, Database, Migration, CURRENT_VERSION};
use aihelper::records::ActivityTag;

fn db() -> Database {
    Database::initialize(":memory:").expect("in-memory database")
}

#[test]
fn pending_migrations_by_version() {
    assert_eq!(pending_migrations(CURRENT_VERSION).len(), 0);
    assert_eq!(pending_migrations(0).len(), 10);
    let from7 = pending_migrations(7);
    assert!(matches!(from7.as_slice(), [Migration::Projects, Migration::Tips, Migration::Notes]));
    let from8 = pending_migrations(8);
    assert!(matches!(from8.as_slice(), [Migration::Projects, Migration::Tips, Migration::Notes]));
    assert!(matches!(pending_migrations(10).as_slice(), [Migration::Notes]));
}

#[test]
fn fresh_database_is_empty() {
    let mut d = db();
    assert!(d.list_projects().unwrap().is_empty());
    assert!(d.list_conversations().unwrap().is_empty());
    assert!(d.list_tasks(false).unwrap().is_empty());
    assert!(d.list_notes().unwrap().is_empty());
    assert_eq!(d.get_total_active_secs_today().unwrap(), 0);
}

#[test]
fn settings_read_back_what_was_written() {
    let mut d = db();
    assert_eq!(d.get_setting("theme", "default").unwrap(), None);
    d.set_setting("theme", "dark", "default").unwrap();
    assert_eq!(d.get_setting("theme", "default").unwrap(), Some("dark".to_string()));
    d.set_setting("theme", "light", "default").unwrap();
    assert_eq!(d.get_setting("theme", "default").unwrap(), Some("light".to_string()));
    // Components are separate.
    assert_eq!(d.get_setting("theme", "other").unwrap(), None);
}

#[test]
fn seeding_never_overwrites() {
    let mut d = db();
    d.set_setting("hotkey", "Alt+X", "default").unwrap();
    d.seed_defaults_from_config(None, Some("openai"), None, None, Some(30)).unwrap();
    assert_eq!(d.get_setting("hotkey", "default").unwrap(), Some("Alt+X".to_string()));
    assert_eq!(d.get_setting("ai_provider", "default").unwrap(), Some("openai".to_string()));
    assert_eq!(d.get_setting("ai_api_key", "default").unwrap(), Some(String::new()));
    assert_eq!(
        d.get_setting("ai_base_url", "default").unwrap(),
        Some("https://openrouter.ai/api/v1".to_string())
    );
    assert_eq!(
        d.get_setting("ai_default_model", "default").unwrap(),
        Some("openai/gpt-4o-mini".to_string())
    );
    assert_eq!(d.get_setting("task_archive_delay_secs", "default").unwrap(), Some("30".to_string()));
    assert_eq!(d.get_setting("overlay_opacity", "default").unwrap(), Some("0.95".to_string()));
    assert_eq!(d.get_setting("tab_icon_size", "default").unwrap(), Some("16".to_string()));
    assert_eq!(
        d.get_setting("ai_system_prompt", "default").unwrap(),
        Some("You are a helpful assistant.".to_string())
    );
    assert_eq!(d.get_setting("screen_size_inches", "default").unwrap(), Some("24".to_string()));
    assert_eq!(d.get_all_settings("default").unwrap().len(), 10);
    // A second seed changes nothing.
    d.seed_defaults_from_config(Some("Ctrl+K"), None, None, None, None).unwrap();
    assert_eq!(d.get_setting("hotkey", "default").unwrap(), Some("Alt+X".to_string()));
    assert_eq!(d.get_setting("task_archive_delay_secs", "default").unwrap(), Some("30".to_string()));
}

#[test]
fn seeding_defaults_on_fresh_database() {
    let mut d = db();
    d.seed_defaults_from_config(None, None, None, None, None).unwrap();
    assert_eq!(d.get_setting("hotkey", "default").unwrap(), Some("Ctrl+Shift+Space".to_string()));
    assert_eq!(d.get_setting("task_archive_delay_secs", "default").unwrap(), Some("5".to_string()));
}

#[test]
fn conversations_lifecycle() {
    let mut d = db();
    let c1 = d.create_conversation(None).unwrap();
    assert_eq!(c1.title, "New conversation");
    assert_eq!(c1.active_root_message_id, None);
    let c2 = d.create_conversation(Some("Plans")).unwrap();
    assert_eq!(c2.title, "Plans");
    assert_eq!(d.list_conversations().unwrap().len(), 2);
    d.update_conversation_title(c1.id, "Renamed").unwrap();
    assert_eq!(d.get_conversation(c1.id).unwrap().title, "Renamed");
    d.delete_conversation(c1.id).unwrap();
    let err = d.get_conversation(c1.id).unwrap_err();
    assert!(err.starts_with("Conversation not found: "), "{err}");
    assert_eq!(d.list_conversations().unwrap().len(), 1);
}

#[test]
fn messages_and_active_children() {
    let mut d = db();
    let c = d.create_conversation(None).unwrap();
    let m1 = d.insert_chat_message(c.id, None, "user", "hello", None).unwrap();
    assert_eq!(m1.role, "user");
    assert_eq!(m1.parent_id, None);
    let m2 = d.insert_chat_message(c.id, Some(m1.id), "assistant", "hi!", Some("gpt")).unwrap();
    assert_eq!(m2.model, Some("gpt".to_string()));
    d.set_active_child(m1.id, m2.id).unwrap();
    assert_eq!(d.get_chat_message(m1.id).unwrap().active_child_id, Some(m2.id));
    d.set_conversation_active_root(c.id, m1.id).unwrap();
    assert_eq!(d.get_conversation(c.id).unwrap().active_root_message_id, Some(m1.id));
    d.update_message_content(m2.id, "edited").unwrap();
    let msgs = d.get_conversation_messages(c.id).unwrap();
    assert_eq!(msgs.len(), 2);
    assert_eq!(msgs[1].content, "edited");
    d.touch_conversation(c.id).unwrap();
}

#[test]
fn events_are_listed_newest_first() {
    let mut d = db();
    let a = d.insert_event("open", "{}").unwrap();
    let b = d.insert_event("close", "x").unwrap();
    assert!(b > a);
    let ev = d.get_recent_events(10).unwrap();
    assert_eq!(ev.len(), 2);
    assert_eq!(ev[0].event_type, "close");
    assert_eq!(ev[1].payload, "{}");
    assert_eq!(d.get_recent_events(1).unwrap().len(), 1);
}

#[test]
fn tasks_check_archive_and_uncheck() {
    let mut d = db();
    let t = d.create_task("write tests", "Editor").unwrap();
    assert_eq!(t.content, "write tests");
    assert_eq!(t.window_title, "Editor");
    assert!(!t.completed && !t.archived);
    assert_eq!(t.completed_at, None);
    let t = d.update_task_completed(t.id, true).unwrap();
    assert!(t.completed);
    assert!(t.completed_at.is_some());
    d.archive_task(t.id).unwrap();
    assert!(d.list_tasks(false).unwrap().is_empty());
    assert_eq!(d.list_tasks(true).unwrap().len(), 1);
    // Unchecking brings it back to the active list.
    let t = d.update_task_completed(t.id, false).unwrap();
    assert!(!t.completed && !t.archived);
    assert_eq!(t.completed_at, None);
    assert_eq!(d.list_tasks(false).unwrap().len(), 1);
    d.delete_task(t.id).unwrap();
    let err = d.get_task(t.id).unwrap_err();
    assert!(err.starts_with("Task not found: "), "{err}");
}

#[test]
fn projects_and_rules() {
    let mut d = db();
    let p = d.create_project("Zeta", "desc", "#123456").unwrap();
    let q = d.create_project("Alpha", "", "#000000").unwrap();
    let names: Vec<String> = d.list_projects().unwrap().into_iter().map(|p| p.name).collect();
    assert_eq!(names, vec!["Alpha".to_string(), "Zeta".to_string()]);
    d.update_project(p.id, "Zed", "new", "#ffffff").unwrap();
    let p2 = d.get_project(p.id).unwrap();
    assert_eq!((p2.name.as_str(), p2.description.as_str(), p2.color.as_str()), ("Zed", "new", "#ffffff"));
    let r1 = d.add_project_rule(p.id, "app_name = \"Code\"", 1).unwrap();
    let r2 = d.add_project_rule(p.id, "app_name = \"Vim\"", 5).unwrap();
    d.add_project_rule(q.id, "true", 0).unwrap();
    assert_eq!(r1.project_id, p.id);
    let rules = d.get_project_rules(p.id).unwrap();
    assert_eq!(rules.len(), 2);
    assert_eq!(rules[0].id, r2.id); // highest priority first
    assert_eq!(d.get_all_rules().unwrap().len(), 3);
    d.delete_project_rule(r1.id).unwrap();
    assert_eq!(d.get_project_rules(p.id).unwrap().len(), 1);
    d.delete_project(q.id).unwrap();
    assert_eq!(d.list_projects().unwrap().len(), 1);
    let err = d.get_project(q.id).unwrap_err();
    assert!(err.starts_with("Project not found: "), "{err}");
}

#[test]
fn keystrokes_window_and_summary() {
    let mut d = db();
    d.insert_keystrokes("abcd", "Code", "main.rs").unwrap();
    d.insert_keystrokes("hi", "Slack", "general").unwrap();
    d.insert_keystrokes("xyz", "Code", "lib.rs").unwrap();
    d.insert_keystrokes("ignored", "", "none").unwrap();
    let recent = d.get_recent_keystrokes(1000).unwrap();
    assert_eq!(
        recent,
        vec![
            ("Code".to_string(), "abcd".to_string()),
            ("Slack".to_string(), "hi".to_string()),
            ("Code".to_string(), "xyz".to_string()),
        ]
    );
    // The newest row that reaches the limit is the oldest kept.
    let last_two = d.get_recent_keystrokes(4).unwrap();
    assert_eq!(
        last_two,
        vec![("Slack".to_string(), "hi".to_string()), ("Code".to_string(), "xyz".to_string())]
    );
    assert_eq!(
        d.summarize_recent_keystrokes(1000).unwrap(),
        "- 7 chars in Code\n- 2 chars in Slack\n- 2 app switches"
    );
    assert_eq!(d.get_keystroke_count_since("-1 hour").unwrap(), 16);
    assert_eq!(d.get_keystroke_count_last_minute().unwrap(), 16);
    assert_eq!(d.conn_query_keystroke_count_since_raw("-1 day").unwrap(), 16);
}

#[test]
fn no_keystrokes_summary() {
    let mut d = db();
    assert_eq!(d.summarize_recent_keystrokes(100).unwrap(), "No recent keystrokes recorded.");
}

#[test]
fn window_activity_tagging() {
    let mut d = db();
    d.insert_window_activity("Code", "main.rs - proj - Visual Studio Code", 120).unwrap();
    d.insert_window_activity("Firefox", "Docs", 30).unwrap();
    d.insert_keystrokes("abc", "Firefox", "Docs").unwrap();
    let top = d.get_top_windows_today().unwrap();
    assert_eq!(top.len(), 2);
    assert_eq!((top[0].0.as_str(), top[0].1), ("Code", 120));
    assert_eq!(d.get_total_active_secs_today().unwrap(), 150);
    assert_eq!(d.get_current_app_time_today("Firefox").unwrap(), 30);

    let untagged = d.get_untagged_activity(10).unwrap();
    assert_eq!(untagged.len(), 3);
    let (total, by_app) = d.get_untagged_summary().unwrap();
    assert_eq!(total, 3);
    assert_eq!(by_app.len(), 2);

    let p = d.create_project("Web", "", "#fff").unwrap();
    let tags: Vec<ActivityTag> = untagged
        .iter()
        .filter(|u| u.app_name == "Firefox")
        .map(|u| ActivityTag { table: u.table.clone(), id: u.id, project_id: p.id })
        .collect();
    assert_eq!(tags.len(), 2);
    d.tag_activities(&tags).unwrap();
    assert_eq!(d.get_untagged_activity(10).unwrap().len(), 1);
    assert_eq!(d.get_project_activities(p.id, 50, 0).unwrap().len(), 1);
    let summaries = d.get_all_project_summaries_today().unwrap();
    assert!(summaries.iter().any(|s| s.name == "Web" && s.keystroke_count == 3 && s.active_secs == 30));

    d.clear_project_tags(p.id).unwrap();
    assert_eq!(d.get_untagged_activity(10).unwrap().len(), 3);
}

#[test]
fn tagging_refuses_unknown_table() {
    let mut d = db();
    d.insert_keystrokes("abc", "Firefox", "Docs").unwrap();
    let p = d.create_project("Web", "", "#fff").unwrap();
    let id = d.get_untagged_activity(10).unwrap()[0].id;
    let tags = vec![
        ActivityTag { table: "keystrokes".to_string(), id, project_id: p.id },
        ActivityTag { table: "mouse".to_string(), id: 1, project_id: p.id },
    ];
    assert_eq!(d.tag_activities(&tags), Err("Unknown table: mouse".to_string()));
    // Nothing was committed.
    assert_eq!(d.get_untagged_activity(10).unwrap().len(), 1);
}

#[test]
fn suggestions_from_database() {
    let mut d = db();
    d.create_project("Existing", "", "#fff").unwrap();
    d.insert_window_activity("Code", "a.rs - existing - Visual Studio Code", 10).unwrap();
    d.insert_window_activity("Code", "b.rs - Fresh - Visual Studio Code", 10).unwrap();
    d.insert_window_activity("Slack", "general", 10).unwrap();
    d.insert_window_activity("Terminal", "bash", 400).unwrap();
    d.insert_window_activity("Short", "x", 100).unwrap();
    let s = d.suggest_projects().unwrap();
    let names: Vec<String> = s.iter().map(|x| x.name.clone()).collect();
    assert_eq!(names, vec!["Fresh".to_string(), "Slack".to_string(), "Terminal".to_string()]);
    assert_eq!(s[2].rules, vec!["app_name = \"Terminal\"".to_string()]);
}

#[test]
fn tips_and_notes() {
    let mut d = db();
    d.insert_tip("Take a break").unwrap();
    d.insert_tip("Drink water").unwrap();
    let tips = d.get_recent_tips(5).unwrap();
    assert_eq!(tips.len(), 2);
    assert_eq!(tips[0].0, "Drink water");
    let n = d.create_note("Title", "Body").unwrap();
    assert_eq!((n.title.as_str(), n.content.as_str()), ("Title", "Body"));
    let n2 = d.update_note(n.id, "T2", "B2").unwrap();
    assert_eq!((n2.title.as_str(), n2.content.as_str()), ("T2", "B2"));
    assert_eq!(d.get_note(n.id).unwrap().title, "T2");
    assert_eq!(d.list_notes().unwrap().len(), 1);
    d.delete_note(n.id).unwrap();
    assert!(d.list_notes().unwrap().is_empty());
}

#[test]
fn chat_context_of_empty_database() {
    let mut d = db();
    assert_eq!(
        d.build_chat_context().unwrap(),
        "\n\n--- User's Activity Data ---\n\nNo projects configured yet.\n--- End Activity Data ---\n"
    );
}

#[test]
fn activity_summary_for_ai() {
    let mut d = db();
    d.insert_window_activity("Code", "main.rs", 100).unwrap();
    d.insert_window_activity("Code", "main.rs", 50).unwrap();
    let rows = d.get_activity_summary_for_ai(7).unwrap();
    assert_eq!(rows.len(), 1);
    assert_eq!(rows[0].total_duration_secs, 150);
}

#[test]
fn failures_name_the_step_that_failed() {
    let mut d = db();
    d.connection()
        .execute_batch("DROP TABLE tasks; DROP TABLE settings; DROP TABLE tips;")
        .unwrap();
    let e = d.list_tasks(false).unwrap_err();
    assert!(e.starts_with("Failed to prepare list_tasks: "), "{e}");
    let e = d.create_task("x", "y").unwrap_err();
    assert!(e.starts_with("Failed to create task: "), "{e}");
    let e = d.set_setting("k", "v", "default").unwrap_err();
    assert!(e.starts_with("Failed to set setting: "), "{e}");
    let e = d.get_setting("k", "default").unwrap_err();
    assert!(e.starts_with("Failed to get setting: "), "{e}");
    let e = d.seed_defaults_from_config(None, None, None, None, None).unwrap_err();
    assert!(e.starts_with("Failed to seed setting: "), "{e}");
    let e = d.insert_tip("t").unwrap_err();
    assert!(e.starts_with("Failed to insert tip: "), "{e}");
}

#[test]
fn unreadable_rows_are_reported() {
    let mut d = db();
    // A task whose content is not text cannot be read back as a task.
    d.connection()
        .execute_batch("INSERT INTO tasks (content, window_title) VALUES (X'00FF', 'w');")
        .unwrap();
    let e = d.list_tasks(false).unwrap_err();
    assert!(e.starts_with("Failed to read task row: "), "{e}");
}

#[test]
fn unreadable_column_is_named() {
    let mut d = db();
    d.connection()
        .execute_batch("INSERT INTO tasks (content, window_title) VALUES (X'00FF', 'w');")
        .unwrap();
    assert_eq!(
        d.list_tasks(false).unwrap_err(),
        "Failed to read task row: Invalid column type Blob at index: 1, name: content"
    );
}

#[test]
fn invalid_utf8_text_is_a_conversion_error() {
    let mut d = db();
    d.connection()
        .execute_batch("INSERT INTO tasks (content, window_title) VALUES (CAST(X'FF' AS TEXT), 'w');")
        .unwrap();
    let e = d.list_tasks(false).unwrap_err();
    assert!(
        e.starts_with("Failed to read task row: Conversion error from type Text at index: 1, "),
        "{e}"
    );
}

#[test]
fn a_new_database_is_brought_to_the_current_version() {
    let d = db();
    let v: i64 = d
        .connection()
        .query_row("SELECT MAX(version) FROM schema_version", [], |r| r.get(0))
        .unwrap();
    assert_eq!(v, 11);
    let rows: i64 = d
        .connection()
        .query_row("SELECT COUNT(*) FROM schema_version", [], |r| r.get(0))
        .unwrap();
    assert_eq!(rows, 1);
    for table in [
        "events", "conversations", "chat_messages", "tasks", "settings", "keystrokes",
        "mouse_distance", "window_activity", "projects", "project_rules", "tips", "notes",
    ] {
        let n: i64 = d
            .connection()
            .query_row(
                "SELECT COUNT(*) FROM sqlite_master WHERE type = 'table' AND name = ?1",
                [table],
                |r| r.get(0),
            )
            .unwrap();
        assert_eq!(n, 1, "missing table {}", table);
    }
}

#[test]
fn a_missing_row_is_reported_as_rusqlite_words_it() {
    let mut d = db();
    assert_eq!(d.get_task(4242).unwrap_err(), "Task not found: Query returned no rows");
    assert_eq!(d.get_setting("absent", "default").unwrap(), None);
}

#[test]
fn migrations_leave_the_project_columns_in_place() {
    let d = db();
    let n: i64 = d
        .connection()
        .query_row(
            "SELECT COUNT(*) FROM pragma_table_info('keystrokes') WHERE name = 'project_id'",
            [],
            |r| r.get(0),
        )
        .unwrap();
    assert_eq!(n, 1);
}
