use aihelper::commands::{
    activity_table, auto_title, chosen_model, continue_tool_loop, current_hotkey,
    filter_new_suggestions, get_project_activities, get_recent_input, get_setting, get_settings,
    get_top_windows, group_input, keystroke_lines, load_conversation, record_assistant_reply,
    save_user_message, smart_suggest_request, smart_suggest_user_prompt, tip_request,
    tip_system_prompt, tip_user_prompt, tool_error_summary, update_hotkey, update_setting,
    ai_settings, chat_system_prompt, create_conversation, get_untagged_summary,
};
use aihelper::commands::{ai_settings_from, chat_prompt_from, hotkey_or_default};
use aihelper::db::Database;
use aihelper::records::{ActivitySummaryRow, ProjectSuggestion};

fn db() -> Database {
    Database::initialize(":memory:").expect("in-memory database")
}

fn rows(v: &[(&str, &str)]) -> Vec<(String, String)> {
    v.iter().map(|(a, b)| (a.to_string(), b.to_string())).collect()
}

#[test]
fn hotkey_cannot_be_set_as_a_plain_setting() {
    let mut d = db();
    assert_eq!(
        update_setting(&mut d, "hotkey".to_string(), "Alt+Q".to_string()),
        Err("Use update_hotkey command to change the hotkey".to_string())
    );
    assert_eq!(get_setting(&mut d, "hotkey".to_string()).unwrap(), None);
    update_setting(&mut d, "theme".to_string(), "dark".to_string()).unwrap();
    assert_eq!(get_setting(&mut d, "theme".to_string()).unwrap(), Some("dark".to_string()));
    assert_eq!(get_settings(&mut d).unwrap(), rows(&[("theme", "dark")]));
}

#[test]
fn hotkey_change_is_saved_only_when_registered() {
    let mut d = db();
    assert_eq!(current_hotkey(&mut d).unwrap(), "Ctrl+Shift+Space");
    let r = update_hotkey(&mut d, "Bad+Key".to_string(), Err("unknown key".to_string()));
    assert_eq!(r, Err("Invalid hotkey 'Bad+Key': unknown key".to_string()));
    assert_eq!(current_hotkey(&mut d).unwrap(), "Ctrl+Shift+Space");
    update_hotkey(&mut d, "Alt+Space".to_string(), Ok(())).unwrap();
    assert_eq!(current_hotkey(&mut d).unwrap(), "Alt+Space");
}

#[test]
fn auto_title_takes_fifty_chars() {
    assert_eq!(auto_title("short"), "short");
    let long: String = "é".repeat(60);
    assert_eq!(auto_title(&long), "é".repeat(50));
    assert_eq!(auto_title(""), "");
}

#[test]
fn first_user_message_titles_the_conversation() {
    let mut d = db();
    let c = create_conversation(&mut d, None).unwrap();
    let content = "x".repeat(70);
    let m1 = save_user_message(&mut d, c.id, None, content.clone()).unwrap();
    assert_eq!(m1.content, content);
    let loaded = load_conversation(&mut d, c.id).unwrap();
    assert_eq!(loaded.conversation.title, "x".repeat(50));
    assert_eq!(loaded.conversation.active_root_message_id, Some(m1.id));
    // A reply under the first message becomes its shown child; the title stays.
    let m2 = save_user_message(&mut d, c.id, Some(m1.id), "second".to_string()).unwrap();
    let loaded = load_conversation(&mut d, c.id).unwrap();
    assert_eq!(loaded.conversation.title, "x".repeat(50));
    assert_eq!(loaded.messages.len(), 2);
    assert_eq!(loaded.messages[0].active_child_id, Some(m2.id));
}

#[test]
fn titled_conversation_keeps_its_title() {
    let mut d = db();
    let c = create_conversation(&mut d, Some("Mine".to_string())).unwrap();
    save_user_message(&mut d, c.id, None, "hello".to_string()).unwrap();
    assert_eq!(load_conversation(&mut d, c.id).unwrap().conversation.title, "Mine");
}

#[test]
fn assistant_reply_is_recorded() {
    let mut d = db();
    let c = create_conversation(&mut d, None).unwrap();
    let m1 = save_user_message(&mut d, c.id, None, "q".to_string()).unwrap();
    let p = record_assistant_reply(&mut d, c.id, m1.id, "answer".to_string(), "m".to_string()).unwrap();
    assert_eq!((p.content.as_str(), p.model.as_str()), ("answer", "m"));
    let msgs = load_conversation(&mut d, c.id).unwrap().messages;
    assert_eq!(msgs[0].active_child_id, Some(p.id));
    assert_eq!(msgs[1].role, "assistant");
    assert_eq!(msgs[1].model, Some("m".to_string()));
}

#[test]
fn missing_conversation_is_an_error() {
    let mut d = db();
    let err = load_conversation(&mut d, 42).unwrap_err();
    assert!(err.starts_with("Conversation not found: "), "{err}");
}

#[test]
fn grouping_merges_consecutive_rows_of_one_app() {
    let g = group_input(rows(&[("A", "ab"), ("A", "c"), ("B", "x"), ("A", "d")]));
    let got: Vec<(String, String)> = g.into_iter().map(|g| (g.app_name, g.text)).collect();
    assert_eq!(got, rows(&[("A", "abc"), ("B", "x"), ("A", "d")]));
    assert!(group_input(Vec::new()).is_empty());
}

#[test]
fn recent_input_from_database() {
    let mut d = db();
    d.insert_keystrokes("ab", "A", "t").unwrap();
    d.insert_keystrokes("c", "A", "t").unwrap();
    d.insert_keystrokes("x", "B", "t").unwrap();
    let g = get_recent_input(&mut d, 1000).unwrap();
    let got: Vec<(String, String)> = g.into_iter().map(|g| (g.app_name, g.text)).collect();
    assert_eq!(got, rows(&[("A", "abc"), ("B", "x")]));
}

#[test]
fn top_windows_as_stats() {
    let mut d = db();
    d.insert_window_activity("Code", "a", 100).unwrap();
    d.insert_window_activity("Code", "b", 20).unwrap();
    d.insert_window_activity("Zoom", "c", 50).unwrap();
    let w = get_top_windows(&mut d).unwrap();
    let got: Vec<(String, i64)> = w.into_iter().map(|w| (w.title, w.duration_secs)).collect();
    assert_eq!(got, vec![("Code".to_string(), 120), ("Zoom".to_string(), 50)]);
}

#[test]
fn project_activities_default_paging() {
    let mut d = db();
    let p = d.create_project("P", "", "#fff").unwrap();
    assert!(get_project_activities(&mut d, p.id, None, None).unwrap().is_empty());
    let s = get_untagged_summary(&mut d).unwrap();
    assert_eq!(s.total, 0);
    assert!(s.by_app.is_empty());
}

#[test]
fn model_choice_and_tool_loop() {
    assert_eq!(chosen_model(Some("a".to_string()), "b".to_string()), "a");
    assert_eq!(chosen_model(None, "b".to_string()), "b");
    assert!(continue_tool_loop(0, true, 1));
    assert!(continue_tool_loop(4, true, 2));
    assert!(!continue_tool_loop(5, true, 1));
    assert!(!continue_tool_loop(0, false, 1));
    assert!(!continue_tool_loop(0, true, 0));
    assert_eq!(tool_error_summary("boom"), "error: boom");
}

#[test]
fn ai_settings_need_an_api_key() {
    let mut d = db();
    let msg = "No API key configured. Set it in Settings.".to_string();
    assert_eq!(ai_settings(&mut d).err(), Some(msg.clone()));
    d.set_setting("ai_api_key", "", "default").unwrap();
    assert_eq!(ai_settings(&mut d).err(), Some(msg.clone()));
    assert_eq!(tip_request(&mut d).err(), Some(msg.clone()));
    assert_eq!(smart_suggest_request(&mut d, None).err(), Some(msg));
    d.set_setting("ai_api_key", "k", "default").unwrap();
    let s = ai_settings(&mut d).unwrap();
    assert_eq!(s.api_key, "k");
    assert_eq!(s.base_url, "https://openrouter.ai/api/v1");
    assert_eq!(s.model, "openai/gpt-4o-mini");
}

#[test]
fn chat_prompt_has_default_and_digest() {
    let mut d = db();
    assert_eq!(
        chat_system_prompt(&mut d).unwrap(),
        "You are a helpful assistant.\n\n--- User's Activity Data ---\n\nNo projects configured yet.\n--- End Activity Data ---\n"
    );
}

#[test]
fn smart_suggest_needs_activity() {
    let mut d = db();
    d.set_setting("ai_api_key", "k", "default").unwrap();
    assert_eq!(
        smart_suggest_request(&mut d, Some(3)).err(),
        Some("No activity data found. Use your computer for a while first.".to_string())
    );
    d.insert_window_activity("Code", "main.rs", 100).unwrap();
    d.create_project("MyProj", "", "#fff").unwrap();
    let q = smart_suggest_request(&mut d, None).unwrap();
    assert_eq!(q.days, 7);
    assert_eq!(q.activity.len(), 1);
    assert_eq!(q.existing_names, vec!["myproj".to_string()]);
}

#[test]
fn activity_table_and_user_prompt() {
    let rows = vec![ActivitySummaryRow {
        app_name: "Code".to_string(),
        window_title: "main.rs".to_string(),
        total_duration_secs: 120,
    }];
    let t = activity_table(&rows);
    assert_eq!(t, "app_name | window_title | duration_secs\n---|---|---\nCode | main.rs | 120\n");
    assert_eq!(
        smart_suggest_user_prompt(7, "T"),
        "Here is my desktop activity from the last 7 days. Suggest project groupings:\n\nT"
    );
}

#[test]
fn new_suggestions_skip_existing_names() {
    let s = vec![
        ProjectSuggestion { name: "Web".to_string(), rules: vec![] },
        ProjectSuggestion { name: "Docs".to_string(), rules: vec!["r".to_string()] },
        ProjectSuggestion { name: "WEB".to_string(), rules: vec![] },
    ];
    let r = filter_new_suggestions(s, &vec!["web".to_string()]);
    let names: Vec<String> = r.into_iter().map(|s| s.name).collect();
    assert_eq!(names, vec!["Docs".to_string()]);
}

#[test]
fn tip_prompts() {
    assert_eq!(keystroke_lines(&rows(&[("A", "x"), ("B", "y z")])), "[A] x\n[B] y z");
    assert_eq!(keystroke_lines(&Vec::new()), "");
    let head = "You are a concise productivity assistant. Based on the activity data below, generate ONE short actionable tip. Under 3 sentences. Be specific to what the user is actually doing right now.";
    assert_eq!(tip_system_prompt("CTX", ""), format!("{head}CTX"));
    assert_eq!(
        tip_system_prompt("CTX", "[A] x"),
        format!("{head}CTX\n\n--- Recent Keystrokes ---\n[A] x")
    );
    assert_eq!(tip_user_prompt(), "Give me a productivity tip based on my current activity.");
}

#[test]
fn tip_request_gathers_typing() {
    let mut d = db();
    d.set_setting("ai_api_key", "k", "default").unwrap();
    d.insert_keystrokes("hi", "A", "t").unwrap();
    let q = tip_request(&mut d).unwrap();
    assert_eq!(q.keystrokes, "[A] hi");
    assert!(q.context.starts_with("\n\n--- User's Activity Data ---\n"));
}

#[test]
fn ai_settings_defaults_from_stored_values() {
    let s = ai_settings_from(Some("k".to_string()), None, Some("m".to_string())).unwrap();
    assert_eq!((s.api_key.as_str(), s.base_url.as_str(), s.model.as_str()), ("k", "https://openrouter.ai/api/v1", "m"));
    let s = ai_settings_from(Some("k".to_string()), Some("http://x".to_string()), None).unwrap();
    assert_eq!((s.base_url.as_str(), s.model.as_str()), ("http://x", "openai/gpt-4o-mini"));
    let msg = "No API key configured. Set it in Settings.".to_string();
    assert_eq!(ai_settings_from(None, None, None).err(), Some(msg.clone()));
    assert_eq!(ai_settings_from(Some(String::new()), None, None).err(), Some(msg));
}

#[test]
fn chat_prompt_and_hotkey_defaults() {
    assert_eq!(chat_prompt_from(None, None), "You are a helpful assistant.");
    assert_eq!(chat_prompt_from(Some("Be brief.".to_string()), Some(" CTX".to_string())), "Be brief. CTX");
    assert_eq!(hotkey_or_default(None), "Ctrl+Shift+Space");
    assert_eq!(hotkey_or_default(Some("Alt+K".to_string())), "Alt+K");
}

#[test]
fn smart_suggest_instructions() {
    let p = aihelper::commands::smart_suggest_system_prompt();
    assert!(p.starts_with("You analyze desktop activity data and suggest project groupings."));
    assert!(p.ends_with("- Each rule must be a valid JSONata expression"));
}

#[test]
fn conversation_title_after_a_message() {
    assert_eq!(
        aihelper::commands::title_after_message("New conversation", &"y".repeat(60)),
        Some("y".repeat(50))
    );
    assert_eq!(aihelper::commands::title_after_message("Mine", "hello"), None);
}

#[test]
fn suggestion_request_needs_rows() {
    let settings = || aihelper::commands::AiSettings {
        api_key: "k".to_string(),
        base_url: "u".to_string(),
        model: "m".to_string(),
    };
    assert_eq!(
        aihelper::commands::smart_suggest_request_from(settings(), 7, Vec::new(), Vec::new()).err(),
        Some("No activity data found. Use your computer for a while first.".to_string())
    );
    let rows = vec![ActivitySummaryRow {
        app_name: "Code".to_string(),
        window_title: "a".to_string(),
        total_duration_secs: 40,
    }];
    let q = aihelper::commands::smart_suggest_request_from(settings(), 3, rows, vec!["p".to_string()]).unwrap();
    assert_eq!((q.days, q.activity.len(), q.existing_names.len()), (3, 1, 1));
}

#[test]
fn tip_request_keeps_what_was_read() {
    let settings = || aihelper::commands::AiSettings {
        api_key: "k".to_string(),
        base_url: "u".to_string(),
        model: "m".to_string(),
    };
    let rows = vec![
        ("Code".to_string(), "fn main".to_string()),
        ("Slack".to_string(), "hi".to_string()),
    ];
    let q = aihelper::commands::tip_request_from(settings(), Ok("digest".to_string()), Ok(rows));
    assert_eq!(q.context, "digest");
    assert_eq!(q.keystrokes, "[Code] fn main\n[Slack] hi");
    assert_eq!(q.settings.api_key, "k");
    let q = aihelper::commands::tip_request_from(settings(), Err("x".to_string()), Err("y".to_string()));
    assert_eq!(q.context, "");
    assert_eq!(q.keystrokes, "");
}

#[test]
fn assistant_reply_is_linked_under_its_parent() {
    let mut d = db();
    let c = create_conversation(&mut d, None).unwrap();
    let m1 = save_user_message(&mut d, c.id, None, "q".to_string()).unwrap();
    let p = record_assistant_reply(&mut d, c.id, m1.id, "a".to_string(), "gpt".to_string()).unwrap();
    let msgs = load_conversation(&mut d, c.id).unwrap().messages;
    let reply = msgs.iter().find(|m| m.id == p.id).unwrap();
    assert_eq!(reply.role, "assistant");
    assert_eq!(reply.parent_id, Some(m1.id));
    assert_eq!(reply.model, Some("gpt".to_string()));
    let parent = msgs.iter().find(|m| m.id == m1.id).unwrap();
    assert_eq!(parent.active_child_id, Some(p.id));
}
