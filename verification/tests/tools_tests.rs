use aihelper::db::Database;
use aihelper::tools::{run_tool_calls, FunctionCall, ToolCall};
use aihelper::tools::{execute_tool, get_tool_definitions, redact_settings, ToolOutput, MAX_TOOL_ITERATIONS};

fn db() -> Database {
    Database::initialize(":memory:").expect("in-memory database")
}

#[test]
fn tool_catalog_names_and_parameters() {
    let defs = get_tool_definitions();
    let names: Vec<&str> = defs.iter().map(|d| d.function.name.as_str()).collect();
    assert_eq!(
        names,
        vec![
            "list_projects",
            "get_project_summaries_today",
            "get_project_rules",
            "get_all_rules",
            "get_untagged_summary",
            "get_project_activities",
            "list_tasks",
            "get_top_windows_today",
            "get_recent_events",
            "get_all_settings",
        ]
    );
    assert!(defs.iter().all(|d| d.tool_type == "function"));
    let activities = &defs[5].function.parameters;
    let params: Vec<&str> = activities.properties.iter().map(|p| p.name.as_str()).collect();
    assert_eq!(params, vec!["project_id", "limit", "offset"]);
    assert_eq!(activities.required, vec!["project_id".to_string()]);
    assert_eq!(defs[6].function.parameters.properties[0].param_type, "boolean");
    assert_eq!(MAX_TOOL_ITERATIONS, 5);
}

#[test]
fn api_key_is_redacted() {
    let pairs = vec![
        ("ai_api_key".to_string(), "secret".to_string()),
        ("theme".to_string(), "dark".to_string()),
    ];
    assert_eq!(
        redact_settings(pairs),
        vec![
            ("ai_api_key".to_string(), "***REDACTED***".to_string()),
            ("theme".to_string(), "dark".to_string()),
        ]
    );
}

#[test]
fn unknown_tool_is_an_output() {
    let mut d = db();
    let (out, summary) = execute_tool(&mut d, "make_coffee", "{}").unwrap();
    assert_eq!(summary, "unknown tool: make_coffee");
    match out {
        ToolOutput::UnknownTool(n, json) => {
            assert_eq!(n, "make_coffee");
            assert_eq!(json, r#"{"error":"Unknown tool: make_coffee"}"#);
        }
        _ => panic!("unknown tool expected"),
    }
}

#[test]
fn project_id_is_required() {
    let mut d = db();
    let msg = "Missing required parameter: project_id".to_string();
    assert_eq!(execute_tool(&mut d, "get_project_rules", "{}").err(), Some(msg.clone()));
    assert_eq!(execute_tool(&mut d, "get_project_rules", "not json").err(), Some(msg.clone()));
    assert_eq!(execute_tool(&mut d, "get_project_activities", "{\"project_id\": \"7\"}").err(), Some(msg));
}

#[test]
fn tools_report_counts() {
    let mut d = db();
    let p = d.create_project("Web", "", "#fff").unwrap();
    d.add_project_rule(p.id, "true", 0).unwrap();
    d.create_task("t", "w").unwrap();
    d.insert_event("e", "").unwrap();
    d.set_setting("ai_api_key", "secret", "default").unwrap();

    let (_, s) = execute_tool(&mut d, "list_projects", "").unwrap();
    assert_eq!(s, "1 projects");
    let args = format!("{{\"project_id\": {}}}", p.id);
    let (out, s) = execute_tool(&mut d, "get_project_rules", &args).unwrap();
    assert_eq!(s, format!("1 rules for project {}", p.id));
    assert!(matches!(out, ToolOutput::Rules(ref v) if v.len() == 1));
    let (_, s) = execute_tool(&mut d, "get_all_rules", "{}").unwrap();
    assert_eq!(s, "1 rules total");
    let (_, s) = execute_tool(&mut d, "get_project_activities", &args).unwrap();
    assert_eq!(s, format!("0 activities for project {}", p.id));
    let (_, s) = execute_tool(&mut d, "list_tasks", "{}").unwrap();
    assert_eq!(s, "1 active tasks");
    let (_, s) = execute_tool(&mut d, "list_tasks", "{\"archived\": true}").unwrap();
    assert_eq!(s, "0 archived tasks");
    let (_, s) = execute_tool(&mut d, "get_recent_events", "{\"limit\": 5}").unwrap();
    assert_eq!(s, "1 events");
    let (_, s) = execute_tool(&mut d, "get_top_windows_today", "{}").unwrap();
    assert_eq!(s, "0 windows");
    let (_, s) = execute_tool(&mut d, "get_untagged_summary", "{}").unwrap();
    assert_eq!(s, "0 untagged activities");
    let (_, s) = execute_tool(&mut d, "get_project_summaries_today", "{}").unwrap();
    assert_eq!(s, "1 project summaries");
    let (out, s) = execute_tool(&mut d, "get_all_settings", "{}").unwrap();
    assert_eq!(s, "1 settings");
    match out {
        ToolOutput::Settings(v, json) => {
            assert_eq!(v, vec![("ai_api_key".to_string(), "***REDACTED***".to_string())]);
            assert_eq!(json, r#"{"ai_api_key":"***REDACTED***"}"#);
        }
        _ => panic!("settings expected"),
    }
}

#[test]
fn negative_project_id_is_passed_through() {
    let mut d = db();
    let (_, s) = execute_tool(&mut d, "get_project_rules", "{\"project_id\": -3}").unwrap();
    assert_eq!(s, "0 rules for project -3");
}

#[test]
fn a_round_of_tool_calls() {
    let mut d = db();
    d.create_project("Web", "", "#fff").unwrap();
    let call = |id: &str, name: &str, args: &str| ToolCall {
        id: id.to_string(),
        call_type: "function".to_string(),
        function: FunctionCall { name: name.to_string(), arguments: args.to_string() },
    };
    let calls = vec![
        call("1", "list_projects", "{}"),
        call("2", "get_project_rules", "{}"),
        call("3", "nope", "{}"),
    ];
    let runs = run_tool_calls(&mut d, &calls);
    let shown: Vec<(String, String)> = runs
        .iter()
        .map(|r| (r.indicator.tool_name.clone(), r.indicator.summary.clone()))
        .collect();
    assert_eq!(
        shown,
        vec![
            ("list_projects".to_string(), "1 projects".to_string()),
            ("get_project_rules".to_string(), "error: Missing required parameter: project_id".to_string()),
            ("nope".to_string(), "unknown tool: nope".to_string()),
        ]
    );
    assert!(matches!(runs[1].output, Err(ref e) if e == "Missing required parameter: project_id"));
    assert!(matches!(runs[0].output, Ok(ToolOutput::Projects(ref v)) if v.len() == 1));
}

#[test]
fn catalog_names_are_distinct_and_required_params_declared() {
    let defs = get_tool_definitions();
    for i in 0..defs.len() {
        for j in (i + 1)..defs.len() {
            assert_ne!(defs[i].function.name, defs[j].function.name);
        }
        let params = &defs[i].function.parameters;
        for r in &params.required {
            assert!(params.properties.iter().any(|p| &p.name == r));
        }
    }
}

#[test]
fn argument_defaults() {
    assert_eq!(aihelper::tools::activity_paging("{}"), (50, 0));
    assert_eq!(aihelper::tools::activity_paging("{\"limit\": 5, \"offset\": 10}"), (5, 10));
    assert_eq!(aihelper::tools::activity_paging("not json"), (50, 0));
    assert_eq!(aihelper::tools::events_limit("{}"), 20);
    assert_eq!(aihelper::tools::events_limit("{\"limit\": 3}"), 3);
    assert!(!aihelper::tools::tasks_archived("{}"));
    assert!(aihelper::tools::tasks_archived("{\"archived\": true}"));
}

#[test]
fn unknown_tool_leaves_the_database_alone() {
    let mut d = db();
    d.set_setting("theme", "dark", "default").unwrap();
    let (out, summary) = execute_tool(&mut d, "delete_everything", "{}").unwrap();
    assert_eq!(summary, "unknown tool: delete_everything");
    match out {
        ToolOutput::UnknownTool(_, json) => {
            assert_eq!(json, r#"{"error":"Unknown tool: delete_everything"}"#)
        }
        _ => panic!("unknown tool expected"),
    }
    assert_eq!(d.get_setting("theme", "default").unwrap(), Some("dark".to_string()));
}

#[test]
fn settings_json_holds_every_setting_with_the_key_redacted() {
    let mut d = db();
    d.set_setting("ai_api_key", "secret", "default").unwrap();
    d.set_setting("theme", "dark", "default").unwrap();
    let (out, s) = execute_tool(&mut d, "get_all_settings", "{}").unwrap();
    assert_eq!(s, "2 settings");
    match out {
        ToolOutput::Settings(_, json) => {
            let v: serde_json::Value = serde_json::from_str(&json).unwrap();
            assert_eq!(v["ai_api_key"], "***REDACTED***");
            assert_eq!(v["theme"], "dark");
            assert_eq!(v.as_object().unwrap().len(), 2);
        }
        _ => panic!("settings expected"),
    }
}

#[test]
fn activity_tool_uses_default_paging() {
    let mut d = db();
    let p = d.create_project("Web", "", "#fff").unwrap();
    let args = format!("{{\"project_id\": {}}}", p.id);
    let (out, _) = execute_tool(&mut d, "get_project_activities", &args).unwrap();
    let direct = d.get_project_activities(p.id, 50, 0).unwrap();
    match out {
        ToolOutput::Activities(v) => assert_eq!(v.len(), direct.len()),
        _ => panic!("activities expected"),
    }
}
