//! The tools the AI model may call during a chat, and their dispatcher.
use vstd::prelude::*;
use crate::db::{fetch_failure, reported, Database};
use crate::records::{
    Event, Project, ProjectActivity, ProjectRule, ProjectSummary, Task, TextCount,
    UntaggedSummaryRow,
};
use crate::text::{decimal, owned, push_i64, push_str, push_usize, string_of, text_eq};
use crate::insights::pairs_of;
use crate::sql::StatementView;
use crate::statements::{
    get_all_project_summaries_today_stmt, get_all_rules_stmt, get_all_settings_stmt,
    get_project_activities_stmt, get_project_rules_stmt, get_recent_events_stmt,
    get_top_windows_today_stmt, list_projects_stmt, list_tasks_stmt, untagged_by_app_stmt,
    untagged_count_stmt,
};

verus! {

/// How many rounds of tool calls a chat turn may make.
pub const MAX_TOOL_ITERATIONS: usize = 5;

/// One parameter of a tool's JSON schema.
#[derive(Debug, Clone)]
pub struct ToolParameter {
    pub name: String,
    pub param_type: String,
    pub description: String,
}

/// A tool's parameters: an object schema with these properties, of which
/// `required` must be given.
#[derive(Debug, Clone)]
pub struct ToolParameters {
    pub properties: Vec<ToolParameter>,
    pub required: Vec<String>,
}

/// A callable function offered to the model.
#[derive(Debug, Clone)]
pub struct FunctionDefinition {
    pub name: String,
    pub description: String,
    pub parameters: ToolParameters,
}

/// A tool offered to the model (always of type "function").
#[derive(Debug, Clone)]
pub struct ToolDefinition {
    pub tool_type: String,
    pub function: FunctionDefinition,
}

/// A tool call requested by the model.
#[derive(Debug, Clone)]
pub struct ToolCall {
    pub id: String,
    pub call_type: String,
    pub function: FunctionCall,
}

/// The function a tool call names and its JSON-encoded arguments.
#[derive(Debug, Clone)]
pub struct FunctionCall {
    pub name: String,
    pub arguments: String,
}

/// What the user is told a tool did.
#[derive(Debug, Clone)]
pub struct ToolCallResult {
    pub tool_name: String,
    pub summary: String,
}

/// A tool parameter as plain values: (name, type, description).
pub type ParamView = (Seq<char>, Seq<char>, Seq<char>);

/// A tool as plain values: (type, name, description, parameters, required).
pub type ToolView = (Seq<char>, Seq<char>, Seq<char>, Seq<ParamView>, Seq<Seq<char>>);

pub open spec fn param_view(p: ToolParameter) -> ParamView {
    (p.name@, p.param_type@, p.description@)
}

pub open spec fn tool_view(t: ToolDefinition) -> ToolView {
    (
        t.tool_type@,
        t.function.name@,
        t.function.description@,
        t.function.parameters.properties@.map_values(|p: ToolParameter| param_view(p)),
        t.function.parameters.required@.map_values(|s: String| s@),
    )
}

pub open spec fn plain_tool(name: Seq<char>, description: Seq<char>) -> ToolView {
    ("function"@, name, description, seq![], seq![])
}

/// The ten tools, in the order they are offered.
pub open spec fn tool_catalog() -> Seq<ToolView> {
    seq![
        plain_tool(
            "list_projects"@,
            "List all user-defined projects with their id, name, description, and color."@,
        ),
        plain_tool(
            "get_project_summaries_today"@,
            "Get today's activity summary per project: keystroke count and active seconds."@,
        ),
        (
            "function"@,
            "get_project_rules"@,
            "Get the matching rules (JSONata expressions) for a specific project."@,
            seq![("project_id"@, "integer"@, "The project ID to get rules for."@)],
            seq!["project_id"@],
        ),
        plain_tool("get_all_rules"@, "Get all project matching rules across all projects."@),
        plain_tool(
            "get_untagged_summary"@,
            "Get a summary of untagged (not assigned to any project) activity, broken down by app."@,
        ),
        (
            "function"@,
            "get_project_activities"@,
            "Get recent activity entries for a specific project (app name, window title, duration, timestamp)."@,
            seq![
                ("project_id"@, "integer"@, "The project ID."@),
                ("limit"@, "integer"@, "Max rows to return (default 50)."@),
                ("offset"@, "integer"@, "Row offset for pagination (default 0)."@),
            ],
            seq!["project_id"@],
        ),
        (
            "function"@,
            "list_tasks"@,
            "List the user's tasks. Set archived=true to see archived tasks, or false/omit for active tasks."@,
            seq![("archived"@, "boolean"@, "Whether to list archived tasks (default false)."@)],
            seq![],
        ),
        plain_tool(
            "get_top_windows_today"@,
            "Get the top window titles by time spent today, with duration in seconds."@,
        ),
        (
            "function"@,
            "get_recent_events"@,
            "Get recent system events (e.g. UI actions, errors) with type, payload, and timestamp."@,
            seq![("limit"@, "integer"@, "Max events to return (default 20)."@)],
            seq![],
        ),
        plain_tool(
            "get_all_settings"@,
            "Get all user settings (api key is redacted for security)."@,
        ),
    ]
}

fn param(name: &str, param_type: &str, description: &str) -> (r: ToolParameter)
    ensures
        param_view(r) == (name@, param_type@, description@),
{
    ToolParameter { name: owned(name), param_type: owned(param_type), description: owned(description) }
}

fn tool(name: &str, description: &str, properties: Vec<ToolParameter>, required: Vec<String>) -> (r:
    ToolDefinition)
    ensures
        tool_view(r) == (
            "function"@,
            name@,
            description@,
            properties@.map_values(|p: ToolParameter| param_view(p)),
            required@.map_values(|s: String| s@),
        ),
{
    ToolDefinition {
        tool_type: owned("function"),
        function: FunctionDefinition {
            name: owned(name),
            description: owned(description),
            parameters: ToolParameters { properties, required },
        },
    }
}

fn plain(name: &str, description: &str) -> (r: ToolDefinition)
    ensures
        tool_view(r) == plain_tool(name@, description@),
{
    let r = tool(name, description, Vec::new(), Vec::new());
    assert(tool_view(r).3 =~= seq![]);
    assert(tool_view(r).4 =~= seq![]);
    r
}

/// The tools offered to the model (see `tool_catalog`).
pub fn get_tool_definitions() -> (r: Vec<ToolDefinition>)
    ensures
        r@.map_values(|t: ToolDefinition| tool_view(t)) == tool_catalog(),
{
    let mut v: Vec<ToolDefinition> = Vec::new();
    v.push(plain("list_projects", "List all user-defined projects with their id, name, description, and color."));
    v.push(plain("get_project_summaries_today", "Get today's activity summary per project: keystroke count and active seconds."));
    let p1 = vec![param("project_id", "integer", "The project ID to get rules for.")];
    let r1 = vec![owned("project_id")];
    let t1 = tool("get_project_rules", "Get the matching rules (JSONata expressions) for a specific project.", p1, r1);
    assert(tool_view(t1).3 =~= seq![("project_id"@, "integer"@, "The project ID to get rules for."@)]);
    assert(tool_view(t1).4 =~= seq!["project_id"@]);
    v.push(t1);
    v.push(plain("get_all_rules", "Get all project matching rules across all projects."));
    v.push(plain("get_untagged_summary", "Get a summary of untagged (not assigned to any project) activity, broken down by app."));
    let p2 = vec![
        param("project_id", "integer", "The project ID."),
        param("limit", "integer", "Max rows to return (default 50)."),
        param("offset", "integer", "Row offset for pagination (default 0)."),
    ];
    let r2 = vec![owned("project_id")];
    let t2 = tool("get_project_activities", "Get recent activity entries for a specific project (app name, window title, duration, timestamp).", p2, r2);
    assert(tool_view(t2).3 =~= seq![
        ("project_id"@, "integer"@, "The project ID."@),
        ("limit"@, "integer"@, "Max rows to return (default 50)."@),
        ("offset"@, "integer"@, "Row offset for pagination (default 0)."@),
    ]);
    assert(tool_view(t2).4 =~= seq!["project_id"@]);
    v.push(t2);
    let p3 = vec![param("archived", "boolean", "Whether to list archived tasks (default false).")];
    let t3 = tool("list_tasks", "List the user's tasks. Set archived=true to see archived tasks, or false/omit for active tasks.", p3, Vec::new());
    assert(tool_view(t3).3 =~= seq![("archived"@, "boolean"@, "Whether to list archived tasks (default false)."@)]);
    assert(tool_view(t3).4 =~= seq![]);
    v.push(t3);
    v.push(plain("get_top_windows_today", "Get the top window titles by time spent today, with duration in seconds."));
    let p4 = vec![param("limit", "integer", "Max events to return (default 20).")];
    let t4 = tool("get_recent_events", "Get recent system events (e.g. UI actions, errors) with type, payload, and timestamp.", p4, Vec::new());
    assert(tool_view(t4).3 =~= seq![("limit"@, "integer"@, "Max events to return (default 20)."@)]);
    assert(tool_view(t4).4 =~= seq![]);
    v.push(t4);
    v.push(plain("get_all_settings", "Get all user settings (api key is redacted for security)."));
    assert(v@.map_values(|t: ToolDefinition| tool_view(t)) =~= tool_catalog());
    v
}


// ---------------------------------------------------------------------------
// Running a tool
// ---------------------------------------------------------------------------

/// The integer at `key` of the JSON object `text` (`None` when `text` is not
/// valid JSON, or the field is missing or not an integer that fits `i64`).
pub uninterp spec fn json_int_field(text: Seq<char>, key: Seq<char>) -> Option<i64>;

/// The boolean at `key` of the JSON object `text` (`None` when `text` is not
/// valid JSON, or the field is missing or not a boolean).
pub uninterp spec fn json_bool_field(text: Seq<char>, key: Seq<char>) -> Option<bool>;

/// `serde_json::from_str::<Value>` on the arguments, then `value[key].as_i64()`;
/// a function of the text and the key alone, named `json_int_field`.
#[verifier::external_body]
pub(crate) fn json_int_arg(text: &str, key: &str) -> (r: Option<i64>)
    ensures
        r == json_int_field(text@, key@),
{
    serde_json::from_str::<serde_json::Value>(text).ok().and_then(|v| v[key].as_i64())
}

/// `serde_json::from_str::<Value>` on the arguments, then `value[key].as_bool()`;
/// a function of the text and the key alone, named `json_bool_field`.
#[verifier::external_body]
pub(crate) fn json_bool_arg(text: &str, key: &str) -> (r: Option<bool>)
    ensures
        r == json_bool_field(text@, key@),
{
    serde_json::from_str::<serde_json::Value>(text).ok().and_then(|v| v[key].as_bool())
}

/// The rows `get_project_activities` asks for: `limit` (default 50) and
/// `offset` (default 0) from the arguments.
pub fn activity_paging(arguments: &str) -> (r: (i64, i64))
    ensures
        r == (json_int_field(arguments@, "limit"@).unwrap_or(50), json_int_field(arguments@, "offset"@).unwrap_or(
            0,
        )),
{
    let limit = match json_int_arg(arguments, "limit") {
        Some(l) => l,
        None => 50,
    };
    let offset = match json_int_arg(arguments, "offset") {
        Some(o) => o,
        None => 0,
    };
    (limit, offset)
}

/// How many events `get_recent_events` asks for: `limit`, default 20.
pub fn events_limit(arguments: &str) -> (r: i64)
    ensures
        r == json_int_field(arguments@, "limit"@).unwrap_or(20),
{
    match json_int_arg(arguments, "limit") {
        Some(l) => l,
        None => 20,
    }
}

/// Whether `list_tasks` asks for the archived tasks: `archived`, default false.
pub fn tasks_archived(arguments: &str) -> (r: bool)
    ensures
        r == json_bool_field(arguments@, "archived"@).unwrap_or(false),
{
    match json_bool_arg(arguments, "archived") {
        Some(b) => b,
        None => false,
    }
}

/// What a tool returned, before it is encoded as JSON for the model.
pub enum ToolOutput {
    Projects(Vec<Project>),
    ProjectSummaries(Vec<ProjectSummary>),
    Rules(Vec<ProjectRule>),
    UntaggedSummary(i64, Vec<UntaggedSummaryRow>),
    Activities(Vec<ProjectActivity>),
    Tasks(Vec<Task>),
    /// (title, duration_secs) rows.
    TopWindows(Vec<TextCount>),
    Events(Vec<Event>),
    /// (key, value) pairs, the API key redacted, and their JSON object text.
    Settings(Vec<(String, String)>, String),
    /// The requested tool does not exist: its name, and the JSON text
    /// `{"error":"Unknown tool: NAME"}`.
    UnknownTool(String, String),
}

/// The placeholder shown instead of the API key.
pub open spec fn redacted() -> Seq<char> {
    "***REDACTED***"@
}

/// Settings as shown to the model: the value of `ai_api_key` is replaced.
pub open spec fn redact_spec(pairs: Seq<(Seq<char>, Seq<char>)>) -> Seq<(Seq<char>, Seq<char>)> {
    pairs.map_values(
        |p: (Seq<char>, Seq<char>)|
            if p.0 == "ai_api_key"@ {
                (p.0, redacted())
            } else {
                p
            },
    )
}

pub open spec fn string_pairs(v: Seq<(String, String)>) -> Seq<(Seq<char>, Seq<char>)> {
    pairs_of(v)
}

/// The JSON object text of (key, string value) pairs, as `serde_json` writes
/// a `Map` of them.
pub uninterp spec fn json_object_text(pairs: Seq<(Seq<char>, Seq<char>)>) -> Seq<char>;

/// `serde_json`: the (key, string value) pairs collected into a
/// `serde_json::Map` and written out with `Value::to_string`; a function of
/// the pairs alone, named `json_object_text`.
#[verifier::external_body]
fn json_object(pairs: &Vec<(String, String)>) -> (r: String)
    ensures
        r@ == json_object_text(pairs_of(pairs@)),
{
    let map: serde_json::Map<String, serde_json::Value> = pairs.iter().map(
        |p| (p.0.clone(), serde_json::Value::String(p.1.clone())),
    ).collect();
    serde_json::Value::Object(map).to_string()
}

/// The text given to the model for a tool that does not exist:
/// `{"error":"Unknown tool: NAME"}`.
pub open spec fn unknown_tool_json(name: Seq<char>) -> Seq<char> {
    json_object_text(seq![("error"@, "Unknown tool: "@ + name)])
}

/// Replaces the API key's value with "***REDACTED***".
pub fn redact_settings(pairs: Vec<(String, String)>) -> (r: Vec<(String, String)>)
    ensures
        string_pairs(r@) == redact_spec(string_pairs(pairs@)),
{
    let mut out: Vec<(String, String)> = Vec::new();
    let mut i: usize = 0;
    while i < pairs.len()
        invariant
            i <= pairs@.len(),
            string_pairs(out@) == redact_spec(string_pairs(pairs@)).take(i as int),
        decreases pairs@.len() - i,
    {
        let k = pairs[i].0.clone();
        let v = if text_eq(k.as_str(), "ai_api_key") {
            owned("***REDACTED***")
        } else {
            pairs[i].1.clone()
        };
        let ghost before = string_pairs(out@);
        out.push((k, v));
        assert(string_pairs(out@) =~= before.push(redact_spec(string_pairs(pairs@))[i as int]));
        assert(redact_spec(string_pairs(pairs@)).take(i + 1) =~= redact_spec(string_pairs(pairs@)).take(
            i as int,
        ).push(redact_spec(string_pairs(pairs@))[i as int]));
        i = i + 1;
    }
    assert(redact_spec(string_pairs(pairs@)).take(i as int) =~= redact_spec(string_pairs(pairs@)));
    out
}

/// "N WORD".
fn count_text(n: usize, word: &str) -> (r: String)
    ensures
        r@ == decimal(n as int) + word@,
{
    let mut v: Vec<char> = Vec::new();
    push_usize(&mut v, n);
    push_str(&mut v, word);
    string_of(v.as_slice())
}

/// "N WORD ID".
fn count_for_text(n: usize, word: &str, id: i64) -> (r: String)
    ensures
        r@ == decimal(n as int) + word@ + decimal(id as int),
{
    let mut v: Vec<char> = Vec::new();
    push_usize(&mut v, n);
    push_str(&mut v, word);
    push_i64(&mut v, id);
    assert(v@ =~= decimal(n as int) + word@ + decimal(id as int));
    string_of(v.as_slice())
}

/// The names of the tools in the catalog.
pub open spec fn known_tool(name: Seq<char>) -> bool {
    exists|i: int| 0 <= i < tool_catalog().len() && tool_catalog()[i].1 == name
}

/// What a successful run of tool `name` with `arguments` gives: the kind of
/// output, and the summary shown to the user.
pub open spec fn tool_ran(name: Seq<char>, arguments: Seq<char>, out: ToolOutput, summary: Seq<char>) -> bool {
    if name == "list_projects"@ {
        out matches ToolOutput::Projects(v) && summary == decimal(v.len() as int) + " projects"@
    } else if name == "get_project_summaries_today"@ {
        out matches ToolOutput::ProjectSummaries(v) && summary == decimal(v.len() as int)
            + " project summaries"@
    } else if name == "get_project_rules"@ {
        &&& json_int_field(arguments, "project_id"@) is Some
        &&& out matches ToolOutput::Rules(v) && summary == decimal(v.len() as int)
            + " rules for project "@ + decimal(json_int_field(arguments, "project_id"@)->0 as int)
    } else if name == "get_all_rules"@ {
        out matches ToolOutput::Rules(v) && summary == decimal(v.len() as int) + " rules total"@
    } else if name == "get_untagged_summary"@ {
        out matches ToolOutput::UntaggedSummary(total, v) && summary == decimal(total as int)
            + " untagged activities"@
    } else if name == "get_project_activities"@ {
        &&& json_int_field(arguments, "project_id"@) is Some
        &&& out matches ToolOutput::Activities(v) && summary == decimal(v.len() as int)
            + " activities for project "@ + decimal(json_int_field(arguments, "project_id"@)->0 as int)
    } else if name == "list_tasks"@ {
        out matches ToolOutput::Tasks(v) && summary == decimal(v.len() as int) + if json_bool_field(
            arguments,
            "archived"@,
        ).unwrap_or(false) {
            " archived tasks"@
        } else {
            " active tasks"@
        }
    } else if name == "get_top_windows_today"@ {
        out matches ToolOutput::TopWindows(v) && summary == decimal(v.len() as int) + " windows"@
    } else if name == "get_recent_events"@ {
        out matches ToolOutput::Events(v) && summary == decimal(v.len() as int) + " events"@
    } else if name == "get_all_settings"@ {
        &&& out matches ToolOutput::Settings(v, j) && summary == decimal(v.len() as int) + " settings"@
            && j@ == json_object_text(string_pairs(v@))
        &&& exists|stored: Seq<(Seq<char>, Seq<char>)>| string_pairs(out->Settings_0@) == redact_spec(stored)
    } else {
        out matches ToolOutput::UnknownTool(n, j) && n@ == name && j@ == unknown_tool_json(name)
            && summary == "unknown tool: "@ + name
    }
}

/// The queries tool `name` runs with `arguments` when it succeeds, in
/// order: none for an unknown tool.
pub open spec fn tool_queries(name: Seq<char>, arguments: Seq<char>) -> Seq<StatementView> {
    if name == "list_projects"@ {
        seq![list_projects_stmt()]
    } else if name == "get_project_summaries_today"@ {
        seq![get_all_project_summaries_today_stmt()]
    } else if name == "get_project_rules"@ {
        seq![get_project_rules_stmt(json_int_field(arguments, "project_id"@)->0)]
    } else if name == "get_all_rules"@ {
        seq![get_all_rules_stmt()]
    } else if name == "get_untagged_summary"@ {
        seq![untagged_count_stmt(), untagged_by_app_stmt()]
    } else if name == "get_project_activities"@ {
        seq![
            get_project_activities_stmt(
                json_int_field(arguments, "project_id"@)->0,
                json_int_field(arguments, "limit"@).unwrap_or(50),
                json_int_field(arguments, "offset"@).unwrap_or(0),
            ),
        ]
    } else if name == "list_tasks"@ {
        seq![
            list_tasks_stmt(
                if json_bool_field(arguments, "archived"@).unwrap_or(false) {
                    1i64
                } else {
                    0i64
                },
            ),
        ]
    } else if name == "get_top_windows_today"@ {
        seq![get_top_windows_today_stmt()]
    } else if name == "get_recent_events"@ {
        seq![get_recent_events_stmt(json_int_field(arguments, "limit"@).unwrap_or(20))]
    } else if name == "get_all_settings"@ {
        seq![get_all_settings_stmt("default"@)]
    } else {
        seq![]
    }
}

pub open spec fn missing_project_id() -> Seq<char> {
    "Missing required parameter: project_id"@
}

/// Runs tool `name` against the database with JSON `arguments` (missing or
/// malformed arguments fall back to their defaults: `limit` 50 and `offset`
/// 0 for activities, `limit` 20 for events, active tasks). Returns the output
/// and a one-line summary; an unknown tool is an output, not an error.
pub fn execute_tool(db: &mut Database, name: &str, arguments: &str) -> (r: Result<(ToolOutput, String), String>)
    ensures
        r matches Ok((out, summary)) ==> tool_ran(name@, arguments@, out, summary@),
        r matches Err(e) ==> (e@ == missing_project_id() && (name@ == "get_project_rules"@ || name@
            == "get_project_activities"@) && json_int_field(arguments@, "project_id"@) is None)
            || tool_query_failure(e@),
        (name@ == "get_project_rules"@ || name@ == "get_project_activities"@) && json_int_field(
            arguments@,
            "project_id"@,
        ) is None ==> (r matches Err(e) && e@ == missing_project_id()),
        !(name@ == "list_projects"@ || name@ == "get_project_summaries_today"@ || name@
            == "get_project_rules"@ || name@ == "get_all_rules"@ || name@ == "get_untagged_summary"@
            || name@ == "get_project_activities"@ || name@ == "list_tasks"@ || name@
            == "get_top_windows_today"@ || name@ == "get_recent_events"@ || name@
            == "get_all_settings"@) ==> r is Ok,
        r is Ok ==> final(db).ran() == old(db).ran() + tool_queries(name@, arguments@),
        r is Err ==> exists|k: int|
            0 <= k < tool_queries(name@, arguments@).len() && final(db).ran() == old(db).ran()
                + tool_queries(name@, arguments@).take(k),
        r matches Ok((ToolOutput::Settings(v, j), s)) ==> exists|stored: Seq<(Seq<char>, Seq<char>)>|
            final(db).settings_listed() == old(db).settings_listed().push(("default"@, stored))
                && string_pairs(v@) == redact_spec(stored),
{
    let ghost queries = tool_queries(name@, arguments@);
    assert(db.ran() + queries.take(0) =~= db.ran());
    let needs_project = text_eq(name, "get_project_rules") || text_eq(name, "get_project_activities");
    if needs_project && json_int_arg(arguments, "project_id").is_none() {
        return Err("Missing required parameter: project_id".to_string());
    }
    if text_eq(name, "list_projects") {
        let v = db.list_projects()?;
        let n = v.len();
        Ok((ToolOutput::Projects(v), count_text(n, " projects")))
    } else if text_eq(name, "get_project_summaries_today") {
        let v = db.get_all_project_summaries_today()?;
        let n = v.len();
        Ok((ToolOutput::ProjectSummaries(v), count_text(n, " project summaries")))
    } else if text_eq(name, "get_project_rules") {
        let pid = match json_int_arg(arguments, "project_id") {
            Some(p) => p,
            None => {
                return Err("Missing required parameter: project_id".to_string());
            },
        };
        let v = db.get_project_rules(pid)?;
        let n = v.len();
        Ok((ToolOutput::Rules(v), count_for_text(n, " rules for project ", pid)))
    } else if text_eq(name, "get_all_rules") {
        let v = db.get_all_rules()?;
        let n = v.len();
        Ok((ToolOutput::Rules(v), count_text(n, " rules total")))
    } else if text_eq(name, "get_untagged_summary") {
        let ghost s0 = db.ran();
        let (total, v) = match db.get_untagged_summary() {
            Ok(x) => x,
            Err(e) => {
                assert(s0.push(untagged_count_stmt()) =~= s0 + queries.take(1));
                return Err(e);
            },
        };
        let mut t: Vec<char> = Vec::new();
        push_i64(&mut t, total);
        push_str(&mut t, " untagged activities");
        Ok((ToolOutput::UntaggedSummary(total, v), string_of(t.as_slice())))
    } else if text_eq(name, "get_project_activities") {
        let pid = match json_int_arg(arguments, "project_id") {
            Some(p) => p,
            None => {
                return Err("Missing required parameter: project_id".to_string());
            },
        };
        let (limit, offset) = activity_paging(arguments);
        let v = db.get_project_activities(pid, limit, offset)?;
        let n = v.len();
        Ok((ToolOutput::Activities(v), count_for_text(n, " activities for project ", pid)))
    } else if text_eq(name, "list_tasks") {
        let archived = tasks_archived(arguments);
        let v = db.list_tasks(archived)?;
        let n = v.len();
        let label = if archived {
            " archived tasks"
        } else {
            " active tasks"
        };
        Ok((ToolOutput::Tasks(v), count_text(n, label)))
    } else if text_eq(name, "get_top_windows_today") {
        let v = db.get_top_windows_today()?;
        let n = v.len();
        Ok((ToolOutput::TopWindows(v), count_text(n, " windows")))
    } else if text_eq(name, "get_recent_events") {
        let limit = events_limit(arguments);
        let v = db.get_recent_events(limit)?;
        let n = v.len();
        Ok((ToolOutput::Events(v), count_text(n, " events")))
    } else if text_eq(name, "get_all_settings") {
        let pairs = db.get_all_settings("default")?;
        let v = redact_settings(pairs);
        let n = v.len();
        let j = json_object(&v);
        Ok((ToolOutput::Settings(v, j), count_text(n, " settings")))
    } else {
        let mut t: Vec<char> = Vec::new();
        push_str(&mut t, "unknown tool: ");
        push_str(&mut t, name);
        let mut m: Vec<char> = Vec::new();
        push_str(&mut m, "Unknown tool: ");
        push_str(&mut m, name);
        let error = vec![(owned("error"), string_of(m.as_slice()))];
        proof {
            assert(pairs_of(error@) =~= seq![("error"@, "Unknown tool: "@ + name@)]);
        }
        let j = json_object(&error);
        Ok((ToolOutput::UnknownTool(owned(name), j), string_of(t.as_slice())))
    }
}

/// The failures of the queries the tools run.
pub open spec fn tool_query_failure(e: Seq<char>) -> bool {
    ||| fetch_failure(e, "Failed to prepare list_projects"@, "Failed to query projects"@, "Failed to read project row"@)
    ||| fetch_failure(e, "Failed to prepare project summaries"@, "Failed to query project summaries"@, "Failed to read summary row"@)
    ||| fetch_failure(e, "Failed to prepare get_project_rules"@, "Failed to query project rules"@, "Failed to read project rule row"@)
    ||| fetch_failure(e, "Failed to prepare get_all_rules"@, "Failed to query all rules"@, "Failed to read rule row"@)
    ||| reported(e, "Failed to count untagged"@)
    ||| fetch_failure(e, "Failed to prepare untagged summary"@, "Failed to query untagged summary"@, "Failed to read untagged summary row"@)
    ||| fetch_failure(e, "Failed to prepare project activities"@, "Failed to query project activities"@, "Failed to read project activity row"@)
    ||| fetch_failure(e, "Failed to prepare list_tasks"@, "Failed to query tasks"@, "Failed to read task row"@)
    ||| fetch_failure(e, "Failed to prepare top windows"@, "Failed to query top windows"@, "Failed to read window row"@)
    ||| fetch_failure(e, "Failed to prepare query"@, "Failed to query events"@, "Failed to read event row"@)
    ||| fetch_failure(e, "Failed to prepare get_all_settings"@, "Failed to query settings"@, "Failed to read setting row"@)
}


/// The tools that need a `project_id` argument.
pub open spec fn needs_project_id(name: Seq<char>) -> bool {
    name == "get_project_rules"@ || name == "get_project_activities"@
}

/// What running tool `name` with `arguments` may give: an output with its
/// summary as `tool_ran` says, or a failure, reported to the user as
/// "error: DETAIL". A missing `project_id` is always that failure; an
/// unknown tool never fails.
pub open spec fn call_outcome(
    name: Seq<char>,
    arguments: Seq<char>,
    output: Result<ToolOutput, String>,
    summary: Seq<char>,
) -> bool {
    &&& match output {
        Ok(out) => tool_ran(name, arguments, out, summary),
        Err(e) => summary == "error: "@ + e@ && ((e@ == missing_project_id() && needs_project_id(name)
            && json_int_field(arguments, "project_id"@) is None) || tool_query_failure(e@)),
    }
    &&& (needs_project_id(name) && json_int_field(arguments, "project_id"@) is None) ==> (output matches Err(
        e,
    ) && e@ == missing_project_id())
    &&& !known_tool(name) ==> output is Ok
}

/// One tool call of a round, run: what the tool returned (or why it
/// failed), and what the user is told.
pub struct ToolRun {
    pub output: Result<ToolOutput, String>,
    pub indicator: ToolCallResult,
}

/// The run of `call` is what running its tool with its arguments may give,
/// shown under the tool's name.
pub open spec fn call_ran(call: ToolCall, run: ToolRun) -> bool {
    &&& run.indicator.tool_name@ == call.function.name@
    &&& call_outcome(call.function.name@, call.function.arguments@, run.output, run.indicator.summary@)
}

/// What the run of `call` ran: its tool's queries when it succeeded, else
/// the first `k` of them (the query after them having failed).
pub open spec fn call_stmts(call: ToolCall, ok: bool, k: int) -> Seq<StatementView> {
    if ok {
        tool_queries(call.function.name@, call.function.arguments@)
    } else {
        tool_queries(call.function.name@, call.function.arguments@).take(k)
    }
}

/// What the runs of `calls` ran, one after another.
pub open spec fn calls_stmts(calls: Seq<ToolCall>, runs: Seq<ToolRun>, ks: Seq<int>) -> Seq<StatementView>
    decreases calls.len(),
{
    if calls.len() == 0 || runs.len() == 0 || ks.len() == 0 {
        seq![]
    } else {
        calls_stmts(calls.drop_last(), runs.drop_last(), ks.drop_last()) + call_stmts(
            calls.last(),
            runs.last().output is Ok,
            ks.last(),
        )
    }
}

/// Runs the tool calls the model asked for in one round, in order (see
/// `execute_tool`).
pub fn run_tool_calls(db: &mut Database, calls: &Vec<ToolCall>) -> (r: Vec<ToolRun>)
    ensures
        r@.len() == calls@.len(),
        forall|i: int| 0 <= i < calls@.len() ==> call_ran(calls@[i], #[trigger] r@[i]),
        exists|ks: Seq<int>|
            #![trigger calls_stmts(calls@, r@, ks)]
            ks.len() == calls@.len() && final(db).ran() == old(db).ran() + calls_stmts(calls@, r@, ks),
{
    let mut runs: Vec<ToolRun> = Vec::new();
    let ghost start = db.ran();
    let ghost mut ks: Seq<int> = Seq::empty();
    let mut i: usize = 0;
    while i < calls.len()
        invariant
            i <= calls@.len(),
            runs@.len() == i,
            ks.len() == i,
            forall|j: int| 0 <= j < i ==> call_ran(calls@[j], #[trigger] runs@[j]),
            db.ran() == start + calls_stmts(calls@.take(i as int), runs@, ks),
        decreases calls@.len() - i,
    {
        let ghost before = db.ran();
        let name = &calls[i].function.name;
        let arguments = &calls[i].function.arguments;
        proof {
            lemma_known_tools(name@);
        }
        let run = match execute_tool(db, name.as_str(), arguments.as_str()) {
            Ok((out, summary)) => ToolRun {
                output: Ok(out),
                indicator: ToolCallResult { tool_name: name.clone(), summary },
            },
            Err(e) => {
                let summary = crate::commands::tool_error_summary(e.as_str());
                ToolRun { output: Err(e), indicator: ToolCallResult { tool_name: name.clone(), summary } }
            },
        };
        let ghost k: int = if run.output is Ok {
            0
        } else {
            choose|k: int|
                0 <= k < tool_queries(name@, arguments@).len() && db.ran() == before + tool_queries(
                    name@,
                    arguments@,
                ).take(k)
        };
        let ghost prev_runs = runs@;
        runs.push(run);
        proof {
            assert(calls@.take(i + 1 as int).drop_last() =~= calls@.take(i as int));
            assert(runs@.drop_last() =~= prev_runs);
            assert(ks.push(k).drop_last() =~= ks);
            assert(db.ran() =~= start + calls_stmts(calls@.take(i + 1 as int), runs@, ks.push(k)));
            ks = ks.push(k);
        }
        i = i + 1;
    }
    assert(calls@.take(i as int) =~= calls@);
    runs
}

/// The catalog's names are exactly the ten tools `execute_tool` dispatches on.
proof fn lemma_known_tools(name: Seq<char>)
    ensures
        known_tool(name) <==> (name == "list_projects"@ || name == "get_project_summaries_today"@ || name
            == "get_project_rules"@ || name == "get_all_rules"@ || name == "get_untagged_summary"@ || name
            == "get_project_activities"@ || name == "list_tasks"@ || name == "get_top_windows_today"@
            || name == "get_recent_events"@ || name == "get_all_settings"@),
{
    let c = tool_catalog();
    if known_tool(name) {
        let i = choose|i: int| 0 <= i < c.len() && c[i].1 == name;
        assert(0 <= i < 10);
    } else {
        assert(c[0].1 == "list_projects"@);
        assert(c[1].1 == "get_project_summaries_today"@);
        assert(c[2].1 == "get_project_rules"@);
        assert(c[3].1 == "get_all_rules"@);
        assert(c[4].1 == "get_untagged_summary"@);
        assert(c[5].1 == "get_project_activities"@);
        assert(c[6].1 == "list_tasks"@);
        assert(c[7].1 == "get_top_windows_today"@);
        assert(c[8].1 == "get_recent_events"@);
        assert(c[9].1 == "get_all_settings"@);
    }
}


/// What the model is shown of the settings never holds the API key: the
/// key's value is always the placeholder, every other setting is shown as
/// stored, and no setting is added, dropped or moved.
pub proof fn lemma_redacted(pairs: Seq<(Seq<char>, Seq<char>)>)
    ensures
        redact_spec(pairs).len() == pairs.len(),
        forall|i: int| 0 <= i < pairs.len() ==> (#[trigger] redact_spec(pairs)[i]).0 == pairs[i].0,
        forall|i: int|
            0 <= i < pairs.len() && pairs[i].0 == "ai_api_key"@ ==> (#[trigger] redact_spec(pairs)[i]).1
                == redacted(),
        forall|i: int|
            0 <= i < pairs.len() && pairs[i].0 != "ai_api_key"@ ==> #[trigger] redact_spec(pairs)[i]
                == pairs[i],
{
}

/// One of `params` is named `name`.
pub open spec fn declares(params: Seq<ParamView>, name: Seq<char>) -> bool {
    exists|m: int| 0 <= m < params.len() && params[m].0 == name
}

/// The tools offered have distinct names, and every required parameter of
/// a tool is one of its declared parameters.
pub proof fn lemma_catalog_well_formed()
    ensures
        forall|i: int, j: int|
            0 <= i < j < tool_catalog().len() ==> (#[trigger] tool_catalog()[i]).1 != (
            #[trigger] tool_catalog()[j]).1,
        forall|i: int, k: int|
            0 <= i < tool_catalog().len() && 0 <= k < tool_catalog()[i].4.len() ==> declares(
                tool_catalog()[i].3,
                #[trigger] tool_catalog()[i].4[k],
            ),
{
    let c = tool_catalog();
    reveal_strlit("list_projects");
    reveal_strlit("get_project_summaries_today");
    reveal_strlit("get_project_rules");
    reveal_strlit("get_all_rules");
    reveal_strlit("get_untagged_summary");
    reveal_strlit("get_project_activities");
    reveal_strlit("list_tasks");
    reveal_strlit("get_top_windows_today");
    reveal_strlit("get_recent_events");
    reveal_strlit("get_all_settings");
    assert forall|i: int, j: int| 0 <= i < j < c.len() implies (#[trigger] c[i]).1 != (#[trigger] c[j]).1 by {
        assert(c[i].1.len() != c[j].1.len() || c[i].1[0] != c[j].1[0] || c[i].1[4] != c[j].1[4]
            || c[i].1[8] != c[j].1[8] || c[i].1[12] != c[j].1[12]);
    }
    assert forall|i: int, k: int| 0 <= i < c.len() && 0 <= k < c[i].4.len() implies declares(
        c[i].3,
        #[trigger] c[i].4[k],
    ) by {
        assert(c[i].3[0].0 == c[i].4[k]);
    }
}

} // verus!
