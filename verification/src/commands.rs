//! What the user-interface commands do with the database: settings and the
//! hotkey, conversations and messages, tasks, typing history, projects and
//! tagging, and the preparation and follow-up of AI requests.
use vstd::prelude::*;
use crate::db::{chat_context_stmts, fetch_failure, opt_string_view, reported, some_row_yields, some_rows_yield, Database};
use crate::insights::{pair_view, pairs_of};
use crate::records::{
    ActivitySummaryRow, ActivityTag, ChatMessageRow, Conversation, Event, Project, ProjectActivity,
    ProjectRule, ProjectSuggestion, ProjectSummary, Task, TextCount, UntaggedActivity,
    UntaggedSummaryRow,
};
use crate::text::{
    chars_eq, chars_of, decimal, owned, push_all, push_i64, push_str, string_of, text_eq,
    to_lowercase, unicode_lowercase,
};
use crate::sql::StatementView;
use crate::statements::{
    add_project_rule_stmt, app_suggestions_stmt, archive_task_stmt, assistant_reply_statement,
    clear_keystroke_tags_stmt, clear_window_tags_stmt, create_project_stmt, create_task_stmt,
    delete_conversation_stmt, delete_project_rule_stmt, delete_project_stmt, delete_task_stmt,
    get_all_project_summaries_today_stmt, get_all_rules_stmt, get_all_settings_stmt,
    get_chat_message_stmt, get_conversation_stmt, get_project_activities_stmt,
    get_project_rule_stmt, get_project_rules_stmt, get_project_stmt, get_recent_events_stmt,
    get_recent_keystrokes_stmt, get_setting_stmt, get_task_stmt, get_top_windows_today_stmt,
    get_untagged_activity_stmt, insert_chat_message_stmt, insert_event_stmt,
    list_conversations_stmt, list_projects_stmt, list_tasks_stmt, set_active_child_stmt,
    set_conversation_active_root_stmt, set_setting_stmt, slack_titles_stmt, task_check_stmt,
    task_uncheck_stmt, touch_conversation_stmt, untagged_by_app_stmt, untagged_count_stmt,
    update_conversation_title_stmt, update_project_stmt, user_message_statement,
    vscode_titles_stmt,
};
use crate::tools::ToolCallResult;

verus! {

/// `std::sync::Mutex`, held opaquely.
#[verifier::external_type_specification]
#[verifier::external_body]
#[verifier::reject_recursive_types(T)]
pub struct ExMutex<T: ?Sized>(std::sync::Mutex<T>);

/// The shared database.
pub struct DbState {
    pub db: std::sync::Mutex<Database>,
}

/// The title of the window that was in front when the overlay opened.
pub struct ForegroundTitleState {
    pub title: std::sync::Mutex<String>,
}

/// A conversation with all its messages.
#[derive(Debug)]
pub struct LoadConversationResponse {
    pub conversation: Conversation,
    pub messages: Vec<ChatMessageRow>,
}

/// Sent when an assistant reply has been stored.
#[derive(Debug, Clone)]
pub struct ChatDonePayload {
    pub id: i64,
    pub content: String,
    pub model: String,
}

/// Sent when tools were used while answering.
#[derive(Debug, Clone)]
pub struct ToolUsedPayload {
    pub tools: Vec<ToolCallResult>,
}

/// Consecutive typing in one app.
#[derive(Debug)]
pub struct InputGroup {
    pub app_name: String,
    pub text: String,
}

/// Time spent in one app today.
#[derive(Debug)]
pub struct WindowStat {
    pub title: String,
    pub duration_secs: i64,
}

/// Untagged totals and the per-app breakdown.
#[derive(Debug)]
pub struct UntaggedSummaryResponse {
    pub total: i64,
    pub by_app: Vec<UntaggedSummaryRow>,
}

// ---------------------------------------------------------------------------
// Settings and hotkey
// ---------------------------------------------------------------------------

/// The hotkey used when none is configured.
pub open spec fn default_hotkey() -> Seq<char> {
    "Ctrl+Shift+Space"@
}

/// All settings of the `default` component as (key, value) pairs.
pub fn get_settings(db: &mut Database) -> (r: Result<Vec<(String, String)>, String>)
    ensures
        r matches Err(e) ==> fetch_failure(
            e@,
            "Failed to prepare get_all_settings"@,
            "Failed to query settings"@,
            "Failed to read setting row"@,
        ),
        r is Ok ==> final(db).ran() == old(db).ran().push(get_all_settings_stmt("default"@)),
{
    db.get_all_settings("default")
}

/// One setting of the `default` component.
pub fn get_setting(db: &mut Database, key: String) -> (r: Result<Option<String>, String>)
    ensures
        r matches Err(e) ==> reported(e@, "Failed to get setting"@),
        r is Ok ==> final(db).ran() == old(db).ran().push(get_setting_stmt(key@, "default"@)),
        r matches Ok(v) ==> final(db).setting_reads() == old(db).setting_reads().push(
            (key@, "default"@, opt_string_view(v)),
        ),
{
    db.get_setting(key.as_str(), "default")
}

pub open spec fn hotkey_refusal() -> Seq<char> {
    "Use update_hotkey command to change the hotkey"@
}

/// Stores a setting of the `default` component; the hotkey is refused here,
/// as changing it must also re-register the shortcut.
pub fn update_setting(db: &mut Database, key: String, value: String) -> (r: Result<(), String>)
    ensures
        key@ == "hotkey"@ ==> (r matches Err(e) && e@ == hotkey_refusal()),
        key@ != "hotkey"@ ==> (r matches Err(e) ==> reported(e@, "Failed to set setting"@)),
        key@ != "hotkey"@ ==> (r is Ok ==> final(db).ran() == old(db).ran().push(set_setting_stmt(key@, value@, "default"@))),
        key@ == "hotkey"@ ==> final(db).ran() == old(db).ran(),
{
    if text_eq(key.as_str(), "hotkey") {
        return Err("Use update_hotkey command to change the hotkey".to_string());
    }
    db.set_setting(key.as_str(), value.as_str(), "default")
}

/// A stored text value, or `default` when none is stored.
pub open spec fn stored_or(stored: Option<String>, default: Seq<char>) -> Seq<char> {
    match stored {
        Some(v) => v@,
        None => default,
    }
}

/// The hotkey in effect: the stored one, else "Ctrl+Shift+Space".
pub fn hotkey_or_default(stored: Option<String>) -> (r: String)
    ensures
        r@ == stored_or(stored, default_hotkey()),
{
    match stored {
        Some(h) => h,
        None => owned("Ctrl+Shift+Space"),
    }
}

/// The configured hotkey, or "Ctrl+Shift+Space" when none is stored.
pub fn current_hotkey(db: &mut Database) -> (r: Result<String, String>)
    ensures
        r matches Err(e) ==> reported(e@, "Failed to get setting"@),
        r matches Ok(h) ==> exists|v: Option<String>|
            final(db).setting_reads() == old(db).setting_reads().push(
                ("hotkey"@, "default"@, opt_string_view(v)),
            ) && h@ == stored_or(v, default_hotkey()),
{
    let stored = db.get_setting("hotkey", "default")?;
    Ok(hotkey_or_default(stored))
}

/// "Invalid hotkey 'NEW': DETAIL".
pub open spec fn invalid_hotkey_message(new_hotkey: Seq<char>, detail: Seq<char>) -> Seq<char> {
    "Invalid hotkey '"@ + new_hotkey + "': "@ + detail
}

/// Finishes a hotkey change once the shortcut registration of `new_hotkey`
/// has been tried: a successful registration is saved as the `hotkey`
/// setting; a failed one (after which the old shortcut is registered again)
/// is reported as an invalid hotkey and nothing is stored.
pub fn update_hotkey(db: &mut Database, new_hotkey: String, registration: Result<(), String>) -> (r:
    Result<(), String>)
    ensures
        registration matches Err(d) ==> (r matches Err(e) && e@ == invalid_hotkey_message(
            new_hotkey@,
            d@,
        )),
        registration is Ok ==> (r matches Err(e) ==> reported(e@, "Failed to set setting"@)),
        registration is Ok ==> (r is Ok ==> final(db).ran() == old(db).ran().push(
            set_setting_stmt("hotkey"@, new_hotkey@, "default"@),
        )),
        registration is Err ==> final(db).ran() == old(db).ran(),
{
    match registration {
        Ok(()) => db.set_setting("hotkey", new_hotkey.as_str(), "default"),
        Err(d) => {
            let mut v = chars_of("Invalid hotkey '");
            push_str(&mut v, new_hotkey.as_str());
            push_str(&mut v, "': ");
            push_str(&mut v, d.as_str());
            assert(v@ =~= invalid_hotkey_message(new_hotkey@, d@));
            Err(string_of(v.as_slice()))
        },
    }
}

// ---------------------------------------------------------------------------
// Events and conversations
// ---------------------------------------------------------------------------

/// Logs an event.
pub fn insert_event(db: &mut Database, event_type: String, payload: String) -> (r: Result<i64, String>)
    ensures
        r matches Err(e) ==> reported(e@, "Failed to insert event"@),
        r is Ok ==> final(db).ran() == old(db).ran().push(insert_event_stmt(event_type@, payload@)),
{
    db.insert_event(event_type.as_str(), payload.as_str())
}

/// The latest events.
pub fn get_recent_events(db: &mut Database, limit: i64) -> (r: Result<Vec<Event>, String>)
    ensures
        r matches Ok(v) ==> some_rows_yield(v@),
        r matches Err(e) ==> fetch_failure(
            e@,
            "Failed to prepare query"@,
            "Failed to query events"@,
            "Failed to read event row"@,
        ),
        r is Ok ==> final(db).ran() == old(db).ran().push(get_recent_events_stmt(limit)),
{
    db.get_recent_events(limit)
}

fn opt_as_str(o: &Option<String>) -> (r: Option<&str>)
    ensures
        r matches Some(s) ==> o matches Some(t) && s@ == t@,
        r is None <==> o is None,
{
    match o {
        Some(s) => Some(s.as_str()),
        None => None,
    }
}

/// Creates a conversation ("New conversation" when untitled).
pub fn create_conversation(db: &mut Database, title: Option<String>) -> (r: Result<Conversation, String>)
    ensures
        r matches Ok(c) ==> some_row_yields(c),
        r matches Err(e) ==> reported(e@, "Failed to create conversation"@) || reported(e@, "Conversation not found"@),
{
    db.create_conversation(opt_as_str(&title))
}

/// All conversations, most recently updated first.
pub fn list_conversations(db: &mut Database) -> (r: Result<Vec<Conversation>, String>)
    ensures
        r matches Ok(v) ==> some_rows_yield(v@),
        r matches Err(e) ==> fetch_failure(
            e@,
            "Failed to prepare list_conversations"@,
            "Failed to query conversations"@,
            "Failed to read conversation row"@,
        ),
        r is Ok ==> final(db).ran() == old(db).ran().push(list_conversations_stmt()),
{
    db.list_conversations()
}

/// Deletes a conversation.
pub fn delete_conversation(db: &mut Database, conversation_id: i64) -> (r: Result<(), String>)
    ensures
        r matches Err(e) ==> reported(e@, "Failed to delete conversation"@),
        r is Ok ==> final(db).ran()
            == old(db).ran()
                .push(delete_conversation_stmt(conversation_id)),
{
    db.delete_conversation(conversation_id)
}

/// A conversation and all its messages, oldest first.
pub fn load_conversation(db: &mut Database, conversation_id: i64) -> (r: Result<
    LoadConversationResponse,
    String,
>)
    ensures
        r matches Ok(x) ==> some_row_yields(x.conversation) && some_rows_yield(x.messages@),
        r matches Err(e) ==> reported(e@, "Conversation not found"@) || fetch_failure(
            e@,
            "Failed to prepare get_conversation_messages"@,
            "Failed to query messages"@,
            "Failed to read message row"@,
        ),
{
    let conversation = db.get_conversation(conversation_id)?;
    let messages = db.get_conversation_messages(conversation_id)?;
    Ok(LoadConversationResponse { conversation, messages })
}

/// The title a fresh conversation gets from its first message: the first 50 characters.
pub open spec fn auto_title_spec(content: Seq<char>) -> Seq<char> {
    if content.len() <= 50 {
        content
    } else {
        content.take(50)
    }
}

/// The first 50 characters of `content`.
pub fn auto_title(content: &str) -> (r: String)
    ensures
        r@ == auto_title_spec(content@),
{
    let cs = chars_of(content);
    let n: usize = if cs.len() <= 50 {
        cs.len()
    } else {
        50
    };
    let t = crate::text::slice_chars(&cs, 0, n);
    assert(cs@.len() <= 50 ==> t@ =~= cs@);
    string_of(t.as_slice())
}

/// The new title of a conversation after a user message: the message's
/// first 50 characters while the conversation is still titled "New
/// conversation", and no change otherwise.
pub fn title_after_message(current_title: &str, content: &str) -> (r: Option<String>)
    ensures
        current_title@ == "New conversation"@ ==> (r matches Some(t) && t@ == auto_title_spec(
            content@,
        )),
        current_title@ != "New conversation"@ ==> r is None,
{
    if text_eq(current_title, "New conversation") {
        Some(auto_title(content))
    } else {
        None
    }
}

/// What storing a user message runs: the insert (as a reply to `parent_id`,
/// or as a new root), the read of the inserted row (`rowid`), the link that
/// makes the stored message (`message_id`) its parent's shown reply or the
/// conversation's shown root, the read of the conversation, the retitling
/// while its title (`title`) is still "New conversation", the touch, and
/// the read of the stored message.
pub open spec fn saved_message_stmts(
    conversation_id: i64,
    parent_id: Option<i64>,
    content: Seq<char>,
    rowid: i64,
    message_id: i64,
    title: Seq<char>,
) -> Seq<StatementView> {
    seq![
        insert_chat_message_stmt(conversation_id, parent_id, "user"@, content, None),
        get_chat_message_stmt(rowid),
        match parent_id {
            Some(pid) => set_active_child_stmt(message_id, pid),
            None => set_conversation_active_root_stmt(message_id, conversation_id),
        },
        get_conversation_stmt(conversation_id),
    ] + (if title == "New conversation"@ {
        seq![update_conversation_title_stmt(auto_title_spec(content), conversation_id)]
    } else {
        seq![]
    }) + seq![touch_conversation_stmt(conversation_id), get_chat_message_stmt(message_id)]
}

/// The failures `save_user_message` can report.
pub open spec fn save_message_failure(e: Seq<char>) -> bool {
    ||| reported(e, "Failed to insert chat message"@)
    ||| reported(e, "Chat message not found"@)
    ||| reported(e, "Failed to set active child"@)
    ||| reported(e, "Failed to set active root"@)
    ||| reported(e, "Conversation not found"@)
    ||| reported(e, "Failed to update conversation title"@)
    ||| reported(e, "Failed to touch conversation"@)
}

/// Stores a user message under `parent_id` (or as a new root), makes it the
/// shown reply of its parent (or the conversation's shown root), titles a
/// still-untitled conversation after the message's first 50 characters,
/// marks the conversation updated, and returns the message as stored.
pub fn save_user_message(db: &mut Database, conversation_id: i64, parent_id: Option<i64>, content: String) -> (r:
    Result<ChatMessageRow, String>)
    ensures
        r matches Ok(m) ==> some_row_yields(m),
        r matches Err(e) ==> save_message_failure(e@),
        r is Ok ==> exists|rowid: i64, message_id: i64, title: Seq<char>|
            #![trigger saved_message_stmts(conversation_id, parent_id, content@, rowid, message_id, title)]
            final(db).ran() == old(db).ran() + saved_message_stmts(conversation_id, parent_id, content@, rowid, message_id, title),
{
    let ghost start = db.ran();
    let ghost ins = insert_chat_message_stmt(conversation_id, parent_id, "user"@, content@, None);
    let msg = db.insert_message(&user_message_statement(conversation_id, parent_id, content.as_str()))?;
    let ghost rowid = choose|id: i64| db.ran() == start.push(ins).push(get_chat_message_stmt(id));
    match parent_id {
        Some(pid) => db.set_active_child(pid, msg.id)?,
        None => db.set_conversation_active_root(conversation_id, msg.id)?,
    }
    let conv = db.get_conversation(conversation_id)?;
    let ghost mid = db.ran();
    if let Some(title) = title_after_message(conv.title.as_str(), content.as_str()) {
        db.update_conversation_title(conversation_id, title.as_str())?;
    }
    assert(db.ran() == mid + (if conv.title@ == "New conversation"@ {
        seq![update_conversation_title_stmt(auto_title_spec(content@), conversation_id)]
    } else {
        seq![]
    }));
    db.touch_conversation(conversation_id)?;
    let r = db.get_chat_message(msg.id);
    assert(r is Ok ==> db.ran() =~= start + saved_message_stmts(
        conversation_id,
        parent_id,
        content@,
        rowid,
        msg.id,
        conv.title@,
    ));
    r
}

/// Marks `child_id` as the reply shown under `message_id`.
pub fn set_active_child(db: &mut Database, message_id: i64, child_id: i64) -> (r: Result<(), String>)
    ensures
        r matches Err(e) ==> reported(e@, "Failed to set active child"@),
        r is Ok ==> final(db).ran()
            == old(db).ran()
                .push(set_active_child_stmt(child_id, message_id)),
{
    db.set_active_child(message_id, child_id)
}

/// Marks `message_id` as the conversation's shown root.
pub fn set_conversation_active_root(db: &mut Database, conversation_id: i64, message_id: i64) -> (r:
    Result<(), String>)
    ensures
        r matches Err(e) ==> reported(e@, "Failed to set active root"@),
        r is Ok ==> final(db).ran()
            == old(db).ran()
                .push(set_conversation_active_root_stmt(message_id, conversation_id)),
{
    db.set_conversation_active_root(conversation_id, message_id)
}

// ---------------------------------------------------------------------------
// AI requests
// ---------------------------------------------------------------------------

/// The AI endpoint settings.
pub struct AiSettings {
    pub api_key: String,
    pub base_url: String,
    pub model: String,
}

pub open spec fn missing_api_key() -> Seq<char> {
    "No API key configured. Set it in Settings."@
}

pub open spec fn default_base_url() -> Seq<char> {
    "https://openrouter.ai/api/v1"@
}

pub open spec fn default_model() -> Seq<char> {
    "openai/gpt-4o-mini"@
}

pub open spec fn default_system_prompt() -> Seq<char> {
    "You are a helpful assistant."@
}

/// A stored API key that can be used: present and non-empty.
pub open spec fn usable_key(api_key: Option<String>) -> bool {
    api_key matches Some(k) && k@.len() > 0
}

/// The AI endpoint settings from the stored values: the API key must be
/// present and non-empty; the base URL and the model fall back to
/// "https://openrouter.ai/api/v1" and "openai/gpt-4o-mini".
pub fn ai_settings_from(api_key: Option<String>, base_url: Option<String>, model: Option<String>) -> (r:
    Result<AiSettings, String>)
    ensures
        usable_key(api_key) ==> (r matches Ok(s) && s.api_key@ == api_key->0@ && s.base_url@ == stored_or(
            base_url,
            default_base_url(),
        ) && s.model@ == stored_or(model, default_model())),
        !usable_key(api_key) ==> (r matches Err(e) && e@ == missing_api_key()),
{
    let api_key = match api_key {
        Some(k) => {
            if k.as_str().unicode_len() == 0 {
                return Err("No API key configured. Set it in Settings.".to_string());
            }
            k
        },
        None => {
            return Err("No API key configured. Set it in Settings.".to_string());
        },
    };
    let base_url = match base_url {
        Some(u) => u,
        None => owned("https://openrouter.ai/api/v1"),
    };
    let model = match model {
        Some(m) => m,
        None => owned("openai/gpt-4o-mini"),
    };
    Ok(AiSettings { api_key, base_url, model })
}

/// The reads of the AI endpoint settings: the key, the base URL, the model.
pub open spec fn ai_settings_stmts() -> Seq<StatementView> {
    seq![
        get_setting_stmt("ai_api_key"@, "default"@),
        get_setting_stmt("ai_base_url"@, "default"@),
        get_setting_stmt("ai_default_model"@, "default"@),
    ]
}

/// The AI endpoint settings of the `default` component (see
/// `ai_settings_from`). The base URL and the model are only read once a
/// usable key was found.
pub fn ai_settings(db: &mut Database) -> (r: Result<AiSettings, String>)
    ensures
        r matches Ok(s) ==> s.api_key@.len() > 0,
        r matches Ok(s) ==> exists|k: Option<String>, b: Option<String>, m: Option<String>|
            final(db).setting_reads() == old(db).setting_reads() + seq![
                ("ai_api_key"@, "default"@, opt_string_view(k)),
                ("ai_base_url"@, "default"@, opt_string_view(b)),
                ("ai_default_model"@, "default"@, opt_string_view(m)),
            ] && usable_key(k) && s.api_key@ == k->0@ && s.base_url@ == stored_or(b, default_base_url())
                && s.model@ == stored_or(m, default_model()),
        r matches Err(e) ==> reported(e@, "Failed to get setting"@) || (e@ == missing_api_key()
            && exists|k: Option<String>|
            final(db).setting_reads() == old(db).setting_reads().push(
                ("ai_api_key"@, "default"@, opt_string_view(k)),
            ) && !usable_key(k)),
        r is Ok ==> final(db).ran() == old(db).ran() + ai_settings_stmts(),
{
    let api_key = db.get_setting("ai_api_key", "default")?;
    if !key_usable(&api_key) {
        return ai_settings_from(api_key, None, None);
    }
    let base_url = db.get_setting("ai_base_url", "default")?;
    let model = db.get_setting("ai_default_model", "default")?;
    let ghost (k, b, m) = (api_key, base_url, model);
    assert(db.ran() =~= old(db).ran() + ai_settings_stmts());
    let r = ai_settings_from(api_key, base_url, model);
    assert(db.setting_reads() =~= old(db).setting_reads() + seq![
        ("ai_api_key"@, "default"@, opt_string_view(k)),
        ("ai_base_url"@, "default"@, opt_string_view(b)),
        ("ai_default_model"@, "default"@, opt_string_view(m)),
    ]);
    r
}

fn key_usable(api_key: &Option<String>) -> (r: bool)
    ensures
        r == usable_key(*api_key),
{
    match api_key {
        Some(k) => k.as_str().unicode_len() > 0,
        None => false,
    }
}

/// The chat system prompt: the configured prompt (else "You are a helpful
/// assistant.") followed by the activity digest when there is one.
pub fn chat_prompt_from(configured: Option<String>, digest: Option<String>) -> (r: String)
    ensures
        r@ == stored_or(configured, default_system_prompt()) + stored_or(digest, seq![]),
{
    let base = match configured {
        Some(p) => p,
        None => owned("You are a helpful assistant."),
    };
    let mut v = chars_of(base.as_str());
    if let Some(d) = digest {
        push_str(&mut v, d.as_str());
    }
    string_of(v.as_slice())
}

/// The chat system prompt of the `default` settings (see
/// `chat_prompt_from`); the digest is left out when it cannot be built.
pub fn chat_system_prompt(db: &mut Database) -> (r: Result<String, String>)
    ensures
        r matches Err(e) ==> reported(e@, "Failed to get setting"@),
        r matches Ok(p) ==> exists|c: Option<String>, d: Option<String>|
            final(db).setting_reads() == old(db).setting_reads().push(
                ("ai_system_prompt"@, "default"@, opt_string_view(c)),
            ) && p@ == stored_or(c, default_system_prompt()) + stored_or(d, seq![]) && (d matches Some(
                t,
            ) ==> exists|
                summaries: Seq<ProjectSummary>,
                projects: Seq<Project>,
                rules: Seq<ProjectRule>,
                untagged_total: i64,
                untagged_apps: Seq<UntaggedSummaryRow>,
                top_windows: Seq<TextCount>,
            |
                t@ == crate::context::chat_context_spec(
                    summaries,
                    projects,
                    rules,
                    untagged_total,
                    untagged_apps,
                    top_windows,
                )),
{
    let configured = db.get_setting("ai_system_prompt", "default")?;
    let digest = match db.build_chat_context() {
        Ok(c) => Some(c),
        Err(_) => None,
    };
    Ok(chat_prompt_from(configured, digest))
}

/// The model of a request: the one asked for, else the default.
pub fn chosen_model(requested: Option<String>, default_model: String) -> (r: String)
    ensures
        r@ == match requested {
            Some(m) => m@,
            None => default_model@,
        },
{
    match requested {
        Some(m) => m,
        None => default_model,
    }
}

/// Whether another round of tool calls is made: only while fewer than
/// `MAX_TOOL_ITERATIONS` rounds have run, the completion succeeded, and the
/// model asked for at least one tool.
pub fn continue_tool_loop(rounds_done: usize, completion_ok: bool, tool_calls: usize) -> (r: bool)
    ensures
        r == (rounds_done < crate::tools::MAX_TOOL_ITERATIONS && completion_ok && tool_calls > 0),
{
    rounds_done < crate::tools::MAX_TOOL_ITERATIONS && completion_ok && tool_calls > 0
}

/// The summary shown for a tool that failed: "error: DETAIL".
pub fn tool_error_summary(detail: &str) -> (r: String)
    ensures
        r@ == "error: "@ + detail@,
{
    let mut v = chars_of("error: ");
    push_str(&mut v, detail);
    string_of(v.as_slice())
}

/// Stores the streamed assistant reply under `parent_message_id`, makes it
/// the parent's shown reply, marks the conversation updated, and returns
/// what is sent to the interface.
pub fn record_assistant_reply(
    db: &mut Database,
    conversation_id: i64,
    parent_message_id: i64,
    content: String,
    model: String,
) -> (r: Result<ChatDonePayload, String>)
    ensures
        r matches Ok(p) ==> p.content@ == content@ && p.model@ == model@,
        r matches Err(e) ==> reported(e@, "Failed to insert chat message"@) || reported(
            e@,
            "Chat message not found"@,
        ) || reported(e@, "Failed to set active child"@) || reported(
            e@,
            "Failed to touch conversation"@,
        ),
        r matches Ok(p) ==> exists|rowid: i64|
            final(db).ran() == old(db).ran() + seq![
                insert_chat_message_stmt(
                    conversation_id,
                    Some(parent_message_id),
                    "assistant"@,
                    content@,
                    Some(model@),
                ),
                get_chat_message_stmt(rowid),
                set_active_child_stmt(p.id, parent_message_id),
                touch_conversation_stmt(conversation_id),
            ],
{
    let msg = db.insert_message(
        &assistant_reply_statement(conversation_id, parent_message_id, content.as_str(), model.as_str()),
    )?;
    db.set_active_child(parent_message_id, msg.id)?;
    db.touch_conversation(conversation_id)?;
    Ok(ChatDonePayload { id: msg.id, content, model })
}

// ---------------------------------------------------------------------------
// Tasks
// ---------------------------------------------------------------------------

/// Creates a task, noting the window that was in front.
pub fn create_task(db: &mut Database, window_title: String, content: String) -> (r: Result<Task, String>)
    ensures
        r matches Ok(t) ==> some_row_yields(t),
        r matches Err(e) ==> reported(e@, "Failed to create task"@) || reported(e@, "Task not found"@),
        r is Ok ==> exists|id: i64| final(db).ran()
            == old(db).ran()
                .push(create_task_stmt(content@, window_title@))
                .push(get_task_stmt(id)),
{
    db.create_task(content.as_str(), window_title.as_str())
}

/// The archived or the active tasks.
pub fn list_tasks(db: &mut Database, archived: bool) -> (r: Result<Vec<Task>, String>)
    ensures
        r matches Ok(v) ==> some_rows_yield(v@),
        r matches Err(e) ==> fetch_failure(
            e@,
            "Failed to prepare list_tasks"@,
            "Failed to query tasks"@,
            "Failed to read task row"@,
        ),
        r is Ok ==> final(db).ran()
            == old(db).ran()
                .push(list_tasks_stmt(if archived { 1i64 } else { 0i64 })),
{
    db.list_tasks(archived)
}

/// Checks or unchecks a task.
pub fn update_task_completed(db: &mut Database, task_id: i64, completed: bool) -> (r: Result<Task, String>)
    ensures
        r matches Ok(t) ==> some_row_yields(t),
        r matches Err(e) ==> reported(e@, "Failed to update task"@) || reported(e@, "Task not found"@),
        r is Ok ==> final(db).ran()
            == old(db).ran()
                .push(if completed { task_check_stmt(task_id) } else { task_uncheck_stmt(task_id) })
                .push(get_task_stmt(task_id)),
{
    db.update_task_completed(task_id, completed)
}

/// Archives a task.
pub fn archive_task(db: &mut Database, task_id: i64) -> (r: Result<(), String>)
    ensures
        r matches Err(e) ==> reported(e@, "Failed to archive task"@),
        r is Ok ==> final(db).ran() == old(db).ran().push(archive_task_stmt(task_id)),
{
    db.archive_task(task_id)
}

/// Deletes a task.
pub fn delete_task(db: &mut Database, task_id: i64) -> (r: Result<(), String>)
    ensures
        r matches Err(e) ==> reported(e@, "Failed to delete task"@),
        r is Ok ==> final(db).ran() == old(db).ran().push(delete_task_stmt(task_id)),
{
    db.delete_task(task_id)
}

// ---------------------------------------------------------------------------
// Typing history and window time
// ---------------------------------------------------------------------------

/// Consecutive rows of the same app merged into one group (app, text).
pub open spec fn group_runs(rows: Seq<(Seq<char>, Seq<char>)>) -> Seq<(Seq<char>, Seq<char>)>
    decreases rows.len(),
{
    if rows.len() == 0 {
        seq![]
    } else {
        let g = group_runs(rows.drop_last());
        let (app, chars) = rows.last();
        if g.len() > 0 && g.last().0 == app {
            g.update(g.len() - 1, (app, g.last().1 + chars))
        } else {
            g.push((app, chars))
        }
    }
}

pub open spec fn groups_view(v: Seq<InputGroup>) -> Seq<(Seq<char>, Seq<char>)> {
    v.map_values(|g: InputGroup| (g.app_name@, g.text@))
}

/// Merges consecutive rows of the same app (see `group_runs`).
pub fn group_input(rows: Vec<(String, String)>) -> (r: Vec<InputGroup>)
    ensures
        groups_view(r@) == group_runs(pairs_of(rows@)),
{
    let ghost pv = pairs_of(rows@);
    let mut groups: Vec<InputGroup> = Vec::new();
    let mut i: usize = 0;
    assert(pv.take(0) =~= seq![]);
    while i < rows.len()
        invariant
            pv == pairs_of(rows@),
            i <= rows@.len(),
            groups_view(groups@) == group_runs(pv.take(i as int)),
        decreases rows@.len() - i,
    {
        let app = &rows[i].0;
        let chars = &rows[i].1;
        assert(pv[i as int] == pair_view(rows@[i as int]));
        let ghost before = groups_view(groups@);
        let n = groups.len();
        let merge = n > 0 && text_eq(groups[n - 1].app_name.as_str(), app.as_str());
        if merge {
            let mut text = chars_of(groups[n - 1].text.as_str());
            push_str(&mut text, chars.as_str());
            let g = InputGroup { app_name: groups[n - 1].app_name.clone(), text: string_of(text.as_slice()) };
            groups.set(n - 1, g);
            assert(groups_view(groups@) =~= before.update(
                before.len() - 1,
                (app@, before.last().1 + chars@),
            ));
        } else {
            groups.push(InputGroup { app_name: app.clone(), text: chars.clone() });
            assert(groups_view(groups@) =~= before.push((app@, chars@)));
        }
        let ghost t = pv.take(i + 1);
        assert(t.drop_last() =~= pv.take(i as int));
        assert(t.last() == pv[i as int]);
        i = i + 1;
    }
    assert(pv.take(i as int) =~= pv);
    groups
}

/// The text of all groups (or rows), concatenated.
pub open spec fn all_text(rows: Seq<(Seq<char>, Seq<char>)>) -> Seq<char>
    decreases rows.len(),
{
    if rows.len() == 0 {
        seq![]
    } else {
        all_text(rows.drop_last()) + rows.last().1
    }
}

/// Grouping keeps all typed text in order, and no two neighbouring groups
/// share an app.
pub proof fn lemma_group_runs(rows: Seq<(Seq<char>, Seq<char>)>)
    ensures
        all_text(group_runs(rows)) == all_text(rows),
        forall|i: int| 0 <= i < group_runs(rows).len() - 1 ==> #[trigger] group_runs(rows)[i].0 != group_runs(rows)[i + 1].0,
        group_runs(rows).len() <= rows.len(),
        (group_runs(rows).len() == 0) == (rows.len() == 0),
    decreases rows.len(),
{
    if rows.len() > 0 {
        let prev = rows.drop_last();
        lemma_group_runs(prev);
        let g = group_runs(prev);
        let (app, chars) = rows.last();
        if g.len() > 0 && g.last().0 == app {
            let g2 = g.update(g.len() - 1, (app, g.last().1 + chars));
            assert(g2.drop_last() =~= g.drop_last());
            assert(all_text(g) == all_text(g.drop_last()) + g.last().1);
            assert(all_text(g2) == all_text(g2.drop_last()) + g2.last().1);
            assert(all_text(g2) =~= all_text(g) + chars);
            assert forall|i: int| 0 <= i < g2.len() - 1 implies #[trigger] g2[i].0 != g2[i + 1].0 by {
                assert(g2[i] == g[i]);
                assert(g2[i + 1].0 == g[i + 1].0);
            }
        } else {
            let g2 = g.push((app, chars));
            assert(g2.drop_last() =~= g);
            assert forall|i: int| 0 <= i < g2.len() - 1 implies #[trigger] g2[i].0 != g2[i + 1].0 by {
                assert(g2[i] == g[i]);
                if i + 1 < g.len() {
                    assert(g2[i + 1] == g[i + 1]);
                }
            }
        }
    }
}

/// Recent typing grouped by app, within `limit_bytes` (see
/// `Database::get_recent_keystrokes`).
pub fn get_recent_input(db: &mut Database, limit_bytes: i64) -> (r: Result<Vec<InputGroup>, String>)
    ensures
        r matches Ok(v) ==> exists|rows: Seq<(String, String)>|
            groups_view(v@) == group_runs(
                crate::insights::recent_window_spec(pairs_of(rows), limit_bytes as int),
            ),
        r matches Err(e) ==> fetch_failure(
            e@,
            "Failed to prepare recent keystrokes"@,
            "Failed to query keystrokes"@,
            "Failed to read keystroke row"@,
        ),
        r is Ok ==> final(db).ran() == old(db).ran().push(get_recent_keystrokes_stmt()),
{
    let rows = db.get_recent_keystrokes(limit_bytes)?;
    Ok(group_input(rows))
}

/// Today's time per app as window stats.
pub fn get_top_windows(db: &mut Database) -> (r: Result<Vec<WindowStat>, String>)
    ensures
        r matches Ok(v) ==> exists|rows: Seq<TextCount>|
            some_rows_yield(rows) && v@.len() == rows.len() && forall|i: int|
                0 <= i < rows.len() ==> (#[trigger] v@[i]).title@ == rows[i].0@ && v@[i].duration_secs
                    == rows[i].1,
        r matches Err(e) ==> fetch_failure(
            e@,
            "Failed to prepare top windows"@,
            "Failed to query top windows"@,
            "Failed to read window row"@,
        ),
        r is Ok ==> final(db).ran() == old(db).ran().push(get_top_windows_today_stmt()),
{
    let rows = db.get_top_windows_today()?;
    let mut out: Vec<WindowStat> = Vec::new();
    let mut i: usize = 0;
    while i < rows.len()
        invariant
            i <= rows@.len(),
            out@.len() == i,
            forall|j: int|
                0 <= j < i ==> (#[trigger] out@[j]).title@ == rows@[j].0@ && out@[j].duration_secs
                    == rows@[j].1,
        decreases rows@.len() - i,
    {
        out.push(WindowStat { title: rows[i].0.clone(), duration_secs: rows[i].1 });
        i = i + 1;
    }
    Ok(out)
}

// ---------------------------------------------------------------------------
// Projects and tagging
// ---------------------------------------------------------------------------

/// Creates a project.
pub fn create_project(db: &mut Database, name: String, description: String, color: String) -> (r: Result<
    Project,
    String,
>)
    ensures
        r matches Ok(p) ==> some_row_yields(p),
        r matches Err(e) ==> reported(e@, "Failed to create project"@) || reported(e@, "Project not found"@),
        r is Ok ==> exists|id: i64| final(db).ran()
            == old(db).ran()
                .push(create_project_stmt(name@, description@, color@))
                .push(get_project_stmt(id)),
{
    db.create_project(name.as_str(), description.as_str(), color.as_str())
}

/// Changes a project.
pub fn update_project(db: &mut Database, id: i64, name: String, description: String, color: String) -> (r:
    Result<(), String>)
    ensures
        r matches Err(e) ==> reported(e@, "Failed to update project"@),
        r is Ok ==> final(db).ran()
            == old(db).ran()
                .push(update_project_stmt(name@, description@, color@, id)),
{
    db.update_project(id, name.as_str(), description.as_str(), color.as_str())
}

/// Untags and deletes a project.
pub fn delete_project(db: &mut Database, id: i64) -> (r: Result<(), String>)
    ensures
        r matches Err(e) ==> reported(e@, "Failed to clear keystroke tags"@) || reported(
            e@,
            "Failed to clear window activity tags"@,
        ) || reported(e@, "Failed to delete project"@),
        r is Ok ==> final(db).ran()
            == old(db).ran()
                .push(clear_keystroke_tags_stmt(id))
                .push(clear_window_tags_stmt(id))
                .push(delete_project_stmt(id)),
{
    db.delete_project(id)
}

/// All projects by name.
pub fn list_projects(db: &mut Database) -> (r: Result<Vec<Project>, String>)
    ensures
        r matches Ok(v) ==> some_rows_yield(v@),
        r matches Err(e) ==> fetch_failure(
            e@,
            "Failed to prepare list_projects"@,
            "Failed to query projects"@,
            "Failed to read project row"@,
        ),
        r is Ok ==> final(db).ran() == old(db).ran().push(list_projects_stmt()),
{
    db.list_projects()
}

/// Adds a rule to a project.
pub fn add_project_rule(db: &mut Database, project_id: i64, expression: String, priority: i32) -> (r:
    Result<ProjectRule, String>)
    ensures
        r matches Ok(x) ==> some_row_yields(x),
        r matches Err(e) ==> reported(e@, "Failed to add project rule"@) || reported(e@, "Project rule not found"@),
        r is Ok ==> exists|id: i64| final(db).ran()
            == old(db).ran()
                .push(add_project_rule_stmt(project_id, expression@, priority))
                .push(get_project_rule_stmt(id)),
{
    db.add_project_rule(project_id, expression.as_str(), priority)
}

/// Deletes a rule.
pub fn delete_project_rule(db: &mut Database, id: i64) -> (r: Result<(), String>)
    ensures
        r matches Err(e) ==> reported(e@, "Failed to delete project rule"@),
        r is Ok ==> final(db).ran() == old(db).ran().push(delete_project_rule_stmt(id)),
{
    db.delete_project_rule(id)
}

/// A project's rules.
pub fn get_project_rules(db: &mut Database, project_id: i64) -> (r: Result<Vec<ProjectRule>, String>)
    ensures
        r matches Ok(v) ==> some_rows_yield(v@),
        r matches Err(e) ==> fetch_failure(
            e@,
            "Failed to prepare get_project_rules"@,
            "Failed to query project rules"@,
            "Failed to read project rule row"@,
        ),
        r is Ok ==> final(db).ran() == old(db).ran().push(get_project_rules_stmt(project_id)),
{
    db.get_project_rules(project_id)
}

/// All rules.
pub fn get_all_rules(db: &mut Database) -> (r: Result<Vec<ProjectRule>, String>)
    ensures
        r matches Ok(v) ==> some_rows_yield(v@),
        r matches Err(e) ==> fetch_failure(
            e@,
            "Failed to prepare get_all_rules"@,
            "Failed to query all rules"@,
            "Failed to read rule row"@,
        ),
        r is Ok ==> final(db).ran() == old(db).ran().push(get_all_rules_stmt()),
{
    db.get_all_rules()
}

/// Untagged activity rows.
pub fn get_untagged_activity(db: &mut Database, limit: i64) -> (r: Result<Vec<UntaggedActivity>, String>)
    ensures
        r matches Ok(v) ==> some_rows_yield(v@),
        r matches Err(e) ==> fetch_failure(
            e@,
            "Failed to prepare get_untagged_activity"@,
            "Failed to query untagged activity"@,
            "Failed to read untagged row"@,
        ),
        r is Ok ==> final(db).ran() == old(db).ran().push(get_untagged_activity_stmt(limit)),
{
    db.get_untagged_activity(limit)
}

/// Tags activity rows with projects (see `Database::tag_activities`).
pub fn tag_activities(db: &mut Database, tags: Vec<ActivityTag>) -> (r: Result<(), String>)
    ensures
        r is Ok ==> forall|i: int| 0 <= i < tags@.len() ==> crate::db::known_table(#[trigger] tags@[i].table@),
        (exists|i: int| 0 <= i < tags@.len() && !crate::db::known_table(#[trigger] tags@[i].table@))
            ==> r is Err,
        r matches Err(e) ==> reported(e@, "Failed to begin transaction"@) || reported(e@, "Failed to tag activity"@) || reported(e@, "Failed to commit tags"@) || reported(e@, "Unknown table"@),
        forall|i: int|
            0 <= i < tags@.len() && crate::db::first_unknown(tags@, i) ==> (r matches Err(e) && (e@
                == "Unknown table: "@ + (#[trigger] tags@[i]).table@ || reported(
                e@,
                "Failed to begin transaction"@,
            ) || reported(e@, "Failed to tag activity"@))),
        r is Ok ==> final(db).ran() == old(db).ran() + crate::db::tag_stmts(tags@),
{
    db.tag_activities(tags.as_slice())
}

/// Untags all activity of a project.
pub fn clear_project_tags(db: &mut Database, project_id: i64) -> (r: Result<(), String>)
    ensures
        r matches Err(e) ==> reported(e@, "Failed to clear keystroke tags"@) || reported(
            e@,
            "Failed to clear window activity tags"@,
        ),
        r is Ok ==> final(db).ran()
            == old(db).ran()
                .push(clear_keystroke_tags_stmt(project_id))
                .push(clear_window_tags_stmt(project_id)),
{
    db.clear_project_tags(project_id)
}

/// Project suggestions from activity (see `Database::suggest_projects`).
pub fn suggest_projects(db: &mut Database) -> (r: Result<Vec<ProjectSuggestion>, String>)
    ensures
        r matches Ok(v) ==> exists|
            existing: Seq<Seq<char>>,
            titles: Seq<Seq<char>>,
            has_slack: bool,
            apps: Seq<Seq<char>>,
        | crate::suggest::suggestions_view(v@) == crate::suggest::suggestions_spec(existing, titles, has_slack, apps),
        r matches Err(e) ==> crate::db::suggestion_failure(e@),
        r is Ok ==> final(db).ran()
            == old(db).ran() + seq![list_projects_stmt(), vscode_titles_stmt(), slack_titles_stmt(), app_suggestions_stmt()],
{
    db.suggest_projects()
}

/// Today's stats per project.
pub fn get_all_project_summaries_today(db: &mut Database) -> (r: Result<Vec<ProjectSummary>, String>)
    ensures
        r matches Ok(v) ==> some_rows_yield(v@),
        r matches Err(e) ==> fetch_failure(
            e@,
            "Failed to prepare project summaries"@,
            "Failed to query project summaries"@,
            "Failed to read summary row"@,
        ),
        r is Ok ==> final(db).ran() == old(db).ran().push(get_all_project_summaries_today_stmt()),
{
    db.get_all_project_summaries_today()
}

/// Untagged totals and breakdown.
pub fn get_untagged_summary(db: &mut Database) -> (r: Result<UntaggedSummaryResponse, String>)
    ensures
        r matches Ok(x) ==> some_rows_yield(x.by_app@),
        r matches Err(e) ==> reported(e@, "Failed to count untagged"@) || fetch_failure(
            e@,
            "Failed to prepare untagged summary"@,
            "Failed to query untagged summary"@,
            "Failed to read untagged summary row"@,
        ),
        r is Ok ==> final(db).ran()
            == old(db).ran() + seq![untagged_count_stmt(), untagged_by_app_stmt()],
{
    let (total, by_app) = db.get_untagged_summary()?;
    Ok(UntaggedSummaryResponse { total, by_app })
}

/// A project's activity, 50 rows from the start unless told otherwise.
pub fn get_project_activities(db: &mut Database, project_id: i64, limit: Option<i64>, offset: Option<i64>) -> (r:
    Result<Vec<ProjectActivity>, String>)
    ensures
        r matches Ok(v) ==> some_rows_yield(v@),
        r matches Err(e) ==> fetch_failure(
            e@,
            "Failed to prepare project activities"@,
            "Failed to query project activities"@,
            "Failed to read project activity row"@,
        ),
        r is Ok ==> final(db).ran()
            == old(db).ran()
                .push(get_project_activities_stmt(project_id, limit.unwrap_or(50), offset.unwrap_or(0))),
{
    let l = match limit {
        Some(l) => l,
        None => 50,
    };
    let o = match offset {
        Some(o) => o,
        None => 0,
    };
    db.get_project_activities(project_id, l, o)
}


// ---------------------------------------------------------------------------
// AI project suggestions
// ---------------------------------------------------------------------------

/// What an AI project-suggestion request is built from.
pub struct SmartSuggestRequest {
    pub settings: AiSettings,
    pub days: i32,
    pub activity: Vec<ActivitySummaryRow>,
    /// Names of the existing projects, in lowercase.
    pub existing_names: Vec<String>,
}

pub open spec fn no_activity_message() -> Seq<char> {
    "No activity data found. Use your computer for a while first."@
}

/// The lowercase names of projects.
pub open spec fn lower_project_names(ps: Seq<Project>) -> Seq<Seq<char>> {
    ps.map_values(|p: Project| unicode_lowercase(p.name@))
}

/// The names of `projects`, in lowercase.
pub fn lowercase_names(projects: &Vec<Project>) -> (r: Vec<String>)
    ensures
        names_view(r@) == lower_project_names(projects@),
{
    let mut names: Vec<String> = Vec::new();
    let mut i: usize = 0;
    while i < projects.len()
        invariant
            i <= projects@.len(),
            names_view(names@) == lower_project_names(projects@).take(i as int),
        decreases projects@.len() - i,
    {
        let ghost before = names_view(names@);
        names.push(to_lowercase(projects[i].name.as_str()));
        assert(names_view(names@) =~= before.push(lower_project_names(projects@)[i as int]));
        assert(lower_project_names(projects@).take(i + 1) =~= lower_project_names(projects@).take(
            i as int,
        ).push(lower_project_names(projects@)[i as int]));
        i = i + 1;
    }
    assert(lower_project_names(projects@).take(i as int) =~= lower_project_names(projects@));
    names
}

/// The suggestion request from what was read: it fails with "No activity
/// data found. Use your computer for a while first." exactly when there is
/// no activity, and otherwise carries the settings, the days, the activity
/// and the existing names as given.
pub fn smart_suggest_request_from(
    settings: AiSettings,
    days: i32,
    activity: Vec<ActivitySummaryRow>,
    existing_names: Vec<String>,
) -> (r: Result<SmartSuggestRequest, String>)
    ensures
        activity@.len() == 0 ==> (r matches Err(e) && e@ == no_activity_message()),
        activity@.len() > 0 ==> (r matches Ok(q) && q.settings == settings && q.days == days
            && q.activity@ == activity@ && q.existing_names@ == existing_names@),
{
    if activity.len() == 0 {
        return Err("No activity data found. Use your computer for a while first.".to_string());
    }
    Ok(SmartSuggestRequest { settings, days, activity, existing_names })
}

/// Gathers what a suggestion request needs for the last `days` days
/// (default 7): the AI settings, the activity summary, and the existing
/// project names in lowercase; fails when there is no activity to show.
pub fn smart_suggest_request(db: &mut Database, days: Option<i32>) -> (r: Result<SmartSuggestRequest, String>)
    ensures
        r matches Ok(q) ==> {
            &&& q.activity@.len() > 0
            &&& q.days == days.unwrap_or(7)
            &&& q.settings.api_key@.len() > 0
            &&& some_rows_yield(q.activity@)
            &&& exists|ps: Seq<Project>|
                some_rows_yield(ps) && names_view(q.existing_names@) == lower_project_names(ps)
        },
        r matches Err(e) ==> {
            ||| e@ == missing_api_key()
            ||| e@ == no_activity_message()
            ||| reported(e@, "Failed to get setting"@)
            ||| fetch_failure(
                e@,
                "Failed to prepare activity summary query"@,
                "Failed to query activity summary"@,
                "Failed to read activity summary row"@,
            )
            ||| fetch_failure(
                e@,
                "Failed to prepare list_projects"@,
                "Failed to query projects"@,
                "Failed to read project row"@,
            )
        },
{
    let days: i32 = match days {
        Some(d) => d,
        None => 7,
    };
    let settings = ai_settings(db)?;
    let activity = db.get_activity_summary_for_ai(days)?;
    let projects = db.list_projects()?;
    let existing_names = lowercase_names(&projects);
    smart_suggest_request_from(settings, days, activity, existing_names)
}

/// One table row per activity entry: "APP | TITLE | SECS\n".
pub open spec fn activity_rows_text(rows: Seq<ActivitySummaryRow>) -> Seq<char>
    decreases rows.len(),
{
    if rows.len() == 0 {
        seq![]
    } else {
        activity_rows_text(rows.drop_last()) + rows.last().app_name@ + " | "@ + rows.last().window_title@
            + " | "@ + decimal(rows.last().total_duration_secs as int) + seq!['\n']
    }
}

pub open spec fn activity_table_spec(rows: Seq<ActivitySummaryRow>) -> Seq<char> {
    "app_name | window_title | duration_secs\n---|---|---\n"@ + activity_rows_text(rows)
}

/// The activity as a pipe-separated table with a header.
pub fn activity_table(rows: &Vec<ActivitySummaryRow>) -> (r: String)
    ensures
        r@ == activity_table_spec(rows@),
{
    let mut v = chars_of("app_name | window_title | duration_secs\n---|---|---\n");
    let ghost head = v@;
    let mut i: usize = 0;
    assert(rows@.take(0) =~= seq![]);
    while i < rows.len()
        invariant
            i <= rows@.len(),
            v@ == head + activity_rows_text(rows@.take(i as int)),
        decreases rows@.len() - i,
    {
        let row = &rows[i];
        push_str(&mut v, row.app_name.as_str());
        push_str(&mut v, " | ");
        push_str(&mut v, row.window_title.as_str());
        push_str(&mut v, " | ");
        push_i64(&mut v, row.total_duration_secs);
        v.push('\n');
        let ghost t = rows@.take(i + 1);
        assert(t.drop_last() =~= rows@.take(i as int));
        assert(t.last() == rows@[i as int]);
        assert(v@ =~= head + activity_rows_text(t));
        i = i + 1;
    }
    assert(rows@.take(i as int) =~= rows@);
    string_of(v.as_slice())
}

/// The text of the instructions for suggesting projects.
pub open spec fn smart_suggest_instructions() -> Seq<char> {
    r#"You analyze desktop activity data and suggest project groupings.

You will receive a table of window activity data with columns: app_name, window_title, duration_secs.

Your task is to identify cross-app projects. A project is a logical grouping of activities across multiple apps. For example, working on "aiHelper" might involve VS Code (editing code), Chrome (GitHub, docs), Terminal (cargo, git), and Slack (team channel).

Group cross-app activity by project when you see the same project/repo/topic name appearing across different apps.

Return a JSON array of project objects. Each object has:
- "name": string — short project name (e.g., "aiHelper", "Documentation", "Email")
- "rules": array of JSONata expression strings that match against {app_name, window_title} objects

JSONata syntax reference:
- Equality: app_name = "Code"
- Contains: $contains(window_title, "aiHelper")
- Case-insensitive: $contains($lowercase(window_title), "github")
- OR multiple conditions: app_name = "Code" or app_name = "Terminal"
- AND: app_name = "Code" and $contains(window_title, "myProject")

Each rule should match one pattern. Use multiple rules per project to capture different apps.

Example output:
```json
[
  {
    "name": "aiHelper",
    "rules": [
      "app_name = \"Code\" and $contains(window_title, \"aiHelper\")",
      "$contains($lowercase(window_title), \"aihelper\")"
    ]
  }
]
```

IMPORTANT:
- Return ONLY the JSON array, no other text
- Do not wrap in markdown code fences
- Keep project names concise
- Create 2-8 projects maximum
- Each rule must be a valid JSONata expression"#@
}

/// The instructions given to the model for suggesting projects.
pub fn smart_suggest_system_prompt() -> (r: &'static str)
    ensures
        r@ == smart_suggest_instructions(),
{
    r#"You analyze desktop activity data and suggest project groupings.

You will receive a table of window activity data with columns: app_name, window_title, duration_secs.

Your task is to identify cross-app projects. A project is a logical grouping of activities across multiple apps. For example, working on "aiHelper" might involve VS Code (editing code), Chrome (GitHub, docs), Terminal (cargo, git), and Slack (team channel).

Group cross-app activity by project when you see the same project/repo/topic name appearing across different apps.

Return a JSON array of project objects. Each object has:
- "name": string — short project name (e.g., "aiHelper", "Documentation", "Email")
- "rules": array of JSONata expression strings that match against {app_name, window_title} objects

JSONata syntax reference:
- Equality: app_name = "Code"
- Contains: $contains(window_title, "aiHelper")
- Case-insensitive: $contains($lowercase(window_title), "github")
- OR multiple conditions: app_name = "Code" or app_name = "Terminal"
- AND: app_name = "Code" and $contains(window_title, "myProject")

Each rule should match one pattern. Use multiple rules per project to capture different apps.

Example output:
```json
[
  {
    "name": "aiHelper",
    "rules": [
      "app_name = \"Code\" and $contains(window_title, \"aiHelper\")",
      "$contains($lowercase(window_title), \"aihelper\")"
    ]
  }
]
```

IMPORTANT:
- Return ONLY the JSON array, no other text
- Do not wrap in markdown code fences
- Keep project names concise
- Create 2-8 projects maximum
- Each rule must be a valid JSONata expression"#
}

/// "Here is my desktop activity from the last DAYS days. Suggest project groupings:\n\nTABLE".
pub fn smart_suggest_user_prompt(days: i32, table: &str) -> (r: String)
    ensures
        r@ == "Here is my desktop activity from the last "@ + decimal(days as int)
            + " days. Suggest project groupings:\n\n"@ + table@,
{
    let mut v = chars_of("Here is my desktop activity from the last ");
    push_i64(&mut v, days as i64);
    push_str(&mut v, " days. Suggest project groupings:\n\n");
    push_str(&mut v, table);
    string_of(v.as_slice())
}

/// Suggestions whose lowercase name is not already taken.
pub open spec fn new_suggestions_spec(s: Seq<ProjectSuggestion>, existing: Seq<Seq<char>>) -> Seq<
    ProjectSuggestion,
> {
    s.filter(|x: ProjectSuggestion| !existing.contains(unicode_lowercase(x.name@)))
}

pub open spec fn names_view(v: Seq<String>) -> Seq<Seq<char>> {
    v.map_values(|s: String| s@)
}

/// Drops the suggestions that duplicate an existing project (compared in lowercase).
pub fn filter_new_suggestions(suggestions: Vec<ProjectSuggestion>, existing_names: &Vec<String>) -> (r:
    Vec<ProjectSuggestion>)
    ensures
        r@ == new_suggestions_spec(suggestions@, names_view(existing_names@)),
{
    let ghost ex = names_view(existing_names@);
    let mut keys: Vec<Vec<char>> = Vec::new();
    let mut i: usize = 0;
    while i < existing_names.len()
        invariant
            ex == names_view(existing_names@),
            i <= existing_names@.len(),
            keys@.map_values(|x: Vec<char>| x@) == ex.take(i as int),
        decreases existing_names@.len() - i,
    {
        let ghost before = keys@.map_values(|x: Vec<char>| x@);
        let c = chars_of(existing_names[i].as_str());
        assert(c@ == ex[i as int]);
        keys.push(c);
        assert(keys@.map_values(|x: Vec<char>| x@) =~= before.push(ex[i as int]));
        assert(ex.take(i + 1) =~= ex.take(i as int).push(ex[i as int]));
        i = i + 1;
    }
    assert(ex.take(i as int) =~= ex);
    let ghost sv = suggestions@;
    let mut out: Vec<ProjectSuggestion> = Vec::new();
    let mut rest = suggestions;
    let total = rest.len();
    let mut k: usize = 0;
    while rest.len() > 0
        invariant
            total == sv.len(),
            ex == names_view(existing_names@),
            keys@.map_values(|x: Vec<char>| x@) == ex,
            k <= sv.len(),
            rest@ == sv.skip(k as int),
            out@ == sv.take(k as int).filter(
                |x: ProjectSuggestion| !ex.contains(unicode_lowercase(x.name@)),
            ),
        decreases rest@.len(),
    {
        let x = rest.remove(0);
        assert(x == sv[k as int]);
        let low = to_lowercase(x.name.as_str());
        let low_chars = chars_of(low.as_str());
        let taken = key_taken(&keys, &low_chars);
        proof {
            assert(sv.take(k + 1).drop_last() =~= sv.take(k as int));
            assert(sv.take(k + 1).last() == x);
            reveal_with_fuel(Seq::filter, 1);
        }
        if !taken {
            out.push(x);
        }
        assert(rest@ =~= sv.skip(k + 1));
        k = k + 1;
    }
    assert(sv.take(k as int) =~= sv);
    out
}

/// Whether `keys` holds `k`.
fn key_taken(keys: &Vec<Vec<char>>, k: &Vec<char>) -> (r: bool)
    ensures
        r == keys@.map_values(|x: Vec<char>| x@).contains(k@),
{
    let ghost kv = keys@.map_values(|x: Vec<char>| x@);
    let mut i: usize = 0;
    while i < keys.len()
        invariant
            kv == keys@.map_values(|x: Vec<char>| x@),
            i <= keys@.len(),
            forall|j: int| 0 <= j < i ==> kv[j] != k@,
        decreases keys@.len() - i,
    {
        if chars_eq(&keys[i], k) {
            assert(kv[i as int] == k@);
            return true;
        }
        i = i + 1;
    }
    false
}

/// No kept suggestion duplicates an existing project, and the kept ones keep their order.
pub proof fn lemma_new_suggestions(s: Seq<ProjectSuggestion>, existing: Seq<Seq<char>>)
    ensures
        forall|i: int|
            0 <= i < new_suggestions_spec(s, existing).len() ==> !existing.contains(
                unicode_lowercase(#[trigger] new_suggestions_spec(s, existing)[i].name@),
            ),
        new_suggestions_spec(s, existing).len() <= s.len(),
        forall|x: ProjectSuggestion| s.contains(x) && !existing.contains(unicode_lowercase(x.name@))
            ==> #[trigger] new_suggestions_spec(s, existing).contains(x),
{
    broadcast use vstd::seq_lib::group_filter_ensures;
    let p = |x: ProjectSuggestion| !existing.contains(unicode_lowercase(x.name@));
    assert forall|x: ProjectSuggestion| s.contains(x) && p(x) implies #[trigger] s.filter(p).contains(x) by {
        let i = choose|i: int| 0 <= i < s.len() && s[i] == x;
        assert(s[i] == x);
    }
}

// ---------------------------------------------------------------------------
// Productivity tips
// ---------------------------------------------------------------------------

/// What a tip request is built from.
pub struct TipRequest {
    pub settings: AiSettings,
    pub context: String,
    pub keystrokes: String,
}

/// "[APP] CHARS" lines joined by newlines.
pub open spec fn keystroke_lines_spec(rows: Seq<(Seq<char>, Seq<char>)>) -> Seq<char> {
    crate::context::join(
        rows.map_values(|p: (Seq<char>, Seq<char>)| seq!['['] + p.0 + seq![']', ' '] + p.1),
        seq!['\n'],
    )
}

/// Recent typing as "[APP] CHARS" lines.
pub fn keystroke_lines(rows: &Vec<(String, String)>) -> (r: String)
    ensures
        r@ == keystroke_lines_spec(pairs_of(rows@)),
{
    let ghost pv = pairs_of(rows@);
    let ghost lines = pv.map_values(|p: (Seq<char>, Seq<char>)| seq!['['] + p.0 + seq![']', ' '] + p.1);
    let mut v: Vec<char> = Vec::new();
    let mut i: usize = 0;
    assert(lines.take(0) =~= seq![]);
    while i < rows.len()
        invariant
            pv == pairs_of(rows@),
            lines == pv.map_values(|p: (Seq<char>, Seq<char>)| seq!['['] + p.0 + seq![']', ' '] + p.1),
            i <= rows@.len(),
            v@ == crate::context::join(lines.take(i as int), seq!['\n']),
        decreases rows@.len() - i,
    {
        if i > 0 {
            v.push('\n');
        }
        v.push('[');
        push_str(&mut v, rows[i].0.as_str());
        v.push(']');
        v.push(' ');
        push_str(&mut v, rows[i].1.as_str());
        let ghost t = lines.take(i + 1);
        assert(pv[i as int] == pair_view(rows@[i as int]));
        assert(t.drop_last() =~= lines.take(i as int));
        assert(t.last() == lines[i as int]);
        if i == 0 {
            assert(t =~= seq![lines[0]]);
        }
        assert(v@ =~= crate::context::join(t, seq!['\n']));
        i = i + 1;
    }
    assert(lines.take(i as int) =~= lines);
    string_of(v.as_slice())
}

/// The digest a tip request carries: the one built, or nothing when it
/// could not be built.
pub open spec fn digest_text(digest: Result<String, String>) -> Seq<char> {
    match digest {
        Ok(t) => t@,
        Err(_) => seq![],
    }
}

/// The typing a tip request carries: the rows read as "[APP] CHARS" lines,
/// or nothing when they could not be read.
pub open spec fn typing_text(typing: Result<Vec<(String, String)>, String>) -> Seq<char> {
    match typing {
        Ok(rows) => keystroke_lines_spec(pairs_of(rows@)),
        Err(_) => seq![],
    }
}

/// A tip request from the AI settings, the outcome of building the
/// activity digest, and the outcome of reading the recent typing.
pub fn tip_request_from(
    settings: AiSettings,
    digest: Result<String, String>,
    typing: Result<Vec<(String, String)>, String>,
) -> (r: TipRequest)
    ensures
        r.settings == settings,
        r.context@ == digest_text(digest),
        r.keystrokes@ == typing_text(typing),
{
    let context = match digest {
        Ok(c) => c,
        Err(_) => String::new(),
    };
    let keystrokes = match typing {
        Ok(rows) => keystroke_lines(&rows),
        Err(_) => String::new(),
    };
    TipRequest { settings, context, keystrokes }
}

/// `q` carries the digest and the typing as built from these outcomes,
/// each outcome being what building the digest, or reading the typing,
/// can give.
pub open spec fn tip_gathered(
    q: TipRequest,
    digest: Result<String, String>,
    typing: Result<Vec<(String, String)>, String>,
) -> bool {
    &&& q.context@ == digest_text(digest)
    &&& q.keystrokes@ == typing_text(typing)
    &&& digest matches Ok(t) ==> exists|
        summaries: Seq<ProjectSummary>,
        projects: Seq<Project>,
        rules: Seq<ProjectRule>,
        untagged_total: i64,
        untagged_apps: Seq<UntaggedSummaryRow>,
        top_windows: Seq<TextCount>,
    |
        t@ == crate::context::chat_context_spec(
            summaries,
            projects,
            rules,
            untagged_total,
            untagged_apps,
            top_windows,
        )
    &&& typing matches Ok(v) ==> exists|rows: Seq<(String, String)>|
        pairs_of(v@) == crate::insights::recent_window_spec(pairs_of(rows), 2048)
}

/// What gathering a tip request runs: the reads of the AI settings, the
/// queries of the digest (all of them when it was built, else the first
/// `k`, the last of which failed), and the read of the typing when it
/// succeeded.
pub open spec fn tip_stmts(
    digest: Result<String, String>,
    typing: Result<Vec<(String, String)>, String>,
    k: int,
) -> Seq<StatementView> {
    ai_settings_stmts() + (if digest is Ok {
        chat_context_stmts()
    } else {
        chat_context_stmts().take(k)
    }) + (if typing is Ok {
        seq![get_recent_keystrokes_stmt()]
    } else {
        seq![]
    })
}

/// Gathers what a tip request needs (see `tip_request_from`): the AI
/// settings, the activity digest, and up to 2048 bytes of recent typing.
pub fn tip_request(db: &mut Database) -> (r: Result<TipRequest, String>)
    ensures
        r matches Ok(q) ==> q.settings.api_key@.len() > 0,
        r matches Ok(q) ==> exists|
            digest: Result<String, String>,
            typing: Result<Vec<(String, String)>, String>,
            k: int,
        |
            #![trigger tip_gathered(q, digest, typing), tip_stmts(digest, typing, k)]
            tip_gathered(q, digest, typing) && 0 <= k < chat_context_stmts().len() && final(db).ran()
                == old(db).ran() + tip_stmts(digest, typing, k),
        r matches Err(e) ==> e@ == missing_api_key() || reported(e@, "Failed to get setting"@),
{
    let settings = ai_settings(db)?;
    let ghost s1 = db.ran();
    let digest = db.build_chat_context();
    let ghost s2 = db.ran();
    let typing = db.get_recent_keystrokes(2048);
    let ghost (d, t) = (digest, typing);
    let ghost k: int = if d is Ok {
        0
    } else {
        choose|k: int| 0 <= k < chat_context_stmts().len() && s2 == s1 + chat_context_stmts().take(k)
    };
    let q = tip_request_from(settings, digest, typing);
    assert(q.context@ == digest_text(d) && q.keystrokes@ == typing_text(t));
    assert(db.ran() =~= old(db).ran() + tip_stmts(d, t, k));
    assert(0 <= k < chat_context_stmts().len());
    let r: Result<TipRequest, String> = Ok(q);
    assert(r matches Ok(x) && tip_gathered(x, d, t));
    r
}

/// The tip instructions, the activity digest, and the recent typing under a heading when there is any.
pub open spec fn tip_system_prompt_spec(context: Seq<char>, keystrokes: Seq<char>) -> Seq<char> {
    "You are a concise productivity assistant. Based on the activity data below, generate ONE short actionable tip. Under 3 sentences. Be specific to what the user is actually doing right now."@
        + context + if keystrokes.len() > 0 {
        "\n\n--- Recent Keystrokes ---\n"@ + keystrokes
    } else {
        seq![]
    }
}

/// The system prompt of a tip request (see `tip_system_prompt_spec`).
pub fn tip_system_prompt(context: &str, keystrokes: &str) -> (r: String)
    ensures
        r@ == tip_system_prompt_spec(context@, keystrokes@),
{
    let mut v = chars_of(
        "You are a concise productivity assistant. Based on the activity data below, generate ONE short actionable tip. Under 3 sentences. Be specific to what the user is actually doing right now.",
    );
    push_str(&mut v, context);
    if keystrokes.unicode_len() > 0 {
        push_str(&mut v, "\n\n--- Recent Keystrokes ---\n");
        push_str(&mut v, keystrokes);
    }
    string_of(v.as_slice())
}

/// The user message of a tip request.
pub fn tip_user_prompt() -> (r: &'static str)
    ensures
        r@ == "Give me a productivity tip based on my current activity."@,
{
    "Give me a productivity tip based on my current activity."
}

} // verus!
