//! The statements the database methods run: each builder returns the SQL
//! text and the parameters bound to it, exactly as its contract states.
use vstd::prelude::*;
use crate::db::{known_table, Migration, CURRENT_VERSION};
use crate::sql::{param_value_of, ParamValue, SqlParam, SqlStatement, StatementView};
use crate::text::{contains_text, decimal, matches_at, owned, push_i64, push_str, string_of, text_eq};

verus! {
/// The statement of `schema_version_table_statement`, as plain values.
pub open spec fn schema_version_table_stmt() -> StatementView {
    ("CREATE TABLE IF NOT EXISTS schema_version (version INTEGER NOT NULL)"@, Seq::<ParamValue>::empty())
}

/// The statement of `Database::run_migrations`.
pub fn schema_version_table_statement() -> (r: SqlStatement)
    ensures
        r@ == schema_version_table_stmt(),
{
    let r = SqlStatement { sql: owned("CREATE TABLE IF NOT EXISTS schema_version (version INTEGER NOT NULL)"), params: Vec::new() };
    assert(r@.1 =~= Seq::<ParamValue>::empty());
    r
}

/// The statement of `schema_version_read_statement`, as plain values.
pub open spec fn schema_version_read_stmt() -> StatementView {
    ("SELECT COALESCE(MAX(version), 0) FROM schema_version"@, Seq::<ParamValue>::empty())
}

/// The statement of `Database::run_migrations`.
pub fn schema_version_read_statement() -> (r: SqlStatement)
    ensures
        r@ == schema_version_read_stmt(),
{
    let r = SqlStatement { sql: owned("SELECT COALESCE(MAX(version), 0) FROM schema_version"), params: Vec::new() };
    assert(r@.1 =~= Seq::<ParamValue>::empty());
    r
}

/// The statement of `schema_version_write_statement`, as plain values.
pub open spec fn schema_version_write_stmt() -> StatementView {
    ("INSERT INTO schema_version (version) VALUES (?1)"@, seq![ParamValue::Integer(CURRENT_VERSION as i64)])
}

/// The statement of `Database::run_migrations`.
pub fn schema_version_write_statement() -> (r: SqlStatement)
    ensures
        r@ == schema_version_write_stmt(),
{
    let r = SqlStatement { sql: owned("INSERT INTO schema_version (version) VALUES (?1)"), params: vec![SqlParam::Integer(CURRENT_VERSION as i64)] };
    assert(r@.1 =~= seq![ParamValue::Integer(CURRENT_VERSION as i64)]);
    r
}

/// The statement of `create_conversation_statement`, as plain values.
pub open spec fn create_conversation_stmt(t: Seq<char>) -> StatementView {
    ("INSERT INTO conversations (title) VALUES (?1)"@, seq![ParamValue::Text(t)])
}

/// The statement of `Database::create_conversation`.
pub fn create_conversation_statement(t: &str) -> (r: SqlStatement)
    ensures
        r@ == create_conversation_stmt(t@),
{
    let r = SqlStatement { sql: owned("INSERT INTO conversations (title) VALUES (?1)"), params: vec![SqlParam::Text(owned(t))] };
    assert(r@.1 =~= seq![ParamValue::Text(t@)]);
    r
}

/// The statement of `list_conversations_statement`, as plain values.
pub open spec fn list_conversations_stmt() -> StatementView {
    ("SELECT id, title, created_at, updated_at, active_root_message_id FROM conversations ORDER BY updated_at DESC"@, Seq::<ParamValue>::empty())
}

/// The statement of `Database::list_conversations`.
pub fn list_conversations_statement() -> (r: SqlStatement)
    ensures
        r@ == list_conversations_stmt(),
{
    let r = SqlStatement { sql: owned("SELECT id, title, created_at, updated_at, active_root_message_id FROM conversations ORDER BY updated_at DESC"), params: Vec::new() };
    assert(r@.1 =~= Seq::<ParamValue>::empty());
    r
}

/// The statement of `get_conversation_statement`, as plain values.
pub open spec fn get_conversation_stmt(id: i64) -> StatementView {
    ("SELECT id, title, created_at, updated_at, active_root_message_id FROM conversations WHERE id = ?1"@, seq![ParamValue::Integer(id)])
}

/// The statement of `Database::get_conversation`.
pub fn get_conversation_statement(id: i64) -> (r: SqlStatement)
    ensures
        r@ == get_conversation_stmt(id),
{
    let r = SqlStatement { sql: owned("SELECT id, title, created_at, updated_at, active_root_message_id FROM conversations WHERE id = ?1"), params: vec![SqlParam::Integer(id)] };
    assert(r@.1 =~= seq![ParamValue::Integer(id)]);
    r
}

/// The statement of `delete_conversation_statement`, as plain values.
pub open spec fn delete_conversation_stmt(id: i64) -> StatementView {
    ("DELETE FROM conversations WHERE id = ?1"@, seq![ParamValue::Integer(id)])
}

/// The statement of `Database::delete_conversation`.
pub fn delete_conversation_statement(id: i64) -> (r: SqlStatement)
    ensures
        r@ == delete_conversation_stmt(id),
{
    let r = SqlStatement { sql: owned("DELETE FROM conversations WHERE id = ?1"), params: vec![SqlParam::Integer(id)] };
    assert(r@.1 =~= seq![ParamValue::Integer(id)]);
    r
}

/// The statement of `update_conversation_title_statement`, as plain values.
pub open spec fn update_conversation_title_stmt(title: Seq<char>, id: i64) -> StatementView {
    ("UPDATE conversations SET title = ?1 WHERE id = ?2"@, seq![ParamValue::Text(title), ParamValue::Integer(id)])
}

/// The statement of `Database::update_conversation_title`.
pub fn update_conversation_title_statement(title: &str, id: i64) -> (r: SqlStatement)
    ensures
        r@ == update_conversation_title_stmt(title@, id),
{
    let r = SqlStatement { sql: owned("UPDATE conversations SET title = ?1 WHERE id = ?2"), params: vec![SqlParam::Text(owned(title)), SqlParam::Integer(id)] };
    assert(r@.1 =~= seq![ParamValue::Text(title@), ParamValue::Integer(id)]);
    r
}

/// The statement of `set_conversation_active_root_statement`, as plain values.
pub open spec fn set_conversation_active_root_stmt(message_id: i64, conversation_id: i64) -> StatementView {
    ("UPDATE conversations SET active_root_message_id = ?1 WHERE id = ?2"@, seq![ParamValue::Integer(message_id), ParamValue::Integer(conversation_id)])
}

/// The statement of `Database::set_conversation_active_root`.
pub fn set_conversation_active_root_statement(message_id: i64, conversation_id: i64) -> (r: SqlStatement)
    ensures
        r@ == set_conversation_active_root_stmt(message_id, conversation_id),
{
    let r = SqlStatement { sql: owned("UPDATE conversations SET active_root_message_id = ?1 WHERE id = ?2"), params: vec![SqlParam::Integer(message_id), SqlParam::Integer(conversation_id)] };
    assert(r@.1 =~= seq![ParamValue::Integer(message_id), ParamValue::Integer(conversation_id)]);
    r
}

/// The statement of `touch_conversation_statement`, as plain values.
pub open spec fn touch_conversation_stmt(id: i64) -> StatementView {
    ("UPDATE conversations SET updated_at = datetime('now') WHERE id = ?1"@, seq![ParamValue::Integer(id)])
}

/// The statement of `Database::touch_conversation`.
pub fn touch_conversation_statement(id: i64) -> (r: SqlStatement)
    ensures
        r@ == touch_conversation_stmt(id),
{
    let r = SqlStatement { sql: owned("UPDATE conversations SET updated_at = datetime('now') WHERE id = ?1"), params: vec![SqlParam::Integer(id)] };
    assert(r@.1 =~= seq![ParamValue::Integer(id)]);
    r
}

/// The statement of `get_chat_message_statement`, as plain values.
pub open spec fn get_chat_message_stmt(id: i64) -> StatementView {
    ("SELECT id, conversation_id, parent_id, role, content, model, created_at, active_child_id FROM chat_messages WHERE id = ?1"@, seq![ParamValue::Integer(id)])
}

/// The statement of `Database::get_chat_message`.
pub fn get_chat_message_statement(id: i64) -> (r: SqlStatement)
    ensures
        r@ == get_chat_message_stmt(id),
{
    let r = SqlStatement { sql: owned("SELECT id, conversation_id, parent_id, role, content, model, created_at, active_child_id FROM chat_messages WHERE id = ?1"), params: vec![SqlParam::Integer(id)] };
    assert(r@.1 =~= seq![ParamValue::Integer(id)]);
    r
}

/// The statement of `get_conversation_messages_statement`, as plain values.
pub open spec fn get_conversation_messages_stmt(conversation_id: i64) -> StatementView {
    ("SELECT id, conversation_id, parent_id, role, content, model, created_at, active_child_id FROM chat_messages WHERE conversation_id = ?1 ORDER BY id ASC"@, seq![ParamValue::Integer(conversation_id)])
}

/// The statement of `Database::get_conversation_messages`.
pub fn get_conversation_messages_statement(conversation_id: i64) -> (r: SqlStatement)
    ensures
        r@ == get_conversation_messages_stmt(conversation_id),
{
    let r = SqlStatement { sql: owned("SELECT id, conversation_id, parent_id, role, content, model, created_at, active_child_id FROM chat_messages WHERE conversation_id = ?1 ORDER BY id ASC"), params: vec![SqlParam::Integer(conversation_id)] };
    assert(r@.1 =~= seq![ParamValue::Integer(conversation_id)]);
    r
}

/// The statement of `set_active_child_statement`, as plain values.
pub open spec fn set_active_child_stmt(child_id: i64, message_id: i64) -> StatementView {
    ("UPDATE chat_messages SET active_child_id = ?1 WHERE id = ?2"@, seq![ParamValue::Integer(child_id), ParamValue::Integer(message_id)])
}

/// The statement of `Database::set_active_child`.
pub fn set_active_child_statement(child_id: i64, message_id: i64) -> (r: SqlStatement)
    ensures
        r@ == set_active_child_stmt(child_id, message_id),
{
    let r = SqlStatement { sql: owned("UPDATE chat_messages SET active_child_id = ?1 WHERE id = ?2"), params: vec![SqlParam::Integer(child_id), SqlParam::Integer(message_id)] };
    assert(r@.1 =~= seq![ParamValue::Integer(child_id), ParamValue::Integer(message_id)]);
    r
}

/// The statement of `update_message_content_statement`, as plain values.
pub open spec fn update_message_content_stmt(content: Seq<char>, message_id: i64) -> StatementView {
    ("UPDATE chat_messages SET content = ?1 WHERE id = ?2"@, seq![ParamValue::Text(content), ParamValue::Integer(message_id)])
}

/// The statement of `Database::update_message_content`.
pub fn update_message_content_statement(content: &str, message_id: i64) -> (r: SqlStatement)
    ensures
        r@ == update_message_content_stmt(content@, message_id),
{
    let r = SqlStatement { sql: owned("UPDATE chat_messages SET content = ?1 WHERE id = ?2"), params: vec![SqlParam::Text(owned(content)), SqlParam::Integer(message_id)] };
    assert(r@.1 =~= seq![ParamValue::Text(content@), ParamValue::Integer(message_id)]);
    r
}

/// The statement of `insert_event_statement`, as plain values.
pub open spec fn insert_event_stmt(event_type: Seq<char>, payload: Seq<char>) -> StatementView {
    ("INSERT INTO events (event_type, payload) VALUES (?1, ?2)"@, seq![ParamValue::Text(event_type), ParamValue::Text(payload)])
}

/// The statement of `Database::insert_event`.
pub fn insert_event_statement(event_type: &str, payload: &str) -> (r: SqlStatement)
    ensures
        r@ == insert_event_stmt(event_type@, payload@),
{
    let r = SqlStatement { sql: owned("INSERT INTO events (event_type, payload) VALUES (?1, ?2)"), params: vec![SqlParam::Text(owned(event_type)), SqlParam::Text(owned(payload))] };
    assert(r@.1 =~= seq![ParamValue::Text(event_type@), ParamValue::Text(payload@)]);
    r
}

/// The statement of `get_recent_events_statement`, as plain values.
pub open spec fn get_recent_events_stmt(limit: i64) -> StatementView {
    ("SELECT id, event_type, payload, created_at FROM events ORDER BY id DESC LIMIT ?1"@, seq![ParamValue::Integer(limit)])
}

/// The statement of `Database::get_recent_events`.
pub fn get_recent_events_statement(limit: i64) -> (r: SqlStatement)
    ensures
        r@ == get_recent_events_stmt(limit),
{
    let r = SqlStatement { sql: owned("SELECT id, event_type, payload, created_at FROM events ORDER BY id DESC LIMIT ?1"), params: vec![SqlParam::Integer(limit)] };
    assert(r@.1 =~= seq![ParamValue::Integer(limit)]);
    r
}

/// The statement of `create_task_statement`, as plain values.
pub open spec fn create_task_stmt(content: Seq<char>, window_title: Seq<char>) -> StatementView {
    ("INSERT INTO tasks (content, window_title) VALUES (?1, ?2)"@, seq![ParamValue::Text(content), ParamValue::Text(window_title)])
}

/// The statement of `Database::create_task`.
pub fn create_task_statement(content: &str, window_title: &str) -> (r: SqlStatement)
    ensures
        r@ == create_task_stmt(content@, window_title@),
{
    let r = SqlStatement { sql: owned("INSERT INTO tasks (content, window_title) VALUES (?1, ?2)"), params: vec![SqlParam::Text(owned(content)), SqlParam::Text(owned(window_title))] };
    assert(r@.1 =~= seq![ParamValue::Text(content@), ParamValue::Text(window_title@)]);
    r
}

/// The statement of `get_task_statement`, as plain values.
pub open spec fn get_task_stmt(id: i64) -> StatementView {
    ("SELECT id, content, completed, archived, window_title, created_at, completed_at FROM tasks WHERE id = ?1"@, seq![ParamValue::Integer(id)])
}

/// The statement of `Database::get_task`.
pub fn get_task_statement(id: i64) -> (r: SqlStatement)
    ensures
        r@ == get_task_stmt(id),
{
    let r = SqlStatement { sql: owned("SELECT id, content, completed, archived, window_title, created_at, completed_at FROM tasks WHERE id = ?1"), params: vec![SqlParam::Integer(id)] };
    assert(r@.1 =~= seq![ParamValue::Integer(id)]);
    r
}

/// The statement of `list_tasks_statement`, as plain values.
pub open spec fn list_tasks_stmt(archived_int: i64) -> StatementView {
    ("SELECT id, content, completed, archived, window_title, created_at, completed_at FROM tasks WHERE archived = ?1 ORDER BY created_at DESC"@, seq![ParamValue::Integer(archived_int)])
}

/// The statement of `Database::list_tasks`.
pub fn list_tasks_statement(archived_int: i64) -> (r: SqlStatement)
    ensures
        r@ == list_tasks_stmt(archived_int),
{
    let r = SqlStatement { sql: owned("SELECT id, content, completed, archived, window_title, created_at, completed_at FROM tasks WHERE archived = ?1 ORDER BY created_at DESC"), params: vec![SqlParam::Integer(archived_int)] };
    assert(r@.1 =~= seq![ParamValue::Integer(archived_int)]);
    r
}

/// The statement of `task_check_statement`, as plain values.
pub open spec fn task_check_stmt(id: i64) -> StatementView {
    ("UPDATE tasks SET completed = ?1, completed_at = datetime('now') WHERE id = ?2"@, seq![ParamValue::Integer(1), ParamValue::Integer(id)])
}

/// The statement of `Database::update_task_completed`.
pub fn task_check_statement(id: i64) -> (r: SqlStatement)
    ensures
        r@ == task_check_stmt(id),
{
    let r = SqlStatement { sql: owned("UPDATE tasks SET completed = ?1, completed_at = datetime('now') WHERE id = ?2"), params: vec![SqlParam::Integer(1), SqlParam::Integer(id)] };
    assert(r@.1 =~= seq![ParamValue::Integer(1), ParamValue::Integer(id)]);
    r
}

/// The statement of `task_uncheck_statement`, as plain values.
pub open spec fn task_uncheck_stmt(id: i64) -> StatementView {
    ("UPDATE tasks SET completed = 0, completed_at = NULL, archived = 0 WHERE id = ?1"@, seq![ParamValue::Integer(id)])
}

/// The statement of `Database::update_task_completed`.
pub fn task_uncheck_statement(id: i64) -> (r: SqlStatement)
    ensures
        r@ == task_uncheck_stmt(id),
{
    let r = SqlStatement { sql: owned("UPDATE tasks SET completed = 0, completed_at = NULL, archived = 0 WHERE id = ?1"), params: vec![SqlParam::Integer(id)] };
    assert(r@.1 =~= seq![ParamValue::Integer(id)]);
    r
}

/// The statement of `archive_task_statement`, as plain values.
pub open spec fn archive_task_stmt(id: i64) -> StatementView {
    ("UPDATE tasks SET archived = 1 WHERE id = ?1"@, seq![ParamValue::Integer(id)])
}

/// The statement of `Database::archive_task`.
pub fn archive_task_statement(id: i64) -> (r: SqlStatement)
    ensures
        r@ == archive_task_stmt(id),
{
    let r = SqlStatement { sql: owned("UPDATE tasks SET archived = 1 WHERE id = ?1"), params: vec![SqlParam::Integer(id)] };
    assert(r@.1 =~= seq![ParamValue::Integer(id)]);
    r
}

/// The statement of `delete_task_statement`, as plain values.
pub open spec fn delete_task_stmt(id: i64) -> StatementView {
    ("DELETE FROM tasks WHERE id = ?1"@, seq![ParamValue::Integer(id)])
}

/// The statement of `Database::delete_task`.
pub fn delete_task_statement(id: i64) -> (r: SqlStatement)
    ensures
        r@ == delete_task_stmt(id),
{
    let r = SqlStatement { sql: owned("DELETE FROM tasks WHERE id = ?1"), params: vec![SqlParam::Integer(id)] };
    assert(r@.1 =~= seq![ParamValue::Integer(id)]);
    r
}

/// The statement of `get_setting_statement`, as plain values.
pub open spec fn get_setting_stmt(key: Seq<char>, component: Seq<char>) -> StatementView {
    ("SELECT value FROM settings WHERE key = ?1 AND component = ?2"@, seq![ParamValue::Text(key), ParamValue::Text(component)])
}

/// The statement of `Database::get_setting`.
pub fn get_setting_statement(key: &str, component: &str) -> (r: SqlStatement)
    ensures
        r@ == get_setting_stmt(key@, component@),
{
    let r = SqlStatement { sql: owned("SELECT value FROM settings WHERE key = ?1 AND component = ?2"), params: vec![SqlParam::Text(owned(key)), SqlParam::Text(owned(component))] };
    assert(r@.1 =~= seq![ParamValue::Text(key@), ParamValue::Text(component@)]);
    r
}

/// The statement of `get_all_settings_statement`, as plain values.
pub open spec fn get_all_settings_stmt(component: Seq<char>) -> StatementView {
    ("SELECT key, value FROM settings WHERE component = ?1"@, seq![ParamValue::Text(component)])
}

/// The statement of `Database::get_all_settings`.
pub fn get_all_settings_statement(component: &str) -> (r: SqlStatement)
    ensures
        r@ == get_all_settings_stmt(component@),
{
    let r = SqlStatement { sql: owned("SELECT key, value FROM settings WHERE component = ?1"), params: vec![SqlParam::Text(owned(component))] };
    assert(r@.1 =~= seq![ParamValue::Text(component@)]);
    r
}

/// The statement of `set_setting_statement`, as plain values.
pub open spec fn set_setting_stmt(key: Seq<char>, value: Seq<char>, component: Seq<char>) -> StatementView {
    ("INSERT OR REPLACE INTO settings (key, value, component) VALUES (?1, ?2, ?3)"@, seq![ParamValue::Text(key), ParamValue::Text(value), ParamValue::Text(component)])
}

/// The statement of `Database::set_setting`.
pub fn set_setting_statement(key: &str, value: &str, component: &str) -> (r: SqlStatement)
    ensures
        r@ == set_setting_stmt(key@, value@, component@),
{
    let r = SqlStatement { sql: owned("INSERT OR REPLACE INTO settings (key, value, component) VALUES (?1, ?2, ?3)"), params: vec![SqlParam::Text(owned(key)), SqlParam::Text(owned(value)), SqlParam::Text(owned(component))] };
    assert(r@.1 =~= seq![ParamValue::Text(key@), ParamValue::Text(value@), ParamValue::Text(component@)]);
    r
}

/// The statement of `seed_setting_statement`, as plain values.
pub open spec fn seed_setting_stmt(key: Seq<char>, value: Seq<char>, component: Seq<char>) -> StatementView {
    ("INSERT OR IGNORE INTO settings (key, value, component) VALUES (?1, ?2, ?3)"@, seq![ParamValue::Text(key), ParamValue::Text(value), ParamValue::Text(component)])
}

/// The statement of `Database::seed_setting`.
pub fn seed_setting_statement(key: &str, value: &str, component: &str) -> (r: SqlStatement)
    ensures
        r@ == seed_setting_stmt(key@, value@, component@),
{
    let r = SqlStatement { sql: owned("INSERT OR IGNORE INTO settings (key, value, component) VALUES (?1, ?2, ?3)"), params: vec![SqlParam::Text(owned(key)), SqlParam::Text(owned(value)), SqlParam::Text(owned(component))] };
    assert(r@.1 =~= seq![ParamValue::Text(key@), ParamValue::Text(value@), ParamValue::Text(component@)]);
    r
}

/// The statement of `insert_keystrokes_statement`, as plain values.
pub open spec fn insert_keystrokes_stmt(chars: Seq<char>, app_name: Seq<char>, window_title: Seq<char>) -> StatementView {
    ("INSERT INTO keystrokes (chars, app_name, window_title) VALUES (?1, ?2, ?3)"@, seq![ParamValue::Text(chars), ParamValue::Text(app_name), ParamValue::Text(window_title)])
}

/// The statement of `Database::insert_keystrokes`.
pub fn insert_keystrokes_statement(chars: &str, app_name: &str, window_title: &str) -> (r: SqlStatement)
    ensures
        r@ == insert_keystrokes_stmt(chars@, app_name@, window_title@),
{
    let r = SqlStatement { sql: owned("INSERT INTO keystrokes (chars, app_name, window_title) VALUES (?1, ?2, ?3)"), params: vec![SqlParam::Text(owned(chars)), SqlParam::Text(owned(app_name)), SqlParam::Text(owned(window_title))] };
    assert(r@.1 =~= seq![ParamValue::Text(chars@), ParamValue::Text(app_name@), ParamValue::Text(window_title@)]);
    r
}

/// The statement of `insert_window_activity_statement`, as plain values.
pub open spec fn insert_window_activity_stmt(app_name: Seq<char>, window_title: Seq<char>, duration_secs: i64) -> StatementView {
    ("INSERT INTO window_activity (app_name, window_title, duration_secs) VALUES (?1, ?2, ?3)"@, seq![ParamValue::Text(app_name), ParamValue::Text(window_title), ParamValue::Integer(duration_secs)])
}

/// The statement of `Database::insert_window_activity`.
pub fn insert_window_activity_statement(app_name: &str, window_title: &str, duration_secs: i64) -> (r: SqlStatement)
    ensures
        r@ == insert_window_activity_stmt(app_name@, window_title@, duration_secs),
{
    let r = SqlStatement { sql: owned("INSERT INTO window_activity (app_name, window_title, duration_secs) VALUES (?1, ?2, ?3)"), params: vec![SqlParam::Text(owned(app_name)), SqlParam::Text(owned(window_title)), SqlParam::Integer(duration_secs)] };
    assert(r@.1 =~= seq![ParamValue::Text(app_name@), ParamValue::Text(window_title@), ParamValue::Integer(duration_secs)]);
    r
}

/// The statement of `get_keystroke_count_since_statement`, as plain values.
pub open spec fn get_keystroke_count_since_stmt(since: Seq<char>) -> StatementView {
    ("SELECT COALESCE(SUM(LENGTH(chars)), 0) FROM keystrokes WHERE created_at >= ?1"@, seq![ParamValue::Text(since)])
}

/// The statement of `Database::get_keystroke_count_since`.
pub fn get_keystroke_count_since_statement(since: &str) -> (r: SqlStatement)
    ensures
        r@ == get_keystroke_count_since_stmt(since@),
{
    let r = SqlStatement { sql: owned("SELECT COALESCE(SUM(LENGTH(chars)), 0) FROM keystrokes WHERE created_at >= ?1"), params: vec![SqlParam::Text(owned(since))] };
    assert(r@.1 =~= seq![ParamValue::Text(since@)]);
    r
}

/// The statement of `get_keystroke_count_last_minute_statement`, as plain values.
pub open spec fn get_keystroke_count_last_minute_stmt() -> StatementView {
    ("SELECT COALESCE(SUM(LENGTH(chars)), 0) FROM keystrokes WHERE created_at >= datetime('now', '-1 minute')"@, Seq::<ParamValue>::empty())
}

/// The statement of `Database::get_keystroke_count_last_minute`.
pub fn get_keystroke_count_last_minute_statement() -> (r: SqlStatement)
    ensures
        r@ == get_keystroke_count_last_minute_stmt(),
{
    let r = SqlStatement { sql: owned("SELECT COALESCE(SUM(LENGTH(chars)), 0) FROM keystrokes WHERE created_at >= datetime('now', '-1 minute')"), params: Vec::new() };
    assert(r@.1 =~= Seq::<ParamValue>::empty());
    r
}

/// The statement of `get_top_windows_today_statement`, as plain values.
pub open spec fn get_top_windows_today_stmt() -> StatementView {
    ("SELECT app_name, SUM(duration_secs) as total
                 FROM window_activity
                 WHERE started_at >= date('now') AND app_name != ''
                 GROUP BY app_name
                 ORDER BY total DESC
                 LIMIT 20"@, Seq::<ParamValue>::empty())
}

/// The statement of `Database::get_top_windows_today`.
pub fn get_top_windows_today_statement() -> (r: SqlStatement)
    ensures
        r@ == get_top_windows_today_stmt(),
{
    let r = SqlStatement { sql: owned("SELECT app_name, SUM(duration_secs) as total
                 FROM window_activity
                 WHERE started_at >= date('now') AND app_name != ''
                 GROUP BY app_name
                 ORDER BY total DESC
                 LIMIT 20"), params: Vec::new() };
    assert(r@.1 =~= Seq::<ParamValue>::empty());
    r
}

/// The statement of `create_project_statement`, as plain values.
pub open spec fn create_project_stmt(name: Seq<char>, description: Seq<char>, color: Seq<char>) -> StatementView {
    ("INSERT INTO projects (name, description, color) VALUES (?1, ?2, ?3)"@, seq![ParamValue::Text(name), ParamValue::Text(description), ParamValue::Text(color)])
}

/// The statement of `Database::create_project`.
pub fn create_project_statement(name: &str, description: &str, color: &str) -> (r: SqlStatement)
    ensures
        r@ == create_project_stmt(name@, description@, color@),
{
    let r = SqlStatement { sql: owned("INSERT INTO projects (name, description, color) VALUES (?1, ?2, ?3)"), params: vec![SqlParam::Text(owned(name)), SqlParam::Text(owned(description)), SqlParam::Text(owned(color))] };
    assert(r@.1 =~= seq![ParamValue::Text(name@), ParamValue::Text(description@), ParamValue::Text(color@)]);
    r
}

/// The statement of `get_project_statement`, as plain values.
pub open spec fn get_project_stmt(id: i64) -> StatementView {
    ("SELECT id, name, description, color, created_at FROM projects WHERE id = ?1"@, seq![ParamValue::Integer(id)])
}

/// The statement of `Database::get_project`.
pub fn get_project_statement(id: i64) -> (r: SqlStatement)
    ensures
        r@ == get_project_stmt(id),
{
    let r = SqlStatement { sql: owned("SELECT id, name, description, color, created_at FROM projects WHERE id = ?1"), params: vec![SqlParam::Integer(id)] };
    assert(r@.1 =~= seq![ParamValue::Integer(id)]);
    r
}

/// The statement of `update_project_statement`, as plain values.
pub open spec fn update_project_stmt(name: Seq<char>, description: Seq<char>, color: Seq<char>, id: i64) -> StatementView {
    ("UPDATE projects SET name = ?1, description = ?2, color = ?3 WHERE id = ?4"@, seq![ParamValue::Text(name), ParamValue::Text(description), ParamValue::Text(color), ParamValue::Integer(id)])
}

/// The statement of `Database::update_project`.
pub fn update_project_statement(name: &str, description: &str, color: &str, id: i64) -> (r: SqlStatement)
    ensures
        r@ == update_project_stmt(name@, description@, color@, id),
{
    let r = SqlStatement { sql: owned("UPDATE projects SET name = ?1, description = ?2, color = ?3 WHERE id = ?4"), params: vec![SqlParam::Text(owned(name)), SqlParam::Text(owned(description)), SqlParam::Text(owned(color)), SqlParam::Integer(id)] };
    assert(r@.1 =~= seq![ParamValue::Text(name@), ParamValue::Text(description@), ParamValue::Text(color@), ParamValue::Integer(id)]);
    r
}

/// The statement of `delete_project_statement`, as plain values.
pub open spec fn delete_project_stmt(id: i64) -> StatementView {
    ("DELETE FROM projects WHERE id = ?1"@, seq![ParamValue::Integer(id)])
}

/// The statement of `Database::delete_project`.
pub fn delete_project_statement(id: i64) -> (r: SqlStatement)
    ensures
        r@ == delete_project_stmt(id),
{
    let r = SqlStatement { sql: owned("DELETE FROM projects WHERE id = ?1"), params: vec![SqlParam::Integer(id)] };
    assert(r@.1 =~= seq![ParamValue::Integer(id)]);
    r
}

/// The statement of `list_projects_statement`, as plain values.
pub open spec fn list_projects_stmt() -> StatementView {
    ("SELECT id, name, description, color, created_at FROM projects ORDER BY name ASC"@, Seq::<ParamValue>::empty())
}

/// The statement of `Database::list_projects`.
pub fn list_projects_statement() -> (r: SqlStatement)
    ensures
        r@ == list_projects_stmt(),
{
    let r = SqlStatement { sql: owned("SELECT id, name, description, color, created_at FROM projects ORDER BY name ASC"), params: Vec::new() };
    assert(r@.1 =~= Seq::<ParamValue>::empty());
    r
}

/// The statement of `add_project_rule_statement`, as plain values.
pub open spec fn add_project_rule_stmt(project_id: i64, expression: Seq<char>, priority: i32) -> StatementView {
    ("INSERT INTO project_rules (project_id, expression, priority) VALUES (?1, ?2, ?3)"@, seq![ParamValue::Integer(project_id), ParamValue::Text(expression), ParamValue::Integer(priority as i64)])
}

/// The statement of `Database::add_project_rule`.
pub fn add_project_rule_statement(project_id: i64, expression: &str, priority: i32) -> (r: SqlStatement)
    ensures
        r@ == add_project_rule_stmt(project_id, expression@, priority),
{
    let r = SqlStatement { sql: owned("INSERT INTO project_rules (project_id, expression, priority) VALUES (?1, ?2, ?3)"), params: vec![SqlParam::Integer(project_id), SqlParam::Text(owned(expression)), SqlParam::Integer(priority as i64)] };
    assert(r@.1 =~= seq![ParamValue::Integer(project_id), ParamValue::Text(expression@), ParamValue::Integer(priority as i64)]);
    r
}

/// The statement of `get_project_rule_statement`, as plain values.
pub open spec fn get_project_rule_stmt(id: i64) -> StatementView {
    ("SELECT id, project_id, expression, priority, created_at FROM project_rules WHERE id = ?1"@, seq![ParamValue::Integer(id)])
}

/// The statement of `Database::add_project_rule`.
pub fn get_project_rule_statement(id: i64) -> (r: SqlStatement)
    ensures
        r@ == get_project_rule_stmt(id),
{
    let r = SqlStatement { sql: owned("SELECT id, project_id, expression, priority, created_at FROM project_rules WHERE id = ?1"), params: vec![SqlParam::Integer(id)] };
    assert(r@.1 =~= seq![ParamValue::Integer(id)]);
    r
}

/// The statement of `delete_project_rule_statement`, as plain values.
pub open spec fn delete_project_rule_stmt(id: i64) -> StatementView {
    ("DELETE FROM project_rules WHERE id = ?1"@, seq![ParamValue::Integer(id)])
}

/// The statement of `Database::delete_project_rule`.
pub fn delete_project_rule_statement(id: i64) -> (r: SqlStatement)
    ensures
        r@ == delete_project_rule_stmt(id),
{
    let r = SqlStatement { sql: owned("DELETE FROM project_rules WHERE id = ?1"), params: vec![SqlParam::Integer(id)] };
    assert(r@.1 =~= seq![ParamValue::Integer(id)]);
    r
}

/// The statement of `get_project_rules_statement`, as plain values.
pub open spec fn get_project_rules_stmt(project_id: i64) -> StatementView {
    ("SELECT id, project_id, expression, priority, created_at FROM project_rules WHERE project_id = ?1 ORDER BY priority DESC"@, seq![ParamValue::Integer(project_id)])
}

/// The statement of `Database::get_project_rules`.
pub fn get_project_rules_statement(project_id: i64) -> (r: SqlStatement)
    ensures
        r@ == get_project_rules_stmt(project_id),
{
    let r = SqlStatement { sql: owned("SELECT id, project_id, expression, priority, created_at FROM project_rules WHERE project_id = ?1 ORDER BY priority DESC"), params: vec![SqlParam::Integer(project_id)] };
    assert(r@.1 =~= seq![ParamValue::Integer(project_id)]);
    r
}

/// The statement of `get_all_rules_statement`, as plain values.
pub open spec fn get_all_rules_stmt() -> StatementView {
    ("SELECT id, project_id, expression, priority, created_at FROM project_rules ORDER BY priority DESC"@, Seq::<ParamValue>::empty())
}

/// The statement of `Database::get_all_rules`.
pub fn get_all_rules_statement() -> (r: SqlStatement)
    ensures
        r@ == get_all_rules_stmt(),
{
    let r = SqlStatement { sql: owned("SELECT id, project_id, expression, priority, created_at FROM project_rules ORDER BY priority DESC"), params: Vec::new() };
    assert(r@.1 =~= Seq::<ParamValue>::empty());
    r
}

/// The statement of `get_untagged_activity_statement`, as plain values.
pub open spec fn get_untagged_activity_stmt(limit: i64) -> StatementView {
    ("SELECT * FROM (SELECT 'keystrokes' AS tbl, id, app_name, window_title FROM keystrokes WHERE project_id IS NULL AND app_name != '' LIMIT ?1)
                 UNION ALL
                 SELECT * FROM (SELECT 'window_activity' AS tbl, id, app_name, window_title FROM window_activity WHERE project_id IS NULL AND app_name != '' LIMIT ?1)"@, seq![ParamValue::Integer(limit)])
}

/// The statement of `Database::get_untagged_activity`.
pub fn get_untagged_activity_statement(limit: i64) -> (r: SqlStatement)
    ensures
        r@ == get_untagged_activity_stmt(limit),
{
    let r = SqlStatement { sql: owned("SELECT * FROM (SELECT 'keystrokes' AS tbl, id, app_name, window_title FROM keystrokes WHERE project_id IS NULL AND app_name != '' LIMIT ?1)
                 UNION ALL
                 SELECT * FROM (SELECT 'window_activity' AS tbl, id, app_name, window_title FROM window_activity WHERE project_id IS NULL AND app_name != '' LIMIT ?1)"), params: vec![SqlParam::Integer(limit)] };
    assert(r@.1 =~= seq![ParamValue::Integer(limit)]);
    r
}

/// The statement of `clear_keystroke_tags_statement`, as plain values.
pub open spec fn clear_keystroke_tags_stmt(project_id: i64) -> StatementView {
    ("UPDATE keystrokes SET project_id = NULL WHERE project_id = ?1"@, seq![ParamValue::Integer(project_id)])
}

/// The statement of `Database::clear_project_tags`.
pub fn clear_keystroke_tags_statement(project_id: i64) -> (r: SqlStatement)
    ensures
        r@ == clear_keystroke_tags_stmt(project_id),
{
    let r = SqlStatement { sql: owned("UPDATE keystrokes SET project_id = NULL WHERE project_id = ?1"), params: vec![SqlParam::Integer(project_id)] };
    assert(r@.1 =~= seq![ParamValue::Integer(project_id)]);
    r
}

/// The statement of `clear_window_tags_statement`, as plain values.
pub open spec fn clear_window_tags_stmt(project_id: i64) -> StatementView {
    ("UPDATE window_activity SET project_id = NULL WHERE project_id = ?1"@, seq![ParamValue::Integer(project_id)])
}

/// The statement of `Database::clear_project_tags`.
pub fn clear_window_tags_statement(project_id: i64) -> (r: SqlStatement)
    ensures
        r@ == clear_window_tags_stmt(project_id),
{
    let r = SqlStatement { sql: owned("UPDATE window_activity SET project_id = NULL WHERE project_id = ?1"), params: vec![SqlParam::Integer(project_id)] };
    assert(r@.1 =~= seq![ParamValue::Integer(project_id)]);
    r
}

/// The statement of `get_all_project_summaries_today_statement`, as plain values.
pub open spec fn get_all_project_summaries_today_stmt() -> StatementView {
    ("SELECT p.id, p.name, p.color,
                    COALESCE(k.cnt, 0) as keystroke_count,
                    COALESCE(w.secs, 0) as active_secs
                 FROM projects p
                 LEFT JOIN (
                    SELECT project_id, SUM(LENGTH(chars)) as cnt
                    FROM keystrokes
                    WHERE project_id IS NOT NULL AND created_at >= date('now')
                    GROUP BY project_id
                 ) k ON k.project_id = p.id
                 LEFT JOIN (
                    SELECT project_id, SUM(duration_secs) as secs
                    FROM window_activity
                    WHERE project_id IS NOT NULL AND started_at >= date('now')
                    GROUP BY project_id
                 ) w ON w.project_id = p.id
                 ORDER BY active_secs DESC, keystroke_count DESC"@, Seq::<ParamValue>::empty())
}

/// The statement of `Database::get_all_project_summaries_today`.
pub fn get_all_project_summaries_today_statement() -> (r: SqlStatement)
    ensures
        r@ == get_all_project_summaries_today_stmt(),
{
    let r = SqlStatement { sql: owned("SELECT p.id, p.name, p.color,
                    COALESCE(k.cnt, 0) as keystroke_count,
                    COALESCE(w.secs, 0) as active_secs
                 FROM projects p
                 LEFT JOIN (
                    SELECT project_id, SUM(LENGTH(chars)) as cnt
                    FROM keystrokes
                    WHERE project_id IS NOT NULL AND created_at >= date('now')
                    GROUP BY project_id
                 ) k ON k.project_id = p.id
                 LEFT JOIN (
                    SELECT project_id, SUM(duration_secs) as secs
                    FROM window_activity
                    WHERE project_id IS NOT NULL AND started_at >= date('now')
                    GROUP BY project_id
                 ) w ON w.project_id = p.id
                 ORDER BY active_secs DESC, keystroke_count DESC"), params: Vec::new() };
    assert(r@.1 =~= Seq::<ParamValue>::empty());
    r
}

/// The statement of `get_activity_summary_for_ai_statement`, as plain values.
pub open spec fn get_activity_summary_for_ai_stmt(days: i32) -> StatementView {
    ("SELECT app_name, window_title, SUM(duration_secs) as total
                 FROM window_activity
                 WHERE started_at >= datetime('now', ?1)
                   AND app_name != ''
                 GROUP BY app_name, window_title
                 HAVING total >= 30
                 ORDER BY total DESC
                 LIMIT 100"@, seq![ParamValue::Text(seq!['-'] + decimal(days as int) + " days"@)])
}

/// The statement of `Database::get_activity_summary_for_ai`: the window
/// of the last `days` days is bound as the modifier "-DAYS days".
pub fn get_activity_summary_for_ai_statement(days: i32) -> (r: SqlStatement)
    ensures
        r@ == get_activity_summary_for_ai_stmt(days),
{
    let mut offset: Vec<char> = Vec::new();
    offset.push('-');
    push_i64(&mut offset, days as i64);
    push_str(&mut offset, " days");
    let r = SqlStatement { sql: owned("SELECT app_name, window_title, SUM(duration_secs) as total
                 FROM window_activity
                 WHERE started_at >= datetime('now', ?1)
                   AND app_name != ''
                 GROUP BY app_name, window_title
                 HAVING total >= 30
                 ORDER BY total DESC
                 LIMIT 100"), params: vec![SqlParam::Text(string_of(offset.as_slice()))] };
    assert(r@.1 =~= seq![ParamValue::Text(seq!['-'] + decimal(days as int) + " days"@)]);
    r
}

/// The statement of `get_project_activities_statement`, as plain values.
pub open spec fn get_project_activities_stmt(project_id: i64, limit: i64, offset: i64) -> StatementView {
    ("SELECT id, app_name, window_title, duration_secs, started_at
                 FROM window_activity
                 WHERE project_id = ?1
                 ORDER BY started_at DESC
                 LIMIT ?2 OFFSET ?3"@, seq![ParamValue::Integer(project_id), ParamValue::Integer(limit), ParamValue::Integer(offset)])
}

/// The statement of `Database::get_project_activities`.
pub fn get_project_activities_statement(project_id: i64, limit: i64, offset: i64) -> (r: SqlStatement)
    ensures
        r@ == get_project_activities_stmt(project_id, limit, offset),
{
    let r = SqlStatement { sql: owned("SELECT id, app_name, window_title, duration_secs, started_at
                 FROM window_activity
                 WHERE project_id = ?1
                 ORDER BY started_at DESC
                 LIMIT ?2 OFFSET ?3"), params: vec![SqlParam::Integer(project_id), SqlParam::Integer(limit), SqlParam::Integer(offset)] };
    assert(r@.1 =~= seq![ParamValue::Integer(project_id), ParamValue::Integer(limit), ParamValue::Integer(offset)]);
    r
}

/// The statement of `insert_tip_statement`, as plain values.
pub open spec fn insert_tip_stmt(content: Seq<char>) -> StatementView {
    ("INSERT INTO tips (content) VALUES (?1)"@, seq![ParamValue::Text(content)])
}

/// The statement of `Database::insert_tip`.
pub fn insert_tip_statement(content: &str) -> (r: SqlStatement)
    ensures
        r@ == insert_tip_stmt(content@),
{
    let r = SqlStatement { sql: owned("INSERT INTO tips (content) VALUES (?1)"), params: vec![SqlParam::Text(owned(content))] };
    assert(r@.1 =~= seq![ParamValue::Text(content@)]);
    r
}

/// The statement of `get_recent_tips_statement`, as plain values.
pub open spec fn get_recent_tips_stmt(limit: i64) -> StatementView {
    ("SELECT content, created_at FROM tips ORDER BY id DESC LIMIT ?1"@, seq![ParamValue::Integer(limit)])
}

/// The statement of `Database::get_recent_tips`.
pub fn get_recent_tips_statement(limit: i64) -> (r: SqlStatement)
    ensures
        r@ == get_recent_tips_stmt(limit),
{
    let r = SqlStatement { sql: owned("SELECT content, created_at FROM tips ORDER BY id DESC LIMIT ?1"), params: vec![SqlParam::Integer(limit)] };
    assert(r@.1 =~= seq![ParamValue::Integer(limit)]);
    r
}

/// The statement of `get_total_active_secs_today_statement`, as plain values.
pub open spec fn get_total_active_secs_today_stmt() -> StatementView {
    ("SELECT COALESCE(SUM(duration_secs), 0) FROM window_activity WHERE started_at >= date('now')"@, Seq::<ParamValue>::empty())
}

/// The statement of `Database::get_total_active_secs_today`.
pub fn get_total_active_secs_today_statement() -> (r: SqlStatement)
    ensures
        r@ == get_total_active_secs_today_stmt(),
{
    let r = SqlStatement { sql: owned("SELECT COALESCE(SUM(duration_secs), 0) FROM window_activity WHERE started_at >= date('now')"), params: Vec::new() };
    assert(r@.1 =~= Seq::<ParamValue>::empty());
    r
}

/// The statement of `get_current_app_time_today_statement`, as plain values.
pub open spec fn get_current_app_time_today_stmt(app_name: Seq<char>) -> StatementView {
    ("SELECT COALESCE(SUM(duration_secs), 0) FROM window_activity WHERE started_at >= date('now') AND app_name = ?1"@, seq![ParamValue::Text(app_name)])
}

/// The statement of `Database::get_current_app_time_today`.
pub fn get_current_app_time_today_statement(app_name: &str) -> (r: SqlStatement)
    ensures
        r@ == get_current_app_time_today_stmt(app_name@),
{
    let r = SqlStatement { sql: owned("SELECT COALESCE(SUM(duration_secs), 0) FROM window_activity WHERE started_at >= date('now') AND app_name = ?1"), params: vec![SqlParam::Text(owned(app_name))] };
    assert(r@.1 =~= seq![ParamValue::Text(app_name@)]);
    r
}

/// The statement of `create_note_statement`, as plain values.
pub open spec fn create_note_stmt(title: Seq<char>, content: Seq<char>) -> StatementView {
    ("INSERT INTO notes (title, content) VALUES (?1, ?2)"@, seq![ParamValue::Text(title), ParamValue::Text(content)])
}

/// The statement of `Database::create_note`.
pub fn create_note_statement(title: &str, content: &str) -> (r: SqlStatement)
    ensures
        r@ == create_note_stmt(title@, content@),
{
    let r = SqlStatement { sql: owned("INSERT INTO notes (title, content) VALUES (?1, ?2)"), params: vec![SqlParam::Text(owned(title)), SqlParam::Text(owned(content))] };
    assert(r@.1 =~= seq![ParamValue::Text(title@), ParamValue::Text(content@)]);
    r
}

/// The statement of `get_note_statement`, as plain values.
pub open spec fn get_note_stmt(id: i64) -> StatementView {
    ("SELECT id, title, content, created_at, updated_at FROM notes WHERE id = ?1"@, seq![ParamValue::Integer(id)])
}

/// The statement of `Database::get_note`.
pub fn get_note_statement(id: i64) -> (r: SqlStatement)
    ensures
        r@ == get_note_stmt(id),
{
    let r = SqlStatement { sql: owned("SELECT id, title, content, created_at, updated_at FROM notes WHERE id = ?1"), params: vec![SqlParam::Integer(id)] };
    assert(r@.1 =~= seq![ParamValue::Integer(id)]);
    r
}

/// The statement of `list_notes_statement`, as plain values.
pub open spec fn list_notes_stmt() -> StatementView {
    ("SELECT id, title, content, created_at, updated_at FROM notes ORDER BY updated_at DESC"@, Seq::<ParamValue>::empty())
}

/// The statement of `Database::list_notes`.
pub fn list_notes_statement() -> (r: SqlStatement)
    ensures
        r@ == list_notes_stmt(),
{
    let r = SqlStatement { sql: owned("SELECT id, title, content, created_at, updated_at FROM notes ORDER BY updated_at DESC"), params: Vec::new() };
    assert(r@.1 =~= Seq::<ParamValue>::empty());
    r
}

/// The statement of `update_note_statement`, as plain values.
pub open spec fn update_note_stmt(title: Seq<char>, content: Seq<char>, id: i64) -> StatementView {
    ("UPDATE notes SET title = ?1, content = ?2, updated_at = datetime('now') WHERE id = ?3"@, seq![ParamValue::Text(title), ParamValue::Text(content), ParamValue::Integer(id)])
}

/// The statement of `Database::update_note`.
pub fn update_note_statement(title: &str, content: &str, id: i64) -> (r: SqlStatement)
    ensures
        r@ == update_note_stmt(title@, content@, id),
{
    let r = SqlStatement { sql: owned("UPDATE notes SET title = ?1, content = ?2, updated_at = datetime('now') WHERE id = ?3"), params: vec![SqlParam::Text(owned(title)), SqlParam::Text(owned(content)), SqlParam::Integer(id)] };
    assert(r@.1 =~= seq![ParamValue::Text(title@), ParamValue::Text(content@), ParamValue::Integer(id)]);
    r
}

/// The statement of `delete_note_statement`, as plain values.
pub open spec fn delete_note_stmt(id: i64) -> StatementView {
    ("DELETE FROM notes WHERE id = ?1"@, seq![ParamValue::Integer(id)])
}

/// The statement of `Database::delete_note`.
pub fn delete_note_statement(id: i64) -> (r: SqlStatement)
    ensures
        r@ == delete_note_stmt(id),
{
    let r = SqlStatement { sql: owned("DELETE FROM notes WHERE id = ?1"), params: vec![SqlParam::Integer(id)] };
    assert(r@.1 =~= seq![ParamValue::Integer(id)]);
    r
}

/// The statement of `get_recent_keystrokes_statement`, as plain values.
pub open spec fn get_recent_keystrokes_stmt() -> StatementView {
    ("SELECT app_name, chars FROM keystrokes WHERE app_name != '' ORDER BY id DESC"@, Seq::<ParamValue>::empty())
}

/// The statement of `Database::get_recent_keystrokes`.
pub fn get_recent_keystrokes_statement() -> (r: SqlStatement)
    ensures
        r@ == get_recent_keystrokes_stmt(),
{
    let r = SqlStatement { sql: owned("SELECT app_name, chars FROM keystrokes WHERE app_name != '' ORDER BY id DESC"), params: Vec::new() };
    assert(r@.1 =~= Seq::<ParamValue>::empty());
    r
}

/// The statement of `vscode_titles_statement`, as plain values.
pub open spec fn vscode_titles_stmt() -> StatementView {
    ("SELECT window_title FROM window_activity
                 WHERE app_name LIKE '%Code%' AND window_title LIKE '%Visual Studio Code%'
                 GROUP BY window_title"@, Seq::<ParamValue>::empty())
}

/// The statement of `Database::suggest_projects`.
pub fn vscode_titles_statement() -> (r: SqlStatement)
    ensures
        r@ == vscode_titles_stmt(),
{
    let r = SqlStatement { sql: owned("SELECT window_title FROM window_activity
                 WHERE app_name LIKE '%Code%' AND window_title LIKE '%Visual Studio Code%'
                 GROUP BY window_title"), params: Vec::new() };
    assert(r@.1 =~= Seq::<ParamValue>::empty());
    r
}

/// The statement of `slack_titles_statement`, as plain values.
pub open spec fn slack_titles_stmt() -> StatementView {
    ("SELECT window_title FROM window_activity
                 WHERE LOWER(app_name) LIKE '%slack%'
                 GROUP BY window_title"@, Seq::<ParamValue>::empty())
}

/// The statement of `Database::suggest_projects`.
pub fn slack_titles_statement() -> (r: SqlStatement)
    ensures
        r@ == slack_titles_stmt(),
{
    let r = SqlStatement { sql: owned("SELECT window_title FROM window_activity
                 WHERE LOWER(app_name) LIKE '%slack%'
                 GROUP BY window_title"), params: Vec::new() };
    assert(r@.1 =~= Seq::<ParamValue>::empty());
    r
}

/// The statement of `app_suggestions_statement`, as plain values.
pub open spec fn app_suggestions_stmt() -> StatementView {
    ("SELECT app_name, SUM(duration_secs) as total
                 FROM window_activity
                 WHERE app_name != '' AND started_at >= datetime('now', '-7 days')
                 GROUP BY app_name
                 HAVING total >= 300
                 ORDER BY total DESC
                 LIMIT 20"@, Seq::<ParamValue>::empty())
}

/// The statement of `Database::suggest_projects`.
pub fn app_suggestions_statement() -> (r: SqlStatement)
    ensures
        r@ == app_suggestions_stmt(),
{
    let r = SqlStatement { sql: owned("SELECT app_name, SUM(duration_secs) as total
                 FROM window_activity
                 WHERE app_name != '' AND started_at >= datetime('now', '-7 days')
                 GROUP BY app_name
                 HAVING total >= 300
                 ORDER BY total DESC
                 LIMIT 20"), params: Vec::new() };
    assert(r@.1 =~= Seq::<ParamValue>::empty());
    r
}

/// The statement of `untagged_count_statement`, as plain values.
pub open spec fn untagged_count_stmt() -> StatementView {
    ("SELECT
                    (SELECT COUNT(*) FROM keystrokes WHERE project_id IS NULL AND app_name != '') +
                    (SELECT COUNT(*) FROM window_activity WHERE project_id IS NULL AND app_name != '')"@, Seq::<ParamValue>::empty())
}

/// The statement of `Database::get_untagged_summary`.
pub fn untagged_count_statement() -> (r: SqlStatement)
    ensures
        r@ == untagged_count_stmt(),
{
    let r = SqlStatement { sql: owned("SELECT
                    (SELECT COUNT(*) FROM keystrokes WHERE project_id IS NULL AND app_name != '') +
                    (SELECT COUNT(*) FROM window_activity WHERE project_id IS NULL AND app_name != '')"), params: Vec::new() };
    assert(r@.1 =~= Seq::<ParamValue>::empty());
    r
}

/// The statement of `untagged_by_app_statement`, as plain values.
pub open spec fn untagged_by_app_stmt() -> StatementView {
    ("SELECT app_name,
                        SUM(CASE WHEN tbl = 'keystrokes' THEN cnt ELSE 0 END) as keystroke_rows,
                        SUM(CASE WHEN tbl = 'window_activity' THEN cnt ELSE 0 END) as window_rows,
                        SUM(cnt) as total
                 FROM (
                     SELECT 'keystrokes' AS tbl, app_name, COUNT(*) as cnt
                     FROM keystrokes WHERE project_id IS NULL AND app_name != ''
                     GROUP BY app_name
                     UNION ALL
                     SELECT 'window_activity' AS tbl, app_name, COUNT(*) as cnt
                     FROM window_activity WHERE project_id IS NULL AND app_name != ''
                     GROUP BY app_name
                 )
                 GROUP BY app_name
                 ORDER BY total DESC
                 LIMIT 20"@, Seq::<ParamValue>::empty())
}

/// The statement of `Database::get_untagged_summary`.
pub fn untagged_by_app_statement() -> (r: SqlStatement)
    ensures
        r@ == untagged_by_app_stmt(),
{
    let r = SqlStatement { sql: owned("SELECT app_name,
                        SUM(CASE WHEN tbl = 'keystrokes' THEN cnt ELSE 0 END) as keystroke_rows,
                        SUM(CASE WHEN tbl = 'window_activity' THEN cnt ELSE 0 END) as window_rows,
                        SUM(cnt) as total
                 FROM (
                     SELECT 'keystrokes' AS tbl, app_name, COUNT(*) as cnt
                     FROM keystrokes WHERE project_id IS NULL AND app_name != ''
                     GROUP BY app_name
                     UNION ALL
                     SELECT 'window_activity' AS tbl, app_name, COUNT(*) as cnt
                     FROM window_activity WHERE project_id IS NULL AND app_name != ''
                     GROUP BY app_name
                 )
                 GROUP BY app_name
                 ORDER BY total DESC
                 LIMIT 20"), params: Vec::new() };
    assert(r@.1 =~= Seq::<ParamValue>::empty());
    r
}

/// An optional text as a plain value.
pub open spec fn opt_text(o: Option<&str>) -> Option<Seq<char>> {
    match o {
        Some(t) => Some(t@),
        None => None,
    }
}

/// The statement of `insert_chat_message_statement`, as plain values.
pub open spec fn insert_chat_message_stmt(
    conversation_id: i64,
    parent_id: Option<i64>,
    role: Seq<char>,
    content: Seq<char>,
    model: Option<Seq<char>>,
) -> StatementView {
    ("INSERT INTO chat_messages (conversation_id, parent_id, role, content, model) VALUES (?1, ?2, ?3, ?4, ?5)"@, seq![
        ParamValue::Integer(conversation_id),
        match parent_id {
            Some(p) => ParamValue::Integer(p),
            None => ParamValue::Null,
        },
        ParamValue::Text(role),
        ParamValue::Text(content),
        match model {
            Some(m) => ParamValue::Text(m),
            None => ParamValue::Null,
        },
    ])
}

/// The statement of `Database::insert_chat_message`: an absent parent or
/// model is bound as `NULL`.
pub fn insert_chat_message_statement(
    conversation_id: i64,
    parent_id: Option<i64>,
    role: &str,
    content: &str,
    model: Option<&str>,
) -> (r: SqlStatement)
    ensures
        r@ == insert_chat_message_stmt(conversation_id, parent_id, role@, content@, opt_text(model)),
{
    let parent = match parent_id {
        Some(p) => SqlParam::Integer(p),
        None => SqlParam::Null,
    };
    let model_param = match model {
        Some(m) => SqlParam::Text(owned(m)),
        None => SqlParam::Null,
    };
    let r = SqlStatement {
        sql: owned(
            "INSERT INTO chat_messages (conversation_id, parent_id, role, content, model) VALUES (?1, ?2, ?3, ?4, ?5)",
        ),
        params: vec![
            SqlParam::Integer(conversation_id),
            parent,
            SqlParam::Text(owned(role)),
            SqlParam::Text(owned(content)),
            model_param,
        ],
    };
    assert(r@.1 =~= seq![
        ParamValue::Integer(conversation_id),
        match parent_id {
            Some(p) => ParamValue::Integer(p),
            None => ParamValue::Null,
        },
        ParamValue::Text(role@),
        ParamValue::Text(content@),
        match model {
            Some(m) => ParamValue::Text(m@),
            None => ParamValue::Null,
        },
    ]);
    r
}

/// The statement of `keystroke_count_offset_statement`, as plain values.
pub open spec fn keystroke_count_offset_stmt(offset: Seq<char>) -> StatementView {
    (
        "SELECT COALESCE(SUM(LENGTH(chars)), 0) FROM keystrokes WHERE created_at >= datetime('now', '"@
            + offset + "')"@,
        Seq::<ParamValue>::empty(),
    )
}

/// The statement of `Database::conn_query_keystroke_count_since_raw`: the
/// offset is put into the SQL text as a `datetime('now', …)` modifier.
pub fn keystroke_count_offset_statement(offset: &str) -> (r: SqlStatement)
    ensures
        r@ == keystroke_count_offset_stmt(offset@),
{
    let mut sql: Vec<char> = Vec::new();
    push_str(&mut sql, "SELECT COALESCE(SUM(LENGTH(chars)), 0) FROM keystrokes WHERE created_at >= datetime('now', '");
    push_str(&mut sql, offset);
    push_str(&mut sql, "')");
    let r = SqlStatement { sql: string_of(sql.as_slice()), params: Vec::new() };
    assert(r@.1 =~= Seq::<ParamValue>::empty());
    r
}


/// The insert of a user's message: role "user", no model.
pub fn user_message_statement(conversation_id: i64, parent_id: Option<i64>, content: &str) -> (r:
    SqlStatement)
    ensures
        r@ == insert_chat_message_stmt(conversation_id, parent_id, "user"@, content@, None),
{
    insert_chat_message_statement(conversation_id, parent_id, "user", content, None)
}


/// The insert of an assistant's reply: role "assistant", under
/// `parent_message_id`, with the model that wrote it.
pub fn assistant_reply_statement(
    conversation_id: i64,
    parent_message_id: i64,
    content: &str,
    model: &str,
) -> (r: SqlStatement)
    ensures
        r@ == insert_chat_message_stmt(
            conversation_id,
            Some(parent_message_id),
            "assistant"@,
            content@,
            Some(model@),
        ),
{
    insert_chat_message_statement(conversation_id, Some(parent_message_id), "assistant", content, Some(model))
}

/// The statement of `tag_activity_statement`, as plain values: none for a
/// table that cannot be tagged.
pub open spec fn tag_activity_stmt(table: Seq<char>, project_id: i64, id: i64) -> Option<StatementView> {
    if table == "keystrokes"@ {
        Some((
            "UPDATE keystrokes SET project_id = ?1 WHERE id = ?2"@,
            seq![ParamValue::Integer(project_id), ParamValue::Integer(id)],
        ))
    } else if table == "window_activity"@ {
        Some((
            "UPDATE window_activity SET project_id = ?1 WHERE id = ?2"@,
            seq![ParamValue::Integer(project_id), ParamValue::Integer(id)],
        ))
    } else {
        None
    }
}

/// The statement of `Database::tag_activities` for one tag: the update of
/// the tag's table, for the tables that can be tagged, and nothing for any
/// other table.
pub fn tag_activity_statement(table: &str, project_id: i64, id: i64) -> (r: Option<SqlStatement>)
    ensures
        r matches Some(st) ==> tag_activity_stmt(table@, project_id, id) == Some(st@),
        r is None ==> tag_activity_stmt(table@, project_id, id) is None,
{
    proof {
        reveal_strlit("keystrokes");
        reveal_strlit("window_activity");
        assert("keystrokes"@.len() != "window_activity"@.len());
    }
    if text_eq(table, "keystrokes") {
        let r = SqlStatement {
            sql: owned("UPDATE keystrokes SET project_id = ?1 WHERE id = ?2"),
            params: vec![SqlParam::Integer(project_id), SqlParam::Integer(id)],
        };
        assert(r@.1 =~= seq![ParamValue::Integer(project_id), ParamValue::Integer(id)]);
        Some(r)
    } else if text_eq(table, "window_activity") {
        let r = SqlStatement {
            sql: owned("UPDATE window_activity SET project_id = ?1 WHERE id = ?2"),
            params: vec![SqlParam::Integer(project_id), SqlParam::Integer(id)],
        };
        assert(r@.1 =~= seq![ParamValue::Integer(project_id), ParamValue::Integer(id)]);
        Some(r)
    } else {
        None
    }
}

/// The SQL batch a migration step runs first: for every step but
/// `Migration::Projects` its whole batch, and for that one its tables.
pub open spec fn migration_batch_text(m: Migration) -> Seq<char> {
    match m {
        Migration::Events => "CREATE TABLE IF NOT EXISTS events (
                    id INTEGER PRIMARY KEY AUTOINCREMENT,
                    event_type TEXT NOT NULL,
                    payload TEXT NOT NULL DEFAULT '',
                    created_at TEXT NOT NULL DEFAULT (datetime('now'))
                );
                CREATE INDEX IF NOT EXISTS idx_events_type ON events(event_type);
                CREATE INDEX IF NOT EXISTS idx_events_created ON events(created_at);"@,
        Migration::Conversations => "CREATE TABLE IF NOT EXISTS conversations (
                    id INTEGER PRIMARY KEY AUTOINCREMENT,
                    title TEXT NOT NULL DEFAULT 'New conversation',
                    created_at TEXT NOT NULL DEFAULT (datetime('now')),
                    updated_at TEXT NOT NULL DEFAULT (datetime('now')),
                    active_root_message_id INTEGER
                );

                CREATE TABLE IF NOT EXISTS chat_messages (
                    id INTEGER PRIMARY KEY AUTOINCREMENT,
                    conversation_id INTEGER NOT NULL REFERENCES conversations(id) ON DELETE CASCADE,
                    parent_id INTEGER REFERENCES chat_messages(id) ON DELETE CASCADE,
                    role TEXT NOT NULL,
                    content TEXT NOT NULL DEFAULT '',
                    model TEXT,
                    created_at TEXT NOT NULL DEFAULT (datetime('now')),
                    active_child_id INTEGER REFERENCES chat_messages(id)
                );

                CREATE INDEX IF NOT EXISTS idx_chat_messages_conversation ON chat_messages(conversation_id);
                CREATE INDEX IF NOT EXISTS idx_chat_messages_parent ON chat_messages(parent_id);"@,
        Migration::Tasks => "CREATE TABLE IF NOT EXISTS tasks (
                    id INTEGER PRIMARY KEY AUTOINCREMENT,
                    content TEXT NOT NULL,
                    completed INTEGER NOT NULL DEFAULT 0,
                    archived INTEGER NOT NULL DEFAULT 0,
                    window_title TEXT NOT NULL DEFAULT '',
                    created_at TEXT NOT NULL DEFAULT (datetime('now'))
                );
                CREATE INDEX IF NOT EXISTS idx_tasks_archived ON tasks(archived);"@,
        Migration::TaskCompletedAt => "ALTER TABLE tasks ADD COLUMN completed_at TEXT;"@,
        Migration::Settings => "CREATE TABLE IF NOT EXISTS settings (
                    key TEXT NOT NULL,
                    value TEXT NOT NULL DEFAULT '',
                    component TEXT NOT NULL DEFAULT 'default',
                    PRIMARY KEY (key, component)
                );"@,
        Migration::InputMonitoring => "CREATE TABLE IF NOT EXISTS keystrokes (
                    id INTEGER PRIMARY KEY AUTOINCREMENT,
                    chars TEXT NOT NULL DEFAULT '',
                    window_title TEXT NOT NULL DEFAULT '',
                    created_at TEXT NOT NULL DEFAULT (datetime('now'))
                );
                CREATE INDEX IF NOT EXISTS idx_keystrokes_created ON keystrokes(created_at);

                CREATE TABLE IF NOT EXISTS mouse_distance (
                    id INTEGER PRIMARY KEY AUTOINCREMENT,
                    distance_px REAL NOT NULL DEFAULT 0,
                    created_at TEXT NOT NULL DEFAULT (datetime('now'))
                );
                CREATE INDEX IF NOT EXISTS idx_mouse_distance_created ON mouse_distance(created_at);

                CREATE TABLE IF NOT EXISTS window_activity (
                    id INTEGER PRIMARY KEY AUTOINCREMENT,
                    window_title TEXT NOT NULL DEFAULT '',
                    started_at TEXT NOT NULL DEFAULT (datetime('now')),
                    duration_secs INTEGER NOT NULL DEFAULT 0
                );
                CREATE INDEX IF NOT EXISTS idx_window_activity_started ON window_activity(started_at);"@,
        Migration::AppNames => "ALTER TABLE keystrokes ADD COLUMN app_name TEXT NOT NULL DEFAULT '';
                 ALTER TABLE window_activity ADD COLUMN app_name TEXT NOT NULL DEFAULT '';"@,
        Migration::Projects => "CREATE TABLE IF NOT EXISTS projects (
                    id INTEGER PRIMARY KEY AUTOINCREMENT,
                    name TEXT NOT NULL,
                    description TEXT NOT NULL DEFAULT '',
                    color TEXT NOT NULL DEFAULT '#93bbfc',
                    created_at TEXT NOT NULL DEFAULT (datetime('now'))
                );

                CREATE TABLE IF NOT EXISTS project_rules (
                    id INTEGER PRIMARY KEY AUTOINCREMENT,
                    project_id INTEGER NOT NULL REFERENCES projects(id) ON DELETE CASCADE,
                    expression TEXT NOT NULL,
                    priority INTEGER NOT NULL DEFAULT 0,
                    created_at TEXT NOT NULL DEFAULT (datetime('now'))
                );
                CREATE INDEX IF NOT EXISTS idx_project_rules_project ON project_rules(project_id);"@,
        Migration::Tips => "CREATE TABLE IF NOT EXISTS tips (
                    id INTEGER PRIMARY KEY AUTOINCREMENT,
                    content TEXT NOT NULL,
                    created_at TEXT NOT NULL DEFAULT (datetime('now'))
                );
                CREATE INDEX IF NOT EXISTS idx_tips_created ON tips(created_at);"@,
        Migration::Notes => "CREATE TABLE IF NOT EXISTS notes (
                    id INTEGER PRIMARY KEY AUTOINCREMENT,
                    title TEXT NOT NULL DEFAULT '',
                    content TEXT NOT NULL DEFAULT '',
                    created_at TEXT NOT NULL DEFAULT (datetime('now')),
                    updated_at TEXT NOT NULL DEFAULT (datetime('now'))
                );
                CREATE INDEX IF NOT EXISTS idx_notes_updated ON notes(updated_at);"@,
    }
}

/// The first SQL batch of migration step `m`.
pub fn migration_batch_sql(m: Migration) -> (r: &'static str)
    ensures
        r@ == migration_batch_text(m),
{
    match m {
        Migration::Events => "CREATE TABLE IF NOT EXISTS events (
                    id INTEGER PRIMARY KEY AUTOINCREMENT,
                    event_type TEXT NOT NULL,
                    payload TEXT NOT NULL DEFAULT '',
                    created_at TEXT NOT NULL DEFAULT (datetime('now'))
                );
                CREATE INDEX IF NOT EXISTS idx_events_type ON events(event_type);
                CREATE INDEX IF NOT EXISTS idx_events_created ON events(created_at);",
        Migration::Conversations => "CREATE TABLE IF NOT EXISTS conversations (
                    id INTEGER PRIMARY KEY AUTOINCREMENT,
                    title TEXT NOT NULL DEFAULT 'New conversation',
                    created_at TEXT NOT NULL DEFAULT (datetime('now')),
                    updated_at TEXT NOT NULL DEFAULT (datetime('now')),
                    active_root_message_id INTEGER
                );

                CREATE TABLE IF NOT EXISTS chat_messages (
                    id INTEGER PRIMARY KEY AUTOINCREMENT,
                    conversation_id INTEGER NOT NULL REFERENCES conversations(id) ON DELETE CASCADE,
                    parent_id INTEGER REFERENCES chat_messages(id) ON DELETE CASCADE,
                    role TEXT NOT NULL,
                    content TEXT NOT NULL DEFAULT '',
                    model TEXT,
                    created_at TEXT NOT NULL DEFAULT (datetime('now')),
                    active_child_id INTEGER REFERENCES chat_messages(id)
                );

                CREATE INDEX IF NOT EXISTS idx_chat_messages_conversation ON chat_messages(conversation_id);
                CREATE INDEX IF NOT EXISTS idx_chat_messages_parent ON chat_messages(parent_id);",
        Migration::Tasks => "CREATE TABLE IF NOT EXISTS tasks (
                    id INTEGER PRIMARY KEY AUTOINCREMENT,
                    content TEXT NOT NULL,
                    completed INTEGER NOT NULL DEFAULT 0,
                    archived INTEGER NOT NULL DEFAULT 0,
                    window_title TEXT NOT NULL DEFAULT '',
                    created_at TEXT NOT NULL DEFAULT (datetime('now'))
                );
                CREATE INDEX IF NOT EXISTS idx_tasks_archived ON tasks(archived);",
        Migration::TaskCompletedAt => "ALTER TABLE tasks ADD COLUMN completed_at TEXT;",
        Migration::Settings => "CREATE TABLE IF NOT EXISTS settings (
                    key TEXT NOT NULL,
                    value TEXT NOT NULL DEFAULT '',
                    component TEXT NOT NULL DEFAULT 'default',
                    PRIMARY KEY (key, component)
                );",
        Migration::InputMonitoring => "CREATE TABLE IF NOT EXISTS keystrokes (
                    id INTEGER PRIMARY KEY AUTOINCREMENT,
                    chars TEXT NOT NULL DEFAULT '',
                    window_title TEXT NOT NULL DEFAULT '',
                    created_at TEXT NOT NULL DEFAULT (datetime('now'))
                );
                CREATE INDEX IF NOT EXISTS idx_keystrokes_created ON keystrokes(created_at);

                CREATE TABLE IF NOT EXISTS mouse_distance (
                    id INTEGER PRIMARY KEY AUTOINCREMENT,
                    distance_px REAL NOT NULL DEFAULT 0,
                    created_at TEXT NOT NULL DEFAULT (datetime('now'))
                );
                CREATE INDEX IF NOT EXISTS idx_mouse_distance_created ON mouse_distance(created_at);

                CREATE TABLE IF NOT EXISTS window_activity (
                    id INTEGER PRIMARY KEY AUTOINCREMENT,
                    window_title TEXT NOT NULL DEFAULT '',
                    started_at TEXT NOT NULL DEFAULT (datetime('now')),
                    duration_secs INTEGER NOT NULL DEFAULT 0
                );
                CREATE INDEX IF NOT EXISTS idx_window_activity_started ON window_activity(started_at);",
        Migration::AppNames => "ALTER TABLE keystrokes ADD COLUMN app_name TEXT NOT NULL DEFAULT '';
                 ALTER TABLE window_activity ADD COLUMN app_name TEXT NOT NULL DEFAULT '';",
        Migration::Projects => "CREATE TABLE IF NOT EXISTS projects (
                    id INTEGER PRIMARY KEY AUTOINCREMENT,
                    name TEXT NOT NULL,
                    description TEXT NOT NULL DEFAULT '',
                    color TEXT NOT NULL DEFAULT '#93bbfc',
                    created_at TEXT NOT NULL DEFAULT (datetime('now'))
                );

                CREATE TABLE IF NOT EXISTS project_rules (
                    id INTEGER PRIMARY KEY AUTOINCREMENT,
                    project_id INTEGER NOT NULL REFERENCES projects(id) ON DELETE CASCADE,
                    expression TEXT NOT NULL,
                    priority INTEGER NOT NULL DEFAULT 0,
                    created_at TEXT NOT NULL DEFAULT (datetime('now'))
                );
                CREATE INDEX IF NOT EXISTS idx_project_rules_project ON project_rules(project_id);",
        Migration::Tips => "CREATE TABLE IF NOT EXISTS tips (
                    id INTEGER PRIMARY KEY AUTOINCREMENT,
                    content TEXT NOT NULL,
                    created_at TEXT NOT NULL DEFAULT (datetime('now'))
                );
                CREATE INDEX IF NOT EXISTS idx_tips_created ON tips(created_at);",
        Migration::Notes => "CREATE TABLE IF NOT EXISTS notes (
                    id INTEGER PRIMARY KEY AUTOINCREMENT,
                    title TEXT NOT NULL DEFAULT '',
                    content TEXT NOT NULL DEFAULT '',
                    created_at TEXT NOT NULL DEFAULT (datetime('now')),
                    updated_at TEXT NOT NULL DEFAULT (datetime('now'))
                );
                CREATE INDEX IF NOT EXISTS idx_notes_updated ON notes(updated_at);",
    }
}

/// The column added to `keystrokes` by the projects step where it is missing.
pub open spec fn projects_keystrokes_alter_text() -> Seq<char> {
    "ALTER TABLE keystrokes ADD COLUMN project_id INTEGER REFERENCES projects(id);"@
}

/// The SQL of `projects_keystrokes_alter_text`, to run.
pub fn projects_keystrokes_alter_sql() -> (r: &'static str)
    ensures
        r@ == projects_keystrokes_alter_text(),
{
    "ALTER TABLE keystrokes ADD COLUMN project_id INTEGER REFERENCES projects(id);"
}

/// The column added to `window_activity` by the projects step where it is missing.
pub open spec fn projects_window_alter_text() -> Seq<char> {
    "ALTER TABLE window_activity ADD COLUMN project_id INTEGER REFERENCES projects(id);"@
}

/// The SQL of `projects_window_alter_text`, to run.
pub fn projects_window_alter_sql() -> (r: &'static str)
    ensures
        r@ == projects_window_alter_text(),
{
    "ALTER TABLE window_activity ADD COLUMN project_id INTEGER REFERENCES projects(id);"
}

/// The indexes the projects step creates last.
pub open spec fn projects_indexes_text() -> Seq<char> {
    "CREATE INDEX IF NOT EXISTS idx_keystrokes_project ON keystrokes(project_id);
                 CREATE INDEX IF NOT EXISTS idx_window_activity_project ON window_activity(project_id);"@
}

/// The SQL of `projects_indexes_text`, to run.
pub fn projects_indexes_sql() -> (r: &'static str)
    ensures
        r@ == projects_indexes_text(),
{
    "CREATE INDEX IF NOT EXISTS idx_keystrokes_project ON keystrokes(project_id);
                 CREATE INDEX IF NOT EXISTS idx_window_activity_project ON window_activity(project_id);"
}

/// A project's active seconds today are the total of the durations of
/// today's window-activity rows tagged with it: the summaries query adds up
/// (`SUM`) `duration_secs` over the rows with a project started today,
/// grouped by project, joins each total to its project by id, and reports
/// it as `active_secs`.
pub proof fn lemma_summaries_total_active_time()
    ensures
        contains_text(
            get_all_project_summaries_today_stmt().0,
            "SELECT project_id, SUM(duration_secs) as secs\n                    FROM window_activity\n                    WHERE project_id IS NOT NULL AND started_at >= date('now')\n                    GROUP BY project_id"@,
        ),
        contains_text(get_all_project_summaries_today_stmt().0, ") w ON w.project_id = p.id"@),
        contains_text(
            get_all_project_summaries_today_stmt().0,
            "COALESCE(w.secs, 0) as active_secs"@,
        ),
{
    let s = get_all_project_summaries_today_stmt().0;
    reveal_strlit("SELECT p.id, p.name, p.color,\n                    COALESCE(k.cnt, 0) as keystroke_count,\n                    COALESCE(w.secs, 0) as active_secs\n                 FROM projects p\n                 LEFT JOIN (\n                    SELECT project_id, SUM(LENGTH(chars)) as cnt\n                    FROM keystrokes\n                    WHERE project_id IS NOT NULL AND created_at >= date('now')\n                    GROUP BY project_id\n                 ) k ON k.project_id = p.id\n                 LEFT JOIN (\n                    SELECT project_id, SUM(duration_secs) as secs\n                    FROM window_activity\n                    WHERE project_id IS NOT NULL AND started_at >= date('now')\n                    GROUP BY project_id\n                 ) w ON w.project_id = p.id\n                 ORDER BY active_secs DESC, keystroke_count DESC");
    reveal_strlit("SELECT project_id, SUM(duration_secs) as secs\n                    FROM window_activity\n                    WHERE project_id IS NOT NULL AND started_at >= date('now')\n                    GROUP BY project_id");
    reveal_strlit(") w ON w.project_id = p.id");
    reveal_strlit("COALESCE(w.secs, 0) as active_secs");
    assert(s.subrange(519, 724) =~= "SELECT project_id, SUM(duration_secs) as secs\n                    FROM window_activity\n                    WHERE project_id IS NOT NULL AND started_at >= date('now')\n                    GROUP BY project_id"@);
    assert(matches_at(s, "SELECT project_id, SUM(duration_secs) as secs\n                    FROM window_activity\n                    WHERE project_id IS NOT NULL AND started_at >= date('now')\n                    GROUP BY project_id"@, 519));
    assert(s.subrange(742, 768) =~= ") w ON w.project_id = p.id"@);
    assert(matches_at(s, ") w ON w.project_id = p.id"@, 742));
    assert(s.subrange(109, 143) =~= "COALESCE(w.secs, 0) as active_secs"@);
    assert(matches_at(s, "COALESCE(w.secs, 0) as active_secs"@, 109));
}

/// The Slack query finds the window titles of every app whose name
/// contains "slack" in any case ("Slack", "slack.exe", "SLACK"): it matches
/// the lowercased app name against `%slack%`.
pub proof fn lemma_slack_matched_in_any_case()
    ensures
        contains_text(slack_titles_stmt().0, "WHERE LOWER(app_name) LIKE '%slack%'"@),
{
    reveal_strlit("SELECT window_title FROM window_activity\n                 WHERE LOWER(app_name) LIKE '%slack%'\n                 GROUP BY window_title");
    reveal_strlit("WHERE LOWER(app_name) LIKE '%slack%'");
    assert(slack_titles_stmt().0.subrange(58, 94) =~= "WHERE LOWER(app_name) LIKE '%slack%'"@);
    assert(matches_at(slack_titles_stmt().0, "WHERE LOWER(app_name) LIKE '%slack%'"@, 58));
}

} // verus!
