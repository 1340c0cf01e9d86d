//! The activity database: conversations and messages, tasks, events,
//! settings, input-monitoring rows, projects and their rules, tips and notes.
//!
//! Each method issues its SQL through the connection and reads the reply;
//! what the database holds is outside the proof, so the contracts state what
//! is done with whatever the database returned: which rows become which
//! records, and which message an error carries.
use vstd::prelude::*;
use crate::records::{
    rows_yield, read_rows, ActivitySummaryRow, ActivityTag, ChatMessageRow, Conversation, Event,
    FromRow, I32Cell, IntCell, Note, Project, ProjectActivity, ProjectRule, ProjectSummary, Task,
    TextCell, TextCount, TextPair, UntaggedActivity, UntaggedSummaryRow,
};
use crate::statements::{
    opt_text, migration_batch_sql, migration_batch_text, projects_indexes_sql,
    projects_indexes_text, projects_keystrokes_alter_sql, projects_keystrokes_alter_text,
    projects_window_alter_sql, projects_window_alter_text, tag_activity_statement,
    add_project_rule_statement, app_suggestions_statement, archive_task_statement,
    clear_keystroke_tags_statement, clear_window_tags_statement, create_conversation_statement,
    create_note_statement, create_project_statement, create_task_statement,
    delete_conversation_statement, delete_note_statement, delete_project_rule_statement,
    delete_project_statement, delete_task_statement, get_activity_summary_for_ai_statement,
    get_all_project_summaries_today_statement, get_all_rules_statement,
    get_all_settings_statement, get_chat_message_statement, get_conversation_messages_statement,
    get_conversation_statement, get_current_app_time_today_statement,
    get_keystroke_count_last_minute_statement, get_keystroke_count_since_statement,
    get_note_statement, get_project_activities_statement, get_project_rule_statement,
    get_project_rules_statement, get_project_statement, get_recent_events_statement,
    get_recent_keystrokes_statement, get_recent_tips_statement, get_setting_statement,
    get_task_statement, get_top_windows_today_statement, get_total_active_secs_today_statement,
    get_untagged_activity_statement, insert_chat_message_statement, insert_event_statement,
    insert_keystrokes_statement, insert_tip_statement, insert_window_activity_statement,
    keystroke_count_offset_statement, list_conversations_statement, list_notes_statement,
    list_projects_statement, list_tasks_statement, schema_version_read_statement,
    schema_version_table_statement, schema_version_write_statement, seed_setting_statement,
    set_active_child_statement, set_conversation_active_root_statement, set_setting_statement,
    slack_titles_statement, task_check_statement, task_uncheck_statement,
    touch_conversation_statement, untagged_by_app_statement, untagged_count_statement,
    update_conversation_title_statement, update_message_content_statement,
    update_note_statement, update_project_statement, vscode_titles_statement,
    schema_version_table_stmt, schema_version_read_stmt, schema_version_write_stmt,
    create_conversation_stmt, list_conversations_stmt, get_conversation_stmt,
    delete_conversation_stmt, update_conversation_title_stmt, set_conversation_active_root_stmt,
    touch_conversation_stmt, get_chat_message_stmt, get_conversation_messages_stmt,
    set_active_child_stmt, update_message_content_stmt, insert_event_stmt,
    get_recent_events_stmt, create_task_stmt, get_task_stmt, list_tasks_stmt, task_check_stmt,
    task_uncheck_stmt, archive_task_stmt, delete_task_stmt, get_setting_stmt,
    get_all_settings_stmt, set_setting_stmt, seed_setting_stmt, insert_keystrokes_stmt,
    insert_window_activity_stmt, get_keystroke_count_since_stmt,
    get_keystroke_count_last_minute_stmt, get_top_windows_today_stmt, create_project_stmt,
    get_project_stmt, update_project_stmt, delete_project_stmt, list_projects_stmt,
    add_project_rule_stmt, get_project_rule_stmt, delete_project_rule_stmt,
    get_project_rules_stmt, get_all_rules_stmt, get_untagged_activity_stmt,
    clear_keystroke_tags_stmt, clear_window_tags_stmt, get_all_project_summaries_today_stmt,
    get_activity_summary_for_ai_stmt, get_project_activities_stmt, insert_tip_stmt,
    get_recent_tips_stmt, get_total_active_secs_today_stmt, get_current_app_time_today_stmt,
    create_note_stmt, get_note_stmt, list_notes_stmt, update_note_stmt, delete_note_stmt,
    get_recent_keystrokes_stmt, vscode_titles_stmt, slack_titles_stmt, app_suggestions_stmt,
    untagged_count_stmt, untagged_by_app_stmt, insert_chat_message_stmt,
    keystroke_count_offset_stmt, tag_activity_stmt,
};
use crate::sql::{SqlStatement, StatementView, ParamValue, 
    begin_transaction, commit, error_text, execute, execute_batch, has_prefix, last_insert_rowid,
    open_connection, prepare, query_cells, no_rows_text, text_at, transaction_connection, SqlParam,
    Cell, ColumnKind,
};
use crate::text::{chars_of, owned, push_i64, push_str, string_of, text_eq};
use crate::insights::{keystroke_summary, keystroke_summary_spec, pairs_of, recent_window, recent_window_spec};
use crate::suggest::{strings_view, suggestions_from_activity, suggestions_spec, suggestions_view};
use crate::context::{chat_context_spec, chat_context_text};
use crate::records::ProjectSuggestion;

verus! {

/// The schema version that `run_migrations` brings a database to.
pub const CURRENT_VERSION: i32 = 11;

/// `e` is the message of a failure in the step described by `ctx`: it reads
/// `"<ctx>: <detail>"`.
pub open spec fn reported(e: Seq<char>, ctx: Seq<char>) -> bool {
    has_prefix(e, ctx + seq![':', ' '])
}

/// A failure in one of the three steps of a query: preparing it, running it,
/// or reading its rows.
pub open spec fn fetch_failure(e: Seq<char>, p: Seq<char>, q: Seq<char>, r: Seq<char>) -> bool {
    reported(e, p) || reported(e, q) || reported(e, r)
}

/// Some result rows yield exactly these records, in this order.
pub open spec fn some_rows_yield<T: FromRow>(xs: Seq<T>) -> bool {
    exists|rows: Seq<Vec<Cell>>| rows_yield(rows, xs)
}

/// Some result row yields this record.
pub open spec fn some_row_yields<T: FromRow>(x: T) -> bool {
    exists|row: Seq<Cell>| T::row_yields(row, x)
}

/// A batch of statements without parameters, as run by `execute_batch`.
pub open spec fn batch_stmt(sql: Seq<char>) -> StatementView {
    (sql, Seq::<ParamValue>::empty())
}

/// The failures `suggest_projects` can report: one of its four queries.
pub open spec fn suggestion_failure(e: Seq<char>) -> bool {
    ||| fetch_failure(
        e,
        "Failed to prepare list_projects"@,
        "Failed to query projects"@,
        "Failed to read project row"@,
    )
    ||| fetch_failure(
        e,
        "Failed to prepare VS Code suggestion query"@,
        "Failed to query VS Code titles"@,
        "Failed to read VS Code title"@,
    )
    ||| fetch_failure(
        e,
        "Failed to prepare Slack suggestion query"@,
        "Failed to query Slack titles"@,
        "Failed to read Slack title"@,
    )
    ||| fetch_failure(
        e,
        "Failed to prepare app suggestion query"@,
        "Failed to query app suggestions"@,
        "Failed to read app suggestion"@,
    )
}

/// `"<ctx>: <detail>"`.
pub fn failure(ctx: &str, detail: &str) -> (r: String)
    ensures
        r@ == ctx@ + seq![':', ' '] + detail@,
        reported(r@, ctx@),
{
    let mut v = chars_of(ctx);
    v.push(':');
    v.push(' ');
    push_str(&mut v, detail);
    let ghost head = ctx@ + seq![':', ' '];
    assert(v@ =~= head + detail@);
    assert(v@.subrange(0, head.len() as int) =~= head);
    string_of(v.as_slice())
}

fn sql_failure(ctx: &str, e: &rusqlite::Error) -> (r: String)
    ensures
        reported(r@, ctx@),
{
    let d = error_text(e);
    failure(ctx, d.as_str())
}

/// The kind of schema change a migration step makes, in the order they are applied.
#[derive(PartialEq, Eq, Structural, Clone, Copy)]
pub enum Migration {
    Events,
    Conversations,
    Tasks,
    TaskCompletedAt,
    Settings,
    InputMonitoring,
    AppNames,
    Projects,
    Tips,
    Notes,
}

/// The schema version below which a migration still has to run.
pub open spec fn migration_threshold(m: Migration) -> int {
    match m {
        Migration::Events => 1,
        Migration::Conversations => 2,
        Migration::Tasks => 3,
        Migration::TaskCompletedAt => 4,
        Migration::Settings => 5,
        Migration::InputMonitoring => 6,
        Migration::AppNames => 7,
        Migration::Projects => 9,
        Migration::Tips => 10,
        Migration::Notes => 11,
    }
}

/// All migrations, in the order they are applied.
pub open spec fn all_migrations() -> Seq<Migration> {
    seq![
        Migration::Events,
        Migration::Conversations,
        Migration::Tasks,
        Migration::TaskCompletedAt,
        Migration::Settings,
        Migration::InputMonitoring,
        Migration::AppNames,
        Migration::Projects,
        Migration::Tips,
        Migration::Notes,
    ]
}

/// The migrations a database at schema `version` still needs, in order.
pub open spec fn pending_spec(version: int) -> Seq<Migration> {
    all_migrations().filter(|m: Migration| version < migration_threshold(m))
}

/// An optional text as a plain value.
pub open spec fn opt_string_view(o: Option<String>) -> Option<Seq<char>> {
    match o {
        Some(t) => Some(t@),
        None => None,
    }
}

/// The queries the chat context is built from, in order.
pub open spec fn chat_context_stmts() -> Seq<StatementView> {
    seq![
        get_all_project_summaries_today_stmt(),
        list_projects_stmt(),
        get_all_rules_stmt(),
        untagged_count_stmt(),
        untagged_by_app_stmt(),
        get_top_windows_today_stmt(),
    ]
}

/// The pragmas set on every connection: write-ahead logging and foreign keys.
pub open spec fn pragmas_stmt() -> StatementView {
    batch_stmt("PRAGMA journal_mode=WAL; PRAGMA foreign_keys=ON;"@)
}

/// What migration step `m` runs, in order. For the projects step, `probe`
/// tells whether the `project_id` column was missing from `keystrokes` and
/// from `window_activity`: each is added only where it was missing.
pub open spec fn migration_ran(m: Migration, probe: (bool, bool)) -> Seq<StatementView> {
    match m {
        Migration::Projects => seq![batch_stmt(migration_batch_text(m))] + (if probe.0 {
            seq![batch_stmt(projects_keystrokes_alter_text())]
        } else {
            seq![]
        }) + (if probe.1 {
            seq![batch_stmt(projects_window_alter_text())]
        } else {
            seq![]
        }) + seq![batch_stmt(projects_indexes_text())],
        _ => seq![batch_stmt(migration_batch_text(m))],
    }
}

/// What the steps `ms` run, one after another, each with its probe.
pub open spec fn migrations_ran(ms: Seq<Migration>, probes: Seq<(bool, bool)>) -> Seq<StatementView>
    decreases ms.len(),
{
    if ms.len() == 0 || probes.len() == 0 {
        seq![]
    } else {
        migrations_ran(ms.drop_last(), probes.drop_last()) + migration_ran(ms.last(), probes.last())
    }
}

/// What bringing a database at schema `version` up to date runs: the
/// creation of the version table, the read of the version, the steps that
/// `version` still needs in order, and the write of `CURRENT_VERSION` where
/// `version` was older.
pub open spec fn migration_run(version: int, probes: Seq<(bool, bool)>) -> Seq<StatementView> {
    seq![schema_version_table_stmt(), schema_version_read_stmt()] + migrations_ran(
        pending_spec(version),
        probes,
    ) + if version < CURRENT_VERSION {
        seq![schema_version_write_stmt()]
    } else {
        seq![]
    }
}

proof fn lemma_filter_suffix(s: Seq<Migration>, version: int)
    requires
        forall|i: int, j: int|
            0 <= i < j < s.len() ==> migration_threshold(#[trigger] s[i]) <= migration_threshold(
                #[trigger] s[j],
            ),
    ensures
        exists|j: int|
            0 <= j <= s.len() && s.filter(|m: Migration| version < migration_threshold(m)) == s.skip(j),
    decreases s.len(),
{
    let p = |m: Migration| version < migration_threshold(m);
    if s.len() == 0 {
        assert(s.filter(p) == s.skip(0));
    } else {
        let prev = s.drop_last();
        lemma_filter_suffix(prev, version);
        let j = choose|j: int| 0 <= j <= prev.len() && prev.filter(p) == prev.skip(j);
        reveal_with_fuel(Seq::filter, 1);
        if p(s.last()) {
            assert(s.filter(p) =~= s.skip(j));
        } else {
            if j < prev.len() {
                prev.filter_lemma(p);
                assert(prev.filter(p)[0] == prev[j]);
                assert(p(prev.filter(p)[0]));
                assert(migration_threshold(s[j]) <= migration_threshold(s[s.len() - 1]));
                assert(false);
            }
            assert(s.filter(p) =~= s.skip(s.len() as int));
        }
    }
}

/// A new database needs all migrations, in order; one at `CURRENT_VERSION`
/// or later needs none; and what any database still needs is always the
/// last steps of the sequence, so they run in order and none is skipped.
pub proof fn lemma_pending(version: int)
    ensures
        version < 1 ==> pending_spec(version) == all_migrations(),
        version >= CURRENT_VERSION ==> pending_spec(version).len() == 0,
        exists|j: int|
            0 <= j <= all_migrations().len() && pending_spec(version) == all_migrations().skip(j),
{
    let s = all_migrations();
    assert forall|i: int, j: int| 0 <= i < j < s.len() implies migration_threshold(#[trigger] s[i])
        <= migration_threshold(#[trigger] s[j]) by {
        assert(migration_threshold(s[i]) == if i < 7 { i + 1 } else { i + 2 });
        assert(migration_threshold(s[j]) == if j < 7 { j + 1 } else { j + 2 });
    }
    lemma_filter_suffix(s, version);
    reveal_with_fuel(Seq::filter, 11);
    if version < 1 {
        assert(pending_spec(version) =~= s);
    }
    if version >= CURRENT_VERSION {
        assert(pending_spec(version) =~= seq![]);
    }
}

/// Bringing a schema that is already at `CURRENT_VERSION` up to date runs
/// no migration step and writes no version: only the creation of the
/// version table (a no-op when it exists) and the read of the version. A
/// new database (version 0) runs every step in order, then writes the
/// version.
#[verifier::spinoff_prover]
pub proof fn lemma_migration_run(version: int, probes: Seq<(bool, bool)>)
    requires
        probes.len() == pending_spec(version).len(),
    ensures
        version >= CURRENT_VERSION ==> migration_run(version, probes) == seq![
            schema_version_table_stmt(),
            schema_version_read_stmt(),
        ],
        version < 1 ==> migration_run(version, probes) == seq![
            schema_version_table_stmt(),
            schema_version_read_stmt(),
        ] + migrations_ran(all_migrations(), probes) + seq![schema_version_write_stmt()],
{
    lemma_pending(version);
    let head = seq![schema_version_table_stmt(), schema_version_read_stmt()];
    if version >= CURRENT_VERSION {
        assert(pending_spec(version).len() == 0);
        assert(migrations_ran(pending_spec(version), probes) =~= Seq::<StatementView>::empty());
        assert(migration_run(version, probes) =~= head);
    } else if version < 1 {
        assert(pending_spec(version) == all_migrations());
    }
}

/// The migrations a database at schema `version` still needs, in order of application.
pub fn pending_migrations(version: i32) -> (r: Vec<Migration>)
    ensures
        r@ == pending_spec(version as int),
{
    let all = vec![
        Migration::Events,
        Migration::Conversations,
        Migration::Tasks,
        Migration::TaskCompletedAt,
        Migration::Settings,
        Migration::InputMonitoring,
        Migration::AppNames,
        Migration::Projects,
        Migration::Tips,
        Migration::Notes,
    ];
    assert(all@ == all_migrations());
    let mut out: Vec<Migration> = Vec::new();
    let mut i: usize = 0;
    while i < all.len()
        invariant
            all@ == all_migrations(),
            i <= all@.len(),
            out@ == all@.subrange(0, i as int).filter(
                |m: Migration| version < migration_threshold(m),
            ),
        decreases all@.len() - i,
    {
        let m = all[i];
        let t: i32 = match m {
            Migration::Events => 1,
            Migration::Conversations => 2,
            Migration::Tasks => 3,
            Migration::TaskCompletedAt => 4,
            Migration::Settings => 5,
            Migration::InputMonitoring => 6,
            Migration::AppNames => 7,
            Migration::Projects => 9,
            Migration::Tips => 10,
            Migration::Notes => 11,
        };
        if version < t {
            out.push(m);
        }
        proof {
            let p = |m: Migration| version < migration_threshold(m);
            assert(all@.subrange(0, i + 1 as int).drop_last() =~= all@.subrange(0, i as int));
            reveal_with_fuel(Seq::filter, 1);
        }
        i = i + 1;
    }
    assert(all@.subrange(0, i as int) =~= all@);
    out
}

/// The updates that tagging runs, one per tag and in order (each tag's
/// table being one that can be tagged).
pub open spec fn tag_stmts(tags: Seq<ActivityTag>) -> Seq<StatementView> {
    Seq::new(tags.len(), |i: int| tag_activity_stmt(tags[i].table@, tags[i].project_id, tags[i].id)->0)
}

/// The seeding of `pairs` into the `default` component, in order.
pub open spec fn seed_stmts(pairs: Seq<(Seq<char>, Seq<char>)>) -> Seq<StatementView> {
    Seq::new(pairs.len(), |i: int| seed_setting_stmt(pairs[i].0, pairs[i].1, "default"@))
}

/// The ten settings seeded on first start, as (key, value) pairs in the
/// order they are written: the legacy configuration values where present,
/// and the defaults otherwise.
pub open spec fn default_settings_spec(
    hotkey: Option<Seq<char>>,
    ai_provider: Option<Seq<char>>,
    ai_api_key: Option<Seq<char>>,
    ai_base_url: Option<Seq<char>>,
    delay_text: Seq<char>,
) -> Seq<(Seq<char>, Seq<char>)> {
    seq![
        ("hotkey"@, hotkey.unwrap_or("Ctrl+Shift+Space"@)),
        ("ai_provider"@, ai_provider.unwrap_or(""@)),
        ("ai_api_key"@, ai_api_key.unwrap_or(""@)),
        ("ai_base_url"@, ai_base_url.unwrap_or("https://openrouter.ai/api/v1"@)),
        ("ai_default_model"@, "openai/gpt-4o-mini"@),
        ("task_archive_delay_secs"@, delay_text),
        ("overlay_opacity"@, "0.95"@),
        ("tab_icon_size"@, "16"@),
        ("ai_system_prompt"@, "You are a helpful assistant."@),
        ("screen_size_inches"@, "24"@),
    ]
}

pub open spec fn opt_str_view(o: Option<&str>) -> Option<Seq<char>> {
    match o {
        Some(s) => Some(s@),
        None => None,
    }
}

pub open spec fn pairs_view(v: Seq<(String, String)>) -> Seq<(Seq<char>, Seq<char>)> {
    v.map_values(|p: (String, String)| (p.0@, p.1@))
}

fn pair(k: &str, v: &str) -> (r: (String, String))
    ensures
        r.0@ == k@,
        r.1@ == v@,
{
    (owned(k), owned(v))
}

fn or_default<'a>(o: Option<&'a str>, d: &'a str) -> (r: &'a str)
    ensures
        r@ == opt_str_view(o).unwrap_or(d@),
{
    match o {
        Some(s) => s,
        None => d,
    }
}

/// The settings seeded on first start (see `default_settings_spec`); the
/// archive delay defaults to 5 seconds.
pub fn default_settings(
    hotkey: Option<&str>,
    ai_provider: Option<&str>,
    ai_api_key: Option<&str>,
    ai_base_url: Option<&str>,
    task_archive_delay_secs: Option<u32>,
) -> (r: Vec<(String, String)>)
    ensures
        pairs_view(r@) == default_settings_spec(
            opt_str_view(hotkey),
            opt_str_view(ai_provider),
            opt_str_view(ai_api_key),
            opt_str_view(ai_base_url),
            crate::text::decimal(task_archive_delay_secs.unwrap_or(5) as int),
        ),
{
    let delay: u32 = match task_archive_delay_secs {
        Some(d) => d,
        None => 5,
    };
    let mut dv: Vec<char> = Vec::new();
    push_i64(&mut dv, delay as i64);
    let delay_text = string_of(dv.as_slice());
    let mut r: Vec<(String, String)> = Vec::new();
    r.push(pair("hotkey", or_default(hotkey, "Ctrl+Shift+Space")));
    r.push(pair("ai_provider", or_default(ai_provider, "")));
    r.push(pair("ai_api_key", or_default(ai_api_key, "")));
    r.push(pair("ai_base_url", or_default(ai_base_url, "https://openrouter.ai/api/v1")));
    r.push(pair("ai_default_model", "openai/gpt-4o-mini"));
    r.push((owned("task_archive_delay_secs"), delay_text));
    r.push(pair("overlay_opacity", "0.95"));
    r.push(pair("tab_icon_size", "16"));
    r.push(pair("ai_system_prompt", "You are a helpful assistant."));
    r.push(pair("screen_size_inches", "24"));
    assert(pairs_view(r@) =~= default_settings_spec(
        opt_str_view(hotkey),
        opt_str_view(ai_provider),
        opt_str_view(ai_api_key),
        opt_str_view(ai_base_url),
        crate::text::decimal(task_archive_delay_secs.unwrap_or(5) as int),
    ));
    r
}

/// The activity database.
pub struct Database {
    conn: rusqlite::Connection,
    /// The statements run on `conn` by these methods that succeeded, in order.
    ran: Ghost<Seq<StatementView>>,
    /// The settings reads that succeeded, in order: key, component, and
    /// the value found (none where the key is not stored).
    seen: Ghost<Seq<(Seq<char>, Seq<char>, Option<Seq<char>>)>>,
    /// The listings of a component's settings that succeeded, in order:
    /// the component and the (key, value) pairs found.
    listed: Ghost<Seq<(Seq<char>, Seq<(Seq<char>, Seq<char>)>)>>,
}

impl Database {
    /// Opens the database at `db_path` (`":memory:"` for a private in-memory
    /// one), turns on write-ahead logging and foreign keys, and brings the
    /// schema up to `CURRENT_VERSION`. The directory holding the file must
    /// exist.
    pub fn initialize(db_path: &str) -> (r: Result<Self, String>)
        ensures
            r matches Err(e) ==> reported(e@, "Failed to open database"@) || reported(
                e@,
                "Failed to set pragmas"@,
            ) || migration_failure(e@),
            r matches Ok(db) ==> exists|v: int, probes: Seq<(bool, bool)>|
                #![trigger migration_run(v, probes)]
                probes.len() == pending_spec(v).len() && db.ran() == seq![pragmas_stmt()]
                    + migration_run(v, probes),
    {
        let conn = match open_connection(db_path) {
            Ok(c) => c,
            Err(e) => {
                return Err(sql_failure("Failed to open database", &e));
            },
        };
        if let Err(e) = execute_batch(&conn, "PRAGMA journal_mode=WAL; PRAGMA foreign_keys=ON;") {
            return Err(sql_failure("Failed to set pragmas", &e));
        }
        let mut db = Database {
            conn,
            ran: Ghost(Seq::empty().push(pragmas_stmt())),
            seen: Ghost(Seq::empty()),
            listed: Ghost(Seq::empty()),
        };
        db.run_migrations()?;
        Ok(db)
    }

    /// The underlying connection, for callers that read or write the
    /// floating-point columns.
    pub fn connection(&self) -> (r: &rusqlite::Connection)
        ensures
            *r == self.opened_connection(),
    {
        &self.conn
    }

    /// The statements run on this database by its methods that succeeded,
    /// in order (what a caller runs on `connection()` is not among them): the
    /// SQL text and the parameters handed to SQLite.
    pub closed spec fn ran(&self) -> Seq<StatementView> {
        self.ran@
    }

    /// The settings reads on this database that succeeded, in order: the
    /// key, the component, and the value found (none where the key is not
    /// stored).
    pub closed spec fn setting_reads(&self) -> Seq<(Seq<char>, Seq<char>, Option<Seq<char>>)> {
        self.seen@
    }

    /// The listings of a component's settings on this database that
    /// succeeded, in order: the component and the (key, value) pairs found.
    pub closed spec fn settings_listed(&self) -> Seq<(Seq<char>, Seq<(Seq<char>, Seq<char>)>)> {
        self.listed@
    }

    /// The connection the database was opened with.
    pub closed spec fn opened_connection(&self) -> rusqlite::Connection {
        self.conn
    }

    fn run(&mut self, st: &SqlStatement, ctx: &str) -> (r: Result<(), String>)
        ensures
            r matches Err(e) ==> reported(e@, ctx@),
            r is Ok ==> final(self).ran() == old(self).ran().push(st@),
            r is Err ==> final(self).ran() == old(self).ran(),
            r is Err ==> final(self).ran() == old(self).ran(),
            final(self).setting_reads() == old(self).setting_reads(),
            final(self).settings_listed() == old(self).settings_listed(),
    {
        match execute(&self.conn, st.sql.as_str(), st.params.as_slice()) {
            Ok(_) => {
                proof {
                    self.ran@ = self.ran@.push(st@);
                }
                Ok(())
            },
            Err(e) => Err(sql_failure(ctx, &e)),
        }
    }

    fn run_batch(&mut self, sql: &str, ctx: &str) -> (r: Result<(), String>)
        ensures
            r matches Err(e) ==> reported(e@, ctx@),
            r is Ok ==> final(self).ran() == old(self).ran().push(batch_stmt(sql@)),
            r is Err ==> final(self).ran() == old(self).ran(),
            r is Err ==> final(self).ran() == old(self).ran(),
            final(self).setting_reads() == old(self).setting_reads(),
            final(self).settings_listed() == old(self).settings_listed(),
    {
        match execute_batch(&self.conn, sql) {
            Ok(_) => {
                proof {
                    self.ran@ = self.ran@.push(batch_stmt(sql@));
                }
                Ok(())
            },
            Err(e) => Err(sql_failure(ctx, &e)),
        }
    }

    /// All rows of a query, read as records.
    fn fetch_all<T: FromRow>(
        &mut self,
        st: &SqlStatement,
        prepare_ctx: &str,
        query_ctx: &str,
        read_ctx: &str,
    ) -> (r: Result<Vec<T>, String>)
        ensures
            r matches Ok(xs) ==> some_rows_yield(xs@),
            r matches Err(e) ==> reported(e@, prepare_ctx@) || reported(e@, query_ctx@) || reported(
                e@,
                read_ctx@,
            ),
            r is Ok ==> final(self).ran() == old(self).ran().push(st@),
            r is Err ==> final(self).ran() == old(self).ran(),
            r is Err ==> final(self).ran() == old(self).ran(),
            final(self).setting_reads() == old(self).setting_reads(),
            final(self).settings_listed() == old(self).settings_listed(),
    {
        let mut stmt = match prepare(&self.conn, st.sql.as_str()) {
            Ok(s) => s,
            Err(e) => {
                return Err(sql_failure(prepare_ctx, &e));
            },
        };
        let kinds = T::kinds();
        let rows = match query_cells(&mut stmt, st.params.as_slice(), kinds.as_slice()) {
            Ok(rows) => rows,
            Err(e) => {
                return Err(sql_failure(query_ctx, &e));
            },
        };
        match read_rows::<T>(&rows) {
            Ok(xs) => {
                proof {
                    self.ran@ = self.ran@.push(st@);
                }
                Ok(xs)
            },
            Err(e) => Err(sql_failure(read_ctx, e)),
        }
    }

    /// The first row of a query, read as a record (`Connection::query_row`):
    /// no row is the failure "Query returned no rows".
    fn fetch_one<T: FromRow>(&mut self, st: &SqlStatement, ctx: &str) -> (r: Result<
        T,
        String,
    >)
        ensures
            r matches Ok(x) ==> some_row_yields(x),
            r matches Err(e) ==> reported(e@, ctx@),
            r is Ok ==> final(self).ran() == old(self).ran().push(st@),
            r is Err ==> final(self).ran() == old(self).ran(),
            r is Err ==> final(self).ran() == old(self).ran(),
            final(self).setting_reads() == old(self).setting_reads(),
            final(self).settings_listed() == old(self).settings_listed(),
    {
        let mut stmt = match prepare(&self.conn, st.sql.as_str()) {
            Ok(s) => s,
            Err(e) => {
                return Err(sql_failure(ctx, &e));
            },
        };
        let kinds = T::kinds();
        let rows = match query_cells(&mut stmt, st.params.as_slice(), kinds.as_slice()) {
            Ok(rows) => rows,
            Err(e) => {
                return Err(sql_failure(ctx, &e));
            },
        };
        if rows.len() == 0 {
            let d = no_rows_text();
            return Err(failure(ctx, d.as_str()));
        }
        match &rows[0] {
            Ok(row) => {
                let x = T::from_row(row);
                proof {
                    self.ran@ = self.ran@.push(st@);
                }
                Ok(x)
            },
            Err(e) => Err(sql_failure(ctx, e)),
        }
    }

    /// The first row of a query, if there is one.
    fn fetch_optional<T: FromRow>(&mut self, st: &SqlStatement, ctx: &str) -> (r: Result<
        Option<T>,
        String,
    >)
        ensures
            r matches Ok(Some(x)) ==> some_row_yields(x),
            r matches Err(e) ==> reported(e@, ctx@),
            r is Ok ==> final(self).ran() == old(self).ran().push(st@),
            r is Err ==> final(self).ran() == old(self).ran(),
            r is Err ==> final(self).ran() == old(self).ran(),
            final(self).setting_reads() == old(self).setting_reads(),
            final(self).settings_listed() == old(self).settings_listed(),
    {
        let mut stmt = match prepare(&self.conn, st.sql.as_str()) {
            Ok(s) => s,
            Err(e) => {
                return Err(sql_failure(ctx, &e));
            },
        };
        let kinds = T::kinds();
        let rows = match query_cells(&mut stmt, st.params.as_slice(), kinds.as_slice()) {
            Ok(rows) => rows,
            Err(e) => {
                return Err(sql_failure(ctx, &e));
            },
        };
        if rows.len() == 0 {
            proof {
                self.ran@ = self.ran@.push(st@);
            }
            return Ok(None);
        }
        match &rows[0] {
            Ok(row) => {
                let x = T::from_row(row);
                proof {
                    self.ran@ = self.ran@.push(st@);
                }
                Ok(Some(x))
            },
            Err(e) => Err(sql_failure(ctx, e)),
        }
    }

    // --- Migrations ---
    /// Brings the schema up to `CURRENT_VERSION`: creates the version table,
    /// reads the version `v`, runs the steps that `v` still needs, in order,
    /// and records the new version where `v` was older.
    fn run_migrations(&mut self) -> (r: Result<(), String>)
        ensures
            r matches Err(e) ==> migration_failure(e@),
            r is Ok ==> exists|v: int, probes: Seq<(bool, bool)>|
                #![trigger migration_run(v, probes)]
                probes.len() == pending_spec(v).len() && final(self).ran() == old(self).ran()
                    + migration_run(v, probes),
            final(self).setting_reads() == old(self).setting_reads(),
            final(self).settings_listed() == old(self).settings_listed(),
    {
        let ghost start = self.ran();
        self.run(&schema_version_table_statement(),
            "Failed to create schema_version table")?;
        let v: I32Cell = self.fetch_one(
            &schema_version_read_statement(),
            "Failed to read schema version",
        )?;
        let version: i32 = v.0;
        let ghost head = start + seq![schema_version_table_stmt(), schema_version_read_stmt()];
        assert(self.ran() =~= head);
        let pending = pending_migrations(version);
        let ghost mut probes: Seq<(bool, bool)> = Seq::empty();
        let mut i: usize = 0;
        while i < pending.len()
            invariant
                i <= pending@.len(),
                probes.len() == i,
                self.ran() == head + migrations_ran(pending@.take(i as int), probes),
                self.setting_reads() == old(self).setting_reads(),
                self.settings_listed() == old(self).settings_listed(),
            decreases pending@.len() - i,
        {
            let ghost before = self.ran();
            let probe = self.apply_migration(pending[i])?;
            proof {
                let p = probe@;
                assert(pending@.take(i + 1 as int).drop_last() =~= pending@.take(i as int));
                assert(probes.push(p).drop_last() =~= probes);
                assert(migrations_ran(pending@.take(i + 1 as int), probes.push(p))
                    == migrations_ran(pending@.take(i as int), probes) + migration_ran(pending@[i as int], p));
                assert(self.ran() =~= head + migrations_ran(pending@.take(i + 1 as int), probes.push(p)));
                probes = probes.push(p);
            }
            i = i + 1;
        }
        assert(pending@.take(i as int) =~= pending@);
        if version < CURRENT_VERSION {
            self.run(
                &schema_version_write_statement(),
                "Failed to update schema version",
            )?;
        }
        assert(self.ran() =~= start + migration_run(version as int, probes));
        Ok(())
    }

    /// Runs one migration step; for the projects step the result tells
    /// whether each `project_id` column was missing and added.
    fn apply_migration(&mut self, m: Migration) -> (r: Result<Ghost<(bool, bool)>, String>)
        ensures
            r matches Err(e) ==> migration_failure(e@),
            r matches Ok(p) ==> final(self).ran() == old(self).ran() + migration_ran(m, p@),
            final(self).setting_reads() == old(self).setting_reads(),
            final(self).settings_listed() == old(self).settings_listed(),
    {
        let ctx = match m {
            Migration::Events => "Migration v1 failed",
            Migration::Conversations => "Migration v2 failed",
            Migration::Tasks => "Migration v3 failed",
            Migration::TaskCompletedAt => "Migration v4 failed",
            Migration::Settings => "Migration v5 failed",
            Migration::InputMonitoring => "Migration v6 failed",
            Migration::AppNames => "Migration v7 failed",
            Migration::Projects => "Migration v8 (tables) failed",
            Migration::Tips => "Migration v9 failed",
            Migration::Notes => "Migration v10 failed",
        };
        let ghost start = self.ran();
        self.run_batch(migration_batch_sql(m), ctx)?;
        if m == Migration::Projects {
            self.migrate_project_columns()
        } else {
            assert(self.ran() =~= start + migration_ran(m, (false, false)));
            Ok(Ghost((false, false)))
        }
    }

    /// The rest of the projects step, after its tables: a `project_id`
    /// column on each activity table where it is missing (SQLite has no
    /// `ADD COLUMN IF NOT EXISTS`), then the indexes on them.
    fn migrate_project_columns(&mut self) -> (r: Result<Ghost<(bool, bool)>, String>)
        ensures
            r matches Err(e) ==> migration_failure(e@),
            r matches Ok(p) ==> final(self).ran() == old(self).ran() + (if p@.0 {
                seq![batch_stmt(projects_keystrokes_alter_text())]
            } else {
                seq![]
            }) + (if p@.1 {
                seq![batch_stmt(projects_window_alter_text())]
            } else {
                seq![]
            }) + seq![batch_stmt(projects_indexes_text())],
            final(self).setting_reads() == old(self).setting_reads(),
            final(self).settings_listed() == old(self).settings_listed(),
    {
        let ghost start = self.ran();
        let keystrokes_missing = !self.column_exists("keystrokes", "project_id");
        if keystrokes_missing {
            self.run_batch(projects_keystrokes_alter_sql(), "Migration v8 (keystrokes alter) failed")?;
        }
        let ghost mid = self.ran();
        let window_missing = !self.column_exists("window_activity", "project_id");
        if window_missing {
            self.run_batch(projects_window_alter_sql(), "Migration v8 (window_activity alter) failed")?;
        }
        self.run_batch(projects_indexes_sql(), "Migration v8 (indexes) failed")?;
        assert(self.ran() =~= start + (if keystrokes_missing {
            seq![batch_stmt(projects_keystrokes_alter_text())]
        } else {
            seq![]
        }) + (if window_missing {
            seq![batch_stmt(projects_window_alter_text())]
        } else {
            seq![]
        }) + seq![batch_stmt(projects_indexes_text())]);
        Ok(Ghost((keystrokes_missing, window_missing)))
    }

    /// Whether `table` has a column named `column`, from
    /// `PRAGMA table_info(<table>)` (whose second column is the name); a
    /// failing query counts as "no", and unreadable rows are skipped. This
    /// read of the schema is not recorded in `ran`.
    fn column_exists(&self, table: &str, column: &str) -> (r: bool) {
        let mut sql: Vec<char> = Vec::new();
        push_str(&mut sql, "PRAGMA table_info(");
        push_str(&mut sql, table);
        sql.push(')');
        let sql = string_of(sql.as_slice());
        let mut stmt = match prepare(&self.conn, sql.as_str()) {
            Ok(s) => s,
            Err(_) => {
                return false;
            },
        };
        let rows = match query_cells(&mut stmt, &[], &[ColumnKind::Int, ColumnKind::Text]) {
            Ok(rows) => rows,
            Err(_) => {
                return false;
            },
        };
        names_include(&rows, column)
    }
}


impl Database {
    // --- Conversations ---

    /// Creates a conversation titled `title`, or "New conversation", and returns it as stored.
    pub fn create_conversation(&mut self, title: Option<&str>) -> (r: Result<Conversation, String>)
        ensures
            r matches Ok(c) ==> some_row_yields(c),
            r matches Err(e) ==> reported(e@, "Failed to create conversation"@) || reported(
                e@,
                "Conversation not found"@,
            ),
            r is Ok ==> exists|id: i64| final(self).ran()
                == old(self).ran()
                    .push(create_conversation_stmt(opt_str_view(title).unwrap_or("New conversation"@)))
                    .push(get_conversation_stmt(id)),
            final(self).setting_reads() == old(self).setting_reads(),
            final(self).settings_listed() == old(self).settings_listed(),
    {
        let t = or_default(title, "New conversation");
        self.run(
            &create_conversation_statement(t),
            "Failed to create conversation",
        )?;
        let id = last_insert_rowid(&self.conn);
        self.get_conversation(id)
    }

    /// All conversations, most recently updated first.
    pub fn list_conversations(&mut self) -> (r: Result<Vec<Conversation>, String>)
        ensures
            r matches Ok(v) ==> some_rows_yield(v@),
            r matches Err(e) ==> reported(e@, "Failed to prepare list_conversations"@) || reported(
                e@,
                "Failed to query conversations"@,
            ) || reported(e@, "Failed to read conversation row"@),
            r is Ok ==> final(self).ran() == old(self).ran().push(list_conversations_stmt()),
            r is Err ==> final(self).ran() == old(self).ran(),
            final(self).setting_reads() == old(self).setting_reads(),
            final(self).settings_listed() == old(self).settings_listed(),
    {
        self.fetch_all(
            &list_conversations_statement(),
            "Failed to prepare list_conversations",
            "Failed to query conversations",
            "Failed to read conversation row",
        )
    }

    /// The conversation with this id.
    pub fn get_conversation(&mut self, id: i64) -> (r: Result<Conversation, String>)
        ensures
            r matches Ok(c) ==> some_row_yields(c),
            r matches Err(e) ==> reported(e@, "Conversation not found"@),
            r is Ok ==> final(self).ran() == old(self).ran().push(get_conversation_stmt(id)),
            r is Err ==> final(self).ran() == old(self).ran(),
            final(self).setting_reads() == old(self).setting_reads(),
            final(self).settings_listed() == old(self).settings_listed(),
    {
        self.fetch_one(
            &get_conversation_statement(id),
            "Conversation not found",
        )
    }

    /// Deletes a conversation (its messages go with it).
    pub fn delete_conversation(&mut self, id: i64) -> (r: Result<(), String>)
        ensures
            r matches Err(e) ==> reported(e@, "Failed to delete conversation"@),
            r is Ok ==> final(self).ran() == old(self).ran().push(delete_conversation_stmt(id)),
            r is Err ==> final(self).ran() == old(self).ran(),
            final(self).setting_reads() == old(self).setting_reads(),
            final(self).settings_listed() == old(self).settings_listed(),
    {
        self.run(
            &delete_conversation_statement(id),
            "Failed to delete conversation",
        )
    }

    /// Renames a conversation.
    pub fn update_conversation_title(&mut self, id: i64, title: &str) -> (r: Result<(), String>)
        ensures
            r matches Err(e) ==> reported(e@, "Failed to update conversation title"@),
            r is Ok ==> final(self).ran()
                == old(self).ran()
                    .push(update_conversation_title_stmt(title@, id)),
            r is Err ==> final(self).ran() == old(self).ran(),
            final(self).setting_reads() == old(self).setting_reads(),
            final(self).settings_listed() == old(self).settings_listed(),
    {
        self.run(
            &update_conversation_title_statement(title, id),
            "Failed to update conversation title",
        )
    }

    /// Marks `message_id` as the root shown for the conversation.
    pub fn set_conversation_active_root(&mut self, conversation_id: i64, message_id: i64) -> (r:
        Result<(), String>)
        ensures
            r matches Err(e) ==> reported(e@, "Failed to set active root"@),
            r is Ok ==> final(self).ran()
                == old(self).ran()
                    .push(set_conversation_active_root_stmt(message_id, conversation_id)),
            r is Err ==> final(self).ran() == old(self).ran(),
            final(self).setting_reads() == old(self).setting_reads(),
            final(self).settings_listed() == old(self).settings_listed(),
    {
        self.run(
            &set_conversation_active_root_statement(message_id, conversation_id),
            "Failed to set active root",
        )
    }

    /// Sets the conversation's update time to now.
    pub fn touch_conversation(&mut self, id: i64) -> (r: Result<(), String>)
        ensures
            r matches Err(e) ==> reported(e@, "Failed to touch conversation"@),
            r is Ok ==> final(self).ran() == old(self).ran().push(touch_conversation_stmt(id)),
            r is Err ==> final(self).ran() == old(self).ran(),
            final(self).setting_reads() == old(self).setting_reads(),
            final(self).settings_listed() == old(self).settings_listed(),
    {
        self.run(
            &touch_conversation_statement(id),
            "Failed to touch conversation",
        )
    }

    // --- Chat messages ---

    /// Stores a message and returns it as stored.
    pub fn insert_chat_message(
        &mut self,
        conversation_id: i64,
        parent_id: Option<i64>,
        role: &str,
        content: &str,
        model: Option<&str>,
    ) -> (r: Result<ChatMessageRow, String>)
        ensures
            r matches Ok(m) ==> some_row_yields(m),
            r matches Err(e) ==> reported(e@, "Failed to insert chat message"@) || reported(
                e@,
                "Chat message not found"@,
            ),
            r is Ok ==> exists|id: i64| final(self).ran()
                == old(self).ran()
                    .push(insert_chat_message_stmt(conversation_id, parent_id, role@, content@, opt_text(model)))
                    .push(get_chat_message_stmt(id)),
            final(self).setting_reads() == old(self).setting_reads(),
            final(self).settings_listed() == old(self).settings_listed(),
    {
        self.insert_message(&insert_chat_message_statement(conversation_id, parent_id, role, content, model))
    }

    /// Runs a message insert (see `insert_chat_message_statement`,
    /// `user_message_statement`, `assistant_reply_statement`) and returns the
    /// message as stored.
    pub fn insert_message(&mut self, st: &SqlStatement) -> (r: Result<ChatMessageRow, String>)
        ensures
            r matches Ok(m) ==> some_row_yields(m),
            r matches Err(e) ==> reported(e@, "Failed to insert chat message"@) || reported(
                e@,
                "Chat message not found"@,
            ),
            r is Ok ==> exists|id: i64| final(self).ran()
                == old(self).ran()
                    .push(st@)
                    .push(get_chat_message_stmt(id)),
            final(self).setting_reads() == old(self).setting_reads(),
            final(self).settings_listed() == old(self).settings_listed(),
    {
        self.run(st, "Failed to insert chat message")?;
        let id = last_insert_rowid(&self.conn);
        self.get_chat_message(id)
    }

    /// The message with this id.
    pub fn get_chat_message(&mut self, id: i64) -> (r: Result<ChatMessageRow, String>)
        ensures
            r matches Ok(m) ==> some_row_yields(m),
            r matches Err(e) ==> reported(e@, "Chat message not found"@),
            r is Ok ==> final(self).ran() == old(self).ran().push(get_chat_message_stmt(id)),
            r is Err ==> final(self).ran() == old(self).ran(),
            final(self).setting_reads() == old(self).setting_reads(),
            final(self).settings_listed() == old(self).settings_listed(),
    {
        self.fetch_one(
            &get_chat_message_statement(id),
            "Chat message not found",
        )
    }

    /// All messages of a conversation, oldest first.
    pub fn get_conversation_messages(&mut self, conversation_id: i64) -> (r: Result<
        Vec<ChatMessageRow>,
        String,
    >)
        ensures
            r matches Ok(v) ==> some_rows_yield(v@),
            r matches Err(e) ==> reported(e@, "Failed to prepare get_conversation_messages"@)
                || reported(e@, "Failed to query messages"@) || reported(
                e@,
                "Failed to read message row"@,
            ),
            r is Ok ==> final(self).ran()
                == old(self).ran()
                    .push(get_conversation_messages_stmt(conversation_id)),
            r is Err ==> final(self).ran() == old(self).ran(),
            final(self).setting_reads() == old(self).setting_reads(),
            final(self).settings_listed() == old(self).settings_listed(),
    {
        self.fetch_all(
            &get_conversation_messages_statement(conversation_id),
            "Failed to prepare get_conversation_messages",
            "Failed to query messages",
            "Failed to read message row",
        )
    }

    /// Marks `child_id` as the reply shown under `message_id`.
    pub fn set_active_child(&mut self, message_id: i64, child_id: i64) -> (r: Result<(), String>)
        ensures
            r matches Err(e) ==> reported(e@, "Failed to set active child"@),
            r is Ok ==> final(self).ran()
                == old(self).ran()
                    .push(set_active_child_stmt(child_id, message_id)),
            r is Err ==> final(self).ran() == old(self).ran(),
            final(self).setting_reads() == old(self).setting_reads(),
            final(self).settings_listed() == old(self).settings_listed(),
    {
        self.run(
            &set_active_child_statement(child_id, message_id),
            "Failed to set active child",
        )
    }

    /// Replaces a message's text.
    pub fn update_message_content(&mut self, message_id: i64, content: &str) -> (r: Result<(), String>)
        ensures
            r matches Err(e) ==> reported(e@, "Failed to update message content"@),
            r is Ok ==> final(self).ran()
                == old(self).ran()
                    .push(update_message_content_stmt(content@, message_id)),
            r is Err ==> final(self).ran() == old(self).ran(),
            final(self).setting_reads() == old(self).setting_reads(),
            final(self).settings_listed() == old(self).settings_listed(),
    {
        self.run(
            &update_message_content_statement(content, message_id),
            "Failed to update message content",
        )
    }

    // --- Events ---

    /// Logs an event and returns the rowid of the latest insert.
    pub fn insert_event(&mut self, event_type: &str, payload: &str) -> (r: Result<i64, String>)
        ensures
            r matches Err(e) ==> reported(e@, "Failed to insert event"@),
            r is Ok ==> final(self).ran()
                == old(self).ran()
                    .push(insert_event_stmt(event_type@, payload@)),
            r is Err ==> final(self).ran() == old(self).ran(),
            final(self).setting_reads() == old(self).setting_reads(),
            final(self).settings_listed() == old(self).settings_listed(),
    {
        self.run(
            &insert_event_statement(event_type, payload),
            "Failed to insert event",
        )?;
        Ok(last_insert_rowid(&self.conn))
    }

    /// The `limit` most recent events, newest first.
    pub fn get_recent_events(&mut self, limit: i64) -> (r: Result<Vec<Event>, String>)
        ensures
            r matches Ok(v) ==> some_rows_yield(v@),
            r matches Err(e) ==> reported(e@, "Failed to prepare query"@) || reported(
                e@,
                "Failed to query events"@,
            ) || reported(e@, "Failed to read event row"@),
            r is Ok ==> final(self).ran() == old(self).ran().push(get_recent_events_stmt(limit)),
            r is Err ==> final(self).ran() == old(self).ran(),
            final(self).setting_reads() == old(self).setting_reads(),
            final(self).settings_listed() == old(self).settings_listed(),
    {
        self.fetch_all(
            &get_recent_events_statement(limit),
            "Failed to prepare query",
            "Failed to query events",
            "Failed to read event row",
        )
    }

    // --- Tasks ---

    /// Creates a task noting the window it was created from, and returns it as stored.
    pub fn create_task(&mut self, content: &str, window_title: &str) -> (r: Result<Task, String>)
        ensures
            r matches Ok(t) ==> some_row_yields(t),
            r matches Err(e) ==> reported(e@, "Failed to create task"@) || reported(
                e@,
                "Task not found"@,
            ),
            r is Ok ==> exists|id: i64| final(self).ran()
                == old(self).ran()
                    .push(create_task_stmt(content@, window_title@))
                    .push(get_task_stmt(id)),
            final(self).setting_reads() == old(self).setting_reads(),
            final(self).settings_listed() == old(self).settings_listed(),
    {
        self.run(
            &create_task_statement(content, window_title),
            "Failed to create task",
        )?;
        let id = last_insert_rowid(&self.conn);
        self.get_task(id)
    }

    /// The task with this id.
    pub fn get_task(&mut self, id: i64) -> (r: Result<Task, String>)
        ensures
            r matches Ok(t) ==> some_row_yields(t),
            r matches Err(e) ==> reported(e@, "Task not found"@),
            r is Ok ==> final(self).ran() == old(self).ran().push(get_task_stmt(id)),
            r is Err ==> final(self).ran() == old(self).ran(),
            final(self).setting_reads() == old(self).setting_reads(),
            final(self).settings_listed() == old(self).settings_listed(),
    {
        self.fetch_one(
            &get_task_statement(id),
            "Task not found",
        )
    }

    /// The archived (or the active) tasks, newest first.
    pub fn list_tasks(&mut self, archived: bool) -> (r: Result<Vec<Task>, String>)
        ensures
            r matches Ok(v) ==> some_rows_yield(v@),
            r matches Err(e) ==> reported(e@, "Failed to prepare list_tasks"@) || reported(
                e@,
                "Failed to query tasks"@,
            ) || reported(e@, "Failed to read task row"@),
            r is Ok ==> final(self).ran()
                == old(self).ran()
                    .push(list_tasks_stmt((if archived { 1i64 } else { 0i64 }))),
            r is Err ==> final(self).ran() == old(self).ran(),
            final(self).setting_reads() == old(self).setting_reads(),
            final(self).settings_listed() == old(self).settings_listed(),
    {
        let archived_int: i64 = if archived {
            1
        } else {
            0
        };
        self.fetch_all(
            &list_tasks_statement(archived_int),
            "Failed to prepare list_tasks",
            "Failed to query tasks",
            "Failed to read task row",
        )
    }

    /// Checks a task (stamping its completion time) or unchecks it (clearing
    /// the time and unarchiving it, so it returns to the active list), then
    /// returns it as stored.
    pub fn update_task_completed(&mut self, id: i64, completed: bool) -> (r: Result<Task, String>)
        ensures
            r matches Ok(t) ==> some_row_yields(t),
            r matches Err(e) ==> reported(e@, "Failed to update task"@) || reported(
                e@,
                "Task not found"@,
            ),
            r is Ok ==> final(self).ran()
                == old(self).ran()
                    .push(if completed { task_check_stmt(id) } else { task_uncheck_stmt(id) })
                    .push(get_task_stmt(id)),
            final(self).setting_reads() == old(self).setting_reads(),
            final(self).settings_listed() == old(self).settings_listed(),
    {
        if completed {
            self.run(
                &task_check_statement(id),
                "Failed to update task",
            )?;
        } else {
            self.run(
                &task_uncheck_statement(id),
                "Failed to update task",
            )?;
        }
        self.get_task(id)
    }

    /// Moves a task to the archive.
    pub fn archive_task(&mut self, id: i64) -> (r: Result<(), String>)
        ensures
            r matches Err(e) ==> reported(e@, "Failed to archive task"@),
            r is Ok ==> final(self).ran() == old(self).ran().push(archive_task_stmt(id)),
            r is Err ==> final(self).ran() == old(self).ran(),
            final(self).setting_reads() == old(self).setting_reads(),
            final(self).settings_listed() == old(self).settings_listed(),
    {
        self.run(
            &archive_task_statement(id),
            "Failed to archive task",
        )
    }

    /// Deletes a task.
    pub fn delete_task(&mut self, id: i64) -> (r: Result<(), String>)
        ensures
            r matches Err(e) ==> reported(e@, "Failed to delete task"@),
            r is Ok ==> final(self).ran() == old(self).ran().push(delete_task_stmt(id)),
            r is Err ==> final(self).ran() == old(self).ran(),
            final(self).setting_reads() == old(self).setting_reads(),
            final(self).settings_listed() == old(self).settings_listed(),
    {
        self.run(&delete_task_statement(id), "Failed to delete task")
    }

    // --- Settings ---

    /// The value of a setting, or `None` when it was never set.
    pub fn get_setting(&mut self, key: &str, component: &str) -> (r: Result<Option<String>, String>)
        ensures
            r matches Err(e) ==> reported(e@, "Failed to get setting"@),
            r is Ok ==> final(self).ran()
                == old(self).ran()
                    .push(get_setting_stmt(key@, component@)),
            r is Err ==> final(self).ran() == old(self).ran(),
            r matches Ok(v) ==> final(self).setting_reads() == old(self).setting_reads().push(
                (key@, component@, opt_string_view(v)),
            ),
            r is Err ==> final(self).setting_reads() == old(self).setting_reads(),
            final(self).settings_listed() == old(self).settings_listed(),
            final(self).settings_listed() == old(self).settings_listed(),
    {
        let cell: Option<TextCell> = self.fetch_optional(
            &get_setting_statement(key, component),
            "Failed to get setting",
        )?;
        match cell {
            Some(c) => {
                proof {
                    self.seen@ = self.seen@.push((key@, component@, Some(c.0@)));
                }
                Ok(Some(c.0))
            },
            None => {
                proof {
                    self.seen@ = self.seen@.push((key@, component@, None));
                }
                Ok(None)
            },
        }
    }

    /// All (key, value) settings of a component.
    pub fn get_all_settings(&mut self, component: &str) -> (r: Result<Vec<(String, String)>, String>)
        ensures
            r matches Err(e) ==> reported(e@, "Failed to prepare get_all_settings"@) || reported(
                e@,
                "Failed to query settings"@,
            ) || reported(e@, "Failed to read setting row"@),
            r is Ok ==> final(self).ran()
                == old(self).ran()
                    .push(get_all_settings_stmt(component@)),
            r is Err ==> final(self).ran() == old(self).ran(),
            final(self).setting_reads() == old(self).setting_reads(),
            r matches Ok(v) ==> final(self).settings_listed() == old(self).settings_listed().push(
                (component@, pairs_of(v@)),
            ),
            r is Err ==> final(self).settings_listed() == old(self).settings_listed(),
    {
        let rows: Vec<TextPair> = self.fetch_all(
            &get_all_settings_statement(component),
            "Failed to prepare get_all_settings",
            "Failed to query settings",
            "Failed to read setting row",
        )?;
        let v = text_pairs(rows);
        proof {
            self.listed@ = self.listed@.push((component@, pairs_of(v@)));
        }
        Ok(v)
    }

    /// Stores a setting, replacing any previous value.
    pub fn set_setting(&mut self, key: &str, value: &str, component: &str) -> (r: Result<(), String>)
        ensures
            r matches Err(e) ==> reported(e@, "Failed to set setting"@),
            r is Ok ==> final(self).ran()
                == old(self).ran()
                    .push(set_setting_stmt(key@, value@, component@)),
            r is Err ==> final(self).ran() == old(self).ran(),
            final(self).setting_reads() == old(self).setting_reads(),
            final(self).settings_listed() == old(self).settings_listed(),
    {
        self.run(
            &set_setting_statement(key, value, component),
            "Failed to set setting",
        )
    }

    /// Stores a setting only if it is not set yet.
    pub fn seed_setting(&mut self, key: &str, value: &str, component: &str) -> (r: Result<(), String>)
        ensures
            r matches Err(e) ==> reported(e@, "Failed to seed setting"@),
            r is Ok ==> final(self).ran()
                == old(self).ran()
                    .push(seed_setting_stmt(key@, value@, component@)),
            r is Err ==> final(self).ran() == old(self).ran(),
            final(self).setting_reads() == old(self).setting_reads(),
            final(self).settings_listed() == old(self).settings_listed(),
    {
        self.run(
            &seed_setting_statement(key, value, component),
            "Failed to seed setting",
        )
    }

    /// Seeds the `default` component with the settings of `default_settings`,
    /// leaving settings that already exist alone.
    pub fn seed_defaults_from_config(
        &mut self,
        hotkey: Option<&str>,
        ai_provider: Option<&str>,
        ai_api_key: Option<&str>,
        ai_base_url: Option<&str>,
        task_archive_delay_secs: Option<u32>,
    ) -> (r: Result<(), String>)
        ensures
            r matches Err(e) ==> reported(e@, "Failed to seed setting"@),
            r is Ok ==> final(self).ran() == old(self).ran() + seed_stmts(default_settings_spec(
                opt_str_view(hotkey),
                opt_str_view(ai_provider),
                opt_str_view(ai_api_key),
                opt_str_view(ai_base_url),
                crate::text::decimal(task_archive_delay_secs.unwrap_or(5) as int),
            )),
            final(self).setting_reads() == old(self).setting_reads(),
            final(self).settings_listed() == old(self).settings_listed(),
    {
        let pairs = default_settings(hotkey, ai_provider, ai_api_key, ai_base_url, task_archive_delay_secs);
        let ghost start = self.ran();
        let ghost all = seed_stmts(pairs_view(pairs@));
        let mut i: usize = 0;
        while i < pairs.len()
            invariant
                i <= pairs@.len(),
                all == seed_stmts(pairs_view(pairs@)),
                self.ran() == start + all.take(i as int),
                self.setting_reads() == old(self).setting_reads(),
                self.settings_listed() == old(self).settings_listed(),
            decreases pairs@.len() - i,
        {
            self.seed_setting(pairs[i].0.as_str(), pairs[i].1.as_str(), "default")?;
            proof {
                assert(all.take(i + 1 as int) =~= all.take(i as int).push(
                    seed_setting_stmt(pairs@[i as int].0@, pairs@[i as int].1@, "default"@),
                ));
            }
            i = i + 1;
        }
        assert(all.take(i as int) =~= all);
        Ok(())
    }

    // --- Input monitoring ---

    /// Records typed text for an app and window.
    pub fn insert_keystrokes(&mut self, chars: &str, app_name: &str, window_title: &str) -> (r: Result<
        (),
        String,
    >)
        ensures
            r matches Err(e) ==> reported(e@, "Failed to insert keystrokes"@),
            r is Ok ==> final(self).ran()
                == old(self).ran()
                    .push(insert_keystrokes_stmt(chars@, app_name@, window_title@)),
            r is Err ==> final(self).ran() == old(self).ran(),
            final(self).setting_reads() == old(self).setting_reads(),
            final(self).settings_listed() == old(self).settings_listed(),
    {
        self.run(
            &insert_keystrokes_statement(chars, app_name, window_title),
            "Failed to insert keystrokes",
        )
    }

    /// Records time spent in an app's window.
    pub fn insert_window_activity(&mut self, app_name: &str, window_title: &str, duration_secs: i64) -> (r:
        Result<(), String>)
        ensures
            r matches Err(e) ==> reported(e@, "Failed to insert window activity"@),
            r is Ok ==> final(self).ran()
                == old(self).ran()
                    .push(insert_window_activity_stmt(app_name@, window_title@, duration_secs)),
            r is Err ==> final(self).ran() == old(self).ran(),
            final(self).setting_reads() == old(self).setting_reads(),
            final(self).settings_listed() == old(self).settings_listed(),
    {
        self.run(
            &insert_window_activity_statement(app_name, window_title, duration_secs),
            "Failed to insert window activity",
        )
    }

    fn count(&mut self, st: &SqlStatement, ctx: &str) -> (r: Result<i64, String>)
        ensures
            r matches Err(e) ==> reported(e@, ctx@),
            r is Ok ==> final(self).ran() == old(self).ran().push(st@),
            r is Err ==> final(self).ran() == old(self).ran(),
            r is Err ==> final(self).ran() == old(self).ran(),
            final(self).setting_reads() == old(self).setting_reads(),
            final(self).settings_listed() == old(self).settings_listed(),
    {
        let c: IntCell = self.fetch_one(st, ctx)?;
        Ok(c.0)
    }

    /// Characters typed since the time `since` (an SQLite timestamp).
    pub fn get_keystroke_count_since(&mut self, since: &str) -> (r: Result<i64, String>)
        ensures
            r matches Err(e) ==> reported(e@, "Failed to get keystroke count"@),
            r is Ok ==> final(self).ran()
                == old(self).ran()
                    .push(get_keystroke_count_since_stmt(since@)),
            r is Err ==> final(self).ran() == old(self).ran(),
            final(self).setting_reads() == old(self).setting_reads(),
            final(self).settings_listed() == old(self).settings_listed(),
    {
        self.count(
            &get_keystroke_count_since_statement(since),
            "Failed to get keystroke count",
        )
    }

    /// Characters typed during the last minute.
    pub fn get_keystroke_count_last_minute(&mut self) -> (r: Result<i64, String>)
        ensures
            r matches Err(e) ==> reported(e@, "Failed to get keystroke count last minute"@),
            r is Ok ==> final(self).ran()
                == old(self).ran()
                    .push(get_keystroke_count_last_minute_stmt()),
            r is Err ==> final(self).ran() == old(self).ran(),
            final(self).setting_reads() == old(self).setting_reads(),
            final(self).settings_listed() == old(self).settings_listed(),
    {
        self.count(
            &get_keystroke_count_last_minute_statement(),
            "Failed to get keystroke count last minute",
        )
    }

    /// Characters typed since `datetime('now', offset)`; `offset` is an SQLite
    /// time modifier such as "-1 hour", spliced into the statement.
    pub fn conn_query_keystroke_count_since_raw(&mut self, offset: &str) -> (r: Result<i64, String>)
        ensures
            r matches Err(e) ==> reported(e@, "Failed to get keystroke count"@),
            r is Ok ==> final(self).ran()
                == old(self).ran()
                    .push(keystroke_count_offset_stmt(offset@)),
            r is Err ==> final(self).ran() == old(self).ran(),
            final(self).setting_reads() == old(self).setting_reads(),
            final(self).settings_listed() == old(self).settings_listed(),
    {
        self.count(&keystroke_count_offset_statement(offset), "Failed to get keystroke count")
    }

    /// (app, seconds) for the 20 apps used longest today, longest first.
    pub fn get_top_windows_today(&mut self) -> (r: Result<Vec<TextCount>, String>)
        ensures
            r matches Ok(v) ==> some_rows_yield(v@),
            r matches Err(e) ==> reported(e@, "Failed to prepare top windows"@) || reported(
                e@,
                "Failed to query top windows"@,
            ) || reported(e@, "Failed to read window row"@),
            r is Ok ==> final(self).ran() == old(self).ran().push(get_top_windows_today_stmt()),
            r is Err ==> final(self).ran() == old(self).ran(),
            final(self).setting_reads() == old(self).setting_reads(),
            final(self).settings_listed() == old(self).settings_listed(),
    {
        self.fetch_all(
            &get_top_windows_today_statement(),
            "Failed to prepare top windows",
            "Failed to query top windows",
            "Failed to read window row",
        )
    }

    // --- Projects ---

    /// Creates a project and returns it as stored.
    pub fn create_project(&mut self, name: &str, description: &str, color: &str) -> (r: Result<
        Project,
        String,
    >)
        ensures
            r matches Ok(p) ==> some_row_yields(p),
            r matches Err(e) ==> reported(e@, "Failed to create project"@) || reported(
                e@,
                "Project not found"@,
            ),
            r is Ok ==> exists|id: i64| final(self).ran()
                == old(self).ran()
                    .push(create_project_stmt(name@, description@, color@))
                    .push(get_project_stmt(id)),
            final(self).setting_reads() == old(self).setting_reads(),
            final(self).settings_listed() == old(self).settings_listed(),
    {
        self.run(
            &create_project_statement(name, description, color),
            "Failed to create project",
        )?;
        let id = last_insert_rowid(&self.conn);
        self.get_project(id)
    }

    /// The project with this id.
    pub fn get_project(&mut self, id: i64) -> (r: Result<Project, String>)
        ensures
            r matches Ok(p) ==> some_row_yields(p),
            r matches Err(e) ==> reported(e@, "Project not found"@),
            r is Ok ==> final(self).ran() == old(self).ran().push(get_project_stmt(id)),
            r is Err ==> final(self).ran() == old(self).ran(),
            final(self).setting_reads() == old(self).setting_reads(),
            final(self).settings_listed() == old(self).settings_listed(),
    {
        self.fetch_one(
            &get_project_statement(id),
            "Project not found",
        )
    }

    /// Changes a project's name, description and color.
    pub fn update_project(&mut self, id: i64, name: &str, description: &str, color: &str) -> (r:
        Result<(), String>)
        ensures
            r matches Err(e) ==> reported(e@, "Failed to update project"@),
            r is Ok ==> final(self).ran()
                == old(self).ran()
                    .push(update_project_stmt(name@, description@, color@, id)),
            r is Err ==> final(self).ran() == old(self).ran(),
            final(self).setting_reads() == old(self).setting_reads(),
            final(self).settings_listed() == old(self).settings_listed(),
    {
        self.run(
            &update_project_statement(name, description, color, id),
            "Failed to update project",
        )
    }

    /// Untags the project's activity, then deletes the project (its rules go with it).
    pub fn delete_project(&mut self, id: i64) -> (r: Result<(), String>)
        ensures
            r matches Err(e) ==> reported(e@, "Failed to clear keystroke tags"@) || reported(
                e@,
                "Failed to clear window activity tags"@,
            ) || reported(e@, "Failed to delete project"@),
            r is Ok ==> final(self).ran()
                == old(self).ran()
                    .push(clear_keystroke_tags_stmt(id))
                    .push(clear_window_tags_stmt(id))
                    .push(delete_project_stmt(id)),
            final(self).setting_reads() == old(self).setting_reads(),
            final(self).settings_listed() == old(self).settings_listed(),
    {
        self.clear_project_tags(id)?;
        self.run(
            &delete_project_statement(id),
            "Failed to delete project",
        )
    }

    /// All projects by name.
    pub fn list_projects(&mut self) -> (r: Result<Vec<Project>, String>)
        ensures
            r matches Ok(v) ==> some_rows_yield(v@),
            r matches Err(e) ==> reported(e@, "Failed to prepare list_projects"@) || reported(
                e@,
                "Failed to query projects"@,
            ) || reported(e@, "Failed to read project row"@),
            r is Ok ==> final(self).ran() == old(self).ran().push(list_projects_stmt()),
            r is Err ==> final(self).ran() == old(self).ran(),
            final(self).setting_reads() == old(self).setting_reads(),
            final(self).settings_listed() == old(self).settings_listed(),
    {
        self.fetch_all(
            &list_projects_statement(),
            "Failed to prepare list_projects",
            "Failed to query projects",
            "Failed to read project row",
        )
    }

    // --- Project rules ---

    /// Adds a rule to a project and returns it as stored.
    pub fn add_project_rule(&mut self, project_id: i64, expression: &str, priority: i32) -> (r: Result<
        ProjectRule,
        String,
    >)
        ensures
            r matches Ok(x) ==> some_row_yields(x),
            r matches Err(e) ==> reported(e@, "Failed to add project rule"@) || reported(
                e@,
                "Project rule not found"@,
            ),
            r is Ok ==> exists|id: i64| final(self).ran()
                == old(self).ran()
                    .push(add_project_rule_stmt(project_id, expression@, priority))
                    .push(get_project_rule_stmt(id)),
            final(self).setting_reads() == old(self).setting_reads(),
            final(self).settings_listed() == old(self).settings_listed(),
    {
        self.run(
            &add_project_rule_statement(project_id, expression, priority),
            "Failed to add project rule",
        )?;
        let id = last_insert_rowid(&self.conn);
        self.fetch_one(
            &get_project_rule_statement(id),
            "Project rule not found",
        )
    }

    /// Deletes a rule.
    pub fn delete_project_rule(&mut self, id: i64) -> (r: Result<(), String>)
        ensures
            r matches Err(e) ==> reported(e@, "Failed to delete project rule"@),
            r is Ok ==> final(self).ran() == old(self).ran().push(delete_project_rule_stmt(id)),
            r is Err ==> final(self).ran() == old(self).ran(),
            final(self).setting_reads() == old(self).setting_reads(),
            final(self).settings_listed() == old(self).settings_listed(),
    {
        self.run(
            &delete_project_rule_statement(id),
            "Failed to delete project rule",
        )
    }

    /// A project's rules, highest priority first.
    pub fn get_project_rules(&mut self, project_id: i64) -> (r: Result<Vec<ProjectRule>, String>)
        ensures
            r matches Ok(v) ==> some_rows_yield(v@),
            r matches Err(e) ==> reported(e@, "Failed to prepare get_project_rules"@) || reported(
                e@,
                "Failed to query project rules"@,
            ) || reported(e@, "Failed to read project rule row"@),
            r is Ok ==> final(self).ran()
                == old(self).ran()
                    .push(get_project_rules_stmt(project_id)),
            r is Err ==> final(self).ran() == old(self).ran(),
            final(self).setting_reads() == old(self).setting_reads(),
            final(self).settings_listed() == old(self).settings_listed(),
    {
        self.fetch_all(
            &get_project_rules_statement(project_id),
            "Failed to prepare get_project_rules",
            "Failed to query project rules",
            "Failed to read project rule row",
        )
    }

    /// All rules, highest priority first.
    pub fn get_all_rules(&mut self) -> (r: Result<Vec<ProjectRule>, String>)
        ensures
            r matches Ok(v) ==> some_rows_yield(v@),
            r matches Err(e) ==> reported(e@, "Failed to prepare get_all_rules"@) || reported(
                e@,
                "Failed to query all rules"@,
            ) || reported(e@, "Failed to read rule row"@),
            r is Ok ==> final(self).ran() == old(self).ran().push(get_all_rules_stmt()),
            r is Err ==> final(self).ran() == old(self).ran(),
            final(self).setting_reads() == old(self).setting_reads(),
            final(self).settings_listed() == old(self).settings_listed(),
    {
        self.fetch_all(
            &get_all_rules_statement(),
            "Failed to prepare get_all_rules",
            "Failed to query all rules",
            "Failed to read rule row",
        )
    }

    // --- Tagging ---

    /// Up to `limit` untagged keystroke rows followed by up to `limit`
    /// untagged window rows (rows without an app name are left out).
    pub fn get_untagged_activity(&mut self, limit: i64) -> (r: Result<Vec<UntaggedActivity>, String>)
        ensures
            r matches Ok(v) ==> some_rows_yield(v@),
            r matches Err(e) ==> reported(e@, "Failed to prepare get_untagged_activity"@)
                || reported(e@, "Failed to query untagged activity"@) || reported(
                e@,
                "Failed to read untagged row"@,
            ),
            r is Ok ==> final(self).ran()
                == old(self).ran()
                    .push(get_untagged_activity_stmt(limit)),
            r is Err ==> final(self).ran() == old(self).ran(),
            final(self).setting_reads() == old(self).setting_reads(),
            final(self).settings_listed() == old(self).settings_listed(),
    {
        self.fetch_all(
            &get_untagged_activity_statement(limit),
            "Failed to prepare get_untagged_activity",
            "Failed to query untagged activity",
            "Failed to read untagged row",
        )
    }

    /// Tags activity rows with projects in one transaction. A tag naming a
    /// table other than `keystrokes` or `window_activity` stops the work with
    /// "Unknown table: <name>", and nothing is committed.
    pub fn tag_activities(&mut self, tags: &[ActivityTag]) -> (r: Result<(), String>)
        ensures
            r is Ok ==> forall|i: int| 0 <= i < tags@.len() ==> known_table(#[trigger] tags@[i].table@),
            r matches Err(e) ==> reported(e@, "Failed to begin transaction"@) || reported(
                e@,
                "Failed to tag activity"@,
            ) || reported(e@, "Failed to commit tags"@) || reported(e@, "Unknown table"@),
            (exists|i: int| 0 <= i < tags@.len() && !known_table(#[trigger] tags@[i].table@))
                ==> r is Err,
            forall|i: int|
                0 <= i < tags@.len() && first_unknown(tags@, i) ==> (r matches Err(e) && (e@
                    == "Unknown table: "@ + (#[trigger] tags@[i]).table@ || reported(
                    e@,
                    "Failed to begin transaction"@,
                ) || reported(e@, "Failed to tag activity"@))),
            r is Ok ==> final(self).ran() == old(self).ran() + tag_stmts(tags@),
            final(self).setting_reads() == old(self).setting_reads(),
            final(self).settings_listed() == old(self).settings_listed(),
    {
        let tx = match begin_transaction(&self.conn) {
            Ok(t) => t,
            Err(e) => {
                return Err(sql_failure("Failed to begin transaction", &e));
            },
        };
        let ghost mut done: Seq<StatementView> = Seq::empty();
        let mut i: usize = 0;
        while i < tags.len()
            invariant
                i <= tags@.len(),
                forall|j: int| 0 <= j < i ==> known_table(#[trigger] tags@[j].table@),
                done == tag_stmts(tags@).take(i as int),
                self.setting_reads() == old(self).setting_reads(),
                self.settings_listed() == old(self).settings_listed(),
            decreases tags@.len() - i,
        {
            let tag = &tags[i];
            let st = match tag_activity_statement(tag.table.as_str(), tag.project_id, tag.id) {
                Some(st) => st,
                None => {
                    proof {
                        reveal_strlit("Unknown table: ");
                        reveal_strlit("Unknown table");
                        assert("Unknown table: "@ =~= "Unknown table"@ + seq![':', ' ']);
                        assert forall|k: int|
                            0 <= k < tags@.len() && first_unknown(tags@, k) implies k == i by {
                            if k < i {
                                assert(known_table(tags@[k].table@));
                            } else if k > i {
                                assert(!known_table(tags@[i as int].table@));
                            }
                        }
                    }
                    return Err(failure("Unknown table", tag.table.as_str()));
                },
            };
            let conn = transaction_connection(&tx);
            if let Err(e) = execute(conn, st.sql.as_str(), st.params.as_slice()) {
                return Err(sql_failure("Failed to tag activity", &e));
            }
            proof {
                assert(tag_stmts(tags@).take(i + 1 as int) =~= done.push(st@));
                done = done.push(st@);
            }
            i = i + 1;
        }
        assert(tag_stmts(tags@).take(i as int) =~= tag_stmts(tags@));
        match commit(tx) {
            Ok(()) => {
                proof {
                    self.ran@ = self.ran@ + done;
                }
                Ok(())
            },
            Err(e) => Err(sql_failure("Failed to commit tags", &e)),
        }
    }

    /// Removes the project's tag from all keystroke and window rows.
    pub fn clear_project_tags(&mut self, project_id: i64) -> (r: Result<(), String>)
        ensures
            r matches Err(e) ==> reported(e@, "Failed to clear keystroke tags"@) || reported(
                e@,
                "Failed to clear window activity tags"@,
            ),
            r is Ok ==> final(self).ran()
                == old(self).ran()
                    .push(clear_keystroke_tags_stmt(project_id))
                    .push(clear_window_tags_stmt(project_id)),
            final(self).setting_reads() == old(self).setting_reads(),
            final(self).settings_listed() == old(self).settings_listed(),
    {
        self.run(
            &clear_keystroke_tags_statement(project_id),
            "Failed to clear keystroke tags",
        )?;
        self.run(
            &clear_window_tags_statement(project_id),
            "Failed to clear window activity tags",
        )
    }

    // --- Project queries ---

    /// Every project with today's typed characters and active seconds, most active first.
    pub fn get_all_project_summaries_today(&mut self) -> (r: Result<Vec<ProjectSummary>, String>)
        ensures
            r matches Ok(v) ==> some_rows_yield(v@),
            r matches Err(e) ==> reported(e@, "Failed to prepare project summaries"@) || reported(
                e@,
                "Failed to query project summaries"@,
            ) || reported(e@, "Failed to read summary row"@),
            r is Ok ==> final(self).ran()
                == old(self).ran()
                    .push(get_all_project_summaries_today_stmt()),
            r is Err ==> final(self).ran() == old(self).ran(),
            final(self).setting_reads() == old(self).setting_reads(),
            final(self).settings_listed() == old(self).settings_listed(),
    {
        self.fetch_all(
            &get_all_project_summaries_today_statement(),
            "Failed to prepare project summaries",
            "Failed to query project summaries",
            "Failed to read summary row",
        )
    }

    /// (app, window, seconds) for windows used at least 30 seconds over the
    /// last `days` days, longest first, at most 100.
    pub fn get_activity_summary_for_ai(&mut self, days: i32) -> (r: Result<
        Vec<ActivitySummaryRow>,
        String,
    >)
        ensures
            r matches Ok(v) ==> some_rows_yield(v@),
            r matches Err(e) ==> reported(e@, "Failed to prepare activity summary query"@)
                || reported(e@, "Failed to query activity summary"@) || reported(
                e@,
                "Failed to read activity summary row"@,
            ),
            r is Ok ==> final(self).ran()
                == old(self).ran()
                    .push(get_activity_summary_for_ai_stmt(days)),
            r is Err ==> final(self).ran() == old(self).ran(),
            final(self).setting_reads() == old(self).setting_reads(),
            final(self).settings_listed() == old(self).settings_listed(),
    {
        self.fetch_all(
            &get_activity_summary_for_ai_statement(days),
            "Failed to prepare activity summary query",
            "Failed to query activity summary",
            "Failed to read activity summary row",
        )
    }

    /// A project's window activity, newest first, `limit` rows from `offset`.
    pub fn get_project_activities(&mut self, project_id: i64, limit: i64, offset: i64) -> (r: Result<
        Vec<ProjectActivity>,
        String,
    >)
        ensures
            r matches Ok(v) ==> some_rows_yield(v@),
            r matches Err(e) ==> reported(e@, "Failed to prepare project activities"@) || reported(
                e@,
                "Failed to query project activities"@,
            ) || reported(e@, "Failed to read project activity row"@),
            r is Ok ==> final(self).ran()
                == old(self).ran()
                    .push(get_project_activities_stmt(project_id, limit, offset)),
            r is Err ==> final(self).ran() == old(self).ran(),
            final(self).setting_reads() == old(self).setting_reads(),
            final(self).settings_listed() == old(self).settings_listed(),
    {
        self.fetch_all(
            &get_project_activities_statement(project_id, limit, offset),
            "Failed to prepare project activities",
            "Failed to query project activities",
            "Failed to read project activity row",
        )
    }

    // --- Tips ---

    /// Stores a generated tip.
    pub fn insert_tip(&mut self, content: &str) -> (r: Result<(), String>)
        ensures
            r matches Err(e) ==> reported(e@, "Failed to insert tip"@),
            r is Ok ==> final(self).ran() == old(self).ran().push(insert_tip_stmt(content@)),
            r is Err ==> final(self).ran() == old(self).ran(),
            final(self).setting_reads() == old(self).setting_reads(),
            final(self).settings_listed() == old(self).settings_listed(),
    {
        self.run(&insert_tip_statement(content), "Failed to insert tip")
    }

    /// The `limit` latest tips as (content, created_at), newest first.
    pub fn get_recent_tips(&mut self, limit: i64) -> (r: Result<Vec<(String, String)>, String>)
        ensures
            r matches Err(e) ==> reported(e@, "Failed to prepare get_recent_tips"@) || reported(
                e@,
                "Failed to query tips"@,
            ) || reported(e@, "Failed to read tip row"@),
            r is Ok ==> final(self).ran() == old(self).ran().push(get_recent_tips_stmt(limit)),
            r is Err ==> final(self).ran() == old(self).ran(),
            final(self).setting_reads() == old(self).setting_reads(),
            final(self).settings_listed() == old(self).settings_listed(),
    {
        let rows: Vec<TextPair> = self.fetch_all(
            &get_recent_tips_statement(limit),
            "Failed to prepare get_recent_tips",
            "Failed to query tips",
            "Failed to read tip row",
        )?;
        Ok(text_pairs(rows))
    }

    // --- Time queries ---

    /// Seconds of window activity today.
    pub fn get_total_active_secs_today(&mut self) -> (r: Result<i64, String>)
        ensures
            r matches Err(e) ==> reported(e@, "Failed to get total active secs today"@),
            r is Ok ==> final(self).ran()
                == old(self).ran()
                    .push(get_total_active_secs_today_stmt()),
            r is Err ==> final(self).ran() == old(self).ran(),
            final(self).setting_reads() == old(self).setting_reads(),
            final(self).settings_listed() == old(self).settings_listed(),
    {
        self.count(
            &get_total_active_secs_today_statement(),
            "Failed to get total active secs today",
        )
    }

    /// Seconds spent in `app_name` today.
    pub fn get_current_app_time_today(&mut self, app_name: &str) -> (r: Result<i64, String>)
        ensures
            r matches Err(e) ==> reported(e@, "Failed to get app time today"@),
            r is Ok ==> final(self).ran()
                == old(self).ran()
                    .push(get_current_app_time_today_stmt(app_name@)),
            r is Err ==> final(self).ran() == old(self).ran(),
            final(self).setting_reads() == old(self).setting_reads(),
            final(self).settings_listed() == old(self).settings_listed(),
    {
        self.count(
            &get_current_app_time_today_statement(app_name),
            "Failed to get app time today",
        )
    }

    // --- Notes ---

    /// Creates a note and returns it as stored.
    pub fn create_note(&mut self, title: &str, content: &str) -> (r: Result<Note, String>)
        ensures
            r matches Ok(n) ==> some_row_yields(n),
            r matches Err(e) ==> reported(e@, "Failed to create note"@) || reported(
                e@,
                "Note not found"@,
            ),
            r is Ok ==> exists|id: i64| final(self).ran()
                == old(self).ran()
                    .push(create_note_stmt(title@, content@))
                    .push(get_note_stmt(id)),
            final(self).setting_reads() == old(self).setting_reads(),
            final(self).settings_listed() == old(self).settings_listed(),
    {
        self.run(
            &create_note_statement(title, content),
            "Failed to create note",
        )?;
        let id = last_insert_rowid(&self.conn);
        self.get_note(id)
    }

    /// The note with this id.
    pub fn get_note(&mut self, id: i64) -> (r: Result<Note, String>)
        ensures
            r matches Ok(n) ==> some_row_yields(n),
            r matches Err(e) ==> reported(e@, "Note not found"@),
            r is Ok ==> final(self).ran() == old(self).ran().push(get_note_stmt(id)),
            r is Err ==> final(self).ran() == old(self).ran(),
            final(self).setting_reads() == old(self).setting_reads(),
            final(self).settings_listed() == old(self).settings_listed(),
    {
        self.fetch_one(
            &get_note_statement(id),
            "Note not found",
        )
    }

    /// All notes, most recently updated first.
    pub fn list_notes(&mut self) -> (r: Result<Vec<Note>, String>)
        ensures
            r matches Ok(v) ==> some_rows_yield(v@),
            r matches Err(e) ==> reported(e@, "Failed to prepare list_notes"@) || reported(
                e@,
                "Failed to query notes"@,
            ) || reported(e@, "Failed to read note row"@),
            r is Ok ==> final(self).ran() == old(self).ran().push(list_notes_stmt()),
            r is Err ==> final(self).ran() == old(self).ran(),
            final(self).setting_reads() == old(self).setting_reads(),
            final(self).settings_listed() == old(self).settings_listed(),
    {
        self.fetch_all(
            &list_notes_statement(),
            "Failed to prepare list_notes",
            "Failed to query notes",
            "Failed to read note row",
        )
    }

    /// Changes a note's title and text, stamps its update time, and returns it as stored.
    pub fn update_note(&mut self, id: i64, title: &str, content: &str) -> (r: Result<Note, String>)
        ensures
            r matches Ok(n) ==> some_row_yields(n),
            r matches Err(e) ==> reported(e@, "Failed to update note"@) || reported(
                e@,
                "Note not found"@,
            ),
            r is Ok ==> final(self).ran()
                == old(self).ran()
                    .push(update_note_stmt(title@, content@, id))
                    .push(get_note_stmt(id)),
            final(self).setting_reads() == old(self).setting_reads(),
            final(self).settings_listed() == old(self).settings_listed(),
    {
        self.run(
            &update_note_statement(title, content, id),
            "Failed to update note",
        )?;
        self.get_note(id)
    }

    /// Deletes a note.
    pub fn delete_note(&mut self, id: i64) -> (r: Result<(), String>)
        ensures
            r matches Err(e) ==> reported(e@, "Failed to delete note"@),
            r is Ok ==> final(self).ran() == old(self).ran().push(delete_note_stmt(id)),
            r is Err ==> final(self).ran() == old(self).ran(),
            final(self).setting_reads() == old(self).setting_reads(),
            final(self).settings_listed() == old(self).settings_listed(),
    {
        self.run(&delete_note_statement(id), "Failed to delete note")
    }
}


impl Database {
    /// Recent typing as chronological (app, chars) rows: newest rows with an
    /// app name are taken until their text reaches `limit_chars` bytes (see
    /// `recent_window_spec`).
    pub fn get_recent_keystrokes(&mut self, limit_chars: i64) -> (r: Result<Vec<(String, String)>, String>)
        ensures
            r matches Ok(v) ==> exists|rows: Seq<(String, String)>|
                pairs_of(v@) == recent_window_spec(pairs_of(rows), limit_chars as int),
            r matches Err(e) ==> reported(e@, "Failed to prepare recent keystrokes"@) || reported(
                e@,
                "Failed to query keystrokes"@,
            ) || reported(e@, "Failed to read keystroke row"@),
            r is Ok ==> final(self).ran() == old(self).ran().push(get_recent_keystrokes_stmt()),
            r is Err ==> final(self).ran() == old(self).ran(),
            final(self).setting_reads() == old(self).setting_reads(),
            final(self).settings_listed() == old(self).settings_listed(),
    {
        let rows: Vec<TextPair> = self.fetch_all(
            &get_recent_keystrokes_statement(),
            "Failed to prepare recent keystrokes",
            "Failed to query keystrokes",
            "Failed to read keystroke row",
        )?;
        let pairs = text_pairs(rows);
        let w = recent_window(&pairs, limit_chars);
        Ok(w)
    }

    /// A readable summary of recent typing: bytes per app (largest first) and
    /// the number of app switches (see `keystroke_summary_spec`).
    pub fn summarize_recent_keystrokes(&mut self, limit_chars: i64) -> (r: Result<String, String>)
        ensures
            r matches Ok(s) ==> exists|rows: Seq<(String, String)>|
                s@ == keystroke_summary_spec(recent_window_spec(pairs_of(rows), limit_chars as int)),
            r matches Err(e) ==> reported(e@, "Failed to prepare recent keystrokes"@) || reported(
                e@,
                "Failed to query keystrokes"@,
            ) || reported(e@, "Failed to read keystroke row"@),
            r is Ok ==> final(self).ran() == old(self).ran().push(get_recent_keystrokes_stmt()),
            r is Err ==> final(self).ran() == old(self).ran(),
            final(self).setting_reads() == old(self).setting_reads(),
            final(self).settings_listed() == old(self).settings_listed(),
    {
        let rows = self.get_recent_keystrokes(limit_chars)?;
        Ok(keystroke_summary(&rows))
    }

    fn texts(&mut self, st: &SqlStatement, prepare_ctx: &str, query_ctx: &str, read_ctx: &str) -> (r: Result<
        Vec<String>,
        String,
    >)
        ensures
            r matches Err(e) ==> reported(e@, prepare_ctx@) || reported(e@, query_ctx@) || reported(
                e@,
                read_ctx@,
            ),
            r is Ok ==> final(self).ran() == old(self).ran().push(st@),
            r is Err ==> final(self).ran() == old(self).ran(),
            r is Err ==> final(self).ran() == old(self).ran(),
            final(self).setting_reads() == old(self).setting_reads(),
            final(self).settings_listed() == old(self).settings_listed(),
    {
        let cells: Vec<TextCell> = self.fetch_all(st, prepare_ctx, query_ctx, read_ctx)?;
        let mut out: Vec<String> = Vec::new();
        let mut i: usize = 0;
        while i < cells.len()
            invariant
                i <= cells@.len(),
            decreases cells@.len() - i,
        {
            out.push(cells[i].0.clone());
            i = i + 1;
        }
        Ok(out)
    }

    /// Suggested projects: the workspaces seen in VS Code window titles, one
    /// "Slack" project if Slack was used, and each app used at least five
    /// minutes over the last week (up to 20 apps), skipping names already
    /// taken (see `suggestions_spec`).
    pub fn suggest_projects(&mut self) -> (r: Result<Vec<ProjectSuggestion>, String>)
        ensures
            r matches Ok(v) ==> exists|
                existing: Seq<Seq<char>>,
                titles: Seq<Seq<char>>,
                has_slack: bool,
                apps: Seq<Seq<char>>,
            | suggestions_view(v@) == suggestions_spec(existing, titles, has_slack, apps),
            r matches Err(e) ==> suggestion_failure(e@),
            r is Ok ==> final(self).ran()
                == old(self).ran() + seq![list_projects_stmt(), vscode_titles_stmt(), slack_titles_stmt(), app_suggestions_stmt()],
            final(self).setting_reads() == old(self).setting_reads(),
            final(self).settings_listed() == old(self).settings_listed(),
    {
        let existing = self.list_projects()?;
        let mut names: Vec<String> = Vec::new();
        let mut i: usize = 0;
        while i < existing.len()
            invariant
                i <= existing@.len(),
            decreases existing@.len() - i,
        {
            names.push(existing[i].name.clone());
            i = i + 1;
        }
        let vscode_titles = self.texts(
            &vscode_titles_statement(),"Failed to prepare VS Code suggestion query",
            "Failed to query VS Code titles",
            "Failed to read VS Code title",
        )?;
        let slack_titles = self.texts(
            &slack_titles_statement(),"Failed to prepare Slack suggestion query",
            "Failed to query Slack titles",
            "Failed to read Slack title",
        )?;
        let app_rows: Vec<TextCount> = self.fetch_all(
            &app_suggestions_statement(),
            "Failed to prepare app suggestion query",
            "Failed to query app suggestions",
            "Failed to read app suggestion",
        )?;
        let mut apps: Vec<String> = Vec::new();
        let mut k: usize = 0;
        while k < app_rows.len()
            invariant
                k <= app_rows@.len(),
            decreases app_rows@.len() - k,
        {
            apps.push(app_rows[k].0.clone());
            k = k + 1;
        }
        let out = suggestions_from_activity(&names, &vscode_titles, slack_titles.len() > 0, &apps);
        Ok(out)
    }

    /// The number of untagged activity rows (with an app name) in both
    /// tables, and per-app counts for the 20 apps with most untagged rows.
    pub fn get_untagged_summary(&mut self) -> (r: Result<(i64, Vec<UntaggedSummaryRow>), String>)
        ensures
            r matches Ok((total, v)) ==> some_rows_yield(v@),
            r matches Err(e) ==> reported(e@, "Failed to count untagged"@) || reported(
                e@,
                "Failed to prepare untagged summary"@,
            ) || reported(e@, "Failed to query untagged summary"@) || reported(
                e@,
                "Failed to read untagged summary row"@,
            ),
            r is Ok ==> final(self).ran()
                == old(self).ran() + seq![untagged_count_stmt(), untagged_by_app_stmt()],
            r is Err ==> final(self).ran()
                == old(self).ran() || final(self).ran() == old(self).ran()
                    .push(
                untagged_count_stmt(),
            ),
            final(self).setting_reads() == old(self).setting_reads(),
            final(self).settings_listed() == old(self).settings_listed(),
    {
        let total = self.count(
            &untagged_count_statement(),
            "Failed to count untagged",
        )?;
        let rows = self.fetch_all(
            &untagged_by_app_statement(),
            "Failed to prepare untagged summary",
            "Failed to query untagged summary",
            "Failed to read untagged summary row",
        )?;
        Ok((total, rows))
    }

    /// The activity digest for the AI system prompt (see `chat_context_spec`).
    pub fn build_chat_context(&mut self) -> (r: Result<String, String>)
        ensures
            r matches Ok(s) ==> exists|
                summaries: Seq<ProjectSummary>,
                projects: Seq<Project>,
                rules: Seq<ProjectRule>,
                untagged_total: i64,
                untagged_apps: Seq<UntaggedSummaryRow>,
                top_windows: Seq<TextCount>,
            |
                s@ == chat_context_spec(
                    summaries,
                    projects,
                    rules,
                    untagged_total,
                    untagged_apps,
                    top_windows,
                ),
            r matches Err(e) ==> fetch_failure(
                e@,
                "Failed to prepare project summaries"@,
                "Failed to query project summaries"@,
                "Failed to read summary row"@,
            ) || fetch_failure(
                e@,
                "Failed to prepare list_projects"@,
                "Failed to query projects"@,
                "Failed to read project row"@,
            ) || fetch_failure(
                e@,
                "Failed to prepare get_all_rules"@,
                "Failed to query all rules"@,
                "Failed to read rule row"@,
            ) || reported(e@, "Failed to count untagged"@) || fetch_failure(
                e@,
                "Failed to prepare untagged summary"@,
                "Failed to query untagged summary"@,
                "Failed to read untagged summary row"@,
            ) || fetch_failure(
                e@,
                "Failed to prepare top windows"@,
                "Failed to query top windows"@,
                "Failed to read window row"@,
            ),
            r is Ok ==> final(self).ran() == old(self).ran() + chat_context_stmts(),
            r is Err ==> exists|k: int|
                0 <= k < chat_context_stmts().len() && final(self).ran() == old(self).ran()
                    + chat_context_stmts().take(k),
            final(self).setting_reads() == old(self).setting_reads(),
            final(self).settings_listed() == old(self).settings_listed(),
    {
        let ghost s0 = self.ran();
        let ghost c = chat_context_stmts();
        let summaries = match self.get_all_project_summaries_today() {
            Ok(v) => v,
            Err(e) => {
                assert(self.ran() =~= s0 + c.take(0));
                return Err(e);
            },
        };
        let projects = match self.list_projects() {
            Ok(v) => v,
            Err(e) => {
                assert(self.ran() =~= s0 + c.take(1));
                return Err(e);
            },
        };
        let rules = match self.get_all_rules() {
            Ok(v) => v,
            Err(e) => {
                assert(self.ran() =~= s0 + c.take(2));
                return Err(e);
            },
        };
        let ghost s3 = self.ran();
        let (untagged_total, untagged_apps) = match self.get_untagged_summary() {
            Ok(v) => v,
            Err(e) => {
                proof {
                    if self.ran() == s3 {
                        assert(self.ran() =~= s0 + c.take(3));
                    } else {
                        assert(self.ran() =~= s0 + c.take(4));
                    }
                }
                return Err(e);
            },
        };
        let top_windows = match self.get_top_windows_today() {
            Ok(v) => v,
            Err(e) => {
                assert(self.ran() =~= s0 + c.take(5));
                return Err(e);
            },
        };
        assert(self.ran() =~= s0 + c);
        Ok(chat_context_text(&summaries, &projects, &rules, untagged_total, &untagged_apps, &top_windows))
    }
}

/// The activity tables that can be tagged.
pub open spec fn known_table(t: Seq<char>) -> bool {
    t == "keystrokes"@ || t == "window_activity"@
}

/// Tag `i` is the first whose table is unknown.
pub open spec fn first_unknown(tags: Seq<ActivityTag>, i: int) -> bool {
    &&& !known_table(tags[i].table@)
    &&& forall|j: int| 0 <= j < i ==> known_table(#[trigger] tags[j].table@)
}

/// The pairs of strings held by the rows.
pub fn text_pairs(rows: Vec<TextPair>) -> (r: Vec<(String, String)>)
    ensures
        r@.len() == rows@.len(),
        forall|i: int| 0 <= i < rows@.len() ==> (#[trigger] r@[i]).0@ == rows@[i].0@ && r@[i].1@ == rows@[i].1@,
{
    let mut out: Vec<(String, String)> = Vec::new();
    let mut i: usize = 0;
    while i < rows.len()
        invariant
            i <= rows@.len(),
            out@.len() == i,
            forall|j: int| 0 <= j < i ==> (#[trigger] out@[j]).0@ == rows@[j].0@ && out@[j].1@ == rows@[j].1@,
        decreases rows@.len() - i,
    {
        let p = &rows[i];
        out.push((p.0.clone(), p.1.clone()));
        i = i + 1;
    }
    out
}

/// Whether some row that could be read has, as its second column, text
/// equal to `column`; rows that could not be read are skipped.
pub fn names_include(rows: &Vec<Result<Vec<Cell>, rusqlite::Error>>, column: &str) -> (r: bool)
    ensures
        r == exists|i: int|
            0 <= i < rows@.len() && (#[trigger] rows@[i] matches Ok(row) && text_at(row@, 1) == Some(
                column@,
            )),
{
    let mut i: usize = 0;
    while i < rows.len()
        invariant
            i <= rows@.len(),
            forall|j: int|
                0 <= j < i ==> !(#[trigger] rows@[j] matches Ok(row) && text_at(row@, 1) == Some(
                    column@,
                )),
        decreases rows@.len() - i,
    {
        if let Ok(row) = &rows[i] {
            if row.len() > 1 {
                if let Cell::Text(name) = &row[1] {
                    if text_eq(name.as_str(), column) {
                        return true;
                    }
                }
            }
        }
        i = i + 1;
    }
    false
}

/// Messages of the migration steps.
pub open spec fn migration_failure(e: Seq<char>) -> bool {
    ||| reported(e, "Failed to create schema_version table"@)
    ||| reported(e, "Failed to read schema version"@)
    ||| reported(e, "Failed to update schema version"@)
    ||| reported(e, "Migration v1 failed"@)
    ||| reported(e, "Migration v2 failed"@)
    ||| reported(e, "Migration v3 failed"@)
    ||| reported(e, "Migration v4 failed"@)
    ||| reported(e, "Migration v5 failed"@)
    ||| reported(e, "Migration v6 failed"@)
    ||| reported(e, "Migration v7 failed"@)
    ||| reported(e, "Migration v8 (tables) failed"@)
    ||| reported(e, "Migration v8 (keystrokes alter) failed"@)
    ||| reported(e, "Migration v8 (window_activity alter) failed"@)
    ||| reported(e, "Migration v8 (indexes) failed"@)
    ||| reported(e, "Migration v9 failed"@)
    ||| reported(e, "Migration v10 failed"@)
}

} // verus!
