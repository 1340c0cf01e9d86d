//! The rows the database hands out, and how each is read from a result row.
use vstd::prelude::*;
use crate::sql::{
    cell_i32, cell_i64, cell_opt_i64, cell_opt_text, cell_text, i32_at, int_at, opt_int_at,
    opt_text_at, opt_view, row_of_kinds, text_at, Cell, ColumnKind,
};

verus! {

/// A record type that is read from one result row.
pub trait FromRow: Sized {
    /// `x` is what reading `row` yields.
    spec fn row_yields(row: Seq<Cell>, x: Self) -> bool;

    /// The kinds the columns are read as, in order.
    spec fn kinds_spec() -> Seq<ColumnKind>;

    fn kinds() -> (r: Vec<ColumnKind>)
        ensures
            r@ == Self::kinds_spec(),
    ;

    fn from_row(row: &Vec<Cell>) -> (r: Self)
        requires
            row_of_kinds(row@, Self::kinds_spec()),
        ensures
            Self::row_yields(row@, r),
    ;
}

/// A logged UI or system event.
#[derive(Debug)]
pub struct Event {
    pub id: i64,
    pub event_type: String,
    pub payload: String,
    pub created_at: String,
}

impl FromRow for Event {
    open spec fn row_yields(row: Seq<Cell>, x: Self) -> bool {
        &&& int_at(row, 0) == Some(x.id)
        &&& text_at(row, 1) == Some(x.event_type@)
        &&& text_at(row, 2) == Some(x.payload@)
        &&& text_at(row, 3) == Some(x.created_at@)
    }

    open spec fn kinds_spec() -> Seq<ColumnKind> {
        seq![ColumnKind::Int, ColumnKind::Text, ColumnKind::Text, ColumnKind::Text]
    }

    fn kinds() -> (r: Vec<ColumnKind>) {
        vec![ColumnKind::Int, ColumnKind::Text, ColumnKind::Text, ColumnKind::Text]
    }

    fn from_row(row: &Vec<Cell>) -> (r: Self) {
        Event {
            id: cell_i64(row, 0),
            event_type: cell_text(row, 1),
            payload: cell_text(row, 2),
            created_at: cell_text(row, 3),
        }
    }
}

/// A chat conversation.
#[derive(Debug, Clone)]
pub struct Conversation {
    pub id: i64,
    pub title: String,
    pub created_at: String,
    pub updated_at: String,
    pub active_root_message_id: Option<i64>,
}

impl FromRow for Conversation {
    open spec fn row_yields(row: Seq<Cell>, x: Self) -> bool {
        &&& int_at(row, 0) == Some(x.id)
        &&& text_at(row, 1) == Some(x.title@)
        &&& text_at(row, 2) == Some(x.created_at@)
        &&& text_at(row, 3) == Some(x.updated_at@)
        &&& opt_int_at(row, 4) == Some(x.active_root_message_id)
    }

    open spec fn kinds_spec() -> Seq<ColumnKind> {
        seq![ColumnKind::Int, ColumnKind::Text, ColumnKind::Text, ColumnKind::Text, ColumnKind::OptInt]
    }

    fn kinds() -> (r: Vec<ColumnKind>) {
        vec![ColumnKind::Int, ColumnKind::Text, ColumnKind::Text, ColumnKind::Text, ColumnKind::OptInt]
    }

    fn from_row(row: &Vec<Cell>) -> (r: Self) {
        Conversation {
            id: cell_i64(row, 0),
            title: cell_text(row, 1),
            created_at: cell_text(row, 2),
            updated_at: cell_text(row, 3),
            active_root_message_id: cell_opt_i64(row, 4),
        }
    }
}

/// A message in a conversation tree.
#[derive(Debug, Clone)]
pub struct ChatMessageRow {
    pub id: i64,
    pub conversation_id: i64,
    pub parent_id: Option<i64>,
    pub role: String,
    pub content: String,
    pub model: Option<String>,
    pub created_at: String,
    pub active_child_id: Option<i64>,
}

impl FromRow for ChatMessageRow {
    open spec fn row_yields(row: Seq<Cell>, x: Self) -> bool {
        &&& int_at(row, 0) == Some(x.id)
        &&& int_at(row, 1) == Some(x.conversation_id)
        &&& opt_int_at(row, 2) == Some(x.parent_id)
        &&& text_at(row, 3) == Some(x.role@)
        &&& text_at(row, 4) == Some(x.content@)
        &&& opt_text_at(row, 5) == Some(opt_view(x.model))
        &&& text_at(row, 6) == Some(x.created_at@)
        &&& opt_int_at(row, 7) == Some(x.active_child_id)
    }

    open spec fn kinds_spec() -> Seq<ColumnKind> {
        seq![ColumnKind::Int, ColumnKind::Int, ColumnKind::OptInt, ColumnKind::Text, ColumnKind::Text, ColumnKind::OptText, ColumnKind::Text, ColumnKind::OptInt]
    }

    fn kinds() -> (r: Vec<ColumnKind>) {
        vec![ColumnKind::Int, ColumnKind::Int, ColumnKind::OptInt, ColumnKind::Text, ColumnKind::Text, ColumnKind::OptText, ColumnKind::Text, ColumnKind::OptInt]
    }

    fn from_row(row: &Vec<Cell>) -> (r: Self) {
        ChatMessageRow {
            id: cell_i64(row, 0),
            conversation_id: cell_i64(row, 1),
            parent_id: cell_opt_i64(row, 2),
            role: cell_text(row, 3),
            content: cell_text(row, 4),
            model: cell_opt_text(row, 5),
            created_at: cell_text(row, 6),
            active_child_id: cell_opt_i64(row, 7),
        }
    }
}

/// A to-do item; `completed` and `archived` are stored as integers, non-zero meaning set.
#[derive(Debug, Clone)]
pub struct Task {
    pub id: i64,
    pub content: String,
    pub completed: bool,
    pub archived: bool,
    pub window_title: String,
    pub created_at: String,
    pub completed_at: Option<String>,
}

impl FromRow for Task {
    open spec fn row_yields(row: Seq<Cell>, x: Self) -> bool {
        &&& int_at(row, 0) == Some(x.id)
        &&& text_at(row, 1) == Some(x.content@)
        &&& i32_at(row, 2) is Some && x.completed == (i32_at(row, 2)->0 != 0)
        &&& i32_at(row, 3) is Some && x.archived == (i32_at(row, 3)->0 != 0)
        &&& text_at(row, 4) == Some(x.window_title@)
        &&& text_at(row, 5) == Some(x.created_at@)
        &&& opt_text_at(row, 6) == Some(opt_view(x.completed_at))
    }

    open spec fn kinds_spec() -> Seq<ColumnKind> {
        seq![ColumnKind::Int, ColumnKind::Text, ColumnKind::Int32, ColumnKind::Int32, ColumnKind::Text, ColumnKind::Text, ColumnKind::OptText]
    }

    fn kinds() -> (r: Vec<ColumnKind>) {
        vec![ColumnKind::Int, ColumnKind::Text, ColumnKind::Int32, ColumnKind::Int32, ColumnKind::Text, ColumnKind::Text, ColumnKind::OptText]
    }

    fn from_row(row: &Vec<Cell>) -> (r: Self) {
        Task {
            id: cell_i64(row, 0),
            content: cell_text(row, 1),
            completed: cell_i32(row, 2) != 0,
            archived: cell_i32(row, 3) != 0,
            window_title: cell_text(row, 4),
            created_at: cell_text(row, 5),
            completed_at: cell_opt_text(row, 6),
        }
    }
}

/// A user-defined project that activity can be tagged with.
#[derive(Debug, Clone)]
pub struct Project {
    pub id: i64,
    pub name: String,
    pub description: String,
    pub color: String,
    pub created_at: String,
}

impl FromRow for Project {
    open spec fn row_yields(row: Seq<Cell>, x: Self) -> bool {
        &&& int_at(row, 0) == Some(x.id)
        &&& text_at(row, 1) == Some(x.name@)
        &&& text_at(row, 2) == Some(x.description@)
        &&& text_at(row, 3) == Some(x.color@)
        &&& text_at(row, 4) == Some(x.created_at@)
    }

    open spec fn kinds_spec() -> Seq<ColumnKind> {
        seq![ColumnKind::Int, ColumnKind::Text, ColumnKind::Text, ColumnKind::Text, ColumnKind::Text]
    }

    fn kinds() -> (r: Vec<ColumnKind>) {
        vec![ColumnKind::Int, ColumnKind::Text, ColumnKind::Text, ColumnKind::Text, ColumnKind::Text]
    }

    fn from_row(row: &Vec<Cell>) -> (r: Self) {
        Project {
            id: cell_i64(row, 0),
            name: cell_text(row, 1),
            description: cell_text(row, 2),
            color: cell_text(row, 3),
            created_at: cell_text(row, 4),
        }
    }
}

/// A matching rule (a JSONata expression) that assigns activity to a project.
#[derive(Debug, Clone)]
pub struct ProjectRule {
    pub id: i64,
    pub project_id: i64,
    pub expression: String,
    pub priority: i32,
    pub created_at: String,
}

impl FromRow for ProjectRule {
    open spec fn row_yields(row: Seq<Cell>, x: Self) -> bool {
        &&& int_at(row, 0) == Some(x.id)
        &&& int_at(row, 1) == Some(x.project_id)
        &&& text_at(row, 2) == Some(x.expression@)
        &&& i32_at(row, 3) == Some(x.priority)
        &&& text_at(row, 4) == Some(x.created_at@)
    }

    open spec fn kinds_spec() -> Seq<ColumnKind> {
        seq![ColumnKind::Int, ColumnKind::Int, ColumnKind::Text, ColumnKind::Int32, ColumnKind::Text]
    }

    fn kinds() -> (r: Vec<ColumnKind>) {
        vec![ColumnKind::Int, ColumnKind::Int, ColumnKind::Text, ColumnKind::Int32, ColumnKind::Text]
    }

    fn from_row(row: &Vec<Cell>) -> (r: Self) {
        ProjectRule {
            id: cell_i64(row, 0),
            project_id: cell_i64(row, 1),
            expression: cell_text(row, 2),
            priority: cell_i32(row, 3),
            created_at: cell_text(row, 4),
        }
    }
}

/// A keystroke or window-activity row not yet assigned to a project.
#[derive(Debug, Clone)]
pub struct UntaggedActivity {
    pub table: String,
    pub id: i64,
    pub app_name: String,
    pub window_title: String,
}

impl FromRow for UntaggedActivity {
    open spec fn row_yields(row: Seq<Cell>, x: Self) -> bool {
        &&& text_at(row, 0) == Some(x.table@)
        &&& int_at(row, 1) == Some(x.id)
        &&& text_at(row, 2) == Some(x.app_name@)
        &&& text_at(row, 3) == Some(x.window_title@)
    }

    open spec fn kinds_spec() -> Seq<ColumnKind> {
        seq![ColumnKind::Text, ColumnKind::Int, ColumnKind::Text, ColumnKind::Text]
    }

    fn kinds() -> (r: Vec<ColumnKind>) {
        vec![ColumnKind::Text, ColumnKind::Int, ColumnKind::Text, ColumnKind::Text]
    }

    fn from_row(row: &Vec<Cell>) -> (r: Self) {
        UntaggedActivity {
            table: cell_text(row, 0),
            id: cell_i64(row, 1),
            app_name: cell_text(row, 2),
            window_title: cell_text(row, 3),
        }
    }
}

/// A request to tag one activity row (of table `table`) with a project.
#[derive(Debug)]
pub struct ActivityTag {
    pub table: String,
    pub id: i64,
    pub project_id: i64,
}

/// A proposed project: a name and its matching rules.
#[derive(Debug, Clone)]
pub struct ProjectSuggestion {
    pub name: String,
    pub rules: Vec<String>,
}

/// Time spent in one window of one app.
#[derive(Debug)]
pub struct ActivitySummaryRow {
    pub app_name: String,
    pub window_title: String,
    pub total_duration_secs: i64,
}

impl FromRow for ActivitySummaryRow {
    open spec fn row_yields(row: Seq<Cell>, x: Self) -> bool {
        &&& text_at(row, 0) == Some(x.app_name@)
        &&& text_at(row, 1) == Some(x.window_title@)
        &&& int_at(row, 2) == Some(x.total_duration_secs)
    }

    open spec fn kinds_spec() -> Seq<ColumnKind> {
        seq![ColumnKind::Text, ColumnKind::Text, ColumnKind::Int]
    }

    fn kinds() -> (r: Vec<ColumnKind>) {
        vec![ColumnKind::Text, ColumnKind::Text, ColumnKind::Int]
    }

    fn from_row(row: &Vec<Cell>) -> (r: Self) {
        ActivitySummaryRow {
            app_name: cell_text(row, 0),
            window_title: cell_text(row, 1),
            total_duration_secs: cell_i64(row, 2),
        }
    }
}

/// Today's totals for one project.
#[derive(Debug, Clone)]
pub struct ProjectSummary {
    pub project_id: Option<i64>,
    pub name: String,
    pub color: String,
    pub keystroke_count: i64,
    pub active_secs: i64,
}

impl FromRow for ProjectSummary {
    open spec fn row_yields(row: Seq<Cell>, x: Self) -> bool {
        &&& int_at(row, 0) is Some && x.project_id == Some(int_at(row, 0)->0)
        &&& text_at(row, 1) == Some(x.name@)
        &&& text_at(row, 2) == Some(x.color@)
        &&& int_at(row, 3) == Some(x.keystroke_count)
        &&& int_at(row, 4) == Some(x.active_secs)
    }

    open spec fn kinds_spec() -> Seq<ColumnKind> {
        seq![ColumnKind::Int, ColumnKind::Text, ColumnKind::Text, ColumnKind::Int, ColumnKind::Int]
    }

    fn kinds() -> (r: Vec<ColumnKind>) {
        vec![ColumnKind::Int, ColumnKind::Text, ColumnKind::Text, ColumnKind::Int, ColumnKind::Int]
    }

    fn from_row(row: &Vec<Cell>) -> (r: Self) {
        ProjectSummary {
            project_id: Some(cell_i64(row, 0)),
            name: cell_text(row, 1),
            color: cell_text(row, 2),
            keystroke_count: cell_i64(row, 3),
            active_secs: cell_i64(row, 4),
        }
    }
}

/// Untagged row counts for one app.
#[derive(Debug, Clone)]
pub struct UntaggedSummaryRow {
    pub app_name: String,
    pub keystroke_rows: i64,
    pub window_rows: i64,
    pub total: i64,
}

impl FromRow for UntaggedSummaryRow {
    open spec fn row_yields(row: Seq<Cell>, x: Self) -> bool {
        &&& text_at(row, 0) == Some(x.app_name@)
        &&& int_at(row, 1) == Some(x.keystroke_rows)
        &&& int_at(row, 2) == Some(x.window_rows)
        &&& int_at(row, 3) == Some(x.total)
    }

    open spec fn kinds_spec() -> Seq<ColumnKind> {
        seq![ColumnKind::Text, ColumnKind::Int, ColumnKind::Int, ColumnKind::Int]
    }

    fn kinds() -> (r: Vec<ColumnKind>) {
        vec![ColumnKind::Text, ColumnKind::Int, ColumnKind::Int, ColumnKind::Int]
    }

    fn from_row(row: &Vec<Cell>) -> (r: Self) {
        UntaggedSummaryRow {
            app_name: cell_text(row, 0),
            keystroke_rows: cell_i64(row, 1),
            window_rows: cell_i64(row, 2),
            total: cell_i64(row, 3),
        }
    }
}

/// A free-form note.
#[derive(Debug, Clone)]
pub struct Note {
    pub id: i64,
    pub title: String,
    pub content: String,
    pub created_at: String,
    pub updated_at: String,
}

impl FromRow for Note {
    open spec fn row_yields(row: Seq<Cell>, x: Self) -> bool {
        &&& int_at(row, 0) == Some(x.id)
        &&& text_at(row, 1) == Some(x.title@)
        &&& text_at(row, 2) == Some(x.content@)
        &&& text_at(row, 3) == Some(x.created_at@)
        &&& text_at(row, 4) == Some(x.updated_at@)
    }

    open spec fn kinds_spec() -> Seq<ColumnKind> {
        seq![ColumnKind::Int, ColumnKind::Text, ColumnKind::Text, ColumnKind::Text, ColumnKind::Text]
    }

    fn kinds() -> (r: Vec<ColumnKind>) {
        vec![ColumnKind::Int, ColumnKind::Text, ColumnKind::Text, ColumnKind::Text, ColumnKind::Text]
    }

    fn from_row(row: &Vec<Cell>) -> (r: Self) {
        Note {
            id: cell_i64(row, 0),
            title: cell_text(row, 1),
            content: cell_text(row, 2),
            created_at: cell_text(row, 3),
            updated_at: cell_text(row, 4),
        }
    }
}

/// A window-activity row tagged with a project.
#[derive(Debug, Clone)]
pub struct ProjectActivity {
    pub id: i64,
    pub app_name: String,
    pub window_title: String,
    pub duration_secs: i64,
    pub started_at: String,
}

impl FromRow for ProjectActivity {
    open spec fn row_yields(row: Seq<Cell>, x: Self) -> bool {
        &&& int_at(row, 0) == Some(x.id)
        &&& text_at(row, 1) == Some(x.app_name@)
        &&& text_at(row, 2) == Some(x.window_title@)
        &&& int_at(row, 3) == Some(x.duration_secs)
        &&& text_at(row, 4) == Some(x.started_at@)
    }

    open spec fn kinds_spec() -> Seq<ColumnKind> {
        seq![ColumnKind::Int, ColumnKind::Text, ColumnKind::Text, ColumnKind::Int, ColumnKind::Text]
    }

    fn kinds() -> (r: Vec<ColumnKind>) {
        vec![ColumnKind::Int, ColumnKind::Text, ColumnKind::Text, ColumnKind::Int, ColumnKind::Text]
    }

    fn from_row(row: &Vec<Cell>) -> (r: Self) {
        ProjectActivity {
            id: cell_i64(row, 0),
            app_name: cell_text(row, 1),
            window_title: cell_text(row, 2),
            duration_secs: cell_i64(row, 3),
            started_at: cell_text(row, 4),
        }
    }
}

/// A pair of text columns, such as (key, value) or (app, chars).
#[derive(Debug)]
pub struct TextPair(pub String, pub String);

impl FromRow for TextPair {
    open spec fn row_yields(row: Seq<Cell>, x: Self) -> bool {
        &&& text_at(row, 0) == Some(x.0@)
        &&& text_at(row, 1) == Some(x.1@)
    }

    open spec fn kinds_spec() -> Seq<ColumnKind> {
        seq![ColumnKind::Text, ColumnKind::Text]
    }

    fn kinds() -> (r: Vec<ColumnKind>) {
        vec![ColumnKind::Text, ColumnKind::Text]
    }

    fn from_row(row: &Vec<Cell>) -> (r: Self) {
        TextPair(cell_text(row, 0), cell_text(row, 1))
    }
}

/// A text column and an integer column, such as (app, seconds).
#[derive(Debug)]
pub struct TextCount(pub String, pub i64);

impl FromRow for TextCount {
    open spec fn row_yields(row: Seq<Cell>, x: Self) -> bool {
        &&& text_at(row, 0) == Some(x.0@)
        &&& int_at(row, 1) == Some(x.1)
    }

    open spec fn kinds_spec() -> Seq<ColumnKind> {
        seq![ColumnKind::Text, ColumnKind::Int]
    }

    fn kinds() -> (r: Vec<ColumnKind>) {
        vec![ColumnKind::Text, ColumnKind::Int]
    }

    fn from_row(row: &Vec<Cell>) -> (r: Self) {
        TextCount(cell_text(row, 0), cell_i64(row, 1))
    }
}

/// A single text column.
#[derive(Debug)]
pub struct TextCell(pub String);

impl FromRow for TextCell {
    open spec fn row_yields(row: Seq<Cell>, x: Self) -> bool {
        text_at(row, 0) == Some(x.0@)
    }

    open spec fn kinds_spec() -> Seq<ColumnKind> {
        seq![ColumnKind::Text]
    }

    fn kinds() -> (r: Vec<ColumnKind>) {
        vec![ColumnKind::Text]
    }

    fn from_row(row: &Vec<Cell>) -> (r: Self) {
        TextCell(cell_text(row, 0))
    }
}

/// A single integer column.
#[derive(Debug)]
pub struct IntCell(pub i64);

impl FromRow for IntCell {
    open spec fn row_yields(row: Seq<Cell>, x: Self) -> bool {
        int_at(row, 0) == Some(x.0)
    }

    open spec fn kinds_spec() -> Seq<ColumnKind> {
        seq![ColumnKind::Int]
    }

    fn kinds() -> (r: Vec<ColumnKind>) {
        vec![ColumnKind::Int]
    }

    fn from_row(row: &Vec<Cell>) -> (r: Self) {
        IntCell(cell_i64(row, 0))
    }
}

/// A single integer column read as an `i32`.
#[derive(Debug)]
pub struct I32Cell(pub i32);

impl FromRow for I32Cell {
    open spec fn row_yields(row: Seq<Cell>, x: Self) -> bool {
        i32_at(row, 0) == Some(x.0)
    }

    open spec fn kinds_spec() -> Seq<ColumnKind> {
        seq![ColumnKind::Int32]
    }

    fn kinds() -> (r: Vec<ColumnKind>) {
        vec![ColumnKind::Int32]
    }

    fn from_row(row: &Vec<Cell>) -> (r: Self) {
        I32Cell(cell_i32(row, 0))
    }
}

/// Every row of `rows` yields the record at the same position of `xs`.
pub open spec fn rows_yield<T: FromRow>(rows: Seq<Vec<Cell>>, xs: Seq<T>) -> bool {
    &&& rows.len() == xs.len()
    &&& forall|i: int| 0 <= i < rows.len() ==> T::row_yields(#[trigger] rows[i]@, xs[i])
}

/// Reads the rows that were read as `T`'s kinds, in order, stopping at the
/// first row that could not be read and giving its error.
pub fn read_rows<T: FromRow>(rows: &Vec<Result<Vec<Cell>, rusqlite::Error>>) -> (r: Result<
    Vec<T>,
    &rusqlite::Error,
>)
    requires
        forall|i: int|
            0 <= i < rows@.len() ==> (#[trigger] rows@[i] matches Ok(row) ==> row_of_kinds(
                row@,
                T::kinds_spec(),
            )),
    ensures
        r matches Ok(xs) ==> exists|cells: Seq<Vec<Cell>>| #[trigger] rows_yield(cells, xs@),
        r is Ok <==> forall|i: int| 0 <= i < rows@.len() ==> #[trigger] rows@[i] is Ok,
{
    let mut out: Vec<T> = Vec::new();
    let ghost mut cells: Seq<Vec<Cell>> = Seq::empty();
    let mut i: usize = 0;
    while i < rows.len()
        invariant
            i <= rows@.len(),
            forall|j: int|
                0 <= j < rows@.len() ==> (#[trigger] rows@[j] matches Ok(row) ==> row_of_kinds(
                    row@,
                    T::kinds_spec(),
                )),
            cells.len() == i,
            rows_yield(cells, out@),
            forall|j: int| 0 <= j < i ==> #[trigger] rows@[j] == Ok::<Vec<Cell>, rusqlite::Error>(cells[j]),
        decreases rows@.len() - i,
    {
        match &rows[i] {
            Ok(row) => {
                let x = T::from_row(row);
                out.push(x);
                proof {
                    cells = cells.push(*row);
                }
            },
            Err(e) => {
                return Err(e);
            },
        }
        i = i + 1;
    }
    let r: Result<Vec<T>, &rusqlite::Error> = Ok(out);
    assert(r matches Ok(xs) && xs@ == out@);
    r
}

} // verus!
