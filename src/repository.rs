use vstd::prelude::*;
use crate::errors::AppError;
use crate::models::UpdateTaskBody;

verus! {

pub const INSERT_SQL: &'static str = "INSERT INTO tasks (id, description, completed) VALUES (?, ?, ?)";

pub const SELECT_ALL_SQL: &'static str = "SELECT id, description, completed, created_at FROM tasks";

pub const SELECT_BY_ID_SQL: &'static str =
    "SELECT id, description, completed, created_at FROM tasks WHERE id = ?";

pub const DELETE_SQL: &'static str = "DELETE FROM tasks WHERE id = ?";

pub const UPDATE_HEAD: &'static str = "UPDATE tasks SET ";

pub const UPDATE_SEPARATOR: &'static str = ", ";

pub const UPDATE_TAIL: &'static str = " WHERE id = ?";

pub const DESCRIPTION_CLAUSE: &'static str = "description = ?";

pub const COMPLETED_CLAUSE: &'static str = "completed = ?";

/// A column that an update may set.
#[derive(Debug, Clone, Copy, PartialEq, Eq)]
pub enum Column {
    Description,
    Completed,
}

impl Column {
    pub open spec fn clause_spec(self) -> Seq<char> {
        match self {
            Column::Description => DESCRIPTION_CLAUSE@,
            Column::Completed => COMPLETED_CLAUSE@,
        }
    }

    /// `<column> = ?`.
    pub fn clause(&self) -> (r: &'static str)
        ensures
            r@ == self.clause_spec(),
    {
        match self {
            Column::Description => DESCRIPTION_CLAUSE,
            Column::Completed => COMPLETED_CLAUSE,
        }
    }
}

/// The number of `?` placeholders in `s` from position `i` on.
pub open spec fn placeholders_from(s: Seq<char>, i: int) -> nat
    decreases s.len() - i,
{
    if i < 0 || i >= s.len() {
        0
    } else {
        (if s[i] == '?' {
            1nat
        } else {
            0nat
        }) + placeholders_from(s, i + 1)
    }
}

/// The number of `?` placeholders in `s`.
pub open spec fn placeholders(s: Seq<char>) -> nat {
    placeholders_from(s, 0)
}

proof fn lemma_placeholders_suffix(a: Seq<char>, b: Seq<char>, j: int)
    requires
        0 <= j,
    ensures
        placeholders_from(a + b, a.len() + j) == placeholders_from(b, j),
    decreases b.len() - j,
{
    if j < b.len() {
        lemma_placeholders_suffix(a, b, j + 1);
        assert((a + b)[a.len() + j] == b[j]);
    }
}

proof fn lemma_placeholders_concat_from(a: Seq<char>, b: Seq<char>, i: int)
    requires
        0 <= i <= a.len(),
    ensures
        placeholders_from(a + b, i) == placeholders_from(a, i) + placeholders(b),
    decreases a.len() - i,
{
    if i == a.len() {
        lemma_placeholders_suffix(a, b, 0);
    } else {
        lemma_placeholders_concat_from(a, b, i + 1);
        assert((a + b)[i] == a[i]);
    }
}

/// Placeholders of a concatenation add up.
pub proof fn lemma_placeholders_concat(a: Seq<char>, b: Seq<char>)
    ensures
        placeholders(a + b) == placeholders(a) + placeholders(b),
{
    lemma_placeholders_concat_from(a, b, 0);
}

/// The placeholders in each fixed piece of SQL text.
pub proof fn lemma_fixed_text_placeholders()
    ensures
        placeholders(INSERT_SQL@) == 3,
        placeholders(SELECT_ALL_SQL@) == 0,
        placeholders(SELECT_BY_ID_SQL@) == 1,
        placeholders(DELETE_SQL@) == 1,
        placeholders(UPDATE_HEAD@) == 0,
        placeholders(UPDATE_SEPARATOR@) == 0,
        placeholders(UPDATE_TAIL@) == 1,
        placeholders(DESCRIPTION_CLAUSE@) == 1,
        placeholders(COMPLETED_CLAUSE@) == 1,
{
    reveal_strlit("INSERT INTO tasks (id, description, completed) VALUES (?, ?, ?)");
    reveal_strlit("SELECT id, description, completed, created_at FROM tasks");
    reveal_strlit("SELECT id, description, completed, created_at FROM tasks WHERE id = ?");
    reveal_strlit("DELETE FROM tasks WHERE id = ?");
    reveal_strlit("UPDATE tasks SET ");
    reveal_strlit(", ");
    reveal_strlit(" WHERE id = ?");
    reveal_strlit("description = ?");
    reveal_strlit("completed = ?");
    reveal_with_fuel(placeholders_from, 72);
}

/// A value bound to a placeholder.
#[derive(Debug, Clone, PartialEq, Eq)]
pub enum SqlValue {
    Text(String),
    Int(i32),
}

pub enum SqlValueView {
    Text(Seq<char>),
    Int(int),
}

impl View for SqlValue {
    type V = SqlValueView;

    open spec fn view(&self) -> SqlValueView {
        match self {
            SqlValue::Text(s) => SqlValueView::Text(s@),
            SqlValue::Int(n) => SqlValueView::Int(*n as int),
        }
    }
}

impl SqlValue {
    pub fn duplicate(&self) -> (r: SqlValue)
        ensures
            r@ == self@,
    {
        match self {
            SqlValue::Text(s) => SqlValue::Text(s.clone()),
            SqlValue::Int(n) => SqlValue::Int(*n),
        }
    }
}

/// One `column = ?` of an update, with the value for its placeholder.
#[derive(Debug, Clone, PartialEq, Eq)]
pub struct Assignment {
    pub column: Column,
    pub value: SqlValue,
}

/// A parameterised statement: the `?` placeholders of `sql` take `binds`, in order.
#[derive(Debug, Clone, PartialEq, Eq)]
pub struct Statement {
    pub sql: String,
    pub binds: Vec<SqlValue>,
}

impl Statement {
    /// Each `?` of the text has exactly one bound value.
    pub open spec fn wf(&self) -> bool {
        placeholders(self.sql@) == self.binds@.len()
    }

    pub open spec fn binds_view(&self) -> Seq<SqlValueView> {
        self.binds@.map_values(|v: SqlValue| v@)
    }
}

/// What a successful update runs: the update itself, then a read of the row.
#[derive(Debug, Clone, PartialEq, Eq)]
pub struct UpdateStatements {
    pub update: Statement,
    pub reread: Statement,
}

/// The columns an update body sets, in the order they are written.
pub open spec fn update_columns(body: UpdateTaskBody) -> Seq<Column> {
    (if body.description is Some {
        seq![Column::Description]
    } else {
        seq![]
    }) + (if body.completed is Some {
        seq![Column::Completed]
    } else {
        seq![]
    })
}

/// An update statement sets a column exactly when the body supplies that
/// field, and sets it once; so an unsupplied field is never touched.
pub proof fn lemma_update_sets_only_supplied(body: UpdateTaskBody)
    ensures
        update_columns(body).contains(Column::Description) <==> body.description is Some,
        update_columns(body).contains(Column::Completed) <==> body.completed is Some,
        update_columns(body).no_duplicates(),
        update_columns(body).len() == update_values(body).len(),
{
    let cols = update_columns(body);
    if body.description is Some {
        assert(cols[0] == Column::Description);
    }
    if body.completed is Some {
        assert(cols[cols.len() - 1] == Column::Completed);
    }
}

/// The values an update body binds, in the same order as its columns.
pub open spec fn update_values(body: UpdateTaskBody) -> Seq<SqlValueView> {
    (match body.description {
        Some(d) => seq![SqlValueView::Text(d@)],
        None => seq![],
    }) + (match body.completed {
        Some(c) => seq![SqlValueView::Int(c as int)],
        None => seq![],
    })
}

/// `c1 = ?, c2 = ?, ...` for the columns of `cols`.
pub open spec fn set_list(cols: Seq<Column>) -> Seq<char>
    decreases cols.len(),
{
    if cols.len() == 0 {
        seq![]
    } else if cols.len() == 1 {
        cols[0].clause_spec()
    } else {
        set_list(cols.drop_last()) + UPDATE_SEPARATOR@ + cols.last().clause_spec()
    }
}

/// A list of `n` set clauses holds `n` placeholders.
pub proof fn lemma_set_list_placeholders(cols: Seq<Column>)
    ensures
        placeholders(set_list(cols)) == cols.len(),
    decreases cols.len(),
{
    lemma_fixed_text_placeholders();
    if cols.len() == 1 {
        assert(cols[0].clause_spec() == DESCRIPTION_CLAUSE@ || cols[0].clause_spec() == COMPLETED_CLAUSE@);
    } else if cols.len() > 1 {
        lemma_set_list_placeholders(cols.drop_last());
        lemma_placeholders_concat(set_list(cols.drop_last()), UPDATE_SEPARATOR@);
        lemma_placeholders_concat(set_list(cols.drop_last()) + UPDATE_SEPARATOR@, cols.last().clause_spec());
        assert(cols.last().clause_spec() == DESCRIPTION_CLAUSE@ || cols.last().clause_spec() == COMPLETED_CLAUSE@);
    }
}

/// The update statement's text for the columns of `cols`.
pub open spec fn update_sql(cols: Seq<Column>) -> Seq<char> {
    UPDATE_HEAD@ + set_list(cols) + UPDATE_TAIL@
}

/// Builds the parameterised SQL for each request against the tasks table.
pub struct TaskRepository;

impl TaskRepository {
    pub fn insert_task(id: &str, description: &str, completed: i32) -> (r: Statement)
        ensures
            r.wf(),
            r.sql@ == INSERT_SQL@,
            r.binds_view() == seq![
                SqlValueView::Text(id@),
                SqlValueView::Text(description@),
                SqlValueView::Int(completed as int),
            ],
    {
        let mut binds: Vec<SqlValue> = Vec::new();
        binds.push(SqlValue::Text(String::from_str(id)));
        binds.push(SqlValue::Text(String::from_str(description)));
        binds.push(SqlValue::Int(completed));
        let r = Statement { sql: String::from_str(INSERT_SQL), binds };
        proof {
            lemma_fixed_text_placeholders();
        }
        assert(r.binds_view() =~= seq![
            SqlValueView::Text(id@),
            SqlValueView::Text(description@),
            SqlValueView::Int(completed as int),
        ]);
        r
    }

    pub fn fetch_tasks() -> (r: Statement)
        ensures
            r.wf(),
            r.sql@ == SELECT_ALL_SQL@,
            r.binds@.len() == 0,
    {
        proof {
            lemma_fixed_text_placeholders();
        }
        Statement { sql: String::from_str(SELECT_ALL_SQL), binds: Vec::new() }
    }

    /// The ordered (column, value) pairs of an update: the description first.
    pub fn assignments(body: &UpdateTaskBody) -> (r: Vec<Assignment>)
        ensures
            r@.map_values(|a: Assignment| a.column) == update_columns(*body),
            r@.map_values(|a: Assignment| a.value@) == update_values(*body),
    {
        let mut r: Vec<Assignment> = Vec::new();
        if let Some(d) = &body.description {
            r.push(Assignment { column: Column::Description, value: SqlValue::Text(d.clone()) });
        }
        if let Some(c) = body.completed {
            r.push(Assignment { column: Column::Completed, value: SqlValue::Int(c) });
        }
        assert(r@.map_values(|a: Assignment| a.column) =~= update_columns(*body));
        assert(r@.map_values(|a: Assignment| a.value@) =~= update_values(*body));
        r
    }

    /// An update that sets nothing is refused. Otherwise each supplied field
    /// adds one `column = ?` and binds its value, in one pass over the
    /// assignments, and the id is bound last for the `WHERE`.
    pub fn update_task(id: &str, body: &UpdateTaskBody) -> (r: Result<UpdateStatements, AppError>)
        ensures
            (body.description is None && body.completed is None) <==> (r matches Err(
                AppError::InvalidUpdate,
            )),
            !(body.description is None && body.completed is None) ==> (r matches Ok(s) && {
                &&& s.update.wf() && s.reread.wf()
                &&& s.update.sql@ == update_sql(update_columns(*body))
                &&& s.update.binds_view() == update_values(*body).push(SqlValueView::Text(id@))
                &&& s.reread.sql@ == SELECT_BY_ID_SQL@
                &&& s.reread.binds_view() == seq![SqlValueView::Text(id@)]
            }),
    {
        let assigns = Self::assignments(body);
        assert(assigns@.map_values(|a: Assignment| a.column).len() == assigns@.len());
        if assigns.len() == 0 {
            return Err(AppError::InvalidUpdate);
        }
        let ghost cols = assigns@.map_values(|a: Assignment| a.column);
        let ghost vals = assigns@.map_values(|a: Assignment| a.value@);
        let mut sql = String::from_str(UPDATE_HEAD);
        let mut binds: Vec<SqlValue> = Vec::new();
        let mut i: usize = 0;
        while i < assigns.len()
            invariant
                0 <= i <= assigns@.len(),
                cols == assigns@.map_values(|a: Assignment| a.column),
                vals == assigns@.map_values(|a: Assignment| a.value@),
                sql@ == UPDATE_HEAD@ + set_list(cols.take(i as int)),
                binds@.map_values(|v: SqlValue| v@) == vals.take(i as int),
            decreases assigns@.len() - i,
        {
            assert(cols.take(i + 1).drop_last() =~= cols.take(i as int));
            assert(vals.take(i + 1) =~= vals.take(i as int).push(assigns@[i as int].value@));
            if i > 0 {
                sql.append(UPDATE_SEPARATOR);
            }
            sql.append(assigns[i].column.clause());
            binds.push(assigns[i].value.duplicate());
            assert(binds@.map_values(|v: SqlValue| v@) =~= vals.take(i + 1));
            i = i + 1;
        }
        assert(cols.take(i as int) =~= cols);
        assert(vals.take(i as int) =~= vals);
        sql.append(UPDATE_TAIL);
        binds.push(SqlValue::Text(String::from_str(id)));
        let update = Statement { sql, binds };
        assert(update.binds_view() =~= update_values(*body).push(SqlValueView::Text(id@)));
        let mut reread_binds: Vec<SqlValue> = Vec::new();
        reread_binds.push(SqlValue::Text(String::from_str(id)));
        let reread = Statement { sql: String::from_str(SELECT_BY_ID_SQL), binds: reread_binds };
        assert(reread.binds_view() =~= seq![SqlValueView::Text(id@)]);
        proof {
            lemma_fixed_text_placeholders();
            lemma_set_list_placeholders(cols);
            lemma_placeholders_concat(UPDATE_HEAD@, set_list(cols));
            lemma_placeholders_concat(UPDATE_HEAD@ + set_list(cols), UPDATE_TAIL@);
            assert(update.binds@.len() == update.binds_view().len());
        }
        Ok(UpdateStatements { update, reread })
    }

    pub fn delete_task(id: String) -> (r: Statement)
        ensures
            r.wf(),
            r.sql@ == DELETE_SQL@,
            r.binds_view() == seq![SqlValueView::Text(id@)],
    {
        let ghost id_view = id@;
        let mut binds: Vec<SqlValue> = Vec::new();
        binds.push(SqlValue::Text(id));
        let r = Statement { sql: String::from_str(DELETE_SQL), binds };
        proof {
            lemma_fixed_text_placeholders();
        }
        assert(r.binds_view() =~= seq![SqlValueView::Text(id_view)]);
        r
    }
}

} // verus!
