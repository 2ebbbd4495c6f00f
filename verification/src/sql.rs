//! Parameterised statements for a relational store: the text of a statement
//! never holds a value from outside, the values travel beside it as bound
//! parameters, and a column that a statement names is one of a fixed set.

use vstd::prelude::*;
use vstd::string::StringExecFns;
use crate::records::{int_of, str_of};
use crate::stage::Stage;

verus! {

/// A value bound to a parameter of a statement.
#[derive(Debug, PartialEq, Eq)]
pub enum SqlValue {
    Null,
    Integer(i64),
    Text(String),
}

/// What a [`SqlValue`] says.
pub enum SqlValueView {
    Null,
    Integer(int),
    Text(Seq<char>),
}

impl View for SqlValue {
    type V = SqlValueView;

    open spec fn view(&self) -> SqlValueView {
        match self {
            SqlValue::Null => SqlValueView::Null,
            SqlValue::Integer(n) => SqlValueView::Integer(*n as int),
            SqlValue::Text(s) => SqlValueView::Text(s@),
        }
    }
}

/// A text that is bound where there is one, and a null where there is none.
pub open spec fn text_or_null(o: Option<Seq<char>>) -> SqlValueView {
    match o {
        Some(s) => SqlValueView::Text(s),
        None => SqlValueView::Null,
    }
}

/// An integer that is bound where there is one, and a null where there is
/// none.
pub open spec fn integer_or_null(o: Option<int>) -> SqlValueView {
    match o {
        Some(n) => SqlValueView::Integer(n),
        None => SqlValueView::Null,
    }
}

/// A statement: its text, with the places `?1`, `?2`, ... for its
/// parameters, and the values bound to the places, in their order.
#[derive(Debug, PartialEq, Eq)]
pub struct Statement {
    pub sql: String,
    pub params: Vec<SqlValue>,
}

/// What a [`Statement`] says.
pub struct StatementView {
    pub sql: Seq<char>,
    pub params: Seq<SqlValueView>,
}

impl View for Statement {
    type V = StatementView;

    open spec fn view(&self) -> StatementView {
        StatementView { sql: self.sql@, params: self.params@.map_values(|v: SqlValue| v@) }
    }
}

/// Binds a text.
pub fn text(s: &str) -> (value: SqlValue)
    ensures
        value@ == SqlValueView::Text(s@),
{
    SqlValue::Text(s.to_owned())
}

/// Binds a text where there is one, and a null where there is none.
pub fn optional_text(o: Option<&str>) -> (value: SqlValue)
    ensures
        value@ == text_or_null(str_of(o)),
{
    match o {
        Some(s) => SqlValue::Text(s.to_owned()),
        None => SqlValue::Null,
    }
}

/// Binds an integer where there is one, and a null where there is none.
pub fn optional_integer(o: Option<i64>) -> (value: SqlValue)
    ensures
        value@ == integer_or_null(int_of(o)),
{
    match o {
        Some(n) => SqlValue::Integer(n),
        None => SqlValue::Null,
    }
}

/// The character of a decimal digit.
pub open spec fn digit_char(d: nat) -> char {
    if d == 0 {
        '0'
    } else if d == 1 {
        '1'
    } else if d == 2 {
        '2'
    } else if d == 3 {
        '3'
    } else if d == 4 {
        '4'
    } else if d == 5 {
        '5'
    } else if d == 6 {
        '6'
    } else if d == 7 {
        '7'
    } else if d == 8 {
        '8'
    } else {
        '9'
    }
}

/// A number in decimal digits, without a sign and without leading zeros.
pub open spec fn decimal_text(n: nat) -> Seq<char>
    decreases n,
{
    if n < 10 {
        seq![digit_char(n)]
    } else {
        decimal_text(n / 10).push(digit_char(n % 10))
    }
}

/// The text of one decimal digit.
fn digit_text(d: usize) -> (text: &'static str)
    requires
        d < 10,
    ensures
        text@ == seq![digit_char(d as nat)],
{
    proof {
        reveal_strlit("0");
        reveal_strlit("1");
        reveal_strlit("2");
        reveal_strlit("3");
        reveal_strlit("4");
        reveal_strlit("5");
        reveal_strlit("6");
        reveal_strlit("7");
        reveal_strlit("8");
        reveal_strlit("9");
    }
    let text = if d == 0 {
        "0"
    } else if d == 1 {
        "1"
    } else if d == 2 {
        "2"
    } else if d == 3 {
        "3"
    } else if d == 4 {
        "4"
    } else if d == 5 {
        "5"
    } else if d == 6 {
        "6"
    } else if d == 7 {
        "7"
    } else if d == 8 {
        "8"
    } else {
        "9"
    };
    assert(text@ =~= seq![digit_char(d as nat)]);
    text
}

/// Writes a number in decimal digits.
pub fn decimal(n: usize) -> (text: String)
    ensures
        text@ == decimal_text(n as nat),
    decreases n,
{
    if n < 10 {
        digit_text(n).to_owned()
    } else {
        let mut text = decimal(n / 10);
        text.append(digit_text(n % 10));
        proof {
            assert(text@ =~= decimal_text(n as nat / 10).push(digit_char(n as nat % 10)));
        }
        text
    }
}

/// The columns of a feature that an update may write.
#[derive(Debug, Clone, Copy, PartialEq, Eq)]
pub enum FeatureColumn {
    UpdatedAt,
    CurrentStage,
    Status,
    Description,
    /// The completion time of one stage.
    StageCompleted(Stage),
}

/// What a [`FeatureColumn`] says: the column, and for the completion time
/// of a stage the number of the stage.
pub enum ColumnView {
    UpdatedAt,
    CurrentStage,
    Status,
    Description,
    StageCompleted(int),
}

impl View for FeatureColumn {
    type V = ColumnView;

    open spec fn view(&self) -> ColumnView {
        match self {
            FeatureColumn::UpdatedAt => ColumnView::UpdatedAt,
            FeatureColumn::CurrentStage => ColumnView::CurrentStage,
            FeatureColumn::Status => ColumnView::Status,
            FeatureColumn::Description => ColumnView::Description,
            FeatureColumn::StageCompleted(stage) => ColumnView::StageCompleted(stage@),
        }
    }
}

/// The name of the column that holds the completion time of a stage.
pub open spec fn stage_column_text(stage: int) -> Seq<char> {
    "stage_"@ + decimal_text(stage as nat) + "_completed"@
}

/// The name of a column.
pub open spec fn column_text(column: ColumnView) -> Seq<char> {
    match column {
        ColumnView::UpdatedAt => "updated_at"@,
        ColumnView::CurrentStage => "current_stage"@,
        ColumnView::Status => "status"@,
        ColumnView::Description => "description"@,
        ColumnView::StageCompleted(stage) => stage_column_text(stage),
    }
}

/// Writes the name of a column.
pub fn column_name(column: FeatureColumn) -> (name: String)
    ensures
        name@ == column_text(column@),
{
    match column {
        FeatureColumn::UpdatedAt => "updated_at".to_owned(),
        FeatureColumn::CurrentStage => "current_stage".to_owned(),
        FeatureColumn::Status => "status".to_owned(),
        FeatureColumn::Description => "description".to_owned(),
        FeatureColumn::StageCompleted(stage) => {
            let mut name = "stage_".to_owned();
            let number = decimal(stage.slot() + 1);
            name.append(number.as_str());
            name.append("_completed");
            name
        },
    }
}

/// One assignment of an update: the column, and the place of its value.
pub open spec fn assignment_text(column: ColumnView, place: nat) -> Seq<char> {
    column_text(column) + " = ?"@ + decimal_text(place)
}

/// The assignments of an update, separated by commas; the value of the
/// first has place 1, that of the second place 2, and so on.
pub open spec fn assignments_text(columns: Seq<ColumnView>) -> Seq<char>
    decreases columns.len(),
{
    if columns.len() == 0 {
        Seq::empty()
    } else if columns.len() == 1 {
        assignment_text(columns[0], 1)
    } else {
        assignments_text(columns.drop_last()) + ", "@ + assignment_text(
            columns.last(),
            columns.len(),
        )
    }
}

/// The text of the statement that writes some columns of the feature of one
/// name. The name has the place after the last value.
pub open spec fn update_text(columns: Seq<ColumnView>) -> Seq<char> {
    "UPDATE features SET "@ + assignments_text(columns) + " WHERE feature_name = ?"@
        + decimal_text(columns.len() + 1)
}

/// The statement that writes some columns of the feature of one name: each
/// value is bound at the place of its column, and the name after them.
pub open spec fn update_statement(
    columns: Seq<ColumnView>,
    values: Seq<SqlValueView>,
    feature_name: Seq<char>,
) -> StatementView {
    StatementView {
        sql: update_text(columns),
        params: values.push(SqlValueView::Text(feature_name)),
    }
}

/// The greatest number of columns that one update writes.
pub const UPDATE_CAPACITY: usize = 1000;

/// An update of one feature while it is put together: the columns it writes
/// and the values it writes to them.
pub struct FeatureUpdate {
    columns: Vec<FeatureColumn>,
    values: Vec<SqlValue>,
}

impl FeatureUpdate {
    /// The columns the update writes, in the order in which they were set.
    pub closed spec fn columns(&self) -> Seq<ColumnView> {
        self.columns@.map_values(|c: FeatureColumn| c@)
    }

    /// The values the update writes, each at the place of its column.
    pub closed spec fn values(&self) -> Seq<SqlValueView> {
        self.values@.map_values(|v: SqlValue| v@)
    }

    /// Whether the update holds a value for each of its columns, and at
    /// least one column, and no more columns than it may.
    pub closed spec fn wf(&self) -> bool {
        &&& self.columns@.len() == self.values@.len()
        &&& 1 <= self.columns@.len() <= UPDATE_CAPACITY
    }

    /// An update that writes one column.
    pub fn new(column: FeatureColumn, value: SqlValue) -> (update: FeatureUpdate)
        ensures
            update.wf(),
            update.columns() == seq![column@],
            update.values() == seq![value@],
    {
        let mut columns = Vec::new();
        columns.push(column);
        let mut values = Vec::new();
        values.push(value);
        let update = FeatureUpdate { columns, values };
        proof {
            assert(update.columns() =~= seq![column@]);
            assert(update.values() =~= seq![value@]);
        }
        update
    }

    /// Lets the update write one more column, if it has room for one, and
    /// says whether it had.
    pub fn set(&mut self, column: FeatureColumn, value: SqlValue) -> (added: bool)
        requires
            old(self).wf(),
        ensures
            final(self).wf(),
            added == (old(self).columns().len() < UPDATE_CAPACITY),
            added ==> {
                &&& final(self).columns() == old(self).columns().push(column@)
                &&& final(self).values() == old(self).values().push(value@)
            },
            !added ==> {
                &&& final(self).columns() == old(self).columns()
                &&& final(self).values() == old(self).values()
            },
    {
        if self.columns.len() >= UPDATE_CAPACITY {
            return false;
        }
        self.columns.push(column);
        self.values.push(value);
        proof {
            assert(self.columns() =~= old(self).columns().push(column@));
            assert(self.values() =~= old(self).values().push(value@));
        }
        true
    }

    /// The statement that carries out the update on the feature of one
    /// name.
    pub fn finish(self, feature_name: &str) -> (statement: Statement)
        requires
            self.wf(),
        ensures
            statement@ == update_statement(self.columns(), self.values(), feature_name@),
    {
        let ghost columns = self.columns();
        let mut sql = "UPDATE features SET ".to_owned();
        let mut i: usize = 0;
        while i < self.columns.len()
            invariant
                i <= self.columns.len(),
                columns == self.columns(),
                columns.len() == self.columns@.len(),
                columns.len() <= UPDATE_CAPACITY,
                sql@ == "UPDATE features SET "@ + assignments_text(columns.take(i as int)),
            decreases self.columns.len() - i,
        {
            let ghost head = columns.take(i as int);
            if i > 0 {
                sql.append(", ");
            }
            let name = column_name(self.columns[i]);
            sql.append(name.as_str());
            sql.append(" = ?");
            let place = decimal(i + 1);
            sql.append(place.as_str());
            proof {
                let next = columns.take(i as int + 1);
                assert(next.drop_last() =~= head);
                assert(next.last() == columns[i as int]);
                assert(next[0] == columns[0]);
                if i == 0 {
                    assert(assignments_text(head) =~= Seq::<char>::empty());
                }
                assert(sql@ =~= "UPDATE features SET "@ + assignments_text(next));
            }
            i += 1;
        }
        proof {
            assert(columns.take(i as int) =~= columns);
        }
        sql.append(" WHERE feature_name = ?");
        let place = decimal(self.columns.len() + 1);
        sql.append(place.as_str());
        let mut params = self.values;
        params.push(text(feature_name));
        let statement = Statement { sql, params };
        proof {
            assert(statement@.params =~= self.values().push(SqlValueView::Text(feature_name@)));
        }
        statement
    }
}

} // verus!
