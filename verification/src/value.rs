//! What passes between the store and the database: values, rows, statements
//! and the other actions on a connection.

use vstd::prelude::*;

verus! {

/// The enumerations that the database schema declares.
#[derive(Debug, Clone, Copy, PartialEq, Eq)]
pub enum PgEnum {
    /// `output_type`.
    OutputType,
    /// `prevout_type`.
    PrevoutType,
    /// `dkg_shares_status`.
    DkgSharesStatus,
}

/// A value as the database holds it.
#[derive(Debug)]
pub enum Value {
    /// SQL's `NULL`.
    Null,
    /// A `BOOLEAN`.
    Bool(bool),
    /// An `INTEGER`.
    Int4(i32),
    /// A `BIGINT`.
    Int8(i64),
    /// A `BYTEA`.
    Bytes(Vec<u8>),
    /// A `TEXT`.
    Text(String),
    /// A label of an enumeration of the schema.
    Label(PgEnum, String),
    /// A `BOOLEAN[]`.
    BoolArray(Vec<bool>),
    /// An `INTEGER[]`.
    Int4Array(Vec<i32>),
    /// A `BIGINT[]`.
    Int8Array(Vec<i64>),
    /// A `BYTEA[]`.
    BytesArray(Vec<Vec<u8>>),
    /// A `TEXT[]`.
    TextArray(Vec<String>),
    /// An array of labels of an enumeration of the schema.
    LabelArray(PgEnum, Vec<String>),
}

/// The mathematical content of a [`Value`]. A number in it that is out of the
/// range of its type is the content of no value.
#[verifier::ext_equal]
pub enum Datum {
    Null,
    Bool(bool),
    Int4(int),
    Int8(int),
    Bytes(Seq<u8>),
    Text(Seq<char>),
    Label(PgEnum, Seq<char>),
    BoolArray(Seq<bool>),
    Int4Array(Seq<int>),
    Int8Array(Seq<int>),
    BytesArray(Seq<Seq<u8>>),
    TextArray(Seq<Seq<char>>),
    LabelArray(PgEnum, Seq<Seq<char>>),
}

/// The bytes of every item of a list of byte strings.
pub open spec fn bytes_of(items: Seq<Vec<u8>>) -> Seq<Seq<u8>> {
    items.map_values(|item: Vec<u8>| item@)
}

/// The characters of every item of a list of strings.
pub open spec fn chars_of(items: Seq<String>) -> Seq<Seq<char>> {
    items.map_values(|item: String| item@)
}

impl View for Value {
    type V = Datum;

    open spec fn view(&self) -> Datum {
        match *self {
            Value::Null => Datum::Null,
            Value::Bool(b) => Datum::Bool(b),
            Value::Int4(n) => Datum::Int4(n as int),
            Value::Int8(n) => Datum::Int8(n as int),
            Value::Bytes(b) => Datum::Bytes(b@),
            Value::Text(t) => Datum::Text(t@),
            Value::Label(e, l) => Datum::Label(e, l@),
            Value::BoolArray(a) => Datum::BoolArray(a@),
            Value::Int4Array(a) => Datum::Int4Array(a@.map_values(|n: i32| n as int)),
            Value::Int8Array(a) => Datum::Int8Array(a@.map_values(|n: i64| n as int)),
            Value::BytesArray(a) => Datum::BytesArray(bytes_of(a@)),
            Value::TextArray(a) => Datum::TextArray(chars_of(a@)),
            Value::LabelArray(e, a) => Datum::LabelArray(e, chars_of(a@)),
        }
    }
}

/// The contents of a list of values.
pub open spec fn data(values: Seq<Value>) -> Seq<Datum> {
    values.map_values(|value: Value| value@)
}

/// How a column of a result is found.
#[derive(Debug, Clone, Copy, PartialEq, Eq)]
pub enum ColumnKey {
    /// By its name.
    Named(&'static str),
    /// By its position, counted from zero.
    At(usize),
}

/// The kind of value to read from a column. `NULL` is read as
/// [`Value::Null`] whatever the kind.
#[derive(Debug, Clone, Copy, PartialEq, Eq)]
pub enum Kind {
    /// Gives [`Value::Bool`].
    Bool,
    /// Gives [`Value::Int4`].
    Int4,
    /// Gives [`Value::Int8`].
    Int8,
    /// Gives [`Value::Bytes`].
    Bytes,
    /// Gives [`Value::Text`].
    Text,
    /// Gives [`Value::Label`].
    Label(PgEnum),
    /// Gives [`Value::BytesArray`].
    BytesArray,
}

/// A column that is read from each row of a result.
#[derive(Debug, Clone, Copy, PartialEq, Eq)]
pub struct Column {
    /// Which column it is.
    pub key: ColumnKey,
    /// What it holds.
    pub kind: Kind,
}

/// The column with the given name.
pub open spec fn spec_named(name: &'static str, kind: Kind) -> Column {
    Column { key: ColumnKey::Named(name), kind }
}

/// The column with the given name.
#[verifier::when_used_as_spec(spec_named)]
pub fn named(name: &'static str, kind: Kind) -> (column: Column)
    ensures
        column == spec_named(name, kind),
{
    Column { key: ColumnKey::Named(name), kind }
}

/// The column at the given position.
pub open spec fn spec_at(position: usize, kind: Kind) -> Column {
    Column { key: ColumnKey::At(position), kind }
}

/// The column at the given position.
#[verifier::when_used_as_spec(spec_at)]
pub fn at(position: usize, kind: Kind) -> (column: Column)
    ensures
        column == spec_at(position, kind),
{
    Column { key: ColumnKey::At(position), kind }
}

/// How many rows a statement is to give.
#[derive(Debug, Clone, Copy, PartialEq, Eq)]
pub enum Fetch {
    /// None: only its effect matters.
    Nothing,
    /// The first row, which has to be there.
    One,
    /// The first row, if there is one.
    Optional,
    /// All rows.
    All,
}

/// A statement with the values of its parameters.
#[derive(Debug)]
pub struct Statement {
    /// The text, with `$1`, `$2`, ... for the parameters.
    pub sql: &'static str,
    /// Which rows to fetch.
    pub fetch: Fetch,
    /// What to read from each row, in this order.
    pub columns: Vec<Column>,
    /// The parameters, the first for `$1`.
    pub params: Vec<Value>,
}

/// The content of a [`Statement`].
#[verifier::ext_equal]
pub struct StatementView {
    pub sql: &'static str,
    pub fetch: Fetch,
    pub columns: Seq<Column>,
    pub params: Seq<Datum>,
}

impl View for Statement {
    type V = StatementView;

    open spec fn view(&self) -> StatementView {
        StatementView {
            sql: self.sql,
            fetch: self.fetch,
            columns: self.columns@,
            params: data(self.params@),
        }
    }
}

/// One action on the database.
#[derive(Debug)]
pub enum Action {
    /// Run a statement on any connection of the pool.
    Run(Statement),
    /// Run a statement in the open transaction.
    RunInTransaction(Statement),
    /// Run a script, which takes no parameters, on any connection.
    RunScript(&'static str),
    /// Run a script in the open transaction.
    RunScriptInTransaction(String),
    /// Open a transaction.
    Begin,
    /// Commit the open transaction.
    Commit,
    /// Roll the open transaction back.
    Rollback,
}

/// The content of an [`Action`].
#[verifier::ext_equal]
pub enum ActionView {
    Run(StatementView),
    RunInTransaction(StatementView),
    RunScript(&'static str),
    RunScriptInTransaction(Seq<char>),
    Begin,
    Commit,
    Rollback,
}

impl View for Action {
    type V = ActionView;

    open spec fn view(&self) -> ActionView {
        match *self {
            Action::Run(statement) => ActionView::Run(statement@),
            Action::RunInTransaction(statement) => ActionView::RunInTransaction(statement@),
            Action::RunScript(script) => ActionView::RunScript(script),
            Action::RunScriptInTransaction(script) => ActionView::RunScriptInTransaction(script@),
            Action::Begin => ActionView::Begin,
            Action::Commit => ActionView::Commit,
            Action::Rollback => ActionView::Rollback,
        }
    }
}

/// A row of a result, one value for each column that the statement reads.
#[derive(Debug)]
pub struct Row {
    pub values: Vec<Value>,
}

impl View for Row {
    type V = Seq<Datum>;

    open spec fn view(&self) -> Seq<Datum> {
        data(self.values@)
    }
}

/// What an action gave.
#[derive(Debug)]
pub struct Reply {
    /// The rows that were fetched.
    pub rows: Vec<Row>,
    /// The number of rows that a statement changed.
    pub rows_affected: u64,
}

/// The content of a [`Reply`].
#[verifier::ext_equal]
pub struct ReplyView {
    pub rows: Seq<Seq<Datum>>,
    pub rows_affected: u64,
}

impl View for Reply {
    type V = ReplyView;

    open spec fn view(&self) -> ReplyView {
        ReplyView {
            rows: self.rows@.map_values(|row: Row| row@),
            rows_affected: self.rows_affected,
        }
    }
}

/// The outcome of an action.
pub type Response = Result<Reply, sqlx::Error>;

/// The content of a [`Response`].
pub type ResponseView = Result<ReplyView, sqlx::Error>;

/// The content of the outcome of an action.
pub open spec fn response_view(response: Response) -> ResponseView {
    match response {
        Ok(reply) => Ok(reply@),
        Err(error) => Err(error),
    }
}

} // verus!
