//! Operations that consist of one statement.

use crate::error::{DbError, StoreError};
use crate::procedure::{step_view, Operation, Procedure, Step, StepView};
use crate::row::FromRow;
use crate::value::{
    data, response_view, Action, ActionView, Column, Datum, Fetch, Reply, Response, ResponseView,
    Statement, StatementView, Value,
};
use std::marker::PhantomData;
use vstd::prelude::*;

verus! {

/// The statement that reads data of type `T`.
pub open spec fn query<T: FromRow>(
    sql: &'static str,
    fetch: Fetch,
    params: Seq<Datum>,
) -> StatementView {
    StatementView { sql, fetch, columns: T::spec_columns(), params }
}

/// The statement that is run for its effect.
pub open spec fn command(sql: &'static str, params: Seq<Datum>) -> StatementView {
    StatementView { sql, fetch: Fetch::Nothing, columns: Seq::empty(), params }
}

/// The statement that reads data of type `T`.
pub fn new_query<T: FromRow>(sql: &'static str, fetch: Fetch, params: Vec<Value>) -> (statement:
    Statement)
    ensures
        statement@ == query::<T>(sql, fetch, data(params@)),
{
    Statement { sql, fetch, columns: T::columns(), params }
}

/// The statement that is run for its effect.
pub fn new_command(sql: &'static str, params: Vec<Value>) -> (statement: Statement)
    ensures
        statement@ == command(sql, data(params@)),
{
    let columns: Vec<Column> = Vec::new();
    Statement { sql, fetch: Fetch::Nothing, columns, params }
}

/// Asks for the first row of a query, if there is one.
pub open spec fn ask_optional<T: FromRow>(sql: &'static str, params: Seq<Datum>) -> StepView<
    (),
    Option<Seq<Datum>>,
> {
    StepView::Ask(ActionView::Run(query::<T>(sql, Fetch::Optional, params)), ())
}

/// Asks for the first row of a query, which has to be there.
pub open spec fn ask_one<T: FromRow>(sql: &'static str, params: Seq<Datum>) -> StepView<
    (),
    Seq<Datum>,
> {
    StepView::Ask(ActionView::Run(query::<T>(sql, Fetch::One, params)), ())
}

/// Asks for all rows of a query.
pub open spec fn ask_all<T: FromRow>(sql: &'static str, params: Seq<Datum>) -> StepView<
    (),
    Seq<Seq<Datum>>,
> {
    StepView::Ask(ActionView::Run(query::<T>(sql, Fetch::All, params)), ())
}

/// Asks for a statement to take effect.
pub open spec fn ask_execute(sql: &'static str, params: Seq<Datum>) -> StepView<(), ()> {
    StepView::Ask(ActionView::Run(command(sql, params)), ())
}

/// Asks for a statement to take effect, and whether it changed a row.
pub open spec fn ask_execute_any(sql: &'static str, params: Seq<Datum>) -> StepView<(), bool> {
    StepView::Ask(ActionView::Run(command(sql, params)), ())
}

/// Ends at once because a number does not fit into its column.
pub open spec fn refused<S, T>() -> StepView<S, T> {
    StepView::Done(Err(StoreError::ConversionDatabaseInt))
}

/// The error of a query that failed with a database error.
pub open spec fn query_failed(error: sqlx::Error) -> StoreError {
    StoreError::SqlxQuery(DbError::Sqlx(error))
}

/// The rows that a query gave.
pub open spec fn rows_of(response: ResponseView) -> Result<Seq<Seq<Datum>>, StoreError> {
    match response {
        Ok(reply) => Ok(reply.rows),
        Err(error) => Err(query_failed(error)),
    }
}

/// The first row of a response, if there is one.
pub open spec fn optional_row<T: FromRow>(response: ResponseView) -> Result<
    Option<Seq<Datum>>,
    StoreError,
> {
    match rows_of(response) {
        Ok(rows) => if rows.len() == 0 {
            Ok(None)
        } else if T::is_row(rows[0]) {
            Ok(Some(rows[0]))
        } else {
            Err(StoreError::SqlxQuery(DbError::ColumnDecode))
        },
        Err(error) => Err(error),
    }
}

/// The first row of a response, which has to be there.
pub open spec fn one_row<T: FromRow>(response: ResponseView) -> Result<Seq<Datum>, StoreError> {
    match optional_row::<T>(response) {
        Ok(Some(row)) => Ok(row),
        Ok(None) => Err(StoreError::SqlxQuery(DbError::RowNotFound)),
        Err(error) => Err(error),
    }
}

/// Whether every row holds data of type `T`.
pub open spec fn all_are_rows<T: FromRow>(rows: Seq<Seq<Datum>>) -> bool {
    forall|i: int| 0 <= i < rows.len() ==> T::is_row(#[trigger] rows[i])
}

/// All rows of a response.
pub open spec fn all_rows<T: FromRow>(response: ResponseView) -> Result<
    Seq<Seq<Datum>>,
    StoreError,
> {
    match rows_of(response) {
        Ok(rows) => if all_are_rows::<T>(rows) {
            Ok(rows)
        } else {
            Err(StoreError::SqlxQuery(DbError::ColumnDecode))
        },
        Err(error) => Err(error),
    }
}

/// The rows that hold a list of data.
pub open spec fn rows_view<T: FromRow>(items: Seq<T>) -> Seq<Seq<Datum>> {
    items.map_values(|item: T| item.row())
}

/// The row that holds data that may be missing.
pub open spec fn row_view<T: FromRow>(item: Option<T>) -> Option<Seq<Datum>> {
    match item {
        Some(item) => Some(item.row()),
        None => None,
    }
}

/// The rows that a query gave.
pub fn reply_of(response: Response) -> (result: Result<Reply, StoreError>)
    ensures
        (match result {
            Ok(reply) => response_view(response) == Ok::<_, sqlx::Error>(reply@),
            Err(error) => response_view(response) matches Err(cause) && error == query_failed(
                cause,
            ),
        }),
{
    match response {
        Ok(reply) => Ok(reply),
        Err(error) => Err(StoreError::SqlxQuery(DbError::Sqlx(error))),
    }
}

/// Reads the first row of a response, if there is one.
pub fn fetch_optional<T: FromRow>(response: Response) -> (result: Result<Option<T>, StoreError>)
    ensures
        (match result {
            Ok(item) => optional_row::<T>(response_view(response)) == Ok::<_, StoreError>(
                row_view(item),
            ),
            Err(error) => optional_row::<T>(response_view(response)) == Err::<
                Option<Seq<Datum>>,
                _,
            >(error),
        }),
{
    match reply_of(response) {
        Err(error) => Err(error),
        Ok(reply) => {
            if reply.rows.len() == 0 {
                Ok(None)
            } else {
                assert(reply@.rows[0] == reply.rows@[0]@);
                match T::from_row(&reply.rows[0]) {
                    Ok(item) => Ok(Some(item)),
                    Err(error) => Err(StoreError::SqlxQuery(error)),
                }
            }
        },
    }
}

/// Reads the first row of a response, which has to be there.
pub fn fetch_one<T: FromRow>(response: Response) -> (result: Result<T, StoreError>)
    ensures
        (match result {
            Ok(item) => one_row::<T>(response_view(response)) == Ok::<_, StoreError>(item.row()),
            Err(error) => one_row::<T>(response_view(response)) == Err::<Seq<Datum>, _>(error),
        }),
{
    match fetch_optional::<T>(response) {
        Err(error) => Err(error),
        Ok(Some(item)) => Ok(item),
        Ok(None) => Err(StoreError::SqlxQuery(DbError::RowNotFound)),
    }
}

/// Reads all rows of a response.
pub fn fetch_all<T: FromRow>(response: Response) -> (result: Result<Vec<T>, StoreError>)
    ensures
        (match result {
            Ok(items) => all_rows::<T>(response_view(response)) == Ok::<_, StoreError>(
                rows_view(items@),
            ),
            Err(error) => all_rows::<T>(response_view(response)) == Err::<Seq<Seq<Datum>>, _>(
                error,
            ),
        }),
{
    match reply_of(response) {
        Err(error) => Err(error),
        Ok(reply) => {
            let mut items: Vec<T> = Vec::new();
            let mut i: usize = 0;
            while i < reply.rows.len()
                invariant
                    response_view(response) == Ok::<_, sqlx::Error>(reply@),
                    i <= reply.rows@.len(),
                    items@.len() == i,
                    forall|j: int|
                        0 <= j < i ==> T::is_row(#[trigger] reply@.rows[j]) && items@[j].row()
                            == reply@.rows[j],
                decreases reply.rows@.len() - i,
            {
                assert(reply@.rows[i as int] == reply.rows@[i as int]@);
                match T::from_row(&reply.rows[i]) {
                    Ok(item) => {
                        items.push(item);
                    },
                    Err(error) => {
                        assert(!all_are_rows::<T>(reply@.rows));
                        return Err(StoreError::SqlxQuery(error));
                    },
                }
                i = i + 1;
            }
            assert(rows_view(items@) =~= reply@.rows);
            Ok(items)
        },
    }
}

/// Waits for a row that may be missing.
#[derive(Debug)]
#[verifier::reject_recursive_types(T)]
pub struct FetchOptional<T> {
    pub row: PhantomData<T>,
}

impl<T> View for FetchOptional<T> {
    type V = ();

    open spec fn view(&self) -> () {
        ()
    }
}

impl<T: FromRow> Operation for FetchOptional<T> {
    type Output = Option<T>;

    type OutputView = Option<Seq<Datum>>;

    open spec fn output(output: Option<T>) -> Option<Seq<Datum>> {
        row_view(output)
    }
}

impl<T: FromRow> FetchOptional<T> {
    /// Asks for what is waited for.
    pub fn ask(sql: &'static str, params: Vec<Value>) -> (step: Step<Self, Option<T>>)
        ensures
            step_view(step) == ask_optional::<T>(sql, data(params@)),
    {
        Step::Ask(
            Action::Run(new_query::<T>(sql, Fetch::Optional, params)),
            FetchOptional { row: PhantomData },
        )
    }
}

impl<T: FromRow> Procedure for FetchOptional<T> {
    open spec fn next(state: (), response: ResponseView) -> StepView<(), Option<Seq<Datum>>> {
        StepView::Done(optional_row::<T>(response))
    }

    open spec fn rank(state: ()) -> nat {
        0
    }

    proof fn rank_decreases(state: (), response: ResponseView) {
    }

    fn resume(self, response: Response) -> (step: Step<Self, Option<T>>) {
        Step::Done(fetch_optional(response))
    }
}

/// Waits for a row that has to be there.
#[derive(Debug)]
#[verifier::reject_recursive_types(T)]
pub struct FetchOne<T> {
    pub row: PhantomData<T>,
}

impl<T> View for FetchOne<T> {
    type V = ();

    open spec fn view(&self) -> () {
        ()
    }
}

impl<T: FromRow> Operation for FetchOne<T> {
    type Output = T;

    type OutputView = Seq<Datum>;

    open spec fn output(output: T) -> Seq<Datum> {
        output.row()
    }
}

impl<T: FromRow> FetchOne<T> {
    /// Asks for what is waited for.
    pub fn ask(sql: &'static str, params: Vec<Value>) -> (step: Step<Self, T>)
        ensures
            step_view(step) == ask_one::<T>(sql, data(params@)),
    {
        Step::Ask(
            Action::Run(new_query::<T>(sql, Fetch::One, params)),
            FetchOne { row: PhantomData },
        )
    }
}

impl<T: FromRow> Procedure for FetchOne<T> {
    open spec fn next(state: (), response: ResponseView) -> StepView<(), Seq<Datum>> {
        StepView::Done(one_row::<T>(response))
    }

    open spec fn rank(state: ()) -> nat {
        0
    }

    proof fn rank_decreases(state: (), response: ResponseView) {
    }

    fn resume(self, response: Response) -> (step: Step<Self, T>) {
        Step::Done(fetch_one(response))
    }
}

/// Waits for any number of rows.
#[derive(Debug)]
#[verifier::reject_recursive_types(T)]
pub struct FetchAll<T> {
    pub row: PhantomData<T>,
}

impl<T> View for FetchAll<T> {
    type V = ();

    open spec fn view(&self) -> () {
        ()
    }
}

impl<T: FromRow> Operation for FetchAll<T> {
    type Output = Vec<T>;

    type OutputView = Seq<Seq<Datum>>;

    open spec fn output(output: Vec<T>) -> Seq<Seq<Datum>> {
        rows_view(output@)
    }
}

impl<T: FromRow> FetchAll<T> {
    /// Asks for what is waited for.
    pub fn ask(sql: &'static str, params: Vec<Value>) -> (step: Step<Self, Vec<T>>)
        ensures
            step_view(step) == ask_all::<T>(sql, data(params@)),
    {
        Step::Ask(
            Action::Run(new_query::<T>(sql, Fetch::All, params)),
            FetchAll { row: PhantomData },
        )
    }
}

impl<T: FromRow> Procedure for FetchAll<T> {
    open spec fn next(state: (), response: ResponseView) -> StepView<(), Seq<Seq<Datum>>> {
        StepView::Done(all_rows::<T>(response))
    }

    open spec fn rank(state: ()) -> nat {
        0
    }

    proof fn rank_decreases(state: (), response: ResponseView) {
    }

    fn resume(self, response: Response) -> (step: Step<Self, Vec<T>>) {
        Step::Done(fetch_all(response))
    }
}

/// Waits for a statement to take effect.
#[derive(Debug)]
pub struct Execute;

impl View for Execute {
    type V = ();

    open spec fn view(&self) -> () {
        ()
    }
}

impl Operation for Execute {
    type Output = ();

    type OutputView = ();

    open spec fn output(output: ()) -> () {
        output
    }
}

impl Execute {
    /// Asks for what is waited for.
    pub fn ask(sql: &'static str, params: Vec<Value>) -> (step: Step<Self, ()>)
        ensures
            step_view(step) == ask_execute(sql, data(params@)),
    {
        Step::Ask(Action::Run(new_command(sql, params)), Execute)
    }
}

impl Procedure for Execute {
    open spec fn next(state: (), response: ResponseView) -> StepView<(), ()> {
        StepView::Done(
            match response {
                Ok(_) => Ok(()),
                Err(error) => Err(query_failed(error)),
            },
        )
    }

    open spec fn rank(state: ()) -> nat {
        0
    }

    proof fn rank_decreases(state: (), response: ResponseView) {
    }

    fn resume(self, response: Response) -> (step: Step<Self, ()>) {
        match reply_of(response) {
            Ok(_) => Step::Done(Ok(())),
            Err(error) => Step::Done(Err(error)),
        }
    }
}

/// Waits for a statement that may change rows, and tells whether it did.
#[derive(Debug)]
pub struct ExecuteAny;

impl View for ExecuteAny {
    type V = ();

    open spec fn view(&self) -> () {
        ()
    }
}

impl Operation for ExecuteAny {
    type Output = bool;

    type OutputView = bool;

    open spec fn output(output: bool) -> bool {
        output
    }
}

impl ExecuteAny {
    /// Asks for what is waited for.
    pub fn ask(sql: &'static str, params: Vec<Value>) -> (step: Step<Self, bool>)
        ensures
            step_view(step) == ask_execute_any(sql, data(params@)),
    {
        Step::Ask(Action::Run(new_command(sql, params)), ExecuteAny)
    }
}

impl Procedure for ExecuteAny {
    open spec fn next(state: (), response: ResponseView) -> StepView<(), bool> {
        StepView::Done(
            match response {
                Ok(reply) => Ok(reply.rows_affected > 0),
                Err(error) => Err(query_failed(error)),
            },
        )
    }

    open spec fn rank(state: ()) -> nat {
        0
    }

    proof fn rank_decreases(state: (), response: ResponseView) {
    }

    fn resume(self, response: Response) -> (step: Step<Self, bool>) {
        match reply_of(response) {
            Ok(reply) => Step::Done(Ok(reply.rows_affected > 0)),
            Err(error) => Step::Done(Err(error)),
        }
    }
}

} // verus!
