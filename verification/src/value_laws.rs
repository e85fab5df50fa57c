//! What the values that pass between the store and the database mean.

use crate::by_name::{column, nth, output_type_text, prevout_type_text, status_text};
use crate::compose::{Continuation, Conversion, Converting, Then};
use crate::convert::{to_bigint, to_integer};
use crate::error::StoreError;
use crate::model::{DkgSharesStatus, PublicKey, PublicKeyXOnly, TxOutputType, TxPrevoutType};
use crate::procedure::{step_view, Operation, Step, StepView};
use crate::value::{
    at, named, response_view, Action, ActionView, Column, Datum, Kind, PgEnum, Reply, Response, Row,
    Statement, Value,
};
use vstd::prelude::*;

verus! {

/// A value means what it holds.
pub proof fn value_is_what_it_holds(
    flag: bool,
    small: i32,
    large: i64,
    bytes: Vec<u8>,
    text: String,
    kind: PgEnum,
)
    ensures
        Value::Null@ == Datum::Null,
        Value::Bool(flag)@ == Datum::Bool(flag),
        Value::Int4(small)@ == Datum::Int4(small as int),
        Value::Int8(large)@ == Datum::Int8(large as int),
        Value::Bytes(bytes)@ == Datum::Bytes(bytes@),
        Value::Text(text)@ == Datum::Text(text@),
        Value::Label(kind, text)@ == Datum::Label(kind, text@),
{
}

/// An array means its elements, all of them and in order.
pub proof fn array_is_its_elements(
    flags: Vec<bool>,
    small: Vec<i32>,
    large: Vec<i64>,
    bytes: Vec<Vec<u8>>,
    texts: Vec<String>,
    kind: PgEnum,
    i: int,
)
    ensures
        Value::BoolArray(flags)@ == Datum::BoolArray(flags@),
        Value::Int4Array(small)@ matches Datum::Int4Array(items) && items.len() == small@.len() && (
        0 <= i < items.len() ==> items[i] == small@[i]),
        Value::Int8Array(large)@ matches Datum::Int8Array(items) && items.len() == large@.len() && (
        0 <= i < items.len() ==> items[i] == large@[i]),
        Value::BytesArray(bytes)@ matches Datum::BytesArray(items) && items.len() == bytes@.len()
            && (0 <= i < items.len() ==> items[i] == bytes@[i]@),
        Value::TextArray(texts)@ matches Datum::TextArray(items) && items.len() == texts@.len() && (
        0 <= i < items.len() ==> items[i] == texts@[i]@),
        Value::LabelArray(kind, texts)@ matches Datum::LabelArray(of, items) && of == kind
            && items.len() == texts@.len() && (0 <= i < items.len() ==> items[i] == texts@[i]@),
{
}

/// A row, and the parameters of a statement, are lists of values.
pub proof fn lists_of_values_are_their_values(row: Row, statement: Statement, i: int)
    ensures
        row@.len() == row.values@.len(),
        0 <= i < row@.len() ==> row@[i] == row.values@[i]@,
        statement@.sql == statement.sql,
        statement@.fetch == statement.fetch,
        statement@.columns == statement.columns@,
        statement@.params.len() == statement.params@.len(),
        0 <= i < statement@.params.len() ==> statement@.params[i] == statement.params@[i]@,
{
}

/// An action means what it asks for.
pub proof fn action_is_what_it_asks_for(
    statement: Statement,
    script: &'static str,
    text: String,
)
    ensures
        Action::Run(statement)@ == ActionView::Run(statement@),
        Action::RunInTransaction(statement)@ == ActionView::RunInTransaction(statement@),
        Action::RunScript(script)@ == ActionView::RunScript(script),
        Action::RunScriptInTransaction(text)@ == ActionView::RunScriptInTransaction(text@),
        Action::Begin@ == ActionView::Begin,
        Action::Commit@ == ActionView::Commit,
        Action::Rollback@ == ActionView::Rollback,
{
}

/// A reply means its rows, all of them and in order, and the number of rows that
/// were changed; a failure means itself.
pub proof fn reply_is_its_rows(reply: Reply, error: sqlx::Error, i: int)
    ensures
        reply@.rows.len() == reply.rows@.len(),
        0 <= i < reply@.rows.len() ==> reply@.rows[i] == reply.rows@[i]@,
        reply@.rows_affected == reply.rows_affected,
        response_view(Response::Ok(reply)) matches Ok(view) && view == reply@,
        response_view(Response::Err(error)) matches Err(view) && view == error,
{
}

/// A step means its action and its state, or its result.
pub proof fn step_is_its_content<P: Operation>(
    action: Action,
    state: P,
    output: P::Output,
    error: StoreError,
)
    ensures
        step_view::<P>(Step::Ask(action, state)) == StepView::<P::V, P::OutputView>::Ask(
            action@,
            state@,
        ),
        step_view::<P>(Step::Done(Ok(output))) == StepView::<P::V, P::OutputView>::Done(
            Ok(P::output(output)),
        ),
        step_view::<P>(Step::Done(Err(error))) == StepView::<P::V, P::OutputView>::Done(
            Err(error),
        ),
{
}

/// The output of a composed procedure is that of its second part, and that of a
/// converting one is what it converts to.
pub proof fn composed_output_is_that_of_its_part<C: Continuation, D: Conversion>(
    output: <C::Second as Operation>::Output,
    converted: D::Converted,
)
    ensures
        Then::<C>::output(output) == C::Second::output(output),
        Converting::<D>::output(converted) == D::converted(converted),
{
}

/// A column is found by the name or the position that it is made with.
pub proof fn column_is_made_of_its_key(
    name: &'static str,
    position: usize,
    kind: Kind,
    by_name: Column,
    by_position: Column,
)
    requires
        call_ensures(named, (name, kind), by_name),
        call_ensures(at, (position, kind), by_position),
    ensures
        by_name == column(name, kind),
        by_position == nth(position, kind),
{
}

/// The types are called as in the database.
pub proof fn types_are_called_as_in_the_database(
    output_type: TxOutputType,
    output_label: String,
    prevout_type: TxPrevoutType,
    prevout_label: String,
)
    requires
        call_ensures(TxOutputType::label, (output_type,), output_label),
        call_ensures(TxPrevoutType::label, (prevout_type,), prevout_label),
    ensures
        output_label@ == output_type_text(output_type),
        prevout_label@ == prevout_type_text(prevout_type),
{
}

/// A status is called as in the database, and is found by what it is called and
/// by nothing else.
pub proof fn statuses_are_called_as_in_the_database(
    status: DkgSharesStatus,
    label: String,
    text: String,
    found: Option<DkgSharesStatus>,
)
    requires
        call_ensures(DkgSharesStatus::label, (status,), label),
        call_ensures(DkgSharesStatus::from_label, (&text,), found),
    ensures
        label@ == status_text(status),
        found == Some(status) <==> text@ == status_text(status),
{
    if text@ == status_text(status) {
        assert(text@ == status.spec_label());
        assert(DkgSharesStatus::is_label(text@));
        DkgSharesStatus::labels_differ(found->Some_0, status);
    }
}

/// The x-coordinate of a key is the key without its first byte.
pub proof fn x_coordinate_lacks_the_first_byte(key: PublicKey, x: PublicKeyXOnly, i: int)
    requires
        call_ensures(PublicKey::x_only, (&key,), x),
        0 <= i < 32,
    ensures
        x.0@[i] == key.0@[i + 1],
{
}

/// A number is stored as itself exactly where it fits, and is refused otherwise.
pub proof fn numbers_are_stored_as_themselves(
    large: u64,
    as_bigint: Result<i64, StoreError>,
    small: u32,
    as_integer: Result<i32, StoreError>,
)
    requires
        call_ensures(to_bigint, (large,), as_bigint),
        call_ensures(to_integer, (small,), as_integer),
    ensures
        match as_bigint {
            Ok(number) => number == large,
            Err(error) => large >= 0x8000_0000_0000_0000 && error
                == StoreError::ConversionDatabaseInt,
        },
        match as_integer {
            Ok(number) => number == small,
            Err(error) => small >= 0x8000_0000 && error == StoreError::ConversionDatabaseInt,
        },
{
}

} // verus!
