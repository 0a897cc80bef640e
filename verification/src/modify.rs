//! Raw statements, and the statements that delete, insert and update rows.

use vstd::prelude::*;
use vstd::utf8::encode_utf8;

use crate::convert::{either_fault, first_fault, lemma_first_fault_concat, Convert};
use crate::errors::Error;
use crate::executor::{choose_executor, Executor};
use crate::fidelity::{
    asked_operators, lemma_condition_keeps_operators_and_values, sent_operators,
};
use crate::reply::{database_reply, tells_database_outcome, Reply, Step};
use crate::representations::{Condition, FFICondition, FFIUpdate, FFIValue, Value};
use crate::utils::{lemma_string_keeps_its_bytes, FFIString};

verus! {

/// A raw statement, ready for the database.
#[derive(Debug, PartialEq, Eq)]
pub struct RawSql<D, T> {
    /// Where the statement is executed.
    pub executor: Executor<D, T>,
    /// The statement.
    pub query_string: String,
    /// The values of its placeholders, in order.
    pub bind_params: Vec<Value>,
}

/// Executes a raw statement.
///
/// Whatever the fault of a value is, the request is refused for an invalid string.
pub fn rorm_db_raw_sql<D, T, R>(
    db: D,
    transaction: Option<T>,
    query_string: &FFIString,
    bind_params: &Vec<FFIValue>,
) -> (step: Step<RawSql<D, T>, Vec<R>>)
    ensures
        if query_string.fault() is None && bind_params.fault() is None {
            &&& step matches Step::Execute(raw)
            &&& raw.executor.serves(db, transaction)
            &&& query_string.becomes(raw.query_string)
            &&& bind_params.becomes(raw.bind_params)
            &&& encode_utf8(raw.query_string@) == query_string.bytes@
            &&& raw.bind_params@.len() == bind_params@.len()
        } else {
            step.refuses_with(Error::InvalidStringError)
        },
{
    let ghost sent = *query_string;
    let query_string = match query_string.convert() {
        Ok(query_string) => query_string,
        Err(_) => return Step::refuse(Error::InvalidStringError),
    };
    let bind_params = match bind_params.convert() {
        Ok(bind_params) => bind_params,
        Err(_) => return Step::refuse(Error::InvalidStringError),
    };
    proof {
        lemma_string_keeps_its_bytes(sent, query_string);
    }
    let executor = choose_executor(db, transaction);
    Step::Execute(RawSql { executor, query_string, bind_params })
}

/// Tells the outcome of [`rorm_db_raw_sql`].
pub fn raw_sql_reply<R>(outcome: Result<Vec<R>, String>) -> (reply: Reply<Vec<R>>)
    ensures
        tells_database_outcome(reply, outcome),
{
    database_reply(outcome)
}

/// Rows to delete, ready for the database.
#[derive(Debug, PartialEq, Eq)]
pub struct Delete<D, T> {
    /// Where the statement is executed.
    pub executor: Executor<D, T>,
    /// Name of the table.
    pub model: String,
    /// Condition on the rows.
    pub condition: Option<Condition>,
}

/// The error by which a request to delete is refused, if it is.
pub open spec fn delete_fault(
    model: FFIString,
    condition: Option<FFICondition>,
) -> Option<Error> {
    either_fault(model.fault(), condition.fault())
}

/// Deletes the rows that match.
pub fn rorm_db_delete<D, T>(
    db: D,
    transaction: Option<T>,
    model: &FFIString,
    condition: &Option<FFICondition>,
) -> (step: Step<Delete<D, T>, u64>)
    ensures
        match delete_fault(*model, *condition) {
            Some(error) => step.refuses_with(error),
            None => {
                &&& step matches Step::Execute(delete)
                &&& delete.executor.serves(db, transaction)
                &&& model.becomes(delete.model)
                &&& condition.becomes(delete.condition)
                &&& encode_utf8(delete.model@) == model.bytes@
                &&& match *condition {
                    Some(sent) => delete.condition matches Some(asked) && asked_operators(asked)
                        == sent_operators(sent),
                    None => delete.condition is None,
                }
            },
        },
{
    let ghost sent = (*model, *condition);
    let model = match model.convert() {
        Ok(model) => model,
        Err(error) => return Step::refuse(error),
    };
    let condition = match condition.convert() {
        Ok(condition) => condition,
        Err(error) => return Step::refuse(error),
    };
    proof {
        lemma_string_keeps_its_bytes(sent.0, model);
        if condition is Some {
            lemma_condition_keeps_operators_and_values(sent.1->0, condition->0);
        }
    }
    let executor = choose_executor(db, transaction);
    Step::Execute(Delete { executor, model, condition })
}

/// Tells the outcome of [`rorm_db_delete`]: the number of rows affected.
pub fn delete_reply(outcome: Result<u64, String>) -> (reply: Reply<u64>)
    ensures
        tells_database_outcome(reply, outcome),
{
    database_reply(outcome)
}

/// A row to insert, ready for the database.
#[derive(Debug, PartialEq, Eq)]
pub struct Insert<D, T> {
    /// Where the statement is executed.
    pub executor: Executor<D, T>,
    /// Name of the table.
    pub model: String,
    /// Columns to insert to.
    pub columns: Vec<String>,
    /// Values of the columns.
    pub row: Vec<Value>,
}

/// The error by which a request to insert a row is refused, if it is.
pub open spec fn insert_fault(
    model: FFIString,
    columns: Vec<FFIString>,
    row: Vec<FFIValue>,
) -> Option<Error> {
    either_fault(model.fault(), either_fault(columns.fault(), row.fault()))
}

/// Inserts a row.
pub fn rorm_db_insert<D, T>(
    db: D,
    transaction: Option<T>,
    model: &FFIString,
    columns: &Vec<FFIString>,
    row: &Vec<FFIValue>,
) -> (step: Step<Insert<D, T>, ()>)
    ensures
        match insert_fault(*model, *columns, *row) {
            Some(error) => step.refuses_with(error),
            None => {
                &&& step matches Step::Execute(insert)
                &&& insert.executor.serves(db, transaction)
                &&& model.becomes(insert.model)
                &&& columns.becomes(insert.columns)
                &&& row.becomes(insert.row)
                &&& encode_utf8(insert.model@) == model.bytes@
                &&& insert.columns@.len() == columns@.len()
                &&& insert.row@.len() == row@.len()
            },
        },
{
    let ghost sent = *model;
    let model = match model.convert() {
        Ok(model) => model,
        Err(error) => return Step::refuse(error),
    };
    let columns = match columns.convert() {
        Ok(columns) => columns,
        Err(error) => return Step::refuse(error),
    };
    let row = match row.convert() {
        Ok(row) => row,
        Err(error) => return Step::refuse(error),
    };
    proof {
        lemma_string_keeps_its_bytes(sent, model);
    }
    let executor = choose_executor(db, transaction);
    Step::Execute(Insert { executor, model, columns, row })
}

/// Tells the outcome of [`rorm_db_insert`].
pub fn insert_reply(outcome: Result<(), String>) -> (reply: Reply<()>)
    ensures
        tells_database_outcome(reply, outcome),
{
    database_reply(outcome)
}

/// A row to insert and the columns to return of it, ready for the database.
#[derive(Debug, PartialEq, Eq)]
pub struct InsertReturning<D, T> {
    /// Where the statement is executed.
    pub executor: Executor<D, T>,
    /// Name of the table.
    pub model: String,
    /// Columns to insert to.
    pub columns: Vec<String>,
    /// Values of the columns.
    pub row: Vec<Value>,
    /// Columns to return.
    pub returning: Vec<String>,
}

/// The error by which a request to insert a row and return columns of it is refused, if it is.
pub open spec fn insert_returning_fault(
    model: FFIString,
    columns: Vec<FFIString>,
    row: Vec<FFIValue>,
    returning: Vec<FFIString>,
) -> Option<Error> {
    either_fault(insert_fault(model, columns, row), returning.fault())
}

/// Inserts a row and returns columns of it.
pub fn rorm_db_insert_returning<D, T, R>(
    db: D,
    transaction: Option<T>,
    model: &FFIString,
    columns: &Vec<FFIString>,
    row: &Vec<FFIValue>,
    returning: &Vec<FFIString>,
) -> (step: Step<InsertReturning<D, T>, Option<R>>)
    ensures
        match insert_returning_fault(*model, *columns, *row, *returning) {
            Some(error) => step.refuses_with(error),
            None => {
                &&& step matches Step::Execute(insert)
                &&& insert.executor.serves(db, transaction)
                &&& model.becomes(insert.model)
                &&& columns.becomes(insert.columns)
                &&& row.becomes(insert.row)
                &&& returning.becomes(insert.returning)
                &&& encode_utf8(insert.model@) == model.bytes@
                &&& insert.columns@.len() == columns@.len()
                &&& insert.row@.len() == row@.len()
                &&& insert.returning@.len() == returning@.len()
            },
        },
{
    let ghost sent = *model;
    let model = match model.convert() {
        Ok(model) => model,
        Err(error) => return Step::refuse(error),
    };
    let columns = match columns.convert() {
        Ok(columns) => columns,
        Err(error) => return Step::refuse(error),
    };
    let row = match row.convert() {
        Ok(row) => row,
        Err(error) => return Step::refuse(error),
    };
    let returning = match returning.convert() {
        Ok(returning) => returning,
        Err(error) => return Step::refuse(error),
    };
    proof {
        lemma_string_keeps_its_bytes(sent, model);
    }
    let executor = choose_executor(db, transaction);
    Step::Execute(InsertReturning { executor, model, columns, row, returning })
}

/// Tells the outcome of [`rorm_db_insert_returning`].
pub fn insert_returning_reply<R>(outcome: Result<R, String>) -> (reply: Reply<Option<R>>)
    ensures
        match outcome {
            Ok(row) => reply.succeeds_with(Some(row)),
            Err(message) => reply.fails_with(Error::DatabaseError(message)),
        },
{
    match outcome {
        Ok(row) => Reply::success(Some(row)),
        Err(message) => Reply::failure(Error::DatabaseError(message)),
    }
}

/// Rows to insert, ready for the database.
#[derive(Debug, PartialEq, Eq)]
pub struct InsertBulk<D, T> {
    /// Where the statement is executed.
    pub executor: Executor<D, T>,
    /// Name of the table.
    pub model: String,
    /// Columns to insert to.
    pub columns: Vec<String>,
    /// Values of the columns, row by row.
    pub rows: Vec<Vec<Value>>,
}

/// The error by which a request to insert rows is refused, if it is.
pub open spec fn insert_bulk_fault(
    model: FFIString,
    columns: Vec<FFIString>,
    rows: Vec<Vec<FFIValue>>,
) -> Option<Error> {
    either_fault(model.fault(), either_fault(columns.fault(), rows.fault()))
}

/// Inserts rows.
pub fn rorm_db_insert_bulk<D, T>(
    db: D,
    transaction: Option<T>,
    model: &FFIString,
    columns: &Vec<FFIString>,
    rows: &Vec<Vec<FFIValue>>,
) -> (step: Step<InsertBulk<D, T>, ()>)
    ensures
        match insert_bulk_fault(*model, *columns, *rows) {
            Some(error) => step.refuses_with(error),
            None => {
                &&& step matches Step::Execute(insert)
                &&& insert.executor.serves(db, transaction)
                &&& model.becomes(insert.model)
                &&& columns.becomes(insert.columns)
                &&& rows.becomes(insert.rows)
                &&& encode_utf8(insert.model@) == model.bytes@
                &&& insert.columns@.len() == columns@.len()
                &&& insert.rows@.len() == rows@.len()
                &&& forall|i: int|
                    0 <= i < rows@.len() ==> (#[trigger] insert.rows@[i])@.len() == rows@[i]@.len()
            },
        },
{
    let ghost sent = *model;
    let model = match model.convert() {
        Ok(model) => model,
        Err(error) => return Step::refuse(error),
    };
    let columns = match columns.convert() {
        Ok(columns) => columns,
        Err(error) => return Step::refuse(error),
    };
    let rows = match rows.convert() {
        Ok(rows) => rows,
        Err(error) => return Step::refuse(error),
    };
    proof {
        lemma_string_keeps_its_bytes(sent, model);
    }
    let executor = choose_executor(db, transaction);
    Step::Execute(InsertBulk { executor, model, columns, rows })
}

/// Tells the outcome of [`rorm_db_insert_bulk`].
pub fn insert_bulk_reply(outcome: Result<(), String>) -> (reply: Reply<()>)
    ensures
        tells_database_outcome(reply, outcome),
{
    database_reply(outcome)
}

/// Rows to insert and the columns to return of them, ready for the database.
#[derive(Debug, PartialEq, Eq)]
pub struct InsertBulkReturning<D, T> {
    /// Where the statement is executed.
    pub executor: Executor<D, T>,
    /// Name of the table.
    pub model: String,
    /// Columns to insert to.
    pub columns: Vec<String>,
    /// Values of the columns, row by row.
    pub rows: Vec<Vec<Value>>,
    /// Columns to return.
    pub returning: Vec<String>,
}

/// The error by which a request to insert rows and return columns of each is refused, if it is.
pub open spec fn insert_bulk_returning_fault(
    model: FFIString,
    columns: Vec<FFIString>,
    rows: Vec<Vec<FFIValue>>,
    returning: Vec<FFIString>,
) -> Option<Error> {
    either_fault(insert_bulk_fault(model, columns, rows), returning.fault())
}

/// Inserts rows and returns columns of each.
pub fn rorm_db_insert_bulk_returning<D, T, R>(
    db: D,
    transaction: Option<T>,
    model: &FFIString,
    columns: &Vec<FFIString>,
    rows: &Vec<Vec<FFIValue>>,
    returning: &Vec<FFIString>,
) -> (step: Step<InsertBulkReturning<D, T>, Vec<R>>)
    ensures
        match insert_bulk_returning_fault(*model, *columns, *rows, *returning) {
            Some(error) => step.refuses_with(error),
            None => {
                &&& step matches Step::Execute(insert)
                &&& insert.executor.serves(db, transaction)
                &&& model.becomes(insert.model)
                &&& columns.becomes(insert.columns)
                &&& rows.becomes(insert.rows)
                &&& returning.becomes(insert.returning)
                &&& encode_utf8(insert.model@) == model.bytes@
                &&& insert.columns@.len() == columns@.len()
                &&& insert.rows@.len() == rows@.len()
                &&& forall|i: int|
                    0 <= i < rows@.len() ==> (#[trigger] insert.rows@[i])@.len() == rows@[i]@.len()
                &&& insert.returning@.len() == returning@.len()
            },
        },
{
    let ghost sent = *model;
    let model = match model.convert() {
        Ok(model) => model,
        Err(error) => return Step::refuse(error),
    };
    let columns = match columns.convert() {
        Ok(columns) => columns,
        Err(error) => return Step::refuse(error),
    };
    let rows = match rows.convert() {
        Ok(rows) => rows,
        Err(error) => return Step::refuse(error),
    };
    let returning = match returning.convert() {
        Ok(returning) => returning,
        Err(error) => return Step::refuse(error),
    };
    proof {
        lemma_string_keeps_its_bytes(sent, model);
    }
    let executor = choose_executor(db, transaction);
    Step::Execute(InsertBulkReturning { executor, model, columns, rows, returning })
}

/// Tells the outcome of [`rorm_db_insert_bulk_returning`].
pub fn insert_bulk_returning_reply<R>(outcome: Result<Vec<R>, String>) -> (reply: Reply<Vec<R>>)
    ensures
        tells_database_outcome(reply, outcome),
{
    database_reply(outcome)
}

/// Columns to update, ready for the database.
#[derive(Debug, PartialEq, Eq)]
pub struct Update<D, T> {
    /// Where the statement is executed.
    pub executor: Executor<D, T>,
    /// Name of the table.
    pub model: String,
    /// Columns with the values to set them to.
    pub updates: Vec<(String, Value)>,
    /// Condition on the rows.
    pub condition: Option<Condition>,
}

/// The error by which a request to update is refused, if it is.
pub open spec fn update_fault(
    model: FFIString,
    updates: Vec<FFIUpdate>,
    condition: Option<FFICondition>,
) -> Option<Error> {
    either_fault(model.fault(), either_fault(updates.fault(), condition.fault()))
}

/// Updates the rows that match.
pub fn rorm_db_update<D, T>(
    db: D,
    transaction: Option<T>,
    model: &FFIString,
    updates: &Vec<FFIUpdate>,
    condition: &Option<FFICondition>,
) -> (step: Step<Update<D, T>, u64>)
    ensures
        match update_fault(*model, *updates, *condition) {
            Some(error) => step.refuses_with(error),
            None => {
                &&& step matches Step::Execute(update)
                &&& update.executor.serves(db, transaction)
                &&& model.becomes(update.model)
                &&& updates.becomes(update.updates)
                &&& condition.becomes(update.condition)
                &&& encode_utf8(update.model@) == model.bytes@
                &&& update.updates@.len() == updates@.len()
                &&& forall|i: int|
                    0 <= i < updates@.len() ==> updates@[i].value.becomes(
                        (#[trigger] update.updates@[i]).1,
                    )
                &&& match *condition {
                    Some(sent) => update.condition matches Some(asked) && asked_operators(asked)
                        == sent_operators(sent),
                    None => update.condition is None,
                }
            },
        },
{
    let ghost sent = (*model, *condition);
    let model = match model.convert() {
        Ok(model) => model,
        Err(error) => return Step::refuse(error),
    };
    let updates = match updates.convert() {
        Ok(updates) => updates,
        Err(error) => return Step::refuse(error),
    };
    let condition = match condition.convert() {
        Ok(condition) => condition,
        Err(error) => return Step::refuse(error),
    };
    proof {
        lemma_string_keeps_its_bytes(sent.0, model);
        if condition is Some {
            lemma_condition_keeps_operators_and_values(sent.1->0, condition->0);
        }
    }
    let executor = choose_executor(db, transaction);
    Step::Execute(Update { executor, model, updates, condition })
}

/// Tells the outcome of [`rorm_db_update`]: the number of rows affected.
pub fn update_reply(outcome: Result<u64, String>) -> (reply: Reply<u64>)
    ensures
        tells_database_outcome(reply, outcome),
{
    database_reply(outcome)
}

/// A request to delete or to update is only ever refused by an error that blames its
/// input.
pub proof fn lemma_change_fault_refuses_input(
    model: FFIString,
    updates: Vec<FFIUpdate>,
    condition: Option<FFICondition>,
)
    ensures
        delete_fault(model, condition) matches Some(error) ==> error.refuses_input(),
        update_fault(model, updates, condition) matches Some(error) ==> error.refuses_input(),
{
    model.lemma_fault_refuses_input();
    updates.lemma_fault_refuses_input();
    condition.lemma_fault_refuses_input();
}

/// A request to insert is only ever refused by an error that blames its input.
pub proof fn lemma_insert_fault_refuses_input(
    model: FFIString,
    columns: Vec<FFIString>,
    row: Vec<FFIValue>,
    rows: Vec<Vec<FFIValue>>,
    returning: Vec<FFIString>,
)
    ensures
        insert_returning_fault(model, columns, row, returning) matches Some(error)
            ==> error.refuses_input(),
        insert_bulk_returning_fault(model, columns, rows, returning) matches Some(error)
            ==> error.refuses_input(),
        insert_fault(model, columns, row) matches Some(error) ==> error.refuses_input(),
        insert_bulk_fault(model, columns, rows) matches Some(error) ==> error.refuses_input(),
{
    model.lemma_fault_refuses_input();
    columns.lemma_fault_refuses_input();
    row.lemma_fault_refuses_input();
    rows.lemma_fault_refuses_input();
    returning.lemma_fault_refuses_input();
}

/// The parts of a request to change rows are looked at one after the other: a fault in
/// one is found whatever comes after it, and a part without fault changes nothing.
pub proof fn lemma_change_is_looked_at_in_order(
    model: FFIString,
    updates: Vec<FFIUpdate>,
    condition: Option<FFICondition>,
)
    ensures
        model.fault() is Some ==> delete_fault(model, condition) == model.fault(),
        model.fault() is None ==> delete_fault(model, condition) == condition.fault(),
        model.fault() is Some ==> update_fault(model, updates, condition) == model.fault(),
        model.fault() is None && updates.fault() is Some ==> update_fault(model, updates, condition)
            == updates.fault(),
        model.fault() is None && updates.fault() is None ==> update_fault(model, updates, condition)
            == condition.fault(),
{
}

/// The parts of a request to insert are looked at one after the other: a fault in one is
/// found whatever comes after it, and a part without fault changes nothing.
pub proof fn lemma_insert_is_looked_at_in_order(
    model: FFIString,
    columns: Vec<FFIString>,
    row: Vec<FFIValue>,
    rows: Vec<Vec<FFIValue>>,
)
    ensures
        model.fault() is Some ==> insert_fault(model, columns, row) == model.fault(),
        model.fault() is None && columns.fault() is Some ==> insert_fault(model, columns, row)
            == columns.fault(),
        model.fault() is None && columns.fault() is None ==> insert_fault(model, columns, row)
            == row.fault(),
        model.fault() is Some ==> insert_bulk_fault(model, columns, rows) == model.fault(),
        model.fault() is None && columns.fault() is Some ==> insert_bulk_fault(model, columns, rows)
            == columns.fault(),
        model.fault() is None && columns.fault() is None ==> insert_bulk_fault(model, columns, rows)
            == rows.fault(),
{
}

/// Inserting is refused alike with and without columns to return: these are to blame
/// only where all else is accepted.
pub proof fn lemma_returning_is_looked_at_last(
    model: FFIString,
    columns: Vec<FFIString>,
    row: Vec<FFIValue>,
    rows: Vec<Vec<FFIValue>>,
    returning: Vec<FFIString>,
)
    ensures
        insert_returning_fault(model, columns, row, returning) == if insert_fault(
            model,
            columns,
            row,
        ) is Some {
            insert_fault(model, columns, row)
        } else {
            returning.fault()
        },
        insert_bulk_returning_fault(model, columns, rows, returning) == if insert_bulk_fault(
            model,
            columns,
            rows,
        ) is Some {
            insert_bulk_fault(model, columns, rows)
        } else {
            returning.fault()
        },
{
}

/// Inserting one row in bulk is refused exactly as inserting that row is, and asks the
/// database for the same values.
pub proof fn lemma_bulk_of_one_row(
    model: FFIString,
    columns: Vec<FFIString>,
    rows: Vec<Vec<FFIValue>>,
    row: Vec<FFIValue>,
)
    requires
        rows@ == seq![row],
    ensures
        insert_bulk_fault(model, columns, rows) == insert_fault(model, columns, row),
        forall|targets: Vec<Vec<Value>>| #[trigger]
            rows.becomes(targets) <==> targets@.len() == 1 && row.becomes(targets@[0]),
{
    assert(rows@.drop_first() =~= seq![]);
    assert(first_fault(rows@.drop_first()) is None);
    assert(rows@[0] == row);
}

/// Rows are refused by the first value that has a fault, row after row.
pub proof fn lemma_rows_refused_by_first_value(rows: Seq<Vec<FFIValue>>)
    ensures
        first_fault(rows) == first_fault(row_values(rows)),
    decreases rows.len(),
{
    if rows.len() > 0 {
        lemma_rows_refused_by_first_value(rows.drop_first());
        lemma_first_fault_concat(rows[0]@, row_values(rows.drop_first()));
    }
}

/// The values of the rows, one row after the other.
pub open spec fn row_values(rows: Seq<Vec<FFIValue>>) -> Seq<FFIValue>
    decreases rows.len(),
{
    if rows.len() == 0 {
        seq![]
    } else {
        rows[0]@ + row_values(rows.drop_first())
    }
}

} // verus!
