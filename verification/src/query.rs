//! Queries.
//!
//! The four kinds of query take the same request and differ in what they retrieve
//! and in what their callback is told.

use vstd::prelude::*;
use vstd::utf8::encode_utf8;

use crate::convert::{either_fault, lemma_accepted_item_by_item, Convert};
use crate::errors::Error;
use crate::executor::{choose_executor, Executor};
use crate::fidelity::{
    asked_operators, lemma_condition_keeps_operators_and_values, sent_operators,
};
use crate::reply::{
    database_reply, runtime_reply, tells_database_outcome, tells_runtime_outcome, Reply, Step,
};
use crate::representations::{
    ColumnSelector, Condition, FFIColumnSelector, FFICondition, FFIJoin, FFILimitClause,
    FFIOrderByEntry, JoinTable, OrderByEntry,
};
use crate::utils::{lemma_string_keeps_its_bytes, FFIString};

verus! {

/// A query, ready for the database.
#[derive(Debug, PartialEq, Eq)]
pub struct Select<D, T, L> {
    /// Where the query is executed.
    pub executor: Executor<D, T>,
    /// Name of the table to query.
    pub model: String,
    /// Columns to retrieve.
    pub columns: Vec<ColumnSelector>,
    /// Tables to join.
    pub joins: Vec<JoinTable>,
    /// Condition on the rows.
    pub condition: Option<Condition>,
    /// Columns to sort by.
    pub order_by: Vec<OrderByEntry>,
    /// Limit or offset of the query.
    pub limit: Option<L>,
}

impl<D, T, L> Select<D, T, L> {
    /// The query asks for what was sent.
    pub open spec fn asks_for(
        self,
        model: FFIString,
        columns: Vec<FFIColumnSelector>,
        joins: Vec<FFIJoin>,
        condition: Option<FFICondition>,
        order_by: Vec<FFIOrderByEntry>,
        limit: Option<L>,
    ) -> bool {
        &&& model.becomes(self.model)
        &&& columns.becomes(self.columns)
        &&& joins.becomes(self.joins)
        &&& condition.becomes(self.condition)
        &&& order_by.becomes(self.order_by)
        &&& self.limit == limit
    }
}

/// The error by which a query is refused, if it is: the table is looked at first,
/// then the columns, the joins, the condition and the columns to sort by.
pub open spec fn select_fault(
    model: FFIString,
    columns: Vec<FFIColumnSelector>,
    joins: Vec<FFIJoin>,
    condition: Option<FFICondition>,
    order_by: Vec<FFIOrderByEntry>,
) -> Option<Error> {
    either_fault(
        model.fault(),
        either_fault(
            columns.fault(),
            either_fault(joins.fault(), either_fault(condition.fault(), order_by.fault())),
        ),
    )
}

/// The error by which a query for a stream is refused, if it is: here the columns to
/// sort by are looked at before the condition.
pub open spec fn stream_fault(
    model: FFIString,
    columns: Vec<FFIColumnSelector>,
    joins: Vec<FFIJoin>,
    condition: Option<FFICondition>,
    order_by: Vec<FFIOrderByEntry>,
) -> Option<Error> {
    either_fault(
        model.fault(),
        either_fault(
            columns.fault(),
            either_fault(joins.fault(), either_fault(order_by.fault(), condition.fault())),
        ),
    )
}

fn convert_select<D, T, L>(
    db: D,
    transaction: Option<T>,
    model: &FFIString,
    columns: &Vec<FFIColumnSelector>,
    joins: &Vec<FFIJoin>,
    condition: &Option<FFICondition>,
    order_by: &Vec<FFIOrderByEntry>,
    limit: Option<L>,
) -> (result: Result<Select<D, T, L>, Error>)
    ensures
        match result {
            Ok(select) => {
                &&& select_fault(*model, *columns, *joins, *condition, *order_by) is None
                &&& select.asks_for(*model, *columns, *joins, *condition, *order_by, limit)
                &&& select.executor.serves(db, transaction)
                &&& select.limit == limit
                &&& encode_utf8(select.model@) == model.bytes@
                &&& select.columns@.len() == columns@.len()
                &&& select.joins@.len() == joins@.len()
                &&& select.order_by@.len() == order_by@.len()
                &&& match *condition {
                    Some(sent) => select.condition matches Some(asked) && asked_operators(asked)
                        == sent_operators(sent),
                    None => select.condition is None,
                }
            },
            Err(error) => select_fault(*model, *columns, *joins, *condition, *order_by) == Some(
                error,
            ),
        },
{
    let ghost sent = (*model, *condition);
    let model = match model.convert() {
        Ok(model) => model,
        Err(error) => return Err(error),
    };
    let columns = match columns.convert() {
        Ok(columns) => columns,
        Err(error) => return Err(error),
    };
    let joins = match joins.convert() {
        Ok(joins) => joins,
        Err(error) => return Err(error),
    };
    let condition = match condition.convert() {
        Ok(condition) => condition,
        Err(error) => return Err(error),
    };
    let order_by = match order_by.convert() {
        Ok(order_by) => order_by,
        Err(error) => return Err(error),
    };
    proof {
        lemma_string_keeps_its_bytes(sent.0, model);
        if condition is Some {
            lemma_condition_keeps_operators_and_values(sent.1->0, condition->0);
        }
    }
    let executor = choose_executor(db, transaction);
    Ok(Select { executor, model, columns, joins, condition, order_by, limit })
}

/// Queries one row.
pub fn rorm_db_query_one<D, T, R>(
    db: D,
    transaction: Option<T>,
    model: &FFIString,
    columns: &Vec<FFIColumnSelector>,
    joins: &Vec<FFIJoin>,
    condition: &Option<FFICondition>,
    order_by: &Vec<FFIOrderByEntry>,
    offset: Option<u64>,
) -> (step: Step<Select<D, T, u64>, Option<R>>)
    ensures
        match select_fault(*model, *columns, *joins, *condition, *order_by) {
            Some(error) => step.refuses_with(error),
            None => {
                &&& step matches Step::Execute(select)
                &&& select.asks_for(*model, *columns, *joins, *condition, *order_by, offset)
                &&& select.executor.serves(db, transaction)
                &&& select.limit == offset
                &&& encode_utf8(select.model@) == model.bytes@
                &&& select.columns@.len() == columns@.len()
                &&& select.joins@.len() == joins@.len()
                &&& select.order_by@.len() == order_by@.len()
                &&& match *condition {
                    Some(sent) => select.condition matches Some(asked) && asked_operators(asked)
                        == sent_operators(sent),
                    None => select.condition is None,
                }
            },
        },
{
    match convert_select(db, transaction, model, columns, joins, condition, order_by, offset) {
        Ok(select) => Step::Execute(select),
        Err(error) => Step::refuse(error),
    }
}

/// Tells the outcome of [`rorm_db_query_one`].
pub fn query_one_reply<R>(outcome: Result<R, String>) -> (reply: Reply<Option<R>>)
    ensures
        match outcome {
            Ok(row) => reply.succeeds_with(Some(row)),
            Err(message) => reply.fails_with(Error::DatabaseError(message)),
        },
{
    match outcome {
        Ok(row) => Reply::success(Some(row)),
        Err(message) => Reply::failure(Error::DatabaseError(message)),
    }
}

/// Queries one row, or none where no row matches.
pub fn rorm_db_query_optional<D, T, R>(
    db: D,
    transaction: Option<T>,
    model: &FFIString,
    columns: &Vec<FFIColumnSelector>,
    joins: &Vec<FFIJoin>,
    condition: &Option<FFICondition>,
    order_by: &Vec<FFIOrderByEntry>,
    offset: Option<u64>,
) -> (step: Step<Select<D, T, u64>, Option<R>>)
    ensures
        match select_fault(*model, *columns, *joins, *condition, *order_by) {
            Some(error) => step.refuses_with(error),
            None => {
                &&& step matches Step::Execute(select)
                &&& select.asks_for(*model, *columns, *joins, *condition, *order_by, offset)
                &&& select.executor.serves(db, transaction)
                &&& select.limit == offset
                &&& encode_utf8(select.model@) == model.bytes@
                &&& select.columns@.len() == columns@.len()
                &&& select.joins@.len() == joins@.len()
                &&& select.order_by@.len() == order_by@.len()
                &&& match *condition {
                    Some(sent) => select.condition matches Some(asked) && asked_operators(asked)
                        == sent_operators(sent),
                    None => select.condition is None,
                }
            },
        },
{
    match convert_select(db, transaction, model, columns, joins, condition, order_by, offset) {
        Ok(select) => Step::Execute(select),
        Err(error) => Step::refuse(error),
    }
}

/// Tells the outcome of [`rorm_db_query_optional`]; that no row matched is a success.
pub fn query_optional_reply<R>(outcome: Result<Option<R>, String>) -> (reply: Reply<Option<R>>)
    ensures
        tells_database_outcome(reply, outcome),
{
    database_reply(outcome)
}

/// Queries all rows that match.
pub fn rorm_db_query_all<D, T, R>(
    db: D,
    transaction: Option<T>,
    model: &FFIString,
    columns: &Vec<FFIColumnSelector>,
    joins: &Vec<FFIJoin>,
    condition: &Option<FFICondition>,
    order_by: &Vec<FFIOrderByEntry>,
    limit: Option<FFILimitClause>,
) -> (step: Step<Select<D, T, FFILimitClause>, Vec<R>>)
    ensures
        match select_fault(*model, *columns, *joins, *condition, *order_by) {
            Some(error) => step.refuses_with(error),
            None => {
                &&& step matches Step::Execute(select)
                &&& select.asks_for(*model, *columns, *joins, *condition, *order_by, limit)
                &&& select.executor.serves(db, transaction)
                &&& select.limit == limit
                &&& encode_utf8(select.model@) == model.bytes@
                &&& select.columns@.len() == columns@.len()
                &&& select.joins@.len() == joins@.len()
                &&& select.order_by@.len() == order_by@.len()
                &&& match *condition {
                    Some(sent) => select.condition matches Some(asked) && asked_operators(asked)
                        == sent_operators(sent),
                    None => select.condition is None,
                }
            },
        },
{
    match convert_select(db, transaction, model, columns, joins, condition, order_by, limit) {
        Ok(select) => Step::Execute(select),
        Err(error) => Step::refuse(error),
    }
}

/// Tells the outcome of [`rorm_db_query_all`]; a failure is told as an error of the
/// runtime.
pub fn query_all_reply<R>(outcome: Result<Vec<R>, String>) -> (reply: Reply<Vec<R>>)
    ensures
        tells_runtime_outcome(reply, outcome),
{
    runtime_reply(outcome)
}

/// Queries the rows that match one after the other.
pub fn rorm_db_query_stream<D, T, R>(
    db: D,
    transaction: Option<T>,
    model: &FFIString,
    columns: &Vec<FFIColumnSelector>,
    joins: &Vec<FFIJoin>,
    condition: &Option<FFICondition>,
    order_by: &Vec<FFIOrderByEntry>,
    limit: Option<FFILimitClause>,
) -> (step: Step<Select<D, T, FFILimitClause>, Option<R>>)
    ensures
        match stream_fault(*model, *columns, *joins, *condition, *order_by) {
            Some(error) => step.refuses_with(error),
            None => {
                &&& step matches Step::Execute(select)
                &&& select.asks_for(*model, *columns, *joins, *condition, *order_by, limit)
                &&& select.executor.serves(db, transaction)
                &&& select.limit == limit
                &&& encode_utf8(select.model@) == model.bytes@
                &&& select.columns@.len() == columns@.len()
                &&& select.joins@.len() == joins@.len()
                &&& select.order_by@.len() == order_by@.len()
                &&& match *condition {
                    Some(sent) => select.condition matches Some(asked) && asked_operators(asked)
                        == sent_operators(sent),
                    None => select.condition is None,
                }
            },
        },
{
    let ghost sent = (*model, *condition);
    let model = match model.convert() {
        Ok(model) => model,
        Err(error) => return Step::refuse(error),
    };
    let columns = match columns.convert() {
        Ok(columns) => columns,
        Err(error) => return Step::refuse(error),
    };
    let joins = match joins.convert() {
        Ok(joins) => joins,
        Err(error) => return Step::refuse(error),
    };
    let order_by = match order_by.convert() {
        Ok(order_by) => order_by,
        Err(error) => return Step::refuse(error),
    };
    let condition = match condition.convert() {
        Ok(condition) => condition,
        Err(error) => return Step::refuse(error),
    };
    proof {
        lemma_string_keeps_its_bytes(sent.0, model);
        if condition is Some {
            lemma_condition_keeps_operators_and_values(sent.1->0, condition->0);
        }
    }
    let executor = choose_executor(db, transaction);
    Step::Execute(Select { executor, model, columns, joins, condition, order_by, limit })
}

/// Tells that the stream of [`rorm_db_query_stream`] has been opened.
pub fn query_stream_reply<R>(stream: R) -> (reply: Reply<Option<R>>)
    ensures
        reply.succeeds_with(Some(stream)),
{
    Reply::success(Some(stream))
}

/// Tells what the stream gave next: a row, an error of the database, or nothing
/// because all rows have been read.
pub fn rorm_stream_get_row<R>(next: Option<Result<R, String>>) -> (reply: Reply<Option<R>>)
    ensures
        match next {
            Some(Ok(row)) => reply.succeeds_with(Some(row)),
            Some(Err(message)) => reply.fails_with(Error::DatabaseError(message)),
            None => reply.fails_with(Error::NoRowsLeftInStream),
        },
{
    match next {
        Some(Ok(row)) => Reply::success(Some(row)),
        Some(Err(message)) => Reply::failure(Error::DatabaseError(message)),
        None => Reply::failure(Error::NoRowsLeftInStream),
    }
}

/// A query is only ever refused by an error that blames its input.
pub proof fn lemma_select_fault_refuses_input(
    model: FFIString,
    columns: Vec<FFIColumnSelector>,
    joins: Vec<FFIJoin>,
    condition: Option<FFICondition>,
    order_by: Vec<FFIOrderByEntry>,
)
    ensures
        select_fault(model, columns, joins, condition, order_by) matches Some(error)
            ==> error.refuses_input(),
        stream_fault(model, columns, joins, condition, order_by) matches Some(error)
            ==> error.refuses_input(),
{
    model.lemma_fault_refuses_input();
    columns.lemma_fault_refuses_input();
    joins.lemma_fault_refuses_input();
    condition.lemma_fault_refuses_input();
    order_by.lemma_fault_refuses_input();
}

/// All kinds of query accept the same requests. They refuse a request by the same
/// error too, unless both its condition and its columns to sort by have a fault.
pub proof fn lemma_queries_accept_alike(
    model: FFIString,
    columns: Vec<FFIColumnSelector>,
    joins: Vec<FFIJoin>,
    condition: Option<FFICondition>,
    order_by: Vec<FFIOrderByEntry>,
)
    ensures
        select_fault(model, columns, joins, condition, order_by) is None <==> stream_fault(
            model,
            columns,
            joins,
            condition,
            order_by,
        ) is None,
        condition.fault() is None || order_by.fault() is None ==> select_fault(
            model,
            columns,
            joins,
            condition,
            order_by,
        ) == stream_fault(model, columns, joins, condition, order_by),
{
}

/// A query is accepted if and only if each of its parts is.
pub proof fn lemma_select_accepted_part_by_part(
    model: FFIString,
    columns: Vec<FFIColumnSelector>,
    joins: Vec<FFIJoin>,
    condition: Option<FFICondition>,
    order_by: Vec<FFIOrderByEntry>,
)
    ensures
        select_fault(model, columns, joins, condition, order_by) is None <==> {
            &&& model.fault() is None
            &&& forall|i: int| 0 <= i < columns@.len() ==> (#[trigger] columns@[i]).fault() is None
            &&& forall|i: int| 0 <= i < joins@.len() ==> (#[trigger] joins@[i]).fault() is None
            &&& condition.fault() is None
            &&& forall|i: int|
                0 <= i < order_by@.len() ==> (#[trigger] order_by@[i]).fault() is None
        },
{
    lemma_accepted_item_by_item(columns@);
    lemma_accepted_item_by_item(joins@);
    lemma_accepted_item_by_item(order_by@);
}

/// The limit or offset of a query is the one that was sent, whatever the other parts of
/// the request are: two queries for the same limit have the same one.
pub proof fn lemma_limit_does_not_depend_on_the_rest<D, T, L>(
    first: Select<D, T, L>,
    second: Select<D, T, L>,
    model: (FFIString, FFIString),
    columns: (Vec<FFIColumnSelector>, Vec<FFIColumnSelector>),
    joins: (Vec<FFIJoin>, Vec<FFIJoin>),
    condition: (Option<FFICondition>, Option<FFICondition>),
    order_by: (Vec<FFIOrderByEntry>, Vec<FFIOrderByEntry>),
    limit: Option<L>,
)
    requires
        first.asks_for(model.0, columns.0, joins.0, condition.0, order_by.0, limit),
        second.asks_for(model.1, columns.1, joins.1, condition.1, order_by.1, limit),
    ensures
        first.limit == second.limit,
        first.limit == limit,
{
}

/// A query is made of what each part of the request turns into, by itself: as many
/// columns, joins and columns to sort by as were sent, and a condition if and only if one
/// was sent, with its operators.
pub proof fn lemma_query_is_what_was_sent<D, T, L>(
    select: Select<D, T, L>,
    model: FFIString,
    columns: Vec<FFIColumnSelector>,
    joins: Vec<FFIJoin>,
    condition: Option<FFICondition>,
    order_by: Vec<FFIOrderByEntry>,
    limit: Option<L>,
)
    requires
        select_fault(model, columns, joins, condition, order_by) is None,
        select.asks_for(model, columns, joins, condition, order_by, limit),
    ensures
        encode_utf8(select.model@) == model.bytes@,
        select.columns@.len() == columns@.len(),
        forall|i: int|
            0 <= i < columns@.len() ==> columns@[i].becomes(#[trigger] select.columns@[i]),
        select.joins@.len() == joins@.len(),
        forall|i: int| 0 <= i < joins@.len() ==> joins@[i].becomes(#[trigger] select.joins@[i]),
        match select.condition {
            Some(asked) => {
                &&& condition matches Some(sent)
                &&& sent.becomes(asked)
                &&& asked_operators(asked) == sent_operators(sent)
            },
            None => condition is None,
        },
        select.order_by@.len() == order_by@.len(),
        forall|i: int|
            0 <= i < order_by@.len() ==> order_by@[i].becomes(#[trigger] select.order_by@[i]),
        select.limit == limit,
{
    lemma_string_keeps_its_bytes(model, select.model);
    if let Some(asked) = select.condition {
        lemma_condition_keeps_operators_and_values(condition->0, asked);
    }
}

/// The parts of a query are looked at one after the other: a fault in one is found
/// whatever comes after it, and a part without fault changes nothing.
pub proof fn lemma_query_is_looked_at_in_order(
    model: FFIString,
    columns: Vec<FFIColumnSelector>,
    joins: Vec<FFIJoin>,
    condition: Option<FFICondition>,
    order_by: Vec<FFIOrderByEntry>,
)
    ensures
        model.fault() is Some ==> select_fault(model, columns, joins, condition, order_by)
            == model.fault(),
        model.fault() is None && columns.fault() is Some ==> select_fault(
            model,
            columns,
            joins,
            condition,
            order_by,
        ) == columns.fault(),
        model.fault() is None && columns.fault() is None && joins.fault() is Some ==> select_fault(
            model,
            columns,
            joins,
            condition,
            order_by,
        ) == joins.fault(),
        model.fault() is None && columns.fault() is None && joins.fault() is None
            && condition.fault() is Some ==> select_fault(
            model,
            columns,
            joins,
            condition,
            order_by,
        ) == condition.fault(),
        model.fault() is None && columns.fault() is None && joins.fault() is None
            && condition.fault() is None ==> select_fault(
            model,
            columns,
            joins,
            condition,
            order_by,
        ) == order_by.fault(),
        model.fault() is Some || columns.fault() is Some || joins.fault() is Some ==> stream_fault(
            model,
            columns,
            joins,
            condition,
            order_by,
        ) == select_fault(model, columns, joins, condition, order_by),
        condition.fault() is Some && order_by.fault() is Some && model.fault() is None
            && columns.fault() is None && joins.fault() is None ==> stream_fault(
            model,
            columns,
            joins,
            condition,
            order_by,
        ) == order_by.fault(),
{
}

} // verus!
