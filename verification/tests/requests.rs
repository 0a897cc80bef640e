use rorm_lib::calendar::{FFIDate, FFITime};
use rorm_lib::connection::{
    connect_reply, rorm_db_connect, rorm_db_start_transaction, rorm_transaction_commit,
    rorm_transaction_rollback, transaction_end_reply, TransactionEnd,
};
use rorm_lib::errors::Error;
use rorm_lib::executor::Executor;
use rorm_lib::modify::{
    delete_reply, insert_bulk_reply, insert_bulk_returning_reply, insert_reply,
    insert_returning_reply, raw_sql_reply, rorm_db_delete, rorm_db_insert, rorm_db_insert_bulk,
    rorm_db_insert_bulk_returning, rorm_db_insert_returning, rorm_db_raw_sql, rorm_db_update,
    update_reply, Delete, Insert, InsertBulk, InsertBulkReturning, InsertReturning, RawSql, Update,
};
use rorm_lib::query::{
    query_all_reply, query_one_reply, query_optional_reply, query_stream_reply, rorm_db_query_all,
    rorm_db_query_one, rorm_db_query_optional, rorm_db_query_stream, rorm_stream_get_row, Select,
};
use rorm_lib::reply::{Reply, Step};
use rorm_lib::representations::{
    ColumnSelector, Condition, DBBackend, DBConnectOptions, DatabaseDriver, FFIColumnSelector, FFICondition,
    FFIJoin, FFIJoinType, FFILimitClause, FFIOrderByEntry, FFIUpdate, FFIValue, JoinTable,
    OrderByEntry, SortOrder, Value,
};
use rorm_lib::runtime::{
    lock_failed, proceed, rorm_runtime_shutdown, rorm_runtime_start, runtime_state, shutdown_reply, spawn,
    RuntimeState, Shutdown,
};
use rorm_lib::utils::FFIString;

const DB: u8 = 1;
const TX: char = 't';

fn s(text: &str) -> FFIString {
    FFIString::new(text)
}

fn bad() -> FFIString {
    FFIString { bytes: vec![0xff] }
}

fn bad_date() -> FFIValue {
    FFIValue::NaiveDate(FFIDate { year: 2023, month: 2, day: 30 })
}

fn bad_time() -> FFIValue {
    FFIValue::NaiveTime(FFITime { hour: 25, min: 0, sec: 0 })
}

fn message() -> String {
    "out of order".to_string()
}

struct Request {
    model: FFIString,
    columns: Vec<FFIColumnSelector>,
    joins: Vec<FFIJoin>,
    condition: Option<FFICondition>,
    order_by: Vec<FFIOrderByEntry>,
}

fn column(name: FFIString) -> FFIColumnSelector {
    FFIColumnSelector { table_name: None, column_name: name, select_alias: None, aggregation: None }
}

fn join(value: FFIValue) -> FFIJoin {
    FFIJoin {
        join_type: FFIJoinType::Join,
        table_name: s("pet"),
        join_alias: s("p"),
        join_condition: FFICondition::Value(value),
    }
}

fn order(name: FFIString) -> FFIOrderByEntry {
    FFIOrderByEntry { ordering: SortOrder::Asc, table_name: None, column_name: name }
}

fn request() -> Request {
    Request {
        model: s("user"),
        columns: vec![column(s("id")), column(s("name"))],
        joins: vec![join(FFIValue::Bool(true))],
        condition: Some(FFICondition::Value(FFIValue::Bool(false))),
        order_by: vec![order(s("age"))],
    }
}

fn one(transaction: Option<char>, r: &Request) -> Step<Select<u8, char, u64>, Option<i32>> {
    rorm_db_query_one(DB, transaction, &r.model, &r.columns, &r.joins, &r.condition, &r.order_by, Some(3))
}

fn optional(transaction: Option<char>, r: &Request) -> Step<Select<u8, char, u64>, Option<i32>> {
    rorm_db_query_optional(DB, transaction, &r.model, &r.columns, &r.joins, &r.condition, &r.order_by, Some(3))
}

fn limit() -> Option<FFILimitClause> {
    Some(FFILimitClause { limit: 10, offset: Some(20) })
}

fn all(transaction: Option<char>, r: &Request) -> Step<Select<u8, char, FFILimitClause>, Vec<i32>> {
    rorm_db_query_all(DB, transaction, &r.model, &r.columns, &r.joins, &r.condition, &r.order_by, limit())
}

fn stream(transaction: Option<char>, r: &Request) -> Step<Select<u8, char, FFILimitClause>, Option<i32>> {
    rorm_db_query_stream(DB, transaction, &r.model, &r.columns, &r.joins, &r.condition, &r.order_by, limit())
}

fn selected<L>(executor: Executor<u8, char>, limit: Option<L>) -> Select<u8, char, L> {
    let column = |name: &str| ColumnSelector {
        table_name: None,
        column_name: name.to_string(),
        select_alias: None,
        aggregation: None,
    };
    Select {
        executor,
        model: "user".to_string(),
        columns: vec![column("id"), column("name")],
        joins: vec![JoinTable {
            join_type: FFIJoinType::Join,
            table_name: "pet".to_string(),
            join_alias: "p".to_string(),
            join_condition: Condition::Value(Value::Bool(true)),
        }],
        condition: Some(Condition::Value(Value::Bool(false))),
        order_by: vec![OrderByEntry {
            ordering: SortOrder::Asc,
            table_name: None,
            column_name: "age".to_string(),
        }],
        limit,
    }
}

fn refused_row<S>(error: Error) -> Step<S, Option<i32>> {
    Step::Answer(Reply { payload: None, error })
}

fn refused_rows<S>(error: Error) -> Step<S, Vec<i32>> {
    Step::Answer(Reply { payload: vec![], error })
}

#[test]
fn a_sound_query_is_executed() {
    let r = request();
    let on_db = Executor::Database(DB);
    assert_eq!(one(None, &r), Step::Execute(selected(on_db, Some(3))));
    assert_eq!(optional(None, &r), Step::Execute(selected(Executor::Database(DB), Some(3))));
    assert_eq!(all(None, &r), Step::Execute(selected(Executor::Database(DB), limit())));
    assert_eq!(stream(None, &r), Step::Execute(selected(Executor::Database(DB), limit())));
}

#[test]
fn a_transaction_is_used_where_there_is_one() {
    let r = request();
    assert_eq!(one(Some(TX), &r), Step::Execute(selected(Executor::Transaction(TX), Some(3))));
    assert_eq!(optional(Some(TX), &r), Step::Execute(selected(Executor::Transaction(TX), Some(3))));
    assert_eq!(all(Some(TX), &r), Step::Execute(selected(Executor::Transaction(TX), limit())));
    assert_eq!(stream(Some(TX), &r), Step::Execute(selected(Executor::Transaction(TX), limit())));
}

#[test]
fn each_part_of_a_query_can_be_at_fault() {
    let mut r = request();
    r.model = bad();
    assert_eq!(one(None, &r), refused_row(Error::InvalidStringError));
    assert_eq!(all(None, &r), refused_rows(Error::InvalidStringError));

    let mut r = request();
    r.columns.push(column(bad()));
    assert_eq!(optional(None, &r), refused_row(Error::InvalidStringError));

    let mut r = request();
    r.joins.push(join(bad_date()));
    assert_eq!(one(None, &r), refused_row(Error::InvalidDateError));
    assert_eq!(stream(None, &r), refused_row(Error::InvalidDateError));

    let mut r = request();
    r.condition = Some(FFICondition::Value(bad_time()));
    assert_eq!(all(None, &r), refused_rows(Error::InvalidTimeError));
    assert_eq!(stream(None, &r), refused_row(Error::InvalidTimeError));

    let mut r = request();
    r.order_by.push(order(bad()));
    assert_eq!(one(Some(TX), &r), refused_row(Error::InvalidStringError));
}

#[test]
fn the_first_fault_counts() {
    let mut r = request();
    r.joins.push(join(bad_date()));
    r.condition = Some(FFICondition::Value(bad_time()));
    assert_eq!(one(None, &r), refused_row(Error::InvalidDateError));
    r.columns.push(column(bad()));
    assert_eq!(one(None, &r), refused_row(Error::InvalidStringError));
}

#[test]
fn a_stream_looks_at_the_order_before_the_condition() {
    let mut r = request();
    r.condition = Some(FFICondition::Value(bad_time()));
    r.order_by.push(order(bad()));
    assert_eq!(one(None, &r), refused_row(Error::InvalidTimeError));
    assert_eq!(optional(None, &r), refused_row(Error::InvalidTimeError));
    assert_eq!(all(None, &r), refused_rows(Error::InvalidTimeError));
    assert_eq!(stream(None, &r), refused_row(Error::InvalidStringError));
}

#[test]
fn outcomes_of_queries_are_told() {
    assert_eq!(query_one_reply(Ok(5)), Reply { payload: Some(5), error: Error::NoError });
    assert_eq!(
        query_one_reply::<i32>(Err(message())),
        Reply { payload: None, error: Error::DatabaseError(message()) }
    );
    assert_eq!(query_optional_reply(Ok(Some(5))), Reply { payload: Some(5), error: Error::NoError });
    assert_eq!(query_optional_reply::<i32>(Ok(None)), Reply { payload: None, error: Error::NoError });
    assert_eq!(
        query_optional_reply::<i32>(Err(message())),
        Reply { payload: None, error: Error::DatabaseError(message()) }
    );
    assert_eq!(query_all_reply(Ok(vec![1, 2])), Reply { payload: vec![1, 2], error: Error::NoError });
    assert_eq!(
        query_all_reply::<i32>(Err(message())),
        Reply { payload: vec![], error: Error::RuntimeError(message()) }
    );
}

#[test]
fn a_stream_tells_rows_errors_and_its_end() {
    assert_eq!(query_stream_reply('s'), Reply { payload: Some('s'), error: Error::NoError });
    assert_eq!(rorm_stream_get_row(Some(Ok(5))), Reply { payload: Some(5), error: Error::NoError });
    assert_eq!(
        rorm_stream_get_row::<i32>(Some(Err(message()))),
        Reply { payload: None, error: Error::DatabaseError(message()) }
    );
    assert_eq!(
        rorm_stream_get_row::<i32>(None),
        Reply { payload: None, error: Error::NoRowsLeftInStream }
    );
}

#[test]
fn raw_statements() {
    let raw = |query: &FFIString, params: Vec<FFIValue>| -> Step<RawSql<u8, char>, Vec<i32>> {
        rorm_db_raw_sql(DB, None, query, &params)
    };
    assert_eq!(
        raw(&s("SELECT ?"), vec![FFIValue::I32(1), FFIValue::String(s("x"))]),
        Step::Execute(RawSql {
            executor: Executor::Database(DB),
            query_string: "SELECT ?".to_string(),
            bind_params: vec![Value::I32(1), Value::String("x".to_string())],
        })
    );
    assert_eq!(raw(&bad(), vec![]), refused_rows(Error::InvalidStringError));
    assert_eq!(raw(&s("SELECT ?"), vec![FFIValue::String(bad())]), refused_rows(Error::InvalidStringError));
    assert_eq!(raw(&s("SELECT ?"), vec![bad_date()]), refused_rows(Error::InvalidStringError));
    assert_eq!(raw_sql_reply(Ok(vec![7])), Reply { payload: vec![7], error: Error::NoError });
    assert_eq!(
        raw_sql_reply::<i32>(Err(message())),
        Reply { payload: vec![], error: Error::DatabaseError(message()) }
    );
}

fn refused_count<S>(error: Error) -> Step<S, u64> {
    Step::Answer(Reply { payload: u64::MAX, error })
}

#[test]
fn deletes() {
    let delete = |model: &FFIString, condition: Option<FFICondition>| rorm_db_delete(DB, Some(TX), model, &condition);
    assert_eq!(
        delete(&s("user"), None),
        Step::Execute(Delete { executor: Executor::Transaction(TX), model: "user".to_string(), condition: None })
    );
    assert_eq!(delete(&bad(), None), refused_count(Error::InvalidStringError));
    assert_eq!(
        delete(&s("user"), Some(FFICondition::Value(bad_time()))),
        refused_count(Error::InvalidTimeError)
    );
    assert_eq!(
        delete(&bad(), Some(FFICondition::Value(bad_time()))),
        refused_count(Error::InvalidStringError)
    );
    assert_eq!(delete_reply(Ok(3)), Reply { payload: 3, error: Error::NoError });
    assert_eq!(
        delete_reply(Err(message())),
        Reply { payload: u64::MAX, error: Error::DatabaseError(message()) }
    );
}

#[test]
fn updates() {
    let update = |updates: Vec<FFIUpdate>, condition: Option<FFICondition>| {
        rorm_db_update(DB, None::<char>, &s("user"), &updates, &condition)
    };
    assert_eq!(
        update(vec![FFIUpdate { column: s("age"), value: FFIValue::I16(4) }], None),
        Step::Execute(Update {
            executor: Executor::Database(DB),
            model: "user".to_string(),
            updates: vec![("age".to_string(), Value::I16(4))],
            condition: None,
        })
    );
    assert_eq!(
        update(vec![FFIUpdate { column: s("age"), value: bad_date() }], None),
        refused_count(Error::InvalidStringError)
    );
    assert_eq!(
        update(vec![], Some(FFICondition::Value(bad_date()))),
        refused_count(Error::InvalidDateError)
    );
    assert_eq!(
        rorm_db_update(DB, None::<char>, &bad(), &vec![], &None),
        refused_count(Error::InvalidStringError)
    );
    assert_eq!(update_reply(Ok(0)), Reply { payload: 0, error: Error::NoError });
    assert_eq!(
        update_reply(Err(message())),
        Reply { payload: u64::MAX, error: Error::DatabaseError(message()) }
    );
}

#[test]
fn inserts() {
    let insert = |columns: Vec<FFIString>, row: Vec<FFIValue>| rorm_db_insert(DB, Some(TX), &s("user"), &columns, &row);
    let refused = |error: Error| Step::Answer(Reply { payload: (), error });
    assert_eq!(
        insert(vec![s("id"), s("name")], vec![FFIValue::I64(1), FFIValue::String(s("a"))]),
        Step::Execute(Insert {
            executor: Executor::Transaction(TX),
            model: "user".to_string(),
            columns: vec!["id".to_string(), "name".to_string()],
            row: vec![Value::I64(1), Value::String("a".to_string())],
        })
    );
    assert_eq!(insert(vec![bad()], vec![bad_date()]), refused(Error::InvalidStringError));
    assert_eq!(insert(vec![s("id")], vec![FFIValue::I64(1), bad_date()]), refused(Error::InvalidDateError));
    assert_eq!(
        rorm_db_insert(DB, Some(TX), &bad(), &vec![], &vec![bad_date()]),
        refused(Error::InvalidStringError)
    );
    assert_eq!(insert_reply(Ok(())), Reply { payload: (), error: Error::NoError });
    assert_eq!(insert_reply(Err(message())), Reply { payload: (), error: Error::DatabaseError(message()) });
}

#[test]
fn inserts_that_return_columns() {
    let insert = |row: Vec<FFIValue>, returning: Vec<FFIString>| -> Step<InsertReturning<u8, char>, Option<i32>> {
        rorm_db_insert_returning(DB, None, &s("user"), &vec![s("id")], &row, &returning)
    };
    assert_eq!(
        insert(vec![FFIValue::I64(1)], vec![s("id"), s("age")]),
        Step::Execute(InsertReturning {
            executor: Executor::Database(DB),
            model: "user".to_string(),
            columns: vec!["id".to_string()],
            row: vec![Value::I64(1)],
            returning: vec!["id".to_string(), "age".to_string()],
        })
    );
    assert_eq!(insert(vec![bad_time()], vec![bad()]), refused_row(Error::InvalidTimeError));
    assert_eq!(insert(vec![], vec![bad()]), refused_row(Error::InvalidStringError));
    assert_eq!(insert_returning_reply(Ok(5)), Reply { payload: Some(5), error: Error::NoError });
    assert_eq!(
        insert_returning_reply::<i32>(Err(message())),
        Reply { payload: None, error: Error::DatabaseError(message()) }
    );
}

#[test]
fn bulk_inserts() {
    let bulk = |rows: Vec<Vec<FFIValue>>| rorm_db_insert_bulk(DB, None::<char>, &s("user"), &vec![s("id")], &rows);
    let refused = |error: Error| Step::Answer(Reply { payload: (), error });
    assert_eq!(
        bulk(vec![vec![FFIValue::I64(1)], vec![], vec![FFIValue::I64(2), FFIValue::Bool(true)]]),
        Step::Execute(InsertBulk {
            executor: Executor::Database(DB),
            model: "user".to_string(),
            columns: vec!["id".to_string()],
            rows: vec![vec![Value::I64(1)], vec![], vec![Value::I64(2), Value::Bool(true)]],
        })
    );
    assert_eq!(
        bulk(vec![vec![FFIValue::I64(1)], vec![FFIValue::I64(2), bad_time()], vec![bad_date()]]),
        refused(Error::InvalidTimeError)
    );
    assert_eq!(insert_bulk_reply(Ok(())), Reply { payload: (), error: Error::NoError });
    assert_eq!(insert_bulk_reply(Err(message())), Reply { payload: (), error: Error::DatabaseError(message()) });
}

#[test]
fn bulk_inserts_that_return_columns() {
    let bulk = |rows: Vec<Vec<FFIValue>>, returning: Vec<FFIString>| -> Step<InsertBulkReturning<u8, char>, Vec<i32>> {
        rorm_db_insert_bulk_returning(DB, Some(TX), &s("user"), &vec![s("id")], &rows, &returning)
    };
    assert_eq!(
        bulk(vec![vec![FFIValue::I64(1)]], vec![s("id")]),
        Step::Execute(InsertBulkReturning {
            executor: Executor::Transaction(TX),
            model: "user".to_string(),
            columns: vec!["id".to_string()],
            rows: vec![vec![Value::I64(1)]],
            returning: vec!["id".to_string()],
        })
    );
    assert_eq!(bulk(vec![vec![bad_date()]], vec![bad()]), refused_rows(Error::InvalidDateError));
    assert_eq!(bulk(vec![], vec![bad()]), refused_rows(Error::InvalidStringError));
    assert_eq!(insert_bulk_returning_reply(Ok(vec![1])), Reply { payload: vec![1], error: Error::NoError });
    assert_eq!(
        insert_bulk_returning_reply::<i32>(Err(message())),
        Reply { payload: vec![], error: Error::DatabaseError(message()) }
    );
}

#[test]
fn columns_to_return_are_looked_at_last() {
    let columns = vec![s("id")];
    let plain = rorm_db_insert(DB, None::<char>, &s("user"), &columns, &vec![bad_time()]);
    assert_eq!(plain, Step::Answer(Reply { payload: (), error: Error::InvalidTimeError }));
    let returning: Step<InsertReturning<u8, char>, Option<i32>> =
        rorm_db_insert_returning(DB, None, &s("user"), &columns, &vec![bad_time()], &vec![bad()]);
    assert_eq!(returning, refused_row(Error::InvalidTimeError));
}

#[test]
fn no_request_is_refused_as_a_success() {
    let faults = [
        FFIValue::String(bad()),
        bad_date(),
        bad_time(),
        FFIValue::Column { table_name: Some(bad()), column_name: s("c") },
    ];
    for fault in faults {
        let condition = Some(FFICondition::Value(fault));
        match rorm_db_delete(DB, None::<char>, &s("user"), &condition) {
            Step::Answer(reply) => {
                assert_ne!(reply.error, Error::NoError);
                assert_eq!(reply.payload, u64::MAX);
            }
            Step::Execute(_) => panic!("the condition has a fault"),
        }
    }
}

#[test]
fn a_bulk_of_one_row_is_refused_like_the_row() {
    let columns = vec![s("id")];
    let single = rorm_db_insert(DB, None::<char>, &s("user"), &columns, &vec![bad_date()]);
    let bulk = rorm_db_insert_bulk(DB, None::<char>, &s("user"), &columns, &vec![vec![bad_date()]]);
    assert!(matches!(single, Step::Answer(Reply { error: Error::InvalidDateError, .. })));
    assert!(matches!(bulk, Step::Answer(Reply { error: Error::InvalidDateError, .. })));
}

fn options(name: FFIString) -> DBConnectOptions {
    DBConnectOptions {
        backend: DBBackend::SQLite,
        name,
        host: s(""),
        port: 0,
        user: s(""),
        password: s(""),
        min_connections: 1,
        max_connections: 1,
    }
}

#[test]
fn connecting() {
    match rorm_db_connect::<u8>(&options(s("file.db"))) {
        Step::Execute(configuration) => assert_eq!(
            configuration.driver,
            DatabaseDriver::SQLite { filename: "file.db".to_string() }
        ),
        Step::Answer(_) => panic!("the options are sound"),
    }
    assert_eq!(
        rorm_db_connect::<u8>(&options(bad())),
        Step::Answer(Reply { payload: None, error: Error::InvalidStringError })
    );
    assert_eq!(connect_reply(Ok(DB)), Reply { payload: Some(DB), error: Error::NoError });
    assert_eq!(
        connect_reply::<u8>(Err(message())),
        Reply { payload: None, error: Error::RuntimeError(message()) }
    );
}

#[test]
fn transactions_are_committed_and_rolled_back() {
    assert_eq!(rorm_transaction_commit(TX), TransactionEnd::Commit(TX));
    assert_eq!(rorm_transaction_rollback(TX), TransactionEnd::Rollback(TX));
    assert_eq!(transaction_end_reply(Ok(())), Reply { payload: (), error: Error::NoError });
    assert_eq!(
        transaction_end_reply(Err(message())),
        Reply { payload: (), error: Error::DatabaseError(message()) }
    );
    assert_eq!(rorm_db_start_transaction(Ok(TX)), Reply { payload: Some(TX), error: Error::NoError });
    assert_eq!(
        rorm_db_start_transaction::<char>(Err(message())),
        Reply { payload: None, error: Error::DatabaseError(message()) }
    );
}

#[test]
fn requests_need_a_runtime() {
    let spawned = |state: RuntimeState| -> Step<u8, u64> { spawn(state, 9) };
    assert_eq!(spawned(RuntimeState::Running), Step::Execute(9));
    assert_eq!(spawned(RuntimeState::Missing), refused_count(Error::MissingRuntimeError));
    assert_eq!(
        spawned(RuntimeState::Unavailable(message())),
        refused_count(Error::RuntimeError(message()))
    );
    assert_eq!(runtime_state(Ok(&Some(5))), RuntimeState::Running);
    assert_eq!(runtime_state(Ok(&None::<i32>)), RuntimeState::Missing);
    assert_eq!(runtime_state::<i32>(Err(message())), RuntimeState::Unavailable(message()));
}

#[test]
fn faults_of_the_input_come_before_the_runtime() {
    let sound = || rorm_db_delete(DB, None::<char>, &s("user"), &None);
    let faulty = || rorm_db_delete(DB, None::<char>, &bad(), &None);
    assert_eq!(proceed(sound(), RuntimeState::Running), sound());
    assert_eq!(
        proceed(sound(), RuntimeState::Missing),
        refused_count(Error::MissingRuntimeError)
    );
    assert_eq!(
        proceed(sound(), RuntimeState::Unavailable(message())),
        refused_count(Error::RuntimeError(message()))
    );
    for state in
        [RuntimeState::Running, RuntimeState::Missing, RuntimeState::Unavailable(message())]
    {
        assert_eq!(proceed(faulty(), state), refused_count(Error::InvalidStringError));
    }
}

#[test]
fn a_runtime_serves_from_its_start_to_its_shutdown() {
    let done = Reply { payload: (), error: Error::NoError };
    let missing = Step::Answer(Reply { payload: (), error: Error::MissingRuntimeError });
    let mut slot: Option<i32> = None;
    assert_eq!(rorm_runtime_shutdown(&mut slot, 10), missing);
    assert_eq!(rorm_runtime_start(&mut slot, Ok(1)), done);
    assert_eq!(runtime_state(Ok(&slot)), RuntimeState::Running);
    assert_eq!(
        rorm_runtime_start(&mut slot, Err(message())),
        Reply { payload: (), error: Error::RuntimeError(message()) }
    );
    assert_eq!(slot, Some(1));
    assert_eq!(rorm_runtime_start(&mut slot, Ok(2)), done);
    assert_eq!(
        rorm_runtime_shutdown(&mut slot, 10),
        Step::Execute(Shutdown { runtime: 2, duration: 10 })
    );
    assert_eq!(shutdown_reply(), done);
    assert_eq!(slot, None);
    assert_eq!(runtime_state(Ok(&slot)), RuntimeState::Missing);
    assert_eq!(rorm_runtime_shutdown(&mut slot, 10), missing);
    assert_eq!(lock_failed(message()), Reply { payload: (), error: Error::RuntimeError(message()) });
}
