use rorm_lib::calendar::{FFIDate, FFIDateTime, FFITime};
use rorm_lib::convert::Convert;
use rorm_lib::errors::Error;
use rorm_lib::representations::{
    BinaryOperator, ColumnSelector, Condition, DBBackend, DBConnectOptions, DatabaseConfiguration,
    DatabaseDriver, DatabaseServer, FFIAggregation, FFIColumnSelector, FFICondition, FFIJoin, FFIJoinType, FFIOrderByEntry,
    FFIUpdate, FFIValue, JoinTable, NullType, OrderByEntry, SortOrder, TernaryOperator,
    UnaryOperator, Value,
};
use rorm_lib::utils::FFIString;

fn s(text: &str) -> FFIString {
    FFIString::new(text)
}

fn bad() -> FFIString {
    FFIString { bytes: vec![b'x', 0xff] }
}

fn bad_date() -> FFIValue {
    FFIValue::NaiveDate(FFIDate { year: 2023, month: 2, day: 30 })
}

fn bad_time() -> FFIValue {
    FFIValue::NaiveTime(FFITime { hour: 25, min: 0, sec: 0 })
}

fn bad_datetime() -> FFIValue {
    FFIValue::NaiveDateTime(FFIDateTime { year: 2023, month: 2, day: 1, hour: 1, min: 60, sec: 0 })
}

#[test]
fn every_value_keeps_its_kind_and_content() {
    let date = FFIDate { year: 2023, month: 5, day: 17 };
    let time = FFITime { hour: 1, min: 2, sec: 3 };
    let datetime = FFIDateTime::new(date, time);
    assert_eq!(FFIValue::Null(NullType::I64).convert(), Ok(Value::Null(NullType::I64)));
    assert_eq!(FFIValue::Ident(s("id")).convert(), Ok(Value::Ident("id".to_string())));
    assert_eq!(
        FFIValue::Column { table_name: Some(s("t")), column_name: s("c") }.convert(),
        Ok(Value::Column { table_name: Some("t".to_string()), column_name: "c".to_string() })
    );
    assert_eq!(
        FFIValue::Column { table_name: None, column_name: s("c") }.convert(),
        Ok(Value::Column { table_name: None, column_name: "c".to_string() })
    );
    assert_eq!(FFIValue::Choice(s("red")).convert(), Ok(Value::Choice("red".to_string())));
    assert_eq!(FFIValue::String(s("text")).convert(), Ok(Value::String("text".to_string())));
    assert_eq!(FFIValue::I64(-5).convert(), Ok(Value::I64(-5)));
    assert_eq!(FFIValue::I32(-6).convert(), Ok(Value::I32(-6)));
    assert_eq!(FFIValue::I16(-7).convert(), Ok(Value::I16(-7)));
    assert_eq!(FFIValue::Bool(true).convert(), Ok(Value::Bool(true)));
    assert_eq!(FFIValue::F64(1.5f64.to_bits()).convert(), Ok(Value::F64(1.5f64.to_bits())));
    assert_eq!(FFIValue::F32(2.5f32.to_bits()).convert(), Ok(Value::F32(2.5f32.to_bits())));
    assert_eq!(FFIValue::Binary(vec![0xff, 0]).convert(), Ok(Value::Binary(vec![0xff, 0])));
    assert_eq!(FFIValue::NaiveTime(time).convert(), Ok(Value::NaiveTime(time)));
    assert_eq!(FFIValue::NaiveDate(date).convert(), Ok(Value::NaiveDate(date)));
    assert_eq!(FFIValue::NaiveDateTime(datetime).convert(), Ok(Value::NaiveDateTime(datetime)));
}

#[test]
fn every_fault_of_a_value_has_its_error() {
    assert_eq!(FFIValue::Ident(bad()).convert(), Err(Error::InvalidStringError));
    assert_eq!(FFIValue::Choice(bad()).convert(), Err(Error::InvalidStringError));
    assert_eq!(FFIValue::String(bad()).convert(), Err(Error::InvalidStringError));
    assert_eq!(
        FFIValue::Column { table_name: Some(bad()), column_name: s("c") }.convert(),
        Err(Error::InvalidStringError)
    );
    assert_eq!(
        FFIValue::Column { table_name: None, column_name: bad() }.convert(),
        Err(Error::InvalidStringError)
    );
    assert_eq!(bad_date().convert(), Err(Error::InvalidDateError));
    assert_eq!(bad_time().convert(), Err(Error::InvalidTimeError));
    assert_eq!(bad_datetime().convert(), Err(Error::InvalidDateTimeError));
}

fn leaf(value: FFIValue) -> Box<FFICondition> {
    Box::new(FFICondition::Value(value))
}

#[test]
fn a_condition_keeps_its_shape() {
    let condition = FFICondition::Conjunction(vec![
        FFICondition::Binary(BinaryOperator::Equals, leaf(FFIValue::Ident(s("a"))), leaf(FFIValue::I32(1))),
        FFICondition::Disjunction(vec![
            FFICondition::Unary(UnaryOperator::IsNull, leaf(FFIValue::Ident(s("b")))),
            FFICondition::Ternary(
                TernaryOperator::NotBetween,
                leaf(FFIValue::Ident(s("c"))),
                leaf(FFIValue::I32(2)),
                leaf(FFIValue::I32(3)),
            ),
        ]),
    ]);
    let value = |value: Value| Box::new(Condition::Value(value));
    let ident = |name: &str| Box::new(Condition::Value(Value::Ident(name.to_string())));
    assert_eq!(
        condition.convert(),
        Ok(Condition::Conjunction(vec![
            Condition::Binary(BinaryOperator::Equals, ident("a"), value(Value::I32(1))),
            Condition::Disjunction(vec![
                Condition::Unary(UnaryOperator::IsNull, ident("b")),
                Condition::Ternary(
                    TernaryOperator::NotBetween,
                    ident("c"),
                    value(Value::I32(2)),
                    value(Value::I32(3)),
                ),
            ]),
        ]))
    );
    assert_eq!(FFICondition::Conjunction(vec![]).convert(), Ok(Condition::Conjunction(vec![])));
}

#[test]
fn a_condition_is_refused_by_its_first_faulty_value() {
    let binary = FFICondition::Binary(BinaryOperator::Less, leaf(bad_date()), leaf(bad_time()));
    assert_eq!(binary.convert(), Err(Error::InvalidDateError));
    let right = FFICondition::Binary(BinaryOperator::Less, leaf(FFIValue::I64(0)), leaf(bad_time()));
    assert_eq!(right.convert(), Err(Error::InvalidTimeError));
    let ternary = FFICondition::Ternary(
        TernaryOperator::Between,
        leaf(FFIValue::I64(0)),
        leaf(bad_datetime()),
        leaf(FFIValue::String(bad())),
    );
    assert_eq!(ternary.convert(), Err(Error::InvalidDateTimeError));
    let third = FFICondition::Ternary(
        TernaryOperator::Between,
        leaf(FFIValue::I64(0)),
        leaf(FFIValue::I64(1)),
        leaf(FFIValue::String(bad())),
    );
    assert_eq!(third.convert(), Err(Error::InvalidStringError));
    let nested = FFICondition::Conjunction(vec![
        FFICondition::Value(FFIValue::Bool(true)),
        FFICondition::Disjunction(vec![FFICondition::Unary(UnaryOperator::Not, leaf(bad_time()))]),
        FFICondition::Value(bad_date()),
    ]);
    assert_eq!(nested.convert(), Err(Error::InvalidTimeError));
}

#[test]
fn columns_joins_and_orders_are_carried_over() {
    let column = FFIColumnSelector {
        table_name: Some(s("t")),
        column_name: s("c"),
        select_alias: Some(s("x")),
        aggregation: Some(FFIAggregation::Sum),
    };
    assert_eq!(
        column.convert(),
        Ok(ColumnSelector {
            table_name: Some("t".to_string()),
            column_name: "c".to_string(),
            select_alias: Some("x".to_string()),
            aggregation: Some(FFIAggregation::Sum),
        })
    );
    let join = FFIJoin {
        join_type: FFIJoinType::LeftJoin,
        table_name: s("u"),
        join_alias: s("v"),
        join_condition: FFICondition::Value(FFIValue::Bool(true)),
    };
    assert_eq!(
        join.convert(),
        Ok(JoinTable {
            join_type: FFIJoinType::LeftJoin,
            table_name: "u".to_string(),
            join_alias: "v".to_string(),
            join_condition: Condition::Value(Value::Bool(true)),
        })
    );
    let order = FFIOrderByEntry { ordering: SortOrder::Desc, table_name: Some(s("t")), column_name: s("c") };
    assert_eq!(
        order.convert(),
        Ok(OrderByEntry {
            ordering: SortOrder::Desc,
            table_name: Some("t".to_string()),
            column_name: "c".to_string(),
        })
    );
}

#[test]
fn columns_joins_and_orders_are_refused() {
    let column = |table: FFIString, name: FFIString, alias: FFIString| FFIColumnSelector {
        table_name: Some(table),
        column_name: name,
        select_alias: Some(alias),
        aggregation: None,
    };
    assert_eq!(column(bad(), s("c"), s("x")).convert(), Err(Error::InvalidStringError));
    assert_eq!(column(s("t"), bad(), s("x")).convert(), Err(Error::InvalidStringError));
    assert_eq!(column(s("t"), s("c"), bad()).convert(), Err(Error::InvalidStringError));
    let join = |table: FFIString, alias: FFIString, value: FFIValue| FFIJoin {
        join_type: FFIJoinType::Join,
        table_name: table,
        join_alias: alias,
        join_condition: FFICondition::Value(value),
    };
    assert_eq!(join(bad(), s("v"), bad_date()).convert(), Err(Error::InvalidStringError));
    assert_eq!(join(s("u"), bad(), bad_date()).convert(), Err(Error::InvalidStringError));
    assert_eq!(join(s("u"), s("v"), bad_date()).convert(), Err(Error::InvalidDateError));
    let order = |table: FFIString, name: FFIString| FFIOrderByEntry {
        ordering: SortOrder::Asc,
        table_name: Some(table),
        column_name: name,
    };
    assert_eq!(order(bad(), s("c")).convert(), Err(Error::InvalidStringError));
    assert_eq!(order(s("t"), bad()).convert(), Err(Error::InvalidStringError));
}

#[test]
fn an_update_is_only_refused_for_an_invalid_string() {
    let update = |column: FFIString, value: FFIValue| FFIUpdate { column, value };
    assert_eq!(
        update(s("c"), FFIValue::I16(4)).convert(),
        Ok(("c".to_string(), Value::I16(4)))
    );
    assert_eq!(update(bad(), FFIValue::I16(4)).convert(), Err(Error::InvalidStringError));
    assert_eq!(update(s("c"), bad_date()).convert(), Err(Error::InvalidStringError));
    assert_eq!(update(s("c"), bad_time()).convert(), Err(Error::InvalidStringError));
    assert_eq!(update(s("c"), bad_datetime()).convert(), Err(Error::InvalidStringError));
}

fn options(
    backend: DBBackend,
    name: FFIString,
    host: FFIString,
    user: FFIString,
    password: FFIString,
) -> DBConnectOptions {
    DBConnectOptions {
        backend,
        name,
        host,
        port: 5432,
        user,
        password,
        min_connections: 1,
        max_connections: 7,
    }
}

#[test]
fn connect_options_become_a_configuration() {
    let server = || DatabaseServer {
        name: "db".to_string(),
        host: "localhost".to_string(),
        port: 5432,
        user: "me".to_string(),
        password: "secret".to_string(),
    };
    let configured = |driver: DatabaseDriver| {
        Ok(DatabaseConfiguration { driver, min_connections: 1, max_connections: 7 })
    };
    let to = |backend: DBBackend| options(backend, s("db"), s("localhost"), s("me"), s("secret"));
    assert_eq!(to(DBBackend::Postgres).convert(), configured(DatabaseDriver::Postgres(server())));
    assert_eq!(to(DBBackend::MySQL).convert(), configured(DatabaseDriver::MySQL(server())));
    assert_eq!(
        to(DBBackend::SQLite).convert(),
        configured(DatabaseDriver::SQLite { filename: "db".to_string() })
    );
}

#[test]
fn connect_options_are_refused() {
    for backend in [DBBackend::Postgres, DBBackend::MySQL] {
        for options in [
            options(backend, bad(), s(""), s(""), s("")),
            options(backend, s(""), bad(), s(""), s("")),
            options(backend, s(""), s(""), bad(), s("")),
            options(backend, s(""), s(""), s(""), bad()),
        ] {
            assert_eq!(options.convert(), Err(Error::InvalidStringError));
        }
    }
    let file = options(DBBackend::SQLite, bad(), s(""), s(""), s(""));
    assert_eq!(file.convert(), Err(Error::InvalidStringError));
}

#[test]
fn a_file_needs_no_server() {
    assert_eq!(
        options(DBBackend::SQLite, s("file.db"), bad(), bad(), bad()).convert(),
        Ok(DatabaseConfiguration {
            driver: DatabaseDriver::SQLite { filename: "file.db".to_string() },
            min_connections: 1,
            max_connections: 7,
        })
    );
}
