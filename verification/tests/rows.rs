use rorm_db::row::Row;
use rorm_db::{Database, DatabaseConfiguration, DatabaseDriver};
use rorm_lib::calendar::{FFIDate, FFIDateTime, FFITime};
use rorm_lib::errors::Error;
use rorm_lib::row::{
    get_data_from_row, rorm_row_get_binary, rorm_row_get_bool, rorm_row_get_date,
    rorm_row_get_datetime, rorm_row_get_i16, rorm_row_get_i32, rorm_row_get_i64,
    rorm_row_get_null_binary, rorm_row_get_null_bool, rorm_row_get_null_date,
    rorm_row_get_null_datetime, rorm_row_get_null_i16, rorm_row_get_null_i32,
    rorm_row_get_null_i64, rorm_row_get_null_str, rorm_row_get_null_time, rorm_row_get_str,
    rorm_row_get_time,
};
use rorm_lib::utils::FFIString;

const CELLS: &str = "SELECT 1 AS truth, 0 AS lie, 9000000000 AS big, -70000 AS medium, 300 AS small, \
    x'00ff' AS bytes, 'Grüße' AS text, NULL AS blank, '2023-05-17' AS day, '13:14:15.5' AS clock, \
    '2023-05-17 13:14:15.25' AS moment";

fn row() -> Row {
    let runtime = tokio::runtime::Runtime::new().unwrap();
    runtime.block_on(async {
        let mut configuration =
            DatabaseConfiguration::new(DatabaseDriver::SQLite { filename: ":memory:".to_string() });
        configuration.max_connections = 1;
        let db = Database::connect(configuration).await.unwrap();
        let row = db.raw_sql(CELLS, None, None).await.unwrap().remove(0);
        db.close().await;
        row
    })
}

fn s(text: &str) -> FFIString {
    FFIString::new(text)
}

fn bad() -> FFIString {
    FFIString { bytes: vec![0xff] }
}

fn told(error: &Error, part: &str) -> bool {
    match error {
        Error::DatabaseError(message) => message.contains(part),
        _ => false,
    }
}

#[test]
fn readable_columns_are_read_and_the_error_is_left_alone() {
    let row = row();
    let mut e = Error::NoRowsLeftInStream;
    assert_eq!(rorm_row_get_bool(&row, &s("truth"), &mut e), true);
    assert_eq!(rorm_row_get_bool(&row, &s("lie"), &mut e), false);
    assert_eq!(rorm_row_get_i64(&row, &s("big"), &mut e), 9000000000);
    assert_eq!(rorm_row_get_i32(&row, &s("medium"), &mut e), -70000);
    assert_eq!(rorm_row_get_i16(&row, &s("small"), &mut e), 300);
    assert_eq!(rorm_row_get_binary(&row, &s("bytes"), &mut e), &[0x00, 0xff]);
    assert_eq!(rorm_row_get_str(&row, &s("text"), &mut e), "Grüße");
    assert_eq!(rorm_row_get_date(&row, &s("day"), &mut e), FFIDate { year: 2023, month: 5, day: 17 });
    assert_eq!(rorm_row_get_time(&row, &s("clock"), &mut e), FFITime { hour: 13, min: 14, sec: 15 });
    assert_eq!(
        rorm_row_get_datetime(&row, &s("moment"), &mut e),
        FFIDateTime { year: 2023, month: 5, day: 17, hour: 13, min: 14, sec: 15 }
    );
    assert_eq!(e, Error::NoRowsLeftInStream);
}

#[test]
fn columns_that_may_be_null_are_read() {
    let row = row();
    let mut e = Error::NoError;
    assert_eq!(rorm_row_get_null_bool(&row, &s("truth"), &mut e), Some(true));
    assert_eq!(rorm_row_get_null_i64(&row, &s("big"), &mut e), Some(9000000000));
    assert_eq!(rorm_row_get_null_i32(&row, &s("medium"), &mut e), Some(-70000));
    assert_eq!(rorm_row_get_null_i16(&row, &s("small"), &mut e), Some(300));
    assert_eq!(rorm_row_get_null_binary(&row, &s("bytes"), &mut e), Some(&[0x00, 0xff][..]));
    assert_eq!(rorm_row_get_null_str(&row, &s("text"), &mut e), Some("Grüße"));
    assert_eq!(
        rorm_row_get_null_date(&row, &s("day"), &mut e),
        Some(FFIDate { year: 2023, month: 5, day: 17 })
    );
    assert_eq!(
        rorm_row_get_null_time(&row, &s("clock"), &mut e),
        Some(FFITime { hour: 13, min: 14, sec: 15 })
    );
    assert_eq!(
        rorm_row_get_null_datetime(&row, &s("moment"), &mut e),
        Some(FFIDateTime { year: 2023, month: 5, day: 17, hour: 13, min: 14, sec: 15 })
    );
    assert_eq!(rorm_row_get_null_bool(&row, &s("blank"), &mut e), None);
    assert_eq!(rorm_row_get_null_i64(&row, &s("blank"), &mut e), None);
    assert_eq!(rorm_row_get_null_i32(&row, &s("blank"), &mut e), None);
    assert_eq!(rorm_row_get_null_i16(&row, &s("blank"), &mut e), None);
    assert_eq!(rorm_row_get_null_binary(&row, &s("blank"), &mut e), None);
    assert_eq!(rorm_row_get_null_str(&row, &s("blank"), &mut e), None);
    assert_eq!(rorm_row_get_null_date(&row, &s("blank"), &mut e), None);
    assert_eq!(rorm_row_get_null_time(&row, &s("blank"), &mut e), None);
    assert_eq!(rorm_row_get_null_datetime(&row, &s("blank"), &mut e), None);
    assert_eq!(e, Error::NoError);
}

#[test]
fn a_missing_column_gives_the_default() {
    let row = row();
    let name = s("absent");
    let mut e = Error::NoError;
    assert_eq!(rorm_row_get_bool(&row, &name, &mut e), false);
    assert!(told(&e, "absent"));
    e = Error::NoError;
    assert_eq!(rorm_row_get_i64(&row, &name, &mut e), i64::MAX);
    assert!(told(&e, "absent"));
    e = Error::NoError;
    assert_eq!(rorm_row_get_i32(&row, &name, &mut e), i32::MAX);
    assert!(told(&e, "absent"));
    e = Error::NoError;
    assert_eq!(rorm_row_get_i16(&row, &name, &mut e), i16::MAX);
    assert!(told(&e, "absent"));
    e = Error::NoError;
    assert_eq!(rorm_row_get_binary(&row, &name, &mut e), &[] as &[u8]);
    assert!(told(&e, "absent"));
    e = Error::NoError;
    assert_eq!(rorm_row_get_str(&row, &name, &mut e), "");
    assert!(told(&e, "absent"));
    e = Error::NoError;
    assert_eq!(rorm_row_get_date(&row, &name, &mut e), FFIDate { year: 262142, month: 12, day: 31 });
    assert!(told(&e, "absent"));
    e = Error::NoError;
    assert_eq!(rorm_row_get_time(&row, &name, &mut e), FFITime { hour: 0, min: 0, sec: 0 });
    assert!(told(&e, "absent"));
    e = Error::NoError;
    assert_eq!(
        rorm_row_get_datetime(&row, &name, &mut e),
        FFIDateTime { year: 262142, month: 12, day: 31, hour: 0, min: 0, sec: 0 }
    );
    assert!(told(&e, "absent"));
}

#[test]
fn a_missing_column_that_may_be_null_gives_none() {
    let row = row();
    let name = s("absent");
    let mut e = Error::NoError;
    assert_eq!(rorm_row_get_null_bool(&row, &name, &mut e), None);
    assert!(told(&e, "absent"));
    e = Error::NoError;
    assert_eq!(rorm_row_get_null_i64(&row, &name, &mut e), None);
    assert!(told(&e, "absent"));
    e = Error::NoError;
    assert_eq!(rorm_row_get_null_i32(&row, &name, &mut e), None);
    assert!(told(&e, "absent"));
    e = Error::NoError;
    assert_eq!(rorm_row_get_null_i16(&row, &name, &mut e), None);
    assert!(told(&e, "absent"));
    e = Error::NoError;
    assert_eq!(rorm_row_get_null_binary(&row, &name, &mut e), None);
    assert!(told(&e, "absent"));
    e = Error::NoError;
    assert_eq!(rorm_row_get_null_str(&row, &name, &mut e), None);
    assert!(told(&e, "absent"));
    e = Error::NoError;
    assert_eq!(rorm_row_get_null_date(&row, &name, &mut e), None);
    assert!(told(&e, "absent"));
    e = Error::NoError;
    assert_eq!(rorm_row_get_null_time(&row, &name, &mut e), None);
    assert!(told(&e, "absent"));
    e = Error::NoError;
    assert_eq!(rorm_row_get_null_datetime(&row, &name, &mut e), None);
    assert!(told(&e, "absent"));
}

#[test]
fn the_message_of_the_row_is_told_in_full() {
    let row = row();
    let mut e = Error::NoError;
    rorm_row_get_i64(&row, &s("absent"), &mut e);
    let message = row.get::<i64, &str>("absent").unwrap_err().to_string();
    assert!(!message.is_empty());
    assert_eq!(e, Error::DatabaseError(message));
    rorm_row_get_null_date(&row, &s("text"), &mut e);
    let message = row.get::<Option<chrono::NaiveDate>, &str>("text").unwrap_err().to_string();
    assert_eq!(e, Error::DatabaseError(message));
}

#[test]
fn a_column_of_another_type_gives_the_default() {
    let row = row();
    let mut e = Error::NoError;
    assert_eq!(rorm_row_get_i64(&row, &s("text"), &mut e), i64::MAX);
    assert!(told(&e, "mismatched types"));
    e = Error::NoError;
    assert_eq!(rorm_row_get_str(&row, &s("big"), &mut e), "");
    assert!(told(&e, "mismatched types"));
    e = Error::NoError;
    assert_eq!(rorm_row_get_date(&row, &s("text"), &mut e).year, 262142);
    assert!(matches!(e, Error::DatabaseError(_)));
    e = Error::NoError;
    assert_eq!(rorm_row_get_i16(&row, &s("medium"), &mut e), i16::MAX);
    assert!(matches!(e, Error::DatabaseError(_)));
}

#[test]
fn a_name_that_is_no_text_gives_the_default() {
    let row = row();
    let mut e = Error::NoError;
    assert_eq!(rorm_row_get_bool(&row, &bad(), &mut e), false);
    assert_eq!(e, Error::InvalidStringError);
    e = Error::NoError;
    assert_eq!(rorm_row_get_datetime(&row, &bad(), &mut e).day, 31);
    assert_eq!(e, Error::InvalidStringError);
    e = Error::NoError;
    assert_eq!(rorm_row_get_null_str(&row, &bad(), &mut e), None);
    assert_eq!(e, Error::InvalidStringError);
}

#[test]
fn what_was_read_decides() {
    let mut e = Error::NoError;
    assert_eq!(get_data_from_row(7, Ok(8), &mut e), 8);
    assert_eq!(e, Error::NoError);
    assert_eq!(get_data_from_row(7, Err("gone".to_string()), &mut e), 7);
    assert_eq!(e, Error::DatabaseError("gone".to_string()));
}
