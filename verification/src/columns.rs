//! The columns of a row, as the `rorm-db` crate reads them.
//!
//! A row is a collection of cells that are found by the name of their column and
//! read as a type of one's choice. Which cell can be read as which type, and what
//! value comes of it, is up to the database the row was fetched from. So each type
//! has a name for what a row holds under it, and reading a column gives just that.
//!
//! Not every read returns. A statement is prepared once and keeps the names of its
//! columns; where a table has lost a column since, the drivers of SQLite and MySQL may
//! give a row with fewer cells than names, and reading one of the names without a cell
//! panics. Such columns are no keys of what the row holds.

use chrono::{Datelike, NaiveDate, NaiveDateTime, NaiveTime, Timelike};
use rorm_db::row::Row;
use vstd::prelude::*;

verus! {

/// A row of the database.
#[verifier::external_type_specification]
#[verifier::external_body]
pub struct ExRow(rorm_db::row::Row);

/// Year, month and day of a date.
pub type Ymd = (i32, u32, u32);

/// Hour, minute, second and nanosecond of a time; a leap second counts as
/// nanoseconds beyond a full second.
pub type Hmsn = (u32, u32, u32, u32);

/// What reading a column gives: the value, or the message that says why there is none.
pub open spec fn read_view<T>(read: Result<T, String>) -> Result<T, Seq<char>> {
    match read {
        Ok(value) => Ok(value),
        Err(message) => Err(message@),
    }
}

/// What reading a column gives, with its bytes taken as a sequence.
pub open spec fn bytes_view(read: Result<&[u8], String>) -> Result<Seq<u8>, Seq<char>> {
    match read {
        Ok(bytes) => Ok(bytes@),
        Err(message) => Err(message@),
    }
}

/// What reading a column gives, with its text taken as a sequence.
pub open spec fn text_view(read: Result<&str, String>) -> Result<Seq<char>, Seq<char>> {
    match read {
        Ok(text) => Ok(text@),
        Err(message) => Err(message@),
    }
}

/// What reading a column gives, with its bytes, if any, taken as a sequence.
pub open spec fn null_bytes_view(read: Result<Option<&[u8]>, String>) -> Result<
    Option<Seq<u8>>,
    Seq<char>,
> {
    match read {
        Ok(Some(bytes)) => Ok(Some(bytes@)),
        Ok(None) => Ok(None),
        Err(message) => Err(message@),
    }
}

/// What reading a column gives, with its text, if any, taken as a sequence.
pub open spec fn null_text_view(read: Result<Option<&str>, String>) -> Result<
    Option<Seq<char>>,
    Seq<char>,
> {
    match read {
        Ok(Some(text)) => Ok(Some(text@)),
        Ok(None) => Ok(None),
        Err(message) => Err(message@),
    }
}

/// What a row holds under the name of each column, read as a truth value.
///
/// The columns among its keys are those whose reading returns, with a value or with an
/// error.
pub uninterp spec fn bool_columns(row: Row) -> Map<Seq<char>, Result<bool, Seq<char>>>;

/// `rorm_db::row::Row::get` for a truth value, with the text of the error where it
/// fails: what comes out depends on the row and the name of the column alone.
///
/// A column whose reading does not return is left out: the drivers of SQLite and MySQL
/// may panic on a row with fewer cells than names.
#[verifier::external_body]
pub(crate) fn read_bool(row: &Row, column: &str) -> (read: Result<bool, String>)
    requires
        bool_columns(*row).dom().contains(column@),
    ensures
        read_view(read) == bool_columns(*row)[column@],
{
    row.get::<bool, &str>(column).map_err(|error| error.to_string())
}

/// What a row holds under the name of each column, read as a 64 bit integer.
///
/// The columns among its keys are those whose reading returns, with a value or with an
/// error.
pub uninterp spec fn i64_columns(row: Row) -> Map<Seq<char>, Result<i64, Seq<char>>>;

/// `rorm_db::row::Row::get` for a 64 bit integer, with the text of the error where it
/// fails: what comes out depends on the row and the name of the column alone.
///
/// A column whose reading does not return is left out: the drivers of SQLite and MySQL
/// may panic on a row with fewer cells than names.
#[verifier::external_body]
pub(crate) fn read_i64(row: &Row, column: &str) -> (read: Result<i64, String>)
    requires
        i64_columns(*row).dom().contains(column@),
    ensures
        read_view(read) == i64_columns(*row)[column@],
{
    row.get::<i64, &str>(column).map_err(|error| error.to_string())
}

/// What a row holds under the name of each column, read as a 32 bit integer.
///
/// The columns among its keys are those whose reading returns, with a value or with an
/// error.
pub uninterp spec fn i32_columns(row: Row) -> Map<Seq<char>, Result<i32, Seq<char>>>;

/// `rorm_db::row::Row::get` for a 32 bit integer, with the text of the error where it
/// fails: what comes out depends on the row and the name of the column alone.
///
/// A column whose reading does not return is left out: the drivers of SQLite and MySQL
/// may panic on a row with fewer cells than names.
#[verifier::external_body]
pub(crate) fn read_i32(row: &Row, column: &str) -> (read: Result<i32, String>)
    requires
        i32_columns(*row).dom().contains(column@),
    ensures
        read_view(read) == i32_columns(*row)[column@],
{
    row.get::<i32, &str>(column).map_err(|error| error.to_string())
}

/// What a row holds under the name of each column, read as a 16 bit integer.
///
/// The columns among its keys are those whose reading returns, with a value or with an
/// error.
pub uninterp spec fn i16_columns(row: Row) -> Map<Seq<char>, Result<i16, Seq<char>>>;

/// `rorm_db::row::Row::get` for a 16 bit integer, with the text of the error where it
/// fails: what comes out depends on the row and the name of the column alone.
///
/// A column whose reading does not return is left out: the drivers of SQLite and MySQL
/// may panic on a row with fewer cells than names.
#[verifier::external_body]
pub(crate) fn read_i16(row: &Row, column: &str) -> (read: Result<i16, String>)
    requires
        i16_columns(*row).dom().contains(column@),
    ensures
        read_view(read) == i16_columns(*row)[column@],
{
    row.get::<i16, &str>(column).map_err(|error| error.to_string())
}

/// What a row holds under the name of each column, read as bytes.
///
/// The columns among its keys are those whose reading returns, with a value or with an
/// error.
pub uninterp spec fn binary_columns(row: Row) -> Map<Seq<char>, Result<Seq<u8>, Seq<char>>>;

/// `rorm_db::row::Row::get` for bytes, with the text of the error where it
/// fails: what comes out depends on the row and the name of the column alone.
///
/// A column whose reading does not return is left out: the drivers of SQLite and MySQL
/// may panic on a row with fewer cells than names.
#[verifier::external_body]
pub(crate) fn read_binary<'r>(row: &'r Row, column: &str) -> (read: Result<&'r [u8], String>)
    requires
        binary_columns(*row).dom().contains(column@),
    ensures
        bytes_view(read) == binary_columns(*row)[column@],
{
    row.get::<&[u8], &str>(column).map_err(|error| error.to_string())
}

/// What a row holds under the name of each column, read as text.
///
/// The columns among its keys are those whose reading returns, with a value or with an
/// error.
pub uninterp spec fn str_columns(row: Row) -> Map<Seq<char>, Result<Seq<char>, Seq<char>>>;

/// `rorm_db::row::Row::get` for text, with the text of the error where it
/// fails: what comes out depends on the row and the name of the column alone.
///
/// A column whose reading does not return is left out: the drivers of SQLite and MySQL
/// may panic on a row with fewer cells than names.
#[verifier::external_body]
pub(crate) fn read_str<'r>(row: &'r Row, column: &str) -> (read: Result<&'r str, String>)
    requires
        str_columns(*row).dom().contains(column@),
    ensures
        text_view(read) == str_columns(*row)[column@],
{
    row.get::<&str, &str>(column).map_err(|error| error.to_string())
}

/// What a row holds under the name of each column, read as a date.
///
/// The columns among its keys are those whose reading returns, with a value or with an
/// error.
pub uninterp spec fn date_columns(row: Row) -> Map<Seq<char>, Result<Ymd, Seq<char>>>;

/// `rorm_db::row::Row::get` for a date, with the text of the error where it
/// fails: what comes out depends on the row and the name of the column alone.
///
/// A column whose reading does not return is left out: the decoder of the Postgres
/// driver panics on a day beyond the years of `chrono`, and on an infinite one, and those
/// of SQLite and MySQL may on a row with fewer cells than names.
#[verifier::external_body]
pub(crate) fn read_date(row: &Row, column: &str) -> (read: Result<Ymd, String>)
    requires
        date_columns(*row).dom().contains(column@),
    ensures
        read_view(read) == date_columns(*row)[column@],
{
    row.get::<NaiveDate, &str>(column)
        .map(|date| (date.year(), date.month(), date.day()))
        .map_err(|error| error.to_string())
}

/// What a row holds under the name of each column, read as a time.
///
/// The columns among its keys are those whose reading returns, with a value or with an
/// error.
pub uninterp spec fn time_columns(row: Row) -> Map<Seq<char>, Result<Hmsn, Seq<char>>>;

/// `rorm_db::row::Row::get` for a time, with the text of the error where it
/// fails: what comes out depends on the row and the name of the column alone.
///
/// A column whose reading does not return is left out: the decoder of the MySQL driver
/// panics on a negative time where debug assertions are compiled in, and it and that
/// of SQLite may on a row with fewer cells than names.
#[verifier::external_body]
pub(crate) fn read_time(row: &Row, column: &str) -> (read: Result<Hmsn, String>)
    requires
        time_columns(*row).dom().contains(column@),
    ensures
        read_view(read) == time_columns(*row)[column@],
{
    row.get::<NaiveTime, &str>(column)
        .map(|time| (time.hour(), time.minute(), time.second(), time.nanosecond()))
        .map_err(|error| error.to_string())
}

/// What a row holds under the name of each column, read as a date with time.
///
/// The columns among its keys are those whose reading returns, with a value or with an
/// error.
pub uninterp spec fn datetime_columns(row: Row) -> Map<Seq<char>, Result<(Ymd, Hmsn), Seq<char>>>;

/// `rorm_db::row::Row::get` for a date with time, with the text of the error where it
/// fails: what comes out depends on the row and the name of the column alone.
///
/// A column whose reading does not return is left out: the decoder of the Postgres
/// driver panics on a day beyond the years of `chrono`, and on an infinite one, and those
/// of SQLite and MySQL may on a row with fewer cells than names.
#[verifier::external_body]
pub(crate) fn read_datetime(row: &Row, column: &str) -> (read: Result<(Ymd, Hmsn), String>)
    requires
        datetime_columns(*row).dom().contains(column@),
    ensures
        read_view(read) == datetime_columns(*row)[column@],
{
    row.get::<NaiveDateTime, &str>(column)
        .map(
            |at| (
                (at.year(), at.month(), at.day()),
                (at.hour(), at.minute(), at.second(), at.nanosecond()),
            ),
        )
        .map_err(|error| error.to_string())
}

/// What a row holds under the name of each column, read as a truth value, or as `NULL`.
///
/// The columns among its keys are those whose reading returns, with a value or with an
/// error.
pub uninterp spec fn null_bool_columns(row: Row) -> Map<Seq<char>, Result<Option<bool>, Seq<char>>>;

/// `rorm_db::row::Row::get` for a truth value or `NULL`, with the text of the error
/// where it fails: what comes out depends on the row and the name of the column alone.
///
/// A column whose reading does not return is left out: the drivers of SQLite and MySQL
/// may panic on a row with fewer cells than names.
#[verifier::external_body]
pub(crate) fn read_null_bool(row: &Row, column: &str) -> (read: Result<Option<bool>, String>)
    requires
        null_bool_columns(*row).dom().contains(column@),
    ensures
        read_view(read) == null_bool_columns(*row)[column@],
{
    row.get::<Option<bool>, &str>(column).map_err(|error| error.to_string())
}

/// What a row holds under the name of each column, read as a 64 bit integer, or as `NULL`.
///
/// The columns among its keys are those whose reading returns, with a value or with an
/// error.
pub uninterp spec fn null_i64_columns(row: Row) -> Map<Seq<char>, Result<Option<i64>, Seq<char>>>;

/// `rorm_db::row::Row::get` for a 64 bit integer or `NULL`, with the text of the error
/// where it fails: what comes out depends on the row and the name of the column alone.
///
/// A column whose reading does not return is left out: the drivers of SQLite and MySQL
/// may panic on a row with fewer cells than names.
#[verifier::external_body]
pub(crate) fn read_null_i64(row: &Row, column: &str) -> (read: Result<Option<i64>, String>)
    requires
        null_i64_columns(*row).dom().contains(column@),
    ensures
        read_view(read) == null_i64_columns(*row)[column@],
{
    row.get::<Option<i64>, &str>(column).map_err(|error| error.to_string())
}

/// What a row holds under the name of each column, read as a 32 bit integer, or as `NULL`.
///
/// The columns among its keys are those whose reading returns, with a value or with an
/// error.
pub uninterp spec fn null_i32_columns(row: Row) -> Map<Seq<char>, Result<Option<i32>, Seq<char>>>;

/// `rorm_db::row::Row::get` for a 32 bit integer or `NULL`, with the text of the error
/// where it fails: what comes out depends on the row and the name of the column alone.
///
/// A column whose reading does not return is left out: the drivers of SQLite and MySQL
/// may panic on a row with fewer cells than names.
#[verifier::external_body]
pub(crate) fn read_null_i32(row: &Row, column: &str) -> (read: Result<Option<i32>, String>)
    requires
        null_i32_columns(*row).dom().contains(column@),
    ensures
        read_view(read) == null_i32_columns(*row)[column@],
{
    row.get::<Option<i32>, &str>(column).map_err(|error| error.to_string())
}

/// What a row holds under the name of each column, read as a 16 bit integer, or as `NULL`.
///
/// The columns among its keys are those whose reading returns, with a value or with an
/// error.
pub uninterp spec fn null_i16_columns(row: Row) -> Map<Seq<char>, Result<Option<i16>, Seq<char>>>;

/// `rorm_db::row::Row::get` for a 16 bit integer or `NULL`, with the text of the error
/// where it fails: what comes out depends on the row and the name of the column alone.
///
/// A column whose reading does not return is left out: the drivers of SQLite and MySQL
/// may panic on a row with fewer cells than names.
#[verifier::external_body]
pub(crate) fn read_null_i16(row: &Row, column: &str) -> (read: Result<Option<i16>, String>)
    requires
        null_i16_columns(*row).dom().contains(column@),
    ensures
        read_view(read) == null_i16_columns(*row)[column@],
{
    row.get::<Option<i16>, &str>(column).map_err(|error| error.to_string())
}

/// What a row holds under the name of each column, read as bytes, or as `NULL`.
///
/// The columns among its keys are those whose reading returns, with a value or with an
/// error.
pub uninterp spec fn null_binary_columns(row: Row) -> Map<
    Seq<char>,
    Result<Option<Seq<u8>>, Seq<char>>,
>;

/// `rorm_db::row::Row::get` for bytes or `NULL`, with the text of the error
/// where it fails: what comes out depends on the row and the name of the column alone.
///
/// A column whose reading does not return is left out: the drivers of SQLite and MySQL
/// may panic on a row with fewer cells than names.
#[verifier::external_body]
pub(crate) fn read_null_binary<'r>(
    row: &'r Row,
    column: &str,
) -> (read: Result<Option<&'r [u8]>, String>)
    requires
        null_binary_columns(*row).dom().contains(column@),
    ensures
        null_bytes_view(read) == null_binary_columns(*row)[column@],
{
    row.get::<Option<&[u8]>, &str>(column).map_err(|error| error.to_string())
}

/// What a row holds under the name of each column, read as text, or as `NULL`.
///
/// The columns among its keys are those whose reading returns, with a value or with an
/// error.
pub uninterp spec fn null_str_columns(row: Row) -> Map<
    Seq<char>,
    Result<Option<Seq<char>>, Seq<char>>,
>;

/// `rorm_db::row::Row::get` for text or `NULL`, with the text of the error
/// where it fails: what comes out depends on the row and the name of the column alone.
///
/// A column whose reading does not return is left out: the drivers of SQLite and MySQL
/// may panic on a row with fewer cells than names.
#[verifier::external_body]
pub(crate) fn read_null_str<'r>(
    row: &'r Row,
    column: &str,
) -> (read: Result<Option<&'r str>, String>)
    requires
        null_str_columns(*row).dom().contains(column@),
    ensures
        null_text_view(read) == null_str_columns(*row)[column@],
{
    row.get::<Option<&str>, &str>(column).map_err(|error| error.to_string())
}

/// What a row holds under the name of each column, read as a date, or as `NULL`.
///
/// The columns among its keys are those whose reading returns, with a value or with an
/// error.
pub uninterp spec fn null_date_columns(row: Row) -> Map<Seq<char>, Result<Option<Ymd>, Seq<char>>>;

/// `rorm_db::row::Row::get` for a date or `NULL`, with the text of the error
/// where it fails: what comes out depends on the row and the name of the column alone.
///
/// A column whose reading does not return is left out: the decoder of the Postgres
/// driver panics on a day beyond the years of `chrono`, and on an infinite one, and those
/// of SQLite and MySQL may on a row with fewer cells than names.
#[verifier::external_body]
pub(crate) fn read_null_date(row: &Row, column: &str) -> (read: Result<Option<Ymd>, String>)
    requires
        null_date_columns(*row).dom().contains(column@),
    ensures
        read_view(read) == null_date_columns(*row)[column@],
{
    row.get::<Option<NaiveDate>, &str>(column)
        .map(|cell| cell.map(|date| (date.year(), date.month(), date.day())))
        .map_err(|error| error.to_string())
}

/// What a row holds under the name of each column, read as a time, or as `NULL`.
///
/// The columns among its keys are those whose reading returns, with a value or with an
/// error.
pub uninterp spec fn null_time_columns(row: Row) -> Map<Seq<char>, Result<Option<Hmsn>, Seq<char>>>;

/// `rorm_db::row::Row::get` for a time or `NULL`, with the text of the error
/// where it fails: what comes out depends on the row and the name of the column alone.
///
/// A column whose reading does not return is left out: the decoder of the MySQL driver
/// panics on a negative time where debug assertions are compiled in, and it and that
/// of SQLite may on a row with fewer cells than names.
#[verifier::external_body]
pub(crate) fn read_null_time(row: &Row, column: &str) -> (read: Result<Option<Hmsn>, String>)
    requires
        null_time_columns(*row).dom().contains(column@),
    ensures
        read_view(read) == null_time_columns(*row)[column@],
{
    row.get::<Option<NaiveTime>, &str>(column)
        .map(|cell| cell.map(|time| (time.hour(), time.minute(), time.second(), time.nanosecond())))
        .map_err(|error| error.to_string())
}

/// What a row holds under the name of each column, read as a date with time, or as `NULL`.
///
/// The columns among its keys are those whose reading returns, with a value or with an
/// error.
pub uninterp spec fn null_datetime_columns(row: Row) -> Map<
    Seq<char>,
    Result<Option<(Ymd, Hmsn)>, Seq<char>>,
>;

/// `rorm_db::row::Row::get` for a date with time or `NULL`, with the text of the error
/// where it fails: what comes out depends on the row and the name of the column alone.
///
/// A column whose reading does not return is left out: the decoder of the Postgres
/// driver panics on a day beyond the years of `chrono`, and on an infinite one, and those
/// of SQLite and MySQL may on a row with fewer cells than names.
#[verifier::external_body]
pub(crate) fn read_null_datetime(
    row: &Row,
    column: &str,
) -> (read: Result<Option<(Ymd, Hmsn)>, String>)
    requires
        null_datetime_columns(*row).dom().contains(column@),
    ensures
        read_view(read) == null_datetime_columns(*row)[column@],
{
    row.get::<Option<NaiveDateTime>, &str>(column)
        .map(
            |cell| cell.map(
                |at| (
                    (at.year(), at.month(), at.day()),
                    (at.hour(), at.minute(), at.second(), at.nanosecond()),
                ),
            ),
        )
        .map_err(|error| error.to_string())
}

/// What is read from a column is seen in full: the value itself, all of its bytes, all of
/// its text, or all of the message that says why there is none.
pub proof fn lemma_reads_are_seen_in_full<T>(value: T, bytes: &[u8], text: &str, message: String)
    ensures
        read_view::<T>(Ok(value)) == Ok::<T, Seq<char>>(value),
        read_view::<T>(Err(message)) == Err::<T, Seq<char>>(message@),
        bytes_view(Ok(bytes)) == Ok::<Seq<u8>, Seq<char>>(bytes@),
        bytes_view(Err(message)) == Err::<Seq<u8>, Seq<char>>(message@),
        text_view(Ok(text)) == Ok::<Seq<char>, Seq<char>>(text@),
        text_view(Err(message)) == Err::<Seq<char>, Seq<char>>(message@),
        null_bytes_view(Ok(Some(bytes))) == Ok::<Option<Seq<u8>>, Seq<char>>(Some(bytes@)),
        null_bytes_view(Ok(None)) == Ok::<Option<Seq<u8>>, Seq<char>>(None),
        null_bytes_view(Err(message)) == Err::<Option<Seq<u8>>, Seq<char>>(message@),
        null_text_view(Ok(Some(text))) == Ok::<Option<Seq<char>>, Seq<char>>(Some(text@)),
        null_text_view(Ok(None)) == Ok::<Option<Seq<char>>, Seq<char>>(None),
        null_text_view(Err(message)) == Err::<Option<Seq<char>>, Seq<char>>(message@),
{
}

} // verus!
