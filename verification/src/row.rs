//! Reading a row on behalf of the caller.
//!
//! The caller names a column and gets what the row holds there, or a default of the
//! right type where the column cannot be read. Then, and only then, the error is
//! written that says why.

use rorm_db::row::Row;
use vstd::prelude::*;
use vstd::utf8::{decode_utf8, encode_utf8, valid_utf8};

use crate::calendar::{FFIDate, FFIDateTime, FFITime, MAX_YEAR};
use crate::columns::{
    binary_columns, bool_columns, date_columns, datetime_columns, i16_columns, i32_columns,
    i64_columns, null_binary_columns, null_bool_columns, null_date_columns, null_datetime_columns,
    null_i16_columns, null_i32_columns, null_i64_columns, null_str_columns, null_time_columns,
    read_binary, read_bool, read_date, read_datetime, read_i16, read_i32, read_i64,
    read_null_binary, read_null_bool, read_null_date, read_null_datetime, read_null_i16,
    read_null_i32, read_null_i64, read_null_str, read_null_time, read_str, read_time, str_columns,
    time_columns, Hmsn, Ymd,
};
use crate::errors::Error;
use crate::utils::FFIString;

verus! {

/// Why a column is not read.
pub enum ReadFault {
    /// The name of the column is no valid UTF-8.
    InvalidName,
    /// The row reports this message.
    Failed(Seq<char>),
}

impl ReadFault {
    /// The error by which the caller is told.
    pub open spec fn told_by(self, error: Error) -> bool {
        match self {
            ReadFault::InvalidName => error == Error::InvalidStringError,
            ReadFault::Failed(text) => error matches Error::DatabaseError(message) && message@
                == text,
        }
    }
}

/// What the column of the given name holds, or why it is not read.
pub open spec fn column_at<T>(
    columns: Map<Seq<char>, Result<T, Seq<char>>>,
    index: Seq<u8>,
) -> Result<T, ReadFault> {
    if valid_utf8(index) {
        match columns[decode_utf8(index)] {
            Ok(value) => Ok(value),
            Err(message) => Err(ReadFault::Failed(message)),
        }
    } else {
        Err(ReadFault::InvalidName)
    }
}

/// Hands over what was read from a column, or the default where reading failed.
///
/// The error is written only if reading failed.
pub fn get_data_from_row<T>(
    default: T,
    read: Result<T, String>,
    error_ptr: &mut Error,
) -> (value: T)
    ensures
        match read {
            Ok(cell) => value == cell && *final(error_ptr) == *old(error_ptr),
            Err(message) => value == default && *final(error_ptr) == Error::DatabaseError(message),
        },
{
    match read {
        Ok(cell) => cell,
        Err(message) => {
            *error_ptr = Error::DatabaseError(message);
            default
        },
    }
}

/// A truth value; `false` where it cannot be read.
///
/// `error_ptr` is written only if the column cannot be read.
///
/// Reading the column must return, with a value or with an error.
pub fn rorm_row_get_bool(
    row_ptr: &Row,
    index: &FFIString,
    error_ptr: &mut Error,
) -> (value: bool)
    requires
        valid_utf8(index@) ==> bool_columns(*row_ptr).dom().contains(decode_utf8(index@)),
    ensures
        match column_at(bool_columns(*row_ptr), index@) {
            Ok(cell) => {
                &&& value == cell
                &&& *final(error_ptr) == *old(error_ptr)
            },
            Err(fault) => {
                &&& !value
                &&& fault.told_by(*final(error_ptr))
            },
        },
{
    match index.to_str() {
        Ok(column) => get_data_from_row(false, read_bool(row_ptr, column), error_ptr),
        Err(error) => {
            *error_ptr = error;
            false
        },
    }
}

/// A 64 bit integer; the greatest one where it cannot be read.
///
/// `error_ptr` is written only if the column cannot be read.
///
/// Reading the column must return, with a value or with an error.
pub fn rorm_row_get_i64(
    row_ptr: &Row,
    index: &FFIString,
    error_ptr: &mut Error,
) -> (value: i64)
    requires
        valid_utf8(index@) ==> i64_columns(*row_ptr).dom().contains(decode_utf8(index@)),
    ensures
        match column_at(i64_columns(*row_ptr), index@) {
            Ok(cell) => {
                &&& value == cell
                &&& *final(error_ptr) == *old(error_ptr)
            },
            Err(fault) => {
                &&& value == i64::MAX
                &&& fault.told_by(*final(error_ptr))
            },
        },
{
    match index.to_str() {
        Ok(column) => get_data_from_row(i64::MAX, read_i64(row_ptr, column), error_ptr),
        Err(error) => {
            *error_ptr = error;
            i64::MAX
        },
    }
}

/// A 32 bit integer; the greatest one where it cannot be read.
///
/// `error_ptr` is written only if the column cannot be read.
///
/// Reading the column must return, with a value or with an error.
pub fn rorm_row_get_i32(
    row_ptr: &Row,
    index: &FFIString,
    error_ptr: &mut Error,
) -> (value: i32)
    requires
        valid_utf8(index@) ==> i32_columns(*row_ptr).dom().contains(decode_utf8(index@)),
    ensures
        match column_at(i32_columns(*row_ptr), index@) {
            Ok(cell) => {
                &&& value == cell
                &&& *final(error_ptr) == *old(error_ptr)
            },
            Err(fault) => {
                &&& value == i32::MAX
                &&& fault.told_by(*final(error_ptr))
            },
        },
{
    match index.to_str() {
        Ok(column) => get_data_from_row(i32::MAX, read_i32(row_ptr, column), error_ptr),
        Err(error) => {
            *error_ptr = error;
            i32::MAX
        },
    }
}

/// A 16 bit integer; the greatest one where it cannot be read.
///
/// `error_ptr` is written only if the column cannot be read.
///
/// Reading the column must return, with a value or with an error.
pub fn rorm_row_get_i16(
    row_ptr: &Row,
    index: &FFIString,
    error_ptr: &mut Error,
) -> (value: i16)
    requires
        valid_utf8(index@) ==> i16_columns(*row_ptr).dom().contains(decode_utf8(index@)),
    ensures
        match column_at(i16_columns(*row_ptr), index@) {
            Ok(cell) => {
                &&& value == cell
                &&& *final(error_ptr) == *old(error_ptr)
            },
            Err(fault) => {
                &&& value == i16::MAX
                &&& fault.told_by(*final(error_ptr))
            },
        },
{
    match index.to_str() {
        Ok(column) => get_data_from_row(i16::MAX, read_i16(row_ptr, column), error_ptr),
        Err(error) => {
            *error_ptr = error;
            i16::MAX
        },
    }
}

/// Bytes; none where they cannot be read.
///
/// `error_ptr` is written only if the column cannot be read.
///
/// Reading the column must return, with a value or with an error.
pub fn rorm_row_get_binary<'a>(
    row_ptr: &'a Row,
    index: &FFIString,
    error_ptr: &mut Error,
) -> (value: &'a [u8])
    requires
        valid_utf8(index@) ==> binary_columns(*row_ptr).dom().contains(decode_utf8(index@)),
    ensures
        match column_at(binary_columns(*row_ptr), index@) {
            Ok(cell) => {
                &&& value@ == cell
                &&& *final(error_ptr) == *old(error_ptr)
            },
            Err(fault) => {
                &&& value@.len() == 0
                &&& fault.told_by(*final(error_ptr))
            },
        },
{
    let default: &'a [u8] = &[];
    match index.to_str() {
        Ok(column) => get_data_from_row(default, read_binary(row_ptr, column), error_ptr),
        Err(error) => {
            *error_ptr = error;
            default
        },
    }
}

/// A text; the empty one where it cannot be read.
///
/// `error_ptr` is written only if the column cannot be read.
///
/// Reading the column must return, with a value or with an error.
pub fn rorm_row_get_str<'a>(
    row_ptr: &'a Row,
    index: &FFIString,
    error_ptr: &mut Error,
) -> (value: &'a str)
    requires
        valid_utf8(index@) ==> str_columns(*row_ptr).dom().contains(decode_utf8(index@)),
    ensures
        match column_at(str_columns(*row_ptr), index@) {
            Ok(cell) => {
                &&& value@ == cell
                &&& *final(error_ptr) == *old(error_ptr)
            },
            Err(fault) => {
                &&& value@.len() == 0
                &&& fault.told_by(*final(error_ptr))
            },
        },
{
    let default: &'a str = "";
    proof {
        reveal_strlit("");
    }
    match index.to_str() {
        Ok(column) => get_data_from_row(default, read_str(row_ptr, column), error_ptr),
        Err(error) => {
            *error_ptr = error;
            default
        },
    }
}

/// A date; the last day of the calendar where it cannot be read.
///
/// `error_ptr` is written only if the column cannot be read.
///
/// Reading the column must return, with a value or with an error.
pub fn rorm_row_get_date(
    row_ptr: &Row,
    index: &FFIString,
    error_ptr: &mut Error,
) -> (value: FFIDate)
    requires
        valid_utf8(index@) ==> date_columns(*row_ptr).dom().contains(decode_utf8(index@)),
    ensures
        match column_at(date_columns(*row_ptr), index@) {
            Ok(cell) => {
                &&& (value.year, value.month, value.day) == cell
                &&& *final(error_ptr) == *old(error_ptr)
            },
            Err(fault) => {
                &&& (value.year, value.month, value.day) == (MAX_YEAR, 12u32, 31u32)
                &&& fault.told_by(*final(error_ptr))
            },
        },
{
    let last = FFIDate::last();
    let default: Ymd = (last.year, last.month, last.day);
    let (year, month, day) = match index.to_str() {
        Ok(column) => get_data_from_row(default, read_date(row_ptr, column), error_ptr),
        Err(error) => {
            *error_ptr = error;
            default
        },
    };
    FFIDate { year, month, day }
}

/// A time, without the fraction of its second; midnight where it cannot be read.
///
/// `error_ptr` is written only if the column cannot be read.
///
/// Reading the column must return, with a value or with an error.
pub fn rorm_row_get_time(
    row_ptr: &Row,
    index: &FFIString,
    error_ptr: &mut Error,
) -> (value: FFITime)
    requires
        valid_utf8(index@) ==> time_columns(*row_ptr).dom().contains(decode_utf8(index@)),
    ensures
        match column_at(time_columns(*row_ptr), index@) {
            Ok(cell) => {
                &&& (value.hour, value.min, value.sec) == (cell.0, cell.1, cell.2)
                &&& *final(error_ptr) == *old(error_ptr)
            },
            Err(fault) => {
                &&& (value.hour, value.min, value.sec) == (0u32, 0u32, 0u32)
                &&& fault.told_by(*final(error_ptr))
            },
        },
{
    let midnight = FFITime::midnight();
    let default: Hmsn = (midnight.hour, midnight.min, midnight.sec, 0);
    let (hour, min, sec, _) = match index.to_str() {
        Ok(column) => get_data_from_row(default, read_time(row_ptr, column), error_ptr),
        Err(error) => {
            *error_ptr = error;
            default
        },
    };
    FFITime { hour, min, sec }
}

/// The value is the date with time that was read, without the fraction of its second.
pub open spec fn datetime_is(value: FFIDateTime, cell: (Ymd, Hmsn)) -> bool {
    &&& (value.year, value.month, value.day) == cell.0
    &&& (value.hour, value.min, value.sec) == (cell.1.0, cell.1.1, cell.1.2)
}

/// A date with time, without the fraction of its second; midnight of the last day of
/// the calendar where it cannot be read.
///
/// `error_ptr` is written only if the column cannot be read.
///
/// Reading the column must return, with a value or with an error.
pub fn rorm_row_get_datetime(
    row_ptr: &Row,
    index: &FFIString,
    error_ptr: &mut Error,
) -> (value: FFIDateTime)
    requires
        valid_utf8(index@) ==> datetime_columns(*row_ptr).dom().contains(decode_utf8(index@)),
    ensures
        match column_at(datetime_columns(*row_ptr), index@) {
            Ok(cell) => {
                &&& datetime_is(value, cell)
                &&& *final(error_ptr) == *old(error_ptr)
            },
            Err(fault) => {
                &&& datetime_is(value, ((MAX_YEAR, 12u32, 31u32), (0u32, 0u32, 0u32, 0u32)))
                &&& fault.told_by(*final(error_ptr))
            },
        },
{
    let end = FFIDateTime::new(FFIDate::last(), FFITime::midnight());
    let default: (Ymd, Hmsn) = ((end.year, end.month, end.day), (end.hour, end.min, end.sec, 0));
    let ((year, month, day), (hour, min, sec, _)) = match index.to_str() {
        Ok(column) => get_data_from_row(default, read_datetime(row_ptr, column), error_ptr),
        Err(error) => {
            *error_ptr = error;
            default
        },
    };
    FFIDateTime { year, month, day, hour, min, sec }
}

/// A truth value that may be `NULL`; none where it cannot be read.
///
/// `error_ptr` is written only if the column cannot be read.
///
/// Reading the column must return, with a value or with an error.
pub fn rorm_row_get_null_bool(
    row_ptr: &Row,
    index: &FFIString,
    error_ptr: &mut Error,
) -> (value: Option<bool>)
    requires
        valid_utf8(index@) ==> null_bool_columns(*row_ptr).dom().contains(decode_utf8(index@)),
    ensures
        match column_at(null_bool_columns(*row_ptr), index@) {
            Ok(cell) => {
                &&& value == cell
                &&& *final(error_ptr) == *old(error_ptr)
            },
            Err(fault) => {
                &&& value is None
                &&& fault.told_by(*final(error_ptr))
            },
        },
{
    match index.to_str() {
        Ok(column) => get_data_from_row(None, read_null_bool(row_ptr, column), error_ptr),
        Err(error) => {
            *error_ptr = error;
            None
        },
    }
}

/// A 64 bit integer that may be `NULL`; none where it cannot be read.
///
/// `error_ptr` is written only if the column cannot be read.
///
/// Reading the column must return, with a value or with an error.
pub fn rorm_row_get_null_i64(
    row_ptr: &Row,
    index: &FFIString,
    error_ptr: &mut Error,
) -> (value: Option<i64>)
    requires
        valid_utf8(index@) ==> null_i64_columns(*row_ptr).dom().contains(decode_utf8(index@)),
    ensures
        match column_at(null_i64_columns(*row_ptr), index@) {
            Ok(cell) => {
                &&& value == cell
                &&& *final(error_ptr) == *old(error_ptr)
            },
            Err(fault) => {
                &&& value is None
                &&& fault.told_by(*final(error_ptr))
            },
        },
{
    match index.to_str() {
        Ok(column) => get_data_from_row(None, read_null_i64(row_ptr, column), error_ptr),
        Err(error) => {
            *error_ptr = error;
            None
        },
    }
}

/// A 32 bit integer that may be `NULL`; none where it cannot be read.
///
/// `error_ptr` is written only if the column cannot be read.
///
/// Reading the column must return, with a value or with an error.
pub fn rorm_row_get_null_i32(
    row_ptr: &Row,
    index: &FFIString,
    error_ptr: &mut Error,
) -> (value: Option<i32>)
    requires
        valid_utf8(index@) ==> null_i32_columns(*row_ptr).dom().contains(decode_utf8(index@)),
    ensures
        match column_at(null_i32_columns(*row_ptr), index@) {
            Ok(cell) => {
                &&& value == cell
                &&& *final(error_ptr) == *old(error_ptr)
            },
            Err(fault) => {
                &&& value is None
                &&& fault.told_by(*final(error_ptr))
            },
        },
{
    match index.to_str() {
        Ok(column) => get_data_from_row(None, read_null_i32(row_ptr, column), error_ptr),
        Err(error) => {
            *error_ptr = error;
            None
        },
    }
}

/// A 16 bit integer that may be `NULL`; none where it cannot be read.
///
/// `error_ptr` is written only if the column cannot be read.
///
/// Reading the column must return, with a value or with an error.
pub fn rorm_row_get_null_i16(
    row_ptr: &Row,
    index: &FFIString,
    error_ptr: &mut Error,
) -> (value: Option<i16>)
    requires
        valid_utf8(index@) ==> null_i16_columns(*row_ptr).dom().contains(decode_utf8(index@)),
    ensures
        match column_at(null_i16_columns(*row_ptr), index@) {
            Ok(cell) => {
                &&& value == cell
                &&& *final(error_ptr) == *old(error_ptr)
            },
            Err(fault) => {
                &&& value is None
                &&& fault.told_by(*final(error_ptr))
            },
        },
{
    match index.to_str() {
        Ok(column) => get_data_from_row(None, read_null_i16(row_ptr, column), error_ptr),
        Err(error) => {
            *error_ptr = error;
            None
        },
    }
}

/// Bytes that may be `NULL`; none where they cannot be read.
///
/// `error_ptr` is written only if the column cannot be read.
///
/// Reading the column must return, with a value or with an error.
pub fn rorm_row_get_null_binary<'a>(
    row_ptr: &'a Row,
    index: &FFIString,
    error_ptr: &mut Error,
) -> (value: Option<&'a [u8]>)
    requires
        valid_utf8(index@) ==> null_binary_columns(*row_ptr).dom().contains(decode_utf8(index@)),
    ensures
        match column_at(null_binary_columns(*row_ptr), index@) {
            Ok(cell) => {
                &&& (match cell {
                    Some(content) => value matches Some(slice) && slice@ == content,
                    None => value is None,
                })
                &&& *final(error_ptr) == *old(error_ptr)
            },
            Err(fault) => {
                &&& value is None
                &&& fault.told_by(*final(error_ptr))
            },
        },
{
    match index.to_str() {
        Ok(column) => get_data_from_row(None, read_null_binary(row_ptr, column), error_ptr),
        Err(error) => {
            *error_ptr = error;
            None
        },
    }
}

/// A text that may be `NULL`; none where it cannot be read.
///
/// `error_ptr` is written only if the column cannot be read.
///
/// Reading the column must return, with a value or with an error.
pub fn rorm_row_get_null_str<'a>(
    row_ptr: &'a Row,
    index: &FFIString,
    error_ptr: &mut Error,
) -> (value: Option<&'a str>)
    requires
        valid_utf8(index@) ==> null_str_columns(*row_ptr).dom().contains(decode_utf8(index@)),
    ensures
        match column_at(null_str_columns(*row_ptr), index@) {
            Ok(cell) => {
                &&& (match cell {
                    Some(content) => value matches Some(slice) && slice@ == content,
                    None => value is None,
                })
                &&& *final(error_ptr) == *old(error_ptr)
            },
            Err(fault) => {
                &&& value is None
                &&& fault.told_by(*final(error_ptr))
            },
        },
{
    match index.to_str() {
        Ok(column) => get_data_from_row(None, read_null_str(row_ptr, column), error_ptr),
        Err(error) => {
            *error_ptr = error;
            None
        },
    }
}

/// A date that may be `NULL`; none where it cannot be read.
///
/// `error_ptr` is written only if the column cannot be read.
///
/// Reading the column must return, with a value or with an error.
pub fn rorm_row_get_null_date(
    row_ptr: &Row,
    index: &FFIString,
    error_ptr: &mut Error,
) -> (value: Option<FFIDate>)
    requires
        valid_utf8(index@) ==> null_date_columns(*row_ptr).dom().contains(decode_utf8(index@)),
    ensures
        match column_at(null_date_columns(*row_ptr), index@) {
            Ok(cell) => {
                &&& (match cell {
                    Some(day) => value matches Some(date) && (date.year, date.month, date.day)
                        == day,
                    None => value is None,
                })
                &&& *final(error_ptr) == *old(error_ptr)
            },
            Err(fault) => {
                &&& value is None
                &&& fault.told_by(*final(error_ptr))
            },
        },
{
    let cell = match index.to_str() {
        Ok(column) => get_data_from_row(None, read_null_date(row_ptr, column), error_ptr),
        Err(error) => {
            *error_ptr = error;
            None
        },
    };
    match cell {
        Some((year, month, day)) => Some(FFIDate { year, month, day }),
        None => None,
    }
}

/// A time that may be `NULL`, without the fraction of its second; none where it cannot
/// be read.
///
/// `error_ptr` is written only if the column cannot be read.
///
/// Reading the column must return, with a value or with an error.
pub fn rorm_row_get_null_time(
    row_ptr: &Row,
    index: &FFIString,
    error_ptr: &mut Error,
) -> (value: Option<FFITime>)
    requires
        valid_utf8(index@) ==> null_time_columns(*row_ptr).dom().contains(decode_utf8(index@)),
    ensures
        match column_at(null_time_columns(*row_ptr), index@) {
            Ok(cell) => {
                &&& (match cell {
                    Some(at) => value matches Some(time) && (time.hour, time.min, time.sec) == (
                        at.0,
                        at.1,
                        at.2,
                    ),
                    None => value is None,
                })
                &&& *final(error_ptr) == *old(error_ptr)
            },
            Err(fault) => {
                &&& value is None
                &&& fault.told_by(*final(error_ptr))
            },
        },
{
    let cell = match index.to_str() {
        Ok(column) => get_data_from_row(None, read_null_time(row_ptr, column), error_ptr),
        Err(error) => {
            *error_ptr = error;
            None
        },
    };
    match cell {
        Some((hour, min, sec, _)) => Some(FFITime { hour, min, sec }),
        None => None,
    }
}

/// A date with time that may be `NULL`, without the fraction of its second; none where it
/// cannot be read.
///
/// `error_ptr` is written only if the column cannot be read.
///
/// Reading the column must return, with a value or with an error.
pub fn rorm_row_get_null_datetime(
    row_ptr: &Row,
    index: &FFIString,
    error_ptr: &mut Error,
) -> (value: Option<FFIDateTime>)
    requires
        valid_utf8(index@) ==> null_datetime_columns(*row_ptr).dom().contains(decode_utf8(index@)),
    ensures
        match column_at(null_datetime_columns(*row_ptr), index@) {
            Ok(cell) => {
                &&& (match cell {
                    Some(at) => value matches Some(datetime) && datetime_is(datetime, at),
                    None => value is None,
                })
                &&& *final(error_ptr) == *old(error_ptr)
            },
            Err(fault) => {
                &&& value is None
                &&& fault.told_by(*final(error_ptr))
            },
        },
{
    let cell = match index.to_str() {
        Ok(column) => get_data_from_row(None, read_null_datetime(row_ptr, column), error_ptr),
        Err(error) => {
            *error_ptr = error;
            None
        },
    };
    match cell {
        Some(((year, month, day), (hour, min, sec, _))) => Some(
            FFIDateTime { year, month, day, hour, min, sec },
        ),
        None => None,
    }
}

/// A column is found by the very text of its name: what the row holds there is what the
/// caller gets, and its message is what the caller is told.
pub proof fn lemma_column_is_found_by_its_name<T>(
    columns: Map<Seq<char>, Result<T, Seq<char>>>,
    name: Seq<char>,
    index: FFIString,
)
    requires
        index.bytes@ == encode_utf8(name),
    ensures
        match columns[name] {
            Ok(value) => column_at(columns, index@) == Ok::<T, ReadFault>(value),
            Err(message) => column_at(columns, index@) == Err::<T, ReadFault>(
                ReadFault::Failed(message),
            ),
        },
{
    vstd::utf8::encode_utf8_valid_utf8(name);
    vstd::utf8::encode_utf8_decode_utf8(name);
}

/// A name that is no text finds nothing, whatever the row holds.
pub proof fn lemma_no_text_finds_no_column<T>(
    columns: Map<Seq<char>, Result<T, Seq<char>>>,
    index: FFIString,
)
    requires
        !valid_utf8(index.bytes@),
    ensures
        column_at(columns, index@) == Err::<T, ReadFault>(ReadFault::InvalidName),
{
}

/// The error tells why a column is not read: for its name as an invalid string, and
/// otherwise as an error of the database with the message of the row.
pub proof fn lemma_error_tells_why_a_column_is_not_read(text: Seq<char>, error: Error)
    ensures
        ReadFault::InvalidName.told_by(error) <==> error is InvalidStringError,
        ReadFault::Failed(text).told_by(error) <==> match error {
            Error::DatabaseError(message) => message@ == text,
            _ => false,
        },
{
}

/// A date with time is read with its own year, month, day, hour, minute and second.
pub proof fn lemma_datetime_is_read_part_by_part(value: FFIDateTime, date: Ymd, time: Hmsn)
    ensures
        datetime_is(value, (date, time)) <==> {
            &&& value.year == date.0 && value.month == date.1 && value.day == date.2
            &&& value.hour == time.0 && value.min == time.1 && value.sec == time.2
        },
{
}

} // verus!
