//! What reaches the database is what was sent.
//!
//! The laws here lead back from what a request turned into to what the caller sent:
//! from each value, operator and name that is handed to the database one can tell the
//! bytes, the number or the operator that was sent. So nothing is lost on the way,
//! nothing is made up, and no two different requests turn into the same statement.

use vstd::prelude::*;
use vstd::utf8::{encode_utf8, valid_utf8};

use crate::calendar::is_date;
use crate::convert::{all_become, Convert};
use crate::errors::Error;
use crate::representations::{
    condition_values, conditions_become, conditions_fault, conditions_values, BinaryOperator,
    ColumnSelector, Condition, DBBackend, DBConnectOptions, DatabaseConfiguration, DatabaseDriver,
    FFIColumnSelector, FFICondition, FFIJoin, FFIOrderByEntry, FFIUpdate, FFIValue, JoinTable,
    OrderByEntry, TernaryOperator, UnaryOperator, Value,
};
use crate::utils::{lemma_string_keeps_its_bytes, FFIString};

verus! {

/// A name that may be missing is missing only if none was sent, and otherwise has the
/// very bytes that were sent.
pub proof fn lemma_name_keeps_its_bytes(name: Option<FFIString>, target: Option<String>)
    requires
        name.fault() is None,
        name.becomes(target),
    ensures
        match target {
            Some(text) => name matches Some(sent) && encode_utf8(text@) == sent.bytes@,
            None => name is None,
        },
{
    if let Some(text) = target {
        lemma_string_keeps_its_bytes(name->0, text);
    }
}

/// From a value that is handed to the database one can tell the value that was sent: it
/// is of the same kind, with the same number, the same bytes, or the same point in time.
pub proof fn lemma_value_is_what_was_sent(value: FFIValue, target: Value)
    requires
        value.fault() is None,
        value.becomes(target),
    ensures
        match target {
            Value::Null(of) => value == FFIValue::Null(of),
            Value::Ident(text) => value matches FFIValue::Ident(sent) && encode_utf8(text@)
                == sent.bytes@,
            Value::Column { table_name, column_name } => {
                &&& value matches FFIValue::Column { table_name: table, column_name: column }
                &&& encode_utf8(column_name@) == column.bytes@
                &&& match table_name {
                    Some(text) => table matches Some(sent) && encode_utf8(text@) == sent.bytes@,
                    None => table is None,
                }
            },
            Value::Choice(text) => value matches FFIValue::Choice(sent) && encode_utf8(text@)
                == sent.bytes@,
            Value::String(text) => value matches FFIValue::String(sent) && encode_utf8(text@)
                == sent.bytes@,
            Value::I64(number) => value == FFIValue::I64(number),
            Value::I32(number) => value == FFIValue::I32(number),
            Value::I16(number) => value == FFIValue::I16(number),
            Value::Bool(truth) => value == FFIValue::Bool(truth),
            Value::F64(bits) => value == FFIValue::F64(bits),
            Value::F32(bits) => value == FFIValue::F32(bits),
            Value::Binary(bytes) => value matches FFIValue::Binary(sent) && bytes@ == sent@,
            Value::NaiveTime(time) => value == FFIValue::NaiveTime(time),
            Value::NaiveDate(date) => value == FFIValue::NaiveDate(date),
            Value::NaiveDateTime(at) => value == FFIValue::NaiveDateTime(at),
        },
{
    match (value, target) {
        (FFIValue::Ident(sent), Value::Ident(text)) => lemma_string_keeps_its_bytes(sent, text),
        (FFIValue::Choice(sent), Value::Choice(text)) => lemma_string_keeps_its_bytes(sent, text),
        (FFIValue::String(sent), Value::String(text)) => lemma_string_keeps_its_bytes(sent, text),
        (
            FFIValue::Column { table_name: table, column_name: column },
            Value::Column { table_name, column_name },
        ) => {
            lemma_name_keeps_its_bytes(table, table_name);
            lemma_string_keeps_its_bytes(column, column_name);
        },
        _ => {},
    }
}

/// Two values that turn into the same one are the same: of one kind, and with the same
/// number, bytes or point in time.
pub proof fn lemma_values_stay_apart(first: FFIValue, second: FFIValue, target: Value)
    requires
        first.fault() is None,
        first.becomes(target),
        second.fault() is None,
        second.becomes(target),
    ensures
        match (first, second) {
            (FFIValue::Ident(a), FFIValue::Ident(b)) => a.bytes@ == b.bytes@,
            (FFIValue::Choice(a), FFIValue::Choice(b)) => a.bytes@ == b.bytes@,
            (FFIValue::String(a), FFIValue::String(b)) => a.bytes@ == b.bytes@,
            (FFIValue::Binary(a), FFIValue::Binary(b)) => a@ == b@,
            (
                FFIValue::Column { table_name: s, column_name: a },
                FFIValue::Column { table_name: t, column_name: b },
            ) => a.bytes@ == b.bytes@ && match (s, t) {
                (Some(a), Some(b)) => a.bytes@ == b.bytes@,
                (None, None) => true,
                _ => false,
            },
            _ => first == second,
        },
{
    lemma_value_is_what_was_sent(first, target);
    lemma_value_is_what_was_sent(second, target);
}

/// The error by which a value is refused tells what is wrong with it, and a value with
/// nothing wrong is accepted.
pub proof fn lemma_value_is_refused_for_its_own_fault(value: FFIValue)
    ensures
        value.fault() == Some(Error::InvalidStringError) <==> match value {
            FFIValue::Ident(text) => !valid_utf8(text.bytes@),
            FFIValue::Choice(text) => !valid_utf8(text.bytes@),
            FFIValue::String(text) => !valid_utf8(text.bytes@),
            FFIValue::Column { table_name, column_name } => !valid_utf8(column_name.bytes@) || (
            table_name matches Some(text) && !valid_utf8(text.bytes@)),
            _ => false,
        },
        value.fault() == Some(Error::InvalidDateError) <==> match value {
            FFIValue::NaiveDate(date) => !is_date(
                date.year as int,
                date.month as int,
                date.day as int,
            ),
            _ => false,
        },
        value.fault() == Some(Error::InvalidTimeError) <==> match value {
            FFIValue::NaiveTime(time) => time.hour >= 24 || time.min >= 60 || time.sec >= 60,
            _ => false,
        },
        value.fault() == Some(Error::InvalidDateTimeError) <==> match value {
            FFIValue::NaiveDateTime(at) => !is_date(at.year as int, at.month as int, at.day as int)
                || at.hour >= 24 || at.min >= 60 || at.sec >= 60,
            _ => false,
        },
        value.fault() matches Some(error) ==> {
            ||| error is InvalidStringError
            ||| error is InvalidDateError
            ||| error is InvalidTimeError
            ||| error is InvalidDateTimeError
        },
{
}

/// From each operator that is handed to the database one can tell the operator that was
/// sent, with its operands in their order: the target of a condition is built of the
/// targets of its parts just as the condition is built of these.
pub proof fn lemma_condition_is_what_was_sent(condition: FFICondition, target: Condition)
    requires
        condition.fault() is None,
        condition.becomes(target),
    ensures
        match target {
            Condition::Conjunction(targets) => {
                &&& condition matches FFICondition::Conjunction(parts)
                &&& targets@.len() == parts@.len()
                &&& forall|i: int|
                    0 <= i < parts@.len() ==> parts@[i].fault() is None && parts@[i].becomes(
                        #[trigger] targets@[i],
                    )
            },
            Condition::Disjunction(targets) => {
                &&& condition matches FFICondition::Disjunction(parts)
                &&& targets@.len() == parts@.len()
                &&& forall|i: int|
                    0 <= i < parts@.len() ==> parts@[i].fault() is None && parts@[i].becomes(
                        #[trigger] targets@[i],
                    )
            },
            Condition::Unary(operator, a) => {
                &&& condition matches FFICondition::Unary(sent, operand)
                &&& operator == sent
                &&& operand.fault() is None && operand.becomes(*a)
            },
            Condition::Binary(operator, a, b) => {
                &&& condition matches FFICondition::Binary(sent, left, right)
                &&& operator == sent
                &&& left.fault() is None && left.becomes(*a)
                &&& right.fault() is None && right.becomes(*b)
            },
            Condition::Ternary(operator, a, b, c) => {
                &&& condition matches FFICondition::Ternary(sent, first, second, third)
                &&& operator == sent
                &&& first.fault() is None && first.becomes(*a)
                &&& second.fault() is None && second.becomes(*b)
                &&& third.fault() is None && third.becomes(*c)
            },
            Condition::Value(v) => {
                &&& condition matches FFICondition::Value(value)
                &&& value.fault() is None && value.becomes(v)
            },
        },
{
    match (condition, target) {
        (FFICondition::Conjunction(parts), Condition::Conjunction(targets)) => {
            lemma_parts_are_accepted(parts@);
            assert(conditions_become(parts@, targets@));
        },
        (FFICondition::Disjunction(parts), Condition::Disjunction(targets)) => {
            lemma_parts_are_accepted(parts@);
            assert(conditions_become(parts@, targets@));
        },
        _ => {},
    }
}

proof fn lemma_parts_are_accepted(parts: Seq<FFICondition>)
    requires
        conditions_fault(parts) is None,
    ensures
        forall|i: int| 0 <= i < parts.len() ==> (#[trigger] parts[i]).fault() is None,
    decreases parts.len(),
{
    if parts.len() > 0 {
        let rest = parts.drop_first();
        lemma_parts_are_accepted(rest);
        assert forall|i: int| 0 <= i < parts.len() implies (
        #[trigger] parts[i]).fault() is None by {
            if i > 0 {
                assert(parts[i] == rest[i - 1]);
            }
        }
    }
}

/// An operator of a condition; a list of conditions counts as one with its length.
pub enum Operator {
    /// All of this number of conditions hold.
    All(nat),
    /// One of this number of conditions holds.
    Any(nat),
    /// An operator with one operand.
    Unary(UnaryOperator),
    /// An operator with two operands.
    Binary(BinaryOperator),
    /// An operator with three operands.
    Ternary(TernaryOperator),
}

/// The operators of a condition as it was sent, each before those of its operands, from
/// left to right.
pub open spec fn sent_operators(condition: FFICondition) -> Seq<Operator>
    decreases condition,
{
    match condition {
        FFICondition::Conjunction(parts) => seq![Operator::All(parts@.len())]
            + all_sent_operators(parts@),
        FFICondition::Disjunction(parts) => seq![Operator::Any(parts@.len())]
            + all_sent_operators(parts@),
        FFICondition::Unary(operator, operand) => seq![Operator::Unary(operator)] + sent_operators(
            *operand,
        ),
        FFICondition::Binary(operator, left, right) => seq![Operator::Binary(operator)]
            + sent_operators(*left) + sent_operators(*right),
        FFICondition::Ternary(operator, first, second, third) => seq![Operator::Ternary(operator)]
            + sent_operators(*first) + sent_operators(*second) + sent_operators(*third),
        FFICondition::Value(_) => seq![],
    }
}

/// The operators of the conditions as they were sent, one condition after the other.
pub open spec fn all_sent_operators(conditions: Seq<FFICondition>) -> Seq<Operator>
    decreases conditions,
{
    if conditions.len() == 0 {
        seq![]
    } else {
        sent_operators(conditions[0]) + all_sent_operators(conditions.drop_first())
    }
}

/// The operators of a condition as it is handed to the database, each before those of
/// its operands, from left to right.
pub open spec fn asked_operators(condition: Condition) -> Seq<Operator>
    decreases condition,
{
    match condition {
        Condition::Conjunction(parts) => seq![Operator::All(parts@.len())] + all_asked_operators(
            parts@,
        ),
        Condition::Disjunction(parts) => seq![Operator::Any(parts@.len())] + all_asked_operators(
            parts@,
        ),
        Condition::Unary(operator, operand) => seq![Operator::Unary(operator)] + asked_operators(
            *operand,
        ),
        Condition::Binary(operator, left, right) => seq![Operator::Binary(operator)]
            + asked_operators(*left) + asked_operators(*right),
        Condition::Ternary(operator, first, second, third) => seq![Operator::Ternary(operator)]
            + asked_operators(*first) + asked_operators(*second) + asked_operators(*third),
        Condition::Value(_) => seq![],
    }
}

/// The operators of the conditions as they are handed to the database, one condition
/// after the other.
pub open spec fn all_asked_operators(conditions: Seq<Condition>) -> Seq<Operator>
    decreases conditions,
{
    if conditions.len() == 0 {
        seq![]
    } else {
        asked_operators(conditions[0]) + all_asked_operators(conditions.drop_first())
    }
}

/// The values of a condition as it is handed to the database, from left to right.
pub open spec fn asked_values(condition: Condition) -> Seq<Value>
    decreases condition,
{
    match condition {
        Condition::Conjunction(parts) => all_asked_values(parts@),
        Condition::Disjunction(parts) => all_asked_values(parts@),
        Condition::Unary(_, operand) => asked_values(*operand),
        Condition::Binary(_, left, right) => asked_values(*left) + asked_values(*right),
        Condition::Ternary(_, first, second, third) => asked_values(*first) + asked_values(*second)
            + asked_values(*third),
        Condition::Value(value) => seq![value],
    }
}

/// The values of the conditions as they are handed to the database, one condition after
/// the other.
pub open spec fn all_asked_values(conditions: Seq<Condition>) -> Seq<Value>
    decreases conditions,
{
    if conditions.len() == 0 {
        seq![]
    } else {
        asked_values(conditions[0]) + all_asked_values(conditions.drop_first())
    }
}

/// The operators that the database is asked for, from left to right, are those that were
/// sent, and its values are what the values that were sent turn into, in their order and
/// number. So conditions that differ in an operator never turn into the same one.
pub proof fn lemma_condition_keeps_operators_and_values(condition: FFICondition, target: Condition)
    requires
        condition.becomes(target),
    ensures
        asked_operators(target) == sent_operators(condition),
        asked_values(target).len() == condition_values(condition).len(),
        forall|i: int|
            0 <= i < condition_values(condition).len() ==> condition_values(condition)[i].becomes(
                #[trigger] asked_values(target)[i],
            ),
    decreases condition,
{
    match (condition, target) {
        (FFICondition::Conjunction(parts), Condition::Conjunction(targets)) => {
            assert(conditions_become(parts@, targets@));
            lemma_conditions_keep_operators_and_values(parts@, targets@);
        },
        (FFICondition::Disjunction(parts), Condition::Disjunction(targets)) => {
            assert(conditions_become(parts@, targets@));
            lemma_conditions_keep_operators_and_values(parts@, targets@);
        },
        (FFICondition::Unary(_, operand), Condition::Unary(_, a)) => {
            lemma_condition_keeps_operators_and_values(*operand, *a);
        },
        (FFICondition::Binary(_, left, right), Condition::Binary(_, a, b)) => {
            lemma_condition_keeps_operators_and_values(*left, *a);
            lemma_condition_keeps_operators_and_values(*right, *b);
        },
        (FFICondition::Ternary(_, first, second, third), Condition::Ternary(_, a, b, c)) => {
            lemma_condition_keeps_operators_and_values(*first, *a);
            lemma_condition_keeps_operators_and_values(*second, *b);
            lemma_condition_keeps_operators_and_values(*third, *c);
        },
        _ => {},
    }
}

proof fn lemma_conditions_keep_operators_and_values(
    conditions: Seq<FFICondition>,
    targets: Seq<Condition>,
)
    requires
        conditions_become(conditions, targets),
    ensures
        all_asked_operators(targets) == all_sent_operators(conditions),
        all_asked_values(targets).len() == conditions_values(conditions).len(),
        forall|i: int|
            0 <= i < conditions_values(conditions).len() ==> conditions_values(
                conditions,
            )[i].becomes(#[trigger] all_asked_values(targets)[i]),
    decreases conditions,
{
    if conditions.len() > 0 {
        let rest = conditions.drop_first();
        let rest_targets = targets.drop_first();
        assert(conditions[0].becomes(targets[0]));
        lemma_condition_keeps_operators_and_values(conditions[0], targets[0]);
        assert forall|i: int| 0 <= i < rest.len() implies rest[i].becomes(
            #[trigger] rest_targets[i],
        ) by {
            assert(conditions[i + 1].becomes(targets[i + 1]));
        }
        lemma_conditions_keep_operators_and_values(rest, rest_targets);
    }
}

/// Two conditions that turn into the same one have the same operators.
pub proof fn lemma_conditions_stay_apart(
    first: FFICondition,
    second: FFICondition,
    target: Condition,
)
    requires
        first.becomes(target),
        second.becomes(target),
    ensures
        sent_operators(first) == sent_operators(second),
{
    lemma_condition_keeps_operators_and_values(first, target);
    lemma_condition_keeps_operators_and_values(second, target);
}

/// The operands of an operator are looked at from left to right: a fault in one is found
/// whatever stands to the right of it, and one without fault changes nothing.
pub proof fn lemma_operands_are_blamed_from_left_to_right(
    unary: UnaryOperator,
    binary: BinaryOperator,
    ternary: TernaryOperator,
    first: Box<FFICondition>,
    second: Box<FFICondition>,
    third: Box<FFICondition>,
)
    ensures
        FFICondition::Unary(unary, first).fault() == first.fault(),
        first.fault() is Some ==> FFICondition::Binary(binary, first, second).fault()
            == first.fault(),
        first.fault() is None ==> FFICondition::Binary(binary, first, second).fault()
            == second.fault(),
        first.fault() is Some ==> FFICondition::Ternary(ternary, first, second, third).fault()
            == first.fault(),
        first.fault() is None ==> FFICondition::Ternary(ternary, first, second, third).fault()
            == FFICondition::Binary(binary, second, third).fault(),
{
}

/// The parts of a list of conditions are looked at from left to right.
pub proof fn lemma_parts_are_blamed_from_left_to_right(
    condition: FFICondition,
    parts: Vec<FFICondition>,
    at: int,
)
    requires
        condition == FFICondition::Conjunction(parts) || condition == FFICondition::Disjunction(
            parts,
        ),
        0 <= at <= parts@.len(),
        forall|i: int| 0 <= i < at ==> (#[trigger] parts@[i]).fault() is None,
        at < parts@.len() ==> parts@[at].fault() is Some,
    ensures
        at < parts@.len() ==> condition.fault() == parts@[at].fault(),
        at == parts@.len() ==> condition.fault() is None,
{
    lemma_first_part_with_a_fault(parts@, at);
}

proof fn lemma_first_part_with_a_fault(parts: Seq<FFICondition>, at: int)
    requires
        0 <= at <= parts.len(),
        forall|i: int| 0 <= i < at ==> (#[trigger] parts[i]).fault() is None,
        at < parts.len() ==> parts[at].fault() is Some,
    ensures
        at < parts.len() ==> conditions_fault(parts) == parts[at].fault(),
        at == parts.len() ==> conditions_fault(parts) is None,
    decreases parts.len(),
{
    if at > 0 {
        assert(parts[0].fault() is None);
        let rest = parts.drop_first();
        assert forall|i: int| 0 <= i < at - 1 implies (#[trigger] rest[i]).fault() is None by {
            assert(parts[i + 1].fault() is None);
        }
        lemma_first_part_with_a_fault(rest, at - 1);
    }
}

/// A column that is selected is the one that was sent, by the bytes of its names and by
/// its aggregation.
pub proof fn lemma_column_is_what_was_sent(column: FFIColumnSelector, target: ColumnSelector)
    requires
        column.fault() is None,
        column.becomes(target),
    ensures
        encode_utf8(target.column_name@) == column.column_name.bytes@,
        match target.table_name {
            Some(text) => column.table_name matches Some(sent) && encode_utf8(text@) == sent.bytes@,
            None => column.table_name is None,
        },
        match target.select_alias {
            Some(text) => column.select_alias matches Some(sent) && encode_utf8(text@)
                == sent.bytes@,
            None => column.select_alias is None,
        },
        target.aggregation == column.aggregation,
{
    lemma_string_keeps_its_bytes(column.column_name, target.column_name);
    lemma_name_keeps_its_bytes(column.table_name, target.table_name);
    lemma_name_keeps_its_bytes(column.select_alias, target.select_alias);
}

/// A column to select is refused if and only if one of its names is no text.
pub proof fn lemma_column_is_refused_for_its_names(column: FFIColumnSelector)
    ensures
        column.fault() is None <==> {
            &&& valid_utf8(column.column_name.bytes@)
            &&& column.table_name matches Some(name) ==> valid_utf8(name.bytes@)
            &&& column.select_alias matches Some(name) ==> valid_utf8(name.bytes@)
        },
        column.fault() matches Some(error) ==> error is InvalidStringError,
{
}

/// A join is the one that was sent, by its way to join, by the bytes of its names, and
/// with its condition.
pub proof fn lemma_join_is_what_was_sent(join: FFIJoin, target: JoinTable)
    requires
        join.fault() is None,
        join.becomes(target),
    ensures
        target.join_type == join.join_type,
        encode_utf8(target.table_name@) == join.table_name.bytes@,
        encode_utf8(target.join_alias@) == join.join_alias.bytes@,
        join.join_condition.fault() is None,
        join.join_condition.becomes(target.join_condition),
        asked_operators(target.join_condition) == sent_operators(join.join_condition),
{
    lemma_string_keeps_its_bytes(join.table_name, target.table_name);
    lemma_string_keeps_its_bytes(join.join_alias, target.join_alias);
    lemma_condition_keeps_operators_and_values(join.join_condition, target.join_condition);
}

/// A join is refused for its names first, and for its condition only where both are text.
pub proof fn lemma_join_is_refused_for_its_names_first(join: FFIJoin)
    ensures
        join.fault() == if valid_utf8(join.table_name.bytes@) && valid_utf8(
            join.join_alias.bytes@,
        ) {
            join.join_condition.fault()
        } else {
            Some(Error::InvalidStringError)
        },
{
}

/// A column to sort by is the one that was sent, by the bytes of its names and by the way
/// to sort.
pub proof fn lemma_order_is_what_was_sent(entry: FFIOrderByEntry, target: OrderByEntry)
    requires
        entry.fault() is None,
        entry.becomes(target),
    ensures
        target.ordering == entry.ordering,
        encode_utf8(target.column_name@) == entry.column_name.bytes@,
        match target.table_name {
            Some(text) => entry.table_name matches Some(sent) && encode_utf8(text@) == sent.bytes@,
            None => entry.table_name is None,
        },
{
    lemma_string_keeps_its_bytes(entry.column_name, target.column_name);
    lemma_name_keeps_its_bytes(entry.table_name, target.table_name);
}

/// A column to sort by is refused if and only if one of its names is no text.
pub proof fn lemma_order_is_refused_for_its_names(entry: FFIOrderByEntry)
    ensures
        entry.fault() is None <==> {
            &&& valid_utf8(entry.column_name.bytes@)
            &&& entry.table_name matches Some(name) ==> valid_utf8(name.bytes@)
        },
        entry.fault() matches Some(error) ==> error is InvalidStringError,
{
}

/// An update sets the column that was sent to the very value that an insert of the value
/// that was sent would store.
pub proof fn lemma_update_sets_what_an_insert_stores(
    update: FFIUpdate,
    target: (String, Value),
    row: Vec<FFIValue>,
    stored: Vec<Value>,
)
    requires
        update.fault() is None,
        update.becomes(target),
        row@ == seq![update.value],
    ensures
        encode_utf8(target.0@) == update.column.bytes@,
        row.fault() is None,
        update.value.becomes(target.1),
        stored@ == seq![target.1] ==> row.becomes(stored),
{
    lemma_string_keeps_its_bytes(update.column, target.0);
    assert(row@.drop_first() =~= seq![]);
    assert(row@[0] == update.value);
    reveal_with_fuel(crate::convert::first_fault, 2);
}

/// Two updates that turn into the same one set the same column to the same value.
pub proof fn lemma_updates_stay_apart(first: FFIUpdate, second: FFIUpdate, target: (String, Value))
    requires
        first.fault() is None,
        first.becomes(target),
        second.fault() is None,
        second.becomes(target),
    ensures
        first.column.bytes@ == second.column.bytes@,
        match (first.value, second.value) {
            (FFIValue::Ident(a), FFIValue::Ident(b)) => a.bytes@ == b.bytes@,
            (FFIValue::Choice(a), FFIValue::Choice(b)) => a.bytes@ == b.bytes@,
            (FFIValue::String(a), FFIValue::String(b)) => a.bytes@ == b.bytes@,
            (FFIValue::Binary(a), FFIValue::Binary(b)) => a@ == b@,
            (
                FFIValue::Column { table_name: s, column_name: a },
                FFIValue::Column { table_name: t, column_name: b },
            ) => a.bytes@ == b.bytes@ && match (s, t) {
                (Some(a), Some(b)) => a.bytes@ == b.bytes@,
                (None, None) => true,
                _ => false,
            },
            _ => first.value == second.value,
        },
{
    lemma_string_keeps_its_bytes(first.column, target.0);
    lemma_string_keeps_its_bytes(second.column, target.0);
    lemma_values_stay_apart(first.value, second.value, target.1);
}

/// An update is accepted if and only if its column is text and its value is accepted, and
/// is otherwise always refused for an invalid string.
pub proof fn lemma_update_is_refused_for_an_invalid_string(update: FFIUpdate)
    ensures
        update.fault() is None <==> valid_utf8(update.column.bytes@) && update.value.fault()
            is None,
        update.fault() matches Some(error) ==> error is InvalidStringError,
{
}

/// The database that is connected to is the one that the options name: of the kind that
/// was sent, by the bytes of its names, on the port that was sent, and with the numbers
/// of connections that were sent.
pub proof fn lemma_connection_is_what_was_sent(
    options: DBConnectOptions,
    target: DatabaseConfiguration,
)
    requires
        options.fault() is None,
        options.becomes(target),
    ensures
        match target.driver {
            DatabaseDriver::SQLite { filename } => {
                &&& options.backend is SQLite
                &&& encode_utf8(filename@) == options.name.bytes@
            },
            DatabaseDriver::MySQL(server) => {
                &&& options.backend is MySQL
                &&& encode_utf8(server.name@) == options.name.bytes@
                &&& encode_utf8(server.host@) == options.host.bytes@
                &&& server.port == options.port
                &&& encode_utf8(server.user@) == options.user.bytes@
                &&& encode_utf8(server.password@) == options.password.bytes@
            },
            DatabaseDriver::Postgres(server) => {
                &&& options.backend is Postgres
                &&& encode_utf8(server.name@) == options.name.bytes@
                &&& encode_utf8(server.host@) == options.host.bytes@
                &&& server.port == options.port
                &&& encode_utf8(server.user@) == options.user.bytes@
                &&& encode_utf8(server.password@) == options.password.bytes@
            },
        },
        target.min_connections == options.min_connections,
        target.max_connections == options.max_connections,
{
    match target.driver {
        DatabaseDriver::SQLite { filename } => lemma_string_keeps_its_bytes(options.name, filename),
        DatabaseDriver::MySQL(server) => {
            lemma_string_keeps_its_bytes(options.name, server.name);
            lemma_string_keeps_its_bytes(options.host, server.host);
            lemma_string_keeps_its_bytes(options.user, server.user);
            lemma_string_keeps_its_bytes(options.password, server.password);
        },
        DatabaseDriver::Postgres(server) => {
            lemma_string_keeps_its_bytes(options.name, server.name);
            lemma_string_keeps_its_bytes(options.host, server.host);
            lemma_string_keeps_its_bytes(options.user, server.user);
            lemma_string_keeps_its_bytes(options.password, server.password);
        },
    }
}

/// Options for a server that turn into the same configuration name the same server, down
/// to its port.
pub proof fn lemma_servers_stay_apart(
    first: DBConnectOptions,
    second: DBConnectOptions,
    target: DatabaseConfiguration,
)
    requires
        first.fault() is None,
        first.becomes(target),
        second.fault() is None,
        second.becomes(target),
    ensures
        first.backend == second.backend,
        first.name.bytes@ == second.name.bytes@,
        first.backend !is SQLite ==> first.port == second.port,
        first.backend !is SQLite ==> first.host.bytes@ == second.host.bytes@,
        first.backend !is SQLite ==> first.user.bytes@ == second.user.bytes@,
        first.backend !is SQLite ==> first.password.bytes@ == second.password.bytes@,
{
    lemma_connection_is_what_was_sent(first, target);
    lemma_connection_is_what_was_sent(second, target);
}

/// Options are refused if and only if a string that counts is no text. For a SQLite file
/// that is its name alone.
pub proof fn lemma_connection_is_refused_for_its_strings(options: DBConnectOptions)
    ensures
        options.fault() is None <==> {
            &&& valid_utf8(options.name.bytes@)
            &&& options.backend != DBBackend::SQLite ==> {
                &&& valid_utf8(options.host.bytes@)
                &&& valid_utf8(options.user.bytes@)
                &&& valid_utf8(options.password.bytes@)
            }
        },
        options.fault() matches Some(error) ==> error is InvalidStringError,
{
}

/// The targets of a list are the targets of its two parts, one after the other.
pub proof fn lemma_targets_of_two_lists<T: Convert>(
    first: Seq<T>,
    second: Seq<T>,
    first_targets: Seq<T::Target>,
    second_targets: Seq<T::Target>,
)
    requires
        all_become(first, first_targets),
    ensures
        all_become(first + second, first_targets + second_targets) <==> all_become(
            second,
            second_targets,
        ),
{
    let targets = first_targets + second_targets;
    if all_become(first + second, targets) {
        assert forall|i: int| 0 <= i < second.len() implies second[i].becomes(
            #[trigger] second_targets[i],
        ) by {
            assert((first + second)[first.len() + i].becomes(targets[first.len() + i]));
        }
    }
    if all_become(second, second_targets) {
        assert forall|i: int| 0 <= i < (first + second).len() implies (first + second)[i].becomes(
            #[trigger] targets[i],
        ) by {
            if i < first.len() {
                assert(first[i].becomes(first_targets[i]));
            } else {
                assert(second[i - first.len()].becomes(second_targets[i - first.len()]));
            }
        }
    }
}

/// A list has one target for each of its items, of any number, in their order.
pub proof fn lemma_list_is_what_was_sent<T: Convert>(items: Vec<T>, targets: Vec<T::Target>)
    requires
        items.fault() is None,
        items.becomes(targets),
    ensures
        targets@.len() == items@.len(),
        forall|i: int|
            0 <= i < items@.len() ==> items@[i].fault() is None && items@[i].becomes(
                #[trigger] targets@[i],
            ),
{
    crate::convert::lemma_accepted_item_by_item(items@);
}

/// A list is refused by its first item with a fault, whatever its length and whatever
/// comes after that item, and accepted if there is none.
pub proof fn lemma_list_is_refused_by_its_first_fault<T: Convert>(items: Vec<T>, at: int)
    requires
        0 <= at <= items@.len(),
        forall|i: int| 0 <= i < at ==> (#[trigger] items@[i]).fault() is None,
        at < items@.len() ==> items@[at].fault() is Some,
    ensures
        at < items@.len() ==> items.fault() == items@[at].fault(),
        at == items@.len() ==> items.fault() is None,
{
    if at < items@.len() {
        crate::convert::lemma_refused_by_first(items@, at, items@[at].fault()->0);
    } else {
        crate::convert::lemma_accepted_item_by_item(items@);
    }
}

/// Rows to insert are as many as were sent, each with as many values as were sent, and
/// each value is what the value that was sent at its place turns into.
pub proof fn lemma_rows_are_what_was_sent(rows: Vec<Vec<FFIValue>>, targets: Vec<Vec<Value>>)
    requires
        rows.fault() is None,
        rows.becomes(targets),
    ensures
        targets@.len() == rows@.len(),
        forall|i: int| 0 <= i < rows@.len() ==> (#[trigger] targets@[i])@.len() == rows@[i]@.len(),
        forall|i: int, j: int|
            0 <= i < rows@.len() && 0 <= j < rows@[i]@.len() ==> (#[trigger] rows@[i]@[j]).fault()
                is None && rows@[i]@[j].becomes(targets@[i]@[j]),
{
    lemma_list_is_what_was_sent(rows, targets);
    assert forall|i: int, j: int|
        0 <= i < rows@.len() && 0 <= j < rows@[i]@.len() implies (#[trigger] rows@[i]@[j]).fault()
        is None && rows@[i]@[j].becomes(targets@[i]@[j]) by {
        let row = rows@[i];
        let target = targets@[i];
        assert(row.fault() is None && row.becomes(target));
        lemma_list_is_what_was_sent(row, target);
        assert(row@[j].becomes(target@[j]));
    }
    assert forall|i: int| 0 <= i < rows@.len() implies (#[trigger] targets@[i])@.len()
        == rows@[i]@.len() by {
        assert(rows@[i].becomes(targets@[i]));
    }
}

/// Names that are sent as a list reach the database in their order and number, each with
/// the very bytes that were sent.
pub proof fn lemma_names_are_what_was_sent(names: Vec<FFIString>, targets: Vec<String>)
    requires
        names.fault() is None,
        names.becomes(targets),
    ensures
        targets@.len() == names@.len(),
        forall|i: int|
            0 <= i < names@.len() ==> encode_utf8((#[trigger] targets@[i])@) == names@[i].bytes@,
{
    lemma_list_is_what_was_sent(names, targets);
    assert forall|i: int| 0 <= i < names@.len() implies encode_utf8((#[trigger] targets@[i])@)
        == names@[i].bytes@ by {
        lemma_string_keeps_its_bytes(names@[i], targets@[i]);
    }
}

/// What may be missing is missing only if it was not sent.
pub proof fn lemma_option_is_what_was_sent<T: Convert>(item: Option<T>, target: Option<T::Target>)
    requires
        item.becomes(target),
    ensures
        match target {
            Some(value) => item matches Some(sent) && sent.becomes(value) && item.fault()
                == sent.fault(),
            None => item is None && item.fault() is None,
        },
{
}

} // verus!
