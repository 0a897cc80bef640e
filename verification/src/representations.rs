//! What a request is made of: on one side as the caller sends it, with strings
//! that are only bytes, on the other as the database is asked, with text.

use vstd::prelude::*;

use crate::calendar::{FFIDate, FFIDateTime, FFITime};
use crate::convert::{either_fault, first_fault, lemma_first_fault_concat, Convert};
use crate::errors::Error;
use crate::utils::FFIString;

verus! {

/// The type of a `NULL`.
#[derive(Debug, Clone, Copy, PartialEq, Eq)]
pub enum NullType {
    /// A text.
    String,
    /// One of the choices of an enumeration.
    Choice,
    /// A 64 bit integer.
    I64,
    /// A 32 bit integer.
    I32,
    /// A 16 bit integer.
    I16,
    /// A truth value.
    Bool,
    /// A floating point number of double precision.
    F64,
    /// A floating point number of single precision.
    F32,
    /// Bytes.
    Binary,
    /// A time of day.
    NaiveTime,
    /// A calendar day.
    NaiveDate,
    /// A calendar day with a time of day.
    NaiveDateTime,
}

/// A value as it is sent by the caller.
#[derive(Debug, PartialEq, Eq)]
pub enum FFIValue {
    /// No value.
    Null(NullType),
    /// An identifier, which the database does not escape.
    Ident(FFIString),
    /// A column, with its table where that is needed to tell it apart.
    Column {
        /// Name of the table.
        table_name: Option<FFIString>,
        /// Name of the column.
        column_name: FFIString,
    },
    /// One of the choices of an enumeration.
    Choice(FFIString),
    /// A text.
    String(FFIString),
    /// A 64 bit integer.
    I64(i64),
    /// A 32 bit integer.
    I32(i32),
    /// A 16 bit integer.
    I16(i16),
    /// A truth value.
    Bool(bool),
    /// The bits of a floating point number of double precision.
    F64(u64),
    /// The bits of a floating point number of single precision.
    F32(u32),
    /// Bytes.
    Binary(Vec<u8>),
    /// A time of day.
    NaiveTime(FFITime),
    /// A calendar day.
    NaiveDate(FFIDate),
    /// A calendar day with a time of day.
    NaiveDateTime(FFIDateTime),
}

/// A value as it is handed to the database.
#[derive(Debug, PartialEq, Eq)]
pub enum Value {
    /// No value.
    Null(NullType),
    /// An identifier, which the database does not escape.
    Ident(String),
    /// A column, with its table where that is needed to tell it apart.
    Column {
        /// Name of the table.
        table_name: Option<String>,
        /// Name of the column.
        column_name: String,
    },
    /// One of the choices of an enumeration.
    Choice(String),
    /// A text.
    String(String),
    /// A 64 bit integer.
    I64(i64),
    /// A 32 bit integer.
    I32(i32),
    /// A 16 bit integer.
    I16(i16),
    /// A truth value.
    Bool(bool),
    /// The bits of a floating point number of double precision.
    F64(u64),
    /// The bits of a floating point number of single precision.
    F32(u32),
    /// Bytes.
    Binary(Vec<u8>),
    /// A time of day.
    NaiveTime(FFITime),
    /// A calendar day.
    NaiveDate(FFIDate),
    /// A calendar day with a time of day.
    NaiveDateTime(FFIDateTime),
}

impl Convert for FFIValue {
    type Target = Value;

    open spec fn fault(&self) -> Option<Error> {
        match self {
            FFIValue::Ident(text) => text.fault(),
            FFIValue::Column { table_name, column_name } => either_fault(
                table_name.fault(),
                column_name.fault(),
            ),
            FFIValue::Choice(text) => text.fault(),
            FFIValue::String(text) => text.fault(),
            FFIValue::NaiveTime(time) => time.fault(),
            FFIValue::NaiveDate(date) => date.fault(),
            FFIValue::NaiveDateTime(datetime) => datetime.fault(),
            _ => None,
        }
    }

    open spec fn becomes(&self, target: Value) -> bool {
        match self {
            FFIValue::Null(null_type) => target == Value::Null(*null_type),
            FFIValue::Ident(text) => target matches Value::Ident(value) && text.becomes(value),
            FFIValue::Column { table_name, column_name } => target matches Value::Column {
                table_name: table,
                column_name: column,
            } && table_name.becomes(table) && column_name.becomes(column),
            FFIValue::Choice(text) => target matches Value::Choice(value) && text.becomes(value),
            FFIValue::String(text) => target matches Value::String(value) && text.becomes(value),
            FFIValue::I64(number) => target == Value::I64(*number),
            FFIValue::I32(number) => target == Value::I32(*number),
            FFIValue::I16(number) => target == Value::I16(*number),
            FFIValue::Bool(truth) => target == Value::Bool(*truth),
            FFIValue::F64(bits) => target == Value::F64(*bits),
            FFIValue::F32(bits) => target == Value::F32(*bits),
            FFIValue::Binary(bytes) => target matches Value::Binary(value) && value@ == bytes@,
            FFIValue::NaiveTime(time) => target == Value::NaiveTime(*time),
            FFIValue::NaiveDate(date) => target == Value::NaiveDate(*date),
            FFIValue::NaiveDateTime(datetime) => target == Value::NaiveDateTime(*datetime),
        }
    }

    proof fn lemma_fault_refuses_input(&self) {
        if let FFIValue::Column { table_name, column_name } = self {
            table_name.lemma_fault_refuses_input();
        }
    }

    fn convert(&self) -> (result: Result<Value, Error>) {
        match self {
            FFIValue::Null(null_type) => Ok(Value::Null(*null_type)),
            FFIValue::Ident(text) => match text.convert() {
                Ok(value) => Ok(Value::Ident(value)),
                Err(error) => Err(error),
            },
            FFIValue::Column { table_name, column_name } => match table_name.convert() {
                Ok(table) => match column_name.convert() {
                    Ok(column) => Ok(Value::Column { table_name: table, column_name: column }),
                    Err(error) => Err(error),
                },
                Err(error) => Err(error),
            },
            FFIValue::Choice(text) => match text.convert() {
                Ok(value) => Ok(Value::Choice(value)),
                Err(error) => Err(error),
            },
            FFIValue::String(text) => match text.convert() {
                Ok(value) => Ok(Value::String(value)),
                Err(error) => Err(error),
            },
            FFIValue::I64(number) => Ok(Value::I64(*number)),
            FFIValue::I32(number) => Ok(Value::I32(*number)),
            FFIValue::I16(number) => Ok(Value::I16(*number)),
            FFIValue::Bool(truth) => Ok(Value::Bool(*truth)),
            FFIValue::F64(bits) => Ok(Value::F64(*bits)),
            FFIValue::F32(bits) => Ok(Value::F32(*bits)),
            FFIValue::Binary(bytes) => Ok(Value::Binary(bytes.clone())),
            FFIValue::NaiveTime(time) => match time.convert() {
                Ok(value) => Ok(Value::NaiveTime(value)),
                Err(error) => Err(error),
            },
            FFIValue::NaiveDate(date) => match date.convert() {
                Ok(value) => Ok(Value::NaiveDate(value)),
                Err(error) => Err(error),
            },
            FFIValue::NaiveDateTime(datetime) => match datetime.convert() {
                Ok(value) => Ok(Value::NaiveDateTime(value)),
                Err(error) => Err(error),
            },
        }
    }
}

/// An operator with one operand.
#[derive(Debug, Clone, Copy, PartialEq, Eq)]
pub enum UnaryOperator {
    /// `{} IS NULL`
    IsNull,
    /// `{} IS NOT NULL`
    IsNotNull,
    /// `EXISTS {}`
    Exists,
    /// `NOT EXISTS {}`
    NotExists,
    /// `NOT {}`
    Not,
}

/// An operator with two operands.
#[derive(Debug, Clone, Copy, PartialEq, Eq)]
pub enum BinaryOperator {
    /// `{} = {}`
    Equals,
    /// `{} <> {}`
    NotEquals,
    /// `{} > {}`
    Greater,
    /// `{} >= {}`
    GreaterOrEquals,
    /// `{} < {}`
    Less,
    /// `{} <= {}`
    LessOrEquals,
    /// `{} LIKE {}`
    Like,
    /// `{} NOT LIKE {}`
    NotLike,
    /// `{} REGEXP {}`
    Regexp,
    /// `{} NOT REGEXP {}`
    NotRegexp,
    /// `{} IN {}`
    In,
    /// `{} NOT IN {}`
    NotIn,
}

/// An operator with three operands.
#[derive(Debug, Clone, Copy, PartialEq, Eq)]
pub enum TernaryOperator {
    /// `{} BETWEEN {} AND {}`
    Between,
    /// `{} NOT BETWEEN {} AND {}`
    NotBetween,
}

/// A condition as it is sent by the caller.
#[derive(Debug, PartialEq, Eq)]
pub enum FFICondition {
    /// All of the conditions hold.
    Conjunction(Vec<FFICondition>),
    /// One of the conditions holds.
    Disjunction(Vec<FFICondition>),
    /// An operator applied to one condition.
    Unary(UnaryOperator, Box<FFICondition>),
    /// An operator applied to two conditions.
    Binary(BinaryOperator, Box<FFICondition>, Box<FFICondition>),
    /// An operator applied to three conditions.
    Ternary(TernaryOperator, Box<FFICondition>, Box<FFICondition>, Box<FFICondition>),
    /// A value.
    Value(FFIValue),
}

/// A condition as it is handed to the database.
#[derive(Debug, PartialEq, Eq)]
pub enum Condition {
    /// All of the conditions hold.
    Conjunction(Vec<Condition>),
    /// One of the conditions holds.
    Disjunction(Vec<Condition>),
    /// An operator applied to one condition.
    Unary(UnaryOperator, Box<Condition>),
    /// An operator applied to two conditions.
    Binary(BinaryOperator, Box<Condition>, Box<Condition>),
    /// An operator applied to three conditions.
    Ternary(TernaryOperator, Box<Condition>, Box<Condition>, Box<Condition>),
    /// A value.
    Value(Value),
}

/// The fault that comes first when the condition is read from left to right.
pub open spec fn condition_fault(condition: FFICondition) -> Option<Error>
    decreases condition,
{
    match condition {
        FFICondition::Conjunction(parts) => conditions_fault(parts@),
        FFICondition::Disjunction(parts) => conditions_fault(parts@),
        FFICondition::Unary(_, operand) => condition_fault(*operand),
        FFICondition::Binary(_, left, right) => either_fault(
            condition_fault(*left),
            condition_fault(*right),
        ),
        FFICondition::Ternary(_, first, second, third) => either_fault(
            condition_fault(*first),
            either_fault(condition_fault(*second), condition_fault(*third)),
        ),
        FFICondition::Value(value) => value.fault(),
    }
}

/// The fault of the first condition that has one.
pub open spec fn conditions_fault(conditions: Seq<FFICondition>) -> Option<Error>
    decreases conditions,
{
    if conditions.len() == 0 {
        None
    } else {
        either_fault(condition_fault(conditions[0]), conditions_fault(conditions.drop_first()))
    }
}

/// The same tree of operators, with each value turned into what it becomes.
pub open spec fn condition_becomes(condition: FFICondition, target: Condition) -> bool
    decreases condition,
{
    match condition {
        FFICondition::Conjunction(parts) => target matches Condition::Conjunction(targets)
            && conditions_become(parts@, targets@),
        FFICondition::Disjunction(parts) => target matches Condition::Disjunction(targets)
            && conditions_become(parts@, targets@),
        FFICondition::Unary(operator, operand) => target matches Condition::Unary(op, a) && op
            == operator && condition_becomes(*operand, *a),
        FFICondition::Binary(operator, left, right) => target matches Condition::Binary(op, a, b)
            && op == operator && condition_becomes(*left, *a) && condition_becomes(*right, *b),
        FFICondition::Ternary(operator, first, second, third) => target matches Condition::Ternary(
            op,
            a,
            b,
            c,
        ) && op == operator && condition_becomes(*first, *a) && condition_becomes(*second, *b)
            && condition_becomes(*third, *c),
        FFICondition::Value(value) => target matches Condition::Value(v) && value.becomes(v),
    }
}

/// One target for each condition, in the order of the conditions.
pub open spec fn conditions_become(conditions: Seq<FFICondition>, targets: Seq<Condition>) -> bool
    decreases conditions,
{
    &&& targets.len() == conditions.len()
    &&& forall|i: int|
        0 <= i < conditions.len() ==> condition_becomes(conditions[i], #[trigger] targets[i])
}

fn convert_condition(condition: &FFICondition) -> (result: Result<Condition, Error>)
    ensures
        match result {
            Ok(target) => condition_fault(*condition) is None && condition_becomes(
                *condition,
                target,
            ),
            Err(error) => condition_fault(*condition) == Some(error),
        },
    decreases condition,
{
    match condition {
        FFICondition::Conjunction(parts) => match convert_conditions(parts) {
            Ok(targets) => Ok(Condition::Conjunction(targets)),
            Err(error) => Err(error),
        },
        FFICondition::Disjunction(parts) => match convert_conditions(parts) {
            Ok(targets) => Ok(Condition::Disjunction(targets)),
            Err(error) => Err(error),
        },
        FFICondition::Unary(operator, operand) => match convert_condition(operand) {
            Ok(a) => Ok(Condition::Unary(*operator, Box::new(a))),
            Err(error) => Err(error),
        },
        FFICondition::Binary(operator, left, right) => {
            let a = match convert_condition(left) {
                Ok(a) => a,
                Err(error) => return Err(error),
            };
            let b = match convert_condition(right) {
                Ok(b) => b,
                Err(error) => return Err(error),
            };
            Ok(Condition::Binary(*operator, Box::new(a), Box::new(b)))
        },
        FFICondition::Ternary(operator, first, second, third) => {
            let a = match convert_condition(first) {
                Ok(a) => a,
                Err(error) => return Err(error),
            };
            let b = match convert_condition(second) {
                Ok(b) => b,
                Err(error) => return Err(error),
            };
            let c = match convert_condition(third) {
                Ok(c) => c,
                Err(error) => return Err(error),
            };
            Ok(Condition::Ternary(*operator, Box::new(a), Box::new(b), Box::new(c)))
        },
        FFICondition::Value(value) => match value.convert() {
            Ok(v) => Ok(Condition::Value(v)),
            Err(error) => Err(error),
        },
    }
}

fn convert_conditions(conditions: &Vec<FFICondition>) -> (result: Result<Vec<Condition>, Error>)
    ensures
        match result {
            Ok(targets) => conditions_fault(conditions@) is None && conditions_become(
                conditions@,
                targets@,
            ),
            Err(error) => conditions_fault(conditions@) == Some(error),
        },
    decreases conditions,
{
    let mut targets: Vec<Condition> = Vec::new();
    let mut i: usize = 0;
    assert(conditions@.skip(0) =~= conditions@);
    while i < conditions.len()
        invariant
            i <= conditions@.len(),
            conditions_fault(conditions@) == conditions_fault(conditions@.skip(i as int)),
            targets@.len() == i,
            forall|j: int|
                0 <= j < i ==> condition_becomes(conditions@[j], #[trigger] targets@[j]),
        decreases conditions@.len() - i,
    {
        assert(conditions@.skip(i as int).drop_first() =~= conditions@.skip(i + 1));
        match convert_condition(&conditions[i]) {
            Ok(target) => targets.push(target),
            Err(error) => return Err(error),
        }
        i = i + 1;
    }
    Ok(targets)
}

proof fn lemma_condition_fault_refuses_input(condition: FFICondition)
    ensures
        condition_fault(condition) matches Some(error) ==> error.refuses_input(),
    decreases condition,
{
    match condition {
        FFICondition::Conjunction(parts) => lemma_conditions_fault_refuses_input(parts@),
        FFICondition::Disjunction(parts) => lemma_conditions_fault_refuses_input(parts@),
        FFICondition::Unary(_, operand) => lemma_condition_fault_refuses_input(*operand),
        FFICondition::Binary(_, left, right) => {
            lemma_condition_fault_refuses_input(*left);
            lemma_condition_fault_refuses_input(*right);
        },
        FFICondition::Ternary(_, first, second, third) => {
            lemma_condition_fault_refuses_input(*first);
            lemma_condition_fault_refuses_input(*second);
            lemma_condition_fault_refuses_input(*third);
        },
        FFICondition::Value(value) => value.lemma_fault_refuses_input(),
    }
}

proof fn lemma_conditions_fault_refuses_input(conditions: Seq<FFICondition>)
    ensures
        conditions_fault(conditions) matches Some(error) ==> error.refuses_input(),
    decreases conditions,
{
    if conditions.len() > 0 {
        lemma_condition_fault_refuses_input(conditions[0]);
        lemma_conditions_fault_refuses_input(conditions.drop_first());
    }
}

impl Convert for FFICondition {
    type Target = Condition;

    open spec fn fault(&self) -> Option<Error> {
        condition_fault(*self)
    }

    open spec fn becomes(&self, target: Condition) -> bool {
        condition_becomes(*self, target)
    }

    proof fn lemma_fault_refuses_input(&self) {
        lemma_condition_fault_refuses_input(*self);
    }

    fn convert(&self) -> (result: Result<Condition, Error>) {
        convert_condition(self)
    }
}

/// The values of a condition, from left to right.
pub open spec fn condition_values(condition: FFICondition) -> Seq<FFIValue>
    decreases condition,
{
    match condition {
        FFICondition::Conjunction(parts) => conditions_values(parts@),
        FFICondition::Disjunction(parts) => conditions_values(parts@),
        FFICondition::Unary(_, operand) => condition_values(*operand),
        FFICondition::Binary(_, left, right) => condition_values(*left) + condition_values(*right),
        FFICondition::Ternary(_, first, second, third) => condition_values(*first)
            + condition_values(*second) + condition_values(*third),
        FFICondition::Value(value) => seq![value],
    }
}

/// The values of the conditions, one condition after the other.
pub open spec fn conditions_values(conditions: Seq<FFICondition>) -> Seq<FFIValue>
    decreases conditions,
{
    if conditions.len() == 0 {
        seq![]
    } else {
        condition_values(conditions[0]) + conditions_values(conditions.drop_first())
    }
}

/// A condition is refused by the first of its values that has a fault, and accepted
/// if none has one: the operators are never to blame.
pub proof fn lemma_condition_refused_by_first_value(condition: FFICondition)
    ensures
        condition.fault() == first_fault(condition_values(condition)),
    decreases condition,
{
    match condition {
        FFICondition::Conjunction(parts) => lemma_conditions_refused_by_first_value(parts@),
        FFICondition::Disjunction(parts) => lemma_conditions_refused_by_first_value(parts@),
        FFICondition::Unary(_, operand) => lemma_condition_refused_by_first_value(*operand),
        FFICondition::Binary(_, left, right) => {
            lemma_condition_refused_by_first_value(*left);
            lemma_condition_refused_by_first_value(*right);
            lemma_first_fault_concat(condition_values(*left), condition_values(*right));
        },
        FFICondition::Ternary(_, first, second, third) => {
            lemma_condition_refused_by_first_value(*first);
            lemma_condition_refused_by_first_value(*second);
            lemma_condition_refused_by_first_value(*third);
            lemma_first_fault_concat(condition_values(*first), condition_values(*second));
            lemma_first_fault_concat(
                condition_values(*first) + condition_values(*second),
                condition_values(*third),
            );
        },
        FFICondition::Value(value) => {
            assert(seq![value].drop_first() =~= seq![]);
            reveal_with_fuel(first_fault, 2);
        },
    }
}

proof fn lemma_conditions_refused_by_first_value(conditions: Seq<FFICondition>)
    ensures
        conditions_fault(conditions) == first_fault(conditions_values(conditions)),
    decreases conditions,
{
    if conditions.len() > 0 {
        lemma_condition_refused_by_first_value(conditions[0]);
        lemma_conditions_refused_by_first_value(conditions.drop_first());
        lemma_first_fault_concat(
            condition_values(conditions[0]),
            conditions_values(conditions.drop_first()),
        );
    }
}

/// An aggregation of the values of a column.
#[derive(Debug, Clone, Copy, PartialEq, Eq)]
pub enum FFIAggregation {
    /// The average of the values.
    Avg,
    /// The number of values.
    Count,
    /// The sum of the values.
    Sum,
    /// The greatest value.
    Max,
    /// The least value.
    Min,
}

/// A column to select, as it is sent by the caller.
#[derive(Debug, PartialEq, Eq)]
pub struct FFIColumnSelector {
    /// Name of the table.
    pub table_name: Option<FFIString>,
    /// Name of the column.
    pub column_name: FFIString,
    /// Name under which the column is selected.
    pub select_alias: Option<FFIString>,
    /// Aggregation of the column.
    pub aggregation: Option<FFIAggregation>,
}

/// A column to select, as it is handed to the database.
#[derive(Debug, PartialEq, Eq)]
pub struct ColumnSelector {
    /// Name of the table.
    pub table_name: Option<String>,
    /// Name of the column.
    pub column_name: String,
    /// Name under which the column is selected.
    pub select_alias: Option<String>,
    /// Aggregation of the column.
    pub aggregation: Option<FFIAggregation>,
}

impl Convert for FFIColumnSelector {
    type Target = ColumnSelector;

    open spec fn fault(&self) -> Option<Error> {
        either_fault(
            self.table_name.fault(),
            either_fault(self.column_name.fault(), self.select_alias.fault()),
        )
    }

    open spec fn becomes(&self, target: ColumnSelector) -> bool {
        &&& self.table_name.becomes(target.table_name)
        &&& self.column_name.becomes(target.column_name)
        &&& self.select_alias.becomes(target.select_alias)
        &&& target.aggregation == self.aggregation
    }

    proof fn lemma_fault_refuses_input(&self) {
        self.table_name.lemma_fault_refuses_input();
        self.select_alias.lemma_fault_refuses_input();
    }

    fn convert(&self) -> (result: Result<ColumnSelector, Error>) {
        let table_name = match self.table_name.convert() {
            Ok(name) => name,
            Err(error) => return Err(error),
        };
        let column_name = match self.column_name.convert() {
            Ok(name) => name,
            Err(error) => return Err(error),
        };
        let select_alias = match self.select_alias.convert() {
            Ok(name) => name,
            Err(error) => return Err(error),
        };
        Ok(ColumnSelector { table_name, column_name, select_alias, aggregation: self.aggregation })
    }
}

/// The ways to join a table.
#[derive(Debug, Clone, Copy, PartialEq, Eq)]
pub enum FFIJoinType {
    /// The rows of both tables that match.
    Join,
    /// Every row of one table with every row of the other.
    CrossJoin,
    /// All rows of the left table.
    LeftJoin,
    /// All rows of the right table.
    RightJoin,
    /// All rows of both tables.
    FullJoin,
}

/// A join, as it is sent by the caller.
#[derive(Debug, PartialEq, Eq)]
pub struct FFIJoin {
    /// The way to join.
    pub join_type: FFIJoinType,
    /// Name of the table to join.
    pub table_name: FFIString,
    /// Name given to the joined table.
    pub join_alias: FFIString,
    /// Condition to join on.
    pub join_condition: FFICondition,
}

/// A join, as it is handed to the database.
#[derive(Debug, PartialEq, Eq)]
pub struct JoinTable {
    /// The way to join.
    pub join_type: FFIJoinType,
    /// Name of the table to join.
    pub table_name: String,
    /// Name given to the joined table.
    pub join_alias: String,
    /// Condition to join on.
    pub join_condition: Condition,
}

impl Convert for FFIJoin {
    type Target = JoinTable;

    open spec fn fault(&self) -> Option<Error> {
        either_fault(
            self.table_name.fault(),
            either_fault(self.join_alias.fault(), self.join_condition.fault()),
        )
    }

    open spec fn becomes(&self, target: JoinTable) -> bool {
        &&& target.join_type == self.join_type
        &&& self.table_name.becomes(target.table_name)
        &&& self.join_alias.becomes(target.join_alias)
        &&& self.join_condition.becomes(target.join_condition)
    }

    proof fn lemma_fault_refuses_input(&self) {
        self.join_condition.lemma_fault_refuses_input();
    }

    fn convert(&self) -> (result: Result<JoinTable, Error>) {
        let table_name = match self.table_name.convert() {
            Ok(name) => name,
            Err(error) => return Err(error),
        };
        let join_alias = match self.join_alias.convert() {
            Ok(name) => name,
            Err(error) => return Err(error),
        };
        let join_condition = match self.join_condition.convert() {
            Ok(condition) => condition,
            Err(error) => return Err(error),
        };
        Ok(JoinTable { join_type: self.join_type, table_name, join_alias, join_condition })
    }
}

/// The two ways to sort.
#[derive(Debug, Clone, Copy, PartialEq, Eq)]
pub enum SortOrder {
    /// From the least to the greatest.
    Asc,
    /// From the greatest to the least.
    Desc,
}

/// A column to sort by, as it is sent by the caller.
#[derive(Debug, PartialEq, Eq)]
pub struct FFIOrderByEntry {
    /// The way to sort.
    pub ordering: SortOrder,
    /// Name of the table.
    pub table_name: Option<FFIString>,
    /// Name of the column.
    pub column_name: FFIString,
}

/// A column to sort by, as it is handed to the database.
#[derive(Debug, PartialEq, Eq)]
pub struct OrderByEntry {
    /// The way to sort.
    pub ordering: SortOrder,
    /// Name of the table.
    pub table_name: Option<String>,
    /// Name of the column.
    pub column_name: String,
}

impl Convert for FFIOrderByEntry {
    type Target = OrderByEntry;

    open spec fn fault(&self) -> Option<Error> {
        either_fault(self.column_name.fault(), self.table_name.fault())
    }

    open spec fn becomes(&self, target: OrderByEntry) -> bool {
        &&& target.ordering == self.ordering
        &&& self.table_name.becomes(target.table_name)
        &&& self.column_name.becomes(target.column_name)
    }

    proof fn lemma_fault_refuses_input(&self) {
        self.table_name.lemma_fault_refuses_input();
    }

    fn convert(&self) -> (result: Result<OrderByEntry, Error>) {
        let column_name = match self.column_name.convert() {
            Ok(name) => name,
            Err(error) => return Err(error),
        };
        let table_name = match self.table_name.convert() {
            Ok(name) => name,
            Err(error) => return Err(error),
        };
        Ok(OrderByEntry { ordering: self.ordering, table_name, column_name })
    }
}

/// How many rows to retrieve, and how many to skip before.
#[derive(Debug, Clone, Copy, PartialEq, Eq)]
pub struct FFILimitClause {
    /// The number of rows at most.
    pub limit: u64,
    /// The number of rows to skip.
    pub offset: Option<u64>,
}

/// A column with the value to set it to, as it is sent by the caller.
#[derive(Debug, PartialEq, Eq)]
pub struct FFIUpdate {
    /// Name of the column.
    pub column: FFIString,
    /// The value.
    pub value: FFIValue,
}

impl Convert for FFIUpdate {
    type Target = (String, Value);

    /// Whatever the fault of the value is, the update is refused for an invalid string.
    open spec fn fault(&self) -> Option<Error> {
        if self.column.fault() is None && self.value.fault() is None {
            None
        } else {
            Some(Error::InvalidStringError)
        }
    }

    open spec fn becomes(&self, target: (String, Value)) -> bool {
        self.column.becomes(target.0) && self.value.becomes(target.1)
    }

    proof fn lemma_fault_refuses_input(&self) {
    }

    fn convert(&self) -> (result: Result<(String, Value), Error>) {
        let column = match self.column.convert() {
            Ok(name) => name,
            Err(_) => return Err(Error::InvalidStringError),
        };
        let value = match self.value.convert() {
            Ok(value) => value,
            Err(_) => return Err(Error::InvalidStringError),
        };
        Ok((column, value))
    }
}

/// The database systems that can be connected to.
#[derive(Debug, Clone, Copy, PartialEq, Eq)]
pub enum DBBackend {
    /// A SQLite file.
    SQLite,
    /// A MySQL or MariaDB server.
    MySQL,
    /// A Postgres server.
    Postgres,
}

/// How to connect to a database, as it is sent by the caller.
#[derive(Debug, PartialEq, Eq)]
pub struct DBConnectOptions {
    /// The database system.
    pub backend: DBBackend,
    /// Name of the database; for SQLite the name of the file.
    pub name: FFIString,
    /// Host of the server.
    pub host: FFIString,
    /// Port of the server.
    pub port: u16,
    /// User to connect as.
    pub user: FFIString,
    /// Password of the user.
    pub password: FFIString,
    /// Number of connections to open at once.
    pub min_connections: u32,
    /// Number of connections to open at most.
    pub max_connections: u32,
}

/// A database to connect to, as it is handed to the database.
#[derive(Debug, PartialEq, Eq)]
pub enum DatabaseDriver {
    /// A SQLite file.
    SQLite {
        /// Name of the file.
        filename: String,
    },
    /// A MySQL or MariaDB server.
    MySQL(DatabaseServer),
    /// A Postgres server.
    Postgres(DatabaseServer),
}

/// A server with the database on it to connect to.
#[derive(Debug, PartialEq, Eq)]
pub struct DatabaseServer {
    /// Name of the database.
    pub name: String,
    /// Host of the server.
    pub host: String,
    /// Port of the server.
    pub port: u16,
    /// User to connect as.
    pub user: String,
    /// Password of the user.
    pub password: String,
}

/// How to connect to a database, as it is handed to the database.
#[derive(Debug, PartialEq, Eq)]
pub struct DatabaseConfiguration {
    /// The database to connect to.
    pub driver: DatabaseDriver,
    /// Number of connections to open at once.
    pub min_connections: u32,
    /// Number of connections to open at most.
    pub max_connections: u32,
}

impl DBConnectOptions {
    /// The error by which the options are refused if they are for a server.
    pub open spec fn server_fault(self) -> Option<Error> {
        either_fault(
            either_fault(self.name.fault(), self.host.fault()),
            either_fault(self.user.fault(), self.password.fault()),
        )
    }

    /// The server that the options name.
    pub open spec fn becomes_server(self, server: DatabaseServer) -> bool {
        &&& self.name.becomes(server.name)
        &&& self.host.becomes(server.host)
        &&& server.port == self.port
        &&& self.user.becomes(server.user)
        &&& self.password.becomes(server.password)
    }

    /// The database that the options name. For a SQLite file only its name counts.
    pub open spec fn becomes_driver(self, driver: DatabaseDriver) -> bool {
        match self.backend {
            DBBackend::SQLite => driver matches DatabaseDriver::SQLite { filename }
                && self.name.becomes(filename),
            DBBackend::MySQL => driver matches DatabaseDriver::MySQL(server)
                && self.becomes_server(server),
            DBBackend::Postgres => driver matches DatabaseDriver::Postgres(server)
                && self.becomes_server(server),
        }
    }

    fn convert_server(&self) -> (result: Result<DatabaseServer, Error>)
        ensures
            match result {
                Ok(server) => self.server_fault() is None && self.becomes_server(server),
                Err(error) => self.server_fault() == Some(error),
            },
    {
        let name = match self.name.convert() {
            Ok(text) => text,
            Err(error) => return Err(error),
        };
        let host = match self.host.convert() {
            Ok(text) => text,
            Err(error) => return Err(error),
        };
        let user = match self.user.convert() {
            Ok(text) => text,
            Err(error) => return Err(error),
        };
        let password = match self.password.convert() {
            Ok(text) => text,
            Err(error) => return Err(error),
        };
        Ok(DatabaseServer { name, host, port: self.port, user, password })
    }

    fn convert_driver(&self) -> (result: Result<DatabaseDriver, Error>)
        ensures
            match result {
                Ok(driver) => self.fault() is None && self.becomes_driver(driver),
                Err(error) => self.fault() == Some(error),
            },
    {
        match self.backend {
            DBBackend::SQLite => match self.name.convert() {
                Ok(filename) => Ok(DatabaseDriver::SQLite { filename }),
                Err(error) => Err(error),
            },
            DBBackend::MySQL => match self.convert_server() {
                Ok(server) => Ok(DatabaseDriver::MySQL(server)),
                Err(error) => Err(error),
            },
            DBBackend::Postgres => match self.convert_server() {
                Ok(server) => Ok(DatabaseDriver::Postgres(server)),
                Err(error) => Err(error),
            },
        }
    }
}

impl Convert for DBConnectOptions {
    type Target = DatabaseConfiguration;

    /// For a SQLite file only its name is looked at.
    open spec fn fault(&self) -> Option<Error> {
        match self.backend {
            DBBackend::SQLite => self.name.fault(),
            _ => self.server_fault(),
        }
    }

    open spec fn becomes(&self, target: DatabaseConfiguration) -> bool {
        &&& self.becomes_driver(target.driver)
        &&& target.min_connections == self.min_connections
        &&& target.max_connections == self.max_connections
    }

    proof fn lemma_fault_refuses_input(&self) {
    }

    fn convert(&self) -> (result: Result<DatabaseConfiguration, Error>) {
        match self.convert_driver() {
            Ok(driver) => Ok(
                DatabaseConfiguration {
                    driver,
                    min_connections: self.min_connections,
                    max_connections: self.max_connections,
                },
            ),
            Err(error) => Err(error),
        }
    }
}

} // verus!
