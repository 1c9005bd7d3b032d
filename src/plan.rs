//! The compiled form of a configuration: column expressions and lazy tabular plans.
//!
//! Nothing here touches data. A [`Plan`] describes a computation that an execution
//! engine carries out on demand.
use vstd::prelude::*;

use crate::utils::DataType;

verus! {

/// A scalar literal.
#[derive(Debug, Clone, PartialEq)]
pub enum Value {
    Null,
    Bool(bool),
    Int(i64),
    UInt(u64),
    Str(String),
}

/// A binary operator between two column expressions.
#[derive(Debug, PartialEq, Eq, Structural, Clone, Copy)]
pub enum Operator {
    And,
    Or,
    Eq,
    NotEq,
    Gt,
    Lt,
    GtEq,
    LtEq,
    Plus,
    Minus,
    Multiply,
    Divide,
}

/// The precision of a datetime.
#[derive(Debug, PartialEq, Eq, Structural, Clone, Copy)]
pub enum TimeUnit {
    Nanoseconds,
    Microseconds,
    Milliseconds,
}

/// Options for parsing dates and times out of strings.
#[derive(Debug, Clone, PartialEq)]
pub struct StrptimeOptions {
    /// The format string, inferred when absent.
    pub format: Option<String>,
    /// Raise an error when a value cannot be parsed.
    pub strict: bool,
    /// Require an exact format match.
    pub exact: bool,
    /// Cache parsed values.
    pub cache: bool,
}

impl StrptimeOptions {
    /// An equal copy of the options.
    pub fn copy(&self) -> (r: StrptimeOptions)
        ensures
            r == *self,
    {
        StrptimeOptions {
            format: crate::utils::copy_opt_string(&self.format),
            strict: self.strict,
            exact: self.exact,
            cache: self.cache,
        }
    }
}

/// A column expression.
#[derive(Debug, PartialEq)]
pub enum Expr {
    /// A column by name.
    Column(String),
    /// A literal value.
    Literal(Value),
    /// The number of rows.
    Len,
    /// Every column of the input.
    All,
    /// Logical negation.
    Not(Box<Expr>),
    /// A binary operation.
    Binary(Box<Expr>, Operator, Box<Expr>),
    /// The current element of a list evaluation.
    Element,
    /// Fields combined into a struct column.
    AsStruct(ExprList),
    /// A range of integers from `start` up to `end` by `step`.
    IntRange { start: Box<Expr>, end: Box<Expr>, step: i64, dtype: DataType },
    /// Strings concatenated horizontally.
    ConcatStr { exprs: ExprList, separator: String, ignore_nulls: bool },
    /// `when(condition).then(then).otherwise(otherwise)`.
    When { condition: Box<Expr>, then_expr: Box<Expr>, otherwise: Box<Expr> },
    /// The expression under another name.
    Alias(Box<Expr>, String),
    /// Whether values are null.
    IsNull(Box<Expr>),
    /// Whether values are not null.
    IsNotNull(Box<Expr>),
    /// Null values replaced by the second expression.
    FillNull(Box<Expr>, Box<Expr>),
    /// Null values removed.
    DropNulls(Box<Expr>),
    /// Values filtered by a predicate.
    Filter(Box<Expr>, Box<Expr>),
    /// Values cast to a data type.
    Cast(Box<Expr>, DataType),
    /// A string operation.
    Str(Box<Expr>, StrFunction),
    /// A list operation.
    List(Box<Expr>, ListFunction),
    /// A struct operation.
    Struct(Box<Expr>, StructFunction),
}

/// An ordered list of expressions.
#[derive(Debug, PartialEq)]
pub enum ExprList {
    Nil,
    Cons(Box<Expr>, Box<ExprList>),
}

/// How to resolve a local time that is ambiguous in the target time zone.
#[derive(Debug, PartialEq, Eq, Structural, Clone, Copy)]
pub enum Ambiguous {
    Raise,
    Earliest,
    Latest,
    Null,
}

/// Operations on string columns.
#[derive(Debug, PartialEq)]
pub enum StrFunction {
    /// Whether the value contains a match of the regex.
    Contains { pattern: Box<Expr>, strict: bool },
    /// The capture groups of the regex, as a struct.
    ExtractGroups(String),
    /// The length in characters.
    LenChars,
    /// Leading and trailing characters removed.
    StripChars(Box<Expr>),
    /// The value in lower case.
    ToLowercase,
    /// The value parsed as a date.
    ToDate(StrptimeOptions),
    /// The value parsed as a datetime.
    ToDatetime {
        time_unit: Option<TimeUnit>,
        time_zone: Option<String>,
        options: StrptimeOptions,
        ambiguous: Ambiguous,
    },
    /// Every match of `pattern` replaced by `value`.
    ReplaceAll { pattern: Box<Expr>, value: Box<Expr>, literal: bool },
    /// JSON text decoded into a struct.
    JsonDecode { dtype: Option<DataType>, infer_schema_len: Option<usize> },
    /// Padded with leading zeroes to a length.
    Zfill(Box<Expr>),
}

/// Operations on list columns.
#[derive(Debug, PartialEq)]
pub enum ListFunction {
    /// The elements joined by a separator.
    Join { separator: Box<Expr>, ignore_nulls: bool },
    /// An expression evaluated on the elements of each list.
    Eval(Box<Expr>),
    /// The first element.
    First,
}

/// Operations on struct columns.
#[derive(Debug, PartialEq)]
pub enum StructFunction {
    /// The struct encoded as JSON text.
    JsonEncode,
    /// One field by name.
    FieldByName(String),
}

/// Columns chosen by name.
#[derive(Debug, Clone, PartialEq)]
pub struct Selector {
    pub names: Vec<String>,
    /// Fail when a named column is missing.
    pub strict: bool,
}

/// A mapping of column names to data types.
#[derive(Debug, Clone, PartialEq)]
pub struct Schema(pub Vec<(String, DataType)>);

/// One column of a literal table.
#[derive(Debug, Clone, PartialEq)]
pub struct InlineColumn {
    pub name: String,
    pub datatype: DataType,
    pub values: Vec<Value>,
}

/// A column to sort by, ascending unless `descending`.
#[derive(Debug, Clone, PartialEq)]
pub struct Sort {
    pub column: String,
    pub descending: bool,
}

/// Which duplicate rows to keep when dropping duplicates.
#[derive(Debug, PartialEq, Eq, Structural, Clone, Copy)]
pub enum DuplicateKeep {
    /// Keep the first duplicate record.
    First,
    /// Keep the last duplicate record.
    Last,
    /// Keep any duplicate row, with no guarantee about which.
    Any,
    /// Keep no duplicate rows.
    Discard,
}

/// How two datasets are joined.
#[derive(Debug, PartialEq, Eq, Structural, Clone, Copy)]
pub enum JoinType {
    /// Keep only rows that match on both sides.
    Inner,
    /// Keep all rows of the left dataset.
    Left,
    /// Keep all rows of the right dataset.
    Right,
    /// Keep all rows of both datasets.
    Full,
    /// Keep only left rows without a match.
    Anti,
}

/// How two datasets are concatenated.
#[derive(Debug, PartialEq, Eq, Structural, Clone, Copy)]
pub enum ConcatType {
    Vertical,
    Horizontal,
    Diagonal,
}

/// Options for concatenating datasets.
#[derive(Debug, PartialEq, Eq, Structural, Clone, Copy)]
pub struct UnionArgs {
    pub parallel: bool,
    pub rechunk: bool,
    pub to_supertypes: bool,
    pub maintain_order: bool,
}

/// Where the rows of a plan are read from.
#[derive(Debug, Clone, PartialEq)]
pub enum Scan {
    /// Delimited text files.
    Csv {
        paths: Vec<String>,
        separator: Option<u8>,
        has_header: bool,
        truncate_ragged_lines: bool,
        schema: Option<Schema>,
    },
    /// Newline-delimited JSON files.
    JsonLines { paths: Vec<String>, schema: Option<Schema> },
    /// One JSON document.
    Json { path: String, schema: Option<Schema> },
    /// Parquet files.
    Parquet { paths: Vec<String>, schema: Option<Schema> },
    /// A literal table.
    Inline(Vec<InlineColumn>),
}

/// A lazy tabular computation.
#[derive(Debug, PartialEq)]
pub enum Plan {
    Scan(Scan),
    Select(Box<Plan>, ExprList),
    WithColumns(Box<Plan>, ExprList),
    Drop(Box<Plan>, Selector),
    /// Columns renamed by (old name, new name) pairs.
    Rename { input: Box<Plan>, mapping: Vec<(String, String)>, strict: bool },
    Filter(Box<Plan>, Expr),
    Unnest(Box<Plan>, Selector),
    /// All columns, then one column per capture group of `pattern` matched against `column`.
    ExtractGroups { input: Box<Plan>, column: String, pattern: String },
    Sort { input: Box<Plan>, by: Vec<Sort> },
    Unique { input: Box<Plan>, subset: Option<Selector>, keep: DuplicateKeep },
    Join { left: Box<Plan>, right: Box<Plan>, left_on: ExprList, right_on: ExprList, how: JoinType },
    Explode(Box<Plan>, Selector),
    /// Materialize the plan in memory before continuing.
    Collect(Box<Plan>),
    GroupBy { input: Box<Plan>, keys: ExprList, aggs: ExprList },
    Concat { first: Box<Plan>, second: Box<Plan>, mode: ConcatType, args: UnionArgs },
}

} // verus!
