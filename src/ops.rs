//! Operations that modify or compose column expressions.
use vstd::prelude::*;

use crate::expressions::{binary, chain_expr, ExpressionChain};
use crate::plan::{
    Ambiguous, Expr, ListFunction, Operator, StrFunction, StrptimeOptions, StructFunction,
    TimeUnit, Value,
};
use crate::utils::{copy_opt_string, DataType, Error};

verus! {

/// Possible operations that can be applied to an expression.
#[derive(Debug)]
pub enum OpItem {
    /// Extract the capture groups of a regex from the given column.
    ExtractGroups(ExtractGroups),
    /// Name a column using the given alias.
    Alias(Alias),
    /// Check if values contain the given regex.
    Contains(Contains),
    /// Check if values are null.
    IsNull(IsNull),
    /// Chain an expression into a logical OR with one or more conditions.
    Or(Or),
    /// Chain an expression into a logical AND with one or more conditions.
    And(And),
    /// Fill in null values with an expression.
    FillNull(FillNull),
    /// Remove null values.
    DropNull(DropNull),
    /// Apply a string operation.
    Str(Str),
    /// Compare for equality with the given expression.
    Eq(Eq),
    /// Compare for inequality with the given expression.
    Neq(ExpressionChain),
    /// Compare for being greater than the given expression.
    Gt(ExpressionChain),
    /// Compare for being less than the given expression.
    Lt(ExpressionChain),
    /// Compare for being greater than or equal to the given expression.
    GtEq(GtEq),
    /// Compare for being less than or equal to the given expression.
    LtEq(LtEq),
    /// Apply a list operation.
    List(List),
    /// Divide by another expression.
    Div(Div),
    /// Multiply by another expression.
    Mul(Mul),
    /// Add another expression.
    Add(Add),
    /// Subtract another expression.
    Sub(Sub),
    /// Cast to a data type.
    Cast(Cast),
    /// Apply a struct operation.
    Struct(Struct),
}

/// Extract the capture groups of a regex.
#[derive(Debug)]
pub struct ExtractGroups(pub String);

/// Name a column using the given alias.
#[derive(Debug)]
pub struct Alias(pub String);

/// Check if values contain the given regex.
#[derive(Debug)]
pub struct Contains(pub String);

/// Check if values are null (`true`) or not null (`false`).
#[derive(Debug)]
pub struct IsNull(pub bool);

/// Chain an expression into a logical OR with each of the conditions, in order.
#[derive(Debug)]
pub struct Or(pub Vec<ExpressionChain>);

/// Chain an expression into a logical AND with each of the conditions, in order.
#[derive(Debug)]
pub struct And(pub Vec<ExpressionChain>);

/// Fill in null values with a given expression.
#[derive(Debug)]
pub struct FillNull(pub ExpressionChain);

/// Drop null values.
#[derive(Debug)]
pub struct DropNull {}

/// Apply a string operation.
#[derive(Debug)]
pub enum Str {
    /// The length in characters.
    Len,
    /// Strip the given characters from both ends.
    StripChars(ExpressionChain),
    /// Convert to lowercase.
    ToLowercase,
    /// Parse as a date.
    ToDate(StrptimeOptions),
    /// Parse as a datetime.
    ToDateTime {
        time_unit: Option<TimeUnit>,
        time_zone: Option<String>,
        options: StrptimeOptions,
        ambiguous: Ambiguous,
    },
    /// Replace every match of the pattern with the value of an expression.
    ReplaceAll { pat: String, value: ExpressionChain, literal: bool },
    /// Parse JSON text into a struct, with an optional data type.
    JsonDecode { dtype: Option<DataType>, infer_schema_len: Option<usize> },
    /// Pad with leading zeroes to the given length.
    Zfill(u16),
}

/// Compare for equality with the given expression.
#[derive(Debug)]
pub struct Eq(pub ExpressionChain);

/// Compare for being greater than or equal to the given expression.
#[derive(Debug)]
pub struct GtEq(pub ExpressionChain);

/// Compare for being less than or equal to the given expression.
#[derive(Debug)]
pub struct LtEq(pub ExpressionChain);

/// Apply a list operation.
#[derive(Debug)]
pub enum List {
    /// Join the elements with a string separator.
    Join(ExpressionChain),
    /// Keep the elements for which the predicate holds.
    Filter(ExpressionChain),
    /// The first element.
    First,
}

/// Divide the expression by another.
#[derive(Debug)]
pub struct Div(pub ExpressionChain);

/// Multiply the expression by another.
#[derive(Debug)]
pub struct Mul(pub ExpressionChain);

/// Add another expression to the expression.
#[derive(Debug)]
pub struct Add(pub ExpressionChain);

/// Subtract another expression from the expression.
#[derive(Debug)]
pub struct Sub(pub ExpressionChain);

/// Cast to a data type.
#[derive(Debug)]
pub struct Cast(pub DataType);

/// Apply a struct operation.
#[derive(Debug)]
pub enum Struct {
    /// Encode the struct as JSON.
    JsonEncode,
    /// Extract a single field by name.
    Field(String),
}

/// The optional data type, copied.
fn copy_opt_dtype(d: &Option<DataType>) -> (r: Option<DataType>)
    ensures
        r == *d,
{
    match d {
        Some(t) => Some(t.copy()),
        None => None,
    }
}

/// `e` combined by `op` with each chain of `s` in turn, from the left.
pub open spec fn chain_fold(e: Expr, op: Operator, s: Seq<ExpressionChain>) -> Expr
    decreases s,
{
    if s.len() == 0 {
        e
    } else {
        binary(chain_fold(e, op, s.drop_last()), op, chain_expr(s.last()))
    }
}

/// The string operation applied to `e`.
pub open spec fn str_apply(s: Str, e: Expr) -> Expr
    decreases s,
{
    let f = match s {
        Str::Len => StrFunction::LenChars,
        Str::StripChars(c) => StrFunction::StripChars(Box::new(chain_expr(c))),
        Str::ToLowercase => StrFunction::ToLowercase,
        Str::ToDate(o) => StrFunction::ToDate(o),
        Str::ToDateTime { time_unit, time_zone, options, ambiguous } => StrFunction::ToDatetime {
            time_unit,
            time_zone,
            options,
            ambiguous,
        },
        Str::ReplaceAll { pat, value, literal } => StrFunction::ReplaceAll {
            pattern: Box::new(Expr::Literal(Value::Str(pat))),
            value: Box::new(chain_expr(value)),
            literal,
        },
        Str::JsonDecode { dtype, infer_schema_len } => StrFunction::JsonDecode {
            dtype,
            infer_schema_len,
        },
        Str::Zfill(n) => StrFunction::Zfill(Box::new(Expr::Literal(Value::UInt(n as u64)))),
    };
    Expr::Str(Box::new(e), f)
}

/// The list operation applied to `e`.
pub open spec fn list_apply(l: List, e: Expr) -> Expr
    decreases l,
{
    let f = match l {
        List::Join(c) => ListFunction::Join {
            separator: Box::new(chain_expr(c)),
            ignore_nulls: true,
        },
        List::Filter(c) => ListFunction::Eval(
            Box::new(Expr::Filter(Box::new(Expr::Element), Box::new(chain_expr(c)))),
        ),
        List::First => ListFunction::First,
    };
    Expr::List(Box::new(e), f)
}

/// The struct operation applied to `e`.
pub open spec fn struct_apply(s: Struct, e: Expr) -> Expr {
    let f = match s {
        Struct::JsonEncode => StructFunction::JsonEncode,
        Struct::Field(name) => StructFunction::FieldByName(name),
    };
    Expr::Struct(Box::new(e), f)
}

/// What applying the operation to `e` gives.
pub open spec fn op_apply(op: OpItem, e: Expr) -> Expr
    decreases op,
{
    match op {
        OpItem::ExtractGroups(x) => Expr::Str(Box::new(e), StrFunction::ExtractGroups(x.0)),
        OpItem::Alias(x) => Expr::Alias(Box::new(e), x.0),
        OpItem::Contains(x) => Expr::Str(
            Box::new(e),
            StrFunction::Contains { pattern: Box::new(Expr::Literal(Value::Str(x.0))), strict: true },
        ),
        OpItem::IsNull(x) => if x.0 {
            Expr::IsNull(Box::new(e))
        } else {
            Expr::IsNotNull(Box::new(e))
        },
        OpItem::Or(x) => chain_fold(e, Operator::Or, x.0@),
        OpItem::And(x) => chain_fold(e, Operator::And, x.0@),
        OpItem::FillNull(x) => Expr::FillNull(Box::new(e), Box::new(chain_expr(x.0))),
        OpItem::DropNull(_) => Expr::DropNulls(Box::new(e)),
        OpItem::Str(s) => str_apply(s, e),
        OpItem::Eq(x) => binary(e, Operator::Eq, chain_expr(x.0)),
        OpItem::Neq(c) => binary(e, Operator::NotEq, chain_expr(c)),
        OpItem::Gt(c) => binary(e, Operator::Gt, chain_expr(c)),
        OpItem::Lt(c) => binary(e, Operator::Lt, chain_expr(c)),
        OpItem::GtEq(x) => binary(e, Operator::GtEq, chain_expr(x.0)),
        OpItem::LtEq(x) => binary(e, Operator::LtEq, chain_expr(x.0)),
        OpItem::List(l) => list_apply(l, e),
        OpItem::Div(x) => binary(e, Operator::Divide, chain_expr(x.0)),
        OpItem::Mul(x) => binary(e, Operator::Multiply, chain_expr(x.0)),
        OpItem::Add(x) => binary(e, Operator::Plus, chain_expr(x.0)),
        OpItem::Sub(x) => binary(e, Operator::Minus, chain_expr(x.0)),
        OpItem::Cast(x) => Expr::Cast(Box::new(e), x.0),
        OpItem::Struct(s) => struct_apply(s, e),
    }
}

/// The operations applied to `e` one after another: the last one applies to the
/// result of all those before it.
pub open spec fn apply_ops(e: Expr, ops: Seq<OpItem>) -> Expr
    decreases ops,
{
    if ops.len() == 0 {
        e
    } else {
        op_apply(ops.last(), apply_ops(e, ops.drop_last()))
    }
}

/// Combines `e` by `op` with each chain of `s` in turn.
fn fold_chains(e: Expr, op: Operator, s: &Vec<ExpressionChain>) -> (r: Expr)
    ensures
        r == chain_fold(e, op, s@),
    decreases s,
{
    let mut acc = e;
    let ghost start = e;
    let mut i: usize = 0;
    while i < s.len()
        invariant
            i <= s.len(),
            acc == chain_fold(start, op, s@.subrange(0, i as int)),
        decreases s.len() - i,
    {
        proof {
            assert(decreases_to!(s => s[i as int]));
        }
        let next = s[i].eval();
        assert(s@.subrange(0, i + 1).drop_last() =~= s@.subrange(0, i as int));
        acc = Expr::Binary(Box::new(acc), op, Box::new(next));
        i = i + 1;
    }
    assert(s@.subrange(0, s@.len() as int) =~= s@);
    acc
}

impl OpItem {
    /// Applies the operation; never fails, and gives [`op_apply`].
    pub fn apply(&self, expr: Expr) -> (r: Result<Expr, Error>)
        ensures
            r == Ok::<Expr, Error>(op_apply(*self, expr)),
    {
        Ok(self.eval_apply(expr))
    }

    /// The operation applied to `e`.
    pub fn eval_apply(&self, e: Expr) -> (r: Expr)
        ensures
            r == op_apply(*self, e),
        decreases self,
    {
        match self {
            OpItem::ExtractGroups(x) => Expr::Str(
                Box::new(e),
                StrFunction::ExtractGroups(x.0.clone()),
            ),
            OpItem::Alias(x) => Expr::Alias(Box::new(e), x.0.clone()),
            OpItem::Contains(x) => Expr::Str(
                Box::new(e),
                StrFunction::Contains {
                    pattern: Box::new(Expr::Literal(Value::Str(x.0.clone()))),
                    strict: true,
                },
            ),
            OpItem::IsNull(x) => if x.0 {
                Expr::IsNull(Box::new(e))
            } else {
                Expr::IsNotNull(Box::new(e))
            },
            OpItem::Or(x) => fold_chains(e, Operator::Or, &x.0),
            OpItem::And(x) => fold_chains(e, Operator::And, &x.0),
            OpItem::FillNull(x) => Expr::FillNull(Box::new(e), Box::new(x.0.eval())),
            OpItem::DropNull(_) => Expr::DropNulls(Box::new(e)),
            OpItem::Str(s) => s.eval_apply(e),
            OpItem::Eq(x) => Expr::Binary(Box::new(e), Operator::Eq, Box::new(x.0.eval())),
            OpItem::Neq(c) => Expr::Binary(Box::new(e), Operator::NotEq, Box::new(c.eval())),
            OpItem::Gt(c) => Expr::Binary(Box::new(e), Operator::Gt, Box::new(c.eval())),
            OpItem::Lt(c) => Expr::Binary(Box::new(e), Operator::Lt, Box::new(c.eval())),
            OpItem::GtEq(x) => Expr::Binary(Box::new(e), Operator::GtEq, Box::new(x.0.eval())),
            OpItem::LtEq(x) => Expr::Binary(Box::new(e), Operator::LtEq, Box::new(x.0.eval())),
            OpItem::List(l) => l.eval_apply(e),
            OpItem::Div(x) => Expr::Binary(Box::new(e), Operator::Divide, Box::new(x.0.eval())),
            OpItem::Mul(x) => Expr::Binary(Box::new(e), Operator::Multiply, Box::new(x.0.eval())),
            OpItem::Add(x) => Expr::Binary(Box::new(e), Operator::Plus, Box::new(x.0.eval())),
            OpItem::Sub(x) => Expr::Binary(Box::new(e), Operator::Minus, Box::new(x.0.eval())),
            OpItem::Cast(x) => Expr::Cast(Box::new(e), x.0.copy()),
            OpItem::Struct(s) => s.eval_apply(e),
        }
    }
}

impl Str {
    /// The string operation applied to `e`.
    pub fn eval_apply(&self, e: Expr) -> (r: Expr)
        ensures
            r == str_apply(*self, e),
        decreases self,
    {
        let f = match self {
            Str::Len => StrFunction::LenChars,
            Str::StripChars(c) => StrFunction::StripChars(Box::new(c.eval())),
            Str::ToLowercase => StrFunction::ToLowercase,
            Str::ToDate(o) => StrFunction::ToDate(o.copy()),
            Str::ToDateTime { time_unit, time_zone, options, ambiguous } => {
                StrFunction::ToDatetime {
                    time_unit: match time_unit {
                        Some(u) => Some(*u),
                        None => None,
                    },
                    time_zone: copy_opt_string(time_zone),
                    options: options.copy(),
                    ambiguous: *ambiguous,
                }
            },
            Str::ReplaceAll { pat, value, literal } => StrFunction::ReplaceAll {
                pattern: Box::new(Expr::Literal(Value::Str(pat.clone()))),
                value: Box::new(value.eval()),
                literal: *literal,
            },
            Str::JsonDecode { dtype, infer_schema_len } => StrFunction::JsonDecode {
                dtype: copy_opt_dtype(dtype),
                infer_schema_len: match infer_schema_len {
                    Some(n) => Some(*n),
                    None => None,
                },
            },
            Str::Zfill(n) => StrFunction::Zfill(Box::new(Expr::Literal(Value::UInt(*n as u64)))),
        };
        Expr::Str(Box::new(e), f)
    }
}

impl List {
    /// The list operation applied to `e`.
    pub fn eval_apply(&self, e: Expr) -> (r: Expr)
        ensures
            r == list_apply(*self, e),
        decreases self,
    {
        let f = match self {
            List::Join(c) => ListFunction::Join { separator: Box::new(c.eval()), ignore_nulls: true },
            List::Filter(c) => ListFunction::Eval(
                Box::new(Expr::Filter(Box::new(Expr::Element), Box::new(c.eval()))),
            ),
            List::First => ListFunction::First,
        };
        Expr::List(Box::new(e), f)
    }
}

impl Struct {
    /// The struct operation applied to `e`.
    pub fn eval_apply(&self, e: Expr) -> (r: Expr)
        ensures
            r == struct_apply(*self, e),
    {
        let f = match self {
            Struct::JsonEncode => StructFunction::JsonEncode,
            Struct::Field(name) => StructFunction::FieldByName(name.clone()),
        };
        Expr::Struct(Box::new(e), f)
    }
}

impl ExtractGroups {
    /// Extract the capture groups of the regex, as a struct.
    pub fn apply(&self, expr: Expr) -> (r: Result<Expr, Error>)
        ensures
            r == Ok::<Expr, Error>(op_apply(OpItem::ExtractGroups(*self), expr)),
    {
        Ok(Expr::Str(Box::new(expr), StrFunction::ExtractGroups(self.0.clone())))
    }
}

impl Alias {
    /// Rename the expression.
    pub fn apply(&self, expr: Expr) -> (r: Result<Expr, Error>)
        ensures
            r == Ok::<Expr, Error>(op_apply(OpItem::Alias(*self), expr)),
    {
        Ok(Expr::Alias(Box::new(expr), self.0.clone()))
    }
}

impl Contains {
    /// Whether the values contain a match of the regex.
    pub fn apply(&self, expr: Expr) -> (r: Result<Expr, Error>)
        ensures
            r == Ok::<Expr, Error>(op_apply(OpItem::Contains(*self), expr)),
    {
        Ok(Expr::Str(
            Box::new(expr),
            StrFunction::Contains {
                pattern: Box::new(Expr::Literal(Value::Str(self.0.clone()))),
                strict: true,
            },
        ))
    }
}

impl IsNull {
    /// Whether the values are null, or not null.
    pub fn apply(&self, expr: Expr) -> (r: Result<Expr, Error>)
        ensures
            r == Ok::<Expr, Error>(op_apply(OpItem::IsNull(*self), expr)),
    {
        Ok(if self.0 {
            Expr::IsNull(Box::new(expr))
        } else {
            Expr::IsNotNull(Box::new(expr))
        })
    }
}

impl Or {
    /// The expression ORed with each condition in turn.
    pub fn apply(&self, expr: Expr) -> (r: Result<Expr, Error>)
        ensures
            r == Ok::<Expr, Error>(op_apply(OpItem::Or(*self), expr)),
    {
        Ok(fold_chains(expr, Operator::Or, &self.0))
    }
}

impl And {
    /// The expression ANDed with each condition in turn.
    pub fn apply(&self, expr: Expr) -> (r: Result<Expr, Error>)
        ensures
            r == Ok::<Expr, Error>(op_apply(OpItem::And(*self), expr)),
    {
        Ok(fold_chains(expr, Operator::And, &self.0))
    }
}

impl FillNull {
    /// Null values replaced by the chain's value.
    pub fn apply(&self, expr: Expr) -> (r: Result<Expr, Error>)
        ensures
            r == Ok::<Expr, Error>(op_apply(OpItem::FillNull(*self), expr)),
    {
        Ok(Expr::FillNull(Box::new(expr), Box::new(self.0.eval())))
    }
}

impl DropNull {
    /// Null values removed.
    pub fn apply(&self, expr: Expr) -> (r: Result<Expr, Error>)
        ensures
            r == Ok::<Expr, Error>(op_apply(OpItem::DropNull(*self), expr)),
    {
        Ok(Expr::DropNulls(Box::new(expr)))
    }
}

impl Eq {
    /// Equality with the chain's value.
    pub fn apply(&self, expr: Expr) -> (r: Result<Expr, Error>)
        ensures
            r == Ok::<Expr, Error>(op_apply(OpItem::Eq(*self), expr)),
    {
        Ok(Expr::Binary(Box::new(expr), Operator::Eq, Box::new(self.0.eval())))
    }
}

impl GtEq {
    /// Greater than or equal to the chain's value.
    pub fn apply(&self, expr: Expr) -> (r: Result<Expr, Error>)
        ensures
            r == Ok::<Expr, Error>(op_apply(OpItem::GtEq(*self), expr)),
    {
        Ok(Expr::Binary(Box::new(expr), Operator::GtEq, Box::new(self.0.eval())))
    }
}

impl LtEq {
    /// Less than or equal to the chain's value.
    pub fn apply(&self, expr: Expr) -> (r: Result<Expr, Error>)
        ensures
            r == Ok::<Expr, Error>(op_apply(OpItem::LtEq(*self), expr)),
    {
        Ok(Expr::Binary(Box::new(expr), Operator::LtEq, Box::new(self.0.eval())))
    }
}

impl Div {
    /// Divided by the chain's value.
    pub fn apply(&self, expr: Expr) -> (r: Result<Expr, Error>)
        ensures
            r == Ok::<Expr, Error>(op_apply(OpItem::Div(*self), expr)),
    {
        Ok(Expr::Binary(Box::new(expr), Operator::Divide, Box::new(self.0.eval())))
    }
}

impl Mul {
    /// Multiplied by the chain's value.
    pub fn apply(&self, expr: Expr) -> (r: Result<Expr, Error>)
        ensures
            r == Ok::<Expr, Error>(op_apply(OpItem::Mul(*self), expr)),
    {
        Ok(Expr::Binary(Box::new(expr), Operator::Multiply, Box::new(self.0.eval())))
    }
}

impl Add {
    /// Plus the chain's value.
    pub fn apply(&self, expr: Expr) -> (r: Result<Expr, Error>)
        ensures
            r == Ok::<Expr, Error>(op_apply(OpItem::Add(*self), expr)),
    {
        Ok(Expr::Binary(Box::new(expr), Operator::Plus, Box::new(self.0.eval())))
    }
}

impl Sub {
    /// Minus the chain's value.
    pub fn apply(&self, expr: Expr) -> (r: Result<Expr, Error>)
        ensures
            r == Ok::<Expr, Error>(op_apply(OpItem::Sub(*self), expr)),
    {
        Ok(Expr::Binary(Box::new(expr), Operator::Minus, Box::new(self.0.eval())))
    }
}

impl Cast {
    /// Cast to the data type.
    pub fn apply(&self, expr: Expr) -> (r: Result<Expr, Error>)
        ensures
            r == Ok::<Expr, Error>(op_apply(OpItem::Cast(*self), expr)),
    {
        Ok(Expr::Cast(Box::new(expr), self.0.copy()))
    }
}

impl Str {
    /// The string operation applied to the expression.
    pub fn apply(&self, expr: Expr) -> (r: Result<Expr, Error>)
        ensures
            r == Ok::<Expr, Error>(op_apply(OpItem::Str(*self), expr)),
    {
        Ok(self.eval_apply(expr))
    }
}

impl List {
    /// The list operation applied to the expression.
    pub fn apply(&self, expr: Expr) -> (r: Result<Expr, Error>)
        ensures
            r == Ok::<Expr, Error>(op_apply(OpItem::List(*self), expr)),
    {
        Ok(self.eval_apply(expr))
    }
}

impl Struct {
    /// The struct operation applied to the expression.
    pub fn apply(&self, expr: Expr) -> (r: Result<Expr, Error>)
        ensures
            r == Ok::<Expr, Error>(op_apply(OpItem::Struct(*self), expr)),
    {
        Ok(self.eval_apply(expr))
    }
}

/// The name by which the engine knows an ambiguity strategy.
pub open spec fn ambiguous_name(a: Ambiguous) -> Seq<char> {
    match a {
        Ambiguous::Raise => "raise"@,
        Ambiguous::Earliest => "earliest"@,
        Ambiguous::Latest => "latest"@,
        Ambiguous::Null => "null"@,
    }
}

impl Ambiguous {
    /// The strategy as a literal string expression.
    pub fn expr(&self) -> (r: Result<Expr, Error>)
        ensures
            r matches Ok(Expr::Literal(Value::Str(s))) && s@ == ambiguous_name(*self),
    {
        let name = match self {
            Ambiguous::Raise => "raise".to_string(),
            Ambiguous::Earliest => "earliest".to_string(),
            Ambiguous::Latest => "latest".to_string(),
            Ambiguous::Null => "null".to_string(),
        };
        Ok(Expr::Literal(Value::Str(name)))
    }
}

} // verus!
