//! Expressions that evaluate to a column [`Expr`].
use vstd::prelude::*;

use crate::ops::{apply_ops, op_apply, OpItem};
use crate::plan::{Expr, ExprList, Operator, Value};
use crate::utils::{DataType, Error};

verus! {

/// Available expressions that can be used in configuration files.
#[derive(Debug)]
pub enum ExpressionItem {
    /// Specify a column by name.
    Col(Column),
    /// Match a regex against a column.
    Match(Match),
    /// Group two or more items together in a logical AND statement.
    And(And),
    /// Group two or more items together in a logical OR statement.
    Or(Or),
    /// Logically invert the given expression.
    Not(Box<ExpressionChain>),
    /// Specify a literal string value.
    Lit(Literal),
    /// Literal null value.
    Null,
    /// Evaluates to the number of rows.
    Len,
    /// Combine one or more expressions into a struct column as fields.
    AsStruct(AsStruct),
    /// Generate a range of integers.
    IntRange(IntRange),
    /// Concatenate string expressions horizontally.
    ConcatStr(ConcatStr),
    /// The current element in a list evaluation.
    Element,
    /// Create a when/then/otherwise expression.
    Condition(Condition),
}

/// An expression grouped together with chained operations, applied in order.
#[derive(Debug)]
pub struct ExpressionChain {
    pub expr: ExpressionItem,
    pub ops: Vec<OpItem>,
}

/// Specify a column by name.
#[derive(Debug)]
pub struct Column(pub String);

/// Match a column against a regex.
#[derive(Debug)]
pub struct Match {
    /// Column to apply pattern to.
    pub column: String,
    /// Pattern to match against the column.
    pub pattern: String,
}

/// Logical AND over two or more conditions; the operand count is part of the shape.
#[derive(Debug)]
pub struct And {
    pub first: Box<ExpressionItem>,
    pub second: Box<ExpressionItem>,
    pub rest: Vec<ExpressionItem>,
}

/// Logical OR over two or more conditions; the operand count is part of the shape.
#[derive(Debug)]
pub struct Or {
    pub first: Box<ExpressionItem>,
    pub second: Box<ExpressionItem>,
    pub rest: Vec<ExpressionItem>,
}

/// Specify a literal string value.
#[derive(Debug)]
pub struct Literal(pub String);

/// Combine one or more expressions into a struct column as fields.
#[derive(Debug)]
pub struct AsStruct(pub Vec<ExpressionChain>);

/// Generate a range of integers, one per row, from `start` by `step`.
#[derive(Debug)]
pub struct IntRange {
    pub start: i64,
    pub step: i64,
    pub dtype: DataType,
}

/// Concatenate string expressions horizontally.
#[derive(Debug)]
pub struct ConcatStr {
    pub columns: Vec<ExpressionChain>,
    pub separator: String,
    pub ignore_nulls: bool,
}

/// Create a when/then/otherwise expression.
#[derive(Debug)]
pub struct Condition {
    pub when: Box<ExpressionChain>,
    pub then_value: Box<ExpressionChain>,
    pub otherwise: Box<ExpressionChain>,
}

/// `a op b`.
pub open spec fn binary(a: Expr, op: Operator, b: Expr) -> Expr {
    Expr::Binary(Box::new(a), op, Box::new(b))
}

/// `col(column).str().contains(pattern)`, the regex match of a column.
pub open spec fn match_expr(column: String, pattern: String) -> Expr {
    Expr::Str(
        Box::new(Expr::Column(column)),
        crate::plan::StrFunction::Contains {
            pattern: Box::new(Expr::Literal(Value::Str(pattern))),
            strict: true,
        },
    )
}

/// What an expression item evaluates to.
pub open spec fn item_expr(e: ExpressionItem) -> Expr
    decreases e,
{
    match e {
        ExpressionItem::Col(c) => Expr::Column(c.0),
        ExpressionItem::Match(m) => match_expr(m.column, m.pattern),
        ExpressionItem::And(a) => logic_fold(
            binary(item_expr(*a.first), Operator::And, item_expr(*a.second)),
            Operator::And,
            a.rest@,
        ),
        ExpressionItem::Or(o) => logic_fold(
            binary(item_expr(*o.first), Operator::Or, item_expr(*o.second)),
            Operator::Or,
            o.rest@,
        ),
        ExpressionItem::Not(c) => Expr::Not(Box::new(chain_expr(*c))),
        ExpressionItem::Lit(l) => Expr::Literal(Value::Str(l.0)),
        ExpressionItem::Null => Expr::Literal(Value::Null),
        ExpressionItem::Len => Expr::Len,
        ExpressionItem::AsStruct(s) => Expr::AsStruct(chains_expr(s.0@)),
        ExpressionItem::IntRange(r) => Expr::IntRange {
            start: Box::new(Expr::Literal(Value::Int(r.start))),
            end: Box::new(Expr::Len),
            step: r.step,
            dtype: r.dtype,
        },
        ExpressionItem::ConcatStr(c) => Expr::ConcatStr {
            exprs: chains_expr(c.columns@),
            separator: c.separator,
            ignore_nulls: c.ignore_nulls,
        },
        ExpressionItem::Element => Expr::Element,
        ExpressionItem::Condition(c) => Expr::When {
            condition: Box::new(chain_expr(*c.when)),
            then_expr: Box::new(chain_expr(*c.then_value)),
            otherwise: Box::new(chain_expr(*c.otherwise)),
        },
    }
}

/// `acc op items[0] op items[1] ...`, folded from the left.
pub open spec fn logic_fold(acc: Expr, op: Operator, items: Seq<ExpressionItem>) -> Expr
    decreases items,
{
    if items.len() == 0 {
        acc
    } else {
        binary(logic_fold(acc, op, items.drop_last()), op, item_expr(items.last()))
    }
}

/// What a chain evaluates to: its operations folded over its base, in order.
pub open spec fn chain_expr(c: ExpressionChain) -> Expr
    decreases c,
{
    apply_ops(item_expr(c.expr), c.ops@)
}

/// The chains evaluated one by one, in order.
pub open spec fn chains_expr(s: Seq<ExpressionChain>) -> ExprList
    decreases s,
{
    if s.len() == 0 {
        ExprList::Nil
    } else {
        ExprList::Cons(Box::new(chain_expr(s[0])), Box::new(chains_expr(s.drop_first())))
    }
}

/// Evaluates every chain of `s`, keeping their order.
pub fn eval_chains(s: &Vec<ExpressionChain>) -> (r: ExprList)
    ensures
        r == chains_expr(s@),
    decreases s,
{
    let mut acc = ExprList::Nil;
    let mut i: usize = s.len();
    while i > 0
        invariant
            i <= s.len(),
            acc == chains_expr(s@.subrange(i as int, s@.len() as int)),
        decreases i,
    {
        i = i - 1;
        proof {
            assert(decreases_to!(s => s[i as int]));
        }
        let e = s[i].eval();
        assert(s@.subrange(i as int, s@.len() as int).drop_first() =~= s@.subrange(
            i + 1,
            s@.len() as int,
        ));
        acc = ExprList::Cons(Box::new(e), Box::new(acc));
    }
    assert(s@.subrange(0, s@.len() as int) =~= s@);
    acc
}

/// Folds `op` over the items of `rest`, from the left, starting from `acc`.
fn fold_items(acc: Expr, op: Operator, rest: &Vec<ExpressionItem>) -> (r: Expr)
    ensures
        r == logic_fold(acc, op, rest@),
    decreases rest,
{
    let mut acc = acc;
    let ghost start = acc;
    let mut i: usize = 0;
    while i < rest.len()
        invariant
            i <= rest.len(),
            acc == logic_fold(start, op, rest@.subrange(0, i as int)),
        decreases rest.len() - i,
    {
        proof {
            assert(decreases_to!(rest => rest[i as int]));
        }
        let e = rest[i].eval();
        assert(rest@.subrange(0, i + 1).drop_last() =~= rest@.subrange(0, i as int));
        acc = Expr::Binary(Box::new(acc), op, Box::new(e));
        i = i + 1;
    }
    assert(rest@.subrange(0, rest@.len() as int) =~= rest@);
    acc
}

impl ExpressionItem {
    /// Evaluates the item; never fails, and gives [`item_expr`].
    pub fn expr(&self) -> (r: Result<Expr, Error>)
        ensures
            r == Ok::<Expr, Error>(item_expr(*self)),
    {
        Ok(self.eval())
    }

    /// The expression that the item evaluates to.
    pub fn eval(&self) -> (r: Expr)
        ensures
            r == item_expr(*self),
        decreases self,
    {
        match self {
            ExpressionItem::Col(c) => Expr::Column(c.0.clone()),
            ExpressionItem::Match(m) => m.eval(),
            ExpressionItem::And(a) => {
                let first = a.first.eval();
                let second = a.second.eval();
                fold_items(
                    Expr::Binary(Box::new(first), Operator::And, Box::new(second)),
                    Operator::And,
                    &a.rest,
                )
            },
            ExpressionItem::Or(o) => {
                let first = o.first.eval();
                let second = o.second.eval();
                fold_items(
                    Expr::Binary(Box::new(first), Operator::Or, Box::new(second)),
                    Operator::Or,
                    &o.rest,
                )
            },
            ExpressionItem::Not(c) => Expr::Not(Box::new(c.eval())),
            ExpressionItem::Lit(l) => Expr::Literal(Value::Str(l.0.clone())),
            ExpressionItem::Null => Expr::Literal(Value::Null),
            ExpressionItem::Len => Expr::Len,
            ExpressionItem::AsStruct(s) => Expr::AsStruct(eval_chains(&s.0)),
            ExpressionItem::IntRange(r) => Expr::IntRange {
                start: Box::new(Expr::Literal(Value::Int(r.start))),
                end: Box::new(Expr::Len),
                step: r.step,
                dtype: r.dtype.copy(),
            },
            ExpressionItem::ConcatStr(c) => Expr::ConcatStr {
                exprs: eval_chains(&c.columns),
                separator: c.separator.clone(),
                ignore_nulls: c.ignore_nulls,
            },
            ExpressionItem::Element => Expr::Element,
            ExpressionItem::Condition(c) => {
                let condition = c.when.eval();
                let then_expr = c.then_value.eval();
                let otherwise = c.otherwise.eval();
                Expr::When {
                    condition: Box::new(condition),
                    then_expr: Box::new(then_expr),
                    otherwise: Box::new(otherwise),
                }
            },
        }
    }
}

impl ExpressionChain {
    /// Evaluates the chain; never fails, and gives [`chain_expr`].
    pub fn expr(&self) -> (r: Result<Expr, Error>)
        ensures
            r == Ok::<Expr, Error>(chain_expr(*self)),
    {
        Ok(self.eval())
    }

    /// The base expression with each operation applied to the result of the one before.
    pub fn eval(&self) -> (r: Expr)
        ensures
            r == chain_expr(*self),
        decreases self,
    {
        let mut acc = self.expr.eval();
        let ghost base = acc;
        let mut i: usize = 0;
        while i < self.ops.len()
            invariant
                i <= self.ops.len(),
                base == item_expr(self.expr),
                acc == apply_ops(base, self.ops@.subrange(0, i as int)),
            decreases self.ops.len() - i,
        {
            proof {
                assert(decreases_to!(self.ops => self.ops[i as int]));
            }
            acc = self.ops[i].eval_apply(acc);
            assert(self.ops@.subrange(0, i + 1).drop_last() =~= self.ops@.subrange(0, i as int));
            i = i + 1;
        }
        assert(self.ops@.subrange(0, self.ops@.len() as int) =~= self.ops@);
        acc
    }
}

impl Column {
    /// `col(name)`.
    pub fn expr(&self) -> (r: Result<Expr, Error>)
        ensures
            r == Ok::<Expr, Error>(Expr::Column(self.0)),
    {
        Ok(Expr::Column(self.0.clone()))
    }
}

impl Match {
    /// `col(column).str().contains(pattern)`.
    pub fn expr(&self) -> (r: Result<Expr, Error>)
        ensures
            r == Ok::<Expr, Error>(match_expr(self.column, self.pattern)),
    {
        Ok(self.eval())
    }

    /// The regex match of the column.
    pub fn eval(&self) -> (r: Expr)
        ensures
            r == match_expr(self.column, self.pattern),
    {
        Expr::Str(
            Box::new(Expr::Column(self.column.clone())),
            crate::plan::StrFunction::Contains {
                pattern: Box::new(Expr::Literal(Value::Str(self.pattern.clone()))),
                strict: true,
            },
        )
    }
}

/// The operands of a logical combinator, in order.
pub open spec fn operands(first: ExpressionItem, second: ExpressionItem, rest: Seq<ExpressionItem>) -> Seq<
    ExpressionItem,
> {
    seq![first, second].add(rest)
}

/// `s[0] op s[1] op ... op s[n-1]`, grouped from the left.
pub open spec fn left_fold(op: Operator, s: Seq<ExpressionItem>) -> Expr
    recommends
        s.len() >= 1,
    decreases s.len(),
{
    if s.len() <= 1 {
        item_expr(s[0])
    } else {
        binary(left_fold(op, s.drop_last()), op, item_expr(s.last()))
    }
}

/// Splits an operand list into its first two operands and the rest.
fn split_operands(value: Vec<ExpressionItem>) -> (r: Result<
    (ExpressionItem, ExpressionItem, Vec<ExpressionItem>),
    Error,
>)
    ensures
        value@.len() < 2 <==> r is Err,
        r is Err ==> r->Err_0 is Arity,
        r matches Ok((first, second, rest)) ==> operands(first, second, rest@) == value@,
{
    if value.len() < 2 {
        return Err(Error::Arity);
    }
    let ghost all = value@;
    let mut value = value;
    let rest = value.split_off(2);
    let second = value.remove(1);
    let first = value.remove(0);
    assert(operands(first, second, rest@) =~= all);
    Ok((first, second, rest))
}

impl And {
    /// Builds the combinator; fails with [`Error::Arity`] exactly when fewer than two
    /// operands are given.
    pub fn try_from(value: Vec<ExpressionItem>) -> (r: Result<And, Error>)
        ensures
            value@.len() < 2 <==> r is Err,
            r is Err ==> r->Err_0 is Arity,
            r matches Ok(a) ==> operands(*a.first, *a.second, a.rest@) == value@,
    {
        match split_operands(value) {
            Ok((first, second, rest)) => Ok(And { first: Box::new(first), second: Box::new(second), rest }),
            Err(e) => Err(e),
        }
    }

    /// The operands joined by logical AND, from the left.
    pub fn expr(&self) -> (r: Result<Expr, Error>)
        ensures
            r == Ok::<Expr, Error>(left_fold(Operator::And, operands(*self.first, *self.second, self.rest@))),
    {
        proof {
            lemma_logic_fold(*self.first, *self.second, Operator::And, self.rest@);
        }
        let first = self.first.eval();
        let second = self.second.eval();
        Ok(fold_items(Expr::Binary(Box::new(first), Operator::And, Box::new(second)), Operator::And, &self.rest))
    }
}

impl Or {
    /// Builds the combinator; fails with [`Error::Arity`] exactly when fewer than two
    /// operands are given.
    pub fn try_from(value: Vec<ExpressionItem>) -> (r: Result<Or, Error>)
        ensures
            value@.len() < 2 <==> r is Err,
            r is Err ==> r->Err_0 is Arity,
            r matches Ok(o) ==> operands(*o.first, *o.second, o.rest@) == value@,
    {
        match split_operands(value) {
            Ok((first, second, rest)) => Ok(Or { first: Box::new(first), second: Box::new(second), rest }),
            Err(e) => Err(e),
        }
    }

    /// The operands joined by logical OR, from the left.
    pub fn expr(&self) -> (r: Result<Expr, Error>)
        ensures
            r == Ok::<Expr, Error>(left_fold(Operator::Or, operands(*self.first, *self.second, self.rest@))),
    {
        proof {
            lemma_logic_fold(*self.first, *self.second, Operator::Or, self.rest@);
        }
        let first = self.first.eval();
        let second = self.second.eval();
        Ok(fold_items(Expr::Binary(Box::new(first), Operator::Or, Box::new(second)), Operator::Or, &self.rest))
    }
}

/// Folding the first two operands and then the rest is the left fold of all of them.
pub proof fn lemma_logic_fold(
    first: ExpressionItem,
    second: ExpressionItem,
    op: Operator,
    rest: Seq<ExpressionItem>,
)
    ensures
        logic_fold(binary(item_expr(first), op, item_expr(second)), op, rest) == left_fold(
            op,
            operands(first, second, rest),
        ),
    decreases rest.len(),
{
    let all = operands(first, second, rest);
    if rest.len() == 0 {
        assert(all.drop_last() =~= seq![first]);
        assert(left_fold(op, seq![first]) == item_expr(first));
        assert(all.last() == second);
    } else {
        lemma_logic_fold(first, second, op, rest.drop_last());
        assert(all.drop_last() =~= operands(first, second, rest.drop_last()));
        assert(all.last() == rest.last());
    }
}

/// An AND or OR of two or more operands evaluates to the left fold of the operator
/// over the operands in input order.
pub proof fn lemma_combinator_left_fold(item: ExpressionItem)
    requires
        item is And || item is Or,
    ensures
        item matches ExpressionItem::And(a) ==> item_expr(item) == left_fold(
            Operator::And,
            operands(*a.first, *a.second, a.rest@),
        ),
        item matches ExpressionItem::Or(o) ==> item_expr(item) == left_fold(
            Operator::Or,
            operands(*o.first, *o.second, o.rest@),
        ),
{
    match item {
        ExpressionItem::And(a) => lemma_logic_fold(*a.first, *a.second, Operator::And, a.rest@),
        ExpressionItem::Or(o) => lemma_logic_fold(*o.first, *o.second, Operator::Or, o.rest@),
        _ => {},
    }
}

/// A chain without operations evaluates exactly as its base expression.
pub proof fn lemma_empty_chain(c: ExpressionChain)
    requires
        c.ops@.len() == 0,
    ensures
        chain_expr(c) == item_expr(c.expr),
{
}

/// A chain evaluates as its last operation applied to the chain without it, so the
/// operations apply in list order, each to the result of the ones before.
pub proof fn lemma_chain_fold(c: ExpressionChain)
    requires
        c.ops@.len() > 0,
    ensures
        chain_expr(c) == op_apply(c.ops@.last(), apply_ops(item_expr(c.expr), c.ops@.drop_last())),
        chain_expr(c) == apply_ops(item_expr(c.expr), c.ops@),
{
}

/// Applying the operations of `s` and then `o` is applying `o` to the result of `s`.
pub proof fn lemma_apply_ops_push(e: Expr, s: Seq<OpItem>, o: OpItem)
    ensures
        apply_ops(e, s.push(o)) == op_apply(o, apply_ops(e, s)),
        apply_ops(e, Seq::<OpItem>::empty()) == e,
{
    assert(s.push(o).drop_last() =~= s);
}

impl Literal {
    /// `lit(value)`.
    pub fn expr(&self) -> (r: Result<Expr, Error>)
        ensures
            r == Ok::<Expr, Error>(Expr::Literal(Value::Str(self.0))),
    {
        Ok(Expr::Literal(Value::Str(self.0.clone())))
    }
}

impl AsStruct {
    /// The chains as the fields of a struct column.
    pub fn expr(&self) -> (r: Result<Expr, Error>)
        ensures
            r == Ok::<Expr, Error>(Expr::AsStruct(chains_expr(self.0@))),
    {
        Ok(Expr::AsStruct(eval_chains(&self.0)))
    }
}

impl IntRange {
    /// The integers from `start`, one per row, by `step`.
    pub fn expr(&self) -> (r: Result<Expr, Error>)
        ensures
            r == Ok::<Expr, Error>(item_expr(ExpressionItem::IntRange(*self))),
    {
        Ok(
            Expr::IntRange {
                start: Box::new(Expr::Literal(Value::Int(self.start))),
                end: Box::new(Expr::Len),
                step: self.step,
                dtype: self.dtype.copy(),
            },
        )
    }
}

impl ConcatStr {
    /// The chains concatenated as strings.
    pub fn expr(&self) -> (r: Result<Expr, Error>)
        ensures
            r == Ok::<Expr, Error>(item_expr(ExpressionItem::ConcatStr(*self))),
    {
        Ok(
            Expr::ConcatStr {
                exprs: eval_chains(&self.columns),
                separator: self.separator.clone(),
                ignore_nulls: self.ignore_nulls,
            },
        )
    }
}

impl Condition {
    /// `when(..).then(..).otherwise(..)`.
    pub fn expr(&self) -> (r: Result<Expr, Error>)
        ensures
            r == Ok::<Expr, Error>(item_expr(ExpressionItem::Condition(*self))),
    {
        let condition = self.when.eval();
        let then_expr = self.then_value.eval();
        let otherwise = self.otherwise.eval();
        Ok(
            Expr::When {
                condition: Box::new(condition),
                then_expr: Box::new(then_expr),
                otherwise: Box::new(otherwise),
            },
        )
    }
}

} // verus!
