//! Free-standing condition trees: regex matches combined by AND / OR.
use vstd::prelude::*;

use crate::expressions::{binary, match_expr};
use crate::plan::{Expr, Operator, StrFunction, Value};
use crate::utils::Error;

verus! {

/// A condition that evaluates to a boolean column expression.
#[derive(Debug)]
pub enum Condition {
    /// A regex match against a column.
    Match(Match),
    /// Logical AND of two or more conditions.
    And(And),
    /// Logical OR of two or more conditions.
    Or(Or),
}

/// Match a column against a regex.
#[derive(Debug)]
pub struct Match {
    pub column: String,
    pub pattern: String,
}

/// Logical AND over two or more conditions; the operand count is part of the shape.
#[derive(Debug)]
pub struct And {
    pub first: Box<Condition>,
    pub second: Box<Condition>,
    pub rest: Vec<Condition>,
}

/// Logical OR over two or more conditions; the operand count is part of the shape.
#[derive(Debug)]
pub struct Or {
    pub first: Box<Condition>,
    pub second: Box<Condition>,
    pub rest: Vec<Condition>,
}

/// What a condition evaluates to.
pub open spec fn condition_expr(c: Condition) -> Expr
    decreases c,
{
    match c {
        Condition::Match(m) => match_expr(m.column, m.pattern),
        Condition::And(a) => condition_fold(
            binary(condition_expr(*a.first), Operator::And, condition_expr(*a.second)),
            Operator::And,
            a.rest@,
        ),
        Condition::Or(o) => condition_fold(
            binary(condition_expr(*o.first), Operator::Or, condition_expr(*o.second)),
            Operator::Or,
            o.rest@,
        ),
    }
}

/// `acc op s[0] op s[1] ...`, folded from the left.
pub open spec fn condition_fold(acc: Expr, op: Operator, s: Seq<Condition>) -> Expr
    decreases s,
{
    if s.len() == 0 {
        acc
    } else {
        binary(condition_fold(acc, op, s.drop_last()), op, condition_expr(s.last()))
    }
}

/// `s[0] op s[1] op ... op s[n-1]`, grouped from the left.
pub open spec fn condition_left_fold(op: Operator, s: Seq<Condition>) -> Expr
    recommends
        s.len() >= 1,
    decreases s.len(),
{
    if s.len() <= 1 {
        condition_expr(s[0])
    } else {
        binary(condition_left_fold(op, s.drop_last()), op, condition_expr(s.last()))
    }
}

/// The operands of a combinator, in order.
pub open spec fn condition_operands(first: Condition, second: Condition, rest: Seq<Condition>) -> Seq<
    Condition,
> {
    seq![first, second].add(rest)
}

/// Splits an operand list into its first two operands and the rest.
fn split_conditions(value: Vec<Condition>) -> (r: Result<(Condition, Condition, Vec<Condition>), Error>)
    ensures
        value@.len() < 2 <==> r is Err,
        r is Err ==> r->Err_0 is Arity,
        r matches Ok((first, second, rest)) ==> condition_operands(first, second, rest@) == value@,
{
    if value.len() < 2 {
        return Err(Error::Arity);
    }
    let ghost all = value@;
    let mut value = value;
    let rest = value.split_off(2);
    let second = value.remove(1);
    let first = value.remove(0);
    assert(condition_operands(first, second, rest@) =~= all);
    Ok((first, second, rest))
}

/// Folds `op` over `rest`, from the left, starting from `acc`.
fn fold_conditions(acc: Expr, op: Operator, rest: &Vec<Condition>) -> (r: Expr)
    ensures
        r == condition_fold(acc, op, rest@),
    decreases rest,
{
    let mut acc = acc;
    let ghost start = acc;
    let mut i: usize = 0;
    while i < rest.len()
        invariant
            i <= rest.len(),
            acc == condition_fold(start, op, rest@.subrange(0, i as int)),
        decreases rest.len() - i,
    {
        proof {
            assert(decreases_to!(rest => rest[i as int]));
        }
        let e = rest[i].eval();
        assert(rest@.subrange(0, i + 1).drop_last() =~= rest@.subrange(0, i as int));
        acc = Expr::Binary(Box::new(acc), op, Box::new(e));
        i = i + 1;
    }
    assert(rest@.subrange(0, rest@.len() as int) =~= rest@);
    acc
}

impl Condition {
    /// Evaluates the condition; never fails, and gives [`condition_expr`].
    pub fn expr(&self) -> (r: Result<Expr, Error>)
        ensures
            r == Ok::<Expr, Error>(condition_expr(*self)),
    {
        Ok(self.eval())
    }

    /// The expression that the condition evaluates to.
    pub fn eval(&self) -> (r: Expr)
        ensures
            r == condition_expr(*self),
        decreases self,
    {
        match self {
            Condition::Match(m) => m.eval(),
            Condition::And(a) => {
                let first = a.first.eval();
                let second = a.second.eval();
                fold_conditions(
                    Expr::Binary(Box::new(first), Operator::And, Box::new(second)),
                    Operator::And,
                    &a.rest,
                )
            },
            Condition::Or(o) => {
                let first = o.first.eval();
                let second = o.second.eval();
                fold_conditions(
                    Expr::Binary(Box::new(first), Operator::Or, Box::new(second)),
                    Operator::Or,
                    &o.rest,
                )
            },
        }
    }
}

impl Match {
    /// `col(column).str().contains(pattern)`.
    pub fn expr(&self) -> (r: Result<Expr, Error>)
        ensures
            r == Ok::<Expr, Error>(match_expr(self.column, self.pattern)),
    {
        Ok(self.eval())
    }

    /// The regex match of the column.
    pub fn eval(&self) -> (r: Expr)
        ensures
            r == match_expr(self.column, self.pattern),
    {
        Expr::Str(
            Box::new(Expr::Column(self.column.clone())),
            StrFunction::Contains {
                pattern: Box::new(Expr::Literal(Value::Str(self.pattern.clone()))),
                strict: true,
            },
        )
    }
}

impl And {
    /// Builds the combinator; fails with [`Error::Arity`] exactly when fewer than two
    /// conditions are given.
    pub fn try_from(value: Vec<Condition>) -> (r: Result<And, Error>)
        ensures
            value@.len() < 2 <==> r is Err,
            r is Err ==> r->Err_0 is Arity,
            r matches Ok(a) ==> condition_operands(*a.first, *a.second, a.rest@) == value@,
    {
        match split_conditions(value) {
            Ok((first, second, rest)) => Ok(And { first: Box::new(first), second: Box::new(second), rest }),
            Err(e) => Err(e),
        }
    }

    /// The conditions joined by logical AND, from the left.
    pub fn expr(&self) -> (r: Result<Expr, Error>)
        ensures
            r == Ok::<Expr, Error>(
                condition_left_fold(Operator::And, condition_operands(*self.first, *self.second, self.rest@)),
            ),
    {
        proof {
            lemma_condition_fold(*self.first, *self.second, Operator::And, self.rest@);
        }
        let first = self.first.eval();
        let second = self.second.eval();
        Ok(fold_conditions(Expr::Binary(Box::new(first), Operator::And, Box::new(second)), Operator::And, &self.rest))
    }
}

impl Or {
    /// Builds the combinator; fails with [`Error::Arity`] exactly when fewer than two
    /// conditions are given.
    pub fn try_from(value: Vec<Condition>) -> (r: Result<Or, Error>)
        ensures
            value@.len() < 2 <==> r is Err,
            r is Err ==> r->Err_0 is Arity,
            r matches Ok(o) ==> condition_operands(*o.first, *o.second, o.rest@) == value@,
    {
        match split_conditions(value) {
            Ok((first, second, rest)) => Ok(Or { first: Box::new(first), second: Box::new(second), rest }),
            Err(e) => Err(e),
        }
    }

    /// The conditions joined by logical OR, from the left.
    pub fn expr(&self) -> (r: Result<Expr, Error>)
        ensures
            r == Ok::<Expr, Error>(
                condition_left_fold(Operator::Or, condition_operands(*self.first, *self.second, self.rest@)),
            ),
    {
        proof {
            lemma_condition_fold(*self.first, *self.second, Operator::Or, self.rest@);
        }
        let first = self.first.eval();
        let second = self.second.eval();
        Ok(fold_conditions(Expr::Binary(Box::new(first), Operator::Or, Box::new(second)), Operator::Or, &self.rest))
    }
}

/// An AND or OR condition evaluates to the left fold of its operator over its
/// operands in input order.
pub proof fn lemma_condition_fold(first: Condition, second: Condition, op: Operator, rest: Seq<Condition>)
    ensures
        condition_fold(binary(condition_expr(first), op, condition_expr(second)), op, rest)
            == condition_left_fold(op, condition_operands(first, second, rest)),
    decreases rest.len(),
{
    let all = condition_operands(first, second, rest);
    if rest.len() == 0 {
        assert(all.drop_last() =~= seq![first]);
        assert(condition_left_fold(op, seq![first]) == condition_expr(first));
        assert(all.last() == second);
    } else {
        lemma_condition_fold(first, second, op, rest.drop_last());
        assert(all.drop_last() =~= condition_operands(first, second, rest.drop_last()));
        assert(all.last() == rest.last());
    }
}

} // verus!
