//! Transformations that take a plan and extend it.
use vstd::prelude::*;

use crate::expressions::{chain_expr, chains_expr, eval_chains, match_expr, ExpressionChain, Match};
use crate::plan::{ConcatType, DuplicateKeep, Expr, ExprList, JoinType, Plan, Selector, UnionArgs};
use crate::sources::{loader_plan, Loader};
use crate::utils::Error;

pub use crate::plan::Sort;

verus! {

/// Available transformations that can be used in configuration files.
#[derive(Debug)]
pub enum TransformItem {
    /// Select columns.
    Select(Select),
    /// Drop columns.
    Drop(Drop),
    /// Rename columns.
    Rename(Rename),
    /// Filter rows.
    Filter(Filter),
    /// Extract capture groups of a regex into separate columns.
    Extract(Extract),
    /// Unnest the given struct columns.
    Unnest(Unnest),
    /// Sort the data by one or more columns.
    SortBy(SortBy),
    /// Drop duplicate rows.
    DropDuplicates(DropDuplicates),
    /// Join the dataset with another dataset.
    Join(Join),
    /// Append one computed column.
    SetColumn(SetColumn),
    /// Explode a column with list elements.
    Explode(Explode),
    /// Append computed columns.
    WithColumns(WithColumns),
    /// Run the pipeline up to this point, collecting the result in memory.
    Collect(Collect),
    /// Run aggregations over groups.
    GroupBy(GroupBy),
    /// Concatenate with another dataset.
    Concat(Concat),
}

/// Select a series of expressions.
#[derive(Debug)]
pub struct Select(pub Vec<ExpressionChain>);

/// Drop the selected columns.
#[derive(Debug)]
pub struct Drop(pub Selector);

/// Rename columns.
#[derive(Debug)]
pub enum Rename {
    /// Rename by (old name, new name) pairs.
    Mapping(Vec<(String, String)>),
}

/// Keep the rows for which every expression holds, applied in order.
#[derive(Debug)]
pub struct Filter(pub Vec<ExpressionChain>);

/// Extract capture groups from a regex into separate columns.
#[derive(Debug)]
pub struct Extract {
    pub matcher: Match,
    /// Keep only the rows that match before extracting.
    pub filter: bool,
}

/// Unnest the selected struct columns.
#[derive(Debug)]
pub struct Unnest(pub Selector);

/// Sort the data by one or more columns.
#[derive(Debug)]
pub struct SortBy(pub Vec<Sort>);

/// Filter out duplicate rows.
#[derive(Debug)]
pub struct DropDuplicates {
    /// Columns to check for duplicate values (all columns when absent).
    pub subset: Option<Selector>,
    /// Which duplicate record, if any, to keep.
    pub keep: DuplicateKeep,
}

/// Join the data with data from another loader.
#[derive(Debug)]
pub struct Join {
    /// The right-hand dataset.
    pub right: Loader,
    /// The expressions of the left-hand dataset to join on.
    pub left_on: Vec<ExpressionChain>,
    /// The expressions of the right-hand dataset to join on.
    pub right_on: Vec<ExpressionChain>,
    /// Join method to use.
    pub how: JoinType,
}

/// Append a column with the given expression.
#[derive(Debug)]
pub struct SetColumn(pub ExpressionChain);

/// Append columns with the given expressions.
#[derive(Debug)]
pub struct WithColumns(pub Vec<ExpressionChain>);

/// Explode the selected list columns.
#[derive(Debug)]
pub struct Explode(pub Selector);

/// Materialize the plan up to this point.
#[derive(Debug)]
pub struct Collect {}

/// Group by the key expressions and aggregate.
#[derive(Debug)]
pub struct GroupBy {
    pub exprs: Vec<ExpressionChain>,
    pub agg: Vec<ExpressionChain>,
}

/// Concatenate the data with the data of another loader.
#[derive(Debug)]
pub struct Concat {
    pub loader: Loader,
    pub how: ConcatType,
    pub args: UnionArgs,
}

/// The plan filtered by each chain in turn.
pub open spec fn filter_fold(p: Plan, s: Seq<ExpressionChain>) -> Plan
    decreases s,
{
    if s.len() == 0 {
        p
    } else {
        Plan::Filter(Box::new(filter_fold(p, s.drop_last())), chain_expr(s.last()))
    }
}

/// What applying the transformation to the plan `p` gives.
pub open spec fn transform_plan(t: TransformItem, p: Plan) -> Plan
    decreases t,
{
    match t {
        TransformItem::Select(x) => Plan::Select(Box::new(p), chains_expr(x.0@)),
        TransformItem::Drop(x) => Plan::Drop(Box::new(p), x.0),
        TransformItem::Rename(Rename::Mapping(m)) => Plan::Rename { input: Box::new(p), mapping: m, strict: true },
        TransformItem::Filter(x) => filter_fold(p, x.0@),
        TransformItem::Extract(x) => {
            let filtered = if x.filter {
                Plan::Filter(Box::new(p), match_expr(x.matcher.column, x.matcher.pattern))
            } else {
                p
            };
            Plan::ExtractGroups {
                input: Box::new(filtered),
                column: x.matcher.column,
                pattern: x.matcher.pattern,
            }
        },
        TransformItem::Unnest(x) => Plan::Unnest(Box::new(p), x.0),
        TransformItem::SortBy(x) => Plan::Sort { input: Box::new(p), by: x.0 },
        TransformItem::DropDuplicates(x) => Plan::Unique { input: Box::new(p), subset: x.subset, keep: x.keep },
        TransformItem::Join(x) => Plan::Join {
            left: Box::new(p),
            right: Box::new(loader_plan(x.right)),
            left_on: chains_expr(x.left_on@),
            right_on: chains_expr(x.right_on@),
            how: x.how,
        },
        TransformItem::SetColumn(x) => Plan::Select(
            Box::new(p),
            ExprList::Cons(
                Box::new(Expr::All),
                Box::new(ExprList::Cons(Box::new(chain_expr(x.0)), Box::new(ExprList::Nil))),
            ),
        ),
        TransformItem::Explode(x) => Plan::Explode(Box::new(p), x.0),
        TransformItem::WithColumns(x) => Plan::WithColumns(Box::new(p), chains_expr(x.0@)),
        TransformItem::Collect(_) => Plan::Collect(Box::new(p)),
        TransformItem::GroupBy(x) => Plan::GroupBy {
            input: Box::new(p),
            keys: chains_expr(x.exprs@),
            aggs: chains_expr(x.agg@),
        },
        TransformItem::Concat(x) => Plan::Concat {
            first: Box::new(p),
            second: Box::new(loader_plan(x.loader)),
            mode: x.how,
            args: x.args,
        },
    }
}

/// The transformations applied to `p` in document order.
pub open spec fn transforms_plan(p: Plan, ts: Seq<TransformItem>) -> Plan
    decreases ts,
{
    if ts.len() == 0 {
        p
    } else {
        transform_plan(ts.last(), transforms_plan(p, ts.drop_last()))
    }
}

/// Applies every transformation of `ts` to `p`, in order.
pub fn apply_transforms(p: Plan, ts: Vec<TransformItem>) -> (r: Plan)
    ensures
        r == transforms_plan(p, ts@),
    decreases ts,
{
    let ghost all = ts@;
    let ghost start = p;
    let mut rest = ts;
    let mut acc = p;
    let mut k: usize = 0;
    while rest.len() > 0
        invariant
            k + rest@.len() == all.len(),
            rest@ == all.subrange(k as int, all.len() as int),
            all == ts@,
            all.len() == ts.len(),
            acc == transforms_plan(start, all.subrange(0, k as int)),
        decreases rest.len(),
    {
        let t = rest.remove(0);
        proof {
            assert(t == ts@[k as int]);
            assert(decreases_to!(ts => ts[k as int]));
        }
        acc = t.apply(acc);
        assert(all.subrange(0, k + 1).drop_last() =~= all.subrange(0, k as int));
        assert(rest@ =~= all.subrange(k + 1, all.len() as int));
        k = k + 1;
    }
    assert(all.subrange(0, all.len() as int) =~= all);
    acc
}

/// Filters `p` by each chain of `s` in turn.
fn apply_filters(p: Plan, s: &Vec<ExpressionChain>) -> (r: Plan)
    ensures
        r == filter_fold(p, s@),
{
    let ghost start = p;
    let mut acc = p;
    let mut i: usize = 0;
    while i < s.len()
        invariant
            i <= s.len(),
            acc == filter_fold(start, s@.subrange(0, i as int)),
        decreases s.len() - i,
    {
        let e = s[i].eval();
        assert(s@.subrange(0, i + 1).drop_last() =~= s@.subrange(0, i as int));
        acc = Plan::Filter(Box::new(acc), e);
        i = i + 1;
    }
    assert(s@.subrange(0, s@.len() as int) =~= s@);
    acc
}

impl TransformItem {
    /// Applies the transformation; never fails, and gives [`transform_plan`].
    pub fn transform(self, lf: Plan) -> (r: Result<Plan, Error>)
        ensures
            r == Ok::<Plan, Error>(transform_plan(self, lf)),
    {
        Ok(self.apply(lf))
    }

    /// The plan `lf` with the transformation applied.
    pub fn apply(self, lf: Plan) -> (r: Plan)
        ensures
            r == transform_plan(self, lf),
        decreases self,
    {
        match self {
            TransformItem::Select(x) => Plan::Select(Box::new(lf), eval_chains(&x.0)),
            TransformItem::Drop(x) => Plan::Drop(Box::new(lf), x.0),
            TransformItem::Rename(Rename::Mapping(m)) => Plan::Rename { input: Box::new(lf), mapping: m, strict: true },
            TransformItem::Filter(x) => apply_filters(lf, &x.0),
            TransformItem::Extract(x) => x.extract(lf),
            TransformItem::Unnest(x) => Plan::Unnest(Box::new(lf), x.0),
            TransformItem::SortBy(x) => Plan::Sort { input: Box::new(lf), by: x.0 },
            TransformItem::DropDuplicates(x) => Plan::Unique { input: Box::new(lf), subset: x.subset, keep: x.keep },
            TransformItem::Join(x) => {
                let left_on = eval_chains(&x.left_on);
                let right_on = eval_chains(&x.right_on);
                let right = x.right.build();
                Plan::Join { left: Box::new(lf), right: Box::new(right), left_on, right_on, how: x.how }
            },
            TransformItem::SetColumn(x) => {
                let e = x.0.eval();
                Plan::Select(
                    Box::new(lf),
                    ExprList::Cons(
                        Box::new(Expr::All),
                        Box::new(ExprList::Cons(Box::new(e), Box::new(ExprList::Nil))),
                    ),
                )
            },
            TransformItem::Explode(x) => Plan::Explode(Box::new(lf), x.0),
            TransformItem::WithColumns(x) => Plan::WithColumns(Box::new(lf), eval_chains(&x.0)),
            TransformItem::Collect(_) => Plan::Collect(Box::new(lf)),
            TransformItem::GroupBy(x) => {
                let keys = eval_chains(&x.exprs);
                let aggs = eval_chains(&x.agg);
                Plan::GroupBy { input: Box::new(lf), keys, aggs }
            },
            TransformItem::Concat(x) => {
                let second = x.loader.build();
                Plan::Concat { first: Box::new(lf), second: Box::new(second), mode: x.how, args: x.args }
            },
        }
    }
}

impl Extract {
    /// The rows (filtered first when asked) with the capture groups appended as columns.
    pub fn extract(self, lf: Plan) -> (r: Plan)
        ensures
            r == transform_plan(TransformItem::Extract(self), lf),
    {
        let filtered = if self.filter {
            Plan::Filter(Box::new(lf), self.matcher.eval())
        } else {
            lf
        };
        Plan::ExtractGroups {
            input: Box::new(filtered),
            column: self.matcher.column,
            pattern: self.matcher.pattern,
        }
    }
}

impl Select {
    /// Select the evaluated chains.
    pub fn transform(self, lf: Plan) -> (r: Result<Plan, Error>)
        ensures
            r == Ok::<Plan, Error>(transform_plan(TransformItem::Select(self), lf)),
    {
        Ok(TransformItem::Select(self).apply(lf))
    }
}

impl Drop {
    /// Drop the selected columns.
    pub fn transform(self, lf: Plan) -> (r: Result<Plan, Error>)
        ensures
            r == Ok::<Plan, Error>(transform_plan(TransformItem::Drop(self), lf)),
    {
        Ok(TransformItem::Drop(self).apply(lf))
    }
}

impl Rename {
    /// Rename columns.
    pub fn transform(self, lf: Plan) -> (r: Result<Plan, Error>)
        ensures
            r == Ok::<Plan, Error>(transform_plan(TransformItem::Rename(self), lf)),
    {
        Ok(TransformItem::Rename(self).apply(lf))
    }
}

impl Filter {
    /// Keep the rows for which each chain holds, in order.
    pub fn transform(self, lf: Plan) -> (r: Result<Plan, Error>)
        ensures
            r == Ok::<Plan, Error>(transform_plan(TransformItem::Filter(self), lf)),
    {
        Ok(TransformItem::Filter(self).apply(lf))
    }
}

impl Extract {
    /// Extract capture groups into columns.
    pub fn transform(self, lf: Plan) -> (r: Result<Plan, Error>)
        ensures
            r == Ok::<Plan, Error>(transform_plan(TransformItem::Extract(self), lf)),
    {
        Ok(TransformItem::Extract(self).apply(lf))
    }
}

impl Unnest {
    /// Unnest the selected struct columns.
    pub fn transform(self, lf: Plan) -> (r: Result<Plan, Error>)
        ensures
            r == Ok::<Plan, Error>(transform_plan(TransformItem::Unnest(self), lf)),
    {
        Ok(TransformItem::Unnest(self).apply(lf))
    }
}

impl SortBy {
    /// Sort by the columns.
    pub fn transform(self, lf: Plan) -> (r: Result<Plan, Error>)
        ensures
            r == Ok::<Plan, Error>(transform_plan(TransformItem::SortBy(self), lf)),
    {
        Ok(TransformItem::SortBy(self).apply(lf))
    }
}

impl DropDuplicates {
    /// Drop duplicate rows.
    pub fn transform(self, lf: Plan) -> (r: Result<Plan, Error>)
        ensures
            r == Ok::<Plan, Error>(transform_plan(TransformItem::DropDuplicates(self), lf)),
    {
        Ok(TransformItem::DropDuplicates(self).apply(lf))
    }
}

impl Join {
    /// Join with the right-hand loader's data.
    pub fn transform(self, lf: Plan) -> (r: Result<Plan, Error>)
        ensures
            r == Ok::<Plan, Error>(transform_plan(TransformItem::Join(self), lf)),
    {
        Ok(TransformItem::Join(self).apply(lf))
    }
}

impl SetColumn {
    /// Append the chain as a column.
    pub fn transform(self, lf: Plan) -> (r: Result<Plan, Error>)
        ensures
            r == Ok::<Plan, Error>(transform_plan(TransformItem::SetColumn(self), lf)),
    {
        Ok(TransformItem::SetColumn(self).apply(lf))
    }
}

impl Explode {
    /// Explode the selected list columns.
    pub fn transform(self, lf: Plan) -> (r: Result<Plan, Error>)
        ensures
            r == Ok::<Plan, Error>(transform_plan(TransformItem::Explode(self), lf)),
    {
        Ok(TransformItem::Explode(self).apply(lf))
    }
}

impl WithColumns {
    /// Append the chains as columns.
    pub fn transform(self, lf: Plan) -> (r: Result<Plan, Error>)
        ensures
            r == Ok::<Plan, Error>(transform_plan(TransformItem::WithColumns(self), lf)),
    {
        Ok(TransformItem::WithColumns(self).apply(lf))
    }
}

impl Collect {
    /// Materialize the plan up to here.
    pub fn transform(self, lf: Plan) -> (r: Result<Plan, Error>)
        ensures
            r == Ok::<Plan, Error>(transform_plan(TransformItem::Collect(self), lf)),
    {
        Ok(TransformItem::Collect(self).apply(lf))
    }
}

impl GroupBy {
    /// Group and aggregate.
    pub fn transform(self, lf: Plan) -> (r: Result<Plan, Error>)
        ensures
            r == Ok::<Plan, Error>(transform_plan(TransformItem::GroupBy(self), lf)),
    {
        Ok(TransformItem::GroupBy(self).apply(lf))
    }
}

impl Concat {
    /// Concatenate with the other loader's data.
    pub fn transform(self, lf: Plan) -> (r: Result<Plan, Error>)
        ensures
            r == Ok::<Plan, Error>(transform_plan(TransformItem::Concat(self), lf)),
    {
        Ok(TransformItem::Concat(self).apply(lf))
    }
}

} // verus!
