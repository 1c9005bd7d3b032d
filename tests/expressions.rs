use retl::conditions;
use retl::expressions::{
    And, AsStruct, Column, Condition, ConcatStr, ExpressionChain, ExpressionItem, IntRange,
    Literal, Match, Or,
};
use retl::ops::{self, OpItem, Str};
use retl::plan::{Ambiguous, Expr, ExprList, ListFunction, Operator, StrFunction, Value};
use retl::utils::{DataType, Error};

fn col(name: &str) -> ExpressionItem {
    ExpressionItem::Col(Column(name.to_string()))
}

fn chain(expr: ExpressionItem, ops: Vec<OpItem>) -> ExpressionChain {
    ExpressionChain { expr, ops }
}

fn ecol(name: &str) -> Expr {
    Expr::Column(name.to_string())
}

fn bin(a: Expr, op: Operator, b: Expr) -> Expr {
    Expr::Binary(Box::new(a), op, Box::new(b))
}

fn matches_expr(column: &str, pattern: &str) -> Expr {
    Expr::Str(
        Box::new(ecol(column)),
        StrFunction::Contains {
            pattern: Box::new(Expr::Literal(Value::Str(pattern.to_string()))),
            strict: true,
        },
    )
}

fn list(items: Vec<Expr>) -> ExprList {
    let mut l = ExprList::Nil;
    for e in items.into_iter().rev() {
        l = ExprList::Cons(Box::new(e), Box::new(l));
    }
    l
}

#[test]
fn and_with_fewer_than_two_operands_is_rejected() {
    assert!(matches!(And::try_from(vec![]), Err(Error::Arity)));
    assert!(matches!(And::try_from(vec![col("a")]), Err(Error::Arity)));
    assert!(matches!(Or::try_from(vec![]), Err(Error::Arity)));
    assert!(matches!(Or::try_from(vec![col("a")]), Err(Error::Arity)));
}

#[test]
fn and_of_three_is_a_left_fold_in_input_order() {
    let and = And::try_from(vec![col("a"), col("b"), col("c")]).unwrap();
    let expected = bin(bin(ecol("a"), Operator::And, ecol("b")), Operator::And, ecol("c"));
    assert_eq!(and.expr().unwrap(), expected);
    let item = ExpressionItem::And(and);
    assert_eq!(item.expr().unwrap(), expected);
}

#[test]
fn or_of_two_combines_both() {
    let or = Or::try_from(vec![col("x"), col("y")]).unwrap();
    assert_eq!(or.expr().unwrap(), bin(ecol("x"), Operator::Or, ecol("y")));
}

#[test]
fn and_of_two_matches_scenario() {
    let item = ExpressionItem::And(
        And::try_from(vec![
            ExpressionItem::Match(Match { column: "a".to_string(), pattern: "foo".to_string() }),
            ExpressionItem::Match(Match { column: "b".to_string(), pattern: "bar".to_string() }),
        ])
        .unwrap(),
    );
    assert_eq!(
        item.expr().unwrap(),
        bin(matches_expr("a", "foo"), Operator::And, matches_expr("b", "bar"))
    );
}

#[test]
fn standalone_conditions_check_arity_and_fold() {
    let m = |c: &str, p: &str| {
        conditions::Condition::Match(conditions::Match {
            column: c.to_string(),
            pattern: p.to_string(),
        })
    };
    assert!(matches!(conditions::And::try_from(vec![m("a", "x")]), Err(Error::Arity)));
    assert!(matches!(conditions::Or::try_from(vec![]), Err(Error::Arity)));
    let or = conditions::Or::try_from(vec![m("a", "x"), m("b", "y"), m("c", "z")]).unwrap();
    assert_eq!(
        or.expr().unwrap(),
        bin(
            bin(matches_expr("a", "x"), Operator::Or, matches_expr("b", "y")),
            Operator::Or,
            matches_expr("c", "z")
        )
    );
    let and = conditions::Condition::And(conditions::And::try_from(vec![m("a", "foo"), m("b", "bar")]).unwrap());
    assert_eq!(
        and.expr().unwrap(),
        bin(matches_expr("a", "foo"), Operator::And, matches_expr("b", "bar"))
    );
}

#[test]
fn chain_without_ops_is_its_base() {
    let c = chain(ExpressionItem::Lit(Literal("v".to_string())), vec![]);
    assert_eq!(c.expr().unwrap(), ExpressionItem::Lit(Literal("v".to_string())).expr().unwrap());
    assert_eq!(c.expr().unwrap(), Expr::Literal(Value::Str("v".to_string())));
}

#[test]
fn chain_applies_ops_in_order() {
    let c = chain(
        col("a"),
        vec![
            OpItem::Alias(ops::Alias("b".to_string())),
            OpItem::IsNull(ops::IsNull(false)),
            OpItem::Cast(ops::Cast(DataType("String".to_string()))),
        ],
    );
    let expected = Expr::Cast(
        Box::new(Expr::IsNotNull(Box::new(Expr::Alias(Box::new(ecol("a")), "b".to_string())))),
        DataType("String".to_string()),
    );
    assert_eq!(c.expr().unwrap(), expected);
}

#[test]
fn op_or_folds_with_logical_or() {
    let op = ops::Or(vec![chain(col("b"), vec![]), chain(col("c"), vec![])]);
    assert_eq!(
        op.apply(ecol("a")).unwrap(),
        bin(bin(ecol("a"), Operator::Or, ecol("b")), Operator::Or, ecol("c"))
    );
    let op = ops::And(vec![]);
    assert_eq!(op.apply(ecol("a")).unwrap(), ecol("a"));
}

#[test]
fn comparison_and_arithmetic_ops() {
    let one = || chain(ExpressionItem::Lit(Literal("1".to_string())), vec![]);
    let lit1 = || Expr::Literal(Value::Str("1".to_string()));
    assert_eq!(ops::Eq(one()).apply(ecol("a")).unwrap(), bin(ecol("a"), Operator::Eq, lit1()));
    assert_eq!(OpItem::Neq(one()).apply(ecol("a")).unwrap(), bin(ecol("a"), Operator::NotEq, lit1()));
    assert_eq!(OpItem::Gt(one()).apply(ecol("a")).unwrap(), bin(ecol("a"), Operator::Gt, lit1()));
    assert_eq!(OpItem::Lt(one()).apply(ecol("a")).unwrap(), bin(ecol("a"), Operator::Lt, lit1()));
    assert_eq!(ops::GtEq(one()).apply(ecol("a")).unwrap(), bin(ecol("a"), Operator::GtEq, lit1()));
    assert_eq!(ops::LtEq(one()).apply(ecol("a")).unwrap(), bin(ecol("a"), Operator::LtEq, lit1()));
    assert_eq!(ops::Add(one()).apply(ecol("a")).unwrap(), bin(ecol("a"), Operator::Plus, lit1()));
    assert_eq!(ops::Sub(one()).apply(ecol("a")).unwrap(), bin(ecol("a"), Operator::Minus, lit1()));
    assert_eq!(ops::Mul(one()).apply(ecol("a")).unwrap(), bin(ecol("a"), Operator::Multiply, lit1()));
    assert_eq!(ops::Div(one()).apply(ecol("a")).unwrap(), bin(ecol("a"), Operator::Divide, lit1()));
    assert_eq!(
        ops::FillNull(one()).apply(ecol("a")).unwrap(),
        Expr::FillNull(Box::new(ecol("a")), Box::new(lit1()))
    );
    assert_eq!(ops::DropNull {}.apply(ecol("a")).unwrap(), Expr::DropNulls(Box::new(ecol("a"))));
    assert_eq!(ops::IsNull(true).apply(ecol("a")).unwrap(), Expr::IsNull(Box::new(ecol("a"))));
}

#[test]
fn string_ops() {
    assert_eq!(
        ops::Contains("x+".to_string()).apply(ecol("a")).unwrap(),
        matches_expr("a", "x+")
    );
    assert_eq!(
        ops::ExtractGroups("(?<y>\\d+)".to_string()).apply(ecol("a")).unwrap(),
        Expr::Str(Box::new(ecol("a")), StrFunction::ExtractGroups("(?<y>\\d+)".to_string()))
    );
    assert_eq!(
        Str::Zfill(5).apply(ecol("a")).unwrap(),
        Expr::Str(Box::new(ecol("a")), StrFunction::Zfill(Box::new(Expr::Literal(Value::UInt(5)))))
    );
    assert_eq!(
        Str::ReplaceAll {
            pat: "-".to_string(),
            value: chain(ExpressionItem::Lit(Literal("_".to_string())), vec![]),
            literal: true,
        }
        .apply(ecol("a"))
        .unwrap(),
        Expr::Str(
            Box::new(ecol("a")),
            StrFunction::ReplaceAll {
                pattern: Box::new(Expr::Literal(Value::Str("-".to_string()))),
                value: Box::new(Expr::Literal(Value::Str("_".to_string()))),
                literal: true,
            }
        )
    );
    assert_eq!(
        Str::Len.apply(ecol("a")).unwrap(),
        Expr::Str(Box::new(ecol("a")), StrFunction::LenChars)
    );
}

#[test]
fn list_and_struct_ops() {
    let pred = chain(ExpressionItem::Element, vec![OpItem::IsNull(ops::IsNull(false))]);
    assert_eq!(
        ops::List::Filter(pred).apply(ecol("a")).unwrap(),
        Expr::List(
            Box::new(ecol("a")),
            ListFunction::Eval(Box::new(Expr::Filter(
                Box::new(Expr::Element),
                Box::new(Expr::IsNotNull(Box::new(Expr::Element)))
            )))
        )
    );
    assert_eq!(
        ops::Struct::Field("f".to_string()).apply(ecol("s")).unwrap(),
        Expr::Struct(Box::new(ecol("s")), retl::plan::StructFunction::FieldByName("f".to_string()))
    );
}

#[test]
fn ambiguous_names() {
    assert_eq!(Ambiguous::Raise.expr().unwrap(), Expr::Literal(Value::Str("raise".to_string())));
    assert_eq!(Ambiguous::Latest.expr().unwrap(), Expr::Literal(Value::Str("latest".to_string())));
}

#[test]
fn composite_expressions() {
    let s = AsStruct(vec![chain(col("a"), vec![]), chain(col("b"), vec![])]);
    assert_eq!(s.expr().unwrap(), Expr::AsStruct(list(vec![ecol("a"), ecol("b")])));
    let c = ConcatStr {
        columns: vec![chain(col("a"), vec![]), chain(col("b"), vec![])],
        separator: "-".to_string(),
        ignore_nulls: true,
    };
    assert_eq!(
        c.expr().unwrap(),
        Expr::ConcatStr { exprs: list(vec![ecol("a"), ecol("b")]), separator: "-".to_string(), ignore_nulls: true }
    );
    let r = IntRange { start: 3, step: 2, dtype: DataType("UInt32".to_string()) };
    assert_eq!(
        r.expr().unwrap(),
        Expr::IntRange {
            start: Box::new(Expr::Literal(Value::Int(3))),
            end: Box::new(Expr::Len),
            step: 2,
            dtype: DataType("UInt32".to_string()),
        }
    );
    let cond = Condition {
        when: Box::new(chain(col("a"), vec![])),
        then_value: Box::new(chain(ExpressionItem::Null, vec![])),
        otherwise: Box::new(chain(ExpressionItem::Len, vec![])),
    };
    assert_eq!(
        cond.expr().unwrap(),
        Expr::When {
            condition: Box::new(ecol("a")),
            then_expr: Box::new(Expr::Literal(Value::Null)),
            otherwise: Box::new(Expr::Len),
        }
    );
    let not = ExpressionItem::Not(Box::new(chain(col("a"), vec![])));
    assert_eq!(not.expr().unwrap(), Expr::Not(Box::new(ecol("a"))));
    assert_eq!(Column("z".to_string()).expr().unwrap(), ecol("z"));
}
