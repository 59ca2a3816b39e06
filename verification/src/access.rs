//! Access expressions and their reduction under the context of a request.

use vstd::prelude::*;
use crate::column_path::PhysicalColumnPath;
use crate::error::{ExecutionErrorView, PostgresExecutionError};
use crate::predicate::{
    and_view, not_view, or_view, AbstractPredicate, ColumnPath, ColumnPathView, CompareOp,
    PredicateView, SqlParam, SqlParamView,
};
use crate::text::str_eq;
use crate::value::{const_field_views, const_get, lookup, ConstValue, ConstView, Number, NumberView};

verus! {

/// What is known of the caller of a request: named values, resolved before planning.
#[derive(Debug, PartialEq, Eq)]
pub struct RequestContext {
    pub values: Vec<(String, ConstValue)>,
}

impl View for RequestContext {
    type V = Seq<(Seq<char>, ConstView)>;

    open spec fn view(&self) -> Seq<(Seq<char>, ConstView)> {
        const_field_views(self.values@)
    }
}

/// One side of a comparison in an access expression.
#[derive(Debug, PartialEq, Eq)]
pub enum AccessPrimitive {
    /// A column of the row under test.
    Column(PhysicalColumnPath),
    /// A value of the request's context, by name.
    Context(String),
    /// A constant.
    Literal(ConstValue),
}

/// The comparison of a relational access expression.
#[derive(Clone, Copy, Debug, PartialEq, Eq, Structural)]
pub enum RelationalOp {
    Eq,
    Neq,
    Lt,
    Lte,
    Gt,
    Gte,
}

/// A declarative rule that says who may touch a row or a field.
#[derive(Debug, PartialEq, Eq)]
pub enum AccessPredicateExpression {
    BooleanLiteral(bool),
    Relational(RelationalOp, AccessPrimitive, AccessPrimitive),
    And(Box<AccessPredicateExpression>, Box<AccessPredicateExpression>),
    Or(Box<AccessPredicateExpression>, Box<AccessPredicateExpression>),
    Not(Box<AccessPredicateExpression>),
}

/// The value of a context entry, `Null` where the context has none of that name.
pub open spec fn context_value(context: Seq<(Seq<char>, ConstView)>, name: Seq<char>) -> ConstView {
    match lookup(context, name) {
        Some(v) => v,
        None => ConstView::Null,
    }
}

/// The constant that a side stands for under a context, if it is no column.
pub open spec fn constant_of(p: AccessPrimitive, context: Seq<(Seq<char>, ConstView)>) -> Option<
    ConstView,
> {
    match p {
        AccessPrimitive::Column(_) => None,
        AccessPrimitive::Context(name) => Some(context_value(context, name@)),
        AccessPrimitive::Literal(v) => Some(v@),
    }
}

/// The side of a row predicate that a side of an access expression becomes.
pub open spec fn operand_view(p: AccessPrimitive, context: Seq<(Seq<char>, ConstView)>) -> ColumnPathView {
    match p {
        AccessPrimitive::Column(path) => ColumnPathView::Physical(path@),
        AccessPrimitive::Context(name) => ColumnPathView::Param(
            SqlParamView::Value(context_value(context, name@)),
        ),
        AccessPrimitive::Literal(v) => ColumnPathView::Param(SqlParamView::Value(v@)),
    }
}

/// Whether a value is a scalar: null, a number, a string, a boolean or an enum value.
pub open spec fn is_scalar(v: ConstView) -> bool {
    v is Null || v is Number || v is String || v is Boolean || v is Enum
}

/// The integer that a value is, if it is one.
pub open spec fn integer_of(v: ConstView) -> Option<int> {
    match v {
        ConstView::Number(NumberView::PosInt(u)) => Some(u as int),
        ConstView::Number(NumberView::NegInt(i)) => Some(i as int),
        _ => None,
    }
}

/// The outcome of comparing two constants. Equality is defined between
/// scalars, order between integers; every other comparison is false.
pub open spec fn compare_constants(op: RelationalOp, l: ConstView, r: ConstView) -> bool {
    match op {
        RelationalOp::Eq => is_scalar(l) && is_scalar(r) && l == r,
        RelationalOp::Neq => is_scalar(l) && is_scalar(r) && l != r,
        RelationalOp::Lt => integer_of(l) is Some && integer_of(r) is Some && integer_of(
            l,
        ).unwrap() < integer_of(r).unwrap(),
        RelationalOp::Lte => integer_of(l) is Some && integer_of(r) is Some && integer_of(
            l,
        ).unwrap() <= integer_of(r).unwrap(),
        RelationalOp::Gt => integer_of(l) is Some && integer_of(r) is Some && integer_of(
            l,
        ).unwrap() > integer_of(r).unwrap(),
        RelationalOp::Gte => integer_of(l) is Some && integer_of(r) is Some && integer_of(
            l,
        ).unwrap() >= integer_of(r).unwrap(),
    }
}

/// The comparison of a row predicate that a relational operator becomes.
pub open spec fn compare_op_of(op: RelationalOp) -> CompareOp {
    match op {
        RelationalOp::Eq => CompareOp::Eq,
        RelationalOp::Neq => CompareOp::Neq,
        RelationalOp::Lt => CompareOp::Lt,
        RelationalOp::Lte => CompareOp::Lte,
        RelationalOp::Gt => CompareOp::Gt,
        RelationalOp::Gte => CompareOp::Gte,
    }
}

/// The constant predicate for a boolean.
pub open spec fn constant_predicate(b: bool) -> PredicateView {
    if b {
        PredicateView::True
    } else {
        PredicateView::False
    }
}

/// What an access expression reduces to under a context: `True`, `False`, or
/// a predicate over the columns of the row. A comparison between constants is
/// decided; one that involves a column is left for the database.
pub open spec fn solved(e: AccessPredicateExpression, context: Seq<(Seq<char>, ConstView)>) -> PredicateView
    decreases e,
{
    match e {
        AccessPredicateExpression::BooleanLiteral(b) => constant_predicate(b),
        AccessPredicateExpression::Relational(op, l, r) => {
            match (constant_of(l, context), constant_of(r, context)) {
                (Some(lv), Some(rv)) => constant_predicate(compare_constants(op, lv, rv)),
                _ => PredicateView::Compare(
                    compare_op_of(op),
                    operand_view(l, context),
                    operand_view(r, context),
                ),
            }
        },
        AccessPredicateExpression::And(l, r) => and_view(solved(*l, context), solved(*r, context)),
        AccessPredicateExpression::Or(l, r) => or_view(solved(*l, context), solved(*r, context)),
        AccessPredicateExpression::Not(inner) => not_view(solved(*inner, context)),
    }
}

/// Whether two numbers are the same.
fn number_eq(a: &Number, b: &Number) -> (r: bool)
    ensures
        r == (a@ == b@),
{
    match (a, b) {
        (Number::PosInt(x), Number::PosInt(y)) => *x == *y,
        (Number::NegInt(x), Number::NegInt(y)) => *x == *y,
        (Number::Float(x), Number::Float(y)) => str_eq(x.as_str(), y.as_str()),
        _ => false,
    }
}

/// Whether two values are scalars and the same.
fn scalar_eq(a: &ConstValue, b: &ConstValue) -> (r: bool)
    ensures
        r == (is_scalar(a@) && is_scalar(b@) && a@ == b@),
{
    match (a, b) {
        (ConstValue::Null, ConstValue::Null) => true,
        (ConstValue::Number(x), ConstValue::Number(y)) => number_eq(x, y),
        (ConstValue::String(x), ConstValue::String(y)) => str_eq(x.as_str(), y.as_str()),
        (ConstValue::Boolean(x), ConstValue::Boolean(y)) => *x == *y,
        (ConstValue::Enum(x), ConstValue::Enum(y)) => str_eq(x.as_str(), y.as_str()),
        _ => false,
    }
}

/// Whether a value is a scalar.
fn scalar(a: &ConstValue) -> (r: bool)
    ensures
        r == is_scalar(a@),
{
    match a {
        ConstValue::Null => true,
        ConstValue::Number(_) => true,
        ConstValue::String(_) => true,
        ConstValue::Boolean(_) => true,
        ConstValue::Enum(_) => true,
        _ => false,
    }
}

/// The integer that a value is, if it is one.
fn integer(a: &ConstValue) -> (r: Option<i128>)
    ensures
        match r {
            Some(w) => integer_of(a@) == Some(w as int),
            None => integer_of(a@).is_none(),
        },
{
    match a {
        ConstValue::Number(Number::PosInt(u)) => Some(*u as i128),
        ConstValue::Number(Number::NegInt(i)) => Some(*i as i128),
        _ => None,
    }
}

/// Compares two constants.
fn compare(op: RelationalOp, l: &ConstValue, r: &ConstValue) -> (res: bool)
    ensures
        res == compare_constants(op, l@, r@),
{
    match op {
        RelationalOp::Eq => scalar_eq(l, r),
        RelationalOp::Neq => {
            let both = scalar(l) && scalar(r);
            let same = scalar_eq(l, r);
            both && !same
        },
        _ => {
            let li = integer(l);
            let ri = integer(r);
            match (li, ri) {
                (Some(a), Some(b)) => match op {
                    RelationalOp::Lt => a < b,
                    RelationalOp::Lte => a <= b,
                    RelationalOp::Gt => a > b,
                    _ => a >= b,
                },
                _ => false,
            }
        },
    }
}

/// The constant that a side stands for under the context, if it is no column.
fn constant(p: &AccessPrimitive, context: &RequestContext) -> (r: Option<ConstValue>)
    ensures
        match r {
            Some(v) => constant_of(*p, context@) == Some(v@),
            None => constant_of(*p, context@).is_none(),
        },
{
    match p {
        AccessPrimitive::Column(_) => None,
        AccessPrimitive::Context(name) => match const_get(&context.values, name.as_str()) {
            Some(v) => Some(v.duplicate()),
            None => Some(ConstValue::Null),
        },
        AccessPrimitive::Literal(v) => Some(v.duplicate()),
    }
}

/// The side of a row predicate that a side of an access expression becomes.
fn operand(p: &AccessPrimitive, context: &RequestContext) -> (r: ColumnPath)
    ensures
        r@ == operand_view(*p, context@),
{
    match p {
        AccessPrimitive::Column(path) => ColumnPath::Physical(path.duplicate()),
        AccessPrimitive::Context(name) => match const_get(&context.values, name.as_str()) {
            Some(v) => ColumnPath::Param(SqlParam::Value(v.duplicate())),
            None => ColumnPath::Param(SqlParam::Value(ConstValue::Null)),
        },
        AccessPrimitive::Literal(v) => ColumnPath::Param(SqlParam::Value(v.duplicate())),
    }
}

fn compare_op(op: RelationalOp) -> (r: CompareOp)
    ensures
        r == compare_op_of(op),
{
    match op {
        RelationalOp::Eq => CompareOp::Eq,
        RelationalOp::Neq => CompareOp::Neq,
        RelationalOp::Lt => CompareOp::Lt,
        RelationalOp::Lte => CompareOp::Lte,
        RelationalOp::Gt => CompareOp::Gt,
        RelationalOp::Gte => CompareOp::Gte,
    }
}

/// Reduces an access expression under the context of a request.
pub fn solve(expression: &AccessPredicateExpression, context: &RequestContext) -> (r:
    AbstractPredicate)
    ensures
        r@ == solved(*expression, context@),
    decreases expression,
{
    match expression {
        AccessPredicateExpression::BooleanLiteral(b) => {
            if *b {
                AbstractPredicate::True
            } else {
                AbstractPredicate::False
            }
        },
        AccessPredicateExpression::Relational(op, l, r) => {
            let lc = constant(l, context);
            let rc = constant(r, context);
            match (lc, rc) {
                (Some(lv), Some(rv)) => {
                    if compare(*op, &lv, &rv) {
                        AbstractPredicate::True
                    } else {
                        AbstractPredicate::False
                    }
                },
                _ => AbstractPredicate::Compare(
                    compare_op(*op),
                    operand(l, context),
                    operand(r, context),
                ),
            }
        },
        AccessPredicateExpression::And(l, r) => AbstractPredicate::and(
            solve(l, context),
            solve(r, context),
        ),
        AccessPredicateExpression::Or(l, r) => AbstractPredicate::or(
            solve(l, context),
            solve(r, context),
        ),
        AccessPredicateExpression::Not(inner) => AbstractPredicate::not(solve(inner, context)),
    }
}

/// What a read rule allows under a context: a refusal where it reduces to
/// `False`, otherwise the predicate that the rows must meet.
pub open spec fn retrieve_access(
    expression: AccessPredicateExpression,
    context: Seq<(Seq<char>, ConstView)>,
) -> Result<PredicateView, ExecutionErrorView> {
    if solved(expression, context) is False {
        Err(ExecutionErrorView::Authorization)
    } else {
        Ok(solved(expression, context))
    }
}

/// The view of the outcome of a function that gives a predicate or fails.
pub open spec fn predicate_result_view(
    r: Result<AbstractPredicate, PostgresExecutionError>,
) -> Result<PredicateView, ExecutionErrorView> {
    match r {
        Ok(p) => Ok(p@),
        Err(e) => Err(e@),
    }
}

/// Evaluates a read rule: fails with `Authorization` where nothing may be
/// read, and otherwise gives the predicate to restrict the rows by.
pub fn check_retrieve_access(expression: &AccessPredicateExpression, context: &RequestContext) -> (r:
    Result<AbstractPredicate, PostgresExecutionError>)
    ensures
        predicate_result_view(r) == retrieve_access(*expression, context@),
{
    let predicate = solve(expression, context);
    if predicate.is_false() {
        Err(PostgresExecutionError::Authorization)
    } else {
        Ok(predicate)
    }
}

/// A rule that is a boolean literal reduces to that constant under every context.
pub proof fn lemma_literal_is_decided(b: bool, context: Seq<(Seq<char>, ConstView)>)
    ensures
        solved(AccessPredicateExpression::BooleanLiteral(b), context) == constant_predicate(b),
{
}

/// A rule that names no column reduces to `True` or `False`.
pub open spec fn column_free(e: AccessPredicateExpression) -> bool
    decreases e,
{
    match e {
        AccessPredicateExpression::BooleanLiteral(_) => true,
        AccessPredicateExpression::Relational(_, l, r) => !(l is Column) && !(r is Column),
        AccessPredicateExpression::And(l, r) => column_free(*l) && column_free(*r),
        AccessPredicateExpression::Or(l, r) => column_free(*l) && column_free(*r),
        AccessPredicateExpression::Not(inner) => column_free(*inner),
    }
}

/// A rule that the context alone resolves reduces to `True` or to `False`.
pub proof fn lemma_column_free_is_decided(
    e: AccessPredicateExpression,
    context: Seq<(Seq<char>, ConstView)>,
)
    requires
        column_free(e),
    ensures
        solved(e, context) is True || solved(e, context) is False,
    decreases e,
{
    match e {
        AccessPredicateExpression::BooleanLiteral(_) => {},
        AccessPredicateExpression::Relational(_, _, _) => {},
        AccessPredicateExpression::And(l, r) => {
            lemma_column_free_is_decided(*l, context);
            lemma_column_free_is_decided(*r, context);
        },
        AccessPredicateExpression::Or(l, r) => {
            lemma_column_free_is_decided(*l, context);
            lemma_column_free_is_decided(*r, context);
        },
        AccessPredicateExpression::Not(inner) => {
            lemma_column_free_is_decided(*inner, context);
        },
    }
}

} // verus!
