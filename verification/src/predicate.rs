//! Row predicates over column paths and constants, and the constructors that
//! keep them simplified.

use vstd::prelude::*;
use crate::column_path::{ColumnPathLinkView, PhysicalColumnPath};
use crate::value::{
    const_views, duplicate_const_items, ConstValue, ConstView, Number, NumberView,
};

verus! {

/// A value bound to a statement as a parameter.
#[derive(Debug, PartialEq, Eq)]
pub enum SqlParam {
    /// A resolved value.
    Value(ConstValue),
    /// A vector of numbers, as a vector column holds it.
    Vector(Vec<Number>),
    /// An array of values of one database type.
    Array { values: Vec<ConstValue>, pg_type: String },
}

/// The view of a [`SqlParam`].
pub enum SqlParamView {
    Value(ConstView),
    Vector(Seq<NumberView>),
    Array { values: Seq<ConstView>, pg_type: Seq<char> },
}

/// The views of a list of numbers, item by item.
pub open spec fn number_views(items: Seq<Number>) -> Seq<NumberView> {
    Seq::new(items.len(), |i: int| items[i]@)
}

impl View for SqlParam {
    type V = SqlParamView;

    open spec fn view(&self) -> SqlParamView {
        match self {
            SqlParam::Value(v) => SqlParamView::Value(v@),
            SqlParam::Vector(items) => SqlParamView::Vector(number_views(items@)),
            SqlParam::Array { values, pg_type } => SqlParamView::Array {
                values: const_views(values@),
                pg_type: pg_type@,
            },
        }
    }
}

/// A copy of a list of numbers.
pub fn duplicate_numbers(items: &Vec<Number>) -> (r: Vec<Number>)
    ensures
        number_views(r@) == number_views(items@),
{
    let mut out: Vec<Number> = Vec::new();
    let mut i: usize = 0;
    while i < items.len()
        invariant
            i <= items.len(),
            out@.len() == i,
            forall|j: int| 0 <= j < i ==> out@[j]@ == items@[j]@,
        decreases items.len() - i,
    {
        out.push(items[i].duplicate());
        i += 1;
    }
    assert(number_views(out@) =~= number_views(items@));
    out
}

impl SqlParam {
    /// A copy of this parameter.
    pub fn duplicate(&self) -> (r: SqlParam)
        ensures
            r@ == self@,
    {
        match self {
            SqlParam::Value(v) => SqlParam::Value(v.duplicate()),
            SqlParam::Vector(items) => SqlParam::Vector(duplicate_numbers(items)),
            SqlParam::Array { values, pg_type } => SqlParam::Array {
                values: duplicate_const_items(values),
                pg_type: pg_type.clone(),
            },
        }
    }
}

/// One side of a comparison: a column reached by a path, a parameter, or SQL `NULL`.
#[derive(Debug, PartialEq, Eq)]
pub enum ColumnPath {
    Physical(PhysicalColumnPath),
    Param(SqlParam),
    Null,
}

/// The view of a [`ColumnPath`].
pub enum ColumnPathView {
    Physical(Seq<ColumnPathLinkView>),
    Param(SqlParamView),
    Null,
}

impl View for ColumnPath {
    type V = ColumnPathView;

    open spec fn view(&self) -> ColumnPathView {
        match self {
            ColumnPath::Physical(p) => ColumnPathView::Physical(p@),
            ColumnPath::Param(p) => ColumnPathView::Param(p@),
            ColumnPath::Null => ColumnPathView::Null,
        }
    }
}

impl ColumnPath {
    /// A copy of this side.
    pub fn duplicate(&self) -> (r: ColumnPath)
        ensures
            r@ == self@,
    {
        match self {
            ColumnPath::Physical(p) => ColumnPath::Physical(p.duplicate()),
            ColumnPath::Param(p) => ColumnPath::Param(p.duplicate()),
            ColumnPath::Null => ColumnPath::Null,
        }
    }
}

/// The comparison that a predicate makes between its two sides.
#[derive(Clone, Copy, Debug, PartialEq, Eq, Structural)]
pub enum CompareOp {
    Eq,
    Neq,
    Lt,
    Lte,
    Gt,
    Gte,
    /// The left side equals some element of the right side, an array.
    EqAny,
}

/// A predicate over the rows of a table.
#[derive(Debug, PartialEq, Eq)]
pub enum AbstractPredicate {
    True,
    False,
    Compare(CompareOp, ColumnPath, ColumnPath),
    And(Box<AbstractPredicate>, Box<AbstractPredicate>),
    Or(Box<AbstractPredicate>, Box<AbstractPredicate>),
    Not(Box<AbstractPredicate>),
}

/// The view of an [`AbstractPredicate`].
pub enum PredicateView {
    True,
    False,
    Compare(CompareOp, ColumnPathView, ColumnPathView),
    And(Box<PredicateView>, Box<PredicateView>),
    Or(Box<PredicateView>, Box<PredicateView>),
    Not(Box<PredicateView>),
}

/// The view of a predicate: the same tree over the views of its sides.
pub open spec fn predicate_view(p: AbstractPredicate) -> PredicateView
    decreases p,
{
    match p {
        AbstractPredicate::True => PredicateView::True,
        AbstractPredicate::False => PredicateView::False,
        AbstractPredicate::Compare(op, l, r) => PredicateView::Compare(op, l@, r@),
        AbstractPredicate::And(l, r) => PredicateView::And(
            Box::new(predicate_view(*l)),
            Box::new(predicate_view(*r)),
        ),
        AbstractPredicate::Or(l, r) => PredicateView::Or(
            Box::new(predicate_view(*l)),
            Box::new(predicate_view(*r)),
        ),
        AbstractPredicate::Not(inner) => PredicateView::Not(Box::new(predicate_view(*inner))),
    }
}

impl View for AbstractPredicate {
    type V = PredicateView;

    open spec fn view(&self) -> PredicateView {
        predicate_view(*self)
    }
}

/// The conjunction of two predicates, simplified: `False` absorbs, `True` is neutral.
pub open spec fn and_view(lhs: PredicateView, rhs: PredicateView) -> PredicateView {
    if lhs is False || rhs is False {
        PredicateView::False
    } else if lhs is True {
        rhs
    } else if rhs is True {
        lhs
    } else {
        PredicateView::And(Box::new(lhs), Box::new(rhs))
    }
}

/// The disjunction of two predicates, simplified: `True` absorbs, `False` is neutral.
pub open spec fn or_view(lhs: PredicateView, rhs: PredicateView) -> PredicateView {
    if lhs is True || rhs is True {
        PredicateView::True
    } else if lhs is False {
        rhs
    } else if rhs is False {
        lhs
    } else {
        PredicateView::Or(Box::new(lhs), Box::new(rhs))
    }
}

/// The negation of a predicate, simplified on the two constants.
pub open spec fn not_view(inner: PredicateView) -> PredicateView {
    match inner {
        PredicateView::True => PredicateView::False,
        PredicateView::False => PredicateView::True,
        _ => PredicateView::Not(Box::new(inner)),
    }
}

impl AbstractPredicate {
    /// Whether this is the predicate that holds of every row.
    pub fn is_true(&self) -> (r: bool)
        ensures
            r == (self@ is True),
    {
        match self {
            AbstractPredicate::True => true,
            _ => false,
        }
    }

    /// Whether this is the predicate that holds of no row.
    pub fn is_false(&self) -> (r: bool)
        ensures
            r == (self@ is False),
    {
        match self {
            AbstractPredicate::False => true,
            _ => false,
        }
    }

    /// A deep copy of this predicate.
    pub fn duplicate(&self) -> (r: AbstractPredicate)
        ensures
            r@ == self@,
        decreases self,
    {
        match self {
            AbstractPredicate::True => AbstractPredicate::True,
            AbstractPredicate::False => AbstractPredicate::False,
            AbstractPredicate::Compare(op, l, r) => AbstractPredicate::Compare(
                *op,
                l.duplicate(),
                r.duplicate(),
            ),
            AbstractPredicate::And(l, r) => AbstractPredicate::And(
                Box::new(l.duplicate()),
                Box::new(r.duplicate()),
            ),
            AbstractPredicate::Or(l, r) => AbstractPredicate::Or(
                Box::new(l.duplicate()),
                Box::new(r.duplicate()),
            ),
            AbstractPredicate::Not(inner) => AbstractPredicate::Not(Box::new(inner.duplicate())),
        }
    }

    /// The conjunction of two predicates.
    pub fn and(lhs: AbstractPredicate, rhs: AbstractPredicate) -> (r: AbstractPredicate)
        ensures
            r@ == and_view(lhs@, rhs@),
    {
        if lhs.is_false() || rhs.is_false() {
            AbstractPredicate::False
        } else if lhs.is_true() {
            rhs
        } else if rhs.is_true() {
            lhs
        } else {
            AbstractPredicate::And(Box::new(lhs), Box::new(rhs))
        }
    }

    /// The disjunction of two predicates.
    pub fn or(lhs: AbstractPredicate, rhs: AbstractPredicate) -> (r: AbstractPredicate)
        ensures
            r@ == or_view(lhs@, rhs@),
    {
        if lhs.is_true() || rhs.is_true() {
            AbstractPredicate::True
        } else if lhs.is_false() {
            rhs
        } else if rhs.is_false() {
            lhs
        } else {
            AbstractPredicate::Or(Box::new(lhs), Box::new(rhs))
        }
    }

    /// The negation of a predicate.
    pub fn not(inner: AbstractPredicate) -> (r: AbstractPredicate)
        ensures
            r@ == not_view(inner@),
    {
        if inner.is_true() {
            AbstractPredicate::False
        } else if inner.is_false() {
            AbstractPredicate::True
        } else {
            AbstractPredicate::Not(Box::new(inner))
        }
    }

    /// The predicate that the two sides are equal.
    pub fn eq(lhs: ColumnPath, rhs: ColumnPath) -> (r: AbstractPredicate)
        ensures
            r@ == PredicateView::Compare(CompareOp::Eq, lhs@, rhs@),
    {
        AbstractPredicate::Compare(CompareOp::Eq, lhs, rhs)
    }
}

/// `True` is the left unit of conjunction.
pub proof fn lemma_and_true_left(x: PredicateView)
    ensures
        and_view(PredicateView::True, x) == x,
{
}

/// `True` is the right unit of conjunction.
pub proof fn lemma_and_true_right(x: PredicateView)
    ensures
        and_view(x, PredicateView::True) == x,
{
}

/// `False` absorbs on the left of a conjunction.
pub proof fn lemma_and_false_left(x: PredicateView)
    ensures
        and_view(PredicateView::False, x) == PredicateView::False,
{
}

/// `False` absorbs on the right of a conjunction.
pub proof fn lemma_and_false_right(x: PredicateView)
    ensures
        and_view(x, PredicateView::False) == PredicateView::False,
{
}

/// `False` is the unit of disjunction and `True` absorbs.
pub proof fn lemma_or_constants(x: PredicateView)
    ensures
        or_view(PredicateView::False, x) == x,
        or_view(x, PredicateView::False) == x,
        or_view(PredicateView::True, x) == PredicateView::True,
        or_view(x, PredicateView::True) == PredicateView::True,
{
}

/// A conjunction is `True` only where both sides are.
pub proof fn lemma_and_is_true(x: PredicateView, y: PredicateView)
    ensures
        and_view(x, y) is True <==> (x is True && y is True),
        and_view(x, y) is False <==> (x is False || y is False),
{
}

} // verus!
