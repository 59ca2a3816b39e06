//! Orderings of a select, and the pairing of an ordering with the predicate
//! that computing it gave rise to.

use vstd::prelude::*;
use crate::column_path::{ColumnPathLinkView, PhysicalColumnPath};
use crate::predicate::{and_view, AbstractPredicate, ColumnPath, ColumnPathView, PredicateView};

verus! {

/// The direction of an ordering.
#[derive(Clone, Copy, Debug, PartialEq, Eq, Structural)]
pub enum SortOrder {
    Asc,
    Desc,
}

/// How the distance between two vectors is measured.
#[derive(Clone, Copy, Debug, PartialEq, Eq, Structural)]
pub enum VectorDistanceFunction {
    L2,
    Cosine,
    InnerProduct,
}

impl Default for VectorDistanceFunction {
    fn default() -> (r: VectorDistanceFunction)
        ensures
            r == VectorDistanceFunction::Cosine,
    {
        VectorDistanceFunction::Cosine
    }
}

/// What a select is ordered by.
#[derive(Debug, PartialEq, Eq)]
pub enum AbstractOrderByExpr {
    /// A column, reached by a path.
    Column(PhysicalColumnPath),
    /// The distance between two vectors.
    VectorDistance(ColumnPath, ColumnPath, VectorDistanceFunction),
}

/// The view of an [`AbstractOrderByExpr`].
pub enum OrderByExprView {
    Column(Seq<ColumnPathLinkView>),
    VectorDistance(ColumnPathView, ColumnPathView, VectorDistanceFunction),
}

impl View for AbstractOrderByExpr {
    type V = OrderByExprView;

    open spec fn view(&self) -> OrderByExprView {
        match self {
            AbstractOrderByExpr::Column(p) => OrderByExprView::Column(p@),
            AbstractOrderByExpr::VectorDistance(a, b, f) => OrderByExprView::VectorDistance(
                a@,
                b@,
                *f,
            ),
        }
    }
}

impl AbstractOrderByExpr {
    /// A copy of this expression.
    pub fn duplicate(&self) -> (r: AbstractOrderByExpr)
        ensures
            r@ == self@,
    {
        match self {
            AbstractOrderByExpr::Column(p) => AbstractOrderByExpr::Column(p.duplicate()),
            AbstractOrderByExpr::VectorDistance(a, b, f) => AbstractOrderByExpr::VectorDistance(
                a.duplicate(),
                b.duplicate(),
                *f,
            ),
        }
    }
}

/// The ordering of a select: expressions with their directions, most
/// significant first.
#[derive(Debug, PartialEq, Eq)]
pub struct AbstractOrderBy(pub Vec<(AbstractOrderByExpr, SortOrder)>);

/// The views of a list of ordering expressions, item by item.
pub open spec fn order_views(items: Seq<(AbstractOrderByExpr, SortOrder)>) -> Seq<
    (OrderByExprView, SortOrder),
> {
    Seq::new(items.len(), |i: int| (items[i].0@, items[i].1))
}

impl View for AbstractOrderBy {
    type V = Seq<(OrderByExprView, SortOrder)>;

    open spec fn view(&self) -> Seq<(OrderByExprView, SortOrder)> {
        order_views(self.0@)
    }
}

impl AbstractOrderBy {
    /// The ordering by one expression.
    pub fn single(expr: AbstractOrderByExpr, order: SortOrder) -> (r: AbstractOrderBy)
        ensures
            r@ == seq![(expr@, order)],
    {
        let mut items: Vec<(AbstractOrderByExpr, SortOrder)> = Vec::new();
        items.push((expr, order));
        let r = AbstractOrderBy(items);
        assert(r@ =~= seq![(expr@, order)]);
        r
    }

    /// A copy of this ordering.
    pub fn duplicate(&self) -> (r: AbstractOrderBy)
        ensures
            r@ == self@,
    {
        let mut items: Vec<(AbstractOrderByExpr, SortOrder)> = Vec::new();
        let mut i: usize = 0;
        while i < self.0.len()
            invariant
                i <= self.0.len(),
                items@.len() == i,
                forall|j: int| 0 <= j < i ==> items@[j].0@ == self.0@[j].0@ && items@[j].1 == self.0@[j].1,
            decreases self.0.len() - i,
        {
            items.push((self.0[i].0.duplicate(), self.0[i].1));
            i += 1;
        }
        let r = AbstractOrderBy(items);
        assert(r@ =~= self@);
        r
    }
}

/// An ordering together with the predicate that the rows must meet for the
/// ordering to be allowed.
#[derive(Debug, PartialEq, Eq)]
pub struct OrderByComputation {
    pub order_by: AbstractOrderBy,
    pub predicate: AbstractPredicate,
}

/// The view of an [`OrderByComputation`].
pub struct OrderByComputationView {
    pub order_by: Seq<(OrderByExprView, SortOrder)>,
    pub predicate: PredicateView,
}

impl View for OrderByComputation {
    type V = OrderByComputationView;

    open spec fn view(&self) -> OrderByComputationView {
        OrderByComputationView { order_by: self.order_by@, predicate: self.predicate@ }
    }
}

/// The views of a list of computations, item by item.
pub open spec fn computation_views(items: Seq<OrderByComputation>) -> Seq<OrderByComputationView> {
    Seq::new(items.len(), |i: int| items[i]@)
}

/// The combination of a list of computations: the orderings one after another
/// in the order given, and the conjunction of the predicates taken from the left.
pub open spec fn combined(results: Seq<OrderByComputationView>) -> OrderByComputationView
    decreases results.len(),
{
    if results.len() == 0 {
        OrderByComputationView { order_by: Seq::empty(), predicate: PredicateView::True }
    } else {
        let before = combined(results.drop_last());
        OrderByComputationView {
            order_by: before.order_by + results.last().order_by,
            predicate: and_view(before.predicate, results.last().predicate),
        }
    }
}

impl OrderByComputation {
    pub fn new(order_by: AbstractOrderBy, predicate: AbstractPredicate) -> (r: OrderByComputation)
        ensures
            r == (OrderByComputation { order_by, predicate }),
    {
        OrderByComputation { order_by, predicate }
    }

    /// Combines the computations of several orderings into one.
    pub fn combine(results: Vec<OrderByComputation>) -> (r: OrderByComputation)
        ensures
            r@ == combined(computation_views(results@)),
    {
        let ghost views = computation_views(results@);
        let mut expressions: Vec<(AbstractOrderByExpr, SortOrder)> = Vec::new();
        let mut predicate = AbstractPredicate::True;
        let mut i: usize = 0;
        assert(views.take(0) =~= Seq::empty());
        while i < results.len()
            invariant
                i <= results.len(),
                views == computation_views(results@),
                order_views(expressions@) == combined(views.take(i as int)).order_by,
                predicate@ == combined(views.take(i as int)).predicate,
            decreases results.len() - i,
        {
            let result = &results[i];
            let ghost before = expressions@;
            let mut j: usize = 0;
            while j < result.order_by.0.len()
                invariant
                    j <= result.order_by.0.len(),
                    order_views(expressions@) == order_views(before) + result.order_by@.take(
                        j as int,
                    ),
                decreases result.order_by.0.len() - j,
            {
                let ghost prev = expressions@;
                expressions.push((result.order_by.0[j].0.duplicate(), result.order_by.0[j].1));
                assert(order_views(expressions@) =~= order_views(prev).push(
                    result.order_by@[j as int],
                ));
                assert(result.order_by@.take(j + 1) =~= result.order_by@.take(j as int).push(
                    result.order_by@[j as int],
                ));
                assert(order_views(expressions@) =~= order_views(before) + result.order_by@.take(
                    j + 1,
                ));
                j += 1;
            }
            assert(result.order_by@.take(j as int) =~= result.order_by@);
            predicate = AbstractPredicate::and(predicate, result.predicate.duplicate());
            assert(views.take(i + 1).drop_last() =~= views.take(i as int));
            assert(views.take(i + 1).last() == results@[i as int]@);
            i += 1;
        }
        assert(views.take(i as int) =~= views);
        OrderByComputation::new(AbstractOrderBy(expressions), predicate)
    }
}

/// Combining nothing gives no ordering and the predicate `True`.
pub proof fn lemma_combined_empty()
    ensures
        combined(Seq::empty()).order_by == Seq::<(OrderByExprView, SortOrder)>::empty(),
        combined(Seq::empty()).predicate == PredicateView::True,
{
}

/// Combining one more computation appends its ordering and conjoins its
/// predicate on the right.
pub proof fn lemma_combined_push(results: Seq<OrderByComputationView>, next: OrderByComputationView)
    ensures
        combined(results.push(next)).order_by == combined(results).order_by + next.order_by,
        combined(results.push(next)).predicate == and_view(
            combined(results).predicate,
            next.predicate,
        ),
{
    assert(results.push(next).drop_last() =~= results);
}

/// The ordering of a combination is the concatenation of the orderings:
/// combining two lists one after the other concatenates what each gives.
pub proof fn lemma_combined_concat(a: Seq<OrderByComputationView>, b: Seq<OrderByComputationView>)
    ensures
        combined(a + b).order_by == combined(a).order_by + combined(b).order_by,
    decreases b.len(),
{
    if b.len() == 0 {
        assert(a + b =~= a);
        assert(combined(a).order_by + combined(b).order_by =~= combined(a).order_by);
    } else {
        lemma_combined_concat(a, b.drop_last());
        assert((a + b).drop_last() =~= a + b.drop_last());
        assert((a + b).last() == b.last());
        assert(combined(a + b).order_by =~= combined(a).order_by + combined(b).order_by);
    }
}

/// A combination's predicate is `True` exactly where every part's predicate is.
pub proof fn lemma_combined_true(results: Seq<OrderByComputationView>)
    ensures
        combined(results).predicate is True <==> forall|i: int|
            0 <= i < results.len() ==> (#[trigger] results[i]).predicate is True,
    decreases results.len(),
{
    if results.len() > 0 {
        lemma_combined_true(results.drop_last());
        if combined(results).predicate is True {
            assert forall|i: int| 0 <= i < results.len() implies (#[trigger] results[i]).predicate is True by {
                if i < results.len() - 1 {
                    assert(results.drop_last()[i] == results[i]);
                }
            }
        } else {
            if forall|i: int| 0 <= i < results.len() ==> (#[trigger] results[i]).predicate is True {
                assert forall|i: int| 0 <= i < results.drop_last().len() implies (
                #[trigger] results.drop_last()[i]).predicate is True by {
                    assert(results.drop_last()[i] == results[i]);
                }
                assert(results.last() == results[results.len() - 1]);
            }
        }
    }
}

} // verus!
