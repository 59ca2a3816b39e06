//! The plan of a query: a select over a table whose result the database
//! aggregates as JSON, with nested selects for relations.

use vstd::prelude::*;
use crate::column_path::ColumnId;
use crate::order_by::{AbstractOrderBy, OrderByExprView, SortOrder, VectorDistanceFunction};
use crate::predicate::{AbstractPredicate, PredicateView, SqlParam, SqlParamView};
use crate::schema::RelationId;

verus! {

/// Whether a selection gives one JSON object or an array of them.
#[derive(Clone, Copy, Debug, PartialEq, Eq, Structural)]
pub enum SelectionCardinality {
    One,
    Many,
}

/// A function evaluated by the database.
#[derive(Debug, PartialEq, Eq)]
pub enum Function {
    /// The distance of a vector column to a target.
    VectorDistance { column_id: ColumnId, distance_function: VectorDistanceFunction, target: SqlParam },
    /// An aggregate of a column over the selected rows.
    Aggregate { function_name: String, column_id: ColumnId },
}

/// The view of a [`Function`].
pub enum FunctionView {
    VectorDistance {
        column_id: ColumnId,
        distance_function: VectorDistanceFunction,
        target: SqlParamView,
    },
    Aggregate { function_name: Seq<char>, column_id: ColumnId },
}

impl View for Function {
    type V = FunctionView;

    open spec fn view(&self) -> FunctionView {
        match self {
            Function::VectorDistance {
                column_id,
                distance_function,
                target,
            } => FunctionView::VectorDistance {
                column_id: *column_id,
                distance_function: *distance_function,
                target: target@,
            },
            Function::Aggregate { function_name, column_id } => FunctionView::Aggregate {
                function_name: function_name@,
                column_id: *column_id,
            },
        }
    }
}

/// One value of a selection.
#[derive(Debug, PartialEq, Eq)]
pub enum SelectionElement {
    /// A column of the select's table.
    Physical(ColumnId),
    Function(Function),
    /// SQL `NULL`.
    Null,
    /// A constant string.
    Constant(String),
    /// A JSON object of named values.
    Object(Vec<(String, SelectionElement)>),
    /// The result of a select over a related table.
    SubSelect(RelationId, Box<AbstractSelect>),
    /// The value under a path of keys in the JSON object that `source` gives.
    JsonExtract { source: Box<SelectionElement>, path: Vec<String> },
    /// The values under a key in each object of the JSON array that `source` gives.
    JsonArrayExtract { source: Box<SelectionElement>, key: String },
}

/// A value of a selection under the name it has in the result.
#[derive(Debug, PartialEq, Eq)]
pub struct AliasedSelectionElement {
    pub alias: String,
    pub element: SelectionElement,
}

/// What a select returns.
#[derive(Debug, PartialEq, Eq)]
pub enum Selection {
    /// Plain columns.
    Columns(Vec<AliasedSelectionElement>),
    /// A JSON aggregate of named values.
    Json(Vec<AliasedSelectionElement>, SelectionCardinality),
}

/// The number of rows that a select returns at most.
#[derive(Clone, Copy, Debug, PartialEq, Eq, Structural)]
pub struct Limit(pub i64);

/// The number of rows that a select skips.
#[derive(Clone, Copy, Debug, PartialEq, Eq, Structural)]
pub struct Offset(pub i64);

/// A select over one table.
#[derive(Debug, PartialEq, Eq)]
pub struct AbstractSelect {
    pub table_id: usize,
    pub selection: Selection,
    pub predicate: AbstractPredicate,
    pub order_by: Option<AbstractOrderBy>,
    pub offset: Option<Offset>,
    pub limit: Option<Limit>,
}

/// The view of a [`SelectionElement`].
pub enum ElementView {
    Physical(ColumnId),
    Function(FunctionView),
    Null,
    Constant(Seq<char>),
    Object(Seq<(Seq<char>, ElementView)>),
    SubSelect(RelationId, Box<SelectView>),
    JsonExtract { source: Box<ElementView>, path: Seq<Seq<char>> },
    JsonArrayExtract { source: Box<ElementView>, key: Seq<char> },
}

/// The view of an [`AliasedSelectionElement`].
pub struct AliasedView {
    pub alias: Seq<char>,
    pub element: ElementView,
}

/// The view of a [`Selection`].
pub enum SelectionView {
    Columns(Seq<AliasedView>),
    Json(Seq<AliasedView>, SelectionCardinality),
}

/// The view of an [`AbstractSelect`].
pub struct SelectView {
    pub table_id: usize,
    pub selection: SelectionView,
    pub predicate: PredicateView,
    pub order_by: Option<Seq<(OrderByExprView, SortOrder)>>,
    pub offset: Option<Offset>,
    pub limit: Option<Limit>,
}

/// The views of a list of strings.
pub open spec fn text_views(items: Seq<String>) -> Seq<Seq<char>> {
    Seq::new(items.len(), |i: int| items[i]@)
}

/// The view of a selection element.
pub open spec fn element_view(e: SelectionElement) -> ElementView
    decreases e,
{
    match e {
        SelectionElement::Physical(c) => ElementView::Physical(c),
        SelectionElement::Function(f) => ElementView::Function(f@),
        SelectionElement::Null => ElementView::Null,
        SelectionElement::Constant(s) => ElementView::Constant(s@),
        SelectionElement::Object(members) => ElementView::Object(
            Seq::new(
                members@.len(),
                |i: int|
                    if 0 <= i < members@.len() {
                        (members@[i].0@, element_view(members@[i].1))
                    } else {
                        (Seq::empty(), ElementView::Null)
                    },
            ),
        ),
        SelectionElement::SubSelect(relation, select) => ElementView::SubSelect(
            relation,
            Box::new(select_view(*select)),
        ),
        SelectionElement::JsonExtract { source, path } => ElementView::JsonExtract {
            source: Box::new(element_view(*source)),
            path: text_views(path@),
        },
        SelectionElement::JsonArrayExtract { source, key } => ElementView::JsonArrayExtract {
            source: Box::new(element_view(*source)),
            key: key@,
        },
    }
}

/// The views of a list of named elements.
pub open spec fn aliased_list_view(items: Vec<AliasedSelectionElement>) -> Seq<AliasedView>
    decreases items,
{
    Seq::new(
        items@.len(),
        |i: int|
            if 0 <= i < items@.len() {
                AliasedView { alias: items@[i].alias@, element: element_view(items@[i].element) }
            } else {
                AliasedView { alias: Seq::empty(), element: ElementView::Null }
            },
    )
}

/// The view of a selection.
pub open spec fn selection_view(s: Selection) -> SelectionView
    decreases s,
{
    match s {
        Selection::Columns(items) => SelectionView::Columns(aliased_list_view(items)),
        Selection::Json(items, cardinality) => SelectionView::Json(
            aliased_list_view(items),
            cardinality,
        ),
    }
}

/// The view of an optional ordering.
pub open spec fn order_by_option_view(o: Option<AbstractOrderBy>) -> Option<
    Seq<(OrderByExprView, SortOrder)>,
> {
    match o {
        Some(order_by) => Some(order_by@),
        None => None,
    }
}

/// The view of a select.
pub open spec fn select_view(s: AbstractSelect) -> SelectView
    decreases s,
{
    SelectView {
        table_id: s.table_id,
        selection: selection_view(s.selection),
        predicate: s.predicate@,
        order_by: order_by_option_view(s.order_by),
        offset: s.offset,
        limit: s.limit,
    }
}

impl View for SelectionElement {
    type V = ElementView;

    open spec fn view(&self) -> ElementView {
        element_view(*self)
    }
}

impl View for AliasedSelectionElement {
    type V = AliasedView;

    open spec fn view(&self) -> AliasedView {
        AliasedView { alias: self.alias@, element: self.element@ }
    }
}

impl View for Selection {
    type V = SelectionView;

    open spec fn view(&self) -> SelectionView {
        selection_view(*self)
    }
}

impl View for AbstractSelect {
    type V = SelectView;

    open spec fn view(&self) -> SelectView {
        select_view(*self)
    }
}

/// The views of a list of named elements, item by item.
pub open spec fn aliased_views(items: Seq<AliasedSelectionElement>) -> Seq<AliasedView> {
    Seq::new(items.len(), |i: int| items[i]@)
}

/// The views of the members of an object element, member by member.
pub open spec fn member_views(members: Seq<(String, SelectionElement)>) -> Seq<
    (Seq<char>, ElementView),
> {
    Seq::new(members.len(), |i: int| (members[i].0@, members[i].1@))
}

/// The view of a list of named elements is the list of their views.
pub proof fn lemma_aliased_list_view(items: Vec<AliasedSelectionElement>)
    ensures
        aliased_list_view(items) == aliased_views(items@),
{
    assert(aliased_list_view(items) =~= aliased_views(items@));
}

/// The view of an object element is the list of its members' views.
pub proof fn lemma_object_view(members: Vec<(String, SelectionElement)>)
    ensures
        SelectionElement::Object(members)@ == ElementView::Object(member_views(members@)),
{
    assert(SelectionElement::Object(members)@->Object_0 =~= member_views(members@));
}

impl AliasedSelectionElement {
    pub fn new(alias: String, element: SelectionElement) -> (r: AliasedSelectionElement)
        ensures
            r == (AliasedSelectionElement { alias, element }),
    {
        AliasedSelectionElement { alias, element }
    }
}

} // verus!
