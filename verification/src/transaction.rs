//! Scripts of database operations: steps that may depend on the rows of
//! earlier steps, and the policy for retrying a query.

use vstd::prelude::*;
use crate::column_path::{ColumnId, ColumnPathLinkView, PhysicalColumnPath};
use crate::error::{DatabaseError, DatabaseErrorView};
use crate::order_by::{AbstractOrderBy, OrderByExprView, SortOrder};
use crate::predicate::{
    and_view, AbstractPredicate, ColumnPath, ColumnPathView, CompareOp, PredicateView, SqlParam,
    SqlParamView,
};
use crate::select::{order_by_option_view, Limit, Offset};

use crate::value::{const_views, ConstValue, ConstView};

verus! {

/// The rows that an operation returned, each a list of values.
pub type TransactionStepResult = Vec<Vec<ConstValue>>;

/// The views of the values of a list of rows.
pub open spec fn rows_view(rows: Seq<Vec<ConstValue>>) -> Seq<Seq<ConstView>> {
    Seq::new(rows.len(), |r: int| const_views(rows[r]@))
}

/// The views of the rows of a list of results.
pub open spec fn results_view(results: Seq<Vec<Vec<ConstValue>>>) -> Seq<Seq<Seq<ConstView>>> {
    Seq::new(results.len(), |s: int| rows_view(results[s]@))
}

/// The position of a step in its script.
#[derive(Clone, Copy, Debug, PartialEq, Eq, Structural)]
pub struct TransactionStepId(pub usize);

/// The results of the steps of a script that have run, by position.
#[derive(Debug, PartialEq, Eq)]
pub struct TransactionContext {
    results: Vec<Vec<Vec<ConstValue>>>,
}

impl View for TransactionContext {
    type V = Seq<Seq<Seq<ConstView>>>;

    closed spec fn view(&self) -> Seq<Seq<Seq<ConstView>>> {
        results_view(self.results@)
    }
}

impl TransactionContext {
    /// The context of a script of which no step has run.
    pub fn new() -> (r: TransactionContext)
        ensures
            r@ == Seq::<Seq<Seq<ConstView>>>::empty(),
    {
        let r = TransactionContext { results: Vec::new() };
        assert(r@ =~= Seq::empty());
        r
    }

    /// Records the rows of the step that has just run, and gives its position.
    pub fn record(&mut self, rows: Vec<Vec<ConstValue>>) -> (id: TransactionStepId)
        ensures
            final(self)@ == old(self)@.push(rows_view(rows@)),
            id.0 == old(self)@.len(),
    {
        let id = self.results.len();
        self.results.push(rows);
        assert(self@ =~= old(self)@.push(rows_view(rows@)));
        TransactionStepId(id)
    }

    /// The number of steps that have run.
    pub fn step_count(&self) -> (r: usize)
        ensures
            r == self@.len(),
    {
        self.results.len()
    }

    /// The value of a column in a row of the result of the given step.
    pub fn resolve_value(&self, step_id: TransactionStepId, row: usize, col: usize) -> (r: ConstValue)
        requires
            step_id.0 < self@.len(),
            row < self@[step_id.0 as int].len(),
            col < self@[step_id.0 as int][row as int].len(),
        ensures
            r@ == self@[step_id.0 as int][row as int][col as int],
    {
        self.results[step_id.0][row][col].duplicate()
    }

    /// The number of rows in the result of the given step.
    pub fn row_count(&self, step_id: TransactionStepId) -> (r: usize)
        requires
            step_id.0 < self@.len(),
        ensures
            r == self@[step_id.0 as int].len(),
    {
        self.results[step_id.0].len()
    }

    /// The number of values in a row of the result of the given step.
    pub fn column_count(&self, step_id: TransactionStepId, row: usize) -> (r: usize)
        requires
            step_id.0 < self@.len(),
            row < self@[step_id.0 as int].len(),
        ensures
            r == self@[step_id.0 as int][row as int].len(),
    {
        self.results[step_id.0][row].len()
    }

    /// Takes the rows of the last step that has run out of the context; an
    /// error where no step has run.
    pub fn take_last(&mut self) -> (r: Result<Vec<Vec<ConstValue>>, DatabaseError>)
        ensures
            match r {
                Ok(rows) => old(self)@.len() > 0 && rows_view(rows@) == old(self)@.last(),
                Err(e) => old(self)@.len() == 0 && e@ == DatabaseErrorView::Transaction(
                    Seq::empty(),
                ),
            },
    {
        match self.results.pop() {
            Some(rows) => Ok(rows),
            None => Err(DatabaseError::Transaction(String::new())),
        }
    }

    /// The rows of the last step that has run; an error where none has.
    pub fn into_last(self) -> (r: Result<Vec<Vec<ConstValue>>, DatabaseError>)
        ensures
            match r {
                Ok(rows) => self@.len() > 0 && rows_view(rows@) == self@.last(),
                Err(e) => self@.len() == 0 && e@ == DatabaseErrorView::Transaction(Seq::empty()),
            },
    {
        let mut results = self.results;
        match results.pop() {
            Some(rows) => Ok(rows),
            None => Err(DatabaseError::Transaction(String::new())),
        }
    }
}

/// A column of a table in the database.
#[derive(Clone, Debug, PartialEq, Eq)]
pub struct PhysicalColumn {
    pub name: String,
    /// The name of the column's database type.
    pub pg_type: String,
    pub is_pk: bool,
}

/// A table in the database.
#[derive(Clone, Debug, PartialEq, Eq)]
pub struct PhysicalTable {
    pub name: String,
    pub columns: Vec<PhysicalColumn>,
}

/// A relation between two tables: each pair holds a column of the table on
/// the many side and the column of the table on the one side that it refers to.
#[derive(Clone, Debug, PartialEq, Eq)]
pub struct PhysicalRelation {
    pub column_pairs: Vec<crate::column_path::RelationColumnPair>,
}

/// The tables of the database and the relations between them, each named by
/// its position.
#[derive(Clone, Debug, PartialEq, Eq)]
pub struct Database {
    pub tables: Vec<PhysicalTable>,
    pub relations: Vec<PhysicalRelation>,
}

/// The positions of the key columns among `columns`, in order.
pub open spec fn pk_positions(columns: Seq<PhysicalColumn>) -> Seq<int>
    decreases columns.len(),
{
    if columns.len() == 0 {
        Seq::empty()
    } else if columns.last().is_pk {
        pk_positions(columns.drop_last()).push(columns.len() - 1)
    } else {
        pk_positions(columns.drop_last())
    }
}

/// The key columns of a table, in the order of its columns.
pub open spec fn pk_column_ids(table_id: usize, columns: Seq<PhysicalColumn>) -> Seq<ColumnId> {
    Seq::new(
        pk_positions(columns).len(),
        |i: int| ColumnId { table_id, column_index: pk_positions(columns)[i] as usize },
    )
}

/// The database types of the key columns of a table, in the order of its columns.
pub open spec fn pk_column_types(columns: Seq<PhysicalColumn>) -> Seq<Seq<char>> {
    Seq::new(pk_positions(columns).len(), |i: int| columns[pk_positions(columns)[i]].pg_type@)
}

/// Every key position is a position of a key column.
pub proof fn lemma_pk_positions(columns: Seq<PhysicalColumn>)
    ensures
        pk_positions(columns).len() <= columns.len(),
        forall|i: int|
            0 <= i < pk_positions(columns).len() ==> 0 <= (#[trigger] pk_positions(columns)[i])
                < columns.len() && columns[pk_positions(columns)[i]].is_pk,
    decreases columns.len(),
{
    if columns.len() > 0 {
        lemma_pk_positions(columns.drop_last());
        assert forall|i: int| 0 <= i < pk_positions(columns).len() implies 0 <= (
        #[trigger] pk_positions(columns)[i]) < columns.len()
            && columns[pk_positions(columns)[i]].is_pk by {
            if i < pk_positions(columns.drop_last()).len() {
                let p = pk_positions(columns.drop_last())[i];
                assert(columns.drop_last()[p] == columns[p]);
            }
        }
    }
}

impl Database {
    /// The positions of the key columns of a table.
    fn pk_indices(&self, table_id: usize) -> (r: Vec<usize>)
        requires
            table_id < self.tables@.len(),
        ensures
            r@.len() == pk_positions(self.tables@[table_id as int].columns@).len(),
            forall|i: int|
                0 <= i < r@.len() ==> r@[i] as int == pk_positions(
                    self.tables@[table_id as int].columns@,
                )[i],
            forall|i: int| 0 <= i < r@.len() ==> r@[i] < self.tables@[table_id as int].columns@.len(),
    {
        let columns = &self.tables[table_id].columns;
        let mut out: Vec<usize> = Vec::new();
        let mut i: usize = 0;
        proof {
            assert(columns@.take(0) =~= Seq::empty());
        }
        while i < columns.len()
            invariant
                i <= columns.len(),
                out@.len() == pk_positions(columns@.take(i as int)).len(),
                forall|j: int|
                    0 <= j < out@.len() ==> out@[j] as int == pk_positions(
                        columns@.take(i as int),
                    )[j],
                forall|j: int| 0 <= j < out@.len() ==> out@[j] < i,
            decreases columns.len() - i,
        {
            proof {
                assert(columns@.take(i + 1).drop_last() =~= columns@.take(i as int));
                assert(columns@.take(i + 1).last() == columns@[i as int]);
            }
            if columns[i].is_pk {
                out.push(i);
            }
            i += 1;
        }
        proof {
            assert(columns@.take(i as int) =~= columns@);
        }
        out
    }

    /// The key columns of a table, in the order of its columns.
    pub fn get_pk_column_ids(&self, table_id: usize) -> (r: Vec<ColumnId>)
        requires
            table_id < self.tables@.len(),
        ensures
            r@ == pk_column_ids(table_id, self.tables@[table_id as int].columns@),
    {
        let indices = self.pk_indices(table_id);
        let mut out: Vec<ColumnId> = Vec::new();
        let mut i: usize = 0;
        while i < indices.len()
            invariant
                i <= indices.len(),
                out@.len() == i,
                forall|j: int|
                    0 <= j < i ==> out@[j] == (ColumnId { table_id, column_index: indices@[j] }),
            decreases indices.len() - i,
        {
            out.push(ColumnId { table_id, column_index: indices[i] });
            i += 1;
        }
        assert(out@ =~= pk_column_ids(table_id, self.tables@[table_id as int].columns@));
        out
    }

    /// The database types of the key columns of a table.
    pub fn get_pk_column_types(&self, table_id: usize) -> (r: Vec<String>)
        requires
            table_id < self.tables@.len(),
        ensures
            crate::select::text_views(r@) == pk_column_types(self.tables@[table_id as int].columns@),
    {
        let indices = self.pk_indices(table_id);
        let columns = &self.tables[table_id].columns;
        let mut out: Vec<String> = Vec::new();
        let mut i: usize = 0;
        while i < indices.len()
            invariant
                i <= indices.len(),
                out@.len() == i,
                *columns == self.tables@[table_id as int].columns,
                forall|j: int| 0 <= j < indices@.len() ==> indices@[j] < columns@.len(),
                forall|j: int| 0 <= j < i ==> out@[j]@ == columns@[indices@[j] as int].pg_type@,
            decreases indices.len() - i,
        {
            out.push(columns[indices[i]].pg_type.clone());
            i += 1;
        }
        assert(crate::select::text_views(out@) =~= pk_column_types(
            self.tables@[table_id as int].columns@,
        ));
        out
    }
}

/// A select over the columns of one table.
#[derive(Debug, PartialEq, Eq)]
pub struct Select {
    pub table_id: usize,
    pub columns: Vec<ColumnId>,
    pub predicate: AbstractPredicate,
    pub order_by: Option<AbstractOrderBy>,
    pub offset: Option<Offset>,
    pub limit: Option<Limit>,
    pub top_level_selection: bool,
}

/// The view of a [`Select`].
pub struct ConcreteSelectView {
    pub table_id: usize,
    pub columns: Seq<ColumnId>,
    pub predicate: PredicateView,
    pub order_by: Option<Seq<(OrderByExprView, SortOrder)>>,
    pub offset: Option<Offset>,
    pub limit: Option<Limit>,
    pub top_level_selection: bool,
}

impl View for Select {
    type V = ConcreteSelectView;

    open spec fn view(&self) -> ConcreteSelectView {
        ConcreteSelectView {
            table_id: self.table_id,
            columns: self.columns@,
            predicate: self.predicate@,
            order_by: order_by_option_view(self.order_by),
            offset: self.offset,
            limit: self.limit,
            top_level_selection: self.top_level_selection,
        }
    }
}

/// The kind of a statement that changes rows.
#[derive(Clone, Copy, Debug, PartialEq, Eq, Structural)]
pub enum WriteKind {
    Insert,
    Update,
    Delete,
}

/// A statement that changes the rows of a table that meet a predicate.
#[derive(Debug, PartialEq, Eq)]
pub struct Write {
    pub kind: WriteKind,
    pub table_id: usize,
    pub assignments: Vec<(ColumnId, ConstValue)>,
    pub predicate: AbstractPredicate,
}

/// The view of a [`Write`].
pub struct WriteView {
    pub kind: WriteKind,
    pub table_id: usize,
    pub assignments: Seq<(ColumnId, ConstView)>,
    pub predicate: PredicateView,
}

/// The views of a list of assignments.
pub open spec fn assignment_views(items: Seq<(ColumnId, ConstValue)>) -> Seq<(ColumnId, ConstView)> {
    Seq::new(items.len(), |i: int| (items[i].0, items[i].1@))
}

impl View for Write {
    type V = WriteView;

    open spec fn view(&self) -> WriteView {
        WriteView {
            kind: self.kind,
            table_id: self.table_id,
            assignments: assignment_views(self.assignments@),
            predicate: self.predicate@,
        }
    }
}

/// A statement ready to be sent to the database.
#[derive(Debug, PartialEq, Eq)]
pub enum SQLOperation {
    Select(Select),
    Write(Write),
}

/// The view of an [`SQLOperation`].
pub enum OperationView {
    Select(ConcreteSelectView),
    Write(WriteView),
}

impl View for SQLOperation {
    type V = OperationView;

    open spec fn view(&self) -> OperationView {
        match self {
            SQLOperation::Select(s) => OperationView::Select(s@),
            SQLOperation::Write(w) => OperationView::Write(w@),
        }
    }
}

/// A step whose statement is known when the script is written.
#[derive(Debug, PartialEq, Eq)]
pub struct ConcreteTransactionStep {
    pub operation: SQLOperation,
}

impl View for ConcreteTransactionStep {
    type V = OperationView;

    open spec fn view(&self) -> OperationView {
        self.operation@
    }
}

impl ConcreteTransactionStep {
    pub fn new(operation: SQLOperation) -> (r: ConcreteTransactionStep)
        ensures
            r == (ConcreteTransactionStep { operation }),
    {
        ConcreteTransactionStep { operation }
    }
}

/// Whether an operation only reads.
pub fn operation_is_read_only(operation: &SQLOperation) -> (r: bool)
    ensures
        r == (*operation is Select),
{
    match operation {
        SQLOperation::Select(_) => true,
        _ => false,
    }
}

/// A value of a statement that is known when the script is written, or
/// taken from a row of an earlier step when the step runs.
#[derive(Debug, PartialEq, Eq)]
pub enum TemplateValue {
    Concrete(ConstValue),
    StepColumn { step_id: TransactionStepId, col: usize },
}

/// A statement that changes rows, with values still to be taken from the
/// rows of an earlier step.
#[derive(Debug, PartialEq, Eq)]
pub struct TemplateSQLOperation {
    pub kind: WriteKind,
    pub table_id: usize,
    pub assignments: Vec<(ColumnId, TemplateValue)>,
    pub predicate: AbstractPredicate,
}

/// The value that a template value stands for in row `row`.
pub open spec fn template_value(v: TemplateValue, context: Seq<Seq<Seq<ConstView>>>, row: int) -> ConstView {
    match v {
        TemplateValue::Concrete(c) => c@,
        TemplateValue::StepColumn { step_id, col } => context[step_id.0 as int][row][col as int],
    }
}

/// Whether a template value can be taken in each of the first `rows` rows.
pub open spec fn template_value_ok(v: TemplateValue, context: Seq<Seq<Seq<ConstView>>>, rows: int) -> bool {
    match v {
        TemplateValue::Concrete(_) => true,
        TemplateValue::StepColumn { step_id, col } => {
            &&& step_id.0 < context.len()
            &&& rows <= context[step_id.0 as int].len()
            &&& forall|r: int| 0 <= r < rows ==> col < (#[trigger] context[step_id.0 as int][r]).len()
        },
    }
}

/// The statement that a template stands for in row `row` of the earlier step.
pub open spec fn resolved_write(
    operation: TemplateSQLOperation,
    context: Seq<Seq<Seq<ConstView>>>,
    row: int,
) -> WriteView {
    WriteView {
        kind: operation.kind,
        table_id: operation.table_id,
        assignments: Seq::new(
            operation.assignments@.len(),
            |a: int|
                (
                    operation.assignments@[a].0,
                    template_value(operation.assignments@[a].1, context, row),
                ),
        ),
        predicate: operation.predicate@,
    }
}

/// A step whose statement depends on the rows of an earlier step.
#[derive(Debug, PartialEq, Eq)]
pub struct TemplateTransactionStep {
    pub operation: TemplateSQLOperation,
    pub prev_step_id: TransactionStepId,
}

impl TemplateTransactionStep {
    /// Whether the step can be resolved against `context`: the earlier step
    /// has run, and every value that the template takes from a row is there.
    pub open spec fn resolvable(&self, context: Seq<Seq<Seq<ConstView>>>) -> bool {
        &&& self.prev_step_id.0 < context.len()
        &&& forall|a: int|
            0 <= a < self.operation.assignments@.len() ==> template_value_ok(
                (#[trigger] self.operation.assignments@[a]).1,
                context,
                context[self.prev_step_id.0 as int].len() as int,
            )
    }

    /// Resolves the template: one statement for each row of the earlier step,
    /// in the order of the rows.
    pub fn resolve(&self, transaction_context: &TransactionContext) -> (r: Vec<
        ConcreteTransactionStep,
    >)
        requires
            self.resolvable(transaction_context@),
        ensures
            r@.len() == transaction_context@[self.prev_step_id.0 as int].len(),
            forall|row: int|
                0 <= row < r@.len() ==> (#[trigger] r@[row])@ == OperationView::Write(
                    resolved_write(self.operation, transaction_context@, row),
                ),
    {
        let rows = transaction_context.row_count(self.prev_step_id);
        let mut out: Vec<ConcreteTransactionStep> = Vec::new();
        let mut row: usize = 0;
        while row < rows
            invariant
                row <= rows,
                rows == transaction_context@[self.prev_step_id.0 as int].len(),
                self.resolvable(transaction_context@),
                out@.len() == row,
                forall|k: int|
                    0 <= k < row ==> (#[trigger] out@[k])@ == OperationView::Write(
                        resolved_write(self.operation, transaction_context@, k),
                    ),
            decreases rows - row,
        {
            let mut assignments: Vec<(ColumnId, ConstValue)> = Vec::new();
            let mut a: usize = 0;
            while a < self.operation.assignments.len()
                invariant
                    a <= self.operation.assignments.len(),
                    row < rows,
                    rows == transaction_context@[self.prev_step_id.0 as int].len(),
                    self.resolvable(transaction_context@),
                    assignments@.len() == a,
                    forall|k: int|
                        0 <= k < a ==> assignments@[k].0 == self.operation.assignments@[k].0
                            && assignments@[k].1@ == template_value(
                            self.operation.assignments@[k].1,
                            transaction_context@,
                            row as int,
                        ),
                decreases self.operation.assignments.len() - a,
            {
                let column = self.operation.assignments[a].0;
                proof {
                    assert(template_value_ok(
                        self.operation.assignments@[a as int].1,
                        transaction_context@,
                        rows as int,
                    ));
                }
                let value = match &self.operation.assignments[a].1 {
                    TemplateValue::Concrete(c) => c.duplicate(),
                    TemplateValue::StepColumn { step_id, col } => {
                        proof {
                            assert(*col < transaction_context@[step_id.0 as int][row as int].len());
                        }
                        transaction_context.resolve_value(*step_id, row, *col)
                    },
                };
                assignments.push((column, value));
                a += 1;
            }
            let write = Write {
                kind: self.operation.kind,
                table_id: self.operation.table_id,
                assignments,
                predicate: self.operation.predicate.duplicate(),
            };
            proof {
                assert(write@.assignments =~= resolved_write(
                    self.operation,
                    transaction_context@,
                    row as int,
                ).assignments);
            }
            out.push(ConcreteTransactionStep { operation: SQLOperation::Write(write) });
            row += 1;
        }
        out
    }
}

/// The values of column `col` in each row of a result, in the order of the rows.
pub open spec fn column_values(rows: Seq<Seq<ConstView>>, col: int) -> Seq<ConstView> {
    Seq::new(rows.len(), |r: int| rows[r][col])
}

/// The predicate that a key column equals some value of column `index` of `rows`.
pub open spec fn key_predicate(
    column: ColumnId,
    pg_type: Seq<char>,
    rows: Seq<Seq<ConstView>>,
    index: int,
) -> PredicateView {
    PredicateView::Compare(
        CompareOp::EqAny,
        ColumnPathView::Physical(seq![ColumnPathLinkView::Leaf(column)]),
        ColumnPathView::Param(
            SqlParamView::Array { values: column_values(rows, index), pg_type },
        ),
    )
}

/// The predicate of a filter: the base predicate and, for each of the first
/// `count` key columns in turn, that the column equals some value of the
/// column of the same position in `rows`.
pub open spec fn filter_predicate(
    base: PredicateView,
    columns: Seq<ColumnId>,
    types: Seq<Seq<char>>,
    rows: Seq<Seq<ConstView>>,
    count: int,
) -> PredicateView
    decreases count,
{
    if count <= 0 {
        base
    } else {
        and_view(
            filter_predicate(base, columns, types, rows, count - 1),
            key_predicate(columns[count - 1], types[count - 1], rows, count - 1),
        )
    }
}

/// A step that selects the keys of the rows of a table that meet a predicate
/// and whose key is among the rows of an earlier step.
#[derive(Debug, PartialEq, Eq)]
pub struct TemplateFilterOperation {
    pub prev_step_id: TransactionStepId,
    pub table_id: usize,
    pub predicate: AbstractPredicate,
}

impl TemplateFilterOperation {
    /// Whether the step can be resolved: its table exists, the earlier step
    /// has run, and each of its rows holds a value for every key column.
    pub open spec fn resolvable(&self, context: Seq<Seq<Seq<ConstView>>>, database: Database) -> bool {
        &&& self.table_id < database.tables@.len()
        &&& self.prev_step_id.0 < context.len()
        &&& forall|r: int|
            0 <= r < context[self.prev_step_id.0 as int].len() ==> (
            #[trigger] context[self.prev_step_id.0 as int][r]).len() >= pk_positions(
                database.tables@[self.table_id as int].columns@,
            ).len()
    }

    /// The select that the step resolves to: of the key columns of its table,
    /// from the rows that meet the step's predicate and whose key columns are
    /// among the values of the rows of the earlier step.
    pub open spec fn resolved(&self, context: Seq<Seq<Seq<ConstView>>>, database: Database) -> OperationView {
        OperationView::Select(
            ConcreteSelectView {
                table_id: self.table_id,
                columns: pk_column_ids(self.table_id, database.tables@[self.table_id as int].columns@),
                predicate: filter_predicate(
                    self.predicate@,
                    pk_column_ids(self.table_id, database.tables@[self.table_id as int].columns@),
                    pk_column_types(database.tables@[self.table_id as int].columns@),
                    context[self.prev_step_id.0 as int],
                    pk_positions(database.tables@[self.table_id as int].columns@).len() as int,
                ),
                order_by: None,
                offset: None,
                limit: None,
                top_level_selection: false,
            },
        )
    }

    /// Resolves the filter into the select of the key columns of its table.
    pub fn resolve(self, transaction_context: &TransactionContext, database: &Database) -> (r:
        ConcreteTransactionStep)
        requires
            self.resolvable(transaction_context@, *database),
        ensures
            r@ == self.resolved(transaction_context@, *database),
    {
        let rows = transaction_context.row_count(self.prev_step_id);
        let pk_ids = database.get_pk_column_ids(self.table_id);
        let pk_types = database.get_pk_column_types(self.table_id);
        let ghost columns = pk_column_ids(
            self.table_id,
            database.tables@[self.table_id as int].columns@,
        );
        let ghost types = pk_column_types(database.tables@[self.table_id as int].columns@);
        let ghost prev = transaction_context@[self.prev_step_id.0 as int];
        let prev_step_id = self.prev_step_id;
        let table_id = self.table_id;
        let ghost base = self.predicate@;
        let mut predicate = self.predicate;
        let mut index: usize = 0;
        while index < pk_ids.len()
            invariant
                index <= pk_ids.len(),
                pk_ids@ == columns,
                crate::select::text_views(pk_types@) == types,
                columns.len() == types.len(),
                prev_step_id.0 < transaction_context@.len(),
                prev == transaction_context@[prev_step_id.0 as int],
                rows == prev.len(),
                forall|r: int| 0 <= r < prev.len() ==> (#[trigger] prev[r]).len() >= columns.len(),
                predicate@ == filter_predicate(base, columns, types, prev, index as int),
            decreases pk_ids.len() - index,
        {
            let mut values: Vec<ConstValue> = Vec::new();
            let mut row: usize = 0;
            while row < rows
                invariant
                    row <= rows,
                    index < columns.len(),
                    prev_step_id.0 < transaction_context@.len(),
                    prev == transaction_context@[prev_step_id.0 as int],
                    rows == prev.len(),
                    forall|r: int| 0 <= r < prev.len() ==> (#[trigger] prev[r]).len() >= columns.len(),
                    values@.len() == row,
                    forall|k: int| 0 <= k < row ==> values@[k]@ == prev[k][index as int],
                decreases rows - row,
            {
                proof {
                    assert(prev[row as int].len() >= columns.len());
                }
                values.push(transaction_context.resolve_value(prev_step_id, row, index));
                row += 1;
            }
            proof {
                assert(const_views(values@) =~= column_values(prev, index as int));
                assert(crate::select::text_views(pk_types@)[index as int] == pk_types@[index as int]@);
            }
            let key = AbstractPredicate::Compare(
                CompareOp::EqAny,
                ColumnPath::Physical(PhysicalColumnPath::leaf(pk_ids[index])),
                ColumnPath::Param(
                    SqlParam::Array { values, pg_type: pk_types[index].clone() },
                ),
            );
            predicate = AbstractPredicate::and(predicate, key);
            index += 1;
        }
        ConcreteTransactionStep {
            operation: SQLOperation::Select(
                Select {
                    table_id,
                    columns: pk_ids,
                    predicate,
                    order_by: None,
                    offset: None,
                    limit: None,
                    top_level_selection: false,
                },
            ),
        }
    }
}

impl TemplateTransactionStep {
    /// Tests whether the step can be resolved against the context.
    pub fn is_resolvable(&self, transaction_context: &TransactionContext) -> (r: bool)
        ensures
            r == self.resolvable(transaction_context@),
    {
        if self.prev_step_id.0 >= transaction_context.step_count() {
            return false;
        }
        let rows = transaction_context.row_count(self.prev_step_id);
        let mut a: usize = 0;
        while a < self.operation.assignments.len()
            invariant
                a <= self.operation.assignments.len(),
                self.prev_step_id.0 < transaction_context@.len(),
                rows == transaction_context@[self.prev_step_id.0 as int].len(),
                forall|k: int|
                    0 <= k < a ==> template_value_ok(
                        (#[trigger] self.operation.assignments@[k]).1,
                        transaction_context@,
                        rows as int,
                    ),
            decreases self.operation.assignments.len() - a,
        {
            match &self.operation.assignments[a].1 {
                TemplateValue::Concrete(_) => {},
                TemplateValue::StepColumn { step_id, col } => {
                    if step_id.0 >= transaction_context.step_count() {
                        proof {
                            assert(!template_value_ok(
                                self.operation.assignments@[a as int].1,
                                transaction_context@,
                                rows as int,
                            ));
                        }
                        return false;
                    }
                    if rows > transaction_context.row_count(*step_id) {
                        proof {
                            assert(!template_value_ok(
                                self.operation.assignments@[a as int].1,
                                transaction_context@,
                                rows as int,
                            ));
                        }
                        return false;
                    }
                    let mut row: usize = 0;
                    while row < rows
                        invariant
                            row <= rows,
                            a < self.operation.assignments.len(),
                            self.prev_step_id.0 < transaction_context@.len(),
                            rows == transaction_context@[self.prev_step_id.0 as int].len(),
                            self.operation.assignments@[a as int].1 == (TemplateValue::StepColumn {
                                step_id: *step_id,
                                col: *col,
                            }),
                            step_id.0 < transaction_context@.len(),
                            rows <= transaction_context@[step_id.0 as int].len(),
                            forall|k: int|
                                0 <= k < row ==> *col < (
                                #[trigger] transaction_context@[step_id.0 as int][k]).len(),
                        decreases rows - row,
                    {
                        if *col >= transaction_context.column_count(*step_id, row) {
                            proof {
                                let bad = transaction_context@[step_id.0 as int][row as int];
                                assert(!(*col < bad.len()));
                                assert(!template_value_ok(
                                    self.operation.assignments@[a as int].1,
                                    transaction_context@,
                                    rows as int,
                                ));
                            }
                            return false;
                        }
                        row += 1;
                    }
                },
            }
            a += 1;
        }
        true
    }
}

impl TemplateFilterOperation {
    /// Tests whether the step can be resolved against the context.
    pub fn is_resolvable(&self, transaction_context: &TransactionContext, database: &Database) -> (r:
        bool)
        ensures
            r == self.resolvable(transaction_context@, *database),
    {
        if self.table_id >= database.tables.len() {
            return false;
        }
        if self.prev_step_id.0 >= transaction_context.step_count() {
            return false;
        }
        let keys = database.pk_indices(self.table_id).len();
        let rows = transaction_context.row_count(self.prev_step_id);
        let mut row: usize = 0;
        while row < rows
            invariant
                row <= rows,
                self.table_id < database.tables@.len(),
                keys == pk_positions(database.tables@[self.table_id as int].columns@).len(),
                self.prev_step_id.0 < transaction_context@.len(),
                rows == transaction_context@[self.prev_step_id.0 as int].len(),
                forall|k: int|
                    0 <= k < row ==> (
                    #[trigger] transaction_context@[self.prev_step_id.0 as int][k]).len() >= keys,
            decreases rows - row,
        {
            if transaction_context.column_count(self.prev_step_id, row) < keys {
                proof {
                    let bad = transaction_context@[self.prev_step_id.0 as int][row as int];
                    assert(bad.len() < keys);
                }
                return false;
            }
            row += 1;
        }
        true
    }
}

/// A step whose statement is made from the results so far when the step runs.
pub struct DynamicTransactionStep<F> {
    pub function: F,
}

impl<F: FnOnce(&TransactionContext) -> ConcreteTransactionStep> DynamicTransactionStep<F> {
    /// Makes the statement of the step from the results so far.
    pub fn resolve(self, transaction_context: &TransactionContext) -> (r: ConcreteTransactionStep)
        requires
            self.function.requires((transaction_context,)),
        ensures
            self.function.ensures((transaction_context,), r),
    {
        (self.function)(transaction_context)
    }
}

/// A step of a script.
pub enum TransactionStep<F> {
    Concrete(Box<ConcreteTransactionStep>),
    Template(TemplateTransactionStep),
    Filter(TemplateFilterOperation),
    Dynamic(DynamicTransactionStep<F>),
    /// A select that must return exactly one row.
    Precheck(Select),
}

/// The statements that a step sends when it runs, in order. All are run;
/// the rows of the last are the rows of the step.
pub struct StepPlan {
    pub operations: Vec<ConcreteTransactionStep>,
    /// Whether the step is a precondition: it fails unless exactly one row
    /// comes back.
    pub precheck: bool,
}

impl<F: FnOnce(&TransactionContext) -> ConcreteTransactionStep> TransactionStep<F> {
    /// Whether the step can run against the results so far.
    pub open spec fn runnable(self, context: &TransactionContext, database: Database) -> bool {
        match self {
            TransactionStep::Template(step) => step.resolvable(context@),
            TransactionStep::Filter(step) => step.resolvable(context@, database),
            TransactionStep::Dynamic(step) => step.function.requires((context,)),
            _ => true,
        }
    }

    /// Makes the statements of the step from the results so far: the one
    /// statement of a concrete step, of a filter, of a dynamic step or of a
    /// precondition, and for a template one statement for each row of the
    /// step that it refers to.
    pub fn plan(self, database: &Database, transaction_context: &TransactionContext) -> (r:
        StepPlan)
        requires
            self.runnable(transaction_context, *database),
        ensures
            r.precheck == (self is Precheck),
            match self {
                TransactionStep::Concrete(step) => r.operations@ == seq![*step],
                TransactionStep::Template(step) => r.operations@.len()
                    == transaction_context@[step.prev_step_id.0 as int].len() && forall|row: int|
                    0 <= row < r.operations@.len() ==> (#[trigger] r.operations@[row])@
                        == OperationView::Write(
                        resolved_write(step.operation, transaction_context@, row),
                    ),
                TransactionStep::Filter(step) => r.operations@.len() == 1 && r.operations@[0]@
                    == step.resolved(transaction_context@, *database),
                TransactionStep::Dynamic(step) => r.operations@.len() == 1 && step.function.ensures(
                    (transaction_context,),
                    r.operations@[0],
                ),
                TransactionStep::Precheck(select) => r.operations@ == seq![
                    ConcreteTransactionStep { operation: SQLOperation::Select(select) },
                ],
            },
    {
        match self {
            TransactionStep::Concrete(step) => {
                let mut operations: Vec<ConcreteTransactionStep> = Vec::new();
                operations.push(*step);
                assert(operations@ =~= seq![*step]);
                StepPlan { operations, precheck: false }
            },
            TransactionStep::Template(step) => {
                StepPlan { operations: step.resolve(transaction_context), precheck: false }
            },
            TransactionStep::Filter(step) => {
                let mut operations: Vec<ConcreteTransactionStep> = Vec::new();
                operations.push(step.resolve(transaction_context, database));
                StepPlan { operations, precheck: false }
            },
            TransactionStep::Dynamic(step) => {
                let mut operations: Vec<ConcreteTransactionStep> = Vec::new();
                operations.push(step.resolve(transaction_context));
                StepPlan { operations, precheck: false }
            },
            TransactionStep::Precheck(select) => {
                let mut operations: Vec<ConcreteTransactionStep> = Vec::new();
                operations.push(ConcreteTransactionStep { operation: SQLOperation::Select(select) });
                assert(operations@ =~= seq![
                    ConcreteTransactionStep { operation: SQLOperation::Select(select) },
                ]);
                StepPlan { operations, precheck: true }
            },
        }
    }
}

/// The message of a precondition that did not return exactly one row.
pub open spec fn precheck_message(rows: nat) -> Seq<char> {
    "Expected 1 row, got "@ + crate::text::decimal_text(rows)
}

/// The rows of a step, given the rows that its last statement returned: the
/// same rows, unless the step is a precondition and the rows are not exactly one.
pub fn step_result(precheck: bool, rows: Vec<Vec<ConstValue>>) -> (r: Result<
    Vec<Vec<ConstValue>>,
    DatabaseError,
>)
    ensures
        match r {
            Ok(out) => out == rows && (precheck ==> rows@.len() == 1),
            Err(e) => precheck && rows@.len() != 1 && e@ == DatabaseErrorView::Precheck(
                precheck_message(rows@.len()),
            ),
        },
{
    if precheck && rows.len() != 1 {
        let count = crate::text::decimal(rows.len() as u128);
        Err(DatabaseError::Precheck(crate::text::concat2("Expected 1 row, got ", count.as_str())))
    } else {
        Ok(rows)
    }
}

/// An ordered list of steps; each step is named by its position.
pub struct TransactionScript<F> {
    steps: Vec<TransactionStep<F>>,
}

impl<F> View for TransactionScript<F> {
    type V = Seq<TransactionStep<F>>;

    closed spec fn view(&self) -> Seq<TransactionStep<F>> {
        self.steps@
    }
}

impl<F> TransactionScript<F> {
    /// The script without steps.
    pub fn new() -> (r: TransactionScript<F>)
        ensures
            r@ == Seq::<TransactionStep<F>>::empty(),
    {
        TransactionScript { steps: Vec::new() }
    }

    /// Adds a step at the end of the script and gives its position.
    pub fn add_step(&mut self, step: TransactionStep<F>) -> (id: TransactionStepId)
        ensures
            final(self)@ == old(self)@.push(step),
            id.0 == old(self)@.len(),
    {
        let id = self.steps.len();
        self.steps.push(step);
        TransactionStepId(id)
    }

    /// Whether the script must run inside a transaction: it has two steps or more.
    pub fn needs_transaction(&self) -> (r: bool)
        ensures
            r == (self@.len() > 1),
    {
        self.steps.len() > 1
    }

    /// The number of steps.
    pub fn len(&self) -> (r: usize)
        ensures
            r == self@.len(),
    {
        self.steps.len()
    }

    /// The steps in the order in which they run.
    pub fn into_steps(self) -> (r: Vec<TransactionStep<F>>)
        ensures
            r@ == self@,
    {
        self.steps
    }
}

/// Adding a step never moves a step that was there: positions given out
/// stay valid, and the new step is the last.
pub proof fn lemma_script_append_only<F>(before: Seq<TransactionStep<F>>, step: TransactionStep<F>)
    ensures
        before.push(step).len() == before.len() + 1,
        forall|i: int| 0 <= i < before.len() ==> before.push(step)[i] == before[i],
        before.push(step)[before.len() as int] == step,
{
}

} // verus!
