//! From a plan to a statement: SQL text with numbered placeholders, and the
//! parameters that the placeholders stand for.

use vstd::prelude::*;
use vstd::string::*;
use crate::column_path::{
    ColumnId, ColumnPathLink, ColumnPathLinkView, PhysicalColumnPath, RelationColumnPair,
};
use crate::order_by::{
    AbstractOrderBy, AbstractOrderByExpr, OrderByExprView, SortOrder, VectorDistanceFunction,
};
use crate::predicate::{
    AbstractPredicate, ColumnPath, ColumnPathView, CompareOp, PredicateView, SqlParam, SqlParamView,
};
use crate::schema::RelationId;
use crate::select::{
    aliased_views, lemma_aliased_list_view, lemma_object_view, member_views, text_views,
    AbstractSelect, AliasedSelectionElement, AliasedView, ElementView, Function, FunctionView,
    Limit, Offset, SelectView, Selection, SelectionCardinality, SelectionElement, SelectionView,
};
use crate::text::{decimal, decimal_text};
use crate::transaction::{
    assignment_views, ConcreteSelectView, Database, OperationView, SQLOperation, Select, Write,
    WriteKind, WriteView,
};
use crate::value::{ConstValue, ConstView};

verus! {

/// A text with every occurrence of the character `quote` doubled.
pub open spec fn doubled_quotes(text: Seq<char>, quote: char) -> Seq<char>
    decreases text.len(),
{
    if text.len() == 0 {
        Seq::empty()
    } else if text.last() == quote {
        doubled_quotes(text.drop_last(), quote).push(quote).push(quote)
    } else {
        doubled_quotes(text.drop_last(), quote).push(text.last())
    }
}

/// A text between quotes, with the quotes inside it doubled.
pub open spec fn quoted(text: Seq<char>, quote: char) -> Seq<char> {
    seq![quote] + doubled_quotes(text, quote) + seq![quote]
}

/// An identifier as SQL writes it.
pub open spec fn identifier(name: Seq<char>) -> Seq<char> {
    quoted(name, '"')
}

/// A string as SQL writes it.
pub open spec fn literal(text: Seq<char>) -> Seq<char> {
    quoted(text, '\'')
}

/// Appends `text` to `out` between quotes, with the quotes inside it doubled.
/// `mark` is the quote as a string.
fn push_quoted(out: &mut String, text: &str, quote: char, mark: &str)
    requires
        mark@ == seq![quote],
    ensures
        final(out)@ == old(out)@ + quoted(text@, quote),
{
    let ghost start = out@;
    out.append(mark);
    let n = text.unicode_len();
    let mut i: usize = 0;
    proof {
        assert(text@.take(0) =~= Seq::empty());
        assert(out@ =~= start + seq![quote] + doubled_quotes(text@.take(0), quote));
    }
    while i < n
        invariant
            i <= n,
            n == text@.len(),
            mark@ == seq![quote],
            out@ == start + seq![quote] + doubled_quotes(text@.take(i as int), quote),
        decreases n - i,
    {
        let ghost before = out@;
        let c = text.get_char(i);
        proof {
            assert(text@.take(i + 1).drop_last() =~= text@.take(i as int));
            assert(text@.take(i + 1).last() == c);
            assert(text@.subrange(i as int, i + 1) =~= seq![c]);
        }
        if c == quote {
            out.append(mark);
            out.append(mark);
            proof {
                assert(out@ =~= start + seq![quote] + doubled_quotes(text@.take(i + 1), quote));
            }
        } else {
            out.append(text.substring_char(i, i + 1));
            proof {
                assert(out@ =~= start + seq![quote] + doubled_quotes(text@.take(i + 1), quote));
            }
        }
        i += 1;
    }
    out.append(mark);
    proof {
        assert(text@.take(n as int) =~= text@);
        assert(out@ =~= start + quoted(text@, quote));
    }
}

/// Appends an identifier to `out`.
pub fn push_identifier(out: &mut String, name: &str)
    ensures
        final(out)@ == old(out)@ + identifier(name@),
{
    proof {
        reveal_strlit("\"");
        assert("\""@ =~= seq!['"']);
    }
    push_quoted(out, name, '"', "\"");
}

/// Appends a string literal to `out`.
pub fn push_literal(out: &mut String, text: &str)
    ensures
        final(out)@ == old(out)@ + literal(text@),
{
    proof {
        reveal_strlit("'");
        assert("'"@ =~= seq!['\'']);
    }
    push_quoted(out, text, '\'', "'");
}

/// The name of a table; a table that the database does not have is named by
/// its number.
pub open spec fn table_name(database: Database, table_id: usize) -> Seq<char> {
    if table_id < database.tables@.len() {
        database.tables@[table_id as int].name@
    } else {
        "table_"@ + decimal_text(table_id as nat)
    }
}

/// The name of a column; a column that its table does not have is named by
/// its number.
pub open spec fn column_name(database: Database, column: ColumnId) -> Seq<char> {
    if column.table_id < database.tables@.len() && column.column_index
        < database.tables@[column.table_id as int].columns@.len() {
        database.tables@[column.table_id as int].columns@[column.column_index as int].name@
    } else {
        "column_"@ + decimal_text(column.column_index as nat)
    }
}

/// A table as SQL names it.
pub open spec fn table_sql(database: Database, table_id: usize) -> Seq<char> {
    identifier(table_name(database, table_id))
}

/// A column as SQL names it: by its table and its name.
pub open spec fn column_sql(database: Database, column: ColumnId) -> Seq<char> {
    table_sql(database, column.table_id) + "."@ + identifier(column_name(database, column))
}

/// Appends the name of a table to `out`.
pub fn push_table(out: &mut String, database: &Database, table_id: usize)
    ensures
        final(out)@ == old(out)@ + table_sql(*database, table_id),
{
    if table_id < database.tables.len() {
        push_identifier(out, database.tables[table_id].name.as_str());
    } else {
        let mut name = "table_".to_owned();
        name.append(decimal(table_id as u128).as_str());
        push_identifier(out, name.as_str());
    }
}

/// Appends the name of a column to `out`.
pub fn push_column(out: &mut String, database: &Database, column: ColumnId)
    ensures
        final(out)@ == old(out)@ + column_sql(*database, column),
{
    let ghost start = out@;
    push_table(out, database, column.table_id);
    out.append(".");
    if column.table_id < database.tables.len() && column.column_index
        < database.tables[column.table_id].columns.len() {
        push_identifier(
            out,
            database.tables[column.table_id].columns[column.column_index].name.as_str(),
        );
    } else {
        let mut name = "column_".to_owned();
        name.append(decimal(column.column_index as u128).as_str());
        push_identifier(out, name.as_str());
    }
    proof {
        assert(out@ =~= start + column_sql(*database, column));
    }
}

/// A statement under construction: its text so far and its parameters so far.
pub struct SQLBuilder {
    pub sql: String,
    pub params: Vec<SqlParam>,
}

/// The view of a [`SQLBuilder`].
pub struct BuilderView {
    pub sql: Seq<char>,
    pub params: Seq<SqlParamView>,
}

/// The views of a list of parameters.
pub open spec fn param_views(params: Seq<SqlParam>) -> Seq<SqlParamView> {
    Seq::new(params.len(), |i: int| params[i]@)
}

impl View for SQLBuilder {
    type V = BuilderView;

    open spec fn view(&self) -> BuilderView {
        BuilderView { sql: self.sql@, params: param_views(self.params@) }
    }
}

/// A builder with `text` added to its text.
pub open spec fn with_text(b: BuilderView, text: Seq<char>) -> BuilderView {
    BuilderView { sql: b.sql + text, params: b.params }
}

/// A builder with one more parameter and the placeholder for it: `$` and
/// the number of the parameter, counted from 1.
pub open spec fn with_param(b: BuilderView, param: SqlParamView) -> BuilderView {
    BuilderView {
        sql: b.sql + "$"@ + decimal_text((b.params.len() + 1) as nat),
        params: b.params.push(param),
    }
}

impl SQLBuilder {
    /// A builder that has nothing yet.
    pub fn new() -> (r: SQLBuilder)
        ensures
            r@.sql == Seq::<char>::empty(),
            r@.params == Seq::<SqlParamView>::empty(),
    {
        let r = SQLBuilder { sql: String::new(), params: Vec::new() };
        assert(r@.params =~= Seq::empty());
        r
    }

    /// Adds text.
    pub fn push_str(&mut self, text: &str)
        ensures
            final(self)@ == with_text(old(self)@, text@),
    {
        self.sql.append(text);
    }

    /// Adds a parameter and the placeholder for it.
    pub fn push_param(&mut self, param: SqlParam)
        ensures
            final(self)@ == with_param(old(self)@, param@),
    {
        let ghost before = self.params@;
        self.sql.append("$");
        self.sql.append(decimal(self.params.len() as u128 + 1).as_str());
        self.params.push(param);
        proof {
            assert(param_views(self.params@) =~= param_views(before).push(param@));
            assert(self@.sql =~= old(self)@.sql + "$"@ + decimal_text((before.len() + 1) as nat));
        }
    }

    /// The statement: its text and its parameters.
    pub fn into_sql(self) -> (r: (String, Vec<SqlParam>))
        ensures
            r.0@ == self@.sql,
            param_views(r.1@) == self@.params,
    {
        (self.sql, self.params)
    }
}

/// The condition that joins the two tables of a relation, over the first
/// `count` of its column pairs: each column of the many side equals the column
/// that it refers to.
pub open spec fn relation_join(database: Database, pairs: Seq<RelationColumnPair>, count: int) -> Seq<
    char,
>
    decreases count,
{
    if count <= 0 {
        "TRUE"@
    } else {
        let pair = column_sql(database, pairs[count - 1].self_column_id) + " = "@ + column_sql(
            database,
            pairs[count - 1].foreign_column_id,
        );
        if count == 1 {
            pair
        } else {
            relation_join(database, pairs, count - 1) + " AND "@ + pair
        }
    }
}

/// Appends the condition that joins the two tables of a relation.
pub fn push_relation_join(out: &mut String, database: &Database, pairs: &Vec<RelationColumnPair>)
    ensures
        final(out)@ == old(out)@ + relation_join(*database, pairs@, pairs@.len() as int),
{
    let ghost start = out@;
    if pairs.len() == 0 {
        out.append("TRUE");
        return ;
    }
    let mut joined = String::new();
    let mut i: usize = 0;
    while i < pairs.len()
        invariant
            i <= pairs.len(),
            pairs@.len() > 0,
            i > 0 ==> joined@ == relation_join(*database, pairs@, i as int),
            i == 0 ==> joined@ == Seq::<char>::empty(),
        decreases pairs.len() - i,
    {
        let ghost before = joined@;
        if i > 0 {
            joined.append(" AND ");
        }
        let ghost separated = joined@;
        push_column(&mut joined, database, pairs[i].self_column_id);
        joined.append(" = ");
        push_column(&mut joined, database, pairs[i].foreign_column_id);
        proof {
            let pair = column_sql(*database, pairs@[i as int].self_column_id) + " = "@ + column_sql(
                *database,
                pairs@[i as int].foreign_column_id,
            );
            assert(joined@ =~= separated + pair);
            if i == 0 {
                assert(joined@ =~= pair);
            } else {
                assert(joined@ =~= before + " AND "@ + pair);
            }
        }
        i += 1;
    }
    out.append(joined.as_str());
}

/// The table that a relation leads to: the table of the column that its
/// first pair refers to.
pub open spec fn linked_table(pairs: Seq<RelationColumnPair>) -> usize {
    if pairs.len() > 0 {
        pairs[0].foreign_column_id.table_id
    } else {
        0
    }
}

/// A column path from its link `from` on as SQL writes it: a column by its
/// name, and a relation as the select of what follows it from the table that
/// the relation leads to. A path without a column is `NULL`.
pub open spec fn path_sql(database: Database, links: Seq<ColumnPathLinkView>, from: int) -> Seq<
    char,
>
    decreases links.len() - from,
{
    if from < 0 || from >= links.len() {
        "NULL"@
    } else {
        match links[from] {
            ColumnPathLinkView::Leaf(c) => column_sql(database, c),
            ColumnPathLinkView::Relation(r) => "(SELECT "@ + path_sql(database, links, from + 1)
                + " FROM "@ + table_sql(database, linked_table(r.column_pairs)) + " WHERE "@
                + relation_join(database, r.column_pairs, r.column_pairs.len() as int) + ")"@,
        }
    }
}

/// Appends a column path from its link `from` on.
pub fn push_path(out: &mut String, database: &Database, path: &PhysicalColumnPath, from: usize)
    ensures
        final(out)@ == old(out)@ + path_sql(*database, path@, from as int),
    decreases path.links@.len() - from,
{
    let ghost start = out@;
    if from >= path.links.len() {
        out.append("NULL");
        return ;
    }
    match &path.links[from] {
        ColumnPathLink::Leaf(c) => {
            push_column(out, database, *c);
        },
        ColumnPathLink::Relation(r) => {
            out.append("(SELECT ");
            push_path(out, database, path, from + 1);
            out.append(" FROM ");
            let linked = if r.column_pairs.len() > 0 {
                r.column_pairs[0].foreign_column_id.table_id
            } else {
                0
            };
            push_table(out, database, linked);
            out.append(" WHERE ");
            push_relation_join(out, database, &r.column_pairs);
            out.append(")");
            proof {
                assert(out@ =~= start + path_sql(*database, path@, from as int));
            }
        },
    }
}

/// One side of a comparison as SQL writes it: a column path, the placeholder
/// of a parameter, or `NULL`.
pub open spec fn side_sql(database: Database, side: ColumnPathView, b: BuilderView) -> BuilderView {
    match side {
        ColumnPathView::Physical(links) => with_text(b, path_sql(database, links, 0)),
        ColumnPathView::Param(p) => with_param(b, p),
        ColumnPathView::Null => with_text(b, "NULL"@),
    }
}

/// The sign of a comparison.
pub open spec fn compare_sign(op: CompareOp) -> Seq<char> {
    match op {
        CompareOp::Eq => " = "@,
        CompareOp::Neq => " <> "@,
        CompareOp::Lt => " < "@,
        CompareOp::Lte => " <= "@,
        CompareOp::Gt => " > "@,
        CompareOp::Gte => " >= "@,
        CompareOp::EqAny => " = ANY("@,
    }
}

/// What closes a comparison.
pub open spec fn compare_end(op: CompareOp) -> Seq<char> {
    match op {
        CompareOp::EqAny => ")"@,
        _ => Seq::empty(),
    }
}

/// A predicate as SQL writes it, with the parameters of its sides added in
/// the order in which they are written.
pub open spec fn predicate_sql(database: Database, p: PredicateView, b: BuilderView) -> BuilderView
    decreases p,
{
    match p {
        PredicateView::True => with_text(b, "TRUE"@),
        PredicateView::False => with_text(b, "FALSE"@),
        PredicateView::Compare(op, l, r) => with_text(
            side_sql(database, r, with_text(side_sql(database, l, b), compare_sign(op))),
            compare_end(op),
        ),
        PredicateView::And(l, r) => with_text(
            predicate_sql(
                database,
                *r,
                with_text(predicate_sql(database, *l, with_text(b, "("@)), " AND "@),
            ),
            ")"@,
        ),
        PredicateView::Or(l, r) => with_text(
            predicate_sql(
                database,
                *r,
                with_text(predicate_sql(database, *l, with_text(b, "("@)), " OR "@),
            ),
            ")"@,
        ),
        PredicateView::Not(inner) => with_text(
            predicate_sql(database, *inner, with_text(b, "NOT ("@)),
            ")"@,
        ),
    }
}

impl SQLBuilder {
    /// Adds one side of a comparison.
    pub fn push_side(&mut self, database: &Database, side: &ColumnPath)
        ensures
            final(self)@ == side_sql(*database, side@, old(self)@),
    {
        match side {
            ColumnPath::Physical(path) => {
                push_path(&mut self.sql, database, path, 0);
            },
            ColumnPath::Param(p) => {
                self.push_param(p.duplicate());
            },
            ColumnPath::Null => {
                self.push_str("NULL");
            },
        }
    }

    /// Adds a predicate.
    pub fn push_predicate(&mut self, database: &Database, predicate: &AbstractPredicate)
        ensures
            final(self)@ == predicate_sql(*database, predicate@, old(self)@),
        decreases predicate,
    {
        match predicate {
            AbstractPredicate::True => {
                self.push_str("TRUE");
            },
            AbstractPredicate::False => {
                self.push_str("FALSE");
            },
            AbstractPredicate::Compare(op, l, r) => {
                self.push_side(database, l);
                match op {
                    CompareOp::Eq => self.push_str(" = "),
                    CompareOp::Neq => self.push_str(" <> "),
                    CompareOp::Lt => self.push_str(" < "),
                    CompareOp::Lte => self.push_str(" <= "),
                    CompareOp::Gt => self.push_str(" > "),
                    CompareOp::Gte => self.push_str(" >= "),
                    CompareOp::EqAny => self.push_str(" = ANY("),
                }
                self.push_side(database, r);
                match op {
                    CompareOp::EqAny => self.push_str(")"),
                    _ => {
                        proof {
                            assert(self@.sql + Seq::<char>::empty() =~= self@.sql);
                        }
                    },
                }
            },
            AbstractPredicate::And(l, r) => {
                self.push_str("(");
                self.push_predicate(database, l);
                self.push_str(" AND ");
                self.push_predicate(database, r);
                self.push_str(")");
            },
            AbstractPredicate::Or(l, r) => {
                self.push_str("(");
                self.push_predicate(database, l);
                self.push_str(" OR ");
                self.push_predicate(database, r);
                self.push_str(")");
            },
            AbstractPredicate::Not(inner) => {
                self.push_str("NOT (");
                self.push_predicate(database, inner);
                self.push_str(")");
            },
        }
    }
}

/// The direction of a sort as SQL writes it.
pub open spec fn direction_sql(order: SortOrder) -> Seq<char> {
    match order {
        SortOrder::Asc => " ASC"@,
        SortOrder::Desc => " DESC"@,
    }
}

/// The sign of the distance between two vectors.
pub open spec fn distance_sign(function: VectorDistanceFunction) -> Seq<char> {
    match function {
        VectorDistanceFunction::L2 => " <-> "@,
        VectorDistanceFunction::Cosine => " <=> "@,
        VectorDistanceFunction::InnerProduct => " <#> "@,
    }
}

/// What a select is sorted by, as SQL writes it.
pub open spec fn order_expr_sql(database: Database, e: OrderByExprView, b: BuilderView) -> BuilderView {
    match e {
        OrderByExprView::Column(links) => with_text(b, path_sql(database, links, 0)),
        OrderByExprView::VectorDistance(l, r, f) => side_sql(
            database,
            r,
            with_text(side_sql(database, l, b), distance_sign(f)),
        ),
    }
}

/// The first `count` items of a sort, separated by commas.
pub open spec fn order_by_sql(
    database: Database,
    items: Seq<(OrderByExprView, SortOrder)>,
    count: int,
    b: BuilderView,
) -> BuilderView
    decreases count,
{
    if count <= 0 {
        b
    } else {
        let before = order_by_sql(database, items, count - 1, b);
        let separated = if count == 1 {
            before
        } else {
            with_text(before, ", "@)
        };
        with_text(
            order_expr_sql(database, items[count - 1].0, separated),
            direction_sql(items[count - 1].1),
        )
    }
}

/// An integer in decimal, with its sign where it is negative.
pub open spec fn integer_text(n: i64) -> Seq<char> {
    if n < 0 {
        "-"@ + decimal_text((-n) as nat)
    } else {
        decimal_text(n as nat)
    }
}

/// The column pairs of a relation; none for a relation that the database
/// does not have.
pub open spec fn relation_pairs(database: Database, relation: RelationId) -> Seq<RelationColumnPair> {
    let id = match relation {
        RelationId::ManyToOne(id) => id,
        RelationId::OneToMany(id) => id,
    };
    if id < database.relations@.len() {
        database.relations@[id as int].column_pairs@
    } else {
        Seq::empty()
    }
}

/// What follows the table of a select: the rows that it keeps, by its
/// predicate and by the relation that it is nested under, then their order
/// and how many of them are skipped and taken.
pub open spec fn tail_sql(
    database: Database,
    select: SelectView,
    relation: Option<RelationId>,
    b: BuilderView,
) -> BuilderView {
    let filtered = predicate_sql(database, select.predicate, with_text(b, " WHERE "@));
    let joined = match relation {
        Some(r) => with_text(
            filtered,
            " AND "@ + relation_join(
                database,
                relation_pairs(database, r),
                relation_pairs(database, r).len() as int,
            ),
        ),
        None => filtered,
    };
    let ordered = match select.order_by {
        Some(items) => if items.len() > 0 {
            order_by_sql(database, items, items.len() as int, with_text(joined, " ORDER BY "@))
        } else {
            joined
        },
        None => joined,
    };
    let limited = match select.limit {
        Some(Limit(n)) => with_text(ordered, " LIMIT "@ + integer_text(n)),
        None => ordered,
    };
    match select.offset {
        Some(Offset(n)) => with_text(limited, " OFFSET "@ + integer_text(n)),
        None => limited,
    }
}

/// The first `count` keys of a path into a JSON value, each after `->`.
pub open spec fn json_path_sql(path: Seq<Seq<char>>, count: int) -> Seq<char>
    decreases count,
{
    if count <= 0 {
        Seq::empty()
    } else {
        json_path_sql(path, count - 1) + "->"@ + literal(path[count - 1])
    }
}

/// A selection element as SQL writes it, with its parameters added in the
/// order in which they are written.
pub open spec fn element_sql(database: Database, e: ElementView, b: BuilderView) -> BuilderView
    decreases e, 0nat,
{
    match e {
        ElementView::Physical(c) => with_text(b, column_sql(database, c)),
        ElementView::Function(
            FunctionView::VectorDistance { column_id, distance_function, target },
        ) => with_param(
            with_text(b, column_sql(database, column_id) + distance_sign(distance_function)),
            target,
        ),
        ElementView::Function(FunctionView::Aggregate { function_name, column_id }) => with_text(
            b,
            function_name + "("@ + column_sql(database, column_id) + ")"@,
        ),
        ElementView::Null => with_text(b, "NULL"@),
        ElementView::Constant(text) => with_text(b, literal(text)),
        ElementView::Object(members) => with_text(
            members_sql(database, members, members.len() as int, with_text(b, "json_build_object("@)),
            ")"@,
        ),
        ElementView::SubSelect(relation, select) => with_text(
            select_sql(database, *select, Some(relation), with_text(b, "("@)),
            ")"@,
        ),
        ElementView::JsonExtract { source, path } => with_text(
            element_sql(database, *source, with_text(b, "("@)),
            ")"@ + json_path_sql(path, path.len() as int),
        ),
        ElementView::JsonArrayExtract { source, key } => with_text(
            element_sql(
                database,
                *source,
                with_text(
                    b,
                    "(SELECT COALESCE(json_agg(item->"@ + literal(key)
                        + "), '[]'::json) FROM json_array_elements("@,
                ),
            ),
            ") AS item)"@,
        ),
    }
}

/// The first `count` members of a JSON object as the arguments of
/// `json_build_object`: each name as a string, then its value.
pub open spec fn members_sql(
    database: Database,
    members: Seq<(Seq<char>, ElementView)>,
    count: int,
    b: BuilderView,
) -> BuilderView
    decreases members, (if count > 0 { count + 1 } else { 1 }) as nat,
{
    if count <= 0 || count > members.len() {
        b
    } else {
        let before = members_sql(database, members, count - 1, b);
        let separated = if count == 1 {
            before
        } else {
            with_text(before, ", "@)
        };
        element_sql(
            database,
            members[count - 1].1,
            with_text(separated, literal(members[count - 1].0) + ", "@),
        )
    }
}

/// The first `count` named elements as the arguments of `json_build_object`.
pub open spec fn json_pairs_sql(
    database: Database,
    items: Seq<AliasedView>,
    count: int,
    b: BuilderView,
) -> BuilderView
    decreases items, (if count > 0 { count + 1 } else { 1 }) as nat,
{
    if count <= 0 || count > items.len() {
        b
    } else {
        let before = json_pairs_sql(database, items, count - 1, b);
        let separated = if count == 1 {
            before
        } else {
            with_text(before, ", "@)
        };
        element_sql(
            database,
            items[count - 1].element,
            with_text(separated, literal(items[count - 1].alias) + ", "@),
        )
    }
}

/// The first `count` named elements as the columns of a select: each
/// element, then `AS` and its name.
pub open spec fn columns_sql(
    database: Database,
    items: Seq<AliasedView>,
    count: int,
    b: BuilderView,
) -> BuilderView
    decreases items, (if count > 0 { count + 1 } else { 1 }) as nat,
{
    if count <= 0 || count > items.len() {
        b
    } else {
        let before = columns_sql(database, items, count - 1, b);
        let separated = if count == 1 {
            before
        } else {
            with_text(before, ", "@)
        };
        with_text(
            element_sql(database, items[count - 1].element, separated),
            " AS "@ + identifier(items[count - 1].alias),
        )
    }
}

/// A select as SQL writes it. A selection of columns selects them from the
/// table. A JSON selection of one object builds the object from the row; a
/// JSON selection of many aggregates the objects of the rows that are kept,
/// in their order, and gives the empty array where none is.
pub open spec fn select_sql(
    database: Database,
    select: SelectView,
    relation: Option<RelationId>,
    b: BuilderView,
) -> BuilderView
    decreases select, 0nat,
{
    match select.selection {
        SelectionView::Columns(items) => tail_sql(
            database,
            select,
            relation,
            with_text(
                columns_sql(database, items, items.len() as int, with_text(b, "SELECT "@)),
                " FROM "@ + table_sql(database, select.table_id),
            ),
        ),
        SelectionView::Json(items, SelectionCardinality::One) => tail_sql(
            database,
            select,
            relation,
            with_text(
                json_pairs_sql(
                    database,
                    items,
                    items.len() as int,
                    with_text(b, "SELECT json_build_object("@),
                ),
                ") FROM "@ + table_sql(database, select.table_id),
            ),
        ),
        SelectionView::Json(items, SelectionCardinality::Many) => with_text(
            tail_sql(
                database,
                select,
                relation,
                with_text(
                    json_pairs_sql(
                        database,
                        items,
                        items.len() as int,
                        with_text(b, "SELECT COALESCE(json_agg(json_build_object("@),
                    ),
                    ")), '[]'::json) FROM (SELECT * FROM "@ + table_sql(database, select.table_id),
                ),
            ),
            ") AS "@ + table_sql(database, select.table_id),
        ),
    }
}

/// Adding two texts one after the other adds the two as one.
pub proof fn lemma_text_twice(b: BuilderView, first: Seq<char>, second: Seq<char>)
    ensures
        with_text(with_text(b, first), second) == with_text(b, first + second),
{
    assert((b.sql + first) + second =~= b.sql + (first + second));
}

/// Writes an integer in decimal, with its sign where it is negative.
pub fn integer_string(n: i64) -> (r: String)
    ensures
        r@ == integer_text(n),
{
    if n < 0 {
        let mut out = "-".to_owned();
        out.append(decimal((-(n as i128)) as u128).as_str());
        out
    } else {
        decimal(n as u128)
    }
}

/// The views of the items of a sort.
pub open spec fn sort_views(items: Seq<(AbstractOrderByExpr, SortOrder)>) -> Seq<
    (OrderByExprView, SortOrder),
> {
    crate::order_by::order_views(items)
}

impl SQLBuilder {
    /// Adds what a select is sorted by.
    pub fn push_order_by(&mut self, database: &Database, order_by: &AbstractOrderBy)
        ensures
            final(self)@ == order_by_sql(
                *database,
                order_by@,
                order_by@.len() as int,
                old(self)@,
            ),
    {
        let mut i: usize = 0;
        while i < order_by.0.len()
            invariant
                i <= order_by.0.len(),
                self@ == order_by_sql(*database, order_by@, i as int, old(self)@),
            decreases order_by.0.len() - i,
        {
            if i > 0 {
                self.push_str(", ");
            }
            match &order_by.0[i].0 {
                AbstractOrderByExpr::Column(path) => {
                    push_path(&mut self.sql, database, path, 0);
                },
                AbstractOrderByExpr::VectorDistance(l, r, f) => {
                    self.push_side(database, l);
                    match f {
                        VectorDistanceFunction::L2 => self.push_str(" <-> "),
                        VectorDistanceFunction::Cosine => self.push_str(" <=> "),
                        VectorDistanceFunction::InnerProduct => self.push_str(" <#> "),
                    }
                    self.push_side(database, r);
                },
            }
            match order_by.0[i].1 {
                SortOrder::Asc => self.push_str(" ASC"),
                SortOrder::Desc => self.push_str(" DESC"),
            }
            i += 1;
        }
    }

    /// Adds what follows the table of a select.
    pub fn push_tail(
        &mut self,
        database: &Database,
        select: &AbstractSelect,
        relation: Option<RelationId>,
    )
        ensures
            final(self)@ == tail_sql(*database, select@, relation, old(self)@),
    {
        self.push_str(" WHERE ");
        self.push_predicate(database, &select.predicate);
        match relation {
            Some(r) => {
                let id = match r {
                    RelationId::ManyToOne(id) => id,
                    RelationId::OneToMany(id) => id,
                };
                let mut text = " AND ".to_owned();
                if id < database.relations.len() {
                    push_relation_join(&mut text, database, &database.relations[id].column_pairs);
                } else {
                    let none: Vec<RelationColumnPair> = Vec::new();
                    push_relation_join(&mut text, database, &none);
                    proof {
                        assert(none@ =~= relation_pairs(*database, r));
                    }
                }
                self.push_str(text.as_str());
            },
            None => {},
        }
        match &select.order_by {
            Some(order_by) => {
                if order_by.0.len() > 0 {
                    self.push_str(" ORDER BY ");
                    self.push_order_by(database, order_by);
                }
            },
            None => {},
        }
        match select.limit {
            Some(Limit(n)) => {
                let mut text = " LIMIT ".to_owned();
                text.append(integer_string(n).as_str());
                self.push_str(text.as_str());
            },
            None => {},
        }
        match select.offset {
            Some(Offset(n)) => {
                let mut text = " OFFSET ".to_owned();
                text.append(integer_string(n).as_str());
                self.push_str(text.as_str());
            },
            None => {},
        }
    }

    /// Adds a selection element.
    pub fn push_element(&mut self, database: &Database, element: &SelectionElement)
        ensures
            final(self)@ == element_sql(*database, element@, old(self)@),
        decreases element, 0nat,
    {
        match element {
            SelectionElement::Physical(c) => {
                push_column(&mut self.sql, database, *c);
            },
            SelectionElement::Function(
                Function::VectorDistance { column_id, distance_function, target },
            ) => {
                let ghost start = self@;
                push_column(&mut self.sql, database, *column_id);
                match distance_function {
                    VectorDistanceFunction::L2 => self.push_str(" <-> "),
                    VectorDistanceFunction::Cosine => self.push_str(" <=> "),
                    VectorDistanceFunction::InnerProduct => self.push_str(" <#> "),
                }
                proof {
                    lemma_text_twice(
                        start,
                        column_sql(*database, *column_id),
                        distance_sign(*distance_function),
                    );
                }
                self.push_param(target.duplicate());
            },
            SelectionElement::Function(Function::Aggregate { function_name, column_id }) => {
                let mut text = function_name.clone();
                text.append("(");
                push_column(&mut text, database, *column_id);
                text.append(")");
                self.push_str(text.as_str());
            },
            SelectionElement::Null => {
                self.push_str("NULL");
            },
            SelectionElement::Constant(text) => {
                push_literal(&mut self.sql, text.as_str());
            },
            SelectionElement::Object(members) => {
                self.push_str("json_build_object(");
                let ghost opened = self@;
                let mut i: usize = 0;
                proof {
                    lemma_object_view(*members);
                }
                while i < members.len()
                    invariant
                        i <= members.len(),
                        element is Object,
                        element->Object_0 == *members,
                        self@ == members_sql(*database, member_views(members@), i as int, opened),
                    decreases members.len() - i,
                {
                    proof {
                        assert(decreases_to!(*element => element->Object_0));
                        assert(decreases_to!(*members => members[i as int]));
                        assert(decreases_to!(members[i as int] => members[i as int].1));
                    }
                    if i > 0 {
                        self.push_str(", ");
                    }
                    let ghost separated = self@;
                    push_literal(&mut self.sql, members[i].0.as_str());
                    self.push_str(", ");
                    proof {
                        lemma_text_twice(separated, literal(members@[i as int].0@), ", "@);
                    }
                    self.push_element(database, &members[i].1);
                    i += 1;
                }
                self.push_str(")");
            },
            SelectionElement::SubSelect(relation, select) => {
                self.push_str("(");
                self.push_select(database, select, Some(*relation));
                self.push_str(")");
            },
            SelectionElement::JsonExtract { source, path } => {
                self.push_str("(");
                self.push_element(database, source);
                let mut text = ")".to_owned();
                let mut i: usize = 0;
                let ghost keys = text_views(path@);
                proof {
                    assert(")"@ + json_path_sql(keys, 0) =~= ")"@);
                }
                while i < path.len()
                    invariant
                        i <= path.len(),
                        keys == text_views(path@),
                        text@ == ")"@ + json_path_sql(keys, i as int),
                    decreases path.len() - i,
                {
                    let ghost before = text@;
                    text.append("->");
                    push_literal(&mut text, path[i].as_str());
                    proof {
                        assert(text@ =~= ")"@ + json_path_sql(keys, i + 1));
                    }
                    i += 1;
                }
                self.push_str(text.as_str());
            },
            SelectionElement::JsonArrayExtract { source, key } => {
                let mut text = "(SELECT COALESCE(json_agg(item->".to_owned();
                push_literal(&mut text, key.as_str());
                text.append("), '[]'::json) FROM json_array_elements(");
                self.push_str(text.as_str());
                self.push_element(database, source);
                self.push_str(") AS item)");
            },
        }
    }

    /// Adds a select, nested under `relation` or not.
    pub fn push_select(
        &mut self,
        database: &Database,
        select: &AbstractSelect,
        relation: Option<RelationId>,
    )
        ensures
            final(self)@ == select_sql(*database, select@, relation, old(self)@),
        decreases select, 0nat,
    {
        let ghost start = self@;
        match &select.selection {
            Selection::Columns(items) => {
                self.push_str("SELECT ");
                let ghost opened = self@;
                let mut i: usize = 0;
                proof {
                    lemma_aliased_list_view(*items);
                }
                while i < items.len()
                    invariant
                        i <= items.len(),
                        select.selection is Columns,
                        select.selection->Columns_0 == *items,
                        self@ == columns_sql(*database, aliased_views(items@), i as int, opened),
                    decreases items.len() - i,
                {
                    proof {
                        assert(decreases_to!(*select => select.selection));
                        assert(decreases_to!(select.selection => select.selection->Columns_0));
                        assert(decreases_to!(*items => items[i as int]));
                        assert(decreases_to!(items[i as int] => items[i as int].element));
                    }
                    if i > 0 {
                        self.push_str(", ");
                    }
                    self.push_element(database, &items[i].element);
                    let mut text = " AS ".to_owned();
                    push_identifier(&mut text, items[i].alias.as_str());
                    self.push_str(text.as_str());
                    i += 1;
                }
                let mut text = " FROM ".to_owned();
                push_table(&mut text, database, select.table_id);
                self.push_str(text.as_str());
                self.push_tail(database, select, relation);
            },
            Selection::Json(items, cardinality) => {
                match cardinality {
                    SelectionCardinality::One => self.push_str("SELECT json_build_object("),
                    SelectionCardinality::Many => self.push_str(
                        "SELECT COALESCE(json_agg(json_build_object(",
                    ),
                }
                let ghost opened = self@;
                let mut i: usize = 0;
                proof {
                    lemma_aliased_list_view(*items);
                }
                while i < items.len()
                    invariant
                        i <= items.len(),
                        select.selection is Json,
                        select.selection->Json_0 == *items,
                        self@ == json_pairs_sql(*database, aliased_views(items@), i as int, opened),
                    decreases items.len() - i,
                {
                    proof {
                        assert(decreases_to!(*select => select.selection));
                        assert(decreases_to!(select.selection => select.selection->Json_0));
                        assert(decreases_to!(*items => items[i as int]));
                        assert(decreases_to!(items[i as int] => items[i as int].element));
                    }
                    if i > 0 {
                        self.push_str(", ");
                    }
                    let ghost separated = self@;
                    push_literal(&mut self.sql, items[i].alias.as_str());
                    self.push_str(", ");
                    proof {
                        lemma_text_twice(separated, literal(items@[i as int].alias@), ", "@);
                    }
                    self.push_element(database, &items[i].element);
                    i += 1;
                }
                match cardinality {
                    SelectionCardinality::One => {
                        let mut text = ") FROM ".to_owned();
                        push_table(&mut text, database, select.table_id);
                        self.push_str(text.as_str());
                        self.push_tail(database, select, relation);
                    },
                    SelectionCardinality::Many => {
                        let mut text = ")), '[]'::json) FROM (SELECT * FROM ".to_owned();
                        push_table(&mut text, database, select.table_id);
                        self.push_str(text.as_str());
                        self.push_tail(database, select, relation);
                        let mut closing = ") AS ".to_owned();
                        push_table(&mut closing, database, select.table_id);
                        self.push_str(closing.as_str());
                    },
                }
            },
        }
    }
}

/// The statement of a select: its SQL text, with the placeholders numbered
/// from 1 in the order in which they are written, and its parameters in that order.
pub open spec fn statement_of(database: Database, select: SelectView) -> BuilderView {
    select_sql(
        database,
        select,
        None,
        BuilderView { sql: Seq::empty(), params: Seq::empty() },
    )
}

/// Writes a select as a statement.
pub fn build_select(database: &Database, select: &AbstractSelect) -> (r: (String, Vec<SqlParam>))
    ensures
        r.0@ == statement_of(*database, select@).sql,
        param_views(r.1@) == statement_of(*database, select@).params,
{
    let mut builder = SQLBuilder::new();
    builder.push_select(database, select, None);
    builder.into_sql()
}

/// The first `count` of a list of columns, separated by commas.
pub open spec fn column_list_sql(database: Database, columns: Seq<ColumnId>, count: int) -> Seq<char>
    decreases count,
{
    if count <= 0 {
        Seq::empty()
    } else if count == 1 {
        column_sql(database, columns[0])
    } else {
        column_list_sql(database, columns, count - 1) + ", "@ + column_sql(
            database,
            columns[count - 1],
        )
    }
}

/// A select of columns as SQL writes it; a select of no column selects all.
pub open spec fn concrete_select_sql(database: Database, select: ConcreteSelectView, b: BuilderView) -> BuilderView {
    let columns = if select.columns.len() == 0 {
        "*"@
    } else {
        column_list_sql(database, select.columns, select.columns.len() as int)
    };
    let filtered = predicate_sql(
        database,
        select.predicate,
        with_text(
            b,
            "SELECT "@ + columns + " FROM "@ + table_sql(database, select.table_id) + " WHERE "@,
        ),
    );
    let ordered = match select.order_by {
        Some(items) => if items.len() > 0 {
            order_by_sql(database, items, items.len() as int, with_text(filtered, " ORDER BY "@))
        } else {
            filtered
        },
        None => filtered,
    };
    let limited = match select.limit {
        Some(Limit(n)) => with_text(ordered, " LIMIT "@ + integer_text(n)),
        None => ordered,
    };
    match select.offset {
        Some(Offset(n)) => with_text(limited, " OFFSET "@ + integer_text(n)),
        None => limited,
    }
}

/// The names of the first `count` assigned columns, separated by commas.
pub open spec fn assigned_names_sql(
    database: Database,
    assignments: Seq<(ColumnId, ConstView)>,
    count: int,
) -> Seq<char>
    decreases count,
{
    if count <= 0 {
        Seq::empty()
    } else if count == 1 {
        identifier(column_name(database, assignments[0].0))
    } else {
        assigned_names_sql(database, assignments, count - 1) + ", "@ + identifier(
            column_name(database, assignments[count - 1].0),
        )
    }
}

/// The placeholders of the first `count` assigned values, separated by commas.
pub open spec fn assigned_values_sql(
    assignments: Seq<(ColumnId, ConstView)>,
    count: int,
    b: BuilderView,
) -> BuilderView
    decreases count,
{
    if count <= 0 {
        b
    } else {
        let before = assigned_values_sql(assignments, count - 1, b);
        let separated = if count == 1 {
            before
        } else {
            with_text(before, ", "@)
        };
        with_param(separated, SqlParamView::Value(assignments[count - 1].1))
    }
}

/// The first `count` assignments of an update, separated by commas: each
/// column, `=`, and the placeholder of its value.
pub open spec fn assignments_sql(
    database: Database,
    assignments: Seq<(ColumnId, ConstView)>,
    count: int,
    b: BuilderView,
) -> BuilderView
    decreases count,
{
    if count <= 0 {
        b
    } else {
        let before = assignments_sql(database, assignments, count - 1, b);
        let separated = if count == 1 {
            before
        } else {
            with_text(before, ", "@)
        };
        with_param(
            with_text(
                separated,
                identifier(column_name(database, assignments[count - 1].0)) + " = "@,
            ),
            SqlParamView::Value(assignments[count - 1].1),
        )
    }
}

/// A statement that changes rows as SQL writes it: an insert of the assigned
/// values, an update of the rows that meet the predicate, or their removal.
pub open spec fn write_sql(database: Database, write: WriteView, b: BuilderView) -> BuilderView {
    match write.kind {
        WriteKind::Insert => with_text(
            assigned_values_sql(
                write.assignments,
                write.assignments.len() as int,
                with_text(
                    b,
                    "INSERT INTO "@ + table_sql(database, write.table_id) + " ("@
                        + assigned_names_sql(
                        database,
                        write.assignments,
                        write.assignments.len() as int,
                    ) + ") VALUES ("@,
                ),
            ),
            ")"@,
        ),
        WriteKind::Update => predicate_sql(
            database,
            write.predicate,
            with_text(
                assignments_sql(
                    database,
                    write.assignments,
                    write.assignments.len() as int,
                    with_text(b, "UPDATE "@ + table_sql(database, write.table_id) + " SET "@),
                ),
                " WHERE "@,
            ),
        ),
        WriteKind::Delete => predicate_sql(
            database,
            write.predicate,
            with_text(b, "DELETE FROM "@ + table_sql(database, write.table_id) + " WHERE "@),
        ),
    }
}

/// A statement as SQL writes it.
pub open spec fn operation_sql(database: Database, operation: OperationView) -> BuilderView {
    let empty = BuilderView { sql: Seq::empty(), params: Seq::empty() };
    match operation {
        OperationView::Select(s) => concrete_select_sql(database, s, empty),
        OperationView::Write(w) => write_sql(database, w, empty),
    }
}

fn push_column_name(out: &mut String, database: &Database, column: ColumnId)
    ensures
        final(out)@ == old(out)@ + identifier(column_name(*database, column)),
{
    if column.table_id < database.tables.len() && column.column_index
        < database.tables[column.table_id].columns.len() {
        push_identifier(
            out,
            database.tables[column.table_id].columns[column.column_index].name.as_str(),
        );
    } else {
        let mut name = "column_".to_owned();
        name.append(decimal(column.column_index as u128).as_str());
        push_identifier(out, name.as_str());
    }
}

impl SQLBuilder {
    /// Adds a select of columns.
    pub fn push_concrete_select(&mut self, database: &Database, select: &Select)
        ensures
            final(self)@ == concrete_select_sql(*database, select@, old(self)@),
    {
        let mut text = "SELECT ".to_owned();
        if select.columns.len() == 0 {
            text.append("*");
        } else {
            let mut columns = String::new();
            let mut i: usize = 0;
            while i < select.columns.len()
                invariant
                    i <= select.columns.len(),
                    columns@ == column_list_sql(*database, select.columns@, i as int),
                decreases select.columns.len() - i,
            {
                let ghost before = columns@;
                if i > 0 {
                    columns.append(", ");
                }
                push_column(&mut columns, database, select.columns[i]);
                proof {
                    if i == 0 {
                        assert(columns@ =~= column_sql(*database, select.columns@[0]));
                    }
                }
                i += 1;
            }
            text.append(columns.as_str());
        }
        text.append(" FROM ");
        push_table(&mut text, database, select.table_id);
        text.append(" WHERE ");
        self.push_str(text.as_str());
        self.push_predicate(database, &select.predicate);
        match &select.order_by {
            Some(order_by) => {
                if order_by.0.len() > 0 {
                    self.push_str(" ORDER BY ");
                    self.push_order_by(database, order_by);
                }
            },
            None => {},
        }
        match select.limit {
            Some(Limit(n)) => {
                let mut text = " LIMIT ".to_owned();
                text.append(integer_string(n).as_str());
                self.push_str(text.as_str());
            },
            None => {},
        }
        match select.offset {
            Some(Offset(n)) => {
                let mut text = " OFFSET ".to_owned();
                text.append(integer_string(n).as_str());
                self.push_str(text.as_str());
            },
            None => {},
        }
    }

    /// Adds a statement that changes rows.
    pub fn push_write(&mut self, database: &Database, write: &Write)
        ensures
            final(self)@ == write_sql(*database, write@, old(self)@),
    {
        let ghost assignments = assignment_views(write.assignments@);
        match write.kind {
            WriteKind::Insert => {
                let mut text = "INSERT INTO ".to_owned();
                push_table(&mut text, database, write.table_id);
                text.append(" (");
                let mut names = String::new();
                let mut i: usize = 0;
                while i < write.assignments.len()
                    invariant
                        i <= write.assignments.len(),
                        assignments == assignment_views(write.assignments@),
                        names@ == assigned_names_sql(*database, assignments, i as int),
                    decreases write.assignments.len() - i,
                {
                    if i > 0 {
                        names.append(", ");
                    }
                    push_column_name(&mut names, database, write.assignments[i].0);
                    proof {
                        if i == 0 {
                            assert(names@ =~= identifier(column_name(*database, assignments[0].0)));
                        }
                    }
                    i += 1;
                }
                text.append(names.as_str());
                text.append(") VALUES (");
                self.push_str(text.as_str());
                let ghost opened = self@;
                let mut k: usize = 0;
                while k < write.assignments.len()
                    invariant
                        k <= write.assignments.len(),
                        assignments == assignment_views(write.assignments@),
                        self@ == assigned_values_sql(assignments, k as int, opened),
                    decreases write.assignments.len() - k,
                {
                    if k > 0 {
                        self.push_str(", ");
                    }
                    self.push_param(SqlParam::Value(write.assignments[k].1.duplicate()));
                    k += 1;
                }
                self.push_str(")");
            },
            WriteKind::Update => {
                let mut text = "UPDATE ".to_owned();
                push_table(&mut text, database, write.table_id);
                text.append(" SET ");
                self.push_str(text.as_str());
                let ghost opened = self@;
                let mut k: usize = 0;
                while k < write.assignments.len()
                    invariant
                        k <= write.assignments.len(),
                        assignments == assignment_views(write.assignments@),
                        self@ == assignments_sql(*database, assignments, k as int, opened),
                    decreases write.assignments.len() - k,
                {
                    if k > 0 {
                        self.push_str(", ");
                    }
                    let mut name = String::new();
                    push_column_name(&mut name, database, write.assignments[k].0);
                    name.append(" = ");
                    proof {
                        assert(name@ =~= identifier(column_name(*database, assignments[k as int].0))
                            + " = "@);
                    }
                    self.push_str(name.as_str());
                    self.push_param(SqlParam::Value(write.assignments[k].1.duplicate()));
                    k += 1;
                }
                self.push_str(" WHERE ");
                self.push_predicate(database, &write.predicate);
            },
            WriteKind::Delete => {
                let mut text = "DELETE FROM ".to_owned();
                push_table(&mut text, database, write.table_id);
                text.append(" WHERE ");
                self.push_str(text.as_str());
                self.push_predicate(database, &write.predicate);
            },
        }
    }
}

impl SQLOperation {
    /// Writes the statement out: its SQL text, with the placeholders numbered
    /// from 1, and its parameters.
    pub fn build(&self, database: &Database) -> (r: (String, Vec<SqlParam>))
        ensures
            r.0@ == operation_sql(*database, self@).sql,
            param_views(r.1@) == operation_sql(*database, self@).params,
    {
        let mut builder = SQLBuilder::new();
        match self {
            SQLOperation::Select(select) => builder.push_concrete_select(database, select),
            SQLOperation::Write(write) => builder.push_write(database, write),
        }
        builder.into_sql()
    }
}

/// Every statement starts its placeholders at 1: the first parameter that
/// is added to a statement that has none is written `$1`.
pub proof fn lemma_numbering_starts_at_one(param: SqlParamView)
    ensures
        with_param(BuilderView { sql: Seq::empty(), params: Seq::empty() }, param).sql == "$"@
            + decimal_text(1),
        with_param(BuilderView { sql: Seq::empty(), params: Seq::empty() }, param).params == seq![
            param,
        ],
{
    let empty = BuilderView { sql: Seq::<char>::empty(), params: Seq::<SqlParamView>::empty() };
    assert(empty.sql + "$"@ + decimal_text(1) =~= "$"@ + decimal_text(1));
    assert(empty.params.push(param) =~= seq![param]);
}

/// Each new parameter gets the number after the last and leaves the
/// parameters before it alone.
pub proof fn lemma_parameters_are_numbered_in_order(b: BuilderView, param: SqlParamView)
    ensures
        with_param(b, param).params.len() == b.params.len() + 1,
        with_param(b, param).params.last() == param,
        with_param(b, param).params.drop_last() == b.params,
        with_param(b, param).sql == b.sql + "$"@ + decimal_text(with_param(b, param).params.len()),
{
    assert(b.params.push(param).drop_last() =~= b.params);
}

/// The database type that a parameter is bound as: a boolean, an integer and
/// a byte string as themselves, a vector as an array of single-precision
/// numbers, an array as the array of its element type, and anything else as text.
pub open spec fn param_type_name(param: SqlParamView) -> Seq<char> {
    match param {
        SqlParamView::Value(ConstView::Boolean(_)) => "BOOL"@,
        SqlParamView::Value(ConstView::Number(crate::value::NumberView::PosInt(_))) => "INT8"@,
        SqlParamView::Value(ConstView::Number(crate::value::NumberView::NegInt(_))) => "INT8"@,
        SqlParamView::Value(ConstView::Number(crate::value::NumberView::Float(_))) => "FLOAT8"@,
        SqlParamView::Value(ConstView::Binary(_)) => "BYTEA"@,
        SqlParamView::Value(_) => "TEXT"@,
        SqlParamView::Vector(_) => "FLOAT4[]"@,
        SqlParamView::Array { pg_type, .. } => pg_type + "[]"@,
    }
}

impl SqlParam {
    /// The name of the database type that this parameter is bound as.
    pub fn pg_type(&self) -> (r: String)
        ensures
            r@ == param_type_name(self@),
    {
        match self {
            SqlParam::Value(ConstValue::Boolean(_)) => "BOOL".to_owned(),
            SqlParam::Value(ConstValue::Number(n)) => match n {
                crate::value::Number::Float(_) => "FLOAT8".to_owned(),
                _ => "INT8".to_owned(),
            },
            SqlParam::Value(ConstValue::Binary(_)) => "BYTEA".to_owned(),
            SqlParam::Value(_) => "TEXT".to_owned(),
            SqlParam::Vector(_) => "FLOAT4[]".to_owned(),
            SqlParam::Array { pg_type, .. } => {
                let mut name = pg_type.clone();
                name.append("[]");
                name
            },
        }
    }
}

} // verus!
