//! What holds of every select that the planner makes.

use vstd::prelude::*;
use crate::error::ExecutionErrorView;
use crate::field::{output_name_of, FieldView};
use crate::planner::{
    aggregate_element, aggregate_elements, collection_shell, computed_placeholder,
    leaf_step_field, planned_aggregate, planned_aggregate_field, planned_collection,
    planned_elements, planned_field, planned_persistent, planned_step, planned_transitive,
    planned_unique, planned_with_content, returns_entity, step_shell, unique_shell,
    wrapped_step, wrapped_steps,
};
use crate::planner_access::{
    entity_wf, is_unauthorized, lemma_unauthorized_listed, subsystem_wf, unauthorized_names,
};
use crate::results::{collected, lemma_collected_all};
use crate::schema::{
    return_entity_id, AggregateField, AggregateQuery, CollectionQuery, EntityType, PostgresField,
    PostgresGraphQLSubsystem, PostgresRelation, TransitiveRelationStep, UniqueQuery,
};
use crate::select::{AliasedView, ElementView, FunctionView, SelectView, SelectionView};
use crate::value::ConstView;

verus! {

/// A field that may not be read is planned as SQL `NULL` under the name it
/// has in the response, whatever kind of field it is.
pub proof fn lemma_unauthorized_is_null(
    s: PostgresGraphQLSubsystem,
    context: Seq<(Seq<char>, ConstView)>,
    entity: EntityType,
    field: FieldView,
    unauthorized: Seq<Seq<char>>,
)
    requires
        unauthorized.contains(output_name_of(field)),
    ensures
        planned_field(s, context, entity, field, unauthorized) == Ok::<
            AliasedView,
            ExecutionErrorView,
        >(AliasedView { alias: output_name_of(field), element: ElementView::Null }),
{
}

/// In every select that the planner makes for a selection, the element of a
/// selected field whose read rule reduces to `False` is SQL `NULL`.
pub proof fn lemma_unauthorized_never_selected(
    s: PostgresGraphQLSubsystem,
    context: Seq<(Seq<char>, ConstView)>,
    entity: EntityType,
    shell: SelectView,
    selection: Seq<FieldView>,
    i: int,
)
    requires
        0 <= i < selection.len(),
        is_unauthorized(s, context, entity, selection[i]),
        planned_with_content(s, context, entity, shell, selection) is Ok,
    ensures
        planned_with_content(s, context, entity, shell, selection)->Ok_0.selection is Json,
        planned_with_content(s, context, entity, shell, selection)->Ok_0.selection->Json_0.len()
            == selection.len(),
        planned_with_content(s, context, entity, shell, selection)->Ok_0.selection->Json_0[i]
            == (AliasedView { alias: output_name_of(selection[i]), element: ElementView::Null }),
{
    let unauthorized = unauthorized_names(s, context, entity, selection);
    lemma_unauthorized_listed(s, context, entity, selection, i);
    let outcomes = planned_elements(s, context, entity, selection, unauthorized);
    lemma_collected_all(outcomes);
    lemma_unauthorized_is_null(s, context, entity, selection[i], unauthorized);
    assert(outcomes[i] is Ok);
}

/// The select of a unique query keeps its table, its predicate, its ordering
/// and its cut whatever is selected: planning with a selection changes
/// nothing but the selection of planning without one.
pub proof fn lemma_subfields_keep_predicate(
    s: PostgresGraphQLSubsystem,
    context: Seq<(Seq<char>, ConstView)>,
    query: UniqueQuery,
    field: FieldView,
    subfields: Seq<FieldView>,
)
    requires
        planned_unique(s, context, query, FieldView { subfields: Seq::empty(), ..field }) is Ok,
        planned_unique(s, context, query, FieldView { subfields, ..field }) is Ok,
    ensures
        ({
            let bare = planned_unique(
                s,
                context,
                query,
                FieldView { subfields: Seq::empty(), ..field },
            )->Ok_0;
            let extended = planned_unique(s, context, query, FieldView { subfields, ..field })->Ok_0;
            &&& extended.predicate == bare.predicate
            &&& extended.table_id == bare.table_id
            &&& extended.order_by == bare.order_by
            &&& extended.limit == bare.limit
            &&& extended.offset == bare.offset
        }),
{
}

/// The same holds of a collection query.
pub proof fn lemma_subfields_keep_collection_predicate(
    s: PostgresGraphQLSubsystem,
    context: Seq<(Seq<char>, ConstView)>,
    query: CollectionQuery,
    field: FieldView,
    subfields: Seq<FieldView>,
)
    requires
        planned_collection(s, context, query, FieldView { subfields: Seq::empty(), ..field }) is Ok,
        planned_collection(s, context, query, FieldView { subfields, ..field }) is Ok,
    ensures
        ({
            let bare = planned_collection(
                s,
                context,
                query,
                FieldView { subfields: Seq::empty(), ..field },
            )->Ok_0;
            let extended = planned_collection(
                s,
                context,
                query,
                FieldView { subfields, ..field },
            )->Ok_0;
            &&& extended.predicate == bare.predicate
            &&& extended.table_id == bare.table_id
            &&& extended.order_by == bare.order_by
            &&& extended.limit == bare.limit
            &&& extended.offset == bare.offset
        }),
{
}

/// The cardinality of a planned select goes by the shape of what the query
/// returns: many for a list, one otherwise.
pub proof fn lemma_cardinality_matches_return_type(
    s: PostgresGraphQLSubsystem,
    context: Seq<(Seq<char>, ConstView)>,
    query: CollectionQuery,
    field: FieldView,
)
    requires
        planned_collection(s, context, query, field) is Ok,
    ensures
        planned_collection(s, context, query, field)->Ok_0.selection is Json,
        planned_collection(s, context, query, field)->Ok_0.selection->Json_1
            == crate::planner::cardinality_of(query.return_type),
{
}

/// Whether the columns that an element names are columns of `table`, and
/// those that its nested selects name are columns of the tables of those selects.
pub open spec fn element_columns_in(e: ElementView, table: usize) -> bool
    decreases e,
{
    match e {
        ElementView::Physical(c) => c.table_id == table,
        ElementView::Function(FunctionView::VectorDistance { column_id, .. }) => column_id.table_id
            == table,
        ElementView::Function(FunctionView::Aggregate { column_id, .. }) => column_id.table_id
            == table,
        ElementView::Null => true,
        ElementView::Constant(_) => true,
        ElementView::Object(members) => forall|i: int|
            0 <= i < members.len() ==> element_columns_in((#[trigger] members[i]).1, table),
        ElementView::SubSelect(_, select) => select_columns_ok(*select),
        ElementView::JsonExtract { source, .. } => element_columns_in(*source, table),
        ElementView::JsonArrayExtract { source, .. } => element_columns_in(*source, table),
    }
}

/// Whether every column that a select names is a column of the table of the
/// select that names it.
pub open spec fn select_columns_ok(select: SelectView) -> bool
    decreases select,
{
    match select.selection {
        SelectionView::Columns(items) => forall|i: int|
            0 <= i < items.len() ==> element_columns_in(
                (#[trigger] items[i]).element,
                select.table_id,
            ),
        SelectionView::Json(items, _) => forall|i: int|
            0 <= i < items.len() ==> element_columns_in(
                (#[trigger] items[i]).element,
                select.table_id,
            ),
    }
}

/// Whether the columns of a field are columns of the table `table`.
pub open spec fn field_columns_in(f: PostgresField, table: usize) -> bool {
    match f.relation {
        PostgresRelation::Scalar { column_id, .. } => column_id.table_id == table,
        PostgresRelation::Computed(c) => forall|i: int|
            0 <= i < c.dependencies@.len() ==> (#[trigger] c.dependencies@[i]).column_id.table_id
                == table,
        _ => true,
    }
}

/// Whether the columns of every entity of a model are columns of the
/// entity's table.
pub open spec fn columns_wf(s: PostgresGraphQLSubsystem) -> bool {
    forall|e: int|
        0 <= e < s.entity_types@.len() ==> entity_columns_wf(#[trigger] s.entity_types@[e])
}

/// Whether the columns of an entity are columns of its table.
pub open spec fn entity_columns_wf(entity: EntityType) -> bool {
    &&& forall|f: int|
        0 <= f < entity.fields@.len() ==> field_columns_in(
            #[trigger] entity.fields@[f],
            entity.table_id,
        )
    &&& forall|f: int|
        0 <= f < entity.vector_distance_fields@.len() ==> (
        #[trigger] entity.vector_distance_fields@[f]).column_id.table_id == entity.table_id
}

/// Whether an element names columns only through nested selects.
pub open spec fn is_nested(e: ElementView) -> bool {
    match e {
        ElementView::SubSelect(_, _) => true,
        ElementView::JsonExtract { source, .. } => *source is SubSelect,
        ElementView::JsonArrayExtract { source, .. } => *source is SubSelect,
        _ => false,
    }
}

/// An element that names columns only through nested selects fits one table
/// as it fits any other.
pub proof fn lemma_nested_fits_any_table(e: ElementView, a: usize, b: usize)
    requires
        is_nested(e),
        element_columns_in(e, a),
    ensures
        element_columns_in(e, b),
{
    match e {
        ElementView::JsonExtract { source, .. } => {
            assert(element_columns_in(*source, a));
            assert(element_columns_in(*source, b));
        },
        ElementView::JsonArrayExtract { source, .. } => {
            assert(element_columns_in(*source, a));
            assert(element_columns_in(*source, b));
        },
        _ => {},
    }
}

/// Wrapping the steps of a chain keeps the columns where they belong.
pub proof fn lemma_wrapped_steps_columns(
    s: PostgresGraphQLSubsystem,
    context: Seq<(Seq<char>, ConstView)>,
    steps: Seq<TransitiveRelationStep>,
    index: int,
    inner: ElementView,
    table: usize,
)
    requires
        is_nested(inner),
        element_columns_in(inner, table),
        wrapped_steps(s, context, steps, index, inner) is Ok,
    ensures
        is_nested(wrapped_steps(s, context, steps, index, inner)->Ok_0),
        element_columns_in(wrapped_steps(s, context, steps, index, inner)->Ok_0, table),
    decreases index + 1,
{
    if 0 <= index < steps.len() {
        let shell = step_shell(s, context, steps[index])->Ok_0;
        let wrapped = wrapped_step(steps[index], shell, inner);
        lemma_nested_fits_any_table(inner, table, shell.table_id);
        let select = SelectView {
            selection: SelectionView::Json(
                seq![AliasedView { alias: crate::planner::TRANSITIVE_VALUE_ALIAS@, element: inner }],
                crate::planner::step_cardinality(steps[index]),
            ),
            ..shell
        };
        assert forall|i: int| 0 <= i < select.selection->Json_0.len() implies element_columns_in(
            (#[trigger] select.selection->Json_0[i]).element,
            select.table_id,
        ) by {
            assert(select.selection->Json_0[i].element == inner);
        }
        assert(select_columns_ok(select));
        let sub_select = ElementView::SubSelect(steps[index].relation_id, Box::new(select));
        assert(element_columns_in(sub_select, table));
        assert(element_columns_in(wrapped, table));
        lemma_wrapped_steps_columns(s, context, steps, index - 1, wrapped, table);
    }
}

/// Every column that a planned selection names is a column of the table of
/// the select that names it.
pub proof fn lemma_content_columns(
    s: PostgresGraphQLSubsystem,
    context: Seq<(Seq<char>, ConstView)>,
    entity_id: int,
    shell: SelectView,
    selection: Seq<FieldView>,
)
    requires
        subsystem_wf(s),
        columns_wf(s),
        0 <= entity_id < s.entity_types@.len(),
        shell.table_id == s.entity_types@[entity_id].table_id,
        planned_with_content(s, context, s.entity_types@[entity_id], shell, selection) is Ok,
    ensures
        select_columns_ok(
            planned_with_content(s, context, s.entity_types@[entity_id], shell, selection)->Ok_0,
        ),
    decreases selection, 2nat,
{
    let entity = s.entity_types@[entity_id];
    let unauthorized = unauthorized_names(s, context, entity, selection);
    let outcomes = planned_elements(s, context, entity, selection, unauthorized);
    lemma_collected_all(outcomes);
    let content = collected(outcomes)->Ok_0;
    assert forall|i: int| 0 <= i < content.len() implies element_columns_in(
        (#[trigger] content[i]).element,
        shell.table_id,
    ) by {
        assert(outcomes[i] is Ok);
        lemma_field_columns(s, context, entity_id, selection[i], unauthorized);
    }
}

/// Every column that the element of a planned field names is where it belongs.
pub proof fn lemma_field_columns(
    s: PostgresGraphQLSubsystem,
    context: Seq<(Seq<char>, ConstView)>,
    entity_id: int,
    field: FieldView,
    unauthorized: Seq<Seq<char>>,
)
    requires
        subsystem_wf(s),
        columns_wf(s),
        0 <= entity_id < s.entity_types@.len(),
        planned_field(s, context, s.entity_types@[entity_id], field, unauthorized) is Ok,
    ensures
        element_columns_in(
            planned_field(s, context, s.entity_types@[entity_id], field, unauthorized)->Ok_0.element,
            s.entity_types@[entity_id].table_id,
        ),
    decreases field.subfields, 7nat,
{
    let entity = s.entity_types@[entity_id];
    assert(entity_columns_wf(entity));
    assert(entity_wf(s, entity));
    if unauthorized.contains(output_name_of(field)) {
    } else if field.name == "__typename"@ {
    } else {
        match entity.spec_field(field.name) {
            Some(entity_field) => {
                let names = crate::schema::field_names(entity.fields@);
                crate::text::lemma_first_index(names, field.name, 0);
                let f = crate::text::index_of(names, field.name)->Some_0;
                assert(entity.fields@[f] == entity_field);
                lemma_persistent_columns(s, context, entity_field, field, entity.table_id);
            },
            None => match entity.spec_aggregate_field(field.name) {
                Some(agg) => {
                    let names = crate::schema::aggregate_names(entity.agg_fields@);
                    crate::text::lemma_first_index(names, field.name, 0);
                    let f = crate::text::index_of(names, field.name)->Some_0;
                    assert(entity.agg_fields@[f] == agg);
                    lemma_aggregate_field_columns(s, context, agg, field, entity.table_id);
                },
                None => match entity.spec_vector_distance_field(field.name) {
                    Some(v) => {
                        let names = crate::schema::vector_distance_names(
                            entity.vector_distance_fields@,
                        );
                        crate::text::lemma_first_index(names, field.name, 0);
                        let f = crate::text::index_of(names, field.name)->Some_0;
                        assert(entity.vector_distance_fields@[f] == v);
                    },
                    None => {},
                },
            },
        }
    }
}

/// Every column that the select of an aggregate field names is where it belongs.
pub proof fn lemma_aggregate_field_columns(
    s: PostgresGraphQLSubsystem,
    context: Seq<(Seq<char>, ConstView)>,
    agg: AggregateField,
    field: FieldView,
    table: usize,
)
    requires
        subsystem_wf(s),
        columns_wf(s),
        crate::planner_access::aggregate_field_wf(s, agg),
        planned_aggregate_field(s, context, agg, field) is Ok,
    ensures
        element_columns_in(planned_aggregate_field(s, context, agg, field)->Ok_0, table),
{
    match agg.relation {
        Some(PostgresRelation::OneToMany { foreign_entity_id, .. }) => {
            lemma_aggregate_columns(
                s,
                context,
                s.aggregate_queries@[foreign_entity_id as int],
                field,
            );
        },
        _ => {},
    }
}

/// Every column that the select of an aggregate query names is a column of
/// the table of the query's entity.
pub proof fn lemma_aggregate_columns(
    s: PostgresGraphQLSubsystem,
    context: Seq<(Seq<char>, ConstView)>,
    query: AggregateQuery,
    field: FieldView,
)
    requires
        subsystem_wf(s),
        columns_wf(s),
        returns_entity(s, query.return_type),
        planned_aggregate(s, context, query, field) is Ok,
    ensures
        select_columns_ok(planned_aggregate(s, context, query, field)->Ok_0),
{
    let entity = s.entity_types@[return_entity_id(query.return_type) as int];
    assert(entity_columns_wf(entity));
    let outcomes = aggregate_elements(entity, field.subfields);
    lemma_collected_all(outcomes);
    let content = collected(outcomes)->Ok_0;
    assert forall|i: int| 0 <= i < content.len() implies element_columns_in(
        (#[trigger] content[i]).element,
        entity.table_id,
    ) by {
        assert(outcomes[i] is Ok);
        let f = field.subfields[i];
        assert(outcomes[i] == aggregate_element(entity, f));
        if f.name != "__typename"@ {
            let names = crate::schema::field_names(entity.fields@);
            crate::text::lemma_first_index(names, f.name, 0);
            let k = crate::text::index_of(names, f.name)->Some_0;
            assert(field_columns_in(entity.fields@[k], entity.table_id));
            let members = content[i].element->Object_0;
            assert forall|j: int| 0 <= j < members.len() implies element_columns_in(
                (#[trigger] members[j]).1,
                entity.table_id,
            ) by {
                assert(members[j].1 is Function);
            }
        }
    }
}

/// The columns that a computed field depends on are selected from the table
/// of its entity.
pub proof fn lemma_placeholder_columns(c: crate::schema::ComputedField, table: usize)
    requires
        forall|i: int|
            0 <= i < c.dependencies@.len() ==> (#[trigger] c.dependencies@[i]).column_id.table_id
                == table,
    ensures
        element_columns_in(computed_placeholder(c), table),
{
    if c.dependencies@.len() > 0 {
        let members = computed_placeholder(c)->Object_0;
        assert forall|i: int| 0 <= i < members.len() implies element_columns_in(
            (#[trigger] members[i]).1,
            table,
        ) by {
            assert(members[i].1 == ElementView::Physical(c.dependencies@[i].column_id));
        }
    }
}

/// Every column that the element of a persistent field names is where it belongs.
pub proof fn lemma_persistent_columns(
    s: PostgresGraphQLSubsystem,
    context: Seq<(Seq<char>, ConstView)>,
    entity_field: PostgresField,
    field: FieldView,
    table: usize,
)
    requires
        subsystem_wf(s),
        columns_wf(s),
        crate::planner_access::field_wf(s, entity_field),
        field_columns_in(entity_field, table),
        planned_persistent(s, context, entity_field, field) is Ok,
    ensures
        element_columns_in(planned_persistent(s, context, entity_field, field)->Ok_0, table),
    decreases field.subfields, 6nat,
{
    match entity_field.relation {
        PostgresRelation::Scalar { .. } => {},
        PostgresRelation::ManyToOne { foreign_entity_id, .. } => {
            lemma_unique_columns(s, context, s.pk_queries@[foreign_entity_id as int], field);
        },
        PostgresRelation::OneToMany { foreign_entity_id, cardinality, .. } => {
            if cardinality is Unbounded {
                lemma_collection_columns(
                    s,
                    context,
                    s.collection_queries@[foreign_entity_id as int],
                    field,
                );
            } else {
                lemma_unique_columns(s, context, s.pk_queries@[foreign_entity_id as int], field);
            }
        },
        PostgresRelation::Computed(c) => {
            lemma_placeholder_columns(c, table);
        },
        PostgresRelation::Embedded => {},
        PostgresRelation::Transitive(steps) => {
            lemma_transitive_columns(s, context, steps@, field, table);
        },
    }
}

/// Every column that the element of a chain of relations names is where it belongs.
pub proof fn lemma_transitive_columns(
    s: PostgresGraphQLSubsystem,
    context: Seq<(Seq<char>, ConstView)>,
    steps: Seq<TransitiveRelationStep>,
    field: FieldView,
    table: usize,
)
    requires
        subsystem_wf(s),
        columns_wf(s),
        forall|i: int| 0 <= i < steps.len() ==> (#[trigger] steps[i]).entity_id < s.entity_types@.len(),
        planned_transitive(s, context, steps, field) is Ok,
    ensures
        element_columns_in(planned_transitive(s, context, steps, field)->Ok_0, table),
    decreases field.subfields, 5nat,
{
    let last = steps.last();
    assert(last == steps[steps.len() - 1]);
    let leaf = leaf_step_field(last, field);
    if crate::planner::step_is_unbounded(last) {
        lemma_collection_columns(s, context, s.collection_queries@[last.entity_id as int], leaf);
    } else {
        lemma_unique_columns(s, context, s.pk_queries@[last.entity_id as int], leaf);
    }
    let select = planned_step(s, context, last, leaf)->Ok_0;
    let first = ElementView::SubSelect(last.relation_id, Box::new(select));
    lemma_wrapped_steps_columns(s, context, steps, steps.len() - 2, first, table);
}

/// Every column that the select of a unique query names is a column of the
/// table of the select that names it.
pub proof fn lemma_unique_columns(
    s: PostgresGraphQLSubsystem,
    context: Seq<(Seq<char>, ConstView)>,
    query: UniqueQuery,
    field: FieldView,
)
    requires
        subsystem_wf(s),
        columns_wf(s),
        returns_entity(s, query.return_type),
        planned_unique(s, context, query, field) is Ok,
    ensures
        select_columns_ok(planned_unique(s, context, query, field)->Ok_0),
    decreases field.subfields, 3nat,
{
    let shell = unique_shell(s, context, query, field.arguments)->Ok_0;
    lemma_content_columns(
        s,
        context,
        return_entity_id(query.return_type) as int,
        shell,
        field.subfields,
    );
}

/// Every column that the select of a collection query names is a column of
/// the table of the select that names it.
pub proof fn lemma_collection_columns(
    s: PostgresGraphQLSubsystem,
    context: Seq<(Seq<char>, ConstView)>,
    query: CollectionQuery,
    field: FieldView,
)
    requires
        subsystem_wf(s),
        columns_wf(s),
        returns_entity(s, query.return_type),
        planned_collection(s, context, query, field) is Ok,
    ensures
        select_columns_ok(planned_collection(s, context, query, field)->Ok_0),
    decreases field.subfields, 3nat,
{
    let shell = collection_shell(s, context, query, field.arguments)->Ok_0;
    lemma_content_columns(
        s,
        context,
        return_entity_id(query.return_type) as int,
        shell,
        field.subfields,
    );
}

} // verus!
