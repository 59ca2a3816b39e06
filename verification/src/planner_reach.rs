//! Every select that the planner makes is over the table of the entity it
//! is planned for, names columns of that table only, and nests selects only
//! over the tables of the entities that its relations lead to.

use vstd::prelude::*;
use crate::field::{output_name_of, FieldView};
use crate::planner::{
    aggregate_element, aggregate_elements, collection_shell, computed_placeholder,
    leaf_step_field, planned_aggregate, planned_aggregate_field, planned_collection,
    planned_elements, planned_field, planned_persistent, planned_step, planned_transitive,
    planned_unique, planned_with_content, step_cardinality, step_is_unbounded, step_shell,
    unique_shell, wrapped_step, wrapped_steps, TRANSITIVE_VALUE_ALIAS,
};
use crate::planner_access::{entity_wf, field_wf, subsystem_wf, unauthorized_names};
use crate::planner_laws::{columns_wf, entity_columns_wf, field_columns_in};
use crate::results::{collected, lemma_collected_all};
use crate::schema::{
    return_entity_id, AggregateQuery, CollectionQuery, PostgresGraphQLSubsystem, PostgresRelation,
    RelationId, TransitiveRelationStep, UniqueQuery,
};
use crate::select::{AliasedView, ElementView, FunctionView, SelectView, SelectionView};
use crate::value::ConstView;

verus! {

/// Whether the three queries of every entity are queries on that entity.
pub open spec fn queries_fit(s: PostgresGraphQLSubsystem) -> bool {
    &&& forall|e: int|
        0 <= e < s.pk_queries@.len() ==> return_entity_id(
            (#[trigger] s.pk_queries@[e]).return_type,
        ) == e
    &&& forall|e: int|
        0 <= e < s.collection_queries@.len() ==> return_entity_id(
            (#[trigger] s.collection_queries@[e]).return_type,
        ) == e
    &&& forall|e: int|
        0 <= e < s.aggregate_queries@.len() ==> return_entity_id(
            (#[trigger] s.aggregate_queries@[e]).return_type,
        ) == e
}

/// The entity that the step at `position` of a chain starts from: the
/// entity that declares the chain for the first step, the entity that the
/// step before leads to for the others.
pub open spec fn chain_source(declaring: int, steps: Seq<TransitiveRelationStep>, position: int) -> int {
    if position == 0 {
        declaring
    } else {
        steps[position - 1].entity_id as int
    }
}

/// Whether a relation that the entity `declaring` declares leads, as `rel`,
/// from the entity `from` to the entity `to`: a relation to one or to many
/// leads from the declaring entity to the foreign one; the step `step` of a
/// chain leads from where the step before it ended to where it ends itself.
pub open spec fn relation_leads(
    relation: PostgresRelation,
    declaring: int,
    step: int,
    from: int,
    rel: RelationId,
    to: int,
) -> bool {
    match relation {
        PostgresRelation::ManyToOne { foreign_entity_id, relation_id, .. } => {
            &&& step == 0
            &&& from == declaring
            &&& rel == RelationId::ManyToOne(relation_id)
            &&& to == foreign_entity_id
        },
        PostgresRelation::OneToMany { foreign_entity_id, relation_id, .. } => {
            &&& step == 0
            &&& from == declaring
            &&& rel == RelationId::OneToMany(relation_id)
            &&& to == foreign_entity_id
        },
        PostgresRelation::Transitive(steps) => {
            &&& 0 <= step < steps@.len()
            &&& from == chain_source(declaring, steps@, step)
            &&& rel == steps@[step].relation_id
            &&& to == steps@[step].entity_id
        },
        _ => false,
    }
}

/// Whether the field at position `f` of the entity `declaring`, among its
/// aggregate fields where `aggregate` holds and among its fields where not,
/// declares a relation that leads from `from` to `to` as `rel`.
pub open spec fn declared_link(
    s: PostgresGraphQLSubsystem,
    declaring: int,
    aggregate: bool,
    f: int,
    step: int,
    from: int,
    rel: RelationId,
    to: int,
) -> bool {
    &&& 0 <= declaring < s.entity_types@.len()
    &&& if aggregate {
        &&& 0 <= f < s.entity_types@[declaring].agg_fields@.len()
        &&& s.entity_types@[declaring].agg_fields@[f].relation is Some
        &&& relation_leads(
            s.entity_types@[declaring].agg_fields@[f].relation->Some_0,
            declaring,
            step,
            from,
            rel,
            to,
        )
    } else {
        &&& 0 <= f < s.entity_types@[declaring].fields@.len()
        &&& relation_leads(s.entity_types@[declaring].fields@[f].relation, declaring, step, from, rel, to)
    }
}

/// Whether the model holds a relation `rel` that leads from the entity
/// `from` to the entity `to`.
pub open spec fn reaches(s: PostgresGraphQLSubsystem, from: int, rel: RelationId, to: int) -> bool {
    &&& 0 <= from < s.entity_types@.len()
    &&& 0 <= to < s.entity_types@.len()
    &&& exists|declaring: int, aggregate: bool, f: int, step: int| #[trigger]
        declared_link(s, declaring, aggregate, f, step, from, rel, to)
}

/// Whether an element fits a select on the entity `entity`: its columns are
/// columns of the entity's table, and each select nested in it is over an
/// entity that its relation reaches from `entity`, and fits that entity.
pub open spec fn element_fits(s: PostgresGraphQLSubsystem, e: ElementView, entity: int) -> bool
    decreases e,
{
    match e {
        ElementView::Physical(c) => c.table_id == s.entity_types@[entity].table_id,
        ElementView::Function(FunctionView::VectorDistance { column_id, .. }) => column_id.table_id
            == s.entity_types@[entity].table_id,
        ElementView::Function(FunctionView::Aggregate { column_id, .. }) => column_id.table_id
            == s.entity_types@[entity].table_id,
        ElementView::Null => true,
        ElementView::Constant(_) => true,
        ElementView::Object(members) => forall|i: int|
            0 <= i < members.len() ==> element_fits(s, (#[trigger] members[i]).1, entity),
        ElementView::SubSelect(rel, select) => exists|to: int| #[trigger]
            reaches(s, entity, rel, to) && select_fits(s, *select, to),
        ElementView::JsonExtract { source, .. } => element_fits(s, *source, entity),
        ElementView::JsonArrayExtract { source, .. } => element_fits(s, *source, entity),
    }
}

/// Whether a select fits the entity `entity`: it is over the table of the
/// entity, and everything it selects fits a select on the entity.
pub open spec fn select_fits(s: PostgresGraphQLSubsystem, select: SelectView, entity: int) -> bool
    decreases select,
{
    &&& 0 <= entity < s.entity_types@.len()
    &&& select.table_id == s.entity_types@[entity].table_id
    &&& match select.selection {
        SelectionView::Columns(items) => forall|i: int|
            0 <= i < items.len() ==> element_fits(s, (#[trigger] items[i]).element, entity),
        SelectionView::Json(items, _) => forall|i: int|
            0 <= i < items.len() ==> element_fits(s, (#[trigger] items[i]).element, entity),
    }
}

/// A select over a relation that the model holds, which fits the entity
/// that the relation leads to, fits a select on the entity it leads from.
proof fn lemma_sub_select_fits(
    s: PostgresGraphQLSubsystem,
    declaring: int,
    aggregate: bool,
    f: int,
    step: int,
    from: int,
    rel: RelationId,
    to: int,
    select: SelectView,
)
    requires
        declared_link(s, declaring, aggregate, f, step, from, rel, to),
        0 <= from < s.entity_types@.len(),
        select_fits(s, select, to),
    ensures
        element_fits(s, ElementView::SubSelect(rel, Box::new(select)), from),
{
    assert(reaches(s, from, rel, to));
    assert(reaches(s, from, rel, to) && select_fits(s, select, to));
}

/// The selection of a planned select fits the entity it is planned for.
pub proof fn lemma_content_fits(
    s: PostgresGraphQLSubsystem,
    context: Seq<(Seq<char>, ConstView)>,
    entity_id: int,
    shell: SelectView,
    selection: Seq<FieldView>,
)
    requires
        subsystem_wf(s),
        columns_wf(s),
        queries_fit(s),
        0 <= entity_id < s.entity_types@.len(),
        shell.table_id == s.entity_types@[entity_id].table_id,
        planned_with_content(s, context, s.entity_types@[entity_id], shell, selection) is Ok,
    ensures
        select_fits(
            s,
            planned_with_content(s, context, s.entity_types@[entity_id], shell, selection)->Ok_0,
            entity_id,
        ),
    decreases selection, 2nat,
{
    let entity = s.entity_types@[entity_id];
    let unauthorized = unauthorized_names(s, context, entity, selection);
    let outcomes = planned_elements(s, context, entity, selection, unauthorized);
    lemma_collected_all(outcomes);
    let content = collected(outcomes)->Ok_0;
    assert forall|i: int| 0 <= i < content.len() implies element_fits(
        s,
        (#[trigger] content[i]).element,
        entity_id,
    ) by {
        assert(outcomes[i] is Ok);
        lemma_field_fits(s, context, entity_id, selection[i], unauthorized);
    }
}

/// The element of a planned field fits a select on the field's entity.
pub proof fn lemma_field_fits(
    s: PostgresGraphQLSubsystem,
    context: Seq<(Seq<char>, ConstView)>,
    entity_id: int,
    field: FieldView,
    unauthorized: Seq<Seq<char>>,
)
    requires
        subsystem_wf(s),
        columns_wf(s),
        queries_fit(s),
        0 <= entity_id < s.entity_types@.len(),
        planned_field(s, context, s.entity_types@[entity_id], field, unauthorized) is Ok,
    ensures
        element_fits(
            s,
            planned_field(s, context, s.entity_types@[entity_id], field, unauthorized)->Ok_0.element,
            entity_id,
        ),
    decreases field.subfields, 7nat,
{
    let entity = s.entity_types@[entity_id];
    assert(entity_columns_wf(entity));
    assert(entity_wf(s, entity));
    if unauthorized.contains(output_name_of(field)) {
    } else if field.name == "__typename"@ {
    } else {
        match entity.spec_field(field.name) {
            Some(entity_field) => {
                let names = crate::schema::field_names(entity.fields@);
                crate::text::lemma_first_index(names, field.name, 0);
                let f = crate::text::index_of(names, field.name)->Some_0;
                assert(entity.fields@[f] == entity_field);
                lemma_persistent_fits(s, context, entity_id, f, field);
            },
            None => match entity.spec_aggregate_field(field.name) {
                Some(agg) => {
                    let names = crate::schema::aggregate_names(entity.agg_fields@);
                    crate::text::lemma_first_index(names, field.name, 0);
                    let f = crate::text::index_of(names, field.name)->Some_0;
                    assert(entity.agg_fields@[f] == agg);
                    lemma_aggregate_field_fits(s, context, entity_id, f, field);
                },
                None => match entity.spec_vector_distance_field(field.name) {
                    Some(v) => {
                        let names = crate::schema::vector_distance_names(
                            entity.vector_distance_fields@,
                        );
                        crate::text::lemma_first_index(names, field.name, 0);
                        let f = crate::text::index_of(names, field.name)->Some_0;
                        assert(entity.vector_distance_fields@[f] == v);
                    },
                    None => {},
                },
            },
        }
    }
}

/// The select of an aggregate field fits a select on the field's entity.
pub proof fn lemma_aggregate_field_fits(
    s: PostgresGraphQLSubsystem,
    context: Seq<(Seq<char>, ConstView)>,
    entity_id: int,
    f: int,
    field: FieldView,
)
    requires
        subsystem_wf(s),
        columns_wf(s),
        queries_fit(s),
        0 <= entity_id < s.entity_types@.len(),
        0 <= f < s.entity_types@[entity_id].agg_fields@.len(),
        planned_aggregate_field(s, context, s.entity_types@[entity_id].agg_fields@[f], field) is Ok,
    ensures
        element_fits(
            s,
            planned_aggregate_field(
                s,
                context,
                s.entity_types@[entity_id].agg_fields@[f],
                field,
            )->Ok_0,
            entity_id,
        ),
{
    let entity = s.entity_types@[entity_id];
    let agg = entity.agg_fields@[f];
    assert(entity_wf(s, entity));
    assert(crate::planner_access::aggregate_field_wf(s, agg));
    match agg.relation {
        Some(PostgresRelation::OneToMany { foreign_entity_id, relation_id, .. }) => {
            let query = s.aggregate_queries@[foreign_entity_id as int];
            assert(return_entity_id(query.return_type) == foreign_entity_id);
            lemma_aggregate_fits(s, context, query, field);
            let select = planned_aggregate(s, context, query, field)->Ok_0;
            assert(declared_link(
                s,
                entity_id,
                true,
                f,
                0,
                entity_id,
                RelationId::OneToMany(relation_id),
                foreign_entity_id as int,
            ));
            lemma_sub_select_fits(
                s,
                entity_id,
                true,
                f,
                0,
                entity_id,
                RelationId::OneToMany(relation_id),
                foreign_entity_id as int,
                select,
            );
        },
        _ => {},
    }
}

/// The select of an aggregate query fits the entity of the query.
pub proof fn lemma_aggregate_fits(
    s: PostgresGraphQLSubsystem,
    context: Seq<(Seq<char>, ConstView)>,
    query: AggregateQuery,
    field: FieldView,
)
    requires
        subsystem_wf(s),
        columns_wf(s),
        return_entity_id(query.return_type) < s.entity_types@.len(),
        planned_aggregate(s, context, query, field) is Ok,
    ensures
        select_fits(
            s,
            planned_aggregate(s, context, query, field)->Ok_0,
            return_entity_id(query.return_type) as int,
        ),
{
    let entity_id = return_entity_id(query.return_type) as int;
    let entity = s.entity_types@[entity_id];
    assert(entity_columns_wf(entity));
    let outcomes = aggregate_elements(entity, field.subfields);
    lemma_collected_all(outcomes);
    let content = collected(outcomes)->Ok_0;
    assert forall|i: int| 0 <= i < content.len() implies element_fits(
        s,
        (#[trigger] content[i]).element,
        entity_id,
    ) by {
        assert(outcomes[i] is Ok);
        let sub = field.subfields[i];
        assert(outcomes[i] == aggregate_element(entity, sub));
        if sub.name != "__typename"@ {
            let names = crate::schema::field_names(entity.fields@);
            crate::text::lemma_first_index(names, sub.name, 0);
            let k = crate::text::index_of(names, sub.name)->Some_0;
            assert(field_columns_in(entity.fields@[k], entity.table_id));
            let members = content[i].element->Object_0;
            assert forall|j: int| 0 <= j < members.len() implies element_fits(
                s,
                (#[trigger] members[j]).1,
                entity_id,
            ) by {
                assert(members[j].1 is Function);
            }
        }
    }
}

/// The columns that a computed field depends on fit a select on its entity.
proof fn lemma_placeholder_fits(
    s: PostgresGraphQLSubsystem,
    c: crate::schema::ComputedField,
    entity_id: int,
)
    requires
        0 <= entity_id < s.entity_types@.len(),
        forall|i: int|
            0 <= i < c.dependencies@.len() ==> (#[trigger] c.dependencies@[i]).column_id.table_id
                == s.entity_types@[entity_id].table_id,
    ensures
        element_fits(s, computed_placeholder(c), entity_id),
{
    if c.dependencies@.len() > 0 {
        let members = computed_placeholder(c)->Object_0;
        assert forall|i: int| 0 <= i < members.len() implies element_fits(
            s,
            (#[trigger] members[i]).1,
            entity_id,
        ) by {
            assert(members[i].1 == ElementView::Physical(c.dependencies@[i].column_id));
        }
    }
}

/// The element of a persistent field fits a select on the field's entity.
pub proof fn lemma_persistent_fits(
    s: PostgresGraphQLSubsystem,
    context: Seq<(Seq<char>, ConstView)>,
    entity_id: int,
    f: int,
    field: FieldView,
)
    requires
        subsystem_wf(s),
        columns_wf(s),
        queries_fit(s),
        0 <= entity_id < s.entity_types@.len(),
        0 <= f < s.entity_types@[entity_id].fields@.len(),
        planned_persistent(s, context, s.entity_types@[entity_id].fields@[f], field) is Ok,
    ensures
        element_fits(
            s,
            planned_persistent(s, context, s.entity_types@[entity_id].fields@[f], field)->Ok_0,
            entity_id,
        ),
    decreases field.subfields, 6nat,
{
    let entity = s.entity_types@[entity_id];
    let entity_field = entity.fields@[f];
    assert(entity_wf(s, entity));
    assert(field_wf(s, entity_field));
    assert(entity_columns_wf(entity));
    assert(field_columns_in(entity_field, entity.table_id));
    match entity_field.relation {
        PostgresRelation::Scalar { .. } => {},
        PostgresRelation::ManyToOne { foreign_entity_id, relation_id, .. } => {
            let query = s.pk_queries@[foreign_entity_id as int];
            assert(return_entity_id(query.return_type) == foreign_entity_id);
            lemma_unique_fits(s, context, query, field);
            let rel = RelationId::ManyToOne(relation_id);
            assert(declared_link(s, entity_id, false, f, 0, entity_id, rel, foreign_entity_id as int));
            lemma_sub_select_fits(
                s,
                entity_id,
                false,
                f,
                0,
                entity_id,
                rel,
                foreign_entity_id as int,
                planned_unique(s, context, query, field)->Ok_0,
            );
        },
        PostgresRelation::OneToMany { foreign_entity_id, relation_id, cardinality } => {
            let rel = RelationId::OneToMany(relation_id);
            assert(declared_link(s, entity_id, false, f, 0, entity_id, rel, foreign_entity_id as int));
            if cardinality is Unbounded {
                let query = s.collection_queries@[foreign_entity_id as int];
                assert(return_entity_id(query.return_type) == foreign_entity_id);
                lemma_collection_fits(s, context, query, field);
                lemma_sub_select_fits(
                    s,
                    entity_id,
                    false,
                    f,
                    0,
                    entity_id,
                    rel,
                    foreign_entity_id as int,
                    planned_collection(s, context, query, field)->Ok_0,
                );
            } else {
                let query = s.pk_queries@[foreign_entity_id as int];
                assert(return_entity_id(query.return_type) == foreign_entity_id);
                lemma_unique_fits(s, context, query, field);
                lemma_sub_select_fits(
                    s,
                    entity_id,
                    false,
                    f,
                    0,
                    entity_id,
                    rel,
                    foreign_entity_id as int,
                    planned_unique(s, context, query, field)->Ok_0,
                );
            }
        },
        PostgresRelation::Computed(c) => {
            lemma_placeholder_fits(s, c, entity_id);
        },
        PostgresRelation::Embedded => {},
        PostgresRelation::Transitive(steps) => {
            lemma_transitive_fits(s, context, entity_id, f, field);
        },
    }
}

/// The entity that a segment of a chain starts from is an entity of the
/// model.
proof fn lemma_chain_source_exists(
    s: PostgresGraphQLSubsystem,
    entity_id: int,
    steps: Seq<TransitiveRelationStep>,
    position: int,
)
    requires
        0 <= entity_id < s.entity_types@.len(),
        0 <= position <= steps.len(),
        forall|i: int| 0 <= i < steps.len() ==> (#[trigger] steps[i]).entity_id < s.entity_types@.len(),
    ensures
        0 <= chain_source(entity_id, steps, position) < s.entity_types@.len(),
{
    if position > 0 {
        assert(steps[position - 1].entity_id < s.entity_types@.len());
    }
}

/// The element of a chain of relations fits a select on the entity that
/// declares the chain.
pub proof fn lemma_transitive_fits(
    s: PostgresGraphQLSubsystem,
    context: Seq<(Seq<char>, ConstView)>,
    entity_id: int,
    f: int,
    field: FieldView,
)
    requires
        subsystem_wf(s),
        columns_wf(s),
        queries_fit(s),
        0 <= entity_id < s.entity_types@.len(),
        0 <= f < s.entity_types@[entity_id].fields@.len(),
        s.entity_types@[entity_id].fields@[f].relation is Transitive,
        planned_transitive(
            s,
            context,
            s.entity_types@[entity_id].fields@[f].relation->Transitive_0@,
            field,
        ) is Ok,
    ensures
        element_fits(
            s,
            planned_transitive(
                s,
                context,
                s.entity_types@[entity_id].fields@[f].relation->Transitive_0@,
                field,
            )->Ok_0,
            entity_id,
        ),
    decreases field.subfields, 5nat,
{
    let entity = s.entity_types@[entity_id];
    let steps = entity.fields@[f].relation->Transitive_0@;
    assert(entity_wf(s, entity));
    assert(field_wf(s, entity.fields@[f]));
    let n = steps.len() as int;
    let last = steps.last();
    assert(last == steps[n - 1]);
    assert(last.entity_id < s.entity_types@.len());
    let leaf = leaf_step_field(last, field);
    if step_is_unbounded(last) {
        let query = s.collection_queries@[last.entity_id as int];
        assert(return_entity_id(query.return_type) == last.entity_id);
        lemma_collection_fits(s, context, query, leaf);
    } else {
        let query = s.pk_queries@[last.entity_id as int];
        assert(return_entity_id(query.return_type) == last.entity_id);
        lemma_unique_fits(s, context, query, leaf);
    }
    let select = planned_step(s, context, last, leaf)->Ok_0;
    assert(select_fits(s, select, last.entity_id as int));
    let first = ElementView::SubSelect(last.relation_id, Box::new(select));
    let from = chain_source(entity_id, steps, n - 1);
    lemma_chain_source_exists(s, entity_id, steps, n - 1);
    assert(declared_link(s, entity_id, false, f, n - 1, from, last.relation_id, last.entity_id as int));
    lemma_sub_select_fits(
        s,
        entity_id,
        false,
        f,
        n - 1,
        from,
        last.relation_id,
        last.entity_id as int,
        select,
    );
    lemma_wrapped_steps_fit(s, context, entity_id, f, n - 2, first);
}

/// Wrapping what the later steps of a chain selected in its earlier steps
/// gives an element that fits a select on the entity that declares the chain.
proof fn lemma_wrapped_steps_fit(
    s: PostgresGraphQLSubsystem,
    context: Seq<(Seq<char>, ConstView)>,
    entity_id: int,
    f: int,
    index: int,
    inner: ElementView,
)
    requires
        subsystem_wf(s),
        queries_fit(s),
        0 <= entity_id < s.entity_types@.len(),
        0 <= f < s.entity_types@[entity_id].fields@.len(),
        s.entity_types@[entity_id].fields@[f].relation is Transitive,
        -1 <= index < s.entity_types@[entity_id].fields@[f].relation->Transitive_0@.len(),
        index + 1 <= s.entity_types@[entity_id].fields@[f].relation->Transitive_0@.len(),
        element_fits(
            s,
            inner,
            chain_source(entity_id,
                s.entity_types@[entity_id].fields@[f].relation->Transitive_0@,
                index + 1,
            ),
        ),
        wrapped_steps(
            s,
            context,
            s.entity_types@[entity_id].fields@[f].relation->Transitive_0@,
            index,
            inner,
        ) is Ok,
    ensures
        element_fits(
            s,
            wrapped_steps(
                s,
                context,
                s.entity_types@[entity_id].fields@[f].relation->Transitive_0@,
                index,
                inner,
            )->Ok_0,
            entity_id,
        ),
    decreases index + 1,
{
    let entity = s.entity_types@[entity_id];
    let steps = entity.fields@[f].relation->Transitive_0@;
    assert(entity_wf(s, entity));
    assert(field_wf(s, entity.fields@[f]));
    if 0 <= index < steps.len() {
        let step = steps[index];
        let to = step.entity_id as int;
        assert(step.entity_id < s.entity_types@.len());
        let shell = step_shell(s, context, step)->Ok_0;
        if step_is_unbounded(step) {
            assert(return_entity_id(s.collection_queries@[to].return_type) == to);
        } else {
            assert(return_entity_id(s.pk_queries@[to].return_type) == to);
        }
        assert(shell.table_id == s.entity_types@[to].table_id);
        let select = SelectView {
            selection: SelectionView::Json(
                seq![AliasedView { alias: TRANSITIVE_VALUE_ALIAS@, element: inner }],
                step_cardinality(step),
            ),
            ..shell
        };
        assert(chain_source(entity_id, steps, index + 1) == step.entity_id);
        assert forall|i: int| 0 <= i < select.selection->Json_0.len() implies element_fits(
            s,
            (#[trigger] select.selection->Json_0[i]).element,
            to,
        ) by {
            assert(select.selection->Json_0[i].element == inner);
        }
        assert(select_fits(s, select, to));
        let from = chain_source(entity_id, steps, index);
        lemma_chain_source_exists(s, entity_id, steps, index);
        assert(declared_link(s, entity_id, false, f, index, from, step.relation_id, to));
        lemma_sub_select_fits(s, entity_id, false, f, index, from, step.relation_id, to, select);
        let sub_select = ElementView::SubSelect(step.relation_id, Box::new(select));
        let wrapped = wrapped_step(step, shell, inner);
        assert(element_fits(s, sub_select, from));
        assert(element_fits(s, wrapped, from));
        lemma_wrapped_steps_fit(s, context, entity_id, f, index - 1, wrapped);
    } else {
        assert(index == -1);
        assert(chain_source(entity_id, steps, 0) == entity_id);
    }
}

/// The select that a unique query plans is over the table of the query's
/// entity, names columns of that table only, and nests selects only over
/// the tables of the entities that its relations lead to, each of which
/// holds the same in turn.
pub proof fn lemma_unique_fits(
    s: PostgresGraphQLSubsystem,
    context: Seq<(Seq<char>, ConstView)>,
    query: UniqueQuery,
    field: FieldView,
)
    requires
        subsystem_wf(s),
        columns_wf(s),
        queries_fit(s),
        return_entity_id(query.return_type) < s.entity_types@.len(),
        planned_unique(s, context, query, field) is Ok,
    ensures
        select_fits(
            s,
            planned_unique(s, context, query, field)->Ok_0,
            return_entity_id(query.return_type) as int,
        ),
    decreases field.subfields, 3nat,
{
    let shell = unique_shell(s, context, query, field.arguments)->Ok_0;
    lemma_content_fits(
        s,
        context,
        return_entity_id(query.return_type) as int,
        shell,
        field.subfields,
    );
}

/// The select that a collection query plans is over the table of the
/// query's entity, names columns of that table only, and nests selects only
/// over the tables of the entities that its relations lead to, each of
/// which holds the same in turn.
pub proof fn lemma_collection_fits(
    s: PostgresGraphQLSubsystem,
    context: Seq<(Seq<char>, ConstView)>,
    query: CollectionQuery,
    field: FieldView,
)
    requires
        subsystem_wf(s),
        columns_wf(s),
        queries_fit(s),
        return_entity_id(query.return_type) < s.entity_types@.len(),
        planned_collection(s, context, query, field) is Ok,
    ensures
        select_fits(
            s,
            planned_collection(s, context, query, field)->Ok_0,
            return_entity_id(query.return_type) as int,
        ),
    decreases field.subfields, 3nat,
{
    let shell = collection_shell(s, context, query, field.arguments)->Ok_0;
    lemma_content_fits(
        s,
        context,
        return_entity_id(query.return_type) as int,
        shell,
        field.subfields,
    );
}

} // verus!
