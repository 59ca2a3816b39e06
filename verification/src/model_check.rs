//! Tests of the consistency of a model, for callers that built the model
//! themselves and want to plan against it.

use vstd::prelude::*;
use crate::computed_fields::{
    computed_wf, field_operation_return_type, field_type_wf, lemma_shape_entity,
};
use crate::order_by_mapper::{order_by_parameter_wf, order_by_type_wf, order_by_types_wf};
use crate::planner_reach::queries_fit;
use crate::planner_access::{
    access_wf, aggregate_field_wf, entity_wf, field_wf, relation_wf, subsystem_wf,
};
use crate::schema::{
    return_entity_id, Access, AggregateField, EntityType, OrderByParameter, OrderByParameterType,
    OrderByParameterTypeKind, PostgresField, PostgresGraphQLSubsystem, PostgresRelation,
};

verus! {

fn access_ok(s: &PostgresGraphQLSubsystem, a: &Access) -> (r: bool)
    ensures
        r == access_wf(*s, *a),
{
    a.read < s.database_access_expressions.len() && a.update_database
        < s.database_access_expressions.len() && a.creation_precheck
        < s.precheck_access_expressions.len() && a.update_precheck
        < s.precheck_access_expressions.len()
}

fn relation_ok(s: &PostgresGraphQLSubsystem, relation: &PostgresRelation) -> (r: bool)
    ensures
        r == relation_wf(*s, *relation),
{
    match relation {
        PostgresRelation::ManyToOne { foreign_entity_id, .. } => *foreign_entity_id
            < s.entity_types.len(),
        PostgresRelation::OneToMany { foreign_entity_id, .. } => *foreign_entity_id
            < s.entity_types.len(),
        PostgresRelation::Transitive(steps) => {
            let mut i: usize = 0;
            while i < steps.len()
                invariant
                    i <= steps.len(),
                    *relation == PostgresRelation::Transitive(*steps),
                    forall|j: int|
                        0 <= j < i ==> (#[trigger] steps@[j]).entity_id < s.entity_types@.len(),
                decreases steps.len() - i,
            {
                if steps[i].entity_id >= s.entity_types.len() {
                    proof {
                        assert(!(steps@[i as int].entity_id < s.entity_types@.len()));
                    }
                    return false;
                }
                i += 1;
            }
            true
        },
        _ => true,
    }
}

fn field_ok(s: &PostgresGraphQLSubsystem, f: &PostgresField) -> (r: bool)
    ensures
        r == field_wf(*s, *f),
{
    access_ok(s, &f.access) && relation_ok(s, &f.relation)
}

fn aggregate_field_ok(s: &PostgresGraphQLSubsystem, f: &AggregateField) -> (r: bool)
    ensures
        r == aggregate_field_wf(*s, *f),
{
    match &f.relation {
        Some(relation) => relation_ok(s, relation),
        None => true,
    }
}

fn entity_ok(s: &PostgresGraphQLSubsystem, e: &EntityType) -> (r: bool)
    ensures
        r == entity_wf(*s, *e),
{
    if !access_ok(s, &e.access) {
        return false;
    }
    let mut i: usize = 0;
    while i < e.fields.len()
        invariant
            i <= e.fields.len(),
            forall|j: int| 0 <= j < i ==> field_wf(*s, #[trigger] e.fields@[j]),
        decreases e.fields.len() - i,
    {
        if !field_ok(s, &e.fields[i]) {
            return false;
        }
        i += 1;
    }
    let mut k: usize = 0;
    while k < e.agg_fields.len()
        invariant
            k <= e.agg_fields.len(),
            access_wf(*s, e.access),
            forall|j: int| 0 <= j < e.fields@.len() ==> field_wf(*s, #[trigger] e.fields@[j]),
            forall|j: int| 0 <= j < k ==> aggregate_field_wf(*s, #[trigger] e.agg_fields@[j]),
        decreases e.agg_fields.len() - k,
    {
        if !aggregate_field_ok(s, &e.agg_fields[k]) {
            return false;
        }
        k += 1;
    }
    true
}

fn order_by_parameter_ok(s: &PostgresGraphQLSubsystem, p: &OrderByParameter) -> (r: bool)
    ensures
        r == order_by_parameter_wf(*s, *p),
{
    if p.type_id >= s.order_by_types.len() {
        return false;
    }
    let access_fits = match p.access {
        Some(read) => read < s.database_access_expressions.len(),
        None => true,
    };
    if !access_fits {
        return false;
    }
    match &s.order_by_types[p.type_id].kind {
        OrderByParameterTypeKind::Composite { .. } => true,
        _ => p.column_path_link.is_some(),
    }
}

fn order_by_type_ok(s: &PostgresGraphQLSubsystem, t: &OrderByParameterType) -> (r: bool)
    ensures
        r == order_by_type_wf(*s, *t),
{
    match &t.kind {
        OrderByParameterTypeKind::Composite { parameters } => {
            let mut i: usize = 0;
            while i < parameters.len()
                invariant
                    i <= parameters.len(),
                    t.kind == (OrderByParameterTypeKind::Composite { parameters: *parameters }),
                    forall|j: int|
                        0 <= j < i ==> order_by_parameter_wf(*s, #[trigger] parameters@[j]),
                decreases parameters.len() - i,
            {
                if !order_by_parameter_ok(s, &parameters[i]) {
                    proof {
                        assert(t.kind->Composite_parameters == *parameters);
                        assert(!order_by_parameter_wf(*s, parameters@[i as int]));
                    }
                    return false;
                }
                i += 1;
            }
            true
        },
        _ => true,
    }
}

fn order_by_types_ok(s: &PostgresGraphQLSubsystem) -> (r: bool)
    ensures
        r == order_by_types_wf(*s),
{
    let mut i: usize = 0;
    while i < s.order_by_types.len()
        invariant
            i <= s.order_by_types.len(),
            forall|j: int| 0 <= j < i ==> order_by_type_wf(*s, #[trigger] s.order_by_types@[j]),
        decreases s.order_by_types.len() - i,
    {
        if !order_by_type_ok(s, &s.order_by_types[i]) {
            return false;
        }
        i += 1;
    }
    true
}

fn entities_ok(s: &PostgresGraphQLSubsystem) -> (r: bool)
    ensures
        r == forall|e: int|
            0 <= e < s.entity_types@.len() ==> entity_wf(*s, #[trigger] s.entity_types@[e]),
{
    let mut i: usize = 0;
    while i < s.entity_types.len()
        invariant
            i <= s.entity_types.len(),
            forall|j: int| 0 <= j < i ==> entity_wf(*s, #[trigger] s.entity_types@[j]),
        decreases s.entity_types.len() - i,
    {
        if !entity_ok(s, &s.entity_types[i]) {
            return false;
        }
        i += 1;
    }
    true
}

fn queries_ok(s: &PostgresGraphQLSubsystem) -> (r: bool)
    ensures
        r == {
            &&& forall|q: int|
                0 <= q < s.pk_queries@.len() ==> return_entity_id(
                    (#[trigger] s.pk_queries@[q]).return_type,
                ) < s.entity_types@.len()
            &&& forall|q: int|
                0 <= q < s.collection_queries@.len() ==> return_entity_id(
                    (#[trigger] s.collection_queries@[q]).return_type,
                ) < s.entity_types@.len() && order_by_parameter_wf(
                    *s,
                    s.collection_queries@[q].order_by_param,
                )
            &&& forall|q: int|
                0 <= q < s.aggregate_queries@.len() ==> return_entity_id(
                    (#[trigger] s.aggregate_queries@[q]).return_type,
                ) < s.entity_types@.len()
        },
{
    let n = s.entity_types.len();
    let mut i: usize = 0;
    while i < s.pk_queries.len()
        invariant
            i <= s.pk_queries.len(),
            n == s.entity_types@.len(),
            forall|q: int|
                0 <= q < i ==> return_entity_id((#[trigger] s.pk_queries@[q]).return_type) < n,
        decreases s.pk_queries.len() - i,
    {
        if s.pk_queries[i].return_type.entity_id() >= n {
            return false;
        }
        i += 1;
    }
    let mut j: usize = 0;
    while j < s.collection_queries.len()
        invariant
            j <= s.collection_queries.len(),
            n == s.entity_types@.len(),
            forall|q: int|
                0 <= q < s.pk_queries@.len() ==> return_entity_id(
                    (#[trigger] s.pk_queries@[q]).return_type,
                ) < n,
            forall|q: int|
                0 <= q < j ==> return_entity_id((#[trigger] s.collection_queries@[q]).return_type)
                    < n && order_by_parameter_wf(*s, s.collection_queries@[q].order_by_param),
        decreases s.collection_queries.len() - j,
    {
        if s.collection_queries[j].return_type.entity_id() >= n {
            return false;
        }
        if !order_by_parameter_ok(s, &s.collection_queries[j].order_by_param) {
            return false;
        }
        j += 1;
    }
    let mut k: usize = 0;
    while k < s.aggregate_queries.len()
        invariant
            k <= s.aggregate_queries.len(),
            n == s.entity_types@.len(),
            forall|q: int|
                0 <= q < s.pk_queries@.len() ==> return_entity_id(
                    (#[trigger] s.pk_queries@[q]).return_type,
                ) < n,
            forall|q: int|
                0 <= q < s.collection_queries@.len() ==> return_entity_id(
                    (#[trigger] s.collection_queries@[q]).return_type,
                ) < n && order_by_parameter_wf(*s, s.collection_queries@[q].order_by_param),
            forall|q: int|
                0 <= q < k ==> return_entity_id((#[trigger] s.aggregate_queries@[q]).return_type)
                    < n,
        decreases s.aggregate_queries.len() - k,
    {
        if s.aggregate_queries[k].return_type.entity_id() >= n {
            return false;
        }
        k += 1;
    }
    true
}

impl PostgresGraphQLSubsystem {
    /// Tests whether the three queries of every entity are queries on that
    /// entity.
    pub fn has_fitting_queries(&self) -> (r: bool)
        ensures
            r == queries_fit(*self),
    {
        let mut e: usize = 0;
        while e < self.pk_queries.len()
            invariant
                e <= self.pk_queries.len(),
                forall|i: int|
                    0 <= i < e ==> return_entity_id((#[trigger] self.pk_queries@[i]).return_type)
                        == i,
            decreases self.pk_queries.len() - e,
        {
            if self.pk_queries[e].return_type.entity_id() != e {
                return false;
            }
            e += 1;
        }
        let mut e: usize = 0;
        while e < self.collection_queries.len()
            invariant
                e <= self.collection_queries.len(),
                forall|i: int|
                    0 <= i < self.pk_queries@.len() ==> return_entity_id(
                        (#[trigger] self.pk_queries@[i]).return_type,
                    ) == i,
                forall|i: int|
                    0 <= i < e ==> return_entity_id(
                        (#[trigger] self.collection_queries@[i]).return_type,
                    ) == i,
            decreases self.collection_queries.len() - e,
        {
            if self.collection_queries[e].return_type.entity_id() != e {
                return false;
            }
            e += 1;
        }
        let mut e: usize = 0;
        while e < self.aggregate_queries.len()
            invariant
                e <= self.aggregate_queries.len(),
                forall|i: int|
                    0 <= i < self.pk_queries@.len() ==> return_entity_id(
                        (#[trigger] self.pk_queries@[i]).return_type,
                    ) == i,
                forall|i: int|
                    0 <= i < self.collection_queries@.len() ==> return_entity_id(
                        (#[trigger] self.collection_queries@[i]).return_type,
                    ) == i,
                forall|i: int|
                    0 <= i < e ==> return_entity_id(
                        (#[trigger] self.aggregate_queries@[i]).return_type,
                    ) == i,
            decreases self.aggregate_queries.len() - e,
        {
            if self.aggregate_queries[e].return_type.entity_id() != e {
                return false;
            }
            e += 1;
        }
        true
    }

    /// Tests whether the model is consistent, as planning asks.
    pub fn is_consistent(&self) -> (r: bool)
        ensures
            r == subsystem_wf(*self),
    {
        let n = self.entity_types.len();
        if self.pk_queries.len() != n || self.collection_queries.len() != n
            || self.aggregate_queries.len() != n {
            return false;
        }
        entities_ok(self) && queries_ok(self) && order_by_types_ok(self)
    }

    /// Tests whether the model is fit for computing fields.
    pub fn is_fit_for_computed_fields(&self) -> (r: bool)
        ensures
            r == computed_wf(*self),
    {
        if !self.is_consistent() {
            return false;
        }
        let mut e: usize = 0;
        while e < self.entity_types.len()
            invariant
                e <= self.entity_types.len(),
                subsystem_wf(*self),
                forall|i: int, f: int|
                    #![trigger self.entity_types@[i].fields@[f]]
                    0 <= i < e && 0 <= f < self.entity_types@[i].fields@.len() ==> {
                        &&& field_type_wf(*self, self.entity_types@[i].fields@[f].typ)
                        &&& (self.entity_types@[i].fields@[f].relation matches PostgresRelation::Computed(
                            c,
                        ) ==> c.script_id < self.computed_scripts@.len())
                    },
            decreases self.entity_types.len() - e,
        {
            let entity = &self.entity_types[e];
            let mut f: usize = 0;
            while f < entity.fields.len()
                invariant
                    f <= entity.fields.len(),
                    e < self.entity_types.len(),
                    *entity == self.entity_types@[e as int],
                    forall|k: int|
                        0 <= k < f ==> {
                            &&& field_type_wf(*self, (#[trigger] entity.fields@[k]).typ)
                            &&& (entity.fields@[k].relation matches PostgresRelation::Computed(c)
                                ==> c.script_id < self.computed_scripts@.len())
                        },
                decreases entity.fields.len() - f,
            {
                let field = &entity.fields[f];
                match field_operation_return_type(&field.typ) {
                    Some(t) => {
                        proof {
                            lemma_shape_entity(t);
                        }
                        if t.entity_id() >= self.entity_types.len() {
                            proof {
                                assert(!field_type_wf(
                                    *self,
                                    self.entity_types@[e as int].fields@[f as int].typ,
                                ));
                            }
                            return false;
                        }
                    },
                    None => {},
                }
                match &field.relation {
                    PostgresRelation::Computed(c) => {
                        if c.script_id >= self.computed_scripts.len() {
                            proof {
                                assert(self.entity_types@[e as int].fields@[f as int].relation
                                    == PostgresRelation::Computed(*c));
                            }
                            return false;
                        }
                    },
                    _ => {},
                }
                f += 1;
            }
            e += 1;
        }
        true
    }
}

} // verus!
