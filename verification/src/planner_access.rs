//! What the access rules of an entity allow for an operation on it.

use vstd::prelude::*;
use crate::access::{
    check_retrieve_access, retrieve_access, solve, solved, RequestContext,
};
use crate::error::{ExecutionErrorView, PostgresExecutionError};
use crate::field::{field_views, output_name_of, FieldView, ValidatedField};
use crate::order_by_mapper::{order_by_parameter_wf, order_by_types_wf};
use crate::predicate::{AbstractPredicate, PredicateView};
use crate::schema::{
    return_entity_id, Access, AggregateField, EntityType, PostgresField, PostgresGraphQLSubsystem,
    PostgresRelation,
};
use crate::select::text_views;
use crate::value::ConstView;

verus! {

/// The kind of an operation on an entity.
#[derive(Clone, Copy, Debug, PartialEq, Eq, Structural)]
pub enum SQLOperationKind {
    Create,
    Retrieve,
    Update,
}

/// Whether the rules that an access bundle names exist.
pub open spec fn access_wf(s: PostgresGraphQLSubsystem, a: Access) -> bool {
    &&& a.read < s.database_access_expressions@.len()
    &&& a.update_database < s.database_access_expressions@.len()
    &&& a.creation_precheck < s.precheck_access_expressions@.len()
    &&& a.update_precheck < s.precheck_access_expressions@.len()
}

/// Whether the entities that a relation names exist.
pub open spec fn relation_wf(s: PostgresGraphQLSubsystem, r: PostgresRelation) -> bool {
    match r {
        PostgresRelation::ManyToOne { foreign_entity_id, .. } => foreign_entity_id
            < s.entity_types@.len(),
        PostgresRelation::OneToMany { foreign_entity_id, .. } => foreign_entity_id
            < s.entity_types@.len(),
        PostgresRelation::Transitive(steps) => forall|i: int|
            0 <= i < steps@.len() ==> (#[trigger] steps@[i]).entity_id < s.entity_types@.len(),
        _ => true,
    }
}

/// Whether a field fits its model.
pub open spec fn field_wf(s: PostgresGraphQLSubsystem, f: PostgresField) -> bool {
    access_wf(s, f.access) && relation_wf(s, f.relation)
}

/// Whether an aggregate field fits its model.
pub open spec fn aggregate_field_wf(s: PostgresGraphQLSubsystem, f: AggregateField) -> bool {
    f.relation is Some ==> relation_wf(s, f.relation.unwrap())
}

/// Whether an entity fits its model.
pub open spec fn entity_wf(s: PostgresGraphQLSubsystem, e: EntityType) -> bool {
    &&& access_wf(s, e.access)
    &&& forall|i: int| 0 <= i < e.fields@.len() ==> field_wf(s, #[trigger] e.fields@[i])
    &&& forall|i: int|
        0 <= i < e.agg_fields@.len() ==> aggregate_field_wf(s, #[trigger] e.agg_fields@[i])
}

/// Whether a model is consistent: every entity has its three queries, and
/// every index that the model holds names something that exists.
pub open spec fn subsystem_wf(s: PostgresGraphQLSubsystem) -> bool {
    &&& s.pk_queries@.len() == s.entity_types@.len()
    &&& s.collection_queries@.len() == s.entity_types@.len()
    &&& s.aggregate_queries@.len() == s.entity_types@.len()
    &&& forall|e: int|
        0 <= e < s.entity_types@.len() ==> entity_wf(s, #[trigger] s.entity_types@[e])
    &&& forall|q: int|
        0 <= q < s.pk_queries@.len() ==> return_entity_id((#[trigger] s.pk_queries@[q]).return_type)
            < s.entity_types@.len()
    &&& forall|q: int|
        0 <= q < s.collection_queries@.len() ==> return_entity_id(
            (#[trigger] s.collection_queries@[q]).return_type,
        ) < s.entity_types@.len() && order_by_parameter_wf(
            s,
            s.collection_queries@[q].order_by_param,
        )
    &&& forall|q: int|
        0 <= q < s.aggregate_queries@.len() ==> return_entity_id(
            (#[trigger] s.aggregate_queries@[q]).return_type,
        ) < s.entity_types@.len()
    &&& order_by_types_wf(s)
}

/// What the access rules allow for an operation.
#[derive(Debug, PartialEq, Eq)]
pub struct AccessCheckOutcome {
    /// What must hold before the operation runs; checked on its own.
    pub precheck_predicate: AbstractPredicate,
    /// What the rows must meet; becomes part of the statement.
    pub entity_predicate: AbstractPredicate,
    /// The selected fields that may not be read, by the names they have in
    /// the response.
    pub unauthorized_fields: Vec<String>,
}

/// The view of an [`AccessCheckOutcome`].
pub struct AccessCheckView {
    pub precheck_predicate: PredicateView,
    pub entity_predicate: PredicateView,
    pub unauthorized_fields: Seq<Seq<char>>,
}

impl View for AccessCheckOutcome {
    type V = AccessCheckView;

    open spec fn view(&self) -> AccessCheckView {
        AccessCheckView {
            precheck_predicate: self.precheck_predicate@,
            entity_predicate: self.entity_predicate@,
            unauthorized_fields: text_views(self.unauthorized_fields@),
        }
    }
}

/// Whether a selected field names a field of the entity whose read rule
/// reduces to `False`.
pub open spec fn is_unauthorized(
    s: PostgresGraphQLSubsystem,
    context: Seq<(Seq<char>, ConstView)>,
    entity: EntityType,
    field: FieldView,
) -> bool {
    match entity.spec_field(field.name) {
        Some(f) => solved(s.database_access_expressions@[f.access.read as int], context) is False,
        None => false,
    }
}

/// The selected fields that may not be read, by the names they have in the
/// response, in the order of the selection.
pub open spec fn unauthorized_names(
    s: PostgresGraphQLSubsystem,
    context: Seq<(Seq<char>, ConstView)>,
    entity: EntityType,
    selection: Seq<FieldView>,
) -> Seq<Seq<char>>
    decreases selection.len(),
{
    if selection.len() == 0 {
        Seq::empty()
    } else {
        let before = unauthorized_names(s, context, entity, selection.drop_last());
        if is_unauthorized(s, context, entity, selection.last()) {
            before.push(output_name_of(selection.last()))
        } else {
            before
        }
    }
}

/// The predicate of a rule that forbids the operation where it reduces to `False`.
pub open spec fn gate(p: PredicateView) -> Result<PredicateView, ExecutionErrorView> {
    if p is False {
        Err(ExecutionErrorView::Authorization)
    } else {
        Ok(p)
    }
}

/// What the access rules of `entity` allow for an operation of kind `kind`
/// that selects `selection`. A retrieval is gated by the read rule, which
/// restricts the rows; a creation by its precheck; an update by its precheck
/// and by its database rule, which restricts the rows. A rule that reduces to
/// `False` forbids the operation.
pub open spec fn access_outcome(
    s: PostgresGraphQLSubsystem,
    context: Seq<(Seq<char>, ConstView)>,
    entity: EntityType,
    selection: Seq<FieldView>,
    kind: SQLOperationKind,
) -> Result<AccessCheckView, ExecutionErrorView> {
    let precheck = match kind {
        SQLOperationKind::Retrieve => Ok(PredicateView::True),
        SQLOperationKind::Create => gate(
            solved(s.precheck_access_expressions@[entity.access.creation_precheck as int], context),
        ),
        SQLOperationKind::Update => gate(
            solved(s.precheck_access_expressions@[entity.access.update_precheck as int], context),
        ),
    };
    let database = match kind {
        SQLOperationKind::Retrieve => retrieve_access(
            s.database_access_expressions@[entity.access.read as int],
            context,
        ),
        SQLOperationKind::Create => Ok(PredicateView::True),
        SQLOperationKind::Update => gate(
            solved(s.database_access_expressions@[entity.access.update_database as int], context),
        ),
    };
    match (precheck, database) {
        (Err(e), _) => Err(e),
        (_, Err(e)) => Err(e),
        (Ok(p), Ok(d)) => Ok(
            AccessCheckView {
                precheck_predicate: p,
                entity_predicate: d,
                unauthorized_fields: unauthorized_names(s, context, entity, selection),
            },
        ),
    }
}

/// The view of the outcome of an access check.
pub open spec fn access_result_view(r: Result<AccessCheckOutcome, PostgresExecutionError>) -> Result<
    AccessCheckView,
    ExecutionErrorView,
> {
    match r {
        Ok(o) => Ok(o@),
        Err(e) => Err(e@),
    }
}

/// Whether the field of the entity that `field` names may be read at all.
pub fn is_field_unauthorized(
    entity: &EntityType,
    field: &ValidatedField,
    subsystem: &PostgresGraphQLSubsystem,
    request_context: &RequestContext,
) -> (r: bool)
    requires
        entity_wf(*subsystem, *entity),
    ensures
        r == is_unauthorized(*subsystem, request_context@, *entity, field@),
{
    match entity.field_by_name(field.name.as_str()) {
        Some(f) => {
            solve(&subsystem.database_access_expressions[f.access.read], request_context).is_false()
        },
        None => false,
    }
}

/// Checks what the caller may do to `entity_type` with an operation of kind
/// `kind` that selects `selection`.
pub fn check_access(
    entity_type: &EntityType,
    selection: &Vec<ValidatedField>,
    kind: &SQLOperationKind,
    subsystem: &PostgresGraphQLSubsystem,
    request_context: &RequestContext,
) -> (r: Result<AccessCheckOutcome, PostgresExecutionError>)
    requires
        entity_wf(*subsystem, *entity_type),
    ensures
        access_result_view(r) == access_outcome(
            *subsystem,
            request_context@,
            *entity_type,
            field_views(selection@),
            *kind,
        ),
{
    let precheck_predicate = match kind {
        SQLOperationKind::Retrieve => AbstractPredicate::True,
        SQLOperationKind::Create => {
            let p = solve(
                &subsystem.precheck_access_expressions[entity_type.access.creation_precheck],
                request_context,
            );
            if p.is_false() {
                return Err(PostgresExecutionError::Authorization);
            }
            p
        },
        SQLOperationKind::Update => {
            let p = solve(
                &subsystem.precheck_access_expressions[entity_type.access.update_precheck],
                request_context,
            );
            if p.is_false() {
                return Err(PostgresExecutionError::Authorization);
            }
            p
        },
    };
    let entity_predicate = match kind {
        SQLOperationKind::Retrieve => {
            match check_retrieve_access(
                &subsystem.database_access_expressions[entity_type.access.read],
                request_context,
            ) {
                Ok(p) => p,
                Err(e) => {
                    return Err(e);
                },
            }
        },
        SQLOperationKind::Create => AbstractPredicate::True,
        SQLOperationKind::Update => {
            let p = solve(
                &subsystem.database_access_expressions[entity_type.access.update_database],
                request_context,
            );
            if p.is_false() {
                return Err(PostgresExecutionError::Authorization);
            }
            p
        },
    };
    let ghost views = field_views(selection@);
    let mut unauthorized_fields: Vec<String> = Vec::new();
    let mut i: usize = 0;
    proof {
        assert(views.take(0) =~= Seq::empty());
        assert(text_views(unauthorized_fields@) =~= Seq::empty());
    }
    while i < selection.len()
        invariant
            i <= selection.len(),
            entity_wf(*subsystem, *entity_type),
            views == field_views(selection@),
            text_views(unauthorized_fields@) == unauthorized_names(
                *subsystem,
                request_context@,
                *entity_type,
                views.take(i as int),
            ),
        decreases selection.len() - i,
    {
        let ghost before = unauthorized_fields@;
        proof {
            assert(views.take(i + 1).drop_last() =~= views.take(i as int));
            assert(views.take(i + 1).last() == selection@[i as int]@);
        }
        if is_field_unauthorized(entity_type, &selection[i], subsystem, request_context) {
            let name = selection[i].output_name();
            unauthorized_fields.push(name);
            proof {
                assert(text_views(unauthorized_fields@) =~= text_views(before).push(name@));
            }
        }
        i += 1;
    }
    proof {
        assert(views.take(i as int) =~= views);
    }
    Ok(AccessCheckOutcome { precheck_predicate, entity_predicate, unauthorized_fields })
}

/// Whether `names` holds `name`.
pub fn contains_name(names: &Vec<String>, name: &str) -> (r: bool)
    ensures
        r == text_views(names@).contains(name@),
{
    let mut i: usize = 0;
    while i < names.len()
        invariant
            i <= names.len(),
            forall|j: int| 0 <= j < i ==> names@[j]@ != name@,
        decreases names.len() - i,
    {
        if crate::text::str_eq(names[i].as_str(), name) {
            assert(text_views(names@)[i as int] == name@);
            return true;
        }
        i += 1;
    }
    assert forall|j: int| 0 <= j < text_views(names@).len() implies text_views(names@)[j]
        != name@ by {
        assert(names@[j]@ != name@);
    }
    false
}

/// A field whose read rule reduces to `False` is listed as unauthorized
/// under the name it has in the response, whatever kind of field it is.
pub proof fn lemma_unauthorized_listed(
    s: PostgresGraphQLSubsystem,
    context: Seq<(Seq<char>, ConstView)>,
    entity: EntityType,
    selection: Seq<FieldView>,
    i: int,
)
    requires
        0 <= i < selection.len(),
        is_unauthorized(s, context, entity, selection[i]),
    ensures
        unauthorized_names(s, context, entity, selection).contains(output_name_of(selection[i])),
    decreases selection.len(),
{
    let before = unauthorized_names(s, context, entity, selection.drop_last());
    if i == selection.len() - 1 {
        let all = unauthorized_names(s, context, entity, selection);
        assert(all == before.push(output_name_of(selection.last())));
        assert(all[all.len() - 1] == output_name_of(selection[i]));
    } else {
        lemma_unauthorized_listed(s, context, entity, selection.drop_last(), i);
        assert(selection.drop_last()[i] == selection[i]);
        let k = choose|k: int| 0 <= k < before.len() && before[k] == output_name_of(selection[i]);
        let all = unauthorized_names(s, context, entity, selection);
        assert(all[k] == output_name_of(selection[i]));
    }
}

} // verus!
