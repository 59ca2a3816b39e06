//! The selection planner: from a validated field of a query to the select
//! that answers it.

use vstd::prelude::*;
use crate::access::{check_retrieve_access, retrieve_access, RequestContext};
use crate::column_path::{PhysicalColumnPath};
use crate::error::{ExecutionErrorView, PostgresExecutionError};
use crate::field::{
    duplicate_fields, duplicate_text_option, field_views, lemma_subfield_views, output_name_of,
    FieldView, ValidatedField,
};
use crate::order_by::{OrderByComputation, OrderByComputationView};
use crate::order_by_mapper::{
    order_by_sql, pg_vector_of, to_pg_vector, OrderByParameterInput,
};
use crate::planner_access::{
    check_access, contains_name, entity_wf, subsystem_wf, unauthorized_names, SQLOperationKind,
};
use crate::predicate::{
    and_view, AbstractPredicate, ColumnPath, ColumnPathView, CompareOp, PredicateView, SqlParam,
    SqlParamView,
};
use crate::results::{collected, lemma_collected_error_stays, lemma_collected_step};
use crate::schema::{
    return_entity_id, AggregateField, AggregateQuery, CollectionQuery, ComputedField, EntityType,
    OperationReturnType, OrderByParameter, PostgresField, PostgresGraphQLSubsystem,
    PostgresRelation, PredicateParameter, RelationCardinality, RelationId, TransitiveRelationStep,
    UniqueQuery, VectorDistanceField,
};
use crate::select::{
    aliased_views, lemma_aliased_list_view, lemma_object_view, member_views, AbstractSelect,
    AliasedSelectionElement, AliasedView, ElementView, Function, FunctionView, Limit, Offset,
    SelectView, Selection, SelectionCardinality, SelectionElement, SelectionView,
};
use crate::text::{concat3, owned, str_eq};
use crate::value::{
    const_field_views, const_get, lookup, ConstValue, ConstView, Number, NumberView,
};

verus! {

/// The view of the outcome of a function that gives a select or fails.
pub open spec fn select_result_view(r: Result<AbstractSelect, PostgresExecutionError>) -> Result<
    SelectView,
    ExecutionErrorView,
> {
    match r {
        Ok(s) => Ok(s@),
        Err(e) => Err(e@),
    }
}

/// The view of the outcome of a function that gives a selection element or fails.
pub open spec fn element_result_view(r: Result<SelectionElement, PostgresExecutionError>) -> Result<
    ElementView,
    ExecutionErrorView,
> {
    match r {
        Ok(s) => Ok(s@),
        Err(e) => Err(e@),
    }
}

/// The predicate that a predicate parameter stands for, given its value: the
/// column that the parameter names equals the value. A parameter that reaches
/// its column through a relation is refused while the entity's rows are
/// restricted.
pub open spec fn param_predicate(param: PredicateParameter, value: ConstView, restrict_relations: bool) -> Result<
    PredicateView,
    ExecutionErrorView,
> {
    match param.column_path_link {
        None => Err(ExecutionErrorView::Validation(param.name@, "Invalid predicate parameter"@)),
        Some(link) => if restrict_relations && link is Relation {
            Err(ExecutionErrorView::Authorization)
        } else {
            Ok(
                PredicateView::Compare(
                    CompareOp::Eq,
                    ColumnPathView::Physical(seq![link@]),
                    ColumnPathView::Param(SqlParamView::Value(value)),
                ),
            )
        },
    }
}

/// The predicate of a query: the conjunction, in the order of the
/// parameters, of the predicates of the parameters that were given a value.
pub open spec fn params_predicate(
    params: Seq<PredicateParameter>,
    arguments: Seq<(Seq<char>, ConstView)>,
    restrict_relations: bool,
) -> Result<PredicateView, ExecutionErrorView>
    decreases params.len(),
{
    if params.len() == 0 {
        Ok(PredicateView::True)
    } else {
        match params_predicate(params.drop_last(), arguments, restrict_relations) {
            Err(e) => Err(e),
            Ok(before) => match lookup(arguments, params.last().name@) {
                None => Ok(before),
                Some(value) => match param_predicate(params.last(), value, restrict_relations) {
                    Err(e) => Err(e),
                    Ok(p) => Ok(and_view(before, p)),
                },
            },
        }
    }
}

fn map_predicate_param(param: &PredicateParameter, value: &ConstValue, restrict_relations: bool) -> (r:
    Result<AbstractPredicate, PostgresExecutionError>)
    ensures
        crate::access::predicate_result_view(r) == param_predicate(
            *param,
            value@,
            restrict_relations,
        ),
{
    match &param.column_path_link {
        None => Err(
            PostgresExecutionError::validation(param.name.as_str(), "Invalid predicate parameter"),
        ),
        Some(link) => {
            if restrict_relations && !link.is_leaf() {
                Err(PostgresExecutionError::Authorization)
            } else {
                Ok(
                    AbstractPredicate::Compare(
                        CompareOp::Eq,
                        ColumnPath::Physical(PhysicalColumnPath::init(link.duplicate())),
                        ColumnPath::Param(SqlParam::Value(value.duplicate())),
                    ),
                )
            }
        },
    }
}

/// Composes the predicate of a query from its parameters and the arguments given.
pub fn compute_predicate(
    params: &Vec<PredicateParameter>,
    arguments: &Vec<(String, ConstValue)>,
    restrict_relations: bool,
) -> (r: Result<AbstractPredicate, PostgresExecutionError>)
    ensures
        crate::access::predicate_result_view(r) == params_predicate(
            params@,
            const_field_views(arguments@),
            restrict_relations,
        ),
{
    let mut predicate = AbstractPredicate::True;
    let mut i: usize = 0;
    proof {
        assert(params@.take(0) =~= Seq::empty());
    }
    while i < params.len()
        invariant
            i <= params.len(),
            params_predicate(params@.take(i as int), const_field_views(arguments@), restrict_relations)
                == Ok::<PredicateView, ExecutionErrorView>(predicate@),
        decreases params.len() - i,
    {
        proof {
            assert(params@.take(i + 1).drop_last() =~= params@.take(i as int));
            assert(params@.take(i + 1).last() == params@[i as int]);
        }
        match const_get(arguments, params[i].name.as_str()) {
            None => {},
            Some(value) => {
                match map_predicate_param(&params[i], value, restrict_relations) {
                    Ok(p) => {
                        predicate = AbstractPredicate::and(predicate, p);
                    },
                    Err(e) => {
                        proof {
                            lemma_params_error_stays(
                                params@,
                                const_field_views(arguments@),
                                restrict_relations,
                                i + 1,
                            );
                        }
                        return Err(e);
                    },
                }
            },
        }
        i += 1;
    }
    proof {
        assert(params@.take(i as int) =~= params@);
    }
    Ok(predicate)
}

/// An error among the first parameters is the error of all of them.
pub proof fn lemma_params_error_stays(
    params: Seq<PredicateParameter>,
    arguments: Seq<(Seq<char>, ConstView)>,
    restrict_relations: bool,
    i: int,
)
    requires
        0 <= i <= params.len(),
        params_predicate(params.take(i), arguments, restrict_relations) is Err,
    ensures
        params_predicate(params, arguments, restrict_relations) == params_predicate(
            params.take(i),
            arguments,
            restrict_relations,
        ),
    decreases params.len() - i,
{
    if i == params.len() {
        assert(params.take(i) =~= params);
    } else {
        assert(params.take(i + 1).drop_last() =~= params.take(i));
        lemma_params_error_stays(params, arguments, restrict_relations, i + 1);
    }
}

/// The integer given for the argument `name`, if the argument was given.
pub open spec fn integer_argument(arguments: Seq<(Seq<char>, ConstView)>, name: Seq<char>) -> Result<
    Option<i64>,
    ExecutionErrorView,
> {
    match lookup(arguments, name) {
        None => Ok(None),
        Some(ConstView::Number(NumberView::PosInt(u))) => if u <= i64::MAX {
            Ok(Some(u as i64))
        } else {
            Err(ExecutionErrorView::Validation(name, "Expected an integer"@))
        },
        Some(ConstView::Number(NumberView::NegInt(i))) => Ok(Some(i)),
        Some(_) => Err(ExecutionErrorView::Validation(name, "Expected an integer"@)),
    }
}

/// The view of the outcome of a function that gives an optional integer or fails.
pub open spec fn integer_result_view(r: Result<Option<i64>, PostgresExecutionError>) -> Result<
    Option<i64>,
    ExecutionErrorView,
> {
    match r {
        Ok(v) => Ok(v),
        Err(e) => Err(e@),
    }
}

/// Reads the integer given for an argument such as a limit or an offset.
pub fn extract_integer(arguments: &Vec<(String, ConstValue)>, name: &str) -> (r: Result<
    Option<i64>,
    PostgresExecutionError,
>)
    ensures
        integer_result_view(r) == integer_argument(const_field_views(arguments@), name@),
{
    match const_get(arguments, name) {
        None => Ok(None),
        Some(ConstValue::Number(Number::PosInt(u))) => {
            if *u <= 0x7fff_ffff_ffff_ffff {
                Ok(Some(*u as i64))
            } else {
                Err(PostgresExecutionError::validation(name, "Expected an integer"))
            }
        },
        Some(ConstValue::Number(Number::NegInt(i))) => Ok(Some(*i)),
        Some(_) => Err(PostgresExecutionError::validation(name, "Expected an integer")),
    }
}

/// The ordering given for the order-by parameter of a query, if one was given.
pub open spec fn order_by_argument(
    s: PostgresGraphQLSubsystem,
    context: Seq<(Seq<char>, ConstView)>,
    param: OrderByParameter,
    arguments: Seq<(Seq<char>, ConstView)>,
) -> Result<Option<OrderByComputationView>, ExecutionErrorView> {
    match lookup(arguments, param.name@) {
        None => Ok(None),
        Some(value) => match order_by_sql(s, context, param, None, value) {
            Ok(c) => Ok(Some(c)),
            Err(e) => Err(e),
        },
    }
}

/// The view of the outcome of a function that gives an optional ordering or fails.
pub open spec fn order_by_result_view(
    r: Result<Option<OrderByComputation>, PostgresExecutionError>,
) -> Result<Option<OrderByComputationView>, ExecutionErrorView> {
    match r {
        Ok(Some(c)) => Ok(Some(c@)),
        Ok(None) => Ok(None),
        Err(e) => Err(e@),
    }
}

/// Maps the order-by argument of a query, if one was given.
pub fn compute_order_by(
    param: &OrderByParameter,
    arguments: &Vec<(String, ConstValue)>,
    subsystem: &PostgresGraphQLSubsystem,
    request_context: &RequestContext,
) -> (r: Result<Option<OrderByComputation>, PostgresExecutionError>)
    requires
        crate::order_by_mapper::order_by_types_wf(*subsystem),
        crate::order_by_mapper::order_by_parameter_wf(*subsystem, *param),
    ensures
        order_by_result_view(r) == order_by_argument(
            *subsystem,
            request_context@,
            *param,
            const_field_views(arguments@),
        ),
{
    match const_get(arguments, param.name.as_str()) {
        None => Ok(None),
        Some(value) => {
            let input = OrderByParameterInput { param, parent_column_path: None };
            match input.to_sql(value, subsystem, request_context) {
                Ok(c) => Ok(Some(c)),
                Err(e) => Err(e),
            }
        },
    }
}

/// The cardinality of the selection of a query that returns `t`.
pub open spec fn cardinality_of(t: OperationReturnType) -> SelectionCardinality {
    if t is List {
        SelectionCardinality::Many
    } else {
        SelectionCardinality::One
    }
}

/// The select of a query before anything is selected: its table, its
/// cardinality, and how its rows are restricted, ordered and cut.
pub open spec fn shell_select(
    entity: EntityType,
    return_type: OperationReturnType,
    predicate: PredicateView,
    order_by: Option<OrderByComputationView>,
    limit: Option<i64>,
    offset: Option<i64>,
) -> SelectView {
    SelectView {
        table_id: entity.table_id,
        selection: SelectionView::Json(Seq::empty(), cardinality_of(return_type)),
        predicate,
        order_by: match order_by {
            Some(c) => Some(c.order_by),
            None => None,
        },
        offset: match offset {
            Some(n) => Some(Offset(n)),
            None => None,
        },
        limit: match limit {
            Some(n) => Some(Limit(n)),
            None => None,
        },
    }
}

/// The select of a unique query before anything is selected. The read rule of
/// the entity gates the query and restricts its rows; the arguments give the
/// predicate that singles the entity out.
pub open spec fn unique_shell(
    s: PostgresGraphQLSubsystem,
    context: Seq<(Seq<char>, ConstView)>,
    query: UniqueQuery,
    arguments: Seq<(Seq<char>, ConstView)>,
) -> Result<SelectView, ExecutionErrorView> {
    let entity = s.entity_types@[return_entity_id(query.return_type) as int];
    match retrieve_access(s.database_access_expressions@[entity.access.read as int], context) {
        Err(e) => Err(e),
        Ok(read) => match params_predicate(query.predicate_params@, arguments, !(read is True)) {
            Err(e) => Err(e),
            Ok(predicate) => Ok(
                shell_select(entity, query.return_type, and_view(predicate, read), None, None, None),
            ),
        },
    }
}

/// What the arguments of a collection query ask for, given the read rule of
/// its entity: the predicate without the read rule, the ordering, and the cut.
pub open spec fn collection_parts(
    s: PostgresGraphQLSubsystem,
    context: Seq<(Seq<char>, ConstView)>,
    query: CollectionQuery,
    arguments: Seq<(Seq<char>, ConstView)>,
    read: PredicateView,
) -> Result<(PredicateView, Option<OrderByComputationView>, Option<i64>, Option<i64>), ExecutionErrorView> {
    match params_predicate(seq![query.predicate_param], arguments, !(read is True)) {
        Err(e) => Err(e),
        Ok(base) => match order_by_argument(s, context, query.order_by_param, arguments) {
            Err(e) => Err(e),
            Ok(order_by) => match integer_argument(arguments, query.limit_param@) {
                Err(e) => Err(e),
                Ok(limit) => match integer_argument(arguments, query.offset_param@) {
                    Err(e) => Err(e),
                    Ok(offset) => Ok(
                        (
                            and_view(
                                base,
                                match order_by {
                                    Some(c) => c.predicate,
                                    None => PredicateView::True,
                                },
                            ),
                            order_by,
                            limit,
                            offset,
                        ),
                    ),
                },
            },
        },
    }
}

/// The select of a collection query before anything is selected. The read
/// rule of the entity gates the query and restricts its rows, together with
/// the predicate given and with what the ordering asks of the rows.
pub open spec fn collection_shell(
    s: PostgresGraphQLSubsystem,
    context: Seq<(Seq<char>, ConstView)>,
    query: CollectionQuery,
    arguments: Seq<(Seq<char>, ConstView)>,
) -> Result<SelectView, ExecutionErrorView> {
    let entity = s.entity_types@[return_entity_id(query.return_type) as int];
    match retrieve_access(s.database_access_expressions@[entity.access.read as int], context) {
        Err(e) => Err(e),
        Ok(read) => match collection_parts(s, context, query, arguments, read) {
            Err(e) => Err(e),
            Ok(parts) => Ok(
                shell_select(
                    entity,
                    query.return_type,
                    and_view(parts.0, read),
                    parts.1,
                    parts.2,
                    parts.3,
                ),
            ),
        },
    }
}

/// The select of an aggregate query before anything is selected.
pub open spec fn aggregate_shell(
    s: PostgresGraphQLSubsystem,
    context: Seq<(Seq<char>, ConstView)>,
    query: AggregateQuery,
    arguments: Seq<(Seq<char>, ConstView)>,
) -> Result<SelectView, ExecutionErrorView> {
    let entity = s.entity_types@[return_entity_id(query.return_type) as int];
    match retrieve_access(s.database_access_expressions@[entity.access.read as int], context) {
        Err(e) => Err(e),
        Ok(read) => match params_predicate(seq![query.predicate_param], arguments, !(read is True)) {
            Err(e) => Err(e),
            Ok(predicate) => Ok(
                SelectView {
                    selection: SelectionView::Json(Seq::empty(), SelectionCardinality::One),
                    ..shell_select(
                        entity,
                        query.return_type,
                        and_view(predicate, read),
                        None,
                        None,
                        None,
                    )
                },
            ),
        },
    }
}

/// A select with its selection replaced by the JSON aggregate of `content`,
/// in the cardinality that the select had.
pub open spec fn with_content(shell: SelectView, content: Seq<AliasedView>) -> SelectView {
    SelectView {
        selection: SelectionView::Json(
            content,
            match shell.selection {
                SelectionView::Json(_, cardinality) => cardinality,
                SelectionView::Columns(_) => SelectionCardinality::One,
            },
        ),
        ..shell
    }
}

/// The alias under which each step of a chain of relations hands on what the
/// steps after it selected.
pub const TRANSITIVE_VALUE_ALIAS: &'static str = "__transitive_value";

/// The cardinality of the selection of a step of a chain: many only for an
/// unbounded one-to-many step.
pub open spec fn step_cardinality(step: TransitiveRelationStep) -> SelectionCardinality {
    match step.relation_id {
        RelationId::ManyToOne(_) => SelectionCardinality::One,
        RelationId::OneToMany(_) => match step.cardinality {
            RelationCardinality::Unbounded => SelectionCardinality::Many,
            RelationCardinality::Optional => SelectionCardinality::One,
        },
    }
}

/// Whether a step leads to many rows.
pub open spec fn step_is_unbounded(step: TransitiveRelationStep) -> bool {
    step.relation_id is OneToMany && step.cardinality is Unbounded
}

pub fn selection_cardinality_for_step(step: &TransitiveRelationStep) -> (r: SelectionCardinality)
    ensures
        r == step_cardinality(*step),
{
    match step.relation_id {
        RelationId::ManyToOne(_) => SelectionCardinality::One,
        RelationId::OneToMany(_) => match step.cardinality {
            RelationCardinality::Unbounded => SelectionCardinality::Many,
            RelationCardinality::Optional => SelectionCardinality::One,
        },
    }
}

/// The select of a step of a chain before anything is selected: that of the
/// collection query of the step's entity for an unbounded one-to-many step,
/// that of its unique query otherwise, without arguments.
pub open spec fn step_shell(
    s: PostgresGraphQLSubsystem,
    context: Seq<(Seq<char>, ConstView)>,
    step: TransitiveRelationStep,
) -> Result<SelectView, ExecutionErrorView> {
    if step_is_unbounded(step) {
        collection_shell(s, context, s.collection_queries@[step.entity_id as int], Seq::empty())
    } else {
        unique_shell(s, context, s.pk_queries@[step.entity_id as int], Seq::empty())
    }
}

/// What a step of a chain makes of the selection of the steps after it: a
/// select over the step's relation that hands the inner selection on under
/// the alias, and the extraction of it from the JSON that the select gives,
/// from each item of the array for a step that leads to many rows.
pub open spec fn wrapped_step(step: TransitiveRelationStep, shell: SelectView, inner: ElementView) -> ElementView {
    let select = SelectView {
        selection: SelectionView::Json(
            seq![AliasedView { alias: TRANSITIVE_VALUE_ALIAS@, element: inner }],
            step_cardinality(step),
        ),
        ..shell
    };
    let sub_select = ElementView::SubSelect(step.relation_id, Box::new(select));
    if step_is_unbounded(step) {
        ElementView::JsonArrayExtract { source: Box::new(sub_select), key: TRANSITIVE_VALUE_ALIAS@ }
    } else {
        ElementView::JsonExtract { source: Box::new(sub_select), path: seq![TRANSITIVE_VALUE_ALIAS@] }
    }
}

/// The selection of a chain from its step `index` backwards to its first,
/// given what the steps after `index` selected.
pub open spec fn wrapped_steps(
    s: PostgresGraphQLSubsystem,
    context: Seq<(Seq<char>, ConstView)>,
    steps: Seq<TransitiveRelationStep>,
    index: int,
    inner: ElementView,
) -> Result<ElementView, ExecutionErrorView>
    decreases index + 1,
{
    if index < 0 || index >= steps.len() {
        Ok(inner)
    } else {
        match step_shell(s, context, steps[index]) {
            Err(e) => Err(e),
            Ok(shell) => wrapped_steps(
                s,
                context,
                steps,
                index - 1,
                wrapped_step(steps[index], shell, inner),
            ),
        }
    }
}

/// The field that the last step of a chain is planned with: the selected
/// field under the name of the step's field.
pub open spec fn leaf_step_field(step: TransitiveRelationStep, field: FieldView) -> FieldView {
    FieldView {
        alias: field.alias,
        name: step.field_name@,
        arguments: field.arguments,
        subfields: field.subfields,
    }
}

/// The selection of the values that a computed field depends on: nothing
/// where it depends on nothing, else an object of the dependencies' columns
/// under the dependencies' names.
pub open spec fn computed_placeholder(computed: ComputedField) -> ElementView {
    if computed.dependencies@.len() == 0 {
        ElementView::Null
    } else {
        ElementView::Object(
            Seq::new(
                computed.dependencies@.len(),
                |i: int|
                    (
                        computed.dependencies@[i].field_name@,
                        ElementView::Physical(computed.dependencies@[i].column_id),
                    ),
            ),
        )
    }
}

/// The selection of a vector-distance field: the distance of its column to
/// the vector given as `to`.
pub open spec fn planned_vector_distance(v: VectorDistanceField, field: FieldView) -> Result<
    ElementView,
    ExecutionErrorView,
> {
    match lookup(field.arguments, "to"@) {
        None => Err(
            ExecutionErrorView::Generic("Missing 'to' argument for vector distance field"@),
        ),
        Some(to) => match pg_vector_of(to, "to"@) {
            Err(e) => Err(e),
            Ok(vector) => Ok(
                ElementView::Function(
                    FunctionView::VectorDistance {
                        column_id: v.column_id,
                        distance_function: v.distance_function,
                        target: SqlParamView::Vector(vector),
                    },
                ),
            ),
        },
    }
}

/// The aggregates asked of one field of an aggregate query: for each
/// subfield, the function of its name over the field's column.
pub open spec fn aggregate_element(entity: EntityType, field: FieldView) -> Result<
    AliasedView,
    ExecutionErrorView,
> {
    if field.name == "__typename"@ {
        Ok(
            AliasedView {
                alias: output_name_of(field),
                element: ElementView::Constant(entity.name@),
            },
        )
    } else {
        match entity.spec_field(field.name) {
            Some(f) => match f.relation {
                PostgresRelation::Scalar { column_id, .. } => Ok(
                    AliasedView {
                        alias: output_name_of(field),
                        element: ElementView::Object(
                            Seq::new(
                                field.subfields.len(),
                                |i: int|
                                    (
                                        output_name_of(field.subfields[i]),
                                        ElementView::Function(
                                            FunctionView::Aggregate {
                                                function_name: field.subfields[i].name,
                                                column_id,
                                            },
                                        ),
                                    ),
                            ),
                        ),
                    },
                ),
                _ => Err(ExecutionErrorView::Generic("Aggregate is supported only for columns"@)),
            },
            None => Err(ExecutionErrorView::Generic("Unknown aggregate field"@)),
        }
    }
}

/// The outcomes of the fields of an aggregate selection, in order.
pub open spec fn aggregate_elements(entity: EntityType, fields: Seq<FieldView>) -> Seq<
    Result<AliasedView, ExecutionErrorView>,
> {
    Seq::new(fields.len(), |i: int| aggregate_element(entity, fields[i]))
}

/// The select that an aggregate query plans for a field.
pub open spec fn planned_aggregate(
    s: PostgresGraphQLSubsystem,
    context: Seq<(Seq<char>, ConstView)>,
    query: AggregateQuery,
    field: FieldView,
) -> Result<SelectView, ExecutionErrorView> {
    match aggregate_shell(s, context, query, field.arguments) {
        Err(e) => Err(e),
        Ok(shell) => match collected(
            aggregate_elements(
                s.entity_types@[return_entity_id(query.return_type) as int],
                field.subfields,
            ),
        ) {
            Err(e) => Err(e),
            Ok(content) => Ok(with_content(shell, content)),
        },
    }
}

/// The selection of an aggregate field: the aggregate query of the related
/// entity, which must be on the many side of an unbounded relation.
pub open spec fn planned_aggregate_field(
    s: PostgresGraphQLSubsystem,
    context: Seq<(Seq<char>, ConstView)>,
    agg: AggregateField,
    field: FieldView,
) -> Result<ElementView, ExecutionErrorView> {
    match agg.relation {
        Some(PostgresRelation::OneToMany { foreign_entity_id, relation_id, cardinality }) => {
            if cardinality is Unbounded {
                match planned_aggregate(
                    s,
                    context,
                    s.aggregate_queries@[foreign_entity_id as int],
                    field,
                ) {
                    Err(e) => Err(e),
                    Ok(select) => Ok(
                        ElementView::SubSelect(
                            RelationId::OneToMany(relation_id),
                            Box::new(select),
                        ),
                    ),
                }
            } else {
                Err(
                    ExecutionErrorView::Generic(
                        "Validation error: Aggregate is supported only for unbounded relations"@,
                    ),
                )
            }
        },
        _ => Err(
            ExecutionErrorView::Generic(
                "Validation error: Aggregate is supported only for one-to-many"@,
            ),
        ),
    }
}

/// The select that a unique query plans for a field.
pub open spec fn planned_unique(
    s: PostgresGraphQLSubsystem,
    context: Seq<(Seq<char>, ConstView)>,
    query: UniqueQuery,
    field: FieldView,
) -> Result<SelectView, ExecutionErrorView>
    decreases field.subfields, 3nat,
{
    match unique_shell(s, context, query, field.arguments) {
        Err(e) => Err(e),
        Ok(shell) => planned_with_content(
            s,
            context,
            s.entity_types@[return_entity_id(query.return_type) as int],
            shell,
            field.subfields,
        ),
    }
}

/// The select that a collection query plans for a field.
pub open spec fn planned_collection(
    s: PostgresGraphQLSubsystem,
    context: Seq<(Seq<char>, ConstView)>,
    query: CollectionQuery,
    field: FieldView,
) -> Result<SelectView, ExecutionErrorView>
    decreases field.subfields, 3nat,
{
    match collection_shell(s, context, query, field.arguments) {
        Err(e) => Err(e),
        Ok(shell) => planned_with_content(
            s,
            context,
            s.entity_types@[return_entity_id(query.return_type) as int],
            shell,
            field.subfields,
        ),
    }
}

/// The select `shell` with the selection planned for `selection` on `entity`:
/// one named element for each selected field, in the order of the fields,
/// with the fields that may not be read masked.
pub open spec fn planned_with_content(
    s: PostgresGraphQLSubsystem,
    context: Seq<(Seq<char>, ConstView)>,
    entity: EntityType,
    shell: SelectView,
    selection: Seq<FieldView>,
) -> Result<SelectView, ExecutionErrorView>
    decreases selection, 2nat,
{
    match collected(
        planned_elements(
            s,
            context,
            entity,
            selection,
            unauthorized_names(s, context, entity, selection),
        ),
    ) {
        Err(e) => Err(e),
        Ok(content) => Ok(with_content(shell, content)),
    }
}

/// The outcomes of planning each field of a selection, in order.
pub open spec fn planned_elements(
    s: PostgresGraphQLSubsystem,
    context: Seq<(Seq<char>, ConstView)>,
    entity: EntityType,
    fields: Seq<FieldView>,
    unauthorized: Seq<Seq<char>>,
) -> Seq<Result<AliasedView, ExecutionErrorView>>
    decreases fields, 1nat,
{
    Seq::new(
        fields.len(),
        |i: int|
            if 0 <= i < fields.len() {
                planned_field(s, context, entity, fields[i], unauthorized)
            } else {
                Err(ExecutionErrorView::Authorization)
            },
    )
}

/// The message for a selected field that the entity does not have.
pub open spec fn unknown_field_message(field_name: Seq<char>, entity_name: Seq<char>) -> Seq<char> {
    ("Unknown field '"@ + field_name + "' on type '"@) + entity_name + "'"@
}

/// The element planned for one selected field, under the name the field has
/// in the response: SQL `NULL` for a field that may not be read, the entity's
/// name for `__typename`, and otherwise what the field of that name is
/// planned as, be it a persistent, an aggregate or a vector-distance field.
pub open spec fn planned_field(
    s: PostgresGraphQLSubsystem,
    context: Seq<(Seq<char>, ConstView)>,
    entity: EntityType,
    field: FieldView,
    unauthorized: Seq<Seq<char>>,
) -> Result<AliasedView, ExecutionErrorView>
    decreases field.subfields, 7nat,
{
    let element = if unauthorized.contains(output_name_of(field)) {
        Ok(ElementView::Null)
    } else if field.name == "__typename"@ {
        Ok(ElementView::Constant(entity.name@))
    } else {
        match entity.spec_field(field.name) {
            Some(entity_field) => planned_persistent(s, context, entity_field, field),
            None => match entity.spec_aggregate_field(field.name) {
                Some(agg) => planned_aggregate_field(s, context, agg, field),
                None => match entity.spec_vector_distance_field(field.name) {
                    Some(v) => planned_vector_distance(v, field),
                    None => Err(
                        ExecutionErrorView::Generic(unknown_field_message(field.name, entity.name@)),
                    ),
                },
            },
        }
    };
    match element {
        Ok(e) => Ok(AliasedView { alias: output_name_of(field), element: e }),
        Err(e) => Err(e),
    }
}

/// The element planned for a persistent field: its column for a scalar; a
/// select over the related entity for a relation, by its unique query unless
/// the relation leads to many rows; the columns it depends on for a computed
/// field; a chain of selects for a chain of relations.
pub open spec fn planned_persistent(
    s: PostgresGraphQLSubsystem,
    context: Seq<(Seq<char>, ConstView)>,
    entity_field: PostgresField,
    field: FieldView,
) -> Result<ElementView, ExecutionErrorView>
    decreases field.subfields, 6nat,
{
    match entity_field.relation {
        PostgresRelation::Scalar { column_id, .. } => Ok(ElementView::Physical(column_id)),
        PostgresRelation::ManyToOne { foreign_entity_id, relation_id, .. } => match planned_unique(
            s,
            context,
            s.pk_queries@[foreign_entity_id as int],
            field,
        ) {
            Err(e) => Err(e),
            Ok(select) => Ok(
                ElementView::SubSelect(RelationId::ManyToOne(relation_id), Box::new(select)),
            ),
        },
        PostgresRelation::OneToMany { foreign_entity_id, relation_id, cardinality } => {
            let nested = if cardinality is Unbounded {
                planned_collection(
                    s,
                    context,
                    s.collection_queries@[foreign_entity_id as int],
                    field,
                )
            } else {
                planned_unique(s, context, s.pk_queries@[foreign_entity_id as int], field)
            };
            match nested {
                Err(e) => Err(e),
                Ok(select) => Ok(
                    ElementView::SubSelect(RelationId::OneToMany(relation_id), Box::new(select)),
                ),
            }
        },
        PostgresRelation::Computed(computed) => Ok(computed_placeholder(computed)),
        PostgresRelation::Embedded => Err(
            ExecutionErrorView::Generic("Embedded relations cannot be used in queries"@),
        ),
        PostgresRelation::Transitive(steps) => planned_transitive(s, context, steps@, field),
    }
}

/// The select planned for the last step of a chain, with the selected field's
/// own selection.
pub open spec fn planned_step(
    s: PostgresGraphQLSubsystem,
    context: Seq<(Seq<char>, ConstView)>,
    step: TransitiveRelationStep,
    field: FieldView,
) -> Result<SelectView, ExecutionErrorView>
    decreases field.subfields, 4nat,
{
    if step_is_unbounded(step) {
        planned_collection(s, context, s.collection_queries@[step.entity_id as int], field)
    } else {
        planned_unique(s, context, s.pk_queries@[step.entity_id as int], field)
    }
}

/// The element planned for a chain of relations. The last step is planned
/// with the selected field's own selection; every step before it, from the
/// last but one back to the first, wraps what the steps after it selected.
pub open spec fn planned_transitive(
    s: PostgresGraphQLSubsystem,
    context: Seq<(Seq<char>, ConstView)>,
    steps: Seq<TransitiveRelationStep>,
    field: FieldView,
) -> Result<ElementView, ExecutionErrorView>
    decreases field.subfields, 5nat,
{
    if steps.len() == 0 {
        Err(
            ExecutionErrorView::Generic(
                "Validation error: Transitive relation must contain at least one step"@,
            ),
        )
    } else {
        match planned_step(s, context, steps.last(), leaf_step_field(steps.last(), field)) {
            Err(e) => Err(e),
            Ok(select) => wrapped_steps(
                s,
                context,
                steps,
                steps.len() - 2,
                ElementView::SubSelect(steps.last().relation_id, Box::new(select)),
            ),
        }
    }
}

/// Whether a query names an entity of the model.
pub open spec fn returns_entity(s: PostgresGraphQLSubsystem, t: OperationReturnType) -> bool {
    return_entity_id(t) < s.entity_types@.len()
}

fn cardinality(return_type: &OperationReturnType) -> (r: SelectionCardinality)
    ensures
        r == cardinality_of(*return_type),
{
    if return_type.is_list() {
        SelectionCardinality::Many
    } else {
        SelectionCardinality::One
    }
}

/// The select planned for a selection on the entity that `return_type` names,
/// given how the rows are restricted, ordered and cut: the read rule of the
/// entity is added to the predicate, and the selection is planned field by field.
pub open spec fn computed_select(
    s: PostgresGraphQLSubsystem,
    context: Seq<(Seq<char>, ConstView)>,
    predicate: PredicateView,
    order_by: Option<OrderByComputationView>,
    limit: Option<i64>,
    offset: Option<i64>,
    return_type: OperationReturnType,
    selection: Seq<FieldView>,
) -> Result<SelectView, ExecutionErrorView> {
    let entity = s.entity_types@[return_entity_id(return_type) as int];
    match retrieve_access(s.database_access_expressions@[entity.access.read as int], context) {
        Err(e) => Err(e),
        Ok(read) => planned_with_content(
            s,
            context,
            entity,
            shell_select(entity, return_type, and_view(predicate, read), order_by, limit, offset),
            selection,
        ),
    }
}

/// The view of a list of named elements, or of the error in their place.
pub open spec fn content_result_view(
    r: Result<Vec<AliasedSelectionElement>, PostgresExecutionError>,
) -> Result<Seq<AliasedView>, ExecutionErrorView> {
    match r {
        Ok(items) => Ok(aliased_views(items@)),
        Err(e) => Err(e@),
    }
}

/// Plans the select of a query on the entity that `return_type` names.
pub fn compute_select(
    predicate: AbstractPredicate,
    order_by: Option<OrderByComputation>,
    limit: Option<i64>,
    offset: Option<i64>,
    return_type: &OperationReturnType,
    selection: &Vec<ValidatedField>,
    subsystem: &PostgresGraphQLSubsystem,
    request_context: &RequestContext,
) -> (r: Result<AbstractSelect, PostgresExecutionError>)
    requires
        subsystem_wf(*subsystem),
        returns_entity(*subsystem, *return_type),
    ensures
        select_result_view(r) == computed_select(
            *subsystem,
            request_context@,
            predicate@,
            match order_by {
                Some(c) => Some(c@),
                None => None,
            },
            limit,
            offset,
            *return_type,
            field_views(selection@),
        ),
    decreases field_views(selection@), 2nat,
{
    let return_entity_type = &subsystem.entity_types[return_type.entity_id()];
    let outcome = match check_access(
        return_entity_type,
        selection,
        &SQLOperationKind::Retrieve,
        subsystem,
        request_context,
    ) {
        Ok(o) => o,
        Err(e) => {
            return Err(e);
        },
    };
    let predicate = AbstractPredicate::and(predicate, outcome.entity_predicate);
    let content_object = match content_select(
        return_entity_type,
        selection,
        &outcome.unauthorized_fields,
        subsystem,
        request_context,
    ) {
        Ok(c) => c,
        Err(e) => {
            return Err(e);
        },
    };
    let selection_cardinality = cardinality(return_type);
    proof {
        lemma_aliased_list_view(content_object);
    }
    Ok(
        AbstractSelect {
            table_id: return_entity_type.table_id,
            selection: Selection::Json(content_object, selection_cardinality),
            predicate,
            order_by: match order_by {
                Some(c) => Some(c.order_by),
                None => None,
            },
            offset: match offset {
                Some(n) => Some(Offset(n)),
                None => None,
            },
            limit: match limit {
                Some(n) => Some(Limit(n)),
                None => None,
            },
        },
    )
}

/// Plans the elements of a selection on `return_type`, field by field.
pub fn content_select(
    return_type: &EntityType,
    fields: &Vec<ValidatedField>,
    unauthorized_fields: &Vec<String>,
    subsystem: &PostgresGraphQLSubsystem,
    request_context: &RequestContext,
) -> (r: Result<Vec<AliasedSelectionElement>, PostgresExecutionError>)
    requires
        subsystem_wf(*subsystem),
        entity_wf(*subsystem, *return_type),
    ensures
        content_result_view(r) == collected(
            planned_elements(
                *subsystem,
                request_context@,
                *return_type,
                field_views(fields@),
                crate::select::text_views(unauthorized_fields@),
            ),
        ),
    decreases field_views(fields@), 1nat,
{
    let ghost outcomes = planned_elements(
        *subsystem,
        request_context@,
        *return_type,
        field_views(fields@),
        crate::select::text_views(unauthorized_fields@),
    );
    let mut out: Vec<AliasedSelectionElement> = Vec::new();
    let mut i: usize = 0;
    proof {
        assert(outcomes.take(0) =~= Seq::empty());
        assert(aliased_views(out@) =~= Seq::empty());
    }
    while i < fields.len()
        invariant
            i <= fields.len(),
            subsystem_wf(*subsystem),
            entity_wf(*subsystem, *return_type),
            outcomes == planned_elements(
                *subsystem,
                request_context@,
                *return_type,
                field_views(fields@),
                crate::select::text_views(unauthorized_fields@),
            ),
            collected(outcomes.take(i as int)) == Ok::<Seq<AliasedView>, ExecutionErrorView>(
                aliased_views(out@),
            ),
        decreases fields.len() - i,
    {
        let ghost before = out@;
        proof {
            assert(field_views(fields@)[i as int] == fields@[i as int]@);
            assert(decreases_to!(field_views(fields@) => field_views(fields@)[i as int]));
            assert(decreases_to!(fields@[i as int]@ => fields@[i as int]@.subfields));
            lemma_collected_step(outcomes, i as int);
        }
        match map_field(return_type, &fields[i], unauthorized_fields, subsystem, request_context) {
            Ok(element) => {
                out.push(element);
                proof {
                    assert(aliased_views(out@) =~= aliased_views(before).push(element@));
                }
            },
            Err(e) => {
                proof {
                    lemma_collected_error_stays(outcomes, i + 1);
                }
                return Err(e);
            },
        }
        i += 1;
    }
    proof {
        assert(outcomes.take(i as int) =~= outcomes);
    }
    Ok(out)
}

/// The view of the outcome of a function that gives a named element or fails.
pub open spec fn aliased_result_view(
    r: Result<AliasedSelectionElement, PostgresExecutionError>,
) -> Result<AliasedView, ExecutionErrorView> {
    match r {
        Ok(a) => Ok(a@),
        Err(e) => Err(e@),
    }
}

/// Plans the element of one selected field of `return_type`.
pub fn map_field(
    return_type: &EntityType,
    field: &ValidatedField,
    unauthorized_fields: &Vec<String>,
    subsystem: &PostgresGraphQLSubsystem,
    request_context: &RequestContext,
) -> (r: Result<AliasedSelectionElement, PostgresExecutionError>)
    requires
        subsystem_wf(*subsystem),
        entity_wf(*subsystem, *return_type),
    ensures
        aliased_result_view(r) == planned_field(
            *subsystem,
            request_context@,
            *return_type,
            field@,
            crate::select::text_views(unauthorized_fields@),
        ),
    decreases field@.subfields, 7nat,
{
    let output_name = field.output_name();
    let selection_elem = if contains_name(unauthorized_fields, output_name.as_str()) {
        SelectionElement::Null
    } else if str_eq(field.name.as_str(), "__typename") {
        SelectionElement::Constant(return_type.name.clone())
    } else {
        let mapped = match return_type.field_by_name(field.name.as_str()) {
            Some(entity_field) => map_persistent_field(
                entity_field,
                field,
                subsystem,
                request_context,
            ),
            None => match return_type.aggregate_field_by_name(field.name.as_str()) {
                Some(agg_field) => map_aggregate_field(agg_field, field, subsystem, request_context),
                None => match return_type.vector_distance_field_by_name(field.name.as_str()) {
                    Some(vector_distance_field) => map_vector_distance_field(
                        vector_distance_field,
                        field,
                    ),
                    None => Err(
                        PostgresExecutionError::Generic(
                            concat3(
                                concat3(
                                    "Unknown field '",
                                    field.name.as_str(),
                                    "' on type '",
                                ).as_str(),
                                return_type.name.as_str(),
                                "'",
                            ),
                        ),
                    ),
                },
            },
        };
        match mapped {
            Ok(e) => e,
            Err(e) => {
                return Err(e);
            },
        }
    };
    Ok(AliasedSelectionElement::new(output_name, selection_elem))
}

fn computed_dependencies(computed: &ComputedField) -> (r: SelectionElement)
    ensures
        r@ == computed_placeholder(*computed),
{
    if computed.dependencies.len() == 0 {
        SelectionElement::Null
    } else {
        let mut members: Vec<(String, SelectionElement)> = Vec::new();
        let mut i: usize = 0;
        while i < computed.dependencies.len()
            invariant
                i <= computed.dependencies.len(),
                members@.len() == i,
                forall|j: int|
                    0 <= j < i ==> members@[j].0@ == computed.dependencies@[j].field_name@
                        && members@[j].1@ == ElementView::Physical(
                        computed.dependencies@[j].column_id,
                    ),
            decreases computed.dependencies.len() - i,
        {
            members.push(
                (
                    computed.dependencies[i].field_name.clone(),
                    SelectionElement::Physical(computed.dependencies[i].column_id),
                ),
            );
            i += 1;
        }
        proof {
            lemma_object_view(members);
            assert(member_views(members@) =~= computed_placeholder(*computed)->Object_0);
        }
        SelectionElement::Object(members)
    }
}

/// Plans the element of a persistent field.
pub fn map_persistent_field(
    entity_field: &PostgresField,
    field: &ValidatedField,
    subsystem: &PostgresGraphQLSubsystem,
    request_context: &RequestContext,
) -> (r: Result<SelectionElement, PostgresExecutionError>)
    requires
        subsystem_wf(*subsystem),
        crate::planner_access::field_wf(*subsystem, *entity_field),
    ensures
        element_result_view(r) == planned_persistent(
            *subsystem,
            request_context@,
            *entity_field,
            field@,
        ),
    decreases field@.subfields, 6nat,
{
    match &entity_field.relation {
        PostgresRelation::Scalar { column_id, .. } => Ok(SelectionElement::Physical(*column_id)),
        PostgresRelation::ManyToOne { foreign_entity_id, relation_id, .. } => {
            let foreign_table_pk_query = &subsystem.pk_queries[*foreign_entity_id];
            match foreign_table_pk_query.resolve_select(field, request_context, subsystem) {
                Ok(nested) => Ok(
                    SelectionElement::SubSelect(
                        RelationId::ManyToOne(*relation_id),
                        Box::new(nested),
                    ),
                ),
                Err(e) => Err(e),
            }
        },
        PostgresRelation::OneToMany { foreign_entity_id, relation_id, cardinality } => {
            // The query to use goes by the cardinality of the relation
            let nested = match cardinality {
                RelationCardinality::Unbounded => {
                    subsystem.collection_queries[*foreign_entity_id].resolve_select(
                        field,
                        request_context,
                        subsystem,
                    )
                },
                RelationCardinality::Optional => {
                    subsystem.pk_queries[*foreign_entity_id].resolve_select(
                        field,
                        request_context,
                        subsystem,
                    )
                },
            };
            match nested {
                Ok(nested) => Ok(
                    SelectionElement::SubSelect(
                        RelationId::OneToMany(*relation_id),
                        Box::new(nested),
                    ),
                ),
                Err(e) => Err(e),
            }
        },
        PostgresRelation::Computed(computed) => Ok(computed_dependencies(computed)),
        PostgresRelation::Embedded => Err(
            PostgresExecutionError::generic("Embedded relations cannot be used in queries"),
        ),
        PostgresRelation::Transitive(steps) => map_transitive_field(
            steps,
            field,
            subsystem,
            request_context,
        ),
    }
}

/// The field that step `index` of a chain is given: for the last step the
/// selected field under the name of the step's field, for a step before it a
/// field of the step's name that selects the field of the next step.
pub open spec fn step_field(steps: Seq<TransitiveRelationStep>, leaf: FieldView, index: int) -> FieldView
    decreases steps.len() - index,
{
    if index >= steps.len() - 1 {
        leaf_step_field(steps.last(), leaf)
    } else {
        FieldView {
            alias: None,
            name: steps[index].field_name@,
            arguments: Seq::empty(),
            subfields: seq![step_field(steps, leaf, index + 1)],
        }
    }
}

/// Builds, for each step of a chain, the field that the step is given.
pub fn build_transitive_step_fields(
    steps: &Vec<TransitiveRelationStep>,
    leaf_field: &ValidatedField,
) -> (r: Vec<ValidatedField>)
    ensures
        r@.len() == steps@.len(),
        forall|i: int| 0 <= i < r@.len() ==> (#[trigger] r@[i])@ == step_field(steps@, leaf_field@, i),
{
    let mut reversed: Vec<ValidatedField> = Vec::new();
    if steps.len() == 0 {
        return reversed;
    }
    let n = steps.len();
    let last_step = &steps[n - 1];
    let mut current = ValidatedField {
        alias: duplicate_text_option(&leaf_field.alias),
        name: last_step.field_name.clone(),
        arguments: crate::value::duplicate_const_fields(&leaf_field.arguments),
        subfields: duplicate_fields(&leaf_field.subfields),
    };
    proof {
        lemma_subfield_views(current);
        lemma_subfield_views(*leaf_field);
        assert(current@ == step_field(steps@, leaf_field@, n - 1));
    }
    reversed.push(current.duplicate());
    let mut k: usize = 1;
    while k < n
        invariant
            n == steps.len(),
            1 <= k <= n,
            reversed@.len() == k,
            current@ == step_field(steps@, leaf_field@, n - k),
            forall|j: int|
                0 <= j < k ==> (#[trigger] reversed@[j])@ == step_field(
                    steps@,
                    leaf_field@,
                    n - 1 - j,
                ),
        decreases n - k,
    {
        let step = &steps[n - 1 - k];
        let mut subfields: Vec<ValidatedField> = Vec::new();
        let ghost inner = current@;
        subfields.push(current);
        let parent = ValidatedField {
            alias: None,
            name: step.field_name.clone(),
            arguments: Vec::new(),
            subfields,
        };
        proof {
            lemma_subfield_views(parent);
            assert(field_views(parent.subfields@) =~= seq![inner]);
            assert(const_field_views(parent.arguments@) =~= Seq::empty());
            assert(parent@ == step_field(steps@, leaf_field@, n - 1 - k));
        }
        current = parent;
        reversed.push(current.duplicate());
        k += 1;
    }
    let mut step_fields: Vec<ValidatedField> = Vec::new();
    let mut m: usize = 0;
    while m < n
        invariant
            m <= n,
            n == steps.len(),
            reversed@.len() == n - m,
            step_fields@.len() == m,
            forall|j: int|
                0 <= j < n - m ==> (#[trigger] reversed@[j])@ == step_field(
                    steps@,
                    leaf_field@,
                    n - 1 - j,
                ),
            forall|j: int|
                0 <= j < m ==> (#[trigger] step_fields@[j])@ == step_field(steps@, leaf_field@, j),
        decreases n - m,
    {
        let next = reversed.pop().unwrap();
        step_fields.push(next);
        m += 1;
    }
    step_fields
}

/// Plans the select of the last step of a chain.
pub fn resolve_select_for_transitive_step(
    step: &TransitiveRelationStep,
    step_field: &ValidatedField,
    subsystem: &PostgresGraphQLSubsystem,
    request_context: &RequestContext,
) -> (r: Result<AbstractSelect, PostgresExecutionError>)
    requires
        subsystem_wf(*subsystem),
        step.entity_id < subsystem.entity_types@.len(),
    ensures
        select_result_view(r) == planned_step(*subsystem, request_context@, *step, step_field@),
    decreases step_field@.subfields, 4nat,
{
    match step.relation_id {
        RelationId::ManyToOne(_) => subsystem.pk_queries[step.entity_id].resolve_select(
            step_field,
            request_context,
            subsystem,
        ),
        RelationId::OneToMany(_) => {
            match step.cardinality {
                RelationCardinality::Unbounded => {
                    subsystem.collection_queries[step.entity_id].resolve_select(
                        step_field,
                        request_context,
                        subsystem,
                    )
                },
                RelationCardinality::Optional => {
                    subsystem.pk_queries[step.entity_id].resolve_select(
                        step_field,
                        request_context,
                        subsystem,
                    )
                },
            }
        },
    }
}

/// Plans the select of a step of a chain before anything is selected.
fn resolve_shell_for_transitive_step(
    step: &TransitiveRelationStep,
    arguments: &Vec<(String, ConstValue)>,
    subsystem: &PostgresGraphQLSubsystem,
    request_context: &RequestContext,
) -> (r: Result<AbstractSelect, PostgresExecutionError>)
    requires
        subsystem_wf(*subsystem),
        step.entity_id < subsystem.entity_types@.len(),
        const_field_views(arguments@) == Seq::<(Seq<char>, ConstView)>::empty(),
    ensures
        select_result_view(r) == step_shell(*subsystem, request_context@, *step),
{
    match step.relation_id {
        RelationId::ManyToOne(_) => subsystem.pk_queries[step.entity_id].resolve_shell(
            arguments,
            request_context,
            subsystem,
        ),
        RelationId::OneToMany(_) => {
            match step.cardinality {
                RelationCardinality::Unbounded => {
                    subsystem.collection_queries[step.entity_id].resolve_shell(
                        arguments,
                        request_context,
                        subsystem,
                    )
                },
                RelationCardinality::Optional => {
                    subsystem.pk_queries[step.entity_id].resolve_shell(
                        arguments,
                        request_context,
                        subsystem,
                    )
                },
            }
        },
    }
}

fn is_unbounded_step(step: &TransitiveRelationStep) -> (r: bool)
    ensures
        r == step_is_unbounded(*step),
{
    match (step.relation_id, step.cardinality) {
        (RelationId::OneToMany(_), RelationCardinality::Unbounded) => true,
        _ => false,
    }
}

/// Plans the element of a field that chains relations.
pub fn map_transitive_field(
    steps: &Vec<TransitiveRelationStep>,
    field: &ValidatedField,
    subsystem: &PostgresGraphQLSubsystem,
    request_context: &RequestContext,
) -> (r: Result<SelectionElement, PostgresExecutionError>)
    requires
        subsystem_wf(*subsystem),
        forall|i: int|
            0 <= i < steps@.len() ==> (#[trigger] steps@[i]).entity_id < subsystem.entity_types@.len(),
    ensures
        element_result_view(r) == planned_transitive(
            *subsystem,
            request_context@,
            steps@,
            field@,
        ),
    decreases field@.subfields, 5nat,
{
    if steps.len() == 0 {
        return Err(
            PostgresExecutionError::generic(
                "Validation error: Transitive relation must contain at least one step",
            ),
        );
    }
    let step_fields = build_transitive_step_fields(steps, field);
    let n = steps.len();
    let last = &steps[n - 1];
    proof {
        assert(step_fields@[n - 1]@ == leaf_step_field(steps@.last(), field@));
    }
    let resolved = match resolve_select_for_transitive_step(
        last,
        &step_fields[n - 1],
        subsystem,
        request_context,
    ) {
        Ok(select) => select,
        Err(e) => {
            return Err(e);
        },
    };
    let ghost target = planned_transitive(*subsystem, request_context@, steps@, field@);
    let mut current_selection = SelectionElement::SubSelect(last.relation_id, Box::new(resolved));
    let mut idx: usize = n - 1;
    while idx > 0
        invariant
            idx < n,
            n == steps.len(),
            step_fields@.len() == n,
            subsystem_wf(*subsystem),
            forall|i: int|
                0 <= i < steps@.len() ==> (#[trigger] steps@[i]).entity_id
                    < subsystem.entity_types@.len(),
            forall|i: int|
                0 <= i < step_fields@.len() ==> (#[trigger] step_fields@[i])@ == step_field(
                    steps@,
                    field@,
                    i,
                ),
            target == planned_transitive(*subsystem, request_context@, steps@, field@),
            wrapped_steps(*subsystem, request_context@, steps@, idx - 1, current_selection@)
                == target,
        decreases idx,
    {
        idx -= 1;
        let step = &steps[idx];
        proof {
            assert(step_fields@[idx as int]@ == step_field(steps@, field@, idx as int));
            lemma_subfield_views(step_fields@[idx as int]);
        }
        let mut resolved_select = match resolve_shell_for_transitive_step(
            step,
            &step_fields[idx].arguments,
            subsystem,
            request_context,
        ) {
            Ok(select) => select,
            Err(e) => {
                proof {
                    assert(wrapped_steps(
                        *subsystem,
                        request_context@,
                        steps@,
                        idx as int,
                        current_selection@,
                    ) == Err::<ElementView, ExecutionErrorView>(e@));
                }
                return Err(e);
            },
        };
        let selection_cardinality = selection_cardinality_for_step(step);
        let ghost inner = current_selection@;
        let ghost shell = resolved_select@;
        let mut content: Vec<AliasedSelectionElement> = Vec::new();
        content.push(
            AliasedSelectionElement::new(owned(TRANSITIVE_VALUE_ALIAS), current_selection),
        );
        proof {
            lemma_aliased_list_view(content);
            assert(aliased_views(content@) =~= seq![
                AliasedView { alias: TRANSITIVE_VALUE_ALIAS@, element: inner },
            ]);
        }
        resolved_select.selection = Selection::Json(content, selection_cardinality);
        let ghost wrapped_select = SelectView {
            selection: SelectionView::Json(
                seq![AliasedView { alias: TRANSITIVE_VALUE_ALIAS@, element: inner }],
                step_cardinality(*step),
            ),
            ..shell
        };
        proof {
            assert(resolved_select@ == wrapped_select);
        }
        let sub_select = SelectionElement::SubSelect(step.relation_id, Box::new(resolved_select));
        proof {
            assert(sub_select@ == ElementView::SubSelect(step.relation_id, Box::new(wrapped_select)));
        }
        let flattened = if is_unbounded_step(step) {
            SelectionElement::JsonArrayExtract {
                source: Box::new(sub_select),
                key: owned(TRANSITIVE_VALUE_ALIAS),
            }
        } else {
            let mut path: Vec<String> = Vec::new();
            path.push(owned(TRANSITIVE_VALUE_ALIAS));
            proof {
                assert(crate::select::text_views(path@) =~= seq![TRANSITIVE_VALUE_ALIAS@]);
            }
            SelectionElement::JsonExtract { source: Box::new(sub_select), path }
        };
        proof {
            assert(flattened@ == wrapped_step(*step, shell, inner));
            assert(wrapped_steps(*subsystem, request_context@, steps@, idx as int, inner)
                == wrapped_steps(
                *subsystem,
                request_context@,
                steps@,
                idx - 1,
                wrapped_step(*step, shell, inner),
            ));
        }
        current_selection = flattened;
    }
    Ok(current_selection)
}

/// Plans the element of an aggregate field.
pub fn map_aggregate_field(
    agg_field: &AggregateField,
    field: &ValidatedField,
    subsystem: &PostgresGraphQLSubsystem,
    request_context: &RequestContext,
) -> (r: Result<SelectionElement, PostgresExecutionError>)
    requires
        subsystem_wf(*subsystem),
        crate::planner_access::aggregate_field_wf(*subsystem, *agg_field),
    ensures
        element_result_view(r) == planned_aggregate_field(
            *subsystem,
            request_context@,
            *agg_field,
            field@,
        ),
{
    match &agg_field.relation {
        Some(PostgresRelation::OneToMany { foreign_entity_id, relation_id, cardinality }) => {
            // An aggregate is taken over an unbounded relation only
            match cardinality {
                RelationCardinality::Unbounded => {
                    match subsystem.aggregate_queries[*foreign_entity_id].resolve_select(
                        field,
                        request_context,
                        subsystem,
                    ) {
                        Ok(nested) => Ok(
                            SelectionElement::SubSelect(
                                RelationId::OneToMany(*relation_id),
                                Box::new(nested),
                            ),
                        ),
                        Err(e) => Err(e),
                    }
                },
                RelationCardinality::Optional => Err(
                    PostgresExecutionError::generic(
                        "Validation error: Aggregate is supported only for unbounded relations",
                    ),
                ),
            }
        },
        _ => Err(
            PostgresExecutionError::generic(
                "Validation error: Aggregate is supported only for one-to-many",
            ),
        ),
    }
}

/// Plans the element of a vector-distance field.
pub fn map_vector_distance_field(vector_distance_field: &VectorDistanceField, field: &ValidatedField) -> (r:
    Result<SelectionElement, PostgresExecutionError>)
    ensures
        element_result_view(r) == planned_vector_distance(*vector_distance_field, field@),
{
    let to_arg = match const_get(&field.arguments, "to") {
        Some(v) => v,
        None => {
            return Err(
                PostgresExecutionError::generic("Missing 'to' argument for vector distance field"),
            );
        },
    };
    let to_vector_value = match to_pg_vector(to_arg, "to") {
        Ok(v) => v,
        Err(e) => {
            return Err(e);
        },
    };
    Ok(
        SelectionElement::Function(
            Function::VectorDistance {
                column_id: vector_distance_field.column_id,
                distance_function: vector_distance_field.distance_function,
                target: SqlParam::Vector(to_vector_value),
            },
        ),
    )
}

fn empty_selection(table_id: usize, cardinality: SelectionCardinality, predicate: AbstractPredicate) -> (r:
    AbstractSelect)
    ensures
        r@ == (SelectView {
            table_id,
            selection: SelectionView::Json(Seq::empty(), cardinality),
            predicate: predicate@,
            order_by: None,
            offset: None,
            limit: None,
        }),
{
    let content: Vec<AliasedSelectionElement> = Vec::new();
    proof {
        lemma_aliased_list_view(content);
        assert(aliased_views(content@) =~= Seq::empty());
    }
    AbstractSelect {
        table_id,
        selection: Selection::Json(content, cardinality),
        predicate,
        order_by: None,
        offset: None,
        limit: None,
    }
}

impl UniqueQuery {
    /// Plans the select of this query before anything is selected.
    pub fn resolve_shell(
        &self,
        arguments: &Vec<(String, ConstValue)>,
        request_context: &RequestContext,
        subsystem: &PostgresGraphQLSubsystem,
    ) -> (r: Result<AbstractSelect, PostgresExecutionError>)
        requires
            subsystem_wf(*subsystem),
            returns_entity(*subsystem, self.return_type),
        ensures
            select_result_view(r) == unique_shell(
                *subsystem,
                request_context@,
                *self,
                const_field_views(arguments@),
            ),
    {
        let return_entity_type = &subsystem.entity_types[self.return_type.entity_id()];
        let read = match check_retrieve_access(
            &subsystem.database_access_expressions[return_entity_type.access.read],
            request_context,
        ) {
            Ok(p) => p,
            Err(e) => {
                return Err(e);
            },
        };
        let restrict_relations = !read.is_true();
        let predicate = match compute_predicate(
            &self.predicate_params,
            arguments,
            restrict_relations,
        ) {
            Ok(p) => p,
            Err(e) => {
                return Err(e);
            },
        };
        Ok(
            empty_selection(
                return_entity_type.table_id,
                cardinality(&self.return_type),
                AbstractPredicate::and(predicate, read),
            ),
        )
    }

    /// Plans the select that answers `field` by this query.
    pub fn resolve_select(
        &self,
        field: &ValidatedField,
        request_context: &RequestContext,
        subsystem: &PostgresGraphQLSubsystem,
    ) -> (r: Result<AbstractSelect, PostgresExecutionError>)
        requires
            subsystem_wf(*subsystem),
            returns_entity(*subsystem, self.return_type),
        ensures
            select_result_view(r) == planned_unique(*subsystem, request_context@, *self, field@),
        decreases field@.subfields, 3nat,
    {
        proof {
            lemma_subfield_views(*field);
        }
        let return_entity_type = &subsystem.entity_types[self.return_type.entity_id()];
        let parent_read_predicate = match check_retrieve_access(
            &subsystem.database_access_expressions[return_entity_type.access.read],
            request_context,
        ) {
            Ok(p) => p,
            Err(e) => {
                return Err(e);
            },
        };
        let restrict_relations = !parent_read_predicate.is_true();
        let predicate = match compute_predicate(
            &self.predicate_params,
            &field.arguments,
            restrict_relations,
        ) {
            Ok(p) => p,
            Err(e) => {
                return Err(e);
            },
        };
        compute_select(
            predicate,
            None,
            None,
            None,
            &self.return_type,
            &field.subfields,
            subsystem,
            request_context,
        )
    }
}

/// The parts of the select of a collection query that its arguments give.
struct CollectionParts {
    predicate: AbstractPredicate,
    order_by: Option<OrderByComputation>,
    limit: Option<i64>,
    offset: Option<i64>,
}

impl CollectionQuery {
    fn parts(
        &self,
        arguments: &Vec<(String, ConstValue)>,
        read: &AbstractPredicate,
        request_context: &RequestContext,
        subsystem: &PostgresGraphQLSubsystem,
    ) -> (r: Result<CollectionParts, PostgresExecutionError>)
        requires
            subsystem_wf(*subsystem),
            crate::order_by_mapper::order_by_parameter_wf(*subsystem, self.order_by_param),
        ensures
            match r {
                Ok(p) => collection_parts(
                    *subsystem,
                    request_context@,
                    *self,
                    const_field_views(arguments@),
                    read@,
                ) == Ok::<_, ExecutionErrorView>(
                    (
                        p.predicate@,
                        match p.order_by {
                            Some(c) => Some(c@),
                            None => None,
                        },
                        p.limit,
                        p.offset,
                    ),
                ),
                Err(e) => collection_parts(
                    *subsystem,
                    request_context@,
                    *self,
                    const_field_views(arguments@),
                    read@,
                ) == Err::<
                    (PredicateView, Option<OrderByComputationView>, Option<i64>, Option<i64>),
                    _,
                >(e@),
            },
    {
        let restrict_relations = !read.is_true();
        let base_predicate = match predicate_of_param(
            &self.predicate_param,
            arguments,
            restrict_relations,
        ) {
            Ok(p) => p,
            Err(e) => {
                return Err(e);
            },
        };
        let order_by_result = match compute_order_by(
            &self.order_by_param,
            arguments,
            subsystem,
            request_context,
        ) {
            Ok(o) => o,
            Err(e) => {
                return Err(e);
            },
        };
        let order_by_predicate = match &order_by_result {
            Some(computation) => computation.predicate.duplicate(),
            None => AbstractPredicate::True,
        };
        let combined_predicate = AbstractPredicate::and(base_predicate, order_by_predicate);
        let limit = match extract_integer(arguments, self.limit_param.as_str()) {
            Ok(l) => l,
            Err(e) => {
                return Err(e);
            },
        };
        let offset = match extract_integer(arguments, self.offset_param.as_str()) {
            Ok(o) => o,
            Err(e) => {
                return Err(e);
            },
        };
        Ok(CollectionParts { predicate: combined_predicate, order_by: order_by_result, limit, offset })
    }

    /// Plans the select of this query before anything is selected.
    pub fn resolve_shell(
        &self,
        arguments: &Vec<(String, ConstValue)>,
        request_context: &RequestContext,
        subsystem: &PostgresGraphQLSubsystem,
    ) -> (r: Result<AbstractSelect, PostgresExecutionError>)
        requires
            subsystem_wf(*subsystem),
            returns_entity(*subsystem, self.return_type),
            crate::order_by_mapper::order_by_parameter_wf(*subsystem, self.order_by_param),
        ensures
            select_result_view(r) == collection_shell(
                *subsystem,
                request_context@,
                *self,
                const_field_views(arguments@),
            ),
    {
        let return_entity_type = &subsystem.entity_types[self.return_type.entity_id()];
        let read = match check_retrieve_access(
            &subsystem.database_access_expressions[return_entity_type.access.read],
            request_context,
        ) {
            Ok(p) => p,
            Err(e) => {
                return Err(e);
            },
        };
        let parts = match self.parts(arguments, &read, request_context, subsystem) {
            Ok(p) => p,
            Err(e) => {
                return Err(e);
            },
        };
        let mut select = empty_selection(
            return_entity_type.table_id,
            cardinality(&self.return_type),
            AbstractPredicate::and(parts.predicate, read),
        );
        select.order_by = match parts.order_by {
            Some(c) => Some(c.order_by),
            None => None,
        };
        select.limit = match parts.limit {
            Some(n) => Some(Limit(n)),
            None => None,
        };
        select.offset = match parts.offset {
            Some(n) => Some(Offset(n)),
            None => None,
        };
        Ok(select)
    }

    /// Plans the select that answers `field` by this query.
    pub fn resolve_select(
        &self,
        field: &ValidatedField,
        request_context: &RequestContext,
        subsystem: &PostgresGraphQLSubsystem,
    ) -> (r: Result<AbstractSelect, PostgresExecutionError>)
        requires
            subsystem_wf(*subsystem),
            returns_entity(*subsystem, self.return_type),
            crate::order_by_mapper::order_by_parameter_wf(*subsystem, self.order_by_param),
        ensures
            select_result_view(r) == planned_collection(*subsystem, request_context@, *self, field@),
        decreases field@.subfields, 3nat,
    {
        proof {
            lemma_subfield_views(*field);
        }
        let return_entity_type = &subsystem.entity_types[self.return_type.entity_id()];
        let parent_read_predicate = match check_retrieve_access(
            &subsystem.database_access_expressions[return_entity_type.access.read],
            request_context,
        ) {
            Ok(p) => p,
            Err(e) => {
                return Err(e);
            },
        };
        let parts = match self.parts(
            &field.arguments,
            &parent_read_predicate,
            request_context,
            subsystem,
        ) {
            Ok(p) => p,
            Err(e) => {
                return Err(e);
            },
        };
        compute_select(
            parts.predicate,
            parts.order_by,
            parts.limit,
            parts.offset,
            &self.return_type,
            &field.subfields,
            subsystem,
            request_context,
        )
    }
}

/// Composes the predicate of a query that has one predicate parameter.
fn predicate_of_param(
    param: &PredicateParameter,
    arguments: &Vec<(String, ConstValue)>,
    restrict_relations: bool,
) -> (r: Result<AbstractPredicate, PostgresExecutionError>)
    ensures
        crate::access::predicate_result_view(r) == params_predicate(
            seq![*param],
            const_field_views(arguments@),
            restrict_relations,
        ),
{
    proof {
        reveal_with_fuel(params_predicate, 3);
        assert(seq![*param].drop_last() =~= Seq::empty());
        assert(seq![*param].last() == *param);
    }
    match const_get(arguments, param.name.as_str()) {
        None => Ok(AbstractPredicate::True),
        Some(value) => match map_predicate_param(param, value, restrict_relations) {
            Ok(p) => Ok(AbstractPredicate::and(AbstractPredicate::True, p)),
            Err(e) => Err(e),
        },
    }
}

/// Plans the aggregates asked of one field of an aggregate selection.
fn map_aggregate_element(entity: &EntityType, field: &ValidatedField) -> (r: Result<
    AliasedSelectionElement,
    PostgresExecutionError,
>)
    ensures
        aliased_result_view(r) == aggregate_element(*entity, field@),
{
    let output_name = field.output_name();
    if str_eq(field.name.as_str(), "__typename") {
        return Ok(
            AliasedSelectionElement::new(output_name, SelectionElement::Constant(entity.name.clone())),
        );
    }
    match entity.field_by_name(field.name.as_str()) {
        Some(f) => match &f.relation {
            PostgresRelation::Scalar { column_id, .. } => {
                proof {
                    lemma_subfield_views(*field);
                }
                let mut members: Vec<(String, SelectionElement)> = Vec::new();
                let mut i: usize = 0;
                while i < field.subfields.len()
                    invariant
                        i <= field.subfields.len(),
                        members@.len() == i,
                        forall|j: int|
                            0 <= j < i ==> members@[j].0@ == output_name_of(field.subfields@[j]@)
                                && members@[j].1@ == ElementView::Function(
                                FunctionView::Aggregate {
                                    function_name: field.subfields@[j]@.name,
                                    column_id: *column_id,
                                },
                            ),
                    decreases field.subfields.len() - i,
                {
                    members.push(
                        (
                            field.subfields[i].output_name(),
                            SelectionElement::Function(
                                Function::Aggregate {
                                    function_name: field.subfields[i].name.clone(),
                                    column_id: *column_id,
                                },
                            ),
                        ),
                    );
                    i += 1;
                }
                proof {
                    lemma_object_view(members);
                    assert(member_views(members@) =~= aggregate_element(
                        *entity,
                        field@,
                    )->Ok_0.element->Object_0);
                }
                Ok(AliasedSelectionElement::new(output_name, SelectionElement::Object(members)))
            },
            _ => Err(PostgresExecutionError::generic("Aggregate is supported only for columns")),
        },
        None => Err(PostgresExecutionError::generic("Unknown aggregate field")),
    }
}

impl AggregateQuery {
    /// Plans the select that answers `field` by this query.
    pub fn resolve_select(
        &self,
        field: &ValidatedField,
        request_context: &RequestContext,
        subsystem: &PostgresGraphQLSubsystem,
    ) -> (r: Result<AbstractSelect, PostgresExecutionError>)
        requires
            subsystem_wf(*subsystem),
            returns_entity(*subsystem, self.return_type),
        ensures
            select_result_view(r) == planned_aggregate(*subsystem, request_context@, *self, field@),
    {
        let return_entity_type = &subsystem.entity_types[self.return_type.entity_id()];
        let read = match check_retrieve_access(
            &subsystem.database_access_expressions[return_entity_type.access.read],
            request_context,
        ) {
            Ok(p) => p,
            Err(e) => {
                return Err(e);
            },
        };
        let restrict_relations = !read.is_true();
        let predicate = match predicate_of_param(
            &self.predicate_param,
            &field.arguments,
            restrict_relations,
        ) {
            Ok(p) => p,
            Err(e) => {
                return Err(e);
            },
        };
        let ghost outcomes = aggregate_elements(*return_entity_type, field@.subfields);
        let ghost shell = aggregate_shell(*subsystem, request_context@, *self, field@.arguments);
        let mut content: Vec<AliasedSelectionElement> = Vec::new();
        let mut i: usize = 0;
        proof {
            lemma_subfield_views(*field);
            assert(outcomes.take(0) =~= Seq::empty());
            assert(aliased_views(content@) =~= Seq::empty());
        }
        while i < field.subfields.len()
            invariant
                i <= field.subfields.len(),
                field@.subfields == field_views(field.subfields@),
                outcomes == aggregate_elements(*return_entity_type, field@.subfields),
                shell is Ok,
                shell == aggregate_shell(*subsystem, request_context@, *self, field@.arguments),
                *return_entity_type == subsystem.entity_types@[return_entity_id(
                    self.return_type,
                ) as int],
                collected(outcomes.take(i as int)) == Ok::<Seq<AliasedView>, ExecutionErrorView>(
                    aliased_views(content@),
                ),
            decreases field.subfields.len() - i,
        {
            let ghost before = content@;
            proof {
                lemma_collected_step(outcomes, i as int);
            }
            match map_aggregate_element(return_entity_type, &field.subfields[i]) {
                Ok(element) => {
                    content.push(element);
                    proof {
                        assert(aliased_views(content@) =~= aliased_views(before).push(element@));
                    }
                },
                Err(e) => {
                    proof {
                        lemma_collected_error_stays(outcomes, i + 1);
                    }
                    return Err(e);
                },
            }
            i += 1;
        }
        proof {
            assert(outcomes.take(i as int) =~= outcomes);
            lemma_aliased_list_view(content);
        }
        Ok(
            AbstractSelect {
                table_id: return_entity_type.table_id,
                selection: Selection::Json(content, SelectionCardinality::One),
                predicate: AbstractPredicate::and(predicate, read),
                order_by: None,
                offset: None,
                limit: None,
            },
        )
    }
}

} // verus!
