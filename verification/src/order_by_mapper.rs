//! From the order-by arguments of a query to the ordering of its select.

use vstd::prelude::*;
use crate::access::{check_retrieve_access, retrieve_access, RequestContext};
use crate::column_path::{
    extended_path, link_option_view, path_option_view, path_wf, to_column_path, ColumnPathLink,
    ColumnPathLinkView, PhysicalColumnPath,
};
use crate::error::{ExecutionErrorView, PostgresExecutionError};
use crate::order_by::{
    combined, computation_views, AbstractOrderBy, AbstractOrderByExpr, OrderByComputation,
    OrderByComputationView, OrderByExprView, SortOrder, VectorDistanceFunction,
};
use crate::predicate::{
    and_view, number_views, AbstractPredicate, ColumnPath, ColumnPathView, PredicateView, SqlParam,
    SqlParamView,
};
use crate::results::{collected, lemma_collected_error_stays, lemma_collected_step};
use crate::schema::{
    find_order_by_parameter, order_by_parameter_named, OrderByParameter, OrderByParameterType,
    OrderByParameterTypeKind, PostgresGraphQLSubsystem,
};
use crate::json_text::{json_text, json_to_string};
use crate::text::{concat2, concat3, str_eq};
use crate::value::{
    const_as_json, const_field_views, const_get, const_views, lemma_const_list_view,
    lemma_const_object_view, lookup, to_json, ConstValue, ConstView, Number, NumberView,
};

verus! {

/// The text that an argument is shown as in a report: its compact JSON text,
/// an enum value as the string of its name.
pub open spec fn argument_text(argument: ConstView) -> Seq<char> {
    json_text(to_json(argument))
}

/// The report of an order-by argument that is neither an object nor a list,
/// given the text of the argument.
pub open spec fn invalid_argument(text: Seq<char>) -> Seq<char> {
    "Invalid argument ('"@ + text + "')"@
}

/// The report of an argument that names no direction, given its text.
pub open spec fn unprocessable_ordering(text: Seq<char>) -> Seq<char> {
    "Unable to process ordering argument "@ + text
}

/// Writes an argument as it is shown in a report.
pub fn show_argument(argument: &ConstValue) -> (r: String)
    ensures
        r@ == argument_text(argument@),
{
    json_to_string(&const_as_json(argument))
}

/// Reports an order-by argument that is neither an object nor a list, given
/// the text of the argument.
pub fn invalid_argument_message(text: &str) -> (r: String)
    ensures
        r@ == invalid_argument(text@),
{
    concat3("Invalid argument ('", text, "')")
}

/// Reports an argument that names no direction, given its text.
pub fn unprocessable_ordering_message(text: &str) -> (r: String)
    ensures
        r@ == unprocessable_ordering(text@),
{
    concat2("Unable to process ordering argument ", text)
}

/// The direction that an argument names: `ASC` or `DESC`, given as an enum
/// value or as a string.
pub open spec fn ordering_of(argument: ConstView) -> Result<SortOrder, ExecutionErrorView> {
    match argument {
        ConstView::Enum(v) => direction_named(v),
        ConstView::String(v) => direction_named(v),
        _ => Err(ExecutionErrorView::Generic(unprocessable_ordering(argument_text(argument)))),
    }
}

/// The direction with the given name.
pub open spec fn direction_named(name: Seq<char>) -> Result<SortOrder, ExecutionErrorView> {
    if name == "ASC"@ {
        Ok(SortOrder::Asc)
    } else if name == "DESC"@ {
        Ok(SortOrder::Desc)
    } else {
        Err(ExecutionErrorView::Generic("Cannot match "@ + name + " as valid ordering"@))
    }
}

/// The view of the outcome of a function that gives a direction or fails.
pub open spec fn ordering_result_view(r: Result<SortOrder, PostgresExecutionError>) -> Result<
    SortOrder,
    ExecutionErrorView,
> {
    match r {
        Ok(o) => Ok(o),
        Err(e) => Err(e@),
    }
}

fn str_ordering(value: &str) -> (r: Result<SortOrder, PostgresExecutionError>)
    ensures
        ordering_result_view(r) == direction_named(value@),
{
    if str_eq(value, "ASC") {
        Ok(SortOrder::Asc)
    } else if str_eq(value, "DESC") {
        Ok(SortOrder::Desc)
    } else {
        Err(PostgresExecutionError::Generic(concat3("Cannot match ", value, " as valid ordering")))
    }
}

/// Reads the direction of an ordering from an argument.
pub fn ordering(argument: &ConstValue) -> (r: Result<SortOrder, PostgresExecutionError>)
    ensures
        ordering_result_view(r) == ordering_of(argument@),
{
    match argument {
        ConstValue::Enum(value) => str_ordering(value.as_str()),
        ConstValue::String(value) => str_ordering(value.as_str()),
        _ => Err(
            PostgresExecutionError::Generic(
                unprocessable_ordering_message(show_argument(argument).as_str()),
            ),
        ),
    }
}

/// Whether every item of a list is a number.
pub open spec fn all_numbers(items: Seq<ConstView>) -> bool {
    forall|i: int| 0 <= i < items.len() ==> (#[trigger] items[i]) is Number
}

/// The vector that a value stands for: a list of numbers, in order.
pub open spec fn pg_vector_of(value: ConstView, parameter_name: Seq<char>) -> Result<
    Seq<NumberView>,
    ExecutionErrorView,
> {
    match value {
        ConstView::List(items) => if all_numbers(items) {
            Ok(Seq::new(items.len(), |i: int| items[i]->Number_0))
        } else {
            Err(
                ExecutionErrorView::Validation(
                    parameter_name,
                    "Invalid vector parameter: element is not a number"@,
                ),
            )
        },
        _ => Err(
            ExecutionErrorView::Validation(
                parameter_name,
                "Invalid vector parameter: must be a list of numbers"@,
            ),
        ),
    }
}

/// The view of the outcome of a function that gives a vector or fails.
pub open spec fn vector_result_view(r: Result<Vec<Number>, PostgresExecutionError>) -> Result<
    Seq<NumberView>,
    ExecutionErrorView,
> {
    match r {
        Ok(v) => Ok(number_views(v@)),
        Err(e) => Err(e@),
    }
}

/// Reads a vector from an argument.
pub fn to_pg_vector(value: &ConstValue, parameter_name: &str) -> (r: Result<
    Vec<Number>,
    PostgresExecutionError,
>)
    ensures
        vector_result_view(r) == pg_vector_of(value@, parameter_name@),
{
    match value {
        ConstValue::List(items) => {
            proof {
                lemma_const_list_view(*items);
            }
            let mut out: Vec<Number> = Vec::new();
            let mut i: usize = 0;
            while i < items.len()
                invariant
                    i <= items.len(),
                    out@.len() == i,
                    value@ == ConstView::List(const_views(items@)),
                    forall|j: int| 0 <= j < i ==> (#[trigger] items@[j]@) is Number,
                    forall|j: int| 0 <= j < i ==> out@[j]@ == items@[j]@->Number_0,
                decreases items.len() - i,
            {
                match &items[i] {
                    ConstValue::Number(n) => {
                        out.push(n.duplicate());
                    },
                    _ => {
                        proof {
                            assert(!(const_views(items@)[i as int] is Number));
                        }
                        return Err(
                            PostgresExecutionError::validation(
                                parameter_name,
                                "Invalid vector parameter: element is not a number",
                            ),
                        );
                    },
                }
                i += 1;
            }
            proof {
                assert forall|j: int| 0 <= j < const_views(items@).len() implies (
                #[trigger] const_views(items@)[j]) is Number by {
                    assert(items@[j]@ is Number);
                }
                assert(number_views(out@) =~= Seq::new(
                    const_views(items@).len(),
                    |i: int| const_views(items@)[i]->Number_0,
                ));
            }
            Ok(out)
        },
        _ => Err(
            PostgresExecutionError::validation(
                parameter_name,
                "Invalid vector parameter: must be a list of numbers",
            ),
        ),
    }
}

/// Whether an order-by parameter fits its model: it names a type and a rule
/// that exist, and where it orders by a column or a vector it says how the
/// column is reached.
pub open spec fn order_by_parameter_wf(s: PostgresGraphQLSubsystem, p: OrderByParameter) -> bool {
    &&& p.type_id < s.order_by_types@.len()
    &&& p.access is Some ==> p.access.unwrap() < s.database_access_expressions@.len()
    &&& !(s.order_by_types@[p.type_id as int].kind is Composite) ==> p.column_path_link is Some
}

/// Whether every parameter of an order-by type fits its model.
pub open spec fn order_by_type_wf(s: PostgresGraphQLSubsystem, t: OrderByParameterType) -> bool {
    t.kind is Composite ==> forall|p: int|
        0 <= p < t.kind->Composite_parameters@.len() ==> order_by_parameter_wf(
            s,
            #[trigger] t.kind->Composite_parameters@[p],
        )
}

/// Whether the order-by types of a model are usable.
pub open spec fn order_by_types_wf(s: PostgresGraphQLSubsystem) -> bool {
    forall|t: int|
        0 <= t < s.order_by_types@.len() ==> order_by_type_wf(s, #[trigger] s.order_by_types@[t])
}

/// The outcome of combining a list of outcomes: the combination of all of
/// them, or the first error.
pub open spec fn combined_results(
    outcomes: Seq<Result<OrderByComputationView, ExecutionErrorView>>,
) -> Result<OrderByComputationView, ExecutionErrorView> {
    match collected(outcomes) {
        Ok(values) => Ok(combined(values)),
        Err(e) => Err(e),
    }
}

/// The ordering that an order-by argument stands for. An object is mapped
/// entry by entry and a list item by item, and the outcomes are combined in
/// order; any other value is refused.
pub open spec fn order_by_sql(
    s: PostgresGraphQLSubsystem,
    context: Seq<(Seq<char>, ConstView)>,
    param: OrderByParameter,
    parent: Option<Seq<ColumnPathLinkView>>,
    argument: ConstView,
) -> Result<OrderByComputationView, ExecutionErrorView>
    decreases argument, 0nat,
{
    match argument {
        ConstView::Object(entries) => combined_results(
            object_outcomes(s, context, s.order_by_types@[param.type_id as int], parent, entries),
        ),
        ConstView::List(items) => combined_results(list_outcomes(s, context, param, parent, items)),
        _ => Err(
            ExecutionErrorView::Validation(param.name@, invalid_argument(argument_text(argument))),
        ),
    }
}

/// The outcomes of the entries of an order-by object, in order.
pub open spec fn object_outcomes(
    s: PostgresGraphQLSubsystem,
    context: Seq<(Seq<char>, ConstView)>,
    typ: OrderByParameterType,
    parent: Option<Seq<ColumnPathLinkView>>,
    entries: Seq<(Seq<char>, ConstView)>,
) -> Seq<Result<OrderByComputationView, ExecutionErrorView>>
    decreases entries, 2nat,
{
    Seq::new(
        entries.len(),
        |i: int|
            if 0 <= i < entries.len() {
                order_by_pair_sql(s, context, typ, entries[i].0, entries[i].1, parent)
            } else {
                Err(ExecutionErrorView::Authorization)
            },
    )
}

/// The outcomes of the items of an order-by list, in order.
pub open spec fn list_outcomes(
    s: PostgresGraphQLSubsystem,
    context: Seq<(Seq<char>, ConstView)>,
    param: OrderByParameter,
    parent: Option<Seq<ColumnPathLinkView>>,
    items: Seq<ConstView>,
) -> Seq<Result<OrderByComputationView, ExecutionErrorView>>
    decreases items, 2nat,
{
    Seq::new(
        items.len(),
        |i: int|
            if 0 <= i < items.len() {
                order_by_sql(s, context, param, parent, items[i])
            } else {
                Err(ExecutionErrorView::Authorization)
            },
    )
}

/// The predicate that ordering by a parameter puts on the rows: the read rule
/// of its field. A field that is a relation must be readable without
/// condition; a field that may not be read at all is refused.
pub open spec fn order_by_field_access(
    s: PostgresGraphQLSubsystem,
    context: Seq<(Seq<char>, ConstView)>,
    parameter: OrderByParameter,
) -> Result<PredicateView, ExecutionErrorView> {
    let access = match parameter.access {
        Some(read) => retrieve_access(s.database_access_expressions@[read as int], context),
        None => Ok(PredicateView::True),
    };
    match access {
        Err(e) => Err(e),
        Ok(field_access) => if parameter.column_path_link is Some
            && parameter.column_path_link.unwrap() is Relation && !(field_access is True) {
            Err(ExecutionErrorView::Authorization)
        } else {
            Ok(field_access)
        },
    }
}

/// The distance function of a vector ordering: the one declared, else cosine.
pub open spec fn distance_function_of(function: Option<VectorDistanceFunction>) -> VectorDistanceFunction {
    match function {
        Some(f) => f,
        None => VectorDistanceFunction::Cosine,
    }
}

/// The ordering by the distance of a vector column to a target: the value
/// must be an object with the target under `distanceTo`; its direction is
/// under `order` and is `ASC` where that is missing.
pub open spec fn vector_ordering(
    parameter_name: Seq<char>,
    value: ConstView,
    path: Seq<ColumnPathLinkView>,
    function: Option<VectorDistanceFunction>,
    field_access: PredicateView,
) -> Result<OrderByComputationView, ExecutionErrorView> {
    match value {
        ConstView::Object(entries) => match lookup(entries, "distanceTo"@) {
            Some(target) => match pg_vector_of(target, parameter_name) {
                Err(e) => Err(e),
                Ok(vector) => {
                    let order = match lookup(entries, "order"@) {
                        Some(o) => o,
                        None => ConstView::String("ASC"@),
                    };
                    match ordering_of(order) {
                        Err(e) => Err(e),
                        Ok(direction) => Ok(
                            OrderByComputationView {
                                order_by: seq![
                                    (
                                        OrderByExprView::VectorDistance(
                                            ColumnPathView::Physical(path),
                                            ColumnPathView::Param(SqlParamView::Vector(vector)),
                                            distance_function_of(function),
                                        ),
                                        direction,
                                    ),
                                ],
                                predicate: field_access,
                            },
                        ),
                    }
                },
            },
            None => Err(
                ExecutionErrorView::Validation(parameter_name, "Invalid vector order by parameter"@),
            ),
        },
        _ => Err(
            ExecutionErrorView::Validation(parameter_name, "Invalid vector order by parameter"@),
        ),
    }
}

/// The ordering that one entry of an order-by object stands for. The entry
/// names a parameter of the composite type `typ`; a primitive parameter
/// orders by its column, a vector parameter by a distance, and a composite
/// parameter by what its own value stands for, under the read rule of the
/// field.
pub open spec fn order_by_pair_sql(
    s: PostgresGraphQLSubsystem,
    context: Seq<(Seq<char>, ConstView)>,
    typ: OrderByParameterType,
    parameter_name: Seq<char>,
    parameter_value: ConstView,
    parent: Option<Seq<ColumnPathLinkView>>,
) -> Result<OrderByComputationView, ExecutionErrorView>
    decreases parameter_value, 1nat,
{
    match typ.kind {
        OrderByParameterTypeKind::Composite { parameters } => match order_by_parameter_named(
            parameters@,
            parameter_name,
        ) {
            Some(parameter) => match order_by_field_access(s, context, parameter) {
                Err(e) => Err(e),
                Ok(field_access) => {
                    let new_path = extended_path(
                        parent,
                        link_option_view(parameter.column_path_link),
                    );
                    match s.order_by_types@[parameter.type_id as int].kind {
                        OrderByParameterTypeKind::Primitive => match ordering_of(parameter_value) {
                            Err(e) => Err(e),
                            Ok(direction) => Ok(
                                OrderByComputationView {
                                    order_by: seq![
                                        (OrderByExprView::Column(new_path.unwrap()), direction),
                                    ],
                                    predicate: field_access,
                                },
                            ),
                        },
                        OrderByParameterTypeKind::Vector => vector_ordering(
                            parameter_name,
                            parameter_value,
                            new_path.unwrap(),
                            parameter.vector_distance_function,
                            field_access,
                        ),
                        OrderByParameterTypeKind::Composite { .. } => match order_by_sql(
                            s,
                            context,
                            parameter,
                            new_path,
                            parameter_value,
                        ) {
                            Err(e) => Err(e),
                            Ok(nested) => Ok(
                                OrderByComputationView {
                                    order_by: nested.order_by,
                                    predicate: and_view(field_access, nested.predicate),
                                },
                            ),
                        },
                    }
                },
            },
            None => Err(ExecutionErrorView::Validation(parameter_name, "Invalid order by parameter"@)),
        },
        _ => Err(
            ExecutionErrorView::Validation(
                parameter_name,
                "Invalid primitive or vector order by parameter"@,
            ),
        ),
    }
}

/// The view of the outcome of a function that gives an ordering or fails.
pub open spec fn computation_result_view(
    r: Result<OrderByComputation, PostgresExecutionError>,
) -> Result<OrderByComputationView, ExecutionErrorView> {
    match r {
        Ok(c) => Ok(c@),
        Err(e) => Err(e@),
    }
}

/// A copy of an optional path.
pub fn duplicate_path_option(path: &Option<PhysicalColumnPath>) -> (r: Option<PhysicalColumnPath>)
    ensures
        path_option_view(r) == path_option_view(*path),
{
    match path {
        Some(p) => Some(p.duplicate()),
        None => None,
    }
}

/// An order-by argument on its way to an ordering: the parameter it is given
/// for, and the path to the table whose columns it orders by.
pub struct OrderByParameterInput<'a> {
    pub param: &'a OrderByParameter,
    pub parent_column_path: Option<PhysicalColumnPath>,
}

impl<'a> OrderByParameterInput<'a> {
    /// Maps the argument to the ordering it stands for.
    pub fn to_sql(
        self,
        argument: &ConstValue,
        subsystem: &PostgresGraphQLSubsystem,
        request_context: &RequestContext,
    ) -> (r: Result<OrderByComputation, PostgresExecutionError>)
        requires
            order_by_types_wf(*subsystem),
            order_by_parameter_wf(*subsystem, *self.param),
            self.parent_column_path is Some ==> path_wf(self.parent_column_path.unwrap()@),
        ensures
            computation_result_view(r) == order_by_sql(
                *subsystem,
                request_context@,
                *self.param,
                path_option_view(self.parent_column_path),
                argument@,
            ),
        decreases argument, 0nat,
    {
        let ghost parent = path_option_view(self.parent_column_path);
        match argument {
            ConstValue::Object(entries) => {
                let parameter_type = &subsystem.order_by_types[self.param.type_id];
                let ghost outcomes = object_outcomes(
                    *subsystem,
                    request_context@,
                    *parameter_type,
                    parent,
                    const_field_views(entries@),
                );
                let mut results: Vec<OrderByComputation> = Vec::new();
                proof {
                    lemma_const_object_view(*entries);
                    assert(outcomes.take(0) =~= Seq::empty());
                    assert(computation_views(results@) =~= Seq::empty());
                }
                let mut i: usize = 0;
                while i < entries.len()
                    invariant
                        i <= entries.len(),
                        order_by_types_wf(*subsystem),
                        order_by_parameter_wf(*subsystem, *self.param),
                        self.parent_column_path is Some ==> path_wf(
                            self.parent_column_path.unwrap()@,
                        ),
                        parent == path_option_view(self.parent_column_path),
                        argument is Object,
                        argument->Object_0 == *entries,
                        argument@ == ConstView::Object(const_field_views(entries@)),
                        *parameter_type == subsystem.order_by_types@[self.param.type_id as int],
                        outcomes == object_outcomes(
                            *subsystem,
                            request_context@,
                            *parameter_type,
                            parent,
                            const_field_views(entries@),
                        ),
                        collected(outcomes.take(i as int)) == Ok::<
                            Seq<OrderByComputationView>,
                            ExecutionErrorView,
                        >(computation_views(results@)),
                    decreases entries.len() - i,
                {
                    proof {
                        assert(decreases_to!(*argument => argument->Object_0));
                        assert(decreases_to!(*entries => entries[i as int]));
                        assert(decreases_to!(entries[i as int] => entries[i as int].1));
                    }
                    let ghost before = results@;
                    let outcome = order_by_pair(
                        parameter_type,
                        entries[i].0.as_str(),
                        &entries[i].1,
                        duplicate_path_option(&self.parent_column_path),
                        subsystem,
                        request_context,
                    );
                    proof {
                        lemma_collected_step(outcomes, i as int);
                    }
                    match outcome {
                        Ok(c) => {
                            results.push(c);
                            assert(computation_views(results@) =~= computation_views(before).push(
                                c@,
                            ));
                        },
                        Err(e) => {
                            proof {
                                lemma_collected_error_stays(outcomes, i + 1);
                            }
                            return Err(e);
                        },
                    }
                    i += 1;
                }
                proof {
                    assert(outcomes.take(i as int) =~= outcomes);
                }
                Ok(OrderByComputation::combine(results))
            },
            ConstValue::List(items) => {
                let ghost outcomes = list_outcomes(
                    *subsystem,
                    request_context@,
                    *self.param,
                    parent,
                    const_views(items@),
                );
                let mut results: Vec<OrderByComputation> = Vec::new();
                proof {
                    lemma_const_list_view(*items);
                    assert(outcomes.take(0) =~= Seq::empty());
                    assert(computation_views(results@) =~= Seq::empty());
                }
                let mut i: usize = 0;
                while i < items.len()
                    invariant
                        i <= items.len(),
                        order_by_types_wf(*subsystem),
                        order_by_parameter_wf(*subsystem, *self.param),
                        self.parent_column_path is Some ==> path_wf(
                            self.parent_column_path.unwrap()@,
                        ),
                        parent == path_option_view(self.parent_column_path),
                        argument is List,
                        argument->List_0 == *items,
                        argument@ == ConstView::List(const_views(items@)),
                        outcomes == list_outcomes(
                            *subsystem,
                            request_context@,
                            *self.param,
                            parent,
                            const_views(items@),
                        ),
                        collected(outcomes.take(i as int)) == Ok::<
                            Seq<OrderByComputationView>,
                            ExecutionErrorView,
                        >(computation_views(results@)),
                    decreases items.len() - i,
                {
                    proof {
                        assert(decreases_to!(*argument => argument->List_0));
                        assert(decreases_to!(*items => items[i as int]));
                    }
                    let ghost before = results@;
                    let input = OrderByParameterInput {
                        param: self.param,
                        parent_column_path: duplicate_path_option(&self.parent_column_path),
                    };
                    let outcome = input.to_sql(&items[i], subsystem, request_context);
                    proof {
                        lemma_collected_step(outcomes, i as int);
                    }
                    match outcome {
                        Ok(c) => {
                            results.push(c);
                            assert(computation_views(results@) =~= computation_views(before).push(
                                c@,
                            ));
                        },
                        Err(e) => {
                            proof {
                                lemma_collected_error_stays(outcomes, i + 1);
                            }
                            return Err(e);
                        },
                    }
                    i += 1;
                }
                proof {
                    assert(outcomes.take(i as int) =~= outcomes);
                }
                Ok(OrderByComputation::combine(results))
            },
            _ => Err(
                PostgresExecutionError::validation(
                    self.param.name.as_str(),
                    invalid_argument_message(show_argument(argument).as_str()).as_str(),
                ),
            ),
        }
    }
}

/// The read rule of the field that a parameter orders by, as the predicate
/// it puts on the rows.
fn field_access_of(
    parameter: &OrderByParameter,
    subsystem: &PostgresGraphQLSubsystem,
    request_context: &RequestContext,
) -> (r: Result<AbstractPredicate, PostgresExecutionError>)
    requires
        order_by_parameter_wf(*subsystem, *parameter),
    ensures
        crate::access::predicate_result_view(r) == order_by_field_access(
            *subsystem,
            request_context@,
            *parameter,
        ),
{
    let field_access = match parameter.access {
        Some(read) => {
            match check_retrieve_access(
                &subsystem.database_access_expressions[read],
                request_context,
            ) {
                Ok(p) => p,
                Err(e) => {
                    return Err(e);
                },
            }
        },
        None => AbstractPredicate::True,
    };
    if field_access.is_false() {
        return Err(PostgresExecutionError::Authorization);
    }
    let is_relation = match &parameter.column_path_link {
        Some(ColumnPathLink::Relation(_)) => true,
        _ => false,
    };
    if is_relation {
        // Relation fields require unconditional access while ordering
        if field_access.is_true() {
            Ok(AbstractPredicate::True)
        } else {
            Err(PostgresExecutionError::Authorization)
        }
    } else {
        Ok(field_access)
    }
}

/// Maps the value given for a vector parameter to the ordering by distance.
fn vector_order_by(
    parameter_name: &str,
    parameter_value: &ConstValue,
    path: PhysicalColumnPath,
    function: Option<VectorDistanceFunction>,
    field_access: AbstractPredicate,
) -> (r: Result<OrderByComputation, PostgresExecutionError>)
    ensures
        computation_result_view(r) == vector_ordering(
            parameter_name@,
            parameter_value@,
            path@,
            function,
            field_access@,
        ),
{
    match parameter_value {
        ConstValue::Object(entries) => {
            proof {
                lemma_const_object_view(*entries);
            }
            let value = match const_get(entries, "distanceTo") {
                Some(v) => v,
                None => {
                    return Err(
                        PostgresExecutionError::validation(
                            parameter_name,
                            "Invalid vector order by parameter",
                        ),
                    );
                },
            };
            let vector_value = match to_pg_vector(value, parameter_name) {
                Ok(v) => v,
                Err(e) => {
                    return Err(e);
                },
            };
            let direction = match const_get(entries, "order") {
                Some(order) => ordering(order),
                None => {
                    let default_order = ConstValue::String("ASC".to_owned());
                    ordering(&default_order)
                },
            };
            match direction {
                Ok(direction) => {
                    let function = match function {
                        Some(f) => f,
                        None => VectorDistanceFunction::default(),
                    };
                    Ok(
                        OrderByComputation::new(
                            AbstractOrderBy::single(
                                AbstractOrderByExpr::VectorDistance(
                                    ColumnPath::Physical(path),
                                    ColumnPath::Param(SqlParam::Vector(vector_value)),
                                    function,
                                ),
                                direction,
                            ),
                            field_access,
                        ),
                    )
                },
                Err(e) => Err(e),
            }
        },
        _ => Err(
            PostgresExecutionError::validation(parameter_name, "Invalid vector order by parameter"),
        ),
    }
}

/// Maps one entry of an order-by object to the ordering it stands for.
pub fn order_by_pair(
    typ: &OrderByParameterType,
    parameter_name: &str,
    parameter_value: &ConstValue,
    parent_column_path: Option<PhysicalColumnPath>,
    subsystem: &PostgresGraphQLSubsystem,
    request_context: &RequestContext,
) -> (r: Result<OrderByComputation, PostgresExecutionError>)
    requires
        order_by_types_wf(*subsystem),
        order_by_type_wf(*subsystem, *typ),
        parent_column_path is Some ==> path_wf(parent_column_path.unwrap()@),
    ensures
        computation_result_view(r) == order_by_pair_sql(
            *subsystem,
            request_context@,
            *typ,
            parameter_name@,
            parameter_value@,
            path_option_view(parent_column_path),
        ),
    decreases parameter_value, 1nat,
{
    match &typ.kind {
        OrderByParameterTypeKind::Composite { parameters } => {
            match find_order_by_parameter(parameters, parameter_name) {
                Some(parameter) => {
                    let field_access_predicate = match field_access_of(
                        parameter,
                        subsystem,
                        request_context,
                    ) {
                        Ok(p) => p,
                        Err(e) => {
                            return Err(e);
                        },
                    };
                    let base_param_type = &subsystem.order_by_types[parameter.type_id];
                    // A leaf orders by its column; anything else goes on with a longer path.
                    let new_column_path = to_column_path(
                        &parent_column_path,
                        &parameter.column_path_link,
                    );
                    match &base_param_type.kind {
                        OrderByParameterTypeKind::Primitive => {
                            let new_column_path = new_column_path.unwrap();
                            match ordering(parameter_value) {
                                Ok(direction) => Ok(
                                    OrderByComputation::new(
                                        AbstractOrderBy::single(
                                            AbstractOrderByExpr::Column(new_column_path),
                                            direction,
                                        ),
                                        field_access_predicate,
                                    ),
                                ),
                                Err(e) => Err(e),
                            }
                        },
                        OrderByParameterTypeKind::Vector => vector_order_by(
                            parameter_name,
                            parameter_value,
                            new_column_path.unwrap(),
                            parameter.vector_distance_function,
                            field_access_predicate,
                        ),
                        OrderByParameterTypeKind::Composite { .. } => {
                            let nested = OrderByParameterInput {
                                param: parameter,
                                parent_column_path: new_column_path,
                            }.to_sql(parameter_value, subsystem, request_context);
                            match nested {
                                Ok(nested) => Ok(
                                    OrderByComputation::new(
                                        nested.order_by,
                                        AbstractPredicate::and(
                                            field_access_predicate,
                                            nested.predicate,
                                        ),
                                    ),
                                ),
                                Err(e) => Err(e),
                            }
                        },
                    }
                },
                None => Err(
                    PostgresExecutionError::validation(parameter_name, "Invalid order by parameter"),
                ),
            }
        },
        _ => Err(
            PostgresExecutionError::validation(
                parameter_name,
                "Invalid primitive or vector order by parameter",
            ),
        ),
    }
}

} // verus!
