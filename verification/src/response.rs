//! From the rows of the last step of an operation to the response.

use vstd::prelude::*;
use crate::access::RequestContext;
use crate::computed_fields::{
    apply_computed_fields_to_body, computed_wf, processed_body, Processing, Progress,
    QueryResponseBody, QueryResponseBodyView,
};
use crate::error::{
    surfaced, DatabaseError, DatabaseErrorView, ExecutionErrorView, PostgresExecutionError,
};
use crate::field::{FieldView, ValidatedField};
use crate::schema::{OperationReturnType, PostgresGraphQLSubsystem};
use crate::transaction::rows_view;
use crate::value::{const_views, json_views, ConstValue, ConstView, JsonValue, JsonView};

verus! {

/// The response to an operation.
#[derive(Debug, PartialEq, Eq)]
pub struct QueryResponse {
    pub body: QueryResponseBody,
    pub headers: Vec<(String, String)>,
}

/// The view of a [`QueryResponse`].
pub struct QueryResponseView {
    pub body: QueryResponseBodyView,
    pub headers: Seq<(Seq<char>, Seq<char>)>,
}

impl View for QueryResponse {
    type V = QueryResponseView;

    open spec fn view(&self) -> QueryResponseView {
        QueryResponseView { body: self.body@, headers: crate::telemetry::env_view(self.headers@) }
    }
}

/// The text that a row holds: its first value, which must be a string.
pub open spec fn extracted(row: Seq<ConstView>) -> Result<Seq<char>, ExecutionErrorView> {
    if row.len() > 0 && row[0] is String {
        Ok(row[0]->String_0)
    } else {
        Err(ExecutionErrorView::Generic("Expected a row with one JSON text"@))
    }
}

/// The body that the rows of an operation make: none without a row, the
/// text of the row for one row, and an error for more.
pub open spec fn assembled_body(rows: Seq<Seq<ConstView>>) -> Result<
    QueryResponseBodyView,
    ExecutionErrorView,
> {
    if rows.len() == 1 {
        match extracted(rows[0]) {
            Ok(text) => Ok(QueryResponseBodyView::Raw(Some(text))),
            Err(e) => Err(e),
        }
    } else if rows.len() == 0 {
        Ok(QueryResponseBodyView::Raw(None))
    } else {
        Err(ExecutionErrorView::NonUniqueResult(rows.len() as usize))
    }
}

/// The body that the outcome of an operation makes. A failed precondition
/// surfaces as a refusal, any other failure of the database as itself.
pub open spec fn assembled(result: Result<Seq<Seq<ConstView>>, DatabaseErrorView>) -> Result<
    QueryResponseBodyView,
    ExecutionErrorView,
> {
    match result {
        Err(e) => Err(surfaced(e)),
        Ok(rows) => assembled_body(rows),
    }
}

/// Takes the JSON text out of a row.
pub fn extractor(row: &Vec<ConstValue>) -> (r: Result<String, PostgresExecutionError>)
    ensures
        match r {
            Ok(t) => Ok(t@),
            Err(e) => Err(e@),
        } == extracted(const_views(row@)),
{
    if row.len() > 0 {
        match &row[0] {
            ConstValue::String(s) => {
                return Ok(s.clone());
            },
            _ => {},
        }
    }
    Err(PostgresExecutionError::generic("Expected a row with one JSON text"))
}

/// The view of the outcome of a database operation.
pub open spec fn rows_result_view(result: Result<Vec<Vec<ConstValue>>, DatabaseError>) -> Result<
    Seq<Seq<ConstView>>,
    DatabaseErrorView,
> {
    match result {
        Ok(rows) => Ok(rows_view(rows@)),
        Err(e) => Err(e@),
    }
}

/// Makes the body of the response from the outcome of the operation.
pub fn assemble_body(result: &Result<Vec<Vec<ConstValue>>, DatabaseError>) -> (r: Result<
    QueryResponseBody,
    PostgresExecutionError,
>)
    ensures
        match r {
            Ok(b) => Ok(b@),
            Err(e) => Err(e@),
        } == assembled(rows_result_view(*result)),
{
    let rows = match result {
        Ok(rows) => rows,
        Err(e) => {
            return Err(PostgresExecutionError::from_database(e.duplicate()));
        },
    };
    if rows.len() == 1 {
        match extractor(&rows[0]) {
            Ok(text) => Ok(QueryResponseBody::Raw(Some(text))),
            Err(e) => Err(e),
        }
    } else if rows.len() == 0 {
        Ok(QueryResponseBody::Raw(None))
    } else {
        Err(PostgresExecutionError::NonUniqueResult(rows.len()))
    }
}

/// The view of the progress on a response.
pub open spec fn response_progress(p: Processing<QueryResponse>) -> Progress<QueryResponseView> {
    match p {
        Processing::Done(v, used) => Progress::Done { value: v@, used: used as nat },
        Processing::Call(c) => Progress::Call(c@),
        Processing::Failed(e) => Progress::Failed(e@),
    }
}

/// The response to an operation, given the outcome of running it and the
/// answers of the scripts called so far: the body that the rows make, with
/// the computed fields filled in, and no headers.
pub open spec fn resolved_operation(
    s: PostgresGraphQLSubsystem,
    context: Seq<(Seq<char>, ConstView)>,
    result: Result<Seq<Seq<ConstView>>, DatabaseErrorView>,
    return_type: OperationReturnType,
    field: FieldView,
    results: Seq<JsonView>,
) -> Progress<QueryResponseView> {
    match assembled(result) {
        Err(e) => Progress::Failed(e),
        Ok(body) => match processed_body(s, context, body, return_type, field, results) {
            Progress::Done { value, used } => Progress::Done {
                value: QueryResponseView { body: value, headers: Seq::empty() },
                used,
            },
            Progress::Call(c) => Progress::Call(c),
            Progress::Failed(e) => Progress::Failed(e),
        },
    }
}

/// Makes the response to an operation from the outcome of running it. Where
/// a computed field needs a script called, the call is returned: the caller
/// makes it, adds the answer to `results`, and asks again with the same outcome.
pub fn resolve_operation(
    result: &Result<Vec<Vec<ConstValue>>, DatabaseError>,
    return_type: &OperationReturnType,
    field: &ValidatedField,
    subsystem: &PostgresGraphQLSubsystem,
    request_context: &RequestContext,
    results: &Vec<JsonValue>,
) -> (r: Processing<QueryResponse>)
    requires
        computed_wf(*subsystem),
        crate::schema::return_entity_id(*return_type) < subsystem.entity_types@.len(),
    ensures
        response_progress(r) == resolved_operation(
            *subsystem,
            request_context@,
            rows_result_view(*result),
            *return_type,
            field@,
            json_views(results@),
        ),
{
    let body = match assemble_body(result) {
        Ok(b) => b,
        Err(e) => {
            return Processing::Failed(e);
        },
    };
    match apply_computed_fields_to_body(
        &body,
        return_type,
        field,
        subsystem,
        request_context,
        results,
    ) {
        Processing::Done(body, used) => {
            let headers: Vec<(String, String)> = Vec::new();
            proof {
                assert(crate::telemetry::env_view(headers@) =~= Seq::empty());
            }
            Processing::Done(QueryResponse { body, headers }, used)
        },
        Processing::Call(c) => Processing::Call(c),
        Processing::Failed(e) => Processing::Failed(e),
    }
}

} // verus!
