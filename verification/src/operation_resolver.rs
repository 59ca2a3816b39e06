//! What resolving a field of an operation gives: a select, or in general an
//! operation on the database, with the type of what it returns.

use vstd::prelude::*;
use crate::access::RequestContext;
use crate::error::{ExecutionErrorView, PostgresExecutionError};
use crate::field::ValidatedField;
use crate::planner::{planned_collection, planned_unique, returns_entity};
use crate::planner_access::subsystem_wf;
use crate::schema::{CollectionQuery, OperationReturnType, PostgresGraphQLSubsystem, UniqueQuery};
use crate::select::{AbstractSelect, SelectView};

verus! {

/// An operation on the database in its abstract form.
#[derive(Debug, PartialEq, Eq)]
pub enum AbstractOperation {
    Select(AbstractSelect),
}

/// A select with the type of what it returns.
#[derive(Debug, PartialEq, Eq)]
pub struct ResolvedSelect<'a> {
    pub select: AbstractSelect,
    pub return_type: &'a OperationReturnType,
}

/// An operation with the type of what it returns.
#[derive(Debug, PartialEq, Eq)]
pub struct PostgresResolvedOperation<'a> {
    pub operation: AbstractOperation,
    pub return_type: &'a OperationReturnType,
}

impl<'a> ResolvedSelect<'a> {
    /// The select as an operation on the database.
    pub fn into_operation(self) -> (r: PostgresResolvedOperation<'a>)
        ensures
            r.operation == AbstractOperation::Select(self.select),
            r.return_type == self.return_type,
    {
        PostgresResolvedOperation {
            operation: AbstractOperation::Select(self.select),
            return_type: self.return_type,
        }
    }
}

/// The view of a resolved operation: the view of its select.
pub open spec fn operation_result_view(r: Result<PostgresResolvedOperation, PostgresExecutionError>) -> Result<
    SelectView,
    ExecutionErrorView,
> {
    match r {
        Ok(o) => match o.operation {
            AbstractOperation::Select(s) => Ok(s@),
        },
        Err(e) => Err(e@),
    }
}

impl UniqueQuery {
    /// Resolves `field` by this query into an operation on the database.
    pub fn resolve<'a>(
        &'a self,
        field: &ValidatedField,
        request_context: &RequestContext,
        subsystem: &PostgresGraphQLSubsystem,
    ) -> (r: Result<PostgresResolvedOperation<'a>, PostgresExecutionError>)
        requires
            subsystem_wf(*subsystem),
            returns_entity(*subsystem, self.return_type),
        ensures
            operation_result_view(r) == planned_unique(*subsystem, request_context@, *self, field@),
            r is Ok ==> *r.unwrap().return_type == self.return_type,
    {
        match self.resolve_select(field, request_context, subsystem) {
            Ok(select) => Ok(
                ResolvedSelect { select, return_type: &self.return_type }.into_operation(),
            ),
            Err(e) => Err(e),
        }
    }
}

impl CollectionQuery {
    /// Resolves `field` by this query into an operation on the database.
    pub fn resolve<'a>(
        &'a self,
        field: &ValidatedField,
        request_context: &RequestContext,
        subsystem: &PostgresGraphQLSubsystem,
    ) -> (r: Result<PostgresResolvedOperation<'a>, PostgresExecutionError>)
        requires
            subsystem_wf(*subsystem),
            returns_entity(*subsystem, self.return_type),
            crate::order_by_mapper::order_by_parameter_wf(*subsystem, self.order_by_param),
        ensures
            operation_result_view(r) == planned_collection(
                *subsystem,
                request_context@,
                *self,
                field@,
            ),
            r is Ok ==> *r.unwrap().return_type == self.return_type,
    {
        match self.resolve_select(field, request_context, subsystem) {
            Ok(select) => Ok(
                ResolvedSelect { select, return_type: &self.return_type }.into_operation(),
            ),
            Err(e) => Err(e),
        }
    }
}

} // verus!
