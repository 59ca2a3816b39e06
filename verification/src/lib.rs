//! The request pipeline of a GraphQL-over-PostgreSQL backend: operation
//! validation, selection planning, access control, transaction scripting and
//! the post-processing of computed fields, each with a machine-checked contract.

pub mod text;
pub mod value;
pub mod json_text;
pub mod column_path;
pub mod pool;
pub mod predicate;
pub mod error;
pub mod access;
pub mod order_by;
pub mod field;
pub mod validation;
pub mod document;
pub mod selection_validator;
pub mod schema;
pub mod results;
pub mod order_by_mapper;
pub mod select;
pub mod sql_builder;
pub mod planner_access;
pub mod planner;
pub mod planner_laws;
pub mod planner_reach;
pub mod operation_resolver;
pub mod computed_fields;
pub mod response;
pub mod model_check;
pub mod transaction;
pub mod retry;
pub mod script_run;
pub mod launcher;
pub mod telemetry;
pub mod jwt;
pub mod health;
pub mod frontend;
pub mod computed_script;
pub mod reference_input;
pub mod relation_path;
pub mod typechecker;
