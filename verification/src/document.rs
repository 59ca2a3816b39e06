//! The parts of a parsed GraphQL document that validation reads.

use vstd::prelude::*;
use crate::validation::{Pos, VariableDefinition};
use crate::value::Number;

verus! {

/// A value as it is written in a document: it may name variables.
#[derive(Debug, PartialEq, Eq)]
pub enum DocumentValue {
    Variable(String),
    Null,
    Number(Number),
    String(String),
    Boolean(bool),
    Enum(String),
    List(Vec<DocumentValue>),
    Object(Vec<(String, DocumentValue)>),
}

/// A field of a selection as it is written in a document.
#[derive(Debug, PartialEq, Eq)]
pub struct Field {
    pub alias: Option<String>,
    pub name: String,
    pub arguments: Vec<(String, DocumentValue)>,
    pub selection_set: Vec<Selection>,
    pub pos: Pos,
}

/// One item of a selection set.
#[derive(Debug, PartialEq, Eq)]
pub enum Selection {
    Field(Field),
    FragmentSpread { fragment_name: String, pos: Pos },
    InlineFragment { selection_set: Vec<Selection>, pos: Pos },
}

/// A named selection set that selections can spread.
#[derive(Debug, PartialEq, Eq)]
pub struct FragmentDefinition {
    pub name: String,
    pub selection_set: Vec<Selection>,
}

/// What an operation does.
#[derive(Clone, Copy, Debug, PartialEq, Eq, Structural)]
pub enum OperationType {
    Query,
    Mutation,
    Subscription,
}

/// An operation of a document.
#[derive(Debug, PartialEq, Eq)]
pub struct OperationDefinition {
    pub ty: OperationType,
    pub variable_definitions: Vec<VariableDefinition>,
    pub selection_set: Vec<Selection>,
    pub pos: Pos,
}

} // verus!
