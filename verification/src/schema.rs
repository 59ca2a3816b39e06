//! The compiled model that requests are planned against: entity types, their
//! fields and relations, the queries over them and the access rules they
//! refer to. It is built once and only read afterwards.

use vstd::prelude::*;
use crate::access::AccessPredicateExpression;
use crate::column_path::{ColumnId, ColumnPathLink};
use crate::order_by::VectorDistanceFunction;
use crate::text::{index_of, lemma_index_of_is, lemma_index_of_none, str_eq};

verus! {

/// The access rules of an entity or a field, each an index into the arena of
/// its kind: `read` and `update_database` into the database rules,
/// `creation_precheck` and `update_precheck` into the precheck rules.
#[derive(Clone, Copy, Debug, PartialEq, Eq, Structural)]
pub struct Access {
    pub read: usize,
    pub creation_precheck: usize,
    pub update_precheck: usize,
    pub update_database: usize,
}

/// How many rows the far side of a one-to-many relation may hold.
#[derive(Clone, Copy, Debug, PartialEq, Eq, Structural)]
pub enum RelationCardinality {
    Optional,
    Unbounded,
}

/// A relation between two tables, by the side it is seen from.
#[derive(Clone, Copy, Debug, PartialEq, Eq, Structural)]
pub enum RelationId {
    ManyToOne(usize),
    OneToMany(usize),
}

/// A field that a computed field reads.
#[derive(Clone, Debug, PartialEq, Eq)]
pub struct ComputedDependency {
    pub field_name: String,
    pub column_id: ColumnId,
}

/// A field whose value a script computes after the row was read.
#[derive(Clone, Debug, PartialEq, Eq)]
pub struct ComputedField {
    pub subsystem: String,
    pub function_name: String,
    pub script_id: usize,
    pub dependencies: Vec<ComputedDependency>,
}

/// One step of a relation that chains others.
#[derive(Clone, Debug, PartialEq, Eq)]
pub struct TransitiveRelationStep {
    pub relation_id: RelationId,
    /// The entity that the step leads to.
    pub entity_id: usize,
    pub cardinality: RelationCardinality,
    pub is_optional: bool,
    /// The field of the entity before the step that the step follows.
    pub field_name: String,
}

/// How a field relates to the table of its entity.
#[derive(Clone, Debug, PartialEq, Eq)]
pub enum PostgresRelation {
    Scalar { column_id: ColumnId, is_pk: bool },
    ManyToOne { foreign_entity_id: usize, relation_id: usize, is_pk: bool },
    OneToMany { foreign_entity_id: usize, relation_id: usize, cardinality: RelationCardinality },
    Embedded,
    Computed(ComputedField),
    Transitive(Vec<TransitiveRelationStep>),
}

/// The type that a field's declared type ends in.
#[derive(Clone, Debug, PartialEq, Eq)]
pub enum TypeIndex {
    Primitive(String),
    Composite { entity_id: usize, composite_name: String },
}

/// The declared type of a field.
#[derive(Debug, PartialEq, Eq)]
pub enum FieldType {
    Plain(TypeIndex),
    Optional(Box<FieldType>),
    List(Box<FieldType>),
}

/// A field of an entity.
#[derive(Debug, PartialEq, Eq)]
pub struct PostgresField {
    pub name: String,
    pub typ: FieldType,
    pub relation: PostgresRelation,
    pub access: Access,
    pub readonly: bool,
}

/// A pseudo-field that aggregates over a relation.
#[derive(Clone, Debug, PartialEq, Eq)]
pub struct AggregateField {
    pub name: String,
    pub relation: Option<PostgresRelation>,
}

/// A pseudo-field that gives the distance of a vector column to a target.
#[derive(Clone, Debug, PartialEq, Eq)]
pub struct VectorDistanceField {
    pub name: String,
    pub column_id: ColumnId,
    pub distance_function: VectorDistanceFunction,
}

/// How the values of an entity are stored.
#[derive(Clone, Copy, Debug, PartialEq, Eq, Structural)]
pub enum EntityRepresentation {
    /// As rows of a table.
    Managed,
    /// As JSON inside a row of another entity.
    Json,
}

/// A persistent entity.
#[derive(Debug, PartialEq, Eq)]
pub struct EntityType {
    pub name: String,
    pub table_id: usize,
    pub fields: Vec<PostgresField>,
    pub agg_fields: Vec<AggregateField>,
    pub vector_distance_fields: Vec<VectorDistanceField>,
    pub representation: EntityRepresentation,
    pub access: Access,
}

/// The names of a list of fields, in order.
pub open spec fn field_names(fields: Seq<PostgresField>) -> Seq<Seq<char>> {
    Seq::new(fields.len(), |i: int| fields[i].name@)
}

/// The names of a list of aggregate fields, in order.
pub open spec fn aggregate_names(fields: Seq<AggregateField>) -> Seq<Seq<char>> {
    Seq::new(fields.len(), |i: int| fields[i].name@)
}

/// The names of a list of vector-distance fields, in order.
pub open spec fn vector_distance_names(fields: Seq<VectorDistanceField>) -> Seq<Seq<char>> {
    Seq::new(fields.len(), |i: int| fields[i].name@)
}

impl EntityRepresentation {
    /// Whether values are stored as JSON.
    pub fn is_json_like(&self) -> (r: bool)
        ensures
            r == (*self == EntityRepresentation::Json),
    {
        match self {
            EntityRepresentation::Json => true,
            EntityRepresentation::Managed => false,
        }
    }
}

impl EntityType {
    /// The first field named `name`.
    pub open spec fn spec_field(&self, name: Seq<char>) -> Option<PostgresField> {
        match index_of(field_names(self.fields@), name) {
            Some(i) => Some(self.fields@[i]),
            None => None,
        }
    }

    /// The first aggregate field named `name`.
    pub open spec fn spec_aggregate_field(&self, name: Seq<char>) -> Option<AggregateField> {
        match index_of(aggregate_names(self.agg_fields@), name) {
            Some(i) => Some(self.agg_fields@[i]),
            None => None,
        }
    }

    /// The first vector-distance field named `name`.
    pub open spec fn spec_vector_distance_field(&self, name: Seq<char>) -> Option<
        VectorDistanceField,
    > {
        match index_of(vector_distance_names(self.vector_distance_fields@), name) {
            Some(i) => Some(self.vector_distance_fields@[i]),
            None => None,
        }
    }

    /// The field named `name`.
    pub fn field_by_name(&self, name: &str) -> (r: Option<&PostgresField>)
        ensures
            match r {
                Some(f) => self.spec_field(name@) == Some(*f),
                None => self.spec_field(name@).is_none(),
            },
            r is Some ==> self.fields@.contains(*r.unwrap()),
    {
        let mut i: usize = 0;
        while i < self.fields.len()
            invariant
                i <= self.fields.len(),
                forall|j: int| 0 <= j < i ==> self.fields@[j].name@ != name@,
            decreases self.fields.len() - i,
        {
            if str_eq(self.fields[i].name.as_str(), name) {
                proof {
                    lemma_index_of_is(field_names(self.fields@), name@, i as int);
                    assert(self.fields@[i as int] == self.fields[i as int]);
                }
                return Some(&self.fields[i]);
            }
            i += 1;
        }
        proof {
            lemma_index_of_none(field_names(self.fields@), name@);
        }
        None
    }

    /// The aggregate field named `name`.
    pub fn aggregate_field_by_name(&self, name: &str) -> (r: Option<&AggregateField>)
        ensures
            match r {
                Some(f) => self.spec_aggregate_field(name@) == Some(*f),
                None => self.spec_aggregate_field(name@).is_none(),
            },
            r is Some ==> self.agg_fields@.contains(*r.unwrap()),
    {
        let mut i: usize = 0;
        while i < self.agg_fields.len()
            invariant
                i <= self.agg_fields.len(),
                forall|j: int| 0 <= j < i ==> self.agg_fields@[j].name@ != name@,
            decreases self.agg_fields.len() - i,
        {
            if str_eq(self.agg_fields[i].name.as_str(), name) {
                proof {
                    lemma_index_of_is(aggregate_names(self.agg_fields@), name@, i as int);
                    assert(self.agg_fields@[i as int] == self.agg_fields[i as int]);
                }
                return Some(&self.agg_fields[i]);
            }
            i += 1;
        }
        proof {
            lemma_index_of_none(aggregate_names(self.agg_fields@), name@);
        }
        None
    }

    /// The vector-distance field named `name`.
    pub fn vector_distance_field_by_name(&self, name: &str) -> (r: Option<&VectorDistanceField>)
        ensures
            match r {
                Some(f) => self.spec_vector_distance_field(name@) == Some(*f),
                None => self.spec_vector_distance_field(name@).is_none(),
            },
    {
        let mut i: usize = 0;
        while i < self.vector_distance_fields.len()
            invariant
                i <= self.vector_distance_fields.len(),
                forall|j: int| 0 <= j < i ==> self.vector_distance_fields@[j].name@ != name@,
            decreases self.vector_distance_fields.len() - i,
        {
            if str_eq(self.vector_distance_fields[i].name.as_str(), name) {
                proof {
                    lemma_index_of_is(
                        vector_distance_names(self.vector_distance_fields@),
                        name@,
                        i as int,
                    );
                }
                return Some(&self.vector_distance_fields[i]);
            }
            i += 1;
        }
        proof {
            lemma_index_of_none(vector_distance_names(self.vector_distance_fields@), name@);
        }
        None
    }
}

/// The shape of what an operation returns: one entity, perhaps none, or a list.
#[derive(Debug, PartialEq, Eq)]
pub enum OperationReturnType {
    Plain { entity_id: usize, composite_name: String },
    Optional(Box<OperationReturnType>),
    List(Box<OperationReturnType>),
}

/// The entity that a return type ends in.
pub open spec fn return_entity_id(t: OperationReturnType) -> usize
    decreases t,
{
    match t {
        OperationReturnType::Plain { entity_id, .. } => entity_id,
        OperationReturnType::Optional(inner) => return_entity_id(*inner),
        OperationReturnType::List(inner) => return_entity_id(*inner),
    }
}

impl OperationReturnType {
    /// The entity that this return type ends in.
    pub fn entity_id(&self) -> (r: usize)
        ensures
            r == return_entity_id(*self),
        decreases self,
    {
        match self {
            OperationReturnType::Plain { entity_id, .. } => *entity_id,
            OperationReturnType::Optional(inner) => inner.entity_id(),
            OperationReturnType::List(inner) => inner.entity_id(),
        }
    }

    /// Whether this return type is a list.
    pub fn is_list(&self) -> (r: bool)
        ensures
            r == (*self is List),
    {
        match self {
            OperationReturnType::List(_) => true,
            _ => false,
        }
    }
}

/// A parameter that restricts the rows of a query by the value of a column.
#[derive(Debug, PartialEq, Eq)]
pub struct PredicateParameter {
    pub name: String,
    /// How the column is reached from the table of the query.
    pub column_path_link: Option<ColumnPathLink>,
}

/// A parameter that orders the rows of a query.
#[derive(Debug, PartialEq, Eq)]
pub struct OrderByParameter {
    pub name: String,
    /// The type of the parameter, an index into the model's order-by types.
    pub type_id: usize,
    pub column_path_link: Option<ColumnPathLink>,
    /// The read rule of the field that the parameter orders by, an index into
    /// the database rules.
    pub access: Option<usize>,
    pub vector_distance_function: Option<VectorDistanceFunction>,
}

/// The kind of an order-by type.
#[derive(Debug, PartialEq, Eq)]
pub enum OrderByParameterTypeKind {
    /// A direction for a column.
    Primitive,
    /// A target vector and a direction for a vector column.
    Vector,
    /// One parameter for each field that can be ordered by.
    Composite { parameters: Vec<OrderByParameter> },
}

/// A type of order-by arguments.
#[derive(Debug, PartialEq, Eq)]
pub struct OrderByParameterType {
    pub name: String,
    pub kind: OrderByParameterTypeKind,
}

/// The names of a list of order-by parameters, in order.
pub open spec fn order_by_parameter_names(parameters: Seq<OrderByParameter>) -> Seq<Seq<char>> {
    Seq::new(parameters.len(), |i: int| parameters[i].name@)
}

/// The first parameter named `name`.
pub open spec fn order_by_parameter_named(parameters: Seq<OrderByParameter>, name: Seq<char>) -> Option<
    OrderByParameter,
> {
    match index_of(order_by_parameter_names(parameters), name) {
        Some(i) => Some(parameters[i]),
        None => None,
    }
}

/// The parameter of `parameters` named `name`.
pub fn find_order_by_parameter<'a>(parameters: &'a Vec<OrderByParameter>, name: &str) -> (r: Option<
    &'a OrderByParameter,
>)
    ensures
        match r {
            Some(p) => order_by_parameter_named(parameters@, name@) == Some(*p),
            None => order_by_parameter_named(parameters@, name@).is_none(),
        },
        r is Some ==> exists|i: int|
            0 <= i < parameters@.len() && #[trigger] parameters@[i] == *r.unwrap(),
{
    let mut i: usize = 0;
    while i < parameters.len()
        invariant
            i <= parameters.len(),
            forall|j: int| 0 <= j < i ==> parameters@[j].name@ != name@,
        decreases parameters.len() - i,
    {
        if str_eq(parameters[i].name.as_str(), name) {
            proof {
                lemma_index_of_is(order_by_parameter_names(parameters@), name@, i as int);
            }
            return Some(&parameters[i]);
        }
        i += 1;
    }
    proof {
        lemma_index_of_none(order_by_parameter_names(parameters@), name@);
    }
    None
}

/// The query that gives the one entity that a predicate singles out.
#[derive(Debug, PartialEq, Eq)]
pub struct UniqueQuery {
    pub name: String,
    pub predicate_params: Vec<PredicateParameter>,
    pub return_type: OperationReturnType,
}

/// The query that gives the entities that meet a predicate, ordered and cut
/// as its arguments say.
#[derive(Debug, PartialEq, Eq)]
pub struct CollectionQuery {
    pub name: String,
    pub predicate_param: PredicateParameter,
    pub order_by_param: OrderByParameter,
    /// The name of the argument that limits the number of rows.
    pub limit_param: String,
    /// The name of the argument that skips rows.
    pub offset_param: String,
    pub return_type: OperationReturnType,
}

/// The query that aggregates over the entities that meet a predicate.
#[derive(Debug, PartialEq, Eq)]
pub struct AggregateQuery {
    pub name: String,
    pub predicate_param: PredicateParameter,
    pub return_type: OperationReturnType,
}

/// A script that computes fields, bundled when the model was built.
#[derive(Clone, Debug, PartialEq, Eq)]
pub struct ComputedScript {
    pub path: String,
    pub definition: Vec<u8>,
}

/// The compiled model. Entities are named by their position in
/// `entity_types`; the three query lists hold, at the same position, the
/// queries of that entity.
#[derive(Debug, PartialEq, Eq)]
pub struct PostgresGraphQLSubsystem {
    pub entity_types: Vec<EntityType>,
    pub pk_queries: Vec<UniqueQuery>,
    pub collection_queries: Vec<CollectionQuery>,
    pub aggregate_queries: Vec<AggregateQuery>,
    pub order_by_types: Vec<OrderByParameterType>,
    pub database_access_expressions: Vec<AccessPredicateExpression>,
    pub precheck_access_expressions: Vec<AccessPredicateExpression>,
    pub computed_scripts: Vec<ComputedScript>,
}

} // verus!
