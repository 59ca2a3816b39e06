use exograph_core::access::{
    AccessPredicateExpression, AccessPrimitive, RelationalOp, RequestContext,
};
use exograph_core::column_path::{ColumnId, ColumnPathLink, PhysicalColumnPath, RelationColumnPair};
use exograph_core::error::PostgresExecutionError;
use exograph_core::field::ValidatedField;
use exograph_core::order_by::{
    AbstractOrderBy, AbstractOrderByExpr, SortOrder, VectorDistanceFunction,
};
use exograph_core::order_by_mapper::{
    invalid_argument_message, order_by_pair, ordering, show_argument, to_pg_vector,
    unprocessable_ordering_message, OrderByParameterInput,
};
use exograph_core::planner::{
    build_transitive_step_fields, compute_predicate, compute_select, map_field,
    map_persistent_field, map_vector_distance_field, selection_cardinality_for_step,
    TRANSITIVE_VALUE_ALIAS,
};
use exograph_core::planner_access::{check_access, SQLOperationKind};
use exograph_core::predicate::{AbstractPredicate, ColumnPath, CompareOp, SqlParam};
use exograph_core::schema::{
    Access, AggregateField, AggregateQuery, CollectionQuery, ComputedDependency, ComputedField,
    ComputedScript, EntityRepresentation, EntityType, FieldType, OperationReturnType,
    OrderByParameter, OrderByParameterType, OrderByParameterTypeKind, PostgresField,
    PostgresGraphQLSubsystem, PostgresRelation, PredicateParameter, RelationCardinality, RelationId,
    TransitiveRelationStep, TypeIndex, UniqueQuery, VectorDistanceField,
};
use exograph_core::select::{
    AbstractSelect, AliasedSelectionElement, Function, Limit, Offset, Selection,
    SelectionCardinality, SelectionElement,
};
use exograph_core::value::{ConstValue, Number};

const AUTHOR: usize = 0;
const BOOK_AUTHOR: usize = 1;
const PUBLISHER: usize = 2;
const USER: usize = 3;
const ITEM: usize = 4;
const POST: usize = 5;

const ALLOW: usize = 0;
const DENY: usize = 1;
const OWN_POSTS: usize = 2;
const ADMIN_ONLY: usize = 3;

fn col(table_id: usize, column_index: usize) -> ColumnId {
    ColumnId { table_id, column_index }
}

fn open_access() -> Access {
    Access { read: ALLOW, creation_precheck: 0, update_precheck: 0, update_database: ALLOW }
}

fn read_access(read: usize) -> Access {
    Access { read, ..open_access() }
}

fn primitive(name: &str) -> FieldType {
    FieldType::Plain(TypeIndex::Primitive(name.to_string()))
}

fn composite(entity_id: usize, name: &str) -> FieldType {
    FieldType::Plain(TypeIndex::Composite { entity_id, composite_name: name.to_string() })
}

fn scalar(name: &str, column_id: ColumnId, is_pk: bool) -> PostgresField {
    PostgresField {
        name: name.to_string(),
        typ: primitive(if is_pk { "Int" } else { "String" }),
        relation: PostgresRelation::Scalar { column_id, is_pk },
        access: open_access(),
        readonly: false,
    }
}

fn relation_field(name: &str, typ: FieldType, relation: PostgresRelation) -> PostgresField {
    PostgresField { name: name.to_string(), typ, relation, access: open_access(), readonly: false }
}

fn step(
    relation_id: RelationId,
    entity_id: usize,
    cardinality: RelationCardinality,
    is_optional: bool,
    field_name: &str,
) -> TransitiveRelationStep {
    TransitiveRelationStep {
        relation_id,
        entity_id,
        cardinality,
        is_optional,
        field_name: field_name.to_string(),
    }
}

fn entity(name: &str, table_id: usize, fields: Vec<PostgresField>, read: usize) -> EntityType {
    EntityType {
        name: name.to_string(),
        table_id,
        fields,
        agg_fields: vec![],
        vector_distance_fields: vec![],
        representation: EntityRepresentation::Managed,
        access: read_access(read),
    }
}

fn relation_link(from: ColumnId, to: ColumnId) -> ColumnPathLink {
    ColumnPathLink::relation(
        vec![RelationColumnPair { self_column_id: from, foreign_column_id: to }],
        None,
    )
}

fn plain(entity_id: usize, name: &str) -> OperationReturnType {
    OperationReturnType::Plain { entity_id, composite_name: name.to_string() }
}

fn pk_query(entity_id: usize, name: &str) -> UniqueQuery {
    UniqueQuery {
        name: name.to_lowercase(),
        predicate_params: vec![PredicateParameter {
            name: "id".to_string(),
            column_path_link: Some(ColumnPathLink::Leaf(col(entity_id, 0))),
        }],
        return_type: OperationReturnType::Optional(Box::new(plain(entity_id, name))),
    }
}

fn collection_query(entity_id: usize, name: &str, order_by_type: usize) -> CollectionQuery {
    CollectionQuery {
        name: format!("{}s", name.to_lowercase()),
        predicate_param: PredicateParameter {
            name: "name".to_string(),
            column_path_link: Some(ColumnPathLink::Leaf(col(entity_id, 1))),
        },
        order_by_param: OrderByParameter {
            name: "orderBy".to_string(),
            type_id: order_by_type,
            column_path_link: None,
            access: None,
            vector_distance_function: None,
        },
        limit_param: "limit".to_string(),
        offset_param: "offset".to_string(),
        return_type: OperationReturnType::List(Box::new(plain(entity_id, name))),
    }
}

fn aggregate_query(entity_id: usize, name: &str) -> AggregateQuery {
    AggregateQuery {
        name: format!("{}sAgg", name.to_lowercase()),
        predicate_param: PredicateParameter {
            name: "name".to_string(),
            column_path_link: Some(ColumnPathLink::Leaf(col(entity_id, 1))),
        },
        return_type: plain(entity_id, name),
    }
}

const ORDERING: usize = 0;
const AUTHOR_ORDERING: usize = 1;
const POST_ORDERING: usize = 2;
const VECTOR_ORDERING: usize = 3;
const ITEM_ORDERING: usize = 4;

fn order_param(
    name: &str,
    type_id: usize,
    link: Option<ColumnPathLink>,
    access: Option<usize>,
) -> OrderByParameter {
    OrderByParameter {
        name: name.to_string(),
        type_id,
        column_path_link: link,
        access,
        vector_distance_function: None,
    }
}

/// A model of authors, their books and publishers, users with a secret, items
/// with a computed tax, and posts owned by authors.
fn library() -> PostgresGraphQLSubsystem {
    let author = EntityType {
        agg_fields: vec![AggregateField {
            name: "booksAgg".to_string(),
            relation: Some(PostgresRelation::OneToMany {
                foreign_entity_id: BOOK_AUTHOR,
                relation_id: 10,
                cardinality: RelationCardinality::Unbounded,
            }),
        }],
        ..entity(
            "Author",
            AUTHOR,
            vec![
                scalar("id", col(AUTHOR, 0), true),
                scalar("name", col(AUTHOR, 1), false),
                relation_field(
                    "books",
                    FieldType::List(Box::new(composite(BOOK_AUTHOR, "BookAuthor"))),
                    PostgresRelation::OneToMany {
                        foreign_entity_id: BOOK_AUTHOR,
                        relation_id: 10,
                        cardinality: RelationCardinality::Unbounded,
                    },
                ),
                relation_field(
                    "favoritePublisher",
                    FieldType::Optional(Box::new(composite(PUBLISHER, "Publisher"))),
                    PostgresRelation::ManyToOne {
                        foreign_entity_id: PUBLISHER,
                        relation_id: 11,
                        is_pk: false,
                    },
                ),
                relation_field(
                    "publishers",
                    FieldType::List(Box::new(composite(PUBLISHER, "Publisher"))),
                    PostgresRelation::Transitive(vec![
                        step(
                            RelationId::OneToMany(10),
                            BOOK_AUTHOR,
                            RelationCardinality::Unbounded,
                            false,
                            "books",
                        ),
                        step(
                            RelationId::ManyToOne(12),
                            PUBLISHER,
                            RelationCardinality::Optional,
                            false,
                            "publisher",
                        ),
                    ]),
                ),
            ],
            ALLOW,
        )
    };
    let book_author = entity(
        "BookAuthor",
        BOOK_AUTHOR,
        vec![
            scalar("id", col(BOOK_AUTHOR, 0), true),
            scalar("title", col(BOOK_AUTHOR, 1), false),
            relation_field(
                "author",
                composite(AUTHOR, "Author"),
                PostgresRelation::ManyToOne { foreign_entity_id: AUTHOR, relation_id: 10, is_pk: false },
            ),
            relation_field(
                "publisher",
                composite(PUBLISHER, "Publisher"),
                PostgresRelation::ManyToOne {
                    foreign_entity_id: PUBLISHER,
                    relation_id: 12,
                    is_pk: false,
                },
            ),
            relation_field(
                "authorFavoritePublisher",
                FieldType::Optional(Box::new(composite(PUBLISHER, "Publisher"))),
                PostgresRelation::Transitive(vec![
                    step(
                        RelationId::ManyToOne(10),
                        AUTHOR,
                        RelationCardinality::Optional,
                        false,
                        "author",
                    ),
                    step(
                        RelationId::ManyToOne(11),
                        PUBLISHER,
                        RelationCardinality::Optional,
                        true,
                        "favoritePublisher",
                    ),
                ]),
            ),
        ],
        ALLOW,
    );
    let publisher = entity(
        "Publisher",
        PUBLISHER,
        vec![scalar("id", col(PUBLISHER, 0), true), scalar("name", col(PUBLISHER, 1), false)],
        ALLOW,
    );
    let user = entity(
        "User",
        USER,
        vec![
            scalar("id", col(USER, 0), true),
            scalar("name", col(USER, 1), false),
            PostgresField { access: read_access(DENY), ..scalar("ssn", col(USER, 2), false) },
        ],
        ALLOW,
    );
    let item = EntityType {
        vector_distance_fields: vec![VectorDistanceField {
            name: "embeddingDistance".to_string(),
            column_id: col(ITEM, 3),
            distance_function: VectorDistanceFunction::L2,
        }],
        ..entity(
            "Item",
            ITEM,
            vec![
                scalar("id", col(ITEM, 0), true),
                scalar("price", col(ITEM, 1), false),
                relation_field(
                    "tax",
                    primitive("Float"),
                    PostgresRelation::Computed(ComputedField {
                        subsystem: "deno".to_string(),
                        function_name: "tax".to_string(),
                        script_id: 0,
                        dependencies: vec![ComputedDependency {
                            field_name: "price".to_string(),
                            column_id: col(ITEM, 1),
                        }],
                    }),
                ),
                relation_field(
                    "label",
                    primitive("String"),
                    PostgresRelation::Computed(ComputedField {
                        subsystem: "deno".to_string(),
                        function_name: "label".to_string(),
                        script_id: 0,
                        dependencies: vec![],
                    }),
                ),
                relation_field("details", primitive("Json"), PostgresRelation::Embedded),
            ],
            ALLOW,
        )
    };
    let post = entity(
        "Post",
        POST,
        vec![
            scalar("id", col(POST, 0), true),
            scalar("title", col(POST, 1), false),
            relation_field(
                "author",
                composite(AUTHOR, "Author"),
                PostgresRelation::ManyToOne { foreign_entity_id: AUTHOR, relation_id: 20, is_pk: false },
            ),
        ],
        OWN_POSTS,
    );
    let names = ["Author", "BookAuthor", "Publisher", "User", "Item", "Post"];
    let orderings = [
        AUTHOR_ORDERING,
        AUTHOR_ORDERING,
        AUTHOR_ORDERING,
        AUTHOR_ORDERING,
        ITEM_ORDERING,
        POST_ORDERING,
    ];
    PostgresGraphQLSubsystem {
        entity_types: vec![author, book_author, publisher, user, item, post],
        pk_queries: (0..6).map(|i| pk_query(i, names[i])).collect(),
        collection_queries: (0..6).map(|i| collection_query(i, names[i], orderings[i])).collect(),
        aggregate_queries: (0..6).map(|i| aggregate_query(i, names[i])).collect(),
        order_by_types: vec![
            OrderByParameterType {
                name: "Ordering".to_string(),
                kind: OrderByParameterTypeKind::Primitive,
            },
            OrderByParameterType {
                name: "AuthorOrdering".to_string(),
                kind: OrderByParameterTypeKind::Composite {
                    parameters: vec![
                        order_param("id", ORDERING, Some(ColumnPathLink::Leaf(col(AUTHOR, 0))), None),
                        order_param(
                            "name",
                            ORDERING,
                            Some(ColumnPathLink::Leaf(col(AUTHOR, 1))),
                            Some(ALLOW),
                        ),
                    ],
                },
            },
            OrderByParameterType {
                name: "PostOrdering".to_string(),
                kind: OrderByParameterTypeKind::Composite {
                    parameters: vec![
                        order_param("id", ORDERING, Some(ColumnPathLink::Leaf(col(POST, 0))), None),
                        order_param(
                            "title",
                            ORDERING,
                            Some(ColumnPathLink::Leaf(col(POST, 1))),
                            Some(OWN_POSTS),
                        ),
                        order_param(
                            "author",
                            AUTHOR_ORDERING,
                            Some(relation_link(col(POST, 2), col(AUTHOR, 0))),
                            Some(ALLOW),
                        ),
                        order_param(
                            "restrictedAuthor",
                            AUTHOR_ORDERING,
                            Some(relation_link(col(POST, 2), col(AUTHOR, 0))),
                            Some(OWN_POSTS),
                        ),
                        order_param(
                            "secret",
                            ORDERING,
                            Some(ColumnPathLink::Leaf(col(POST, 3))),
                            Some(DENY),
                        ),
                    ],
                },
            },
            OrderByParameterType {
                name: "VectorOrdering".to_string(),
                kind: OrderByParameterTypeKind::Vector,
            },
            OrderByParameterType {
                name: "ItemOrdering".to_string(),
                kind: OrderByParameterTypeKind::Composite {
                    parameters: vec![
                        order_param("price", ORDERING, Some(ColumnPathLink::Leaf(col(ITEM, 1))), None),
                        OrderByParameter {
                            vector_distance_function: Some(VectorDistanceFunction::InnerProduct),
                            ..order_param(
                                "embedding",
                                VECTOR_ORDERING,
                                Some(ColumnPathLink::Leaf(col(ITEM, 3))),
                                None,
                            )
                        },
                        order_param(
                            "plainEmbedding",
                            VECTOR_ORDERING,
                            Some(ColumnPathLink::Leaf(col(ITEM, 3))),
                            None,
                        ),
                    ],
                },
            },
        ],
        database_access_expressions: vec![
            AccessPredicateExpression::BooleanLiteral(true),
            AccessPredicateExpression::BooleanLiteral(false),
            AccessPredicateExpression::Relational(
                RelationalOp::Eq,
                AccessPrimitive::Column(PhysicalColumnPath::leaf(col(POST, 2))),
                AccessPrimitive::Context("AuthContext.id".to_string()),
            ),
            AccessPredicateExpression::Relational(
                RelationalOp::Eq,
                AccessPrimitive::Context("AuthContext.role".to_string()),
                AccessPrimitive::Literal(ConstValue::String("admin".to_string())),
            ),
        ],
        precheck_access_expressions: vec![AccessPredicateExpression::BooleanLiteral(true)],
        computed_scripts: vec![ComputedScript {
            path: "file:///tax.js".to_string(),
            definition: vec![1, 2, 3],
        }],
    }
}

fn caller(id: u64) -> RequestContext {
    RequestContext {
        values: vec![("AuthContext.id".to_string(), ConstValue::Number(Number::PosInt(id)))],
    }
}

fn nobody() -> RequestContext {
    RequestContext { values: vec![] }
}

fn validated_field(name: &str, subfields: Vec<ValidatedField>) -> ValidatedField {
    ValidatedField { alias: None, name: name.to_string(), arguments: vec![], subfields }
}

fn with_args(field: ValidatedField, arguments: Vec<(&str, ConstValue)>) -> ValidatedField {
    ValidatedField {
        arguments: arguments.into_iter().map(|(k, v)| (k.to_string(), v)).collect(),
        ..field
    }
}

fn num(n: u64) -> ConstValue {
    ConstValue::Number(Number::PosInt(n))
}

fn text(s: &str) -> ConstValue {
    ConstValue::String(s.to_string())
}

fn object(entries: Vec<(&str, ConstValue)>) -> ConstValue {
    ConstValue::Object(entries.into_iter().map(|(k, v)| (k.to_string(), v)).collect())
}

fn aliased(alias: &str, element: SelectionElement) -> AliasedSelectionElement {
    AliasedSelectionElement::new(alias.to_string(), element)
}

fn id_equals(entity_id: usize, n: u64) -> AbstractPredicate {
    AbstractPredicate::Compare(
        CompareOp::Eq,
        ColumnPath::Physical(PhysicalColumnPath::leaf(col(entity_id, 0))),
        ColumnPath::Param(SqlParam::Value(num(n))),
    )
}

#[test]
fn fixture_is_consistent() {
    let subsystem = library();
    assert!(subsystem.is_consistent());
    assert!(subsystem.is_fit_for_computed_fields());
    let mut broken = library();
    broken.pk_queries.pop();
    assert!(!broken.is_consistent());
    let mut dangling = library();
    dangling.entity_types[USER].fields[2].access.read = 99;
    assert!(!dangling.is_consistent());
    let mut no_script = library();
    no_script.computed_scripts.clear();
    assert!(no_script.is_consistent());
    assert!(!no_script.is_fit_for_computed_fields());
}

#[test]
fn unique_query_masks_unauthorized_field() {
    let subsystem = library();
    let field = with_args(
        validated_field(
            "user",
            vec![
                validated_field("id", vec![]),
                validated_field("name", vec![]),
                validated_field("ssn", vec![]),
            ],
        ),
        vec![("id", num(1))],
    );
    let select = subsystem.pk_queries[USER].resolve_select(&field, &nobody(), &subsystem).unwrap();
    assert_eq!(
        select,
        AbstractSelect {
            table_id: USER,
            selection: Selection::Json(
                vec![
                    aliased("id", SelectionElement::Physical(col(USER, 0))),
                    aliased("name", SelectionElement::Physical(col(USER, 1))),
                    aliased("ssn", SelectionElement::Null),
                ],
                SelectionCardinality::One,
            ),
            predicate: id_equals(USER, 1),
            order_by: None,
            offset: None,
            limit: None,
        }
    );
}

#[test]
fn unauthorized_field_is_null_whatever_its_kind() {
    let mut subsystem = library();
    subsystem.entity_types[AUTHOR].fields[2].access.read = DENY;
    subsystem.entity_types[AUTHOR].fields[4].access.read = DENY;
    subsystem.entity_types[ITEM].fields[2].access.read = DENY;
    let authors = validated_field(
        "authors",
        vec![
            ValidatedField {
                alias: Some("written".to_string()),
                ..validated_field("books", vec![validated_field("title", vec![])])
            },
            validated_field("publishers", vec![validated_field("name", vec![])]),
        ],
    );
    let select =
        subsystem.collection_queries[AUTHOR].resolve_select(&authors, &nobody(), &subsystem).unwrap();
    assert_eq!(
        select.selection,
        Selection::Json(
            vec![aliased("written", SelectionElement::Null), aliased("publishers", SelectionElement::Null)],
            SelectionCardinality::Many,
        )
    );
    let items = validated_field("items", vec![validated_field("tax", vec![])]);
    let select =
        subsystem.collection_queries[ITEM].resolve_select(&items, &nobody(), &subsystem).unwrap();
    assert_eq!(
        select.selection,
        Selection::Json(vec![aliased("tax", SelectionElement::Null)], SelectionCardinality::Many)
    );
    let outcome = check_access(
        &subsystem.entity_types[AUTHOR],
        &authors.subfields,
        &SQLOperationKind::Retrieve,
        &subsystem,
        &nobody(),
    )
    .unwrap();
    assert_eq!(outcome.unauthorized_fields, vec!["written".to_string(), "publishers".to_string()]);
    assert_eq!(outcome.entity_predicate, AbstractPredicate::True);
    assert_eq!(outcome.precheck_predicate, AbstractPredicate::True);
}

#[test]
fn extending_the_selection_keeps_the_predicate() {
    let subsystem = library();
    let bare = with_args(validated_field("post", vec![]), vec![("id", num(4))]);
    let extended = with_args(
        validated_field(
            "post",
            vec![
                validated_field("id", vec![]),
                validated_field("author", vec![validated_field("name", vec![])]),
            ],
        ),
        vec![("id", num(4))],
    );
    let first = subsystem.pk_queries[POST].resolve_select(&bare, &caller(7), &subsystem).unwrap();
    let second = subsystem.pk_queries[POST].resolve_select(&extended, &caller(7), &subsystem).unwrap();
    let owned = AbstractPredicate::Compare(
        CompareOp::Eq,
        ColumnPath::Physical(PhysicalColumnPath::leaf(col(POST, 2))),
        ColumnPath::Param(SqlParam::Value(num(7))),
    );
    assert_eq!(
        first.predicate,
        AbstractPredicate::And(Box::new(id_equals(POST, 4)), Box::new(owned))
    );
    assert_eq!(second.predicate, first.predicate);
    assert_eq!(second.table_id, first.table_id);
    assert_eq!(first.selection, Selection::Json(vec![], SelectionCardinality::One));
    let shell = subsystem.pk_queries[POST].resolve_shell(&bare.arguments, &caller(7), &subsystem).unwrap();
    assert_eq!(shell, first);
}

#[test]
fn selection_follows_the_order_of_the_fields() {
    let subsystem = library();
    let field = validated_field(
        "authors",
        vec![
            validated_field("name", vec![]),
            validated_field("__typename", vec![]),
            ValidatedField { alias: Some("key".to_string()), ..validated_field("id", vec![]) },
        ],
    );
    let select =
        subsystem.collection_queries[AUTHOR].resolve_select(&field, &nobody(), &subsystem).unwrap();
    assert_eq!(
        select.selection,
        Selection::Json(
            vec![
                aliased("name", SelectionElement::Physical(col(AUTHOR, 1))),
                aliased("__typename", SelectionElement::Constant("Author".to_string())),
                aliased("key", SelectionElement::Physical(col(AUTHOR, 0))),
            ],
            SelectionCardinality::Many,
        )
    );
    assert_eq!(select.table_id, AUTHOR);
}

fn every_column_fits(select: &AbstractSelect) -> bool {
    let items = match &select.selection {
        Selection::Json(items, _) => items,
        Selection::Columns(items) => items,
    };
    items.iter().all(|item| element_fits(&item.element, select.table_id))
}

fn element_fits(element: &SelectionElement, table: usize) -> bool {
    match element {
        SelectionElement::Physical(c) => c.table_id == table,
        SelectionElement::Function(Function::VectorDistance { column_id, .. }) => {
            column_id.table_id == table
        }
        SelectionElement::Function(Function::Aggregate { column_id, .. }) => {
            column_id.table_id == table
        }
        SelectionElement::Null | SelectionElement::Constant(_) => true,
        SelectionElement::Object(members) => members.iter().all(|m| element_fits(&m.1, table)),
        SelectionElement::SubSelect(_, select) => every_column_fits(select),
        SelectionElement::JsonExtract { source, .. } => element_fits(source, table),
        SelectionElement::JsonArrayExtract { source, .. } => element_fits(source, table),
    }
}

#[test]
fn every_column_belongs_to_the_table_of_its_select() {
    let subsystem = library();
    let field = validated_field(
        "authors",
        vec![
            validated_field("id", vec![]),
            validated_field(
                "books",
                vec![
                    validated_field("title", vec![]),
                    validated_field("publisher", vec![validated_field("name", vec![])]),
                    validated_field("authorFavoritePublisher", vec![validated_field("id", vec![])]),
                ],
            ),
            validated_field("publishers", vec![validated_field("name", vec![])]),
            validated_field(
                "booksAgg",
                vec![validated_field("id", vec![validated_field("count", vec![])])],
            ),
        ],
    );
    let select =
        subsystem.collection_queries[AUTHOR].resolve_select(&field, &nobody(), &subsystem).unwrap();
    assert!(every_column_fits(&select));
    let items = validated_field(
        "items",
        vec![
            validated_field("tax", vec![]),
            with_args(
                validated_field("embeddingDistance", vec![]),
                vec![("to", ConstValue::List(vec![num(1), num(2)]))],
            ),
        ],
    );
    let select =
        subsystem.collection_queries[ITEM].resolve_select(&items, &nobody(), &subsystem).unwrap();
    assert!(every_column_fits(&select));
}

/// The nested selects of a select: the table of the select around each, its
/// relation, and its own table.
fn nested_links(select: &AbstractSelect, out: &mut Vec<(usize, RelationId, usize)>) {
    let items = match &select.selection {
        Selection::Json(items, _) => items,
        Selection::Columns(items) => items,
    };
    for item in items {
        element_links(&item.element, select.table_id, out);
    }
}

fn element_links(element: &SelectionElement, table: usize, out: &mut Vec<(usize, RelationId, usize)>) {
    match element {
        SelectionElement::Object(members) => {
            for member in members {
                element_links(&member.1, table, out);
            }
        }
        SelectionElement::SubSelect(relation, select) => {
            out.push((table, *relation, select.table_id));
            nested_links(select, out);
        }
        SelectionElement::JsonExtract { source, .. } => element_links(source, table, out),
        SelectionElement::JsonArrayExtract { source, .. } => element_links(source, table, out),
        _ => {}
    }
}

/// Whether the model holds a relation that leads from one entity to another.
fn model_reaches(s: &PostgresGraphQLSubsystem, from: usize, rel: RelationId, to: usize) -> bool {
    let leads = |relation: &PostgresRelation, declaring: usize| match relation {
        PostgresRelation::ManyToOne { foreign_entity_id, relation_id, .. } => {
            from == declaring && rel == RelationId::ManyToOne(*relation_id) && to == *foreign_entity_id
        }
        PostgresRelation::OneToMany { foreign_entity_id, relation_id, .. } => {
            from == declaring && rel == RelationId::OneToMany(*relation_id) && to == *foreign_entity_id
        }
        PostgresRelation::Transitive(steps) => steps.iter().enumerate().any(|(i, step)| {
            let source = if i == 0 { declaring } else { steps[i - 1].entity_id };
            from == source && rel == step.relation_id && to == step.entity_id
        }),
        _ => false,
    };
    s.entity_types.iter().enumerate().any(|(declaring, entity)| {
        entity.fields.iter().any(|f| leads(&f.relation, declaring))
            || entity
                .agg_fields
                .iter()
                .any(|f| f.relation.as_ref().map_or(false, |r| leads(r, declaring)))
    })
}

#[test]
fn nested_selects_are_over_the_entities_that_their_relations_reach() {
    let subsystem = library();
    assert!(subsystem.has_fitting_queries());
    // In this model every entity has the table of its own position.
    for (position, entity) in subsystem.entity_types.iter().enumerate() {
        assert_eq!(entity.table_id, position);
    }
    let field = validated_field(
        "authors",
        vec![
            validated_field("id", vec![]),
            validated_field(
                "books",
                vec![
                    validated_field("publisher", vec![validated_field("name", vec![])]),
                    validated_field("authorFavoritePublisher", vec![validated_field("id", vec![])]),
                ],
            ),
            validated_field("publishers", vec![validated_field("name", vec![])]),
            validated_field(
                "booksAgg",
                vec![validated_field("id", vec![validated_field("count", vec![])])],
            ),
        ],
    );
    let select =
        subsystem.collection_queries[AUTHOR].resolve_select(&field, &nobody(), &subsystem).unwrap();
    assert_eq!(select.table_id, AUTHOR);
    let mut links = Vec::new();
    nested_links(&select, &mut links);
    assert_eq!(links.len(), 7);
    for (from, rel, to) in &links {
        assert!(model_reaches(&subsystem, *from, *rel, *to), "{from} {rel:?} {to}");
    }
    let tables: Vec<(usize, usize)> = links.iter().map(|(from, _, to)| (*from, *to)).collect();
    assert_eq!(
        tables,
        vec![
            (AUTHOR, BOOK_AUTHOR),
            (BOOK_AUTHOR, PUBLISHER),
            (BOOK_AUTHOR, AUTHOR),
            (AUTHOR, PUBLISHER),
            (AUTHOR, BOOK_AUTHOR),
            (BOOK_AUTHOR, PUBLISHER),
            (AUTHOR, BOOK_AUTHOR),
        ]
    );
    // A model whose queries are mixed up is told apart.
    let mut mixed = library();
    mixed.pk_queries.swap(AUTHOR, PUBLISHER);
    assert!(!mixed.has_fitting_queries());
}

#[test]
fn relations_plan_sub_selects() {
    let subsystem = library();
    let field = validated_field(
        "authors",
        vec![
            validated_field("books", vec![validated_field("title", vec![])]),
            validated_field("favoritePublisher", vec![validated_field("name", vec![])]),
        ],
    );
    let select =
        subsystem.collection_queries[AUTHOR].resolve_select(&field, &nobody(), &subsystem).unwrap();
    let books = AbstractSelect {
        table_id: BOOK_AUTHOR,
        selection: Selection::Json(
            vec![aliased("title", SelectionElement::Physical(col(BOOK_AUTHOR, 1)))],
            SelectionCardinality::Many,
        ),
        predicate: AbstractPredicate::True,
        order_by: None,
        offset: None,
        limit: None,
    };
    let publisher = AbstractSelect {
        table_id: PUBLISHER,
        selection: Selection::Json(
            vec![aliased("name", SelectionElement::Physical(col(PUBLISHER, 1)))],
            SelectionCardinality::One,
        ),
        predicate: AbstractPredicate::True,
        order_by: None,
        offset: None,
        limit: None,
    };
    assert_eq!(
        select.selection,
        Selection::Json(
            vec![
                aliased(
                    "books",
                    SelectionElement::SubSelect(RelationId::OneToMany(10), Box::new(books))
                ),
                aliased(
                    "favoritePublisher",
                    SelectionElement::SubSelect(RelationId::ManyToOne(11), Box::new(publisher))
                ),
            ],
            SelectionCardinality::Many,
        )
    );
}

#[test]
fn transitive_set_field_uses_array_extraction() {
    let subsystem = library();
    let author_entity = &subsystem.entity_types[AUTHOR];
    let publishers_field = author_entity.field_by_name("publishers").expect("publishers field missing");

    match &publishers_field.relation {
        PostgresRelation::Transitive(steps) => {
            assert_eq!(steps.len(), 2);
        }
        other => panic!("Expected transitive relation, found {:?}", other),
    }

    let publishers_validated_field =
        validated_field("publishers", vec![validated_field("name", vec![])]);

    let selection =
        map_persistent_field(publishers_field, &publishers_validated_field, &subsystem, &nobody())
            .expect("Mapping transitive field failed");

    match selection {
        SelectionElement::JsonArrayExtract { key, source } => {
            assert_eq!(key, TRANSITIVE_VALUE_ALIAS);
            assert!(matches!(*source, SelectionElement::SubSelect(_, _)));
        }
        other => panic!("Expected JsonArrayExtract, found {:?}", other),
    }
}

#[test]
fn transitive_single_field_uses_value_extraction() {
    let subsystem = library();
    let book_author_entity = &subsystem.entity_types[BOOK_AUTHOR];
    let favorite_field = book_author_entity
        .field_by_name("authorFavoritePublisher")
        .expect("authorFavoritePublisher field missing");

    let favorite_validated_field =
        validated_field("authorFavoritePublisher", vec![validated_field("name", vec![])]);

    let selection =
        map_persistent_field(favorite_field, &favorite_validated_field, &subsystem, &nobody())
            .expect("Mapping transitive field failed");

    match selection {
        SelectionElement::JsonExtract { path, .. } => {
            assert_eq!(path, vec![TRANSITIVE_VALUE_ALIAS.to_string()]);
        }
        other => panic!("Expected JsonExtract, found {:?}", other),
    }
}

#[test]
fn transitive_optional_path_cardinality_identified() {
    let subsystem = library();
    let favorite = subsystem.entity_types[BOOK_AUTHOR]
        .field_by_name("authorFavoritePublisher")
        .expect("authorFavoritePublisher field missing");
    if let PostgresRelation::Transitive(steps) = &favorite.relation {
        assert_eq!(steps.len(), 2);
        assert!(steps[1].is_optional, "Expected last step to be optional");
        assert!(matches!(steps[0].cardinality, RelationCardinality::Optional));
        assert_eq!(selection_cardinality_for_step(&steps[0]), SelectionCardinality::One);
    } else {
        panic!("Expected transitive relation");
    }
    let publishers =
        subsystem.entity_types[AUTHOR].field_by_name("publishers").expect("publishers field missing");
    if let PostgresRelation::Transitive(steps) = &publishers.relation {
        assert_eq!(selection_cardinality_for_step(&steps[0]), SelectionCardinality::Many);
        assert_eq!(selection_cardinality_for_step(&steps[1]), SelectionCardinality::One);
    } else {
        panic!("Expected transitive relation");
    }
}

#[test]
fn transitive_unbounded_wraps_the_inner_select() {
    let subsystem = library();
    let field = validated_field(
        "authors",
        vec![validated_field("publishers", vec![validated_field("name", vec![])])],
    );
    let select =
        subsystem.collection_queries[AUTHOR].resolve_select(&field, &nobody(), &subsystem).unwrap();
    let inner = AbstractSelect {
        table_id: PUBLISHER,
        selection: Selection::Json(
            vec![aliased("name", SelectionElement::Physical(col(PUBLISHER, 1)))],
            SelectionCardinality::One,
        ),
        predicate: AbstractPredicate::True,
        order_by: None,
        offset: None,
        limit: None,
    };
    let outer = AbstractSelect {
        table_id: BOOK_AUTHOR,
        selection: Selection::Json(
            vec![aliased(
                "__transitive_value",
                SelectionElement::SubSelect(RelationId::ManyToOne(12), Box::new(inner)),
            )],
            SelectionCardinality::Many,
        ),
        predicate: AbstractPredicate::True,
        order_by: None,
        offset: None,
        limit: None,
    };
    assert_eq!(
        select.selection,
        Selection::Json(
            vec![aliased(
                "publishers",
                SelectionElement::JsonArrayExtract {
                    source: Box::new(SelectionElement::SubSelect(
                        RelationId::OneToMany(10),
                        Box::new(outer)
                    )),
                    key: "__transitive_value".to_string(),
                }
            )],
            SelectionCardinality::Many,
        )
    );
}

#[test]
fn transitive_without_steps_is_refused() {
    let subsystem = library();
    let empty = relation_field(
        "nothing",
        composite(PUBLISHER, "Publisher"),
        PostgresRelation::Transitive(vec![]),
    );
    assert_eq!(
        map_persistent_field(&empty, &validated_field("nothing", vec![]), &subsystem, &nobody()),
        Err(PostgresExecutionError::Generic(
            "Validation error: Transitive relation must contain at least one step".to_string()
        ))
    );
}

#[test]
fn step_fields_nest_towards_the_leaf() {
    let subsystem = library();
    let steps = match &subsystem.entity_types[AUTHOR].fields[4].relation {
        PostgresRelation::Transitive(steps) => steps,
        _ => unreachable!(),
    };
    let leaf = ValidatedField {
        alias: Some("houses".to_string()),
        ..with_args(
            validated_field("publishers", vec![validated_field("name", vec![])]),
            vec![("name", text("Penguin"))],
        )
    };
    let fields = build_transitive_step_fields(steps, &leaf);
    let last = ValidatedField {
        alias: Some("houses".to_string()),
        ..with_args(
            validated_field("publisher", vec![validated_field("name", vec![])]),
            vec![("name", text("Penguin"))],
        )
    };
    assert_eq!(fields.len(), 2);
    assert_eq!(fields[1], last);
    assert_eq!(fields[0], validated_field("books", vec![last.duplicate()]));
    assert_eq!(build_transitive_step_fields(&vec![], &leaf), vec![]);
}

#[test]
fn computed_field_selects_its_dependencies() {
    let subsystem = library();
    let field = validated_field(
        "items",
        vec![
            validated_field("price", vec![]),
            validated_field("tax", vec![]),
            validated_field("label", vec![]),
        ],
    );
    let select =
        subsystem.collection_queries[ITEM].resolve_select(&field, &nobody(), &subsystem).unwrap();
    assert_eq!(
        select.selection,
        Selection::Json(
            vec![
                aliased("price", SelectionElement::Physical(col(ITEM, 1))),
                aliased(
                    "tax",
                    SelectionElement::Object(vec![(
                        "price".to_string(),
                        SelectionElement::Physical(col(ITEM, 1))
                    )])
                ),
                aliased("label", SelectionElement::Null),
            ],
            SelectionCardinality::Many,
        )
    );
}

#[test]
fn unknown_and_embedded_fields_are_refused() {
    let subsystem = library();
    let unknown = validated_field("items", vec![validated_field("weight", vec![])]);
    assert_eq!(
        subsystem.collection_queries[ITEM].resolve_select(&unknown, &nobody(), &subsystem),
        Err(PostgresExecutionError::Generic("Unknown field 'weight' on type 'Item'".to_string()))
    );
    let embedded = validated_field("items", vec![validated_field("details", vec![])]);
    assert_eq!(
        subsystem.collection_queries[ITEM].resolve_select(&embedded, &nobody(), &subsystem),
        Err(PostgresExecutionError::Generic(
            "Embedded relations cannot be used in queries".to_string()
        ))
    );
    let no_unauthorized: Vec<String> = vec![];
    assert_eq!(
        map_field(
            &subsystem.entity_types[ITEM],
            &validated_field("weight", vec![]),
            &no_unauthorized,
            &subsystem,
            &nobody()
        ),
        Err(PostgresExecutionError::Generic("Unknown field 'weight' on type 'Item'".to_string()))
    );
}

#[test]
fn vector_distance_needs_its_target() {
    let subsystem = library();
    let distance = &subsystem.entity_types[ITEM].vector_distance_fields[0];
    assert_eq!(
        map_vector_distance_field(distance, &validated_field("embeddingDistance", vec![])),
        Err(PostgresExecutionError::Generic(
            "Missing 'to' argument for vector distance field".to_string()
        ))
    );
    let field = with_args(
        validated_field("embeddingDistance", vec![]),
        vec![("to", ConstValue::List(vec![num(1), ConstValue::Number(Number::Float("0.5".to_string()))]))],
    );
    assert_eq!(
        map_vector_distance_field(distance, &field),
        Ok(SelectionElement::Function(Function::VectorDistance {
            column_id: col(ITEM, 3),
            distance_function: VectorDistanceFunction::L2,
            target: SqlParam::Vector(vec![Number::PosInt(1), Number::Float("0.5".to_string())]),
        }))
    );
    let bad = with_args(validated_field("embeddingDistance", vec![]), vec![("to", text("near"))]);
    assert_eq!(
        map_vector_distance_field(distance, &bad),
        Err(PostgresExecutionError::Validation(
            "to".to_string(),
            "Invalid vector parameter: must be a list of numbers".to_string()
        ))
    );
}

#[test]
fn aggregate_field_plans_the_aggregate_query() {
    let subsystem = library();
    let field = validated_field(
        "authors",
        vec![validated_field(
            "booksAgg",
            vec![validated_field(
                "id",
                vec![
                    validated_field("count", vec![]),
                    ValidatedField { alias: Some("top".to_string()), ..validated_field("max", vec![]) },
                ],
            )],
        )],
    );
    let select =
        subsystem.collection_queries[AUTHOR].resolve_select(&field, &nobody(), &subsystem).unwrap();
    let aggregate = AbstractSelect {
        table_id: BOOK_AUTHOR,
        selection: Selection::Json(
            vec![aliased(
                "id",
                SelectionElement::Object(vec![
                    (
                        "count".to_string(),
                        SelectionElement::Function(Function::Aggregate {
                            function_name: "count".to_string(),
                            column_id: col(BOOK_AUTHOR, 0),
                        }),
                    ),
                    (
                        "top".to_string(),
                        SelectionElement::Function(Function::Aggregate {
                            function_name: "max".to_string(),
                            column_id: col(BOOK_AUTHOR, 0),
                        }),
                    ),
                ]),
            )],
            SelectionCardinality::One,
        ),
        predicate: AbstractPredicate::True,
        order_by: None,
        offset: None,
        limit: None,
    };
    assert_eq!(
        select.selection,
        Selection::Json(
            vec![aliased(
                "booksAgg",
                SelectionElement::SubSelect(RelationId::OneToMany(10), Box::new(aggregate))
            )],
            SelectionCardinality::Many,
        )
    );
    let mut optional = library();
    optional.entity_types[AUTHOR].agg_fields[0].relation = Some(PostgresRelation::OneToMany {
        foreign_entity_id: BOOK_AUTHOR,
        relation_id: 10,
        cardinality: RelationCardinality::Optional,
    });
    assert_eq!(
        optional.collection_queries[AUTHOR].resolve_select(&field, &nobody(), &optional),
        Err(PostgresExecutionError::Generic(
            "Validation error: Aggregate is supported only for unbounded relations".to_string()
        ))
    );
    let mut scalar_agg = library();
    scalar_agg.entity_types[AUTHOR].agg_fields[0].relation = None;
    assert_eq!(
        scalar_agg.collection_queries[AUTHOR].resolve_select(&field, &nobody(), &scalar_agg),
        Err(PostgresExecutionError::Generic(
            "Validation error: Aggregate is supported only for one-to-many".to_string()
        ))
    );
}

#[test]
fn collection_query_orders_limits_and_offsets() {
    let subsystem = library();
    let field = with_args(
        validated_field("posts", vec![validated_field("id", vec![])]),
        vec![
            ("orderBy", object(vec![("author", object(vec![("name", ConstValue::Enum("ASC".to_string()))]))])),
            ("limit", num(10)),
            ("offset", num(20)),
            ("name", text("Hello")),
        ],
    );
    let select =
        subsystem.collection_queries[POST].resolve_select(&field, &caller(7), &subsystem).unwrap();
    let by_author_name = PhysicalColumnPath::init(relation_link(col(POST, 2), col(AUTHOR, 0)))
        .push(ColumnPathLink::Leaf(col(AUTHOR, 1)));
    assert_eq!(
        select.order_by,
        Some(AbstractOrderBy(vec![(AbstractOrderByExpr::Column(by_author_name), SortOrder::Asc)]))
    );
    assert_eq!(select.limit, Some(Limit(10)));
    assert_eq!(select.offset, Some(Offset(20)));
    let title = AbstractPredicate::Compare(
        CompareOp::Eq,
        ColumnPath::Physical(PhysicalColumnPath::leaf(col(POST, 1))),
        ColumnPath::Param(SqlParam::Value(text("Hello"))),
    );
    let owned = AbstractPredicate::Compare(
        CompareOp::Eq,
        ColumnPath::Physical(PhysicalColumnPath::leaf(col(POST, 2))),
        ColumnPath::Param(SqlParam::Value(num(7))),
    );
    assert_eq!(select.predicate, AbstractPredicate::And(Box::new(title), Box::new(owned)));
    assert_eq!(
        select.selection,
        Selection::Json(
            vec![aliased("id", SelectionElement::Physical(col(POST, 0)))],
            SelectionCardinality::Many
        )
    );
}

#[test]
fn order_by_relation_needs_unconditional_access() {
    let subsystem = library();
    let post_ordering = &subsystem.order_by_types[POST_ORDERING];
    let by_name = object(vec![("name", ConstValue::Enum("ASC".to_string()))]);
    let allowed = order_by_pair(post_ordering, "author", &by_name, None, &subsystem, &caller(7));
    assert!(allowed.is_ok());
    assert_eq!(allowed.unwrap().predicate, AbstractPredicate::True);
    let restricted =
        order_by_pair(post_ordering, "restrictedAuthor", &by_name, None, &subsystem, &caller(7));
    assert_eq!(restricted, Err(PostgresExecutionError::Authorization));
    let denied = order_by_pair(
        post_ordering,
        "secret",
        &ConstValue::Enum("ASC".to_string()),
        None,
        &subsystem,
        &caller(7),
    );
    assert_eq!(denied, Err(PostgresExecutionError::Authorization));
    let field = with_args(
        validated_field("posts", vec![validated_field("id", vec![])]),
        vec![("orderBy", object(vec![("restrictedAuthor", by_name.duplicate())]))],
    );
    assert_eq!(
        subsystem.collection_queries[POST].resolve_select(&field, &caller(7), &subsystem),
        Err(PostgresExecutionError::Authorization)
    );
}

#[test]
fn order_by_leaf_carries_the_field_access() {
    let subsystem = library();
    let post_ordering = &subsystem.order_by_types[POST_ORDERING];
    let computation = order_by_pair(
        post_ordering,
        "title",
        &text("DESC"),
        None,
        &subsystem,
        &caller(7),
    )
    .unwrap();
    assert_eq!(
        computation.order_by,
        AbstractOrderBy(vec![(
            AbstractOrderByExpr::Column(PhysicalColumnPath::leaf(col(POST, 1))),
            SortOrder::Desc
        )])
    );
    assert_eq!(
        computation.predicate,
        AbstractPredicate::Compare(
            CompareOp::Eq,
            ColumnPath::Physical(PhysicalColumnPath::leaf(col(POST, 2))),
            ColumnPath::Param(SqlParam::Value(num(7))),
        )
    );
}

#[test]
fn order_by_lists_and_objects_combine_in_order() {
    let subsystem = library();
    let param = &subsystem.collection_queries[POST].order_by_param;
    let argument = ConstValue::List(vec![
        object(vec![("title", text("ASC"))]),
        object(vec![("id", text("DESC")), ("author", object(vec![("id", text("ASC"))]))]),
    ]);
    let computation = OrderByParameterInput { param, parent_column_path: None }
        .to_sql(&argument, &subsystem, &caller(7))
        .unwrap();
    let author_id = PhysicalColumnPath::init(relation_link(col(POST, 2), col(AUTHOR, 0)))
        .push(ColumnPathLink::Leaf(col(AUTHOR, 0)));
    assert_eq!(
        computation.order_by,
        AbstractOrderBy(vec![
            (AbstractOrderByExpr::Column(PhysicalColumnPath::leaf(col(POST, 1))), SortOrder::Asc),
            (AbstractOrderByExpr::Column(PhysicalColumnPath::leaf(col(POST, 0))), SortOrder::Desc),
            (AbstractOrderByExpr::Column(author_id), SortOrder::Asc),
        ])
    );
    let bad = OrderByParameterInput { param, parent_column_path: None }.to_sql(
        &text("ASC"),
        &subsystem,
        &caller(7),
    );
    assert_eq!(
        bad,
        Err(PostgresExecutionError::Validation(
            "orderBy".to_string(),
            "Invalid argument ('\"ASC\"')".to_string()
        ))
    );
    assert_eq!(invalid_argument_message("7"), "Invalid argument ('7')");
    assert_eq!(show_argument(&ConstValue::Enum("ASC".to_string())), "\"ASC\"");
    assert_eq!(
        show_argument(&ConstValue::Object(vec![
            ("name".to_string(), ConstValue::Enum("ASC".to_string())),
            ("tags".to_string(), ConstValue::List(vec![num(1), ConstValue::Null])),
        ])),
        "{\"name\":\"ASC\",\"tags\":[1,null]}"
    );
}

#[test]
fn order_by_errors_name_the_parameter() {
    let subsystem = library();
    let post_ordering = &subsystem.order_by_types[POST_ORDERING];
    assert_eq!(
        order_by_pair(post_ordering, "missing", &text("ASC"), None, &subsystem, &nobody()),
        Err(PostgresExecutionError::Validation(
            "missing".to_string(),
            "Invalid order by parameter".to_string()
        ))
    );
    assert_eq!(
        order_by_pair(
            &subsystem.order_by_types[ORDERING],
            "id",
            &text("ASC"),
            None,
            &subsystem,
            &nobody()
        ),
        Err(PostgresExecutionError::Validation(
            "id".to_string(),
            "Invalid primitive or vector order by parameter".to_string()
        ))
    );
    assert_eq!(
        order_by_pair(post_ordering, "id", &text("UP"), None, &subsystem, &nobody()),
        Err(PostgresExecutionError::Generic("Cannot match UP as valid ordering".to_string()))
    );
    assert_eq!(
        ordering(&num(1)),
        Err(PostgresExecutionError::Generic("Unable to process ordering argument 1".to_string()))
    );
    assert_eq!(
        ordering(&ConstValue::Boolean(true)),
        Err(PostgresExecutionError::Generic(
            "Unable to process ordering argument true".to_string()
        ))
    );
    assert_eq!(
        unprocessable_ordering_message("[1]"),
        "Unable to process ordering argument [1]"
    );
    assert_eq!(ordering(&ConstValue::Enum("DESC".to_string())), Ok(SortOrder::Desc));
    assert_eq!(ordering(&text("ASC")), Ok(SortOrder::Asc));
}

#[test]
fn vector_order_by_uses_the_declared_distance() {
    let subsystem = library();
    let item_ordering = &subsystem.order_by_types[ITEM_ORDERING];
    let target = ConstValue::List(vec![num(1), num(2), num(3)]);
    let computation = order_by_pair(
        item_ordering,
        "embedding",
        &object(vec![("distanceTo", target.duplicate()), ("order", text("DESC"))]),
        None,
        &subsystem,
        &nobody(),
    )
    .unwrap();
    let vector = SqlParam::Vector(vec![Number::PosInt(1), Number::PosInt(2), Number::PosInt(3)]);
    assert_eq!(
        computation.order_by,
        AbstractOrderBy(vec![(
            AbstractOrderByExpr::VectorDistance(
                ColumnPath::Physical(PhysicalColumnPath::leaf(col(ITEM, 3))),
                ColumnPath::Param(vector.duplicate()),
                VectorDistanceFunction::InnerProduct,
            ),
            SortOrder::Desc
        )])
    );
    let defaulted = order_by_pair(
        item_ordering,
        "plainEmbedding",
        &object(vec![("distanceTo", target.duplicate())]),
        None,
        &subsystem,
        &nobody(),
    )
    .unwrap();
    assert_eq!(
        defaulted.order_by,
        AbstractOrderBy(vec![(
            AbstractOrderByExpr::VectorDistance(
                ColumnPath::Physical(PhysicalColumnPath::leaf(col(ITEM, 3))),
                ColumnPath::Param(vector),
                VectorDistanceFunction::Cosine,
            ),
            SortOrder::Asc
        )])
    );
    assert_eq!(VectorDistanceFunction::default(), VectorDistanceFunction::Cosine);
    assert_eq!(
        order_by_pair(item_ordering, "embedding", &text("ASC"), None, &subsystem, &nobody()),
        Err(PostgresExecutionError::Validation(
            "embedding".to_string(),
            "Invalid vector order by parameter".to_string()
        ))
    );
    assert_eq!(
        order_by_pair(
            item_ordering,
            "embedding",
            &object(vec![("order", text("ASC"))]),
            None,
            &subsystem,
            &nobody()
        ),
        Err(PostgresExecutionError::Validation(
            "embedding".to_string(),
            "Invalid vector order by parameter".to_string()
        ))
    );
    assert_eq!(
        to_pg_vector(&ConstValue::List(vec![num(1), text("x")]), "embedding"),
        Err(PostgresExecutionError::Validation(
            "embedding".to_string(),
            "Invalid vector parameter: element is not a number".to_string()
        ))
    );
}

#[test]
fn unauthorized_entity_is_refused() {
    let subsystem = library();
    let field = validated_field("posts", vec![validated_field("id", vec![])]);
    let mut denied = library();
    denied.entity_types[POST].access.read = DENY;
    assert_eq!(
        denied.collection_queries[POST].resolve_select(&field, &nobody(), &denied),
        Err(PostgresExecutionError::Authorization)
    );
    assert_eq!(
        denied.pk_queries[POST].resolve_select(&field, &nobody(), &denied),
        Err(PostgresExecutionError::Authorization)
    );
    let admin = RequestContext {
        values: vec![("AuthContext.role".to_string(), text("admin"))],
    };
    let mut admins = library();
    admins.entity_types[POST].access.read = ADMIN_ONLY;
    assert!(admins.collection_queries[POST].resolve_select(&field, &admin, &admins).is_ok());
    assert_eq!(
        admins.collection_queries[POST].resolve_select(&field, &nobody(), &admins),
        Err(PostgresExecutionError::Authorization)
    );
    assert!(subsystem.collection_queries[POST].resolve_select(&field, &nobody(), &subsystem).is_ok());
}

#[test]
fn restricted_entity_refuses_predicates_over_relations() {
    let params = vec![
        PredicateParameter {
            name: "id".to_string(),
            column_path_link: Some(ColumnPathLink::Leaf(col(POST, 0))),
        },
        PredicateParameter {
            name: "author".to_string(),
            column_path_link: Some(relation_link(col(POST, 2), col(AUTHOR, 0))),
        },
        PredicateParameter { name: "free".to_string(), column_path_link: None },
    ];
    let by_author = vec![("author".to_string(), num(3))];
    assert_eq!(
        compute_predicate(&params, &by_author, true),
        Err(PostgresExecutionError::Authorization)
    );
    assert_eq!(
        compute_predicate(&params, &by_author, false),
        Ok(AbstractPredicate::Compare(
            CompareOp::Eq,
            ColumnPath::Physical(PhysicalColumnPath::init(relation_link(col(POST, 2), col(AUTHOR, 0)))),
            ColumnPath::Param(SqlParam::Value(num(3))),
        ))
    );
    assert_eq!(compute_predicate(&params, &vec![], true), Ok(AbstractPredicate::True));
    assert_eq!(
        compute_predicate(&params, &vec![("free".to_string(), num(3))], false),
        Err(PostgresExecutionError::Validation(
            "free".to_string(),
            "Invalid predicate parameter".to_string()
        ))
    );
    let both = vec![("author".to_string(), num(3)), ("id".to_string(), num(1))];
    assert_eq!(
        compute_predicate(&params, &both, false),
        Ok(AbstractPredicate::And(
            Box::new(id_equals(POST, 1)),
            Box::new(AbstractPredicate::Compare(
                CompareOp::Eq,
                ColumnPath::Physical(PhysicalColumnPath::init(relation_link(
                    col(POST, 2),
                    col(AUTHOR, 0)
                ))),
                ColumnPath::Param(SqlParam::Value(num(3))),
            ))
        ))
    );
}

#[test]
fn limit_must_be_an_integer() {
    let subsystem = library();
    let field = with_args(
        validated_field("authors", vec![validated_field("id", vec![])]),
        vec![("limit", text("ten"))],
    );
    assert_eq!(
        subsystem.collection_queries[AUTHOR].resolve_select(&field, &nobody(), &subsystem),
        Err(PostgresExecutionError::Validation(
            "limit".to_string(),
            "Expected an integer".to_string()
        ))
    );
}

#[test]
fn compute_select_adds_the_read_rule() {
    let subsystem = library();
    let selection = vec![validated_field("title", vec![])];
    let select = compute_select(
        id_equals(POST, 4),
        None,
        Some(5),
        None,
        &subsystem.collection_queries[POST].return_type,
        &selection,
        &subsystem,
        &caller(9),
    )
    .unwrap();
    let owned = AbstractPredicate::Compare(
        CompareOp::Eq,
        ColumnPath::Physical(PhysicalColumnPath::leaf(col(POST, 2))),
        ColumnPath::Param(SqlParam::Value(num(9))),
    );
    assert_eq!(select.predicate, AbstractPredicate::And(Box::new(id_equals(POST, 4)), Box::new(owned)));
    assert_eq!(select.limit, Some(Limit(5)));
    assert_eq!(select.table_id, POST);
}

#[test]
fn resolve_wraps_the_select_as_an_operation() {
    let subsystem = library();
    let field = validated_field("authors", vec![validated_field("id", vec![])]);
    let select =
        subsystem.collection_queries[AUTHOR].resolve_select(&field, &nobody(), &subsystem).unwrap();
    let resolved =
        subsystem.collection_queries[AUTHOR].resolve(&field, &nobody(), &subsystem).unwrap();
    assert_eq!(
        resolved.operation,
        exograph_core::operation_resolver::AbstractOperation::Select(select)
    );
    assert_eq!(resolved.return_type, &subsystem.collection_queries[AUTHOR].return_type);
}
