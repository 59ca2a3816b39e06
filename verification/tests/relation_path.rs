use exograph_core::column_path::ColumnId;
use exograph_core::relation_path::{
    check_field_relation_path, check_relation_path, RelationPathError,
};
use exograph_core::schema::{
    Access, EntityRepresentation, EntityType, FieldType, PostgresField, PostgresGraphQLSubsystem,
    PostgresRelation, RelationCardinality, RelationId, TransitiveRelationStep, TypeIndex,
};

fn open_access() -> Access {
    Access { read: 0, creation_precheck: 0, update_precheck: 0, update_database: 0 }
}

fn single(entity_id: usize, name: &str) -> FieldType {
    FieldType::Plain(TypeIndex::Composite { entity_id, composite_name: name.to_string() })
}

fn optional(inner: FieldType) -> FieldType {
    FieldType::Optional(Box::new(inner))
}

fn set(entity_id: usize, name: &str) -> FieldType {
    FieldType::List(Box::new(single(entity_id, name)))
}

fn field(name: &str, typ: FieldType, relation: PostgresRelation) -> PostgresField {
    PostgresField { name: name.to_string(), typ, relation, access: open_access(), readonly: false }
}

fn scalar(name: &str, table_id: usize, column_index: usize) -> PostgresField {
    field(
        name,
        FieldType::Plain(TypeIndex::Primitive("String".to_string())),
        PostgresRelation::Scalar {
            column_id: ColumnId { table_id, column_index },
            is_pk: column_index == 0,
        },
    )
}

fn many_to_one(name: &str, typ: FieldType, foreign_entity_id: usize, relation_id: usize) -> PostgresField {
    field(name, typ, PostgresRelation::ManyToOne { foreign_entity_id, relation_id, is_pk: false })
}

fn one_to_many(name: &str, typ: FieldType, foreign_entity_id: usize, relation_id: usize) -> PostgresField {
    field(
        name,
        typ,
        PostgresRelation::OneToMany {
            foreign_entity_id,
            relation_id,
            cardinality: RelationCardinality::Unbounded,
        },
    )
}

fn to_one(relation_id: usize, entity_id: usize, is_optional: bool, name: &str) -> TransitiveRelationStep {
    TransitiveRelationStep {
        relation_id: RelationId::ManyToOne(relation_id),
        entity_id,
        cardinality: RelationCardinality::Optional,
        is_optional,
        field_name: name.to_string(),
    }
}

fn to_many(relation_id: usize, entity_id: usize, is_optional: bool, name: &str) -> TransitiveRelationStep {
    TransitiveRelationStep {
        relation_id: RelationId::OneToMany(relation_id),
        entity_id,
        cardinality: RelationCardinality::Unbounded,
        is_optional,
        field_name: name.to_string(),
    }
}

fn chain(name: &str, typ: FieldType, steps: Vec<TransitiveRelationStep>) -> PostgresField {
    field(name, typ, PostgresRelation::Transitive(steps))
}

fn entity(name: &str, table_id: usize, fields: Vec<PostgresField>) -> EntityType {
    EntityType {
        name: name.to_string(),
        table_id,
        fields,
        agg_fields: vec![],
        vector_distance_fields: vec![],
        representation: EntityRepresentation::Managed,
        access: open_access(),
    }
}

fn model(entity_types: Vec<EntityType>) -> PostgresGraphQLSubsystem {
    PostgresGraphQLSubsystem {
        entity_types,
        pk_queries: vec![],
        collection_queries: vec![],
        aggregate_queries: vec![],
        order_by_types: vec![],
        database_access_expressions: vec![],
        precheck_access_expressions: vec![],
        computed_scripts: vec![],
    }
}

/// The report of the first field of the model that does not fit.
fn first_report(model: &PostgresGraphQLSubsystem) -> Option<String> {
    let (entity_id, field_index, error) = model.check_relation_paths()?;
    let entity = &model.entity_types[entity_id];
    let field = &entity.fields[field_index];
    let steps = match &field.relation {
        PostgresRelation::Transitive(steps) => steps.clone(),
        _ => vec![],
    };
    Some(error.message(&entity.name, &field.name, &steps))
}

const AUTHOR: usize = 0;
const BOOK: usize = 1;
const PUBLISHER: usize = 2;

fn authors_books_publishers(publishers: FieldType) -> PostgresGraphQLSubsystem {
    model(vec![
        entity(
            "Author",
            AUTHOR,
            vec![
                scalar("id", AUTHOR, 0),
                scalar("name", AUTHOR, 1),
                one_to_many("books", set(BOOK, "Book"), BOOK, 0),
                chain(
                    "publishers",
                    publishers,
                    vec![to_many(0, BOOK, false, "books"), to_one(1, PUBLISHER, false, "publisher")],
                ),
            ],
        ),
        entity(
            "Book",
            BOOK,
            vec![
                scalar("id", BOOK, 0),
                many_to_one("author", single(AUTHOR, "Author"), AUTHOR, 0),
                many_to_one("publisher", single(PUBLISHER, "Publisher"), PUBLISHER, 1),
            ],
        ),
        entity("Publisher", PUBLISHER, vec![scalar("id", PUBLISHER, 0), scalar("name", PUBLISHER, 1)]),
    ])
}

#[test]
fn relation_path_requires_collection_type_for_unbounded_path() {
    let invalid = authors_books_publishers(optional(single(PUBLISHER, "Publisher")));
    assert_eq!(
        invalid.check_relation_paths(),
        Some((AUTHOR, 3, RelationPathError::CollectionAsSingle))
    );
    let error_message = first_report(&invalid).expect("Schema with invalid collection type should fail");
    assert!(
        error_message
            .contains("resolves @relationPath to a collection but is declared as a single value"),
        "Unexpected error message: {error_message}"
    );
    assert_eq!(
        error_message,
        "Field 'Author.publishers' resolves @relationPath to a collection but is declared as a single value"
    );
    let valid = authors_books_publishers(set(PUBLISHER, "Publisher"));
    assert_eq!(valid.check_relation_paths(), None);
}

#[test]
fn relation_path_rejects_collection_for_single_path() {
    let invalid = model(vec![
        entity(
            "Author",
            0,
            vec![
                scalar("id", 0, 0),
                scalar("name", 0, 1),
                many_to_one("favoritePublisher", optional(single(1, "Publisher")), 1, 0),
                chain(
                    "favoritePublishers",
                    set(1, "Publisher"),
                    vec![to_one(0, 1, true, "favoritePublisher")],
                ),
            ],
        ),
        entity("Publisher", 1, vec![scalar("id", 1, 0), scalar("name", 1, 1)]),
    ]);
    let error_message =
        first_report(&invalid).expect("Schema with mismatched single relation should fail");
    assert!(
        error_message
            .contains("resolves @relationPath to a single value but is declared as a collection"),
        "Unexpected error message: {error_message}"
    );
    assert_eq!(
        invalid.check_relation_paths(),
        Some((0, 3, RelationPathError::SingleAsCollection))
    );
}

const LIBRARY: usize = 0;
const FEATURED_AUTHOR: usize = 1;
const FEATURED_BOOK: usize = 2;

fn library_with_featured_books(featured_books: FieldType) -> PostgresGraphQLSubsystem {
    model(vec![
        entity(
            "Library",
            LIBRARY,
            vec![
                scalar("id", LIBRARY, 0),
                many_to_one(
                    "featuredAuthor",
                    optional(single(FEATURED_AUTHOR, "Author")),
                    FEATURED_AUTHOR,
                    0,
                ),
                chain(
                    "featuredBooks",
                    featured_books,
                    vec![
                        to_one(0, FEATURED_AUTHOR, true, "featuredAuthor"),
                        to_many(1, FEATURED_BOOK, false, "books"),
                    ],
                ),
            ],
        ),
        entity(
            "Author",
            FEATURED_AUTHOR,
            vec![
                scalar("id", FEATURED_AUTHOR, 0),
                scalar("name", FEATURED_AUTHOR, 1),
                one_to_many("featuredIn", optional(set(LIBRARY, "Library")), LIBRARY, 0),
                one_to_many("books", set(FEATURED_BOOK, "Book"), FEATURED_BOOK, 1),
            ],
        ),
        entity(
            "Book",
            FEATURED_BOOK,
            vec![
                scalar("id", FEATURED_BOOK, 0),
                scalar("title", FEATURED_BOOK, 1),
                many_to_one("author", single(FEATURED_AUTHOR, "Author"), FEATURED_AUTHOR, 1),
            ],
        ),
    ])
}

#[test]
fn relation_path_requires_optional_for_nullable_path() {
    let invalid = library_with_featured_books(set(FEATURED_BOOK, "Book"));
    let error_message =
        first_report(&invalid).expect("Schema requiring optional relation should fail");
    assert!(
        error_message
            .contains("resolves @relationPath to an optional value but is declared as non-optional"),
        "Unexpected error message: {error_message}"
    );
    assert_eq!(
        invalid.check_relation_paths(),
        Some((LIBRARY, 2, RelationPathError::OptionalAsRequired))
    );
    let valid = library_with_featured_books(optional(set(FEATURED_BOOK, "Book")));
    assert_eq!(valid.check_relation_paths(), None);
}

#[test]
fn relation_path_rejects_transitive_segments() {
    let invalid = model(vec![entity(
        "Node",
        0,
        vec![
            scalar("id", 0, 0),
            many_to_one("parent", optional(single(0, "Node")), 0, 0),
            one_to_many("children", set(0, "Node"), 0, 0),
            chain(
                "grandparent",
                optional(single(0, "Node")),
                vec![to_one(0, 0, true, "parent"), to_one(0, 0, true, "parent")],
            ),
            chain(
                "cousins",
                set(0, "Node"),
                vec![to_one(0, 0, true, "grandparent"), to_many(0, 0, false, "children")],
            ),
        ],
    )]);
    let message = first_report(&invalid)
        .expect("Schema referencing a transitive relation in a relationPath should fail");
    assert!(message.contains("references transitive relation"), "Unexpected error message: {message}");
    assert_eq!(
        message,
        "Field 'Node.cousins' references transitive relation 'grandparent' in its @relationPath"
    );
    assert_eq!(
        invalid.check_relation_paths(),
        Some((0, 4, RelationPathError::TransitiveSegment(0)))
    );
}

#[test]
fn relation_path_faults_come_in_order() {
    let model = authors_books_publishers(set(PUBLISHER, "Publisher"));
    let declared = set(PUBLISHER, "Publisher");
    assert_eq!(
        check_relation_path(&model, AUTHOR, &vec![], &declared),
        Err(RelationPathError::Empty)
    );
    assert_eq!(
        RelationPathError::Empty.message("Author", "publishers", &vec![]),
        "Field 'Author.publishers' declares an empty @relationPath"
    );
    // A segment that its entity lacks is reported before the shape.
    let lost = vec![to_many(0, BOOK, false, "books"), to_one(1, PUBLISHER, false, "editor")];
    assert_eq!(
        check_relation_path(&model, AUTHOR, &lost, &single(PUBLISHER, "Publisher")),
        Err(RelationPathError::UnknownSegment(1))
    );
    assert_eq!(
        RelationPathError::UnknownSegment(1).message("Author", "editors", &lost),
        "Field 'Author.editors' references unknown field 'editor' in its @relationPath"
    );
    assert_eq!(
        RelationPathError::UnknownSegment(7).message("Author", "editors", &lost),
        "Field 'Author.editors' references unknown field '' in its @relationPath"
    );
    // A segment that starts from an entity that the model lacks.
    let astray = vec![to_many(0, 9, false, "books"), to_one(1, PUBLISHER, false, "publisher")];
    assert_eq!(
        check_relation_path(&model, AUTHOR, &astray, &declared),
        Err(RelationPathError::UnknownSegment(1))
    );
    assert_eq!(
        check_relation_path(&model, 9, &astray, &declared),
        Err(RelationPathError::UnknownSegment(0))
    );
    // A required path that is declared as optional.
    let required = vec![to_one(1, PUBLISHER, false, "publisher")];
    assert_eq!(
        check_relation_path(&model, BOOK, &required, &optional(single(PUBLISHER, "Publisher"))),
        Err(RelationPathError::RequiredAsOptional)
    );
    assert_eq!(
        RelationPathError::RequiredAsOptional.message("Book", "house", &required),
        "Field 'Book.house' resolves @relationPath to a required value but is declared as optional"
    );
    assert_eq!(check_relation_path(&model, BOOK, &required, &single(PUBLISHER, "Publisher")), Ok(()));
    // A one-to-many step that leads to at most one row is no collection.
    let at_most_one = vec![TransitiveRelationStep {
        cardinality: RelationCardinality::Optional,
        ..to_many(0, BOOK, true, "books")
    }];
    assert_eq!(
        check_relation_path(&model, AUTHOR, &at_most_one, &optional(single(BOOK, "Book"))),
        Ok(())
    );
    assert_eq!(
        check_relation_path(&model, AUTHOR, &at_most_one, &set(BOOK, "Book")),
        Err(RelationPathError::SingleAsCollection)
    );
    // A field that is no chain always fits.
    assert_eq!(check_field_relation_path(&model, AUTHOR, &model.entity_types[AUTHOR].fields[2]), Ok(()));
    assert_eq!(
        check_field_relation_path(
            &model,
            AUTHOR,
            &chain("publisher", single(PUBLISHER, "Publisher"), lost.clone())
        ),
        Err(RelationPathError::UnknownSegment(1))
    );
}
