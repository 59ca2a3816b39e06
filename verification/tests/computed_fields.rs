use exograph_core::access::{AccessPredicateExpression, RequestContext};
use exograph_core::column_path::ColumnId;
use exograph_core::computed_fields::{
    apply_computed_fields_to_body, args_to_json, computed_field_error, execute_computed_field,
    field_operation_return_type, is_field_authorized, json_insert_absent, json_upsert,
    needs_postprocess, process_entity, process_value, selection_to_json, Arg, ComputedCall,
    Processing, QueryResponseBody,
};
use exograph_core::error::{DatabaseError, PostgresExecutionError};
use exograph_core::field::ValidatedField;
use exograph_core::response::{assemble_body, extractor, resolve_operation, QueryResponse};
use exograph_core::schema::{
    Access, AggregateQuery, CollectionQuery, ComputedDependency, ComputedField, ComputedScript,
    EntityRepresentation, EntityType, FieldType, OperationReturnType, OrderByParameter,
    OrderByParameterType, OrderByParameterTypeKind, PostgresField, PostgresGraphQLSubsystem,
    PostgresRelation, PredicateParameter, RelationCardinality, TypeIndex, UniqueQuery,
};
use exograph_core::value::{ConstValue, JsonValue, Number};

const ITEM: usize = 0;
const SHOP: usize = 1;
const NOTE: usize = 2;

fn col(table_id: usize, column_index: usize) -> ColumnId {
    ColumnId { table_id, column_index }
}

fn open_access() -> Access {
    Access { read: 0, creation_precheck: 0, update_precheck: 0, update_database: 0 }
}

fn primitive(name: &str) -> FieldType {
    FieldType::Plain(TypeIndex::Primitive(name.to_string()))
}

fn composite(entity_id: usize, name: &str) -> FieldType {
    FieldType::Plain(TypeIndex::Composite { entity_id, composite_name: name.to_string() })
}

fn field(name: &str, typ: FieldType, relation: PostgresRelation) -> PostgresField {
    PostgresField { name: name.to_string(), typ, relation, access: open_access(), readonly: false }
}

fn scalar(name: &str, column_id: ColumnId) -> PostgresField {
    field(name, primitive("Int"), PostgresRelation::Scalar { column_id, is_pk: false })
}

fn computed(function_name: &str, subsystem: &str, dependencies: Vec<(&str, ColumnId)>) -> PostgresRelation {
    PostgresRelation::Computed(ComputedField {
        subsystem: subsystem.to_string(),
        function_name: function_name.to_string(),
        script_id: 0,
        dependencies: dependencies
            .into_iter()
            .map(|(n, c)| ComputedDependency { field_name: n.to_string(), column_id: c })
            .collect(),
    })
}

fn entity(name: &str, table_id: usize, fields: Vec<PostgresField>) -> EntityType {
    EntityType {
        name: name.to_string(),
        table_id,
        fields,
        agg_fields: vec![],
        vector_distance_fields: vec![],
        representation: EntityRepresentation::Managed,
        access: open_access(),
    }
}

fn plain(entity_id: usize) -> OperationReturnType {
    OperationReturnType::Plain { entity_id, composite_name: "T".to_string() }
}

fn shop() -> PostgresGraphQLSubsystem {
    let item = entity(
        "Item",
        ITEM,
        vec![
            scalar("price", col(ITEM, 1)),
            field("tax", primitive("Float"), computed("tax", "deno", vec![("price", col(ITEM, 1))])),
            field(
                "secretTax",
                primitive("Float"),
                computed("tax", "deno", vec![("price", col(ITEM, 1))]),
            ),
            field("wasm", primitive("Float"), computed("tax", "wasm", vec![])),
            field("supplier", composite(SHOP, "Shop"), computed("supplier", "deno", vec![])),
            field(
                "shop",
                FieldType::Optional(Box::new(composite(SHOP, "Shop"))),
                PostgresRelation::ManyToOne { foreign_entity_id: SHOP, relation_id: 1, is_pk: false },
            ),
            field("details", primitive("Json"), PostgresRelation::Embedded),
        ],
    );
    let mut item = item;
    item.fields[2].access.read = 1;
    let shop = entity(
        "Shop",
        SHOP,
        vec![
            scalar("name", col(SHOP, 1)),
            field("rating", primitive("Int"), computed("rating", "deno", vec![])),
            field(
                "items",
                FieldType::List(Box::new(composite(ITEM, "Item"))),
                PostgresRelation::OneToMany {
                    foreign_entity_id: ITEM,
                    relation_id: 1,
                    cardinality: RelationCardinality::Unbounded,
                },
            ),
        ],
    );
    let note = EntityType {
        representation: EntityRepresentation::Json,
        ..entity("Note", NOTE, vec![scalar("text", col(NOTE, 0)), scalar("draft", col(NOTE, 1))])
    };
    let pk = |entity_id: usize| UniqueQuery {
        name: "one".to_string(),
        predicate_params: vec![],
        return_type: plain(entity_id),
    };
    let parameter = || PredicateParameter { name: "where".to_string(), column_path_link: None };
    let collection = |entity_id: usize| CollectionQuery {
        name: "many".to_string(),
        predicate_param: parameter(),
        order_by_param: OrderByParameter {
            name: "orderBy".to_string(),
            type_id: 0,
            column_path_link: None,
            access: None,
            vector_distance_function: None,
        },
        limit_param: "limit".to_string(),
        offset_param: "offset".to_string(),
        return_type: OperationReturnType::List(Box::new(plain(entity_id))),
    };
    let aggregate = |entity_id: usize| AggregateQuery {
        name: "agg".to_string(),
        predicate_param: parameter(),
        return_type: plain(entity_id),
    };
    PostgresGraphQLSubsystem {
        entity_types: vec![item, shop, note],
        pk_queries: (0..3).map(pk).collect(),
        collection_queries: (0..3).map(collection).collect(),
        aggregate_queries: (0..3).map(aggregate).collect(),
        order_by_types: vec![OrderByParameterType {
            name: "Ordering".to_string(),
            kind: OrderByParameterTypeKind::Composite { parameters: vec![] },
        }],
        database_access_expressions: vec![
            AccessPredicateExpression::BooleanLiteral(true),
            AccessPredicateExpression::BooleanLiteral(false),
        ],
        precheck_access_expressions: vec![AccessPredicateExpression::BooleanLiteral(true)],
        computed_scripts: vec![ComputedScript {
            path: "file:///shop.js".to_string(),
            definition: vec![7, 8],
        }],
    }
}

fn nobody() -> RequestContext {
    RequestContext { values: vec![] }
}

fn select(name: &str, subfields: Vec<ValidatedField>) -> ValidatedField {
    ValidatedField { alias: None, name: name.to_string(), arguments: vec![], subfields }
}

fn json(text: &str) -> JsonValue {
    JsonValue::parse(text).unwrap()
}

/// The text of a value, with the members of every object in the order of their names.
fn canonical(v: &JsonValue) -> String {
    v.to_text()
}

fn arg_text(arg: &Arg) -> String {
    match arg {
        Arg::Serde(v) => canonical(v),
        Arg::Shim(name) => format!("shim {name}"),
    }
}

fn done(p: Processing<JsonValue>) -> (JsonValue, usize) {
    match p {
        Processing::Done(v, used) => (v, used),
        Processing::Call(c) => panic!("a call was asked for: {:?}", c),
        Processing::Failed(e) => panic!("failed: {:?}", e),
    }
}

fn call(p: Processing<JsonValue>) -> ComputedCall {
    match p {
        Processing::Call(c) => c,
        Processing::Done(v, _) => panic!("done with {:?}", v),
        Processing::Failed(e) => panic!("failed: {:?}", e),
    }
}

fn failed(p: Processing<JsonValue>) -> PostgresExecutionError {
    match p {
        Processing::Failed(e) => e,
        Processing::Done(v, _) => panic!("done with {:?}", v),
        Processing::Call(c) => panic!("a call was asked for: {:?}", c),
    }
}

#[test]
fn fixture_is_fit() {
    assert!(shop().is_fit_for_computed_fields());
}

#[test]
fn post_processing_is_needed_for_computed_fields_only() {
    let subsystem = shop();
    let item = &subsystem.entity_types[ITEM];
    let shop_entity = &subsystem.entity_types[SHOP];
    let note = &subsystem.entity_types[NOTE];
    assert!(!needs_postprocess(item, &vec![select("price", vec![])], &subsystem));
    assert!(!needs_postprocess(item, &vec![], &subsystem));
    assert!(needs_postprocess(item, &vec![select("price", vec![]), select("tax", vec![])], &subsystem));
    assert!(!needs_postprocess(item, &vec![select("details", vec![])], &subsystem));
    assert!(needs_postprocess(item, &vec![select("details", vec![select("x", vec![])])], &subsystem));
    assert!(!needs_postprocess(item, &vec![select("shop", vec![select("name", vec![])])], &subsystem));
    assert!(needs_postprocess(item, &vec![select("shop", vec![select("rating", vec![])])], &subsystem));
    assert!(needs_postprocess(
        shop_entity,
        &vec![select("items", vec![select("shop", vec![select("rating", vec![])])])],
        &subsystem
    ));
    assert!(!needs_postprocess(item, &vec![select("unknown", vec![])], &subsystem));
    assert!(needs_postprocess(note, &vec![select("text", vec![])], &subsystem));
    assert!(!needs_postprocess(note, &vec![], &subsystem));
}

#[test]
fn computed_field_is_called_then_spliced_in() {
    let subsystem = shop();
    let selection = vec![select("price", vec![]), select("tax", vec![])];
    let row = json("{\"price\":100,\"tax\":{\"price\":100}}");
    let first = call(process_value(&row, &plain(ITEM), &selection, &subsystem, &nobody(), &vec![]));
    assert_eq!(
        first,
        ComputedCall {
            script_path: "file:///shop.js".to_string(),
            script_definition: vec![7, 8],
            function_name: "tax".to_string(),
            arguments: vec![
                Arg::Serde(JsonValue::Object(vec![
                    ("price".to_string(), json("100")),
                    ("tax".to_string(), json("{\"price\":100}")),
                ])),
                Arg::Serde(json("{}")),
                Arg::Serde(json("[]")),
                Arg::Shim("Exograph".to_string()),
            ],
            field_name: "tax".to_string(),
        }
    );
    let (value, used) =
        done(process_value(&row, &plain(ITEM), &selection, &subsystem, &nobody(), &vec![json("8")]));
    assert_eq!(value, json("{\"price\":100,\"tax\":8}"));
    assert_eq!(used, 1);
}

#[test]
fn dependencies_are_promoted_into_the_snapshot() {
    let subsystem = shop();
    let selection = vec![ValidatedField {
        alias: Some("vat".to_string()),
        ..select("tax", vec![])
    }];
    let row = json("{\"vat\":{\"price\":100,\"rate\":2},\"rate\":5}");
    let asked = call(process_value(&row, &plain(ITEM), &selection, &subsystem, &nobody(), &vec![]));
    assert_eq!(
        asked.arguments[0],
        Arg::Serde(JsonValue::Object(vec![
            ("rate".to_string(), json("5")),
            ("vat".to_string(), json("{\"price\":100,\"rate\":2}")),
            ("price".to_string(), json("100")),
        ]))
    );
    assert_eq!(asked.field_name, "tax");
    let (value, _) =
        done(process_value(&row, &plain(ITEM), &selection, &subsystem, &nobody(), &vec![json("8")]));
    assert_eq!(value, json("{\"rate\":5,\"vat\":8}"));
}

#[test]
fn body_is_parsed_processed_and_written() {
    let subsystem = shop();
    let field = select("item", vec![select("price", vec![]), select("tax", vec![])]);
    let body = QueryResponseBody::Raw(Some("{\"price\":100,\"tax\":{\"price\":100}}".to_string()));
    let first =
        apply_computed_fields_to_body(&body, &plain(ITEM), &field, &subsystem, &nobody(), &vec![]);
    assert!(matches!(first, Processing::Call(_)));
    let second = apply_computed_fields_to_body(
        &body,
        &plain(ITEM),
        &field,
        &subsystem,
        &nobody(),
        &vec![json("8")],
    );
    match second {
        Processing::Done(QueryResponseBody::Raw(Some(text)), used) => {
            assert_eq!(text, "{\"price\":100,\"tax\":8}");
            assert_eq!(used, 1);
        }
        _ => panic!("the body is done after the one call"),
    }
    let plain_field = select("item", vec![select("price", vec![])]);
    let untouched = apply_computed_fields_to_body(
        &QueryResponseBody::Raw(Some("not json".to_string())),
        &plain(ITEM),
        &plain_field,
        &subsystem,
        &nobody(),
        &vec![],
    );
    match untouched {
        Processing::Done(body, used) => {
            assert_eq!(body, QueryResponseBody::Raw(Some("not json".to_string())));
            assert_eq!(used, 0);
        }
        _ => panic!("nothing is to be computed"),
    }
    let broken = apply_computed_fields_to_body(
        &QueryResponseBody::Raw(Some("not json".to_string())),
        &plain(ITEM),
        &field,
        &subsystem,
        &nobody(),
        &vec![],
    );
    match broken {
        Processing::Failed(e) => assert_eq!(
            e,
            PostgresExecutionError::Generic("Failed to parse query result JSON".to_string())
        ),
        _ => panic!("a body that is no JSON fails"),
    }
    let absent = apply_computed_fields_to_body(
        &QueryResponseBody::Raw(None),
        &plain(ITEM),
        &field,
        &subsystem,
        &nobody(),
        &vec![],
    );
    assert!(matches!(absent, Processing::Done(QueryResponseBody::Raw(None), 0)));
}

#[test]
fn lists_are_processed_item_by_item_in_order() {
    let subsystem = shop();
    let selection = vec![select("tax", vec![])];
    let list = OperationReturnType::List(Box::new(plain(ITEM)));
    let rows = json("[{\"tax\":{\"price\":1}},null,{\"tax\":{\"price\":3}}]");
    let first = call(process_value(&rows, &list, &selection, &subsystem, &nobody(), &vec![]));
    assert_eq!(arg_text(&first.arguments[0]), "{\"price\":1,\"tax\":{\"price\":1}}");
    let second =
        call(process_value(&rows, &list, &selection, &subsystem, &nobody(), &vec![json("10")]));
    assert_eq!(arg_text(&second.arguments[0]), "{\"price\":3,\"tax\":{\"price\":3}}");
    let (value, used) = done(process_value(
        &rows,
        &list,
        &selection,
        &subsystem,
        &nobody(),
        &vec![json("10"), json("30")],
    ));
    assert_eq!(value, json("[{\"tax\":10},null,{\"tax\":30}]"));
    assert_eq!(used, 2);
    assert_eq!(
        done(process_value(&json("null"), &list, &selection, &subsystem, &nobody(), &vec![])),
        (json("null"), 0)
    );
    assert_eq!(
        failed(process_value(&json("{}"), &list, &selection, &subsystem, &nobody(), &vec![])),
        PostgresExecutionError::Generic("Expected array value for list return type".to_string())
    );
    assert_eq!(
        failed(process_value(&json("[1]"), &list, &selection, &subsystem, &nobody(), &vec![])),
        PostgresExecutionError::Generic("Expected object when processing computed fields".to_string())
    );
    let optional = OperationReturnType::Optional(Box::new(plain(ITEM)));
    assert_eq!(
        done(process_value(&json("null"), &optional, &selection, &subsystem, &nobody(), &vec![])),
        (json("null"), 0)
    );
}

#[test]
fn later_fields_see_earlier_answers() {
    let subsystem = shop();
    let selection = vec![
        select("tax", vec![]),
        ValidatedField { alias: Some("again".to_string()), ..select("tax", vec![]) },
    ];
    let row = json("{\"price\":100}");
    let second = call(process_value(
        &row,
        &plain(ITEM),
        &selection,
        &subsystem,
        &nobody(),
        &vec![json("8")],
    ));
    assert_eq!(second.arguments[0], Arg::Serde(json("{\"price\":100,\"tax\":8}")));
    let (value, used) = done(process_value(
        &row,
        &plain(ITEM),
        &selection,
        &subsystem,
        &nobody(),
        &vec![json("8"), json("9")],
    ));
    assert_eq!(
        value,
        JsonValue::Object(vec![
            ("price".to_string(), json("100")),
            ("tax".to_string(), json("8")),
            ("again".to_string(), json("9")),
        ])
    );
    assert_eq!(canonical(&value), "{\"again\":9,\"price\":100,\"tax\":8}");
    assert_eq!(used, 2);
}

#[test]
fn unauthorized_and_unknown_fields_are_left_alone() {
    let subsystem = shop();
    let selection = vec![select("secretTax", vec![]), select("ghost", vec![]), select("__typename", vec![])];
    let row = json("{\"secretTax\":null,\"__typename\":\"Item\"}");
    assert_eq!(
        done(process_value(&row, &plain(ITEM), &selection, &subsystem, &nobody(), &vec![])),
        (json("{\"secretTax\":null,\"__typename\":\"Item\"}"), 0)
    );
    assert!(!is_field_authorized(&subsystem.entity_types[ITEM].fields[2], &subsystem, &nobody()));
    assert!(is_field_authorized(&subsystem.entity_types[ITEM].fields[1], &subsystem, &nobody()));
}

#[test]
fn only_the_deno_subsystem_runs_scripts() {
    let subsystem = shop();
    let selection = vec![select("wasm", vec![])];
    assert_eq!(
        failed(process_value(&json("{}"), &plain(ITEM), &selection, &subsystem, &nobody(), &vec![])),
        PostgresExecutionError::Generic("Unsupported computed field subsystem 'wasm'".to_string())
    );
    let wasm = match &subsystem.entity_types[ITEM].fields[3].relation {
        PostgresRelation::Computed(c) => c,
        _ => unreachable!(),
    };
    assert!(matches!(
        execute_computed_field(wasm, vec![], &selection[0], &subsystem, &vec![json("1")], 0),
        Processing::Failed(_)
    ));
    assert_eq!(
        computed_field_error("tax", "boom"),
        PostgresExecutionError::Generic("Failed to evaluate computed field 'tax': boom".to_string())
    );
}

#[test]
fn answers_and_relations_are_processed_in_turn() {
    let subsystem = shop();
    let selection = vec![
        select("supplier", vec![select("name", vec![]), select("rating", vec![])]),
        select("shop", vec![select("rating", vec![])]),
    ];
    let row = json("{\"supplier\":null,\"shop\":{\"rating\":null}}");
    let answers = vec![json("{\"name\":\"S\"}")];
    let nested = call(process_value(&row, &plain(ITEM), &selection, &subsystem, &nobody(), &answers));
    assert_eq!(nested.function_name, "rating");
    assert_eq!(nested.arguments[0], Arg::Serde(json("{\"name\":\"S\"}")));
    let answers = vec![json("{\"name\":\"S\"}"), json("5"), json("4")];
    let (value, used) =
        done(process_value(&row, &plain(ITEM), &selection, &subsystem, &nobody(), &answers));
    assert_eq!(value, json("{\"supplier\":{\"name\":\"S\",\"rating\":5},\"shop\":{\"rating\":4}}"));
    assert_eq!(used, 3);
    let missing_shop = json("{\"supplier\":null,\"shop\":null}");
    let (value, used) = done(process_value(
        &missing_shop,
        &plain(ITEM),
        &selection,
        &subsystem,
        &nobody(),
        &vec![json("null")],
    ));
    assert_eq!(value, json("{\"supplier\":null,\"shop\":null}"));
    assert_eq!(used, 1);
}

#[test]
fn json_entities_keep_selected_members_only() {
    let subsystem = shop();
    let selection = vec![
        ValidatedField { alias: Some("body".to_string()), ..select("text", vec![]) },
        select("__typename", vec![]),
    ];
    let row = json("{\"body\":\"hi\",\"draft\":true,\"__typename\":\"Note\",\"text\":\"x\"}");
    assert_eq!(
        done(process_entity(&row, NOTE, &selection, &subsystem, &nobody(), &vec![], 0)),
        (json("{\"body\":\"hi\",\"__typename\":\"Note\"}"), 0)
    );
}

#[test]
fn selections_are_described_for_scripts() {
    let selection = vec![
        select("name", vec![]),
        ValidatedField {
            alias: Some("top".to_string()),
            name: "items".to_string(),
            arguments: vec![
                ("first".to_string(), ConstValue::Number(Number::PosInt(3))),
                ("order".to_string(), ConstValue::Enum("ASC".to_string())),
                ("first".to_string(), ConstValue::Number(Number::PosInt(5))),
            ],
            subfields: vec![select("price", vec![])],
        },
    ];
    let text = |s: &str| JsonValue::String(s.to_string());
    assert_eq!(
        selection_to_json(&selection),
        Ok(JsonValue::Array(vec![
            JsonValue::Object(vec![
                ("name".to_string(), text("name")),
                ("outputName".to_string(), text("name")),
            ]),
            JsonValue::Object(vec![
                ("name".to_string(), text("items")),
                ("outputName".to_string(), text("top")),
                ("alias".to_string(), text("top")),
                ("arguments".to_string(), json("{\"first\":5,\"order\":\"ASC\"}")),
                ("fields".to_string(), json("[{\"name\":\"price\",\"outputName\":\"price\"}]")),
            ]),
        ]))
    );
    assert_eq!(selection_to_json(&vec![]), Ok(json("[]")));
    assert_eq!(args_to_json(&vec![]), Ok(json("{}")));
    let binary = vec![
        ("ok".to_string(), ConstValue::Null),
        ("blob".to_string(), ConstValue::Binary(vec![1])),
    ];
    assert_eq!(
        args_to_json(&binary),
        Err(PostgresExecutionError::Generic("Failed to convert argument 'blob' to JSON".to_string()))
    );
    let nested = vec![ValidatedField { arguments: binary, ..select("x", vec![]) }];
    assert_eq!(
        selection_to_json(&vec![select("outer", nested)]),
        Err(PostgresExecutionError::Generic("Failed to convert argument 'blob' to JSON".to_string()))
    );
}

#[test]
fn objects_are_updated_in_place() {
    let mut members = match json("{\"a\":1,\"b\":2}") {
        JsonValue::Object(m) => m,
        _ => unreachable!(),
    };
    json_upsert(&mut members, "a", json("10"));
    json_upsert(&mut members, "c", json("3"));
    json_insert_absent(&mut members, "b", json("20"));
    json_insert_absent(&mut members, "d", json("4"));
    assert_eq!(JsonValue::Object(members), json("{\"a\":10,\"b\":2,\"c\":3,\"d\":4}"));
}

#[test]
fn field_types_give_return_types() {
    assert_eq!(field_operation_return_type(&primitive("Int")), None);
    assert_eq!(
        field_operation_return_type(&FieldType::List(Box::new(primitive("Int")))),
        None
    );
    assert_eq!(
        field_operation_return_type(&FieldType::Optional(Box::new(FieldType::List(Box::new(
            composite(SHOP, "Shop")
        ))))),
        Some(OperationReturnType::Optional(Box::new(OperationReturnType::List(Box::new(
            OperationReturnType::Plain { entity_id: SHOP, composite_name: "Shop".to_string() }
        )))))
    );
}

fn one_row(text: &str) -> Vec<Vec<ConstValue>> {
    vec![vec![ConstValue::String(text.to_string())]]
}

#[test]
fn rows_become_the_body() {
    assert_eq!(assemble_body(&Ok(vec![])), Ok(QueryResponseBody::Raw(None)));
    assert_eq!(
        assemble_body(&Ok(one_row("{\"a\":1}"))),
        Ok(QueryResponseBody::Raw(Some("{\"a\":1}".to_string())))
    );
    assert_eq!(
        assemble_body(&Ok(vec![vec![], vec![], vec![]])),
        Err(PostgresExecutionError::NonUniqueResult(3))
    );
    assert_eq!(
        assemble_body(&Err(DatabaseError::Precheck("Expected 1 row, got 0".to_string()))),
        Err(PostgresExecutionError::Authorization)
    );
    let transaction = DatabaseError::Transaction("".to_string());
    assert_eq!(
        assemble_body(&Err(transaction.clone())),
        Err(PostgresExecutionError::Postgres(transaction))
    );
    assert_eq!(
        extractor(&vec![ConstValue::Number(Number::PosInt(1))]),
        Err(PostgresExecutionError::Generic("Expected a row with one JSON text".to_string()))
    );
    assert_eq!(assemble_body(&Ok(vec![vec![]])).is_err(), true);
}

#[test]
fn operation_response_has_no_headers() {
    let subsystem = shop();
    let field = select("item", vec![select("price", vec![]), select("tax", vec![])]);
    let rows = Ok(one_row("{\"price\":100,\"tax\":{\"price\":100}}"));
    let first = resolve_operation(&rows, &plain(ITEM), &field, &subsystem, &nobody(), &vec![]);
    assert!(matches!(first, Processing::Call(_)));
    let second =
        resolve_operation(&rows, &plain(ITEM), &field, &subsystem, &nobody(), &vec![json("8")]);
    match second {
        Processing::Done(response, used) => {
            assert_eq!(
                response,
                QueryResponse {
                    body: QueryResponseBody::Raw(Some("{\"price\":100,\"tax\":8}".to_string())),
                    headers: vec![],
                }
            );
            assert_eq!(used, 1);
        }
        _ => panic!("the response is done after the one call"),
    }
    let refused = resolve_operation(
        &Err(DatabaseError::Precheck("Expected 1 row, got 2".to_string())),
        &plain(ITEM),
        &field,
        &subsystem,
        &nobody(),
        &vec![],
    );
    assert!(matches!(refused, Processing::Failed(PostgresExecutionError::Authorization)));
    let many = resolve_operation(
        &Ok(vec![vec![], vec![]]),
        &plain(ITEM),
        &field,
        &subsystem,
        &nobody(),
        &vec![],
    );
    assert!(matches!(many, Processing::Failed(PostgresExecutionError::NonUniqueResult(2))));
    let user_row = resolve_operation(
        &Ok(one_row("{\"id\":1,\"name\":\"Ada\",\"ssn\":null}")),
        &plain(ITEM),
        &select("user", vec![select("id", vec![])]),
        &subsystem,
        &nobody(),
        &vec![],
    );
    match user_row {
        Processing::Done(response, _) => assert_eq!(
            response.body,
            QueryResponseBody::Raw(Some("{\"id\":1,\"name\":\"Ada\",\"ssn\":null}".to_string()))
        ),
        _ => panic!("a row without computed fields is passed on"),
    }
}
