use exograph_core::document::{
    DocumentValue, Field, FragmentDefinition, OperationDefinition, OperationType, Selection,
};
use exograph_core::field::ValidatedField;
use exograph_core::selection_validator::{resolve_value, validate_selection_set, Walk};
use exograph_core::validation::{
    BaseType, FieldDefinition, InputValueDefinition, OperationValidator, Pos, Schema, Type,
    TypeDefinition, TypeKind, ValidatedOperation, ValidationError, VariableDefinition,
};
use exograph_core::value::{const_from_json, const_to_json, ConstValue, JsonValue, Number};

fn named(name: &str) -> Type {
    Type { base: BaseType::Named(name.to_string()), nullable: true }
}

fn list_of(inner: Type) -> Type {
    Type { base: BaseType::List(Box::new(inner)), nullable: true }
}

fn input(name: &str, ty: Type) -> InputValueDefinition {
    InputValueDefinition { name: name.to_string(), ty }
}

fn object_field(name: &str, ty: Type) -> FieldDefinition {
    FieldDefinition { name: name.to_string(), arguments: vec![], ty }
}

fn schema() -> Schema {
    Schema {
        type_definitions: vec![
            TypeDefinition {
                name: "Query".to_string(),
                kind: TypeKind::Object(vec![
                    object_field("concerts", list_of(named("Concert"))),
                    object_field("concert", named("Concert")),
                    object_field("__schema", named("__Schema")),
                ]),
            },
            TypeDefinition {
                name: "Concert".to_string(),
                kind: TypeKind::Object(vec![
                    object_field("id", named("Int")),
                    object_field("title", named("String")),
                    object_field("venue", named("Venue")),
                ]),
            },
            TypeDefinition {
                name: "Venue".to_string(),
                kind: TypeKind::Object(vec![
                    object_field("id", named("Int")),
                    object_field("name", named("String")),
                    object_field("concerts", list_of(named("Concert"))),
                ]),
            },
            TypeDefinition {
                name: "__Schema".to_string(),
                kind: TypeKind::Object(vec![object_field("types", list_of(named("__Type")))]),
            },
            TypeDefinition {
                name: "__Type".to_string(),
                kind: TypeKind::Object(vec![
                    object_field("name", named("String")),
                    object_field("ofType", named("__Type")),
                ]),
            },
            TypeDefinition {
                name: "Ordering".to_string(),
                kind: TypeKind::Enum(vec!["ASC".to_string(), "DESC".to_string()]),
            },
            TypeDefinition {
                name: "ConcertOrdering".to_string(),
                kind: TypeKind::InputObject(vec![
                    input("title", named("Ordering")),
                    input("venue", named("VenueOrdering")),
                    input("tags", list_of(named("Ordering"))),
                ]),
            },
            TypeDefinition {
                name: "VenueOrdering".to_string(),
                kind: TypeKind::InputObject(vec![input("name", named("Ordering"))]),
            },
            TypeDefinition { name: "Int".to_string(), kind: TypeKind::Scalar },
        ],
    }
}

fn json(text: &str) -> JsonValue {
    JsonValue::parse(text).unwrap()
}

fn object(entries: Vec<(&str, ConstValue)>) -> ConstValue {
    ConstValue::Object(entries.into_iter().map(|(k, v)| (k.to_string(), v)).collect())
}

fn enum_value(name: &str) -> ConstValue {
    ConstValue::Enum(name.to_string())
}

fn at(line: usize, column: usize) -> Pos {
    Pos { line, column }
}

fn validator<'a>(schema: &'a Schema, variables: Option<&str>) -> OperationValidator<'a> {
    let variables = variables.map(|text| match json(text) {
        JsonValue::Object(members) => members,
        _ => panic!("variables are an object"),
    });
    OperationValidator::new(schema, Some("op".to_string()), variables, vec![], 3, 5)
}

fn coerce(expected: &Type, value: &str) -> Result<ConstValue, ValidationError> {
    let schema = schema();
    validator(&schema, None).coerce_variable_value(expected, &json(value), "v", at(1, 2))
}

#[test]
fn enum_variable_is_matched_against_declared_values() {
    assert_eq!(coerce(&named("Ordering"), "\"ASC\""), Ok(enum_value("ASC")));
    assert_eq!(coerce(&named("Ordering"), "null"), Ok(ConstValue::Null));
    assert_eq!(
        coerce(&named("Ordering"), "\"UP\""),
        Err(ValidationError::MalformedVariable(
            "v".to_string(),
            at(1, 2),
            "Invalid enum value 'UP' for type 'Ordering'".to_string()
        ))
    );
    assert_eq!(
        coerce(&named("Ordering"), "{\"a\":[1,true]}"),
        Err(ValidationError::MalformedVariable(
            "v".to_string(),
            at(1, 2),
            "Expected enum value for type 'Ordering', got {\"a\":[1,true]}".to_string()
        ))
    );
}

#[test]
fn input_object_variable_is_coerced_field_by_field() {
    assert_eq!(
        coerce(
            &named("ConcertOrdering"),
            "{\"title\":\"DESC\",\"venue\":{\"name\":\"ASC\"},\"tags\":[\"ASC\",null],\"extra\":\"ASC\"}"
        ),
        Ok(object(vec![
            ("extra", ConstValue::String("ASC".to_string())),
            ("tags", ConstValue::List(vec![enum_value("ASC"), ConstValue::Null])),
            ("title", enum_value("DESC")),
            ("venue", object(vec![("name", enum_value("ASC"))])),
        ]))
    );
    assert_eq!(coerce(&named("ConcertOrdering"), "null"), Ok(ConstValue::Null));
    assert_eq!(
        coerce(&named("ConcertOrdering"), "12"),
        Err(ValidationError::MalformedVariable(
            "v".to_string(),
            at(1, 2),
            "Expected input object for type 'ConcertOrdering', got 12".to_string()
        ))
    );
    assert_eq!(
        coerce(&named("ConcertOrdering"), "{\"venue\":{\"name\":\"SIDEWAYS\"}}"),
        Err(ValidationError::MalformedVariable(
            "v".to_string(),
            at(1, 2),
            "Invalid enum value 'SIDEWAYS' for type 'Ordering'".to_string()
        ))
    );
}

#[test]
fn list_variable_is_coerced_item_by_item() {
    assert_eq!(
        coerce(&list_of(named("Ordering")), "[\"ASC\",\"DESC\"]"),
        Ok(ConstValue::List(vec![enum_value("ASC"), enum_value("DESC")]))
    );
    assert_eq!(
        coerce(&list_of(list_of(named("Ordering"))), "[[\"ASC\"],[]]"),
        Ok(ConstValue::List(vec![
            ConstValue::List(vec![enum_value("ASC")]),
            ConstValue::List(vec![])
        ]))
    );
    assert_eq!(
        coerce(&list_of(named("Ordering")), "\"ASC\""),
        Ok(ConstValue::String("ASC".to_string()))
    );
    assert_eq!(
        coerce(&list_of(named("Ordering")), "[\"ASC\",\"NO\"]"),
        Err(ValidationError::MalformedVariable(
            "v".to_string(),
            at(1, 2),
            "Invalid enum value 'NO' for type 'Ordering'".to_string()
        ))
    );
}

#[test]
fn other_variables_are_converted_as_they_are() {
    assert_eq!(coerce(&named("Int"), "7"), Ok(ConstValue::Number(Number::PosInt(7))));
    assert_eq!(coerce(&named("Int"), "-7"), Ok(ConstValue::Number(Number::NegInt(-7))));
    assert_eq!(
        coerce(&named("Float"), "1.5"),
        Ok(ConstValue::Number(Number::Float("1.5".to_string())))
    );
    assert_eq!(coerce(&named("Unknown"), "null"), Ok(ConstValue::Null));
    assert_eq!(
        coerce(&named("Unknown"), "{\"b\":true,\"a\":[\"x\"]}"),
        Ok(object(vec![
            ("a", ConstValue::List(vec![ConstValue::String("x".to_string())])),
            ("b", ConstValue::Boolean(true)),
        ]))
    );
    assert_eq!(
        const_from_json(&json("[1,\"two\",false,null]")),
        ConstValue::List(vec![
            ConstValue::Number(Number::PosInt(1)),
            ConstValue::String("two".to_string()),
            ConstValue::Boolean(false),
            ConstValue::Null,
        ])
    );
}

#[test]
fn coercing_a_value_of_its_type_gives_it_back() {
    let values = vec![
        (named("Ordering"), enum_value("DESC")),
        (named("Ordering"), ConstValue::Null),
        (list_of(named("Ordering")), ConstValue::List(vec![enum_value("ASC"), ConstValue::Null])),
        (
            named("ConcertOrdering"),
            object(vec![
                ("title", enum_value("ASC")),
                ("venue", object(vec![("name", enum_value("DESC"))])),
                ("other", ConstValue::List(vec![ConstValue::Boolean(true)])),
            ]),
        ),
        (named("Int"), ConstValue::Number(Number::NegInt(-4))),
        (named("String"), ConstValue::String("ASC".to_string())),
        (list_of(named("Int")), ConstValue::Number(Number::PosInt(3))),
    ];
    let schema = schema();
    let validator = validator(&schema, None);
    for (expected, value) in values {
        let written = const_to_json(&value).unwrap();
        assert_eq!(validator.coerce_variable_value(&expected, &written, "v", at(0, 0)), Ok(value));
    }
    assert_eq!(const_to_json(&ConstValue::Binary(vec![1, 2])), None);
    assert_eq!(const_to_json(&ConstValue::List(vec![ConstValue::Binary(vec![])])), None);
    assert_eq!(const_to_json(&enum_value("ASC")), Some(JsonValue::String("ASC".to_string())));
}

fn variable(name: &str, var_type: Type) -> VariableDefinition {
    VariableDefinition { name: name.to_string(), pos: at(3, 4), var_type }
}

#[test]
fn variables_are_looked_up_and_coerced() {
    let schema = schema();
    let validator = validator(&schema, Some("{\"order\":\"ASC\",\"first\":10}"));
    assert_eq!(validator.var_value(&variable("order", named("Ordering"))), Ok(enum_value("ASC")));
    assert_eq!(
        validator.var_value(&variable("missing", named("Ordering"))),
        Err(ValidationError::VariableNotFound("missing".to_string(), at(3, 4)))
    );
    assert_eq!(
        validator.validate_variables(&vec![
            variable("first", named("Int")),
            variable("order", named("Ordering"))
        ]),
        Ok(vec![
            ("first".to_string(), ConstValue::Number(Number::PosInt(10))),
            ("order".to_string(), enum_value("ASC")),
        ])
    );
    assert_eq!(
        validator.validate_variables(&vec![
            variable("first", named("Ordering")),
            variable("missing", named("Int"))
        ]),
        Err(ValidationError::MalformedVariable(
            "first".to_string(),
            at(3, 4),
            "Expected enum value for type 'Ordering', got 10".to_string()
        ))
    );
    let none = OperationValidator::new(&schema, None, None, vec![], 3, 5);
    assert_eq!(
        none.var_value(&variable("order", named("Ordering"))),
        Err(ValidationError::VariableNotFound("order".to_string(), at(3, 4)))
    );
}

#[test]
fn depth_is_checked_once_the_kind_of_query_is_known() {
    let schema = schema();
    let validator = validator(&schema, None);
    assert_eq!(validator.selection_depth_check(100, None, at(0, 0)), Ok(true));
    assert_eq!(validator.selection_depth_check(3, Some(false), at(0, 0)), Ok(true));
    assert_eq!(
        validator.selection_depth_check(4, Some(false), at(9, 1)),
        Err(ValidationError::SelectionSetTooDeep(at(9, 1)))
    );
    assert_eq!(validator.selection_depth_check(5, Some(true), at(0, 0)), Ok(true));
    assert_eq!(
        validator.selection_depth_check(6, Some(true), at(9, 2)),
        Err(ValidationError::SelectionSetTooDeep(at(9, 2)))
    );
}

fn field(name: &str, selection_set: Vec<Selection>) -> Field {
    Field { alias: None, name: name.to_string(), arguments: vec![], selection_set, pos: at(1, 1) }
}

fn select(name: &str, selection_set: Vec<Selection>) -> Selection {
    Selection::Field(field(name, selection_set))
}

fn validated(name: &str, subfields: Vec<ValidatedField>) -> ValidatedField {
    ValidatedField { alias: None, name: name.to_string(), arguments: vec![], subfields }
}

fn query(selection_set: Vec<Selection>) -> OperationDefinition {
    OperationDefinition {
        ty: OperationType::Query,
        variable_definitions: vec![],
        selection_set,
        pos: at(0, 0),
    }
}

#[test]
fn operation_is_validated_into_fields() {
    let schema = schema();
    let operation = OperationDefinition {
        variable_definitions: vec![variable("id", named("Int"))],
        ..query(vec![Selection::Field(Field {
            alias: Some("one".to_string()),
            arguments: vec![
                ("id".to_string(), DocumentValue::Variable("id".to_string())),
                (
                    "where".to_string(),
                    DocumentValue::Object(vec![(
                        "ids".to_string(),
                        DocumentValue::List(vec![
                            DocumentValue::Variable("id".to_string()),
                            DocumentValue::Number(Number::PosInt(2)),
                        ]),
                    )]),
                ),
            ],
            ..field(
                "concert",
                vec![
                    select("title", vec![]),
                    select("__typename", vec![]),
                    select("venue", vec![select("name", vec![])]),
                ],
            )
        })])
    };
    let validated_operation = validator(&schema, Some("{\"id\":5}")).validate(&operation);
    let five = ConstValue::Number(Number::PosInt(5));
    assert_eq!(
        validated_operation,
        Ok(ValidatedOperation {
            name: Some("op".to_string()),
            typ: OperationType::Query,
            fields: vec![ValidatedField {
                alias: Some("one".to_string()),
                name: "concert".to_string(),
                arguments: vec![
                    ("id".to_string(), five.duplicate()),
                    (
                        "where".to_string(),
                        object(vec![(
                            "ids",
                            ConstValue::List(vec![five, ConstValue::Number(Number::PosInt(2))])
                        )])
                    ),
                ],
                subfields: vec![
                    validated("title", vec![]),
                    validated("__typename", vec![]),
                    validated("venue", vec![validated("name", vec![])]),
                ],
            }],
        })
    );
}

#[test]
fn missing_root_type_is_reported() {
    let schema = schema();
    let mutation = OperationDefinition { ty: OperationType::Mutation, ..query(vec![]) };
    assert_eq!(
        validator(&schema, None).validate(&mutation),
        Err(ValidationError::OperationNotFound("Mutation".to_string(), at(0, 0)))
    );
    assert_eq!(
        validator(&schema, None).validate(&query(vec![])),
        Ok(ValidatedOperation { name: Some("op".to_string()), typ: OperationType::Query, fields: vec![] })
    );
}

#[test]
fn unknown_fields_and_variables_are_reported() {
    let schema = schema();
    assert_eq!(
        validator(&schema, None).validate(&query(vec![select("dances", vec![])])),
        Err(ValidationError::InvalidField("dances".to_string(), "Query".to_string(), at(1, 1)))
    );
    assert_eq!(
        validator(&schema, None)
            .validate(&query(vec![select("concert", vec![select("price", vec![])])])),
        Err(ValidationError::InvalidField("price".to_string(), "Concert".to_string(), at(1, 1)))
    );
    assert_eq!(
        validator(&schema, None).validate(&query(vec![select(
            "concert",
            vec![select("title", vec![select("length", vec![])])]
        )])),
        Err(ValidationError::InvalidField("title".to_string(), "String".to_string(), at(1, 1)))
    );
    let with_variable = query(vec![Selection::Field(Field {
        arguments: vec![("id".to_string(), DocumentValue::Variable("id".to_string()))],
        ..field("concert", vec![])
    })]);
    assert_eq!(
        validator(&schema, None).validate(&with_variable),
        Err(ValidationError::VariableNotFound("id".to_string(), at(1, 1)))
    );
    let undeclared = OperationDefinition {
        variable_definitions: vec![variable("id", named("Int"))],
        ..query(vec![])
    };
    assert_eq!(
        validator(&schema, Some("{}")).validate(&undeclared),
        Err(ValidationError::VariableNotFound("id".to_string(), at(3, 4)))
    );
}

fn nested(depth: usize) -> Vec<Selection> {
    if depth == 0 {
        vec![select("title", vec![])]
    } else {
        vec![select("venue", vec![select("concerts", nested(depth - 1))])]
    }
}

#[test]
fn deep_selections_are_refused() {
    let schema = schema();
    let shallow = query(vec![select("concerts", vec![select("venue", vec![select("name", vec![])])])]);
    assert!(validator(&schema, None).validate(&shallow).is_ok());
    let at_limit = query(vec![select("concerts", nested(1))]);
    assert!(validator(&schema, None).validate(&at_limit).is_ok());
    let deep = query(vec![select("concerts", nested(2))]);
    assert_eq!(
        validator(&schema, None).validate(&deep),
        Err(ValidationError::SelectionSetTooDeep(at(1, 1)))
    );
    let of_type = |inner: Vec<Selection>| vec![select("ofType", inner)];
    let introspection = |inner: Vec<Selection>| query(vec![select("__schema", vec![select("types", inner)])]);
    let within = introspection(of_type(of_type(of_type(vec![select("name", vec![])]))));
    assert!(validator(&schema, None).validate(&within).is_ok());
    let beyond = introspection(of_type(of_type(of_type(of_type(vec![select("name", vec![])])))));
    assert_eq!(
        validator(&schema, None).validate(&beyond),
        Err(ValidationError::SelectionSetTooDeep(at(1, 1)))
    );
}

#[test]
fn fragments_are_spread_in_place() {
    let schema = schema();
    let fragments = || {
        vec![
            FragmentDefinition {
                name: "Basics".to_string(),
                selection_set: vec![
                    select("id", vec![]),
                    Selection::FragmentSpread { fragment_name: "Title".to_string(), pos: at(5, 5) },
                ],
            },
            FragmentDefinition { name: "Title".to_string(), selection_set: vec![select("title", vec![])] },
            FragmentDefinition {
                name: "Loop".to_string(),
                selection_set: vec![Selection::FragmentSpread {
                    fragment_name: "Loop".to_string(),
                    pos: at(6, 6),
                }],
            },
        ]
    };
    let spread = |name: &str| {
        query(vec![select(
            "concert",
            vec![
                Selection::FragmentSpread { fragment_name: name.to_string(), pos: at(2, 2) },
                Selection::InlineFragment {
                    selection_set: vec![select("venue", vec![select("id", vec![])])],
                    pos: at(2, 3),
                },
            ],
        )])
    };
    let validate = |operation: &OperationDefinition| {
        OperationValidator::new(&schema, None, None, fragments(), 3, 5).validate(operation)
    };
    assert_eq!(
        validate(&spread("Basics")).unwrap().fields,
        vec![validated(
            "concert",
            vec![
                validated("id", vec![]),
                validated("title", vec![]),
                validated("venue", vec![validated("id", vec![])]),
            ]
        )]
    );
    assert_eq!(
        validate(&spread("Missing")),
        Err(ValidationError::FragmentDefinitionNotFound("Missing".to_string(), at(2, 2)))
    );
    assert_eq!(
        validate(&spread("Loop")),
        Err(ValidationError::FragmentCycle("Loop".to_string(), at(6, 6)))
    );
}

#[test]
fn written_values_resolve_their_variables() {
    let variables = vec![("n".to_string(), ConstValue::Number(Number::PosInt(1)))];
    assert_eq!(
        resolve_value(
            &DocumentValue::List(vec![
                DocumentValue::Variable("n".to_string()),
                DocumentValue::Enum("ASC".to_string()),
                DocumentValue::Null,
                DocumentValue::Boolean(true),
                DocumentValue::String("s".to_string()),
            ]),
            &variables,
            at(0, 0)
        ),
        Ok(ConstValue::List(vec![
            ConstValue::Number(Number::PosInt(1)),
            enum_value("ASC"),
            ConstValue::Null,
            ConstValue::Boolean(true),
            ConstValue::String("s".to_string()),
        ]))
    );
    assert_eq!(
        resolve_value(&DocumentValue::Variable("m".to_string()), &variables, at(7, 8)),
        Err(ValidationError::VariableNotFound("m".to_string(), at(7, 8)))
    );
    let schema = schema();
    let walk = Walk {
        schema: &schema,
        variables: &variables,
        fragment_definitions: &vec![],
        normal_query_depth_limit: 0,
        introspection_query_depth_limit: 0,
    };
    assert_eq!(
        validate_selection_set(
            &walk,
            &schema.type_definitions[1],
            &vec![select("id", vec![])],
            1,
            Some(false),
            at(4, 4),
            0
        ),
        Err(ValidationError::SelectionSetTooDeep(at(4, 4)))
    );
}
