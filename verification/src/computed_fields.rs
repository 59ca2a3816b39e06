//! Fields whose values a script computes after the rows were read: which
//! results need it, what each script is called with, and where its answer goes.

use vstd::prelude::*;
use crate::access::{solve, solved, RequestContext};
use crate::error::{ExecutionErrorView, PostgresExecutionError};
use crate::field::{field_views, lemma_subfield_views, output_name_of, FieldView, ValidatedField};
use crate::json_text::{json_parsed, json_text, json_to_string, parse_json};
use crate::planner_access::{entity_wf, field_wf, subsystem_wf};
use crate::schema::{
    ComputedField, EntityRepresentation, EntityType, FieldType, OperationReturnType,
    PostgresField, PostgresGraphQLSubsystem, PostgresRelation, TypeIndex,
};
use crate::text::{
    concat3, last_index_of, lemma_last_index_of_is, lemma_last_index_of_none, str_eq,
};
use crate::value::{
    const_field_views, const_to_json, convertible, duplicate_json_members, json_get,
    json_member_views, json_views, lemma_json_array_view, lemma_json_object_view, lookup,
    names_of, to_json, ConstValue, ConstView, JsonValue, JsonView,
};

verus! {

/// The members of an object with `key` set to `value`: in the place of the
/// member that the object holds under that name, or at the end where there
/// is none.
pub open spec fn upsert(members: Seq<(Seq<char>, JsonView)>, key: Seq<char>, value: JsonView) -> Seq<
    (Seq<char>, JsonView),
> {
    match last_index_of(names_of(members), key) {
        Some(i) => members.update(i, (key, value)),
        None => members.push((key, value)),
    }
}

/// The members of an object with `key` set to `value` unless a member of
/// that name is there.
pub open spec fn insert_absent(members: Seq<(Seq<char>, JsonView)>, key: Seq<char>, value: JsonView) -> Seq<
    (Seq<char>, JsonView),
> {
    match last_index_of(names_of(members), key) {
        Some(_) => members,
        None => members.push((key, value)),
    }
}

/// Setting a key in an object without repeated keys repeats no key, and
/// the object then holds the value under the key.
pub proof fn lemma_upsert_keeps_distinct(
    members: Seq<(Seq<char>, JsonView)>,
    key: Seq<char>,
    value: JsonView,
)
    requires
        crate::text::distinct(names_of(members)),
    ensures
        crate::text::distinct(names_of(upsert(members, key, value))),
        crate::value::lookup(upsert(members, key, value), key) == Some(value),
{
    let names = names_of(members);
    let after = upsert(members, key, value);
    crate::text::lemma_last_index(names, key, names.len() as int);
    match last_index_of(names, key) {
        Some(i) => {
            assert(names_of(after) =~= names);
            lemma_last_index_of_is(names_of(after), key, i);
        },
        None => {
            assert(names_of(after) =~= names.push(key));
            lemma_last_index_of_is(names_of(after), key, names.len() as int);
        },
    }
}

/// Adding a key that is absent to an object without repeated keys repeats
/// no key.
pub proof fn lemma_insert_absent_keeps_distinct(
    members: Seq<(Seq<char>, JsonView)>,
    key: Seq<char>,
    value: JsonView,
)
    requires
        crate::text::distinct(names_of(members)),
    ensures
        crate::text::distinct(names_of(insert_absent(members, key, value))),
{
    let names = names_of(members);
    crate::text::lemma_last_index(names, key, names.len() as int);
    if last_index_of(names, key) is None {
        assert(names_of(insert_absent(members, key, value)) =~= names.push(key));
    }
}

/// The members of an object with the first `count` of `extra` added, each
/// unless a member of its name is there.
pub open spec fn promoted(
    members: Seq<(Seq<char>, JsonView)>,
    extra: Seq<(Seq<char>, JsonView)>,
    count: int,
) -> Seq<(Seq<char>, JsonView)>
    decreases count,
{
    if count <= 0 {
        members
    } else {
        insert_absent(promoted(members, extra, count - 1), extra[count - 1].0, extra[count - 1].1)
    }
}

/// The first `count` members of an object whose names are among `allowed`,
/// in their order.
pub open spec fn retained(
    members: Seq<(Seq<char>, JsonView)>,
    allowed: Seq<Seq<char>>,
    count: int,
) -> Seq<(Seq<char>, JsonView)>
    decreases count,
{
    if count <= 0 {
        Seq::empty()
    } else if allowed.contains(members[count - 1].0) {
        retained(members, allowed, count - 1).push(members[count - 1])
    } else {
        retained(members, allowed, count - 1)
    }
}

/// The position of the member that an object holds under `key`: the last
/// of that name.
pub fn json_position(members: &Vec<(String, JsonValue)>, key: &str) -> (r: Option<usize>)
    ensures
        match r {
            Some(i) => last_index_of(names_of(json_member_views(members@)), key@) == Some(i as int)
                && i < members@.len(),
            None => last_index_of(names_of(json_member_views(members@)), key@).is_none(),
        },
{
    let mut i: usize = members.len();
    while i > 0
        invariant
            i <= members.len(),
            forall|j: int| i <= j < members.len() ==> members@[j].0@ != key@,
        decreases i,
    {
        i -= 1;
        if str_eq(members[i].0.as_str(), key) {
            proof {
                lemma_last_index_of_is(names_of(json_member_views(members@)), key@, i as int);
            }
            return Some(i);
        }
    }
    proof {
        lemma_last_index_of_none(names_of(json_member_views(members@)), key@);
    }
    None
}

/// Sets `key` to `value` in an object.
pub fn json_upsert(members: &mut Vec<(String, JsonValue)>, key: &str, value: JsonValue)
    ensures
        json_member_views(final(members)@) == upsert(json_member_views(old(members)@), key@, value@),
{
    match json_position(members, key) {
        Some(i) => {
            members[i] = (key.to_owned(), value);
            assert(json_member_views(members@) =~= json_member_views(old(members)@).update(
                i as int,
                (key@, value@),
            ));
        },
        None => {
            members.push((key.to_owned(), value));
            assert(json_member_views(members@) =~= json_member_views(old(members)@).push(
                (key@, value@),
            ));
        },
    }
}

/// Sets `key` to `value` in an object unless a member of that name is there.
pub fn json_insert_absent(members: &mut Vec<(String, JsonValue)>, key: &str, value: JsonValue)
    ensures
        json_member_views(final(members)@) == insert_absent(
            json_member_views(old(members)@),
            key@,
            value@,
        ),
{
    match json_position(members, key) {
        Some(_) => {},
        None => {
            members.push((key.to_owned(), value));
            assert(json_member_views(members@) =~= json_member_views(old(members)@).push(
                (key@, value@),
            ));
        },
    }
}

/// What a return type or a field type is made of: an entity, perhaps
/// missing, or a list.
pub enum Shape {
    Plain(usize),
    Optional(Box<Shape>),
    List(Box<Shape>),
}

/// The shape of a return type.
pub open spec fn return_shape(t: OperationReturnType) -> Shape
    decreases t,
{
    match t {
        OperationReturnType::Plain { entity_id, .. } => Shape::Plain(entity_id),
        OperationReturnType::Optional(inner) => Shape::Optional(Box::new(return_shape(*inner))),
        OperationReturnType::List(inner) => Shape::List(Box::new(return_shape(*inner))),
    }
}

/// The shape of the values of a field whose type ends in an entity; nothing
/// for a field whose type ends in a primitive.
pub open spec fn field_shape(t: FieldType) -> Option<Shape>
    decreases t,
{
    match t {
        FieldType::Plain(TypeIndex::Composite { entity_id, .. }) => Some(Shape::Plain(entity_id)),
        FieldType::Plain(TypeIndex::Primitive(_)) => None,
        FieldType::Optional(inner) => match field_shape(*inner) {
            Some(s) => Some(Shape::Optional(Box::new(s))),
            None => None,
        },
        FieldType::List(inner) => match field_shape(*inner) {
            Some(s) => Some(Shape::List(Box::new(s))),
            None => None,
        },
    }
}

/// How deep a shape is nested.
pub open spec fn shape_depth(s: Shape) -> nat
    decreases s,
{
    match s {
        Shape::Plain(_) => 0,
        Shape::Optional(inner) => 1 + shape_depth(*inner),
        Shape::List(inner) => 1 + shape_depth(*inner),
    }
}

/// The entity that a shape ends in.
pub open spec fn shape_entity(s: Shape) -> usize
    decreases s,
{
    match s {
        Shape::Plain(e) => e,
        Shape::Optional(inner) => shape_entity(*inner),
        Shape::List(inner) => shape_entity(*inner),
    }
}

/// The entity of a return type is the entity of its shape.
pub proof fn lemma_shape_entity(t: OperationReturnType)
    ensures
        shape_entity(return_shape(t)) == crate::schema::return_entity_id(t),
    decreases t,
{
    match t {
        OperationReturnType::Plain { .. } => {},
        OperationReturnType::Optional(inner) => lemma_shape_entity(*inner),
        OperationReturnType::List(inner) => lemma_shape_entity(*inner),
    }
}

/// The return type of the values of a field whose type ends in an entity.
pub fn field_operation_return_type(field_type: &FieldType) -> (r: Option<OperationReturnType>)
    ensures
        match r {
            Some(t) => field_shape(*field_type) == Some(return_shape(t)),
            None => field_shape(*field_type).is_none(),
        },
    decreases field_type,
{
    match field_type {
        FieldType::Plain(inner) => match inner {
            TypeIndex::Composite { entity_id, composite_name } => Some(
                OperationReturnType::Plain {
                    entity_id: *entity_id,
                    composite_name: composite_name.clone(),
                },
            ),
            TypeIndex::Primitive(_) => None,
        },
        FieldType::Optional(inner) => match field_operation_return_type(inner) {
            Some(t) => Some(OperationReturnType::Optional(Box::new(t))),
            None => None,
        },
        FieldType::List(inner) => match field_operation_return_type(inner) {
            Some(t) => Some(OperationReturnType::List(Box::new(t))),
            None => None,
        },
    }
}

/// Whether the values of a field type end in an existing entity.
pub open spec fn field_type_wf(s: PostgresGraphQLSubsystem, t: FieldType) -> bool {
    field_shape(t) is Some ==> shape_entity(field_shape(t).unwrap()) < s.entity_types@.len()
}

/// Whether the model is fit for computing fields: it is consistent, the
/// values of every field end in an entity that exists, and every computed
/// field names a script that exists.
pub open spec fn computed_wf(s: PostgresGraphQLSubsystem) -> bool {
    &&& subsystem_wf(s)
    &&& forall|e: int, f: int|
        #![trigger s.entity_types@[e].fields@[f]]
        0 <= e < s.entity_types@.len() && 0 <= f < s.entity_types@[e].fields@.len() ==> {
            &&& field_type_wf(s, s.entity_types@[e].fields@[f].typ)
            &&& (s.entity_types@[e].fields@[f].relation matches PostgresRelation::Computed(c)
                ==> c.script_id < s.computed_scripts@.len())
        }
}

/// Whether a selection on an entity asks for anything that the database did
/// not compute: a computed field, an embedded value with a selection of its
/// own, a relation whose own selection does, or any field of an entity
/// stored as JSON.
pub open spec fn needs_processing(s: PostgresGraphQLSubsystem, entity: EntityType, selection: Seq<FieldView>) -> bool
    decreases selection, 1nat,
{
    (entity.representation == EntityRepresentation::Json && selection.len() > 0) || exists|i: int|
        0 <= i < selection.len() && field_needs_processing(s, entity, #[trigger] selection[i])
}

/// Whether one selected field asks for anything that the database did not compute.
pub open spec fn field_needs_processing(s: PostgresGraphQLSubsystem, entity: EntityType, field: FieldView) -> bool
    decreases field.subfields, 3nat,
{
    match entity.spec_field(field.name) {
        Some(entity_field) => match entity_field.relation {
            PostgresRelation::Computed(_) => true,
            PostgresRelation::Embedded => field.subfields.len() > 0,
            PostgresRelation::ManyToOne { .. } => nested_needs_processing(s, entity_field, field),
            PostgresRelation::OneToMany { .. } => nested_needs_processing(s, entity_field, field),
            _ => false,
        },
        None => false,
    }
}

/// Whether the selection of a relation asks for anything that the database
/// did not compute.
pub open spec fn nested_needs_processing(
    s: PostgresGraphQLSubsystem,
    entity_field: PostgresField,
    field: FieldView,
) -> bool
    decreases field.subfields, 2nat,
{
    match field_shape(entity_field.typ) {
        Some(shape) => needs_processing(
            s,
            s.entity_types@[shape_entity(shape) as int],
            field.subfields,
        ),
        None => false,
    }
}

/// Tests whether a selection on an entity needs anything computed after the
/// rows were read.
pub fn needs_postprocess(
    entity_type: &EntityType,
    selection: &Vec<ValidatedField>,
    subsystem: &PostgresGraphQLSubsystem,
) -> (r: bool)
    requires
        computed_wf(*subsystem),
        exists|e: int| 0 <= e < subsystem.entity_types@.len() && subsystem.entity_types@[e] == *entity_type,
    ensures
        r == needs_processing(*subsystem, *entity_type, field_views(selection@)),
    decreases field_views(selection@),
{
    if entity_type.representation.is_json_like() && selection.len() > 0 {
        return true;
    }
    let ghost e = choose|e: int|
        0 <= e < subsystem.entity_types@.len() && subsystem.entity_types@[e] == *entity_type;
    let mut i: usize = 0;
    while i < selection.len()
        invariant
            i <= selection.len(),
            computed_wf(*subsystem),
            0 <= e < subsystem.entity_types@.len() && subsystem.entity_types@[e] == *entity_type,
            forall|j: int|
                0 <= j < i ==> !field_needs_processing(
                    *subsystem,
                    *entity_type,
                    #[trigger] field_views(selection@)[j],
                ),
        decreases selection.len() - i,
    {
        let selection_field = &selection[i];
        let ghost view = field_views(selection@)[i as int];
        proof {
            assert(view == selection_field@);
            lemma_subfield_views(*selection_field);
            assert(decreases_to!(field_views(selection@) => field_views(selection@)[i as int]));
            assert(decreases_to!(view => view.subfields));
        }
        match entity_type.field_by_name(selection_field.name.as_str()) {
            Some(entity_field) => {
                proof {
                    let f = choose|f: int|
                        0 <= f < entity_type.fields@.len() && entity_type.fields@[f]
                            == *entity_field;
                    assert(subsystem.entity_types@[e].fields@[f] == *entity_field);
                }
                match &entity_field.relation {
                    PostgresRelation::Computed(_) => {
                        return true;
                    },
                    PostgresRelation::Embedded => {
                        if selection_field.subfields.len() > 0 {
                            return true;
                        }
                    },
                    PostgresRelation::ManyToOne { .. } | PostgresRelation::OneToMany { .. } => {
                        match field_operation_return_type(&entity_field.typ) {
                            Some(nested_return_type) => {
                                proof {
                                    lemma_shape_entity(nested_return_type);
                                }
                                let nested_entity =
                                    &subsystem.entity_types[nested_return_type.entity_id()];
                                if needs_postprocess(
                                    nested_entity,
                                    &selection_field.subfields,
                                    subsystem,
                                ) {
                                    return true;
                                }
                            },
                            None => {},
                        }
                    },
                    _ => {},
                }
            },
            None => {},
        }
        i += 1;
    }
    false
}

/// The message for an argument that cannot be written as JSON.
pub open spec fn unconvertible_argument(key: Seq<char>) -> Seq<char> {
    "Failed to convert argument '"@ + key + "' to JSON"@
}

/// The members of the JSON object of the first `count` arguments: each
/// argument under its name, a later one in the place of an earlier one of the
/// same name. An argument that holds a byte string is an error.
pub open spec fn args_members(arguments: Seq<(Seq<char>, ConstView)>, count: int) -> Result<
    Seq<(Seq<char>, JsonView)>,
    ExecutionErrorView,
>
    decreases count,
{
    if count <= 0 {
        Ok(Seq::empty())
    } else {
        match args_members(arguments, count - 1) {
            Err(e) => Err(e),
            Ok(members) => if convertible(arguments[count - 1].1) {
                Ok(upsert(members, arguments[count - 1].0, to_json(arguments[count - 1].1)))
            } else {
                Err(ExecutionErrorView::Generic(unconvertible_argument(arguments[count - 1].0)))
            },
        }
    }
}

/// The JSON object of the arguments of a field.
pub open spec fn args_json(arguments: Seq<(Seq<char>, ConstView)>) -> Result<
    JsonView,
    ExecutionErrorView,
> {
    match args_members(arguments, arguments.len() as int) {
        Ok(members) => Ok(JsonView::Object(members)),
        Err(e) => Err(e),
    }
}

/// The view of the outcome of a function that gives a JSON value or fails.
pub open spec fn json_result_view(r: Result<JsonValue, PostgresExecutionError>) -> Result<
    JsonView,
    ExecutionErrorView,
> {
    match r {
        Ok(v) => Ok(v@),
        Err(e) => Err(e@),
    }
}

/// Writes the arguments of a field as a JSON object.
pub fn args_to_json(arguments: &Vec<(String, ConstValue)>) -> (r: Result<
    JsonValue,
    PostgresExecutionError,
>)
    ensures
        json_result_view(r) == args_json(const_field_views(arguments@)),
{
    let mut map: Vec<(String, JsonValue)> = Vec::new();
    let mut i: usize = 0;
    proof {
        assert(json_member_views(map@) =~= Seq::empty());
    }
    while i < arguments.len()
        invariant
            i <= arguments.len(),
            args_members(const_field_views(arguments@), i as int) == Ok::<
                Seq<(Seq<char>, JsonView)>,
                ExecutionErrorView,
            >(json_member_views(map@)),
        decreases arguments.len() - i,
    {
        match const_to_json(&arguments[i].1) {
            Some(json_value) => {
                json_upsert(&mut map, arguments[i].0.as_str(), json_value);
            },
            None => {
                proof {
                    lemma_args_error_stays(const_field_views(arguments@), i + 1);
                }
                return Err(
                    PostgresExecutionError::Generic(
                        concat3("Failed to convert argument '", arguments[i].0.as_str(), "' to JSON"),
                    ),
                );
            },
        }
        i += 1;
    }
    proof {
        lemma_json_object_view(map);
    }
    Ok(JsonValue::Object(map))
}

/// An error among the first arguments is the error of all of them.
pub proof fn lemma_args_error_stays(arguments: Seq<(Seq<char>, ConstView)>, count: int)
    requires
        0 <= count <= arguments.len(),
        args_members(arguments, count) is Err,
    ensures
        args_members(arguments, arguments.len() as int) == args_members(arguments, count),
    decreases arguments.len() - count,
{
    if count < arguments.len() {
        lemma_args_error_stays(arguments, count + 1);
    }
}

/// The description of one selected field that a script is given: its name,
/// the name it has in the response, its alias where it has one, its
/// arguments where it has any, and its own selection where it has one.
pub open spec fn selection_field_json(field: FieldView) -> Result<JsonView, ExecutionErrorView>
    decreases field.subfields, 2nat,
{
    let named = seq![
        ("name"@, JsonView::String(field.name)),
        ("outputName"@, JsonView::String(output_name_of(field))),
    ];
    let aliased = match field.alias {
        Some(a) => named.push(("alias"@, JsonView::String(a))),
        None => named,
    };
    let with_arguments = if field.arguments.len() > 0 {
        match args_json(field.arguments) {
            Ok(j) => Ok(aliased.push(("arguments"@, j))),
            Err(e) => Err(e),
        }
    } else {
        Ok(aliased)
    };
    match with_arguments {
        Err(e) => Err(e),
        Ok(members) => if field.subfields.len() > 0 {
            match selection_json(field.subfields) {
                Ok(j) => Ok(JsonView::Object(members.push(("fields"@, j)))),
                Err(e) => Err(e),
            }
        } else {
            Ok(JsonView::Object(members))
        },
    }
}

/// The descriptions of the fields of a selection, in order.
pub open spec fn selection_outcomes(fields: Seq<FieldView>) -> Seq<Result<JsonView, ExecutionErrorView>>
    decreases fields, 0nat,
{
    Seq::new(
        fields.len(),
        |i: int|
            if 0 <= i < fields.len() {
                selection_field_json(fields[i])
            } else {
                Ok(JsonView::Null)
            },
    )
}

/// The description of a selection that a script is given: the array of the
/// descriptions of its fields.
pub open spec fn selection_json(fields: Seq<FieldView>) -> Result<JsonView, ExecutionErrorView>
    decreases fields, 1nat,
{
    match crate::results::collected(selection_outcomes(fields)) {
        Ok(items) => Ok(JsonView::Array(items)),
        Err(e) => Err(e),
    }
}

/// Describes a selection for a script.
pub fn selection_to_json(selection: &Vec<ValidatedField>) -> (r: Result<
    JsonValue,
    PostgresExecutionError,
>)
    ensures
        json_result_view(r) == selection_json(field_views(selection@)),
    decreases field_views(selection@), 1nat,
{
    let ghost outcomes = selection_outcomes(field_views(selection@));
    let mut fields: Vec<JsonValue> = Vec::new();
    let mut i: usize = 0;
    proof {
        assert(outcomes.take(0) =~= Seq::empty());
        assert(json_views(fields@) =~= Seq::empty());
    }
    while i < selection.len()
        invariant
            i <= selection.len(),
            outcomes == selection_outcomes(field_views(selection@)),
            crate::results::collected(outcomes.take(i as int)) == Ok::<
                Seq<JsonView>,
                ExecutionErrorView,
            >(json_views(fields@)),
        decreases selection.len() - i,
    {
        let ghost before = fields@;
        proof {
            assert(field_views(selection@)[i as int] == selection@[i as int]@);
            assert(decreases_to!(field_views(selection@) => field_views(selection@)[i as int]));
            assert(decreases_to!(selection@[i as int]@ => selection@[i as int]@.subfields));
            crate::results::lemma_collected_step(outcomes, i as int);
        }
        match selection_field_to_json(&selection[i]) {
            Ok(j) => {
                fields.push(j);
                proof {
                    assert(json_views(fields@) =~= json_views(before).push(j@));
                }
            },
            Err(e) => {
                proof {
                    crate::results::lemma_collected_error_stays(outcomes, i + 1);
                }
                return Err(e);
            },
        }
        i += 1;
    }
    proof {
        assert(outcomes.take(i as int) =~= outcomes);
        lemma_json_array_view(fields);
    }
    Ok(JsonValue::Array(fields))
}

/// Describes one selected field for a script.
pub fn selection_field_to_json(field: &ValidatedField) -> (r: Result<
    JsonValue,
    PostgresExecutionError,
>)
    ensures
        json_result_view(r) == selection_field_json(field@),
    decreases field@.subfields, 2nat,
{
    let mut map: Vec<(String, JsonValue)> = Vec::new();
    map.push(("name".to_owned(), JsonValue::String(field.name.clone())));
    map.push(("outputName".to_owned(), JsonValue::String(field.output_name())));
    proof {
        assert(json_member_views(map@) =~= seq![
            ("name"@, JsonView::String(field@.name)),
            ("outputName"@, JsonView::String(output_name_of(field@))),
        ]);
    }
    match &field.alias {
        Some(alias) => {
            let ghost before = map@;
            map.push(("alias".to_owned(), JsonValue::String(alias.clone())));
            proof {
                assert(json_member_views(map@) =~= json_member_views(before).push(
                    ("alias"@, JsonView::String(alias@)),
                ));
            }
        },
        None => {},
    }
    if field.arguments.len() > 0 {
        let ghost before = map@;
        match args_to_json(&field.arguments) {
            Ok(j) => {
                map.push(("arguments".to_owned(), j));
                proof {
                    assert(json_member_views(map@) =~= json_member_views(before).push(
                        ("arguments"@, j@),
                    ));
                }
            },
            Err(e) => {
                return Err(e);
            },
        }
    }
    proof {
        lemma_subfield_views(*field);
    }
    if field.subfields.len() > 0 {
        let ghost before = map@;
        match selection_to_json(&field.subfields) {
            Ok(j) => {
                map.push(("fields".to_owned(), j));
                proof {
                    assert(json_member_views(map@) =~= json_member_views(before).push(("fields"@, j@)));
                }
            },
            Err(e) => {
                return Err(e);
            },
        }
    }
    proof {
        lemma_json_object_view(map);
    }
    Ok(JsonValue::Object(map))
}

/// An argument of a call of a script.
#[derive(Debug, PartialEq, Eq)]
pub enum Arg {
    /// A value, handed over as JSON.
    Serde(JsonValue),
    /// An object that the runtime provides, by its name.
    Shim(String),
}

/// The view of an [`Arg`].
pub enum ArgView {
    Serde(JsonView),
    Shim(Seq<char>),
}

impl View for Arg {
    type V = ArgView;

    open spec fn view(&self) -> ArgView {
        match self {
            Arg::Serde(v) => ArgView::Serde(v@),
            Arg::Shim(n) => ArgView::Shim(n@),
        }
    }
}

/// The views of a list of arguments.
pub open spec fn arg_views(args: Seq<Arg>) -> Seq<ArgView> {
    Seq::new(args.len(), |i: int| args[i]@)
}

/// A call of a script that computes a field, to be made outside.
#[derive(Debug, PartialEq, Eq)]
pub struct ComputedCall {
    pub script_path: String,
    pub script_definition: Vec<u8>,
    pub function_name: String,
    /// The row that the field belongs to, the arguments of the field, its
    /// selection, and the client that the script may query with.
    pub arguments: Vec<Arg>,
    /// The selected field, for reporting a failure of the call.
    pub field_name: String,
}

/// The view of a [`ComputedCall`].
pub struct ComputedCallView {
    pub script_path: Seq<char>,
    pub script_definition: Seq<u8>,
    pub function_name: Seq<char>,
    pub arguments: Seq<ArgView>,
    pub field_name: Seq<char>,
}

impl View for ComputedCall {
    type V = ComputedCallView;

    open spec fn view(&self) -> ComputedCallView {
        ComputedCallView {
            script_path: self.script_path@,
            script_definition: self.script_definition@,
            function_name: self.function_name@,
            arguments: arg_views(self.arguments@),
            field_name: self.field_name@,
        }
    }
}

/// How far the computing of the fields of a result has come, in terms of
/// views: it is done and has used so many answers of scripts, or it needs
/// the answer of one more call, or it has failed.
pub enum Progress<T> {
    Done { value: T, used: nat },
    Call(ComputedCallView),
    Failed(ExecutionErrorView),
}

/// How far the computing of the fields of a result has come.
pub enum Processing<T> {
    /// It is done; the number says how many answers of scripts were used.
    Done(T, usize),
    /// It needs the answer of this call, which is to be added to the answers.
    Call(ComputedCall),
    Failed(PostgresExecutionError),
}

/// The view of the progress on a JSON value.
pub open spec fn value_progress(p: Processing<JsonValue>) -> Progress<JsonView> {
    match p {
        Processing::Done(v, used) => Progress::Done { value: v@, used: used as nat },
        Processing::Call(c) => Progress::Call(c@),
        Processing::Failed(e) => Progress::Failed(e@),
    }
}

/// The message for a computed field of a subsystem that cannot run scripts.
pub open spec fn unsupported_subsystem(subsystem: Seq<char>) -> Seq<char> {
    "Unsupported computed field subsystem '"@ + subsystem + "'"@
}

/// The row that a script is given: the members of the object with the values
/// that the database selected in the place of the computed field set beside
/// them, each unless a member of its name is there.
pub open spec fn parent_snapshot(members: Seq<(Seq<char>, JsonView)>, output_name: Seq<char>) -> Seq<
    (Seq<char>, JsonView),
> {
    match lookup(members, output_name) {
        Some(JsonView::Object(dependencies)) => promoted(
            members,
            dependencies,
            dependencies.len() as int,
        ),
        _ => members,
    }
}

/// The call that computes a field of a row: of the function of the field in
/// its script, with the row, the arguments of the field, its selection, and
/// the client named `Exograph`. Only the subsystem `deno` runs scripts.
pub open spec fn computed_call(
    s: PostgresGraphQLSubsystem,
    computed: ComputedField,
    snapshot: Seq<(Seq<char>, JsonView)>,
    field: FieldView,
) -> Result<ComputedCallView, ExecutionErrorView> {
    if computed.subsystem@ != "deno"@ {
        Err(ExecutionErrorView::Generic(unsupported_subsystem(computed.subsystem@)))
    } else {
        match args_json(field.arguments) {
            Err(e) => Err(e),
            Ok(args) => match selection_json(field.subfields) {
                Err(e) => Err(e),
                Ok(selection) => Ok(
                    ComputedCallView {
                        script_path: s.computed_scripts@[computed.script_id as int].path@,
                        script_definition: s.computed_scripts@[computed.script_id as int].definition@,
                        function_name: computed.function_name@,
                        arguments: seq![
                            ArgView::Serde(JsonView::Object(snapshot)),
                            ArgView::Serde(args),
                            ArgView::Serde(selection),
                            ArgView::Shim("Exograph"@),
                        ],
                        field_name: field.name,
                    },
                ),
            },
        }
    }
}

/// The value of a computed field of a row, given the answers of the scripts
/// called so far: the next answer that is not used yet, or the call to make
/// where every answer is used.
pub open spec fn computed_step(
    s: PostgresGraphQLSubsystem,
    computed: ComputedField,
    snapshot: Seq<(Seq<char>, JsonView)>,
    field: FieldView,
    results: Seq<JsonView>,
    used: nat,
) -> Progress<JsonView> {
    match computed_call(s, computed, snapshot, field) {
        Err(e) => Progress::Failed(e),
        Ok(call) => if used < results.len() {
            Progress::Done { value: results[used as int], used: used + 1 }
        } else {
            Progress::Call(call)
        },
    }
}

/// Whether a field may be read at all: its read rule does not reduce to `False`.
pub open spec fn field_authorized(
    s: PostgresGraphQLSubsystem,
    context: Seq<(Seq<char>, ConstView)>,
    field: PostgresField,
) -> bool {
    !(solved(s.database_access_expressions@[field.access.read as int], context) is False)
}

/// Tests whether a field may be read at all.
pub fn is_field_authorized(
    field: &PostgresField,
    subsystem: &PostgresGraphQLSubsystem,
    request_context: &RequestContext,
) -> (r: bool)
    requires
        field_wf(*subsystem, *field),
    ensures
        r == field_authorized(*subsystem, request_context@, *field),
{
    !solve(&subsystem.database_access_expressions[field.access.read], request_context).is_false()
}

/// A result with its computed fields filled in, as far as the answers of
/// the scripts reach.
///
/// A value of an entity is processed as an object; a value that may be
/// missing is left alone where it is `null`; a list is processed item by
/// item, in order.
pub open spec fn processed_value(
    s: PostgresGraphQLSubsystem,
    context: Seq<(Seq<char>, ConstView)>,
    value: JsonView,
    shape: Shape,
    selection: Seq<FieldView>,
    results: Seq<JsonView>,
    used: nat,
) -> Progress<JsonView>
    decreases selection, shape_depth(shape) + 1, 0nat,
{
    match shape {
        Shape::Plain(entity_id) => processed_entity(
            s,
            context,
            value,
            s.entity_types@[entity_id as int],
            selection,
            results,
            used,
        ),
        Shape::Optional(inner) => if value is Null {
            Progress::Done { value, used }
        } else {
            processed_value(s, context, value, *inner, selection, results, used)
        },
        Shape::List(inner) => match value {
            JsonView::Array(items) => processed_items(
                s,
                context,
                items,
                *inner,
                selection,
                results,
                used,
                0,
                Seq::empty(),
            ),
            JsonView::Null => Progress::Done { value, used },
            _ => Progress::Failed(
                ExecutionErrorView::Generic("Expected array value for list return type"@),
            ),
        },
    }
}

/// The list of the processed items of an array from item `index` on, after
/// the items in `done`.
pub open spec fn processed_items(
    s: PostgresGraphQLSubsystem,
    context: Seq<(Seq<char>, ConstView)>,
    items: Seq<JsonView>,
    inner: Shape,
    selection: Seq<FieldView>,
    results: Seq<JsonView>,
    used: nat,
    index: int,
    done: Seq<JsonView>,
) -> Progress<JsonView>
    decreases selection, shape_depth(inner) + 1, 1 + items.len() - index,
{
    if index < 0 || index >= items.len() {
        Progress::Done { value: JsonView::Array(done), used }
    } else {
        match processed_value(s, context, items[index], inner, selection, results, used) {
            Progress::Done { value, used: next } => processed_items(
                s,
                context,
                items,
                inner,
                selection,
                results,
                next,
                index + 1,
                done.push(value),
            ),
            Progress::Call(c) => Progress::Call(c),
            Progress::Failed(e) => Progress::Failed(e),
        }
    }
}

/// A value of an entity with its computed fields filled in. Of an entity
/// stored as JSON only the members that were selected are kept.
pub open spec fn processed_entity(
    s: PostgresGraphQLSubsystem,
    context: Seq<(Seq<char>, ConstView)>,
    value: JsonView,
    entity: EntityType,
    selection: Seq<FieldView>,
    results: Seq<JsonView>,
    used: nat,
) -> Progress<JsonView>
    decreases selection, 0nat, selection.len() + 1,
{
    match value {
        JsonView::Object(members) => match processed_fields(
            s,
            context,
            entity,
            selection,
            0,
            members,
            Seq::empty(),
            results,
            used,
        ) {
            Progress::Done { value: (object, projected), used: next } => Progress::Done {
                value: JsonView::Object(
                    if entity.representation == EntityRepresentation::Json {
                        retained(object, projected, object.len() as int)
                    } else {
                        object
                    },
                ),
                used: next,
            },
            Progress::Call(c) => Progress::Call(c),
            Progress::Failed(e) => Progress::Failed(e),
        },
        JsonView::Null => Progress::Done { value, used },
        _ => Progress::Failed(
            ExecutionErrorView::Generic("Expected object when processing computed fields"@),
        ),
    }
}

/// The members of an object after the selected fields from `index` on were
/// seen to, together with the names that were selected.
///
/// A computed field that may be read gets the answer of its script in the
/// place of what the database selected for it; the answer is processed in
/// turn where the field has a selection of its own and its values are
/// entities. The value of any other field is processed where the field has a
/// selection, the object has the value, and the values of the field are
/// entities. A field that the entity does not have or that may not be read is
/// left as it is.
pub open spec fn processed_fields(
    s: PostgresGraphQLSubsystem,
    context: Seq<(Seq<char>, ConstView)>,
    entity: EntityType,
    selection: Seq<FieldView>,
    index: int,
    object: Seq<(Seq<char>, JsonView)>,
    projected: Seq<Seq<char>>,
    results: Seq<JsonView>,
    used: nat,
) -> Progress<(Seq<(Seq<char>, JsonView)>, Seq<Seq<char>>)>
    decreases selection, 0nat, selection.len() - index,
{
    if index < 0 || index >= selection.len() {
        Progress::Done { value: (object, projected), used }
    } else {
        let field = selection[index];
        if field.name == "__typename"@ {
            processed_fields(
                s,
                context,
                entity,
                selection,
                index + 1,
                object,
                projected.push(field.name),
                results,
                used,
            )
        } else {
            let output_name = output_name_of(field);
            let selected = projected.push(output_name);
            match entity.spec_field(field.name) {
                None => processed_fields(
                    s,
                    context,
                    entity,
                    selection,
                    index + 1,
                    object,
                    selected,
                    results,
                    used,
                ),
                Some(entity_field) => if !field_authorized(s, context, entity_field) {
                    processed_fields(
                        s,
                        context,
                        entity,
                        selection,
                        index + 1,
                        object,
                        selected,
                        results,
                        used,
                    )
                } else {
                    let nested = match entity_field.relation {
                        PostgresRelation::Computed(computed) => match computed_step(
                            s,
                            computed,
                            parent_snapshot(object, output_name),
                            field,
                            results,
                            used,
                        ) {
                            Progress::Done { value, used: next } => if field.subfields.len() > 0
                                && field_shape(entity_field.typ) is Some {
                                match processed_value(
                                    s,
                                    context,
                                    value,
                                    field_shape(entity_field.typ).unwrap(),
                                    field.subfields,
                                    results,
                                    next,
                                ) {
                                    Progress::Done { value: v, used: u } => Progress::Done {
                                        value: Some(v),
                                        used: u,
                                    },
                                    Progress::Call(c) => Progress::Call(c),
                                    Progress::Failed(e) => Progress::Failed(e),
                                }
                            } else {
                                Progress::Done { value: Some(value), used: next }
                            },
                            Progress::Call(c) => Progress::Call(c),
                            Progress::Failed(e) => Progress::Failed(e),
                        },
                        _ => if field.subfields.len() > 0 && lookup(object, output_name) is Some
                            && field_shape(entity_field.typ) is Some {
                            match processed_value(
                                s,
                                context,
                                lookup(object, output_name).unwrap(),
                                field_shape(entity_field.typ).unwrap(),
                                field.subfields,
                                results,
                                used,
                            ) {
                                Progress::Done { value: v, used: u } => Progress::Done {
                                    value: Some(v),
                                    used: u,
                                },
                                Progress::Call(c) => Progress::Call(c),
                                Progress::Failed(e) => Progress::Failed(e),
                            }
                        } else {
                            Progress::Done { value: None, used }
                        },
                    };
                    match nested {
                        Progress::Done { value: Some(v), used: next } => processed_fields(
                            s,
                            context,
                            entity,
                            selection,
                            index + 1,
                            upsert(object, output_name, v),
                            selected,
                            results,
                            next,
                        ),
                        Progress::Done { value: None, used: next } => processed_fields(
                            s,
                            context,
                            entity,
                            selection,
                            index + 1,
                            object,
                            selected,
                            results,
                            next,
                        ),
                        Progress::Call(c) => Progress::Call(c),
                        Progress::Failed(e) => Progress::Failed(e),
                    }
                },
            }
        }
    }
}

/// The value of a computed field of a row: the next answer of a script that
/// is not used yet, or the call that is to be made for it.
pub fn execute_computed_field(
    computed: &ComputedField,
    parent_snapshot: Vec<(String, JsonValue)>,
    selection_field: &ValidatedField,
    subsystem: &PostgresGraphQLSubsystem,
    results: &Vec<JsonValue>,
    used: usize,
) -> (r: Processing<JsonValue>)
    requires
        computed.script_id < subsystem.computed_scripts@.len(),
    ensures
        value_progress(r) == computed_step(
            *subsystem,
            *computed,
            json_member_views(parent_snapshot@),
            selection_field@,
            json_views(results@),
            used as nat,
        ),
{
    if !str_eq(computed.subsystem.as_str(), "deno") {
        return Processing::Failed(
            PostgresExecutionError::Generic(
                concat3("Unsupported computed field subsystem '", computed.subsystem.as_str(), "'"),
            ),
        );
    }
    let script = &subsystem.computed_scripts[computed.script_id];
    let args_value = match args_to_json(&selection_field.arguments) {
        Ok(v) => v,
        Err(e) => {
            return Processing::Failed(e);
        },
    };
    proof {
        lemma_subfield_views(*selection_field);
    }
    let selection_value = match selection_to_json(&selection_field.subfields) {
        Ok(v) => v,
        Err(e) => {
            return Processing::Failed(e);
        },
    };
    if used < results.len() {
        return Processing::Done(results[used].duplicate(), used + 1);
    }
    // The script is called with the row, the arguments, the selection and the client
    let mut arg_sequence: Vec<Arg> = Vec::new();
    proof {
        lemma_json_object_view(parent_snapshot);
    }
    arg_sequence.push(Arg::Serde(JsonValue::Object(parent_snapshot)));
    arg_sequence.push(Arg::Serde(args_value));
    arg_sequence.push(Arg::Serde(selection_value));
    arg_sequence.push(Arg::Shim("Exograph".to_owned()));
    let call = ComputedCall {
        script_path: script.path.clone(),
        script_definition: crate::value::duplicate_bytes(&script.definition),
        function_name: computed.function_name.clone(),
        arguments: arg_sequence,
        field_name: selection_field.name.clone(),
    };
    proof {
        assert(call@.arguments =~= seq![
            ArgView::Serde(JsonView::Object(json_member_views(parent_snapshot@))),
            ArgView::Serde(args_value@),
            ArgView::Serde(selection_value@),
            ArgView::Shim("Exograph"@),
        ]);
    }
    Processing::Call(call)
}

/// The row that a script is given for a computed field.
fn snapshot_for(members: &Vec<(String, JsonValue)>, output_name: &str) -> (r: Vec<(String, JsonValue)>)
    ensures
        json_member_views(r@) == parent_snapshot(json_member_views(members@), output_name@),
{
    let mut snapshot = duplicate_json_members(members);
    match json_get(members, output_name) {
        Some(JsonValue::Object(dependency_values)) => {
            proof {
                lemma_json_object_view(*dependency_values);
            }
            let mut k: usize = 0;
            while k < dependency_values.len()
                invariant
                    k <= dependency_values.len(),
                    json_member_views(snapshot@) == promoted(
                        json_member_views(members@),
                        json_member_views(dependency_values@),
                        k as int,
                    ),
                decreases dependency_values.len() - k,
            {
                json_insert_absent(
                    &mut snapshot,
                    dependency_values[k].0.as_str(),
                    dependency_values[k].1.duplicate(),
                );
                k += 1;
            }
        },
        _ => {},
    }
    snapshot
}

/// Keeps the members whose names are among `allowed`.
fn retain_keys(members: Vec<(String, JsonValue)>, allowed: &Vec<String>) -> (r: Vec<(String, JsonValue)>)
    ensures
        json_member_views(r@) == retained(
            json_member_views(members@),
            crate::select::text_views(allowed@),
            members@.len() as int,
        ),
{
    let mut out: Vec<(String, JsonValue)> = Vec::new();
    let mut i: usize = 0;
    proof {
        assert(json_member_views(out@) =~= Seq::empty());
    }
    while i < members.len()
        invariant
            i <= members.len(),
            json_member_views(out@) == retained(
                json_member_views(members@),
                crate::select::text_views(allowed@),
                i as int,
            ),
        decreases members.len() - i,
    {
        let ghost before = out@;
        if crate::planner_access::contains_name(allowed, members[i].0.as_str()) {
            out.push((members[i].0.clone(), members[i].1.duplicate()));
            proof {
                assert(json_member_views(out@) =~= json_member_views(before).push(
                    json_member_views(members@)[i as int],
                ));
            }
        }
        i += 1;
    }
    out
}

/// Fills in the computed fields of a result of the shape of `return_type`,
/// as far as the answers in `results` reach, counting from answer `used`.
pub fn process_value_from(
    value: &JsonValue,
    return_type: &OperationReturnType,
    selection: &Vec<ValidatedField>,
    subsystem: &PostgresGraphQLSubsystem,
    request_context: &RequestContext,
    results: &Vec<JsonValue>,
    used: usize,
) -> (r: Processing<JsonValue>)
    requires
        computed_wf(*subsystem),
        crate::schema::return_entity_id(*return_type) < subsystem.entity_types@.len(),
    ensures
        value_progress(r) == processed_value(
            *subsystem,
            request_context@,
            value@,
            return_shape(*return_type),
            field_views(selection@),
            json_views(results@),
            used as nat,
        ),
    decreases field_views(selection@), shape_depth(return_shape(*return_type)) + 1, 0nat,
{
    match return_type {
        OperationReturnType::Plain { entity_id, .. } => process_entity(
            value,
            *entity_id,
            selection,
            subsystem,
            request_context,
            results,
            used,
        ),
        OperationReturnType::Optional(inner) => {
            match value {
                JsonValue::Null => Processing::Done(JsonValue::Null, used),
                _ => process_value_from(
                    value,
                    inner,
                    selection,
                    subsystem,
                    request_context,
                    results,
                    used,
                ),
            }
        },
        OperationReturnType::List(inner) => {
            match value {
                JsonValue::Array(items) => {
                    let ghost target = processed_value(
                        *subsystem,
                        request_context@,
                        value@,
                        return_shape(*return_type),
                        field_views(selection@),
                        json_views(results@),
                        used as nat,
                    );
                    proof {
                        lemma_json_array_view(*items);
                    }
                    let mut done: Vec<JsonValue> = Vec::new();
                    let mut current = used;
                    let mut i: usize = 0;
                    proof {
                        assert(json_views(done@) =~= Seq::empty());
                    }
                    while i < items.len()
                        invariant
                            i <= items.len(),
                            computed_wf(*subsystem),
                            crate::schema::return_entity_id(**inner) < subsystem.entity_types@.len(),
                            *return_type == OperationReturnType::List(*inner),
                            target == processed_value(
                                *subsystem,
                                request_context@,
                                value@,
                                return_shape(*return_type),
                                field_views(selection@),
                                json_views(results@),
                                used as nat,
                            ),
                            processed_items(
                                *subsystem,
                                request_context@,
                                json_views(items@),
                                return_shape(**inner),
                                field_views(selection@),
                                json_views(results@),
                                current as nat,
                                i as int,
                                json_views(done@),
                            ) == target,
                        decreases items.len() - i,
                    {
                        let ghost before = done@;
                        match process_value_from(
                            &items[i],
                            inner,
                            selection,
                            subsystem,
                            request_context,
                            results,
                            current,
                        ) {
                            Processing::Done(v, next) => {
                                done.push(v);
                                current = next;
                                proof {
                                    assert(json_views(done@) =~= json_views(before).push(v@));
                                }
                            },
                            Processing::Call(c) => {
                                return Processing::Call(c);
                            },
                            Processing::Failed(e) => {
                                return Processing::Failed(e);
                            },
                        }
                        i += 1;
                    }
                    proof {
                        lemma_json_array_view(done);
                    }
                    Processing::Done(JsonValue::Array(done), current)
                },
                JsonValue::Null => Processing::Done(JsonValue::Null, used),
                _ => Processing::Failed(
                    PostgresExecutionError::generic("Expected array value for list return type"),
                ),
            }
        },
    }
}

/// Fills in the computed fields of a value of an entity, as far as the
/// answers in `results` reach, counting from answer `used`.
pub fn process_entity(
    value: &JsonValue,
    entity_id: usize,
    selection: &Vec<ValidatedField>,
    subsystem: &PostgresGraphQLSubsystem,
    request_context: &RequestContext,
    results: &Vec<JsonValue>,
    used: usize,
) -> (r: Processing<JsonValue>)
    requires
        computed_wf(*subsystem),
        entity_id < subsystem.entity_types@.len(),
    ensures
        value_progress(r) == processed_entity(
            *subsystem,
            request_context@,
            value@,
            subsystem.entity_types@[entity_id as int],
            field_views(selection@),
            json_views(results@),
            used as nat,
        ),
    decreases field_views(selection@), 0nat, 0nat,
{
    let entity_type = &subsystem.entity_types[entity_id];
    let members = match value {
        JsonValue::Object(map) => map,
        JsonValue::Null => {
            return Processing::Done(JsonValue::Null, used);
        },
        _ => {
            return Processing::Failed(
                PostgresExecutionError::generic("Expected object when processing computed fields"),
            );
        },
    };
    proof {
        lemma_json_object_view(*members);
    }
    let ghost views = field_views(selection@);
    let ghost target = processed_fields(
        *subsystem,
        request_context@,
        *entity_type,
        views,
        0,
        json_member_views(members@),
        Seq::empty(),
        json_views(results@),
        used as nat,
    );
    let mut obj = duplicate_json_members(members);
    let mut projected_keys: Vec<String> = Vec::new();
    let mut current = used;
    let mut i: usize = 0;
    proof {
        assert(crate::select::text_views(projected_keys@) =~= Seq::empty());
    }
    while i < selection.len()
        invariant
            i <= selection.len(),
            computed_wf(*subsystem),
            entity_id < subsystem.entity_types@.len(),
            *entity_type == subsystem.entity_types@[entity_id as int],
            views == field_views(selection@),
            value@ == JsonView::Object(json_member_views(members@)),
            target == processed_fields(
                *subsystem,
                request_context@,
                *entity_type,
                views,
                0,
                json_member_views(members@),
                Seq::empty(),
                json_views(results@),
                used as nat,
            ),
            processed_fields(
                *subsystem,
                request_context@,
                *entity_type,
                views,
                i as int,
                json_member_views(obj@),
                crate::select::text_views(projected_keys@),
                json_views(results@),
                current as nat,
            ) == target,
        decreases selection.len() - i,
    {
        let selection_field = &selection[i];
        let ghost field = views[i as int];
        let ghost keys_before = projected_keys@;
        proof {
            assert(field == selection_field@);
            lemma_subfield_views(*selection_field);
            assert(decreases_to!(views => views[i as int]));
            assert(decreases_to!(field => field.subfields));
        }
        if str_eq(selection_field.name.as_str(), "__typename") {
            let name = selection_field.name.clone();
            projected_keys.push(name);
            proof {
                assert(crate::select::text_views(projected_keys@) =~= crate::select::text_views(
                    keys_before,
                ).push(field.name));
            }
        } else {
            let output_name = selection_field.output_name();
            projected_keys.push(output_name.clone());
            proof {
                assert(crate::select::text_views(projected_keys@) =~= crate::select::text_views(
                    keys_before,
                ).push(output_name_of(field)));
            }
            match entity_type.field_by_name(selection_field.name.as_str()) {
                None => {},
                Some(entity_field) => {
                    proof {
                        let f = choose|f: int|
                            0 <= f < entity_type.fields@.len() && entity_type.fields@[f]
                                == *entity_field;
                        assert(subsystem.entity_types@[entity_id as int].fields@[f] == *entity_field);
                        assert(entity_wf(*subsystem, subsystem.entity_types@[entity_id as int]));
                    }
                    if is_field_authorized(entity_field, subsystem, request_context) {
                        let nested_return_type = field_operation_return_type(&entity_field.typ);
                        proof {
                            if nested_return_type is Some {
                                lemma_shape_entity(nested_return_type->Some_0);
                            }
                        }
                        let replaced: Option<JsonValue> = match &entity_field.relation {
                            PostgresRelation::Computed(computed) => {
                                let snapshot = snapshot_for(&obj, output_name.as_str());
                                let computed_value = match execute_computed_field(
                                    computed,
                                    snapshot,
                                    selection_field,
                                    subsystem,
                                    results,
                                    current,
                                ) {
                                    Processing::Done(v, next) => {
                                        current = next;
                                        v
                                    },
                                    Processing::Call(c) => {
                                        return Processing::Call(c);
                                    },
                                    Processing::Failed(e) => {
                                        return Processing::Failed(e);
                                    },
                                };
                                if selection_field.subfields.len() > 0 {
                                    match &nested_return_type {
                                        Some(t) => {
                                            match process_value_from(
                                                &computed_value,
                                                t,
                                                &selection_field.subfields,
                                                subsystem,
                                                request_context,
                                                results,
                                                current,
                                            ) {
                                                Processing::Done(v, next) => {
                                                    current = next;
                                                    Some(v)
                                                },
                                                Processing::Call(c) => {
                                                    return Processing::Call(c);
                                                },
                                                Processing::Failed(e) => {
                                                    return Processing::Failed(e);
                                                },
                                            }
                                        },
                                        None => Some(computed_value),
                                    }
                                } else {
                                    Some(computed_value)
                                }
                            },
                            _ => {
                                if selection_field.subfields.len() > 0 {
                                    match json_get(&obj, output_name.as_str()) {
                                        Some(field_value) => match &nested_return_type {
                                            Some(t) => {
                                                match process_value_from(
                                                    field_value,
                                                    t,
                                                    &selection_field.subfields,
                                                    subsystem,
                                                    request_context,
                                                    results,
                                                    current,
                                                ) {
                                                    Processing::Done(v, next) => {
                                                        current = next;
                                                        Some(v)
                                                    },
                                                    Processing::Call(c) => {
                                                        return Processing::Call(c);
                                                    },
                                                    Processing::Failed(e) => {
                                                        return Processing::Failed(e);
                                                    },
                                                }
                                            },
                                            None => None,
                                        },
                                        None => None,
                                    }
                                } else {
                                    None
                                }
                            },
                        };
                        match replaced {
                            Some(v) => {
                                json_upsert(&mut obj, output_name.as_str(), v);
                            },
                            None => {},
                        }
                    }
                },
            }
        }
        i += 1;
    }
    let kept = if entity_type.representation.is_json_like() {
        retain_keys(obj, &projected_keys)
    } else {
        obj
    };
    proof {
        lemma_json_object_view(kept);
    }
    Processing::Done(JsonValue::Object(kept), current)
}

/// Fills in the computed fields of a result of the shape of `return_type`,
/// given the answers of the scripts called so far, in the order of the
/// calls. Where an answer is missing, the call that gives it is returned:
/// the caller makes the call, adds the answer to `results`, and asks again.
pub fn process_value(
    value: &JsonValue,
    return_type: &OperationReturnType,
    selection: &Vec<ValidatedField>,
    subsystem: &PostgresGraphQLSubsystem,
    request_context: &RequestContext,
    results: &Vec<JsonValue>,
) -> (r: Processing<JsonValue>)
    requires
        computed_wf(*subsystem),
        crate::schema::return_entity_id(*return_type) < subsystem.entity_types@.len(),
    ensures
        value_progress(r) == processed_value(
            *subsystem,
            request_context@,
            value@,
            return_shape(*return_type),
            field_views(selection@),
            json_views(results@),
            0,
        ),
{
    process_value_from(value, return_type, selection, subsystem, request_context, results, 0)
}

/// The body of a response.
#[derive(Debug, PartialEq, Eq)]
pub enum QueryResponseBody {
    Json(JsonValue),
    /// The JSON text that the database gave, if it gave a row.
    Raw(Option<String>),
}

/// The view of a [`QueryResponseBody`].
pub enum QueryResponseBodyView {
    Json(JsonView),
    Raw(Option<Seq<char>>),
}

impl View for QueryResponseBody {
    type V = QueryResponseBodyView;

    open spec fn view(&self) -> QueryResponseBodyView {
        match self {
            QueryResponseBody::Json(v) => QueryResponseBodyView::Json(v@),
            QueryResponseBody::Raw(t) => QueryResponseBodyView::Raw(
                crate::field::text_option_view(*t),
            ),
        }
    }
}

/// The view of the progress on the body of a response.
pub open spec fn body_progress(p: Processing<QueryResponseBody>) -> Progress<QueryResponseBodyView> {
    match p {
        Processing::Done(v, used) => Progress::Done { value: v@, used: used as nat },
        Processing::Call(c) => Progress::Call(c@),
        Processing::Failed(e) => Progress::Failed(e@),
    }
}

/// The body of a response with the computed fields of the selection of
/// `field` filled in, given what the JSON text of the body reads as. A body
/// that is no text of a row, or a selection that needs nothing computed,
/// leaves the body as it is.
pub open spec fn processed_body(
    s: PostgresGraphQLSubsystem,
    context: Seq<(Seq<char>, ConstView)>,
    body: QueryResponseBodyView,
    return_type: OperationReturnType,
    field: FieldView,
    results: Seq<JsonView>,
) -> Progress<QueryResponseBodyView> {
    if !needs_processing(
        s,
        s.entity_types@[crate::schema::return_entity_id(return_type) as int],
        field.subfields,
    ) {
        Progress::Done { value: body, used: 0 }
    } else {
        match body {
            QueryResponseBodyView::Raw(Some(text)) => match json_parsed(text) {
                None => Progress::Failed(
                    ExecutionErrorView::Generic("Failed to parse query result JSON"@),
                ),
                Some(value) => match processed_value(
                    s,
                    context,
                    value,
                    return_shape(return_type),
                    field.subfields,
                    results,
                    0,
                ) {
                    Progress::Done { value: processed, used } => Progress::Done {
                        value: QueryResponseBodyView::Raw(Some(json_text(processed))),
                        used,
                    },
                    Progress::Call(c) => Progress::Call(c),
                    Progress::Failed(e) => Progress::Failed(e),
                },
            },
            _ => Progress::Done { value: body, used: 0 },
        }
    }
}

/// Fills in the computed fields in the body of a response, given the
/// answers of the scripts called so far.
pub fn apply_computed_fields_to_body(
    body: &QueryResponseBody,
    return_type: &OperationReturnType,
    field: &ValidatedField,
    subsystem: &PostgresGraphQLSubsystem,
    request_context: &RequestContext,
    results: &Vec<JsonValue>,
) -> (r: Processing<QueryResponseBody>)
    requires
        computed_wf(*subsystem),
        crate::schema::return_entity_id(*return_type) < subsystem.entity_types@.len(),
    ensures
        body_progress(r) == processed_body(
            *subsystem,
            request_context@,
            body@,
            *return_type,
            field@,
            json_views(results@),
        ),
{
    let entity_type = &subsystem.entity_types[return_type.entity_id()];
    proof {
        lemma_subfield_views(*field);
    }
    if !needs_postprocess(entity_type, &field.subfields, subsystem) {
        return Processing::Done(duplicate_body(body), 0);
    }
    let json_str = match body {
        QueryResponseBody::Raw(Some(s)) => s,
        _ => {
            return Processing::Done(duplicate_body(body), 0);
        },
    };
    let value = match parse_json(json_str.as_str()) {
        Some(v) => v,
        None => {
            return Processing::Failed(
                PostgresExecutionError::generic("Failed to parse query result JSON"),
            );
        },
    };
    match process_value(&value, return_type, &field.subfields, subsystem, request_context, results) {
        Processing::Done(processed, used) => {
            let updated = json_to_string(&processed);
            Processing::Done(QueryResponseBody::Raw(Some(updated)), used)
        },
        Processing::Call(c) => Processing::Call(c),
        Processing::Failed(e) => Processing::Failed(e),
    }
}

/// A copy of a body.
pub fn duplicate_body(body: &QueryResponseBody) -> (r: QueryResponseBody)
    ensures
        r@ == body@,
{
    match body {
        QueryResponseBody::Json(v) => QueryResponseBody::Json(v.duplicate()),
        QueryResponseBody::Raw(t) => QueryResponseBody::Raw(crate::field::duplicate_text_option(t)),
    }
}

/// The error that a failed call of a script is reported as.
pub fn computed_field_error(field_name: &str, reason: &str) -> (r: PostgresExecutionError)
    ensures
        r@ == ExecutionErrorView::Generic(
            "Failed to evaluate computed field '"@ + field_name@ + "': "@ + reason@,
        ),
{
    PostgresExecutionError::Generic(
        crate::text::concat2(
            concat3("Failed to evaluate computed field '", field_name, "': ").as_str(),
            reason,
        ),
    )
}

} // verus!
