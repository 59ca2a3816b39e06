//! Validation of an operation against the schema: the root type, the
//! variables and their coercion, and the depth of the selection.

use vstd::prelude::*;
use crate::document::{FragmentDefinition, OperationDefinition, OperationType};
use crate::field::{field_views, FieldView, ValidatedField};
use crate::json_text::{json_text, json_to_string};
use crate::selection_validator::{validate_selection_set, validated_selections, Walk, WalkView};
use crate::results::{collected, lemma_collected_error_stays, lemma_collected_step};
use crate::text::{concat2, concat3, index_of, lemma_index_of_is, lemma_index_of_none, str_eq};
use crate::value::{
    const_field_views, const_from_json, const_views, from_json, json_get, json_member_views,
    json_views, lemma_const_list_view, lemma_const_object_view, lemma_json_array_view,
    lemma_json_object_view, lookup, ConstValue, ConstView, JsonValue, JsonView,
};

verus! {

/// A place in the text of a document.
#[derive(Clone, Copy, Debug, PartialEq, Eq, Structural)]
pub struct Pos {
    pub line: usize,
    pub column: usize,
}

/// The type of a value without its nullability: a named type or a list.
#[derive(Debug, PartialEq, Eq)]
pub enum BaseType {
    Named(String),
    List(Box<Type>),
}

/// The declared type of a variable, an argument or a field.
#[derive(Debug, PartialEq, Eq)]
pub struct Type {
    pub base: BaseType,
    pub nullable: bool,
}

/// A field of an input object type, or an argument of a field.
#[derive(Debug, PartialEq, Eq)]
pub struct InputValueDefinition {
    pub name: String,
    pub ty: Type,
}

/// A field of an object type.
#[derive(Debug, PartialEq, Eq)]
pub struct FieldDefinition {
    pub name: String,
    pub arguments: Vec<InputValueDefinition>,
    pub ty: Type,
}

/// What kind of type a definition defines.
#[derive(Debug, PartialEq, Eq)]
pub enum TypeKind {
    Scalar,
    Object(Vec<FieldDefinition>),
    Enum(Vec<String>),
    InputObject(Vec<InputValueDefinition>),
}

/// A type of the schema.
#[derive(Debug, PartialEq, Eq)]
pub struct TypeDefinition {
    pub name: String,
    pub kind: TypeKind,
}

/// The schema that operations are validated against.
#[derive(Debug, PartialEq, Eq)]
pub struct Schema {
    pub type_definitions: Vec<TypeDefinition>,
}

pub const QUERY_ROOT_TYPENAME: &'static str = "Query";

pub const MUTATION_ROOT_TYPENAME: &'static str = "Mutation";

pub const SUBSCRIPTION_ROOT_TYPENAME: &'static str = "Subscription";

/// The names of a list of type definitions.
pub open spec fn type_names(types: Seq<TypeDefinition>) -> Seq<Seq<char>> {
    Seq::new(types.len(), |i: int| types[i].name@)
}

/// The names of a list of input values.
pub open spec fn input_names(inputs: Seq<InputValueDefinition>) -> Seq<Seq<char>> {
    Seq::new(inputs.len(), |i: int| inputs[i].name@)
}

/// The first input value named `name`.
pub open spec fn input_named(inputs: Seq<InputValueDefinition>, name: Seq<char>) -> Option<
    InputValueDefinition,
> {
    match index_of(input_names(inputs), name) {
        Some(i) => Some(inputs[i]),
        None => None,
    }
}

/// The views of a list of strings.
pub open spec fn texts(items: Seq<String>) -> Seq<Seq<char>> {
    Seq::new(items.len(), |i: int| items[i]@)
}

impl Schema {
    /// The first type named `name`.
    pub open spec fn spec_type_definition(&self, name: Seq<char>) -> Option<TypeDefinition> {
        match index_of(type_names(self.type_definitions@), name) {
            Some(i) => Some(self.type_definitions@[i]),
            None => None,
        }
    }

    /// The type named `name`.
    pub fn get_type_definition(&self, name: &str) -> (r: Option<&TypeDefinition>)
        ensures
            match r {
                Some(t) => self.spec_type_definition(name@) == Some(*t),
                None => self.spec_type_definition(name@).is_none(),
            },
    {
        let mut i: usize = 0;
        while i < self.type_definitions.len()
            invariant
                i <= self.type_definitions.len(),
                forall|j: int| 0 <= j < i ==> self.type_definitions@[j].name@ != name@,
            decreases self.type_definitions.len() - i,
        {
            if str_eq(self.type_definitions[i].name.as_str(), name) {
                proof {
                    lemma_index_of_is(type_names(self.type_definitions@), name@, i as int);
                }
                return Some(&self.type_definitions[i]);
            }
            i += 1;
        }
        proof {
            lemma_index_of_none(type_names(self.type_definitions@), name@);
        }
        None
    }
}

/// Finds the input value named `name`.
pub fn find_input<'a>(inputs: &'a Vec<InputValueDefinition>, name: &str) -> (r: Option<
    &'a InputValueDefinition,
>)
    ensures
        match r {
            Some(d) => input_named(inputs@, name@) == Some(*d),
            None => input_named(inputs@, name@).is_none(),
        },
{
    let mut i: usize = 0;
    while i < inputs.len()
        invariant
            i <= inputs.len(),
            forall|j: int| 0 <= j < i ==> inputs@[j].name@ != name@,
        decreases inputs.len() - i,
    {
        if str_eq(inputs[i].name.as_str(), name) {
            proof {
                lemma_index_of_is(input_names(inputs@), name@, i as int);
            }
            return Some(&inputs[i]);
        }
        i += 1;
    }
    proof {
        lemma_index_of_none(input_names(inputs@), name@);
    }
    None
}

/// Whether `values` holds `value`.
pub fn has_text(values: &Vec<String>, value: &str) -> (r: bool)
    ensures
        r == texts(values@).contains(value@),
{
    let mut i: usize = 0;
    while i < values.len()
        invariant
            i <= values.len(),
            forall|j: int| 0 <= j < i ==> values@[j]@ != value@,
        decreases values.len() - i,
    {
        if str_eq(values[i].as_str(), value) {
            assert(texts(values@)[i as int] == value@);
            return true;
        }
        i += 1;
    }
    assert forall|j: int| 0 <= j < texts(values@).len() implies texts(values@)[j] != value@ by {
        assert(values@[j]@ != value@);
    }
    false
}

/// Why an operation is not valid.
#[derive(Clone, Debug, PartialEq, Eq)]
pub enum ValidationError {
    /// The schema has no root type for the operation.
    OperationNotFound(String, Pos),
    /// A declared variable was given no value.
    VariableNotFound(String, Pos),
    /// The value given for a variable does not fit its type: the variable,
    /// its place, and what is wrong.
    MalformedVariable(String, Pos, String),
    /// The selection is nested deeper than allowed.
    SelectionSetTooDeep(Pos),
    /// A selection spreads a fragment that is not defined.
    FragmentDefinitionNotFound(String, Pos),
    /// Fragments spread one another without end.
    FragmentCycle(String, Pos),
    /// A selected field is not a field of its type: the field, the type.
    InvalidField(String, String, Pos),
}

/// The view of a [`ValidationError`].
pub enum ValidationErrorView {
    OperationNotFound(Seq<char>, Pos),
    VariableNotFound(Seq<char>, Pos),
    MalformedVariable(Seq<char>, Pos, Seq<char>),
    SelectionSetTooDeep(Pos),
    FragmentDefinitionNotFound(Seq<char>, Pos),
    FragmentCycle(Seq<char>, Pos),
    InvalidField(Seq<char>, Seq<char>, Pos),
}

impl View for ValidationError {
    type V = ValidationErrorView;

    open spec fn view(&self) -> ValidationErrorView {
        match self {
            ValidationError::OperationNotFound(n, p) => ValidationErrorView::OperationNotFound(
                n@,
                *p,
            ),
            ValidationError::VariableNotFound(n, p) => ValidationErrorView::VariableNotFound(n@, *p),
            ValidationError::MalformedVariable(n, p, m) => ValidationErrorView::MalformedVariable(
                n@,
                *p,
                m@,
            ),
            ValidationError::SelectionSetTooDeep(p) => ValidationErrorView::SelectionSetTooDeep(*p),
            ValidationError::FragmentDefinitionNotFound(
                n,
                p,
            ) => ValidationErrorView::FragmentDefinitionNotFound(n@, *p),
            ValidationError::FragmentCycle(n, p) => ValidationErrorView::FragmentCycle(n@, *p),
            ValidationError::InvalidField(f, t, p) => ValidationErrorView::InvalidField(f@, t@, *p),
        }
    }
}

/// The message for a string that is no value of an enum.
pub open spec fn invalid_enum_message(value: Seq<char>, named_type: Seq<char>) -> Seq<char> {
    ("Invalid enum value '"@ + value + "' for type '"@) + named_type + "'"@
}

/// The message for a value that is no string where an enum is expected,
/// given the JSON text of the value.
pub open spec fn expected_enum_message(named_type: Seq<char>, value_text: Seq<char>) -> Seq<char> {
    ("Expected enum value for type '"@ + named_type + "', got "@) + value_text
}

/// The message for a value that is no object where an input object is
/// expected, given the JSON text of the value.
pub open spec fn expected_object_message(named_type: Seq<char>, value_text: Seq<char>) -> Seq<char> {
    ("Expected input object for type '"@ + named_type + "', got "@) + value_text
}

/// The resolved value that a JSON value stands for under a declared type.
///
/// Under a list type an array is coerced item by item under the item type;
/// under an enum type a string that is a value of the enum becomes that enum
/// value; under an input object type an object is coerced field by field,
/// each declared field under its type. `null` stays `null` under an enum or
/// an input object type. Whatever the type does not speak of is converted as
/// it is.
pub open spec fn coerced(
    schema: Schema,
    expected: Type,
    value: JsonView,
    variable: Seq<char>,
    pos: Pos,
) -> Result<ConstView, ValidationErrorView>
    decreases value, 0nat,
{
    match expected.base {
        BaseType::List(elem) => match value {
            JsonView::Array(items) => match collected(
                coerced_items(schema, *elem, items, variable, pos),
            ) {
                Ok(values) => Ok(ConstView::List(values)),
                Err(e) => Err(e),
            },
            _ => Ok(from_json(value)),
        },
        BaseType::Named(named_type) => match schema.spec_type_definition(named_type@) {
            Some(TypeDefinition { kind: TypeKind::Enum(values), .. }) => match value {
                JsonView::String(s) => if texts(values@).contains(s) {
                    Ok(ConstView::Enum(s))
                } else {
                    Err(
                        ValidationErrorView::MalformedVariable(
                            variable,
                            pos,
                            invalid_enum_message(s, named_type@),
                        ),
                    )
                },
                JsonView::Null => Ok(ConstView::Null),
                _ => Err(
                    ValidationErrorView::MalformedVariable(
                        variable,
                        pos,
                        expected_enum_message(named_type@, json_text(value)),
                    ),
                ),
            },
            Some(TypeDefinition { kind: TypeKind::InputObject(fields), .. }) => match value {
                JsonView::Object(members) => match collected(
                    coerced_members(schema, fields@, members, variable, pos),
                ) {
                    Ok(entries) => Ok(ConstView::Object(entries)),
                    Err(e) => Err(e),
                },
                JsonView::Null => Ok(ConstView::Null),
                _ => Err(
                    ValidationErrorView::MalformedVariable(
                        variable,
                        pos,
                        expected_object_message(named_type@, json_text(value)),
                    ),
                ),
            },
            _ => Ok(from_json(value)),
        },
    }
}

/// The outcomes of coercing the items of an array under the item type.
pub open spec fn coerced_items(
    schema: Schema,
    elem: Type,
    items: Seq<JsonView>,
    variable: Seq<char>,
    pos: Pos,
) -> Seq<Result<ConstView, ValidationErrorView>>
    decreases items, 1nat,
{
    Seq::new(
        items.len(),
        |i: int|
            if 0 <= i < items.len() {
                coerced(schema, elem, items[i], variable, pos)
            } else {
                Ok(ConstView::Null)
            },
    )
}

/// The outcomes of coercing the members of an object under the fields of an
/// input object type: a member that names a field under the type of the
/// field, any other as it is.
pub open spec fn coerced_members(
    schema: Schema,
    fields: Seq<InputValueDefinition>,
    members: Seq<(Seq<char>, JsonView)>,
    variable: Seq<char>,
    pos: Pos,
) -> Seq<Result<(Seq<char>, ConstView), ValidationErrorView>>
    decreases members, 1nat,
{
    Seq::new(
        members.len(),
        |i: int|
            if 0 <= i < members.len() {
                match input_named(fields, members[i].0) {
                    Some(field) => match coerced(schema, field.ty, members[i].1, variable, pos) {
                        Ok(v) => Ok((members[i].0, v)),
                        Err(e) => Err(e),
                    },
                    None => Ok((members[i].0, from_json(members[i].1))),
                }
            } else {
                Ok((Seq::empty(), ConstView::Null))
            },
    )
}

/// The view of the outcome of a coercion.
pub open spec fn coercion_view(r: Result<ConstValue, ValidationError>) -> Result<
    ConstView,
    ValidationErrorView,
> {
    match r {
        Ok(v) => Ok(v@),
        Err(e) => Err(e@),
    }
}

/// The error for a string that is no value of the enum `named_type`.
pub fn invalid_enum_value(variable: &str, pos: Pos, value: &str, named_type: &str) -> (r:
    ValidationError)
    ensures
        r@ == ValidationErrorView::MalformedVariable(
            variable@,
            pos,
            invalid_enum_message(value@, named_type@),
        ),
{
    ValidationError::MalformedVariable(
        variable.to_owned(),
        pos,
        concat3(
            concat3("Invalid enum value '", value, "' for type '").as_str(),
            named_type,
            "'",
        ),
    )
}

/// The error for a value that is no string where the enum `named_type` is
/// expected, given the JSON text of the value.
pub fn expected_enum_value(variable: &str, pos: Pos, named_type: &str, value_text: &str) -> (r:
    ValidationError)
    ensures
        r@ == ValidationErrorView::MalformedVariable(
            variable@,
            pos,
            expected_enum_message(named_type@, value_text@),
        ),
{
    ValidationError::MalformedVariable(
        variable.to_owned(),
        pos,
        concat2(
            concat3("Expected enum value for type '", named_type, "', got ").as_str(),
            value_text,
        ),
    )
}

/// The error for a value that is no object where the input object
/// `named_type` is expected, given the JSON text of the value.
pub fn expected_input_object(variable: &str, pos: Pos, named_type: &str, value_text: &str) -> (r:
    ValidationError)
    ensures
        r@ == ValidationErrorView::MalformedVariable(
            variable@,
            pos,
            expected_object_message(named_type@, value_text@),
        ),
{
    ValidationError::MalformedVariable(
        variable.to_owned(),
        pos,
        concat2(
            concat3("Expected input object for type '", named_type, "', got ").as_str(),
            value_text,
        ),
    )
}

/// A variable that an operation declares.
#[derive(Debug, PartialEq, Eq)]
pub struct VariableDefinition {
    pub name: String,
    pub pos: Pos,
    pub var_type: Type,
}

/// Validates an operation against a schema, given the values of its variables.
pub struct OperationValidator<'a> {
    schema: &'a Schema,
    operation_name: Option<String>,
    variables: Option<Vec<(String, JsonValue)>>,
    fragment_definitions: Vec<FragmentDefinition>,
    normal_query_depth_limit: usize,
    introspection_query_depth_limit: usize,
}

impl<'a> OperationValidator<'a> {
    pub closed spec fn spec_schema(&self) -> Schema {
        *self.schema
    }

    pub closed spec fn spec_operation_name(&self) -> Option<Seq<char>> {
        crate::field::text_option_view(self.operation_name)
    }

    /// The values given for the variables, by name; nothing where none were given.
    pub closed spec fn spec_variables(&self) -> Seq<(Seq<char>, JsonView)> {
        match self.variables {
            Some(v) => json_member_views(v@),
            None => Seq::empty(),
        }
    }

    pub closed spec fn spec_fragments(&self) -> Seq<FragmentDefinition> {
        self.fragment_definitions@
    }

    pub closed spec fn spec_normal_limit(&self) -> usize {
        self.normal_query_depth_limit
    }

    pub closed spec fn spec_introspection_limit(&self) -> usize {
        self.introspection_query_depth_limit
    }

    #[must_use]
    pub fn new(
        schema: &'a Schema,
        operation_name: Option<String>,
        variables: Option<Vec<(String, JsonValue)>>,
        fragment_definitions: Vec<FragmentDefinition>,
        normal_query_depth_limit: usize,
        introspection_query_depth_limit: usize,
    ) -> (r: OperationValidator<'a>)
        ensures
            r.spec_schema() == *schema,
            r.spec_fragments() == fragment_definitions@,
            r.spec_operation_name() == crate::field::text_option_view(operation_name),
            r.spec_variables() == match variables {
                Some(v) => json_member_views(v@),
                None => Seq::empty(),
            },
            r.spec_normal_limit() == normal_query_depth_limit,
            r.spec_introspection_limit() == introspection_query_depth_limit,
    {
        OperationValidator {
            schema,
            operation_name,
            variables,
            fragment_definitions,
            normal_query_depth_limit,
            introspection_query_depth_limit,
        }
    }

    /// Checks that a selection at depth `depth` is not nested too deep.
    /// Until it is known whether the query is an introspection query, which
    /// is one level below the root, every depth passes; from then on the depth
    /// may not exceed the limit of the kind of query.
    pub fn selection_depth_check(&self, depth: usize, is_introspection: Option<bool>, pos: Pos) -> (r:
        Result<bool, ValidationError>)
        ensures
            r == depth_checked(
                self.spec_normal_limit(),
                self.spec_introspection_limit(),
                depth,
                is_introspection,
                pos,
            ),
    {
        match is_introspection {
            Some(is_introspection) => {
                let max_depth = if is_introspection {
                    self.introspection_query_depth_limit
                } else {
                    self.normal_query_depth_limit
                };
                if depth > max_depth {
                    Err(ValidationError::SelectionSetTooDeep(pos))
                } else {
                    Ok(true)
                }
            },
            None => Ok(true),
        }
    }

    /// Coerces the JSON value given for a variable to the resolved value
    /// that it stands for under the declared type.
    pub fn coerce_variable_value(
        &self,
        expected_type: &Type,
        value: &JsonValue,
        variable_name: &str,
        pos: Pos,
    ) -> (r: Result<ConstValue, ValidationError>)
        ensures
            coercion_view(r) == coerced(self.spec_schema(), *expected_type, value@, variable_name@, pos),
        decreases value,
    {
        match &expected_type.base {
            BaseType::List(elem_type) => match value {
                JsonValue::Array(values) => {
                    let ghost outcomes = coerced_items(
                        self.spec_schema(),
                        **elem_type,
                        json_views(values@),
                        variable_name@,
                        pos,
                    );
                    let mut coerced_values: Vec<ConstValue> = Vec::new();
                    let mut i: usize = 0;
                    proof {
                        lemma_json_array_view(*values);
                        assert(outcomes.take(0) =~= Seq::empty());
                        assert(const_views(coerced_values@) =~= Seq::empty());
                    }
                    while i < values.len()
                        invariant
                            i <= values.len(),
                            value is Array,
                            value->Array_0 == *values,
                            value@ == JsonView::Array(json_views(values@)),
                            expected_type.base == BaseType::List(*elem_type),
                            outcomes == coerced_items(
                                self.spec_schema(),
                                **elem_type,
                                json_views(values@),
                                variable_name@,
                                pos,
                            ),
                            collected(outcomes.take(i as int)) == Ok::<
                                Seq<ConstView>,
                                ValidationErrorView,
                            >(const_views(coerced_values@)),
                        decreases values.len() - i,
                    {
                        proof {
                            assert(decreases_to!(*value => value->Array_0));
                            assert(decreases_to!(*values => values[i as int]));
                            lemma_collected_step(outcomes, i as int);
                        }
                        let ghost before = coerced_values@;
                        match self.coerce_variable_value(elem_type, &values[i], variable_name, pos) {
                            Ok(v) => {
                                coerced_values.push(v);
                                proof {
                                    assert(const_views(coerced_values@) =~= const_views(before).push(
                                        v@,
                                    ));
                                }
                            },
                            Err(e) => {
                                proof {
                                    lemma_collected_error_stays(outcomes, i + 1);
                                }
                                return Err(e);
                            },
                        }
                        i += 1;
                    }
                    proof {
                        assert(outcomes.take(i as int) =~= outcomes);
                        lemma_const_list_view(coerced_values);
                    }
                    Ok(ConstValue::List(coerced_values))
                },
                _ => Ok(const_from_json(value)),
            },
            BaseType::Named(named_type) => {
                match self.schema.get_type_definition(named_type.as_str()) {
                    Some(type_definition) => match &type_definition.kind {
                        TypeKind::Enum(enum_values) => {
                            return match value {
                                JsonValue::String(enum_value) => {
                                    if has_text(enum_values, enum_value.as_str()) {
                                        Ok(ConstValue::Enum(enum_value.clone()))
                                    } else {
                                        Err(
                                            invalid_enum_value(
                                                variable_name,
                                                pos,
                                                enum_value.as_str(),
                                                named_type.as_str(),
                                            ),
                                        )
                                    }
                                },
                                JsonValue::Null => Ok(ConstValue::Null),
                                _ => Err(
                                    expected_enum_value(
                                        variable_name,
                                        pos,
                                        named_type.as_str(),
                                        json_to_string(value).as_str(),
                                    ),
                                ),
                            };
                        },
                        TypeKind::InputObject(fields) => {
                            return match value {
                                JsonValue::Object(members) => {
                                    let ghost outcomes = coerced_members(
                                        self.spec_schema(),
                                        fields@,
                                        json_member_views(members@),
                                        variable_name@,
                                        pos,
                                    );
                                    let mut coerced_values: Vec<(String, ConstValue)> = Vec::new();
                                    let mut i: usize = 0;
                                    proof {
                                        lemma_json_object_view(*members);
                                        assert(outcomes.take(0) =~= Seq::empty());
                                        assert(const_field_views(coerced_values@) =~= Seq::empty());
                                    }
                                    while i < members.len()
                                        invariant
                                            i <= members.len(),
                                            value is Object,
                                            value->Object_0 == *members,
                                            value@ == JsonView::Object(json_member_views(members@)),
                                            expected_type.base == BaseType::Named(*named_type),
                                            self.spec_schema().spec_type_definition(named_type@)
                                                == Some(*type_definition),
                                            type_definition.kind == TypeKind::InputObject(*fields),
                                            outcomes == coerced_members(
                                                self.spec_schema(),
                                                fields@,
                                                json_member_views(members@),
                                                variable_name@,
                                                pos,
                                            ),
                                            collected(outcomes.take(i as int)) == Ok::<
                                                Seq<(Seq<char>, ConstView)>,
                                                ValidationErrorView,
                                            >(const_field_views(coerced_values@)),
                                        decreases members.len() - i,
                                    {
                                        proof {
                                            assert(decreases_to!(*value => value->Object_0));
                                            assert(decreases_to!(*members => members[i as int]));
                                            assert(decreases_to!(members[i as int] => members[i as int].1));
                                            lemma_collected_step(outcomes, i as int);
                                        }
                                        let ghost before = coerced_values@;
                                        let field_name = &members[i].0;
                                        let coerced_value = match find_input(
                                            fields,
                                            field_name.as_str(),
                                        ) {
                                            Some(field_definition) => {
                                                match self.coerce_variable_value(
                                                    &field_definition.ty,
                                                    &members[i].1,
                                                    variable_name,
                                                    pos,
                                                ) {
                                                    Ok(v) => v,
                                                    Err(e) => {
                                                        proof {
                                                            lemma_collected_error_stays(
                                                                outcomes,
                                                                i + 1,
                                                            );
                                                        }
                                                        return Err(e);
                                                    },
                                                }
                                            },
                                            None => const_from_json(&members[i].1),
                                        };
                                        let name = field_name.clone();
                                        coerced_values.push((name, coerced_value));
                                        proof {
                                            assert(const_field_views(coerced_values@)
                                                =~= const_field_views(before).push(
                                                (name@, coerced_value@),
                                            ));
                                        }
                                        i += 1;
                                    }
                                    proof {
                                        assert(outcomes.take(i as int) =~= outcomes);
                                        lemma_const_object_view(coerced_values);
                                    }
                                    Ok(ConstValue::Object(coerced_values))
                                },
                                JsonValue::Null => Ok(ConstValue::Null),
                                _ => Err(
                                    expected_input_object(
                                        variable_name,
                                        pos,
                                        named_type.as_str(),
                                        json_to_string(value).as_str(),
                                    ),
                                ),
                            };
                        },
                        _ => {},
                    },
                    None => {},
                }
                Ok(const_from_json(value))
            },
        }
    }

    /// Validates an operation: its root type must be in the schema, each
    /// declared variable must have a value that fits its type, and the
    /// selection must be valid on the root type and not nested too deep.
    pub fn validate(self, operation: &OperationDefinition) -> (r: Result<
        ValidatedOperation,
        ValidationError,
    >)
        requires
            operation.ty != OperationType::Subscription,
        ensures
            match r {
                Ok(o) => Ok(o@),
                Err(e) => Err(e@),
            } == validated_operation(
                self.spec_schema(),
                self.spec_operation_name(),
                self.spec_variables(),
                self.spec_fragments(),
                self.spec_normal_limit(),
                self.spec_introspection_limit(),
                *operation,
            ),
    {
        let root = match operation.ty {
            OperationType::Query => QUERY_ROOT_TYPENAME,
            _ => MUTATION_ROOT_TYPENAME,
        };
        let container_type = match self.schema.get_type_definition(root) {
            Some(td) => td,
            None => {
                return Err(
                    ValidationError::OperationNotFound(root.to_owned(), Pos { line: 0, column: 0 }),
                );
            },
        };
        let variables = match self.validate_variables(&operation.variable_definitions) {
            Ok(v) => v,
            Err(e) => {
                return Err(e);
            },
        };
        let walk = Walk {
            schema: self.schema,
            variables: &variables,
            fragment_definitions: &self.fragment_definitions,
            normal_query_depth_limit: self.normal_query_depth_limit,
            introspection_query_depth_limit: self.introspection_query_depth_limit,
        };
        let fields = match validate_selection_set(
            &walk,
            container_type,
            &operation.selection_set,
            0,
            None,
            operation.pos,
            self.fragment_definitions.len(),
        ) {
            Ok(f) => f,
            Err(e) => {
                return Err(e);
            },
        };
        Ok(ValidatedOperation { name: self.operation_name, typ: operation.ty, fields })
    }

    /// The resolved value of a declared variable: the value given for it,
    /// coerced to the declared type.
    pub fn var_value(&self, variable_definition: &VariableDefinition) -> (r: Result<
        ConstValue,
        ValidationError,
    >)
        ensures
            coercion_view(r) == variable_value(
                self.spec_schema(),
                self.spec_variables(),
                *variable_definition,
            ),
    {
        let resolved = match &self.variables {
            Some(variables) => json_get(variables, variable_definition.name.as_str()),
            None => {
                proof {
                    lemma_index_of_none(
                        crate::value::names_of(Seq::<(Seq<char>, JsonView)>::empty()),
                        variable_definition.name@,
                    );
                }
                None
            },
        };
        match resolved {
            Some(value) => self.coerce_variable_value(
                &variable_definition.var_type,
                value,
                variable_definition.name.as_str(),
                variable_definition.pos,
            ),
            None => Err(
                ValidationError::VariableNotFound(
                    variable_definition.name.clone(),
                    variable_definition.pos,
                ),
            ),
        }
    }

    /// The resolved values of the declared variables, by name, in the order
    /// of their declarations.
    pub fn validate_variables(&self, variable_definitions: &Vec<VariableDefinition>) -> (r: Result<
        Vec<(String, ConstValue)>,
        ValidationError,
    >)
        ensures
            match r {
                Ok(values) => Ok(const_field_views(values@)),
                Err(e) => Err(e@),
            } == collected(
                variable_outcomes(self.spec_schema(), self.spec_variables(), variable_definitions@),
            ),
    {
        let ghost outcomes = variable_outcomes(
            self.spec_schema(),
            self.spec_variables(),
            variable_definitions@,
        );
        let mut out: Vec<(String, ConstValue)> = Vec::new();
        let mut i: usize = 0;
        proof {
            assert(outcomes.take(0) =~= Seq::empty());
            assert(const_field_views(out@) =~= Seq::empty());
        }
        while i < variable_definitions.len()
            invariant
                i <= variable_definitions.len(),
                outcomes == variable_outcomes(
                    self.spec_schema(),
                    self.spec_variables(),
                    variable_definitions@,
                ),
                collected(outcomes.take(i as int)) == Ok::<
                    Seq<(Seq<char>, ConstView)>,
                    ValidationErrorView,
                >(const_field_views(out@)),
            decreases variable_definitions.len() - i,
        {
            proof {
                lemma_collected_step(outcomes, i as int);
            }
            let ghost before = out@;
            match self.var_value(&variable_definitions[i]) {
                Ok(value) => {
                    let name = variable_definitions[i].name.clone();
                    out.push((name, value));
                    proof {
                        assert(const_field_views(out@) =~= const_field_views(before).push(
                            (name@, value@),
                        ));
                    }
                },
                Err(e) => {
                    proof {
                        lemma_collected_error_stays(outcomes, i + 1);
                    }
                    return Err(e);
                },
            }
            i += 1;
        }
        proof {
            assert(outcomes.take(i as int) =~= outcomes);
        }
        Ok(out)
    }
}

/// What the depth check gives: the selection is too deep where the kind of
/// query is known and the depth exceeds the limit of that kind.
pub open spec fn depth_checked(
    normal_limit: usize,
    introspection_limit: usize,
    depth: usize,
    is_introspection: Option<bool>,
    pos: Pos,
) -> Result<bool, ValidationError> {
    match is_introspection {
        Some(true) => if depth > introspection_limit {
            Err(ValidationError::SelectionSetTooDeep(pos))
        } else {
            Ok(true)
        },
        Some(false) => if depth > normal_limit {
            Err(ValidationError::SelectionSetTooDeep(pos))
        } else {
            Ok(true)
        },
        None => Ok(true),
    }
}

/// The resolved value of a declared variable, given the values supplied.
pub open spec fn variable_value(
    schema: Schema,
    variables: Seq<(Seq<char>, JsonView)>,
    definition: VariableDefinition,
) -> Result<ConstView, ValidationErrorView> {
    match lookup(variables, definition.name@) {
        Some(value) => coerced(schema, definition.var_type, value, definition.name@, definition.pos),
        None => Err(ValidationErrorView::VariableNotFound(definition.name@, definition.pos)),
    }
}

/// The outcomes of resolving each declared variable, with its name.
pub open spec fn variable_outcomes(
    schema: Schema,
    variables: Seq<(Seq<char>, JsonView)>,
    definitions: Seq<VariableDefinition>,
) -> Seq<Result<(Seq<char>, ConstView), ValidationErrorView>> {
    Seq::new(
        definitions.len(),
        |i: int|
            match variable_value(schema, variables, definitions[i]) {
                Ok(v) => Ok((definitions[i].name@, v)),
                Err(e) => Err(e),
            },
    )
}

/// Whether a resolved value is of a declared type in the sense that coercing
/// its JSON form under the type gives the value back: under an enum type an
/// enum value of the type or `null`; under an input object type an object
/// whose declared fields are of their types, or `null`; under a list type a
/// list of items of the item type; and anywhere else a plain value.
pub open spec fn matches_type(schema: Schema, expected: Type, value: ConstView) -> bool
    decreases value, 0nat,
{
    match expected.base {
        BaseType::List(elem) => match value {
            ConstView::List(items) => forall|i: int|
                0 <= i < items.len() ==> matches_type(schema, *elem, #[trigger] items[i]),
            _ => crate::value::plain(value),
        },
        BaseType::Named(named_type) => match schema.spec_type_definition(named_type@) {
            Some(TypeDefinition { kind: TypeKind::Enum(values), .. }) => match value {
                ConstView::Enum(s) => texts(values@).contains(s),
                ConstView::Null => true,
                _ => false,
            },
            Some(TypeDefinition { kind: TypeKind::InputObject(fields), .. }) => match value {
                ConstView::Object(entries) => forall|i: int|
                    0 <= i < entries.len() ==> member_matches(schema, fields@, #[trigger] entries[i]),
                ConstView::Null => true,
                _ => false,
            },
            _ => crate::value::plain(value),
        },
    }
}

/// Whether a member of an object is of the type of the field it names, or
/// is plain where it names none.
pub open spec fn member_matches(
    schema: Schema,
    fields: Seq<InputValueDefinition>,
    member: (Seq<char>, ConstView),
) -> bool
    decreases member.1, 1nat,
{
    match input_named(fields, member.0) {
        Some(field) => matches_type(schema, field.ty, member.1),
        None => crate::value::plain(member.1),
    }
}

/// Coercing the JSON form of a value that is of the declared type gives the
/// value itself.
pub proof fn lemma_coercion_is_identity(
    schema: Schema,
    expected: Type,
    value: ConstView,
    variable: Seq<char>,
    pos: Pos,
)
    requires
        matches_type(schema, expected, value),
    ensures
        coerced(schema, expected, crate::value::to_json(value), variable, pos) == Ok::<
            ConstView,
            ValidationErrorView,
        >(value),
    decreases value,
{
    let json = crate::value::to_json(value);
    match expected.base {
        BaseType::List(elem) => match value {
            ConstView::List(items) => {
                let outcomes = coerced_items(schema, *elem, json->Array_0, variable, pos);
                assert forall|i: int| 0 <= i < outcomes.len() implies #[trigger] outcomes[i] == Ok::<
                    ConstView,
                    ValidationErrorView,
                >(items[i]) by {
                    assert(matches_type(schema, *elem, items[i]));
                    lemma_coercion_is_identity(schema, *elem, items[i], variable, pos);
                }
                crate::results::lemma_collected_all(outcomes);
                assert forall|i: int| 0 <= i < items.len() implies collected(outcomes)->Ok_0[i]
                    == items[i] by {
                    assert(outcomes[i] is Ok);
                }
                assert(collected(outcomes)->Ok_0 =~= items);
            },
            _ => {
                crate::value::lemma_plain_round_trip(value);
            },
        },
        BaseType::Named(named_type) => match schema.spec_type_definition(named_type@) {
            Some(TypeDefinition { kind: TypeKind::Enum(values), .. }) => {},
            Some(TypeDefinition { kind: TypeKind::InputObject(fields), .. }) => match value {
                ConstView::Object(entries) => {
                    let outcomes = coerced_members(schema, fields@, json->Object_0, variable, pos);
                    assert forall|i: int| 0 <= i < outcomes.len() implies #[trigger] outcomes[i]
                        == Ok::<(Seq<char>, ConstView), ValidationErrorView>(entries[i]) by {
                        assert(member_matches(schema, fields@, entries[i]));
                        match input_named(fields@, entries[i].0) {
                            Some(field) => {
                                lemma_coercion_is_identity(
                                    schema,
                                    field.ty,
                                    entries[i].1,
                                    variable,
                                    pos,
                                );
                            },
                            None => {
                                crate::value::lemma_plain_round_trip(entries[i].1);
                            },
                        }
                    }
                    crate::results::lemma_collected_all(outcomes);
                    assert forall|i: int| 0 <= i < entries.len() implies collected(
                        outcomes,
                    )->Ok_0[i] == entries[i] by {
                        assert(outcomes[i] is Ok);
                    }
                    assert(collected(outcomes)->Ok_0 =~= entries);
                },
                _ => {},
            },
            _ => {
                crate::value::lemma_plain_round_trip(value);
            },
        },
    }
}

/// An operation that passed validation: its fields with their arguments
/// resolved and their fragments spread.
#[derive(Debug, PartialEq, Eq)]
pub struct ValidatedOperation {
    pub name: Option<String>,
    pub typ: OperationType,
    pub fields: Vec<ValidatedField>,
}

/// The view of a [`ValidatedOperation`].
pub struct ValidatedOperationView {
    pub name: Option<Seq<char>>,
    pub typ: OperationType,
    pub fields: Seq<FieldView>,
}

impl View for ValidatedOperation {
    type V = ValidatedOperationView;

    open spec fn view(&self) -> ValidatedOperationView {
        ValidatedOperationView {
            name: crate::field::text_option_view(self.name),
            typ: self.typ,
            fields: field_views(self.fields@),
        }
    }
}

/// The name of the root type of a kind of operation.
pub open spec fn root_type_name(ty: OperationType) -> Seq<char> {
    match ty {
        OperationType::Query => QUERY_ROOT_TYPENAME@,
        _ => MUTATION_ROOT_TYPENAME@,
    }
}

/// The validated form of an operation, given the values of its variables.
/// The root type of the operation must be in the schema; the variables are
/// resolved in the order of their declarations; the selection is validated on
/// the root type from depth 0, before it is known whether the query asks
/// about the schema itself.
pub open spec fn validated_operation(
    schema: Schema,
    operation_name: Option<Seq<char>>,
    variables: Seq<(Seq<char>, JsonView)>,
    fragments: Seq<FragmentDefinition>,
    normal_limit: usize,
    introspection_limit: usize,
    operation: OperationDefinition,
) -> Result<ValidatedOperationView, ValidationErrorView> {
    match schema.spec_type_definition(root_type_name(operation.ty)) {
        None => Err(
            ValidationErrorView::OperationNotFound(
                root_type_name(operation.ty),
                Pos { line: 0, column: 0 },
            ),
        ),
        Some(container) => match collected(
            variable_outcomes(schema, variables, operation.variable_definitions@),
        ) {
            Err(e) => Err(e),
            Ok(resolved) => match validated_selections(
                WalkView {
                    schema,
                    variables: resolved,
                    fragments,
                    normal_limit,
                    introspection_limit,
                },
                container,
                operation.selection_set@,
                0,
                None,
                operation.pos,
                fragments.len(),
            ) {
                Err(e) => Err(e),
                Ok(fields) => Ok(
                    ValidatedOperationView { name: operation_name, typ: operation.ty, fields },
                ),
            },
        },
    }
}

} // verus!
