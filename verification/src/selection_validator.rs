//! Validation of a selection set: every field is a field of its type, every
//! variable has its value, every fragment is defined, and nothing is nested
//! deeper than allowed.

use vstd::prelude::*;
use crate::document::{DocumentValue, Field, FragmentDefinition, Selection};
use crate::field::{field_views, lemma_subfield_views, text_option_view, FieldView, ValidatedField};
use crate::results::{collected, lemma_collected_error_stays, lemma_collected_step};
use crate::text::{index_of, lemma_index_of_is, lemma_index_of_none, str_eq};
use crate::validation::{
    depth_checked, FieldDefinition, Pos, Schema, Type, TypeDefinition, TypeKind, ValidationError,
    ValidationErrorView, BaseType,
};
use crate::value::{
    const_field_views, const_get, const_views, lemma_const_list_view, lemma_const_object_view,
    lookup, ConstValue, ConstView,
};

verus! {

/// What a selection set is validated against.
pub struct Walk<'a> {
    pub schema: &'a Schema,
    /// The resolved values of the variables of the operation.
    pub variables: &'a Vec<(String, ConstValue)>,
    pub fragment_definitions: &'a Vec<FragmentDefinition>,
    pub normal_query_depth_limit: usize,
    pub introspection_query_depth_limit: usize,
}

/// The constant that a written value stands for: each variable replaced by
/// its value. A variable without a value is an error.
pub open spec fn resolved_value(v: DocumentValue, variables: Seq<(Seq<char>, ConstView)>, pos: Pos) -> Result<
    ConstView,
    ValidationErrorView,
>
    decreases v,
{
    match v {
        DocumentValue::Variable(name) => match lookup(variables, name@) {
            Some(c) => Ok(c),
            None => Err(ValidationErrorView::VariableNotFound(name@, pos)),
        },
        DocumentValue::Null => Ok(ConstView::Null),
        DocumentValue::Number(n) => Ok(ConstView::Number(n@)),
        DocumentValue::String(s) => Ok(ConstView::String(s@)),
        DocumentValue::Boolean(b) => Ok(ConstView::Boolean(b)),
        DocumentValue::Enum(s) => Ok(ConstView::Enum(s@)),
        DocumentValue::List(items) => match collected(resolved_items(items@, variables, pos)) {
            Ok(values) => Ok(ConstView::List(values)),
            Err(e) => Err(e),
        },
        DocumentValue::Object(entries) => match collected(resolved_entries(entries@, variables, pos)) {
            Ok(values) => Ok(ConstView::Object(values)),
            Err(e) => Err(e),
        },
    }
}

/// The outcomes of resolving each of a list of values.
pub open spec fn resolved_items(
    items: Seq<DocumentValue>,
    variables: Seq<(Seq<char>, ConstView)>,
    pos: Pos,
) -> Seq<Result<ConstView, ValidationErrorView>>
    decreases items,
{
    Seq::new(
        items.len(),
        |i: int|
            if 0 <= i < items.len() {
                resolved_value(items[i], variables, pos)
            } else {
                Ok(ConstView::Null)
            },
    )
}

/// The outcomes of resolving each of a list of named values.
pub open spec fn resolved_entries(
    entries: Seq<(String, DocumentValue)>,
    variables: Seq<(Seq<char>, ConstView)>,
    pos: Pos,
) -> Seq<Result<(Seq<char>, ConstView), ValidationErrorView>>
    decreases entries,
{
    Seq::new(
        entries.len(),
        |i: int|
            if 0 <= i < entries.len() {
                match resolved_value(entries[i].1, variables, pos) {
                    Ok(v) => Ok((entries[i].0@, v)),
                    Err(e) => Err(e),
                }
            } else {
                Ok((Seq::empty(), ConstView::Null))
            },
    )
}

/// The view of the outcome of resolving a value.
pub open spec fn value_result_view(r: Result<ConstValue, ValidationError>) -> Result<
    ConstView,
    ValidationErrorView,
> {
    match r {
        Ok(v) => Ok(v@),
        Err(e) => Err(e@),
    }
}

/// Resolves a written value against the values of the variables.
pub fn resolve_value(v: &DocumentValue, variables: &Vec<(String, ConstValue)>, pos: Pos) -> (r: Result<
    ConstValue,
    ValidationError,
>)
    ensures
        value_result_view(r) == resolved_value(*v, const_field_views(variables@), pos),
    decreases v,
{
    match v {
        DocumentValue::Variable(name) => match const_get(variables, name.as_str()) {
            Some(c) => Ok(c.duplicate()),
            None => Err(ValidationError::VariableNotFound(name.clone(), pos)),
        },
        DocumentValue::Null => Ok(ConstValue::Null),
        DocumentValue::Number(n) => Ok(ConstValue::Number(n.duplicate())),
        DocumentValue::String(s) => Ok(ConstValue::String(s.clone())),
        DocumentValue::Boolean(b) => Ok(ConstValue::Boolean(*b)),
        DocumentValue::Enum(s) => Ok(ConstValue::Enum(s.clone())),
        DocumentValue::List(items) => {
            let ghost outcomes = resolved_items(items@, const_field_views(variables@), pos);
            let mut out: Vec<ConstValue> = Vec::new();
            let mut i: usize = 0;
            proof {
                assert(outcomes.take(0) =~= Seq::empty());
                assert(const_views(out@) =~= Seq::empty());
            }
            while i < items.len()
                invariant
                    i <= items.len(),
                    v is List,
                    v->List_0 == *items,
                    outcomes == resolved_items(items@, const_field_views(variables@), pos),
                    collected(outcomes.take(i as int)) == Ok::<Seq<ConstView>, ValidationErrorView>(
                        const_views(out@),
                    ),
                decreases items.len() - i,
            {
                proof {
                    assert(decreases_to!(*v => v->List_0));
                    assert(decreases_to!(*items => items[i as int]));
                    lemma_collected_step(outcomes, i as int);
                }
                let ghost before = out@;
                match resolve_value(&items[i], variables, pos) {
                    Ok(c) => {
                        out.push(c);
                        proof {
                            assert(const_views(out@) =~= const_views(before).push(c@));
                        }
                    },
                    Err(e) => {
                        proof {
                            lemma_collected_error_stays(outcomes, i + 1);
                        }
                        return Err(e);
                    },
                }
                i += 1;
            }
            proof {
                assert(outcomes.take(i as int) =~= outcomes);
                lemma_const_list_view(out);
            }
            Ok(ConstValue::List(out))
        },
        DocumentValue::Object(entries) => {
            proof {
                assert(decreases_to!(*v => v->Object_0));
            }
            match resolve_entries(entries, variables, pos) {
                Ok(out) => {
                    proof {
                        lemma_const_object_view(out);
                    }
                    Ok(ConstValue::Object(out))
                },
                Err(e) => Err(e),
            }
        },
    }
}

/// Resolves each of a list of named values.
pub fn resolve_entries(entries: &Vec<(String, DocumentValue)>, variables: &Vec<(String, ConstValue)>, pos: Pos) -> (r:
    Result<Vec<(String, ConstValue)>, ValidationError>)
    ensures
        match r {
            Ok(out) => Ok(const_field_views(out@)),
            Err(e) => Err(e@),
        } == collected(resolved_entries(entries@, const_field_views(variables@), pos)),
    decreases entries,
{
    let ghost outcomes = resolved_entries(entries@, const_field_views(variables@), pos);
    let mut out: Vec<(String, ConstValue)> = Vec::new();
    let mut i: usize = 0;
    proof {
        assert(outcomes.take(0) =~= Seq::empty());
        assert(const_field_views(out@) =~= Seq::empty());
    }
    while i < entries.len()
        invariant
            i <= entries.len(),
            outcomes == resolved_entries(entries@, const_field_views(variables@), pos),
            collected(outcomes.take(i as int)) == Ok::<
                Seq<(Seq<char>, ConstView)>,
                ValidationErrorView,
            >(const_field_views(out@)),
        decreases entries.len() - i,
    {
        proof {
            assert(decreases_to!(*entries => entries[i as int]));
            assert(decreases_to!(entries[i as int] => entries[i as int].1));
            lemma_collected_step(outcomes, i as int);
        }
        let ghost before = out@;
        match resolve_value(&entries[i].1, variables, pos) {
            Ok(c) => {
                let name = entries[i].0.clone();
                out.push((name, c));
                proof {
                    assert(const_field_views(out@) =~= const_field_views(before).push((name@, c@)));
                }
            },
            Err(e) => {
                proof {
                    lemma_collected_error_stays(outcomes, i + 1);
                }
                return Err(e);
            },
        }
        i += 1;
    }
    proof {
        assert(outcomes.take(i as int) =~= outcomes);
    }
    Ok(out)
}

/// The names of a list of field definitions.
pub open spec fn definition_names(fields: Seq<FieldDefinition>) -> Seq<Seq<char>> {
    Seq::new(fields.len(), |i: int| fields[i].name@)
}

/// The field named `name` of a type, if the type is an object type that has one.
pub open spec fn field_of(container: TypeDefinition, name: Seq<char>) -> Option<FieldDefinition> {
    match container.kind {
        TypeKind::Object(fields) => match index_of(definition_names(fields@), name) {
            Some(i) => Some(fields@[i]),
            None => None,
        },
        _ => None,
    }
}

/// Finds the field named `name` of a type.
pub fn find_field<'a>(container: &'a TypeDefinition, name: &str) -> (r: Option<&'a FieldDefinition>)
    ensures
        match r {
            Some(f) => field_of(*container, name@) == Some(*f),
            None => field_of(*container, name@).is_none(),
        },
{
    match &container.kind {
        TypeKind::Object(fields) => {
            let mut i: usize = 0;
            while i < fields.len()
                invariant
                    i <= fields.len(),
                    container.kind == TypeKind::Object(*fields),
                    forall|j: int| 0 <= j < i ==> fields@[j].name@ != name@,
                decreases fields.len() - i,
            {
                if str_eq(fields[i].name.as_str(), name) {
                    proof {
                        lemma_index_of_is(definition_names(fields@), name@, i as int);
                    }
                    return Some(&fields[i]);
                }
                i += 1;
            }
            proof {
                lemma_index_of_none(definition_names(fields@), name@);
            }
            None
        },
        _ => None,
    }
}

/// The name of the type that a declared type ends in.
pub open spec fn innermost_name(t: Type) -> Seq<char>
    decreases t,
{
    match t.base {
        BaseType::Named(n) => n@,
        BaseType::List(inner) => innermost_name(*inner),
    }
}

/// The name of the type that a declared type ends in.
pub fn innermost(t: &Type) -> (r: &String)
    ensures
        r@ == innermost_name(*t),
    decreases t,
{
    match &t.base {
        BaseType::Named(n) => n,
        BaseType::List(inner) => innermost(inner),
    }
}

/// The names of a list of fragments.
pub open spec fn fragment_names(fragments: Seq<FragmentDefinition>) -> Seq<Seq<char>> {
    Seq::new(fragments.len(), |i: int| fragments[i].name@)
}

/// The first fragment named `name`.
pub open spec fn fragment_named(fragments: Seq<FragmentDefinition>, name: Seq<char>) -> Option<
    FragmentDefinition,
> {
    match index_of(fragment_names(fragments), name) {
        Some(i) => Some(fragments[i]),
        None => None,
    }
}

/// Finds the fragment named `name`.
pub fn find_fragment<'a>(fragments: &'a Vec<FragmentDefinition>, name: &str) -> (r: Option<
    &'a FragmentDefinition,
>)
    ensures
        match r {
            Some(f) => fragment_named(fragments@, name@) == Some(*f),
            None => fragment_named(fragments@, name@).is_none(),
        },
{
    let mut i: usize = 0;
    while i < fragments.len()
        invariant
            i <= fragments.len(),
            forall|j: int| 0 <= j < i ==> fragments@[j].name@ != name@,
        decreases fragments.len() - i,
    {
        if str_eq(fragments[i].name.as_str(), name) {
            proof {
                lemma_index_of_is(fragment_names(fragments@), name@, i as int);
            }
            return Some(&fragments[i]);
        }
        i += 1;
    }
    proof {
        lemma_index_of_none(fragment_names(fragments@), name@);
    }
    None
}

/// The fields of a list of lists of fields, one list after the other.
pub open spec fn concatenated(parts: Seq<Seq<FieldView>>) -> Seq<FieldView>
    decreases parts.len(),
{
    if parts.len() == 0 {
        Seq::empty()
    } else {
        concatenated(parts.drop_last()) + parts.last()
    }
}

/// Whether a field of the root asks about the schema itself.
pub open spec fn is_introspection_field(name: Seq<char>) -> bool {
    name == "__schema"@ || name == "__type"@
}

/// What a selection set is validated against, in terms of views.
pub struct WalkView {
    pub schema: Schema,
    pub variables: Seq<(Seq<char>, ConstView)>,
    pub fragments: Seq<FragmentDefinition>,
    pub normal_limit: usize,
    pub introspection_limit: usize,
}

impl<'a> View for Walk<'a> {
    type V = WalkView;

    open spec fn view(&self) -> WalkView {
        WalkView {
            schema: *self.schema,
            variables: const_field_views(self.variables@),
            fragments: self.fragment_definitions@,
            normal_limit: self.normal_query_depth_limit,
            introspection_limit: self.introspection_query_depth_limit,
        }
    }
}

/// The validated fields of a selection set on the type `container` at depth
/// `depth`: the fields that its items select, in the order of the items, a
/// fragment standing for the fields that it selects. The depth is checked
/// first. Along one path no more than `budget` fragments are spread.
pub open spec fn validated_selections(
    w: WalkView,
    container: TypeDefinition,
    selections: Seq<Selection>,
    depth: usize,
    is_introspection: Option<bool>,
    pos: Pos,
    budget: nat,
) -> Result<Seq<FieldView>, ValidationErrorView>
    decreases budget, selections, 1nat,
{
    match depth_checked(w.normal_limit, w.introspection_limit, depth, is_introspection, pos) {
        Err(e) => Err(e@),
        Ok(_) => match collected(
            selection_outcomes(w, container, selections, depth, is_introspection, budget),
        ) {
            Ok(parts) => Ok(concatenated(parts)),
            Err(e) => Err(e),
        },
    }
}

/// The outcomes of validating each item of a selection set.
pub open spec fn selection_outcomes(
    w: WalkView,
    container: TypeDefinition,
    selections: Seq<Selection>,
    depth: usize,
    is_introspection: Option<bool>,
    budget: nat,
) -> Seq<Result<Seq<FieldView>, ValidationErrorView>>
    decreases budget, selections, 0nat,
{
    Seq::new(
        selections.len(),
        |i: int|
            if 0 <= i < selections.len() {
                validated_selection(w, container, selections[i], depth, is_introspection, budget)
            } else {
                Ok(Seq::empty())
            },
    )
}

/// The validated fields that one item of a selection set selects.
pub open spec fn validated_selection(
    w: WalkView,
    container: TypeDefinition,
    selection: Selection,
    depth: usize,
    is_introspection: Option<bool>,
    budget: nat,
) -> Result<Seq<FieldView>, ValidationErrorView>
    decreases budget, selection, 2nat,
{
    match selection {
        Selection::Field(field) => match validated_field(
            w,
            container,
            field,
            depth,
            is_introspection,
            budget,
        ) {
            Ok(f) => Ok(seq![f]),
            Err(e) => Err(e),
        },
        Selection::FragmentSpread { fragment_name, pos } => match fragment_named(
            w.fragments,
            fragment_name@,
        ) {
            None => Err(ValidationErrorView::FragmentDefinitionNotFound(fragment_name@, pos)),
            Some(fragment) => if budget == 0 {
                Err(ValidationErrorView::FragmentCycle(fragment_name@, pos))
            } else {
                validated_selections(
                    w,
                    container,
                    fragment.selection_set@,
                    depth,
                    is_introspection,
                    pos,
                    (budget - 1) as nat,
                )
            },
        },
        Selection::InlineFragment { selection_set, pos } => validated_selections(
            w,
            container,
            selection_set@,
            depth,
            is_introspection,
            pos,
            budget,
        ),
    }
}

/// The validated form of a selected field: the field must be a field of
/// `container`, its arguments are resolved, and its own selection is
/// validated one level deeper on the type that the field's type ends in.
/// `__typename` is a field of every type.
pub open spec fn validated_field(
    w: WalkView,
    container: TypeDefinition,
    field: Field,
    depth: usize,
    is_introspection: Option<bool>,
    budget: nat,
) -> Result<FieldView, ValidationErrorView>
    decreases budget, field, 3nat,
{
    if field.name@ == "__typename"@ {
        Ok(
            FieldView {
                alias: text_option_view(field.alias),
                name: field.name@,
                arguments: Seq::empty(),
                subfields: Seq::empty(),
            },
        )
    } else {
        match field_of(container, field.name@) {
            None => Err(ValidationErrorView::InvalidField(field.name@, container.name@, field.pos)),
            Some(definition) => match collected(
                resolved_entries(field.arguments@, w.variables, field.pos),
            ) {
                Err(e) => Err(e),
                Ok(arguments) => {
                    let subfields = if field.selection_set@.len() == 0 {
                        Ok(Seq::empty())
                    } else if depth == usize::MAX {
                        Err(ValidationErrorView::SelectionSetTooDeep(field.pos))
                    } else {
                        match w.schema.spec_type_definition(innermost_name(definition.ty)) {
                            None => Err(
                                ValidationErrorView::InvalidField(
                                    field.name@,
                                    innermost_name(definition.ty),
                                    field.pos,
                                ),
                            ),
                            Some(nested) => validated_selections(
                                w,
                                nested,
                                field.selection_set@,
                                (depth + 1) as usize,
                                Some(
                                    match is_introspection {
                                        Some(b) => b,
                                        None => is_introspection_field(field.name@),
                                    },
                                ),
                                field.pos,
                                budget,
                            ),
                        }
                    };
                    match subfields {
                        Err(e) => Err(e),
                        Ok(fields) => Ok(
                            FieldView {
                                alias: text_option_view(field.alias),
                                name: field.name@,
                                arguments,
                                subfields: fields,
                            },
                        ),
                    }
                },
            },
        }
    }
}

/// The view of the outcome of validating a selection.
pub open spec fn fields_result_view(r: Result<Vec<ValidatedField>, ValidationError>) -> Result<
    Seq<FieldView>,
    ValidationErrorView,
> {
    match r {
        Ok(fields) => Ok(field_views(fields@)),
        Err(e) => Err(e@),
    }
}

/// Checks the depth of a selection against the limit of its kind of query.
pub fn check_depth(
    normal_limit: usize,
    introspection_limit: usize,
    depth: usize,
    is_introspection: Option<bool>,
    pos: Pos,
) -> (r: Result<bool, ValidationError>)
    ensures
        r == depth_checked(normal_limit, introspection_limit, depth, is_introspection, pos),
{
    match is_introspection {
        Some(is_introspection) => {
            let max_depth = if is_introspection {
                introspection_limit
            } else {
                normal_limit
            };
            if depth > max_depth {
                Err(ValidationError::SelectionSetTooDeep(pos))
            } else {
                Ok(true)
            }
        },
        None => Ok(true),
    }
}

/// Validates a selection set on the type `container` at depth `depth`.
pub fn validate_selection_set(
    w: &Walk,
    container: &TypeDefinition,
    selections: &Vec<Selection>,
    depth: usize,
    is_introspection: Option<bool>,
    pos: Pos,
    budget: usize,
) -> (r: Result<Vec<ValidatedField>, ValidationError>)
    ensures
        fields_result_view(r) == validated_selections(
            w@,
            *container,
            selections@,
            depth,
            is_introspection,
            pos,
            budget as nat,
        ),
    decreases budget, selections@, 1nat,
{
    match check_depth(
        w.normal_query_depth_limit,
        w.introspection_query_depth_limit,
        depth,
        is_introspection,
        pos,
    ) {
        Ok(_) => {},
        Err(e) => {
            return Err(e);
        },
    }
    let ghost outcomes = selection_outcomes(
        w@,
        *container,
        selections@,
        depth,
        is_introspection,
        budget as nat,
    );
    let ghost mut parts: Seq<Seq<FieldView>> = Seq::empty();
    let mut out: Vec<ValidatedField> = Vec::new();
    let mut i: usize = 0;
    proof {
        assert(outcomes.take(0) =~= Seq::empty());
        assert(field_views(out@) =~= Seq::empty());
    }
    while i < selections.len()
        invariant
            i <= selections.len(),
            depth_checked(
                w.normal_query_depth_limit,
                w.introspection_query_depth_limit,
                depth,
                is_introspection,
                pos,
            ) is Ok,
            outcomes == selection_outcomes(
                w@,
                *container,
                selections@,
                depth,
                is_introspection,
                budget as nat,
            ),
            collected(outcomes.take(i as int)) == Ok::<Seq<Seq<FieldView>>, ValidationErrorView>(
                parts,
            ),
            field_views(out@) == concatenated(parts),
        decreases selections.len() - i,
    {
        proof {
            assert(decreases_to!(selections@ => selections@[i as int]));
            lemma_collected_step(outcomes, i as int);
        }
        let ghost before = out@;
        match validate_selection(w, container, &selections[i], depth, is_introspection, budget) {
            Ok(fields) => {
                let mut fields = fields;
                let ghost added = field_views(fields@);
                out.append(&mut fields);
                proof {
                    assert(field_views(out@) =~= field_views(before) + added);
                    assert(parts.push(added).drop_last() =~= parts);
                    parts = parts.push(added);
                }
            },
            Err(e) => {
                proof {
                    lemma_collected_error_stays(outcomes, i + 1);
                }
                return Err(e);
            },
        }
        i += 1;
    }
    proof {
        assert(outcomes.take(i as int) =~= outcomes);
    }
    Ok(out)
}

/// Validates one item of a selection set.
pub fn validate_selection(
    w: &Walk,
    container: &TypeDefinition,
    selection: &Selection,
    depth: usize,
    is_introspection: Option<bool>,
    budget: usize,
) -> (r: Result<Vec<ValidatedField>, ValidationError>)
    ensures
        fields_result_view(r) == validated_selection(
            w@,
            *container,
            *selection,
            depth,
            is_introspection,
            budget as nat,
        ),
    decreases budget, selection, 2nat,
{
    match selection {
        Selection::Field(field) => {
            match validate_field(w, container, field, depth, is_introspection, budget) {
                Ok(f) => {
                    let mut out: Vec<ValidatedField> = Vec::new();
                    out.push(f);
                    proof {
                        assert(field_views(out@) =~= seq![f@]);
                    }
                    Ok(out)
                },
                Err(e) => Err(e),
            }
        },
        Selection::FragmentSpread { fragment_name, pos } => {
            match find_fragment(w.fragment_definitions, fragment_name.as_str()) {
                None => Err(ValidationError::FragmentDefinitionNotFound(fragment_name.clone(), *pos)),
                Some(fragment) => {
                    if budget == 0 {
                        Err(ValidationError::FragmentCycle(fragment_name.clone(), *pos))
                    } else {
                        validate_selection_set(
                            w,
                            container,
                            &fragment.selection_set,
                            depth,
                            is_introspection,
                            *pos,
                            budget - 1,
                        )
                    }
                },
            }
        },
        Selection::InlineFragment { selection_set, pos } => {
            proof {
                assert(decreases_to!(*selection => selection->InlineFragment_selection_set));
                assert(decreases_to!(*selection_set => selection_set@));
            }
            validate_selection_set(
                w,
                container,
                selection_set,
                depth,
                is_introspection,
                *pos,
                budget,
            )
        },
    }
}

/// Validates a selected field.
pub fn validate_field(
    w: &Walk,
    container: &TypeDefinition,
    field: &Field,
    depth: usize,
    is_introspection: Option<bool>,
    budget: usize,
) -> (r: Result<ValidatedField, ValidationError>)
    ensures
        match r {
            Ok(f) => Ok(f@),
            Err(e) => Err(e@),
        } == validated_field(w@, *container, *field, depth, is_introspection, budget as nat),
    decreases budget, field, 3nat,
{
    if str_eq(field.name.as_str(), "__typename") {
        let r = ValidatedField {
            alias: crate::field::duplicate_text_option(&field.alias),
            name: field.name.clone(),
            arguments: Vec::new(),
            subfields: Vec::new(),
        };
        proof {
            lemma_subfield_views(r);
            assert(field_views(r.subfields@) =~= Seq::empty());
            assert(const_field_views(r.arguments@) =~= Seq::empty());
        }
        return Ok(r);
    }
    let definition = match find_field(container, field.name.as_str()) {
        Some(d) => d,
        None => {
            return Err(
                ValidationError::InvalidField(field.name.clone(), container.name.clone(), field.pos),
            );
        },
    };
    let arguments = match resolve_entries(&field.arguments, w.variables, field.pos) {
        Ok(a) => a,
        Err(e) => {
            return Err(e);
        },
    };
    let subfields = if field.selection_set.len() == 0 {
        let empty: Vec<ValidatedField> = Vec::new();
        proof {
            assert(field_views(empty@) =~= Seq::empty());
        }
        empty
    } else if depth == usize::MAX {
        return Err(ValidationError::SelectionSetTooDeep(field.pos));
    } else {
        let named = innermost(&definition.ty);
        match w.schema.get_type_definition(named.as_str()) {
            None => {
                return Err(
                    ValidationError::InvalidField(field.name.clone(), named.clone(), field.pos),
                );
            },
            Some(nested) => {
                let nested_introspection = match is_introspection {
                    Some(b) => b,
                    None => str_eq(field.name.as_str(), "__schema") || str_eq(
                        field.name.as_str(),
                        "__type",
                    ),
                };
                proof {
                    assert(decreases_to!(*field => field.selection_set));
                    assert(decreases_to!(field.selection_set => field.selection_set@));
                }
                match validate_selection_set(
                    w,
                    nested,
                    &field.selection_set,
                    depth + 1,
                    Some(nested_introspection),
                    field.pos,
                    budget,
                ) {
                    Ok(fields) => fields,
                    Err(e) => {
                        return Err(e);
                    },
                }
            },
        }
    };
    let r = ValidatedField {
        alias: crate::field::duplicate_text_option(&field.alias),
        name: field.name.clone(),
        arguments,
        subfields,
    };
    proof {
        lemma_subfield_views(r);
    }
    Ok(r)
}

} // verus!
