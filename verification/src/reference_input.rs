//! The input type by which a mutation refers to an entity that exists: the
//! fields of the entity's primary key.

use vstd::prelude::*;
use crate::access::AccessPredicateExpression;
use crate::schema::{Access, EntityRepresentation, EntityType, PostgresField, PostgresRelation};
use crate::text::{
    concat2, index_of, lemma_first_index, lemma_index_of_is, lemma_index_of_none, str_eq,
};

verus! {

/// A field of a type as its declaration resolves.
#[derive(Clone, Debug, PartialEq, Eq)]
pub struct ResolvedField {
    pub name: String,
    pub is_pk: bool,
}

/// A composite type as its declaration resolves.
#[derive(Clone, Debug, PartialEq, Eq)]
pub struct ResolvedCompositeType {
    pub name: String,
    pub fields: Vec<ResolvedField>,
    /// Whether the declared rule for creating is anything but `false`.
    pub creation_allowed: bool,
    /// Whether the declared rule for updating is anything but `false`.
    pub update_allowed: bool,
    pub representation: EntityRepresentation,
}

/// A field of an input type of a mutation.
#[derive(Clone, Debug, PartialEq, Eq)]
pub struct MutationField {
    pub name: String,
    pub access: Access,
    pub readonly: bool,
    /// The entity that the field refers to, for a field that is a relation.
    pub foreign_entity_id: Option<usize>,
}

/// The view of a [`MutationField`].
pub struct MutationFieldView {
    pub name: Seq<char>,
    pub access: Access,
    pub readonly: bool,
    pub foreign_entity_id: Option<usize>,
}

impl View for MutationField {
    type V = MutationFieldView;

    open spec fn view(&self) -> MutationFieldView {
        MutationFieldView {
            name: self.name@,
            access: self.access,
            readonly: self.readonly,
            foreign_entity_id: self.foreign_entity_id,
        }
    }
}

/// An input type of a mutation.
#[derive(Clone, Debug, PartialEq, Eq)]
pub struct MutationType {
    pub name: String,
    pub fields: Vec<MutationField>,
    pub entity_id: usize,
}

/// The view of a [`MutationType`].
pub struct MutationTypeView {
    pub name: Seq<char>,
    pub fields: Seq<MutationFieldView>,
    pub entity_id: usize,
}

/// The views of a list of mutation fields.
pub open spec fn mutation_field_views(fields: Seq<MutationField>) -> Seq<MutationFieldView> {
    Seq::new(fields.len(), |i: int| fields[i]@)
}

impl View for MutationType {
    type V = MutationTypeView;

    open spec fn view(&self) -> MutationTypeView {
        MutationTypeView {
            name: self.name@,
            fields: mutation_field_views(self.fields@),
            entity_id: self.entity_id,
        }
    }
}

/// The views of a list of mutation types.
pub open spec fn mutation_type_views(types: Seq<MutationType>) -> Seq<MutationTypeView> {
    Seq::new(types.len(), |i: int| types[i]@)
}

/// The model while it is being built.
#[derive(Debug, PartialEq, Eq)]
pub struct SystemContextBuilding {
    pub entity_types: Vec<EntityType>,
    pub database_access_expressions: Vec<AccessPredicateExpression>,
    pub precheck_access_expressions: Vec<AccessPredicateExpression>,
    /// The input types of mutations, declared by name before they are filled in.
    pub mutation_types: Vec<MutationType>,
}

/// The name of the reference input type of the type named `name`.
pub open spec fn reference_type_name(name: Seq<char>) -> Seq<char> {
    name + "ReferenceInput"@
}

/// The names of a list of mutation types.
pub open spec fn mutation_type_names(types: Seq<MutationType>) -> Seq<Seq<char>> {
    Seq::new(types.len(), |i: int| types[i].name@)
}

/// Whether a rule is the literal `false`.
pub open spec fn is_literal_false(e: AccessPredicateExpression) -> bool {
    e == AccessPredicateExpression::BooleanLiteral(false)
}

fn literal_false(e: &AccessPredicateExpression) -> (r: bool)
    ensures
        r == is_literal_false(*e),
{
    match e {
        AccessPredicateExpression::BooleanLiteral(b) => !*b,
        _ => false,
    }
}

/// Whether the rules that an entity names exist.
pub open spec fn entity_rules_exist(entity: EntityType, building: SystemContextBuilding) -> bool {
    &&& entity.access.creation_precheck < building.precheck_access_expressions@.len()
    &&& entity.access.update_precheck < building.precheck_access_expressions@.len()
    &&& entity.access.update_database < building.database_access_expressions@.len()
}

/// Whether an entity may be referred to by a mutation: not where creating it
/// and updating it, by precheck and by database rule, are all forbidden outright.
pub open spec fn allows_reference_input(entity: EntityType, building: SystemContextBuilding) -> bool {
    !(is_literal_false(
        building.precheck_access_expressions@[entity.access.creation_precheck as int],
    ) && is_literal_false(
        building.precheck_access_expressions@[entity.access.update_precheck as int],
    ) && is_literal_false(
        building.database_access_expressions@[entity.access.update_database as int],
    ))
}

/// Tests whether an entity may be referred to by a mutation.
pub fn entity_allows_reference_input(entity_type: &EntityType, building: &SystemContextBuilding) -> (r:
    bool)
    requires
        entity_rules_exist(*entity_type, *building),
    ensures
        r == allows_reference_input(*entity_type, *building),
{
    let update_precheck_false = literal_false(
        &building.precheck_access_expressions[entity_type.access.update_precheck],
    );
    let update_database_false = literal_false(
        &building.database_access_expressions[entity_type.access.update_database],
    );
    let creation_access_is_false = literal_false(
        &building.precheck_access_expressions[entity_type.access.creation_precheck],
    );
    !(creation_access_is_false && update_precheck_false && update_database_false)
}

/// The field of a reference input type that a field of the entity gives: one
/// for each field of the primary key, be it a column or a relation.
pub open spec fn reference_field(field: PostgresField) -> Option<MutationFieldView> {
    match field.relation {
        PostgresRelation::Scalar { is_pk: true, .. } => Some(
            MutationFieldView {
                name: field.name@,
                access: field.access,
                readonly: field.readonly,
                foreign_entity_id: None,
            },
        ),
        PostgresRelation::ManyToOne { is_pk: true, foreign_entity_id, .. } => Some(
            MutationFieldView {
                name: field.name@,
                access: field.access,
                readonly: field.readonly,
                foreign_entity_id: Some(foreign_entity_id),
            },
        ),
        _ => None,
    }
}

/// The fields of the reference input type of an entity, in the order of the
/// entity's fields.
pub open spec fn reference_fields(fields: Seq<PostgresField>) -> Seq<MutationFieldView>
    decreases fields.len(),
{
    if fields.len() == 0 {
        Seq::empty()
    } else {
        match reference_field(fields.last()) {
            Some(f) => reference_fields(fields.drop_last()).push(f),
            None => reference_fields(fields.drop_last()),
        }
    }
}

fn map_reference_field(field: &PostgresField) -> (r: Option<MutationField>)
    ensures
        match r {
            Some(f) => reference_field(*field) == Some(f@),
            None => reference_field(*field).is_none(),
        },
{
    match &field.relation {
        PostgresRelation::Scalar { is_pk, .. } => {
            if *is_pk {
                Some(
                    MutationField {
                        name: field.name.clone(),
                        access: field.access,
                        readonly: field.readonly,
                        foreign_entity_id: None,
                    },
                )
            } else {
                None
            }
        },
        PostgresRelation::ManyToOne { is_pk, foreign_entity_id, .. } => {
            if *is_pk {
                Some(
                    MutationField {
                        name: field.name.clone(),
                        access: field.access,
                        readonly: field.readonly,
                        foreign_entity_id: Some(*foreign_entity_id),
                    },
                )
            } else {
                None
            }
        },
        _ => None,
    }
}

/// The names of a list of entities.
pub open spec fn entity_names(entities: Seq<EntityType>) -> Seq<Seq<char>> {
    Seq::new(entities.len(), |i: int| entities[i].name@)
}

/// Whether the reference input type of an entity can be filled in: the type
/// was declared, and the entity is in the model.
pub open spec fn reference_type_declared(entity: EntityType, building: SystemContextBuilding) -> bool {
    &&& index_of(mutation_type_names(building.mutation_types@), reference_type_name(entity.name@))
        is Some
    &&& index_of(entity_names(building.entity_types@), entity.name@) is Some
}

/// The reference input type of an entity with the position it is declared
/// at: none for an entity that may not be referred to or that has no primary key.
pub open spec fn expanded_reference_type(entity: EntityType, building: SystemContextBuilding) -> Option<
    (usize, MutationTypeView),
> {
    if !allows_reference_input(entity, building) || reference_fields(entity.fields@).len() == 0 {
        None
    } else {
        Some(
            (
                index_of(
                    mutation_type_names(building.mutation_types@),
                    reference_type_name(entity.name@),
                ).unwrap() as usize,
                MutationTypeView {
                    name: reference_type_name(entity.name@),
                    fields: reference_fields(entity.fields@),
                    entity_id: index_of(
                        entity_names(building.entity_types@),
                        entity.name@,
                    ).unwrap() as usize,
                },
            ),
        )
    }
}

fn position_of_mutation_type(types: &Vec<MutationType>, name: &str) -> (r: Option<usize>)
    ensures
        match r {
            Some(i) => index_of(mutation_type_names(types@), name@) == Some(i as int) && i
                < types@.len(),
            None => index_of(mutation_type_names(types@), name@).is_none(),
        },
{
    let mut i: usize = 0;
    while i < types.len()
        invariant
            i <= types.len(),
            forall|j: int| 0 <= j < i ==> types@[j].name@ != name@,
        decreases types.len() - i,
    {
        if str_eq(types[i].name.as_str(), name) {
            proof {
                lemma_index_of_is(mutation_type_names(types@), name@, i as int);
            }
            return Some(i);
        }
        i += 1;
    }
    proof {
        lemma_index_of_none(mutation_type_names(types@), name@);
    }
    None
}

fn position_of_entity(entities: &Vec<EntityType>, name: &str) -> (r: Option<usize>)
    ensures
        match r {
            Some(i) => index_of(entity_names(entities@), name@) == Some(i as int) && i
                < entities@.len(),
            None => index_of(entity_names(entities@), name@).is_none(),
        },
{
    let mut i: usize = 0;
    while i < entities.len()
        invariant
            i <= entities.len(),
            forall|j: int| 0 <= j < i ==> entities@[j].name@ != name@,
        decreases entities.len() - i,
    {
        if str_eq(entities[i].name.as_str(), name) {
            proof {
                lemma_index_of_is(entity_names(entities@), name@, i as int);
            }
            return Some(i);
        }
        i += 1;
    }
    proof {
        lemma_index_of_none(entity_names(entities@), name@);
    }
    None
}

/// Makes the reference input type of an entity.
pub fn expanded_reference_types(entity_type: &EntityType, building: &SystemContextBuilding) -> (r:
    Option<(usize, MutationType)>)
    requires
        entity_rules_exist(*entity_type, *building),
        reference_type_declared(*entity_type, *building),
    ensures
        match r {
            Some((id, t)) => expanded_reference_type(*entity_type, *building) == Some((id, t@))
                && id < building.mutation_types@.len(),
            None => expanded_reference_type(*entity_type, *building).is_none(),
        },
{
    if !entity_allows_reference_input(entity_type, building) {
        return None;
    }
    let mut reference_type_fields: Vec<MutationField> = Vec::new();
    let mut i: usize = 0;
    proof {
        assert(entity_type.fields@.take(0) =~= Seq::empty());
        assert(mutation_field_views(reference_type_fields@) =~= Seq::empty());
    }
    while i < entity_type.fields.len()
        invariant
            i <= entity_type.fields.len(),
            mutation_field_views(reference_type_fields@) == reference_fields(
                entity_type.fields@.take(i as int),
            ),
        decreases entity_type.fields.len() - i,
    {
        let ghost before = reference_type_fields@;
        proof {
            assert(entity_type.fields@.take(i + 1).drop_last() =~= entity_type.fields@.take(
                i as int,
            ));
            assert(entity_type.fields@.take(i + 1).last() == entity_type.fields@[i as int]);
        }
        match map_reference_field(&entity_type.fields[i]) {
            Some(f) => {
                reference_type_fields.push(f);
                proof {
                    assert(mutation_field_views(reference_type_fields@) =~= mutation_field_views(
                        before,
                    ).push(f@));
                }
            },
            None => {},
        }
        i += 1;
    }
    proof {
        assert(entity_type.fields@.take(i as int) =~= entity_type.fields@);
    }
    if reference_type_fields.len() == 0 {
        return None;
    }
    let existing_type_name = concat2(entity_type.name.as_str(), "ReferenceInput");
    let existing_type_id = position_of_mutation_type(
        &building.mutation_types,
        existing_type_name.as_str(),
    ).unwrap();
    let entity_id = position_of_entity(&building.entity_types, entity_type.name.as_str()).unwrap();
    Some(
        (
            existing_type_id,
            MutationType { name: existing_type_name, fields: reference_type_fields, entity_id },
        ),
    )
}

/// Builds the input types by which mutations refer to entities.
pub struct ReferenceInputTypeBuilder;

impl ReferenceInputTypeBuilder {
    /// The names of the input types that the builder makes for a type: its
    /// reference input type, where the type may be created or updated and has
    /// a primary key.
    pub fn type_names(&self, resolved_composite_type: &ResolvedCompositeType) -> (r: Vec<String>)
        ensures
            r@.len() <= 1,
            r@.len() == 1 <==> ((resolved_composite_type.creation_allowed
                || resolved_composite_type.update_allowed) && exists|i: int|
                0 <= i < resolved_composite_type.fields@.len()
                    && resolved_composite_type.fields@[i].is_pk),
            r@.len() == 1 ==> r@[0]@ == reference_type_name(resolved_composite_type.name@),
    {
        let mut names: Vec<String> = Vec::new();
        if !resolved_composite_type.creation_allowed && !resolved_composite_type.update_allowed {
            return names;
        }
        let mut has_pk = false;
        let mut i: usize = 0;
        while i < resolved_composite_type.fields.len()
            invariant
                i <= resolved_composite_type.fields.len(),
                has_pk <==> exists|j: int| 0 <= j < i && resolved_composite_type.fields@[j].is_pk,
            decreases resolved_composite_type.fields.len() - i,
        {
            if resolved_composite_type.fields[i].is_pk {
                has_pk = true;
            }
            i += 1;
        }
        if !has_pk {
            return names;
        }
        names.push(concat2(resolved_composite_type.name.as_str(), "ReferenceInput"));
        names
    }

    /// Whether a type gets input types for mutations at all: not one that is
    /// stored as JSON.
    pub fn needs_mutation_type(&self, composite_type: &ResolvedCompositeType) -> (r: bool)
        ensures
            r == (composite_type.representation != EntityRepresentation::Json),
    {
        match composite_type.representation {
            EntityRepresentation::Json => false,
            _ => true,
        }
    }
}

/// Whether the reference input types of a model can be built: every entity
/// names rules that exist, its reference input type is declared, and the
/// entity itself is found by its name.
pub open spec fn buildable(building: SystemContextBuilding) -> bool {
    forall|e: int|
        0 <= e < building.entity_types@.len() ==> entity_rules_exist(
            #[trigger] building.entity_types@[e],
            building,
        ) && reference_type_declared(building.entity_types@[e], building)
}

/// The input types of mutations after the reference input types of the
/// first `count` entities were filled in: each at the position where it was
/// declared. An entity that is stored as JSON has none.
pub open spec fn built_types(building: SystemContextBuilding, count: int) -> Seq<MutationTypeView>
    decreases count,
{
    if count <= 0 {
        mutation_type_views(building.mutation_types@)
    } else {
        let before = built_types(building, count - 1);
        let entity = building.entity_types@[count - 1];
        if entity.representation == EntityRepresentation::Json {
            before
        } else {
            match expanded_reference_type(entity, building) {
                Some((id, t)) => before.update(id as int, t),
                None => before,
            }
        }
    }
}

impl ReferenceInputTypeBuilder {
    /// Fills in the reference input types of all entities.
    pub fn build_expanded(&self, building: &mut SystemContextBuilding)
        requires
            buildable(*old(building)),
        ensures
            final(building).entity_types == old(building).entity_types,
            final(building).database_access_expressions == old(building).database_access_expressions,
            final(building).precheck_access_expressions == old(building).precheck_access_expressions,
            mutation_type_views(final(building).mutation_types@) == built_types(
                *old(building),
                old(building).entity_types@.len() as int,
            ),
    {
        let ghost initial = *building;
        let mut i: usize = 0;
        while i < building.entity_types.len()
            invariant
                i <= building.entity_types.len(),
                buildable(initial),
                building.entity_types == initial.entity_types,
                building.database_access_expressions == initial.database_access_expressions,
                building.precheck_access_expressions == initial.precheck_access_expressions,
                mutation_type_names(building.mutation_types@) == mutation_type_names(
                    initial.mutation_types@,
                ),
                mutation_type_views(building.mutation_types@) == built_types(initial, i as int),
            decreases building.entity_types.len() - i,
        {
            let ghost entity = initial.entity_types@[i as int];
            let ghost current = *building;
            proof {
                assert(entity_rules_exist(entity, initial));
                assert(reference_type_declared(entity, initial));
                assert(entity_rules_exist(entity, current));
                assert(reference_type_declared(entity, current));
                assert(allows_reference_input(entity, current) == allows_reference_input(
                    entity,
                    initial,
                ));
                assert(expanded_reference_type(entity, current) == expanded_reference_type(
                    entity,
                    initial,
                ));
            }
            let expanded = {
                let entity_type = &building.entity_types[i];
                match entity_type.representation {
                    EntityRepresentation::Json => None,
                    _ => expanded_reference_types(entity_type, building),
                }
            };
            match expanded {
                Some((existing_id, expanded_type)) => {
                    let ghost before = building.mutation_types@;
                    let ghost view = expanded_type@;
                    let declared = building.mutation_types.len();
                    building.mutation_types[existing_id] = expanded_type;
                    proof {
                        lemma_first_index(
                            mutation_type_names(before),
                            reference_type_name(entity.name@),
                            0,
                        );
                        assert(expanded_reference_type(entity, current) == Some(
                            (existing_id, view),
                        ));
                        assert(view.name == reference_type_name(entity.name@));
                        let idx = index_of(
                            mutation_type_names(before),
                            reference_type_name(entity.name@),
                        )->Some_0;
                        assert(0 <= idx < before.len());
                        assert(before.len() == declared);
                        assert(before == current.mutation_types@);
                        assert(existing_id == idx as usize);
                        assert(mutation_type_names(before)[idx] == reference_type_name(
                            entity.name@,
                        ));
                        assert(mutation_type_names(before)[existing_id as int]
                            == reference_type_name(entity.name@));
                        assert(mutation_type_names(building.mutation_types@) =~= mutation_type_names(
                            before,
                        ));
                        assert(mutation_type_views(building.mutation_types@) =~= mutation_type_views(
                            before,
                        ).update(existing_id as int, view));
                    }
                },
                None => {},
            }
            i += 1;
        }
    }
}

} // verus!
