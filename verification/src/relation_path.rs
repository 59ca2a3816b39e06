//! Whether a field that chains relations fits its declaration: every
//! segment follows a field that is no chain itself, and the shape that the
//! chain leads to (one value or many, always there or not) is the declared
//! one.

use vstd::prelude::*;
use crate::planner::step_is_unbounded;
use crate::schema::{
    FieldType, PostgresField, PostgresGraphQLSubsystem, PostgresRelation, RelationCardinality,
    RelationId, TransitiveRelationStep,
};
use crate::text::{concat2, concat3};

verus! {

/// Why a chain of relations does not fit the field that declares it.
#[derive(Clone, Copy, Debug, PartialEq, Eq, Structural)]
pub enum RelationPathError {
    /// The chain has no segment.
    Empty,
    /// The segment at this position follows a field that its entity lacks.
    UnknownSegment(usize),
    /// The segment at this position follows a field that is a chain itself.
    TransitiveSegment(usize),
    /// The chain leads to many values, the field is declared as one.
    CollectionAsSingle,
    /// The chain leads to one value, the field is declared as many.
    SingleAsCollection,
    /// The chain may lead to nothing, the field is declared as always there.
    OptionalAsRequired,
    /// The chain always leads to a value, the field is declared as optional.
    RequiredAsOptional,
}

/// Whether a chain leads to many values: one of its steps does.
pub open spec fn path_is_collection(steps: Seq<TransitiveRelationStep>) -> bool {
    exists|i: int| 0 <= i < steps.len() && step_is_unbounded(#[trigger] steps[i])
}

/// Whether a chain may lead to nothing: one of its steps may.
pub open spec fn path_is_optional(steps: Seq<TransitiveRelationStep>) -> bool {
    exists|i: int| 0 <= i < steps.len() && (#[trigger] steps[i]).is_optional
}

/// Whether a type is declared as optional.
pub open spec fn declared_optional(typ: FieldType) -> bool {
    typ is Optional
}

/// Whether a type is declared as a collection, optional or not.
pub open spec fn declared_collection(typ: FieldType) -> bool {
    match typ {
        FieldType::Plain(_) => false,
        FieldType::Optional(inner) => *inner is List,
        FieldType::List(_) => true,
    }
}

/// The entity that the segment at `position` starts from: the declaring
/// entity for the first, the entity that the segment before leads to for
/// the others.
pub open spec fn segment_source(
    entity_id: usize,
    steps: Seq<TransitiveRelationStep>,
    position: int,
) -> usize {
    if position == 0 {
        entity_id
    } else {
        steps[position - 1].entity_id
    }
}

/// What is wrong with the segment at `position`, if anything: the entity it
/// starts from has no field of its name, or that field is a chain itself.
pub open spec fn segment_fault(
    s: PostgresGraphQLSubsystem,
    entity_id: usize,
    steps: Seq<TransitiveRelationStep>,
    position: int,
) -> Option<RelationPathError> {
    let source = segment_source(entity_id, steps, position);
    if source >= s.entity_types@.len() {
        Some(RelationPathError::UnknownSegment(position as usize))
    } else {
        match s.entity_types@[source as int].spec_field(steps[position].field_name@) {
            None => Some(RelationPathError::UnknownSegment(position as usize)),
            Some(field) => if field.relation is Transitive {
                Some(RelationPathError::TransitiveSegment(position as usize))
            } else {
                None
            },
        }
    }
}

/// The fault of the first faulty segment among the first `upto`.
pub open spec fn first_segment_fault(
    s: PostgresGraphQLSubsystem,
    entity_id: usize,
    steps: Seq<TransitiveRelationStep>,
    upto: int,
) -> Option<RelationPathError>
    decreases upto,
{
    if upto <= 0 {
        None
    } else {
        match first_segment_fault(s, entity_id, steps, upto - 1) {
            Some(e) => Some(e),
            None => segment_fault(s, entity_id, steps, upto - 1),
        }
    }
}

/// Whether the shape that a chain leads to is the declared one: a
/// collection for a collection, then an optional value for an optional one
/// and a required value for a required one.
pub open spec fn shape_outcome(steps: Seq<TransitiveRelationStep>, typ: FieldType) -> Result<
    (),
    RelationPathError,
> {
    if path_is_collection(steps) && !declared_collection(typ) {
        Err(RelationPathError::CollectionAsSingle)
    } else if !path_is_collection(steps) && declared_collection(typ) {
        Err(RelationPathError::SingleAsCollection)
    } else if path_is_optional(steps) && !declared_optional(typ) {
        Err(RelationPathError::OptionalAsRequired)
    } else if !path_is_optional(steps) && declared_optional(typ) {
        Err(RelationPathError::RequiredAsOptional)
    } else {
        Ok(())
    }
}

/// Whether a chain fits the field of entity `entity_id` that is declared
/// with type `typ`: it has a segment, the first fault of a segment if there
/// is one, and else whether the shape is the declared one.
pub open spec fn path_outcome(
    s: PostgresGraphQLSubsystem,
    entity_id: usize,
    steps: Seq<TransitiveRelationStep>,
    typ: FieldType,
) -> Result<(), RelationPathError> {
    if steps.len() == 0 {
        Err(RelationPathError::Empty)
    } else {
        match first_segment_fault(s, entity_id, steps, steps.len() as int) {
            Some(e) => Err(e),
            None => shape_outcome(steps, typ),
        }
    }
}

/// Whether a field fits its declaration as far as chains go: a field that
/// is no chain always does.
pub open spec fn field_path_outcome(
    s: PostgresGraphQLSubsystem,
    entity_id: usize,
    field: PostgresField,
) -> Result<(), RelationPathError> {
    match field.relation {
        PostgresRelation::Transitive(steps) => path_outcome(s, entity_id, steps@, field.typ),
        _ => Ok(()),
    }
}

fn is_unbounded(step: &TransitiveRelationStep) -> (r: bool)
    ensures
        r == step_is_unbounded(*step),
{
    match step.relation_id {
        RelationId::ManyToOne(_) => false,
        RelationId::OneToMany(_) => match step.cardinality {
            RelationCardinality::Unbounded => true,
            RelationCardinality::Optional => false,
        },
    }
}

fn is_declared_collection(typ: &FieldType) -> (r: bool)
    ensures
        r == declared_collection(*typ),
{
    match typ {
        FieldType::Plain(_) => false,
        FieldType::Optional(inner) => match &**inner {
            FieldType::List(_) => true,
            _ => false,
        },
        FieldType::List(_) => true,
    }
}

fn is_declared_optional(typ: &FieldType) -> (r: bool)
    ensures
        r == declared_optional(*typ),
{
    match typ {
        FieldType::Optional(_) => true,
        _ => false,
    }
}

fn check_segment(
    s: &PostgresGraphQLSubsystem,
    entity_id: usize,
    steps: &Vec<TransitiveRelationStep>,
    position: usize,
) -> (r: Option<RelationPathError>)
    requires
        position < steps.len(),
    ensures
        r == segment_fault(*s, entity_id, steps@, position as int),
{
    let source = if position == 0 {
        entity_id
    } else {
        steps[position - 1].entity_id
    };
    if source >= s.entity_types.len() {
        return Some(RelationPathError::UnknownSegment(position));
    }
    match s.entity_types[source].field_by_name(steps[position].field_name.as_str()) {
        None => Some(RelationPathError::UnknownSegment(position)),
        Some(field) => match &field.relation {
            PostgresRelation::Transitive(_) => Some(RelationPathError::TransitiveSegment(position)),
            _ => None,
        },
    }
}

/// Tests whether a chain of relations fits the field that declares it.
pub fn check_relation_path(
    s: &PostgresGraphQLSubsystem,
    entity_id: usize,
    steps: &Vec<TransitiveRelationStep>,
    typ: &FieldType,
) -> (r: Result<(), RelationPathError>)
    ensures
        r == path_outcome(*s, entity_id, steps@, *typ),
{
    if steps.len() == 0 {
        return Err(RelationPathError::Empty);
    }
    let mut collection = false;
    let mut optional = false;
    let mut i: usize = 0;
    while i < steps.len()
        invariant
            i <= steps.len(),
            first_segment_fault(*s, entity_id, steps@, i as int).is_none(),
            collection == path_is_collection(steps@.take(i as int)),
            optional == path_is_optional(steps@.take(i as int)),
        decreases steps.len() - i,
    {
        match check_segment(s, entity_id, steps, i) {
            Some(e) => {
                proof {
                    lemma_fault_stays(*s, entity_id, steps@, i as int + 1, steps@.len() as int);
                }
                return Err(e);
            },
            None => {},
        }
        let ghost before = steps@.take(i as int);
        let ghost after = steps@.take(i + 1);
        proof {
            assert(after.drop_last() =~= before);
            assert(after.last() == steps@[i as int]);
            lemma_collection_grows(after);
            lemma_optional_grows(after);
        }
        if is_unbounded(&steps[i]) {
            collection = true;
        }
        if steps[i].is_optional {
            optional = true;
        }
        i += 1;
    }
    proof {
        assert(steps@.take(steps@.len() as int) =~= steps@);
    }
    let is_collection = is_declared_collection(typ);
    let is_optional = is_declared_optional(typ);
    if collection && !is_collection {
        Err(RelationPathError::CollectionAsSingle)
    } else if !collection && is_collection {
        Err(RelationPathError::SingleAsCollection)
    } else if optional && !is_optional {
        Err(RelationPathError::OptionalAsRequired)
    } else if !optional && is_optional {
        Err(RelationPathError::RequiredAsOptional)
    } else {
        Ok(())
    }
}

/// Tests whether a field fits its declaration as far as chains go.
pub fn check_field_relation_path(
    s: &PostgresGraphQLSubsystem,
    entity_id: usize,
    field: &PostgresField,
) -> (r: Result<(), RelationPathError>)
    ensures
        r == field_path_outcome(*s, entity_id, *field),
{
    match &field.relation {
        PostgresRelation::Transitive(steps) => check_relation_path(s, entity_id, steps, &field.typ),
        _ => Ok(()),
    }
}

/// The first field among the first `upto` of the entity `entity_id` that
/// does not fit its declaration, by its position, with its fault.
pub open spec fn entity_path_fault(s: PostgresGraphQLSubsystem, entity_id: usize, upto: int) -> Option<
    (usize, RelationPathError),
>
    decreases upto,
{
    if upto <= 0 {
        None
    } else {
        match entity_path_fault(s, entity_id, upto - 1) {
            Some(fault) => Some(fault),
            None => match field_path_outcome(
                s,
                entity_id,
                s.entity_types@[entity_id as int].fields@[upto - 1],
            ) {
                Err(e) => Some(((upto - 1) as usize, e)),
                Ok(_) => None,
            },
        }
    }
}

/// The first field of the first entity among the first `upto` that does
/// not fit its declaration: the position of the entity, that of the field,
/// and the fault.
pub open spec fn model_path_fault(s: PostgresGraphQLSubsystem, upto: int) -> Option<
    (usize, usize, RelationPathError),
>
    decreases upto,
{
    if upto <= 0 {
        None
    } else {
        match model_path_fault(s, upto - 1) {
            Some(fault) => Some(fault),
            None => match entity_path_fault(
                s,
                (upto - 1) as usize,
                s.entity_types@[upto - 1].fields@.len() as int,
            ) {
                Some((field, e)) => Some(((upto - 1) as usize, field, e)),
                None => None,
            },
        }
    }
}

fn check_entity_relation_paths(s: &PostgresGraphQLSubsystem, entity_id: usize) -> (r: Option<
    (usize, RelationPathError),
>)
    requires
        entity_id < s.entity_types@.len(),
    ensures
        r == entity_path_fault(
            *s,
            entity_id,
            s.entity_types@[entity_id as int].fields@.len() as int,
        ),
{
    let entity = &s.entity_types[entity_id];
    let mut i: usize = 0;
    while i < entity.fields.len()
        invariant
            i <= entity.fields.len(),
            entity_id < s.entity_types@.len(),
            *entity == s.entity_types@[entity_id as int],
            entity_path_fault(*s, entity_id, i as int).is_none(),
        decreases entity.fields.len() - i,
    {
        match check_field_relation_path(s, entity_id, &entity.fields[i]) {
            Err(e) => {
                proof {
                    lemma_entity_fault_stays(*s, entity_id, i as int + 1, entity.fields@.len() as int);
                }
                return Some((i, e));
            },
            Ok(_) => {},
        }
        i += 1;
    }
    None
}

impl PostgresGraphQLSubsystem {
    /// Tests the chains of relations of the model: `None` where every field
    /// fits its declaration, else the first that does not, by the position
    /// of its entity and its own, with its fault.
    pub fn check_relation_paths(&self) -> (r: Option<(usize, usize, RelationPathError)>)
        ensures
            r == model_path_fault(*self, self.entity_types@.len() as int),
    {
        let mut i: usize = 0;
        while i < self.entity_types.len()
            invariant
                i <= self.entity_types.len(),
                model_path_fault(*self, i as int).is_none(),
            decreases self.entity_types.len() - i,
        {
            match check_entity_relation_paths(self, i) {
                Some((field, e)) => {
                    proof {
                        lemma_model_fault_stays(*self, i as int + 1, self.entity_types@.len() as int);
                    }
                    return Some((i, field, e));
                },
                None => {},
            }
            i += 1;
        }
        None
    }
}

proof fn lemma_entity_fault_stays(s: PostgresGraphQLSubsystem, entity_id: usize, upto: int, more: int)
    requires
        0 <= upto <= more,
        entity_path_fault(s, entity_id, upto).is_some(),
    ensures
        entity_path_fault(s, entity_id, more) == entity_path_fault(s, entity_id, upto),
    decreases more - upto,
{
    if upto < more {
        lemma_entity_fault_stays(s, entity_id, upto, more - 1);
    }
}

proof fn lemma_model_fault_stays(s: PostgresGraphQLSubsystem, upto: int, more: int)
    requires
        0 <= upto <= more,
        model_path_fault(s, upto).is_some(),
    ensures
        model_path_fault(s, more) == model_path_fault(s, upto),
    decreases more - upto,
{
    if upto < more {
        lemma_model_fault_stays(s, upto, more - 1);
    }
}

/// A model without a fault holds no field that does not fit its
/// declaration.
pub proof fn lemma_checked_model_fits(s: PostgresGraphQLSubsystem, entity_id: usize, field: int)
    requires
        model_path_fault(s, s.entity_types@.len() as int).is_none(),
        entity_id < s.entity_types@.len(),
        0 <= field < s.entity_types@[entity_id as int].fields@.len(),
    ensures
        field_path_outcome(s, entity_id, s.entity_types@[entity_id as int].fields@[field]) is Ok,
{
    lemma_no_model_fault_before(s, s.entity_types@.len() as int, entity_id as int);
    lemma_no_entity_fault_before(
        s,
        entity_id,
        s.entity_types@[entity_id as int].fields@.len() as int,
        field,
    );
}

proof fn lemma_no_model_fault_before(s: PostgresGraphQLSubsystem, upto: int, entity: int)
    requires
        0 <= entity < upto,
        entity <= usize::MAX,
        model_path_fault(s, upto).is_none(),
    ensures
        entity_path_fault(
            s,
            entity as usize,
            s.entity_types@[entity].fields@.len() as int,
        ).is_none(),
    decreases upto,
{
    if entity < upto - 1 {
        lemma_no_model_fault_before(s, upto - 1, entity);
    }
}

proof fn lemma_no_entity_fault_before(s: PostgresGraphQLSubsystem, entity_id: usize, upto: int, field: int)
    requires
        0 <= field < upto,
        entity_path_fault(s, entity_id, upto).is_none(),
    ensures
        field_path_outcome(s, entity_id, s.entity_types@[entity_id as int].fields@[field]) is Ok,
    decreases upto,
{
    if field < upto - 1 {
        lemma_no_entity_fault_before(s, entity_id, upto - 1, field);
    }
}

/// A fault among the first segments is the first fault among more of them.
proof fn lemma_fault_stays(
    s: PostgresGraphQLSubsystem,
    entity_id: usize,
    steps: Seq<TransitiveRelationStep>,
    upto: int,
    more: int,
)
    requires
        0 <= upto <= more,
        first_segment_fault(s, entity_id, steps, upto).is_some(),
    ensures
        first_segment_fault(s, entity_id, steps, more) == first_segment_fault(
            s,
            entity_id,
            steps,
            upto,
        ),
    decreases more - upto,
{
    if upto < more {
        lemma_fault_stays(s, entity_id, steps, upto, more - 1);
    }
}

/// A chain leads to many values where it did before its last step, or
/// where the last step does.
proof fn lemma_collection_grows(steps: Seq<TransitiveRelationStep>)
    requires
        steps.len() > 0,
    ensures
        path_is_collection(steps) == (path_is_collection(steps.drop_last()) || step_is_unbounded(
            steps.last(),
        )),
{
    let shorter = steps.drop_last();
    if path_is_collection(steps) {
        let i = choose|i: int| 0 <= i < steps.len() && step_is_unbounded(#[trigger] steps[i]);
        if i < shorter.len() {
            assert(step_is_unbounded(shorter[i]));
        }
    }
    if path_is_collection(shorter) {
        let i = choose|i: int| 0 <= i < shorter.len() && step_is_unbounded(#[trigger] shorter[i]);
        assert(step_is_unbounded(steps[i]));
    }
    if step_is_unbounded(steps.last()) {
        assert(step_is_unbounded(steps[steps.len() - 1]));
    }
}

/// A chain may lead to nothing where it might before its last step, or
/// where the last step may.
proof fn lemma_optional_grows(steps: Seq<TransitiveRelationStep>)
    requires
        steps.len() > 0,
    ensures
        path_is_optional(steps) == (path_is_optional(steps.drop_last())
            || steps.last().is_optional),
{
    let shorter = steps.drop_last();
    if path_is_optional(steps) {
        let i = choose|i: int| 0 <= i < steps.len() && (#[trigger] steps[i]).is_optional;
        if i < shorter.len() {
            assert(shorter[i].is_optional);
        }
    }
    if path_is_optional(shorter) {
        let i = choose|i: int| 0 <= i < shorter.len() && (#[trigger] shorter[i]).is_optional;
        assert(steps[i].is_optional);
    }
    if steps.last().is_optional {
        assert(steps[steps.len() - 1].is_optional);
    }
}

/// The name of the segment that a fault speaks of, or the empty text where
/// the fault speaks of none.
pub open spec fn fault_segment(error: RelationPathError, steps: Seq<TransitiveRelationStep>) -> Seq<
    char,
> {
    match error {
        RelationPathError::UnknownSegment(i) => if i < steps.len() {
            steps[i as int].field_name@
        } else {
            Seq::empty()
        },
        RelationPathError::TransitiveSegment(i) => if i < steps.len() {
            steps[i as int].field_name@
        } else {
            Seq::empty()
        },
        _ => Seq::empty(),
    }
}

/// What is said of a fault, behind the name of the field.
pub open spec fn fault_text(error: RelationPathError, steps: Seq<TransitiveRelationStep>) -> Seq<
    char,
> {
    match error {
        RelationPathError::Empty => " declares an empty @relationPath"@,
        RelationPathError::UnknownSegment(_) => " references unknown field '"@ + fault_segment(
            error,
            steps,
        ) + "' in its @relationPath"@,
        RelationPathError::TransitiveSegment(_) => " references transitive relation '"@
            + fault_segment(error, steps) + "' in its @relationPath"@,
        RelationPathError::CollectionAsSingle =>
            " resolves @relationPath to a collection but is declared as a single value"@,
        RelationPathError::SingleAsCollection =>
            " resolves @relationPath to a single value but is declared as a collection"@,
        RelationPathError::OptionalAsRequired =>
            " resolves @relationPath to an optional value but is declared as non-optional"@,
        RelationPathError::RequiredAsOptional =>
            " resolves @relationPath to a required value but is declared as optional"@,
    }
}

/// The report of a fault of the field `field` of the entity `entity`.
pub open spec fn fault_message(
    error: RelationPathError,
    entity: Seq<char>,
    field: Seq<char>,
    steps: Seq<TransitiveRelationStep>,
) -> Seq<char> {
    "Field '"@ + entity + "."@ + field + "'"@ + fault_text(error, steps)
}

fn segment_name(steps: &Vec<TransitiveRelationStep>, position: usize) -> (r: String)
    ensures
        r@ == (if position < steps@.len() {
            steps@[position as int].field_name@
        } else {
            Seq::<char>::empty()
        }),
{
    if position < steps.len() {
        crate::text::owned(steps[position].field_name.as_str())
    } else {
        proof {
            reveal_strlit("");
            assert(""@ =~= Seq::<char>::empty());
        }
        "".to_owned()
    }
}

impl RelationPathError {
    /// Reports the fault of the field `field` of the entity `entity`, whose
    /// chain is `steps`.
    pub fn message(&self, entity: &str, field: &str, steps: &Vec<TransitiveRelationStep>) -> (r:
        String)
        ensures
            r@ == fault_message(*self, entity@, field@, steps@),
    {
        let head = concat2(concat3("Field '", entity, ".").as_str(), concat2(field, "'").as_str());
        proof {
            assert(head@ =~= "Field '"@ + entity@ + "."@ + field@ + "'"@);
        }
        let tail = match self {
            RelationPathError::Empty => " declares an empty @relationPath".to_owned(),
            RelationPathError::UnknownSegment(i) => concat3(
                " references unknown field '",
                segment_name(steps, *i).as_str(),
                "' in its @relationPath",
            ),
            RelationPathError::TransitiveSegment(i) => concat3(
                " references transitive relation '",
                segment_name(steps, *i).as_str(),
                "' in its @relationPath",
            ),
            RelationPathError::CollectionAsSingle =>
                " resolves @relationPath to a collection but is declared as a single value".to_owned(),
            RelationPathError::SingleAsCollection =>
                " resolves @relationPath to a single value but is declared as a collection".to_owned(),
            RelationPathError::OptionalAsRequired =>
                " resolves @relationPath to an optional value but is declared as non-optional".to_owned(),
            RelationPathError::RequiredAsOptional =>
                " resolves @relationPath to a required value but is declared as optional".to_owned(),
        };
        concat2(head.as_str(), tail.as_str())
    }
}

/// A chain that fits its field has a segment, and leads to many values
/// exactly where the field is declared as a collection, and may lead to
/// nothing exactly where the field is declared as optional.
pub proof fn lemma_fitting_path_has_declared_shape(
    s: PostgresGraphQLSubsystem,
    entity_id: usize,
    steps: Seq<TransitiveRelationStep>,
    typ: FieldType,
)
    requires
        path_outcome(s, entity_id, steps, typ) is Ok,
    ensures
        steps.len() >= 1,
        path_is_collection(steps) == declared_collection(typ),
        path_is_optional(steps) == declared_optional(typ),
{
}

/// No segment of a chain that fits its field follows a field that is a
/// chain itself.
pub proof fn lemma_fitting_path_has_plain_segments(
    s: PostgresGraphQLSubsystem,
    entity_id: usize,
    steps: Seq<TransitiveRelationStep>,
    typ: FieldType,
    position: int,
)
    requires
        path_outcome(s, entity_id, steps, typ) is Ok,
        0 <= position < steps.len(),
    ensures
        segment_fault(s, entity_id, steps, position).is_none(),
{
    lemma_no_fault_before(s, entity_id, steps, steps.len() as int, position);
}

proof fn lemma_no_fault_before(
    s: PostgresGraphQLSubsystem,
    entity_id: usize,
    steps: Seq<TransitiveRelationStep>,
    upto: int,
    position: int,
)
    requires
        0 <= position < upto,
        first_segment_fault(s, entity_id, steps, upto).is_none(),
    ensures
        segment_fault(s, entity_id, steps, position).is_none(),
    decreases upto,
{
    if position < upto - 1 {
        lemma_no_fault_before(s, entity_id, steps, upto - 1, position);
    }
}

} // verus!
