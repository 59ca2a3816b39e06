//! A field of a validated selection: what the client asked for, with its
//! arguments resolved.

use vstd::prelude::*;
use crate::value::{const_field_views, duplicate_const_fields, ConstValue, ConstView};

verus! {

/// A selected field with its resolved arguments and its own selection.
#[derive(Debug, PartialEq, Eq)]
pub struct ValidatedField {
    pub alias: Option<String>,
    pub name: String,
    pub arguments: Vec<(String, ConstValue)>,
    pub subfields: Vec<ValidatedField>,
}

/// The view of a [`ValidatedField`].
pub struct FieldView {
    pub alias: Option<Seq<char>>,
    pub name: Seq<char>,
    pub arguments: Seq<(Seq<char>, ConstView)>,
    pub subfields: Seq<FieldView>,
}

/// The view of an optional string.
pub open spec fn text_option_view(s: Option<String>) -> Option<Seq<char>> {
    match s {
        Some(t) => Some(t@),
        None => None,
    }
}

/// The view of a field: its names and arguments by their views, its
/// subfields in order.
pub open spec fn field_view(f: ValidatedField) -> FieldView
    decreases f,
{
    FieldView {
        alias: text_option_view(f.alias),
        name: f.name@,
        arguments: const_field_views(f.arguments@),
        subfields: Seq::new(
            f.subfields@.len(),
            |i: int|
                if 0 <= i < f.subfields@.len() {
                    field_view(f.subfields@[i])
                } else {
                    arbitrary()
                },
        ),
    }
}

impl View for ValidatedField {
    type V = FieldView;

    open spec fn view(&self) -> FieldView {
        field_view(*self)
    }
}

/// The views of a list of fields, field by field.
pub open spec fn field_views(fields: Seq<ValidatedField>) -> Seq<FieldView> {
    Seq::new(fields.len(), |i: int| fields[i]@)
}

/// The subfields of a field's view are the views of its subfields.
pub proof fn lemma_subfield_views(f: ValidatedField)
    ensures
        f@.subfields == field_views(f.subfields@),
{
    assert(f@.subfields =~= field_views(f.subfields@));
}

/// The name under which a field's value appears in the response: its alias
/// where it has one, else its name.
pub open spec fn output_name_of(f: FieldView) -> Seq<char> {
    match f.alias {
        Some(a) => a,
        None => f.name,
    }
}

/// A copy of an optional string.
pub fn duplicate_text_option(s: &Option<String>) -> (r: Option<String>)
    ensures
        text_option_view(r) == text_option_view(*s),
{
    match s {
        Some(t) => Some(t.clone()),
        None => None,
    }
}

impl ValidatedField {
    /// The name under which the field's value appears in the response.
    pub fn output_name(&self) -> (r: String)
        ensures
            r@ == output_name_of(self@),
    {
        match &self.alias {
            Some(a) => a.clone(),
            None => self.name.clone(),
        }
    }

    /// A deep copy of this field.
    pub fn duplicate(&self) -> (r: ValidatedField)
        ensures
            r@ == self@,
        decreases self,
    {
        let subfields = duplicate_fields(&self.subfields);
        let r = ValidatedField {
            alias: duplicate_text_option(&self.alias),
            name: self.name.clone(),
            arguments: duplicate_const_fields(&self.arguments),
            subfields,
        };
        proof {
            lemma_subfield_views(r);
            lemma_subfield_views(*self);
        }
        r
    }
}

/// A deep copy of a list of fields.
pub fn duplicate_fields(fields: &Vec<ValidatedField>) -> (r: Vec<ValidatedField>)
    ensures
        field_views(r@) == field_views(fields@),
    decreases fields,
{
    let mut out: Vec<ValidatedField> = Vec::new();
    let mut i: usize = 0;
    while i < fields.len()
        invariant
            i <= fields.len(),
            out@.len() == i,
            forall|j: int| 0 <= j < i ==> out@[j]@ == fields@[j]@,
        decreases fields.len() - i,
    {
        proof {
            assert(decreases_to!(*fields => fields[i as int]));
        }
        out.push(fields[i].duplicate());
        i += 1;
    }
    assert(field_views(out@) =~= field_views(fields@));
    out
}

} // verus!
