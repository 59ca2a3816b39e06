//! JSON values and resolved GraphQL values, with their mathematical views.

use vstd::prelude::*;

verus! {

/// A number as JSON and GraphQL carry it: an integer, or a decimal in its text form.
#[derive(Clone, Debug, PartialEq, Eq)]
pub enum Number {
    PosInt(u64),
    NegInt(i64),
    Float(String),
}

/// The view of a [`Number`].
pub enum NumberView {
    PosInt(u64),
    NegInt(i64),
    Float(Seq<char>),
}

impl View for Number {
    type V = NumberView;

    open spec fn view(&self) -> NumberView {
        match self {
            Number::PosInt(u) => NumberView::PosInt(*u),
            Number::NegInt(i) => NumberView::NegInt(*i),
            Number::Float(t) => NumberView::Float(t@),
        }
    }
}

impl Number {
    /// A copy of this number.
    pub fn duplicate(&self) -> (r: Number)
        ensures
            r@ == self@,
    {
        match self {
            Number::PosInt(u) => Number::PosInt(*u),
            Number::NegInt(i) => Number::NegInt(*i),
            Number::Float(t) => Number::Float(t.clone()),
        }
    }
}

/// A JSON document held as plain values. An object is a list of members and
/// stands for the map that is made by inserting them in order: of members
/// with one key the last counts. A document that was read from text holds
/// no key twice, and its members in the order in which the reader's map
/// hands them out, which need not be that of the text.
#[derive(Debug, PartialEq, Eq)]
pub enum JsonValue {
    Null,
    Bool(bool),
    Number(Number),
    String(String),
    Array(Vec<JsonValue>),
    Object(Vec<(String, JsonValue)>),
}

/// The view of a [`JsonValue`].
pub enum JsonView {
    Null,
    Bool(bool),
    Number(NumberView),
    String(Seq<char>),
    Array(Seq<JsonView>),
    Object(Seq<(Seq<char>, JsonView)>),
}

/// The view of a JSON value: its scalars as they are, its lists and objects as sequences.
pub open spec fn json_view(v: JsonValue) -> JsonView
    decreases v,
{
    match v {
        JsonValue::Null => JsonView::Null,
        JsonValue::Bool(b) => JsonView::Bool(b),
        JsonValue::Number(n) => JsonView::Number(n@),
        JsonValue::String(s) => JsonView::String(s@),
        JsonValue::Array(items) => JsonView::Array(
            Seq::new(
                items@.len(),
                |i: int|
                    if 0 <= i < items@.len() {
                        json_view(items@[i])
                    } else {
                        JsonView::Null
                    },
            ),
        ),
        JsonValue::Object(members) => JsonView::Object(
            Seq::new(
                members@.len(),
                |i: int|
                    if 0 <= i < members@.len() {
                        (members@[i].0@, json_view(members@[i].1))
                    } else {
                        (Seq::empty(), JsonView::Null)
                    },
            ),
        ),
    }
}

impl View for JsonValue {
    type V = JsonView;

    open spec fn view(&self) -> JsonView {
        json_view(*self)
    }
}

/// The views of a list of JSON values, item by item.
pub open spec fn json_views(items: Seq<JsonValue>) -> Seq<JsonView> {
    Seq::new(items.len(), |i: int| items[i]@)
}

/// The views of a list of JSON object members, member by member.
pub open spec fn json_member_views(members: Seq<(String, JsonValue)>) -> Seq<(Seq<char>, JsonView)> {
    Seq::new(members.len(), |i: int| (members[i].0@, members[i].1@))
}

/// The view of an array is the list of its items' views.
pub proof fn lemma_json_array_view(items: Vec<JsonValue>)
    ensures
        JsonValue::Array(items)@ == JsonView::Array(json_views(items@)),
{
    assert(JsonValue::Array(items)@->Array_0 =~= json_views(items@));
}

/// The view of an object is the list of its members' views.
pub proof fn lemma_json_object_view(members: Vec<(String, JsonValue)>)
    ensures
        JsonValue::Object(members)@ == JsonView::Object(json_member_views(members@)),
{
    assert(JsonValue::Object(members)@->Object_0 =~= json_member_views(members@));
}

impl JsonValue {
    /// A deep copy of this value.
    pub fn duplicate(&self) -> (r: JsonValue)
        ensures
            r@ == self@,
        decreases self,
    {
        match self {
            JsonValue::Null => JsonValue::Null,
            JsonValue::Bool(b) => JsonValue::Bool(*b),
            JsonValue::Number(n) => JsonValue::Number(n.duplicate()),
            JsonValue::String(s) => JsonValue::String(s.clone()),
            JsonValue::Array(items) => {
                let out = duplicate_json_items(items);
                proof {
                    lemma_json_array_view(out);
                    lemma_json_array_view(*items);
                }
                JsonValue::Array(out)
            },
            JsonValue::Object(members) => {
                let out = duplicate_json_members(members);
                proof {
                    lemma_json_object_view(out);
                    lemma_json_object_view(*members);
                }
                JsonValue::Object(out)
            },
        }
    }
}

/// A deep copy of a list of JSON values.
pub fn duplicate_json_items(items: &Vec<JsonValue>) -> (r: Vec<JsonValue>)
    ensures
        json_views(r@) == json_views(items@),
    decreases items,
{
    let mut out: Vec<JsonValue> = Vec::new();
    let mut i: usize = 0;
    while i < items.len()
        invariant
            i <= items.len(),
            out@.len() == i,
            forall|j: int| 0 <= j < i ==> out@[j]@ == items@[j]@,
        decreases items.len() - i,
    {
        proof {
            assert(decreases_to!(*items => items[i as int]));
        }
        let c = items[i].duplicate();
        out.push(c);
        i += 1;
    }
    assert(json_views(out@) =~= json_views(items@));
    out
}

/// A deep copy of a list of JSON object members.
pub fn duplicate_json_members(members: &Vec<(String, JsonValue)>) -> (r: Vec<(String, JsonValue)>)
    ensures
        json_member_views(r@) == json_member_views(members@),
    decreases members,
{
    let mut out: Vec<(String, JsonValue)> = Vec::new();
    let mut i: usize = 0;
    while i < members.len()
        invariant
            i <= members.len(),
            out@.len() == i,
            forall|j: int|
                0 <= j < i ==> out@[j].0@ == members@[j].0@ && out@[j].1@ == members@[j].1@,
        decreases members.len() - i,
    {
        proof {
            assert(decreases_to!(*members => members[i as int]));
            assert(decreases_to!(members[i as int] => members[i as int].1));
        }
        let c = members[i].1.duplicate();
        out.push((members[i].0.clone(), c));
        i += 1;
    }
    assert(json_member_views(out@) =~= json_member_views(members@));
    out
}

/// A resolved GraphQL value. An object is a list of fields in the order
/// given and stands for the map that is made by inserting them in order: of
/// fields with one name the last counts.
#[derive(Debug, PartialEq, Eq)]
pub enum ConstValue {
    Null,
    Number(Number),
    String(String),
    Boolean(bool),
    Binary(Vec<u8>),
    Enum(String),
    List(Vec<ConstValue>),
    Object(Vec<(String, ConstValue)>),
}

/// The view of a [`ConstValue`].
pub enum ConstView {
    Null,
    Number(NumberView),
    String(Seq<char>),
    Boolean(bool),
    Binary(Seq<u8>),
    Enum(Seq<char>),
    List(Seq<ConstView>),
    Object(Seq<(Seq<char>, ConstView)>),
}

/// The view of a resolved value: its scalars as they are, its lists and objects as sequences.
pub open spec fn const_view(v: ConstValue) -> ConstView
    decreases v,
{
    match v {
        ConstValue::Null => ConstView::Null,
        ConstValue::Number(n) => ConstView::Number(n@),
        ConstValue::String(s) => ConstView::String(s@),
        ConstValue::Boolean(b) => ConstView::Boolean(b),
        ConstValue::Binary(bytes) => ConstView::Binary(bytes@),
        ConstValue::Enum(s) => ConstView::Enum(s@),
        ConstValue::List(items) => ConstView::List(
            Seq::new(
                items@.len(),
                |i: int|
                    if 0 <= i < items@.len() {
                        const_view(items@[i])
                    } else {
                        ConstView::Null
                    },
            ),
        ),
        ConstValue::Object(fields) => ConstView::Object(
            Seq::new(
                fields@.len(),
                |i: int|
                    if 0 <= i < fields@.len() {
                        (fields@[i].0@, const_view(fields@[i].1))
                    } else {
                        (Seq::empty(), ConstView::Null)
                    },
            ),
        ),
    }
}

impl View for ConstValue {
    type V = ConstView;

    open spec fn view(&self) -> ConstView {
        const_view(*self)
    }
}

/// The views of a list of values, item by item.
pub open spec fn const_views(items: Seq<ConstValue>) -> Seq<ConstView> {
    Seq::new(items.len(), |i: int| items[i]@)
}

/// The views of a list of named values, entry by entry.
pub open spec fn const_field_views(fields: Seq<(String, ConstValue)>) -> Seq<(Seq<char>, ConstView)> {
    Seq::new(fields.len(), |i: int| (fields[i].0@, fields[i].1@))
}

/// The view of a list is the list of its items' views.
pub proof fn lemma_const_list_view(items: Vec<ConstValue>)
    ensures
        ConstValue::List(items)@ == ConstView::List(const_views(items@)),
{
    assert(ConstValue::List(items)@->List_0 =~= const_views(items@));
}

/// The view of an object is the list of its fields' views.
pub proof fn lemma_const_object_view(fields: Vec<(String, ConstValue)>)
    ensures
        ConstValue::Object(fields)@ == ConstView::Object(const_field_views(fields@)),
{
    assert(ConstValue::Object(fields)@->Object_0 =~= const_field_views(fields@));
}

/// A copy of a byte string.
pub fn duplicate_bytes(bytes: &Vec<u8>) -> (r: Vec<u8>)
    ensures
        r@ == bytes@,
{
    let mut out: Vec<u8> = Vec::new();
    let mut i: usize = 0;
    while i < bytes.len()
        invariant
            i <= bytes.len(),
            out@ == bytes@.subrange(0, i as int),
        decreases bytes.len() - i,
    {
        out.push(bytes[i]);
        assert(out@ =~= bytes@.subrange(0, i + 1));
        i += 1;
    }
    assert(out@ =~= bytes@);
    out
}

impl ConstValue {
    /// A deep copy of this value.
    pub fn duplicate(&self) -> (r: ConstValue)
        ensures
            r@ == self@,
        decreases self,
    {
        match self {
            ConstValue::Null => ConstValue::Null,
            ConstValue::Number(n) => ConstValue::Number(n.duplicate()),
            ConstValue::String(s) => ConstValue::String(s.clone()),
            ConstValue::Boolean(b) => ConstValue::Boolean(*b),
            ConstValue::Binary(bytes) => ConstValue::Binary(duplicate_bytes(bytes)),
            ConstValue::Enum(s) => ConstValue::Enum(s.clone()),
            ConstValue::List(items) => {
                let out = duplicate_const_items(items);
                proof {
                    lemma_const_list_view(out);
                    lemma_const_list_view(*items);
                }
                ConstValue::List(out)
            },
            ConstValue::Object(fields) => {
                let out = duplicate_const_fields(fields);
                proof {
                    lemma_const_object_view(out);
                    lemma_const_object_view(*fields);
                }
                ConstValue::Object(out)
            },
        }
    }
}

/// A deep copy of a list of values.
pub fn duplicate_const_items(items: &Vec<ConstValue>) -> (r: Vec<ConstValue>)
    ensures
        const_views(r@) == const_views(items@),
    decreases items,
{
    let mut out: Vec<ConstValue> = Vec::new();
    let mut i: usize = 0;
    while i < items.len()
        invariant
            i <= items.len(),
            out@.len() == i,
            forall|j: int| 0 <= j < i ==> out@[j]@ == items@[j]@,
        decreases items.len() - i,
    {
        proof {
            assert(decreases_to!(*items => items[i as int]));
        }
        let c = items[i].duplicate();
        out.push(c);
        i += 1;
    }
    assert(const_views(out@) =~= const_views(items@));
    out
}

/// A deep copy of a list of named values.
pub fn duplicate_const_fields(fields: &Vec<(String, ConstValue)>) -> (r: Vec<(String, ConstValue)>)
    ensures
        const_field_views(r@) == const_field_views(fields@),
    decreases fields,
{
    let mut out: Vec<(String, ConstValue)> = Vec::new();
    let mut i: usize = 0;
    while i < fields.len()
        invariant
            i <= fields.len(),
            out@.len() == i,
            forall|j: int|
                0 <= j < i ==> out@[j].0@ == fields@[j].0@ && out@[j].1@ == fields@[j].1@,
        decreases fields.len() - i,
    {
        proof {
            assert(decreases_to!(*fields => fields[i as int]));
            assert(decreases_to!(fields[i as int] => fields[i as int].1));
        }
        let c = fields[i].1.duplicate();
        out.push((fields[i].0.clone(), c));
        i += 1;
    }
    assert(const_field_views(out@) =~= const_field_views(fields@));
    out
}

/// The names of a list of named views, in order.
pub open spec fn names_of<V>(entries: Seq<(Seq<char>, V)>) -> Seq<Seq<char>> {
    Seq::new(entries.len(), |i: int| entries[i].0)
}

/// The value that a list of named entries holds under `key`, if any: that
/// of the last entry of the name, as in the map that is made by inserting
/// the entries in order.
pub open spec fn lookup<V>(entries: Seq<(Seq<char>, V)>, key: Seq<char>) -> Option<V> {
    match crate::text::last_index_of(names_of(entries), key) {
        Some(i) => Some(entries[i].1),
        None => None,
    }
}

/// The field that `fields` holds under `key`: the last of that name.
pub fn const_get<'a>(fields: &'a Vec<(String, ConstValue)>, key: &str) -> (r: Option<&'a ConstValue>)
    ensures
        match r {
            Some(v) => lookup(const_field_views(fields@), key@) == Some(v@),
            None => lookup(const_field_views(fields@), key@).is_none(),
        },
        r is Some ==> exists|i: int| 0 <= i < fields.len() && fields[i].1 == *r.unwrap(),
{
    let mut i: usize = fields.len();
    while i > 0
        invariant
            i <= fields.len(),
            forall|j: int| i <= j < fields.len() ==> fields@[j].0@ != key@,
        decreases i,
    {
        i -= 1;
        if crate::text::str_eq(fields[i].0.as_str(), key) {
            proof {
                crate::text::lemma_last_index_of_is(
                    names_of(const_field_views(fields@)),
                    key@,
                    i as int,
                );
            }
            return Some(&fields[i].1);
        }
    }
    proof {
        crate::text::lemma_last_index_of_none(names_of(const_field_views(fields@)), key@);
    }
    None
}

/// The member that `members` holds under `key`: the last of that name.
pub fn json_get<'a>(members: &'a Vec<(String, JsonValue)>, key: &str) -> (r: Option<&'a JsonValue>)
    ensures
        match r {
            Some(v) => lookup(json_member_views(members@), key@) == Some(v@),
            None => lookup(json_member_views(members@), key@).is_none(),
        },
        r is Some ==> exists|i: int| 0 <= i < members.len() && members[i].1 == *r.unwrap(),
{
    let mut i: usize = members.len();
    while i > 0
        invariant
            i <= members.len(),
            forall|j: int| i <= j < members.len() ==> members@[j].0@ != key@,
        decreases i,
    {
        i -= 1;
        if crate::text::str_eq(members[i].0.as_str(), key) {
            proof {
                crate::text::lemma_last_index_of_is(
                    names_of(json_member_views(members@)),
                    key@,
                    i as int,
                );
            }
            return Some(&members[i].1);
        }
    }
    proof {
        crate::text::lemma_last_index_of_none(names_of(json_member_views(members@)), key@);
    }
    None
}

/// Whether no object of a document holds a key twice.
pub open spec fn distinct_keys(v: JsonView) -> bool
    decreases v,
{
    match v {
        JsonView::Array(items) => forall|i: int|
            0 <= i < items.len() ==> distinct_keys(#[trigger] items[i]),
        JsonView::Object(members) => crate::text::distinct(names_of(members)) && forall|i: int|
            0 <= i < members.len() ==> distinct_keys((#[trigger] members[i]).1),
        _ => true,
    }
}

/// Where no entry of a list of named entries shares its name with another,
/// every entry is what the list holds under its name.
pub proof fn lemma_member_is_found<V>(entries: Seq<(Seq<char>, V)>, i: int)
    requires
        crate::text::distinct(names_of(entries)),
        0 <= i < entries.len(),
    ensures
        lookup(entries, entries[i].0) == Some(entries[i].1),
{
    let names = names_of(entries);
    crate::text::lemma_last_index(names, entries[i].0, names.len() as int);
    assert(names[i] == entries[i].0);
    let found = crate::text::last_index_of(names, entries[i].0);
    assert(found is Some);
    let k = found->Some_0;
    if k != i {
        if k < i {
            assert(names[k] != names[i]);
        } else {
            assert(names[i] != names[k]);
        }
    }
}

/// Where no entry of a list of named entries shares its name with another,
/// the list holds under a name what its first entry of that name holds.
pub proof fn lemma_distinct_lookup_is_first<V>(entries: Seq<(Seq<char>, V)>, key: Seq<char>)
    requires
        crate::text::distinct(names_of(entries)),
    ensures
        lookup(entries, key) == (match crate::text::index_of(names_of(entries), key) {
            Some(i) => Some(entries[i].1),
            None => None,
        }),
{
    crate::text::lemma_distinct_has_one_position(names_of(entries), key);
}

/// Tests whether no two members of an object share a key.
fn keys_are_distinct(members: &Vec<(String, JsonValue)>) -> (r: bool)
    ensures
        r == crate::text::distinct(names_of(json_member_views(members@))),
{
    let ghost names = names_of(json_member_views(members@));
    let mut i: usize = 0;
    while i < members.len()
        invariant
            i <= members.len(),
            names == names_of(json_member_views(members@)),
            forall|a: int, b: int| 0 <= a < b < i ==> names[a] != names[b],
        decreases members.len() - i,
    {
        let mut j: usize = 0;
        while j < i
            invariant
                j <= i < members.len(),
                names == names_of(json_member_views(members@)),
                forall|a: int| 0 <= a < j ==> names[a] != names[i as int],
            decreases i - j,
        {
            if crate::text::str_eq(members[j].0.as_str(), members[i].0.as_str()) {
                proof {
                    assert(names[j as int] == names[i as int]);
                }
                return false;
            }
            proof {
                assert(names[j as int] == members@[j as int].0@);
                assert(names[i as int] == members@[i as int].0@);
            }
            j += 1;
        }
        i += 1;
    }
    true
}

impl JsonValue {
    /// Tests whether no object of this document holds a key twice.
    pub fn has_distinct_keys(&self) -> (r: bool)
        ensures
            r == distinct_keys(self@),
        decreases self,
    {
        match self {
            JsonValue::Array(items) => {
                proof {
                    lemma_json_array_view(*items);
                }
                let mut i: usize = 0;
                while i < items.len()
                    invariant
                        i <= items.len(),
                        self is Array,
                        self->Array_0 == *items,
                        self@ == JsonView::Array(json_views(items@)),
                        forall|j: int| 0 <= j < i ==> distinct_keys(#[trigger] items@[j]@),
                    decreases items.len() - i,
                {
                    proof {
                        assert(decreases_to!(*self => self->Array_0));
                        assert(decreases_to!(*items => items[i as int]));
                    }
                    if !items[i].has_distinct_keys() {
                        proof {
                            assert(json_views(items@)[i as int] == items@[i as int]@);
                            assert(!distinct_keys(json_views(items@)[i as int]));
                            assert(self@->Array_0 == json_views(items@));
                        }
                        return false;
                    }
                    i += 1;
                }
                proof {
                    assert forall|j: int| 0 <= j < json_views(items@).len() implies distinct_keys(
                        #[trigger] json_views(items@)[j],
                    ) by {
                        assert(distinct_keys(items@[j]@));
                    }
                }
                true
            },
            JsonValue::Object(members) => {
                proof {
                    lemma_json_object_view(*members);
                }
                if !keys_are_distinct(members) {
                    return false;
                }
                let mut i: usize = 0;
                while i < members.len()
                    invariant
                        i <= members.len(),
                        self is Object,
                        self->Object_0 == *members,
                        self@ == JsonView::Object(json_member_views(members@)),
                        crate::text::distinct(names_of(json_member_views(members@))),
                        forall|j: int| 0 <= j < i ==> distinct_keys(#[trigger] members@[j].1@),
                    decreases members.len() - i,
                {
                    proof {
                        assert(decreases_to!(*self => self->Object_0));
                        assert(decreases_to!(*members => members[i as int]));
                        assert(decreases_to!(members[i as int] => members[i as int].1));
                    }
                    if !members[i].1.has_distinct_keys() {
                        proof {
                            assert(json_member_views(members@)[i as int].1 == members@[i as int].1@);
                            assert(!distinct_keys(json_member_views(members@)[i as int].1));
                            assert(self@->Object_0 == json_member_views(members@));
                        }
                        return false;
                    }
                    i += 1;
                }
                proof {
                    assert forall|j: int|
                        0 <= j < json_member_views(members@).len() implies distinct_keys(
                        (#[trigger] json_member_views(members@)[j]).1,
                    ) by {
                        assert(distinct_keys(members@[j].1@));
                    }
                }
                true
            },
            _ => true,
        }
    }
}

/// The resolved value that a JSON value stands for: the same scalar, list or
/// object, with every member converted in turn.
pub open spec fn from_json(v: JsonView) -> ConstView
    decreases v,
{
    match v {
        JsonView::Null => ConstView::Null,
        JsonView::Bool(b) => ConstView::Boolean(b),
        JsonView::Number(n) => ConstView::Number(n),
        JsonView::String(s) => ConstView::String(s),
        JsonView::Array(items) => ConstView::List(
            Seq::new(
                items.len(),
                |i: int|
                    if 0 <= i < items.len() {
                        from_json(items[i])
                    } else {
                        ConstView::Null
                    },
            ),
        ),
        JsonView::Object(members) => ConstView::Object(
            Seq::new(
                members.len(),
                |i: int|
                    if 0 <= i < members.len() {
                        (members[i].0, from_json(members[i].1))
                    } else {
                        (Seq::empty(), ConstView::Null)
                    },
            ),
        ),
    }
}

/// Converts a JSON value into the resolved value it stands for.
pub fn const_from_json(v: &JsonValue) -> (r: ConstValue)
    ensures
        r@ == from_json(v@),
    decreases v,
{
    match v {
        JsonValue::Null => ConstValue::Null,
        JsonValue::Bool(b) => ConstValue::Boolean(*b),
        JsonValue::Number(n) => ConstValue::Number(n.duplicate()),
        JsonValue::String(s) => ConstValue::String(s.clone()),
        JsonValue::Array(items) => {
            let mut out: Vec<ConstValue> = Vec::new();
            let mut i: usize = 0;
            while i < items.len()
                invariant
                    i <= items.len(),
                    out@.len() == i,
                    v is Array,
                    v->Array_0 == *items,
                    forall|j: int| 0 <= j < i ==> out@[j]@ == from_json(items@[j]@),
                decreases items.len() - i,
            {
                proof {
                    assert(decreases_to!(*v => v->Array_0));
                    assert(decreases_to!(*items => items[i as int]));
                }
                let c = const_from_json(&items[i]);
                out.push(c);
                i += 1;
            }
            proof {
                lemma_const_list_view(out);
                lemma_json_array_view(*items);
                assert(const_views(out@) =~= from_json(v@)->List_0);
            }
            ConstValue::List(out)
        },
        JsonValue::Object(members) => {
            let mut out: Vec<(String, ConstValue)> = Vec::new();
            let mut i: usize = 0;
            while i < members.len()
                invariant
                    i <= members.len(),
                    out@.len() == i,
                    v is Object,
                    v->Object_0 == *members,
                    forall|j: int|
                        0 <= j < i ==> out@[j].0@ == members@[j].0@ && out@[j].1@ == from_json(
                            members@[j].1@,
                        ),
                decreases members.len() - i,
            {
                proof {
                    assert(decreases_to!(*v => v->Object_0));
                    assert(decreases_to!(*members => members[i as int]));
                    assert(decreases_to!(members[i as int] => members[i as int].1));
                }
                let c = const_from_json(&members[i].1);
                out.push((members[i].0.clone(), c));
                i += 1;
            }
            proof {
                lemma_const_object_view(out);
                lemma_json_object_view(*members);
                assert(const_field_views(out@) =~= from_json(v@)->Object_0);
            }
            ConstValue::Object(out)
        },
    }
}

/// The JSON value that a resolved value is written as: an enum value as the
/// string of its name, everything else in its own shape. A byte string has no
/// JSON form and stands as `null` here; see [`convertible`].
pub open spec fn to_json(v: ConstView) -> JsonView
    decreases v,
{
    match v {
        ConstView::Null => JsonView::Null,
        ConstView::Number(n) => JsonView::Number(n),
        ConstView::String(s) => JsonView::String(s),
        ConstView::Boolean(b) => JsonView::Bool(b),
        ConstView::Binary(_) => JsonView::Null,
        ConstView::Enum(s) => JsonView::String(s),
        ConstView::List(items) => JsonView::Array(
            Seq::new(
                items.len(),
                |i: int|
                    if 0 <= i < items.len() {
                        to_json(items[i])
                    } else {
                        JsonView::Null
                    },
            ),
        ),
        ConstView::Object(fields) => JsonView::Object(
            Seq::new(
                fields.len(),
                |i: int|
                    if 0 <= i < fields.len() {
                        (fields[i].0, to_json(fields[i].1))
                    } else {
                        (Seq::empty(), JsonView::Null)
                    },
            ),
        ),
    }
}

/// Whether a resolved value can be written as JSON: it holds no byte string.
pub open spec fn convertible(v: ConstView) -> bool
    decreases v,
{
    match v {
        ConstView::Binary(_) => false,
        ConstView::List(items) => forall|i: int|
            0 <= i < items.len() ==> convertible(#[trigger] items[i]),
        ConstView::Object(fields) => forall|i: int|
            0 <= i < fields.len() ==> convertible((#[trigger] fields[i]).1),
        _ => true,
    }
}

/// Whether a resolved value is what some JSON value converts to: it holds
/// neither an enum value nor a byte string.
pub open spec fn plain(v: ConstView) -> bool
    decreases v,
{
    match v {
        ConstView::Binary(_) => false,
        ConstView::Enum(_) => false,
        ConstView::List(items) => forall|i: int| 0 <= i < items.len() ==> plain(#[trigger] items[i]),
        ConstView::Object(fields) => forall|i: int|
            0 <= i < fields.len() ==> plain((#[trigger] fields[i]).1),
        _ => true,
    }
}

/// Writing a plain value as JSON and converting the JSON back gives the value.
pub proof fn lemma_plain_round_trip(v: ConstView)
    requires
        plain(v),
    ensures
        from_json(to_json(v)) == v,
    decreases v,
{
    match v {
        ConstView::List(items) => {
            assert forall|i: int| 0 <= i < items.len() implies from_json(to_json(items[i]))
                == items[i] by {
                assert(plain(items[i]));
                lemma_plain_round_trip(items[i]);
            }
            assert(from_json(to_json(v))->List_0 =~= items);
        },
        ConstView::Object(fields) => {
            assert forall|i: int| 0 <= i < fields.len() implies from_json(to_json(fields[i].1))
                == fields[i].1 by {
                assert(plain(fields[i].1));
                lemma_plain_round_trip(fields[i].1);
            }
            assert(from_json(to_json(v))->Object_0 =~= fields);
        },
        _ => {},
    }
}

/// Writes a resolved value as JSON, with `null` in the place of a byte
/// string.
pub fn const_as_json(v: &ConstValue) -> (r: JsonValue)
    ensures
        r@ == to_json(v@),
    decreases v,
{
    match v {
        ConstValue::Null => JsonValue::Null,
        ConstValue::Number(n) => JsonValue::Number(n.duplicate()),
        ConstValue::String(s) => JsonValue::String(s.clone()),
        ConstValue::Boolean(b) => JsonValue::Bool(*b),
        ConstValue::Binary(_) => JsonValue::Null,
        ConstValue::Enum(s) => JsonValue::String(s.clone()),
        ConstValue::List(items) => {
            let mut out: Vec<JsonValue> = Vec::new();
            let mut i: usize = 0;
            proof {
                lemma_const_list_view(*items);
            }
            while i < items.len()
                invariant
                    i <= items.len(),
                    out@.len() == i,
                    v is List,
                    v->List_0 == *items,
                    v@ == ConstView::List(const_views(items@)),
                    forall|j: int| 0 <= j < i ==> out@[j]@ == to_json(items@[j]@),
                decreases items.len() - i,
            {
                proof {
                    assert(decreases_to!(*v => v->List_0));
                    assert(decreases_to!(*items => items[i as int]));
                }
                let j = const_as_json(&items[i]);
                out.push(j);
                i += 1;
            }
            proof {
                lemma_json_array_view(out);
                assert(json_views(out@) =~= to_json(v@)->Array_0);
            }
            JsonValue::Array(out)
        },
        ConstValue::Object(fields) => {
            let mut out: Vec<(String, JsonValue)> = Vec::new();
            let mut i: usize = 0;
            proof {
                lemma_const_object_view(*fields);
            }
            while i < fields.len()
                invariant
                    i <= fields.len(),
                    out@.len() == i,
                    v is Object,
                    v->Object_0 == *fields,
                    v@ == ConstView::Object(const_field_views(fields@)),
                    forall|j: int|
                        0 <= j < i ==> out@[j].0@ == fields@[j].0@ && out@[j].1@ == to_json(
                            fields@[j].1@,
                        ),
                decreases fields.len() - i,
            {
                proof {
                    assert(decreases_to!(*v => v->Object_0));
                    assert(decreases_to!(*fields => fields[i as int]));
                    assert(decreases_to!(fields[i as int] => fields[i as int].1));
                }
                let j = const_as_json(&fields[i].1);
                out.push((fields[i].0.clone(), j));
                i += 1;
            }
            proof {
                lemma_json_object_view(out);
                assert(json_member_views(out@) =~= to_json(v@)->Object_0);
            }
            JsonValue::Object(out)
        },
    }
}

/// Writes a resolved value as JSON; `None` for a value that holds a byte string.
pub fn const_to_json(v: &ConstValue) -> (r: Option<JsonValue>)
    ensures
        match r {
            Some(j) => convertible(v@) && j@ == to_json(v@),
            None => !convertible(v@),
        },
    decreases v,
{
    match v {
        ConstValue::Null => Some(JsonValue::Null),
        ConstValue::Number(n) => Some(JsonValue::Number(n.duplicate())),
        ConstValue::String(s) => Some(JsonValue::String(s.clone())),
        ConstValue::Boolean(b) => Some(JsonValue::Bool(*b)),
        ConstValue::Binary(_) => None,
        ConstValue::Enum(s) => Some(JsonValue::String(s.clone())),
        ConstValue::List(items) => {
            let mut out: Vec<JsonValue> = Vec::new();
            let mut i: usize = 0;
            proof {
                lemma_const_list_view(*items);
            }
            while i < items.len()
                invariant
                    i <= items.len(),
                    out@.len() == i,
                    v is List,
                    v->List_0 == *items,
                    v@ == ConstView::List(const_views(items@)),
                    forall|j: int| 0 <= j < i ==> convertible(#[trigger] items@[j]@),
                    forall|j: int| 0 <= j < i ==> out@[j]@ == to_json(items@[j]@),
                decreases items.len() - i,
            {
                proof {
                    assert(decreases_to!(*v => v->List_0));
                    assert(decreases_to!(*items => items[i as int]));
                }
                match const_to_json(&items[i]) {
                    Some(j) => {
                        out.push(j);
                    },
                    None => {
                        proof {
                            assert(!convertible(const_views(items@)[i as int]));
                        }
                        return None;
                    },
                }
                i += 1;
            }
            proof {
                assert forall|j: int| 0 <= j < const_views(items@).len() implies convertible(
                    #[trigger] const_views(items@)[j],
                ) by {
                    assert(convertible(items@[j]@));
                }
                lemma_json_array_view(out);
                assert(json_views(out@) =~= to_json(v@)->Array_0);
            }
            Some(JsonValue::Array(out))
        },
        ConstValue::Object(fields) => {
            let mut out: Vec<(String, JsonValue)> = Vec::new();
            let mut i: usize = 0;
            proof {
                lemma_const_object_view(*fields);
            }
            while i < fields.len()
                invariant
                    i <= fields.len(),
                    out@.len() == i,
                    v is Object,
                    v->Object_0 == *fields,
                    v@ == ConstView::Object(const_field_views(fields@)),
                    forall|j: int| 0 <= j < i ==> convertible(#[trigger] fields@[j].1@),
                    forall|j: int|
                        0 <= j < i ==> out@[j].0@ == fields@[j].0@ && out@[j].1@ == to_json(
                            fields@[j].1@,
                        ),
                decreases fields.len() - i,
            {
                proof {
                    assert(decreases_to!(*v => v->Object_0));
                    assert(decreases_to!(*fields => fields[i as int]));
                    assert(decreases_to!(fields[i as int] => fields[i as int].1));
                }
                match const_to_json(&fields[i].1) {
                    Some(j) => {
                        out.push((fields[i].0.clone(), j));
                    },
                    None => {
                        proof {
                            assert(!convertible(const_field_views(fields@)[i as int].1));
                        }
                        return None;
                    },
                }
                i += 1;
            }
            proof {
                assert forall|j: int| 0 <= j < const_field_views(fields@).len() implies convertible(
                    (#[trigger] const_field_views(fields@)[j]).1,
                ) by {
                    assert(convertible(fields@[j].1@));
                }
                lemma_json_object_view(out);
                assert(json_member_views(out@) =~= to_json(v@)->Object_0);
            }
            Some(JsonValue::Object(out))
        },
    }
}

} // verus!
