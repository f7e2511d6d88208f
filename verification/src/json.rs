//! Structured values as they travel through a workflow: run payloads,
//! webhook bodies, step outputs and the execution context.

use crate::string_map::{collected, lemma_deep_view_put, StringMap};
use vstd::prelude::*;

verus! {

/// A number in one of three forms: a non-negative integer, a negative
/// integer, or a double given by its IEEE 754 bit pattern.
#[derive(Clone, Copy, Debug, PartialEq, Eq)]
pub enum JsonNumber {
    PosInt(u64),
    NegInt(i64),
    Float(u64),
}

/// A structured value. An object keeps its members in order.
#[derive(Debug, PartialEq)]
pub enum JsonValue {
    Null,
    Bool(bool),
    Number(JsonNumber),
    String(String),
    Array(Vec<JsonValue>),
    Object(Vec<(String, JsonValue)>),
}

/// The mathematical form of a `JsonValue`.
pub enum JsonView {
    Null,
    Bool(bool),
    Number(JsonNumber),
    String(Seq<char>),
    Array(Seq<JsonView>),
    Object(Seq<(Seq<char>, JsonView)>),
}

/// The mathematical form of `value`.
pub open spec fn json_view(value: JsonValue) -> JsonView
    decreases value,
{
    match value {
        JsonValue::Null => JsonView::Null,
        JsonValue::Bool(b) => JsonView::Bool(b),
        JsonValue::Number(n) => JsonView::Number(n),
        JsonValue::String(s) => JsonView::String(s@),
        JsonValue::Array(items) => JsonView::Array(
            Seq::new(
                items@.len(),
                |i: int|
                    if 0 <= i < items@.len() {
                        json_view(items@[i])
                    } else {
                        JsonView::Null
                    },
            ),
        ),
        JsonValue::Object(members) => JsonView::Object(
            Seq::new(
                members@.len(),
                |i: int|
                    if 0 <= i < members@.len() {
                        (members@[i].0@, json_view(members@[i].1))
                    } else {
                        (Seq::empty(), JsonView::Null)
                    },
            ),
        ),
    }
}

impl View for JsonValue {
    type V = JsonView;

    open spec fn view(&self) -> JsonView {
        json_view(*self)
    }
}

impl Clone for JsonValue {
    fn clone(&self) -> (copy: JsonValue)
        ensures
            copy@ == self@,
    {
        self.duplicate()
    }
}

impl DeepView for JsonValue {
    type V = JsonView;

    open spec fn deep_view(&self) -> JsonView {
        self.view()
    }
}

/// The views of a list of values.
pub open spec fn views_of(items: Seq<JsonValue>) -> Seq<JsonView> {
    Seq::new(items.len(), |i: int| items[i]@)
}

/// The views of a list of members.
pub open spec fn member_views(members: Seq<(String, JsonValue)>) -> Seq<(Seq<char>, JsonView)> {
    Seq::new(members.len(), |i: int| (members[i].0@, members[i].1@))
}

/// The view of an array or an object is the list of its parts' views.
pub proof fn lemma_view_parts(value: JsonValue)
    ensures
        value matches JsonValue::Array(items) ==> value@ == JsonView::Array(views_of(items@)),
        value matches JsonValue::Object(members) ==> value@ == JsonView::Object(
            member_views(members@),
        ),
{
    match value {
        JsonValue::Array(items) => {
            assert(value@->Array_0 =~= views_of(items@));
        },
        JsonValue::Object(members) => {
            assert(value@->Object_0 =~= member_views(members@));
        },
        _ => {},
    }
}

impl JsonValue {
    /// A string value.
    pub fn text(content: &str) -> (value: JsonValue)
        ensures
            value@ == JsonView::String(content@),
    {
        JsonValue::String(String::from_str(content))
    }

    /// A non-negative integer value.
    pub fn unsigned(n: u64) -> (value: JsonValue)
        ensures
            value@ == JsonView::Number(JsonNumber::PosInt(n)),
    {
        JsonValue::Number(JsonNumber::PosInt(n))
    }

    /// An object with the given members.
    pub fn object(members: Vec<(String, JsonValue)>) -> (value: JsonValue)
        ensures
            value@ == JsonView::Object(member_views(members@)),
    {
        let value = JsonValue::Object(members);
        proof {
            lemma_view_parts(value);
        }
        value
    }

    /// A copy with the same content.
    pub fn duplicate(&self) -> (copy: JsonValue)
        ensures
            copy@ == self@,
        decreases self,
    {
        match self {
            JsonValue::Null => JsonValue::Null,
            JsonValue::Bool(b) => JsonValue::Bool(*b),
            JsonValue::Number(n) => JsonValue::Number(*n),
            JsonValue::String(s) => JsonValue::String(s.clone()),
            JsonValue::Array(items) => {
                let mut out: Vec<JsonValue> = Vec::new();
                let mut i: usize = 0;
                while i < items.len()
                    invariant
                        i <= items@.len(),
                        out@.len() == i,
                        *self == JsonValue::Array(*items),
                        forall|j: int| 0 <= j < i ==> out@[j]@ == items@[j]@,
                    decreases items@.len() - i,
                {
                    assert(decreases_to!(*self => self->Array_0@[i as int]));
                    out.push(items[i].duplicate());
                    i = i + 1;
                }
                let copy = JsonValue::Array(out);
                proof {
                    lemma_view_parts(copy);
                    lemma_view_parts(*self);
                    assert(views_of(out@) =~= views_of(items@));
                }
                copy
            },
            JsonValue::Object(members) => {
                let mut out: Vec<(String, JsonValue)> = Vec::new();
                let mut i: usize = 0;
                while i < members.len()
                    invariant
                        i <= members@.len(),
                        out@.len() == i,
                        *self == JsonValue::Object(*members),
                        forall|j: int|
                            0 <= j < i ==> out@[j].0@ == members@[j].0@ && out@[j].1@
                                == members@[j].1@,
                    decreases members@.len() - i,
                {
                    assert(decreases_to!(*self => self->Object_0@[i as int].1));
                    out.push((members[i].0.clone(), members[i].1.duplicate()));
                    i = i + 1;
                }
                let copy = JsonValue::Object(out);
                proof {
                    lemma_view_parts(copy);
                    lemma_view_parts(*self);
                    assert(member_views(out@) =~= member_views(members@));
                }
                copy
            },
        }
    }
}

/// The object whose members are the entries of `map`, in order.
pub fn object_of(map: &StringMap<JsonValue>) -> (value: JsonValue)
    ensures
        value@ == JsonView::Object(map.deep_view()),
{
    let mut members: Vec<(String, JsonValue)> = Vec::new();
    let mut i: usize = 0;
    while i < map.entries.len()
        invariant
            i <= map.entries@.len(),
            members@.len() == i,
            forall|j: int|
                0 <= j < i ==> members@[j].0@ == map.entries@[j].0@ && members@[j].1@
                    == map.entries@[j].1@,
        decreases map.entries@.len() - i,
    {
        members.push((map.entries[i].0.clone(), map.entries[i].1.clone()));
        i = i + 1;
    }
    let value = JsonValue::object(members);
    assert(member_views(members@) =~= map.deep_view());
    value
}

/// A copy of a map of values.
pub fn copy_of(map: &StringMap<JsonValue>) -> (copy: StringMap<JsonValue>)
    ensures
        copy.deep_view() == map.deep_view(),
        copy.well_formed() == map.well_formed(),
{
    let mut entries: Vec<(String, JsonValue)> = Vec::new();
    let mut i: usize = 0;
    while i < map.entries.len()
        invariant
            i <= map.entries@.len(),
            entries@.len() == i,
            forall|j: int|
                0 <= j < i ==> entries@[j].0@ == map.entries@[j].0@ && entries@[j].1@
                    == map.entries@[j].1@,
        decreases map.entries@.len() - i,
    {
        entries.push((map.entries[i].0.clone(), map.entries[i].1.clone()));
        i = i + 1;
    }
    let copy = StringMap { entries };
    assert(copy.deep_view() =~= map.deep_view());
    assert(copy.keys() =~= map.keys());
    copy
}

/// The map that an object's members make when they are stored one after
/// the other. It has no key twice: of members with the same key the
/// last one's value stays.
pub fn map_of(members: &Vec<(String, JsonValue)>) -> (map: StringMap<JsonValue>)
    ensures
        map.well_formed(),
        map.deep_view() == collected(member_views(members@)),
{
    let mut map: StringMap<JsonValue> = StringMap::new();
    let ghost all = member_views(members@);
    assert(map.deep_view() =~= collected(all.take(0)));
    let mut i: usize = 0;
    while i < members.len()
        invariant
            i <= members@.len(),
            all == member_views(members@),
            map.well_formed(),
            map.deep_view() == collected(all.take(i as int)),
        decreases members@.len() - i,
    {
        let ghost before = map;
        let value = members[i].1.clone();
        map.insert(members[i].0.clone(), value);
        proof {
            lemma_deep_view_put(before, map, members@[i as int].0@, value);
            assert(all.take(i + 1).drop_last() =~= all.take(i as int));
            assert(all.take(i + 1).last() == all[i as int]);
        }
        i = i + 1;
    }
    assert(all.take(members@.len() as int) =~= all);
    map
}

} // verus!
