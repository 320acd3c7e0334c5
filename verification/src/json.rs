//! JSON documents: what the gateway sends to the cluster and hands back to
//! callers.

use crate::text::string_views;
use vstd::prelude::*;

verus! {

/// A JSON document.
///
/// An object keeps its members in the order in which they were written, and
/// may hold a name more than once. A number is either an integer or, where it
/// is not, the bits of its IEEE 754 double, which the gateway only carries
/// through.
#[derive(Debug, PartialEq, Eq)]
pub enum JsonValue {
    Null,
    Bool(bool),
    Integer(i128),
    Real(u64),
    Text(String),
    Array(Vec<JsonValue>),
    Object(Vec<(String, JsonValue)>),
}

/// What a [`JsonValue`] stands for.
pub enum JsonModel {
    Null,
    Bool(bool),
    Integer(int),
    Real(u64),
    Text(Seq<char>),
    Array(Seq<JsonModel>),
    Object(Seq<(Seq<char>, JsonModel)>),
}

/// The model of `value`, level by level.
pub open spec fn model_of(value: JsonValue) -> JsonModel
    decreases value,
{
    match value {
        JsonValue::Null => JsonModel::Null,
        JsonValue::Bool(b) => JsonModel::Bool(b),
        JsonValue::Integer(n) => JsonModel::Integer(n as int),
        JsonValue::Real(bits) => JsonModel::Real(bits),
        JsonValue::Text(text) => JsonModel::Text(text@),
        JsonValue::Array(items) => JsonModel::Array(
            Seq::new(
                items.len() as nat,
                |i: int|
                    if 0 <= i < items.len() {
                        model_of(items[i])
                    } else {
                        JsonModel::Null
                    },
            ),
        ),
        JsonValue::Object(members) => JsonModel::Object(
            Seq::new(
                members.len() as nat,
                |i: int|
                    if 0 <= i < members.len() {
                        (members[i].0@, model_of(members[i].1))
                    } else {
                        (Seq::empty(), JsonModel::Null)
                    },
            ),
        ),
    }
}

impl View for JsonValue {
    type V = JsonModel;

    open spec fn view(&self) -> JsonModel {
        model_of(*self)
    }
}

/// The models of `items`, in order.
pub open spec fn models(items: Seq<JsonValue>) -> Seq<JsonModel> {
    items.map_values(|item: JsonValue| item@)
}

/// The models of `members`, in order, each under its name.
pub open spec fn member_models(members: Seq<(String, JsonValue)>) -> Seq<(Seq<char>, JsonModel)> {
    members.map_values(|member: (String, JsonValue)| (member.0@, member.1@))
}

/// Each of `texts` as a JSON string, in order.
pub open spec fn text_models(texts: Seq<Seq<char>>) -> Seq<JsonModel> {
    texts.map_values(|text: Seq<char>| JsonModel::Text(text))
}

/// An array stands for the sequence of what its items stand for.
pub proof fn lemma_array_view(items: Vec<JsonValue>)
    ensures
        JsonValue::Array(items)@ == JsonModel::Array(models(items@)),
{
    assert(JsonValue::Array(items)@->Array_0 =~= models(items@));
}

/// An object stands for the sequence of its members, each name with what its
/// value stands for.
pub proof fn lemma_object_view(members: Vec<(String, JsonValue)>)
    ensures
        JsonValue::Object(members)@ == JsonModel::Object(member_models(members@)),
{
    assert(JsonValue::Object(members)@->Object_0 =~= member_models(members@));
}

/// The test that a member passes unless it is called `name`.
pub open spec fn not_called(name: Seq<char>) -> spec_fn((Seq<char>, JsonModel)) -> bool {
    |member: (Seq<char>, JsonModel)| member.0 != name
}

impl JsonModel {
    /// An object with the single member `name`.
    pub open spec fn singleton(name: Seq<char>, value: JsonModel) -> JsonModel {
        JsonModel::Object(seq![(name, value)])
    }

    /// Whether this is an object that holds a member called `name`.
    pub open spec fn has_member(self, name: Seq<char>) -> bool {
        &&& self is Object
        &&& exists|i: int| 0 <= i < self->Object_0.len() && (#[trigger] self->Object_0[i]).0 == name
    }

    /// This document without its members called `name`; the other members
    /// keep their order. A document that is no object stays as it is.
    pub open spec fn without_member(self, name: Seq<char>) -> JsonModel {
        match self {
            JsonModel::Object(members) => JsonModel::Object(
                members.filter(not_called(name)),
            ),
            _ => self,
        }
    }
}

impl JsonValue {
    /// The JSON string that holds `text`.
    pub fn text(text: &str) -> (value: JsonValue)
        ensures
            value@ == JsonModel::Text(text@),
    {
        JsonValue::Text(text.to_owned())
    }

    /// The JSON array of `items`.
    pub fn array(items: Vec<JsonValue>) -> (value: JsonValue)
        ensures
            value@ == JsonModel::Array(models(items@)),
    {
        proof {
            lemma_array_view(items);
        }
        JsonValue::Array(items)
    }

    /// The JSON object of `members`.
    pub fn object(members: Vec<(String, JsonValue)>) -> (value: JsonValue)
        ensures
            value@ == JsonModel::Object(member_models(members@)),
    {
        proof {
            lemma_object_view(members);
        }
        JsonValue::Object(members)
    }

    /// The JSON object whose only member is `value`, under `name`.
    pub fn singleton(name: &str, value: JsonValue) -> (object: JsonValue)
        ensures
            object@ == JsonModel::singleton(name@, value@),
    {
        let mut members: Vec<(String, JsonValue)> = Vec::new();
        members.push((name.to_owned(), value));
        assert(member_models(members@) =~= seq![(name@, value@)]);
        JsonValue::object(members)
    }

    /// The JSON array of `texts`, each as a JSON string.
    pub fn texts(texts: &Vec<String>) -> (value: JsonValue)
        ensures
            value@ == JsonModel::Array(text_models(string_views(texts@))),
    {
        let mut items: Vec<JsonValue> = Vec::new();
        let mut i: usize = 0;
        while i < texts.len()
            invariant
                i <= texts.len(),
                models(items@) =~= text_models(string_views(texts@)).take(i as int),
            decreases texts.len() - i,
        {
            let ghost wanted = text_models(string_views(texts@));
            assert(wanted.take(i + 1) =~= wanted.take(i as int).push(wanted[i as int]));
            items.push(JsonValue::Text(texts[i].clone()));
            i += 1;
        }
        assert(text_models(string_views(texts@)).take(i as int) =~= text_models(
            string_views(texts@),
        ));
        JsonValue::array(items)
    }

    /// This document without its members called `name`.
    pub fn without_member(self, name: &str) -> (value: JsonValue)
        ensures
            value@ == self@.without_member(name@),
    {
        match self {
            JsonValue::Object(members) => {
                let unwanted: String = name.to_owned();
                let ghost keep = not_called(name@);
                let ghost all = member_models(members@);
                let mut kept: Vec<(String, JsonValue)> = Vec::new();
                proof {
                    lemma_object_view(members);
                }
                for member in it: members
                    invariant
                        unwanted@ == name@,
                        keep == not_called(name@),
                        member_models(it.seq()) == all,
                        member_models(kept@) == all.take(it.index() as int).filter(keep),
                {
                    let ghost at = it.index() as int;
                    let ghost before = kept@;
                    let ghost current = (member.0@, member.1@);
                    proof {
                        assert(all[at] == current);
                        assert(all.take(at + 1) =~= all.take(at).push(current));
                        all.take(at).lemma_filter_push(current, keep);
                    }
                    if member.0 != unwanted {
                        kept.push(member);
                        assert(member_models(kept@) =~= member_models(before).push(current));
                    }
                }
                assert(all.take(all.len() as int) =~= all);
                JsonValue::object(kept)
            },
            other => other,
        }
    }
}

impl Clone for JsonValue {
    /// A copy that stands for the same document.
    fn clone(&self) -> (copy: JsonValue)
        ensures
            copy@ == self@,
        decreases self,
    {
        match self {
            JsonValue::Null => JsonValue::Null,
            JsonValue::Bool(b) => JsonValue::Bool(*b),
            JsonValue::Integer(n) => JsonValue::Integer(*n),
            JsonValue::Real(bits) => JsonValue::Real(*bits),
            JsonValue::Text(text) => JsonValue::Text(text.clone()),
            JsonValue::Array(items) => {
                let ghost wanted = models(items@);
                let mut copies: Vec<JsonValue> = Vec::new();
                let mut i: usize = 0;
                assert(forall|j: int|
                    0 <= j < items.len() ==> decreases_to!(self => #[trigger] items[j]));
                while i < items.len()
                    invariant
                        i <= items.len(),
                        wanted == models(items@),
                        forall|j: int|
                            0 <= j < items.len() ==> decreases_to!(self => #[trigger] items[j]),
                        models(copies@) =~= wanted.take(i as int),
                    decreases items.len() - i,
                {
                    assert(wanted.take(i + 1) =~= wanted.take(i as int).push(wanted[i as int]));
                    copies.push(items[i].clone());
                    i += 1;
                }
                proof {
                    lemma_array_view(*items);
                    assert(wanted.take(i as int) =~= wanted);
                }
                JsonValue::array(copies)
            },
            JsonValue::Object(members) => {
                let ghost wanted = member_models(members@);
                let mut copies: Vec<(String, JsonValue)> = Vec::new();
                let mut i: usize = 0;
                assert(forall|j: int|
                    0 <= j < members.len() ==> decreases_to!(self => (#[trigger] members[j]).1));
                while i < members.len()
                    invariant
                        i <= members.len(),
                        wanted == member_models(members@),
                        forall|j: int|
                            0 <= j < members.len() ==> decreases_to!(self => (
                            #[trigger] members[j]).1),
                        member_models(copies@) =~= wanted.take(i as int),
                    decreases members.len() - i,
                {
                    assert(wanted.take(i + 1) =~= wanted.take(i as int).push(wanted[i as int]));
                    copies.push((members[i].0.clone(), members[i].1.clone()));
                    i += 1;
                }
                proof {
                    lemma_object_view(*members);
                    assert(wanted.take(i as int) =~= wanted);
                }
                JsonValue::object(copies)
            },
        }
    }
}

} // verus!
