//! JSON values as plain data.

use crate::text::same_text;
use vstd::prelude::*;

verus! {

/// A JSON value. An object keeps its members in the order in which they are written.
#[derive(Debug)]
pub enum JsonValue {
    Null,
    Bool(bool),
    /// The decimal text of a number.
    Number(String),
    Text(String),
    Array(Vec<JsonValue>),
    Object(Vec<(String, JsonValue)>),
}

/// The mathematical model of a [`JsonValue`].
pub enum Json {
    Null,
    Bool(bool),
    Number(Seq<char>),
    Text(Seq<char>),
    Array(Seq<Json>),
    Object(Seq<(Seq<char>, Json)>),
}

impl Json {
    /// The characters of a text.
    pub open spec fn text(self) -> Option<Seq<char>> {
        match self {
            Json::Text(s) => Some(s),
            _ => None,
        }
    }

    /// The value of the member `key`, when this is an object that has one.
    pub open spec fn member(self, key: Seq<char>) -> Option<Json> {
        match self {
            Json::Object(members) => first_member(members, key),
            _ => None,
        }
    }

    /// The characters of the member `key`, when this is an object in which it is a text.
    pub open spec fn text_member(self, key: Seq<char>) -> Option<Seq<char>> {
        match self.member(key) {
            Some(value) => value.text(),
            None => None,
        }
    }
}

/// The value of the first member whose key is `key`.
pub open spec fn first_member(members: Seq<(Seq<char>, Json)>, key: Seq<char>) -> Option<Json>
    decreases members.len(),
{
    if members.len() == 0 {
        None
    } else if members[0].0 == key {
        Some(members[0].1)
    } else {
        first_member(members.drop_first(), key)
    }
}

impl JsonValue {
    /// The model of this value.
    pub open spec fn model(self) -> Json
        decreases self,
    {
        match self {
            JsonValue::Null => Json::Null,
            JsonValue::Bool(b) => Json::Bool(b),
            JsonValue::Number(s) => Json::Number(s@),
            JsonValue::Text(s) => Json::Text(s@),
            JsonValue::Array(items) => Json::Array(
                Seq::new(
                    items@.len(),
                    |i: int|
                        if 0 <= i < items@.len() {
                            items@[i].model()
                        } else {
                            Json::Null
                        },
                ),
            ),
            JsonValue::Object(members) => Json::Object(
                Seq::new(
                    members@.len(),
                    |i: int|
                        if 0 <= i < members@.len() {
                            (members@[i].0@, members@[i].1.model())
                        } else {
                            (Seq::empty(), Json::Null)
                        },
                ),
            ),
        }
    }
}

impl View for JsonValue {
    type V = Json;

    open spec fn view(&self) -> Json {
        self.model()
    }
}

impl DeepView for JsonValue {
    type V = Json;

    open spec fn deep_view(&self) -> Json {
        self.model()
    }
}

impl JsonValue {
    /// The string that this value is, if it is one.
    pub fn as_str(&self) -> (r: Option<&str>)
        ensures
            r.deep_view() == self@.text(),
    {
        match self {
            JsonValue::Text(s) => Some(s.as_str()),
            _ => None,
        }
    }

    /// The value of the member `key`, if this is an object that has one.
    pub fn get(&self, key: &str) -> (r: Option<&JsonValue>)
        ensures
            r.deep_view() == self@.member(key@),
    {
        match self {
            JsonValue::Object(members) => {
                let ghost model = self@->Object_0;
                let mut i: usize = 0;
                assert(model.skip(0) =~= model);
                while i < members.len()
                    invariant
                        i <= members@.len(),
                        self@ == Json::Object(model),
                        model.len() == members@.len(),
                        forall|j: int|
                            0 <= j < members@.len() ==> #[trigger] model[j] == (
                                members@[j].0@,
                                members@[j].1@,
                            ),
                        first_member(model, key@) == first_member(model.skip(i as int), key@),
                    decreases members@.len() - i,
                {
                    if same_text(members[i].0.as_str(), key) {
                        return Some(&members[i].1);
                    }
                    assert(model.skip(i as int).drop_first() =~= model.skip(i + 1));
                    i = i + 1;
                }
                None
            },
            _ => None,
        }
    }
}

/// Whether `value` is an object in which the first member `key` is the text `text`.
pub open spec fn holds_text(value: Json, key: Seq<char>, text: Seq<char>) -> bool {
    value matches Json::Object(members) && exists|i: int|
        0 <= i < members.len() && #[trigger] members[i] == (key, Json::Text(text)) && (forall|j: int|
            0 <= j < i ==> members[j].0 != key)
}

/// A member of an object is the first that has its key. What is no object has no members.
pub proof fn law_member(value: Json, key: Seq<char>)
    ensures
        match value {
            Json::Object(members) => match value.member(key) {
                Some(found) => exists|i: int|
                    0 <= i < members.len() && #[trigger] members[i] == (key, found) && (forall|
                        j: int,
                    |
                        0 <= j < i ==> members[j].0 != key),
                None => forall|i: int| 0 <= i < members.len() ==> (#[trigger] members[i]).0 != key,
            },
            _ => value.member(key) is None,
        },
{
    if let Json::Object(members) = value {
        lemma_first_member(members, key);
    }
}

proof fn lemma_first_member(members: Seq<(Seq<char>, Json)>, key: Seq<char>)
    ensures
        match first_member(members, key) {
            Some(found) => exists|i: int|
                0 <= i < members.len() && #[trigger] members[i] == (key, found) && (forall|j: int|
                    0 <= j < i ==> members[j].0 != key),
            None => forall|i: int| 0 <= i < members.len() ==> (#[trigger] members[i]).0 != key,
        },
    decreases members.len(),
{
    if members.len() > 0 {
        if members[0].0 == key {
            assert(members[0] == (key, members[0].1));
        } else {
            let rest = members.drop_first();
            lemma_first_member(rest, key);
            match first_member(rest, key) {
                Some(found) => {
                    let i = choose|i: int|
                        0 <= i < rest.len() && #[trigger] rest[i] == (key, found) && (forall|
                            j: int,
                        |
                            0 <= j < i ==> rest[j].0 != key);
                    assert(members[i + 1] == (key, found));
                    assert forall|j: int| 0 <= j < i + 1 implies members[j].0 != key by {
                        if j > 0 {
                            assert(members[j] == rest[j - 1]);
                        }
                    }
                },
                None => {
                    assert forall|i: int| 0 <= i < members.len() implies (#[trigger] members[i]).0
                        != key by {
                        if i > 0 {
                            assert(members[i] == rest[i - 1]);
                        }
                    }
                },
            }
        }
    }
}

/// A text member is a text that an object holds under its key.
pub proof fn law_text_member(value: Json, key: Seq<char>)
    ensures
        match value.text_member(key) {
            Some(text) => holds_text(value, key, text),
            None => forall|text: Seq<char>| !holds_text(value, key, text),
        },
        forall|text: Seq<char>| #[trigger]
            holds_text(value, key, text) ==> value.text_member(key) == Some(text),
{
    law_member(value, key);
    assert forall|text: Seq<char>| #[trigger] holds_text(value, key, text) implies value.text_member(
        key,
    ) == Some(text) by {
        let members = value->Object_0;
        let i = choose|i: int|
            0 <= i < members.len() && #[trigger] members[i] == (key, Json::Text(text)) && (forall|
                j: int,
            |
                0 <= j < i ==> members[j].0 != key);
        let found = value.member(key)->0;
        assert(members[i].0 == key);
        let k = choose|k: int|
            0 <= k < members.len() && #[trigger] members[k] == (key, found) && (forall|j: int|
                0 <= j < k ==> members[j].0 != key);
        if k < i {
            assert(members[k].0 == key);
        } else if i < k {
            assert(members[i].0 == key);
        }
    }
}

} // verus!
