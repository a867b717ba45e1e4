use vstd::prelude::*;

verus! {

/// A JSON number, kept without loss.
#[derive(Clone, Copy, Debug, PartialEq, Eq, Structural)]
pub enum JsonNumber {
    /// A whole number from zero up.
    Unsigned(u64),
    /// A whole number below zero.
    Negative(i64),
    /// Any other number, as the bits of its binary64 form.
    Real(u64),
}

/// The mathematical value of a JSON document.
pub enum Json {
    Null,
    Bool(bool),
    Number(JsonNumber),
    String(Seq<char>),
    Array(Seq<Json>),
    Object(Seq<(Seq<char>, Json)>),
}

/// A JSON document as it is held in memory. An object keeps its members in
/// the order in which they were put.
#[derive(Debug, PartialEq, Eq)]
pub enum JsonValue {
    Null,
    Bool(bool),
    Number(JsonNumber),
    String(String),
    Array(Vec<JsonValue>),
    Object(Vec<(String, JsonValue)>),
}

impl JsonValue {
    /// The document that the value stands for.
    pub open spec fn model(&self) -> Json
        decreases self,
    {
        match self {
            JsonValue::Null => Json::Null,
            JsonValue::Bool(b) => Json::Bool(*b),
            JsonValue::Number(n) => Json::Number(*n),
            JsonValue::String(s) => Json::String(s@),
            JsonValue::Array(items) => Json::Array(
                Seq::new(
                    items@.len(),
                    |i: int|
                        if 0 <= i < items@.len() {
                            items@[i].model()
                        } else {
                            Json::Null
                        },
                ),
            ),
            JsonValue::Object(members) => Json::Object(
                Seq::new(
                    members@.len(),
                    |i: int|
                        if 0 <= i < members@.len() {
                            (members@[i].0@, members@[i].1.model())
                        } else {
                            (Seq::empty(), Json::Null)
                        },
                ),
            ),
        }
    }
}

impl View for JsonValue {
    type V = Json;

    open spec fn view(&self) -> Json {
        self.model()
    }
}

/// The values of a run of array items.
pub open spec fn items_view(items: Seq<JsonValue>) -> Seq<Json> {
    Seq::new(items.len(), |i: int| items[i]@)
}

/// The keys and values of a run of object members.
pub open spec fn members_view(members: Seq<(String, JsonValue)>) -> Seq<(Seq<char>, Json)> {
    Seq::new(members.len(), |i: int| (members[i].0@, members[i].1@))
}

impl JsonValue {
    /// The string in the value, if it is one.
    pub fn as_str(&self) -> (text: Option<&str>)
        ensures
            match self@ {
                Json::String(s) => text matches Some(t) && t@ == s,
                _ => text is None,
            },
    {
        match self {
            JsonValue::String(s) => Some(s.as_str()),
            _ => None,
        }
    }

    /// A string value with the given text.
    pub fn string(text: &str) -> (value: JsonValue)
        ensures
            value@ == Json::String(text@),
    {
        JsonValue::String(text.to_owned())
    }

    /// The array that holds the given items, in their order.
    pub fn array(items: Vec<JsonValue>) -> (value: JsonValue)
        ensures
            value@ == Json::Array(items_view(items@)),
    {
        let value = JsonValue::Array(items);
        assert(value@->Array_0 =~= items_view(items@));
        value
    }

    /// The object that holds the given members, in their order.
    pub fn object(members: Vec<(String, JsonValue)>) -> (value: JsonValue)
        ensures
            value@ == Json::Object(members_view(members@)),
    {
        let value = JsonValue::Object(members);
        assert(value@->Object_0 =~= members_view(members@));
        value
    }
}

impl Clone for JsonValue {
    fn clone(&self) -> (copy: JsonValue)
        ensures
            copy@ == self@,
        decreases self,
    {
        match self {
            JsonValue::Null => JsonValue::Null,
            JsonValue::Bool(b) => JsonValue::Bool(*b),
            JsonValue::Number(n) => JsonValue::Number(*n),
            JsonValue::String(s) => JsonValue::String(s.clone()),
            JsonValue::Array(items) => {
                let mut copies: Vec<JsonValue> = Vec::new();
                let mut i: usize = 0;
                while i < items.len()
                    invariant
                        i <= items.len(),
                        *self == JsonValue::Array(*items),
                        copies@.len() == i,
                        forall|j: int| 0 <= j < i ==> (#[trigger] copies@[j])@ == items@[j]@,
                    decreases items.len() - i,
                {
                    assert(decreases_to!(*self => self->Array_0));
                    assert(decreases_to!(*items => items[i as int]));
                    let copy = items[i].clone();
                    copies.push(copy);
                    i += 1;
                }
                assert(items_view(copies@) =~= items_view(items@));
                let copy = JsonValue::array(copies);
                assert(self@->Array_0 =~= items_view(items@));
                copy
            },
            JsonValue::Object(members) => {
                let mut copies: Vec<(String, JsonValue)> = Vec::new();
                let mut i: usize = 0;
                while i < members.len()
                    invariant
                        i <= members.len(),
                        *self == JsonValue::Object(*members),
                        copies@.len() == i,
                        forall|j: int|
                            0 <= j < i ==> (#[trigger] copies@[j]).0@ == members@[j].0@
                                && copies@[j].1@ == members@[j].1@,
                    decreases members.len() - i,
                {
                    assert(decreases_to!(*self => self->Object_0));
                    assert(decreases_to!(*members => members[i as int]));
                    let key = members[i].0.clone();
                    let value = members[i].1.clone();
                    copies.push((key, value));
                    i += 1;
                }
                assert(members_view(copies@) =~= members_view(members@));
                let copy = JsonValue::object(copies);
                assert(self@->Object_0 =~= members_view(members@));
                copy
            },
        }
    }
}

} // verus!
