//! JSON documents as values of this library.

use vstd::prelude::*;

verus! {

#[verifier::external_type_specification]
#[verifier::external_body]
pub struct ExJsonTree(serde_json::Value);

#[verifier::external_type_specification]
#[verifier::external_body]
pub struct ExJsonError(serde_json::Error);

/// A JSON value.
///
/// A number keeps the text that it prints as. An object keeps its members in
/// a row, each with its name.
#[derive(Debug, PartialEq, Eq)]
pub enum JsonValue {
    Null,
    Bool(bool),
    Number(String),
    Text(String),
    Array(Vec<JsonValue>),
    Object(Vec<(String, JsonValue)>),
}

/// The value that a JSON text denotes; `None` for a text that is no JSON
/// document.
pub uninterp spec fn json_document(text: Seq<char>) -> Option<JsonValue>;

/// The parser's own tree, as a value of this library.
pub uninterp spec fn json_of(value: serde_json::Value) -> JsonValue;

/// `serde_json::from_str`, at the type `serde_json::Value`. Whether it succeeds,
/// and the tree it builds, depend on the text alone: they are what
/// `json_document` names.
#[verifier::external_body]
fn parse_value(text: &str) -> (parsed: Result<serde_json::Value, serde_json::Error>)
    ensures
        match parsed {
            Ok(value) => json_document(text@) == Some(json_of(value)),
            Err(_) => json_document(text@) is None,
        },
{
    serde_json::from_str::<serde_json::Value>(text)
}

/// Takes a `serde_json::Value` apart, variant by variant, and puts it together
/// again as a `JsonValue`: a number as `serde_json::Number` prints it, the
/// members of an object in the order in which `serde_json::Map` hands them
/// out. The contract claims no more than that the result depends on the tree
/// alone: `json_of` names it.
#[verifier::external_body]
fn json_from_value(value: serde_json::Value) -> (json: JsonValue)
    ensures
        json == json_of(value),
{
    match value {
        serde_json::Value::Null => JsonValue::Null,
        serde_json::Value::Bool(b) => JsonValue::Bool(b),
        serde_json::Value::Number(n) => JsonValue::Number(n.to_string()),
        serde_json::Value::String(s) => JsonValue::Text(s),
        serde_json::Value::Array(items) => JsonValue::Array(
            items.into_iter().map(json_from_value).collect(),
        ),
        serde_json::Value::Object(members) => JsonValue::Object(
            members.into_iter().map(|(name, value)| (name, json_from_value(value))).collect(),
        ),
    }
}

/// The member called `name` among `members`: the first of that name.
pub open spec fn member(members: Seq<(String, JsonValue)>, name: Seq<char>) -> Option<JsonValue>
    decreases members.len(),
{
    if members.len() == 0 {
        None
    } else if members[0].0@ == name {
        Some(members[0].1)
    } else {
        member(members.skip(1), name)
    }
}

/// Whether no two of the members go by one name.
pub open spec fn names_once(members: Seq<(String, JsonValue)>) -> bool {
    forall|i: int, j: int|
        #![trigger members[i], members[j]]
        0 <= i < j < members.len() ==> members[i].0@ != members[j].0@
}

impl JsonValue {
    /// The member called `name` of an object; `None` for an object without it
    /// and for a value that is no object.
    pub open spec fn field(self, name: Seq<char>) -> Option<JsonValue> {
        match self {
            JsonValue::Object(members) => member(members@, name),
            _ => None,
        }
    }

    /// The characters of a string.
    pub open spec fn text(self) -> Option<Seq<char>> {
        match self {
            JsonValue::Text(text) => Some(text@),
            _ => None,
        }
    }

    /// The items of an array that holds strings and nothing else.
    pub open spec fn texts(self) -> Option<Seq<Seq<char>>> {
        match self {
            JsonValue::Array(items) => if forall|i: int|
                0 <= i < items@.len() ==> (#[trigger] items@[i]).text() is Some {
                Some(Seq::new(items@.len(), |i: int| items@[i].text().unwrap()))
            } else {
                None
            },
            _ => None,
        }
    }

    /// The members of an object whose members are all strings and go by
    /// different names, each as its name and its characters.
    pub open spec fn text_members(self) -> Option<Seq<(Seq<char>, Seq<char>)>> {
        match self {
            JsonValue::Object(members) => if names_once(members@) && forall|i: int|
                0 <= i < members@.len() ==> (#[trigger] members@[i]).1.text() is Some {
                Some(
                    Seq::new(
                        members@.len(),
                        |i: int| (members@[i].0@, members@[i].1.text().unwrap()),
                    ),
                )
            } else {
                None
            },
            _ => None,
        }
    }

    /// Looks up a member of an object by its name.
    pub fn get(&self, name: &str) -> (found: Option<&JsonValue>)
        ensures
            match found {
                Some(value) => self.field(name@) == Some(*value),
                None => self.field(name@) is None,
            },
    {
        match self {
            JsonValue::Object(members) => {
                let wanted = name.to_owned();
                let mut i: usize = 0;
                assert(members@.skip(0) == members@);
                while i < members.len()
                    invariant
                        i <= members.len(),
                        wanted@ == name@,
                        *self == JsonValue::Object(*members),
                        member(members@, name@) == member(members@.skip(i as int), name@),
                    decreases members.len() - i,
                {
                    if members[i].0 == wanted {
                        return Some(&members[i].1);
                    }
                    assert(members@.skip(i as int).skip(1) == members@.skip(i + 1));
                    i += 1;
                }
                None
            },
            _ => None,
        }
    }

    /// The string that this value is, if it is one.
    pub fn as_text(&self) -> (text: Option<String>)
        ensures
            text.deep_view() == self.text(),
    {
        match self {
            JsonValue::Text(text) => Some(text.clone()),
            _ => None,
        }
    }

    /// The strings that this array holds, if it is an array of strings.
    pub fn as_texts(&self) -> (texts: Option<Vec<String>>)
        ensures
            texts.deep_view() == self.texts(),
    {
        match self {
            JsonValue::Array(items) => {
                let mut texts: Vec<String> = Vec::new();
                let mut i: usize = 0;
                while i < items.len()
                    invariant
                        i <= items.len(),
                        texts.len() == i,
                        *self == JsonValue::Array(*items),
                        forall|k: int|
                            0 <= k < i ==> (#[trigger] items@[k]).text() == Some(texts@[k]@),
                    decreases items.len() - i,
                {
                    match &items[i] {
                        JsonValue::Text(text) => {
                            texts.push(text.clone());
                        },
                        _ => {
                            return None;
                        },
                    }
                    i += 1;
                }
                Some(texts)
            },
            _ => None,
        }
    }

    /// The members of this object as pairs of strings, if it is an object
    /// whose members are all strings and go by different names.
    pub fn as_text_members(&self) -> (pairs: Option<Vec<(String, String)>>)
        ensures
            pairs.deep_view() == self.text_members(),
    {
        match self {
            JsonValue::Object(members) => {
                let mut pairs: Vec<(String, String)> = Vec::new();
                let mut i: usize = 0;
                while i < members.len()
                    invariant
                        i <= members.len(),
                        pairs.len() == i,
                        *self == JsonValue::Object(*members),
                        forall|k: int|
                            0 <= k < i ==> (#[trigger] members@[k]).1.text() == Some(pairs@[k].1@)
                                && members@[k].0@ == pairs@[k].0@,
                    decreases members.len() - i,
                {
                    match &members[i].1 {
                        JsonValue::Text(text) => {
                            pairs.push((members[i].0.clone(), text.clone()));
                        },
                        _ => {
                            return None;
                        },
                    }
                    i += 1;
                }
                let mut later: usize = 0;
                while later < members.len()
                    invariant
                        later <= members.len(),
                        *self == JsonValue::Object(*members),
                        forall|i: int, j: int|
                            #![trigger members@[i], members@[j]]
                            0 <= i < j < later ==> members@[i].0@ != members@[j].0@,
                    decreases members.len() - later,
                {
                    let mut earlier: usize = 0;
                    while earlier < later
                        invariant
                            earlier <= later < members.len(),
                            *self == JsonValue::Object(*members),
                            forall|i: int|
                                0 <= i < earlier ==> (#[trigger] members@[i]).0@
                                    != members@[later as int].0@,
                        decreases later - earlier,
                    {
                        if members[earlier].0 == members[later].0 {
                            return None;
                        }
                        earlier += 1;
                    }
                    later += 1;
                }
                Some(pairs)
            },
            _ => None,
        }
    }
}

/// Reads a JSON document.
pub fn parse_json(text: &str) -> (json: Option<JsonValue>)
    ensures
        json == json_document(text@),
{
    match parse_value(text) {
        Ok(value) => Some(json_from_value(value)),
        Err(_) => None,
    }
}

} // verus!
