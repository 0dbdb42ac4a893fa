//! A JSON document as plain values, and the lookups the judge's replies need.

use vstd::prelude::*;

verus! {

/// A JSON value. A number is held as the text `serde_json` prints for it; an
/// object keeps its members as a list of pairs. An array and an object also
/// hold their own compact JSON text, as `serde_json` prints it: the judge
/// may send either where an identifier is expected, and the identifier is
/// then that text.
#[derive(Debug, PartialEq, Eq)]
pub enum Json {
    Null,
    Bool(bool),
    Number(String),
    Text(String),
    Array { items: Vec<Json>, text: String },
    Object { members: Vec<(String, Json)>, text: String },
}

/// The value of the first pair in `fields` whose key is `key`.
pub open spec fn first_with_key(fields: Seq<(String, Json)>, key: Seq<char>) -> Option<Json>
    decreases fields.len(),
{
    if fields.len() == 0 {
        None
    } else if fields[0].0@ == key {
        Some(fields[0].1)
    } else {
        first_with_key(fields.drop_first(), key)
    }
}

/// The member found under a key is the first pair with that key; none is
/// found exactly where no pair has the key.
pub proof fn law_first_with_key(fields: Seq<(String, Json)>, key: Seq<char>)
    ensures
        match first_with_key(fields, key) {
            Some(value) => exists|i: int|
                {
                    &&& 0 <= i < fields.len()
                    &&& (#[trigger] fields[i]).0@ == key
                    &&& fields[i].1 == value
                    &&& forall|k: int| 0 <= k < i ==> (#[trigger] fields[k]).0@ != key
                },
            None => forall|i: int| 0 <= i < fields.len() ==> (#[trigger] fields[i]).0@ != key,
        },
    decreases fields.len(),
{
    if fields.len() > 0 {
        if fields[0].0@ == key {
            assert(fields[0].1 == first_with_key(fields, key)->Some_0);
        } else {
            let rest = fields.drop_first();
            law_first_with_key(rest, key);
            match first_with_key(rest, key) {
                Some(value) => {
                    let i = choose|i: int|
                        {
                            &&& 0 <= i < rest.len()
                            &&& (#[trigger] rest[i]).0@ == key
                            &&& rest[i].1 == value
                            &&& forall|k: int| 0 <= k < i ==> (#[trigger] rest[k]).0@ != key
                        };
                    assert(fields[i + 1] == rest[i]);
                    assert forall|k: int| 0 <= k < i + 1 implies (#[trigger] fields[k]).0@
                        != key by {
                        if k > 0 {
                            assert(fields[k] == rest[k - 1]);
                        }
                    }
                },
                None => {
                    assert forall|i: int| 0 <= i < fields.len() implies (#[trigger] fields[i]).0@
                        != key by {
                        if i > 0 {
                            assert(fields[i] == rest[i - 1]);
                        }
                    }
                },
            }
        }
    }
}

impl Json {
    /// The member of an object under `key`; `None` for a missing key and for
    /// anything that is not an object.
    pub open spec fn member(self, key: Seq<char>) -> Option<Json> {
        match self {
            Json::Object { members, .. } => first_with_key(members@, key),
            _ => None,
        }
    }

    /// The element of an array at `index`; `None` past the end and for
    /// anything that is not an array.
    pub open spec fn element(self, index: int) -> Option<Json> {
        match self {
            Json::Array { items, .. } => if 0 <= index < items@.len() {
                Some(items@[index])
            } else {
                None
            },
            _ => None,
        }
    }

    /// The value reached by following `path` member by member.
    pub open spec fn descend(self, path: Seq<Seq<char>>) -> Option<Json>
        decreases path.len(),
    {
        if path.len() == 0 {
            Some(self)
        } else {
            match self.member(path[0]) {
                Some(inner) => inner.descend(path.drop_first()),
                None => None,
            }
        }
    }

    /// Looks up a member of an object by key.
    pub fn get(&self, key: &str) -> (found: Option<&Json>)
        ensures
            match found {
                Some(value) => self.member(key@) == Some(*value),
                None => self.member(key@) is None,
            },
    {
        match self {
            Json::Object { members: fields, .. } => {
                let wanted = key.to_owned();
                let mut i: usize = 0;
                assert(fields@.skip(0) =~= fields@);
                while i < fields.len()
                    invariant
                        i <= fields.len(),
                        wanted@ == key@,
                        self.member(key@) == first_with_key(fields@.skip(i as int), key@),
                    decreases fields.len() - i,
                {
                    if fields[i].0 == wanted {
                        assert(fields@.skip(i as int)[0] == fields@[i as int]);
                        return Some(&fields[i].1);
                    }
                    assert(fields@.skip(i as int).drop_first() =~= fields@.skip(i + 1));
                    i += 1;
                }
                None
            },
            _ => None,
        }
    }

    /// Looks up an element of an array by position.
    pub fn at(&self, index: usize) -> (found: Option<&Json>)
        ensures
            match found {
                Some(value) => self.element(index as int) == Some(*value),
                None => self.element(index as int) is None,
            },
    {
        match self {
            Json::Array { items, .. } => if index < items.len() {
                Some(&items[index])
            } else {
                None
            },
            _ => None,
        }
    }

    /// Follows `path` from this value, one object member per step.
    pub fn find(&self, path: &[&str]) -> (found: Option<&Json>)
        ensures
            match found {
                Some(value) => self.descend(path.deep_view()) == Some(*value),
                None => self.descend(path.deep_view()) is None,
            },
    {
        let ghost keys = path.deep_view();
        let mut current: &Json = self;
        let mut i: usize = 0;
        assert(keys.skip(0) =~= keys);
        while i < path.len()
            invariant
                i <= path.len(),
                keys == path.deep_view(),
                self.descend(keys) == current.descend(keys.skip(i as int)),
            decreases path.len() - i,
        {
            assert(keys.skip(i as int)[0] == path[i as int]@);
            assert(keys.skip(i as int).drop_first() =~= keys.skip(i + 1));
            match current.get(path[i]) {
                Some(inner) => {
                    current = inner;
                },
                None => {
                    return None;
                },
            }
            i += 1;
        }
        Some(current)
    }
}

/// `serde_json::Value`, the document as `serde_json` holds it. Nothing is
/// known of what is inside but through `value_tree`.
#[verifier::external_type_specification]
#[verifier::external_body]
pub struct ExValue(serde_json::Value);

/// `serde_json::Error`, what `serde_json::from_str` returns for a text
/// that it rejects. Nothing is read from it.
#[verifier::external_type_specification]
#[verifier::external_body]
pub struct ExError(serde_json::Error);

/// What `serde_json::from_str` makes of a text: `None` where it rejects the
/// text, else the document it reads from it. The same text always reads the
/// same; nothing else is claimed of it.
pub uninterp spec fn parsed_json(text: Seq<char>) -> Option<Json>;

/// The document that a `serde_json::Value` holds, written as a `Json`,
/// each array and object in it together with the text that `serde_json`
/// prints for it.
pub uninterp spec fn value_tree(value: serde_json::Value) -> Json;

/// Calls `serde_json::from_str` at type `Value`. The contract only gives
/// names to what it does: it accepts exactly the texts that `parsed_json`
/// reads, and the value it returns holds the document that `parsed_json`
/// names.
#[verifier::external_body]
fn value_from_str(text: &str) -> (r: Result<serde_json::Value, serde_json::Error>)
    ensures
        r is Ok <==> parsed_json(text@) is Some,
        r matches Ok(value) ==> parsed_json(text@) == Some(value_tree(value)),
{
    serde_json::from_str(text)
}

/// Rewrites a `serde_json::Value` node by node as a `Json`: null, booleans
/// and strings as they are, a number as the text that `Number`'s `Display`
/// prints, an array element by element, an object as the list of its
/// members in the order in which its map yields them; an array and an
/// object get the text that `Value`'s `Display` prints for them, which is
/// the compact form. The contract only says that the result is what
/// `value_tree` names.
#[verifier::external_body]
fn json_from_value(value: &serde_json::Value) -> (json: Json)
    ensures
        json == value_tree(*value),
{
    match value {
        serde_json::Value::Null => Json::Null,
        serde_json::Value::Bool(b) => Json::Bool(*b),
        serde_json::Value::Number(n) => Json::Number(n.to_string()),
        serde_json::Value::String(s) => Json::Text(s.clone()),
        serde_json::Value::Array(a) => Json::Array {
            items: a.iter().map(json_from_value).collect(),
            text: value.to_string(),
        },
        serde_json::Value::Object(o) => Json::Object {
            members: o.iter().map(|(k, v)| (k.clone(), json_from_value(v))).collect(),
            text: value.to_string(),
        },
    }
}

/// Reads a JSON text; `None` where the text is not valid JSON.
pub fn parse(text: &str) -> (document: Option<Json>)
    ensures
        document == parsed_json(text@),
{
    match value_from_str(text) {
        Ok(value) => Some(json_from_value(&value)),
        Err(_) => None,
    }
}

} // verus!
