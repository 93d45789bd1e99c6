//! A JSON document as a tree of plain values.

use vstd::prelude::*;
use vstd::string::*;

verus! {

/// A JSON value.
#[derive(Debug)]
pub enum JsonValue {
    Null,
    Bool(bool),
    /// A number, as the text that stands for it.
    Number(String),
    String(String),
    Array(Vec<JsonValue>),
    /// An object: its members, each a key with its value.
    Object(Vec<(String, JsonValue)>),
}

/// The value of the first member of `members` whose key is `key`.
pub open spec fn member_of(members: Seq<(String, JsonValue)>, key: Seq<char>) -> Option<JsonValue>
    decreases members.len(),
{
    if members.len() == 0 {
        None
    } else if members[0].0@ == key {
        Some(members[0].1)
    } else {
        member_of(members.drop_first(), key)
    }
}

impl JsonValue {
    /// The member `key` of an object; `None` where the value is no object or
    /// the object has no such member.
    pub open spec fn member(self, key: Seq<char>) -> Option<JsonValue> {
        match self {
            JsonValue::Object(members) => member_of(members@, key),
            _ => None,
        }
    }

    /// Looks up the member `key` of an object.
    pub fn get(&self, key: &str) -> (found: Option<&JsonValue>)
        ensures
            match found {
                Some(value) => self.member(key@) == Some(*value),
                None => self.member(key@) is None,
            },
    {
        match self {
            JsonValue::Object(members) => {
                let wanted = String::from_str(key);
                let mut i: usize = 0;
                proof {
                    assert(members@.skip(0) =~= members@);
                }
                while i < members.len()
                    invariant
                        i <= members.len(),
                        wanted@ == key@,
                        self.member(key@) == member_of(members@, key@),
                        member_of(members@, key@) == member_of(members@.skip(i as int), key@),
                    decreases members.len() - i,
                {
                    proof {
                        assert(members@.skip(i as int).drop_first() =~= members@.skip(i + 1));
                        assert(members@.skip(i as int)[0] == members@[i as int]);
                    }
                    if members[i].0 == wanted {
                        assert(member_of(members@.skip(i as int), key@) == Some(
                            members@[i as int].1,
                        ));
                        return Some(&members[i].1);
                    }
                    i += 1;
                }
                None
            },
            _ => None,
        }
    }
}

/// What the text of a JSON document parses to: the document's value, or
/// `None` where the text is not one JSON value.
pub uninterp spec fn parsed_json(text: Seq<char>) -> Option<JsonValue>;

#[verifier::external_type_specification]
#[verifier::external_body]
pub struct ExValue(serde_json::Value);

/// Copies a `serde_json::Value` into a [`JsonValue`], variant by variant; a
/// number is written out with its `Display`, and the members of an object are
/// taken in the order in which `serde_json::Map::iter` hands them out.
#[verifier::external_body]
fn tree_of(value: &serde_json::Value) -> JsonValue {
    match value {
        serde_json::Value::Null => JsonValue::Null,
        serde_json::Value::Bool(flag) => JsonValue::Bool(*flag),
        serde_json::Value::Number(number) => JsonValue::Number(number.to_string()),
        serde_json::Value::String(text) => JsonValue::String(text.clone()),
        serde_json::Value::Array(items) => JsonValue::Array(items.iter().map(tree_of).collect()),
        serde_json::Value::Object(members) => JsonValue::Object(
            members.iter().map(|(key, member)| (key.clone(), tree_of(member))).collect(),
        ),
    }
}

/// Parses `text` with `serde_json::from_str` into a `serde_json::Value` and
/// copies the value into a [`JsonValue`]. The contract gives the result its
/// name and claims nothing else of it.
#[verifier::external_body]
pub(crate) fn parse_json(text: &str) -> (document: Option<JsonValue>)
    ensures
        document == parsed_json(text@),
{
    match serde_json::from_str::<serde_json::Value>(text) {
        Ok(value) => Some(tree_of(&value)),
        Err(_) => None,
    }
}

} // verus!
