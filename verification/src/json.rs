//! JSON documents, as far as the engine reads them: the report that the
//! probing tool prints is one.

use vstd::prelude::*;
use vstd::string::*;

verus! {

/// A JSON value.
#[derive(Debug, PartialEq, Eq)]
pub enum Json {
    Null,
    Bool(bool),
    /// A number, with its value where it is a non-negative integer that fits
    /// 64 bits. Of any other number nothing is kept.
    Number(Option<u64>),
    Text(String),
    Array(Vec<Json>),
    /// The members of an object, each with its key.
    Object(Vec<(String, Json)>),
}

/// The declared outside type of a parsed document.
#[verifier::external_type_specification]
#[verifier::external_body]
pub struct ExValue(serde_json::Value);

/// The document that a run of bytes holds, `None` where it is no JSON text:
/// what `serde_json::from_slice` makes of them, variant by variant.
pub uninterp spec fn parsed_document(bytes: Seq<u8>) -> Option<Json>;

/// The first of `members` that is named `key`.
pub open spec fn find_member(members: Seq<(String, Json)>, key: Seq<char>) -> Option<Json>
    decreases members.len(),
{
    if members.len() == 0 {
        None
    } else if members[0].0@ == key {
        Some(members[0].1)
    } else {
        find_member(members.subrange(1, members.len() as int), key)
    }
}

proof fn find_member_skips(members: Seq<(String, Json)>, key: Seq<char>, upto: int)
    requires
        0 <= upto <= members.len(),
        forall|i: int| 0 <= i < upto ==> (#[trigger] members[i]).0@ != key,
    ensures
        find_member(members, key) == find_member(
            members.subrange(upto, members.len() as int),
            key,
        ),
    decreases upto,
{
    if upto == 0 {
        assert(members.subrange(0, members.len() as int) == members);
    } else {
        let rest = members.subrange(1, members.len() as int);
        assert(members[0].0@ != key);
        assert forall|i: int| 0 <= i < upto - 1 implies (#[trigger] rest[i]).0@ != key by {
            assert(rest[i] == members[i + 1]);
        }
        find_member_skips(rest, key, upto - 1);
        assert(rest.subrange(upto - 1, rest.len() as int) == members.subrange(
            upto,
            members.len() as int,
        ));
    }
}

impl Json {
    /// The member of an object that is named `key`. `None` for a missing
    /// key and for a value that is no object.
    pub open spec fn spec_get(self, key: Seq<char>) -> Option<Json> {
        match self {
            Json::Object(members) => find_member(members@, key),
            _ => None,
        }
    }

    /// The characters of a string. `None` for any other value.
    pub open spec fn spec_str(self) -> Option<Seq<char>> {
        match self {
            Json::Text(text) => Some(text@),
            _ => None,
        }
    }

    /// The value of a number that is a non-negative integer of 64 bits.
    /// `None` for any other number and any other value.
    pub open spec fn spec_u64(self) -> Option<u64> {
        match self {
            Json::Number(value) => value,
            _ => None,
        }
    }

    /// The items of an array. `None` for any other value.
    pub open spec fn spec_array(self) -> Option<Seq<Json>> {
        match self {
            Json::Array(items) => Some(items@),
            _ => None,
        }
    }

    /// The member of an object that is named `key`: the first one, where
    /// several are. `None` for a missing key and for a value that is no
    /// object.
    pub fn get(&self, key: &str) -> (member: Option<&Json>)
        ensures
            match member {
                Some(found) => self.spec_get(key@) == Some(*found),
                None => self.spec_get(key@).is_none(),
            },
    {
        match self {
            Json::Object(members) => {
                let wanted = String::from_str(key);
                let mut i: usize = 0;
                while i < members.len()
                    invariant
                        i <= members.len(),
                        wanted@ == key@,
                        self.spec_get(key@) == find_member(members@, key@),
                        forall|j: int| 0 <= j < i ==> (#[trigger] members@[j]).0@ != key@,
                    decreases members.len() - i,
                {
                    if members[i].0 == wanted {
                        proof {
                            find_member_skips(members@, key@, i as int);
                            let rest = members@.subrange(i as int, members.len() as int);
                            assert(rest[0] == members@[i as int]);
                        }
                        return Some(&members[i].1);
                    }
                    i += 1;
                }
                proof {
                    find_member_skips(members@, key@, members.len() as int);
                }
                None
            },
            _ => None,
        }
    }

    /// The characters of a string. `None` for any other value.
    pub fn as_str(&self) -> (text: Option<&str>)
        ensures
            match text {
                Some(found) => self.spec_str() == Some(found@),
                None => self.spec_str().is_none(),
            },
    {
        match self {
            Json::Text(text) => Some(text.as_str()),
            _ => None,
        }
    }

    /// The value of a number that is a non-negative integer of 64 bits.
    /// `None` for any other number and any other value.
    pub fn as_u64(&self) -> (value: Option<u64>)
        ensures
            value == self.spec_u64(),
    {
        match self {
            Json::Number(value) => *value,
            _ => None,
        }
    }

    /// The items of an array. `None` for any other value.
    pub fn as_array(&self) -> (items: Option<&Vec<Json>>)
        ensures
            match items {
                Some(found) => self.spec_array() == Some(found@),
                None => self.spec_array().is_none(),
            },
    {
        match self {
            Json::Array(items) => Some(items),
            _ => None,
        }
    }
}

/// Turns a document of `serde_json` into a `Json`, one variant for one; a
/// number goes through `serde_json::Number::as_u64`.
#[verifier::external_body]
fn lift(value: serde_json::Value) -> Json {
    match value {
        serde_json::Value::Null => Json::Null,
        serde_json::Value::Bool(flag) => Json::Bool(flag),
        serde_json::Value::Number(number) => Json::Number(number.as_u64()),
        serde_json::Value::String(text) => Json::Text(text),
        serde_json::Value::Array(items) => Json::Array(items.into_iter().map(lift).collect()),
        serde_json::Value::Object(members) => Json::Object(
            members.into_iter().map(|(key, item)| (key, lift(item))).collect(),
        ),
    }
}

/// Calls `serde_json::from_slice`. The contract claims only that the
/// document is a function of the bytes; an error of the parser becomes
/// `None`.
#[verifier::external_body]
pub(crate) fn parse_document(bytes: &[u8]) -> (document: Option<Json>)
    ensures
        document == parsed_document(bytes@),
{
    match serde_json::from_slice::<serde_json::Value>(bytes) {
        Ok(value) => Some(lift(value)),
        Err(_) => None,
    }
}

} // verus!
