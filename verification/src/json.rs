//! Answers of the metadata providers as data: a JSON value that holds, as
//! plain values, what the records are read from.

use vstd::prelude::*;
use crate::text::{chars_of, same_chars};

verus! {

/// A JSON value.
#[derive(Debug)]
pub enum JsonValue {
    Null,
    Bool(bool),
    /// A number that is a whole number of 64 bits with sign.
    Integer(i64),
    /// Any other number. Its value is not read.
    Fraction,
    Text(String),
    List(Vec<JsonValue>),
    /// The members of an object, each with its key. Of two members with one
    /// key only the first is found.
    Object(Vec<(String, JsonValue)>),
}

/// Where the first member with the key `key` stands among `members`, or the
/// number of members where none has it.
pub open spec fn member_index(members: Seq<(String, JsonValue)>, key: Seq<char>) -> int
    decreases members.len(),
{
    if members.len() == 0 {
        0
    } else if members[0].0@ == key {
        0
    } else {
        1 + member_index(members.skip(1), key)
    }
}

impl JsonValue {
    /// The member of an object under `key`; `None` for anything that is no
    /// object, and for an object without that key.
    pub open spec fn member(self, key: Seq<char>) -> Option<JsonValue> {
        match self {
            JsonValue::Object(members) => if member_index(members@, key) < members.len() {
                Some(members[member_index(members@, key)].1)
            } else {
                None
            },
            _ => None,
        }
    }

    /// The text of a string.
    pub open spec fn text(self) -> Option<Seq<char>> {
        match self {
            JsonValue::Text(s) => Some(s@),
            _ => None,
        }
    }

    /// The value of a whole number.
    pub open spec fn integer(self) -> Option<i64> {
        match self {
            JsonValue::Integer(n) => Some(n),
            _ => None,
        }
    }

    /// The value of a truth value.
    pub open spec fn flag(self) -> Option<bool> {
        match self {
            JsonValue::Bool(b) => Some(b),
            _ => None,
        }
    }

    /// The items of a list.
    pub open spec fn items(self) -> Option<Seq<JsonValue>> {
        match self {
            JsonValue::List(items) => Some(items@),
            _ => None,
        }
    }

    /// The member of an object under `key`.
    pub fn get(&self, key: &str) -> (found: Option<&JsonValue>)
        ensures
            (match found {
                Some(v) => Some(*v),
                None => None,
            }) == self.member(key@),
    {
        match self {
            JsonValue::Object(members) => {
                let wanted = chars_of(key);
                let mut i: usize = 0;
                assert(members@.skip(0) =~= members@);
                while i < members.len()
                    invariant
                        i <= members.len(),
                        wanted@ == key@,
                        *self == JsonValue::Object(*members),
                        member_index(members@, key@) == i + member_index(
                            members@.skip(i as int),
                            key@,
                        ),
                    decreases members.len() - i,
                {
                    assert(members@.skip(i as int).skip(1) =~= members@.skip(i + 1));
                    if same_chars(&chars_of(members[i].0.as_str()), &wanted) {
                        return Some(&members[i].1);
                    }
                    i += 1;
                }
                None
            },
            _ => None,
        }
    }

    /// The text of a string.
    pub fn as_str(&self) -> (found: Option<&String>)
        ensures
            (match found {
                Some(s) => Some(s@),
                None => None,
            }) == self.text(),
    {
        match self {
            JsonValue::Text(s) => Some(s),
            _ => None,
        }
    }

    /// The value of a whole number.
    pub fn as_i64(&self) -> (found: Option<i64>)
        ensures
            found == self.integer(),
    {
        match self {
            JsonValue::Integer(n) => Some(*n),
            _ => None,
        }
    }

    /// The value of a truth value.
    pub fn as_bool(&self) -> (found: Option<bool>)
        ensures
            found == self.flag(),
    {
        match self {
            JsonValue::Bool(b) => Some(*b),
            _ => None,
        }
    }

    /// The items of a list.
    pub fn as_array(&self) -> (found: Option<&Vec<JsonValue>>)
        ensures
            (match found {
                Some(items) => Some(items@),
                None => None,
            }) == self.items(),
    {
        match self {
            JsonValue::List(items) => Some(items),
            _ => None,
        }
    }
}

} // verus!
