//! The JSON values that tool calls carry as their arguments.
use crate::text::same_text;
use vstd::prelude::*;

verus! {

/// A JSON value. Of numbers only those that are unsigned 64-bit integers are
/// told apart: nothing reads any other. The members of an object are held in
/// the order of their names, each name once.
#[derive(Debug, PartialEq, Eq)]
pub enum Json {
    Null,
    Bool(bool),
    UInt(u64),
    OtherNumber,
    Str(String),
    Array(Vec<Json>),
    Object(Vec<(String, Json)>),
}

/// The first of `members` with the name `key`.
pub open spec fn member(members: Seq<(String, Json)>, key: Seq<char>) -> Option<Json>
    decreases members.len(),
{
    if members.len() == 0 {
        None
    } else if members[0].0@ == key {
        Some(members[0].1)
    } else {
        member(members.skip(1), key)
    }
}

impl Json {
    /// The member of an object with the name `key`; nothing for a value that is no object.
    pub open spec fn field(self, key: Seq<char>) -> Option<Json> {
        match self {
            Json::Object(members) => member(members@, key),
            _ => None,
        }
    }

    /// The text of the member `key` where it is a string.
    pub open spec fn text_field(self, key: Seq<char>) -> Option<Seq<char>> {
        match self.field(key) {
            Some(Json::Str(s)) => Some(s@),
            _ => None,
        }
    }

    /// The text of the member `key` where it is a string, else `default`.
    pub open spec fn text_or(self, key: Seq<char>, default: Seq<char>) -> Seq<char> {
        match self.text_field(key) {
            Some(s) => s,
            None => default,
        }
    }

    /// The value of the member `key` where it is an unsigned integer.
    pub open spec fn uint_field(self, key: Seq<char>) -> Option<u64> {
        match self.field(key) {
            Some(Json::UInt(n)) => Some(n),
            _ => None,
        }
    }

    /// The value of the member `key` where it is an unsigned integer, else zero.
    pub open spec fn uint_or_zero(self, key: Seq<char>) -> u64 {
        match self.uint_field(key) {
            Some(n) => n,
            None => 0,
        }
    }

    /// Whether the member `key` is the value `true`.
    pub open spec fn flag(self, key: Seq<char>) -> bool {
        self.field(key) == Some(Json::Bool(true))
    }

    /// The items of the member `key` where it is an array.
    pub open spec fn array_field(self, key: Seq<char>) -> Option<Seq<Json>> {
        match self.field(key) {
            Some(Json::Array(items)) => Some(items@),
            _ => None,
        }
    }

    /// The member of an object with the name `key`; nothing for a value that is no object.
    pub fn get(&self, key: &str) -> (r: Option<&Json>)
        ensures
            match r {
                Some(v) => self.field(key@) == Some(*v),
                None => self.field(key@) is None,
            },
    {
        match self {
            Json::Object(members) => {
                let mut i: usize = 0;
                proof {
                    assert(members@.skip(0) =~= members@);
                }
                while i < members.len()
                    invariant
                        i <= members@.len(),
                        self.field(key@) == member(members@.skip(i as int), key@),
                    decreases members@.len() - i,
                {
                    if same_text(members[i].0.as_str(), key) {
                        return Some(&members[i].1);
                    }
                    proof {
                        assert(members@.skip(i as int).skip(1) =~= members@.skip(i + 1));
                    }
                    i = i + 1;
                }
                None
            },
            _ => None,
        }
    }

    /// The text of the member `key` where it is a string.
    pub fn get_text(&self, key: &str) -> (r: Option<&str>)
        ensures
            match r {
                Some(s) => self.text_field(key@) == Some(s@),
                None => self.text_field(key@) is None,
            },
    {
        match self.get(key) {
            Some(Json::Str(s)) => Some(s.as_str()),
            _ => None,
        }
    }

    /// The text of the member `key` where it is a string, else `default`.
    pub fn get_text_or<'a>(&'a self, key: &str, default: &'a str) -> (r: &'a str)
        ensures
            r@ == self.text_or(key@, default@),
    {
        match self.get_text(key) {
            Some(s) => s,
            None => default,
        }
    }

    /// The value of the member `key` where it is an unsigned integer.
    pub fn get_uint(&self, key: &str) -> (r: Option<u64>)
        ensures
            r == self.uint_field(key@),
    {
        match self.get(key) {
            Some(Json::UInt(n)) => Some(*n),
            _ => None,
        }
    }

    /// The value of the member `key` where it is an unsigned integer, else zero.
    pub fn get_uint_or_zero(&self, key: &str) -> (r: u64)
        ensures
            r == self.uint_or_zero(key@),
    {
        match self.get_uint(key) {
            Some(n) => n,
            None => 0,
        }
    }

    /// Whether the member `key` is the value `true`.
    pub fn get_flag(&self, key: &str) -> (r: bool)
        ensures
            r == self.flag(key@),
    {
        match self.get(key) {
            Some(Json::Bool(b)) => *b,
            _ => false,
        }
    }

    /// The items of the member `key` where it is an array.
    pub fn get_array(&self, key: &str) -> (r: Option<&Vec<Json>>)
        ensures
            match r {
                Some(v) => self.array_field(key@) == Some(v@),
                None => self.array_field(key@) is None,
            },
    {
        match self.get(key) {
            Some(Json::Array(items)) => Some(items),
            _ => None,
        }
    }
}

} // verus!
