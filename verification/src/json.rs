//! JSON values as the client hands them to the transport.

use vstd::prelude::*;

verus! {

/// A JSON value. Numbers are integers: the calls this client makes carry no
/// fractions. An object keeps its members in the order they were given.
#[derive(Debug, PartialEq, Eq)]
pub enum Json {
    Null,
    Bool(bool),
    Unsigned(u64),
    Signed(i64),
    Text(String),
    List(Vec<Json>),
    Object(Vec<(String, Json)>),
}

impl Json {
    /// Whether this value is the JSON string with the given characters.
    pub open spec fn is_text(self, chars: Seq<char>) -> bool {
        self matches Json::Text(t) && t@ == chars
    }

    /// Whether this value is the JSON array with the given items.
    pub open spec fn is_list(self, items: Seq<Json>) -> bool {
        self matches Json::List(l) && l@ == items
    }

    /// The items of an array; of any other value, nothing.
    pub open spec fn items(self) -> Seq<Json> {
        match self {
            Json::List(l) => l@,
            _ => Seq::empty(),
        }
    }

    /// The members of an object; of any other value, nothing.
    pub open spec fn members(self) -> Seq<(String, Json)> {
        match self {
            Json::Object(m) => m@,
            _ => Seq::empty(),
        }
    }
}

} // verus!
