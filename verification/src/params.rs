//! The parameters of a query as the framework hands them over: text keys with
//! text values, each key once.

use vstd::hash_map::StringHashMap;
use vstd::prelude::*;

verus! {

/// The parameters of a query: a map from keys to values.
pub struct QueryParams {
    map: StringHashMap<String>,
}

impl View for QueryParams {
    type V = Map<Seq<char>, Seq<char>>;

    closed spec fn view(&self) -> Map<Seq<char>, Seq<char>> {
        self.map@.map_values(|value: String| value@)
    }
}

impl QueryParams {
    /// No parameters.
    pub fn new() -> (params: QueryParams)
        ensures
            params@ == Map::<Seq<char>, Seq<char>>::empty(),
    {
        QueryParams { map: StringHashMap::new() }
    }

    /// Sets the value of `key` to `value`; a value that `key` had is replaced.
    pub fn insert(&mut self, key: String, value: String)
        ensures
            final(self)@ == old(self)@.insert(key@, value@),
    {
        self.map.insert(key, value);
    }

    /// Whether `key` has a value.
    pub fn contains_key(&self, key: &str) -> (r: bool)
        ensures
            r == self@.contains_key(key@),
    {
        self.map.contains_key(key)
    }

    /// The value of `key`, where it has one.
    pub fn get(&self, key: &str) -> (r: Option<&String>)
        ensures
            r is Some <==> self@.contains_key(key@),
            r matches Some(value) ==> value@ == self@[key@],
    {
        self.map.get(key)
    }

    /// Whether there is no parameter at all.
    pub fn is_empty(&self) -> (r: bool)
        ensures
            r == self@.is_empty(),
            r == (self@ == Map::<Seq<char>, Seq<char>>::empty()),
    {
        let r = self.map.is_empty();
        if r {
            assert(self@ =~= Map::<Seq<char>, Seq<char>>::empty());
        }
        r
    }

    /// The number of parameters.
    pub fn len(&self) -> (r: usize)
        ensures
            r == self@.len(),
    {
        proof {
            assert(self@.dom() =~= self.map@.dom());
        }
        self.map.len()
    }
}

} // verus!
