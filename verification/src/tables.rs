//! Hash tables of the `hashbrown` crate that the scene graph loader keeps: the registry of type
//! names by type handle, and the string tags of a node.

use vstd::prelude::*;

verus! {

/// The type names registered so far, by type handle (a `hashbrown::HashMap<u16, String>`).
#[verifier::external_body]
pub struct TypeRegistry {
    map: hashbrown::HashMap<u16, String>,
}

/// What a `TypeRegistry` holds: each registered handle with its type name.
pub uninterp spec fn type_names(r: TypeRegistry) -> Map<u16, Seq<char>>;

impl TypeRegistry {
    /// `hashbrown::HashMap::new`: an empty map.
    #[verifier::external_body]
    pub fn new() -> (r: TypeRegistry)
        ensures
            type_names(r).dom() == Set::<u16>::empty(),
    {
        TypeRegistry { map: hashbrown::HashMap::new() }
    }

    /// `hashbrown::HashMap::contains_key`: whether the handle has an entry.
    #[verifier::external_body]
    pub fn contains_key(&self, k: u16) -> (b: bool)
        ensures
            b == type_names(*self).contains_key(k),
    {
        self.map.contains_key(&k)
    }

    /// `hashbrown::HashMap::get`: the entry of the handle, if there is one.
    #[verifier::external_body]
    pub fn get(&self, k: u16) -> (r: Option<String>)
        ensures
            match r {
                Some(s) => type_names(*self).contains_key(k) && s@ == type_names(*self)[k],
                None => !type_names(*self).contains_key(k),
            },
    {
        self.map.get(&k).cloned()
    }

    /// `hashbrown::HashMap::insert`: the handle now maps to `v`, whether or not it had an
    /// entry; every other entry stays.
    #[verifier::external_body]
    pub fn insert(&mut self, k: u16, v: String)
        ensures
            type_names(*final(self)) == type_names(*old(self)).insert(k, v@),
    {
        self.map.insert(k, v);
    }

}

/// The tags of a scene graph node, by key (a `hashbrown::HashMap<String, String>`).
#[verifier::external_body]
pub struct TagMap {
    map: hashbrown::HashMap<String, String>,
}

/// What a `TagMap` holds: each key with its value.
pub uninterp spec fn tag_entries(t: TagMap) -> Map<Seq<char>, Seq<char>>;

impl TagMap {
    /// `hashbrown::HashMap::new`: an empty map.
    #[verifier::external_body]
    pub fn new() -> (r: TagMap)
        ensures
            tag_entries(r).dom() == Set::<Seq<char>>::empty(),
    {
        TagMap { map: hashbrown::HashMap::new() }
    }

    /// `hashbrown::HashMap::insert`: the key now maps to `v`, whether or not it had an entry
    /// (keys compare by their text); every other entry stays.
    #[verifier::external_body]
    pub fn insert(&mut self, k: String, v: String)
        ensures
            tag_entries(*final(self)) == tag_entries(*old(self)).insert(k@, v@),
    {
        self.map.insert(k, v);
    }



    /// `hashbrown::HashMap::iter`, each entry copied out. Every entry comes out once; the order
    /// is that of the hash table and is left unsaid.
    #[verifier::external_body]
    pub fn entries(&self) -> (r: Vec<(String, String)>)
        ensures
            r@.len() == tag_entries(*self).len(),
            forall|i: int|
                #![trigger r@[i]]
                0 <= i < r@.len() ==> tag_entries(*self).contains_key(r@[i].0@)
                    && tag_entries(*self)[r@[i].0@] == r@[i].1@,
            forall|i: int, j: int|
                0 <= i < j < r@.len() ==> #[trigger] r@[i].0@ != #[trigger] r@[j].0@,
    {
        let mut r = Vec::new();
        for (k, v) in self.map.iter() {
            r.push((k.clone(), v.clone()));
        }
        r
    }
}

} // verus!
