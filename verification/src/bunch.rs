//! A bunch of raw properties, keyed by property name.
//!
//! The bunch stores each property under its own name, a later insertion
//! replacing an earlier one; the store itself is an ordered map of an
//! outside crate, trusted at its interface.

use vstd::prelude::*;

verus! {

/// One property as it was read: its name and its raw text value.
#[derive(Debug)]
pub struct RawProperty {
    pub property: String,
    pub value: String,
}

/// The mathematical image of a [`RawProperty`].
pub struct RawPropertyView {
    pub property: Seq<char>,
    pub value: Seq<char>,
}

impl View for RawProperty {
    type V = RawPropertyView;

    open spec fn view(&self) -> RawPropertyView {
        RawPropertyView { property: self.property@, value: self.value@ }
    }
}

/// Relies on indexmap::IndexMap, declared here so its values can stand
/// in fields and signatures; what it holds is named by `bunch_entries`.
#[verifier::external_type_specification]
#[verifier::external_body]
#[verifier::reject_recursive_types(K)]
#[verifier::reject_recursive_types(V)]
#[verifier::reject_recursive_types(S)]
pub struct ExIndexMap<K, V, S>(indexmap::IndexMap<K, V, S>);

/// What a property store holds: under each stored name, the property's
/// name and value.
pub uninterp spec fn bunch_entries(m: indexmap::IndexMap<String, RawProperty>) -> Map<
    Seq<char>,
    (Seq<char>, Seq<char>),
>;

/// A store with nothing in it.
pub open spec fn empty_entries() -> Map<Seq<char>, (Seq<char>, Seq<char>)> {
    Map::empty()
}

/// Relies on indexmap::IndexMap::new: a new map holds nothing.
#[verifier::external_body]
fn map_new() -> (r: indexmap::IndexMap<String, RawProperty>)
    ensures
        bunch_entries(r) == empty_entries(),
{
    indexmap::IndexMap::new()
}

/// Relies on indexmap::IndexMap::insert: the pair is stored under its
/// key, replacing the pair of an equal key and leaving every other pair
/// in place.
#[verifier::external_body]
fn map_insert(
    m: &mut indexmap::IndexMap<String, RawProperty>,
    key: String,
    value: RawProperty,
)
    ensures
        bunch_entries(*final(m)) == bunch_entries(*old(m)).insert(
            key@,
            (value.property@, value.value@),
        ),
{
    m.insert(key, value);
}

/// Relies on indexmap::IndexMap::get: the pair stored under an
/// equivalent key, if one is there.
#[verifier::external_body]
fn map_get<'a>(m: &'a indexmap::IndexMap<String, RawProperty>, key: &str) -> (r: Option<
    &'a RawProperty,
>)
    ensures
        r matches Some(v) ==> bunch_entries(*m).contains_key(key@) && bunch_entries(*m)[key@]
            == (v.property@, v.value@),
        r is None ==> !bunch_entries(*m).contains_key(key@),
{
    m.get(key)
}

/// A bunch of raw properties, each stored under its own name.
#[derive(Debug)]
pub struct Bunch(indexmap::IndexMap<String, RawProperty>);

impl Bunch {
    /// What the bunch holds: under each stored name, the property's name
    /// and value.
    pub closed spec fn entries(&self) -> Map<Seq<char>, (Seq<char>, Seq<char>)> {
        bunch_entries(self.0)
    }

    /// An empty bunch.
    pub fn new() -> (r: Bunch)
        ensures
            r.entries() == empty_entries(),
    {
        Bunch(map_new())
    }

    /// Stores a property under its own name, replacing a property of the
    /// same name.
    pub fn insert(&mut self, property: RawProperty)
        ensures
            final(self).entries() == old(self).entries().insert(
                property.property@,
                (property.property@, property.value@),
            ),
    {
        let name = property.property.clone();
        map_insert(&mut self.0, name, property);
    }

    /// The property stored under `name`, if any.
    pub fn get(&self, name: &str) -> (r: Option<&RawProperty>)
        ensures
            r matches Some(v) ==> self.entries().contains_key(name@) && self.entries()[name@]
                == (v.property@, v.value@),
            r is None ==> !self.entries().contains_key(name@),
    {
        map_get(&self.0, name)
    }
}

} // verus!
