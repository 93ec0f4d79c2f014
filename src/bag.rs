use anymap::AnyMap;
use vstd::prelude::*;

verus! {

/// A store of at most one value for each type, keyed by the type's runtime
/// identity.
#[verifier::external_body]
pub struct TypedBag {
    map: AnyMap,
}

/// How many values a bag holds: one at most for each type.
pub uninterp spec fn bag_len(b: TypedBag) -> nat;

/// Relies on `anymap::Map::new`: a new map holds nothing.
#[verifier::external_body]
fn bag_new() -> (r: TypedBag)
    ensures
        bag_len(r) == 0,
{
    TypedBag { map: AnyMap::new() }
}

/// Relies on `anymap::Map::len`: the number of values held.
#[verifier::external_body]
fn bag_count(b: &TypedBag) -> (r: usize)
    ensures
        r == bag_len(*b),
{
    b.map.len()
}

/// Relies on `anymap::Map::insert`: the value takes the place of the one of
/// its type, which comes back; where there was none, the map holds one more.
#[verifier::external_body]
fn bag_insert<T: 'static>(b: &mut TypedBag, value: T) -> (r: Option<T>)
    ensures
        r is None ==> bag_len(*final(b)) == bag_len(*old(b)) + 1,
        r is Some ==> bag_len(*final(b)) == bag_len(*old(b)) && bag_len(*old(b)) > 0,
{
    b.map.insert(value)
}

/// Relies on `anymap::Map::get`: an empty map has nothing to lend.
#[verifier::external_body]
fn bag_get<T: 'static>(b: &TypedBag) -> (r: Option<&T>)
    ensures
        bag_len(*b) == 0 ==> r is None,
{
    b.map.get::<T>()
}

/// Relies on `anymap::Map::remove`: the value of the type leaves the map,
/// which then holds one less.
#[verifier::external_body]
fn bag_remove<T: 'static>(b: &mut TypedBag) -> (r: Option<T>)
    ensures
        r is None ==> bag_len(*final(b)) == bag_len(*old(b)),
        r is Some ==> bag_len(*old(b)) > 0 && bag_len(*final(b)) == bag_len(*old(b)) - 1,
{
    b.map.remove::<T>()
}

impl TypedBag {
    /// An empty bag.
    pub fn new() -> (r: TypedBag)
        ensures
            r.len_spec() == 0,
    {
        bag_new()
    }

    pub open spec fn len_spec(&self) -> nat {
        bag_len(*self)
    }

    /// The number of values held.
    pub fn len(&self) -> (r: usize)
        ensures
            r == self.len_spec(),
    {
        bag_count(self)
    }

    pub fn is_empty(&self) -> (r: bool)
        ensures
            r == (self.len_spec() == 0),
    {
        bag_count(self) == 0
    }

    /// Stores `value` as the value of its type; the value it replaces, if
    /// any, comes back.
    pub fn insert<T: 'static>(&mut self, value: T) -> (r: Option<T>)
        ensures
            r is None ==> final(self).len_spec() == old(self).len_spec() + 1,
            r is Some ==> final(self).len_spec() == old(self).len_spec() && old(self).len_spec()
                > 0,
    {
        bag_insert(self, value)
    }

    /// Lends the value of type `T`, if the bag holds one.
    pub fn get<T: 'static>(&self) -> (r: Option<&T>)
        ensures
            self.len_spec() == 0 ==> r is None,
    {
        bag_get::<T>(self)
    }

    /// Takes the value of type `T` out of the bag, if it holds one.
    pub fn remove<T: 'static>(&mut self) -> (r: Option<T>)
        ensures
            r is None ==> final(self).len_spec() == old(self).len_spec(),
            r is Some ==> final(self).len_spec() + 1 == old(self).len_spec(),
    {
        bag_remove::<T>(self)
    }
}

} // verus!
