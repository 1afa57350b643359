//! A small store for game data, made of typed fields.

use vstd::prelude::*;

verus! {

/// The game's data store.
pub struct DataStore {}

/// A single typed field of the data store.
pub struct Field<T> {
    value: T,
}

impl<T> Field<T> {
    /// The value currently held by the field.
    pub closed spec fn spec_value(self) -> T {
        self.value
    }

    /// Creates a field holding the given value.
    pub fn new(value: T) -> (r: Self)
        ensures
            r.spec_value() == value,
    {
        Field { value }
    }

    /// Replaces the field's value.
    pub fn set(&mut self, new_value: T)
        ensures
            final(self).spec_value() == new_value,
    {
        self.value = new_value;
    }

    /// Reads the field's value.
    pub fn get(&self) -> (r: &T)
        ensures
            *r == self.spec_value(),
    {
        &self.value
    }
}

} // verus!
